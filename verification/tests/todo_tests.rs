use project_manager::todo::{Progress, Task, TodoList, ValidationError};

/// The percentage as the terminal gauge shows it: the exact ratio as a
/// float, with an empty list defined as 0.0.
fn percent_f32(p: &Progress) -> f32 {
    if p.total == 0 {
        0.0
    } else {
        100.0 * p.completed as f32 / p.total as f32
    }
}

#[test]
fn task_new_starts_incomplete() {
    let t = Task::new(String::from("write spec"));
    assert_eq!(t.description, "write spec");
    assert!(!t.is_complete);
}

#[test]
fn task_default_is_empty_and_incomplete() {
    let t = Task::default();
    assert_eq!(t.description, "");
    assert!(!t.is_complete);
}

#[test]
fn task_clone_keeps_fields() {
    let mut t = Task::new(String::from("review"));
    t.is_complete = true;
    let c = t.clone();
    assert_eq!(c.description, "review");
    assert!(c.is_complete);
}

#[test]
fn todo_list_new_is_empty() {
    let l = TodoList::new();
    assert_eq!(l.tasks.len(), 0);
    let d = TodoList::default();
    assert_eq!(d.tasks.len(), 0);
}

#[test]
fn progress_half_done_is_fifty() {
    let mut l = TodoList::new();
    l.add_task(String::from("write spec")).unwrap();
    l.add_task(String::from("review")).unwrap();
    l.set_task_complete(1, true);
    assert!(!l.tasks[0].is_complete);
    assert!(l.tasks[1].is_complete);
    let p = l.calculate_progress();
    assert_eq!(p, Progress { completed: 1, total: 2 });
    assert_eq!(p.percent(), 50);
    assert_eq!(percent_f32(&p), 50.0);
}

#[test]
fn progress_of_empty_list_is_defined_zero() {
    let l = TodoList::new();
    let p = l.calculate_progress();
    assert_eq!(p, Progress { completed: 0, total: 0 });
    assert_eq!(p.percent(), 0);
    let f = percent_f32(&p);
    assert_eq!(f, 0.0);
    assert!(!f.is_nan());
}

#[test]
fn progress_stays_between_zero_and_hundred() {
    let mut l = TodoList::new();
    for i in 0..7 {
        l.add_task(format!("task {i}")).unwrap();
    }
    for done in 0..=7 {
        for i in 0..7 {
            l.set_task_complete(i, i < done);
        }
        let pc = l.calculate_progress().percent();
        assert!(pc <= 100);
        if done == 7 {
            assert_eq!(pc, 100);
        }
    }
}

#[test]
fn progress_rounds_down_to_whole_percent() {
    let mut l = TodoList::new();
    l.add_task(String::from("one")).unwrap();
    l.add_task(String::from("two")).unwrap();
    l.add_task(String::from("three")).unwrap();
    l.set_task_complete(0, true);
    l.set_task_complete(2, true);
    let p = l.calculate_progress();
    assert_eq!(p, Progress { completed: 2, total: 3 });
    assert_eq!(p.percent(), 66);
}

#[test]
fn marking_complete_never_lowers_progress() {
    let mut l = TodoList::new();
    for i in 0..5 {
        l.add_task(format!("task {i}")).unwrap();
    }
    l.set_task_complete(1, true);
    let before = percent_f32(&l.calculate_progress());
    l.set_task_complete(3, true);
    let after = percent_f32(&l.calculate_progress());
    assert!(after >= before);
    // Marking a task that is already complete keeps the value.
    l.set_task_complete(3, true);
    assert_eq!(percent_f32(&l.calculate_progress()), after);
}

#[test]
fn marking_incomplete_never_raises_progress() {
    let mut l = TodoList::new();
    for i in 0..5 {
        l.add_task(format!("task {i}")).unwrap();
    }
    l.set_task_complete(1, true);
    l.set_task_complete(3, true);
    let before = percent_f32(&l.calculate_progress());
    l.set_task_complete(1, false);
    let after = percent_f32(&l.calculate_progress());
    assert!(after <= before);
}

#[test]
fn add_task_rejects_empty_description() {
    let mut l = TodoList::new();
    l.add_task(String::from("real work")).unwrap();
    let r = l.add_task(String::new());
    assert_eq!(r, Err(ValidationError::EmptyDescription));
    assert_eq!(l.tasks.len(), 1);
    assert_eq!(l.tasks[0].description, "real work");
}

#[test]
fn set_task_complete_touches_only_the_target() {
    let mut l = TodoList::new();
    l.add_task(String::from("first")).unwrap();
    l.add_task(String::from("second")).unwrap();
    l.set_task_complete(0, true);
    assert!(l.tasks[0].is_complete);
    assert!(!l.tasks[1].is_complete);
    assert_eq!(l.tasks[0].description, "first");
    assert_eq!(l.tasks[1].description, "second");
    l.set_task_complete(0, false);
    assert!(!l.tasks[0].is_complete);
}
