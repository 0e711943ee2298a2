//! The pure part of the renderer: a mapping from the application state
//! to the data each screen shows, as plain values. The surrounding
//! program turns a `ScreenView` into terminal widgets without deciding
//! anything itself.

use crate::state::{App, AppState};
use crate::todo::{count_complete, Progress, Task};
use vstd::prelude::*;

verus! {

/// What one frame shows, selected by the active screen.
#[derive(Debug)]
pub enum ScreenView {
    /// The names of all projects, in order.
    ProjectSelection { project_names: Vec<String> },
    /// The form for a new project's fields.
    ProjectCreation,
    /// The tasks of the focused project with their completion flags, and
    /// the list's progress.
    SelectedProjectTodoList { tasks: Vec<Task>, progress: Progress },
    /// The form for a new task's description.
    TaskCreation,
}

/// The tasks shown on the to-do screen: those of the first project, by
/// convention, since no focus is tracked yet; none when there is no
/// project.
pub open spec fn focused_tasks(app: App) -> Seq<Task> {
    if app.projects@.len() == 0 {
        Seq::empty()
    } else {
        app.projects@[0].todo_list.tasks@
    }
}

/// What the view of `app` must show: one of the four screens, selected
/// by the active state, with the data of that screen.
pub open spec fn view_matches(app: App, v: ScreenView) -> bool {
    match app.state {
        AppState::ProjectSelectionPage => v matches ScreenView::ProjectSelection { project_names }
            && project_names@ == app.projects@.map_values(|p: crate::todo::Project| p.name),
        AppState::ProjectCreationPage => v is ProjectCreation,
        AppState::SelectedProjectTodoList => v matches ScreenView::SelectedProjectTodoList {
            tasks,
            progress,
        } && tasks@ == focused_tasks(app) && progress.completed == count_complete(
            focused_tasks(app),
        ) && progress.total == focused_tasks(app).len(),
        AppState::TaskCreationPage => v is TaskCreation,
    }
}

/// Computes the view of the current state: a pure function of `app`,
/// with no side effect.
pub fn screen_view(app: &App) -> (v: ScreenView)
    ensures
        view_matches(*app, v),
{
    match app.state {
        AppState::ProjectSelectionPage => {
            let n: usize = app.projects.len();
            let mut names: Vec<String> = Vec::new();
            let mut i: usize = 0;
            while i < n
                invariant
                    n == app.projects@.len(),
                    i <= n,
                    names@.len() == i,
                    forall|j: int|
                        0 <= j < i ==> names@[j] == #[trigger] app.projects@[j].name,
                decreases n - i,
            {
                names.push(app.projects[i].name.clone());
                i = i + 1;
            }
            proof {
                assert(names@ =~= app.projects@.map_values(|p: crate::todo::Project| p.name));
            }
            ScreenView::ProjectSelection { project_names: names }
        },
        AppState::ProjectCreationPage => ScreenView::ProjectCreation,
        AppState::SelectedProjectTodoList => {
            if app.projects.len() == 0 {
                ScreenView::SelectedProjectTodoList {
                    tasks: Vec::new(),
                    progress: Progress { completed: 0, total: 0 },
                }
            } else {
                let list = &app.projects[0].todo_list;
                let progress = list.calculate_progress();
                let n: usize = list.tasks.len();
                let mut tasks: Vec<Task> = Vec::new();
                let mut i: usize = 0;
                while i < n
                    invariant
                        n == list.tasks@.len(),
                        i <= n,
                        tasks@ =~= list.tasks@.subrange(0, i as int),
                    decreases n - i,
                {
                    proof {
                        assert(list.tasks@.subrange(0, i + 1) =~= list.tasks@.subrange(
                            0,
                            i as int,
                        ).push(list.tasks@[i as int]));
                    }
                    tasks.push(list.tasks[i].clone());
                    i = i + 1;
                }
                proof {
                    assert(tasks@ =~= list.tasks@);
                }
                ScreenView::SelectedProjectTodoList { tasks, progress }
            }
        },
        AppState::TaskCreationPage => ScreenView::TaskCreation,
    }
}

} // verus!
