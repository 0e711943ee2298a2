//! Tasks, to-do lists and projects, with a derived completion percentage.
//!
//! A `TodoList` owns an ordered sequence of tasks; its completion
//! percentage is recomputed on demand from the tasks rather than cached,
//! and an empty list counts as zero progress by convention.

use vstd::arithmetic::div_mod::{
    lemma_div_is_ordered, lemma_div_multiples_vanish, lemma_div_pos_is_pos,
};
use vstd::arithmetic::mul::lemma_mul_inequality;
use vstd::prelude::*;

verus! {

/// A single to-do item: a description and a completion flag.
#[derive(Debug)]
pub struct Task {
    pub description: String,
    pub is_complete: bool,
}

impl Task {
    /// A new task starts out not yet complete.
    pub fn new(description: String) -> (t: Self)
        ensures
            t.description == description,
            !t.is_complete,
    {
        Self { description, is_complete: false }
    }
}

impl Clone for Task {
    /// Cloning a task keeps its description and its completion flag.
    fn clone(&self) -> (t: Self)
        ensures
            t == self,
    {
        Task { description: self.description.clone(), is_complete: self.is_complete }
    }
}

impl Default for Task {
    /// The default task has an empty description and is not complete.
    fn default() -> (t: Self)
        ensures
            t.description@ == Seq::<char>::empty(),
            !t.is_complete,
    {
        Self { description: String::new(), is_complete: false }
    }
}

/// Rejections raised when a project or task is created from bad fields.
#[derive(Debug, PartialEq, Eq, Structural, Clone, Copy)]
pub enum ValidationError {
    EmptyName,
    EmptyDescription,
}

/// How many tasks of `tasks` are complete.
pub open spec fn count_complete(tasks: Seq<Task>) -> nat
    decreases tasks.len(),
{
    if tasks.len() == 0 {
        0
    } else {
        count_complete(tasks.drop_last()) + if tasks.last().is_complete {
            1nat
        } else {
            0nat
        }
    }
}

/// The whole-number completion percentage of `completed` out of `total`,
/// defined as 0 when `total` is 0.
pub open spec fn percent_of(completed: int, total: int) -> int {
    if total == 0 {
        0
    } else {
        100 * completed / total
    }
}

/// `tasks` with the completion flag of the task at `i` set to `complete`.
pub open spec fn with_task_complete(tasks: Seq<Task>, i: int, complete: bool) -> Seq<Task> {
    tasks.update(i, (Task { description: tasks[i].description, is_complete: complete }))
}

/// Completion progress of a to-do list, kept as the exact pair of counts
/// so that no precision is lost; `percent` rounds it down to a whole number.
#[derive(Debug, PartialEq, Eq, Structural, Clone, Copy)]
pub struct Progress {
    pub completed: usize,
    pub total: usize,
}

impl Progress {
    /// A progress value never reports more complete tasks than tasks.
    pub open spec fn well_formed(self) -> bool {
        self.completed <= self.total
    }

    /// The whole-number percentage, between 0 and 100; an empty list is 0.
    pub fn percent(&self) -> (p: u8)
        requires
            self.well_formed(),
        ensures
            p as int == percent_of(self.completed as int, self.total as int),
            p <= 100,
            self.total == 0 ==> p == 0,
    {
        if self.total == 0 {
            0
        } else {
            let num: u128 = 100u128 * (self.completed as u128);
            let q: u128 = num / (self.total as u128);
            proof {
                let c = self.completed as int;
                let t = self.total as int;
                lemma_mul_inequality(c, t, 100);
                lemma_div_is_ordered(100 * c, 100 * t, t);
                lemma_div_multiples_vanish(100, t);
                lemma_div_pos_is_pos(100 * c, t);
            }
            q as u8
        }
    }
}

/// An ordered collection of tasks; the completion percentage is derived
/// from the tasks on each read.
#[derive(Debug)]
pub struct TodoList {
    pub tasks: Vec<Task>,
}

impl TodoList {
    /// A new to-do list holds no tasks.
    pub fn new() -> (l: Self)
        ensures
            l.tasks@.len() == 0,
    {
        Self { tasks: Vec::new() }
    }

    /// Recomputes the completion progress from the current tasks: the
    /// exact count of complete tasks out of the total count.
    pub fn calculate_progress(&self) -> (p: Progress)
        ensures
            p.completed == count_complete(self.tasks@),
            p.total == self.tasks@.len(),
            p.well_formed(),
    {
        let total: usize = self.tasks.len();
        let mut completed: usize = 0;
        let mut i: usize = 0;
        while i < total
            invariant
                total == self.tasks@.len(),
                i <= total,
                completed == count_complete(self.tasks@.subrange(0, i as int)),
                completed <= i,
            decreases total - i,
        {
            proof {
                let s1 = self.tasks@.subrange(0, i + 1);
                assert(s1.drop_last() =~= self.tasks@.subrange(0, i as int));
                assert(s1.last() == self.tasks@[i as int]);
            }
            if self.tasks[i].is_complete {
                completed = completed + 1;
            }
            i = i + 1;
        }
        proof {
            assert(self.tasks@.subrange(0, total as int) =~= self.tasks@);
            lemma_count_complete_le_len(self.tasks@);
        }
        Progress { completed, total }
    }

    /// Appends a task with the given description; a task always starts
    /// incomplete. An empty description is rejected and the list is left
    /// unchanged.
    pub fn add_task(&mut self, description: String) -> (r: Result<(), ValidationError>)
        ensures
            description@.len() == 0 ==> r == Err::<(), ValidationError>(
                ValidationError::EmptyDescription,
            ) && final(self).tasks@ == old(self).tasks@,
            description@.len() > 0 ==> r == Ok::<(), ValidationError>(())
                && final(self).tasks@ =~= old(self).tasks@.push(
                (Task { description: description, is_complete: false }),
            ),
    {
        if description.as_str().is_empty() {
            Err(ValidationError::EmptyDescription)
        } else {
            self.tasks.push(Task::new(description));
            Ok(())
        }
    }

    /// Sets the completion flag of the task at `i`, leaving its
    /// description and every other task unchanged.
    pub fn set_task_complete(&mut self, i: usize, complete: bool)
        requires
            i < old(self).tasks@.len(),
        ensures
            final(self).tasks@ =~= with_task_complete(old(self).tasks@, i as int, complete),
    {
        let t = &mut self.tasks[i];
        t.is_complete = complete;
    }
}

impl Default for TodoList {
    /// The default to-do list is empty.
    fn default() -> (l: Self)
        ensures
            l.tasks@.len() == 0,
    {
        Self::new()
    }
}

/// A named unit of work with metadata and one owned to-do list.
#[derive(Debug)]
pub struct Project {
    pub name: String,
    pub description: String,
    pub file_location: String,
    pub todo_list: TodoList,
}

impl Project {
    /// A new project carries its fields and an empty to-do list.
    pub fn new(name: String, description: String, file_location: String) -> (p: Self)
        ensures
            p.name == name,
            p.description == description,
            p.file_location == file_location,
            p.todo_list.tasks@.len() == 0,
    {
        Self { name, description, file_location, todo_list: TodoList::new() }
    }
}

/// There are never more complete tasks than tasks.
pub proof fn lemma_count_complete_le_len(tasks: Seq<Task>)
    ensures
        count_complete(tasks) <= tasks.len(),
    decreases tasks.len(),
{
    if tasks.len() > 0 {
        lemma_count_complete_le_len(tasks.drop_last());
    }
}

/// Replacing the task at `i` by `v` changes the complete count exactly by
/// the difference of the two tasks' completion flags.
proof fn lemma_count_complete_update(tasks: Seq<Task>, i: int, v: Task)
    requires
        0 <= i < tasks.len(),
    ensures
        count_complete(tasks.update(i, v)) as int == count_complete(tasks) as int
            - (if tasks[i].is_complete { 1int } else { 0int })
            + (if v.is_complete { 1int } else { 0int }),
    decreases tasks.len(),
{
    let s2 = tasks.update(i, v);
    if i == tasks.len() - 1 {
        assert(s2.drop_last() =~= tasks.drop_last());
        assert(s2.last() == v);
    } else {
        assert(s2.drop_last() =~= tasks.drop_last().update(i, v));
        assert(s2.last() == tasks.last());
        lemma_count_complete_update(tasks.drop_last(), i, v);
    }
}

/// The completion percentage is always well-defined and lies between 0
/// and 100: 0 for an empty list, and at most 100 otherwise.
pub proof fn lemma_progress_in_range(tasks: Seq<Task>)
    ensures
        count_complete(tasks) <= tasks.len(),
        0 <= percent_of(count_complete(tasks) as int, tasks.len() as int) <= 100,
{
    lemma_count_complete_le_len(tasks);
    let c = count_complete(tasks) as int;
    let t = tasks.len() as int;
    if t > 0 {
        lemma_mul_inequality(c, t, 100);
        lemma_div_is_ordered(100 * c, 100 * t, t);
        lemma_div_multiples_vanish(100, t);
        lemma_div_pos_is_pos(100 * c, t);
    }
}

/// Marking a task complete never lowers the completion percentage.
pub proof fn lemma_mark_complete_nondecreasing(tasks: Seq<Task>, i: int)
    requires
        0 <= i < tasks.len(),
    ensures
        with_task_complete(tasks, i, true).len() == tasks.len(),
        count_complete(tasks) <= count_complete(with_task_complete(tasks, i, true)),
        percent_of(count_complete(tasks) as int, tasks.len() as int) <= percent_of(
            count_complete(with_task_complete(tasks, i, true)) as int,
            tasks.len() as int,
        ),
{
    lemma_count_complete_update(
        tasks,
        i,
        (Task { description: tasks[i].description, is_complete: true }),
    );
    let c1 = count_complete(tasks) as int;
    let c2 = count_complete(with_task_complete(tasks, i, true)) as int;
    let t = tasks.len() as int;
    lemma_div_is_ordered(100 * c1, 100 * c2, t);
}

/// Marking a task incomplete never raises the completion percentage.
pub proof fn lemma_mark_incomplete_nonincreasing(tasks: Seq<Task>, i: int)
    requires
        0 <= i < tasks.len(),
    ensures
        with_task_complete(tasks, i, false).len() == tasks.len(),
        count_complete(with_task_complete(tasks, i, false)) <= count_complete(tasks),
        percent_of(count_complete(with_task_complete(tasks, i, false)) as int, tasks.len() as int)
            <= percent_of(count_complete(tasks) as int, tasks.len() as int),
{
    lemma_count_complete_update(
        tasks,
        i,
        (Task { description: tasks[i].description, is_complete: false }),
    );
    let c1 = count_complete(with_task_complete(tasks, i, false)) as int;
    let c2 = count_complete(tasks) as int;
    let t = tasks.len() as int;
    lemma_div_is_ordered(100 * c1, 100 * c2, t);
}

} // verus!
