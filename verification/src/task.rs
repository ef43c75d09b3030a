//! Tasks and the list that owns them.

use crate::validation::{check_bounds, in_range, refusal, Reason};
use vstd::prelude::*;

verus! {

/// One entry of a to-do list.
#[derive(Debug, PartialEq, Eq)]
pub struct Task {
    /// What is to be done.
    pub title: String,
    /// Whether it has been done.
    pub completed: bool,
}

/// The mathematical value of a [`Task`].
#[verifier::ext_equal]
pub ghost struct TaskView {
    pub title: Seq<char>,
    pub completed: bool,
}

impl View for Task {
    type V = TaskView;

    open spec fn view(&self) -> TaskView {
        TaskView { title: self.title@, completed: self.completed }
    }
}

impl Clone for Task {
    fn clone(&self) -> (copy: Self)
        ensures
            copy@ == self@,
    {
        Task { title: self.title.clone(), completed: self.completed }
    }
}

impl Task {
    /// A task that is still to be done.
    pub fn new(title: String) -> (task: Task)
        ensures
            task@ == (TaskView { title: title@, completed: false }),
    {
        Task { title, completed: false }
    }
}

/// A named list of tasks. Tasks have no identity of their own: they are
/// addressed by their position in the list, counted from one.
#[derive(Debug, PartialEq, Eq)]
pub struct User {
    /// The owner's name.
    pub name: String,
    /// The tasks, in the order in which they were added.
    pub tasks: Vec<Task>,
}

/// The mathematical value of a [`User`].
#[verifier::ext_equal]
pub ghost struct UserView {
    pub name: Seq<char>,
    pub tasks: Seq<TaskView>,
}

/// The values of a sequence of tasks, in order.
pub open spec fn task_views(tasks: Seq<Task>) -> Seq<TaskView> {
    tasks.map_values(|t: Task| t@)
}

impl View for User {
    type V = UserView;

    open spec fn view(&self) -> UserView {
        UserView { name: self.name@, tasks: task_views(self.tasks@) }
    }
}

impl UserView {
    /// The list with a new open task at its end.
    pub open spec fn with_added(self, title: Seq<char>) -> UserView {
        UserView { tasks: self.tasks.push(TaskView { title, completed: false }), ..self }
    }

    /// The list with the task at position `id` given another title.
    pub open spec fn with_title(self, id: int, title: Seq<char>) -> UserView {
        UserView {
            tasks: self.tasks.update(
                id - 1,
                TaskView { title, completed: self.tasks[id - 1].completed },
            ),
            ..self
        }
    }

    /// The list with the completion mark of the task at position `id` flipped.
    pub open spec fn with_toggled(self, id: int) -> UserView {
        UserView {
            tasks: self.tasks.update(
                id - 1,
                TaskView {
                    title: self.tasks[id - 1].title,
                    completed: !self.tasks[id - 1].completed,
                },
            ),
            ..self
        }
    }

    /// The list without the task at position `id`; later tasks move up by one.
    pub open spec fn without(self, id: int) -> UserView {
        UserView { tasks: self.tasks.remove(id - 1), ..self }
    }

    /// The list with no tasks left.
    pub open spec fn emptied(self) -> UserView {
        UserView { tasks: Seq::empty(), ..self }
    }

    /// Every task has a title.
    pub open spec fn titled(self) -> bool {
        forall|i: int| 0 <= i < self.tasks.len() ==> (#[trigger] self.tasks[i]).title.len() > 0
    }
}

impl Clone for User {
    fn clone(&self) -> (copy: Self)
        ensures
            copy@ == self@,
    {
        let mut tasks: Vec<Task> = Vec::new();
        let mut i: usize = 0;
        while i < self.tasks.len()
            invariant
                i <= self.tasks.len(),
                tasks.len() == i,
                forall|j: int| 0 <= j < i ==> tasks@[j]@ == self.tasks@[j]@,
            decreases self.tasks.len() - i,
        {
            tasks.push(self.tasks[i].clone());
            i += 1;
        }
        assert(task_views(tasks@) =~= task_views(self.tasks@));
        User { name: self.name.clone(), tasks }
    }
}

impl User {
    /// The empty list of the owner `name`.
    pub fn new(name: String) -> (user: User)
        ensures
            user@ == (UserView { name: name@, tasks: Seq::empty() }),
    {
        User { name, tasks: Vec::new() }
    }

    /// The number of tasks.
    pub fn len(&self) -> (n: usize)
        ensures
            n == self@.tasks.len(),
    {
        self.tasks.len()
    }

    /// Appends an open task with the given title.
    pub fn add(&mut self, title: String)
        ensures
            final(self)@ == old(self)@.with_added(title@),
    {
        self.tasks.push(Task::new(title));
        assert(self@.tasks =~= old(self)@.with_added(title@).tasks);
    }

    /// Gives the task at position `id` another title. A position that
    /// addresses no task is refused and the list stays as it is.
    pub fn update(&mut self, id: usize, title: String) -> (done: Result<(), Reason>)
        ensures
            match done {
                Ok(_) => in_range(id as int, old(self)@.tasks.len() as int)
                    && final(self)@ == old(self)@.with_title(id as int, title@),
                Err(reason) => refusal(id as int, old(self)@.tasks.len() as int) == Some(reason)
                    && final(self)@ == old(self)@,
            },
    {
        match check_bounds(id, self.tasks.len()) {
            Err(reason) => Err(reason),
            Ok(_) => {
                self.tasks[id - 1].title = title;
                assert(self@.tasks =~= old(self)@.with_title(id as int, title@).tasks);
                Ok(())
            },
        }
    }

    /// Marks the task at position `id` as completed if it was open, and as
    /// open if it was completed. A position that addresses no task is refused
    /// and the list stays as it is.
    pub fn complete(&mut self, id: usize) -> (done: Result<(), Reason>)
        ensures
            match done {
                Ok(_) => in_range(id as int, old(self)@.tasks.len() as int)
                    && final(self)@ == old(self)@.with_toggled(id as int),
                Err(reason) => refusal(id as int, old(self)@.tasks.len() as int) == Some(reason)
                    && final(self)@ == old(self)@,
            },
    {
        match check_bounds(id, self.tasks.len()) {
            Err(reason) => Err(reason),
            Ok(_) => {
                let was: bool = self.tasks[id - 1].completed;
                self.tasks[id - 1].completed = !was;
                assert(self@.tasks =~= old(self)@.with_toggled(id as int).tasks);
                Ok(())
            },
        }
    }

    /// Deletes the task at position `id`. A position that addresses no task
    /// is refused and the list stays as it is.
    pub fn remove(&mut self, id: usize) -> (done: Result<(), Reason>)
        ensures
            match done {
                Ok(_) => in_range(id as int, old(self)@.tasks.len() as int)
                    && final(self)@ == old(self)@.without(id as int),
                Err(reason) => refusal(id as int, old(self)@.tasks.len() as int) == Some(reason)
                    && final(self)@ == old(self)@,
            },
    {
        match check_bounds(id, self.tasks.len()) {
            Err(reason) => Err(reason),
            Ok(_) => {
                let _ = self.tasks.remove(id - 1);
                assert(self@.tasks =~= old(self)@.without(id as int).tasks);
                Ok(())
            },
        }
    }

    /// Deletes every task.
    pub fn clear(&mut self)
        ensures
            final(self)@ == old(self)@.emptied(),
    {
        self.tasks.clear();
        assert(self@.tasks =~= old(self)@.emptied().tasks);
    }
}

} // verus!
