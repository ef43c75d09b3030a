//! The command executor and its undo history.
//!
//! A session owns the live list and the snapshots taken of it. Every command
//! that changes the list first records the list as it was; `undo` puts an
//! earlier snapshot back and, being a change itself, is recorded too.

use crate::command::{lemma_parsed_titles_are_not_empty, parse_line, Command, CommandView};
use crate::task::{TaskView, User, UserView};
use crate::validation::{check_bounds, in_range, refusal, Reason};
use vstd::prelude::*;

verus! {

/// The commands that carry a number and can be refused for it.
#[derive(Clone, Copy, Debug, PartialEq, Eq, Structural)]
pub enum Verb {
    Update,
    Complete,
    Remove,
    Undo,
}

/// A command that was refused, with the number it carried and the reason.
#[derive(Clone, Copy, Debug, PartialEq, Eq, Structural)]
pub struct Rejection {
    pub verb: Verb,
    pub argument: usize,
    pub reason: Reason,
}

/// What the caller has to do after a command was handed to the session.
#[derive(Clone, Copy, Debug, PartialEq, Eq, Structural)]
pub enum Outcome {
    /// The list was changed and its earlier state recorded.
    Changed,
    /// The command was refused; nothing changed.
    Rejected(Rejection),
    /// The list of commands is to be shown; nothing changed.
    Help,
    /// The session is over; nothing changed.
    Quit,
    /// The line was no command; nothing changed.
    Unrecognized,
}

/// The refusal of the number `argument` of a `verb` against `len` items.
pub open spec fn numbered(verb: Verb, argument: usize, len: nat) -> Option<Rejection> {
    match refusal(argument as int, len as int) {
        Some(reason) => Some(Rejection { verb, argument, reason }),
        None => None,
    }
}

/// The mathematical value of a [`Session`]: the live list and the snapshots
/// recorded so far, oldest first.
#[verifier::ext_equal]
pub ghost struct SessionView {
    pub user: UserView,
    pub history: Seq<UserView>,
}

impl SessionView {
    /// A session that starts from `user` with nothing recorded.
    pub open spec fn fresh(user: UserView) -> SessionView {
        SessionView { user, history: Seq::empty() }
    }

    /// The refusal that `command` meets in this state, if it meets one.
    /// Positions are checked against the list, undo counts against the
    /// history.
    pub open spec fn rejection(self, command: CommandView) -> Option<Rejection> {
        match command {
            CommandView::Update(id, _) => numbered(Verb::Update, id, self.user.tasks.len()),
            CommandView::Complete(id) => numbered(Verb::Complete, id, self.user.tasks.len()),
            CommandView::Remove(id) => numbered(Verb::Remove, id, self.user.tasks.len()),
            CommandView::Undo(steps) => numbered(Verb::Undo, steps, self.history.len()),
            _ => None,
        }
    }

    /// Whether `command` changes this state.
    pub open spec fn changes(self, command: CommandView) -> bool {
        !(command is Help) && !(command is Quit) && self.rejection(command) is None
    }

    /// The list that `command` leaves when it is accepted.
    pub open spec fn list_after(self, command: CommandView) -> UserView {
        match command {
            CommandView::Add(title) => self.user.with_added(title),
            CommandView::Update(id, title) => self.user.with_title(id as int, title),
            CommandView::Complete(id) => self.user.with_toggled(id as int),
            CommandView::Remove(id) => self.user.without(id as int),
            CommandView::Clear => self.user.emptied(),
            CommandView::Undo(steps) => self.history[self.history.len() - steps],
            _ => self.user,
        }
    }

    /// The state after `command`. A command that changes the state records
    /// the list as it was and then replaces it; any other leaves the state
    /// as it is.
    pub open spec fn step(self, command: CommandView) -> SessionView {
        if self.changes(command) {
            SessionView { user: self.list_after(command), history: self.history.push(self.user) }
        } else {
            self
        }
    }

    /// The state after the line `line` was read: that after the command that
    /// the line writes, or this state where it writes none.
    pub open spec fn read(self, line: Seq<char>) -> SessionView {
        match parse_line(line) {
            Some(command) => self.step(command),
            None => self,
        }
    }

    /// What is reported for the line `line` in this state.
    pub open spec fn report(self, line: Seq<char>) -> Outcome {
        match parse_line(line) {
            Some(command) => self.outcome(command),
            None => Outcome::Unrecognized,
        }
    }

    /// Every task of the list and of every snapshot has a title.
    pub open spec fn titled(self) -> bool {
        &&& self.user.titled()
        &&& forall|i: int| 0 <= i < self.history.len() ==> (#[trigger] self.history[i]).titled()
    }

    /// What is reported for `command` in this state.
    pub open spec fn outcome(self, command: CommandView) -> Outcome {
        match command {
            CommandView::Help => Outcome::Help,
            CommandView::Quit => Outcome::Quit,
            _ => match self.rejection(command) {
                Some(rejection) => Outcome::Rejected(rejection),
                None => Outcome::Changed,
            },
        }
    }
}

/// The values of a sequence of lists, in order.
pub open spec fn user_views(users: Seq<User>) -> Seq<UserView> {
    users.map_values(|u: User| u@)
}

/// The live list of one owner together with the snapshots taken of it.
pub struct Session {
    user: User,
    history: Vec<User>,
}

impl View for Session {
    type V = SessionView;

    closed spec fn view(&self) -> SessionView {
        SessionView { user: self.user@, history: user_views(self.history@) }
    }
}

impl Session {
    /// Starts a session on `user` with an empty history.
    pub fn new(user: User) -> (session: Session)
        ensures
            session@ == SessionView::fresh(user@),
    {
        let session = Session { user, history: Vec::new() };
        assert(session@.history =~= Seq::empty());
        session
    }

    /// The live list.
    pub fn user(&self) -> (user: &User)
        ensures
            user@ == self@.user,
    {
        &self.user
    }

    /// The snapshots recorded so far, oldest first.
    pub fn history(&self) -> (history: &Vec<User>)
        ensures
            user_views(history@) == self@.history,
    {
        &self.history
    }

    /// Ends the session and hands out the live list.
    pub fn into_user(self) -> (user: User)
        ensures
            user@ == self@.user,
    {
        self.user
    }

    /// Records the live list as it is now.
    fn snapshot(&mut self)
        ensures
            final(self)@.user == old(self)@.user,
            final(self)@.history == old(self)@.history.push(old(self)@.user),
    {
        let copy = self.user.clone();
        self.history.push(copy);
        assert(self@.history =~= old(self)@.history.push(old(self)@.user));
    }

    /// Reads the line `line` and applies the command that it writes. A line
    /// that writes no command changes nothing and is reported as such.
    pub fn execute(&mut self, line: &str) -> (outcome: Outcome)
        ensures
            final(self)@ == old(self)@.read(line@),
            outcome == old(self)@.report(line@),
    {
        match Command::op(line) {
            Some(command) => self.apply(command),
            None => Outcome::Unrecognized,
        }
    }

    /// Applies `command` to the session and says what became of it.
    ///
    /// A command that changes the list records the list as it was before it
    /// touches it. A refused command, `help` and `quit` leave both the list
    /// and the history as they are.
    pub fn apply(&mut self, command: Command) -> (outcome: Outcome)
        ensures
            final(self)@ == old(self)@.step(command@),
            outcome == old(self)@.outcome(command@),
    {
        match command {
            Command::Add(title) => {
                self.snapshot();
                self.user.add(title);
                Outcome::Changed
            },
            Command::Update(id, title) => match check_bounds(id, self.user.len()) {
                Err(reason) => Outcome::Rejected(
                    Rejection { verb: Verb::Update, argument: id, reason },
                ),
                Ok(_) => {
                    self.snapshot();
                    let _ = self.user.update(id, title);
                    Outcome::Changed
                },
            },
            Command::Complete(id) => match check_bounds(id, self.user.len()) {
                Err(reason) => Outcome::Rejected(
                    Rejection { verb: Verb::Complete, argument: id, reason },
                ),
                Ok(_) => {
                    self.snapshot();
                    let _ = self.user.complete(id);
                    Outcome::Changed
                },
            },
            Command::Remove(id) => match check_bounds(id, self.user.len()) {
                Err(reason) => Outcome::Rejected(
                    Rejection { verb: Verb::Remove, argument: id, reason },
                ),
                Ok(_) => {
                    self.snapshot();
                    let _ = self.user.remove(id);
                    Outcome::Changed
                },
            },
            Command::Clear => {
                self.snapshot();
                self.user.clear();
                Outcome::Changed
            },
            Command::Undo(steps) => match check_bounds(steps, self.history.len()) {
                Err(reason) => Outcome::Rejected(
                    Rejection { verb: Verb::Undo, argument: steps, reason },
                ),
                Ok(_) => {
                    self.snapshot();
                    let recorded: usize = self.history.len();
                    assert(recorded == old(self)@.history.len() + 1) by {
                        assert(self@.history.len() == self.history@.len());
                        assert(old(self)@.history.len() == old(self).history@.len());
                    }
                    let index: usize = recorded - steps - 1;
                    assert(self.history@[index as int]@ == old(self)@.history[index as int]) by {
                        assert(self@.history[index as int] == self.history@[index as int]@);
                    }
                    self.user = self.history[index].clone();
                    Outcome::Changed
                },
            },
            Command::Help => Outcome::Help,
            Command::Quit => Outcome::Quit,
        }
    }
}

/// `add` is never refused: it lengthens the list by exactly one task, the
/// new task stands last, is open and has the given title, and the tasks
/// before it are those of the list as it was.
pub proof fn lemma_add_appends(state: SessionView, title: Seq<char>)
    ensures
        state.changes(CommandView::Add(title)),
        state.step(CommandView::Add(title)).user.tasks.len() == state.user.tasks.len() + 1,
        state.step(CommandView::Add(title)).user.tasks.last() == (TaskView {
            title,
            completed: false,
        }),
        state.step(CommandView::Add(title)).user.tasks.drop_last() == state.user.tasks,
        state.step(CommandView::Add(title)).user.name == state.user.name,
{
    assert(state.user.tasks.push(TaskView { title, completed: false }).drop_last()
        =~= state.user.tasks);
}

/// `update`, `complete` and `remove` with a position that addresses no task
/// change neither the list nor the history. This holds on an empty list for
/// every position.
pub proof fn lemma_bad_position_changes_nothing(state: SessionView, command: CommandView)
    requires
        match command {
            CommandView::Update(id, _) => !in_range(id as int, state.user.tasks.len() as int),
            CommandView::Complete(id) => !in_range(id as int, state.user.tasks.len() as int),
            CommandView::Remove(id) => !in_range(id as int, state.user.tasks.len() as int),
            _ => false,
        },
    ensures
        state.step(command) == state,
        state.outcome(command) is Rejected,
{
}

/// Completing the same task twice in a row gives back the list as it was.
pub proof fn lemma_complete_twice_restores(state: SessionView, id: usize)
    requires
        in_range(id as int, state.user.tasks.len() as int),
    ensures
        state.step(CommandView::Complete(id)).step(CommandView::Complete(id)).user == state.user,
{
    let once = state.step(CommandView::Complete(id));
    let twice = once.step(CommandView::Complete(id));
    assert(twice.user.tasks =~= state.user.tasks);
}

/// `undo` by zero steps, or by more steps than snapshots were recorded,
/// changes neither the list nor the history.
pub proof fn lemma_undo_out_of_reach_changes_nothing(state: SessionView, steps: usize)
    requires
        steps == 0 || steps > state.history.len(),
    ensures
        state.step(CommandView::Undo(steps)) == state,
        state.outcome(CommandView::Undo(steps)) is Rejected,
{
}

/// An accepted `undo` by `steps` puts back the snapshot that stands `steps`
/// places from the end of the history, and records the list that it
/// replaces. Counted on the history after that record was made, the snapshot
/// stands at `len - steps - 1`.
pub proof fn lemma_undo_restores_snapshot(state: SessionView, steps: usize)
    requires
        in_range(steps as int, state.history.len() as int),
    ensures
        state.step(CommandView::Undo(steps)).user == state.history[state.history.len() - steps],
        state.step(CommandView::Undo(steps)).history == state.history.push(state.user),
        state.step(CommandView::Undo(steps)).user == state.step(
            CommandView::Undo(steps),
        ).history[state.step(CommandView::Undo(steps)).history.len() - steps - 1],
{
}

/// Undoing an `undo` gives back the list as it was before the first `undo`.
pub proof fn lemma_undo_is_undoable(state: SessionView, steps: usize)
    requires
        in_range(steps as int, state.history.len() as int),
    ensures
        state.step(CommandView::Undo(steps)).step(CommandView::Undo(1)).user == state.user,
{
}

/// Tasks keep having titles: where every task of the list and of every
/// snapshot has a title, this still holds after any command that does not
/// itself bring an empty title.
pub proof fn lemma_step_keeps_titles(state: SessionView, command: CommandView)
    requires
        state.titled(),
        match command {
            CommandView::Add(title) => title.len() > 0,
            CommandView::Update(_, title) => title.len() > 0,
            _ => true,
        },
    ensures
        state.step(command).titled(),
{
    let next = state.step(command);
    if state.changes(command) {
        assert forall|i: int| 0 <= i < next.history.len() implies (
        #[trigger] next.history[i]).titled() by {
            if i < state.history.len() {
                assert(next.history[i] == state.history[i]);
            }
        }
        match command {
            CommandView::Undo(steps) => {
                assert(next.user == state.history[state.history.len() - steps]);
            },
            CommandView::Remove(id) => {
                assert forall|i: int| 0 <= i < next.user.tasks.len() implies (
                #[trigger] next.user.tasks[i]).title.len() > 0 by {
                    if i < id - 1 {
                        assert(next.user.tasks[i] == state.user.tasks[i]);
                    } else {
                        assert(next.user.tasks[i] == state.user.tasks[i + 1]);
                    }
                }
            },
            _ => {},
        }
    }
}

/// Reading lines keeps titles too, since no line writes an empty title.
pub proof fn lemma_read_keeps_titles(state: SessionView, line: Seq<char>)
    requires
        state.titled(),
    ensures
        state.read(line).titled(),
{
    lemma_parsed_titles_are_not_empty(line);
    match parse_line(line) {
        Some(command) => lemma_step_keeps_titles(state, command),
        None => {},
    }
}

/// Every command either leaves the list and the history as they are, or
/// records the list as it was as the newest snapshot: never one without the
/// other.
pub proof fn lemma_step_records_or_keeps(state: SessionView, command: CommandView)
    ensures
        state.step(command) == state || state.step(command).history == state.history.push(
            state.user,
        ),
        state.outcome(command) is Changed <==> state.changes(command),
        state.outcome(command) is Changed <==> state.step(command).history.len()
            == state.history.len() + 1,
{
}

} // verus!
