//! What the history holds after a run of commands, and what `undo` restores.

use crate::command::CommandView;
use crate::session::SessionView;
use crate::validation::in_range;
use vstd::prelude::*;

verus! {

/// The state reached from `start` by the given commands, applied in order.
pub open spec fn run(start: SessionView, commands: Seq<CommandView>) -> SessionView
    decreases commands.len(),
{
    if commands.len() == 0 {
        start
    } else {
        run(start, commands.drop_last()).step(commands.last())
    }
}

/// Every command of the run changes the state in which it is applied: none
/// is refused, and none is `help` or `quit`.
pub open spec fn all_change(start: SessionView, commands: Seq<CommandView>) -> bool {
    forall|i: int|
        0 <= i < commands.len() ==> run(start, #[trigger] commands.take(i)).changes(commands[i])
}

/// The history only grows: after any run it begins with the history that the
/// run started from.
pub proof fn lemma_history_is_append_only(start: SessionView, commands: Seq<CommandView>)
    ensures
        start.history.is_prefix_of(run(start, commands).history),
    decreases commands.len(),
{
    if commands.len() > 0 {
        lemma_history_is_append_only(start, commands.drop_last());
    }
}

/// After a run of commands that all change the state, the history holds one
/// more snapshot for each command, and the snapshot recorded for a command is
/// the list as it was just before that command was applied.
pub proof fn lemma_history_records_each_state(start: SessionView, commands: Seq<CommandView>)
    requires
        all_change(start, commands),
    ensures
        run(start, commands).history.len() == start.history.len() + commands.len(),
        forall|i: int|
            0 <= i < commands.len() ==> run(start, commands).history[start.history.len() + i]
                == run(start, #[trigger] commands.take(i)).user,
    decreases commands.len(),
{
    if commands.len() > 0 {
        let earlier = commands.drop_last();
        assert forall|i: int| 0 <= i < earlier.len() implies run(
            start,
            #[trigger] earlier.take(i),
        ).changes(earlier[i]) by {
            assert(earlier.take(i) == commands.take(i));
        }
        lemma_history_records_each_state(start, earlier);
        assert(commands.take(earlier.len() as int) == earlier);
        assert forall|i: int| 0 <= i < commands.len() implies run(
            start,
            commands,
        ).history[start.history.len() + i] == run(start, #[trigger] commands.take(i)).user by {
            if i < earlier.len() {
                assert(earlier.take(i) == commands.take(i));
            }
        }
    }
}

/// After a run of commands that all changed the state, `undo` by `steps` is
/// accepted for every `steps` from one to the number of commands, and it
/// restores the list to the state in which the command `steps` places from
/// the end of the run was applied: exactly the list reached by the commands
/// before it. This holds whatever the run started from, an empty list with
/// an empty history included.
pub proof fn lemma_undo_restores_earlier_state(
    start: SessionView,
    commands: Seq<CommandView>,
    steps: usize,
)
    requires
        all_change(start, commands),
        in_range(steps as int, commands.len() as int),
    ensures
        run(start, commands).changes(CommandView::Undo(steps)),
        run(start, commands).step(CommandView::Undo(steps)).user == run(
            start,
            commands.take(commands.len() - steps),
        ).user,
{
    lemma_history_records_each_state(start, commands);
}

/// The run that an accepted `undo` ends can itself be undone: one more step
/// back gives the list as it was before the `undo`.
pub proof fn lemma_undo_after_run_is_undoable(
    start: SessionView,
    commands: Seq<CommandView>,
    steps: usize,
)
    requires
        all_change(start, commands),
        in_range(steps as int, commands.len() as int),
    ensures
        all_change(start, commands.push(CommandView::Undo(steps))),
        run(start, commands.push(CommandView::Undo(steps))).step(CommandView::Undo(1)).user
            == run(start, commands).user,
{
    let longer = commands.push(CommandView::Undo(steps));
    lemma_history_records_each_state(start, commands);
    assert(longer.drop_last() == commands);
    assert forall|i: int| 0 <= i < longer.len() implies run(
        start,
        #[trigger] longer.take(i),
    ).changes(longer[i]) by {
        if i < commands.len() {
            assert(longer.take(i) == commands.take(i));
        } else {
            assert(longer.take(i) == commands);
        }
    }
}

} // verus!
