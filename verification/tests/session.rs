use cli_todo::command::Command;
use cli_todo::session::{Outcome, Rejection, Session, Verb};
use cli_todo::task::{Task, User};
use cli_todo::validation::Reason;

fn task(title: &str, completed: bool) -> Task {
    Task { title: title.to_string(), completed }
}

fn list(name: &str, tasks: Vec<Task>) -> User {
    User { name: name.to_string(), tasks }
}

fn session_with(titles: &[&str]) -> Session {
    let mut session = Session::new(User::new("ann".to_string()));
    for title in titles {
        assert_eq!(session.apply(Command::Add(title.to_string())), Outcome::Changed);
    }
    session
}

#[test]
fn a_new_session_has_no_history() {
    let session = Session::new(list("ann", vec![task("a", true)]));
    assert_eq!(session.user(), &list("ann", vec![task("a", true)]));
    assert!(session.history().is_empty());
}

#[test]
fn add_appends_an_open_task() {
    let mut session = Session::new(list("ann", vec![task("a", true)]));
    assert_eq!(session.apply(Command::Add("b c".to_string())), Outcome::Changed);
    assert_eq!(session.user().tasks, vec![task("a", true), task("b c", false)]);
    assert_eq!(session.user().name, "ann");
    assert_eq!(session.history(), &vec![list("ann", vec![task("a", true)])]);
}

#[test]
fn update_sets_the_title_only() {
    let mut session = Session::new(list("ann", vec![task("a", true), task("b", false)]));
    assert_eq!(session.apply(Command::Update(1, "z".to_string())), Outcome::Changed);
    assert_eq!(session.user().tasks, vec![task("z", true), task("b", false)]);
    assert_eq!(session.history().len(), 1);
}

#[test]
fn complete_toggles() {
    let mut session = session_with(&["a", "b"]);
    assert_eq!(session.apply(Command::Complete(2)), Outcome::Changed);
    assert_eq!(session.user().tasks, vec![task("a", false), task("b", true)]);
}

#[test]
fn complete_twice_restores_the_mark() {
    let mut session = Session::new(list("ann", vec![task("a", true), task("b", false)]));
    assert_eq!(session.apply(Command::Complete(1)), Outcome::Changed);
    assert_eq!(session.user().tasks[0], task("a", false));
    assert_eq!(session.apply(Command::Complete(1)), Outcome::Changed);
    assert_eq!(session.user(), &list("ann", vec![task("a", true), task("b", false)]));
    assert_eq!(session.history().len(), 2);
}

#[test]
fn remove_shifts_later_tasks_up() {
    let mut session = session_with(&["a", "b", "c"]);
    assert_eq!(session.apply(Command::Remove(2)), Outcome::Changed);
    assert_eq!(session.user().tasks, vec![task("a", false), task("c", false)]);
    assert_eq!(session.apply(Command::Complete(2)), Outcome::Changed);
    assert_eq!(session.user().tasks, vec![task("a", false), task("c", true)]);
}

#[test]
fn positions_outside_the_list_change_nothing() {
    for id in [0usize, 3, 4, usize::MAX] {
        let commands = [
            (Command::Update(id, "x".to_string()), Verb::Update),
            (Command::Complete(id), Verb::Complete),
            (Command::Remove(id), Verb::Remove),
        ];
        for (command, verb) in commands {
            let mut session = session_with(&["a", "b"]);
            let outcome = session.apply(command);
            assert_eq!(
                outcome,
                Outcome::Rejected(Rejection { verb, argument: id, reason: Reason::OutOfRange })
            );
            assert_eq!(session.user().tasks, vec![task("a", false), task("b", false)]);
            assert_eq!(session.history().len(), 2);
        }
    }
}

#[test]
fn every_position_is_refused_on_an_empty_list() {
    for id in [0usize, 1, 2, usize::MAX] {
        let commands = [
            (Command::Update(id, "x".to_string()), Verb::Update),
            (Command::Complete(id), Verb::Complete),
            (Command::Remove(id), Verb::Remove),
        ];
        for (command, verb) in commands {
            let mut session = Session::new(User::new("ann".to_string()));
            let outcome = session.apply(command);
            assert_eq!(
                outcome,
                Outcome::Rejected(Rejection { verb, argument: id, reason: Reason::Empty })
            );
            assert!(session.user().tasks.is_empty());
            assert!(session.history().is_empty());
        }
    }
}

#[test]
fn undo_restores_the_state_before_each_command() {
    // The states before the first, second, ... command.
    let mut states: Vec<User> = Vec::new();
    let mut session = Session::new(User::new("ann".to_string()));
    let commands = vec![
        Command::Add("a".to_string()),
        Command::Add("b".to_string()),
        Command::Complete(1),
        Command::Update(2, "c".to_string()),
        Command::Remove(1),
        Command::Clear,
    ];
    for command in commands {
        states.push(session.user().clone());
        assert_eq!(session.apply(command), Outcome::Changed);
    }
    assert_eq!(session.history(), &states);
    let n = states.len();
    for k in 1..=n {
        let mut again = Session::new(User::new("ann".to_string()));
        for command in [
            Command::Add("a".to_string()),
            Command::Add("b".to_string()),
            Command::Complete(1),
            Command::Update(2, "c".to_string()),
            Command::Remove(1),
            Command::Clear,
        ] {
            again.apply(command);
        }
        let before_undo = again.user().clone();
        assert_eq!(again.apply(Command::Undo(k)), Outcome::Changed);
        assert_eq!(again.user(), &states[n - k]);
        assert_eq!(again.history().len(), n + 1);
        assert_eq!(again.history()[n], before_undo);
        // Undoing the undo.
        assert_eq!(again.apply(Command::Undo(1)), Outcome::Changed);
        assert_eq!(again.user(), &before_undo);
    }
}

#[test]
fn undo_by_zero_or_too_many_steps_is_refused() {
    for steps in [0usize, 3, usize::MAX] {
        let mut session = session_with(&["a", "b"]);
        assert_eq!(
            session.apply(Command::Undo(steps)),
            Outcome::Rejected(Rejection {
                verb: Verb::Undo,
                argument: steps,
                reason: Reason::OutOfRange
            })
        );
        assert_eq!(session.user().tasks, vec![task("a", false), task("b", false)]);
        assert_eq!(session.history().len(), 2);
    }
}

#[test]
fn undo_without_history_is_refused_as_empty() {
    for steps in [0usize, 1, 7] {
        let mut session = Session::new(list("ann", vec![task("a", false)]));
        assert_eq!(
            session.apply(Command::Undo(steps)),
            Outcome::Rejected(Rejection { verb: Verb::Undo, argument: steps, reason: Reason::Empty })
        );
        assert_eq!(session.user().tasks, vec![task("a", false)]);
        assert!(session.history().is_empty());
    }
}

#[test]
fn undo_all_the_way_back() {
    let mut session = session_with(&["a", "b", "c"]);
    assert_eq!(session.apply(Command::Undo(3)), Outcome::Changed);
    assert!(session.user().tasks.is_empty());
    assert_eq!(session.user().name, "ann");
    assert_eq!(session.history().len(), 4);
}

#[test]
fn help_and_quit_change_nothing() {
    let mut session = session_with(&["a"]);
    assert_eq!(session.apply(Command::Help), Outcome::Help);
    assert_eq!(session.apply(Command::Quit), Outcome::Quit);
    assert_eq!(session.user().tasks, vec![task("a", false)]);
    assert_eq!(session.history().len(), 1);
}

#[test]
fn into_user_hands_out_the_live_list() {
    let mut session = session_with(&["a"]);
    session.apply(Command::Complete(1));
    assert_eq!(session.into_user(), list("ann", vec![task("a", true)]));
}

#[test]
fn scenario_add_complete_remove_undo() {
    let mut session = Session::new(User::new("ann".to_string()));
    assert_eq!(session.execute("add Buy milk"), Outcome::Changed);
    assert_eq!(session.user().tasks, vec![task("Buy milk", false)]);
    assert_eq!(session.execute("add Walk dog"), Outcome::Changed);
    assert_eq!(session.user().tasks, vec![task("Buy milk", false), task("Walk dog", false)]);
    assert_eq!(session.execute("complete 1"), Outcome::Changed);
    assert_eq!(session.user().tasks, vec![task("Buy milk", true), task("Walk dog", false)]);
    assert_eq!(session.execute("remove 2"), Outcome::Changed);
    assert_eq!(session.user().tasks, vec![task("Buy milk", true)]);
    assert_eq!(session.execute("undo 1"), Outcome::Changed);
    assert_eq!(session.user().tasks, vec![task("Buy milk", true), task("Walk dog", false)]);
}

#[test]
fn a_tab_parts_the_command_from_the_rest() {
    let mut session = Session::new(User::new("ann".to_string()));
    assert_eq!(session.execute("add\tBuy milk"), Outcome::Changed);
    assert_eq!(session.user().tasks, vec![task("Buy milk", false)]);
    assert_eq!(session.execute("complete\t1"), Outcome::Changed);
    assert_eq!(session.user().tasks, vec![task("Buy milk", true)]);
    assert_eq!(session.history().len(), 2);
}

#[test]
fn scenario_update_out_of_range() {
    let mut session = session_with(&["a", "b"]);
    assert_eq!(
        session.execute("update 5 New title"),
        Outcome::Rejected(Rejection {
            verb: Verb::Update,
            argument: 5,
            reason: Reason::OutOfRange
        })
    );
    assert_eq!(session.user().tasks, vec![task("a", false), task("b", false)]);
    assert_eq!(session.history().len(), 2);
}

#[test]
fn scenario_clear_on_an_empty_list_is_recorded() {
    let mut session = Session::new(User::new("ann".to_string()));
    assert_eq!(session.execute("clear"), Outcome::Changed);
    assert!(session.user().tasks.is_empty());
    assert_eq!(session.history(), &vec![User::new("ann".to_string())]);
    assert_eq!(session.execute("undo 1"), Outcome::Changed);
    assert!(session.user().tasks.is_empty());
    assert_eq!(session.history().len(), 2);
}

#[test]
fn a_number_that_is_none_is_refused_like_one_out_of_range() {
    let mut session = session_with(&["a"]);
    assert_eq!(
        session.execute("remove one"),
        Outcome::Rejected(Rejection {
            verb: Verb::Remove,
            argument: usize::MAX,
            reason: Reason::OutOfRange
        })
    );
    assert_eq!(
        session.execute("complete -1"),
        Outcome::Rejected(Rejection {
            verb: Verb::Complete,
            argument: usize::MAX,
            reason: Reason::OutOfRange
        })
    );
    assert_eq!(session.user().tasks, vec![task("a", false)]);
    assert_eq!(session.history().len(), 1);
}

#[test]
fn a_line_that_is_no_command_changes_nothing() {
    let mut session = session_with(&["a"]);
    for line in ["", "   ", "Add x", "add", "update 1", "clear all", "remove", "list"] {
        assert_eq!(session.execute(line), Outcome::Unrecognized);
    }
    assert_eq!(session.user().tasks, vec![task("a", false)]);
    assert_eq!(session.history().len(), 1);
}

#[test]
fn help_and_quit_lines() {
    let mut session = session_with(&["a"]);
    assert_eq!(session.execute("help"), Outcome::Help);
    assert_eq!(session.execute("  help me please "), Outcome::Help);
    assert_eq!(session.execute("quit"), Outcome::Quit);
    assert_eq!(session.execute("quit now"), Outcome::Quit);
    assert_eq!(session.history().len(), 1);
}

#[test]
fn list_methods_refuse_bad_positions() {
    let mut user = list("ann", vec![task("a", false)]);
    assert_eq!(user.update(2, "x".to_string()), Err(Reason::OutOfRange));
    assert_eq!(user.complete(0), Err(Reason::OutOfRange));
    assert_eq!(user.remove(usize::MAX), Err(Reason::OutOfRange));
    assert_eq!(user, list("ann", vec![task("a", false)]));
    assert_eq!(user.update(1, "x".to_string()), Ok(()));
    assert_eq!(user.complete(1), Ok(()));
    assert_eq!(user, list("ann", vec![task("x", true)]));
    assert_eq!(user.len(), 1);
    assert_eq!(user.remove(1), Ok(()));
    assert_eq!(user.remove(1), Err(Reason::Empty));
    user.add("y".to_string());
    user.add("z".to_string());
    assert_eq!(user.len(), 2);
    user.clear();
    assert_eq!(user, User::new("ann".to_string()));
}

#[test]
fn clones_are_equal_and_independent() {
    let first = list("ann", vec![task("a", true), task("b", false)]);
    let mut copy = first.clone();
    assert_eq!(copy, first);
    copy.add("c".to_string());
    assert_eq!(first.tasks.len(), 2);
    assert_eq!(Task::new("t".to_string()), task("t", false));
    assert_eq!(task("t", true).clone(), task("t", true));
}
