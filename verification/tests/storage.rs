use cli_todo::storage::{file_name, owner_name, starting_list};
use cli_todo::task::{Task, User};
use cli_todo::validation::{check_bounds, is_valid_task_num, is_valid_undo, Reason};

#[test]
fn the_file_is_named_after_the_owner() {
    assert_eq!(file_name("ann"), "ann_tasks.json");
    assert_eq!(file_name(""), "_tasks.json");
    assert_eq!(file_name("Ann Lee"), "Ann Lee_tasks.json");
}

#[test]
fn the_owner_name_falls_back() {
    assert_eq!(owner_name(Some("ann".to_string())), "ann");
    assert_eq!(owner_name(Some(String::new())), "");
    assert_eq!(owner_name(None), "Default");
}

#[test]
fn a_stored_list_is_taken_as_it_is() {
    let stored = User {
        name: "bob".to_string(),
        tasks: vec![Task { title: "a".to_string(), completed: true }],
    };
    let (user, store) = starting_list("ann", Some(stored.clone()));
    assert_eq!(user, stored);
    assert!(!store);
}

#[test]
fn without_a_stored_list_an_empty_one_is_made_and_stored() {
    let (user, store) = starting_list("ann", None);
    assert_eq!(user, User { name: "ann".to_string(), tasks: Vec::new() });
    assert!(store);
}

#[test]
fn bounds_are_checked_from_one() {
    assert_eq!(check_bounds(1, 1), Ok(()));
    assert_eq!(check_bounds(1, 3), Ok(()));
    assert_eq!(check_bounds(3, 3), Ok(()));
    assert_eq!(check_bounds(0, 3), Err(Reason::OutOfRange));
    assert_eq!(check_bounds(4, 3), Err(Reason::OutOfRange));
    assert_eq!(check_bounds(usize::MAX, 3), Err(Reason::OutOfRange));
    assert_eq!(check_bounds(usize::MAX, usize::MAX), Ok(()));
}

#[test]
fn an_empty_collection_is_reported_as_empty() {
    assert_eq!(check_bounds(0, 0), Err(Reason::Empty));
    assert_eq!(check_bounds(1, 0), Err(Reason::Empty));
    assert_eq!(check_bounds(usize::MAX, 0), Err(Reason::Empty));
}

#[test]
fn task_numbers_and_undo_counts_follow_the_bounds() {
    for len in 0..4usize {
        for n in 0..6usize {
            let expected = 1 <= n && n <= len;
            assert_eq!(is_valid_task_num(n, len), expected);
            assert_eq!(is_valid_undo(n, len), expected);
        }
    }
    assert!(!is_valid_task_num(usize::MAX, 2));
    assert!(!is_valid_undo(usize::MAX, 2));
}
