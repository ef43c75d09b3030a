//! What the storage of a list goes by: the name of the resource that holds
//! the list of an owner, and the list that a session starts from.
//!
//! Reading and writing the resource is left to the caller.

use crate::task::{User, UserView};
use vstd::prelude::*;
use vstd::string::StringExecFns;

verus! {

/// The name of the resource that holds the list of the owner `name`.
pub fn file_name(name: &str) -> (file: String)
    ensures
        file@ == name@ + "_tasks.json"@,
{
    String::from_str(name).concat("_tasks.json")
}

/// The owner's name as it was read, or the fallback name where nothing was
/// read.
pub fn owner_name(read: Option<String>) -> (name: String)
    ensures
        name@ == match read {
            Some(given) => given@,
            None => "Default"@,
        },
{
    match read {
        Some(given) => given,
        None => String::from_str("Default"),
    }
}

/// The list that a session of the owner `name` starts from, and whether it
/// has to be stored before anything else is done: the stored list where
/// there is one, else the empty list of that owner, which is stored at once.
pub fn starting_list(name: &str, stored: Option<User>) -> (start: (User, bool))
    ensures
        match stored {
            Some(found) => start.0@ == found@ && !start.1,
            None => start.0@ == (UserView { name: name@, tasks: Seq::empty() }) && start.1,
        },
{
    match stored {
        Some(found) => (found, false),
        None => (User::new(String::from_str(name)), true),
    }
}

} // verus!
