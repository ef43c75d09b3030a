//! Bounds checks on the positions and counts that commands carry.

use vstd::prelude::*;

verus! {

/// Why a position or a count was refused.
#[derive(Clone, Copy, Debug, PartialEq, Eq, Structural)]
pub enum Reason {
    /// There is nothing to address: the list, or the history, is empty.
    Empty,
    /// The number lies outside `1..=len`.
    OutOfRange,
}

/// Whether `n` addresses one of `len` items counted from one.
pub open spec fn in_range(n: int, len: int) -> bool {
    1 <= n <= len
}

/// The reason for which `n` is refused against `len` items, if it is.
/// An empty collection is reported as such whatever `n` is.
pub open spec fn refusal(n: int, len: int) -> Option<Reason> {
    if len == 0 {
        Some(Reason::Empty)
    } else if n < 1 || n > len {
        Some(Reason::OutOfRange)
    } else {
        None
    }
}

/// A number is refused exactly when it is not in range.
pub proof fn lemma_refusal_iff_not_in_range(n: int, len: int)
    requires
        0 <= len,
    ensures
        refusal(n, len) is None <==> in_range(n, len),
{
}

/// Checks `n` against a collection of `len` items and says why it is refused.
pub fn check_bounds(n: usize, len: usize) -> (verdict: Result<(), Reason>)
    ensures
        verdict == match refusal(n as int, len as int) {
            Some(reason) => Err::<(), Reason>(reason),
            None => Ok(()),
        },
{
    if len == 0 {
        Err(Reason::Empty)
    } else if n < 1 || n > len {
        Err(Reason::OutOfRange)
    } else {
        Ok(())
    }
}

/// Whether `t_id` is the position of a task in a list of `len` tasks.
pub fn is_valid_task_num(t_id: usize, len: usize) -> (valid: bool)
    ensures
        valid == in_range(t_id as int, len as int),
{
    check_bounds(t_id, len).is_ok()
}

/// Whether `steps` snapshots can be stepped back in a history of `len`
/// snapshots.
pub fn is_valid_undo(steps: usize, len: usize) -> (valid: bool)
    ensures
        valid == in_range(steps as int, len as int),
{
    check_bounds(steps, len).is_ok()
}

} // verus!
