//! The commands of the to-do list.

use crate::number::{number_in, parse_usize};
use crate::text::{
    chars_of, find, find_in, find_whitespace, find_whitespace_in, is_whitespace, lemma_find,
    lemma_find_whitespace, lemma_trim, split_at_whitespace, split_once, stretch_is, text_of, trim,
    trim_bounds,
};
use vstd::prelude::*;

verus! {

/// One typed command, ready to be applied to a session.
#[derive(Debug, PartialEq, Eq)]
pub enum Command {
    /// Add a task with this title to the end of the list.
    Add(String),
    /// Give the task at this position another title.
    Update(usize, String),
    /// Remove the task at this position.
    Remove(usize),
    /// Remove every task.
    Clear,
    /// Flip the completion mark of the task at this position.
    Complete(usize),
    /// Go back this many recorded snapshots.
    Undo(usize),
    /// Show the list of commands.
    Help,
    /// Save and leave.
    Quit,
}

/// The mathematical value of a [`Command`].
pub ghost enum CommandView {
    Add(Seq<char>),
    Update(usize, Seq<char>),
    Remove(usize),
    Clear,
    Complete(usize),
    Undo(usize),
    Help,
    Quit,
}

impl View for Command {
    type V = CommandView;

    open spec fn view(&self) -> CommandView {
        match *self {
            Command::Add(title) => CommandView::Add(title@),
            Command::Update(id, title) => CommandView::Update(id, title@),
            Command::Remove(id) => CommandView::Remove(id),
            Command::Clear => CommandView::Clear,
            Command::Complete(id) => CommandView::Complete(id),
            Command::Undo(steps) => CommandView::Undo(steps),
            Command::Help => CommandView::Help,
            Command::Quit => CommandView::Quit,
        }
    }
}

/// The position or count that `token` writes. A token that writes no
/// number, or one too large for the machine word, counts as the largest
/// number there is, which no list and no history can reach.
pub open spec fn number_or_max(token: Seq<char>) -> usize {
    match parse_usize(token) {
        Some(n) => n,
        None => usize::MAX,
    }
}

/// The command that `line` writes, if it writes one.
///
/// The line is trimmed and cut at its first white-space character, a space,
/// a tab or any other, into a word and the rest; the rest begins after that
/// one character. The word is matched exactly, with upper and lower case
/// told apart. `add` takes the rest as the title. `update` cuts the rest once
/// more, at its first space, into the position and the new title. `remove`,
/// `complete` and `undo` take the whole rest as their number. `clear` stands
/// alone. `help` and `quit` may be followed by anything.
pub open spec fn parse_line(line: Seq<char>) -> Option<CommandView> {
    let (word, rest) = split_at_whitespace(trim(line));
    if word == "add"@ {
        match rest {
            Some(title) => Some(CommandView::Add(title)),
            None => None,
        }
    } else if word == "update"@ {
        match rest {
            Some(arguments) => match split_once(arguments, ' ').1 {
                Some(title) => Some(
                    CommandView::Update(number_or_max(split_once(arguments, ' ').0), title),
                ),
                None => None,
            },
            None => None,
        }
    } else if word == "remove"@ {
        match rest {
            Some(id) => Some(CommandView::Remove(number_or_max(id))),
            None => None,
        }
    } else if word == "clear"@ {
        match rest {
            Some(_) => None,
            None => Some(CommandView::Clear),
        }
    } else if word == "complete"@ {
        match rest {
            Some(id) => Some(CommandView::Complete(number_or_max(id))),
            None => None,
        }
    } else if word == "undo"@ {
        match rest {
            Some(steps) => Some(CommandView::Undo(number_or_max(steps))),
            None => None,
        }
    } else if word == "help"@ {
        Some(CommandView::Help)
    } else if word == "quit"@ {
        Some(CommandView::Quit)
    } else {
        None
    }
}

/// The value of a command that may be absent.
pub open spec fn command_view(command: Option<Command>) -> Option<CommandView> {
    match command {
        Some(c) => Some(c@),
        None => None,
    }
}

impl Command {
    /// Reads the command that the line `s` writes, if it writes one.
    pub fn op(s: &str) -> (command: Option<Command>)
        ensures
            command_view(command) == parse_line(s@),
    {
        let line = chars_of(s);
        let (lo, hi) = trim_bounds(&line);
        let gap = find_whitespace_in(&line, lo, hi);
        let ghost trimmed = trim(s@);
        let ghost word = split_at_whitespace(trimmed).0;
        let ghost rest = split_at_whitespace(trimmed).1;
        proof {
            assert(trimmed.take(gap - lo) =~= line@.subrange(lo as int, gap as int));
            if gap < hi {
                assert(trimmed.skip(gap - lo + 1) =~= line@.subrange(gap + 1, hi as int));
            }
            assert(word == line@.subrange(lo as int, gap as int));
            assert(rest == if gap < hi {
                Some(line@.subrange(gap + 1, hi as int))
            } else {
                None
            });
        }
        if stretch_is(&line, lo, gap, "add") {
            if gap < hi {
                Some(Command::Add(text_of(s, gap + 1, hi)))
            } else {
                None
            }
        } else if stretch_is(&line, lo, gap, "update") {
            if gap < hi {
                let cut = find_in(&line, gap + 1, hi, ' ');
                proof {
                    let arguments = line@.subrange(gap + 1, hi as int);
                    assert(arguments.take(cut - (gap + 1)) =~= line@.subrange(
                        gap + 1,
                        cut as int,
                    ));
                    if cut < hi {
                        assert(arguments.skip(cut - (gap + 1) + 1) =~= line@.subrange(
                            cut + 1,
                            hi as int,
                        ));
                    }
                }
                if cut < hi {
                    let id = number_in(&line, gap + 1, cut);
                    Some(Command::Update(or_max(id), text_of(s, cut + 1, hi)))
                } else {
                    None
                }
            } else {
                None
            }
        } else if stretch_is(&line, lo, gap, "remove") {
            if gap < hi {
                Some(Command::Remove(or_max(number_in(&line, gap + 1, hi))))
            } else {
                None
            }
        } else if stretch_is(&line, lo, gap, "clear") {
            if gap < hi {
                None
            } else {
                Some(Command::Clear)
            }
        } else if stretch_is(&line, lo, gap, "complete") {
            if gap < hi {
                Some(Command::Complete(or_max(number_in(&line, gap + 1, hi))))
            } else {
                None
            }
        } else if stretch_is(&line, lo, gap, "undo") {
            if gap < hi {
                Some(Command::Undo(or_max(number_in(&line, gap + 1, hi))))
            } else {
                None
            }
        } else if stretch_is(&line, lo, gap, "help") {
            Some(Command::Help)
        } else if stretch_is(&line, lo, gap, "quit") {
            Some(Command::Quit)
        } else {
            None
        }
    }
}

/// The number read, or the largest number there is where none was read.
fn or_max(number: Option<usize>) -> (n: usize)
    ensures
        n == match number {
            Some(n) => n,
            None => usize::MAX,
        },
{
    match number {
        Some(n) => n,
        None => usize::MAX,
    }
}

/// A title that a line writes is never empty: what follows the white space
/// after `add`, and the space after the position of `update`, ends with the
/// last character of the trimmed line, which is no white space.
pub proof fn lemma_parsed_titles_are_not_empty(line: Seq<char>)
    ensures
        match parse_line(line) {
            Some(CommandView::Add(title)) => title.len() > 0,
            Some(CommandView::Update(_, title)) => title.len() > 0,
            _ => true,
        },
{
    let trimmed = trim(line);
    let bounds = lemma_trim(line);
    lemma_find_whitespace(trimmed);
    let at = find_whitespace(trimmed);
    if at < trimmed.len() {
        assert(is_whitespace(' '));
        assert(trimmed[trimmed.len() - 1] == line[bounds.1 - 1]);
        assert(at < trimmed.len() - 1);
        let rest = trimmed.skip(at + 1);
        lemma_find(rest, ' ');
        let cut = find(rest, ' ');
        if cut < rest.len() {
            assert(rest[rest.len() - 1] == trimmed[trimmed.len() - 1]);
            assert(cut < rest.len() - 1);
        }
    }
}

} // verus!
