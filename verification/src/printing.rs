//! What is shown to the user, as lines of painted text.
//!
//! A line is a sequence of segments, each a text with the paint in which it
//! is to appear. This module says which text appears where and in which
//! paint; putting the lines on a terminal is left to the caller.

use crate::layout::{
    boxed, content_width, lemma_banner_fits, lemma_rows_are_flush, longest_title, measurable,
    row_views, task_box, Row, RowView, TaskBox, TaskBoxView, BANNER_WIDTH, ROW_FRAME,
};
use crate::session::{Outcome, Rejection, Verb};
use crate::task::{task_views, Task, TaskView};
use crate::number::{decimal, decimal_text};
use crate::text::{lemma_repeat_len, repeat, repeated};
use crate::validation::Reason;
use vstd::prelude::*;
use vstd::string::StringExecFns;
use vstd::utf8::{is_ascii_chars, is_ascii_chars_encode_utf8};

verus! {

/// The paint of a text.
#[derive(Clone, Copy, Debug, PartialEq, Eq, Structural)]
pub enum Paint {
    /// The terminal's own colours.
    Plain,
    /// A blue background.
    OnBlue,
    /// Bright red letters.
    BrightRed,
    /// White letters.
    White,
    /// Bright cyan letters.
    BrightCyan,
    /// Bright yellow letters.
    BrightYellow,
}

/// A text and its paint.
#[derive(Debug, PartialEq, Eq)]
pub struct Segment {
    pub text: String,
    pub paint: Paint,
}

/// The mathematical value of a [`Segment`].
#[verifier::ext_equal]
pub ghost struct SegmentView {
    pub text: Seq<char>,
    pub paint: Paint,
}

impl View for Segment {
    type V = SegmentView;

    open spec fn view(&self) -> SegmentView {
        SegmentView { text: self.text@, paint: self.paint }
    }
}

/// One line of output: its segments from left to right.
#[derive(Debug, PartialEq, Eq)]
pub struct Line {
    pub segments: Vec<Segment>,
}

impl View for Line {
    type V = Seq<SegmentView>;

    open spec fn view(&self) -> Seq<SegmentView> {
        self.segments@.map_values(|s: Segment| s@)
    }
}

/// The values of a sequence of lines, in order.
pub open spec fn line_views(lines: Seq<Line>) -> Seq<Seq<SegmentView>> {
    lines.map_values(|l: Line| l@)
}

/// The banner over the list.
pub open spec fn banner() -> Seq<char> {
    "    cli-todo    "@
}

/// A text in the terminal's own colours.
pub open spec fn plain(text: Seq<char>) -> SegmentView {
    SegmentView { text, paint: Paint::Plain }
}

/// A text in the given paint.
pub open spec fn painted(text: Seq<char>, paint: Paint) -> SegmentView {
    SegmentView { text, paint }
}

/// The left or right border of a line of the box.
pub open spec fn bar() -> SegmentView {
    painted("|"@, Paint::OnBlue)
}

/// The top or bottom border of a box that is `width` wide between its
/// borders.
pub open spec fn border_line(width: nat) -> Seq<SegmentView> {
    seq![painted(repeat("="@, width + 2), Paint::OnBlue)]
}

/// The line of the banner, with `left` blanks before it and `right` after.
pub open spec fn banner_line(left: nat, right: nat) -> Seq<SegmentView> {
    seq![bar(), plain(repeat(" "@, left) + banner() + repeat(" "@, right)), bar()]
}

/// An empty line of a box that is `width` wide between its borders.
pub open spec fn blank_line(width: nat) -> Seq<SegmentView> {
    seq![bar(), plain(repeat(" "@, width)), bar()]
}

/// The check box mark of a task: a red cross where it is completed, a blank
/// where it is open.
pub open spec fn mark(completed: bool) -> SegmentView {
    if completed {
        painted("x"@, Paint::BrightRed)
    } else {
        painted(" "@, Paint::White)
    }
}

/// The line of a row: the number of the task, its check box, its title and
/// the padding, between the borders.
pub open spec fn row_line(row: RowView) -> Seq<SegmentView> {
    seq![
        bar(),
        plain("    "@ + decimal(row.number) + ". ["@),
        mark(row.completed),
        plain("] "@),
        painted(row.title, Paint::BrightCyan),
        plain("   "@ + repeat(" "@, row.padding)),
        bar(),
    ]
}

/// The lines of the given rows, in order.
pub open spec fn row_lines(rows: Seq<RowView>) -> Seq<Seq<SegmentView>> {
    Seq::new(rows.len(), |i: int| row_line(rows[i]))
}

/// The lines of a box: border, banner, border, an empty line, the rows,
/// border, and a line with nothing on it.
pub open spec fn box_lines(measures: TaskBoxView) -> Seq<Seq<SegmentView>> {
    seq![
        border_line(measures.width),
        banner_line(measures.banner_left, measures.banner_right),
        border_line(measures.width),
        blank_line(measures.width),
    ] + row_lines(measures.rows) + seq![border_line(measures.width), Seq::empty()]
}

/// How each command with a number is used.
pub open spec fn usage(verb: Verb) -> Seq<char> {
    match verb {
        Verb::Update => "Type 'update <number of task> <new title>' to update the name of the task"@,
        Verb::Complete => "Type 'complete <number of task>' to complete status of the task"@,
        Verb::Remove => "Type 'remove <number of task>' to complete status of the task"@,
        Verb::Undo => "Type 'undo <number of commands>' to undo a given amount of commands.\nMust be < total commands in current session"@,
    }
}

/// What a refused command is answered with: that there is nothing to work
/// on, or that the number is wrong and how the command is used.
pub open spec fn rejection_lines(rejection: Rejection) -> Seq<Seq<SegmentView>> {
    match rejection.reason {
        Reason::Empty => match rejection.verb {
            Verb::Undo => seq![
                seq![
                    painted(
                        "Nothing to undo. Must use a command before undoing"@,
                        Paint::BrightRed,
                    ),
                ],
            ],
            _ => seq![
                seq![
                    painted(
                        "Task list empty. Add a task before trying to change anything!"@,
                        Paint::BrightRed,
                    ),
                ],
            ],
        },
        Reason::OutOfRange => seq![
            seq![
                painted("Invalid argument:"@, Paint::BrightRed),
                plain(" "@ + decimal(rejection.argument as nat)),
            ],
            seq![painted(usage(rejection.verb), Paint::BrightRed)],
        ],
    }
}

/// The list of commands.
pub open spec fn help_lines() -> Seq<Seq<SegmentView>> {
    seq![
        seq![painted("Type 'add <title of task> to add a new task"@, Paint::BrightYellow)],
        seq![
            painted(
                "Type 'update <number of task> <new title>' to update the name of the task"@,
                Paint::BrightYellow,
            ),
        ],
        seq![painted("Type 'remove <title of task>' to remove task"@, Paint::BrightYellow)],
        seq![painted("Type 'clear' to remove all tasks"@, Paint::BrightYellow)],
        seq![
            painted(
                "Type 'complete <number of task>' to update the task as completed or uncompleted"@,
                Paint::BrightYellow,
            ),
        ],
        seq![
            painted(
                "Type 'undo <number of commands>' to undo a given amount of commands"@,
                Paint::BrightYellow,
            ),
        ],
        seq![painted("Type 'help' to see instructions again"@, Paint::BrightYellow)],
        seq![painted("Type 'quit' to quit and save"@, Paint::BrightYellow)],
        seq![painted("(Case sensivite)"@, Paint::BrightYellow)],
        Seq::empty(),
    ]
}

/// What the user is told after a command: nothing where it changed the list
/// or ended the session, the reason where it was refused, the list of
/// commands where that was asked for, and a hint where the line was no
/// command.
pub open spec fn outcome_lines(outcome: Outcome) -> Seq<Seq<SegmentView>> {
    match outcome {
        Outcome::Changed => Seq::empty(),
        Outcome::Rejected(rejection) => rejection_lines(rejection),
        Outcome::Help => help_lines(),
        Outcome::Quit => Seq::empty(),
        Outcome::Unrecognized => seq![
            seq![
                painted(
                    "Invalid command. Type 'help' to see command options."@,
                    Paint::BrightRed,
                ),
            ],
        ],
    }
}

/// A line of one segment.
fn single(text: &str, paint: Paint) -> (line: Line)
    ensures
        line@ == seq![painted(text@, paint)],
{
    let mut segments: Vec<Segment> = Vec::new();
    segments.push(Segment { text: String::from_str(text), paint });
    let line = Line { segments };
    assert(line@ =~= seq![painted(text@, paint)]);
    line
}

/// A line with nothing on it.
fn empty_line() -> (line: Line)
    ensures
        line@ == Seq::<SegmentView>::empty(),
{
    let line = Line { segments: Vec::new() };
    assert(line@ =~= Seq::<SegmentView>::empty());
    line
}

/// A line of the box with `middle` between the borders.
fn framed(middle: String) -> (line: Line)
    ensures
        line@ == seq![bar(), plain(middle@), bar()],
{
    let mut segments: Vec<Segment> = Vec::new();
    segments.push(Segment { text: String::from_str("|"), paint: Paint::OnBlue });
    segments.push(Segment { text: middle, paint: Paint::Plain });
    segments.push(Segment { text: String::from_str("|"), paint: Paint::OnBlue });
    let line = Line { segments };
    assert(line@ =~= seq![bar(), plain(middle@), bar()]);
    line
}

/// The top or bottom border of a box.
fn border(width: usize) -> (line: Line)
    requires
        width + 2 <= usize::MAX,
    ensures
        line@ == border_line(width as nat),
{
    let mut segments: Vec<Segment> = Vec::new();
    segments.push(Segment { text: repeated("=", width + 2), paint: Paint::OnBlue });
    let line = Line { segments };
    assert(line@ =~= border_line(width as nat));
    line
}

/// The line of one row.
fn row_of(row: &Row) -> (line: Line)
    ensures
        line@ == row_line(row@),
{
    let mut number = String::from_str("    ");
    number.append(decimal_text(row.number).as_str());
    number.append(". [");
    let mut padding = String::from_str("   ");
    padding.append(repeated(" ", row.padding).as_str());
    let mut segments: Vec<Segment> = Vec::new();
    segments.push(Segment { text: String::from_str("|"), paint: Paint::OnBlue });
    segments.push(Segment { text: number, paint: Paint::Plain });
    if row.completed {
        segments.push(Segment { text: String::from_str("x"), paint: Paint::BrightRed });
    } else {
        segments.push(Segment { text: String::from_str(" "), paint: Paint::White });
    }
    segments.push(Segment { text: String::from_str("] "), paint: Paint::Plain });
    segments.push(Segment { text: row.title.clone(), paint: Paint::BrightCyan });
    segments.push(Segment { text: padding, paint: Paint::Plain });
    segments.push(Segment { text: String::from_str("|"), paint: Paint::OnBlue });
    let line = Line { segments };
    assert(line@ =~= row_line(row@));
    line
}

/// The lines that draw a measured box.
pub fn lines_of_box(measures: &TaskBox) -> (lines: Vec<Line>)
    requires
        measures.width + 2 <= usize::MAX,
    ensures
        line_views(lines@) == box_lines(measures@),
{
    let ghost rows = measures@.rows;
    let mut banner_text = repeated(" ", measures.banner_left);
    banner_text.append("    cli-todo    ");
    banner_text.append(repeated(" ", measures.banner_right).as_str());
    let mut lines: Vec<Line> = Vec::new();
    lines.push(border(measures.width));
    lines.push(framed(banner_text));
    lines.push(border(measures.width));
    lines.push(framed(repeated(" ", measures.width)));
    let ghost head = line_views(lines@);
    assert(head =~= seq![
        border_line(measures@.width),
        banner_line(measures@.banner_left, measures@.banner_right),
        border_line(measures@.width),
        blank_line(measures@.width),
    ]);
    let mut i: usize = 0;
    while i < measures.rows.len()
        invariant
            i <= measures.rows.len(),
            rows == row_views(measures.rows@),
            head.len() == 4,
            line_views(lines@) == head + row_lines(rows.take(i as int)),
        decreases measures.rows.len() - i,
    {
        let ghost drawn = line_views(lines@);
        let line = row_of(&measures.rows[i]);
        assert(line@ == row_line(rows[i as int]));
        lines.push(line);
        assert(line_views(lines@) =~= drawn.push(row_line(rows[i as int])));
        assert(row_lines(rows.take(i + 1)) =~= row_lines(rows.take(i as int)).push(
            row_line(rows[i as int]),
        ));
        i += 1;
    }
    assert(rows.take(i as int) =~= rows);
    lines.push(border(measures.width));
    lines.push(empty_line());
    assert(line_views(lines@) =~= box_lines(measures@));
    lines
}

/// The lines that show `tasks` in their box. There are none where a title
/// is so wide that the box cannot be measured.
pub fn task_lines(tasks: &Vec<Task>) -> (lines: Option<Vec<Line>>)
    ensures
        match lines {
            Some(drawn) => measurable(task_views(tasks@)) && line_views(drawn@) == box_lines(
                boxed(task_views(tasks@)),
            ),
            None => !measurable(task_views(tasks@)),
        },
{
    match task_box(tasks) {
        Some(measures) => Some(lines_of_box(&measures)),
        None => None,
    }
}

/// How the command `verb` is used.
fn usage_text(verb: Verb) -> (text: &'static str)
    ensures
        text@ == usage(verb),
{
    match verb {
        Verb::Update => "Type 'update <number of task> <new title>' to update the name of the task",
        Verb::Complete => "Type 'complete <number of task>' to complete status of the task",
        Verb::Remove => "Type 'remove <number of task>' to complete status of the task",
        Verb::Undo => "Type 'undo <number of commands>' to undo a given amount of commands.\nMust be < total commands in current session",
    }
}

/// The lines that answer a refused command.
fn lines_of_rejection(rejection: Rejection) -> (lines: Vec<Line>)
    ensures
        line_views(lines@) == rejection_lines(rejection),
{
    let mut lines: Vec<Line> = Vec::new();
    match rejection.reason {
        Reason::Empty => {
            match rejection.verb {
                Verb::Undo => {
                    lines.push(
                        single(
                            "Nothing to undo. Must use a command before undoing",
                            Paint::BrightRed,
                        ),
                    );
                },
                _ => {
                    lines.push(
                        single(
                            "Task list empty. Add a task before trying to change anything!",
                            Paint::BrightRed,
                        ),
                    );
                },
            }
        },
        Reason::OutOfRange => {
            let mut number = String::from_str(" ");
            number.append(decimal_text(rejection.argument).as_str());
            let mut segments: Vec<Segment> = Vec::new();
            segments.push(
                Segment { text: String::from_str("Invalid argument:"), paint: Paint::BrightRed },
            );
            segments.push(Segment { text: number, paint: Paint::Plain });
            let first = Line { segments };
            assert(first@ =~= seq![
                painted("Invalid argument:"@, Paint::BrightRed),
                plain(" "@ + decimal(rejection.argument as nat)),
            ]);
            lines.push(first);
            lines.push(single(usage_text(rejection.verb), Paint::BrightRed));
        },
    }
    assert(line_views(lines@) =~= rejection_lines(rejection));
    lines
}

/// The lines of the list of commands.
fn lines_of_help() -> (lines: Vec<Line>)
    ensures
        line_views(lines@) == help_lines(),
{
    let mut lines: Vec<Line> = Vec::new();
    lines.push(single("Type 'add <title of task> to add a new task", Paint::BrightYellow));
    lines.push(
        single(
            "Type 'update <number of task> <new title>' to update the name of the task",
            Paint::BrightYellow,
        ),
    );
    lines.push(single("Type 'remove <title of task>' to remove task", Paint::BrightYellow));
    lines.push(single("Type 'clear' to remove all tasks", Paint::BrightYellow));
    lines.push(
        single(
            "Type 'complete <number of task>' to update the task as completed or uncompleted",
            Paint::BrightYellow,
        ),
    );
    lines.push(
        single(
            "Type 'undo <number of commands>' to undo a given amount of commands",
            Paint::BrightYellow,
        ),
    );
    lines.push(single("Type 'help' to see instructions again", Paint::BrightYellow));
    lines.push(single("Type 'quit' to quit and save", Paint::BrightYellow));
    lines.push(single("(Case sensivite)", Paint::BrightYellow));
    lines.push(empty_line());
    assert(line_views(lines@) =~= help_lines());
    lines
}

/// The lines that tell the user what became of a command.
pub fn lines_of_outcome(outcome: Outcome) -> (lines: Vec<Line>)
    ensures
        line_views(lines@) == outcome_lines(outcome),
{
    match outcome {
        Outcome::Rejected(rejection) => lines_of_rejection(rejection),
        Outcome::Help => lines_of_help(),
        Outcome::Unrecognized => {
            let mut lines: Vec<Line> = Vec::new();
            lines.push(
                single("Invalid command. Type 'help' to see command options.", Paint::BrightRed),
            );
            assert(line_views(lines@) =~= outcome_lines(outcome));
            lines
        },
        _ => {
            let lines: Vec<Line> = Vec::new();
            assert(line_views(lines@) =~= outcome_lines(outcome));
            lines
        },
    }
}

/// The number of characters on a line, whatever their paint.
pub open spec fn line_width(line: Seq<SegmentView>) -> nat
    decreases line.len(),
{
    if line.len() == 0 {
        0
    } else {
        line_width(line.drop_last()) + line.last().text.len()
    }
}

/// The border, the empty line and the banner of a box are as wide as the
/// widths they are made for, counted with both borders.
pub proof fn lemma_frame_widths(width: nat, left: nat, right: nat)
    ensures
        line_width(border_line(width)) == width + 2,
        line_width(blank_line(width)) == width + 2,
        line_width(banner_line(left, right)) == left + BANNER_WIDTH + right + 2,
{
    reveal_strlit("|");
    reveal_strlit("    cli-todo    ");
    reveal_strlit(" ");
    reveal_strlit("=");
    reveal_with_fuel(line_width, 4);
    lemma_repeat_len("="@, width + 2);
    lemma_repeat_len(" "@, width);
    lemma_repeat_len(" "@, left);
    lemma_repeat_len(" "@, right);
    let border = border_line(width);
    assert(border.drop_last() =~= Seq::<SegmentView>::empty());
    let blank = blank_line(width);
    assert(blank.drop_last() =~= seq![bar(), plain(repeat(" "@, width))]);
    assert(blank.drop_last().drop_last() =~= seq![bar()]);
    assert(blank.drop_last().drop_last().drop_last() =~= Seq::<SegmentView>::empty());
    let titled = banner_line(left, right);
    assert(titled.drop_last() =~= seq![
        bar(),
        plain(repeat(" "@, left) + banner() + repeat(" "@, right)),
    ]);
    assert(titled.drop_last().drop_last() =~= seq![bar()]);
    assert(titled.drop_last().drop_last().drop_last() =~= Seq::<SegmentView>::empty());
}

/// The line of a row is as wide as its two borders, the fixed parts of its
/// frame, its number, its title and its padding.
pub proof fn lemma_row_width(row: RowView)
    ensures
        line_width(row_line(row)) == 2 + (ROW_FRAME - 2) + decimal(row.number).len()
            + row.title.len() + row.padding,
{
    reveal_strlit("|");
    reveal_strlit("    ");
    reveal_strlit(". [");
    reveal_strlit("] ");
    reveal_strlit("   ");
    reveal_strlit("x");
    reveal_strlit(" ");
    reveal_with_fuel(line_width, 8);
    lemma_repeat_len(" "@, row.padding);
    let line = row_line(row);
    let six = line.drop_last();
    let five = six.drop_last();
    let four = five.drop_last();
    let three = four.drop_last();
    let two = three.drop_last();
    let one = two.drop_last();
    assert(one.drop_last() =~= Seq::<SegmentView>::empty());
    assert(line_width(one) == 1);
    assert(line_width(two) == 1 + 4 + decimal(row.number).len() + 3);
    assert(line_width(three) == line_width(two) + 1);
    assert(line_width(four) == line_width(three) + 2);
    assert(line_width(five) == line_width(four) + row.title.len());
    assert(line_width(six) == line_width(five) + 3 + row.padding);
}

/// The box is a rectangle: where every title is written in ASCII, some
/// title is not empty and no task has a number of more than one digit, every
/// line of the box but the last, which is empty, is as wide as the box with
/// its two borders. The line of the banner is left out where the rows are
/// wider than the banner by one: it is then one short.
pub proof fn lemma_box_is_rectangular(tasks: Seq<TaskView>, i: int)
    requires
        forall|k: int| 0 <= k < tasks.len() ==> is_ascii_chars((#[trigger] tasks[k]).title),
        longest_title(tasks) > 0,
        tasks.len() < 10,
        0 <= i < box_lines(boxed(tasks)).len() - 1,
        i == 1 ==> content_width(tasks) != BANNER_WIDTH + 1,
    ensures
        line_width(box_lines(boxed(tasks))[i]) == boxed(tasks).width + 2,
{
    let measures = boxed(tasks);
    let lines = box_lines(measures);
    lemma_banner_fits(tasks);
    lemma_rows_are_flush(tasks);
    lemma_frame_widths(measures.width, measures.banner_left, measures.banner_right);
    if 4 <= i < 4 + tasks.len() {
        let row = measures.rows[i - 4];
        assert(lines[i] == row_line(row));
        lemma_row_width(row);
        is_ascii_chars_encode_utf8(row.title);
        assert(decimal(row.number).len() == 1);
    }
}

} // verus!
