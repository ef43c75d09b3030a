//! The geometry of the box in which a list is shown.
//!
//! The box has a banner, one row for each task and a border around them.
//! This module computes the widths and paddings; drawing is left to the
//! caller. Widths are counted in the bytes of the text as UTF-8.

use crate::task::{task_views, Task, TaskView};
use vstd::prelude::*;
use vstd::utf8::encode_utf8;

verus! {

/// The width of the banner text.
pub const BANNER_WIDTH: usize = 16;

/// What a row holds besides its title: the indent, the number with its dot,
/// the check box and the gaps between them, for a number of one digit, and
/// one blank of padding.
pub const ROW_FRAME: usize = 15;

/// One row of the box: a task with its position and the blanks that fill the
/// row up to the border.
#[derive(Debug, PartialEq, Eq)]
pub struct Row {
    /// The position of the task, counted from one.
    pub number: usize,
    /// Whether the check box is ticked.
    pub completed: bool,
    /// The title of the task.
    pub title: String,
    /// The number of blanks between the title's gap and the border.
    pub padding: usize,
}

/// The mathematical value of a [`Row`].
#[verifier::ext_equal]
pub ghost struct RowView {
    pub number: nat,
    pub completed: bool,
    pub title: Seq<char>,
    pub padding: nat,
}

impl View for Row {
    type V = RowView;

    open spec fn view(&self) -> RowView {
        RowView {
            number: self.number as nat,
            completed: self.completed,
            title: self.title@,
            padding: self.padding as nat,
        }
    }
}

/// The measures of the box around a list.
#[derive(Debug, PartialEq, Eq)]
pub struct TaskBox {
    /// The width between the two borders.
    pub width: usize,
    /// The number of blanks before the banner.
    pub banner_left: usize,
    /// The number of blanks after the banner.
    pub banner_right: usize,
    /// The rows, one for each task, in the order of the list.
    pub rows: Vec<Row>,
}

/// The mathematical value of a [`TaskBox`].
#[verifier::ext_equal]
pub ghost struct TaskBoxView {
    pub width: nat,
    pub banner_left: nat,
    pub banner_right: nat,
    pub rows: Seq<RowView>,
}

/// The values of a sequence of rows, in order.
pub open spec fn row_views(rows: Seq<Row>) -> Seq<RowView> {
    rows.map_values(|r: Row| r@)
}

impl View for TaskBox {
    type V = TaskBoxView;

    open spec fn view(&self) -> TaskBoxView {
        TaskBoxView {
            width: self.width as nat,
            banner_left: self.banner_left as nat,
            banner_right: self.banner_right as nat,
            rows: row_views(self.rows@),
        }
    }
}

/// The number of bytes that `text` takes as UTF-8.
pub open spec fn byte_len(text: Seq<char>) -> nat {
    encode_utf8(text).len()
}

/// The width of the widest title; zero for an empty list.
pub open spec fn longest_title(tasks: Seq<TaskView>) -> nat
    decreases tasks.len(),
{
    if tasks.len() == 0 {
        0
    } else {
        let before = longest_title(tasks.drop_last());
        let last = byte_len(tasks.last().title);
        if last > before {
            last
        } else {
            before
        }
    }
}

/// The width that the widest row needs.
pub open spec fn content_width(tasks: Seq<TaskView>) -> nat {
    longest_title(tasks) + ROW_FRAME as nat
}

/// The width between the borders: that of the widest row, and at least that
/// of the banner.
pub open spec fn box_width(tasks: Seq<TaskView>) -> nat {
    if content_width(tasks) > BANNER_WIDTH {
        content_width(tasks)
    } else {
        BANNER_WIDTH as nat
    }
}

/// The blanks before the banner, which centre it over the rows.
pub open spec fn banner_left(tasks: Seq<TaskView>) -> nat {
    if content_width(tasks) / 2 >= 8 {
        (content_width(tasks) / 2 - 8) as nat
    } else {
        0
    }
}

/// The blanks after the banner: as many as before it, and one more where
/// the rows are wider than the banner by an odd number.
pub open spec fn banner_right(tasks: Seq<TaskView>) -> nat {
    if banner_left(tasks) == 0 || content_width(tasks) % 2 == 0 {
        banner_left(tasks)
    } else {
        banner_left(tasks) + 1
    }
}

/// The row of the task at index `i`, counted from zero.
pub open spec fn row(tasks: Seq<TaskView>, i: int) -> RowView {
    RowView {
        number: (i + 1) as nat,
        completed: tasks[i].completed,
        title: tasks[i].title,
        padding: (longest_title(tasks) + 1 - byte_len(tasks[i].title)) as nat,
    }
}

/// The box around `tasks`.
pub open spec fn boxed(tasks: Seq<TaskView>) -> TaskBoxView {
    TaskBoxView {
        width: box_width(tasks),
        banner_left: banner_left(tasks),
        banner_right: banner_right(tasks),
        rows: Seq::new(tasks.len(), |i: int| row(tasks, i)),
    }
}

/// Whether every measure of the box around `tasks`, borders included, fits
/// the machine word.
pub open spec fn measurable(tasks: Seq<TaskView>) -> bool {
    longest_title(tasks) + ROW_FRAME + 2 <= usize::MAX
}

/// The width of the title of `task`.
fn title_width(task: &Task) -> (width: usize)
    ensures
        width == byte_len(task@.title),
{
    broadcast use vstd::slice::group_slice_axioms;

    task.title.as_str().as_bytes().len()
}

/// The width of the widest title of `tasks`; zero for an empty list.
pub fn longest_title_of(tasks: &Vec<Task>) -> (longest: usize)
    ensures
        longest == longest_title(task_views(tasks@)),
{
    let ghost views = task_views(tasks@);
    let mut longest: usize = 0;
    let mut i: usize = 0;
    while i < tasks.len()
        invariant
            i <= tasks.len(),
            views == task_views(tasks@),
            longest == longest_title(views.take(i as int)),
        decreases tasks.len() - i,
    {
        let width = title_width(&tasks[i]);
        proof {
            assert(views.take(i + 1).drop_last() =~= views.take(i as int));
            assert(views.take(i + 1).last() == tasks@[i as int]@);
        }
        if width > longest {
            longest = width;
        }
        i += 1;
    }
    assert(views.take(i as int) =~= views);
    longest
}

/// Measures the box around `tasks`. There is none where a title is so wide
/// that a measure of the box would not fit the machine word.
pub fn task_box(tasks: &Vec<Task>) -> (measured: Option<TaskBox>)
    ensures
        match measured {
            Some(found) => measurable(task_views(tasks@)) && found@ == boxed(task_views(tasks@)),
            None => !measurable(task_views(tasks@)),
        },
{
    let ghost views = task_views(tasks@);
    let longest = longest_title_of(tasks);
    if longest > usize::MAX - ROW_FRAME - 2 {
        return None;
    }
    let content: usize = longest + ROW_FRAME;
    let width: usize = if content > BANNER_WIDTH {
        content
    } else {
        BANNER_WIDTH
    };
    let left: usize = if content / 2 >= 8 {
        content / 2 - 8
    } else {
        0
    };
    let right: usize = if left == 0 || content % 2 == 0 {
        left
    } else {
        left + 1
    };
    let mut rows: Vec<Row> = Vec::new();
    let mut i: usize = 0;
    while i < tasks.len()
        invariant
            i <= tasks.len(),
            views == task_views(tasks@),
            longest == longest_title(views),
            longest + ROW_FRAME + 2 <= usize::MAX,
            rows.len() == i,
            forall|j: int| 0 <= j < i ==> (#[trigger] rows@[j])@ == row(views, j),
        decreases tasks.len() - i,
    {
        let task = &tasks[i];
        let title_len = title_width(task);
        proof {
            lemma_longest_title_bounds(views, i as int);
        }
        rows.push(
            Row {
                number: i + 1,
                completed: task.completed,
                title: task.title.clone(),
                padding: longest + 1 - title_len,
            },
        );
        i += 1;
    }
    let found = TaskBox { width, banner_left: left, banner_right: right, rows };
    assert(found@.rows =~= boxed(views).rows);
    Some(found)
}

/// No title is wider than the widest.
pub proof fn lemma_longest_title_bounds(tasks: Seq<TaskView>, i: int)
    requires
        0 <= i < tasks.len(),
    ensures
        byte_len(tasks[i].title) <= longest_title(tasks),
    decreases tasks.len(),
{
    if i < tasks.len() - 1 {
        lemma_longest_title_bounds(tasks.drop_last(), i);
    }
}

/// Every row with a number of one digit takes exactly the width between the
/// borders, where some task has a title. A row is as wide as its frame, its
/// title and its padding, less the one blank that the frame counts for the
/// padding.
pub proof fn lemma_rows_are_flush(tasks: Seq<TaskView>)
    requires
        longest_title(tasks) > 0,
    ensures
        forall|i: int|
            0 <= i < tasks.len() ==> ROW_FRAME - 1 + byte_len(
                (#[trigger] boxed(tasks).rows[i]).title,
            ) + boxed(tasks).rows[i].padding == boxed(tasks).width,
{
    assert forall|i: int| 0 <= i < tasks.len() implies ROW_FRAME - 1 + byte_len(
        (#[trigger] boxed(tasks).rows[i]).title,
    ) + boxed(tasks).rows[i].padding == boxed(tasks).width by {
        lemma_longest_title_bounds(tasks, i);
    }
}

/// The banner with its blanks never sticks out of the box. It takes exactly
/// the width between the borders, but for one case: where the rows are wider
/// than the banner by one, it is left one short.
pub proof fn lemma_banner_fits(tasks: Seq<TaskView>)
    ensures
        boxed(tasks).banner_left + BANNER_WIDTH + boxed(tasks).banner_right <= boxed(tasks).width,
        content_width(tasks) != BANNER_WIDTH + 1 ==> boxed(tasks).banner_left + BANNER_WIDTH
            + boxed(tasks).banner_right == boxed(tasks).width,
        content_width(tasks) == BANNER_WIDTH + 1 ==> boxed(tasks).banner_left + BANNER_WIDTH
            + boxed(tasks).banner_right == boxed(tasks).width - 1,
{
}

} // verus!
