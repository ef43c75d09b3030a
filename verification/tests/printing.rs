use cli_todo::printing::{lines_of_box, lines_of_outcome, task_lines, Line, Paint, Segment};
use cli_todo::layout::task_box;
use cli_todo::session::{Outcome, Rejection, Verb};
use cli_todo::task::Task;
use cli_todo::number::{decimal_text, number_in};
use cli_todo::text::repeated;
use cli_todo::validation::Reason;

fn seg(text: &str, paint: Paint) -> Segment {
    Segment { text: text.to_string(), paint }
}

fn line(segments: Vec<Segment>) -> Line {
    Line { segments }
}

fn text_of_line(line: &Line) -> String {
    line.segments.iter().map(|s| s.text.as_str()).collect()
}

fn task(title: &str, completed: bool) -> Task {
    Task { title: title.to_string(), completed }
}

#[test]
fn numbers_are_written_in_base_ten() {
    assert_eq!(decimal_text(0), "0");
    assert_eq!(decimal_text(7), "7");
    assert_eq!(decimal_text(10), "10");
    assert_eq!(decimal_text(909), "909");
    assert_eq!(decimal_text(1234567890), "1234567890");
    assert_eq!(decimal_text(usize::MAX), usize::MAX.to_string());
}

#[test]
fn written_numbers_are_read_back() {
    for n in [0usize, 1, 9, 10, 11, 99, 100, 12345, usize::MAX - 1, usize::MAX] {
        assert_eq!(decimal_text(n).parse::<usize>(), Ok(n));
        let line: Vec<char> = decimal_text(n).chars().collect();
        assert_eq!(number_in(&line, 0, line.len()), Some(n));
    }
}

#[test]
fn repeated_repeats() {
    assert_eq!(repeated(" ", 0), "");
    assert_eq!(repeated(" ", 3), "   ");
    assert_eq!(repeated("=", 5), "=====");
    assert_eq!(repeated("é", 2), "éé");
}

#[test]
fn the_lines_of_an_empty_list() {
    let lines = task_lines(&Vec::new()).unwrap();
    assert_eq!(
        lines,
        vec![
            line(vec![seg("==================", Paint::OnBlue)]),
            line(vec![
                seg("|", Paint::OnBlue),
                seg("    cli-todo    ", Paint::Plain),
                seg("|", Paint::OnBlue)
            ]),
            line(vec![seg("==================", Paint::OnBlue)]),
            line(vec![
                seg("|", Paint::OnBlue),
                seg("                ", Paint::Plain),
                seg("|", Paint::OnBlue)
            ]),
            line(vec![seg("==================", Paint::OnBlue)]),
            line(vec![]),
        ]
    );
}

#[test]
fn the_lines_of_a_list() {
    let tasks = vec![task("Buy milk", true), task("Walk the dog", false)];
    let lines = task_lines(&tasks).unwrap();
    let border = "=".repeat(29);
    assert_eq!(lines.len(), 8);
    assert_eq!(lines[0], line(vec![seg(&border, Paint::OnBlue)]));
    assert_eq!(
        lines[1],
        line(vec![
            seg("|", Paint::OnBlue),
            seg("         cli-todo          ", Paint::Plain),
            seg("|", Paint::OnBlue)
        ])
    );
    assert_eq!(lines[2], line(vec![seg(&border, Paint::OnBlue)]));
    assert_eq!(
        lines[3],
        line(vec![seg("|", Paint::OnBlue), seg(&" ".repeat(27), Paint::Plain), seg("|", Paint::OnBlue)])
    );
    assert_eq!(
        lines[4],
        line(vec![
            seg("|", Paint::OnBlue),
            seg("    1. [", Paint::Plain),
            seg("x", Paint::BrightRed),
            seg("] ", Paint::Plain),
            seg("Buy milk", Paint::BrightCyan),
            seg("        ", Paint::Plain),
            seg("|", Paint::OnBlue),
        ])
    );
    assert_eq!(
        lines[5],
        line(vec![
            seg("|", Paint::OnBlue),
            seg("    2. [", Paint::Plain),
            seg(" ", Paint::White),
            seg("] ", Paint::Plain),
            seg("Walk the dog", Paint::BrightCyan),
            seg("    ", Paint::Plain),
            seg("|", Paint::OnBlue),
        ])
    );
    assert_eq!(lines[6], line(vec![seg(&border, Paint::OnBlue)]));
    assert_eq!(lines[7], line(vec![]));
    assert_eq!(text_of_line(&lines[4]), "|    1. [x] Buy milk        |");
    assert_eq!(text_of_line(&lines[5]), "|    2. [ ] Walk the dog    |");
}

#[test]
fn the_box_is_a_rectangle() {
    for longest in [1usize, 3, 8, 13, 30] {
        let mut tasks = vec![task(&"t".repeat(longest), false)];
        for n in 0..8usize {
            tasks.push(task(&"s".repeat(1 + n % longest), n % 2 == 0));
        }
        let measures = task_box(&tasks).unwrap();
        let lines = lines_of_box(&measures);
        assert_eq!(lines.len(), tasks.len() + 6);
        for drawn in &lines[..lines.len() - 1] {
            assert_eq!(text_of_line(drawn).chars().count(), measures.width + 2);
        }
        assert!(lines[lines.len() - 1].segments.is_empty());
    }
}

#[test]
fn rows_with_longer_numbers_stick_out() {
    let tasks: Vec<Task> = (0..10).map(|_| task("abc", false)).collect();
    let lines = task_lines(&tasks).unwrap();
    assert_eq!(text_of_line(&lines[12]), "|    9. [ ] abc    |");
    assert_eq!(text_of_line(&lines[13]), "|    10. [ ] abc    |");
}

#[test]
fn a_changed_list_needs_no_words() {
    assert!(lines_of_outcome(Outcome::Changed).is_empty());
    assert!(lines_of_outcome(Outcome::Quit).is_empty());
}

#[test]
fn a_line_that_is_no_command_gets_a_hint() {
    assert_eq!(
        lines_of_outcome(Outcome::Unrecognized),
        vec![line(vec![seg(
            "Invalid command. Type 'help' to see command options.",
            Paint::BrightRed
        )])]
    );
}

#[test]
fn an_empty_list_or_history_is_named() {
    for verb in [Verb::Update, Verb::Complete, Verb::Remove] {
        assert_eq!(
            lines_of_outcome(Outcome::Rejected(Rejection { verb, argument: 1, reason: Reason::Empty })),
            vec![line(vec![seg(
                "Task list empty. Add a task before trying to change anything!",
                Paint::BrightRed
            )])]
        );
    }
    assert_eq!(
        lines_of_outcome(Outcome::Rejected(Rejection {
            verb: Verb::Undo,
            argument: 1,
            reason: Reason::Empty
        })),
        vec![line(vec![seg(
            "Nothing to undo. Must use a command before undoing",
            Paint::BrightRed
        )])]
    );
}

#[test]
fn a_wrong_number_is_shown_with_the_usage() {
    let cases = [
        (Verb::Update, "Type 'update <number of task> <new title>' to update the name of the task"),
        (Verb::Complete, "Type 'complete <number of task>' to complete status of the task"),
        (Verb::Remove, "Type 'remove <number of task>' to complete status of the task"),
        (
            Verb::Undo,
            "Type 'undo <number of commands>' to undo a given amount of commands.\nMust be < total commands in current session",
        ),
    ];
    for (verb, usage) in cases {
        assert_eq!(
            lines_of_outcome(Outcome::Rejected(Rejection {
                verb,
                argument: 55,
                reason: Reason::OutOfRange
            })),
            vec![
                line(vec![seg("Invalid argument:", Paint::BrightRed), seg(" 55", Paint::Plain)]),
                line(vec![seg(usage, Paint::BrightRed)]),
            ]
        );
    }
}

#[test]
fn help_lists_the_commands() {
    let lines = lines_of_outcome(Outcome::Help);
    let texts: Vec<String> = lines.iter().map(text_of_line).collect();
    assert_eq!(
        texts,
        vec![
            "Type 'add <title of task> to add a new task",
            "Type 'update <number of task> <new title>' to update the name of the task",
            "Type 'remove <title of task>' to remove task",
            "Type 'clear' to remove all tasks",
            "Type 'complete <number of task>' to update the task as completed or uncompleted",
            "Type 'undo <number of commands>' to undo a given amount of commands",
            "Type 'help' to see instructions again",
            "Type 'quit' to quit and save",
            "(Case sensivite)",
            "",
        ]
    );
    for drawn in &lines[..9] {
        assert_eq!(drawn.segments.len(), 1);
        assert_eq!(drawn.segments[0].paint, Paint::BrightYellow);
    }
    assert!(lines[9].segments.is_empty());
}
