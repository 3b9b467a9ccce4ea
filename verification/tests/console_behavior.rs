use kenterm::console::Console;
use kenterm::keys::Key;

const PROMPT: &str = "KenTerm: (USER:profsucrose)> ";

fn type_text(console: &mut Console, text: &str) {
    for ch in text.chars() {
        console.add_to_last_line(ch);
    }
}

fn scrollback(console: &Console) -> Vec<String> {
    let rows = console.draw_lines();
    rows[..rows.len() - 1].iter().map(|r| r.text.clone()).collect()
}

fn input_line(console: &Console) -> String {
    let formatted = console.current_line_formatted();
    formatted[PROMPT.len()..].to_string()
}

#[test]
fn unshifted_key_press_appends_base_character() {
    let mut console = Console::new(800, 600);
    assert_eq!(console.handle_key(Key::LetterH), None);
    assert_eq!(console.handle_key(Key::LetterI), None);
    assert_eq!(console.handle_key(Key::Space), None);
    assert_eq!(console.handle_key(Key::Num1), None);
    assert_eq!(input_line(&console), "hi 1");
}

#[test]
fn shifted_key_press_appends_remapped_character() {
    let mut console = Console::new(800, 600);
    console.shift();
    console.handle_key(Key::Num1);
    console.handle_key(Key::LetterA);
    console.unshift();
    console.handle_key(Key::Num1);
    console.handle_key(Key::LetterA);
    assert_eq!(input_line(&console), "!A1a");
}

#[test]
fn shift_press_is_idempotent_and_release_clears() {
    let mut console = Console::new(800, 600);
    console.shift();
    console.shift();
    console.handle_key(Key::LetterB);
    console.unshift();
    console.unshift();
    console.handle_key(Key::LetterB);
    assert_eq!(input_line(&console), "Bb");
}

#[test]
fn unknown_key_is_ignored() {
    let mut console = Console::new(800, 600);
    console.handle_key(Key::Unknown);
    assert_eq!(input_line(&console), "");
    assert_eq!(scrollback(&console).len(), 0);
}

#[test]
fn backspace_on_empty_input_is_a_no_op() {
    let mut console = Console::new(800, 600);
    assert_eq!(console.handle_key(Key::Backspace), None);
    assert_eq!(input_line(&console), "");
    assert_eq!(scrollback(&console).len(), 0);
}

#[test]
fn backspace_removes_exactly_the_last_character() {
    let mut console = Console::new(800, 600);
    type_text(&mut console, "ab");
    console.handle_key(Key::Backspace);
    assert_eq!(input_line(&console), "a");
    console.handle_key(Key::Backspace);
    assert_eq!(input_line(&console), "");
}

#[test]
fn clear_empties_scrollback_and_input() {
    let mut console = Console::new(800, 600);
    console.add_line(String::from("old line one"));
    console.add_line(String::from("old line two"));
    type_text(&mut console, "clear");
    let request = console.handle_key(Key::Enter);
    assert!(request.is_none());
    assert_eq!(scrollback(&console).len(), 0);
    assert_eq!(input_line(&console), "");
}

#[test]
fn empty_submission_records_one_bare_prompt_line() {
    let mut console = Console::new(800, 600);
    let request = console.handle_key(Key::Enter);
    assert!(request.is_none());
    let lines = scrollback(&console);
    assert_eq!(lines.len(), 1);
    assert_eq!(lines[0], PROMPT);
    assert_eq!(input_line(&console), "");
}

#[test]
fn echo_submission_records_prompt_then_output() {
    let mut console = Console::new(800, 600);
    type_text(&mut console, "echo hi");
    let request = console.handle_key(Key::Enter).expect("a command to run");
    assert_eq!(request.program, "echo");
    assert_eq!(request.args, vec![String::from("hi")]);
    assert_eq!(input_line(&console), "");
    // `echo hi` prints "hi" and a trailing newline; hand that back.
    console.append_output("hi\n");
    let lines = scrollback(&console);
    assert_eq!(lines[0], format!("{}echo hi", PROMPT));
    assert_eq!(lines[1], "hi");
}

#[test]
fn failed_launch_is_reported_as_ordinary_output() {
    let mut console = Console::new(800, 600);
    type_text(&mut console, "nosuchprogram");
    let request = console.handle_key(Key::Enter).expect("a command to run");
    assert_eq!(request.program, "nosuchprogram");
    assert!(request.args.is_empty());
    // The launch fails; its failure description comes back as plain text.
    console.append_output("No such file or directory (os error 2)");
    let lines = scrollback(&console);
    assert_eq!(lines.len(), 2);
    assert_eq!(lines[0], format!("{}nosuchprogram", PROMPT));
    assert_eq!(lines[1], "No such file or directory (os error 2)");
    assert_eq!(input_line(&console), "");
}

#[test]
fn neofetch_alias_runs_substitute_but_history_shows_alias() {
    let mut console = Console::new(800, 600);
    type_text(&mut console, "neofetch");
    let request = console.handle_key(Key::Enter).expect("a command to run");
    assert_eq!(request.program, "cat");
    assert_eq!(request.args, vec![String::from("/home/profsucrose/Documents/kenfetch")]);
    let lines = scrollback(&console);
    assert_eq!(lines.len(), 1);
    assert_eq!(lines[0], format!("{}neofetch", PROMPT));
}

#[test]
fn arguments_are_whitespace_split_tokens() {
    let mut console = Console::new(800, 600);
    type_text(&mut console, "  ls   -l  /tmp ");
    let request = console.handle_key(Key::Enter).expect("a command to run");
    assert_eq!(request.program, "ls");
    assert_eq!(request.args, vec![String::from("-l"), String::from("/tmp")]);
}

#[test]
fn whitespace_only_line_cannot_be_submitted() {
    let mut console = Console::new(800, 600);
    type_text(&mut console, "   ");
    assert!(!console.can_submit());
    type_text(&mut console, "x");
    assert!(console.can_submit());
}

#[test]
fn output_splitting_keeps_every_newline_separated_piece() {
    let mut console = Console::new(800, 600);
    console.append_output("one\ntwo\nthree");
    assert_eq!(scrollback(&console), vec!["one", "two", "three"]);
}

#[test]
fn empty_output_appends_one_empty_line() {
    let mut console = Console::new(800, 600);
    console.append_output("");
    assert_eq!(scrollback(&console), vec![""]);
}

#[test]
fn trailing_newline_appends_a_final_empty_line() {
    let mut console = Console::new(800, 600);
    console.append_output("hi\n");
    assert_eq!(scrollback(&console), vec!["hi", ""]);
}
