use tabledict_shell::channel::{LookupError, SaveError};
use tabledict_shell::command::{commands, matching_commands, resolve, starts_with, CommandKind, Resolution};
use tabledict_shell::dispatch::{decide, outcome, step, Action, DispatchOutcome, LoopState};
use tabledict_shell::report::{
    ambiguous_message, find_report, help_lines, save_report, unknown_message, usage_message,
};
use tabledict_shell::text::{decimal_text, pad_text};
use tabledict_shell::{PhraseFlag, WordEntry};

fn words(ws: &[&str]) -> Vec<String> {
    ws.iter().map(|w| w.to_string()).collect()
}

#[test]
fn catalog_order() {
    let names: Vec<&str> = commands().iter().map(|k| k.name()).collect();
    assert_eq!(names, vec!["find", "match", "insert", "delete", "save", "stats", "help", "quit"]);
}

#[test]
fn prefix_test_is_case_sensitive() {
    assert!(starts_with("find", "fi"));
    assert!(starts_with("find", ""));
    assert!(starts_with("find", "find"));
    assert!(!starts_with("find", "finds"));
    assert!(!starts_with("find", "Fi"));
}

#[test]
fn single_letter_f_resolves_to_find() {
    assert_eq!(resolve("f"), Resolution::Unique(CommandKind::Find));
    assert_eq!(resolve("m"), Resolution::Unique(CommandKind::Match));
    assert_eq!(resolve("q"), Resolution::Unique(CommandKind::Quit));
}

#[test]
fn shared_prefix_is_ambiguous() {
    assert_eq!(resolve("s"), Resolution::Ambiguous);
    assert_eq!(matching_commands("s"), vec![CommandKind::Save, CommandKind::Stats]);
    assert_eq!(resolve("sa"), Resolution::Unique(CommandKind::Save));
    assert_eq!(resolve(""), Resolution::Ambiguous);
    assert_eq!(matching_commands("").len(), 8);
}

#[test]
fn unknown_abbreviation() {
    assert_eq!(resolve("x"), Resolution::Unknown);
    assert_eq!(resolve("finder"), Resolution::Unknown);
    assert_eq!(unknown_message("x"), "Unknown command: x");
}

#[test]
fn ambiguous_report_lists_matches_in_order() {
    assert_eq!(ambiguous_message("s"), "Ambiguous command, could be: save, stats");
    assert_eq!(
        ambiguous_message(""),
        "Ambiguous command, could be: find, match, insert, delete, save, stats, help, quit"
    );
}

#[test]
fn arity_rules() {
    assert_eq!(decide(&words(&["f"])), Action::Usage(CommandKind::Find));
    assert_eq!(decide(&words(&["f", "你", "好"])), Action::Run(CommandKind::Find));
    assert_eq!(decide(&words(&["ma", "wq"])), Action::Run(CommandKind::Match));
    assert_eq!(decide(&words(&["i", "wq"])), Action::Usage(CommandKind::Insert));
    assert_eq!(decide(&words(&["i", "wq", "好"])), Action::Run(CommandKind::Insert));
    assert_eq!(decide(&words(&["d", "wq", "好", "x"])), Action::Usage(CommandKind::Delete));
    assert_eq!(decide(&words(&["he", "extra"])), Action::Run(CommandKind::Help));
    assert_eq!(decide(&words(&[])), Action::Nothing);
    assert_eq!(decide(&words(&["s"])), Action::Ambiguous);
    assert_eq!(decide(&words(&["zz"])), Action::Unknown);
}

#[test]
fn usage_texts() {
    assert_eq!(usage_message(CommandKind::Find), "find: arguments needed");
    assert_eq!(usage_message(CommandKind::Match), "match: arguments needed");
    assert_eq!(usage_message(CommandKind::Insert), "insert takes two arguments: code and word");
    assert_eq!(usage_message(CommandKind::Delete), "delete takes two arguments: code and word");
}

#[test]
fn empty_line_does_nothing() {
    let s = step(LoopState::Running, Some(""));
    assert_eq!(s.state, LoopState::Running);
    assert_eq!(s.action, Action::Nothing);
    let s = step(LoopState::Running, Some("   \t "));
    assert_eq!(s.state, LoopState::Running);
    assert_eq!(s.action, Action::Nothing);
}

#[test]
fn line_is_split_into_words() {
    let s = step(LoopState::Running, Some("  ins  wq\t好 "));
    assert_eq!(s.action, Action::Run(CommandKind::Insert));
    assert_eq!(s.state, LoopState::Running);
    assert_eq!(s.words, words(&["ins", "wq", "好"]));
}

#[test]
fn ambiguous_line_keeps_running() {
    let s = step(LoopState::Running, Some("s"));
    assert_eq!(s.action, Action::Ambiguous);
    assert_eq!(s.state, LoopState::Running);
}

#[test]
fn quit_stops_without_newline() {
    let s = step(LoopState::Running, Some("qu"));
    assert_eq!(s.action, Action::Run(CommandKind::Quit));
    assert_eq!(s.state, LoopState::Stopped);
    assert_eq!(outcome(s.action), DispatchOutcome::Exit);
}

#[test]
fn end_of_input_stops_with_newline() {
    let s = step(LoopState::Running, None);
    assert_eq!(s.action, Action::Finish);
    assert_eq!(s.state, LoopState::Stopped);
}

#[test]
fn stopped_is_final() {
    let s = step(LoopState::Stopped, Some("find x"));
    assert_eq!(s.state, LoopState::Stopped);
    assert_eq!(s.action, Action::Nothing);
    assert_eq!(outcome(Action::Run(CommandKind::Save)), DispatchOutcome::Continue);
}

#[test]
fn help_listing() {
    let lines = help_lines();
    assert_eq!(lines.len(), 8);
    assert_eq!(lines[0], "find       show code for word; only one is shown");
    assert_eq!(lines[7], "quit       quit this program");
}

#[test]
fn find_reports() {
    assert_eq!(find_report("你", &Ok("wq".to_string())), "wq 你");
    assert_eq!(find_report("你", &Ok(String::new())), "你 not found in main dict");
    assert_eq!(
        find_report("你", &Err(LookupError { message: "engine broke".to_string() })),
        "Error: engine broke"
    );
}

#[test]
fn save_reports() {
    assert_eq!(
        save_report(&SaveError::NoUserDict),
        "save failed: cannot save dict: user dict path not supplied on construction"
    );
    assert_eq!(save_report(&SaveError::Engine { message: "denied".to_string() }), "save failed: denied");
}

#[test]
fn decimal_and_padding() {
    assert_eq!(decimal_text(0), "0");
    assert_eq!(decimal_text(10), "10");
    assert_eq!(decimal_text(u64::MAX), "18446744073709551615");
    assert_eq!(pad_text("ab", 4), "ab  ");
    assert_eq!(pad_text("abcdef", 3), "abcdef");
    assert_eq!(pad_text("你", 2), "你 ");
}

#[test]
fn scenario_outputs_without_user_dict() {
    // What the shell prints for a main dictionary holding wq -> 你, no user
    // dictionary, after inserting wq -> 好.
    assert_eq!(find_report("你", &Ok("wq".to_string())), "wq 你");
    let a = WordEntry { code: "wq".to_string(), word: "你".to_string(), index: 0, flag: PhraseFlag::NoFlag };
    let b = WordEntry { code: "wq".to_string(), word: "好".to_string(), index: 1, flag: PhraseFlag::User };
    assert_eq!(a.to_line(), "wq 你 0 None");
    assert_eq!(b.to_line(), "wq 好 1 User");
    let none: Option<Vec<u8>> = None;
    assert!(tabledict_shell::channel::save_target(&none).is_err());
}
