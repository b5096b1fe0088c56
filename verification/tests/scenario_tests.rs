use emoji_commit::batch::validate_messages;
use emoji_commit::composer::{composer_outcome, composer_run, ComposerStatus};
use emoji_commit::keys::Key;
use emoji_commit::line::{format_commit_line, parse_commit_line};
use emoji_commit::registry::CommitType;
use emoji_commit::rules::check_message;
use emoji_commit::selector::{selector_outcome, selector_run, SelectorStatus};

fn chars(s: &str) -> Vec<char> {
    s.chars().collect()
}

fn typed(s: &str) -> Vec<Key> {
    s.chars().map(Key::Ch).collect()
}

fn string_of(v: &[char]) -> String {
    v.iter().collect()
}

#[test]
fn scenario_breaking_change_with_trailing_period() {
    // The selector starts on the breaking-change variant; enter confirms it.
    let selection = selector_run(&vec![Key::Enter]);
    assert_eq!(selection.status, SelectorStatus::Confirmed);
    assert_eq!(selection.current, CommitType::Breaking);
    let glyph = selector_outcome(&selection).expect("confirmed");
    assert_eq!(glyph, "💥");

    // The user types the message and confirms.
    let mut keys = typed("drop support for v1 api.");
    keys.push(Key::Enter);
    let composed = composer_run(&keys);
    assert_eq!(composed.status, ComposerStatus::Confirmed);
    let outcome = composer_outcome(&composed);
    let message = outcome.message.expect("confirmed");

    // The no-trailing-period rule reports a failure on that message.
    let results = check_message(&message);
    assert_eq!(results[3].description, "Do not end the subject line with a period");
    assert!(!results[3].pass);

    // The output line carries the glyph and the message verbatim.
    let line = format_commit_line(glyph, &message);
    assert_eq!(string_of(&line), "💥 drop support for v1 api.\n");
    assert!(!outcome.launch_editor);
}

#[test]
fn scenario_abort_during_selection() {
    // Control-C during selection: the selector ends aborted and yields no
    // glyph, so nothing is ever written.
    let selection = selector_run(&vec![Key::Down, Key::CtrlC]);
    assert_eq!(selection.status, SelectorStatus::Aborted);
    assert_eq!(selector_outcome(&selection), None);
}

#[test]
fn scenario_batch_with_one_long_subject() {
    let compliant = "🎉 Add a shiny feature";
    let sixty = "Fix the gadget that was broken in the box module this week";
    assert_eq!(sixty.chars().count(), 58);
    let long_subject = format!("🐛 {}ly", sixty);
    assert_eq!(long_subject.chars().skip(2).count(), 60);

    let outcome = validate_messages(&vec![chars(compliant), chars(&long_subject)]);
    assert!(!outcome.ok);
    assert_eq!(outcome.reports.len(), 1);
    let reported: String = outcome.reports[0].message.iter().collect();
    assert_eq!(reported, long_subject);
    let rules: Vec<&str> = outcome.reports[0].failures.iter().map(|r| r.description).collect();
    assert_eq!(rules, vec!["Limit the subject line to 50 characters"]);
}

#[test]
fn scenario_defer_to_editor_after_thirty_characters() {
    let text = "Add the first half of the refa";
    assert_eq!(text.chars().count(), 30);
    let mut keys = typed(text);
    keys.push(Key::CtrlE);
    let composed = composer_run(&keys);
    assert_eq!(composed.status, ComposerStatus::DeferToEditor);
    let outcome = composer_outcome(&composed);
    // The thirty characters are kept and the editor is to be launched on
    // the same file the line is written to.
    let message = outcome.message.expect("deferred");
    assert_eq!(string_of(&message), text);
    assert!(outcome.launch_editor);

    let line = format_commit_line("💥", &message);
    assert_eq!(string_of(&line), format!("💥 {}\n", text));
    let (glyph, parsed) = parse_commit_line(&line).expect("well-formed");
    assert_eq!(string_of(&glyph), "💥");
    assert_eq!(string_of(&parsed), text);
}
