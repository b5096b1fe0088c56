use emoji_commit::line::{format_commit_line, parse_commit_line};
use emoji_commit::paths::{classify_out_path, OutPathKind};
use emoji_commit::text::trim;

fn chars(s: &str) -> Vec<char> {
    s.chars().collect()
}

fn string_of(v: &[char]) -> String {
    v.iter().collect()
}

#[test]
fn format_writes_glyph_space_message_newline() {
    let line = format_commit_line("💥", &chars("drop support for v1 api."));
    assert_eq!(string_of(&line), "💥 drop support for v1 api.\n");
}

#[test]
fn format_and_parse_round_trip() {
    let line = format_commit_line("🎉", &chars("Add shiny feature"));
    let (glyph, message) = parse_commit_line(&line).expect("well-formed line");
    assert_eq!(string_of(&glyph), "🎉");
    assert_eq!(string_of(&message), "Add shiny feature");
}

#[test]
fn empty_message_still_gives_a_well_formed_line() {
    // Policy: an empty confirmed message is still written, with an empty
    // message segment.
    let line = format_commit_line("🌹", &chars(""));
    assert_eq!(string_of(&line), "🌹 \n");
    let (glyph, message) = parse_commit_line(&line).expect("well-formed line");
    assert_eq!(string_of(&glyph), "🌹");
    assert_eq!(string_of(&message), "");
}

#[test]
fn parse_rejects_malformed_lines() {
    assert!(parse_commit_line(&chars("")).is_none());
    assert!(parse_commit_line(&chars("💥 no trailing newline")).is_none());
    assert!(parse_commit_line(&chars("nospace\n")).is_none());
}

#[test]
fn trim_strips_blank_edges_only() {
    assert_eq!(string_of(&trim(&chars("  a b \t\r\n"))), "a b");
    assert_eq!(string_of(&trim(&chars("ab"))), "ab");
    assert_eq!(string_of(&trim(&chars("   "))), "");
    assert_eq!(string_of(&trim(&chars(""))), "");
}

#[test]
fn trim_is_idempotent_on_samples() {
    for s in ["  a b ", "x", "", " \t ", "a  b  c"] {
        let once = trim(&chars(s));
        let twice = trim(&once);
        assert_eq!(once, twice);
    }
}

#[test]
fn classify_recognizes_the_three_suffixes() {
    assert_eq!(
        classify_out_path(&chars("/repo/.git/COMMIT_EDITMSG")),
        OutPathKind::EditMessage
    );
    assert_eq!(
        classify_out_path(&chars("/repo/.git/rebase-merge/git-rebase-todo")),
        OutPathKind::RebaseTodo
    );
    assert_eq!(
        classify_out_path(&chars("/repo/.git/addp-hunk-edit.diff")),
        OutPathKind::AddPHunkEdit
    );
    assert_eq!(classify_out_path(&chars(".git/COMMIT_EDITMSG")), OutPathKind::EditMessage);
}

#[test]
fn classify_rejects_other_paths() {
    assert_eq!(classify_out_path(&chars("/repo/notes.txt")), OutPathKind::Unrecognized);
    assert_eq!(classify_out_path(&chars("")), OutPathKind::Unrecognized);
    // The suffix must start on a component boundary.
    assert_eq!(
        classify_out_path(&chars("/repo/a.git/COMMIT_EDITMSG")),
        OutPathKind::Unrecognized
    );
    assert_eq!(classify_out_path(&chars("COMMIT_EDITMSG")), OutPathKind::Unrecognized);
}
