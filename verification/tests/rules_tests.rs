use emoji_commit::rules::{check_message, check_message_with_emoji, strip_leading_glyph, RuleResult};

fn chars(s: &str) -> Vec<char> {
    s.chars().collect()
}

fn passes(results: &[RuleResult]) -> Vec<bool> {
    results.iter().map(|r| r.pass).collect()
}

#[test]
fn rules_are_seven_in_fixed_order() {
    let results = check_message(&chars("Add a thing"));
    let descriptions: Vec<&str> = results.iter().map(|r| r.description).collect();
    assert_eq!(
        descriptions,
        vec![
            "Separate subject from body with a blank line",
            "Limit the subject line to 50 characters",
            "Capitalize the subject line",
            "Do not end the subject line with a period",
            "Use the imperative mood in the subject line",
            "Wrap the body at 72 characters",
            "Use the body to explain what and why vs. how",
        ]
    );
}

#[test]
fn rules_all_pass_on_a_good_subject() {
    let results = check_message(&chars("Add a thing"));
    assert_eq!(passes(&results), vec![true; 7]);
}

#[test]
fn rules_on_empty_message() {
    // An empty message has an empty subject: only the capitalize rule fails.
    let results = check_message(&chars(""));
    assert_eq!(passes(&results), vec![true, true, false, true, true, true, true]);
}

#[test]
fn rule_limit_fails_over_fifty_characters() {
    let subject = "Fix the thing that was broken in the module again no";
    assert_eq!(subject.chars().count(), 52);
    let results = check_message(&chars(subject));
    assert!(!results[1].pass);
    let at_fifty = "A".repeat(50);
    assert!(check_message(&chars(&at_fifty))[1].pass);
    let over_fifty = "A".repeat(51);
    assert!(!check_message(&chars(&over_fifty))[1].pass);
}

#[test]
fn rule_capitalize_fails_on_lowercase() {
    assert!(!check_message(&chars("add a thing"))[2].pass);
    assert!(check_message(&chars("Add a thing"))[2].pass);
    assert!(!check_message(&chars("1 thing"))[2].pass);
}

#[test]
fn rule_no_period_fails_on_trailing_period() {
    assert!(!check_message(&chars("Add a thing."))[3].pass);
    assert!(check_message(&chars("Add a thing"))[3].pass);
    assert!(check_message(&chars("Add a .thing"))[3].pass);
}

#[test]
fn rule_imperative_heuristic_on_first_word() {
    assert!(!check_message(&chars("Adds a thing"))[4].pass);
    assert!(!check_message(&chars("Added a thing"))[4].pass);
    assert!(!check_message(&chars("Adding a thing"))[4].pass);
    assert!(check_message(&chars("Add a thing"))[4].pass);
    // Only the first word is judged.
    assert!(check_message(&chars("Add things"))[4].pass);
}

#[test]
fn rule_blank_line_on_multiline_messages() {
    assert!(check_message(&chars("Subject only"))[0].pass);
    assert!(check_message(&chars("Subject\n\nBody text"))[0].pass);
    assert!(!check_message(&chars("Subject\nBody right away"))[0].pass);
}

#[test]
fn rule_body_wrap_on_long_body_lines() {
    let good_body = format!("Subject\n\n{}", "b".repeat(72));
    assert!(check_message(&chars(&good_body))[5].pass);
    let bad_body = format!("Subject\n\n{}", "b".repeat(73));
    assert!(!check_message(&chars(&bad_body))[5].pass);
    // The subject's own length does not matter to the wrap rule.
    let long_subject = "S".repeat(80);
    assert!(check_message(&chars(&long_subject))[5].pass);
}

#[test]
fn rule_body_explains_always_passes() {
    assert!(check_message(&chars(""))[6].pass);
    assert!(check_message(&chars("whatever text at all."))[6].pass);
}

#[test]
fn rules_are_deterministic() {
    let msg = chars("some Message that is not great.");
    let first = check_message(&msg);
    let second = check_message(&msg);
    assert_eq!(passes(&first), passes(&second));
    let d1: Vec<&str> = first.iter().map(|r| r.description).collect();
    let d2: Vec<&str> = second.iter().map(|r| r.description).collect();
    assert_eq!(d1, d2);
}

#[test]
fn strip_glyph_drops_through_first_space() {
    assert_eq!(strip_leading_glyph(&chars("💥 Drop a thing")), chars("Drop a thing"));
    assert_eq!(strip_leading_glyph(&chars("nospace")), chars("nospace"));
    assert_eq!(strip_leading_glyph(&chars("a b c")), chars("b c"));
}

#[test]
fn check_with_emoji_judges_the_stripped_message() {
    // With the glyph gone the subject is fine; with it kept it would not be.
    let results = check_message_with_emoji(&chars("💥 Add a thing"));
    assert_eq!(passes(&results), vec![true; 7]);
    let results = check_message_with_emoji(&chars("💥 add a thing."));
    assert!(!results[2].pass);
    assert!(!results[3].pass);
}

#[test]
fn rule_marks() {
    let results = check_message(&chars("Add a thing."));
    assert_eq!(results[0].mark(), "✔");
    assert_eq!(results[3].mark(), "✖");
}
