use emoji_commit::batch::{failing_rules, validate_messages};

fn chars(s: &str) -> Vec<char> {
    s.chars().collect()
}

#[test]
fn failing_rules_lists_only_failures_in_order() {
    let fails = failing_rules(&chars("💥 add a thing."));
    let descriptions: Vec<&str> = fails.iter().map(|r| r.description).collect();
    assert_eq!(
        descriptions,
        vec![
            "Capitalize the subject line",
            "Do not end the subject line with a period",
        ]
    );
    assert!(fails.iter().all(|r| !r.pass));
}

#[test]
fn failing_rules_empty_on_a_compliant_message() {
    let fails = failing_rules(&chars("🎉 Add a thing"));
    assert!(fails.is_empty());
}

#[test]
fn validate_succeeds_on_an_empty_batch() {
    let outcome = validate_messages(&Vec::new());
    assert!(outcome.ok);
    assert!(outcome.reports.is_empty());
}

#[test]
fn validate_succeeds_when_every_message_complies() {
    let messages = vec![chars("🎉 Add a thing"), chars("🐛 Repair the gadget")];
    let outcome = validate_messages(&messages);
    assert!(outcome.ok);
    assert!(outcome.reports.is_empty());
}

#[test]
fn validate_reports_each_failing_message_with_its_rules() {
    let messages = vec![
        chars("🎉 add one."),
        chars("🐛 Repair the gadget"),
        chars("🔥 Removes cruft"),
    ];
    let outcome = validate_messages(&messages);
    assert!(!outcome.ok);
    assert_eq!(outcome.reports.len(), 2);
    let first: String = outcome.reports[0].message.iter().collect();
    assert_eq!(first, "🎉 add one.");
    let first_rules: Vec<&str> =
        outcome.reports[0].failures.iter().map(|r| r.description).collect();
    assert_eq!(
        first_rules,
        vec![
            "Capitalize the subject line",
            "Do not end the subject line with a period",
        ]
    );
    let second: String = outcome.reports[1].message.iter().collect();
    assert_eq!(second, "🔥 Removes cruft");
    let second_rules: Vec<&str> =
        outcome.reports[1].failures.iter().map(|r| r.description).collect();
    assert_eq!(second_rules, vec!["Use the imperative mood in the subject line"]);
}
