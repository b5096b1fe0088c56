//! The rule engine: seven style checks over a commit message.
//!
//! Every check is a pure predicate over the message's characters. A message
//! is split into lines at `'\n'`; the first line is the subject, the rest
//! the body. The engine always yields exactly seven results, in a fixed
//! order. Two of the checks are advisory in nature: the imperative-mood
//! check is a best-effort heuristic on the ending of the first word, and
//! the what-and-why check cannot be decided mechanically and always passes.

use vstd::prelude::*;

use crate::text::{first_index, index_of, lemma_first_index_properties, subrange_vec};

verus! {

/// Number of rules the engine evaluates.
pub const RULE_COUNT: usize = 7;

/// The lines of `s`, split at `'\n'`. A message without a newline is one
/// line; each `'\n'` ends a line, so `n` newlines give `n + 1` lines.
pub open spec fn spec_lines(s: Seq<char>) -> Seq<Seq<char>>
    decreases s.len(),
{
    if s.len() == 0 {
        seq![Seq::<char>::empty()]
    } else if s[0] == '\n' {
        seq![Seq::<char>::empty()] + spec_lines(s.drop_first())
    } else {
        let rest = spec_lines(s.drop_first());
        seq![seq![s[0]] + rest[0]] + rest.drop_first()
    }
}

/// A message always has at least one line.
pub proof fn lemma_spec_lines_len(s: Seq<char>)
    ensures
        spec_lines(s).len() >= 1,
    decreases s.len(),
{
    if s.len() > 0 {
        lemma_spec_lines_len(s.drop_first());
    }
}

/// The subject of a message: its first line.
pub open spec fn subject_of(s: Seq<char>) -> Seq<char> {
    spec_lines(s)[0]
}

/// An ASCII capital letter.
pub open spec fn is_ascii_uppercase(c: char) -> bool {
    'A' as int <= c as int && c as int <= 'Z' as int
}

/// The first word of `s`: everything before the first space, or all of `s`
/// when it has no space.
pub open spec fn first_word(s: Seq<char>) -> Seq<char> {
    s.take(first_index(s, ' '))
}

/// Rule 1: separate subject from body with a blank line. A single-line
/// message has no body and passes; with a body present, the line right
/// after the subject must be empty.
pub open spec fn rule_blank_line_pass(s: Seq<char>) -> bool {
    spec_lines(s).len() <= 1 || spec_lines(s)[1].len() == 0
}

/// Rule 2: limit the subject line to 50 characters.
pub open spec fn rule_limit_pass(s: Seq<char>) -> bool {
    subject_of(s).len() <= 50
}

/// Rule 3: capitalize the subject line. An empty subject has no capital
/// first letter and fails.
pub open spec fn rule_capitalize_pass(s: Seq<char>) -> bool {
    subject_of(s).len() > 0 && is_ascii_uppercase(subject_of(s)[0])
}

/// Rule 4: do not end the subject line with a period. An empty subject
/// passes.
pub open spec fn rule_no_period_pass(s: Seq<char>) -> bool {
    subject_of(s).len() == 0 || subject_of(s).last() != '.'
}

/// Rule 5: use the imperative mood in the subject line. Heuristic, best
/// effort: the first word of the subject must not end in "s", "ed" or
/// "ing".
pub open spec fn rule_imperative_pass(s: Seq<char>) -> bool {
    let w = first_word(subject_of(s));
    !(w.len() >= 1 && w.last() == 's') && !(w.len() >= 2 && w[w.len() - 2] == 'e' && w.last()
        == 'd') && !(w.len() >= 3 && w[w.len() - 3] == 'i' && w[w.len() - 2] == 'n' && w.last()
        == 'g')
}

/// Rule 6: wrap the body at 72 characters. A message without a body
/// passes.
pub open spec fn rule_body_wrap_pass(s: Seq<char>) -> bool {
    forall|i: int|
        1 <= i < spec_lines(s).len() ==> (#[trigger] spec_lines(s)[i]).len() <= 72
}

/// Rule 7: use the body to explain what and why vs. how. Not mechanically
/// checkable; advisory only, always passes.
pub open spec fn rule_body_explains_pass(s: Seq<char>) -> bool {
    true
}

/// Whether rule `i` (zero-based, in display order) passes on message `s`.
pub open spec fn rule_pass(i: int, s: Seq<char>) -> bool {
    if i == 0 {
        rule_blank_line_pass(s)
    } else if i == 1 {
        rule_limit_pass(s)
    } else if i == 2 {
        rule_capitalize_pass(s)
    } else if i == 3 {
        rule_no_period_pass(s)
    } else if i == 4 {
        rule_imperative_pass(s)
    } else if i == 5 {
        rule_body_wrap_pass(s)
    } else {
        rule_body_explains_pass(s)
    }
}

/// Display description of rule `i`, in display order.
pub open spec fn rule_description(i: int) -> Seq<char> {
    if i == 0 {
        "Separate subject from body with a blank line"@
    } else if i == 1 {
        "Limit the subject line to 50 characters"@
    } else if i == 2 {
        "Capitalize the subject line"@
    } else if i == 3 {
        "Do not end the subject line with a period"@
    } else if i == 4 {
        "Use the imperative mood in the subject line"@
    } else if i == 5 {
        "Wrap the body at 72 characters"@
    } else {
        "Use the body to explain what and why vs. how"@
    }
}

/// Outcome of one rule on one message: the rule's description and whether
/// the message passed it.
#[derive(Clone, Copy, Debug)]
pub struct RuleResult {
    /// Display description of the rule.
    pub description: &'static str,
    /// Whether the message passed the rule.
    pub pass: bool,
}

impl RuleResult {
    /// Display mark for this outcome: a check mark on a pass, a cross on a
    /// failure.
    pub fn mark(&self) -> (r: &'static str)
        ensures
            self.pass ==> r@ == "✔"@,
            !self.pass ==> r@ == "✖"@,
    {
        if self.pass {
            "✔"
        } else {
            "✖"
        }
    }
}

/// `r` is exactly the engine's verdict on message `s`: seven results, in
/// display order, each carrying its rule's description and pass bit.
pub open spec fn results_match(r: Seq<RuleResult>, s: Seq<char>) -> bool {
    r.len() == 7 && forall|i: int|
        0 <= i < 7 ==> (#[trigger] r[i]).pass == rule_pass(i, s) && r[i].description@
            == rule_description(i)
}

/// The rule engine is a pure function of the message: any two evaluations
/// of the same message agree, result by result, in order.
pub proof fn lemma_rules_deterministic(r1: Seq<RuleResult>, r2: Seq<RuleResult>, s: Seq<char>)
    requires
        results_match(r1, s),
        results_match(r2, s),
    ensures
        r1.len() == r2.len(),
        forall|i: int|
            0 <= i < r1.len() ==> (#[trigger] r1[i]).pass == r2[i].pass && r1[i].description@
                == r2[i].description@,
{
}

/// `p + l[0]`, followed by the rest of `l`: the lines of a text continued
/// to the left by the line fragment `p`.
spec fn prepend_first(p: Seq<char>, l: Seq<Seq<char>>) -> Seq<Seq<char>>
    recommends
        l.len() >= 1,
{
    seq![p + l[0]] + l.drop_first()
}

/// The lines of the message, split at `'\n'`, in order.
pub fn split_lines(msg: &Vec<char>) -> (r: Vec<Vec<char>>)
    ensures
        r@.len() == spec_lines(msg@).len(),
        forall|i: int| 0 <= i < r@.len() ==> (#[trigger] r@[i])@ == spec_lines(msg@)[i],
        r@.len() >= 1,
{
    let ghost whole = msg@;
    let mut out: Vec<Vec<char>> = Vec::new();
    let mut cur: Vec<char> = Vec::new();
    let mut i: usize = 0;
    proof {
        lemma_spec_lines_len(whole);
        assert(whole.skip(0) =~= whole);
        assert(prepend_first(cur@, spec_lines(whole)) =~~= spec_lines(whole));
    }
    while i < msg.len()
        invariant
            i <= whole.len(),
            whole == msg@,
            spec_lines(whole) =~~= out@.map_values(|v: Vec<char>| v@) + prepend_first(
                cur@,
                spec_lines(whole.skip(i as int)),
            ),
        decreases whole.len() - i,
    {
        let ghost rest = whole.skip(i as int);
        let ghost rest2 = whole.skip(i as int + 1);
        proof {
            assert(rest.len() > 0);
            assert(rest[0] == whole[i as int]);
            assert(rest.drop_first() =~= rest2);
            lemma_spec_lines_len(rest2);
        }
        let c = msg[i];
        if c == '\n' {
            proof {
                let m = spec_lines(rest2);
                assert(spec_lines(rest) =~~= seq![Seq::<char>::empty()] + m);
                assert(prepend_first(cur@, spec_lines(rest)) =~~= seq![cur@] + m);
                assert(prepend_first(Seq::<char>::empty(), m) =~~= m);
                assert(out@.push(cur).map_values(|v: Vec<char>| v@) =~~= out@.map_values(
                    |v: Vec<char>| v@,
                ).push(cur@));
            }
            out.push(cur);
            cur = Vec::new();
        } else {
            proof {
                let m = spec_lines(rest2);
                assert(spec_lines(rest) =~~= seq![seq![rest[0]] + m[0]] + m.drop_first());
                assert(cur@ + (seq![rest[0]] + m[0]) =~= cur@.push(rest[0]) + m[0]);
                assert(prepend_first(cur@, spec_lines(rest)) =~~= prepend_first(
                    cur@.push(rest[0]),
                    m,
                ));
            }
            cur.push(c);
        }
        i = i + 1;
    }
    proof {
        let rest = whole.skip(i as int);
        assert(rest =~= Seq::<char>::empty());
        assert(prepend_first(cur@, spec_lines(rest)) =~~= seq![cur@]);
        assert(out@.push(cur).map_values(|v: Vec<char>| v@) =~~= out@.map_values(
            |v: Vec<char>| v@,
        ).push(cur@));
    }
    out.push(cur);
    proof {
        assert(out@.map_values(|v: Vec<char>| v@) =~~= spec_lines(whole));
        assert forall|k: int| 0 <= k < out@.len() implies (#[trigger] out@[k])@ == spec_lines(
            whole,
        )[k] by {
            assert(out@.map_values(|v: Vec<char>| v@)[k] == out@[k]@);
        }
    }
    out
}

/// An ASCII capital letter.
fn ascii_uppercase(c: char) -> (r: bool)
    ensures
        r == is_ascii_uppercase(c),
{
    let u = c as u32;
    u >= 'A' as u32 && u <= 'Z' as u32
}

/// Evaluate all seven rules, in display order, over a message whose glyph
/// prefix is already gone.
pub fn check_message(msg: &Vec<char>) -> (r: Vec<RuleResult>)
    ensures
        results_match(r@, msg@),
{
    let ghost s = msg@;
    let lines = split_lines(msg);
    let subject = &lines[0];
    proof {
        assert(lines@[0]@ == subject_of(s));
    }
    // Rule 1: blank line between subject and body.
    let pass_blank = lines.len() <= 1 || lines[1].len() == 0;
    proof {
        if lines@.len() > 1 {
            assert(lines@[1]@ == spec_lines(s)[1]);
        }
    }
    // Rule 2: subject at most 50 characters.
    let pass_limit = subject.len() <= 50;
    // Rule 3: subject starts with a capital letter.
    let pass_capitalize = subject.len() > 0 && ascii_uppercase(subject[0]);
    // Rule 4: subject does not end with a period.
    let pass_period = subject.len() == 0 || subject[subject.len() - 1] != '.';
    // Rule 5: first word of the subject does not end in "s", "ed" or "ing".
    proof {
        lemma_first_index_properties(subject_of(s), ' ');
    }
    let p = index_of(subject, ' ');
    let ghost w = first_word(subject_of(s));
    proof {
        assert(w.len() == p);
        assert(forall|j: int| 0 <= j < w.len() ==> w[j] == subject_of(s)[j]);
    }
    let ends_s = p >= 1 && subject[p - 1] == 's';
    let ends_ed = p >= 2 && subject[p - 2] == 'e' && subject[p - 1] == 'd';
    let ends_ing = p >= 3 && subject[p - 3] == 'i' && subject[p - 2] == 'n' && subject[p - 1]
        == 'g';
    let pass_imperative = !(ends_s || ends_ed || ends_ing);
    // Rule 6: every body line at most 72 characters.
    let mut pass_wrap = true;
    let mut k: usize = 1;
    while k < lines.len()
        invariant
            1 <= k <= lines@.len(),
            lines@.len() == spec_lines(s).len(),
            forall|i: int| 0 <= i < lines@.len() ==> (#[trigger] lines@[i])@ == spec_lines(s)[i],
            pass_wrap == forall|i: int|
                1 <= i < k ==> (#[trigger] spec_lines(s)[i]).len() <= 72,
        decreases lines@.len() - k,
    {
        if lines[k].len() > 72 {
            pass_wrap = false;
        }
        k = k + 1;
    }
    let mut r: Vec<RuleResult> = Vec::new();
    r.push(
        RuleResult { description: "Separate subject from body with a blank line", pass: pass_blank },
    );
    r.push(RuleResult { description: "Limit the subject line to 50 characters", pass: pass_limit });
    r.push(RuleResult { description: "Capitalize the subject line", pass: pass_capitalize });
    r.push(
        RuleResult { description: "Do not end the subject line with a period", pass: pass_period },
    );
    r.push(
        RuleResult {
            description: "Use the imperative mood in the subject line",
            pass: pass_imperative,
        },
    );
    r.push(RuleResult { description: "Wrap the body at 72 characters", pass: pass_wrap });
    r.push(
        RuleResult { description: "Use the body to explain what and why vs. how", pass: true },
    );
    r
}

/// The message with its leading glyph gone: everything after the first
/// space, or the message itself when it has no space.
pub open spec fn strip_glyph(s: Seq<char>) -> Seq<char> {
    if first_index(s, ' ') == s.len() {
        s
    } else {
        s.skip(first_index(s, ' ') + 1)
    }
}

/// Drop the leading glyph of a stored message: everything up to and
/// including its first space.
pub fn strip_leading_glyph(msg: &Vec<char>) -> (r: Vec<char>)
    ensures
        r@ == strip_glyph(msg@),
{
    proof {
        lemma_first_index_properties(msg@, ' ');
    }
    let p = index_of(msg, ' ');
    if p == msg.len() {
        proof {
            assert(msg@.subrange(0, msg@.len() as int) =~= msg@);
        }
        subrange_vec(msg, 0, msg.len())
    } else {
        proof {
            assert(msg@.subrange(p + 1 as int, msg@.len() as int) =~= msg@.skip(p + 1 as int));
        }
        subrange_vec(msg, p + 1, msg.len())
    }
}

/// Evaluate all seven rules over a stored message that still carries its
/// glyph prefix: the prefix is dropped first.
pub fn check_message_with_emoji(msg: &Vec<char>) -> (r: Vec<RuleResult>)
    ensures
        results_match(r@, strip_glyph(msg@)),
{
    let stripped = strip_leading_glyph(msg);
    check_message(&stripped)
}

} // verus!
