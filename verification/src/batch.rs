//! The batch validator: re-check historical commit messages.
//!
//! Each stored message still carries its glyph prefix; the prefix is
//! dropped and the seven rules run over the rest. The report holds, in
//! order, every message that broke a rule together with exactly the rules
//! it broke; the whole batch succeeds when no message broke any rule.

use vstd::prelude::*;

use crate::rules::{check_message_with_emoji, results_match, rule_description, rule_pass,
    strip_glyph, RuleResult};
use crate::text::subrange_vec;

verus! {

/// Indices, in display order, of the rules among the first `n` that fail
/// on message `s`.
pub open spec fn failing_up_to(s: Seq<char>, n: int) -> Seq<int>
    decreases n,
{
    if n <= 0 {
        Seq::empty()
    } else if !rule_pass(n - 1, s) {
        failing_up_to(s, n - 1).push(n - 1)
    } else {
        failing_up_to(s, n - 1)
    }
}

/// Indices, in display order, of the rules that fail on message `s`.
pub open spec fn spec_failing(s: Seq<char>) -> Seq<int> {
    failing_up_to(s, 7)
}

/// No rule among the first `n` fails exactly when the failing list up to
/// `n` is empty.
proof fn lemma_failing_up_to_empty(s: Seq<char>, n: int)
    ensures
        failing_up_to(s, n).len() == 0 <==> (forall|i: int| 0 <= i < n ==> rule_pass(i, s)),
    decreases n,
{
    if n > 0 {
        lemma_failing_up_to_empty(s, n - 1);
    }
}

/// `f` is exactly the failing results of message `s`, in display order.
pub open spec fn failures_match(f: Seq<RuleResult>, s: Seq<char>) -> bool {
    f.len() == spec_failing(s).len() && forall|j: int|
        0 <= j < f.len() ==> !(#[trigger] f[j]).pass && f[j].description@ == rule_description(
            spec_failing(s)[j],
        )
}

/// The failing results of a stored message, glyph still attached: one
/// result per broken rule, in display order.
pub fn failing_rules(msg: &Vec<char>) -> (r: Vec<RuleResult>)
    ensures
        failures_match(r@, strip_glyph(msg@)),
{
    let all = check_message_with_emoji(msg);
    let ghost s = strip_glyph(msg@);
    let mut out: Vec<RuleResult> = Vec::new();
    let mut i: usize = 0;
    while i < all.len()
        invariant
            i <= 7,
            all@.len() == 7,
            results_match(all@, s),
            out@.len() == failing_up_to(s, i as int).len(),
            forall|j: int|
                0 <= j < out@.len() ==> !(#[trigger] out@[j]).pass && out@[j].description@
                    == rule_description(failing_up_to(s, i as int)[j]),
        decreases 7 - i,
    {
        if !all[i].pass {
            out.push(all[i]);
        }
        i = i + 1;
    }
    out
}

/// Message `m`, glyph still attached, passes every rule.
pub open spec fn message_passes(m: Seq<char>) -> bool {
    forall|i: int| 0 <= i < 7 ==> rule_pass(i, strip_glyph(m))
}

/// Indices of the messages among the first `n` of `ms` that broke some
/// rule, in order.
pub open spec fn failing_messages_up_to(ms: Seq<Seq<char>>, n: int) -> Seq<int>
    decreases n,
{
    if n <= 0 {
        Seq::empty()
    } else if !message_passes(ms[n - 1]) {
        failing_messages_up_to(ms, n - 1).push(n - 1)
    } else {
        failing_messages_up_to(ms, n - 1)
    }
}

/// Indices of the messages of `ms` that broke some rule, in order.
pub open spec fn spec_failing_messages(ms: Seq<Seq<char>>) -> Seq<int> {
    failing_messages_up_to(ms, ms.len() as int)
}

/// One failing message and the rules it broke.
pub struct MessageFailures {
    /// The stored message, glyph still attached.
    pub message: Vec<char>,
    /// The rules it broke, in display order.
    pub failures: Vec<RuleResult>,
}

/// Outcome of a batch validation.
pub struct ValidationOutcome {
    /// The failing messages, in input order, each with its broken rules.
    pub reports: Vec<MessageFailures>,
    /// Whether every message passed every rule.
    pub ok: bool,
}

/// The views of a sequence of character vectors.
pub open spec fn views_of(ms: Seq<Vec<char>>) -> Seq<Seq<char>> {
    ms.map_values(|m: Vec<char>| m@)
}

/// Validate a batch of stored messages: report, in order, every message
/// that broke a rule with exactly the rules it broke; succeed exactly when
/// none did.
pub fn validate_messages(messages: &Vec<Vec<char>>) -> (r: ValidationOutcome)
    ensures
        r.ok == (forall|k: int| 0 <= k < messages@.len() ==> message_passes(
            (#[trigger] messages@[k])@,
        )),
        r.reports@.len() == spec_failing_messages(views_of(messages@)).len(),
        forall|j: int|
            0 <= j < r.reports@.len() ==> {
                let idx = spec_failing_messages(views_of(messages@))[j];
                (#[trigger] r.reports@[j]).message@ == messages@[idx]@ && failures_match(
                    r.reports@[j].failures@,
                    strip_glyph(messages@[idx]@),
                )
            },
{
    let ghost ms = views_of(messages@);
    let mut reports: Vec<MessageFailures> = Vec::new();
    let mut ok = true;
    let mut k: usize = 0;
    while k < messages.len()
        invariant
            k <= messages@.len(),
            ms == views_of(messages@),
            ms.len() == messages@.len(),
            forall|t: int| 0 <= t < ms.len() ==> ms[t] == (#[trigger] messages@[t])@,
            ok == (forall|t: int| 0 <= t < k ==> message_passes((#[trigger] messages@[t])@)),
            reports@.len() == failing_messages_up_to(ms, k as int).len(),
            forall|j: int|
                0 <= j < reports@.len() ==> {
                    let idx = failing_messages_up_to(ms, k as int)[j];
                    (#[trigger] reports@[j]).message@ == messages@[idx]@ && failures_match(
                        reports@[j].failures@,
                        strip_glyph(messages@[idx]@),
                    )
                },
        decreases messages@.len() - k,
    {
        let msg = &messages[k];
        let fails = failing_rules(msg);
        proof {
            lemma_failing_up_to_empty(strip_glyph(msg@), 7);
        }
        if fails.len() > 0 {
            ok = false;
            let copy = subrange_vec(msg, 0, msg.len());
            proof {
                assert(copy@ =~= msg@);
            }
            reports.push(MessageFailures { message: copy, failures: fails });
        }
        k = k + 1;
    }
    ValidationOutcome { reports, ok }
}

} // verus!
