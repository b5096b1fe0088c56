//! The commit-type selector: a keystroke-driven state machine.
//!
//! The selector starts at the most severe variant and moves over the cyclic
//! registry: up and `k`/`K` go to the predecessor, down and `j`/`J` to the
//! successor, a digit picks the variant at that one-based position when it
//! exists, enter confirms and Control-C aborts. Every other key is a no-op.
//! The loop that renders the registry and blocks on the next raw key lives
//! outside the library and feeds [`selector_step`] one [`Key`] at a time.

use vstd::prelude::*;

use crate::keys::Key;
use crate::registry::{CommitType, COMMIT_TYPE_COUNT};

verus! {

/// Where the selector loop stands.
#[derive(Clone, Copy, Debug, PartialEq, Eq, Structural)]
pub enum SelectorStatus {
    /// The loop is waiting for further keys.
    Running,
    /// The user confirmed the current variant.
    Confirmed,
    /// The user aborted the selection.
    Aborted,
}

/// State of the commit-type selector.
#[derive(Clone, Copy, Debug, PartialEq, Eq, Structural)]
pub struct SelectionState {
    /// The variant the selection mark stands on.
    pub current: CommitType,
    /// Where the loop stands.
    pub status: SelectorStatus,
}

impl SelectionState {
    /// The state the selector starts in: the most severe variant, running.
    pub open spec fn initial_spec() -> SelectionState {
        SelectionState { current: CommitType::Breaking, status: SelectorStatus::Running }
    }

    /// The state the selector starts in.
    pub fn initial() -> (s: SelectionState)
        ensures
            s == Self::initial_spec(),
    {
        SelectionState { current: CommitType::Breaking, status: SelectorStatus::Running }
    }
}

/// Zero-based registry position named by the digit key `c`.
pub open spec fn digit_value(c: char) -> int {
    c as int - '1' as int
}

/// The selector's transition relation: the state after one key arrives.
pub open spec fn selector_next(s: SelectionState, k: Key) -> SelectionState {
    if s.status != SelectorStatus::Running {
        s
    } else {
        match k {
            Key::CtrlC => SelectionState { current: s.current, status: SelectorStatus::Aborted },
            Key::Enter => SelectionState { current: s.current, status: SelectorStatus::Confirmed },
            Key::Up => SelectionState { current: s.current.prev_spec(), status: s.status },
            Key::Down => SelectionState { current: s.current.next_spec(), status: s.status },
            Key::Ch(c) => {
                if c == 'k' || c == 'K' {
                    SelectionState { current: s.current.prev_spec(), status: s.status }
                } else if c == 'j' || c == 'J' {
                    SelectionState { current: s.current.next_spec(), status: s.status }
                } else if '1' as int <= c as int && c as int <= '9' as int {
                    if digit_value(c) < COMMIT_TYPE_COUNT {
                        SelectionState {
                            current: CommitType::from_index_spec(digit_value(c)),
                            status: s.status,
                        }
                    } else {
                        s
                    }
                } else {
                    s
                }
            },
            _ => s,
        }
    }
}

/// Feed one key to the selector.
pub fn selector_step(s: SelectionState, k: Key) -> (r: SelectionState)
    ensures
        r == selector_next(s, k),
{
    if s.status != SelectorStatus::Running {
        return s;
    }
    match k {
        Key::CtrlC => SelectionState { current: s.current, status: SelectorStatus::Aborted },
        Key::Enter => SelectionState { current: s.current, status: SelectorStatus::Confirmed },
        Key::Up => SelectionState { current: s.current.prev_variant(), status: s.status },
        Key::Down => SelectionState { current: s.current.next_variant(), status: s.status },
        Key::Ch(c) => {
            if c == 'k' || c == 'K' {
                SelectionState { current: s.current.prev_variant(), status: s.status }
            } else if c == 'j' || c == 'J' {
                SelectionState { current: s.current.next_variant(), status: s.status }
            } else if c as u32 >= '1' as u32 && c as u32 <= '9' as u32 {
                let d = (c as u32 - '1' as u32) as usize;
                proof {
                    assert(d == digit_value(c));
                }
                match CommitType::commit_type_at_index(d) {
                    Some(t) => SelectionState { current: t, status: s.status },
                    None => s,
                }
            } else {
                s
            }
        },
        _ => s,
    }
}

/// The selector after a whole sequence of keys, stopping at the first
/// terminal state.
pub open spec fn selector_run_spec(s: SelectionState, keys: Seq<Key>) -> SelectionState
    decreases keys.len(),
{
    if keys.len() == 0 || s.status != SelectorStatus::Running {
        s
    } else {
        selector_run_spec(selector_next(s, keys[0]), keys.drop_first())
    }
}

/// A terminal selector state absorbs any further keys.
pub proof fn lemma_selector_run_stopped(s: SelectionState, keys: Seq<Key>)
    requires
        s.status != SelectorStatus::Running,
    ensures
        selector_run_spec(s, keys) == s,
{
}

/// Run the selector from its initial state over a whole key sequence.
pub fn selector_run(keys: &Vec<Key>) -> (r: SelectionState)
    ensures
        r == selector_run_spec(SelectionState::initial_spec(), keys@),
{
    let mut s = SelectionState::initial();
    let mut i: usize = 0;
    proof {
        assert(keys@.skip(0) =~= keys@);
    }
    while i < keys.len()
        invariant
            i <= keys@.len(),
            selector_run_spec(SelectionState::initial_spec(), keys@) == selector_run_spec(
                s,
                keys@.skip(i as int),
            ),
        decreases keys@.len() - i,
    {
        if s.status != SelectorStatus::Running {
            proof {
                lemma_selector_run_stopped(s, keys@.skip(i as int));
            }
            return s;
        }
        let ghost rest = keys@.skip(i as int);
        proof {
            assert(rest[0] == keys@[i as int]);
            assert(rest.drop_first() =~= keys@.skip(i as int + 1));
        }
        s = selector_step(s, keys[i]);
        i = i + 1;
    }
    proof {
        assert(keys@.skip(i as int) =~= Seq::<Key>::empty());
    }
    s
}

/// What the selector hands back on exit: the chosen glyph on confirmation,
/// nothing on abort.
pub fn selector_outcome(s: &SelectionState) -> (r: Option<&'static str>)
    requires
        s.status != SelectorStatus::Running,
    ensures
        s.status == SelectorStatus::Aborted ==> r is None,
        s.status == SelectorStatus::Confirmed ==> (r matches Some(g) && g@
            == s.current.emoji_spec()),
{
    if s.status == SelectorStatus::Aborted {
        None
    } else {
        Some(s.current.emoji())
    }
}

/// The variant set is closed: every selection state's variant lies in the
/// fixed registry, before and after any key.
pub proof fn lemma_selector_current_in_set(s: SelectionState, k: Key)
    ensures
        CommitType::all_variants().contains(s.current),
        CommitType::all_variants().contains(selector_next(s, k).current),
{
    let t = selector_next(s, k).current;
    assert(CommitType::all_variants()[s.current.index_spec()] == s.current);
    assert(CommitType::all_variants()[t.index_spec()] == t);
}

/// Cyclic closure at the selector: pressing "next" on the last variant
/// wraps to the first, and "previous" on the first wraps to the last.
pub proof fn lemma_selector_cyclic_wrap()
    ensures
        selector_next(
            SelectionState { current: CommitType::Meta, status: SelectorStatus::Running },
            Key::Down,
        ).current == CommitType::Breaking,
        selector_next(
            SelectionState { current: CommitType::Breaking, status: SelectorStatus::Running },
            Key::Up,
        ).current == CommitType::Meta,
{
}

/// A digit key selects the variant at its one-based position when that
/// position exists in the registry, and is a no-op beyond the registry.
pub proof fn lemma_digit_selection(s: SelectionState, c: char)
    requires
        s.status == SelectorStatus::Running,
        '1' as int <= c as int && c as int <= '9' as int,
    ensures
        digit_value(c) < COMMIT_TYPE_COUNT ==> selector_next(s, Key::Ch(c)) == (SelectionState {
            current: CommitType::from_index_spec(digit_value(c)),
            status: SelectorStatus::Running,
        }),
        digit_value(c) >= COMMIT_TYPE_COUNT ==> selector_next(s, Key::Ch(c)) == s,
{
    assert(c != 'k' && c != 'K' && c != 'j' && c != 'J');
}

} // verus!
