//! The message composer: a keystroke-driven state machine over a one-line
//! buffer.
//!
//! The composer accumulates printable characters at the end of its buffer,
//! removes the last one on backspace, and leaves its loop on enter
//! (confirm), Control-C (abort) or Control-E (defer to the external
//! editor). The buffer never holds a line terminator: the two line-break
//! characters are ignored if they ever arrive as plain characters. On a
//! non-aborted exit, the trimmed buffer becomes the commit message.

use vstd::prelude::*;

use crate::keys::Key;
use crate::text::{trim, trim_spec};

verus! {

/// Where the composer loop stands.
#[derive(Clone, Copy, Debug, PartialEq, Eq, Structural)]
pub enum ComposerStatus {
    /// The loop is waiting for further keys.
    Running,
    /// The user finished the message with enter.
    Confirmed,
    /// The user aborted the composition.
    Aborted,
    /// The user asked to continue in the external editor.
    DeferToEditor,
}

/// State of the message composer.
pub struct ComposerState {
    /// The characters typed so far, oldest first.
    pub buffer: Vec<char>,
    /// Where the loop stands.
    pub status: ComposerStatus,
}

/// Mathematical model of a composer state.
pub struct ComposerModel {
    /// The characters typed so far, oldest first.
    pub buffer: Seq<char>,
    /// Where the loop stands.
    pub status: ComposerStatus,
}

impl View for ComposerState {
    type V = ComposerModel;

    open spec fn view(&self) -> ComposerModel {
        ComposerModel { buffer: self.buffer@, status: self.status }
    }
}

/// A character that would end the line.
pub open spec fn is_line_break(c: char) -> bool {
    c == '\n' || c == '\r'
}

/// `s` holds no line terminator.
pub open spec fn line_free(s: Seq<char>) -> bool {
    forall|i: int| 0 <= i < s.len() ==> !is_line_break(#[trigger] s[i])
}

/// The model the composer starts from: an empty buffer, running.
pub open spec fn initial_model() -> ComposerModel {
    ComposerModel { buffer: Seq::empty(), status: ComposerStatus::Running }
}

impl ComposerState {
    /// The state the composer starts in.
    pub fn initial() -> (s: ComposerState)
        ensures
            s@ == initial_model(),
    {
        let s = ComposerState { buffer: Vec::new(), status: ComposerStatus::Running };
        proof {
            assert(s@.buffer =~= initial_model().buffer);
        }
        s
    }
}

/// The composer's transition relation: the model after one key arrives.
pub open spec fn composer_next(m: ComposerModel, k: Key) -> ComposerModel {
    if m.status != ComposerStatus::Running {
        m
    } else {
        match k {
            Key::CtrlC => ComposerModel { buffer: m.buffer, status: ComposerStatus::Aborted },
            Key::CtrlE => ComposerModel {
                buffer: m.buffer,
                status: ComposerStatus::DeferToEditor,
            },
            Key::Enter => ComposerModel { buffer: m.buffer, status: ComposerStatus::Confirmed },
            Key::Backspace => ComposerModel {
                buffer: if m.buffer.len() > 0 {
                    m.buffer.drop_last()
                } else {
                    m.buffer
                },
                status: m.status,
            },
            Key::Ch(c) => ComposerModel {
                buffer: if is_line_break(c) {
                    m.buffer
                } else {
                    m.buffer.push(c)
                },
                status: m.status,
            },
            _ => m,
        }
    }
}

/// Feed one key to the composer.
pub fn composer_step(s: ComposerState, k: Key) -> (r: ComposerState)
    ensures
        r@ == composer_next(s@, k),
{
    if s.status != ComposerStatus::Running {
        return s;
    }
    match k {
        Key::CtrlC => ComposerState { buffer: s.buffer, status: ComposerStatus::Aborted },
        Key::CtrlE => ComposerState { buffer: s.buffer, status: ComposerStatus::DeferToEditor },
        Key::Enter => ComposerState { buffer: s.buffer, status: ComposerStatus::Confirmed },
        Key::Backspace => {
            let mut buffer = s.buffer;
            if buffer.len() > 0 {
                buffer.pop();
                proof {
                    assert(buffer@ =~= s@.buffer.drop_last());
                }
            }
            ComposerState { buffer, status: s.status }
        },
        Key::Ch(c) => {
            let mut buffer = s.buffer;
            if !(c == '\n' || c == '\r') {
                buffer.push(c);
            }
            ComposerState { buffer, status: s.status }
        },
        _ => s,
    }
}

/// Every transition preserves line-freedom of the buffer.
pub proof fn lemma_composer_preserves_line_free(m: ComposerModel, k: Key)
    requires
        line_free(m.buffer),
    ensures
        line_free(composer_next(m, k).buffer),
{
    let b2 = composer_next(m, k).buffer;
    assert forall|i: int| 0 <= i < b2.len() implies !is_line_break(b2[i]) by {
        if i < m.buffer.len() {
            assert(!is_line_break(m.buffer[i]));
        }
    }
}

/// The composer after a whole sequence of keys, stopping at the first
/// terminal state.
pub open spec fn composer_run_spec(m: ComposerModel, keys: Seq<Key>) -> ComposerModel
    decreases keys.len(),
{
    if keys.len() == 0 || m.status != ComposerStatus::Running {
        m
    } else {
        composer_run_spec(composer_next(m, keys[0]), keys.drop_first())
    }
}

/// A terminal composer state absorbs any further keys.
pub proof fn lemma_composer_run_stopped(m: ComposerModel, keys: Seq<Key>)
    requires
        m.status != ComposerStatus::Running,
    ensures
        composer_run_spec(m, keys) == m,
{
}

/// Run the composer from its initial state over a whole key sequence.
pub fn composer_run(keys: &Vec<Key>) -> (r: ComposerState)
    ensures
        r@ == composer_run_spec(initial_model(), keys@),
{
    let mut s = ComposerState::initial();
    let mut i: usize = 0;
    proof {
        assert(keys@.skip(0) =~= keys@);
    }
    while i < keys.len()
        invariant
            i <= keys@.len(),
            composer_run_spec(initial_model(), keys@) == composer_run_spec(
                s@,
                keys@.skip(i as int),
            ),
        decreases keys@.len() - i,
    {
        if s.status != ComposerStatus::Running {
            proof {
                lemma_composer_run_stopped(s@, keys@.skip(i as int));
            }
            return s;
        }
        let ghost rest = keys@.skip(i as int);
        proof {
            assert(rest[0] == keys@[i as int]);
            assert(rest.drop_first() =~= keys@.skip(i as int + 1));
        }
        s = composer_step(s, keys[i]);
        i = i + 1;
    }
    proof {
        assert(keys@.skip(i as int) =~= Seq::<Key>::empty());
    }
    s
}

/// What the composer hands back on exit.
pub struct ComposerOutcome {
    /// The trimmed message, or nothing on an abort.
    pub message: Option<Vec<char>>,
    /// Whether composition should continue in the external editor.
    pub launch_editor: bool,
}

/// Read a finished composer off: nothing on an abort, otherwise the trimmed
/// buffer, with the editor flag set exactly on a defer.
pub fn composer_outcome(s: &ComposerState) -> (r: ComposerOutcome)
    requires
        s@.status != ComposerStatus::Running,
    ensures
        s@.status == ComposerStatus::Aborted ==> r.message is None && r.launch_editor == false,
        s@.status == ComposerStatus::Confirmed ==> (r.message matches Some(m) && m@ == trim_spec(
            s@.buffer,
        ) && r.launch_editor == false),
        s@.status == ComposerStatus::DeferToEditor ==> (r.message matches Some(m) && m@
            == trim_spec(s@.buffer) && r.launch_editor == true),
{
    if s.status == ComposerStatus::Aborted {
        ComposerOutcome { message: None, launch_editor: false }
    } else {
        ComposerOutcome {
            message: Some(trim(&s.buffer)),
            launch_editor: s.status == ComposerStatus::DeferToEditor,
        }
    }
}

} // verus!
