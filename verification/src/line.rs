//! The one-line output format: `"<glyph> <message>\n"`.
//!
//! The output target holds exactly one line: the chosen glyph, one ASCII
//! space, the trimmed message, one newline. [`parse_commit_line`] reads
//! such a line back; the round-trip lemma shows that formatting then
//! parsing returns exactly the glyph and message that went in, as long as
//! the glyph holds no space.

use vstd::prelude::*;

use crate::text::{first_index, index_of, lemma_first_index_at, lemma_first_index_properties,
    str_chars, subrange_vec};

verus! {

/// The stored line for glyph `glyph` and message `message`.
pub open spec fn commit_line_spec(glyph: Seq<char>, message: Seq<char>) -> Seq<char> {
    glyph + seq![' '] + message + seq!['\n']
}

/// Build the line written to the output target: glyph, space, message,
/// newline.
pub fn format_commit_line(glyph: &str, message: &Vec<char>) -> (r: Vec<char>)
    ensures
        r@ == commit_line_spec(glyph@, message@),
{
    let mut r = str_chars(glyph);
    r.push(' ');
    let mut j: usize = 0;
    while j < message.len()
        invariant
            j <= message@.len(),
            r@ == glyph@ + seq![' '] + message@.take(j as int),
        decreases message@.len() - j,
    {
        r.push(message[j]);
        proof {
            assert(glyph@ + seq![' '] + message@.take(j as int + 1) =~= (glyph@ + seq![' ']
                + message@.take(j as int)).push(message@[j as int]));
        }
        j = j + 1;
    }
    r.push('\n');
    proof {
        assert(message@.take(message@.len() as int) =~= message@);
        assert(commit_line_spec(glyph@, message@) =~= (glyph@ + seq![' '] + message@).push('\n'));
    }
    r
}

/// What reading a stored line yields: the glyph before the first space and
/// the message after it, with the trailing newline gone; nothing when the
/// line does not end in a newline or has no space.
pub open spec fn parse_commit_line_spec(line: Seq<char>) -> Option<(Seq<char>, Seq<char>)> {
    if line.len() == 0 || line.last() != '\n' {
        None
    } else {
        let body = line.drop_last();
        let p = first_index(body, ' ');
        if p == body.len() {
            None
        } else {
            Some((body.take(p), body.skip(p + 1)))
        }
    }
}

/// Read a stored line back into its glyph and message.
pub fn parse_commit_line(line: &Vec<char>) -> (r: Option<(Vec<char>, Vec<char>)>)
    ensures
        parse_commit_line_spec(line@) is None ==> r is None,
        (parse_commit_line_spec(line@) matches Some(gm) ==> (r matches Some(x) && x.0@ == gm.0
            && x.1@ == gm.1)),
{
    let n = line.len();
    if n == 0 || line[n - 1] != '\n' {
        return None;
    }
    let body = subrange_vec(line, 0, n - 1);
    proof {
        assert(body@ =~= line@.drop_last());
        lemma_first_index_properties(body@, ' ');
    }
    let p = index_of(&body, ' ');
    if p == body.len() {
        return None;
    }
    let glyph = subrange_vec(&body, 0, p);
    let message = subrange_vec(&body, p + 1, body.len());
    proof {
        assert(glyph@ =~= line@.drop_last().take(p as int));
        assert(message@ =~= line@.drop_last().skip(p as int + 1));
    }
    Some((glyph, message))
}

/// Round trip of the output line: writing `"<glyph> <message>\n"` and
/// reading it back yields exactly the glyph and the message, with nothing
/// added, provided the glyph itself holds no space.
pub proof fn lemma_commit_line_round_trip(glyph: Seq<char>, message: Seq<char>)
    requires
        forall|i: int| 0 <= i < glyph.len() ==> glyph[i] != ' ',
    ensures
        parse_commit_line_spec(commit_line_spec(glyph, message)) == Some((glyph, message)),
{
    let line = commit_line_spec(glyph, message);
    assert(line.last() == '\n');
    let body = line.drop_last();
    assert(body =~= glyph + seq![' '] + message);
    assert forall|j: int| 0 <= j < glyph.len() implies body[j] != ' ' by {
        assert(body[j] == glyph[j]);
    }
    assert(body[glyph.len() as int] == ' ');
    lemma_first_index_at(body, ' ', glyph.len() as int);
    assert(body.take(glyph.len() as int) =~= glyph);
    assert(body.skip(glyph.len() as int + 1) =~= message);
}

} // verus!
