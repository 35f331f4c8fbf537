//! Comments attached ahead of source positions, and the per-function
//! opt-out marker that a block comment may carry.

use std::collections::HashMap;
use vstd::prelude::*;
use vstd::utf8::encode_utf8;

verus! {

broadcast use vstd::std_specs::hash::group_hash_axioms;

/// The two shapes of a comment.
#[derive(Debug, Clone, Copy, PartialEq, Eq, Structural)]
pub enum CommentKind {
    /// `// ...`
    Line,
    /// `/* ... */`
    Block,
}

/// One comment: its shape and the text between its delimiters.
#[derive(Debug, PartialEq, Eq)]
pub struct Comment {
    pub kind: CommentKind,
    pub text: String,
}

/// The comments that lead each source position, keyed by position.
pub type LeadingComments = HashMap<u32, Vec<Comment>>;

/// The marker that excludes one generator function from the rewrite.
pub const NOINLINE_MARKER: &'static str = "@noinline";

/// `pat` stands in `text` at offset `at`.
pub open spec fn occurs_at(pat: Seq<u8>, text: Seq<u8>, at: int) -> bool {
    0 <= at && at + pat.len() <= text.len() && text.subrange(at, at + pat.len()) == pat
}

/// `pat` occurs in `text` as a contiguous run.
pub open spec fn occurs_in(pat: Seq<u8>, text: Seq<u8>) -> bool {
    exists|at: int| occurs_at(pat, text, at)
}

/// The marker is a substring of `text`: the bytes of the one occur in the
/// bytes of the other, both in UTF-8.
pub open spec fn holds_marker(text: Seq<char>) -> bool {
    occurs_in(encode_utf8(NOINLINE_MARKER@), encode_utf8(text))
}

/// A comment carries the marker: it is a block comment and the marker is a
/// substring of its text.
pub open spec fn carries_marker(c: Comment) -> bool {
    c.kind == CommentKind::Block && holds_marker(c.text@)
}

/// Some comment of the list carries the marker.
pub open spec fn any_carries_marker(cs: Seq<Comment>) -> bool {
    exists|i: int| 0 <= i < cs.len() && carries_marker(#[trigger] cs[i])
}

/// The positions whose leading comments carry the marker. Without a comment
/// lookup no position is marked.
pub open spec fn marked_positions(comments: Option<LeadingComments>) -> Set<u32> {
    match comments {
        Some(table) => Set::new(
            |pos: u32| table@.contains_key(pos) && any_carries_marker(table@[pos]@),
        ),
        None => Set::empty(),
    }
}

/// Whether `pat` stands in `text` at offset `at`.
fn matches_at(text: &[u8], pat: &[u8], at: usize) -> (r: bool)
    requires
        at + pat@.len() <= text@.len(),
    ensures
        r == occurs_at(pat@, text@, at as int),
{
    let n: usize = text.len();
    let m: usize = pat.len();
    let mut j: usize = 0;
    while j < m
        invariant
            n == text@.len(),
            m == pat@.len(),
            j <= m,
            at + m <= n,
            forall|k: int| 0 <= k < j ==> text@[at + k] == pat@[k],
        decreases m - j,
    {
        if text[at + j] != pat[j] {
            assert(text@.subrange(at as int, at + pat@.len())[j as int] != pat@[j as int]);
            return false;
        }
        j += 1;
    }
    assert(text@.subrange(at as int, at + pat@.len()) =~= pat@);
    true
}

/// Whether `pat` occurs in `text` as a contiguous run of bytes.
pub fn contains_bytes(text: &[u8], pat: &[u8]) -> (found: bool)
    ensures
        found == occurs_in(pat@, text@),
{
    if pat.len() > text.len() {
        return false;
    }
    let last: usize = text.len() - pat.len();
    let mut at: usize = 0;
    loop
        invariant
            at <= last,
            last == text@.len() - pat@.len(),
            forall|k: int| 0 <= k < at ==> !occurs_at(pat@, text@, k),
        decreases last - at,
    {
        if matches_at(text, pat, at) {
            return true;
        }
        if at == last {
            return false;
        }
        at += 1;
    }
}

/// Whether one comment carries the opt-out marker.
pub fn is_noinline_comment(c: &Comment) -> (r: bool)
    ensures
        r == carries_marker(*c),
{
    match c.kind {
        CommentKind::Block => contains_bytes(c.text.as_str().as_bytes(), NOINLINE_MARKER.as_bytes()),
        CommentKind::Line => false,
    }
}

/// Whether any comment of the list carries the opt-out marker.
pub fn any_noinline_comment(cs: &Vec<Comment>) -> (r: bool)
    ensures
        r == any_carries_marker(cs@),
{
    let mut i: usize = 0;
    while i < cs.len()
        invariant
            i <= cs.len(),
            forall|j: int| 0 <= j < i ==> !carries_marker(#[trigger] cs@[j]),
        decreases cs.len() - i,
    {
        if is_noinline_comment(&cs[i]) {
            return true;
        }
        i += 1;
    }
    false
}

/// Whether the comments that lead `pos` carry the opt-out marker. With no
/// lookup at hand, or nothing attached at `pos`, the answer is `false`.
pub fn leading_opts_out(comments: &Option<LeadingComments>, pos: u32) -> (r: bool)
    ensures
        r == marked_positions(*comments).contains(pos),
{
    match comments {
        Some(table) => match table.get(&pos) {
            Some(leading) => any_noinline_comment(leading),
            None => false,
        },
        None => false,
    }
}

} // verus!
