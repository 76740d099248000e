//! A minimal model of the line editor's text buffer, and the grapheme-aware
//! read-only queries the mode drivers make against it.

use unicode_segmentation::UnicodeSegmentation;
use vstd::prelude::*;

verus! {

use crate::text::{str_chars, string_from_chars};

/// The text buffer as this core sees it: the characters of the current line
/// and the insertion point as a character index into them. The surrounding
/// line editor owns the real buffer; the core never mutates this view.
#[derive(Debug)]
pub struct LineBuffer {
    pub buffer: Vec<char>,
    pub insertion_point: usize,
}

impl LineBuffer {
    /// The insertion point lies within the line (or just past its end).
    pub open spec fn wf(self) -> bool {
        self.insertion_point <= self.buffer@.len()
    }

    /// An empty buffer with the cursor at the start.
    pub fn new() -> (r: Self)
        ensures
            r.buffer@ == Seq::<char>::empty(),
            r.insertion_point == 0,
            r.wf(),
    {
        Self { buffer: Vec::new(), insertion_point: 0 }
    }

    /// A buffer holding the characters of `s`, with the insertion point at
    /// the given character index, clamped to the end of the line.
    pub fn from_string(s: &str, insertion_point: usize) -> (r: Self)
        ensures
            r.buffer@ == s@,
            r.insertion_point == if insertion_point <= s@.len() {
                insertion_point as int
            } else {
                s@.len() as int
            },
            r.wf(),
    {
        let buffer = str_chars(s);
        let point = if insertion_point <= buffer.len() {
            insertion_point
        } else {
            buffer.len()
        };
        Self { buffer, insertion_point: point }
    }

    /// The characters of the current line.
    pub fn get_buffer(&self) -> (r: &Vec<char>)
        ensures
            r@ == self.buffer@,
    {
        &self.buffer
    }

    /// The insertion point, as a character index.
    pub fn insertion_point(&self) -> (r: usize)
        ensures
            r == self.insertion_point,
    {
        self.insertion_point
    }

    /// The length of the line in characters.
    pub fn len(&self) -> (r: usize)
        ensures
            r == self.buffer@.len(),
    {
        self.buffer.len()
    }
}

/// The extended grapheme clusters of a character sequence, in order, per
/// Unicode segmentation; a pure function of the characters alone.
pub uninterp spec fn grapheme_clusters_of(s: Seq<char>) -> Seq<Seq<char>>;

/// Relies on unicode-segmentation's `UnicodeSegmentation::graphemes` with
/// extended clusters: splits a string into its grapheme clusters, in order.
#[verifier::external_body]
fn grapheme_clusters(s: &Vec<char>) -> (r: Vec<String>)
    ensures
        r@.len() == grapheme_clusters_of(s@).len(),
        forall|i: int| 0 <= i < r@.len() ==> r@[i]@ == grapheme_clusters_of(s@)[i],
{
    let text: String = s.iter().collect();
    text.graphemes(true).map(|g| g.to_string()).collect()
}

/// Copy of a character range of the line.
fn copy_chars(v: &Vec<char>, from: usize, to: usize) -> (r: Vec<char>)
    requires
        from <= to <= v@.len(),
    ensures
        r@ == v@.subrange(from as int, to as int),
{
    let mut r: Vec<char> = Vec::new();
    let mut i: usize = from;
    while i < to
        invariant
            from <= i <= to <= v@.len(),
            r@ == v@.subrange(from as int, i as int),
        decreases to - i,
    {
        r.push(v[i]);
        proof {
            assert(r@ =~= v@.subrange(from as int, i + 1));
        }
        i = i + 1;
    }
    r
}

/// The grapheme cluster `n` steps to the right of the insertion point, or
/// the whole remaining suffix when fewer clusters remain.
pub open spec fn grapheme_right_spec(buffer: Seq<char>, point: int, n: int) -> Seq<char>
    recommends
        0 <= point <= buffer.len(),
{
    let suffix = buffer.subrange(point, buffer.len() as int);
    let clusters = grapheme_clusters_of(suffix);
    if n < clusters.len() {
        clusters[n]
    } else {
        suffix
    }
}

/// The grapheme cluster `n` steps to the left of the character just past
/// the insertion point, or the whole prefix when fewer clusters exist; an
/// empty string when the cursor sits past the end of the line.
pub open spec fn grapheme_left_spec(buffer: Seq<char>, point: int, n: int) -> Seq<char>
    recommends
        0 <= point,
{
    if point >= buffer.len() {
        Seq::empty()
    } else {
        let prefix = buffer.subrange(0, point + 1);
        let clusters = grapheme_clusters_of(prefix);
        if n < clusters.len() {
            clusters[clusters.len() - 1 - n]
        } else {
            prefix
        }
    }
}

/// The `n`-th grapheme cluster at or after the insertion point; the whole
/// remaining suffix when fewer than `n + 1` clusters remain (in particular,
/// an empty string at the end of the line).
pub fn grapheme_right_n(line_buffer: &LineBuffer, n: usize) -> (r: String)
    requires
        line_buffer.wf(),
    ensures
        r@ == grapheme_right_spec(
            line_buffer.buffer@,
            line_buffer.insertion_point as int,
            n as int,
        ),
{
    let suffix = copy_chars(&line_buffer.buffer, line_buffer.insertion_point, line_buffer.buffer.len());
    let clusters = grapheme_clusters(&suffix);
    if n < clusters.len() {
        clusters[n].clone()
    } else {
        string_from_chars(&suffix)
    }
}

/// The `n`-th grapheme cluster scanning leftwards from the character at the
/// insertion point (inclusive); the whole prefix when fewer clusters exist;
/// an empty string when the cursor sits past the end of the line.
pub fn grapheme_left_n(line_buffer: &LineBuffer, n: usize) -> (r: String)
    requires
        line_buffer.wf(),
    ensures
        r@ == grapheme_left_spec(
            line_buffer.buffer@,
            line_buffer.insertion_point as int,
            n as int,
        ),
{
    if line_buffer.insertion_point >= line_buffer.buffer.len() {
        String::new()
    } else {
        let prefix = copy_chars(&line_buffer.buffer, 0, line_buffer.insertion_point + 1);
        let clusters = grapheme_clusters(&prefix);
        if n < clusters.len() {
            clusters[clusters.len() - 1 - n].clone()
        } else {
            string_from_chars(&prefix)
        }
    }
}

} // verus!
