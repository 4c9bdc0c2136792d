//! Extracting newline-terminated lines from a growing text buffer.
//!
//! [`LineFrameExtractor`] is fed text as it arrives and hands back every
//! complete line, in arrival order and without its terminating newline,
//! keeping the trailing partial line buffered. Empty lines are kept as
//! empty strings: filtering is the decoder's concern, not this one's.
//!
//! [`split_lines`] pins the behaviour, and [`lemma_line_chunk_invariance`]
//! states the law: however a valid UTF-8 text is cut into byte chunks,
//! running the chunks through a [`ByteAccumulator`] and this extractor
//! yields the same ordered list of lines as splitting the whole text at
//! once.

use crate::utf8buf::{acc_outs, concat_all, feed, lemma_feed_concat, lemma_split_invariance, scan};
use vstd::prelude::*;

verus! {

/// The newline byte that terminates a line.
pub open spec fn nl() -> u8 {
    10
}

/// `b` holds no newline byte.
pub open spec fn no_newline(b: Seq<u8>) -> bool {
    forall|j: int| 0 <= j < b.len() ==> b[j] != nl()
}

/// The complete lines of `b` (each without its newline), and the trailing
/// bytes after the last newline.
pub open spec fn split_lines(b: Seq<u8>) -> (Seq<Seq<u8>>, Seq<u8>)
    decreases b.len(),
{
    if b.len() == 0 {
        (Seq::<Seq<u8>>::empty(), Seq::<u8>::empty())
    } else {
        let r = split_lines(b.drop_last());
        if b.last() == nl() {
            (r.0.push(r.1), Seq::<u8>::empty())
        } else {
            (r.0, r.1.push(b.last()))
        }
    }
}

/// Buffered trailing bytes of the last, still unterminated line.
pub struct LineFrameExtractor {
    rest: Vec<u8>,
}

impl LineFrameExtractor {
    /// The buffered partial line, for contracts of callers.
    pub closed spec fn buffered(&self) -> Seq<u8> {
        self.rest@
    }

    /// The buffer never holds a newline.
    pub open spec fn wf(&self) -> bool {
        no_newline(self.buffered())
    }

    /// A fresh extractor buffers nothing.
    pub fn new() -> (r: Self)
        ensures
            r.buffered() == Seq::<u8>::empty(),
            r.wf(),
    {
        LineFrameExtractor { rest: Vec::new() }
    }

    /// The buffered partial line, readable without draining it.
    pub fn peek_buffered(&self) -> (r: &[u8])
        ensures
            r@ == self.buffered(),
    {
        self.rest.as_slice()
    }

    /// Feed a piece of text; every line completed by it is returned, in
    /// arrival order, and the new trailing partial line stays buffered.
    pub fn feed(&mut self, text: &[u8]) -> (lines: Vec<Vec<u8>>)
        requires
            old(self).wf(),
        ensures
            lines@.map_values(|l: Vec<u8>| l@) == split_lines(old(self).buffered() + text@).0,
            final(self).buffered() == split_lines(old(self).buffered() + text@).1,
            final(self).wf(),
    {
        let ghost comb: Seq<u8> = self.rest@ + text@;
        let mut cur: Vec<u8> = Vec::new();
        let mut lines: Vec<Vec<u8>> = Vec::new();
        cur.append(&mut self.rest);
        let ghost base: Seq<u8> = cur@;
        let n = text.len();
        let mut i: usize = 0;
        proof {
            assert(comb.take(base.len() as int) =~= base);
            lemma_split_lines_no_newline(base);
            assert(lines@.map_values(|l: Vec<u8>| l@) =~= split_lines(
                comb.take(base.len() as int),
            ).0);
        }
        while i < n
            invariant
                n == text@.len(),
                0 <= i <= n,
                comb == base + text@,
                no_newline(base),
                lines@.map_values(|l: Vec<u8>| l@) == split_lines(comb.take(base.len() + i)).0,
                cur@ == split_lines(comb.take(base.len() + i)).1,
            decreases n - i,
        {
            let ghost pre = comb.take(base.len() + i);
            let ghost post = comb.take(base.len() + i + 1);
            proof {
                assert(post.drop_last() =~= pre);
                assert(post.last() == text@[i as int]);
            }
            let b = text[i];
            if b == 10 {
                let ghost lpre = lines@;
                let full = cur;
                cur = Vec::new();
                lines.push(full);
                proof {
                    assert(lines@.map_values(|l: Vec<u8>| l@) =~= lpre.map_values(
                        |l: Vec<u8>| l@,
                    ).push(full@));
                }
            } else {
                cur.push(b);
            }
            i = i + 1;
        }
        proof {
            assert(comb.take(base.len() + n) =~= comb);
            lemma_split_lines_rest(comb);
        }
        self.rest = cur;
        lines
    }
}

/// Text without a newline yields no line and stays buffered whole.
pub proof fn lemma_split_lines_no_newline(b: Seq<u8>)
    requires
        no_newline(b),
    ensures
        split_lines(b) == (Seq::<Seq<u8>>::empty(), b),
    decreases b.len(),
{
    if b.len() == 0 {
        assert(split_lines(b).1 =~= b);
    } else {
        assert(no_newline(b.drop_last())) by {
            assert(forall|j: int| 0 <= j < b.len() - 1 ==> b.drop_last()[j] == b[j]);
        }
        lemma_split_lines_no_newline(b.drop_last());
        assert(split_lines(b).1 =~= b);
    }
}

/// The buffered remainder of a split never holds a newline.
pub proof fn lemma_split_lines_rest(b: Seq<u8>)
    ensures
        no_newline(split_lines(b).1),
    decreases b.len(),
{
    if b.len() == 0 {
    } else {
        lemma_split_lines_rest(b.drop_last());
        if b.last() == nl() {
        } else {
            let r = split_lines(b.drop_last()).1;
            assert forall|j: int| 0 <= j < r.push(b.last()).len() implies r.push(b.last())[j]
                != nl() by {
                if j < r.len() {
                    assert(r.push(b.last())[j] == r[j]);
                }
            }
        }
    }
}

/// Splitting text that arrives in two pieces equals splitting it at once:
/// the lines of the first piece, then the lines of its remainder joined
/// with the second piece.
pub proof fn lemma_split_lines_concat(a: Seq<u8>, b: Seq<u8>)
    ensures
        split_lines(a + b).0 == split_lines(a).0 + split_lines(split_lines(a).1 + b).0,
        split_lines(a + b).1 == split_lines(split_lines(a).1 + b).1,
    decreases b.len(),
{
    let ra = split_lines(a);
    if b.len() == 0 {
        assert(a + b =~= a);
        assert(ra.1 + b =~= ra.1);
        lemma_split_lines_rest(a);
        lemma_split_lines_no_newline(ra.1);
        assert(split_lines(a + b).0 =~= ra.0 + split_lines(ra.1 + b).0);
    } else {
        lemma_split_lines_concat(a, b.drop_last());
        assert((a + b).drop_last() =~= a + b.drop_last());
        assert((a + b).last() == b.last());
        assert((ra.1 + b).drop_last() =~= ra.1 + b.drop_last());
        assert((ra.1 + b).last() == b.last());
        if b.last() == nl() {
            assert(split_lines(a + b).0 =~= ra.0 + split_lines(ra.1 + b).0);
        } else {
            assert(split_lines(a + b).0 =~= ra.0 + split_lines(ra.1 + b).0);
        }
    }
}

/// Folding the extractor over a list of text pieces starting from a
/// buffered remainder: all lines emitted, and the final remainder.
pub open spec fn feed_lines(pieces: Seq<Seq<u8>>, rest: Seq<u8>) -> (Seq<Seq<u8>>, Seq<u8>)
    decreases pieces.len(),
{
    if pieces.len() == 0 {
        (Seq::<Seq<u8>>::empty(), rest)
    } else {
        let s = split_lines(rest + pieces[0]);
        let r = feed_lines(pieces.skip(1), s.1);
        (s.0 + r.0, r.1)
    }
}

/// Folding over pieces equals splitting their concatenation at once,
/// provided the starting remainder is itself a partial line.
pub proof fn lemma_feed_lines_concat(pieces: Seq<Seq<u8>>, rest: Seq<u8>)
    requires
        no_newline(rest),
    ensures
        feed_lines(pieces, rest).0 == split_lines(rest + concat_all(pieces)).0,
        feed_lines(pieces, rest).1 == split_lines(rest + concat_all(pieces)).1,
    decreases pieces.len(),
{
    if pieces.len() == 0 {
        assert(rest + concat_all(pieces) =~= rest);
        lemma_split_lines_no_newline(rest);
        assert(feed_lines(pieces, rest).0 =~= split_lines(rest).0);
    } else {
        let s = split_lines(rest + pieces[0]);
        lemma_split_lines_rest(rest + pieces[0]);
        lemma_feed_lines_concat(pieces.skip(1), s.1);
        lemma_split_lines_concat(rest + pieces[0], concat_all(pieces.skip(1)));
        assert((rest + pieces[0]) + concat_all(pieces.skip(1)) =~= rest + concat_all(pieces));
        assert(feed_lines(pieces, rest).0 =~= split_lines(rest + concat_all(pieces)).0);
    }
}

/// Index of the first newline in `b`, or `b`'s length when there is none.
pub open spec fn find_nl(b: Seq<u8>) -> int
    decreases b.len(),
{
    if b.len() == 0 {
        0
    } else if b[0] == nl() {
        0
    } else {
        1 + find_nl(b.skip(1))
    }
}

/// The first newline is where [`find_nl`] says, with none before it.
pub proof fn lemma_find_nl(b: Seq<u8>)
    ensures
        0 <= find_nl(b) <= b.len(),
        find_nl(b) < b.len() ==> b[find_nl(b)] == nl(),
        forall|j: int| 0 <= j < find_nl(b) ==> b[j] != nl(),
    decreases b.len(),
{
    if b.len() == 0 {
    } else if b[0] == nl() {
    } else {
        lemma_find_nl(b.skip(1));
        assert forall|j: int| 0 <= j < find_nl(b) implies b[j] != nl() by {
            if j > 0 {
                assert(b.skip(1)[j - 1] == b[j]);
            }
        }
    }
}

/// A partial line closed by one newline splits into just that line.
pub proof fn lemma_split_lines_one(p: Seq<u8>)
    requires
        no_newline(p),
    ensures
        split_lines(p.push(nl())) == (seq![p], Seq::<u8>::empty()),
{
    let b = p.push(nl());
    assert(b.drop_last() =~= p);
    lemma_split_lines_no_newline(p);
    assert(split_lines(b).0 =~= seq![p]);
}

/// Every line of a valid UTF-8 text is valid UTF-8, and so is the
/// trailing remainder: lines are cut at newline bytes, which always sit
/// on character boundaries.
pub proof fn lemma_split_lines_valid(b: Seq<u8>)
    requires
        vstd::utf8::valid_utf8(b),
    ensures
        forall|i: int|
            0 <= i < split_lines(b).0.len() ==> vstd::utf8::valid_utf8(
                #[trigger] split_lines(b).0[i],
            ),
        vstd::utf8::valid_utf8(split_lines(b).1),
    decreases b.len(),
{
    let k = find_nl(b);
    lemma_find_nl(b);
    if k == b.len() {
        assert(no_newline(b));
        lemma_split_lines_no_newline(b);
    } else {
        let head = b.take(k);
        let rest = b.skip(k + 1);
        // the newline is an ASCII byte, so both sides of it are valid
        vstd::utf8::is_char_boundary_iff_not_is_continuation_byte(b, k);
        assert(vstd::utf8::is_continuation_byte(b[k]) == false) by {
            assert(b[k] == 10);
        }
        vstd::utf8::valid_utf8_split(b, k);
        assert(vstd::utf8::valid_utf8(head));
        let after = b.skip(k);
        assert(after =~= b.subrange(k, b.len() as int));
        assert(vstd::utf8::valid_utf8(after));
        assert(vstd::utf8::valid_utf8(rest)) by {
            assert(after.len() > 0);
            assert(after[0] == b[k] == 10);
            assert(vstd::utf8::is_leading_byte_width_1(after[0]));
            assert(vstd::utf8::valid_first_scalar(after));
            assert(vstd::utf8::length_of_first_scalar(after) == 1);
            assert(vstd::utf8::pop_first_scalar(after) =~= rest);
        }
        lemma_split_lines_valid(rest);
        // split of b is the head line followed by the split of the rest
        assert(no_newline(head)) by {
            assert(forall|j: int| 0 <= j < k ==> head[j] == b[j]);
        }
        lemma_split_lines_one(head);
        lemma_split_lines_concat(head.push(nl()), rest);
        assert(head.push(nl()) + rest =~= b);
        assert(Seq::<u8>::empty() + rest =~= rest);
        assert(split_lines(b).0 =~= seq![head] + split_lines(rest).0);
        assert(split_lines(b).1 == split_lines(rest).1);
        assert forall|i: int| 0 <= i < split_lines(b).0.len() implies vstd::utf8::valid_utf8(
            #[trigger] split_lines(b).0[i],
        ) by {
            if i == 0 {
                assert(split_lines(b).0[0] == head);
            } else {
                assert(split_lines(b).0[i] == split_lines(rest).0[i - 1]);
            }
        }
    }
}

/// Law (chunk-invariance of line extraction): however a valid UTF-8 text
/// is cut into byte chunks, feeding the chunks through a byte accumulator
/// and a line extractor, both fresh, yields exactly the lines of the whole
/// text, with the text's unterminated trailing line buffered.
pub proof fn lemma_line_chunk_invariance(text: Seq<u8>, chunks: Seq<Seq<u8>>)
    requires
        vstd::utf8::valid_utf8(text),
        concat_all(chunks) == text,
    ensures
        feed_lines(acc_outs(chunks, Seq::<u8>::empty()), Seq::<u8>::empty()) == split_lines(text),
{
    lemma_split_invariance(text, chunks);
    lemma_feed_concat(chunks, Seq::<u8>::empty());
    let pieces = acc_outs(chunks, Seq::<u8>::empty());
    lemma_feed_lines_concat(pieces, Seq::<u8>::empty());
    assert(Seq::<u8>::empty() + concat_all(pieces) =~= text);
}

} // verus!
