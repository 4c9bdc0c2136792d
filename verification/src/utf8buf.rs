//! Reassembling UTF-8 text from arbitrary byte chunks.
//!
//! A transport hands over byte chunks that may cut a multi-byte character
//! anywhere. [`ByteAccumulator`] emits, per chunk, the longest decodable
//! prefix and retains the at most three bytes of a trailing character that
//! is still incomplete. A byte that can never begin or continue a valid
//! character is consumed (dropped), so the buffer always makes progress
//! and never grows without bound.
//!
//! The behaviour is pinned by the spec function [`scan`], and
//! [`lemma_split_invariance`] states the law: however a valid UTF-8 text
//! is cut into chunks, the concatenation of everything emitted is exactly
//! the original text, with nothing retained at the end.

use vstd::prelude::*;
use vstd::utf8::*;

verus! {

broadcast use vstd::utf8::valid_utf8_concat;

/// Width in bytes of the character that a leading byte announces; zero for
/// a byte that cannot begin a character.
pub open spec fn spec_lead_width(b: u8) -> int {
    if is_leading_byte_width_1(b) {
        1
    } else if is_leading_byte_width_2(b) {
        2
    } else if is_leading_byte_width_3(b) {
        3
    } else if is_leading_byte_width_4(b) {
        4
    } else {
        0
    }
}

/// Every byte of `s` has the continuation-byte form.
pub open spec fn all_continuation(s: Seq<u8>) -> bool {
    forall|j: int| 0 <= j < s.len() ==> is_continuation_byte(s[j])
}

/// `s` is the beginning of one multi-byte character whose remaining bytes
/// have not arrived: a leading byte announcing more bytes than `s` holds,
/// followed only by continuation bytes. Such a remainder is at most three
/// bytes long.
pub open spec fn partial_scalar(s: Seq<u8>) -> bool {
    &&& 1 <= s.len()
    &&& spec_lead_width(s[0]) > s.len()
    &&& all_continuation(s.skip(1))
}

/// `b` splits at `v` into a valid UTF-8 prefix and an incomplete trailing
/// character (or nothing). This is the shape every cut of a valid text has.
pub open spec fn clean_split_at(b: Seq<u8>, v: int) -> bool {
    &&& 0 <= v <= b.len()
    &&& valid_utf8(b.take(v))
    &&& (v == b.len() || partial_scalar(b.skip(v)))
}

/// What one pass over a byte buffer emits and retains: complete characters
/// are moved to the output, an incomplete trailing character is retained,
/// and a byte that can never become valid is dropped.
pub open spec fn scan(b: Seq<u8>) -> (Seq<u8>, Seq<u8>)
    decreases b.len(),
{
    if b.len() == 0 {
        (Seq::<u8>::empty(), Seq::<u8>::empty())
    } else {
        let w = spec_lead_width(b[0]);
        if w == 0 {
            scan(b.skip(1))
        } else if w > b.len() {
            if all_continuation(b.skip(1)) {
                (Seq::<u8>::empty(), b)
            } else {
                scan(b.skip(1))
            }
        } else if valid_first_scalar(b) {
            let r = scan(b.skip(w));
            (b.take(w) + r.0, r.1)
        } else {
            scan(b.skip(1))
        }
    }
}

/// Retained bytes of an unfinished chunk of UTF-8 text. The tail is always
/// shorter than one character's encoding, so it holds at most three bytes.
pub struct ByteAccumulator {
    tail: Vec<u8>,
}

impl ByteAccumulator {
    /// The retained trailing bytes, for contracts of callers.
    pub closed spec fn tail_bytes(&self) -> Seq<u8> {
        self.tail@
    }

    /// The tail is empty or the start of one character.
    pub open spec fn wf(&self) -> bool {
        self.tail_bytes().len() == 0 || partial_scalar(self.tail_bytes())
    }

    /// A fresh accumulator retains nothing.
    pub fn new() -> (r: Self)
        ensures
            r.tail_bytes() == Seq::<u8>::empty(),
            r.wf(),
    {
        ByteAccumulator { tail: Vec::new() }
    }

    /// Feed one chunk; the result is the longest decodable prefix of the
    /// retained tail followed by the chunk, as [`scan`] describes. On any
    /// input that is a cut of valid text, nothing is dropped: the clean
    /// split says exactly what is emitted and what is retained.
    pub fn accumulate(&mut self, chunk: &[u8]) -> (out: Vec<u8>)
        ensures
            (out@, final(self).tail_bytes()) == scan(old(self).tail_bytes() + chunk@),
            valid_utf8(out@),
            final(self).wf(),
            final(self).tail_bytes().len() <= 3,
            forall|v: int|
                clean_split_at(old(self).tail_bytes() + chunk@, v) ==> out@ == (old(
                    self,
                ).tail_bytes() + chunk@).take(v) && final(self).tail_bytes() == (old(
                    self,
                ).tail_bytes() + chunk@).skip(v),
    {
        let ghost comb_spec: Seq<u8> = self.tail@ + chunk@;
        let mut comb: Vec<u8> = Vec::new();
        comb.append(&mut self.tail);
        comb.extend_from_slice(chunk);
        proof {
            assert(comb@ =~= comb_spec);
        }
        let n = comb.len();
        let mut out: Vec<u8> = Vec::new();
        let mut i: usize = 0;
        let mut tail: Vec<u8> = Vec::new();
        let mut done = false;
        proof {
            assert(comb@.skip(0) =~= comb@);
        }
        while !done && i < n
            invariant
                n == comb@.len(),
                0 <= i <= n,
                comb@ == comb_spec,
                !done ==> tail@.len() == 0,
                !done ==> scan(comb@) == (out@ + scan(comb@.skip(i as int)).0, scan(
                    comb@.skip(i as int),
                ).1),
                done ==> scan(comb@) == (out@, tail@),
                valid_utf8(out@),
            decreases n - i, if done { 0int } else { 1int },
        {
            let ghost rest = comb@.skip(i as int);
            let b0 = comb[i];
            let w = lead_width(b0);
            proof {
                assert(rest[0] == comb@[i as int]);
                assert(rest.skip(1) =~= comb@.skip(i as int + 1));
            }
            if w == 0 {
                i = i + 1;
            } else if (w as usize) > n - i {
                // not enough bytes for this character: retain if the bytes
                // so far could still be completed, else drop the lead byte
                let mut allc = true;
                let mut j = i + 1;
                while j < n
                    invariant
                        i < j <= n,
                        n == comb@.len(),
                        comb@ == comb_spec,
                        allc <==> all_continuation(comb@.subrange(i as int + 1, j as int)),
                    decreases n - j,
                {
                    let ghost pre = comb@.subrange(i as int + 1, j as int);
                    if !is_cont(comb[j]) {
                        allc = false;
                    }
                    proof {
                        let post = comb@.subrange(i as int + 1, j as int + 1);
                        assert(pre =~= post.take(post.len() - 1));
                        assert(post[post.len() - 1] == comb@[j as int]);
                        assert(allc <==> all_continuation(post)) by {
                            if all_continuation(pre) && is_continuation_byte(comb@[j as int]) {
                                assert forall|k: int| 0 <= k < post.len() implies is_continuation_byte(
                                    post[k],
                                ) by {
                                    if k < post.len() - 1 {
                                        assert(post[k] == pre[k]);
                                    }
                                }
                            }
                        }
                    }
                    j = j + 1;
                }
                proof {
                    assert(comb@.subrange(i as int + 1, n as int) =~= rest.skip(1));
                }
                if allc {
                    // retain comb[i..] as the tail and stop
                    let mut k = i;
                    while k < n
                        invariant
                            i <= k <= n,
                            n == comb@.len(),
                            comb@ == comb_spec,
                            tail@ =~= comb@.subrange(i as int, k as int),
                        decreases n - k,
                    {
                        let ghost pre = tail@;
                        tail.push(comb[k]);
                        proof {
                            assert(tail@ =~= comb@.subrange(i as int, k as int + 1));
                        }
                        k = k + 1;
                    }
                    proof {
                        assert(tail@ =~= rest);
                    }
                    done = true;
                } else {
                    i = i + 1;
                }
            } else {
                // a full candidate character is present
                let ok = scalar_ok(&comb, i, w);
                if ok {
                    let ghost pre_out = out@;
                    let mut k = i;
                    let end = i + (w as usize);
                    while k < end
                        invariant
                            i <= k <= end,
                            end <= n,
                            n == comb@.len(),
                            comb@ == comb_spec,
                            out@ =~= pre_out + comb@.subrange(i as int, k as int),
                        decreases end - k,
                    {
                        out.push(comb[k]);
                        proof {
                            assert(out@ =~= pre_out + comb@.subrange(i as int, k as int + 1));
                        }
                        k = k + 1;
                    }
                    proof {
                        assert(rest.skip(w as int) =~= comb@.skip(i as int + w as int));
                        assert(rest.take(w as int) =~= comb@.subrange(i as int, i as int + w as int));
                        assert(out@ =~= pre_out + rest.take(w as int));
                        assert((out@ + scan(comb@.skip(i as int + w as int)).0) =~= (pre_out + (
                        rest.take(w as int) + scan(rest.skip(w as int)).0)));
                        lemma_take_first_scalar_valid(rest, w as int);
                    }
                    i = end;
                } else {
                    i = i + 1;
                }
            }
        }
        if !done {
            proof {
                assert(comb@.skip(n as int) =~= Seq::<u8>::empty());
            }
        }
        proof {
            lemma_scan_props(comb@);
            assert forall|v: int| clean_split_at(comb_spec, v) implies out@ == comb_spec.take(v)
                && tail@ == comb_spec.skip(v) by {
                lemma_scan_clean(comb_spec, v);
            }
        }
        self.tail = tail;
        out
    }
}

/// Width announced by a leading byte, as [`spec_lead_width`].
fn lead_width(b: u8) -> (w: u8)
    ensures
        w as int == spec_lead_width(b),
{
    if b <= 0x7f {
        1
    } else if 0xc0 <= b && b <= 0xdf {
        2
    } else if 0xe0 <= b && b <= 0xef {
        3
    } else if 0xf0 <= b && b <= 0xf7 {
        4
    } else {
        0
    }
}

/// Continuation-byte test, as `is_continuation_byte`.
fn is_cont(b: u8) -> (r: bool)
    ensures
        r == is_continuation_byte(b),
{
    0x80 <= b && b <= 0xbf
}

/// Checks that the `w` bytes at `i` encode one valid Unicode scalar:
/// continuation bytes where required, no overlong encoding, no surrogate.
fn scalar_ok(buf: &Vec<u8>, i: usize, w: u8) -> (r: bool)
    requires
        i < buf@.len(),
        w as int == spec_lead_width(buf@[i as int]),
        1 <= w,
        i + w <= buf@.len(),
    ensures
        r == valid_first_scalar(buf@.skip(i as int)),
{
    let ghost s = buf@.skip(i as int);
    let bl = buf.len();
    proof {
        assert(s[0] == buf@[i as int]);
        assert(s.len() == buf@.len() - i);
    }
    let b0 = buf[i];
    if w == 1 {
        proof {
            assert(valid_first_scalar(s)) by {
                assert(is_leading_byte_width_1(s[0]));
                assert(length_of_first_codepoint(s) == 1);
                assert(decode_first_codepoint(s) == codepoint_width_1(s[0]));
                let lead = s[0];
                assert(codepoint_width_1(s[0]) == (lead & 0x7f) as u32);
                assert((lead & 0x7f) < 0xd800) by (bit_vector);
            }
        }
        true
    } else if w == 2 {
        let b1 = buf[i + 1];
        proof {
            assert(s[1] == buf@[i as int + 1]);
        }
        let r = is_cont(b1) && {
            let cp: u32 = (((b0 & 0x1f) as u32) << 6u32) | ((b1 & 0x3f) as u32);
            cp >= 0x80
        };
        proof {
            let cp = codepoint_width_2(s[0], s[1]);
            assert(!(0xd800 <= cp <= 0xdfff)) by {
                let lead = s[0];
                let cont = s[1];
                assert(cp == (((lead & 0x1f) as u32) << 6u32) | ((cont & 0x3f) as u32));
                assert((((lead & 0x1f) as u32) << 6u32) | ((cont & 0x3f) as u32) < 0x800u32)
                    by (bit_vector);
            }
            assert(!is_leading_byte_width_1(s[0]));
        }
        r
    } else if w == 3 {
        let b1 = buf[i + 1];
        let b2 = buf[i + 2];
        proof {
            assert(s[1] == buf@[i as int + 1]);
            assert(s[2] == buf@[i as int + 2]);
        }
        let r = is_cont(b1) && is_cont(b2) && {
            let cp: u32 = (((b0 & 0x0f) as u32) << 12u32) | (((b1 & 0x3f) as u32) << 6u32) | ((b2
                & 0x3f) as u32);
            cp >= 0x800 && !(0xd800 <= cp && cp <= 0xdfff)
        };
        proof {
            assert(!is_leading_byte_width_1(s[0]) && !is_leading_byte_width_2(s[0]));
        }
        r
    } else {
        let b1 = buf[i + 1];
        let b2 = buf[i + 2];
        let b3 = buf[i + 3];
        proof {
            assert(s[1] == buf@[i as int + 1]);
            assert(s[2] == buf@[i as int + 2]);
            assert(s[3] == buf@[i as int + 3]);
        }
        let r = is_cont(b1) && is_cont(b2) && is_cont(b3) && {
            let cp: u32 = (((b0 & 0x07) as u32) << 18u32) | (((b1 & 0x3f) as u32) << 12u32) | (((b2
                & 0x3f) as u32) << 6u32) | ((b3 & 0x3f) as u32);
            0x10000 <= cp && cp <= 0x10ffff
        };
        proof {
            assert(!is_leading_byte_width_1(s[0]) && !is_leading_byte_width_2(s[0])
                && !is_leading_byte_width_3(s[0]));
            let cp = codepoint_width_4(s[0], s[1], s[2], s[3]);
            if 0x10000 <= cp <= 0x10ffff {
                assert(!(0xd800 <= cp <= 0xdfff));
            }
        }
        r
    }
}

/// The first `w` bytes of a sequence whose first scalar is valid and has
/// width `w` are themselves valid UTF-8.
proof fn lemma_take_first_scalar_valid(b: Seq<u8>, w: int)
    requires
        valid_first_scalar(b),
        w == length_of_first_scalar(b),
        w <= b.len(),
    ensures
        valid_utf8(b.take(w)),
        spec_lead_width(b[0]) == w,
{
    let t = b.take(w);
    assert(t[0] == b[0]);
    assert(t.len() == w);
    assert forall|j: int| 0 <= j < w implies t[j] == b[j] by {}
    assert(valid_first_scalar(t));
    assert(length_of_first_scalar(t) == w);
    assert(pop_first_scalar(t) =~= Seq::<u8>::empty());
    assert(valid_utf8(pop_first_scalar(t)));
    assert(valid_utf8(t));
}

/// A valid first scalar has the width its leading byte announces, and at
/// least that many bytes are present.
proof fn lemma_first_scalar_width(b: Seq<u8>)
    requires
        valid_first_scalar(b),
    ensures
        1 <= length_of_first_scalar(b) <= b.len(),
        spec_lead_width(b[0]) == length_of_first_scalar(b),
        spec_lead_width(b[0]) >= 2 ==> all_continuation(
            b.subrange(1, length_of_first_scalar(b)),
        ),
{
    let w = length_of_first_scalar(b);
    assert forall|j: int| 0 <= j < b.subrange(1, w).len() implies is_continuation_byte(
        b.subrange(1, w)[j],
    ) by {
        assert(b.subrange(1, w)[j] == b[j + 1]);
    }
}

/// A valid first scalar depends only on the bytes of its own encoding: if
/// a prefix of `b` has a valid first scalar that fits in the prefix, so
/// does `b`, with the same width.
proof fn lemma_first_scalar_prefix(p: Seq<u8>, b: Seq<u8>)
    requires
        valid_first_scalar(p),
        p.len() <= b.len(),
        p =~= b.take(p.len() as int),
    ensures
        valid_first_scalar(b),
        length_of_first_scalar(b) == length_of_first_scalar(p),
{
    lemma_first_scalar_width(p);
    let w = length_of_first_scalar(p);
    assert forall|j: int| 0 <= j < p.len() implies p[j] == b[j] by {}
    assert(decode_first_codepoint(b) == decode_first_codepoint(p));
}

/// Scanning drops nothing and stops cleanly: the output is valid UTF-8 and
/// the retained tail is empty or one incomplete character.
proof fn lemma_scan_props(b: Seq<u8>)
    ensures
        valid_utf8(scan(b).0),
        scan(b).1.len() == 0 || partial_scalar(scan(b).1),
        scan(b).1.len() <= 3,
    decreases b.len(),
{
    if b.len() == 0 {
    } else {
        let w = spec_lead_width(b[0]);
        if w == 0 {
            lemma_scan_props(b.skip(1));
        } else if w > b.len() {
            if all_continuation(b.skip(1)) {
                assert(partial_scalar(b));
            } else {
                lemma_scan_props(b.skip(1));
            }
        } else if valid_first_scalar(b) {
            lemma_first_scalar_width(b);
            lemma_take_first_scalar_valid(b, w);
            lemma_scan_props(b.skip(w));
            assert(valid_utf8(b.take(w) + scan(b.skip(w)).0));
        } else {
            lemma_scan_props(b.skip(1));
        }
    }
}

/// On any cut of valid text, the scan emits exactly the valid part and
/// retains exactly the incomplete character.
proof fn lemma_scan_clean(b: Seq<u8>, v: int)
    requires
        clean_split_at(b, v),
    ensures
        scan(b) == (b.take(v), b.skip(v)),
    decreases b.len(),
{
    if v == 0 {
        assert(b.take(0) =~= Seq::<u8>::empty());
        if b.len() == 0 {
            assert(b.skip(0) =~= Seq::<u8>::empty());
            assert(scan(b) == (b.take(0), b.skip(0)));
        } else {
            assert(b.skip(0) =~= b);
            assert(partial_scalar(b));
            let w = spec_lead_width(b[0]);
            assert(w > b.len());
            assert(scan(b) == (Seq::<u8>::empty(), b));
        }
    } else {
        let p = b.take(v);
        assert(p.len() == v > 0);
        assert(valid_first_scalar(p));
        lemma_first_scalar_width(p);
        let w = length_of_first_scalar(p);
        assert(w <= v);
        lemma_first_scalar_prefix(p, b);
        assert(p[0] == b[0]);
        assert(spec_lead_width(b[0]) == w);
        assert(1 <= w <= b.len());
        // the recursive case of the scan applies
        let rest = b.skip(w);
        assert(clean_split_at(rest, v - w)) by {
            assert(rest.take(v - w) =~= pop_first_scalar(p));
            assert(valid_utf8(pop_first_scalar(p)));
            if v == b.len() {
                assert(v - w == rest.len());
            } else {
                assert(rest.skip(v - w) =~= b.skip(v));
            }
        }
        lemma_scan_clean(rest, v - w);
        assert(scan(b) == (b.take(w) + rest.take(v - w), rest.skip(v - w)));
        assert(b.take(w) + rest.take(v - w) =~= b.take(v));
        assert(rest.skip(v - w) =~= b.skip(v));
    }
}

/// Folding the accumulator over a list of chunks starting from a retained
/// tail: the concatenation of everything emitted, and the final tail.
pub open spec fn feed(chunks: Seq<Seq<u8>>, tail: Seq<u8>) -> (Seq<u8>, Seq<u8>)
    decreases chunks.len(),
{
    if chunks.len() == 0 {
        (Seq::<u8>::empty(), tail)
    } else {
        let s = scan(tail + chunks[0]);
        let r = feed(chunks.skip(1), s.1);
        (s.0 + r.0, r.1)
    }
}

/// The outputs of the accumulator on each chunk in turn, kept separate.
pub open spec fn acc_outs(chunks: Seq<Seq<u8>>, tail: Seq<u8>) -> Seq<Seq<u8>>
    decreases chunks.len(),
{
    if chunks.len() == 0 {
        Seq::<Seq<u8>>::empty()
    } else {
        let s = scan(tail + chunks[0]);
        seq![s.0] + acc_outs(chunks.skip(1), s.1)
    }
}

/// Concatenating the per-chunk outputs gives the folded output.
pub proof fn lemma_feed_concat(chunks: Seq<Seq<u8>>, tail: Seq<u8>)
    ensures
        concat_all(acc_outs(chunks, tail)) == feed(chunks, tail).0,
    decreases chunks.len(),
{
    if chunks.len() == 0 {
        assert(concat_all(acc_outs(chunks, tail)) =~= feed(chunks, tail).0);
    } else {
        let s = scan(tail + chunks[0]);
        let outs = acc_outs(chunks, tail);
        assert(outs[0] == s.0);
        assert(outs.skip(1) =~= acc_outs(chunks.skip(1), s.1));
        lemma_feed_concat(chunks.skip(1), s.1);
    }
}

/// Concatenation of a list of byte chunks.
pub open spec fn concat_all(chunks: Seq<Seq<u8>>) -> Seq<u8>
    decreases chunks.len(),
{
    if chunks.len() == 0 {
        Seq::<u8>::empty()
    } else {
        chunks[0] + concat_all(chunks.skip(1))
    }
}

/// A clean split point is unique: a retained incomplete character can
/// never hide a second valid decomposition.
proof fn lemma_clean_split_unique(b: Seq<u8>, v1: int, v2: int)
    requires
        clean_split_at(b, v1),
        clean_split_at(b, v2),
    ensures
        v1 == v2,
{
    assert forall|lo: int, hi: int|
        clean_split_at(b, lo) && clean_split_at(b, hi) && lo < hi implies false by {
        assert(lo < b.len());
        let rem = b.skip(lo);
        assert(partial_scalar(rem));
        let w = spec_lead_width(rem[0]);
        let mid = b.subrange(lo, hi);
        assert(mid.len() <= rem.len() < w);
        assert(mid[0] == rem[0]);
        assert(!valid_utf8(mid)) by {
            if valid_utf8(mid) {
                assert(valid_first_scalar(mid));
                lemma_first_scalar_width(mid);
                assert(length_of_first_scalar(mid) <= mid.len());
                assert(spec_lead_width(mid[0]) <= mid.len());
            }
        }
        assert(b.take(hi).subrange(0, lo) =~= b.take(lo));
        assert(b.take(hi).subrange(lo, hi) =~= mid);
        partial_valid_partial_invalid_utf8(b.take(hi), lo);
        assert(!valid_utf8(b.take(hi)));
    }
}

/// Every cut of a valid suffix of the text has a clean split.
proof fn lemma_cut_clean(s: Seq<u8>, q: int)
    requires
        valid_utf8(s),
        0 <= q <= s.len(),
    ensures
        exists|w: int|
            #[trigger] clean_split_at(s.take(q), w) && valid_utf8(s.take(w)) && 0 <= w <= q,
    decreases s.len(),
{
    if q == 0 {
        assert(s.take(0) =~= Seq::<u8>::empty());
        assert(clean_split_at(s.take(0), 0) && valid_utf8(s.take(0)) && 0 <= 0 <= q);
    } else {
        assert(s.len() > 0);
        assert(valid_first_scalar(s));
        lemma_first_scalar_width(s);
        let len1 = length_of_first_scalar(s);
        if q < len1 {
            assert(clean_split_at(s.take(q), 0) && valid_utf8(s.take(0)) && 0 <= 0 <= q) by {
                assert(s.take(0) =~= Seq::<u8>::empty());
                assert(s.take(q).take(0) =~= Seq::<u8>::empty());
                let rem = s.take(q).skip(0);
                assert(rem =~= s.take(q));
                assert(rem[0] == s[0]);
                assert(spec_lead_width(rem[0]) == len1 > q == rem.len());
                assert(all_continuation(rem.skip(1))) by {
                    assert(len1 >= 2);
                    assert(all_continuation(s.subrange(1, len1)));
                    assert forall|j: int| 0 <= j < rem.skip(1).len() implies is_continuation_byte(
                        rem.skip(1)[j],
                    ) by {
                        assert(rem.skip(1)[j] == s[j + 1]);
                        assert(s.subrange(1, len1)[j] == s[j + 1]);
                    }
                }
                assert(partial_scalar(rem));
            }
        } else {
            let tail = pop_first_scalar(s);
            assert(valid_utf8(tail));
            assert(tail.len() == s.len() - len1);
            lemma_cut_clean(tail, q - len1);
            let w2 = choose|w2: int|
                #[trigger] clean_split_at(tail.take(q - len1), w2) && valid_utf8(tail.take(w2)) && 0
                    <= w2 <= q - len1;
            let w = len1 + w2;
            assert(clean_split_at(s.take(q), w) && valid_utf8(s.take(w)) && 0 <= w <= q) by {
                lemma_take_first_scalar_valid(s, len1);
                // valid prefix: first scalar plus tail's valid prefix
                assert(s.take(w) =~= s.take(len1) + tail.take(w2));
                assert(valid_utf8(s.take(w)));
                assert(s.take(q).take(w) =~= s.take(w));
                if w == q {
                } else {
                    assert(s.take(q).skip(w) =~= tail.take(q - len1).skip(w2));
                    assert(partial_scalar(s.take(q).skip(w)));
                }
            }
        }
    }
}

/// The engine of the law: from a clean position, feeding the rest of the
/// text in any chunks emits exactly the rest of the text.
#[verifier::rlimit(100)]
proof fn lemma_feed_suffix(text: Seq<u8>, chunks: Seq<Seq<u8>>, v: int, p: int)
    requires
        valid_utf8(text),
        0 <= v <= p <= text.len(),
        valid_utf8(text.take(v)),
        clean_split_at(text.take(p), v),
        concat_all(chunks) == text.skip(p),
    ensures
        feed(chunks, text.subrange(v, p)).0 == text.skip(v),
        feed(chunks, text.subrange(v, p)).1 == Seq::<u8>::empty(),
    decreases chunks.len(),
{
    if chunks.len() == 0 {
        assert(text.skip(p).len() == 0);
        assert(p == text.len());
        assert(text.take(p) =~= text);
        assert(clean_split_at(text, text.len() as int)) by {
            assert(text.take(text.len() as int) =~= text);
        }
        lemma_clean_split_unique(text, v, text.len() as int);
        assert(v == p);
        assert(text.subrange(v, p) =~= Seq::<u8>::empty());
        assert(text.skip(v).len() == 0);
        assert(feed(chunks, text.subrange(v, p)).0 =~= text.skip(v));
    } else {
        let c0 = chunks[0];
        let p2 = p + c0.len();
        assert(p2 <= text.len() && c0 =~= text.subrange(p, p2) && concat_all(chunks.skip(1))
            == text.skip(p2)) by {
            assert(concat_all(chunks) == c0 + concat_all(chunks.skip(1)));
            let rest = concat_all(chunks.skip(1));
            assert(c0 + rest == text.skip(p));
            assert((c0 + rest).len() == text.skip(p).len());
            assert(p2 <= text.len());
            assert forall|j: int| 0 <= j < c0.len() implies c0[j] == text[p + j] by {
                assert((c0 + rest)[j] == c0[j]);
                assert(text.skip(p)[j] == text[p + j]);
            }
            assert(rest =~= text.skip(p2)) by {
                assert forall|j: int| 0 <= j < rest.len() implies rest[j] == text[p2 + j] by {
                    assert((c0 + rest)[c0.len() + j] == rest[j]);
                    assert(text.skip(p)[c0.len() + j] == text[p + c0.len() + j]);
                }
            }
        }
        let comb = text.subrange(v, p) + c0;
        assert(comb =~= text.subrange(v, p2));
        // the suffix from v is valid, so the cut at p2 has a clean split
        lemma_valid_prefix_suffix(text, v);
        let s = text.skip(v);
        lemma_cut_clean(s, p2 - v);
        let w2 = choose|w2: int|
            #[trigger] clean_split_at(s.take(p2 - v), w2) && valid_utf8(s.take(w2)) && 0 <= w2 <= p2
                - v;
        let v2 = v + w2;
        assert(s.take(p2 - v) =~= comb);
        lemma_scan_clean(comb, w2);
        assert(scan(comb).0 =~= text.subrange(v, v2)) by {
            assert(comb.take(w2) =~= text.subrange(v, v2));
        }
        assert(scan(comb).1 =~= text.subrange(v2, p2)) by {
            assert(comb.skip(w2) =~= text.subrange(v2, p2));
        }
        assert(valid_utf8(text.take(v2))) by {
            assert(text.take(v2) =~= text.take(v) + s.take(w2));
        }
        assert(clean_split_at(text.take(p2), v2)) by {
            assert(text.take(p2).take(v2) =~= text.take(v2));
            if v2 < p2 {
                assert(text.take(p2).skip(v2) =~= s.take(p2 - v).skip(w2));
            }
        }
        lemma_feed_suffix(text, chunks.skip(1), v2, p2);
        assert(feed(chunks, text.subrange(v, p)).0 == scan(comb).0 + feed(
            chunks.skip(1),
            text.subrange(v2, p2),
        ).0);
        assert(text.subrange(v, v2) + text.skip(v2) =~= text.skip(v));
    }
}

/// A valid text whose prefix up to `v` is valid has a valid suffix from `v`.
proof fn lemma_valid_prefix_suffix(text: Seq<u8>, v: int)
    requires
        valid_utf8(text),
        0 <= v <= text.len(),
        valid_utf8(text.take(v)),
    ensures
        valid_utf8(text.skip(v)),
    decreases text.len(),
{
    if v == 0 {
        assert(text.skip(0) =~= text);
    } else {
        let p = text.take(v);
        assert(valid_first_scalar(p));
        lemma_first_scalar_prefix(p, text);
        let w = length_of_first_scalar(text);
        assert(w == length_of_first_scalar(p));
        lemma_first_scalar_width(p);
        let tail = pop_first_scalar(text);
        assert(valid_utf8(tail));
        assert(valid_utf8(tail.take(v - w))) by {
            assert(tail.take(v - w) =~= pop_first_scalar(p));
        }
        lemma_valid_prefix_suffix(tail, v - w);
        assert(tail.skip(v - w) =~= text.skip(v));
    }
}

/// Relies on `String::from_utf8`: building text from bytes that are
/// already known to be valid UTF-8; the characters are exactly the
/// decoding of the bytes.
#[verifier::external_body]
pub(crate) fn utf8_string(b: &[u8]) -> (r: String)
    requires
        valid_utf8(b@),
    ensures
        r@ == decode_utf8(b@),
{
    String::from_utf8(b.to_vec()).unwrap_or_default()
}

/// Law (split-invariance): however a valid UTF-8 text is cut into byte
/// chunks — including cuts in the middle of a multi-byte character — the
/// concatenation of what [`ByteAccumulator::accumulate`] emits over all
/// the chunks, starting from an empty accumulator, is exactly the original
/// text, and nothing is retained at the end.
pub proof fn lemma_split_invariance(text: Seq<u8>, chunks: Seq<Seq<u8>>)
    requires
        valid_utf8(text),
        concat_all(chunks) == text,
    ensures
        feed(chunks, Seq::<u8>::empty()).0 == text,
        feed(chunks, Seq::<u8>::empty()).1 == Seq::<u8>::empty(),
{
    assert(text.take(0) =~= Seq::<u8>::empty());
    assert(text.skip(0) =~= text);
    assert(clean_split_at(text.take(0), 0)) by {
        assert(text.take(0).take(0) =~= Seq::<u8>::empty());
    }
    lemma_feed_suffix(text, chunks, 0, 0);
    assert(text.subrange(0, 0) =~= Seq::<u8>::empty());
}

} // verus!
