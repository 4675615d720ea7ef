//! The boundary reassembler.
//!
//! Each drain iteration appends the newly read bytes to the undecoded
//! remainder of the previous iteration and splits the result at the greedy
//! UTF-8 boundary: everything before the boundary is emitted to the
//! display, everything after it is retained for the next read. No byte is
//! ever duplicated or lost; the single exception is an iteration whose
//! whole accumulated content is one bell byte (0x07), which is emitted as
//! silence.

use vstd::prelude::*;

use crate::utf8::first_char_len;
use crate::utf8::lemma_prefix_valid;
use crate::utf8::lemma_residual_stuck;
use crate::utf8::lemma_valid_prefix_len_bounds;
use crate::utf8::utf8_prefix_len;
use crate::utf8::utf8_valid;
use crate::utf8::valid_prefix_len;

verus! {

/// The bell / alert control byte; received alone, it is suppressed.
pub const BELL: u8 = 0x07;

/// `s` is exactly one bell byte.
pub open spec fn bell_only(s: Seq<u8>) -> bool {
    s.len() == 1 && s[0] == BELL
}

/// What one drain iteration hands to the display.
pub enum Emission {
    /// The accumulated bytes decoded completely: append them as text.
    Text(Vec<u8>),
    /// Only a prefix decoded: append it through the raw path, the
    /// remainder stays buffered.
    Raw(Vec<u8>),
    /// Nothing to append this iteration.
    Silent,
}

/// The bytes an emission appends to the display.
pub open spec fn emitted_bytes(e: Emission) -> Seq<u8> {
    match e {
        Emission::Text(t) => t@,
        Emission::Raw(r) => r@,
        Emission::Silent => Seq::empty(),
    }
}

/// The bytes retained after absorbing chunk `c` into pending bytes `b`.
pub open spec fn absorb_pending_spec(b: Seq<u8>, c: Seq<u8>) -> Seq<u8> {
    let b2 = b + c;
    if utf8_valid(b2) {
        Seq::empty()
    } else {
        b2.skip(valid_prefix_len(b2))
    }
}

/// The bytes emitted after absorbing chunk `c` into pending bytes `b`.
pub open spec fn absorb_emits_spec(b: Seq<u8>, c: Seq<u8>) -> Seq<u8> {
    let b2 = b + c;
    if utf8_valid(b2) {
        if bell_only(b2) {
            Seq::empty()
        } else {
            b2
        }
    } else {
        b2.take(valid_prefix_len(b2))
    }
}

/// The emission `e` is the right one for absorbing chunk `c` into pending
/// bytes `b`: its bytes match `absorb_emits_spec`, and its variant tells
/// the display which append path to use.
pub open spec fn emission_for(e: Emission, b: Seq<u8>, c: Seq<u8>) -> bool {
    let b2 = b + c;
    &&& emitted_bytes(e) == absorb_emits_spec(b, c)
    &&& (if utf8_valid(b2) {
        if bell_only(b2) {
            e is Silent
        } else {
            e is Text
        }
    } else if valid_prefix_len(b2) > 0 {
        e is Raw
    } else {
        e is Silent
    })
}

/// The carry-over buffer between reads.
pub struct ReassemblyBuffer {
    pending: Vec<u8>,
}

impl View for ReassemblyBuffer {
    type V = Seq<u8>;

    closed spec fn view(&self) -> Seq<u8> {
        self.pending@
    }
}

impl ReassemblyBuffer {
    /// The buffer holds only a stuck remainder: no scalar encoding is
    /// complete at its front, so nothing held back could have been shown.
    pub open spec fn wf(&self) -> bool {
        valid_prefix_len(self@) == 0
    }

    /// An empty buffer, as at session start.
    pub fn new() -> (r: Self)
        ensures
            r@ == Seq::<u8>::empty(),
            r.wf(),
    {
        let r = ReassemblyBuffer { pending: Vec::new() };
        proof {
            assert(r.pending@ =~= Seq::<u8>::empty());
        }
        r
    }

    /// Absorb one read: append `chunk` to the pending bytes, emit
    /// everything up to the greedy UTF-8 boundary and retain the rest.
    /// A sole bell byte is emitted as silence.
    pub fn absorb(&mut self, chunk: &[u8]) -> (out: Emission)
        ensures
            final(self)@ == absorb_pending_spec(old(self)@, chunk@),
            emission_for(out, old(self)@, chunk@),
            final(self).wf(),
    {
        let ghost b2 = old(self)@ + chunk@;
        let mut j: usize = 0;
        while j < chunk.len()
            invariant
                j <= chunk@.len(),
                self.pending@ == old(self)@ + chunk@.take(j as int),
            decreases chunk@.len() - j,
        {
            self.pending.push(chunk[j]);
            proof {
                assert(old(self)@ + chunk@.take(j as int) + seq![chunk@[j as int]] =~= old(self)@
                    + chunk@.take(j + 1));
            }
            j = j + 1;
        }
        proof {
            assert(old(self)@ + chunk@.take(chunk@.len() as int) =~= b2);
        }
        let k = utf8_prefix_len(self.pending.as_slice());
        let plen = self.pending.len();
        if k == plen {
            if plen == 1 && self.pending[0] == BELL {
                self.pending.clear();
                proof {
                    assert(self.pending@ =~= Seq::<u8>::empty());
                }
                Emission::Silent
            } else {
                let text = copy_range(&self.pending, 0, plen);
                self.pending.clear();
                proof {
                    assert(b2.subrange(0, b2.len() as int) =~= b2);
                    assert(self.pending@ =~= Seq::<u8>::empty());
                }
                Emission::Text(text)
            }
        } else {
            let shown = copy_range(&self.pending, 0, k);
            let rest = copy_range(&self.pending, k, plen);
            self.pending = rest;
            proof {
                lemma_residual_stuck(b2);
            }
            if k == 0 {
                proof {
                    assert(b2.take(0) =~= Seq::<u8>::empty());
                }
                Emission::Silent
            } else {
                Emission::Raw(shown)
            }
        }
    }

    /// How many bytes are currently held back.
    pub fn pending_len(&self) -> (n: usize)
        ensures
            n == self@.len(),
    {
        self.pending.len()
    }
}

/// Concatenation of a sequence of chunks, in read order.
pub open spec fn concat_all(chunks: Seq<Seq<u8>>) -> Seq<u8>
    decreases chunks.len(),
{
    if chunks.len() == 0 {
        Seq::empty()
    } else {
        concat_all(chunks.drop_last()) + chunks.last()
    }
}

/// The bytes still pending after a fresh buffer absorbs every chunk in
/// order.
pub open spec fn stream_pending(chunks: Seq<Seq<u8>>) -> Seq<u8>
    decreases chunks.len(),
{
    if chunks.len() == 0 {
        Seq::empty()
    } else {
        absorb_pending_spec(stream_pending(chunks.drop_last()), chunks.last())
    }
}

/// All bytes emitted while a fresh buffer absorbs every chunk in order.
pub open spec fn stream_emitted(chunks: Seq<Seq<u8>>) -> Seq<u8>
    decreases chunks.len(),
{
    if chunks.len() == 0 {
        Seq::empty()
    } else {
        stream_emitted(chunks.drop_last()) + absorb_emits_spec(
            stream_pending(chunks.drop_last()),
            chunks.last(),
        )
    }
}

/// The accumulated content of iteration `i`: what was pending before it
/// plus the chunk it reads.
pub open spec fn iteration_content(chunks: Seq<Seq<u8>>, i: int) -> Seq<u8> {
    stream_pending(chunks.take(i)) + chunks[i]
}

/// No iteration's accumulated content is exactly one bell byte, so no
/// iteration emits silence in place of its bytes.
pub open spec fn no_lone_bell(chunks: Seq<Seq<u8>>) -> bool {
    forall|i: int| 0 <= i < chunks.len() ==> !bell_only(#[trigger] iteration_content(chunks, i))
}

/// One absorb step conserves bytes: unless the accumulated content is a
/// lone bell, what is emitted followed by what is retained is exactly the
/// old pending bytes followed by the chunk.
pub proof fn lemma_absorb_conservation(b: Seq<u8>, c: Seq<u8>)
    requires
        !bell_only(b + c),
    ensures
        absorb_emits_spec(b, c) + absorb_pending_spec(b, c) == b + c,
{
    let b2 = b + c;
    if utf8_valid(b2) {
        assert(b2 + Seq::<u8>::empty() =~= b2);
    } else {
        lemma_valid_prefix_len_bounds(b2);
        assert(b2.take(valid_prefix_len(b2)) + b2.skip(valid_prefix_len(b2)) =~= b2);
    }
}

/// The one exception to conservation: an iteration whose whole
/// accumulated content is a lone bell emits nothing and retains nothing —
/// that bell is the only byte ever dropped.
pub proof fn lemma_absorb_lone_bell(b: Seq<u8>, c: Seq<u8>)
    requires
        bell_only(b + c),
    ensures
        absorb_emits_spec(b, c) == Seq::<u8>::empty(),
        absorb_pending_spec(b, c) == Seq::<u8>::empty(),
{
    let b2 = b + c;
    assert(first_char_len(b2) == 1);
    assert(b2.skip(1) =~= Seq::<u8>::empty());
    assert(valid_prefix_len(Seq::<u8>::empty()) == 0);
    assert(valid_prefix_len(b2) == 1);
}

/// Law: across any number of reads split arbitrarily, no byte is lost,
/// duplicated or reordered — every byte ever read is either emitted or
/// still pending, in order, provided no iteration's content was a lone
/// bell (which is emitted as silence by design).
pub proof fn lemma_stream_conservation(chunks: Seq<Seq<u8>>)
    requires
        no_lone_bell(chunks),
    ensures
        stream_emitted(chunks) + stream_pending(chunks) == concat_all(chunks),
    decreases chunks.len(),
{
    if chunks.len() == 0 {
        assert(stream_emitted(chunks) + stream_pending(chunks) =~= concat_all(chunks));
    } else {
        let pre = chunks.drop_last();
        let c = chunks.last();
        assert forall|i: int| 0 <= i < pre.len() implies !bell_only(
            #[trigger] iteration_content(pre, i),
        ) by {
            assert(pre.take(i) =~= chunks.take(i));
            assert(iteration_content(pre, i) == iteration_content(chunks, i));
        }
        lemma_stream_conservation(pre);
        assert(chunks.take(chunks.len() - 1) =~= pre);
        assert(iteration_content(chunks, chunks.len() - 1) == stream_pending(pre) + c);
        lemma_absorb_conservation(stream_pending(pre), c);
        let epre = stream_emitted(pre);
        let ppre = stream_pending(pre);
        let a = absorb_emits_spec(ppre, c);
        let pnew = absorb_pending_spec(ppre, c);
        assert(epre + a + pnew =~= epre + (a + pnew));
        assert(epre + (ppre + c) =~= epre + ppre + c);
    }
}

/// What a stream of reads leaves pending is always stuck: no scalar
/// encoding is complete at its front.
pub proof fn lemma_stream_pending_stuck(chunks: Seq<Seq<u8>>)
    ensures
        valid_prefix_len(stream_pending(chunks)) == 0,
{
    if chunks.len() != 0 {
        lemma_residual_stuck(stream_pending(chunks.drop_last()) + chunks.last());
    }
}

/// Everything a stream of reads emits is well-formed UTF-8.
pub proof fn lemma_stream_emitted_valid(chunks: Seq<Seq<u8>>)
    ensures
        utf8_valid(stream_emitted(chunks)),
    decreases chunks.len(),
{
    if chunks.len() != 0 {
        let pre = chunks.drop_last();
        let b2 = stream_pending(pre) + chunks.last();
        lemma_stream_emitted_valid(pre);
        if !utf8_valid(b2) {
            lemma_prefix_valid(b2);
        }
        crate::utf8::lemma_valid_concat(stream_emitted(pre), absorb_emits_spec(
            stream_pending(pre),
            chunks.last(),
        ));
    }
}

/// Law: when the concatenation of all reads is well-formed UTF-8 and no
/// iteration's content was a lone bell, the reassembled output is exactly
/// that concatenation and nothing stays pending — decoding a stream in
/// arbitrarily split reads equals decoding it whole.
pub proof fn lemma_stream_round_trip(chunks: Seq<Seq<u8>>)
    requires
        no_lone_bell(chunks),
        utf8_valid(concat_all(chunks)),
    ensures
        stream_emitted(chunks) == concat_all(chunks),
        stream_pending(chunks) == Seq::<u8>::empty(),
{
    lemma_stream_conservation(chunks);
    lemma_stream_emitted_valid(chunks);
    lemma_stream_pending_stuck(chunks);
    let e = stream_emitted(chunks);
    let p = stream_pending(chunks);
    crate::utf8::lemma_valid_prefix_len_concat(e, p);
    assert(p.len() == 0);
    assert(p =~= Seq::<u8>::empty());
    assert(e + Seq::<u8>::empty() =~= e);
}

/// Law: well-formed text split at any byte offset across exactly two
/// reads is reassembled without a character being corrupted, duplicated
/// or dropped. The only splits left out are the two that isolate a bell
/// byte of the text in an iteration of its own, where that bell is
/// suppressed by design.
pub proof fn lemma_split_round_trip(s: Seq<u8>, i: int)
    requires
        utf8_valid(s),
        0 <= i <= s.len(),
        !(i == 1 && s[0] == BELL),
        !(i == s.len() - 1 && s[s.len() - 1] == BELL),
    ensures
        stream_emitted(seq![s.take(i), s.skip(i)]) == s,
        stream_pending(seq![s.take(i), s.skip(i)]) == Seq::<u8>::empty(),
{
    let t = s.take(i);
    let u = s.skip(i);
    let chunks = seq![t, u];
    assert(chunks.take(0) =~= Seq::<Seq<u8>>::empty());
    assert(chunks.take(1) =~= seq![t]);
    assert(seq![t].drop_last() =~= Seq::<Seq<u8>>::empty());
    assert(chunks.drop_last() =~= seq![t]);
    assert(Seq::<u8>::empty() + t =~= t);
    let k = valid_prefix_len(t);
    lemma_valid_prefix_len_bounds(t);
    assert(iteration_content(chunks, 0) == t);
    let p1 = stream_pending(seq![t]);
    if utf8_valid(t) {
        assert(p1 + u =~= u);
    } else {
        assert(p1 =~= t.skip(k));
        assert(p1 + u =~= s.skip(k));
        if k == s.len() - 1 && s[s.len() - 1] == BELL {
            assert(k < i);
            assert(i == s.len());
            assert(t =~= s);
            assert(false);
        }
    }
    assert(iteration_content(chunks, 1) == p1 + u);
    assert(!bell_only(iteration_content(chunks, 1)));
    assert forall|j: int| 0 <= j < chunks.len() implies !bell_only(
        #[trigger] iteration_content(chunks, j),
    ) by {
        assert(j == 0 || j == 1);
    }
    assert(concat_all(Seq::<Seq<u8>>::empty()) =~= Seq::<u8>::empty());
    assert(concat_all(seq![t]) =~= t);
    assert(concat_all(chunks) =~= t + u);
    assert(t + u =~= s);
    lemma_stream_round_trip(chunks);
}

/// Copy `v[from..to]` into a fresh vector.
fn copy_range(v: &Vec<u8>, from: usize, to: usize) -> (out: Vec<u8>)
    requires
        from <= to <= v@.len(),
    ensures
        out@ == v@.subrange(from as int, to as int),
{
    let mut out: Vec<u8> = Vec::new();
    let mut j: usize = from;
    proof {
        assert(out@ =~= v@.subrange(from as int, from as int));
    }
    while j < to
        invariant
            from <= j <= to <= v@.len(),
            out@ == v@.subrange(from as int, j as int),
        decreases to - j,
    {
        out.push(v[j]);
        proof {
            assert(v@.subrange(from as int, j as int) + seq![v@[j as int]] =~= v@.subrange(
                from as int, j + 1));
        }
        j = j + 1;
    }
    out
}

} // verus!
