//! The UTF-8 boundary model.
//!
//! Output read from the PTY arrives in arbitrary slices, so a read may end
//! in the middle of a multi-byte character. The drain loop therefore needs
//! to know, for any byte sequence, the longest prefix that is well-formed
//! UTF-8: that prefix is safe to hand to the display, and the remainder is
//! carried over to the next read. `valid_prefix_len` is the mathematical
//! definition of that boundary and `utf8_prefix_len` the verified scanner
//! that computes it.

use vstd::prelude::*;

verus! {

/// A UTF-8 continuation byte, of the form 0b10xxxxxx.
pub open spec fn is_continuation(b: u8) -> bool {
    0x80 <= b && b <= 0xBF
}

/// The leading two bytes of a well-formed three-byte encoding. The ranges
/// exclude overlong forms (0xE0 must be followed by 0xA0..=0xBF) and the
/// surrogate range (0xED must be followed by 0x80..=0x9F).
pub open spec fn is_three_byte_head(b0: u8, b1: u8) -> bool {
    (b0 == 0xE0 && 0xA0 <= b1 && b1 <= 0xBF) || (0xE1 <= b0 && b0 <= 0xEC
        && is_continuation(b1)) || (b0 == 0xED && 0x80 <= b1 && b1 <= 0x9F) || (0xEE <= b0 && b0
        <= 0xEF && is_continuation(b1))
}

/// The leading two bytes of a well-formed four-byte encoding. The ranges
/// exclude overlong forms (0xF0 must be followed by 0x90..=0xBF) and code
/// points above 0x10FFFF (0xF4 must be followed by 0x80..=0x8F).
pub open spec fn is_four_byte_head(b0: u8, b1: u8) -> bool {
    (b0 == 0xF0 && 0x90 <= b1 && b1 <= 0xBF) || (0xF1 <= b0 && b0 <= 0xF3
        && is_continuation(b1)) || (b0 == 0xF4 && 0x80 <= b1 && b1 <= 0x8F)
}

/// Length of the well-formed scalar-value encoding at the front of `s`,
/// or 0 when `s` does not begin with a complete well-formed encoding
/// (whether because the leading bytes are invalid or because the sequence
/// ends before the encoding is complete).
pub open spec fn first_char_len(s: Seq<u8>) -> int {
    if s.len() >= 1 && s[0] <= 0x7F {
        1
    } else if s.len() >= 2 && 0xC2 <= s[0] && s[0] <= 0xDF && is_continuation(s[1]) {
        2
    } else if s.len() >= 3 && is_three_byte_head(s[0], s[1]) && is_continuation(s[2]) {
        3
    } else if s.len() >= 4 && is_four_byte_head(s[0], s[1]) && is_continuation(s[2])
        && is_continuation(s[3]) {
        4
    } else {
        0
    }
}

/// Length of the longest prefix of `s` that is entirely well-formed UTF-8:
/// scalar encodings are consumed greedily from the front until one is
/// incomplete or invalid.
pub open spec fn valid_prefix_len(s: Seq<u8>) -> int
    decreases s.len(),
{
    let n = first_char_len(s);
    if n == 0 {
        0
    } else {
        n + valid_prefix_len(s.skip(n))
    }
}

/// `s` is well-formed UTF-8 from end to end.
pub open spec fn utf8_valid(s: Seq<u8>) -> bool {
    valid_prefix_len(s) == s.len()
}

/// The greedy boundary always lies within the sequence.
pub proof fn lemma_valid_prefix_len_bounds(s: Seq<u8>)
    ensures
        0 <= valid_prefix_len(s) <= s.len(),
    decreases s.len(),
{
    let n = first_char_len(s);
    if n != 0 {
        lemma_valid_prefix_len_bounds(s.skip(n));
    }
}

/// Skipping in two steps is skipping once.
pub proof fn lemma_skip_skip(s: Seq<u8>, a: int, b: int)
    requires
        0 <= a,
        0 <= b,
        a + b <= s.len(),
    ensures
        s.skip(a).skip(b) == s.skip(a + b),
{
    assert(s.skip(a).skip(b) =~= s.skip(a + b));
}

/// Past the greedy boundary no further scalar encoding begins: the
/// remainder left by `valid_prefix_len` is stuck until more bytes arrive.
pub proof fn lemma_residual_stuck(s: Seq<u8>)
    ensures
        valid_prefix_len(s.skip(valid_prefix_len(s))) == 0,
    decreases s.len(),
{
    let n = first_char_len(s);
    if n == 0 {
        assert(s.skip(0) =~= s);
    } else {
        lemma_valid_prefix_len_bounds(s.skip(n));
        lemma_residual_stuck(s.skip(n));
        lemma_skip_skip(s, n, valid_prefix_len(s.skip(n)));
    }
}

/// The scalar encoding found at the front of `s` is still the one found at
/// the front of `s + t`: appending bytes can only extend the tail.
pub proof fn lemma_first_char_len_append(s: Seq<u8>, t: Seq<u8>)
    requires
        first_char_len(s) > 0,
    ensures
        first_char_len(s + t) == first_char_len(s),
{
    let n = first_char_len(s);
    assert(forall|i: int| 0 <= i < s.len() ==> (s + t)[i] == s[i]);
}

/// A well-formed sequence in front of arbitrary bytes moves the greedy
/// boundary past itself: `valid_prefix_len` distributes over such a
/// concatenation.
pub proof fn lemma_valid_prefix_len_concat(a: Seq<u8>, b: Seq<u8>)
    requires
        utf8_valid(a),
    ensures
        valid_prefix_len(a + b) == a.len() + valid_prefix_len(b),
    decreases a.len(),
{
    if a.len() == 0 {
        assert(a + b =~= b);
    } else {
        let n = first_char_len(a);
        lemma_valid_prefix_len_bounds(a.skip(n));
        lemma_first_char_len_append(a, b);
        assert((a + b).skip(n) =~= a.skip(n) + b);
        assert(utf8_valid(a.skip(n)));
        lemma_valid_prefix_len_concat(a.skip(n), b);
    }
}

/// Well-formedness is closed under concatenation.
pub proof fn lemma_valid_concat(a: Seq<u8>, b: Seq<u8>)
    requires
        utf8_valid(a),
        utf8_valid(b),
    ensures
        utf8_valid(a + b),
{
    lemma_valid_prefix_len_concat(a, b);
}

/// The prefix up to the greedy boundary is itself well-formed.
pub proof fn lemma_prefix_valid(s: Seq<u8>)
    ensures
        utf8_valid(s.take(valid_prefix_len(s))),
    decreases s.len(),
{
    let n = first_char_len(s);
    if n == 0 {
        assert(s.take(0) =~= Seq::<u8>::empty());
    } else {
        let m = valid_prefix_len(s.skip(n));
        lemma_valid_prefix_len_bounds(s.skip(n));
        lemma_prefix_valid(s.skip(n));
        let p = s.take(n + m);
        assert(forall|i: int| 0 <= i < n ==> p[i] == s[i]);
        assert(first_char_len(p) == n) by {
            assert(forall|i: int| 0 <= i < s.len() ==> (s.take(s.len() as int))[i] == s[i]);
        }
        assert(p.skip(n) =~= s.skip(n).take(m));
        assert(valid_prefix_len(p) == n + m);
    }
}

/// Scan `bytes` for the greedy UTF-8 boundary: the returned index is the
/// length of the longest well-formed prefix, exactly as `valid_prefix_len`
/// defines it.
pub fn utf8_prefix_len(bytes: &[u8]) -> (k: usize)
    ensures
        k as int == valid_prefix_len(bytes@),
        k <= bytes@.len(),
{
    let len = bytes.len();
    let mut i: usize = 0;
    proof {
        lemma_valid_prefix_len_bounds(bytes@);
        assert(bytes@.skip(0) =~= bytes@);
    }
    while i < len
        invariant
            i <= len,
            len == bytes@.len(),
            valid_prefix_len(bytes@) == i + valid_prefix_len(bytes@.skip(i as int)),
            valid_prefix_len(bytes@.skip(i as int)) <= len - i,
        decreases len - i,
    {
        let n = char_len_at(bytes, i);
        if n == 0 {
            return i;
        }
        proof {
            lemma_valid_prefix_len_bounds(bytes@.skip(i as int).skip(n as int));
            lemma_skip_skip(bytes@, i as int, n as int);
        }
        i = i + n;
    }
    proof {
        assert(bytes@.skip(len as int) =~= Seq::<u8>::empty());
    }
    i
}

/// Length of the well-formed scalar encoding starting at offset `i`, or 0
/// when none starts there.
fn char_len_at(bytes: &[u8], i: usize) -> (n: usize)
    requires
        i < bytes@.len(),
    ensures
        n as int == first_char_len(bytes@.skip(i as int)),
{
    let len = bytes.len();
    let b0 = bytes[i];
    if b0 <= 0x7F {
        1
    } else if 0xC2 <= b0 && b0 <= 0xDF {
        if len - i > 1 && 0x80 <= bytes[i + 1] && bytes[i + 1] <= 0xBF {
            2
        } else {
            0
        }
    } else if 0xE0 <= b0 && b0 <= 0xEF {
        if len - i > 2 && three_head_ok(b0, bytes[i + 1]) && 0x80 <= bytes[i + 2] && bytes[i + 2]
            <= 0xBF {
            3
        } else {
            0
        }
    } else if 0xF0 <= b0 && b0 <= 0xF4 {
        if len - i > 3 && four_head_ok(b0, bytes[i + 1]) && 0x80 <= bytes[i + 2] && bytes[i + 2]
            <= 0xBF && 0x80 <= bytes[i + 3] && bytes[i + 3] <= 0xBF {
            4
        } else {
            0
        }
    } else {
        0
    }
}

/// Decide `is_three_byte_head` on concrete bytes.
fn three_head_ok(b0: u8, b1: u8) -> (r: bool)
    ensures
        r == is_three_byte_head(b0, b1),
{
    (b0 == 0xE0 && 0xA0 <= b1 && b1 <= 0xBF) || (0xE1 <= b0 && b0 <= 0xEC && 0x80 <= b1 && b1
        <= 0xBF) || (b0 == 0xED && 0x80 <= b1 && b1 <= 0x9F) || (0xEE <= b0 && b0 <= 0xEF && 0x80
        <= b1 && b1 <= 0xBF)
}

/// Decide `is_four_byte_head` on concrete bytes.
fn four_head_ok(b0: u8, b1: u8) -> (r: bool)
    ensures
        r == is_four_byte_head(b0, b1),
{
    (b0 == 0xF0 && 0x90 <= b1 && b1 <= 0xBF) || (0xF1 <= b0 && b0 <= 0xF3 && 0x80 <= b1 && b1
        <= 0xBF) || (b0 == 0xF4 && 0x80 <= b1 && b1 <= 0x8F)
}

} // verus!
