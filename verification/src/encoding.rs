//! Text and its UTF-8 encoding.
//!
//! Contracts in this crate speak of a string as its sequence of characters.
//! The executable code compares strings byte by byte. The lemmas here show
//! that the two agree: a string's encoding determines its characters, and one
//! text begins another exactly when its encoding begins the other's.

use vstd::prelude::*;
use vstd::string::*;
use vstd::utf8::*;

verus! {

/// The encoding of a character is never empty.
pub proof fn lemma_encode_scalar_len(c: char)
    ensures
        1 <= encode_scalar(c as u32).len() <= 4,
{
}

/// Encoding distributes over concatenation.
pub proof fn lemma_encode_concat(a: Seq<char>, b: Seq<char>)
    ensures
        encode_utf8(a + b) == encode_utf8(a) + encode_utf8(b),
    decreases a.len(),
{
    if a.len() > 0 {
        assert((a + b).drop_first() =~= a.drop_first() + b);
        lemma_encode_concat(a.drop_first(), b);
    }
}

/// A text has no more characters than its encoding has bytes; so the number
/// of characters of a string fits in a `usize`.
pub proof fn lemma_encoding_is_no_shorter(s: Seq<char>)
    ensures
        s.len() <= encode_utf8(s).len(),
    decreases s.len(),
{
    if s.len() > 0 {
        lemma_encode_scalar_len(s[0]);
        lemma_encoding_is_no_shorter(s.drop_first());
    }
}

/// Two texts with the same encoding are the same text.
pub proof fn lemma_encode_injective(a: Seq<char>, b: Seq<char>)
    requires
        encode_utf8(a) == encode_utf8(b),
    ensures
        a == b,
{
    encode_utf8_decode_utf8(a);
    encode_utf8_decode_utf8(b);
}

/// If one text begins another, its encoding begins the other's encoding.
pub proof fn lemma_prefix_encodes_to_prefix(p: Seq<char>, s: Seq<char>)
    requires
        p.is_prefix_of(s),
    ensures
        encode_utf8(p).is_prefix_of(encode_utf8(s)),
        encode_utf8(s) == encode_utf8(p) + encode_utf8(s.skip(p.len() as int)),
{
    let rest = s.skip(p.len() as int);
    assert(s =~= p + rest);
    lemma_encode_concat(p, rest);
}

/// The encoding of a non-empty text begins with a whole character: the first
/// character can be read back from any byte sequence that starts with the
/// bytes of that character.
proof fn lemma_first_char_from_bytes(a: Seq<char>, b: Seq<char>)
    requires
        a.len() > 0,
        b.len() > 0,
        encode_scalar(a[0] as u32).len() <= encode_utf8(b).len(),
        forall|i: int|
            0 <= i < encode_scalar(a[0] as u32).len() ==> encode_utf8(b)[i] == encode_scalar(
                a[0] as u32,
            )[i],
    ensures
        a[0] == b[0],
{
    // Both encodings start with the same bytes, so with the same character.
    encode_utf8_first_scalar(a);
    encode_utf8_first_scalar(b);
    lemma_encode_scalar_len(a[0]);
    lemma_encode_scalar_len(b[0]);
    char_u32_cast(a[0], decode_first_scalar(encode_utf8(a)));
    char_u32_cast(b[0], decode_first_scalar(encode_utf8(b)));
}

/// If the encoding of one text begins the encoding of another, the first text
/// begins the second.
pub proof fn lemma_prefix_decodes_to_prefix(p: Seq<char>, s: Seq<char>)
    requires
        encode_utf8(p).is_prefix_of(encode_utf8(s)),
    ensures
        p.is_prefix_of(s),
    decreases p.len(),
{
    if p.len() > 0 {
        let ep = encode_utf8(p);
        let es = encode_utf8(s);
        let cp = encode_scalar(p[0] as u32);
        let q = p.drop_first();
        let t = s.drop_first();
        // The first characters are the same.
        lemma_encode_scalar_len(p[0]);
        assert forall|i: int| 0 <= i < cp.len() implies es[i] == cp[i] by {
            assert(es.subrange(0, ep.len() as int)[i] == ep[i]);
        }
        lemma_first_char_from_bytes(p, s);
        // What follows them in `p` begins what follows them in `s`.
        assert forall|i: int| 0 <= i < encode_utf8(q).len() implies encode_utf8(q)[i]
            == encode_utf8(t)[i] by {
            assert(ep[cp.len() + i] == encode_utf8(q)[i]);
        }
        lemma_prefix_decodes_to_prefix(q, t);
        assert forall|i: int| 0 <= i < p.len() implies p[i] == s[i] by {
            if i > 0 {
                assert(q[i - 1] == t.subrange(0, q.len() as int)[i - 1]);
            }
        }
    }
}

/// One text begins another exactly when its encoding begins the other's.
pub proof fn lemma_prefix_iff_encoded_prefix(p: Seq<char>, s: Seq<char>)
    ensures
        p.is_prefix_of(s) <==> encode_utf8(p).is_prefix_of(encode_utf8(s)),
{
    if p.is_prefix_of(s) {
        lemma_prefix_encodes_to_prefix(p, s);
    }
    if encode_utf8(p).is_prefix_of(encode_utf8(s)) {
        lemma_prefix_decodes_to_prefix(p, s);
    }
}

/// The first byte of a character's encoding is the byte of a given ASCII
/// character exactly when the character is that ASCII character.
pub proof fn lemma_first_byte_ascii(c: char, a: char)
    requires
        (a as u32) < 0x80,
    ensures
        encode_scalar(c as u32)[0] == a as u8 <==> c == a,
{
    let v = c as u32;
    let w = a as u32;
    char_is_scalar(c);
    char_u32_cast(c, v);
    char_u32_cast(a, w);
    assert((w as u8) as u32 == w) by (bit_vector)
        requires
            w < 0x80,
    ;
    if has_width_1_encoding(v) {
        assert(leading_byte_width_1(v) as u32 == v) by (bit_vector)
            requires
                v <= 0x7f,
        ;
    } else if has_width_2_encoding(v) {
        assert(leading_byte_width_2(v) >= 0x80) by (bit_vector);
    } else if has_width_3_encoding(v) {
        assert(leading_byte_width_3(v) >= 0x80) by (bit_vector);
    } else {
        assert(leading_byte_width_4(v) >= 0x80) by (bit_vector);
    }
}

/// The byte that follows the encoding of a proper prefix is the first byte of
/// the next character.
pub proof fn lemma_byte_after_prefix(p: Seq<char>, s: Seq<char>)
    requires
        p.is_prefix_of(s),
        p.len() < s.len(),
    ensures
        encode_utf8(p).len() < encode_utf8(s).len(),
        encode_utf8(s)[encode_utf8(p).len() as int] == encode_scalar(s[p.len() as int] as u32)[0],
{
    let rest = s.skip(p.len() as int);
    lemma_prefix_encodes_to_prefix(p, s);
    lemma_encode_scalar_len(rest[0]);
}

/// Whether two byte strings are equal.
pub fn bytes_eq(a: &[u8], b: &[u8]) -> (r: bool)
    ensures
        r == (a@ == b@),
{
    if a.len() != b.len() {
        return false;
    }
    let mut i: usize = 0;
    while i < a.len()
        invariant
            a@.len() == b@.len(),
            0 <= i <= a@.len(),
            forall|j: int| 0 <= j < i ==> a@[j] == b@[j],
        decreases a@.len() - i,
    {
        if a[i] != b[i] {
            return false;
        }
        i += 1;
    }
    assert(a@ =~= b@);
    true
}

/// Whether `text` begins with `prefix`.
pub fn bytes_start_with(text: &[u8], prefix: &[u8]) -> (r: bool)
    ensures
        r == prefix@.is_prefix_of(text@),
{
    if prefix.len() > text.len() {
        return false;
    }
    let mut i: usize = 0;
    while i < prefix.len()
        invariant
            prefix@.len() <= text@.len(),
            0 <= i <= prefix@.len(),
            forall|j: int| 0 <= j < i ==> prefix@[j] == text@[j],
        decreases prefix@.len() - i,
    {
        if prefix[i] != text[i] {
            return false;
        }
        i += 1;
    }
    true
}

/// Whether two strings hold the same text. The comparison is exact: no case
/// folding, no normalisation.
pub fn str_eq(a: &str, b: &str) -> (r: bool)
    ensures
        r == (a@ == b@),
{
    let r = bytes_eq(a.as_bytes(), b.as_bytes());
    proof {
        if r {
            lemma_encode_injective(a@, b@);
        }
    }
    r
}

} // verus!
