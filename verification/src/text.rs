//! Lists written as text: white space, trimming, and splitting at a
//! separator.

use crate::encoding::lemma_encoding_is_no_shorter;
use vstd::prelude::*;
use vstd::string::*;

verus! {

/// Whether `c` is white space: a character with the Unicode property
/// `White_Space`.
pub open spec fn is_blank(c: char) -> bool {
    ||| '\u{9}' <= c <= '\u{d}'
    ||| c == ' '
    ||| c == '\u{85}'
    ||| c == '\u{a0}'
    ||| c == '\u{1680}'
    ||| '\u{2000}' <= c <= '\u{200a}'
    ||| c == '\u{2028}'
    ||| c == '\u{2029}'
    ||| c == '\u{202f}'
    ||| c == '\u{205f}'
    ||| c == '\u{3000}'
}

/// Whether every character of `s` is white space.
pub open spec fn all_blank(s: Seq<char>) -> bool {
    forall|i: int| 0 <= i < s.len() ==> is_blank(#[trigger] s[i])
}

/// How many white-space characters `s` begins with.
pub open spec fn leading_blanks(s: Seq<char>) -> nat
    decreases s.len(),
{
    if s.len() > 0 && is_blank(s[0]) {
        1 + leading_blanks(s.drop_first())
    } else {
        0
    }
}

/// How many white-space characters `s` ends with.
pub open spec fn trailing_blanks(s: Seq<char>) -> nat
    decreases s.len(),
{
    if s.len() > 0 && is_blank(s.last()) {
        1 + trailing_blanks(s.drop_last())
    } else {
        0
    }
}

/// `s` without the white space at its start.
pub open spec fn trim_start(s: Seq<char>) -> Seq<char> {
    s.skip(leading_blanks(s) as int)
}

/// `s` without the white space at its end.
pub open spec fn trim_end(s: Seq<char>) -> Seq<char> {
    s.take(s.len() - trailing_blanks(s))
}

/// `s` without the white space at either end.
pub open spec fn trim(s: Seq<char>) -> Seq<char> {
    trim_end(trim_start(s))
}

/// Where `c` first occurs in `s`; the length of `s` if it does not occur.
pub open spec fn first_index_of(s: Seq<char>, c: char) -> nat
    decreases s.len(),
{
    if s.len() == 0 || s[0] == c {
        0
    } else {
        1 + first_index_of(s.drop_first(), c)
    }
}

/// The fields of `s`: the pieces between occurrences of `sep`. There is
/// always at least one field, and fields may be empty.
pub open spec fn split_on(s: Seq<char>, sep: char) -> Seq<Seq<char>>
    decreases s.len(),
{
    let i = first_index_of(s, sep) as int;
    if i >= s.len() {
        seq![s]
    } else {
        seq![s.take(i)] + split_on(s.skip(i + 1), sep)
    }
}

/// The entries of a list written with `sep` between them: its fields, each
/// trimmed, without those that are then empty.
pub open spec fn list_entries(s: Seq<char>, sep: char) -> Seq<Seq<char>> {
    split_on(s, sep).map_values(|f: Seq<char>| trim(f)).filter(|f: Seq<char>| f.len() > 0)
}

/// What a field contributes to the entries of its list.
pub open spec fn entry_of(field: Seq<char>) -> Seq<Seq<char>> {
    if trim(field).len() > 0 {
        seq![trim(field)]
    } else {
        seq![]
    }
}

/// What an entry of a list looks like: it is not empty, it neither begins nor
/// ends with white space, and it does not hold the separator.
pub open spec fn is_entry(e: Seq<char>, sep: char) -> bool {
    &&& e.len() > 0
    &&& !is_blank(e[0])
    &&& !is_blank(e.last())
    &&& !e.contains(sep)
}

/// The count of leading white space is the index of the first character that
/// is not white space.
pub proof fn lemma_leading_blanks(s: Seq<char>, a: int)
    requires
        0 <= a <= s.len(),
        forall|j: int| 0 <= j < a ==> is_blank(#[trigger] s[j]),
        a < s.len() ==> !is_blank(s[a]),
    ensures
        leading_blanks(s) == a,
    decreases a,
{
    if a > 0 {
        let t = s.drop_first();
        assert(forall|j: int| 0 <= j < a - 1 ==> is_blank(#[trigger] t[j]));
        lemma_leading_blanks(t, a - 1);
    }
}

/// The count of trailing white space is the distance from the end to the
/// last character that is not white space.
pub proof fn lemma_trailing_blanks(s: Seq<char>, b: int)
    requires
        0 <= b <= s.len(),
        forall|j: int| b <= j < s.len() ==> is_blank(#[trigger] s[j]),
        b > 0 ==> !is_blank(s[b - 1]),
    ensures
        trailing_blanks(s) == s.len() - b,
    decreases s.len() - b,
{
    if b < s.len() {
        let t = s.drop_last();
        assert(forall|j: int| b <= j < t.len() ==> is_blank(#[trigger] t[j]));
        lemma_trailing_blanks(t, b);
    }
}

/// A field whose first and last characters that are not white space stand at
/// `a` and `b - 1` trims to what lies between them.
pub proof fn lemma_trim_between(s: Seq<char>, a: int, b: int)
    requires
        0 <= a < b <= s.len(),
        forall|j: int| 0 <= j < a ==> is_blank(#[trigger] s[j]),
        forall|j: int| b <= j < s.len() ==> is_blank(#[trigger] s[j]),
        !is_blank(s[a]),
        !is_blank(s[b - 1]),
    ensures
        trim(s) == s.subrange(a, b),
{
    lemma_leading_blanks(s, a);
    let t = trim_start(s);
    assert(forall|j: int| b - a <= j < t.len() ==> is_blank(#[trigger] t[j]));
    lemma_trailing_blanks(t, b - a);
}

/// A field of white space trims to nothing.
pub proof fn lemma_trim_all_blank(s: Seq<char>)
    requires
        all_blank(s),
    ensures
        trim(s) == Seq::<char>::empty(),
{
    lemma_leading_blanks(s, s.len() as int);
}

/// The first occurrence of `c` is where `c` stands with no `c` before it.
pub proof fn lemma_first_index_of(s: Seq<char>, c: char, k: int)
    requires
        0 <= k <= s.len(),
        forall|j: int| 0 <= j < k ==> #[trigger] s[j] != c,
        k < s.len() ==> s[k] == c,
    ensures
        first_index_of(s, c) == k,
    decreases k,
{
    if k > 0 {
        let t = s.drop_first();
        assert(forall|j: int| 0 <= j < k - 1 ==> #[trigger] t[j] != c);
        lemma_first_index_of(t, c, k - 1);
    }
}

/// The entries of a list are the entry of its first field, then the entries
/// of what follows the first separator.
pub proof fn lemma_list_entries_step(s: Seq<char>, sep: char, k: int)
    requires
        0 <= k < s.len(),
        forall|j: int| 0 <= j < k ==> #[trigger] s[j] != sep,
        s[k] == sep,
    ensures
        list_entries(s, sep) == entry_of(s.take(k)) + list_entries(s.skip(k + 1), sep),
{
    lemma_first_index_of(s, sep, k);
    let trimmed = |f: Seq<char>| trim(f);
    let kept = |f: Seq<char>| f.len() > 0;
    let head = seq![s.take(k)];
    let tail = split_on(s.skip(k + 1), sep);
    assert((head + tail).map_values(trimmed) =~= head.map_values(trimmed) + tail.map_values(
        trimmed,
    ));
    Seq::filter_distributes_over_add(head.map_values(trimmed), tail.map_values(trimmed), kept);
    lemma_entry_of_single(s.take(k));
}

/// The entries of a list without a separator are the entry of its one field.
pub proof fn lemma_list_entries_last(s: Seq<char>, sep: char)
    requires
        forall|j: int| 0 <= j < s.len() ==> #[trigger] s[j] != sep,
    ensures
        list_entries(s, sep) == entry_of(s),
{
    lemma_first_index_of(s, sep, s.len() as int);
    lemma_entry_of_single(s);
}

proof fn lemma_entry_of_single(field: Seq<char>)
    ensures
        seq![field].map_values(|f: Seq<char>| trim(f)).filter(|f: Seq<char>| f.len() > 0)
            == entry_of(field),
{
    reveal_with_fuel(Seq::filter, 2);
}

/// What the count of leading white space counts.
pub proof fn lemma_leading_blanks_counts(s: Seq<char>)
    ensures
        leading_blanks(s) <= s.len(),
        forall|j: int| 0 <= j < leading_blanks(s) ==> is_blank(#[trigger] s[j]),
        leading_blanks(s) < s.len() ==> !is_blank(s[leading_blanks(s) as int]),
    decreases s.len(),
{
    if s.len() > 0 && is_blank(s[0]) {
        let t = s.drop_first();
        lemma_leading_blanks_counts(t);
        assert forall|j: int| 0 <= j < leading_blanks(s) implies is_blank(#[trigger] s[j]) by {
            if j > 0 {
                assert(s[j] == t[j - 1]);
            }
        }
    }
}

/// What the count of trailing white space counts.
pub proof fn lemma_trailing_blanks_counts(s: Seq<char>)
    ensures
        trailing_blanks(s) <= s.len(),
        forall|j: int| s.len() - trailing_blanks(s) <= j < s.len() ==> is_blank(#[trigger] s[j]),
        trailing_blanks(s) < s.len() ==> !is_blank(s[s.len() - trailing_blanks(s) - 1]),
    decreases s.len(),
{
    if s.len() > 0 && is_blank(s.last()) {
        let t = s.drop_last();
        lemma_trailing_blanks_counts(t);
        assert forall|j: int| s.len() - trailing_blanks(s) <= j < s.len() implies is_blank(
            #[trigger] s[j],
        ) by {
            if j < s.len() - 1 {
                assert(s[j] == t[j]);
            }
        }
    }
}

/// Trimmed text is a piece of the text: what is left of it neither begins nor
/// ends with white space, and holds no character that the text did not hold.
pub proof fn lemma_trim_is_trimmed(s: Seq<char>)
    ensures
        trim(s).len() > 0 ==> !is_blank(trim(s)[0]) && !is_blank(trim(s).last()),
        forall|c: char| trim(s).contains(c) ==> s.contains(c),
{
    lemma_leading_blanks_counts(s);
    lemma_trailing_blanks_counts(trim_start(s));
    assert forall|c: char| trim(s).contains(c) implies s.contains(c) by {
        let i = choose|i: int| 0 <= i < trim(s).len() && trim(s)[i] == c;
        assert(s[leading_blanks(s) + i] == c);
    }
}

/// What the first index of a character is.
pub proof fn lemma_first_index_of_finds(s: Seq<char>, c: char)
    ensures
        first_index_of(s, c) <= s.len(),
        forall|j: int| 0 <= j < first_index_of(s, c) ==> #[trigger] s[j] != c,
        first_index_of(s, c) < s.len() ==> s[first_index_of(s, c) as int] == c,
    decreases s.len(),
{
    if s.len() > 0 && s[0] != c {
        let t = s.drop_first();
        lemma_first_index_of_finds(t, c);
        assert forall|j: int| 0 <= j < first_index_of(s, c) implies #[trigger] s[j] != c by {
            if j > 0 {
                assert(s[j] == t[j - 1]);
            }
        }
    }
}

/// What a field without a separator contributes to a list is an entry.
proof fn lemma_entry_of_is_entry(field: Seq<char>, sep: char)
    requires
        !field.contains(sep),
    ensures
        forall|i: int| 0 <= i < entry_of(field).len() ==> is_entry(#[trigger] entry_of(field)[i], sep),
{
    lemma_trim_is_trimmed(field);
}

/// Every entry of a list looks like an entry.
pub proof fn lemma_entries_are_entries(s: Seq<char>, sep: char)
    ensures
        forall|i: int|
            0 <= i < list_entries(s, sep).len() ==> is_entry(#[trigger] list_entries(s, sep)[i], sep),
    decreases s.len(),
{
    let k = first_index_of(s, sep) as int;
    lemma_first_index_of_finds(s, sep);
    if k < s.len() {
        lemma_list_entries_step(s, sep, k);
        lemma_entry_of_is_entry(s.take(k), sep);
        lemma_entries_are_entries(s.skip(k + 1), sep);
    } else {
        lemma_list_entries_last(s, sep);
        lemma_entry_of_is_entry(s, sep);
    }
}

/// Decides whether `c` is white space.
pub fn is_blank_char(c: char) -> (r: bool)
    ensures
        r == is_blank(c),
{
    ('\u{9}' <= c && c <= '\u{d}') || c == ' ' || c == '\u{85}' || c == '\u{a0}' || c
        == '\u{1680}' || ('\u{2000}' <= c && c <= '\u{200a}') || c == '\u{2028}' || c
        == '\u{2029}' || c == '\u{202f}' || c == '\u{205f}' || c == '\u{3000}'
}

/// Appends to `out` the entry of a field of `s`, if it has one. The field is
/// `s[start..end]`, and `s[lo..hi]` is the field without the white space at
/// its ends; `lo == hi` if the field is white space.
fn push_entry(
    out: &mut Vec<String>,
    s: &str,
    Ghost(start): Ghost<int>,
    Ghost(end): Ghost<int>,
    lo: usize,
    hi: usize,
)
    requires
        0 <= start <= lo <= hi <= end <= s@.len(),
        forall|j: int| start <= j < end && !(lo <= j < hi) ==> is_blank(#[trigger] s@[j]),
        lo < hi ==> !is_blank(s@[lo as int]) && !is_blank(s@[hi - 1]),
    ensures
        final(out).deep_view() == old(out).deep_view() + entry_of(s@.subrange(start, end)),
{
    let ghost field = s@.subrange(start, end);
    if lo < hi {
        let entry = s.substring_char(lo, hi).to_owned();
        proof {
            lemma_trim_between(field, lo - start, hi - start);
            assert(field.subrange(lo - start, hi - start) =~= s@.subrange(lo as int, hi as int));
        }
        out.push(entry);
    } else {
        proof {
            lemma_trim_all_blank(field);
        }
    }
}

/// Reads a list written with `sep` between its entries: splits `s` at each
/// `sep`, trims each field, and keeps the fields that are not empty then.
pub fn parse_list(s: &str, sep: char) -> (out: Vec<String>)
    ensures
        out.deep_view() == list_entries(s@, sep),
{
    let mut out: Vec<String> = Vec::new();
    // No index into the characters exceeds the number of bytes.
    let limit = s.as_bytes().len();
    // The field being read starts at `start`. What is not white space in it
    // so far lies in `lo..hi`, with `lo == hi` while there is nothing.
    let mut start: usize = 0;
    let mut lo: usize = 0;
    let mut hi: usize = 0;
    let mut i: usize = 0;
    proof {
        lemma_encoding_is_no_shorter(s@);
        assert(s@.skip(0) =~= s@);
    }
    for c in it: s.chars()
        invariant
            it.seq() == s@,
            s@.len() <= limit,
            i == it.index(),
            start <= lo <= hi <= i,
            forall|j: int| start <= j < i ==> #[trigger] s@[j] != sep,
            forall|j: int| start <= j < i && !(lo <= j < hi) ==> is_blank(#[trigger] s@[j]),
            lo < hi ==> !is_blank(s@[lo as int]) && !is_blank(s@[hi - 1]),
            list_entries(s@, sep) == out.deep_view() + list_entries(s@.skip(start as int), sep),
    {
        if c == sep {
            proof {
                let rest = s@.skip(start as int);
                assert(rest.take(i - start) =~= s@.subrange(start as int, i as int));
                assert(rest.skip(i - start + 1) =~= s@.skip(i + 1));
                lemma_list_entries_step(rest, sep, i - start);
            }
            push_entry(&mut out, s, Ghost(start as int), Ghost(i as int), lo, hi);
            start = i + 1;
            lo = start;
            hi = start;
        } else if !is_blank_char(c) {
            if lo == hi {
                lo = i;
            }
            hi = i + 1;
        }
        i += 1;
    }
    proof {
        let rest = s@.skip(start as int);
        lemma_list_entries_last(rest, sep);
    }
    push_entry(&mut out, s, Ghost(start as int), Ghost(i as int), lo, hi);
    out
}

} // verus!
