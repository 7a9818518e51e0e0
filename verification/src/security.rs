//! The access rules: which referers may fetch media, and which origins are
//! told so.

use crate::config::Config;
use crate::encoding::{
    bytes_start_with, lemma_byte_after_prefix, lemma_encode_injective, lemma_first_byte_ascii,
    lemma_prefix_encodes_to_prefix, lemma_prefix_iff_encoded_prefix, str_eq,
};
use vstd::prelude::*;
use vstd::string::*;
use vstd::utf8::encode_utf8;

verus! {

/// Outcome of checking a `Referer` header against the allow-list.
#[derive(Debug, Clone, Copy, PartialEq, Eq, Structural)]
pub enum RefererValidation {
    /// The referer matches an allowed origin.
    Valid,
    /// The request carried no referer.
    Missing,
    /// The referer matches no allowed origin.
    Invalid,
}

/// The characters that may follow an origin inside a referer: the start of a
/// path, of a query, or of a fragment.
pub open spec fn is_delimiter(c: char) -> bool {
    c == '/' || c == '?' || c == '#'
}

/// A referer matches an origin when it is that origin, or that origin followed
/// by a delimiter and anything after it. A referer that merely begins with the
/// origin's text, such as a longer host name, does not match.
pub open spec fn referer_matches(referer: Seq<char>, origin: Seq<char>) -> bool {
    &&& origin.is_prefix_of(referer)
    &&& (referer.len() == origin.len() || is_delimiter(referer[origin.len() as int]))
}

/// Whether the referer matches one of the origins.
pub open spec fn referer_allowed(referer: Seq<char>, origins: Seq<Seq<char>>) -> bool {
    exists|i: int| 0 <= i < origins.len() && referer_matches(referer, #[trigger] origins[i])
}

/// The verdict on a request's referer.
pub open spec fn referer_verdict(
    referer: Option<Seq<char>>,
    origins: Seq<Seq<char>>,
) -> RefererValidation {
    match referer {
        None => RefererValidation::Missing,
        Some(r) => if referer_allowed(r, origins) {
            RefererValidation::Valid
        } else {
            RefererValidation::Invalid
        },
    }
}

/// Whether a request's origin is, character for character, one of the origins.
pub open spec fn origin_allowed(origin: Option<Seq<char>>, origins: Seq<Seq<char>>) -> bool {
    match origin {
        None => false,
        Some(o) => origins.contains(o),
    }
}

/// Whether `b` encodes a delimiter.
fn is_delimiter_byte(b: u8) -> (r: bool)
    ensures
        r == (b == 0x2f || b == 0x3f || b == 0x23),
{
    b == 0x2f || b == 0x3f || b == 0x23
}

/// Decides whether `referer` matches `origin`.
pub fn matches_origin(referer: &str, origin: &str) -> (r: bool)
    ensures
        r == referer_matches(referer@, origin@),
{
    let rb = referer.as_bytes();
    let ob = origin.as_bytes();
    proof {
        lemma_prefix_iff_encoded_prefix(origin@, referer@);
    }
    if !bytes_start_with(rb, ob) {
        return false;
    }
    proof {
        lemma_prefix_encodes_to_prefix(origin@, referer@);
    }
    if rb.len() == ob.len() {
        proof {
            lemma_encode_injective(referer@, origin@);
        }
        return true;
    }
    proof {
        lemma_byte_after_prefix(origin@, referer@);
        let c = referer@[origin@.len() as int];
        lemma_first_byte_ascii(c, '/');
        lemma_first_byte_ascii(c, '?');
        lemma_first_byte_ascii(c, '#');
    }
    is_delimiter_byte(rb[ob.len()])
}

/// Checks a request's `Referer` header against the configured origins.
pub fn validate_referer(referer: Option<&str>, config: &Config) -> (verdict: RefererValidation)
    ensures
        verdict == referer_verdict(referer.deep_view(), config@.allowed_origins),
{
    match referer {
        None => RefererValidation::Missing,
        Some(r) => {
            let origins = &config.allowed_origins;
            let mut i: usize = 0;
            while i < origins.len()
                invariant
                    referer.deep_view() == Some(r@),
                    0 <= i <= origins@.len(),
                    origins.deep_view() == config@.allowed_origins,
                    forall|j: int|
                        0 <= j < i ==> !referer_matches(r@, #[trigger] config@.allowed_origins[j]),
                decreases origins@.len() - i,
            {
                assert(origins.deep_view()[i as int] == origins@[i as int]@);
                if matches_origin(r, origins[i].as_str()) {
                    return RefererValidation::Valid;
                }
                i += 1;
            }
            RefererValidation::Invalid
        },
    }
}

/// Decides whether a request's `Origin` header names a configured origin, and
/// so whether the response may tell the browser that the origin is welcome.
pub fn is_origin_allowed(origin: Option<&str>, config: &Config) -> (allowed: bool)
    ensures
        allowed == origin_allowed(origin.deep_view(), config@.allowed_origins),
{
    match origin {
        None => false,
        Some(o) => {
            let origins = &config.allowed_origins;
            let mut i: usize = 0;
            while i < origins.len()
                invariant
                    origin.deep_view() == Some(o@),
                    0 <= i <= origins@.len(),
                    origins.deep_view() == config@.allowed_origins,
                    forall|j: int| 0 <= j < i ==> config@.allowed_origins[j] != o@,
                decreases origins@.len() - i,
            {
                assert(origins.deep_view()[i as int] == origins@[i as int]@);
                if str_eq(origins[i].as_str(), o) {
                    return true;
                }
                i += 1;
            }
            false
        },
    }
}

/// An allowed origin is a valid referer, alone or followed by anything that
/// starts with a delimiter.
pub proof fn law_origin_then_delimiter_is_valid(
    origins: Seq<Seq<char>>,
    i: int,
    suffix: Seq<char>,
)
    requires
        0 <= i < origins.len(),
        suffix.len() == 0 || is_delimiter(suffix[0]),
    ensures
        referer_verdict(Some(origins[i] + suffix), origins) == RefererValidation::Valid,
{
    assert(referer_matches(origins[i] + suffix, origins[i]));
}

/// An allowed origin is a valid referer as it stands, with a root path, with a
/// page path, with a query and with a fragment.
pub proof fn law_origin_with_page_is_valid(origins: Seq<Seq<char>>, i: int, suffix: Seq<char>)
    requires
        0 <= i < origins.len(),
        suffix == ""@ || suffix == "/"@ || suffix == "/page"@ || suffix == "?q=1"@ || suffix
            == "#frag"@,
    ensures
        referer_verdict(Some(origins[i] + suffix), origins) == RefererValidation::Valid,
{
    reveal_strlit("");
    reveal_strlit("/");
    reveal_strlit("/page");
    reveal_strlit("?q=1");
    reveal_strlit("#frag");
    law_origin_then_delimiter_is_valid(origins, i, suffix);
}

/// A referer that continues an origin with anything but a delimiter does not
/// match that origin: a longer host name is another host.
pub proof fn law_longer_host_does_not_match(origin: Seq<char>, tail: Seq<char>)
    requires
        tail.len() > 0,
        !is_delimiter(tail[0]),
    ensures
        !referer_matches(origin + tail, origin),
{
}

/// An allowed origin with `evil.com` appended is an invalid referer, unless
/// the appended text happens to match another allowed origin.
pub proof fn law_appended_host_is_invalid(origins: Seq<Seq<char>>, i: int)
    requires
        0 <= i < origins.len(),
        forall|j: int|
            0 <= j < origins.len() && origins[j] != origins[i] ==> !referer_matches(
                origins[i] + "evil.com"@,
                #[trigger] origins[j],
            ),
    ensures
        referer_verdict(Some(origins[i] + "evil.com"@), origins) == RefererValidation::Invalid,
{
    reveal_strlit("evil.com");
    law_longer_host_does_not_match(origins[i], "evil.com"@);
}

/// A request without a referer is reported as such, whatever the origins.
pub proof fn law_absent_referer_is_missing(origins: Seq<Seq<char>>)
    ensures
        referer_verdict(None, origins) == RefererValidation::Missing,
{
}

/// The verdict depends on which origins are allowed, not on their order or
/// on repetitions.
pub proof fn law_verdict_ignores_order(
    referer: Option<Seq<char>>,
    origins: Seq<Seq<char>>,
    others: Seq<Seq<char>>,
)
    requires
        forall|o: Seq<char>| origins.contains(o) <==> others.contains(o),
    ensures
        referer_verdict(referer, origins) == referer_verdict(referer, others),
{
    if let Some(r) = referer {
        if referer_allowed(r, origins) {
            let i = choose|i: int| 0 <= i < origins.len() && referer_matches(r, #[trigger] origins[i]);
            assert(origins.contains(origins[i]));
            let j = choose|j: int| 0 <= j < others.len() && others[j] == origins[i];
            assert(referer_matches(r, others[j]));
        }
        if referer_allowed(r, others) {
            let i = choose|i: int| 0 <= i < others.len() && referer_matches(r, #[trigger] others[i]);
            assert(others.contains(others[i]));
            let j = choose|j: int| 0 <= j < origins.len() && origins[j] == others[i];
            assert(referer_matches(r, origins[j]));
        }
    }
}

/// An origin is allowed exactly when its bytes are the bytes of a configured
/// origin; a request without an origin is never allowed.
pub proof fn law_origin_allowed_iff_same_bytes(origin: Seq<char>, origins: Seq<Seq<char>>)
    ensures
        origin_allowed(Some(origin), origins) <==> exists|i: int|
            0 <= i < origins.len() && encode_utf8(#[trigger] origins[i]) == encode_utf8(origin),
        !origin_allowed(None, origins),
{
    if origin_allowed(Some(origin), origins) {
        let i = choose|i: int| 0 <= i < origins.len() && origins[i] == origin;
        assert(encode_utf8(origins[i]) == encode_utf8(origin));
    }
    if exists|i: int|
        0 <= i < origins.len() && encode_utf8(#[trigger] origins[i]) == encode_utf8(origin) {
        let i = choose|i: int|
            0 <= i < origins.len() && encode_utf8(#[trigger] origins[i]) == encode_utf8(origin);
        lemma_encode_injective(origins[i], origin);
        assert(origins.contains(origin));
    }
}

} // verus!
