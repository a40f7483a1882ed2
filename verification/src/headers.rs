use vstd::prelude::*;
use crate::errors::GatewayError;
use crate::text::{lower, to_lower};

verus! {

/// A character the transport accepts inside a header value: horizontal tab,
/// or anything from the space character on, except delete.  Characters past
/// ASCII are carried as bytes of their own above this range, so they are
/// acceptable as well.
pub open spec fn valid_value_char(c: char) -> bool {
    c == '\t' || (' ' <= c && c != '\u{7f}')
}

pub open spec fn valid_value(s: Seq<char>) -> bool {
    forall|i: int| 0 <= i < s.len() ==> valid_value_char(s[i])
}

/// A normalized header entry: the name lower-cased, the value verbatim.
pub open spec fn normalized_entry(name: Seq<char>, value: Seq<char>) -> (Seq<char>, Seq<char>) {
    (lower(name), value)
}

pub fn check_value(s: &str) -> (r: bool)
    ensures
        r == valid_value(s@),
{
    let n = s.unicode_len();
    let mut i: usize = 0;
    while i < n
        invariant
            i <= n,
            n == s@.len(),
            forall|j: int| 0 <= j < i ==> valid_value_char(s@[j]),
        decreases n - i,
    {
        let c = s.get_char(i);
        if !(c == '\t' || (' ' <= c && c != '\u{7f}')) {
            return false;
        }
        i += 1;
    }
    true
}

/// Normalizes the caller's headers for the transport: every name is
/// lower-cased, every value is kept verbatim, and a value with an illegal
/// character aborts the whole request instead of being dropped.
pub fn normalize_headers(hs: &Vec<(String, String)>) -> (r: Result<
    Vec<(String, String)>,
    GatewayError,
>)
    ensures
        match r {
            Ok(out) => {
                &&& out@.len() == hs@.len()
                &&& forall|i: int|
                    0 <= i < hs@.len() ==> (#[trigger] out@[i].0@, out@[i].1@)
                        == normalized_entry(hs@[i].0@, hs@[i].1@)
                &&& forall|i: int| 0 <= i < hs@.len() ==> valid_value(#[trigger] hs@[i].1@)
            },
            Err(e) => {
                &&& e is HeaderEncoding
                &&& exists|i: int| 0 <= i < hs@.len() && !valid_value(#[trigger] hs@[i].1@)
            },
        },
{
    let mut out: Vec<(String, String)> = Vec::new();
    let mut i: usize = 0;
    while i < hs.len()
        invariant
            i <= hs@.len(),
            out@.len() == i,
            forall|j: int|
                0 <= j < i ==> (#[trigger] out@[j].0@, out@[j].1@)
                    == normalized_entry(hs@[j].0@, hs@[j].1@),
            forall|j: int| 0 <= j < i ==> valid_value(#[trigger] hs@[j].1@),
        decreases hs@.len() - i,
    {
        let name = &hs[i].0;
        let value = &hs[i].1;
        if !check_value(value.as_str()) {
            return Err(GatewayError::HeaderEncoding(String::from_str(
                "header value holds characters that are illegal in a header value",
            )));
        }
        let lowered = to_lower(name.as_str());
        out.push((lowered, value.clone()));
        i += 1;
    }
    Ok(out)
}

/// Header names are case-insensitive: two entries whose names agree up to
/// ASCII case, with the same value, normalize to the identical outbound
/// entry, so the requests they produce cannot differ.
pub proof fn lemma_header_case_insensitive(
    name_a: Seq<char>,
    name_b: Seq<char>,
    value: Seq<char>,
)
    requires
        lower(name_a) == lower(name_b),
    ensures
        normalized_entry(name_a, value) == normalized_entry(name_b, value),
{
}

/// A name that is already lower-case passes through normalization unchanged:
/// lower-casing twice is the same as lower-casing once.
pub proof fn lemma_normalized_entry_stable(name: Seq<char>, value: Seq<char>)
    ensures
        normalized_entry(lower(name), value) == normalized_entry(name, value),
{
    crate::text::lemma_lower_idempotent(name);
}

} // verus!
