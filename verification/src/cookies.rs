use vstd::prelude::*;
use crate::errors::GatewayError;

verus! {

/// Whether a raw cookie string carries a `=` separator at all.
pub open spec fn has_separator(s: Seq<char>) -> bool {
    exists|i: int| 0 <= i < s.len() && s[i] == '='
}

/// `i` is the position of the first `=` in `s`.
pub open spec fn is_first_separator(s: Seq<char>, i: int) -> bool {
    &&& 0 <= i < s.len()
    &&& s[i] == '='
    &&& forall|j: int| 0 <= j < i ==> s[j] != '='
}

/// The pair `(name, value)` is exactly `s` split at its first `=`: the name
/// is everything before it, the value everything after it, so a value may
/// itself carry further `=` characters.
pub open spec fn splits_at_first_separator(s: Seq<char>, name: Seq<char>, value: Seq<char>) -> bool {
    exists|i: int|
        {
            &&& #[trigger] is_first_separator(s, i)
            &&& name == s.take(i)
            &&& value == s.skip(i + 1)
        }
}

/// Splits one raw cookie string at its first `=` into name and value; the
/// value keeps any further `=` characters.  A string without a separator
/// fails the whole request: there is no fallback for it.
pub fn split_cookie(s: &str) -> (r: Result<(String, String), GatewayError>)
    ensures
        match r {
            Ok(pair) => splits_at_first_separator(s@, pair.0@, pair.1@),
            Err(e) => e is Decode && !has_separator(s@),
        },
{
    let n = s.unicode_len();
    let mut i: usize = 0;
    while i < n
        invariant
            i <= n,
            n == s@.len(),
            forall|j: int| 0 <= j < i ==> s@[j] != '=',
        decreases n - i,
    {
        let c = s.get_char(i);
        if c == '=' {
            let name = s.substring_char(0, i).to_owned();
            let value = s.substring_char(i + 1, n).to_owned();
            proof {
                assert(s@.take(i as int) =~= s@.subrange(0, i as int));
                assert(s@.skip(i + 1) =~= s@.subrange(i + 1, n as int));
                assert(is_first_separator(s@, i as int));
            }
            return Ok((name, value));
        }
        i += 1;
    }
    Err(GatewayError::Decode(String::from_str("cookie entry holds no separator")))
}

/// Turns every raw cookie string the store returned for the request's URI
/// into a `(name, value)` pair; one malformed entry fails the whole batch.
pub fn assemble_cookies(raw: &Vec<String>) -> (r: Result<Vec<(String, String)>, GatewayError>)
    ensures
        match r {
            Ok(out) => {
                &&& out@.len() == raw@.len()
                &&& forall|k: int|
                    0 <= k < raw@.len() ==> splits_at_first_separator(
                        raw@[k]@,
                        #[trigger] out@[k].0@,
                        out@[k].1@,
                    )
            },
            Err(e) => e is Decode && exists|k: int|
                0 <= k < raw@.len() && !has_separator(#[trigger] raw@[k]@),
        },
{
    let mut out: Vec<(String, String)> = Vec::new();
    let mut k: usize = 0;
    while k < raw.len()
        invariant
            k <= raw@.len(),
            out@.len() == k,
            forall|m: int|
                0 <= m < k ==> splits_at_first_separator(
                    raw@[m]@,
                    #[trigger] out@[m].0@,
                    out@[m].1@,
                ),
        decreases raw@.len() - k,
    {
        match split_cookie(raw[k].as_str()) {
            Ok(pair) => {
                out.push(pair);
            },
            Err(e) => {
                return Err(e);
            },
        }
        k += 1;
    }
    Ok(out)
}

/// A pair split off a raw cookie string is faithful: the raw text before the
/// split point is the name, the text after it is the value, and the name
/// itself never holds a `=`.
pub proof fn lemma_split_name_has_no_separator(s: Seq<char>, name: Seq<char>, value: Seq<char>)
    requires
        splits_at_first_separator(s, name, value),
    ensures
        !has_separator(name),
        name.len() + 1 + value.len() == s.len(),
        s == name + seq!['='] + value,
{
    let i = choose|i: int|
        {
            &&& #[trigger] is_first_separator(s, i)
            &&& name == s.take(i)
            &&& value == s.skip(i + 1)
        };
    assert(s =~= name + seq!['='] + value);
}

} // verus!
