use vstd::prelude::*;
use crate::errors::GatewayError;

verus! {

/// One entry of the raw response-header listing, as the transport hands it
/// over: the name is absent when it could not be decoded as text (or when
/// the entry only repeats the previous name), the value is absent when it
/// could not be decoded as text.
pub type RawHeader = (Option<String>, Option<String>);

/// Whether the raw listing can be assembled: every entry that still has a
/// name must have a decodable value.  Entries without a name are dropped
/// silently, before their value is even looked at.
pub open spec fn decodable(raw: Seq<RawHeader>) -> bool {
    forall|i: int| 0 <= i < raw.len() ==> ((#[trigger] raw[i].0) is Some ==> raw[i].1 is Some)
}

/// The entries that survive assembly, in order: those with a name, paired
/// with their value.
pub open spec fn kept_headers(raw: Seq<RawHeader>) -> Seq<(String, String)>
    decreases raw.len(),
{
    if raw.len() == 0 {
        Seq::empty()
    } else {
        let rest = kept_headers(raw.drop_last());
        let last = raw.last();
        if last.0 is Some {
            rest.push((last.0->0, last.1->0))
        } else {
            rest
        }
    }
}

/// Converts the raw response-header listing into the caller-facing mapping.
/// A nameless entry is dropped silently; a named entry whose value is not
/// text fails the whole request.  The asymmetry is the documented behavior
/// of the pipeline, not an accident of this implementation.
pub fn assemble_headers(raw: &Vec<RawHeader>) -> (r: Result<Vec<(String, String)>, GatewayError>)
    ensures
        match r {
            Ok(out) => decodable(raw@) && out@ == kept_headers(raw@),
            Err(e) => e is Decode && !decodable(raw@),
        },
{
    let mut out: Vec<(String, String)> = Vec::new();
    let mut i: usize = 0;
    while i < raw.len()
        invariant
            i <= raw@.len(),
            forall|j: int| 0 <= j < i ==> ((#[trigger] raw@[j].0) is Some ==> raw@[j].1 is Some),
            out@ == kept_headers(raw@.take(i as int)),
        decreases raw@.len() - i,
    {
        match &raw[i] {
            (Some(name), Some(value)) => {
                out.push((name.clone(), value.clone()));
            },
            (Some(_), None) => {
                return Err(GatewayError::Decode(String::from_str(
                    "response header value is not text",
                )));
            },
            (None, _) => {},
        }
        proof {
            assert(raw@.take(i + 1).drop_last() =~= raw@.take(i as int));
            assert(raw@.take(i + 1).last() == raw@[i as int]);
        }
        i += 1;
    }
    proof {
        assert(raw@.take(raw@.len() as int) =~= raw@);
    }
    Ok(out)
}

} // verus!
