use vstd::prelude::*;
use crate::text::{lower, to_lower};

verus! {

/// How the forwarding executor treats the caller's method string.
#[derive(Clone, Copy, PartialEq, Eq, Structural, Debug)]
pub enum MethodKind {
    /// A bodiless request; the caller's body is ignored even if present.
    Get,
    /// A request carrying the caller's body verbatim.
    Post,
    /// Anything else: answered directly, without contacting the network.
    Unsupported,
}

/// The method string is matched case-insensitively against GET and POST;
/// everything else is unsupported.
pub open spec fn spec_classify(m: Seq<char>) -> MethodKind {
    if lower(m) == "get"@ {
        MethodKind::Get
    } else if lower(m) == "post"@ {
        MethodKind::Post
    } else {
        MethodKind::Unsupported
    }
}

pub fn classify_method(m: &str) -> (r: MethodKind)
    ensures
        r == spec_classify(m@),
{
    let lm = to_lower(m);
    let get = String::from_str("get");
    let post = String::from_str("post");
    if lm == get {
        MethodKind::Get
    } else if lm == post {
        MethodKind::Post
    } else {
        MethodKind::Unsupported
    }
}

} // verus!
