use vstd::prelude::*;

verus! {

/// Everything that can abort one forwarded request.  Every variant carries
/// the human-readable description that ends up in the failure envelope.
#[derive(Debug)]
pub enum GatewayError {
    /// The upstream proxy was malformed or the execution context could not
    /// be constructed; no network attempt may follow.
    Configuration(String),
    /// A caller-supplied header value holds characters that are illegal in a
    /// header value; the whole request is aborted.
    HeaderEncoding(String),
    /// Connect, TLS, timeout or transport failure while dispatching.
    Network(String),
    /// A response header value that is not text, or a stored cookie without
    /// a `=` separator.
    Decode(String),
}

impl GatewayError {
    /// The description carried by the error, as it appears in the envelope.
    pub open spec fn spec_message(&self) -> Seq<char> {
        match self {
            GatewayError::Configuration(s) => s@,
            GatewayError::HeaderEncoding(s) => s@,
            GatewayError::Network(s) => s@,
            GatewayError::Decode(s) => s@,
        }
    }

    pub fn message(&self) -> (r: String)
        ensures
            r@ == self.spec_message(),
    {
        match self {
            GatewayError::Configuration(s) => s.clone(),
            GatewayError::HeaderEncoding(s) => s.clone(),
            GatewayError::Network(s) => s.clone(),
            GatewayError::Decode(s) => s.clone(),
        }
    }
}

} // verus!
