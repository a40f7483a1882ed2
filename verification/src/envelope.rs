use vstd::prelude::*;
use crate::errors::GatewayError;

verus! {

/// The fields of a completed upstream exchange, before they are wrapped.
pub struct SuccessParts {
    /// The whole response body, read into one text buffer.
    pub text: String,
    /// The upstream's own status code, passed through unchanged.
    pub status_code: u16,
    /// The response headers that survived decoding, name to value.
    pub headers: Vec<(String, String)>,
    /// The cookies the store accumulated for the request's URI.
    pub cookies: Vec<(String, String)>,
    /// The impersonation profile that was used, as a display string.
    pub tls: String,
}

/// The uniform answer the gateway emits: exactly one of a success, an
/// unsupported-method notice, or a failure.  The gateway itself always
/// answers with transport status 200; the `code` of this envelope is what
/// signals the outcome.
pub enum ResponseEnvelope {
    /// `code = 0`: the upstream answered.
    Success {
        text: String,
        status_code: u16,
        headers: Vec<(String, String)>,
        cookies: Vec<(String, String)>,
        tls: String,
        /// Elapsed wall time of the whole operation, in milliseconds.
        cost: u64,
    },
    /// `code = -1`: the method was not GET or POST; no network call was
    /// made, and the notice travels on the success channel.
    Unsupported { message: String },
    /// `code = 400`: the pipeline failed; the message describes the cause.
    Failure { message: String, cost: u64 },
}

impl ResponseEnvelope {
    /// The outcome code of the envelope, one per variant.
    pub open spec fn spec_code(&self) -> int {
        match self {
            ResponseEnvelope::Success { .. } => 0,
            ResponseEnvelope::Unsupported { .. } => -1,
            ResponseEnvelope::Failure { .. } => 400,
        }
    }

    pub fn code(&self) -> (r: i32)
        ensures
            r == self.spec_code(),
    {
        match self {
            ResponseEnvelope::Success { .. } => 0,
            ResponseEnvelope::Unsupported { .. } => -1,
            ResponseEnvelope::Failure { .. } => 400,
        }
    }
}

/// Every envelope signals exactly one outcome: code 0 exactly for a
/// success, -1 exactly for the unsupported notice, and 400 exactly for a
/// failure; no other code exists.
pub proof fn lemma_code_partition(e: &ResponseEnvelope)
    ensures
        (e.spec_code() == 0 <==> e is Success),
        (e.spec_code() == -1 <==> e is Unsupported),
        (e.spec_code() == 400 <==> e is Failure),
        e is Success || e is Unsupported || e is Failure,
{
}

/// The fixed notice for a method outside GET and POST.
pub fn unsupported_envelope() -> (r: ResponseEnvelope)
    ensures
        r matches ResponseEnvelope::Unsupported { message } && message@
            == "method not supported"@,
        r.spec_code() == -1,
{
    ResponseEnvelope::Unsupported { message: String::from_str("method not supported") }
}

/// Wraps the pipeline's outcome together with the measured elapsed time:
/// a completed exchange becomes the success envelope carrying its fields
/// unchanged, and any error becomes the failure envelope carrying the
/// error's description.  Both carry the elapsed milliseconds.
pub fn finish(outcome: Result<SuccessParts, GatewayError>, elapsed_ms: u64) -> (r:
    ResponseEnvelope)
    ensures
        match outcome {
            Ok(p) => r == (ResponseEnvelope::Success {
                text: p.text,
                status_code: p.status_code,
                headers: p.headers,
                cookies: p.cookies,
                tls: p.tls,
                cost: elapsed_ms,
            }),
            Err(e) => (r matches ResponseEnvelope::Failure { message, cost } && message@
                == e.spec_message() && cost == elapsed_ms),
        },
        outcome is Ok ==> r.spec_code() == 0,
        outcome is Err ==> r.spec_code() == 400,
{
    match outcome {
        Ok(p) => ResponseEnvelope::Success {
            text: p.text,
            status_code: p.status_code,
            headers: p.headers,
            cookies: p.cookies,
            tls: p.tls,
            cost: elapsed_ms,
        },
        Err(e) => ResponseEnvelope::Failure { message: e.message(), cost: elapsed_ms },
    }
}

} // verus!
