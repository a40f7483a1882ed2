use vstd::prelude::*;
use crate::cookies::{assemble_cookies, has_separator, splits_at_first_separator};
use crate::envelope::{unsupported_envelope, ResponseEnvelope, SuccessParts};
use crate::errors::GatewayError;
use crate::headers::{normalize_headers, normalized_entry, valid_value};
use crate::method::{classify_method, spec_classify, MethodKind};
use crate::profile::{pool, random_profile, BrowserTag};
use crate::response::{assemble_headers, decodable, kept_headers, RawHeader};

verus! {

/// The timeout every execution context enforces, in seconds.  The caller's
/// `timeout` field is accepted but not authoritative: this fixed limit
/// applies regardless of it.
pub const CONTEXT_TIMEOUT_SECS: u64 = 10;

/// One forwarding order, as the caller sent it.
pub struct RunRequest {
    /// The absolute target URL.
    pub url: String,
    /// The method string; only GET and POST are meaningful, in any case.
    pub method: String,
    /// The body text, used only for POST; empty by default.
    pub data: String,
    /// Header names (in the caller's own casing) and values.
    pub headers: Vec<(String, String)>,
    /// The upstream proxy URL, applied to all traffic of the request.
    pub proxy: String,
    /// A caller-supplied hint in seconds; see `CONTEXT_TIMEOUT_SECS`.
    pub timeout: i32,
}

/// Everything the transport needs to build one isolated execution context.
/// The flags are fixed for every context, whatever the caller sent:
/// certificate verification off, brotli decompression on, the fixed timeout,
/// and a fresh request-scoped cookie store (created by the transport).
pub struct ClientConfig {
    /// The impersonation profile to present.
    pub profile: BrowserTag,
    /// The upstream proxy URL, as the caller supplied it.
    pub proxy: String,
    /// Always false: targets behind impersonation proxies commonly present
    /// non-standard certificates.
    pub cert_verification: bool,
    /// Always true: the transport must accept brotli-compressed bodies.
    pub brotli: bool,
    /// Always `CONTEXT_TIMEOUT_SECS`.
    pub timeout_secs: u64,
}

/// Decides the configuration of one request's execution context: a profile
/// drawn from the declared pool, the caller's proxy, and the fixed policy
/// flags.  Selection consumes randomness and nothing else; no profile
/// outside the pool can come back.
pub fn create_client_config(proxy: String) -> (r: ClientConfig)
    ensures
        pool().contains(r.profile),
        r.proxy == proxy,
        r.cert_verification == false,
        r.brotli == true,
        r.timeout_secs == CONTEXT_TIMEOUT_SECS,
{
    ClientConfig {
        profile: random_profile(),
        proxy,
        cert_verification: false,
        brotli: true,
        timeout_secs: CONTEXT_TIMEOUT_SECS,
    }
}

/// What the gateway decided to do with one request, before any network
/// contact.
pub enum Plan {
    /// The answer is already final; nothing is dispatched.
    Reject(ResponseEnvelope),
    /// Dispatch through a fresh execution context built from `config`:
    /// a bodiless request when `get` holds, otherwise one carrying `body`.
    Dispatch {
        config: ClientConfig,
        get: bool,
        url: String,
        body: String,
        headers: Vec<(String, String)>,
    },
}

/// Plans one request: a method outside GET and POST is answered directly
/// with the fixed unsupported notice and no network contact; otherwise the
/// headers are normalized and an execution context is configured.  A header
/// value with illegal characters aborts the request instead.
pub fn plan_request(req: &RunRequest) -> (r: Result<Plan, GatewayError>)
    ensures
        (spec_classify(req.method@) == MethodKind::Unsupported) <==> (r matches Ok(p)
            && p is Reject),
        match r {
            Ok(plan) => match plan {
                Plan::Reject(env) => env == (ResponseEnvelope::Unsupported {
                    message: env->Unsupported_message,
                }) && env->Unsupported_message@ == "method not supported"@
                    && env.spec_code() == -1,
                Plan::Dispatch { config, get, url, body, headers } => {
                    &&& get == (spec_classify(req.method@) == MethodKind::Get)
                    &&& url == req.url
                    &&& body == req.data
                    &&& headers@.len() == req.headers@.len()
                    &&& forall|i: int|
                        0 <= i < req.headers@.len() ==> (#[trigger] headers@[i].0@,
                        headers@[i].1@) == normalized_entry(
                            req.headers@[i].0@,
                            req.headers@[i].1@,
                        )
                    &&& forall|i: int|
                        0 <= i < req.headers@.len() ==> valid_value(#[trigger] req.headers@[i].1@)
                    &&& pool().contains(config.profile)
                    &&& config.proxy == req.proxy
                    &&& config.cert_verification == false
                    &&& config.brotli == true
                    &&& config.timeout_secs == CONTEXT_TIMEOUT_SECS
                },
            },
            Err(e) => {
                &&& e is HeaderEncoding
                &&& spec_classify(req.method@) != MethodKind::Unsupported
                &&& exists|i: int|
                    0 <= i < req.headers@.len() && !valid_value(#[trigger] req.headers@[i].1@)
            },
        },
{
    let kind = classify_method(req.method.as_str());
    if let MethodKind::Unsupported = kind {
        return Ok(Plan::Reject(unsupported_envelope()));
    }
    let headers = normalize_headers(&req.headers)?;
    let config = create_client_config(req.proxy.clone());
    Ok(
        Plan::Dispatch {
            config,
            get: kind == MethodKind::Get,
            url: req.url.clone(),
            body: req.data.clone(),
            headers,
        },
    )
}

/// Converts one completed exchange into the caller-facing success fields:
/// the upstream status is passed through unchanged, the body is kept whole,
/// nameless response headers are dropped while a non-text value fails the
/// request, every stored cookie is split at its first `=`, and the profile's
/// display string is attached.
pub fn assemble_response(
    status_code: u16,
    raw_headers: &Vec<RawHeader>,
    body: String,
    raw_cookies: &Vec<String>,
    profile: &BrowserTag,
) -> (r: Result<SuccessParts, GatewayError>)
    ensures
        match r {
            Ok(p) => {
                &&& p.status_code == status_code
                &&& p.text == body
                &&& p.tls@ == profile.spec_name()
                &&& decodable(raw_headers@)
                &&& p.headers@ == kept_headers(raw_headers@)
                &&& p.cookies@.len() == raw_cookies@.len()
                &&& forall|k: int|
                    0 <= k < raw_cookies@.len() ==> splits_at_first_separator(
                        raw_cookies@[k]@,
                        #[trigger] p.cookies@[k].0@,
                        p.cookies@[k].1@,
                    )
            },
            Err(e) => e is Decode && (!decodable(raw_headers@) || exists|k: int|
                0 <= k < raw_cookies@.len() && !has_separator(#[trigger] raw_cookies@[k]@)),
        },
{
    let headers = assemble_headers(raw_headers)?;
    let cookies = assemble_cookies(raw_cookies)?;
    Ok(SuccessParts { text: body, status_code, headers, cookies, tls: profile.name() })
}

} // verus!
