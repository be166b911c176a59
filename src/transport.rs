//! Requests and responses: the request URL, the signing decision and the
//! classification of what comes back.

use vstd::prelude::*;
use vstd::string::*;
use crate::error::SmugMugError;
use crate::params::TextPair;
use crate::rate_limit::RateLimitTracker;
use crate::rate_limit::RateLimitWindow;
use crate::rate_limit::opt_str_view;
use crate::rate_limit::window_from_headers;
use crate::signer::Creds;
use crate::signer::CredsView;
use crate::signer::HttpMethod;
use crate::signer::can_sign;
use crate::signer::create_oauth1_header;
use crate::signer::missing_secret;
use crate::signer::signed_header;
use crate::text::signed_decimal;
use crate::urls::url_query_pairs;
use crate::urls::url_without_query;
use crate::text::pairs_view;
use crate::urls::parse_url;
use crate::urls::parse_url_with_params;
use crate::urls::parsed_url;
use crate::urls::parsed_url_with_params;
use crate::urls::url_error;

verus! {

/// The API's origin.
pub const API_ORIGIN: &'static str = "https://api.smugmug.com";

/// The application codes that the API documents.
#[derive(Clone, Copy, PartialEq, Eq, Structural, Debug)]
pub enum ApiErrorCodes {
    Success,
    CreatedSuccessfully,
    Accepted,
    MovedPermanently,
    MovedTemporarily,
    BadRequest,
    Unauthorized,
    PaymentRequired,
    Forbidden,
    NotFound,
    MethodNotAllowed,
    BadAccept,
    Conflict,
    TooManyRequests,
    InternalServerError,
    ServiceUnavailable,
}

/// The documented code for a number, if it is one.
pub open spec fn api_code(code: u32) -> Option<ApiErrorCodes> {
    if code == 200 {
        Some(ApiErrorCodes::Success)
    } else if code == 201 {
        Some(ApiErrorCodes::CreatedSuccessfully)
    } else if code == 202 {
        Some(ApiErrorCodes::Accepted)
    } else if code == 301 {
        Some(ApiErrorCodes::MovedPermanently)
    } else if code == 302 {
        Some(ApiErrorCodes::MovedTemporarily)
    } else if code == 400 {
        Some(ApiErrorCodes::BadRequest)
    } else if code == 401 {
        Some(ApiErrorCodes::Unauthorized)
    } else if code == 402 {
        Some(ApiErrorCodes::PaymentRequired)
    } else if code == 403 {
        Some(ApiErrorCodes::Forbidden)
    } else if code == 404 {
        Some(ApiErrorCodes::NotFound)
    } else if code == 405 {
        Some(ApiErrorCodes::MethodNotAllowed)
    } else if code == 406 {
        Some(ApiErrorCodes::BadAccept)
    } else if code == 407 {
        Some(ApiErrorCodes::Conflict)
    } else if code == 429 {
        Some(ApiErrorCodes::TooManyRequests)
    } else if code == 500 {
        Some(ApiErrorCodes::InternalServerError)
    } else if code == 503 {
        Some(ApiErrorCodes::ServiceUnavailable)
    } else {
        None
    }
}

impl ApiErrorCodes {
    /// Whether the code reports success.
    pub open spec fn spec_is_success(&self) -> bool {
        match self {
            ApiErrorCodes::Success | ApiErrorCodes::CreatedSuccessfully | ApiErrorCodes::Accepted
            | ApiErrorCodes::MovedPermanently | ApiErrorCodes::MovedTemporarily => true,
            _ => false,
        }
    }

    /// Whether the code reports success.
    #[verifier::when_used_as_spec(spec_is_success)]
    pub fn is_success(&self) -> (r: bool)
        ensures
            r == self.spec_is_success(),
    {
        match self {
            ApiErrorCodes::Success | ApiErrorCodes::CreatedSuccessfully | ApiErrorCodes::Accepted
            | ApiErrorCodes::MovedPermanently | ApiErrorCodes::MovedTemporarily => true,
            _ => false,
        }
    }

    /// The documented code for a number, if it is one.
    pub fn from_code(code: u32) -> (r: Option<Self>)
        ensures
            r == api_code(code),
    {
        match code {
            200 => Some(ApiErrorCodes::Success),
            201 => Some(ApiErrorCodes::CreatedSuccessfully),
            202 => Some(ApiErrorCodes::Accepted),
            301 => Some(ApiErrorCodes::MovedPermanently),
            302 => Some(ApiErrorCodes::MovedTemporarily),
            400 => Some(ApiErrorCodes::BadRequest),
            401 => Some(ApiErrorCodes::Unauthorized),
            402 => Some(ApiErrorCodes::PaymentRequired),
            403 => Some(ApiErrorCodes::Forbidden),
            404 => Some(ApiErrorCodes::NotFound),
            405 => Some(ApiErrorCodes::MethodNotAllowed),
            406 => Some(ApiErrorCodes::BadAccept),
            407 => Some(ApiErrorCodes::Conflict),
            429 => Some(ApiErrorCodes::TooManyRequests),
            500 => Some(ApiErrorCodes::InternalServerError),
            503 => Some(ApiErrorCodes::ServiceUnavailable),
            _ => None,
        }
    }
}

/// Whether an HTTP status is a client or server error.
pub open spec fn is_http_error(status: u16) -> bool {
    400 <= status <= 599
}

/// The error that an HTTP status stands for, if any: too many requests when
/// it is 429 and a retry delay is known, else the status itself.
pub open spec fn http_status_error(status: u16, retry_after: Option<u64>) -> Option<SmugMugError> {
    if !is_http_error(status) {
        None
    } else if status == 429 && retry_after is Some {
        Some(SmugMugError::ApiResponseTooManyRequests(retry_after->0))
    } else {
        Some(SmugMugError::HttpStatus(status))
    }
}

/// Fails when the HTTP status is an error: with too many requests when it is
/// 429 and the window gives a retry delay, else with the status.
pub fn error_on_http_status(status: u16, rate_limit: Option<&RateLimitWindow>) -> (r: Result<
    (),
    SmugMugError,
>)
    ensures
        r == match http_status_error(
            status,
            match rate_limit {
                Some(w) => w.retry_after_seconds,
                None => None,
            },
        ) {
            Some(e) => Err::<(), SmugMugError>(e),
            None => Ok(()),
        },
{
    if status < 400 || status > 599 {
        return Ok(());
    }
    let retry = match rate_limit {
        Some(w) => w.retry_after_seconds,
        None => None,
    };
    match retry {
        Some(seconds) => if status == 429 {
            Err(SmugMugError::ApiResponseTooManyRequests(seconds))
        } else {
            Err(SmugMugError::HttpStatus(status))
        },
        None => Err(SmugMugError::HttpStatus(status)),
    }
}

/// The envelope of every JSON response.
pub struct ResponseBody<T> {
    pub code: u32,
    pub message: String,
    pub response: Option<T>,
}

impl<T> ResponseBody<T> {
    /// Whether the envelope's code is a success code; fails with
    /// `ApiResponseCode` when the code is outside the documented set.
    pub fn is_success_code(&self) -> (r: Result<bool, SmugMugError>)
        ensures
            api_code(self.code) is None ==> r == Err::<bool, SmugMugError>(
                SmugMugError::ApiResponseCode(self.code),
            ),
            api_code(self.code) matches Some(c) ==> r == Ok::<bool, SmugMugError>(
                c.spec_is_success(),
            ),
    {
        match ApiErrorCodes::from_code(self.code) {
            Some(c) => Ok(c.is_success()),
            None => Err(SmugMugError::ApiResponseCode(self.code)),
        }
    }
}

/// What a call returns: the payload, and the rate-limit window seen with it
/// (none for binary data).
pub struct Response<T> {
    pub payload: Option<T>,
    pub rate_limit: Option<RateLimitWindow>,
}

impl<T> Response<T> {
    /// The payload; a success that came without one fails with
    /// `ResponseMissing`.
    pub fn into_payload(self) -> (r: Result<T, SmugMugError>)
        ensures
            self.payload matches Some(p) ==> r == Ok::<T, SmugMugError>(p),
            self.payload is None ==> r == Err::<T, SmugMugError>(SmugMugError::ResponseMissing),
    {
        match self.payload {
            Some(p) => Ok(p),
            None => Err(SmugMugError::ResponseMissing),
        }
    }
}

/// Whether requests go out unsigned, with the API key in the query.
pub open spec fn unsigned_mode(c: CredsView) -> bool {
    !can_sign(c)
}

/// The URL of a request, if it parses: `url` with the caller's parameters
/// appended, then the `APIKey` parameter in unsigned mode.
pub open spec fn request_url(
    c: CredsView,
    url: Seq<char>,
    params: Option<Seq<TextPair>>,
) -> Option<Seq<char>> {
    let first = match params {
        Some(p) => parsed_url_with_params(url, p),
        None => parsed_url(url),
    };
    match first {
        Some(u) => if unsigned_mode(c) {
            parsed_url_with_params(u, seq![("APIKey"@, c.consumer_key)])
        } else {
            Some(u)
        },
        None => None,
    }
}

/// The view of optional parameters.
pub open spec fn opt_pairs_view(p: Option<&Vec<(String, String)>>) -> Option<Seq<TextPair>> {
    match p {
        Some(v) => Some(pairs_view(v@)),
        None => None,
    }
}

/// Builds the URL of a request; fails with `UrlParsing` exactly when it does
/// not parse.
pub fn create_req(creds: &Creds, url: &str, params: Option<&Vec<(String, String)>>) -> (r: Result<
    String,
    SmugMugError,
>)
    ensures
        request_url(creds@, url@, opt_pairs_view(params)) matches Some(u) ==> (r matches Ok(s)
            && s@ == u),
        request_url(creds@, url@, opt_pairs_view(params)) is None ==> r matches Err(
            SmugMugError::UrlParsing,
        ),
{
    let first = match params {
        Some(p) => parse_url_with_params(url, p),
        None => parse_url(url),
    };
    let req_url = match first {
        Ok(u) => u,
        Err(e) => {
            return Err(url_error(e));
        },
    };
    if !creds.are_all_tokens_available() {
        let mut key_param: Vec<(String, String)> = Vec::new();
        key_param.push((String::from_str("APIKey"), creds.consumer_api_key().clone()));
        assert(pairs_view(key_param@) =~= seq![("APIKey"@, creds@.consumer_key)]);
        match parse_url_with_params(req_url.as_str(), &key_param) {
            Ok(u) => Ok(u),
            Err(e) => Err(url_error(e)),
        }
    } else {
        Ok(req_url)
    }
}

/// What a request expects back.
#[derive(Clone, Copy, PartialEq, Eq, Structural, Debug)]
pub enum ResponseKind {
    /// A JSON envelope.
    Json,
    /// Raw bytes, such as an image.
    Binary,
}

/// A request ready to send: its URL, its Authorization header when signed,
/// and every header to send, Authorization included.
pub struct PreparedRequest {
    pub url: String,
    pub authorization: Option<String>,
    pub headers: Vec<(String, String)>,
}

/// The headers of a request: `Accept: application/json` when JSON comes
/// back, `Content-Type: application/json` when a JSON body goes out (every
/// method but GET), then the Authorization header when signed.
pub open spec fn request_headers(
    kind: ResponseKind,
    method: HttpMethod,
    authorization: Option<Seq<char>>,
) -> Seq<TextPair> {
    (if kind == ResponseKind::Json {
        seq![("Accept"@, "application/json"@)]
    } else {
        Seq::<TextPair>::empty()
    }) + (if method != HttpMethod::Get {
        seq![("Content-Type"@, "application/json"@)]
    } else {
        Seq::<TextPair>::empty()
    }) + (match authorization {
        Some(h) => seq![("Authorization"@, h)],
        None => Seq::<TextPair>::empty(),
    })
}

fn headers_for(kind: ResponseKind, method: HttpMethod, authorization: &Option<String>) -> (r: Vec<
    (String, String),
>)
    ensures
        pairs_view(r@) == request_headers(
            kind,
            method,
            match authorization {
                Some(h) => Some(h@),
                None => None,
            },
        ),
{
    let mut headers: Vec<(String, String)> = Vec::new();
    match kind {
        ResponseKind::Json => {
            headers.push((String::from_str("Accept"), String::from_str("application/json")));
        },
        ResponseKind::Binary => {},
    }
    match method {
        HttpMethod::Get => {},
        _ => {
            headers.push((String::from_str("Content-Type"), String::from_str("application/json")));
        },
    }
    match authorization {
        Some(h) => {
            headers.push((String::from_str("Authorization"), h.clone()));
        },
        None => {},
    }
    assert(pairs_view(headers@) =~= request_headers(
        kind,
        method,
        match authorization {
            Some(h) => Some(h@),
            None => None,
        },
    ));
    headers
}

/// Whether a request with this method and these credentials is signed: a GET
/// only when the credentials allow it, every other method always.
pub open spec fn is_signed(method: HttpMethod, c: CredsView) -> bool {
    method != HttpMethod::Get || can_sign(c)
}

/// Prepares a request: builds its URL, signs it when `is_signed` says so,
/// and lists its headers.
/// An unsigned GET carries the API key instead and never fails for want of
/// secrets; a signed request fails with `Auth` exactly when a secret is
/// missing.
pub fn prepare_request(
    creds: &Creds,
    method: HttpMethod,
    kind: ResponseKind,
    url: &str,
    params: Option<&Vec<(String, String)>>,
) -> (r: Result<PreparedRequest, SmugMugError>)
    ensures
        r matches Ok(p) ==> pairs_view(p.headers@) == request_headers(
            kind,
            method,
            match p.authorization {
                Some(h) => Some(h@),
                None => None,
            },
        ),
        request_url(creds@, url@, opt_pairs_view(params)) is None ==> r matches Err(
            SmugMugError::UrlParsing,
        ),
        r matches Ok(p) ==> request_url(creds@, url@, opt_pairs_view(params)) == Some(p.url@),
        r matches Ok(p) ==> (p.authorization is Some <==> is_signed(method, creds@)),
        r matches Ok(p) && p.authorization is Some ==> exists|nonce: Seq<char>, t: int|
            #![trigger signed_header(creds@, method.spec_name(), url_without_query(r->Ok_0.url@)->0, url_query_pairs(r->Ok_0.url@)->0, nonce, signed_decimal(t))]
            nonce.len() == 32 && r->Ok_0.authorization->0@ == signed_header(
                creds@,
                method.spec_name(),
                url_without_query(r->Ok_0.url@)->0,
                url_query_pairs(r->Ok_0.url@)->0,
                nonce,
                signed_decimal(t),
            ),
        !is_signed(method, creds@) && request_url(creds@, url@, opt_pairs_view(params)) is Some
            ==> r is Ok,
        is_signed(method, creds@) && request_url(creds@, url@, opt_pairs_view(params)) is Some
            && missing_secret(creds@) is Some ==> (r matches Err(SmugMugError::Auth(e)) && e@
            == missing_secret(creds@)->0),
        ({
            let u = request_url(creds@, url@, opt_pairs_view(params));
            is_signed(method, creds@) && missing_secret(creds@) is None && u is Some ==> if url_without_query(u->0) is Some && url_query_pairs(u->0) is Some {
                r is Ok
            } else {
                r matches Err(SmugMugError::UrlParsing)
            }
        }),
{
    let req_url = create_req(creds, url, params)?;
    let signed = match method {
        HttpMethod::Get => creds.are_all_tokens_available(),
        _ => true,
    };
    let authorization = if signed {
        Some(create_oauth1_header(creds, method, req_url.as_str())?)
    } else {
        None
    };
    let headers = headers_for(kind, method, &authorization);
    Ok(PreparedRequest { url: req_url, authorization, headers })
}

/// Reads the rate-limit headers of a JSON response observed at `timestamp`,
/// records the window whatever the outcome, and fails as
/// `error_on_http_status` does when the HTTP status is an error.
pub fn begin_json_response(
    tracker: &mut RateLimitTracker,
    timestamp: i64,
    status: u16,
    retry_after: Option<&str>,
    remaining: Option<&str>,
    reset: Option<&str>,
) -> (r: Result<RateLimitWindow, SmugMugError>)
    ensures
        final(tracker)@ == Some(
            window_from_headers(
                timestamp,
                opt_str_view(retry_after),
                opt_str_view(remaining),
                opt_str_view(reset),
            ),
        ),
        r == match http_status_error(
            status,
            window_from_headers(
                timestamp,
                opt_str_view(retry_after),
                opt_str_view(remaining),
                opt_str_view(reset),
            ).retry_after_seconds,
        ) {
            Some(e) => Err::<RateLimitWindow, SmugMugError>(e),
            None => Ok(
                window_from_headers(
                    timestamp,
                    opt_str_view(retry_after),
                    opt_str_view(remaining),
                    opt_str_view(reset),
                ),
            ),
        },
{
    let window = RateLimitWindow::from_header_values(timestamp, retry_after, remaining, reset);
    tracker.record(window);
    error_on_http_status(status, Some(&window))?;
    Ok(window)
}

/// The error that a decoded envelope reports, if any: `ApiResponseCode` for
/// a code outside the documented set, `ApiResponse` with the message for a
/// documented failure code.
pub open spec fn envelope_error<T>(b: ResponseBody<T>) -> Option<SmugMugError> {
    match api_code(b.code) {
        None => Some(SmugMugError::ApiResponseCode(b.code)),
        Some(c) => if c.spec_is_success() {
            None
        } else {
            Some(SmugMugError::ApiResponse(b.code, b.message))
        },
    }
}

/// Classifies the body of a JSON response: `body` is the decoded envelope,
/// or a description of why the bytes are not one. A success code gives the
/// payload, present or not, with the window.
pub fn finish_json_response<T>(window: RateLimitWindow, body: Result<ResponseBody<T>, String>) -> (r:
    Result<Response<T>, SmugMugError>)
    ensures
        body matches Err(m) ==> r == Err::<Response<T>, SmugMugError>(
            SmugMugError::ApiResponseMalformed(m),
        ),
        body matches Ok(b) ==> r == match envelope_error(b) {
            Some(e) => Err::<Response<T>, SmugMugError>(e),
            None => Ok(Response { payload: b.response, rate_limit: Some(window) }),
        },
{
    match body {
        Err(m) => Err(SmugMugError::ApiResponseMalformed(m)),
        Ok(b) => {
            let success = b.is_success_code()?;
            if !success {
                return Err(SmugMugError::ApiResponse(b.code, b.message));
            }
            Ok(Response { payload: b.response, rate_limit: Some(window) })
        },
    }
}

/// An HTTP 429 with a known retry delay is reported as too many requests
/// with that delay, never as a plain HTTP error; without a delay it is the
/// plain status.
pub proof fn lemma_too_many_requests(retry_after: u64)
    ensures
        http_status_error(429, Some(retry_after)) == Some(
            SmugMugError::ApiResponseTooManyRequests(retry_after),
        ),
        http_status_error(429, None) == Some(SmugMugError::HttpStatus(429)),
{
}

/// An envelope code outside the documented set is reported as such, never
/// taken for success or for a documented failure.
pub proof fn lemma_unknown_code_reported<T>(b: ResponseBody<T>)
    requires
        api_code(b.code) is None,
    ensures
        envelope_error(b) == Some(SmugMugError::ApiResponseCode(b.code)),
{
}

/// The documented codes: five of success, eleven of failure; 999 is none.
pub proof fn lemma_code_set()
    ensures
        forall|c: u32|
            #![trigger api_code(c)]
            (api_code(c) is Some && api_code(c)->0.spec_is_success()) <==> (c == 200 || c == 201
                || c == 202 || c == 301 || c == 302),
        api_code(999) is None,
{
}

/// Credentials without an access token or token secret send GET requests
/// unsigned, with the API key in the query, so no such request fails for want
/// of secrets; other methods are still signed.
pub proof fn lemma_missing_token_goes_unsigned(c: CredsView, url: Seq<char>, params: Option<Seq<TextPair>>)
    requires
        c.access_token is None || c.token_secret is None,
    ensures
        !is_signed(HttpMethod::Get, c),
        is_signed(HttpMethod::Post, c) && is_signed(HttpMethod::Patch, c),
        request_url(c, url, params) == match (match params {
            Some(p) => parsed_url_with_params(url, p),
            None => parsed_url(url),
        }) {
            Some(u) => parsed_url_with_params(u, seq![("APIKey"@, c.consumer_key)]),
            None => None,
        },
{
}

} // verus!
