//! OAuth1 HMAC-SHA1 request signing.

use vstd::prelude::*;
use vstd::string::*;
use base64::Engine;
use hmac::Mac;
use rand::distr::SampleString;
use crate::encoding::percent_encoded;
use crate::encoding::url_encode;
use crate::error::SmugMugError;
use crate::params::TextPair;
use crate::params::normalized_params;
use crate::params::normalize_params;
use crate::text::pairs_view;
use crate::text::signed_decimal;
use crate::text::signed_decimal_string;
use crate::urls::url_query_pairs;
use crate::urls::url_without_query;
use crate::urls::query_pairs;
use crate::urls::strip_query;
use crate::urls::url_error;

verus! {

/// The HTTP methods that the API is called with.
#[derive(Clone, Copy, PartialEq, Eq, Structural, Debug)]
pub enum HttpMethod {
    Get,
    Patch,
    Post,
}

impl HttpMethod {
    /// The method's name, upper case.
    pub open spec fn spec_name(self) -> Seq<char> {
        match self {
            HttpMethod::Get => "GET"@,
            HttpMethod::Patch => "PATCH"@,
            HttpMethod::Post => "POST"@,
        }
    }

    /// The method's name, upper case.
    pub fn name(&self) -> (r: &'static str)
        ensures
            r@ == self.spec_name(),
    {
        match self {
            HttpMethod::Get => "GET",
            HttpMethod::Patch => "PATCH",
            HttpMethod::Post => "POST",
        }
    }
}

/// Credentials as text: the consumer key and the optional secrets.
pub struct CredsView {
    pub consumer_key: Seq<char>,
    pub consumer_secret: Option<Seq<char>>,
    pub access_token: Option<Seq<char>>,
    pub token_secret: Option<Seq<char>>,
}

/// The view of an optional string.
pub open spec fn opt_view(o: Option<String>) -> Option<Seq<char>> {
    match o {
        Some(s) => Some(s@),
        None => None,
    }
}

/// Holds credentials used for accessing and signing requests.
#[derive(Clone)]
pub struct Creds {
    consumer_api_key: String,
    consumer_api_secret: Option<String>,
    access_token: Option<String>,
    token_secret: Option<String>,
}

impl View for Creds {
    type V = CredsView;

    closed spec fn view(&self) -> CredsView {
        CredsView {
            consumer_key: self.consumer_api_key@,
            consumer_secret: opt_view(self.consumer_api_secret),
            access_token: opt_view(self.access_token),
            token_secret: opt_view(self.token_secret),
        }
    }
}

/// Whether the credentials hold everything that signing needs.
pub open spec fn can_sign(c: CredsView) -> bool {
    c.consumer_key.len() > 0 && c.consumer_secret is Some && c.access_token is Some
        && c.token_secret is Some
}

fn owned(o: Option<&str>) -> (r: Option<String>)
    ensures
        opt_view(r) == match o {
            Some(s) => Some(s@),
            None => None::<Seq<char>>,
        },
{
    match o {
        Some(s) => Some(s.to_owned()),
        None => None,
    }
}

impl Creds {
    /// Creates credentials from the tokens. Only the consumer key is needed
    /// for public accounts.
    pub fn from_tokens(
        consumer_api_key: &str,
        consumer_api_secret: Option<&str>,
        access_token: Option<&str>,
        token_secret: Option<&str>,
    ) -> (r: Self)
        ensures
            r@.consumer_key == consumer_api_key@,
            r@.consumer_secret == (match consumer_api_secret {
                Some(s) => Some(s@),
                None => None::<Seq<char>>,
            }),
            r@.access_token == (match access_token {
                Some(s) => Some(s@),
                None => None::<Seq<char>>,
            }),
            r@.token_secret == (match token_secret {
                Some(s) => Some(s@),
                None => None::<Seq<char>>,
            }),
    {
        Creds {
            consumer_api_key: consumer_api_key.to_owned(),
            consumer_api_secret: owned(consumer_api_secret),
            access_token: owned(access_token),
            token_secret: owned(token_secret),
        }
    }

    /// Whether every credential that signing needs is present.
    pub fn are_all_tokens_available(&self) -> (r: bool)
        ensures
            r == can_sign(self@),
    {
        !self.consumer_api_key.as_str().is_empty() && self.consumer_api_secret.is_some()
            && self.access_token.is_some() && self.token_secret.is_some()
    }

    /// The consumer key.
    pub fn consumer_api_key(&self) -> (r: &String)
        ensures
            r@ == self@.consumer_key,
    {
        &self.consumer_api_key
    }
}

/// The six OAuth protocol parameters.
pub open spec fn oauth_pairs(
    consumer_key: Seq<char>,
    nonce: Seq<char>,
    timestamp: Seq<char>,
    token: Seq<char>,
) -> Seq<TextPair> {
    seq![
        ("oauth_consumer_key"@, consumer_key),
        ("oauth_nonce"@, nonce),
        ("oauth_signature_method"@, "HMAC-SHA1"@),
        ("oauth_timestamp"@, timestamp),
        ("oauth_token"@, token),
        ("oauth_version"@, "1.0"@),
    ]
}

/// The signature base string: the method, the encoded URL without query,
/// and the encoded parameter string of the OAuth and query parameters,
/// joined by `&`.
pub open spec fn base_string(
    method: Seq<char>,
    url_base: Seq<char>,
    query: Seq<TextPair>,
    consumer_key: Seq<char>,
    nonce: Seq<char>,
    timestamp: Seq<char>,
    token: Seq<char>,
) -> Seq<char> {
    method + "&"@ + percent_encoded(url_base) + "&"@ + percent_encoded(
        normalized_params(oauth_pairs(consumer_key, nonce, timestamp, token) + query),
    )
}

/// The signing key: both secrets encoded, joined by `&`.
pub open spec fn signing_key_text(consumer_secret: Seq<char>, token_secret: Seq<char>) -> Seq<
    char,
> {
    percent_encoded(consumer_secret) + "&"@ + percent_encoded(token_secret)
}

/// `name="encoded value"`.
pub open spec fn header_field(name: Seq<char>, value: Seq<char>) -> Seq<char> {
    name + "=\""@ + percent_encoded(value) + "\""@
}

/// The Authorization header: `OAuth ` and the six OAuth parameters with the
/// signature, in key order, joined by `, `.
pub open spec fn authorization_text(
    consumer_key: Seq<char>,
    nonce: Seq<char>,
    timestamp: Seq<char>,
    token: Seq<char>,
    signature: Seq<char>,
) -> Seq<char> {
    "OAuth "@ + header_field("oauth_consumer_key"@, consumer_key) + ", "@ + header_field(
        "oauth_nonce"@,
        nonce,
    ) + ", "@ + header_field("oauth_signature"@, signature) + ", "@ + header_field(
        "oauth_signature_method"@,
        "HMAC-SHA1"@,
    ) + ", "@ + header_field("oauth_timestamp"@, timestamp) + ", "@ + header_field(
        "oauth_token"@,
        token,
    ) + ", "@ + header_field("oauth_version"@, "1.0"@)
}

/// The HMAC-SHA1 tag of a message under a key.
pub uninterp spec fn hmac_sha1_of(key: Seq<u8>, message: Seq<u8>) -> Seq<u8>;

/// Standard, padded base64 text of bytes.
pub uninterp spec fn base64_of(bytes: Seq<u8>) -> Seq<char>;

/// The signature: base64 of the HMAC-SHA1 of the base string's UTF-8 bytes
/// under the signing key's.
pub open spec fn signature_text(key: Seq<char>, base: Seq<char>) -> Seq<char> {
    base64_of(hmac_sha1_of(vstd::utf8::encode_utf8(key), vstd::utf8::encode_utf8(base)))
}

/// The header that signs a request, for a given nonce and timestamp.
pub open spec fn signed_header(
    c: CredsView,
    method: Seq<char>,
    url_base: Seq<char>,
    query: Seq<TextPair>,
    nonce: Seq<char>,
    timestamp: Seq<char>,
) -> Seq<char> {
    authorization_text(
        c.consumer_key,
        nonce,
        timestamp,
        c.access_token->0,
        signature_text(
            signing_key_text(c.consumer_secret->0, c.token_secret->0),
            base_string(method, url_base, query, c.consumer_key, nonce, timestamp, c.access_token->0),
        ),
    )
}

/// Relies on hmac's Hmac over sha1's Sha1 (`new_from_slice`, `update`,
/// `finalize`): the 20-byte HMAC-SHA1 tag, a function of key and message
/// alone. `new_from_slice` accepts keys of every length.
#[verifier::external_body]
fn hmac_sha1(key: &[u8], message: &[u8]) -> (r: Vec<u8>)
    ensures
        r@ == hmac_sha1_of(key@, message@),
{
    let mut mac = hmac::Hmac::<sha1::Sha1>::new_from_slice(key).expect("any key length");
    mac.update(message);
    mac.finalize().into_bytes().to_vec()
}

/// Relies on base64's STANDARD engine `encode`: padded standard base64.
#[verifier::external_body]
fn base64_encode(bytes: &[u8]) -> (r: String)
    ensures
        r@ == base64_of(bytes@),
{
    base64::engine::general_purpose::STANDARD.encode(bytes)
}

/// Whether a character is an ASCII letter or digit.
pub open spec fn is_alphanumeric(c: char) -> bool {
    ('0' <= c <= '9') || ('A' <= c <= 'Z') || ('a' <= c <= 'z')
}

/// Relies on rand's Alphanumeric `sample_string` over `rand::rng()`: 32
/// characters drawn from `A-Z a-z 0-9`.
#[verifier::external_body]
fn random_nonce() -> (r: String)
    ensures
        r@.len() == 32,
        forall|i: int| 0 <= i < r@.len() ==> is_alphanumeric(#[trigger] r@[i]),
{
    rand::distr::Alphanumeric.sample_string(&mut rand::rng(), 32)
}

/// Relies on chrono's Utc::now and DateTime::timestamp: the current Unix
/// time in whole seconds.
#[verifier::external_body]
pub(crate) fn unix_time_now() -> (r: i64) {
    chrono::Utc::now().timestamp()
}

fn push_pair(v: &mut Vec<(String, String)>, k: &str, val: &str)
    ensures
        pairs_view(final(v)@) == pairs_view(old(v)@).push((k@, val@)),
{
    v.push((k.to_owned(), val.to_owned()));
    assert(pairs_view(final(v)@) =~= pairs_view(old(v)@).push((k@, val@)));
}

/// The signature base string of a request: `method&url&params`, each part
/// percent-encoded, the parameters being the six OAuth ones and the query's,
/// sorted.
pub fn signature_base_string(
    method: HttpMethod,
    url_base: &str,
    query: &Vec<(String, String)>,
    consumer_key: &str,
    nonce: &str,
    timestamp: &str,
    token: &str,
) -> (r: String)
    ensures
        r@ == base_string(
            method.spec_name(),
            url_base@,
            pairs_view(query@),
            consumer_key@,
            nonce@,
            timestamp@,
            token@,
        ),
{
    let mut all: Vec<(String, String)> = Vec::new();
    push_pair(&mut all, "oauth_consumer_key", consumer_key);
    push_pair(&mut all, "oauth_nonce", nonce);
    push_pair(&mut all, "oauth_signature_method", "HMAC-SHA1");
    push_pair(&mut all, "oauth_timestamp", timestamp);
    push_pair(&mut all, "oauth_token", token);
    push_pair(&mut all, "oauth_version", "1.0");
    let ghost oauth = pairs_view(all@);
    assert(oauth =~= oauth_pairs(consumer_key@, nonce@, timestamp@, token@));
    let mut i: usize = 0;
    while i < query.len()
        invariant
            i <= query.len(),
            pairs_view(all@) == oauth + pairs_view(query@.take(i as int)),
        decreases query.len() - i,
    {
        push_pair(&mut all, query[i].0.as_str(), query[i].1.as_str());
        i = i + 1;
        assert(pairs_view(query@.take(i as int)) =~= pairs_view(query@.take(i - 1)).push(
            (query@[i - 1].0@, query@[i - 1].1@),
        ));
        assert(pairs_view(all@) =~= oauth + pairs_view(query@.take(i as int)));
    }
    assert(query@.take(query.len() as int) =~= query@);
    let params = normalize_params(&all);
    let mut r = String::from_str(method.name());
    r.append("&");
    let u = url_encode(url_base);
    r.append(u.as_str());
    r.append("&");
    let p = url_encode(params.as_str());
    r.append(p.as_str());
    r
}

/// The signing key: both secrets percent-encoded, joined by `&`.
pub fn signing_key(consumer_secret: &str, token_secret: &str) -> (r: String)
    ensures
        r@ == signing_key_text(consumer_secret@, token_secret@),
{
    let mut r = url_encode(consumer_secret);
    r.append("&");
    let t = url_encode(token_secret);
    r.append(t.as_str());
    r
}

fn append_field(r: &mut String, name: &str, value: &str)
    ensures
        final(r)@ == old(r)@ + header_field(name@, value@),
{
    r.append(name);
    r.append("=\"");
    let v = url_encode(value);
    r.append(v.as_str());
    r.append("\"");
}

/// The Authorization header for the given OAuth values and signature.
pub fn authorization_header(
    consumer_key: &str,
    nonce: &str,
    timestamp: &str,
    token: &str,
    signature: &str,
) -> (r: String)
    ensures
        r@ == authorization_text(consumer_key@, nonce@, timestamp@, token@, signature@),
{
    let mut r = String::from_str("OAuth ");
    append_field(&mut r, "oauth_consumer_key", consumer_key);
    r.append(", ");
    append_field(&mut r, "oauth_nonce", nonce);
    r.append(", ");
    append_field(&mut r, "oauth_signature", signature);
    r.append(", ");
    append_field(&mut r, "oauth_signature_method", "HMAC-SHA1");
    r.append(", ");
    append_field(&mut r, "oauth_timestamp", timestamp);
    r.append(", ");
    append_field(&mut r, "oauth_token", token);
    r.append(", ");
    append_field(&mut r, "oauth_version", "1.0");
    r
}

/// The error for the first missing secret, checked in the order access
/// token, consumer secret, token secret.
pub open spec fn missing_secret(c: CredsView) -> Option<Seq<char>> {
    if c.access_token is None {
        Some("Access token not found"@)
    } else if c.consumer_secret is None {
        Some("Consumer secret not found"@)
    } else if c.token_secret is None {
        Some("Token secret not found"@)
    } else {
        None
    }
}

fn check_secrets(creds: &Creds) -> (r: Result<(), SmugMugError>)
    ensures
        missing_secret(creds@) matches Some(m) ==> (r matches Err(SmugMugError::Auth(e)) && e@
            == m),
        missing_secret(creds@) is None ==> r is Ok,
{
    if creds.access_token.is_none() {
        Err(SmugMugError::Auth(String::from_str("Access token not found")))
    } else if creds.consumer_api_secret.is_none() {
        Err(SmugMugError::Auth(String::from_str("Consumer secret not found")))
    } else if creds.token_secret.is_none() {
        Err(SmugMugError::Auth(String::from_str("Token secret not found")))
    } else {
        Ok(())
    }
}

/// Signs a request for a given nonce and timestamp. Fails with `Auth` exactly
/// when a secret is missing; otherwise the header is a function of its inputs.
pub fn sign_request(
    creds: &Creds,
    method: HttpMethod,
    url_base: &str,
    query: &Vec<(String, String)>,
    nonce: &str,
    timestamp: &str,
) -> (r: Result<String, SmugMugError>)
    ensures
        missing_secret(creds@) matches Some(m) ==> (r matches Err(SmugMugError::Auth(e)) && e@
            == m),
        missing_secret(creds@) is None ==> (r matches Ok(h) && h@ == signed_header(
            creds@,
            method.spec_name(),
            url_base@,
            pairs_view(query@),
            nonce@,
            timestamp@,
        )),
{
    if let Err(e) = check_secrets(creds) {
        return Err(e);
    }
    let token = match &creds.access_token {
        Some(t) => t,
        None => {
            return Err(SmugMugError::Auth(String::from_str("Access token not found")));
        },
    };
    let consumer_secret = match &creds.consumer_api_secret {
        Some(s) => s,
        None => {
            return Err(SmugMugError::Auth(String::from_str("Consumer secret not found")));
        },
    };
    let token_secret = match &creds.token_secret {
        Some(s) => s,
        None => {
            return Err(SmugMugError::Auth(String::from_str("Token secret not found")));
        },
    };
    let base = signature_base_string(
        method,
        url_base,
        query,
        creds.consumer_api_key.as_str(),
        nonce,
        timestamp,
        token.as_str(),
    );
    let key = signing_key(consumer_secret.as_str(), token_secret.as_str());
    let tag = hmac_sha1(key.as_str().as_bytes(), base.as_str().as_bytes());
    let signature = base64_encode(tag.as_slice());
    Ok(
        authorization_header(
            creds.consumer_api_key.as_str(),
            nonce,
            timestamp,
            token.as_str(),
            signature.as_str(),
        ),
    )
}

/// Signs a request to `url` with a fresh nonce and the current time. Fails
/// with `Auth` exactly when a secret is missing, as `sign_request` does, or
/// with `UrlParsing` when `url` does not parse; otherwise the header is the
/// one `sign_request` gives for the URL's base and query pairs, some
/// 32-character alphanumeric nonce and some decimal timestamp.
pub fn create_oauth1_header(creds: &Creds, method: HttpMethod, url: &str) -> (r: Result<
    String,
    SmugMugError,
>)
    ensures
        missing_secret(creds@) matches Some(m) ==> (r matches Err(SmugMugError::Auth(e)) && e@
            == m),
        missing_secret(creds@) is None && (url_without_query(url@) is None || url_query_pairs(
            url@,
        ) is None) ==> r matches Err(SmugMugError::UrlParsing),
        missing_secret(creds@) is None && url_without_query(url@) is Some && url_query_pairs(
            url@,
        ) is Some ==> (r matches Ok(h) && exists|nonce: Seq<char>, t: int|
            #![trigger signed_header(creds@, method.spec_name(), url_without_query(url@)->0, url_query_pairs(url@)->0, nonce, signed_decimal(t))]
            nonce.len() == 32 && h@ == signed_header(
                creds@,
                method.spec_name(),
                url_without_query(url@)->0,
                url_query_pairs(url@)->0,
                nonce,
                signed_decimal(t),
            )),
{
    if let Err(e) = check_secrets(creds) {
        return Err(e);
    }
    let base = match strip_query(url) {
        Ok(b) => b,
        Err(e) => {
            return Err(url_error(e));
        },
    };
    let query = match query_pairs(url) {
        Ok(q) => q,
        Err(e) => {
            return Err(url_error(e));
        },
    };
    let now = unix_time_now();
    let timestamp = signed_decimal_string(now);
    let nonce = random_nonce();
    let r = sign_request(creds, method, base.as_str(), &query, nonce.as_str(), timestamp.as_str());
    proof {
        if r is Ok {
            let h = r->Ok_0;
            let t = now as int;
            assert(nonce@.len() == 32 && h@ == signed_header(
                creds@,
                method.spec_name(),
                url_without_query(url@)->0,
                url_query_pairs(url@)->0,
                nonce@,
                signed_decimal(t),
            ));
        }
    }
    r
}

/// Signing is deterministic: with the same credentials, method, URL, query,
/// nonce and timestamp, two signings give the same header.
pub proof fn lemma_signing_deterministic(
    c1: CredsView,
    c2: CredsView,
    method: Seq<char>,
    url_base: Seq<char>,
    query: Seq<TextPair>,
    nonce: Seq<char>,
    timestamp: Seq<char>,
)
    requires
        c1 == c2,
    ensures
        signed_header(c1, method, url_base, query, nonce, timestamp) == signed_header(
            c2,
            method,
            url_base,
            query,
            nonce,
            timestamp,
        ),
{
}

/// Every signed header starts with `OAuth ` and then lists exactly the six
/// OAuth parameters and the signature, each `name="value"`, in key order.
pub proof fn lemma_header_shape(
    c: CredsView,
    method: Seq<char>,
    url_base: Seq<char>,
    query: Seq<TextPair>,
    nonce: Seq<char>,
    timestamp: Seq<char>,
)
    ensures
        signed_header(c, method, url_base, query, nonce, timestamp).subrange(0, 6) == "OAuth "@,
        exists|signature: Seq<char>|
            #![trigger authorization_text(c.consumer_key, nonce, timestamp, c.access_token->0, signature)]
            signed_header(c, method, url_base, query, nonce, timestamp) == authorization_text(
                c.consumer_key,
                nonce,
                timestamp,
                c.access_token->0,
                signature,
            ),
{
    reveal_strlit("OAuth ");
    let h = signed_header(c, method, url_base, query, nonce, timestamp);
    let rest = h.subrange(6, h.len() as int);
    assert(h =~= "OAuth "@ + rest);
    assert(h.subrange(0, 6) =~= "OAuth "@);
    let sig = signature_text(
        signing_key_text(c.consumer_secret->0, c.token_secret->0),
        base_string(method, url_base, query, c.consumer_key, nonce, timestamp, c.access_token->0),
    );
    assert(h == authorization_text(c.consumer_key, nonce, timestamp, c.access_token->0, sig));
}

} // verus!
