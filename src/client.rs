//! The client configuration (endpoint and credentials), the authentication
//! header set, and the preparation of a signed request.

use vstd::prelude::*;
use vstd::utf8::{encode_utf8, is_ascii_chars, is_ascii_chars_encode_utf8};
use crate::decimal::{decimal_of, decimal_text, is_digit, lemma_decimal_digits};
use crate::error::ConfigError;
use crate::query::str_opt_view;
use crate::signing::{
    base64_decoded, decode_secret, is_base64_char, is_base64_text, prehash, prehash_of, sign_with_key,
    signature_for,
};

verus! {

/// Root of the production endpoint.
pub const COINBASE_API_URL: &'static str = "https://api.pro.coinbase.com";

/// Root of the sandbox endpoint.
pub const COINBASE_SANDBOX_API_URL: &'static str = "https://api-public.sandbox.pro.coinbase.com";

/// Value of the fixed identifying header.
pub const USER_AGENT: &'static str = "coinbase-client";

pub const CB_ACCESS_KEY: &'static str = "cb-access-key";

pub const CB_ACCESS_SIGN: &'static str = "cb-access-sign";

pub const CB_ACCESS_TIMESTAMP: &'static str = "cb-access-timestamp";

pub const CB_ACCESS_PASSPHRASE: &'static str = "cb-access-passphrase";

/// A byte that an HTTP header value may hold.
pub open spec fn header_byte_ok(b: u8) -> bool {
    (b >= 32 && b != 127) || b == 9
}

/// Text whose UTF-8 bytes may all stand in an HTTP header value.
pub open spec fn header_value_ok(s: Seq<char>) -> bool {
    forall|i: int| 0 <= i < encode_utf8(s).len() ==> header_byte_ok(#[trigger] encode_utf8(s)[i])
}

/// Relies on `HeaderValue::from_str` of the http crate, as re-exported by
/// reqwest: it accepts a string exactly when each of its bytes is a tab, or
/// at least 32 and not 127.
#[verifier::external_body]
fn header_value_accepted(s: &str) -> (r: bool)
    ensures
        r == header_value_ok(s@),
{
    reqwest::header::HeaderValue::from_str(s).is_ok()
}

pub open spec fn visible_ascii(c: char) -> bool {
    ' ' <= c && c <= '~'
}

/// Visible ASCII text may stand in a header value.
pub proof fn lemma_visible_ascii_header_ok(s: Seq<char>)
    requires
        forall|i: int| 0 <= i < s.len() ==> visible_ascii(#[trigger] s[i]),
    ensures
        header_value_ok(s),
{
    assert(is_ascii_chars(s));
    is_ascii_chars_encode_utf8(s);
    assert forall|i: int| 0 <= i < encode_utf8(s).len() implies header_byte_ok(
        #[trigger] encode_utf8(s)[i],
    ) by {
        assert(s[i] as u8 == encode_utf8(s)[i]);
    }
}

/// HTTP method of a request.
#[derive(Clone, Copy, Debug, PartialEq, Eq, Structural)]
pub enum Method {
    Get,
    Post,
    Delete,
}

pub open spec fn method_name(m: Method) -> Seq<char> {
    match m {
        Method::Get => "GET"@,
        Method::Post => "POST"@,
        Method::Delete => "DELETE"@,
    }
}

impl Method {
    pub fn as_str(&self) -> (r: &'static str)
        ensures
            r@ == method_name(*self),
    {
        match self {
            Method::Get => "GET",
            Method::Post => "POST",
            Method::Delete => "DELETE",
        }
    }
}

pub open spec fn opt_string_view(s: Option<String>) -> Option<Seq<char>> {
    match s {
        Some(t) => Some(t@),
        None => None,
    }
}

/// The authentication header set of one request.
pub struct AccessHeaders {
    pub user_agent: String,
    pub key: String,
    pub signature: String,
    pub timestamp: String,
    pub passphrase: String,
}

impl AccessHeaders {
    /// Every value may stand in an HTTP header.
    pub open spec fn all_valid(&self) -> bool {
        &&& header_value_ok(self.user_agent@)
        &&& header_value_ok(self.key@)
        &&& header_value_ok(self.signature@)
        &&& header_value_ok(self.timestamp@)
        &&& header_value_ok(self.passphrase@)
    }
}

/// A request ready to be sent: the full URL, the headers, and the body
/// exactly as it was signed.
pub struct PreparedRequest {
    pub method: Method,
    pub url: String,
    pub headers: AccessHeaders,
    pub body: Option<String>,
}

/// Credentials and endpoint; read-only once built.
pub struct PrivateClient {
    secret: String,
    passphrase: String,
    key: String,
    url: String,
}

impl PrivateClient {
    pub closed spec fn spec_secret(&self) -> Seq<char> {
        self.secret@
    }

    pub closed spec fn spec_passphrase(&self) -> Seq<char> {
        self.passphrase@
    }

    pub closed spec fn spec_key(&self) -> Seq<char> {
        self.key@
    }

    pub closed spec fn spec_url(&self) -> Seq<char> {
        self.url@
    }

    /// A client of the production endpoint.
    pub fn new(secret: String, passphrase: String, key: String) -> (r: Self)
        ensures
            r.spec_secret() == secret@,
            r.spec_passphrase() == passphrase@,
            r.spec_key() == key@,
            r.spec_url() == COINBASE_API_URL@,
    {
        PrivateClient { secret, passphrase, key, url: String::from_str(COINBASE_API_URL) }
    }

    /// A client of the sandbox endpoint.
    pub fn new_sandbox(secret: String, passphrase: String, key: String) -> (r: Self)
        ensures
            r.spec_secret() == secret@,
            r.spec_passphrase() == passphrase@,
            r.spec_key() == key@,
            r.spec_url() == COINBASE_SANDBOX_API_URL@,
    {
        PrivateClient {
            secret,
            passphrase,
            key,
            url: String::from_str(COINBASE_SANDBOX_API_URL),
        }
    }

    /// The base URL of the endpoint.
    pub fn base_url(&self) -> (r: &str)
        ensures
            r@ == self.spec_url(),
    {
        self.url.as_str()
    }

    /// What `sign_message` returns for these arguments.
    pub open spec fn signs(
        &self,
        url: Seq<char>,
        body: Option<Seq<char>>,
        timestamp: Seq<char>,
        method: Seq<char>,
        r: Option<String>,
    ) -> bool {
        opt_string_view(r) == signature_for(
            self.spec_secret(),
            prehash_of(timestamp, method, url, body),
        )
    }

    /// The signature of a request; `None` where the secret is not base64.
    pub fn sign_message(&self, url: &str, body: Option<&str>, timestamp: &str, meathod: &str) -> (r:
        Option<String>)
        ensures
            self.signs(url@, str_opt_view(body), timestamp@, meathod@, r),
            r matches Some(sig) ==> is_base64_text(sig@),
    {
        let message = prehash(url, body, timestamp, meathod);
        match decode_secret(self.secret.as_str()) {
            Some(key) => Some(sign_with_key(key.as_slice(), message.as_str())),
            None => None,
        }
    }

    /// The configuration error that stops this client from building headers,
    /// in the order they are found: secret, then key, then passphrase.
    pub open spec fn config_error(&self) -> Option<ConfigError> {
        if base64_decoded(self.spec_secret()) is None {
            Some(ConfigError::SecretNotBase64)
        } else if !header_value_ok(self.spec_key()) {
            Some(ConfigError::InvalidKey)
        } else if !header_value_ok(self.spec_passphrase()) {
            Some(ConfigError::InvalidPassphrase)
        } else {
            None
        }
    }

    /// The headers of a request to `url` with `body` and `method`, signed at
    /// `now` seconds since the epoch. The timestamp header is the very text
    /// that went into the signed message.
    pub open spec fn headers_for(
        &self,
        url: Seq<char>,
        body: Option<Seq<char>>,
        method: Seq<char>,
        now: u64,
        h: AccessHeaders,
    ) -> bool {
        &&& h.user_agent@ == USER_AGENT@
        &&& h.key@ == self.spec_key()
        &&& h.passphrase@ == self.spec_passphrase()
        &&& h.timestamp@ == decimal_of(now as nat)
        &&& signature_for(self.spec_secret(), prehash_of(h.timestamp@, method, url, body)) == Some(
            h.signature@,
        )
        &&& h.all_valid()
    }

    /// The authentication headers of a request, signed at `now_secs`
    /// seconds since the epoch.
    pub fn access_headers(&self, url: &str, body: Option<&str>, meathod: &str, now_secs: u64) -> (r:
        Result<AccessHeaders, ConfigError>)
        ensures
            match r {
                Ok(h) => self.config_error() is None && self.headers_for(
                    url@,
                    str_opt_view(body),
                    meathod@,
                    now_secs,
                    h,
                ),
                Err(e) => self.config_error() == Some(e),
            },
    {
        let timestamp = decimal_text(now_secs);
        let signature = match self.sign_message(url, body, timestamp.as_str(), meathod) {
            Some(s) => s,
            None => {
                return Err(ConfigError::SecretNotBase64);
            },
        };
        if !header_value_accepted(self.key.as_str()) {
            return Err(ConfigError::InvalidKey);
        }
        if !header_value_accepted(self.passphrase.as_str()) {
            return Err(ConfigError::InvalidPassphrase);
        }
        let user_agent = String::from_str(USER_AGENT);
        proof {
            reveal_strlit("coinbase-client");
            lemma_visible_ascii_header_ok(user_agent@);
            lemma_decimal_digits(now_secs as nat);
            assert forall|i: int| 0 <= i < timestamp@.len() implies visible_ascii(
                #[trigger] timestamp@[i],
            ) by {
                assert(is_digit(timestamp@[i]));
            }
            lemma_visible_ascii_header_ok(timestamp@);
            assert forall|i: int| 0 <= i < signature@.len() implies visible_ascii(
                #[trigger] signature@[i],
            ) by {
                assert(is_base64_char(signature@[i]));
            }
            lemma_visible_ascii_header_ok(signature@);
        }
        Ok(
            AccessHeaders {
                user_agent,
                key: self.key.clone(),
                signature,
                timestamp,
                passphrase: self.passphrase.clone(),
            },
        )
    }

    /// What `prepare_request` returns for these arguments.
    pub open spec fn prepared(
        &self,
        method: Method,
        path: Seq<char>,
        body: Option<String>,
        now: u64,
        r: Result<PreparedRequest, ConfigError>,
    ) -> bool {
        match r {
            Ok(p) => {
                &&& self.config_error() is None
                &&& p.method == method
                &&& p.url@ == self.spec_url() + path
                &&& p.body == body
                &&& self.headers_for(path, opt_string_view(body), method_name(method), now, p.headers)
            },
            Err(e) => self.config_error() == Some(e),
        }
    }

    /// Builds the request to `path` (which holds any query string) with the
    /// body text that will be sent, signed at `now_secs` seconds since the
    /// epoch.
    pub fn prepare_request(&self, method: Method, path: &str, body: Option<String>, now_secs: u64) -> (r:
        Result<PreparedRequest, ConfigError>)
        ensures
            self.prepared(method, path@, body, now_secs, r),
    {
        let headers = match &body {
            Some(b) => self.access_headers(path, Some(b.as_str()), method.as_str(), now_secs),
            None => self.access_headers(path, None, method.as_str(), now_secs),
        };
        match headers {
            Err(e) => Err(e),
            Ok(h) => {
                let mut url = self.url.clone();
                url.append(path);
                Ok(PreparedRequest { method, url, headers: h, body })
            },
        }
    }
}

/// Signing is deterministic: two clients with the same secret sign the same
/// path, body, timestamp and method alike, whatever their other settings.
pub proof fn lemma_sign_deterministic(
    c1: PrivateClient,
    c2: PrivateClient,
    url: Seq<char>,
    body: Option<Seq<char>>,
    timestamp: Seq<char>,
    method: Seq<char>,
    r1: Option<String>,
    r2: Option<String>,
)
    requires
        c1.spec_secret() == c2.spec_secret(),
        c1.signs(url, body, timestamp, method, r1),
        c2.signs(url, body, timestamp, method, r2),
    ensures
        opt_string_view(r1) == opt_string_view(r2),
{
}

/// The timestamp header of a request is the text that its signature covers,
/// and it is the decimal text of the time the request was signed at.
pub proof fn lemma_timestamp_header_is_signed(
    c: PrivateClient,
    url: Seq<char>,
    body: Option<Seq<char>>,
    method: Seq<char>,
    now: u64,
    h: AccessHeaders,
)
    requires
        c.headers_for(url, body, method, now, h),
    ensures
        h.timestamp@ == decimal_of(now as nat),
        c.signs(url, body, h.timestamp@, method, Some(h.signature)),
{
}

/// A prepared request sends exactly the body that was handed to it, and its
/// signature covers that same text: no re-serialisation stands between what
/// is signed and what is sent.
pub proof fn lemma_sent_body_is_signed(
    c: PrivateClient,
    method: Method,
    path: Seq<char>,
    body: Option<String>,
    now: u64,
    p: PreparedRequest,
)
    requires
        c.prepared(method, path, body, now, Ok(p)),
    ensures
        p.body == body,
        c.signs(path, opt_string_view(p.body), p.headers.timestamp@, method_name(p.method), Some(p.headers.signature)),
{
}

} // verus!
