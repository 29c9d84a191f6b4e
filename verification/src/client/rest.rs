//! Credential custody and the signing dispatcher.
use crate::endpoints::deposit::DepositHandler;
use crate::endpoints::sub_account::SubAccHander;
use crate::endpoints::trades::SpotHandler;
use crate::endpoints::transfer::TransferHandler;
use crate::endpoints::withdrawals::WithdrawHandler;
use crate::utils::auth::{
    encrypt_pass, encrypt_prehash, is_base64_char, is_base64_text, prehash, signature,
};
use crate::utils::errors::{KucoinErrors, KucoinResults};
use crate::utils::text::{is_decimal_text, lemma_decimal_digits_are_digits};
use crate::utils::time::get_timestamp;
use reqwest::header::HeaderValue;
use reqwest::Method;
use secrecy::{ExposeSecret, SecretString};
use vstd::prelude::*;
use vstd::utf8::{encode_utf8, is_ascii_chars, is_ascii_chars_encode_utf8};

verus! {

/// A string behind the guard of the `secrecy` crate: it is wiped from memory
/// when dropped and has no way of being printed or compared.  Verus sees
/// nothing inside; `sealed_text` names what it guards.
#[verifier::external_body]
pub struct Sealed {
    inner: SecretString,
}

/// The text that a sealed string guards.
pub uninterp spec fn sealed_text(sealed: Sealed) -> Seq<char>;

/// Wraps `text` with `Secret::new` of the `secrecy` crate.  Assumed: the
/// secret guards exactly the text it was made from.
#[verifier::external_body]
fn seal(text: &str) -> (sealed: Sealed)
    ensures
        sealed_text(sealed) == text@,
{
    Sealed { inner: SecretString::new(text.into()) }
}

/// Calls `ExposeSecret::expose_secret` of the `secrecy` crate.  Assumed: the
/// reference returned is to the guarded text.
#[verifier::external_body]
fn expose(sealed: &Sealed) -> (text: &String)
    ensures
        text@ == sealed_text(*sealed),
{
    sealed.inner.expose_secret()
}

/// Calls `Clone::clone` of `Secret` in the `secrecy` crate, which clones the
/// guarded string.  Assumed: the copy guards the same text.
#[verifier::external_body]
fn reseal(sealed: &Sealed) -> (copy: Sealed)
    ensures
        sealed_text(copy) == sealed_text(*sealed),
{
    Sealed { inner: sealed.inner.clone() }
}

/// What a set of credentials holds, as plain text.
pub struct CredentialTexts {
    pub key: Seq<char>,
    pub secret: Seq<char>,
    pub passphrase: Seq<char>,
}

/// Holds API authentication secrets (key, secret, passphrase).
pub struct Credentials {
    key: Sealed,
    secret: Sealed,
    passphrase: Sealed,
}

impl View for Credentials {
    type V = CredentialTexts;

    closed spec fn view(&self) -> CredentialTexts {
        CredentialTexts {
            key: sealed_text(self.key),
            secret: sealed_text(self.secret),
            passphrase: sealed_text(self.passphrase),
        }
    }
}

impl Credentials {
    /// Create a new `Credentials` instance.
    pub fn new(key: &str, secret: &str, passphrase: &str) -> (credentials: Self)
        ensures
            credentials@ == (CredentialTexts {
                key: key@,
                secret: secret@,
                passphrase: passphrase@,
            }),
    {
        Credentials { key: seal(key), secret: seal(secret), passphrase: seal(passphrase) }
    }
}

impl Clone for Credentials {
    fn clone(&self) -> (copy: Self)
        ensures
            copy@ == self@,
    {
        Credentials {
            key: reseal(&self.key),
            secret: reseal(&self.secret),
            passphrase: reseal(&self.passphrase),
        }
    }
}

/// Bytes that a header value may hold: horizontal tab and everything from
/// the space on, but for DEL.
pub open spec fn is_header_value_byte(byte: u8) -> bool {
    byte >= 32 && byte != 127 || byte == 9
}

/// Text whose UTF-8 bytes may all stand in a header value.
pub open spec fn is_header_value(text: Seq<char>) -> bool {
    forall|i: int|
        0 <= i < encode_utf8(text).len() ==> is_header_value_byte(#[trigger] encode_utf8(text)[i])
}

/// Bytes of an HTTP token: letters, digits and
/// ``! # $ % & ' * + - . ^ _ ` | ~``.
pub open spec fn is_token_byte(byte: u8) -> bool {
    byte == 33 || (35 <= byte && byte <= 39) || byte == 42 || byte == 43 || byte == 45 || byte
        == 46 || (48 <= byte && byte <= 57) || (65 <= byte && byte <= 90) || (94 <= byte && byte
        <= 122) || byte == 124 || byte == 126
}

/// Text that is an HTTP method: a non-empty token.  Methods are
/// case-sensitive, and methods beyond the standard ones are admitted.
pub open spec fn is_http_method(text: Seq<char>) -> bool {
    &&& encode_utf8(text).len() > 0
    &&& forall|i: int|
        0 <= i < encode_utf8(text).len() ==> is_token_byte(#[trigger] encode_utf8(text)[i])
}

/// Calls `HeaderValue::from_str` of the `http` crate, as `reqwest` exports
/// it.  Assumed: the text is accepted exactly when each of its bytes is a
/// tab or at least 32 and not 127.
#[verifier::external_body]
fn header_value_accepts(text: &str) -> (accepted: bool)
    ensures
        accepted == is_header_value(text@),
{
    HeaderValue::from_str(text).is_ok()
}

/// Calls `Method::from_bytes` of the `http` crate, as `reqwest` exports it,
/// which is what parsing a method from a string does.  Assumed: the text is
/// accepted exactly when it is a non-empty run of token bytes.
#[verifier::external_body]
fn method_parses(text: &str) -> (accepted: bool)
    ensures
        accepted == is_http_method(text@),
{
    Method::from_bytes(text.as_bytes()).is_ok()
}

/// True when `method` is an HTTP method that a request can be sent with.
pub fn is_valid_method(method: &str) -> (valid: bool)
    ensures
        valid == is_http_method(method@),
{
    method_parses(method)
}

/// ASCII text made of upper-case letters is an HTTP method.
pub proof fn lemma_upper_case_word_is_method(text: Seq<char>)
    requires
        text.len() > 0,
        forall|i: int| 0 <= i < text.len() ==> 'A' <= #[trigger] text[i] <= 'Z',
    ensures
        is_http_method(text),
{
    assert(is_ascii_chars(text));
    is_ascii_chars_encode_utf8(text);
    assert forall|i: int| 0 <= i < encode_utf8(text).len() implies is_token_byte(
        #[trigger] encode_utf8(text)[i],
    ) by {
        let c = text[i];
        assert('A' <= c <= 'Z');
        assert(c as u8 == encode_utf8(text)[i]);
    }
}

/// Base64 text may stand in a header value.
pub proof fn lemma_base64_text_is_header_value(text: Seq<char>)
    requires
        is_base64_text(text),
    ensures
        is_header_value(text),
{
    assert forall|i: int| 0 <= i < text.len() implies '\0' <= #[trigger] text[i] <= '\u{7f}' by {
        assert(is_base64_char(text[i]));
    }
    assert(is_ascii_chars(text));
    is_ascii_chars_encode_utf8(text);
    assert forall|i: int| 0 <= i < encode_utf8(text).len() implies is_header_value_byte(
        #[trigger] encode_utf8(text)[i],
    ) by {
        let c = text[i];
        assert(is_base64_char(c));
        assert(c as u8 == encode_utf8(text)[i]);
    }
}

/// A decimal numeral may stand in a header value.
pub proof fn lemma_decimal_text_is_header_value(text: Seq<char>)
    requires
        is_decimal_text(text),
    ensures
        is_header_value(text),
{
    let value = choose|value: nat|
        value <= u128::MAX && text == #[trigger] crate::utils::text::decimal_digits(value);
    lemma_decimal_digits_are_digits(value);
    assert forall|i: int| 0 <= i < text.len() implies '\0' <= #[trigger] text[i] <= '\u{7f}' by {
        assert('0' <= text[i] <= '9');
    }
    assert(is_ascii_chars(text));
    is_ascii_chars_encode_utf8(text);
    assert forall|i: int| 0 <= i < encode_utf8(text).len() implies is_header_value_byte(
        #[trigger] encode_utf8(text)[i],
    ) by {
        let c = text[i];
        assert('0' <= c <= '9');
        assert(c as u8 == encode_utf8(text)[i]);
    }
}

/// The values of the authentication headers, as plain text.
pub struct HeaderTexts {
    pub content_type: Seq<char>,
    pub key: Seq<char>,
    pub signature: Seq<char>,
    pub timestamp: Seq<char>,
    pub passphrase: Seq<char>,
    pub key_version: Seq<char>,
}

/// The headers that authenticate one request.  They are valid for the
/// timestamp, method, path and body they were computed from and for nothing
/// else.
pub struct SignedHeaders {
    /// `Content-Type`
    pub content_type: String,
    /// `KC-API-KEY`
    pub key: String,
    /// `KC-API-SIGN`
    pub signature: String,
    /// `KC-API-TIMESTAMP`
    pub timestamp: String,
    /// `KC-API-PASSPHRASE`
    pub passphrase: String,
    /// `KC-API-KEY-VERSION`
    pub key_version: String,
}

impl View for SignedHeaders {
    type V = HeaderTexts;

    open spec fn view(&self) -> HeaderTexts {
        HeaderTexts {
            content_type: self.content_type@,
            key: self.key@,
            signature: self.signature@,
            timestamp: self.timestamp@,
            passphrase: self.passphrase@,
            key_version: self.key_version@,
        }
    }
}

/// The headers of the request `(method, endpoint, payload)` signed at
/// `timestamp` with `credentials`.
pub open spec fn signed_headers(
    credentials: CredentialTexts,
    timestamp: Seq<char>,
    method: Seq<char>,
    endpoint: Seq<char>,
    payload: Seq<char>,
) -> HeaderTexts {
    HeaderTexts {
        content_type: "application/json"@,
        key: credentials.key,
        signature: signature(credentials.secret, prehash(timestamp, method, endpoint, payload)),
        timestamp: timestamp,
        passphrase: signature(credentials.secret, credentials.passphrase),
        key_version: "3"@,
    }
}

/// The names of the headers, in the order in which `pairs` lists them.
pub open spec fn header_names() -> Seq<Seq<char>> {
    seq![
        "content-type"@,
        "KC-API-KEY"@,
        "KC-API-SIGN"@,
        "KC-API-TIMESTAMP"@,
        "KC-API-PASSPHRASE"@,
        "KC-API-KEY-VERSION"@,
    ]
}

impl SignedHeaders {
    /// The headers as name and value, in the order in which they are set.
    pub fn pairs(&self) -> (list: Vec<(String, String)>)
        ensures
            list@.len() == 6,
            forall|i: int| 0 <= i < 6 ==> (#[trigger] list@[i]).0@ == header_names()[i],
            list@[0].1@ == self@.content_type,
            list@[1].1@ == self@.key,
            list@[2].1@ == self@.signature,
            list@[3].1@ == self@.timestamp,
            list@[4].1@ == self@.passphrase,
            list@[5].1@ == self@.key_version,
    {
        let mut list: Vec<(String, String)> = Vec::new();
        list.push((String::from_str("content-type"), self.content_type.clone()));
        list.push((String::from_str("KC-API-KEY"), self.key.clone()));
        list.push((String::from_str("KC-API-SIGN"), self.signature.clone()));
        list.push((String::from_str("KC-API-TIMESTAMP"), self.timestamp.clone()));
        list.push((String::from_str("KC-API-PASSPHRASE"), self.passphrase.clone()));
        list.push((String::from_str("KC-API-KEY-VERSION"), self.key_version.clone()));
        list
    }
}

/// What an endpoint hands to the dispatcher: a method, a path with its query
/// string, and a serialized body, empty when the request has none.
#[derive(Debug, Clone)]
pub struct RequestEnvelope {
    pub method: String,
    pub path: String,
    pub body: String,
}

/// A request ready to be sent.
pub struct SignedRequest {
    pub method: String,
    pub url: String,
    pub headers: SignedHeaders,
    pub body: String,
}

impl SignedRequest {
    /// True when this is the request `(method, endpoint, payload)` to the
    /// host `base_link`, signed at `timestamp` with `credentials`.
    pub open spec fn is_signed(
        &self,
        credentials: CredentialTexts,
        base_link: Seq<char>,
        timestamp: Seq<char>,
        method: Seq<char>,
        endpoint: Seq<char>,
        payload: Seq<char>,
    ) -> bool {
        &&& self.method@ == method
        &&& self.url@ == base_link + endpoint
        &&& self.body@ == payload
        &&& self.headers@ == signed_headers(credentials, timestamp, method, endpoint, payload)
    }
}

/// The main client for interacting with the KuCoin API: it signs requests
/// and judges responses; sending is left to the caller's transport.
pub struct KuCoinClient {
    credentials: Credentials,
    /// The API host URL (e.g., https://api.kucoin.com).
    pub base_link: String,
}

impl Clone for KuCoinClient {
    fn clone(&self) -> (copy: Self)
        ensures
            copy.credentials()@ == self.credentials()@,
            copy.host() == self.host(),
    {
        KuCoinClient { credentials: self.credentials.clone(), base_link: self.base_link.clone() }
    }
}

impl KuCoinClient {
    /// The credentials that requests are signed with.
    pub closed spec fn credentials(&self) -> Credentials {
        self.credentials
    }

    /// The host that requests are addressed to.
    pub closed spec fn host(&self) -> Seq<char> {
        self.base_link@
    }

    /// True when `request` is what signing `(method, endpoint, payload)`
    /// with this client may give: a request signed at some time, which takes
    /// a key that may stand in a header; the error of a key that may not; or
    /// the error of a clock set before the epoch.
    pub open spec fn signed_now(
        &self,
        request: KucoinResults<SignedRequest>,
        method: Seq<char>,
        endpoint: Seq<char>,
        payload: Seq<char>,
    ) -> bool {
        match request {
            Ok(signed) => is_header_value(self.credentials()@.key) && exists|timestamp: Seq<char>|
                is_decimal_text(timestamp) && #[trigger] signed.is_signed(
                    self.credentials()@,
                    self.host(),
                    timestamp,
                    method,
                    endpoint,
                    payload,
                ),
            Err(KucoinErrors::InvalidHeaderValue) => !is_header_value(self.credentials()@.key),
            Err(KucoinErrors::ClockBeforeEpoch) => true,
            Err(_) => false,
        }
    }

    /// A client for the production host with the given credentials.
    pub fn new(credentials: Credentials) -> (client: Self)
        ensures
            client.credentials() == credentials,
            client.host() == "https://api.kucoin.com"@,
    {
        KuCoinClient { credentials, base_link: String::from_str("https://api.kucoin.com") }
    }

    /// Replaces the credentials; every later request is signed with the new
    /// ones.
    pub fn set_credentials(&mut self, credentials: Credentials) -> (client: &mut Self)
        ensures
            client.credentials() == credentials,
            client.host() == old(self).host(),
            *final(self) == *final(client),
    {
        self.credentials = credentials;
        self
    }

    /// The authentication headers of the request `(method, endpoint,
    /// payload)` for the given timestamp.
    ///
    /// Fails exactly when the API key or the timestamp holds a byte that no
    /// header value may hold.
    pub fn headers_at(
        &self,
        timestamp: &str,
        payload: &str,
        method: &str,
        endpoint: &str,
    ) -> (headers: KucoinResults<SignedHeaders>)
        ensures
            is_header_value(self.credentials()@.key) && is_header_value(timestamp@) ==> (headers
                matches Ok(set) && set@ == signed_headers(
                self.credentials()@,
                timestamp@,
                method@,
                endpoint@,
                payload@,
            )),
            !(is_header_value(self.credentials()@.key) && is_header_value(timestamp@)) ==> headers
                == Err::<SignedHeaders, KucoinErrors>(KucoinErrors::InvalidHeaderValue),
    {
        let sign = encrypt_prehash(
            expose(&self.credentials.secret).as_str(),
            timestamp,
            method,
            endpoint,
            payload,
        );
        let passphrase = encrypt_pass(
            expose(&self.credentials.secret).clone(),
            expose(&self.credentials.passphrase).clone(),
        );
        let key = expose(&self.credentials.key);
        proof {
            lemma_base64_text_is_header_value(sign@);
            lemma_base64_text_is_header_value(passphrase@);
        }
        if !header_value_accepts(key.as_str()) || !header_value_accepts(sign.as_str())
            || !header_value_accepts(timestamp) || !header_value_accepts(passphrase.as_str()) {
            return Err(KucoinErrors::InvalidHeaderValue);
        }
        Ok(
            SignedHeaders {
                content_type: String::from_str("application/json"),
                key: key.clone(),
                signature: sign,
                timestamp: String::from_str(timestamp),
                passphrase,
                key_version: String::from_str("3"),
            },
        )
    }

    /// Builds the headers with the signature and the signed passphrase for
    /// the current time.
    ///
    /// The clock is read first; with a usable clock the call fails exactly
    /// when the API key holds a byte that no header value may hold.
    pub fn get_headers(
        &self,
        payload: &str,
        method: &str,
        endpoint: &str,
    ) -> (headers: KucoinResults<SignedHeaders>)
        ensures
            match headers {
                Ok(set) => is_header_value(self.credentials()@.key) && exists|
                    timestamp: Seq<char>,
                |
                    is_decimal_text(timestamp) && set@ == #[trigger] signed_headers(
                        self.credentials()@,
                        timestamp,
                        method@,
                        endpoint@,
                        payload@,
                    ),
                Err(KucoinErrors::InvalidHeaderValue) => !is_header_value(self.credentials()@.key),
                Err(KucoinErrors::ClockBeforeEpoch) => true,
                Err(_) => false,
            },
    {
        match get_timestamp() {
            None => Err(KucoinErrors::ClockBeforeEpoch),
            Some(timestamp) => {
                proof {
                    lemma_decimal_text_is_header_value(timestamp@);
                }
                self.headers_at(timestamp.as_str(), payload, method, endpoint)
            },
        }
    }

    /// The signed request `(method, payload, endpoint)` for the given
    /// timestamp: the URL is the host followed by the path, the body is the
    /// payload as it is.
    ///
    /// Fails exactly when the API key or the timestamp holds a byte that no
    /// header value may hold.
    pub fn sign_request_at(
        &self,
        timestamp: &str,
        method: &str,
        payload: &str,
        endpoint: &str,
    ) -> (request: KucoinResults<SignedRequest>)
        requires
            is_http_method(method@),
        ensures
            is_header_value(self.credentials()@.key) && is_header_value(timestamp@) ==> (request
                matches Ok(signed) && signed.is_signed(
                self.credentials()@,
                self.host(),
                timestamp@,
                method@,
                endpoint@,
                payload@,
            )),
            !(is_header_value(self.credentials()@.key) && is_header_value(timestamp@)) ==> request
                == Err::<SignedRequest, KucoinErrors>(KucoinErrors::InvalidHeaderValue),
    {
        match self.headers_at(timestamp, payload, method, endpoint) {
            Err(error) => Err(error),
            Ok(headers) => Ok(
                SignedRequest {
                    method: String::from_str(method),
                    url: self.base_link.clone().concat(endpoint),
                    headers,
                    body: String::from_str(payload),
                },
            ),
        }
    }

    /// The signed request `(method, payload, endpoint)` for the current
    /// time.  The timestamp is taken immediately before signing.
    ///
    /// With a usable clock the call fails exactly when the API key holds a
    /// byte that no header value may hold.
    pub fn sign_request(
        &self,
        method: &str,
        payload: &str,
        endpoint: &str,
    ) -> (request: KucoinResults<SignedRequest>)
        requires
            is_http_method(method@),
        ensures
            self.signed_now(request, method@, endpoint@, payload@),
    {
        match get_timestamp() {
            None => Err(KucoinErrors::ClockBeforeEpoch),
            Some(timestamp) => {
                proof {
                    lemma_decimal_text_is_header_value(timestamp@);
                }
                let request = self.sign_request_at(timestamp.as_str(), method, payload, endpoint);
                proof {
                    if request is Ok {
                        assert(request->Ok_0.is_signed(
                            self.credentials()@,
                            self.host(),
                            timestamp@,
                            method@,
                            endpoint@,
                            payload@,
                        ));
                    }
                }
                request
            },
        }
    }

    /// Handler of the deposit endpoints.
    pub fn deposit(&self) -> (handler: DepositHandler<'_>)
        ensures
            handler.client == self,
    {
        DepositHandler { client: self }
    }

    /// Handler of the spot trading endpoints.
    pub fn spot(&self) -> (handler: SpotHandler<'_>)
        ensures
            handler.client == self,
    {
        SpotHandler { client: self }
    }

    /// Handler of the transfer endpoint.
    pub fn transfer(&self) -> (handler: TransferHandler<'_>)
        ensures
            handler.client == self,
    {
        TransferHandler { client: self }
    }

    /// Handler of the withdrawal endpoint.
    pub fn withdraw(&self) -> (handler: WithdrawHandler<'_>)
        ensures
            handler.client == self,
    {
        WithdrawHandler { client: self }
    }

    /// Handler of the sub-account endpoints.
    pub fn sub_acc(&self) -> (handler: SubAccHander<'_>)
        ensures
            handler.client == self,
    {
        SubAccHander { client: self }
    }

    /// Signs what an endpoint produced, for the current time.
    pub fn sign_envelope(
        &self,
        envelope: &RequestEnvelope,
    ) -> (request: KucoinResults<SignedRequest>)
        requires
            is_http_method(envelope.method@),
        ensures
            self.signed_now(request, envelope.method@, envelope.path@, envelope.body@),
    {
        self.sign_request(envelope.method.as_str(), envelope.body.as_str(), envelope.path.as_str())
    }
}

/// The signed passphrase is made of the secret and the passphrase alone:
/// it is the same for every request, every time of signing and every key.
pub proof fn lemma_passphrase_is_independent_of_request(
    first: CredentialTexts,
    timestamp1: Seq<char>,
    method1: Seq<char>,
    endpoint1: Seq<char>,
    payload1: Seq<char>,
    second: CredentialTexts,
    timestamp2: Seq<char>,
    method2: Seq<char>,
    endpoint2: Seq<char>,
    payload2: Seq<char>,
)
    requires
        first.secret == second.secret,
        first.passphrase == second.passphrase,
    ensures
        signed_headers(first, timestamp1, method1, endpoint1, payload1).passphrase
            == signed_headers(second, timestamp2, method2, endpoint2, payload2).passphrase,
        signed_headers(first, timestamp1, method1, endpoint1, payload1).passphrase == signature(
            first.secret,
            first.passphrase,
        ),
{
}

/// Signing the same request again within the same millisecond, that is with
/// the same timestamp, and with the same credentials gives the same headers,
/// the signature among them: a signature is confirmed by computing it anew.
pub proof fn lemma_signing_again_agrees(
    first: SignedHeaders,
    second: SignedHeaders,
    credentials: CredentialTexts,
    timestamp: Seq<char>,
    method: Seq<char>,
    endpoint: Seq<char>,
    payload: Seq<char>,
)
    requires
        first@ == signed_headers(credentials, timestamp, method, endpoint, payload),
        second@ == signed_headers(credentials, timestamp, method, endpoint, payload),
    ensures
        first@ == second@,
        first.signature@ == second.signature@,
        first.signature@ == signature(
            credentials.secret,
            prehash(timestamp, method, endpoint, payload),
        ),
{
}

/// A signed request belongs to one timestamp, method, path and body: it
/// cannot pass for the signed form of any other request to the same host.
pub proof fn lemma_signed_request_is_for_one_request(
    signed: SignedRequest,
    credentials: CredentialTexts,
    base_link: Seq<char>,
    timestamp1: Seq<char>,
    method1: Seq<char>,
    endpoint1: Seq<char>,
    payload1: Seq<char>,
    timestamp2: Seq<char>,
    method2: Seq<char>,
    endpoint2: Seq<char>,
    payload2: Seq<char>,
)
    requires
        signed.is_signed(credentials, base_link, timestamp1, method1, endpoint1, payload1),
        signed.is_signed(credentials, base_link, timestamp2, method2, endpoint2, payload2),
    ensures
        timestamp1 == timestamp2,
        method1 == method2,
        endpoint1 == endpoint2,
        payload1 == payload2,
{
    let url = signed.url@;
    let start = base_link.len() as int;
    assert(endpoint1 =~= url.subrange(start, url.len() as int));
    assert(endpoint2 =~= url.subrange(start, url.len() as int));
}

/// What the transport reports of one round trip.
#[derive(Debug)]
pub enum Reply {
    /// No response arrived.
    Failed(reqwest::Error),
    /// A response arrived, with this status code and body.
    Answered { status: u16, body: String },
}

/// What is to be done with a reply.
#[derive(Debug)]
pub enum NextStep {
    /// The call ends with this error; the body is not decoded.
    Fail(KucoinErrors),
    /// The body is to be decoded as JSON into the caller's type.
    Decode(String),
}

/// True for the status codes of client and server errors, 400 to 599.
pub open spec fn is_error_status(status: u16) -> bool {
    400 <= status && status < 600
}

/// Judges a reply: a transport failure is handed on as it is, a client or
/// server error status ends the call with the status and the body, and every
/// other response has its body decoded.
pub fn on_reply(reply: Reply) -> (step: NextStep)
    ensures
        match reply {
            Reply::Failed(error) => step == NextStep::Fail(KucoinErrors::ReqwestError(error)),
            Reply::Answered { status, body } => if is_error_status(status) {
                step == NextStep::Fail(KucoinErrors::HttpStatus { status, body })
            } else {
                step == NextStep::Decode(body)
            },
        },
{
    match reply {
        Reply::Failed(error) => NextStep::Fail(KucoinErrors::ReqwestError(error)),
        Reply::Answered { status, body } => {
            if 400 <= status && status < 600 {
                NextStep::Fail(KucoinErrors::HttpStatus { status, body })
            } else {
                NextStep::Decode(body)
            }
        },
    }
}

/// Ends a call with what decoding the body gave: the value, or the decoding
/// error as a serialization error.
pub fn on_decoded<T>(parsed: Result<T, serde_json::Error>) -> (outcome: KucoinResults<T>)
    ensures
        match parsed {
            Ok(value) => outcome == Ok::<T, KucoinErrors>(value),
            Err(error) => outcome == Err::<T, KucoinErrors>(KucoinErrors::JSONError(error)),
        },
{
    match parsed {
        Ok(value) => Ok(value),
        Err(error) => Err(KucoinErrors::JSONError(error)),
    }
}

} // verus!
