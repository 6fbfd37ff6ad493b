use vstd::prelude::*;
use crate::api::error::{errors_agree, TweetyError};
use crate::api::json::{json_err_of, json_of, parse_json};
use crate::api::urlcheck::{parse_url, url_normalized, url_ok, url_parse_err};
use crate::types::types::{
    collapse_headers, header_names_unique, headers_map, ResponseWithHeaders,
};

verus! {

/// The four HTTP verbs the dispatcher supports; any other verb is a
/// contract violation of the caller, not a runtime condition.
#[derive(Clone, Copy, PartialEq, Eq, Structural, Debug)]
pub enum Method {
    Get,
    Post,
    Put,
    Delete,
}

impl Method {
    /// GET and DELETE requests never carry a body.
    pub open spec fn carries_body(self) -> bool {
        self is Post || self is Put
    }
}

/// A validated request, ready for signing and sending: the normalized URL,
/// the verb, and the exact payload to transmit (`None` for the verbs that
/// never carry one).
#[derive(Debug)]
pub struct PreparedRequest {
    pub url: String,
    pub method: Method,
    pub body: Option<String>,
}

/// What came back from one attempt to send a request: either a reply
/// (any status) or a transport-level failure with its cause.
pub enum TransportOutcome {
    Reply { status: u16, headers: Vec<(String, String)>, body: String },
    Failure { message: String },
}

/// An HTTP status that counts as success.
pub open spec fn is_success_status(status: u16) -> bool {
    200 <= status <= 299
}

/// The text that is transmitted for the given optional body: the body
/// itself, or an empty payload when none was supplied.
pub open spec fn payload_text(body: Option<String>) -> Seq<char> {
    match body {
        Some(text) => text@,
        None => Seq::empty(),
    }
}

/// An optional string, abstracted to its text.
pub open spec fn opt_text(body: Option<String>) -> Option<Seq<char>> {
    match body {
        Some(text) => Some(text@),
        None => None,
    }
}

/// Everything `prepare_request` promises, as a relation between its
/// inputs and its result. Validation is ordered: missing credentials win
/// over a malformed URL, and no request is prepared unless both checks
/// pass.
pub open spec fn prepare_post(
    client: TweetyClient,
    url: Seq<char>,
    method: Method,
    body: Option<String>,
    prepared: Result<PreparedRequest, TweetyError>,
) -> bool {
    if !client.is_initialized_spec() {
        prepared matches Err(TweetyError::MissingCredentials)
    } else if !url_ok(url) {
        prepared matches Err(TweetyError::UrlParseError(m)) && m@ == url_parse_err(url)
    } else {
        &&& prepared matches Ok(p)
        &&& p.url@ == url_normalized(url)
        &&& p.method == method
        &&& if method.carries_body() {
            p.body matches Some(text) && text@ == payload_text(body)
        } else {
            p.body is None
        }
    }
}

/// Everything `finish_request` promises, as a relation between the
/// transport's outcome and the normalized result.
pub open spec fn finish_post(
    outcome: TransportOutcome,
    result: Result<ResponseWithHeaders, TweetyError>,
) -> bool {
    match outcome {
        TransportOutcome::Failure { message } => result matches Err(
            TweetyError::NetworkError(m),
        ) && m@ == message@,
        TransportOutcome::Reply { status, headers, body } => {
            match json_of(body@) {
                Some(parsed) => if is_success_status(status) {
                    &&& result matches Ok(env)
                    &&& env.response == parsed
                    &&& headers_map(env.headers@) == headers_map(headers@)
                    &&& env.well_formed()
                } else {
                    &&& result matches Err(
                        TweetyError::ApiError { status: st, body: bv, body_text: bt, headers: hs },
                    )
                    &&& st == status
                    &&& bv == parsed
                    &&& bt@ == body@
                    &&& headers_map(hs@) == headers_map(headers@)
                    &&& header_names_unique(hs@)
                },
                None => result matches Err(TweetyError::JsonParseError(m)) && m@ == json_err_of(
                    body@,
                ),
            }
        },
    }
}

/// Holds the four OAuth1 secrets every request is signed with, plus an
/// optional proxy configuration. An empty proxy address means "no proxy";
/// the other proxy fields are only consulted when an address is given.
pub struct TweetyClient {
    pub consumer_key: String,
    pub access_token: String,
    pub consumer_key_secret: String,
    pub access_token_secret: String,
    pub proxy_addr: String,
    pub proxy_username: String,
    pub proxy_password: String,
}

impl TweetyClient {
    /// The client is ready to sign requests exactly when all four OAuth1
    /// fields are non-empty; the proxy fields may be empty.
    pub open spec fn is_initialized_spec(&self) -> bool {
        &&& self.consumer_key@.len() > 0
        &&& self.access_token@.len() > 0
        &&& self.consumer_key_secret@.len() > 0
        &&& self.access_token_secret@.len() > 0
    }

    /// Creates a new `TweetyClient` with the given credentials.
    pub fn new(
        consumer_key: &str,
        access_token: &str,
        consumer_key_secret: &str,
        access_token_secret: &str,
        proxy_addr: &str,
        proxy_username: &str,
        proxy_password: &str,
    ) -> (client: Self)
        ensures
            client.consumer_key@ == consumer_key@,
            client.access_token@ == access_token@,
            client.consumer_key_secret@ == consumer_key_secret@,
            client.access_token_secret@ == access_token_secret@,
            client.proxy_addr@ == proxy_addr@,
            client.proxy_username@ == proxy_username@,
            client.proxy_password@ == proxy_password@,
    {
        TweetyClient {
            consumer_key: consumer_key.to_owned(),
            access_token: access_token.to_owned(),
            consumer_key_secret: consumer_key_secret.to_owned(),
            access_token_secret: access_token_secret.to_owned(),
            proxy_addr: proxy_addr.to_owned(),
            proxy_username: proxy_username.to_owned(),
            proxy_password: proxy_password.to_owned(),
        }
    }

    /// True iff all four OAuth1 credential fields are non-empty.
    pub fn is_initialized(&self) -> (ready: bool)
        ensures
            ready == self.is_initialized_spec(),
    {
        !self.consumer_key.as_str().is_empty() && !self.access_token.as_str().is_empty()
            && !self.consumer_key_secret.as_str().is_empty()
            && !self.access_token_secret.as_str().is_empty()
    }

    /// The validation half of dispatching a request: checks the
    /// credentials, parses the URL, and fixes the verb's payload. Fails
    /// fast — the first failing check wins, and nothing is prepared for
    /// the transport before both checks pass.
    pub fn prepare_request(&self, url: &str, method: Method, body: Option<String>) -> (prepared:
        Result<PreparedRequest, TweetyError>)
        ensures
            prepare_post(*self, url@, method, body, prepared),
    {
        if !self.is_initialized() {
            return Err(TweetyError::MissingCredentials);
        }
        let parsed_url = match parse_url(url) {
            Ok(u) => u,
            Err(message) => {
                return Err(TweetyError::UrlParseError(message));
            },
        };
        let payload = match method {
            Method::Get | Method::Delete => None,
            Method::Post | Method::Put => Some(
                match body {
                    Some(text) => text,
                    None => String::new(),
                },
            ),
        };
        Ok(PreparedRequest { url: parsed_url, method, body: payload })
    }
}

/// The normalization half of dispatching a request: turns whatever the
/// transport produced into a response envelope or a typed error. Headers
/// are collapsed into a name-unique mapping before the body is read; the
/// body is parsed as JSON on the success and the failure path alike.
pub fn finish_request(outcome: TransportOutcome) -> (result: Result<
    ResponseWithHeaders,
    TweetyError,
>)
    ensures
        finish_post(outcome, result),
{
    match outcome {
        TransportOutcome::Failure { message } => Err(TweetyError::NetworkError(message)),
        TransportOutcome::Reply { status, headers, body } => {
            let collapsed = collapse_headers(&headers);
            let parsed = match parse_json(body.as_str()) {
                Ok(value) => value,
                Err(message) => {
                    return Err(TweetyError::JsonParseError(message));
                },
            };
            if 200 <= status && status <= 299 {
                Ok(ResponseWithHeaders { response: parsed, headers: collapsed })
            } else {
                Err(
                    TweetyError::ApiError {
                        status,
                        body: parsed,
                        body_text: body,
                        headers: collapsed,
                    },
                )
            }
        },
    }
}

/// Two prepared requests agree when they name the same URL and verb and
/// transmit the same payload.
pub open spec fn prepared_agree(p1: PreparedRequest, p2: PreparedRequest) -> bool {
    &&& p1.url@ == p2.url@
    &&& p1.method == p2.method
    &&& opt_text(p1.body) == opt_text(p2.body)
}

/// Two dispatch results agree when they are both the same success
/// envelope — same parsed body, same header mapping — or errors that
/// carry the same content.
pub open spec fn results_agree(
    r1: Result<ResponseWithHeaders, TweetyError>,
    r2: Result<ResponseWithHeaders, TweetyError>,
) -> bool {
    match (r1, r2) {
        (Ok(env1), Ok(env2)) => env1.response == env2.response && env1.headers_map_spec()
            == env2.headers_map_spec(),
        (Err(e1), Err(e2)) => errors_agree(e1, e2),
        _ => false,
    }
}

/// Two transport outcomes agree when they are the same reply — status,
/// header mapping, body text — or failures with the same cause.
pub open spec fn outcomes_agree(o1: TransportOutcome, o2: TransportOutcome) -> bool {
    match (o1, o2) {
        (
            TransportOutcome::Reply { status: s1, headers: h1, body: b1 },
            TransportOutcome::Reply { status: s2, headers: h2, body: b2 },
        ) => s1 == s2 && headers_map(h1@) == headers_map(h2@) && b1@ == b2@,
        (
            TransportOutcome::Failure { message: m1 },
            TransportOutcome::Failure { message: m2 },
        ) => m1@ == m2@,
        _ => false,
    }
}

/// Law: preparing a request is a function of the credential texts, the
/// URL text, the verb, and the body text alone. Any two results that meet
/// `prepare_request`'s contract for equal such inputs agree — no state is
/// shared between calls, so repeating a call prepares the same request.
pub proof fn lemma_prepare_request_deterministic(
    c1: TweetyClient,
    c2: TweetyClient,
    url: Seq<char>,
    method: Method,
    body1: Option<String>,
    body2: Option<String>,
    r1: Result<PreparedRequest, TweetyError>,
    r2: Result<PreparedRequest, TweetyError>,
)
    requires
        c1.consumer_key@ == c2.consumer_key@,
        c1.access_token@ == c2.access_token@,
        c1.consumer_key_secret@ == c2.consumer_key_secret@,
        c1.access_token_secret@ == c2.access_token_secret@,
        opt_text(body1) == opt_text(body2),
        prepare_post(c1, url, method, body1, r1),
        prepare_post(c2, url, method, body2, r2),
    ensures
        match (r1, r2) {
            (Ok(p1), Ok(p2)) => prepared_agree(p1, p2),
            (Err(e1), Err(e2)) => errors_agree(e1, e2),
            _ => false,
        },
{
    assert(c1.is_initialized_spec() == c2.is_initialized_spec());
    assert(payload_text(body1) == payload_text(body2));
}

/// Law: normalizing a reply is a function of the outcome's content alone.
/// Any two results that meet `finish_request`'s contract for agreeing
/// outcomes agree — two sends of one request against a deterministic
/// transport yield envelopes with equal body and header content.
pub proof fn lemma_finish_request_deterministic(
    o1: TransportOutcome,
    o2: TransportOutcome,
    r1: Result<ResponseWithHeaders, TweetyError>,
    r2: Result<ResponseWithHeaders, TweetyError>,
)
    requires
        outcomes_agree(o1, o2),
        finish_post(o1, r1),
        finish_post(o2, r2),
    ensures
        results_agree(r1, r2),
{
}

} // verus!
