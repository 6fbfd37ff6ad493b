use vstd::prelude::*;
use crate::types::types::headers_map;

verus! {

/// One variant per failure class of the request-dispatch pipeline.
///
/// `ApiError` carries its context as structured fields — the HTTP status,
/// the parsed error body, the raw body text, and the captured headers —
/// and `message` renders any error as one diagnostic line.
#[derive(Debug)]
pub enum TweetyError {
    /// Some OAuth1 credential field was empty at call time.
    MissingCredentials,
    /// The request URL did not parse; carries the parser's diagnostic.
    UrlParseError(String),
    /// The transport failed (connect, TLS, timeout); carries the cause.
    NetworkError(String),
    /// A response body was not valid JSON; carries the parser's diagnostic.
    JsonParseError(String),
    /// The server answered with a non-2xx status and a JSON error body.
    ApiError {
        status: u16,
        body: serde_json::Value,
        body_text: String,
        headers: Vec<(String, String)>,
    },
}

/// The decimal digit character of one digit value.
pub open spec fn dec_digit(d: nat) -> char {
    if d == 0 {
        '0'
    } else if d == 1 {
        '1'
    } else if d == 2 {
        '2'
    } else if d == 3 {
        '3'
    } else if d == 4 {
        '4'
    } else if d == 5 {
        '5'
    } else if d == 6 {
        '6'
    } else if d == 7 {
        '7'
    } else if d == 8 {
        '8'
    } else {
        '9'
    }
}

/// The decimal rendering of a number, most significant digit first.
pub open spec fn dec_spec(n: nat) -> Seq<char>
    decreases n,
{
    if n < 10 {
        seq![dec_digit(n)]
    } else {
        dec_spec(n / 10).push(dec_digit(n % 10))
    }
}

/// The one-character string of a decimal digit.
fn digit_str(d: u16) -> (s: String)
    requires
        d < 10,
    ensures
        s@ == seq![dec_digit(d as nat)],
{
    proof {
        reveal_strlit("0");
        reveal_strlit("1");
        reveal_strlit("2");
        reveal_strlit("3");
        reveal_strlit("4");
        reveal_strlit("5");
        reveal_strlit("6");
        reveal_strlit("7");
        reveal_strlit("8");
        reveal_strlit("9");
    }
    let s = match d {
        0 => "0",
        1 => "1",
        2 => "2",
        3 => "3",
        4 => "4",
        5 => "5",
        6 => "6",
        7 => "7",
        8 => "8",
        _ => "9",
    }.to_owned();
    proof {
        assert(s@ =~= seq![dec_digit(d as nat)]);
    }
    s
}

/// Renders a number in decimal.
pub fn u16_to_dec(n: u16) -> (s: String)
    ensures
        s@ == dec_spec(n as nat),
    decreases n,
{
    if n < 10 {
        digit_str(n)
    } else {
        let mut s = u16_to_dec(n / 10);
        let last = digit_str(n % 10);
        s.append(last.as_str());
        proof {
            assert(s@ =~= dec_spec(n as nat));
        }
        s
    }
}

impl TweetyError {
    /// The error rendered as one diagnostic line. For `ApiError` the line
    /// embeds the decimal status code and the raw body text; the parsed
    /// body and the captured headers stay available as fields.
    pub open spec fn message_spec(&self) -> Seq<char> {
        match self {
            TweetyError::MissingCredentials => "missing credentials"@,
            TweetyError::UrlParseError(m) => "URL parse error: "@ + m@,
            TweetyError::NetworkError(m) => "network error: "@ + m@,
            TweetyError::JsonParseError(m) => "JSON parse error: "@ + m@,
            TweetyError::ApiError { status, body_text, .. } => "HTTP "@ + dec_spec(
                *status as nat,
            ) + ": "@ + body_text@,
        }
    }

    /// Renders the error as one diagnostic line.
    pub fn message(&self) -> (text: String)
        ensures
            text@ == self.message_spec(),
    {
        match self {
            TweetyError::MissingCredentials => "missing credentials".to_owned(),
            TweetyError::UrlParseError(m) => {
                let mut s = "URL parse error: ".to_owned();
                s.append(m.as_str());
                s
            },
            TweetyError::NetworkError(m) => {
                let mut s = "network error: ".to_owned();
                s.append(m.as_str());
                s
            },
            TweetyError::JsonParseError(m) => {
                let mut s = "JSON parse error: ".to_owned();
                s.append(m.as_str());
                s
            },
            TweetyError::ApiError { status, body_text, .. } => {
                let mut s = "HTTP ".to_owned();
                let code = u16_to_dec(*status);
                s.append(code.as_str());
                s.append(": ");
                s.append(body_text.as_str());
                proof {
                    assert(s@ =~= self.message_spec());
                }
                s
            },
        }
    }
}

/// Two errors agree when they are the same variant and carry the same
/// content: equal message views, and for `ApiError` the same status, the
/// same parsed body, the same body text, and headers that denote the same
/// mapping.
pub open spec fn errors_agree(e1: TweetyError, e2: TweetyError) -> bool {
    match (e1, e2) {
        (TweetyError::MissingCredentials, TweetyError::MissingCredentials) => true,
        (TweetyError::UrlParseError(a), TweetyError::UrlParseError(b)) => a@ == b@,
        (TweetyError::NetworkError(a), TweetyError::NetworkError(b)) => a@ == b@,
        (TweetyError::JsonParseError(a), TweetyError::JsonParseError(b)) => a@ == b@,
        (
            TweetyError::ApiError { status: s1, body: b1, body_text: t1, headers: h1 },
            TweetyError::ApiError { status: s2, body: b2, body_text: t2, headers: h2 },
        ) => s1 == s2 && b1 == b2 && t1@ == t2@ && headers_map(h1@) == headers_map(h2@),
        _ => false,
    }
}

} // verus!
