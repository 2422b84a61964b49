//! What a charge point sends when it opens its connection to the central system.

use vstd::prelude::*;
use vstd::string::*;
use base64::Engine;

verus! {

/// The credentials a charge point connects with.
#[derive(Clone, Debug, PartialEq, Eq)]
pub struct ConnectOptions {
    pub username: Option<String>,
    pub password: Option<String>,
}

/// The standard Base64 encoding (with padding) of the UTF-8 bytes of a text.
pub uninterp spec fn base64_of_text(text: Seq<char>) -> Seq<char>;

/// Encodes the UTF-8 bytes of `text` with `base64::prelude::BASE64_STANDARD`. The
/// contract claims only that the encoding is a function of the text, named
/// [`base64_of_text`].
#[verifier::external_body]
fn encode_base64(text: &str) -> (r: String)
    ensures
        r@ == base64_of_text(text@),
{
    base64::prelude::BASE64_STANDARD.encode(text)
}

/// The `Authorization` header value for basic authentication: `Basic ` and the
/// Base64 encoding of the user name, a colon and the password (empty when none is
/// given); no header without a user name.
pub open spec fn basic_authorization(options: Option<ConnectOptions>) -> Option<Seq<char>> {
    match options {
        Some(o) => match o.username {
            Some(user) => Some(
                "Basic "@ + base64_of_text(
                    user@ + ":"@ + match o.password {
                        Some(p) => p@,
                        None => ""@,
                    },
                ),
            ),
            None => None,
        },
        None => None,
    }
}

/// The `Authorization` header that the connection request carries, if any.
pub fn authorization_header(options: &Option<ConnectOptions>) -> (r: Option<String>)
    ensures
        match r {
            Some(h) => basic_authorization(*options) == Some(h@),
            None => basic_authorization(*options) is None,
        },
{
    match options {
        Some(o) => match &o.username {
            Some(user) => {
                let mut credentials = user.clone();
                credentials.append(":");
                match &o.password {
                    Some(p) => credentials.append(p.as_str()),
                    None => credentials.append(""),
                }
                let mut header = String::from_str("Basic ");
                header.append(encode_base64(credentials.as_str()).as_str());
                Some(header)
            },
            None => None,
        },
        None => None,
    }
}

/// What the `url` crate makes of an address: the parsed URL written back out, or
/// the message of the error it reports.
pub uninterp spec fn url_parse_outcome(text: Seq<char>) -> Result<Seq<char>, Seq<char>>;

/// The model of a result that carries a text or an error message.
pub open spec fn text_result_model(r: Result<String, String>) -> Result<Seq<char>, Seq<char>> {
    match r {
        Ok(t) => Ok(t@),
        Err(e) => Err(e@),
    }
}

/// Parses `text` with `url::Url::parse` and writes the URL back out with its
/// `Display`; a parse error becomes its message. The contract claims only that
/// the outcome is a function of the text, named [`url_parse_outcome`].
#[verifier::external_body]
fn parse_url(text: &str) -> (r: Result<String, String>)
    ensures
        text_result_model(r) == url_parse_outcome(text@),
{
    match url::Url::parse(text) {
        Ok(u) => Ok(u.to_string()),
        Err(e) => Err(e.to_string()),
    }
}

/// What the opening request of a connection carries: the address it goes to, the
/// protocols it offers, and the `Authorization` header, if any.
#[derive(Clone, Debug, PartialEq, Eq)]
pub struct ConnectionRequest {
    pub address: String,
    pub protocols: String,
    pub authorization: Option<String>,
}

/// The opening request of a connection to `address`, offering `protocols`, or the
/// message of the error that the address is refused with.
pub fn connection_request(address: &str, protocols: &str, options: &Option<ConnectOptions>) -> (r: Result<ConnectionRequest, String>)
    ensures
        match url_parse_outcome(address@) {
            Ok(a) => r matches Ok(req) && req.address@ == a && req.protocols@ == protocols@ && match req.authorization {
                Some(h) => basic_authorization(*options) == Some(h@),
                None => basic_authorization(*options) is None,
            },
            Err(e) => r matches Err(m) && m@ == e,
        },
{
    match parse_url(address) {
        Ok(a) => Ok(ConnectionRequest {
            address: a,
            protocols: String::from_str(protocols),
            authorization: authorization_header(options),
        }),
        Err(e) => Err(e),
    }
}

} // verus!
