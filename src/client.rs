use vstd::prelude::*;

use crate::error::{Error, ReqwestErrorWrapper};
use crate::league::Lockfile;
use crate::text::{decimal_of, usize_to_decimal};

verus! {

/// Standard base64, with padding, of the UTF-8 bytes of `text`.
pub uninterp spec fn base64_of(text: Seq<char>) -> Seq<char>;

/// Relies on `base64::encode`: standard alphabet with padding, over the UTF-8
/// bytes of the text; nothing in gives nothing out.
#[verifier::external_body]
fn encode_base64(text: &str) -> (r: String)
    ensures
        r@ == base64_of(text@),
        text@.len() == 0 ==> r@.len() == 0,
{
    base64::encode(text)
}

/// The user name that the local API expects with its password.
pub const AUTH_USER: &'static str = "riot";

/// The path of the perk list on the local API.
pub const PERKS_PATH: &'static str = "/lol-perks/v1/perks";

/// The path of the saved rune pages on the local API.
pub const PAGES_PATH: &'static str = "/lol-perks/v1/pages";

/// The scheme, host and port separator of every request.
pub const LOOPBACK_PREFIX: &'static str = "https://127.0.0.1:";

pub open spec fn credentials_spec(password: Seq<char>) -> Seq<char> {
    AUTH_USER@.push(':') + password
}

pub open spec fn basic_auth_spec(encoded: Seq<char>) -> Seq<char> {
    "Basic "@ + encoded
}

/// The value of the `Authorization` header for a password.
pub open spec fn authorization_spec(password: Seq<char>) -> Seq<char> {
    basic_auth_spec(base64_of(credentials_spec(password)))
}

pub open spec fn endpoint_spec(port: nat, path: Seq<char>) -> Seq<char> {
    LOOPBACK_PREFIX@ + decimal_of(port) + path
}

/// `riot:` followed by the password, as HTTP Basic authentication pairs them.
pub fn credentials(password: &str) -> (r: String)
    ensures
        r@ == credentials_spec(password@),
{
    let mut r = String::from_str(AUTH_USER);
    r.append(":");
    proof {
        reveal_strlit(":");
    }
    r.append(password);
    r
}

/// `Basic ` followed by already encoded credentials.
pub fn basic_auth_value(encoded: &str) -> (r: String)
    ensures
        r@ == basic_auth_spec(encoded@),
{
    let mut r = String::from_str("Basic ");
    r.append(encoded);
    r
}

/// The `Authorization` header value for the password of a lockfile.
pub fn authorization_header(lockfile: &Lockfile) -> (r: String)
    ensures
        r@ == authorization_spec(lockfile.password@),
{
    let pair = credentials(lockfile.password.as_str());
    let encoded = encode_base64(pair.as_str());
    basic_auth_value(encoded.as_str())
}

/// `https://127.0.0.1:<port><path>`: the scheme is always https and the host
/// always the loopback address.
pub fn endpoint_url(port: usize, path: &str) -> (r: String)
    ensures
        r@ == endpoint_spec(port as nat, path@),
{
    let mut r = String::from_str(LOOPBACK_PREFIX);
    let digits = usize_to_decimal(port);
    r.append(digits.as_str());
    r.append(path);
    r
}

/// A status in the success class `2xx`.
pub open spec fn is_success(status: u16) -> bool {
    200 <= status <= 299
}

/// What a response with status `status` from `url` yields: its body on a
/// success status, else a request failure that carries the status.
pub open spec fn response_outcome(status: u16, url: Option<String>, body: String) -> Result<
    String,
    Error,
> {
    if is_success(status) {
        Ok(body)
    } else {
        Err(
            Error::RequestFailed(
                ReqwestErrorWrapper {
                    url,
                    is_builder: false,
                    is_redirect: false,
                    is_status: true,
                    is_timeout: false,
                    status: Some(status),
                },
            ),
        )
    }
}

/// Keeps the body of a successful response and turns any other status into
/// `RequestFailed`.
pub fn checked_body(status: u16, url: Option<String>, body: String) -> (r: Result<String, Error>)
    ensures
        r == response_outcome(status, url, body),
{
    if 200 <= status && status <= 299 {
        Ok(body)
    } else {
        Err(
            Error::RequestFailed(
                ReqwestErrorWrapper {
                    url,
                    is_builder: false,
                    is_redirect: false,
                    is_status: true,
                    is_timeout: false,
                    status: Some(status),
                },
            ),
        )
    }
}

/// The two resources that the local API is asked for.
#[derive(Debug, Clone, Copy, PartialEq, Eq, Structural)]
pub enum Resource {
    Perks,
    Pages,
}

impl Resource {
    pub open spec fn path_spec(self) -> Seq<char> {
        match self {
            Resource::Perks => PERKS_PATH@,
            Resource::Pages => PAGES_PATH@,
        }
    }

    pub fn path(self) -> (r: &'static str)
        ensures
            r@ == self.path_spec(),
    {
        match self {
            Resource::Perks => PERKS_PATH,
            Resource::Pages => PAGES_PATH,
        }
    }
}

/// One authenticated GET against the local API.
#[derive(Debug, Clone)]
pub struct Request {
    pub url: String,
    pub authorization: String,
}

impl Request {
    /// The request for `resource` at the endpoint and with the password that
    /// `lockfile` names.
    pub fn new(lockfile: &Lockfile, resource: Resource) -> (r: Request)
        ensures
            r.url@ == endpoint_spec(lockfile.port as nat, resource.path_spec()),
            r.authorization@ == authorization_spec(lockfile.password@),
    {
        Request {
            url: endpoint_url(lockfile.port, resource.path()),
            authorization: authorization_header(lockfile),
        }
    }
}

} // verus!
