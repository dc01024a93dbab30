//! A webhook receiver's core: time-boxed shared-secret tokens, the verdict on
//! an inbound request, and the text of the per-device log files.
//!
//! Nothing here touches the network or the disk. The surrounding server hands
//! in what it parsed from a request and carries out what comes back.

use crate::base64url::is_symbol;
use crate::text::chars_of;
use crate::text::chars_of_owned;
use crate::text::same_text;
use crate::token::derive_token;
use crate::token::token_for;
use crate::token::TOKEN_LEN;
use vstd::prelude::*;
use vstd::string::StringExecFns;

pub mod base64url;
pub mod clock;
pub mod digest;
pub mod escape;
pub mod pages;
pub mod text;
pub mod token;

verus! {

/// Process-wide configuration, built once at start-up and only read
/// afterwards. It cannot be printed: the secret is not for any log.
pub struct AppData {
    /// Root directory of the log files.
    pub dir: String,
    /// The client identifier that a request must present, byte for byte.
    pub ua: String,
    /// The shared secret from which every token is derived.
    pub secret: String,
}

/// Mathematical content of an [`AppData`].
pub ghost struct AppDataView {
    pub dir: Seq<char>,
    pub ua: Seq<char>,
    pub secret: Seq<char>,
}

impl View for AppData {
    type V = AppDataView;

    open spec fn view(&self) -> AppDataView {
        AppDataView { dir: self.dir@, ua: self.ua@, secret: self.secret@ }
    }
}

/// The two query parameters that carry a token: the timestamp it was derived
/// for, and the token itself.
#[derive(Debug)]
pub struct TokenParams {
    pub ts: Option<String>,
    pub code: Option<String>,
}

/// Mathematical content of a [`TokenParams`].
pub ghost struct TokenParamsView {
    pub ts: Option<Seq<char>>,
    pub code: Option<Seq<char>>,
}

impl View for TokenParams {
    type V = TokenParamsView;

    open spec fn view(&self) -> TokenParamsView {
        TokenParamsView { ts: chars_of_owned(self.ts), code: chars_of_owned(self.code) }
    }
}

/// What authorization reads of a request: the token parameters of its query
/// string, and the value of its client-identifier header if it has one.
#[derive(Debug)]
pub struct RequestHead {
    pub query: TokenParams,
    pub user_agent: Option<String>,
}

/// Mathematical content of a [`RequestHead`].
pub ghost struct RequestHeadView {
    pub query: TokenParamsView,
    pub user_agent: Option<Seq<char>>,
}

impl View for RequestHead {
    type V = RequestHeadView;

    open spec fn view(&self) -> RequestHeadView {
        RequestHeadView { query: self.query@, user_agent: chars_of_owned(self.user_agent) }
    }
}

/// Why a request was turned down.
#[derive(Clone, Copy, Debug, PartialEq, Eq, Structural)]
pub enum ErrorKind {
    /// The timestamp or the token is absent from the query string.
    MissingCredential,
    /// The client-identifier header is absent or differs from the configured one.
    ClientMismatch,
    /// The token is not the one derived for the timestamp.
    TokenMismatch,
    /// The log payload is empty.
    EmptyBody,
    /// A directory or file operation failed.
    IOFailure,
    /// The payload is not valid UTF-8.
    MalformedBody,
}

/// Status of a response that reports a fault of the client.
pub const STATUS_CLIENT_ERROR: u16 = 400;

/// Status of a response that reports a fault of the server.
pub const STATUS_SERVER_ERROR: u16 = 500;

impl ErrorKind {
    /// The three kinds that authorization gives.
    pub open spec fn is_authorization(self) -> bool {
        self == ErrorKind::MissingCredential || self == ErrorKind::ClientMismatch || self
            == ErrorKind::TokenMismatch
    }

    /// The text shown to the client. The three authorization kinds share one
    /// text, so that a response does not tell what was wrong with the request.
    pub open spec fn message_text(self) -> Seq<char> {
        match self {
            ErrorKind::MissingCredential => "not authorized"@,
            ErrorKind::ClientMismatch => "not authorized"@,
            ErrorKind::TokenMismatch => "not authorized"@,
            ErrorKind::EmptyBody => "missing body"@,
            ErrorKind::IOFailure => "i/o failure"@,
            ErrorKind::MalformedBody => "malformed body"@,
        }
    }

    /// The response status: a server error for a failed write, a client error
    /// for everything else.
    pub open spec fn status_code(self) -> u16 {
        if self == ErrorKind::IOFailure {
            STATUS_SERVER_ERROR
        } else {
            STATUS_CLIENT_ERROR
        }
    }

    /// Status of the response that reports this error.
    pub fn status(&self) -> (code: u16)
        ensures
            code == self.status_code(),
    {
        match self {
            ErrorKind::IOFailure => STATUS_SERVER_ERROR,
            _ => STATUS_CLIENT_ERROR,
        }
    }

    /// Body of the response that reports this error.
    pub fn message(&self) -> (text: String)
        ensures
            text@ == self.message_text(),
    {
        match self {
            ErrorKind::MissingCredential => String::from_str("not authorized"),
            ErrorKind::ClientMismatch => String::from_str("not authorized"),
            ErrorKind::TokenMismatch => String::from_str("not authorized"),
            ErrorKind::EmptyBody => String::from_str("missing body"),
            ErrorKind::IOFailure => String::from_str("i/o failure"),
            ErrorKind::MalformedBody => String::from_str("malformed body"),
        }
    }
}

/// Proof that a request passed authorization. A handler that receives one
/// knows that the client and the token were both accepted.
#[derive(Clone, Copy, Debug, PartialEq, Eq, Structural)]
pub struct AuthorizedUrl;

/// The verdict on a request. Three conditions are taken in order and the
/// first that does not hold decides: both credentials present, then the client
/// identifier equal to the configured one, then the token equal to the one
/// derived from the secret and the timestamp.
pub open spec fn verdict(
    query: TokenParamsView,
    user_agent: Option<Seq<char>>,
    config: AppDataView,
) -> Result<AuthorizedUrl, ErrorKind> {
    if query.ts is None || query.code is None {
        Err(ErrorKind::MissingCredential)
    } else if user_agent != Some(config.ua) {
        Err(ErrorKind::ClientMismatch)
    } else if query.code->0 != derive_token(config.secret, query.ts->0) {
        Err(ErrorKind::TokenMismatch)
    } else {
        Ok(AuthorizedUrl)
    }
}

/// The client identifier that the request presents, if any.
pub fn get_user_agent(req: &RequestHead) -> (ua: Option<&str>)
    ensures
        chars_of(ua) == req@.user_agent,
{
    match &req.user_agent {
        Some(ua) => Some(ua.as_str()),
        None => None,
    }
}

/// The token for a timestamp under the configured secret; nothing where no
/// timestamp is given.
pub fn get_token(ts: Option<&str>, app_data: &AppData) -> (token: Option<String>)
    ensures
        ts is None ==> token is None,
        ts matches Some(t) ==> {
            &&& token matches Some(tok)
            &&& tok@ == derive_token(app_data@.secret, t@)
            &&& tok@.len() == TOKEN_LEN
            &&& forall|i: int| 0 <= i < tok@.len() ==> is_symbol(#[trigger] tok@[i])
        },
{
    match ts {
        Some(t) => Some(token_for(app_data.secret.as_str(), t)),
        None => None,
    }
}

/// Decides on a request from its token parameters and its client identifier.
pub fn authorize(query: &TokenParams, user_agent: Option<&str>, app_data: &AppData) -> (res:
    Result<AuthorizedUrl, ErrorKind>)
    ensures
        res == verdict(query@, chars_of(user_agent), app_data@),
{
    match (&query.ts, &query.code) {
        (Some(ts), Some(code)) => {
            let known = match user_agent {
                Some(ua) => same_text(ua, app_data.ua.as_str()),
                None => false,
            };
            if !known {
                return Err(ErrorKind::ClientMismatch);
            }
            match get_token(Some(ts.as_str()), app_data) {
                Some(expected) => {
                    if same_text(expected.as_str(), code.as_str()) {
                        Ok(AuthorizedUrl)
                    } else {
                        Err(ErrorKind::TokenMismatch)
                    }
                },
                None => Err(ErrorKind::TokenMismatch),
            }
        },
        _ => Err(ErrorKind::MissingCredential),
    }
}

/// Whether the request is authorized.
pub fn is_authorized(req: &RequestHead, app_data: &AppData) -> (ok: bool)
    ensures
        ok == (verdict(req@.query, req@.user_agent, app_data@) is Ok),
{
    authorize(&req.query, get_user_agent(req), app_data).is_ok()
}

impl AuthorizedUrl {
    /// The guard that runs before a handler: the proof of authorization, or
    /// the reason why there is none.
    pub fn from_request(req: &RequestHead, app_data: &AppData) -> (res: Result<
        AuthorizedUrl,
        ErrorKind,
    >)
        ensures
            res == verdict(req@.query, req@.user_agent, app_data@),
            res matches Err(e) ==> e.is_authorization(),
    {
        authorize(&req.query, get_user_agent(req), app_data)
    }
}

/// A request without a timestamp or without a token is turned down, whatever
/// its headers say.
pub proof fn lemma_missing_credential_unauthorized(
    query: TokenParamsView,
    user_agent: Option<Seq<char>>,
    config: AppDataView,
)
    requires
        query.ts is None || query.code is None,
    ensures
        verdict(query, user_agent, config) == Err::<AuthorizedUrl, ErrorKind>(
            ErrorKind::MissingCredential,
        ),
{
}

/// A request whose client identifier is absent or is not exactly the
/// configured one is turned down, even with the right token.
pub proof fn lemma_client_mismatch_unauthorized(
    query: TokenParamsView,
    user_agent: Option<Seq<char>>,
    config: AppDataView,
)
    requires
        user_agent != Some(config.ua),
    ensures
        verdict(query, user_agent, config) is Err,
        query.ts is Some && query.code is Some ==> verdict(query, user_agent, config) == Err::<
            AuthorizedUrl,
            ErrorKind,
        >(ErrorKind::ClientMismatch),
{
}

/// A request is authorized exactly when its client identifier is the
/// configured one and its token is the one derived from the secret and its
/// timestamp.
pub proof fn lemma_authorized_iff(
    query: TokenParamsView,
    user_agent: Option<Seq<char>>,
    config: AppDataView,
)
    ensures
        verdict(query, user_agent, config) is Ok <==> {
            &&& user_agent == Some(config.ua)
            &&& query.ts is Some
            &&& query.code == Some(derive_token(config.secret, query.ts->0))
        },
{
}

/// Every error of authorization is answered alike: a client error with one
/// and the same text.
pub proof fn lemma_authorization_errors_alike(
    query: TokenParamsView,
    user_agent: Option<Seq<char>>,
    config: AppDataView,
)
    ensures
        verdict(query, user_agent, config) matches Err(e) ==> {
            &&& e.is_authorization()
            &&& e.status_code() == STATUS_CLIENT_ERROR
            &&& e.message_text() == "not authorized"@
        },
{
}

} // verus!
