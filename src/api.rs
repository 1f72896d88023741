use vstd::prelude::*;

use crate::board::Board;
use crate::text::{decimal, decimal_text};

verus! {

/// A username and password, kept in memory for the life of the process.
#[derive(Debug)]
pub struct Credentials {
    username: String,
    password: String,
}

impl View for Credentials {
    type V = (Seq<char>, Seq<char>);

    closed spec fn view(&self) -> (Seq<char>, Seq<char>) {
        (self.username@, self.password@)
    }
}

impl Credentials {
    pub fn new(username: &str, password: &str) -> (r: Credentials)
        ensures
            r@ == (username@, password@),
    {
        Credentials { username: String::from_str(username), password: String::from_str(password) }
    }

    pub fn username(&self) -> (r: &str)
        ensures
            r@ == self@.0,
    {
        self.username.as_str()
    }

    pub fn password(&self) -> (r: &str)
        ensures
            r@ == self@.1,
    {
        self.password.as_str()
    }
}

/// Why a request to the game service failed.
#[derive(Debug)]
pub enum ApiError {
    /// The transport failed, or the response could not be read; holds its description.
    Http(String),
    /// A protected endpoint was called without credentials.
    MissingCredentials,
    /// The service answered with a status outside 2xx; holds the code and the body text.
    UnexpectedStatus(u16, String),
}

/// Text that describes an error.
pub open spec fn error_message(e: ApiError) -> Seq<char> {
    match e {
        ApiError::Http(m) => "HTTP error: "@ + m@,
        ApiError::MissingCredentials => "Missing credentials for authenticated request"@,
        ApiError::UnexpectedStatus(code, body) => if body@.len() == 0 {
            "Unexpected status "@ + decimal(code as nat)
        } else {
            "Unexpected status "@ + decimal(code as nat) + ": "@ + body@
        },
    }
}

impl ApiError {
    /// Describes the error in one line.
    pub fn message(&self) -> (r: String)
        ensures
            r@ == error_message(*self),
    {
        match self {
            ApiError::Http(m) => {
                let mut r = String::from_str("HTTP error: ");
                r.append(m.as_str());
                r
            },
            ApiError::MissingCredentials => String::from_str(
                "Missing credentials for authenticated request",
            ),
            ApiError::UnexpectedStatus(code, body) => {
                let mut r = String::from_str("Unexpected status ");
                let digits = decimal_text(*code as u64);
                r.append(digits.as_str());
                if body.as_str().unicode_len() > 0 {
                    r.append(": ");
                    r.append(body.as_str());
                }
                r
            },
        }
    }
}

/// A 2xx status.
pub open spec fn is_success(status: u16) -> bool {
    200 <= status < 300
}

/// Maps a response status to success, or to the error that carries it with the body.
pub fn status_result(status: u16, body: String) -> (r: Result<(), ApiError>)
    ensures
        is_success(status) ==> r is Ok,
        !is_success(status) ==> r == Err::<(), ApiError>(ApiError::UnexpectedStatus(status, body)),
{
    if 200 <= status && status < 300 {
        Ok(())
    } else {
        Err(ApiError::UnexpectedStatus(status, body))
    }
}

/// `url` without the slashes it ends with.
pub open spec fn trimmed_url(url: Seq<char>) -> Seq<char>
    decreases url.len(),
{
    if url.len() > 0 && url.last() == '/' {
        trimmed_url(url.drop_last())
    } else {
        url
    }
}

/// Removes the trailing slashes of a base URL.
pub fn trim_base_url(url: &str) -> (r: String)
    ensures
        r@ == trimmed_url(url@),
{
    let mut k = url.unicode_len();
    proof {
        assert(url@.subrange(0, k as int) =~= url@);
    }
    while k > 0 && url.get_char(k - 1) == '/'
        invariant
            k <= url@.len(),
            trimmed_url(url@.subrange(0, k as int)) == trimmed_url(url@),
        decreases k,
    {
        proof {
            let s = url@.subrange(0, k as int);
            assert(s.drop_last() =~= url@.subrange(0, k - 1));
        }
        k = k - 1;
    }
    proof {
        let s = url@.subrange(0, k as int);
        if k > 0 {
            assert(s.last() == url@[k - 1]);
        }
    }
    String::from_str(url.substring_char(0, k))
}

/// Where the game service is, and who calls it.
pub struct ServiceConfig {
    pub base_url: String,
    pub credentials: Option<Credentials>,
}

impl ServiceConfig {
    /// A configuration without credentials, for calls such as user creation.
    pub fn new(base_url: &str) -> (r: ServiceConfig)
        ensures
            r.base_url@ == trimmed_url(base_url@),
            r.credentials is None,
    {
        ServiceConfig { base_url: trim_base_url(base_url), credentials: None }
    }

    /// A configuration that authenticates as `username`.
    pub fn with_credentials(base_url: &str, username: &str, password: &str) -> (r: ServiceConfig)
        ensures
            r.base_url@ == trimmed_url(base_url@),
            r.credentials is Some,
            r.credentials->0@ == (username@, password@),
    {
        ServiceConfig {
            base_url: trim_base_url(base_url),
            credentials: Some(Credentials::new(username, password)),
        }
    }

    /// Full address of `path` on the service.
    pub fn url(&self, path: &str) -> (r: String)
        ensures
            r@ == self.base_url@ + path@,
    {
        let mut r = self.base_url.clone();
        r.append(path);
        r
    }

    /// The credentials that a protected endpoint needs.
    pub fn require_credentials(&self) -> (r: Result<&Credentials, ApiError>)
        ensures
            self.credentials is Some ==> r is Ok && *r->Ok_0 == self.credentials->0,
            self.credentials is None ==> r is Err && r->Err_0 is MissingCredentials,
    {
        match &self.credentials {
            Some(c) => Ok(c),
            None => Err(ApiError::MissingCredentials),
        }
    }
}

/// The service's answer to a new game.
#[derive(Debug)]
pub struct NewGameResponse {
    pub id: i32,
    pub board: Board,
}

/// A game of the user that has not ended.
#[derive(Debug)]
pub struct UnfinishedGame {
    pub id: i32,
    pub board: Board,
    pub moves_count: i32,
    pub updated_at: String,
}

/// The service's answer to a move: the new board and, once the game has ended, whether it was won.
#[derive(Debug)]
pub struct MakeMoveResponse {
    pub board: Board,
    pub result: Option<bool>,
}

} // verus!
