use vstd::prelude::*;
use crate::command::FalreSolverrCommand;
use crate::status::UrlStatus;

verus! {

/// The longest a bypassed fetch may take, in seconds.
pub const BYPASS_TIMEOUT_SECS: u32 = 60;

/// What goes wrong in the lifecycle of a bypass session.
#[derive(Debug, Clone, Copy, PartialEq, Eq, Structural)]
pub enum SessionError {
    /// The service's base URL does not parse, or the endpoint cannot be formed.
    InvalidEndpoint,
    /// The service could not be reached, or refused to create the session.
    CreateFailed,
    /// The service could not be reached to destroy the session.
    DestroyFailed,
}

/// The command endpoint that `url` resolves under a base URL, if the base
/// parses as an absolute URL and the join succeeds.
pub uninterp spec fn endpoint_of(base: Seq<char>) -> Option<Seq<char>>;

/// Relies on `url::Url::parse` (re-exported by reqwest) and `Url::join` with
/// `"v1"`: the command endpoint under the service's base URL, as text.
#[verifier::external_body]
fn resolve_endpoint(base: &str) -> (r: Option<String>)
    ensures
        r matches Some(e) ==> endpoint_of(base@) == Some(e@),
        r is None ==> endpoint_of(base@) is None,
{
    reqwest::Url::parse(base).and_then(|u| u.join("v1")).ok().map(|u| u.as_str().to_string())
}

/// Relies on `uuid::Uuid::new_v4` and its hyphenated text form: a fresh
/// random session token. Nothing is known of its value.
#[verifier::external_body]
fn fresh_session_token() -> (r: String) {
    uuid::Uuid::new_v4().to_string()
}

/// The part of a bypass reply that is read: the URL fetched and its status.
#[derive(Debug, Clone)]
pub struct FlareSolverrSolution {
    pub url: String,
    pub status: Option<u16>,
}

/// One session on the bypass service: its token, its command endpoint and the
/// timeout given to each bypassed fetch.
///
/// Creating one here only forms it; the session exists on the service once the
/// create command has been delivered and [`FlareSolverrClient::confirm`] says so.
#[derive(Debug, Clone)]
pub struct FlareSolverrClient {
    /// The session token.
    pub session: String,
    /// The longest a bypassed fetch may take, in seconds.
    pub timeout: u32,
    /// The command endpoint, to which every command is POSTed.
    pub url: String,
}

impl FlareSolverrClient {
    /// Forms a session with the given token against the service at `base`.
    /// Fails with `InvalidEndpoint` exactly when no endpoint resolves.
    pub fn new(base: &str, timeout: u32, session: String) -> (r: Result<FlareSolverrClient, SessionError>)
        ensures
            endpoint_of(base@) is None ==> r == Err::<FlareSolverrClient, SessionError>(SessionError::InvalidEndpoint),
            endpoint_of(base@) matches Some(e) ==> (r matches Ok(c) && c.url@ == e
                && c.session@ == session@ && c.timeout == timeout),
    {
        match resolve_endpoint(base) {
            Some(url) => Ok(FlareSolverrClient { session, timeout, url }),
            None => Err(SessionError::InvalidEndpoint),
        }
    }

    /// Forms a session with a fresh random token against the service at
    /// `base`, with the default bypass timeout.
    pub fn open(base: &str) -> (r: Result<FlareSolverrClient, SessionError>)
        ensures
            endpoint_of(base@) is None ==> r == Err::<FlareSolverrClient, SessionError>(SessionError::InvalidEndpoint),
            endpoint_of(base@) matches Some(e) ==> (r matches Ok(c) && c.url@ == e
                && c.timeout == BYPASS_TIMEOUT_SECS),
    {
        FlareSolverrClient::new(base, BYPASS_TIMEOUT_SECS, fresh_session_token())
    }

    /// The command that creates this session on the service.
    pub fn create_command(&self) -> (r: FalreSolverrCommand)
        ensures
            r matches FalreSolverrCommand::CreateSession(s) && s@ == self.session@,
    {
        FalreSolverrCommand::CreateSession(self.session.clone())
    }

    /// The command that fetches `url` through this session, with its timeout.
    pub fn check_command(&self, url: &str) -> (r: FalreSolverrCommand)
        ensures
            r matches FalreSolverrCommand::Get { url: u, timeout, session }
                && u@ == url@ && timeout == self.timeout && session@ == self.session@,
    {
        FalreSolverrCommand::Get {
            url: url.to_owned(),
            timeout: self.timeout,
            session: self.session.clone(),
        }
    }

    /// The command that destroys this session on the service.
    pub fn destroy_command(&self) -> (r: FalreSolverrCommand)
        ensures
            r matches FalreSolverrCommand::DestroySession(s) && s@ == self.session@,
    {
        FalreSolverrCommand::DestroySession(self.session.clone())
    }

    /// The session once its create command was sent: usable when the service
    /// received it, `CreateFailed` when it could not be reached.
    pub fn confirm(self, delivered: bool) -> (r: Result<FlareSolverrClient, SessionError>)
        ensures
            delivered ==> r == Ok::<FlareSolverrClient, SessionError>(self),
            !delivered ==> r == Err::<FlareSolverrClient, SessionError>(SessionError::CreateFailed),
    {
        if delivered {
            Ok(self)
        } else {
            Err(SessionError::CreateFailed)
        }
    }

    /// The outcome of a destroy command: `DestroyFailed` when the service
    /// could not be reached, since the session may then be left behind.
    pub fn closed(delivered: bool) -> (r: Result<(), SessionError>)
        ensures
            delivered ==> r is Ok,
            !delivered ==> r == Err::<(), SessionError>(SessionError::DestroyFailed),
    {
        if delivered {
            Ok(())
        } else {
            Err(SessionError::DestroyFailed)
        }
    }

    /// The status of `url` from the reply to its fetch command: the solution
    /// read from the reply, or an unknown status where the fetch failed or the
    /// reply was not a solution. This never fails.
    pub fn check(url: String, reply: Option<FlareSolverrSolution>) -> (r: UrlStatus)
        ensures
            reply is None ==> r.url@ == url@ && r.status is None,
            reply matches Some(s) ==> r.url@ == s.url@ && r.status == s.status,
    {
        match reply {
            Some(solution) => UrlStatus { url: solution.url, status: solution.status },
            None => UrlStatus::unknown(url),
        }
    }
}

} // verus!
