use vstd::prelude::*;
use vstd::string::StringExecFns;
use crate::json::{decimal, decimal_text, json_string, json_string_of};

verus! {

/// A command sent to the bypass service, which takes JSON over HTTP POST.
#[derive(Debug, Clone)]
pub enum FalreSolverrCommand {
    /// Fetch `url` through the bypass service within the session.
    Get {
        /// The URL to fetch.
        url: String,
        /// The longest the service may take, in seconds.
        timeout: u32,
        /// The session token.
        session: String,
    },
    /// Create the session with the given token.
    CreateSession(String),
    /// Destroy the session with the given token.
    DestroySession(String),
}

/// The wire timeout: the service takes milliseconds.
pub open spec fn timeout_millis(timeout: u32) -> nat {
    (timeout as nat) * 1000
}

/// The JSON object of a command, as sent to the service.
pub open spec fn command_json(c: FalreSolverrCommand) -> Seq<char> {
    match c {
        FalreSolverrCommand::Get { url, timeout, session } =>
            "{\"cmd\":\"request.get\",\"url\":"@ + json_string_of(url@)
                + ",\"maxTimeout\":"@ + decimal(timeout_millis(timeout))
                + ",\"session\":"@ + json_string_of(session@) + "}"@,
        FalreSolverrCommand::CreateSession(session) =>
            "{\"cmd\":\"sessions.create\",\"session\":"@ + json_string_of(session@) + "}"@,
        FalreSolverrCommand::DestroySession(session) =>
            "{\"cmd\":\"sessions.destroy\",\"session\":"@ + json_string_of(session@) + "}"@,
    }
}

impl FalreSolverrCommand {
    /// The JSON text of this command, ready to be POSTed to the service.
    /// The timeout of a fetch goes on the wire in milliseconds.
    pub fn to_json(&self) -> (r: String)
        ensures
            r@ == command_json(*self),
    {
        match self {
            FalreSolverrCommand::Get { url, timeout, session } => {
                let millis: u64 = (*timeout as u64) * 1000;
                let mut out = String::from_str("{\"cmd\":\"request.get\",\"url\":");
                out.append(json_string(url.as_str()).as_str());
                out.append(",\"maxTimeout\":");
                out.append(decimal_text(millis).as_str());
                out.append(",\"session\":");
                out.append(json_string(session.as_str()).as_str());
                out.append("}");
                out
            },
            FalreSolverrCommand::CreateSession(session) => {
                let mut out = String::from_str("{\"cmd\":\"sessions.create\",\"session\":");
                out.append(json_string(session.as_str()).as_str());
                out.append("}");
                out
            },
            FalreSolverrCommand::DestroySession(session) => {
                let mut out = String::from_str("{\"cmd\":\"sessions.destroy\",\"session\":");
                out.append(json_string(session.as_str()).as_str());
                out.append("}");
                out
            },
        }
    }
}

} // verus!
