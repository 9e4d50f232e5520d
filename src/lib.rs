//! Link availability checking: the decisions, command framing and session
//! lifecycle of a checker that probes URLs directly and falls back to an
//! anti-bot bypass service for forbidden responses.
//!
//! Network I/O stays with the caller: it performs each probe or command that
//! the library decides on and hands the outcome back.

pub mod status;
pub mod json;
pub mod command;
pub mod flaresolverr;
pub mod checker;

pub use checker::LinkChecker;
pub use status::UrlStatus;
