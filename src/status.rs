use vstd::prelude::*;

verus! {

/// The status of a URL, with its HTTP status code if one could be determined.
///
/// `status == None` means the outcome is unknown (network failure, timeout,
/// unreadable bypass reply); it is never a stand-in for an HTTP code.
#[derive(Debug, Clone)]
pub struct UrlStatus {
    /// The URL as a string.
    pub url: String,
    /// The HTTP status code returned for the URL, if available.
    pub status: Option<u16>,
}

impl UrlStatus {
    /// A status whose outcome is unknown.
    pub fn unknown(url: String) -> (r: UrlStatus)
        ensures
            r.url@ == url@,
            r.status is None,
    {
        UrlStatus { url, status: None }
    }

    /// A status carrying the HTTP code that the URL answered with.
    pub fn with_code(url: String, code: u16) -> (r: UrlStatus)
        ensures
            r.url@ == url@,
            r.status == Some(code),
    {
        UrlStatus { url, status: Some(code) }
    }
}

impl PartialEq for UrlStatus {
    /// Structural equality: the same URL text and the same status.
    fn eq(&self, other: &UrlStatus) -> (r: bool) {
        let same_status = match (self.status, other.status) {
            (Some(a), Some(b)) => a == b,
            (None, None) => true,
            _ => false,
        };
        self.url == other.url && same_status
    }
}

impl vstd::std_specs::cmp::PartialEqSpecImpl for UrlStatus {
    open spec fn obeys_eq_spec() -> bool {
        true
    }

    open spec fn eq_spec(&self, other: &UrlStatus) -> bool {
        self.url@ == other.url@ && self.status == other.status
    }
}

} // verus!
