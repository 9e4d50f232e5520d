use vstd::prelude::*;
use itertools::Itertools;
use crate::command::FalreSolverrCommand;
use crate::flaresolverr::FlareSolverrClient;
use crate::status::UrlStatus;

verus! {

/// The longest a direct probe may take, in seconds.
pub const DEFAULT_TIMEOUT_SECS: u64 = 10;

/// The HTTP code that sends a probe through the bypass service.
pub const FORBIDDEN: u16 = 403;

/// How a direct GET of a URL ended.
#[derive(Debug, Clone, Copy, PartialEq, Eq, Structural)]
pub enum DirectOutcome {
    /// No response: DNS, connection, TLS, timeout or another transport failure.
    Failed,
    /// A response with this status code.
    Responded(u16),
}

/// What follows a direct probe.
#[derive(Debug, Clone)]
pub enum ProbeStep {
    /// The URL's status is known without further work.
    Done(UrlStatus),
    /// The URL must be fetched through the bypass session with this command;
    /// the reply settles its status (see [`FlareSolverrClient::check`]).
    Bypass(FalreSolverrCommand),
}

/// The texts of a sequence of strings.
pub open spec fn texts(v: Seq<String>) -> Seq<Seq<char>> {
    v.map_values(|s: String| s@)
}

/// The items of `s` in order of first occurrence, each once.
pub open spec fn dedup(s: Seq<Seq<char>>) -> Seq<Seq<char>>
    decreases s.len(),
{
    if s.len() == 0 {
        Seq::empty()
    } else {
        let d = dedup(s.drop_last());
        if d.contains(s.last()) {
            d
        } else {
            d.push(s.last())
        }
    }
}

/// Relies on `Itertools::unique`: the items in the order in which they first
/// occur, each once; `String`'s equality is equality of the text.
#[verifier::external_body]
fn unique_urls(urls: Vec<String>) -> (r: Vec<String>)
    ensures
        texts(r@) == dedup(texts(urls@)),
{
    urls.into_iter().unique().collect()
}

/// Checks URLs: decides, for each direct probe, whether its status is known
/// or the bypass session must fetch it, and owns that session until closed.
#[derive(Debug, Clone)]
pub struct LinkChecker {
    flaresolverr: Option<FlareSolverrClient>,
}

impl LinkChecker {
    /// The bypass session, if one is configured and not yet closed.
    pub closed spec fn bypass(&self) -> Option<FlareSolverrClient> {
        self.flaresolverr
    }

    /// A checker that uses the given session, already created on the
    /// service, as its bypass; none disables the bypass.
    pub fn new(flaresolverr: Option<FlareSolverrClient>) -> (r: LinkChecker)
        ensures
            r.bypass() == flaresolverr,
    {
        LinkChecker { flaresolverr }
    }

    /// The checker once its session has been taken out.
    pub closed spec fn closed(&self) -> LinkChecker {
        LinkChecker { flaresolverr: None }
    }

    /// The token of the session whose destroy command `close` hands out.
    pub open spec fn destroyed_session(&self) -> Option<Seq<char>> {
        match self.bypass() {
            Some(b) => Some(b.session@),
            None => None,
        }
    }

    /// Whether a bypass session is configured and open.
    pub fn has_bypass(&self) -> (r: bool)
        ensures
            r == self.bypass() is Some,
    {
        self.flaresolverr.is_some()
    }

    /// What follows the direct probe of `url`: a transport failure leaves the
    /// status unknown; a 403 goes through the bypass session when there is
    /// one; any other code, and a 403 without a session, is the status.
    pub fn check(&self, url: &str, outcome: DirectOutcome) -> (r: ProbeStep)
        ensures
            outcome is Failed ==> (r matches ProbeStep::Done(s) && s.url@ == url@ && s.status is None),
            outcome is Responded && (outcome->Responded_0 != FORBIDDEN || self.bypass() is None)
                ==> (r matches ProbeStep::Done(s) && s.url@ == url@
                    && s.status == Some(outcome->Responded_0)),
            outcome == DirectOutcome::Responded(FORBIDDEN) && self.bypass() is Some
                ==> (r matches ProbeStep::Bypass(FalreSolverrCommand::Get { url: u, timeout, session })
                    && u@ == url@ && timeout == self.bypass()->Some_0.timeout
                    && session@ == self.bypass()->Some_0.session@),
    {
        match outcome {
            DirectOutcome::Failed => ProbeStep::Done(UrlStatus::unknown(url.to_owned())),
            DirectOutcome::Responded(code) => {
                if code == FORBIDDEN {
                    match &self.flaresolverr {
                        Some(solver) => ProbeStep::Bypass(solver.check_command(url)),
                        None => ProbeStep::Done(UrlStatus::with_code(url.to_owned(), code)),
                    }
                } else {
                    ProbeStep::Done(UrlStatus::with_code(url.to_owned(), code))
                }
            },
        }
    }

    /// The URLs to probe for `urls`: each distinct text once, in order of
    /// first occurrence. One probe runs for each, all at once: nothing bounds
    /// how many run together but the number of distinct URLs.
    pub fn check_all(&self, urls: Vec<String>) -> (r: Vec<String>)
        ensures
            texts(r@) == dedup(texts(urls@)),
    {
        unique_urls(urls)
    }

    /// The status delivered for a probe of `url` once its task has ended: its
    /// result, or an unknown status where the task crashed, so that every URL
    /// probed yields one status.
    pub fn completed(url: String, result: Option<UrlStatus>) -> (r: UrlStatus)
        ensures
            result matches Some(s) ==> r == s,
            result is None ==> r.url@ == url@ && r.status is None,
    {
        match result {
            Some(s) => s,
            None => UrlStatus::unknown(url),
        }
    }

    /// Takes the bypass session out of the checker and returns the command
    /// that destroys it; afterwards the checker has none, so only the first
    /// call, of any number from any path, hands out a destroy command.
    pub fn close(&mut self) -> (r: Option<FalreSolverrCommand>)
        ensures
            *final(self) == old(self).closed(),
            final(self).bypass() is None,
            old(self).destroyed_session() is None ==> r is None,
            old(self).destroyed_session() matches Some(t) ==> (r matches Some(
                FalreSolverrCommand::DestroySession(s)) && s@ == t),
    {
        match self.flaresolverr.take() {
            Some(solver) => Some(solver.destroy_command()),
            None => None,
        }
    }
}

/// A closed checker hands out no destroy command, and closing it again
/// changes nothing: of any number of calls of `close`, on whichever paths,
/// only the first sends a destroy command.
pub proof fn lemma_single_destroy(c: LinkChecker)
    ensures
        c.closed().destroyed_session() is None,
        c.closed().closed() == c.closed(),
{
}

/// An item occurs among the distinct items of `s` exactly when it occurs in `s`.
pub proof fn lemma_dedup_contains(s: Seq<Seq<char>>, x: Seq<char>)
    ensures
        dedup(s).contains(x) <==> s.contains(x),
    decreases s.len(),
{
    if s.len() > 0 {
        let p = s.drop_last();
        lemma_dedup_contains(p, x);
        lemma_dedup_contains(p, s.last());
        if p.contains(x) {
            let i = choose|i: int| 0 <= i < p.len() && p[i] == x;
            assert(s[i] == x);
        }
        if s.contains(x) && x != s.last() {
            let i = choose|i: int| 0 <= i < s.len() && s[i] == x;
            assert(i < s.len() - 1);
            assert(p[i] == x);
        }
        if x == s.last() {
            assert(s[s.len() - 1] == x);
        }
        let d = dedup(p);
        if !d.contains(s.last()) {
            let e = d.push(s.last());
            assert(e[e.len() - 1] == s.last());
            if d.contains(x) {
                let j = choose|j: int| 0 <= j < d.len() && d[j] == x;
                assert(e[j] == x);
            }
            if e.contains(x) && x != s.last() {
                let j = choose|j: int| 0 <= j < e.len() && e[j] == x;
                assert(d[j] == x);
            }
        }
    }
}

/// The distinct items of any sequence occur once each.
pub proof fn lemma_dedup_unique(s: Seq<Seq<char>>)
    ensures
        dedup(s).no_duplicates(),
    decreases s.len(),
{
    if s.len() > 0 {
        let p = s.drop_last();
        lemma_dedup_unique(p);
        let d = dedup(p);
        if !d.contains(s.last()) {
            let e = d.push(s.last());
            assert forall|i: int, j: int| 0 <= i < e.len() && 0 <= j < e.len() && i != j
                implies e[i] != e[j] by {
                if i < d.len() && j < d.len() {
                    assert(d[i] != d[j]);
                } else if i < d.len() {
                    assert(e[i] == d[i]);
                } else {
                    assert(e[j] == d[j]);
                }
            }
        }
    }
}

/// Every URL yields one probe: as many URLs are probed as `urls` holds
/// distinct texts, each of them once, and no other.
pub proof fn lemma_one_probe_per_url(urls: Seq<Seq<char>>)
    ensures
        dedup(urls).no_duplicates(),
        dedup(urls).to_set() == urls.to_set(),
        dedup(urls).len() == urls.to_set().len(),
{
    lemma_dedup_unique(urls);
    assert forall|x: Seq<char>| dedup(urls).to_set().contains(x) <==> urls.to_set().contains(x) by {
        lemma_dedup_contains(urls, x);
    }
    assert(dedup(urls).to_set() =~= urls.to_set());
    dedup(urls).unique_seq_to_set();
}

/// Appending items that already occur leaves the distinct items unchanged.
pub proof fn lemma_dedup_extend(a: Seq<Seq<char>>, b: Seq<Seq<char>>)
    requires
        forall|i: int| 0 <= i < b.len() ==> a.contains(b[i]),
    ensures
        dedup(a + b) == dedup(a),
    decreases b.len(),
{
    if b.len() > 0 {
        let q = b.drop_last();
        assert((a + b).drop_last() =~= a + q);
        assert((a + b).last() == b.last());
        lemma_dedup_extend(a, q);
        lemma_dedup_contains(a, b.last());
        assert(b[b.len() - 1] == b.last());
    } else {
        assert(a + b =~= a);
    }
}

/// Feeding every URL twice probes the same URLs, in the same order, as
/// feeding each once.
pub proof fn lemma_dedup_twice(urls: Seq<Seq<char>>)
    ensures
        dedup(urls + urls) == dedup(urls),
{
    assert forall|i: int| 0 <= i < urls.len() implies urls.contains(urls[i]) by {}
    lemma_dedup_extend(urls, urls);
}

} // verus!
