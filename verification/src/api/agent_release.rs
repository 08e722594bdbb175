//! The releases of the agent, kept for a while after they were fetched.
use vstd::prelude::*;
use crate::api::error::{ApiError, ErrorKind, internal};

verus! {

/// The repository whose releases are fetched.
pub const RELEASES_REPO: &'static str = "gjovanov/roomler-ai";

/// How many releases are fetched.
pub const RELEASES_PER_PAGE: u64 = 30;

/// How long fetched releases are good, in nanoseconds: an hour.
pub const CACHE_TTL_NANOS: u64 = 3600000000000;

/// A file of a release.
#[derive(Debug)]
#[allow(missing_docs)]
pub struct AgentReleaseAsset {
    pub name: String,
    pub browser_download_url: String,
    pub size: u64,
}

/// A release.
#[derive(Debug)]
#[allow(missing_docs)]
pub struct AgentRelease {
    pub tag_name: String,
    pub draft: bool,
    pub prerelease: bool,
    pub published_at: Option<String>,
    pub assets: Vec<AgentReleaseAsset>,
}

/// The releases that were fetched last, and when.
#[derive(Debug)]
pub struct LatestReleaseCache {
    /// The releases, with the time of a steady clock in nanoseconds.
    pub entry: Option<(u64, Vec<AgentRelease>)>,
}

/// Whether what was fetched then is still good now.
pub open spec fn is_fresh(fetched_at: u64, now: u64) -> bool {
    now - fetched_at < CACHE_TTL_NANOS
}

impl LatestReleaseCache {
    /// Nothing was fetched yet.
    pub fn new() -> (r: LatestReleaseCache)
        ensures
            r.entry is None,
    {
        LatestReleaseCache { entry: None }
    }

    /// The releases, where they are still good: then nothing is fetched.
    pub fn fresh(&self, now: u64) -> (r: Option<&Vec<AgentRelease>>)
        ensures
            match self.entry {
                Some((at, list)) => if is_fresh(at, now) {
                    r matches Some(l) && *l == list
                } else {
                    r is None
                },
                None => r is None,
            },
    {
        match &self.entry {
            Some((at, list)) => if now <= *at || now - *at < CACHE_TTL_NANOS {
                Some(list)
            } else {
                None
            },
            None => None,
        }
    }

    /// The releases, once they were fetched or could not be. What was fetched
    /// is kept; where nothing could be, what was known is given once more,
    /// however old it is; where nothing was known, the answer is the error.
    pub fn latest_release(&mut self, fetched: Result<Vec<AgentRelease>, String>, now: u64) -> (r:
        Result<&Vec<AgentRelease>, ApiError>)
        ensures
            match fetched {
                Ok(list) => {
                    &&& final(self).entry == Some((now, list))
                    &&& r matches Ok(l)
                    &&& *l == list
                },
                Err(m) => {
                    &&& final(self).entry == old(self).entry
                    &&& match old(self).entry {
                        Some((_, known)) => r matches Ok(l) && *l == known,
                        None => r matches Err(e) && e@ == (
                            ErrorKind::Internal,
                            "upstream releases fetch failed and no cache: "@ + m@,
                        ),
                    }
                },
            },
    {
        match fetched {
            Ok(list) => {
                self.entry = Some((now, list));
            },
            Err(m) => {
                if self.entry.is_none() {
                    return Err(
                        internal("upstream releases fetch failed and no cache: ", m.as_str()),
                    );
                }
            },
        }
        match &self.entry {
            Some((_, list)) => Ok(list),
            None => Err(internal("upstream releases fetch failed and no cache: ", "")),
        }
    }
}

/// Where the releases are fetched from.
pub fn releases_url() -> (r: String)
    ensures
        r@ == "https://api.github.com/repos/"@ + RELEASES_REPO@ + "/releases?per_page="@
            + crate::num::decimal(RELEASES_PER_PAGE as nat),
{
    let n: String = crate::num::to_decimal(RELEASES_PER_PAGE);
    let front: String = crate::text::cat3(
        "https://api.github.com/repos/",
        RELEASES_REPO,
        "/releases?per_page=",
    );
    crate::text::cat2(front.as_str(), n.as_str())
}

/// Whether the releases were sent, by the status of the answer and its text.
pub fn fetch_releases(success: bool, status: &str) -> (r: Result<(), String>)
    ensures
        r is Ok <==> success,
        r matches Err(m) ==> m@ == "GitHub returned "@ + status@,
{
    if success {
        Ok(())
    } else {
        Err(crate::text::cat2("GitHub returned ", status))
    }
}

/// What was fetched is good for less than an hour, and is not fetched again
/// before that.
pub proof fn releases_are_good_for_an_hour(fetched_at: u64, now: u64)
    requires
        fetched_at <= now,
    ensures
        is_fresh(fetched_at, now) <==> now < fetched_at + 3600 * 1000000000,
{
}

} // verus!
