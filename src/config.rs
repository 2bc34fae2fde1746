//! Runtime settings and the exclusion policy.
use vstd::prelude::*;
use crate::repo::Repo;
use crate::text::contains_text;

verus! {

/// Settings, loaded once at startup.
#[derive(Clone, Debug)]
pub struct Config {
    /// Address of the durable claim store.
    pub redis_url: String,
    /// Address of the notification endpoint.
    pub webhook_url: String,
    /// Lifetime of a claim, in seconds.
    pub post_ttl: usize,
    /// Seconds between two discovery ticks.
    pub fetch_interval: usize,
    /// Seconds between two announcements.
    pub post_interval: usize,
    /// Authors and names that are never announced.
    pub blacklist: Blacklist,
}

/// Excluded author names and excluded repository names.
#[derive(Clone, Debug)]
pub struct Blacklist {
    pub names: Vec<String>,
    pub authors: Vec<String>,
}

/// Whether `s` is one of the entries of `list`.
pub open spec fn listed_in(list: Seq<String>, s: Seq<char>) -> bool {
    exists|i: int| 0 <= i < list.len() && list[i]@ == s
}

impl Blacklist {
    /// The policy excludes a repository whose author or whose name it lists.
    pub open spec fn excludes(&self, repo: Repo) -> bool {
        listed_in(self.authors@, repo.author@) || listed_in(self.names@, repo.name@)
    }

    pub fn is_listed(&self, repo: &Repo) -> (r: bool)
        ensures
            r == self.excludes(*repo),
    {
        contains_text(&self.authors, repo.author.as_str())
            || contains_text(&self.names, repo.name.as_str())
    }
}

} // verus!
