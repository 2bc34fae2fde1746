//! A discovered repository.
use vstd::prelude::*;
use vstd::string::StringExecFns;
use crate::text::{decimal, decimal_text, same_text};

verus! {

/// One entry of the trending feed. Only `name` matters to scheduling: it is
/// the key under which an announcement is claimed. Two authors with
/// repositories of the same name therefore share one claim.
#[derive(Clone, Debug)]
pub struct Repo {
    pub author: String,
    pub description: String,
    pub forks: usize,
    pub name: String,
    pub stars: usize,
    pub url: String,
}

impl Repo {
    /// The key under which an announcement of this repository is claimed.
    pub open spec fn key(self) -> Seq<char> {
        self.name@
    }

    /// One line that presents the repository: `author / name` (only `name`
    /// when the two are the same), then `: description ★stars`.
    pub open spec fn headline(self) -> Seq<char> {
        let who = if self.author@ != self.name@ {
            self.author@ + " / "@ + self.name@
        } else {
            self.name@
        };
        who + ": "@ + self.description@ + " ★"@ + decimal(self.stars as nat)
    }

    pub fn describe(&self) -> (r: String)
        ensures
            r@ == self.headline(),
    {
        let who = if !same_text(self.author.as_str(), self.name.as_str()) {
            self.author.clone().concat(" / ").concat(self.name.as_str())
        } else {
            self.name.clone()
        };
        let r = who.concat(": ").concat(self.description.as_str()).concat(" ★").concat(
            decimal_text(self.stars).as_str(),
        );
        r
    }

    /// A field-by-field copy.
    pub fn duplicate(&self) -> (r: Repo)
        ensures
            r == *self,
    {
        Repo {
            author: self.author.clone(),
            description: self.description.clone(),
            forks: self.forks,
            name: self.name.clone(),
            stars: self.stars,
            url: self.url.clone(),
        }
    }
}

} // verus!
