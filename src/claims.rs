//! Claims: durable, time-bounded facts "this key has been announced".
//!
//! A claim map sends each claimed key to the instant (in seconds) at which
//! its claim expires. A claim is live strictly before that instant.
use vstd::prelude::*;
use vstd::string::StringExecFns;
use crate::text::same_text;

verus! {

/// Whether `key` holds a live claim at `now`.
pub open spec fn is_live(claims: Map<Seq<char>, int>, key: Seq<char>, now: int) -> bool {
    claims.contains_key(key) && now < claims[key]
}

/// The claims after an attempt to claim `key` at `now` for `ttl` seconds:
/// the attempt succeeds exactly when no live claim holds the key.
pub open spec fn after_claim(claims: Map<Seq<char>, int>, key: Seq<char>, now: int, ttl: int) -> Map<
    Seq<char>,
    int,
> {
    if is_live(claims, key, now) {
        claims
    } else {
        claims.insert(key, now + ttl)
    }
}

/// One stored claim.
#[derive(Clone, Debug)]
pub struct ClaimRecord {
    pub key: String,
    pub expires_at: u64,
}

/// A claim store held in memory, with atomic claim-if-absent: the same
/// semantics as the redis claim protocol of [`crate::storage`], for a single
/// process.
pub struct ClaimLedger {
    records: Vec<ClaimRecord>,
    claims: Ghost<Map<Seq<char>, int>>,
}

impl View for ClaimLedger {
    type V = Map<Seq<char>, int>;

    closed spec fn view(&self) -> Map<Seq<char>, int> {
        self.claims@
    }
}

impl ClaimLedger {
    /// Records and claim map agree, one record per key.
    pub closed spec fn wf(&self) -> bool {
        &&& forall|i: int|
            0 <= i < self.records@.len() ==> {
                &&& self.claims@.contains_key(#[trigger] self.records@[i].key@)
                &&& self.claims@[self.records@[i].key@] == self.records@[i].expires_at as int
            }
        &&& forall|k: Seq<char>|
            #[trigger] self.claims@.contains_key(k) ==> exists|i: int|
                0 <= i < self.records@.len() && self.records@[i].key@ == k
        &&& forall|i: int, j: int|
            0 <= i < self.records@.len() && 0 <= j < self.records@.len() && i != j
                ==> self.records@[i].key@ != self.records@[j].key@
    }

    pub fn new() -> (r: Self)
        ensures
            r.wf(),
            r@ == Map::<Seq<char>, int>::empty(),
    {
        ClaimLedger { records: Vec::new(), claims: Ghost(Map::empty()) }
    }

    /// The position of the record for `key`, if there is one.
    fn find(&self, key: &str) -> (r: Option<usize>)
        requires
            self.wf(),
        ensures
            match r {
                Some(i) => i < self.records@.len() && self.records@[i as int].key@ == key@,
                None => !self@.contains_key(key@),
            },
    {
        let mut i: usize = 0;
        while i < self.records.len()
            invariant
                i <= self.records@.len(),
                forall|j: int| 0 <= j < i ==> self.records@[j].key@ != key@,
            decreases self.records@.len() - i,
        {
            if same_text(self.records[i].key.as_str(), key) {
                return Some(i);
            }
            i = i + 1;
        }
        None
    }

    /// Whether a live claim holds `key` at `now`.
    pub fn is_claimed(&self, key: &str, now: u64) -> (r: bool)
        requires
            self.wf(),
        ensures
            r == is_live(self@, key@, now as int),
    {
        match self.find(key) {
            Some(i) => now < self.records[i].expires_at,
            None => false,
        }
    }

    /// Claims `key` at `now` for `ttl` seconds if no live claim holds it;
    /// returns whether this call created the claim.
    pub fn try_claim(&mut self, key: &str, now: u64, ttl: u64) -> (r: bool)
        requires
            old(self).wf(),
            now + ttl <= u64::MAX,
        ensures
            final(self).wf(),
            r == !is_live(old(self)@, key@, now as int),
            final(self)@ == after_claim(old(self)@, key@, now as int, ttl as int),
    {
        let expires_at = now + ttl;
        let ghost new_claims = self.claims@.insert(key@, expires_at as int);
        match self.find(key) {
            Some(i) => {
                if now < self.records[i].expires_at {
                    return false;
                }
                let k = self.records[i].key.clone();
                self.records.set(i, ClaimRecord { key: k, expires_at });
                self.claims = Ghost(new_claims);
                assert forall|c: Seq<char>| #[trigger] self.claims@.contains_key(c) implies exists|
                    j: int,
                | 0 <= j < self.records@.len() && self.records@[j].key@ == c by {
                    if c != key@ {
                        let j = choose|j: int|
                            0 <= j < old(self).records@.len() && old(self).records@[j].key@ == c;
                        assert(self.records@[j].key@ == c);
                    } else {
                        assert(self.records@[i as int].key@ == c);
                    }
                }
                true
            },
            None => {
                self.records.push(ClaimRecord { key: String::from_str(key), expires_at });
                self.claims = Ghost(new_claims);
                assert forall|c: Seq<char>| #[trigger] self.claims@.contains_key(c) implies exists|
                    j: int,
                | 0 <= j < self.records@.len() && self.records@[j].key@ == c by {
                    if c != key@ {
                        let j = choose|j: int|
                            0 <= j < old(self).records@.len() && old(self).records@[j].key@ == c;
                        assert(self.records@[j].key@ == c);
                    } else {
                        assert(self.records@[self.records@.len() - 1].key@ == c);
                    }
                }
                true
            },
        }
    }
}

/// Once a claim on `key` succeeds at `t1`, every later attempt on the same
/// key before the claim's lifetime has passed fails and changes nothing: at
/// most one announcement per key is claimed while its claim is live.
pub proof fn lemma_claim_exclusive(
    claims: Map<Seq<char>, int>,
    key: Seq<char>,
    t1: int,
    t2: int,
    ttl: int,
)
    requires
        !is_live(claims, key, t1),
        t1 <= t2 < t1 + ttl,
    ensures
        is_live(after_claim(claims, key, t1, ttl), key, t2),
        after_claim(after_claim(claims, key, t1, ttl), key, t2, ttl) == after_claim(
            claims,
            key,
            t1,
            ttl,
        ),
{
}

/// A claim made at `t1` is no longer live once its lifetime has passed, and
/// the key can then be claimed afresh.
pub proof fn lemma_claim_reopens(
    claims: Map<Seq<char>, int>,
    key: Seq<char>,
    t1: int,
    t2: int,
    ttl: int,
)
    requires
        !is_live(claims, key, t1),
        t1 + ttl <= t2,
    ensures
        !is_live(after_claim(claims, key, t1, ttl), key, t2),
        after_claim(after_claim(claims, key, t1, ttl), key, t2, ttl) == claims.insert(
            key,
            t2 + ttl,
        ),
{
    assert(claims.insert(key, t1 + ttl).insert(key, t2 + ttl) =~= claims.insert(key, t2 + ttl));
}

} // verus!
