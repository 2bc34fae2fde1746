//! The controller: discovery feeds the pending queue, announcement drains it.
use vstd::prelude::*;
use vstd::string::StringExecFns;
use crate::claims::{is_live, ClaimLedger};
use crate::config::{Blacklist, Config};
use crate::queue::{holds_key, repos_hold_key, PendingQueue};
use crate::repo::Repo;
use crate::storage::{ClaimCheck, Storage, StoreCommand, redis_url_accepted};
use crate::stream::{later, poll_state, StreamState, TimedStream};
use crate::Error;

verus! {

/// A discovered repository with what the claim store said of its key.
#[derive(Debug)]
pub struct Candidate {
    pub repo: Repo,
    pub check: ClaimCheck,
}

/// A candidate survives when no live claim is known to hold its key (a
/// failed lookup counts as claimed) and the policy does not exclude it.
pub open spec fn keeps(c: Candidate, blacklist: Blacklist) -> bool {
    c.check == ClaimCheck::Unclaimed && !blacklist.excludes(c.repo)
}

/// The repositories of a batch that join the queue `pending`, in the
/// batch's order: those that survive and whose key is neither waiting nor
/// taken by an earlier survivor of the batch.
pub open spec fn survivors(pending: Seq<Repo>, cands: Seq<Candidate>, blacklist: Blacklist) -> Seq<
    Repo,
>
    decreases cands.len(),
{
    if cands.len() == 0 {
        Seq::empty()
    } else {
        let rest = survivors(pending, cands.drop_last(), blacklist);
        let c = cands.last();
        if keeps(c, blacklist) && !holds_key(pending + rest, c.repo.key()) {
            rest.push(c.repo)
        } else {
            rest
        }
    }
}

/// The pending items after a discovery tick: a failed fetch changes nothing.
pub open spec fn after_tick(
    pending: Seq<Repo>,
    outcome: Result<Seq<Candidate>, Error>,
    blacklist: Blacklist,
) -> Seq<Repo> {
    match outcome {
        Ok(cands) => pending + survivors(pending, cands, blacklist),
        Err(_) => pending,
    }
}

/// No two items of `q` share a key.
pub open spec fn distinct_keys(q: Seq<Repo>) -> bool {
    forall|i: int, j: int| 0 <= i < q.len() && 0 <= j < q.len() && i != j ==> q[i].key() != q[j].key()
}

/// What a claim map says of `repo` at `now`.
pub open spec fn check_of(claims: Map<Seq<char>, int>, repo: Repo, now: int) -> ClaimCheck {
    if is_live(claims, repo.key(), now) {
        ClaimCheck::Claimed
    } else {
        ClaimCheck::Unclaimed
    }
}

proof fn lemma_holds_key_concat(a: Seq<Repo>, b: Seq<Repo>, k: Seq<char>)
    ensures
        holds_key(a + b, k) == (holds_key(a, k) || holds_key(b, k)),
{
    if holds_key(a + b, k) {
        let i = choose|i: int| 0 <= i < (a + b).len() && #[trigger] (a + b)[i].key() == k;
        if i >= a.len() {
            assert(b[i - a.len()].key() == k);
        }
    }
    if holds_key(b, k) {
        let i = choose|i: int| 0 <= i < b.len() && #[trigger] b[i].key() == k;
        assert((a + b)[a.len() + i].key() == k);
    }
    if holds_key(a, k) {
        let i = choose|i: int| 0 <= i < a.len() && #[trigger] a[i].key() == k;
        assert((a + b)[i].key() == k);
    }
}

/// Filters a fetched batch down to the repositories to enqueue behind the
/// items waiting in `pending`.
pub fn discovery_survivors(cands: &Vec<Candidate>, pending: &TimedStream, blacklist: &Blacklist) -> (r: Vec<Repo>)
    ensures
        r@ == survivors(pending@.items, cands@, *blacklist),
{
    let ghost q = pending@.items;
    let mut out: Vec<Repo> = Vec::new();
    let mut i: usize = 0;
    while i < cands.len()
        invariant
            i <= cands@.len(),
            q == pending@.items,
            out@ == survivors(q, cands@.subrange(0, i as int), *blacklist),
        decreases cands@.len() - i,
    {
        let c = &cands[i];
        assert(cands@.subrange(0, i + 1).drop_last() =~= cands@.subrange(0, i as int));
        assert(cands@.subrange(0, i + 1).last() == cands@[i as int]);
        proof {
            lemma_holds_key_concat(q, out@, c.repo.key());
        }
        if c.check == ClaimCheck::Unclaimed && !blacklist.is_listed(&c.repo)
            && !pending.holds_key(c.repo.name.as_str()) && !repos_hold_key(&out, c.repo.name.as_str()) {
            out.push(c.repo.duplicate());
        }
        i = i + 1;
    }
    assert(cands@.subrange(0, cands@.len() as int) =~= cands@);
    out
}

impl ClaimLedger {
    /// What this ledger says of `repo`'s key at `now`.
    pub fn check(&self, repo: &Repo, now: u64) -> (r: ClaimCheck)
        requires
            self.wf(),
        ensures
            r == check_of(self@, *repo, now as int),
    {
        if self.is_claimed(repo.name.as_str(), now) {
            ClaimCheck::Claimed
        } else {
            ClaimCheck::Unclaimed
        }
    }
}

/// Relies on chrono::Utc::now and DateTime::timestamp: the current time as
/// seconds since the Unix epoch.
#[verifier::external_body]
fn timestamp_now() -> (r: i64) {
    chrono::Utc::now().timestamp()
}

/// The bot: settings, claim store and the gated queue of pending items.
pub struct RustTrending {
    config: Config,
    storage: Storage,
    stream: TimedStream,
}

impl RustTrending {
    /// The settings the bot was made with.
    pub closed spec fn settings(&self) -> Config {
        self.config
    }

    /// The claim store handle.
    pub closed spec fn store(&self) -> Storage {
        self.storage
    }

    /// The announcement gate and the items waiting behind it.
    pub closed spec fn state(&self) -> StreamState {
        self.stream@
    }

    /// No key waits twice.
    pub open spec fn wf(&self) -> bool {
        distinct_keys(self.state().items)
    }

    /// A bot with an empty queue whose first announcement may come one
    /// announce interval after `now` (seconds on the caller's clock).
    pub fn from_config(config: Config, now: u64) -> (r: Result<Self, Error>)
        ensures
            r.is_ok() == redis_url_accepted(config.redis_url@),
            r is Err ==> r == Err::<Self, Error>(Error::InvalidStoreUrl),
            r matches Ok(b) ==> {
                &&& b.wf()
                &&& b.settings() == config
                &&& b.store().ttl() == config.post_ttl
                &&& b.state() == (StreamState {
                    due: later(now as int, config.post_interval as int),
                    interval: config.post_interval as int,
                    items: Seq::empty(),
                })
            },
    {
        let storage = match Storage::from_config(&config) {
            Ok(s) => s,
            Err(e) => return Err(e),
        };
        let interval = config.post_interval as u64;
        let stream = TimedStream::new_interval(PendingQueue::new(), now, interval);
        Ok(RustTrending { config, storage, stream })
    }

    pub fn storage(&self) -> (r: &Storage)
        ensures
            *r == self.store(),
    {
        &self.storage
    }

    pub fn config(&self) -> (r: &Config)
        ensures
            *r == self.settings(),
    {
        &self.config
    }

    /// Number of repositories waiting to be announced.
    pub fn pending(&self) -> (r: usize)
        ensures
            r == self.state().items.len(),
    {
        self.stream.len()
    }

    /// One discovery tick: the survivors of a fetched batch join the queue
    /// behind everything already waiting; a failed fetch changes nothing.
    pub fn discovery_tick(&mut self, outcome: Result<Vec<Candidate>, Error>)
        requires
            old(self).wf(),
        ensures
            final(self).wf(),
            final(self).settings() == old(self).settings(),
            final(self).store() == old(self).store(),
            final(self).state() == (StreamState {
                items: after_tick(
                    old(self).state().items,
                    match outcome {
                        Ok(c) => Ok(c@),
                        Err(e) => Err(e),
                    },
                    old(self).settings().blacklist,
                ),
                ..old(self).state()
            }),
    {
        match outcome {
            Ok(cands) => {
                let batch = discovery_survivors(&cands, &self.stream, &self.config.blacklist);
                proof {
                    lemma_tick_keeps_keys_distinct(self.stream@.items, cands@, self.config.blacklist);
                }
                self.stream.push_all(batch);
            },
            Err(_) => {},
        }
    }

    /// One announce step at `now`: the next repository to publish, if the
    /// interval has elapsed and one is waiting.
    pub fn next_announcement(&mut self, now: u64) -> (r: Option<Repo>)
        requires
            old(self).wf(),
        ensures
            final(self).wf(),
            final(self).settings() == old(self).settings(),
            final(self).store() == old(self).store(),
            (final(self).state(), r) == poll_state(old(self).state(), now as int),
    {
        let r = self.stream.poll(now);
        assert forall|i: int, j: int|
            0 <= i < self.stream@.items.len() && 0 <= j < self.stream@.items.len() && i != j implies
            self.stream@.items[i].key() != self.stream@.items[j].key() by {
            if r is Some {
                assert(self.stream@.items[i] == old(self).stream@.items[i + 1]);
                assert(self.stream@.items[j] == old(self).stream@.items[j + 1]);
            }
        }
        r
    }

    /// The claim that follows the publication of `repo` at `timestamp`:
    /// none when the publication failed.
    pub fn claim_for(&self, repo: &Repo, published: bool, timestamp: i64) -> (r: Option<StoreCommand>)
        ensures
            published ==> r == Some(StoreCommand::SetIfAbsent { key: repo.name, value: timestamp }),
            !published ==> r is None,
    {
        if published {
            Some(self.storage.claim_command(repo, timestamp))
        } else {
            None
        }
    }

    /// The claim that follows the publication of `repo`, stamped with the
    /// current time; none when the publication failed.
    pub fn claim_after_publish(&self, repo: &Repo, published: bool) -> (r: Option<(i64, StoreCommand)>)
        ensures
            !published ==> r is None,
            published ==> (r matches Some((t, c)) && c == (StoreCommand::SetIfAbsent {
                key: repo.name,
                value: t,
            })),
    {
        if published {
            let t = timestamp_now();
            match self.claim_for(repo, true, t) {
                Some(c) => Some((t, c)),
                None => None,
            }
        } else {
            None
        }
    }

    /// The endpoint that announcements are posted to; it waits for the
    /// message to be delivered before answering.
    pub fn webhook_endpoint(&self) -> (r: String)
        ensures
            r@ == self.settings().webhook_url@ + "?wait=true"@,
    {
        self.config.webhook_url.clone().concat("?wait=true")
    }
}

/// Every repository that joins the queue came from a candidate that the
/// claim store reported unclaimed and that the policy does not exclude,
/// whatever else the batch held.
pub proof fn lemma_survivors_kept(pending: Seq<Repo>, cands: Seq<Candidate>, blacklist: Blacklist)
    ensures
        forall|i: int|
            0 <= i < survivors(pending, cands, blacklist).len() ==> exists|j: int|
                0 <= j < cands.len() && cands[j].repo == #[trigger] survivors(pending, cands, blacklist)[i]
                    && keeps(cands[j], blacklist),
    decreases cands.len(),
{
    if cands.len() > 0 {
        lemma_survivors_kept(pending, cands.drop_last(), blacklist);
        let rest = survivors(pending, cands.drop_last(), blacklist);
        assert forall|i: int|
            0 <= i < survivors(pending, cands, blacklist).len() implies exists|j: int|
                0 <= j < cands.len() && cands[j].repo == #[trigger] survivors(pending, cands, blacklist)[i]
                    && keeps(cands[j], blacklist) by {
            if i < rest.len() {
                let j = choose|j: int|
                    0 <= j < cands.drop_last().len() && cands.drop_last()[j].repo == rest[i] && keeps(
                        cands.drop_last()[j],
                        blacklist,
                    );
                assert(cands[j] == cands.drop_last()[j]);
            } else {
                assert(cands[cands.len() - 1] == cands.last());
            }
        }
    }
}

/// A discovery tick never puts a second item with a waiting key in the queue.
pub proof fn lemma_tick_keeps_keys_distinct(pending: Seq<Repo>, cands: Seq<Candidate>, blacklist: Blacklist)
    requires
        distinct_keys(pending),
    ensures
        distinct_keys(pending + survivors(pending, cands, blacklist)),
    decreases cands.len(),
{
    if cands.len() > 0 {
        lemma_tick_keeps_keys_distinct(pending, cands.drop_last(), blacklist);
        let rest = survivors(pending, cands.drop_last(), blacklist);
        let c = cands.last();
        if keeps(c, blacklist) && !holds_key(pending + rest, c.repo.key()) {
            let q = pending + rest;
            assert(pending + rest.push(c.repo) =~= q.push(c.repo));
            assert forall|i: int, j: int|
                0 <= i < q.push(c.repo).len() && 0 <= j < q.push(c.repo).len() && i != j implies
                q.push(c.repo)[i].key() != q.push(c.repo)[j].key() by {
                if i == q.len() {
                    assert(q[j].key() != c.repo.key());
                } else if j == q.len() {
                    assert(q[i].key() != c.repo.key());
                }
            }
        }
    }
}

/// A repository that the policy excludes is never enqueued, whatever the
/// claim store said of it.
pub proof fn lemma_excluded_never_enqueued(
    pending: Seq<Repo>,
    cands: Seq<Candidate>,
    blacklist: Blacklist,
    repo: Repo,
)
    requires
        blacklist.excludes(repo),
    ensures
        !survivors(pending, cands, blacklist).contains(repo),
        after_tick(pending, Ok(cands), blacklist).contains(repo) ==> pending.contains(repo),
{
    lemma_survivors_kept(pending, cands, blacklist);
    if after_tick(pending, Ok(cands), blacklist).contains(repo) {
        let k = choose|k: int|
            0 <= k < after_tick(pending, Ok(cands), blacklist).len() && after_tick(
                pending,
                Ok(cands),
                blacklist,
            )[k] == repo;
        if k >= pending.len() {
            assert(survivors(pending, cands, blacklist)[k - pending.len()] == repo);
        }
    }
}

/// Once a repository has been handed out for announcement and its claim is
/// live, no discovery tick whose lookups reflect the claims puts its key
/// back in the queue: it is not published a second time while the claim
/// lives.
pub proof fn lemma_announced_at_most_once(
    s: StreamState,
    t: int,
    x: Repo,
    claims: Map<Seq<char>, int>,
    now: int,
    cands: Seq<Candidate>,
    blacklist: Blacklist,
)
    requires
        distinct_keys(s.items),
        poll_state(s, t).1 == Some(x),
        is_live(claims, x.key(), now),
        forall|j: int|
            0 <= j < cands.len() ==> #[trigger] cands[j].check == check_of(claims, cands[j].repo, now)
                || cands[j].check == ClaimCheck::Unknown,
    ensures
        !holds_key(after_tick(poll_state(s, t).0.items, Ok(cands), blacklist), x.key()),
{
    let q = poll_state(s, t).0.items;
    let surv = survivors(q, cands, blacklist);
    assert(q == s.items.drop_first());
    if holds_key(q, x.key()) {
        let i = choose|i: int| 0 <= i < q.len() && #[trigger] q[i].key() == x.key();
        assert(s.items[i + 1] == q[i]);
        assert(s.items[0] == x);
    }
    lemma_survivors_kept(q, cands, blacklist);
    if holds_key(surv, x.key()) {
        let i = choose|i: int| 0 <= i < surv.len() && #[trigger] surv[i].key() == x.key();
        let j = choose|j: int|
            0 <= j < cands.len() && cands[j].repo == #[trigger] surv[i] && keeps(cands[j], blacklist);
        assert(cands[j].check == check_of(claims, cands[j].repo, now));
    }
    lemma_holds_key_concat(q, surv, x.key());
}

/// A repository whose key holds a live claim is not enqueued again while
/// the claim lives.
pub proof fn lemma_live_claim_blocks(
    pending: Seq<Repo>,
    claims: Map<Seq<char>, int>,
    repo: Repo,
    now: int,
    blacklist: Blacklist,
)
    requires
        is_live(claims, repo.key(), now),
    ensures
        survivors(pending, seq![Candidate { repo, check: check_of(claims, repo, now) }], blacklist)
            == Seq::<Repo>::empty(),
{
    let s = seq![Candidate { repo, check: check_of(claims, repo, now) }];
    assert(s.drop_last() =~= Seq::<Candidate>::empty());
    assert(survivors(pending, s.drop_last(), blacklist) == Seq::<Repo>::empty());
    assert(s.last() == Candidate { repo, check: check_of(claims, repo, now) });
}

/// A repository whose key holds no live claim (its claim expired, or was
/// never written because the process stopped between publication and
/// claim), which the policy admits and which is not already waiting, is
/// enqueued again when rediscovered.
pub proof fn lemma_unclaimed_rediscovered(
    pending: Seq<Repo>,
    claims: Map<Seq<char>, int>,
    repo: Repo,
    now: int,
    blacklist: Blacklist,
)
    requires
        !is_live(claims, repo.key(), now),
        !blacklist.excludes(repo),
        !holds_key(pending, repo.key()),
    ensures
        survivors(pending, seq![Candidate { repo, check: check_of(claims, repo, now) }], blacklist)
            == seq![repo],
{
    let s = seq![Candidate { repo, check: check_of(claims, repo, now) }];
    assert(s.drop_last() =~= Seq::<Candidate>::empty());
    assert(survivors(pending, s.drop_last(), blacklist) == Seq::<Repo>::empty());
    assert(s.last() == Candidate { repo, check: check_of(claims, repo, now) });
    assert(pending + Seq::<Repo>::empty() =~= pending);
    assert(Seq::<Repo>::empty().push(repo) =~= seq![repo]);
}

/// A failed fetch on one tick leaves the queue as it was, so the next tick
/// enqueues exactly what it would have enqueued had the failure not happened.
pub proof fn lemma_fetch_failure_isolated(
    pending: Seq<Repo>,
    e: Error,
    cands: Seq<Candidate>,
    blacklist: Blacklist,
)
    ensures
        after_tick(after_tick(pending, Err(e), blacklist), Ok(cands), blacklist) == after_tick(
            pending,
            Ok(cands),
            blacklist,
        ),
{
}

} // verus!
