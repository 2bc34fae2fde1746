//! The ordered queue of repositories waiting to be announced.
use vstd::prelude::*;
use std::collections::VecDeque;
use crate::repo::Repo;
use crate::text::same_text;

verus! {

/// Whether some item of `q` has the key `k`.
pub open spec fn holds_key(q: Seq<Repo>, k: Seq<char>) -> bool {
    exists|i: int| 0 <= i < q.len() && #[trigger] q[i].key() == k
}

/// Whether some repository of `v` has the key `key`.
pub fn repos_hold_key(v: &Vec<Repo>, key: &str) -> (r: bool)
    ensures
        r == holds_key(v@, key@),
{
    let mut i: usize = 0;
    while i < v.len()
        invariant
            i <= v@.len(),
            forall|j: int| 0 <= j < i ==> v@[j].key() != key@,
        decreases v@.len() - i,
    {
        if same_text(v[i].name.as_str(), key) {
            assert(v@[i as int].key() == key@);
            return true;
        }
        i = i + 1;
    }
    false
}

/// First in, first out: items leave in the order they entered.
pub struct PendingQueue {
    items: VecDeque<Repo>,
}

impl View for PendingQueue {
    type V = Seq<Repo>;

    closed spec fn view(&self) -> Seq<Repo> {
        self.items@
    }
}

impl PendingQueue {
    pub fn new() -> (r: Self)
        ensures
            r@ == Seq::<Repo>::empty(),
    {
        PendingQueue { items: VecDeque::new() }
    }

    pub fn len(&self) -> (r: usize)
        ensures
            r == self@.len(),
    {
        self.items.len()
    }

    pub fn is_empty(&self) -> (r: bool)
        ensures
            r == (self@.len() == 0),
    {
        self.items.len() == 0
    }

    /// Whether an item with the key `key` is waiting.
    pub fn holds_key(&self, key: &str) -> (r: bool)
        ensures
            r == holds_key(self@, key@),
    {
        let mut i: usize = 0;
        while i < self.items.len()
            invariant
                i <= self@.len(),
                forall|j: int| 0 <= j < i ==> self@[j].key() != key@,
            decreases self@.len() - i,
        {
            if same_text(self.items[i].name.as_str(), key) {
                assert(self@[i as int].key() == key@);
                return true;
            }
            i = i + 1;
        }
        false
    }

    /// Appends `batch` behind everything already waiting, keeping its order.
    pub fn push_all(&mut self, batch: Vec<Repo>)
        ensures
            final(self)@ == old(self)@ + batch@,
    {
        let mut batch = batch;
        let ghost start = self@;
        let ghost all = batch@;
        let mut rest: VecDeque<Repo> = VecDeque::new();
        // move the batch out front to back
        while batch.len() > 0
            invariant
                batch@ + rest@ == all,
            decreases batch@.len(),
        {
            let r = batch.pop().unwrap();
            rest.push_front(r);
            assert(batch@ + rest@ =~= all);
        }
        assert(rest@ =~= all);
        while rest.len() > 0
            invariant
                self@ + rest@ == start + all,
            decreases rest@.len(),
        {
            let r = rest.pop_front().unwrap();
            self.items.push_back(r);
            assert(self@ + rest@ =~= start + all);
        }
        assert(self@ =~= start + all);
    }

    /// Removes and returns the item at the head.
    pub fn pop(&mut self) -> (r: Option<Repo>)
        ensures
            old(self)@.len() == 0 ==> r is None && final(self)@ == old(self)@,
            old(self)@.len() > 0 ==> r == Some(old(self)@[0]) && final(self)@ == old(
                self,
            )@.drop_first(),
    {
        self.items.pop_front()
    }
}

} // verus!
