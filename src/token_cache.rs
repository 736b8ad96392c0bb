//! An in-memory token-status cache, keyed by token id, with the same
//! get / set / revoke / mark-fresh operations as the shared cache.
use vstd::prelude::*;
use crate::token_status::{fresh_status, fresh_view, opt_view, revoked_status, revoked_view, TokenStatus, TokenStatusView};

verus! {

/// The first status stored under `key`, if any.
pub open spec fn find_status(entries: Seq<(Seq<char>, TokenStatusView)>, key: Seq<char>) -> Option<
    TokenStatusView,
>
    decreases entries.len(),
{
    if entries.len() == 0 {
        None
    } else if entries[0].0 == key {
        Some(entries[0].1)
    } else {
        find_status(entries.drop_first(), key)
    }
}

/// The entry of `m` at `key`, as an option.
pub open spec fn entry_at(m: Map<Seq<char>, TokenStatusView>, key: Seq<char>) -> Option<
    TokenStatusView,
> {
    if m.contains_key(key) {
        Some(m[key])
    } else {
        None
    }
}

#[derive(Debug)]
pub struct MemoryTokenCache {
    entries: Vec<(String, TokenStatus)>,
}

impl MemoryTokenCache {
    pub closed spec fn entry_views(&self) -> Seq<(Seq<char>, TokenStatusView)> {
        self.entries@.map_values(|e: (String, TokenStatus)| (e.0@, e.1@))
    }
}

impl View for MemoryTokenCache {
    type V = Map<Seq<char>, TokenStatusView>;

    closed spec fn view(&self) -> Map<Seq<char>, TokenStatusView> {
        Map::new(
            |k: Seq<char>| find_status(self.entry_views(), k) is Some,
            |k: Seq<char>| find_status(self.entry_views(), k)->Some_0,
        )
    }
}

proof fn lemma_find_update(
    s: Seq<(Seq<char>, TokenStatusView)>,
    j: int,
    key: Seq<char>,
    v: TokenStatusView,
    k: Seq<char>,
)
    requires
        0 <= j < s.len(),
        s[j].0 == key,
        forall|i: int| 0 <= i < j ==> s[i].0 != key,
    ensures
        find_status(s.update(j, (key, v)), k) == if k == key {
            Some(v)
        } else {
            find_status(s, k)
        },
    decreases j,
{
    let u = s.update(j, (key, v));
    if j > 0 {
        assert(u.drop_first() =~= s.drop_first().update(j - 1, (key, v)));
        lemma_find_update(s.drop_first(), j - 1, key, v, k);
        assert(s[0].0 != key);
        assert(u[0] == s[0]);
    } else {
        assert(u.drop_first() =~= s.drop_first());
        assert(u[0] == (key, v));
    }
}

proof fn lemma_find_absent(s: Seq<(Seq<char>, TokenStatusView)>, key: Seq<char>)
    requires
        forall|i: int| 0 <= i < s.len() ==> s[i].0 != key,
    ensures
        find_status(s, key) is None,
    decreases s.len(),
{
    if s.len() > 0 {
        assert(s[0].0 != key);
        lemma_find_absent(s.drop_first(), key);
    }
}

proof fn lemma_find_push(
    s: Seq<(Seq<char>, TokenStatusView)>,
    key: Seq<char>,
    v: TokenStatusView,
    k: Seq<char>,
)
    requires
        forall|i: int| 0 <= i < s.len() ==> s[i].0 != key,
    ensures
        find_status(s.push((key, v)), k) == if k == key {
            Some(v)
        } else {
            find_status(s, k)
        },
    decreases s.len(),
{
    if s.len() > 0 {
        assert(s.push((key, v)).drop_first() =~= s.drop_first().push((key, v)));
        lemma_find_push(s.drop_first(), key, v, k);
        assert(s[0].0 != key);
        assert(s.push((key, v))[0] == s[0]);
    } else {
        let p = s.push((key, v));
        assert(p[0] == (key, v));
        assert(p.drop_first().len() == 0);
        assert(find_status(p.drop_first(), k) is None);
    }
}

proof fn lemma_find_first(s: Seq<(Seq<char>, TokenStatusView)>, j: int, key: Seq<char>)
    requires
        0 <= j < s.len(),
        s[j].0 == key,
        forall|i: int| 0 <= i < j ==> s[i].0 != key,
    ensures
        find_status(s, key) == Some(s[j].1),
    decreases j,
{
    if j > 0 {
        assert(s[0].0 != key);
        lemma_find_first(s.drop_first(), j - 1, key);
    }
}

impl MemoryTokenCache {
    /// An empty cache.
    pub fn new() -> (r: MemoryTokenCache)
        ensures
            r@ == Map::<Seq<char>, TokenStatusView>::empty(),
    {
        let r = MemoryTokenCache { entries: Vec::new() };
        assert(r@ =~= Map::<Seq<char>, TokenStatusView>::empty());
        r
    }

    /// Index of the first entry stored under `id`.
    fn position(&self, id: &str) -> (r: Option<usize>)
        ensures
            match r {
                Some(j) => j < self.entry_views().len() && self.entry_views()[j as int].0 == id@
                    && forall|i: int| 0 <= i < j ==> self.entry_views()[i].0 != id@,
                None => forall|i: int|
                    0 <= i < self.entry_views().len() ==> self.entry_views()[i].0 != id@,
            },
    {
        let target = id.to_owned();
        let mut i: usize = 0;
        while i < self.entries.len()
            invariant
                0 <= i <= self.entries@.len(),
                target@ == id@,
                self.entry_views().len() == self.entries@.len(),
                forall|k: int| 0 <= k < i ==> self.entry_views()[k].0 != id@,
            decreases self.entries@.len() - i,
        {
            assert(self.entry_views()[i as int].0 == self.entries@[i as int].0@);
            if self.entries[i].0 == target {
                return Some(i);
            }
            i = i + 1;
        }
        None
    }

    /// The status stored for `id`, if any.
    pub fn get(&self, id: &str) -> (r: Option<TokenStatus>)
        ensures
            opt_view(r) == entry_at(self@, id@),
    {
        match self.position(id) {
            Some(j) => {
                proof {
                    lemma_find_first(self.entry_views(), j as int, id@);
                }
                assert(self.entry_views()[j as int].1 == self.entries@[j as int].1@);
                Some(self.entries[j].1.copy())
            },
            None => {
                proof {
                    lemma_find_absent(self.entry_views(), id@);
                }
                None
            },
        }
    }

    /// Stores `status` under `id`, replacing whatever was there.
    pub fn set(&mut self, id: &str, status: TokenStatus)
        ensures
            final(self)@ == old(self)@.insert(id@, status@),
    {
        let ghost before = self.entry_views();
        let ghost sv = status@;
        match self.position(id) {
            Some(j) => {
                self.entries.set(j, (id.to_owned(), status));
                proof {
                    assert(self.entry_views() =~= before.update(j as int, (id@, sv)));
                    assert forall|k: Seq<char>|
                        find_status(self.entry_views(), k) == if k == id@ {
                            Some(sv)
                        } else {
                            find_status(before, k)
                        } by {
                        lemma_find_update(before, j as int, id@, sv, k);
                    }
                }
            },
            None => {
                self.entries.push((id.to_owned(), status));
                proof {
                    assert(self.entry_views() =~= before.push((id@, sv)));
                    assert forall|k: Seq<char>|
                        find_status(self.entry_views(), k) == if k == id@ {
                            Some(sv)
                        } else {
                            find_status(before, k)
                        } by {
                        lemma_find_push(before, id@, sv, k);
                    }
                }
            },
        }
        assert(self@ =~= old(self)@.insert(id@, sv));
    }

    /// Marks `id` revoked, keeping the rest of its status; an absent id starts from the default.
    pub fn revoke(&mut self, id: &str)
        ensures
            final(self)@ == old(self)@.insert(id@, revoked_view(entry_at(old(self)@, id@))),
    {
        let prev = self.get(id);
        self.set(id, revoked_status(prev));
    }

    /// Records a fresh confirmation of `id` at `now`: not revoked, checked at `now`.
    pub fn mark_fresh(&mut self, id: &str, now: i64)
        ensures
            final(self)@ == old(self)@.insert(id@, fresh_view(entry_at(old(self)@, id@), now)),
    {
        let prev = self.get(id);
        self.set(id, fresh_status(prev, now));
    }
}

/// Reading a token id right after storing a status under it gives that status back.
pub proof fn lemma_get_after_set(
    cache: Map<Seq<char>, TokenStatusView>,
    id: Seq<char>,
    status: TokenStatusView,
)
    ensures
        entry_at(cache.insert(id, status), id) == Some(status),
{
}

/// Marking a token fresh twice, with a clock that does not go back, leaves it not
/// revoked, and its check time does not decrease from the first call to the second.
pub proof fn lemma_mark_fresh_twice(
    cache: Map<Seq<char>, TokenStatusView>,
    id: Seq<char>,
    first: i64,
    second: i64,
)
    requires
        first <= second,
    ensures
        ({
            let once = cache.insert(id, fresh_view(entry_at(cache, id), first));
            let twice = once.insert(id, fresh_view(entry_at(once, id), second));
            &&& !once[id].revoked
            &&& !twice[id].revoked
            &&& once[id].last_checked <= twice[id].last_checked
            &&& twice[id].last_checked == second
        }),
{
}

} // verus!
