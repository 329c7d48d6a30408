use crate::keyed::{has_key, keys_unique, lemma_map_absent, lemma_map_at, lemma_push, lemma_remove, seq_to_map};
use vstd::prelude::*;

verus! {

/// Whether an entry stored at `stored_at` may still be served at `now`:
/// its age in seconds is at most `max_age`.
pub open spec fn fresh(stored_at: i64, now: i64, max_age: i64) -> bool {
    now - stored_at <= max_age
}

fn is_fresh(stored_at: i64, now: i64, max_age: i64) -> (r: bool)
    ensures
        r == fresh(stored_at, now, max_age),
{
    (now as i128) - (stored_at as i128) <= max_age as i128
}

pub open spec fn media_entries<V>(s: Seq<(i32, V, i64)>) -> Seq<(i32, (V, i64))> {
    s.map_values(|e: (i32, V, i64)| (e.0, (e.1, e.2)))
}

pub open spec fn list_entries<E>(s: Seq<(i32, String, Vec<E>, i64)>) -> Seq<
    ((i32, Seq<char>), (Vec<E>, i64)),
> {
    s.map_values(|e: (i32, String, Vec<E>, i64)| ((e.0, e.1@), (e.2, e.3)))
}

/// A map read off unique keys has as many keys as there are entries.
proof fn lemma_map_len<K, V>(s: Seq<(K, V)>)
    requires
        keys_unique(s),
    ensures
        seq_to_map(s).dom().finite(),
        seq_to_map(s).dom().len() == s.len(),
    decreases s.len(),
{
    if s.len() == 0 {
        assert(seq_to_map(s).dom() =~= Set::empty());
    } else {
        let init = s.drop_last();
        assert(init.push(s.last()) =~= s);
        assert(keys_unique(init));
        assert(!has_key(init, s.last().0)) by {
            if has_key(init, s.last().0) {
                let i = choose|i: int| 0 <= i < init.len() && init[i].0 == s.last().0;
                assert(s[i].0 == s[s.len() - 1].0);
            }
        }
        lemma_map_len(init);
        lemma_push(init, s.last());
        assert(seq_to_map(s).dom() =~= seq_to_map(init).dom().insert(s.last().0));
    }
}

/// Media cached by id, each with the time it was stored; an entry older
/// than the cache's maximum age is not served.
pub struct MediaCache<V> {
    entries: Vec<(i32, V, i64)>,
    max_age_seconds: i64,
}

impl<V> MediaCache<V> {
    /// The cached media by id, each with the time it was stored.
    pub closed spec fn view(&self) -> Map<i32, (V, i64)> {
        seq_to_map(media_entries(self.entries@))
    }

    pub closed spec fn max_age(&self) -> i64 {
        self.max_age_seconds
    }

    pub closed spec fn wf(&self) -> bool {
        keys_unique(media_entries(self.entries@))
    }

    /// An empty cache whose entries are served for `max_age_seconds`.
    pub fn new(max_age_seconds: i64) -> (r: Self)
        ensures
            r.wf(),
            r@ == Map::<i32, (V, i64)>::empty(),
            r.max_age() == max_age_seconds,
    {
        let r = MediaCache { entries: Vec::new(), max_age_seconds };
        assert(r@ =~= Map::<i32, (V, i64)>::empty());
        r
    }

    fn find(&self, id: i32) -> (r: Option<usize>)
        requires
            self.wf(),
        ensures
            match r {
                Some(i) => i < self.entries@.len() && self.entries@[i as int].0 == id
                    && self@.contains_key(id) && self@[id] == (
                    self.entries@[i as int].1,
                    self.entries@[i as int].2,
                ),
                None => !self@.contains_key(id),
            },
    {
        let ghost s = media_entries(self.entries@);
        let mut i: usize = 0;
        while i < self.entries.len()
            invariant
                i <= self.entries@.len(),
                s == media_entries(self.entries@),
                self.wf(),
                forall|j: int| 0 <= j < i ==> self.entries@[j].0 != id,
            decreases self.entries.len() - i,
        {
            if self.entries[i].0 == id {
                proof {
                    lemma_map_at(s, i as int);
                }
                return Some(i);
            }
            i = i + 1;
        }
        proof {
            assert forall|j: int| 0 <= j < s.len() implies s[j].0 != id by {
                assert(s[j].0 == self.entries@[j].0);
            }
            lemma_map_absent(s, id);
        }
        None
    }

    /// Caches `media` under `id` as stored at `now`, replacing what was there.
    pub fn add(&mut self, id: i32, media: V, now: i64)
        requires
            old(self).wf(),
        ensures
            final(self).wf(),
            final(self)@ == old(self)@.insert(id, (media, now)),
            final(self).max_age() == old(self).max_age(),
    {
        let ghost before = self@;
        if let Some(i) = self.find(id) {
            let ghost s = media_entries(self.entries@);
            self.entries.remove(i);
            proof {
                assert(media_entries(self.entries@) =~= s.remove(i as int));
                lemma_remove(s, i as int);
            }
        }
        let ghost mid = media_entries(self.entries@);
        assert(!has_key(mid, id)) by {
            if has_key(mid, id) {
                assert(seq_to_map(mid).contains_key(id));
            }
        }
        self.entries.push((id, media, now));
        proof {
            assert(media_entries(self.entries@) =~= mid.push((id, (media, now))));
            lemma_push(mid, (id, (media, now)));
            assert(self@ =~= before.insert(id, (media, now)));
        }
    }

    /// The media cached under `id`, if it was stored no more than the
    /// maximum age before `now`.
    pub fn get(&self, id: i32, now: i64) -> (r: Option<&V>)
        requires
            self.wf(),
        ensures
            match self@.get(id) {
                Some(e) => if fresh(e.1, now, self.max_age()) {
                    r matches Some(v) && *v == e.0
                } else {
                    r is None
                },
                None => r is None,
            },
    {
        match self.find(id) {
            Some(i) => {
                let e = &self.entries[i];
                if is_fresh(e.2, now, self.max_age_seconds) {
                    Some(&e.1)
                } else {
                    None
                }
            },
            None => None,
        }
    }

    /// Drops what is cached under `id`.
    pub fn invalidate(&mut self, id: i32)
        requires
            old(self).wf(),
        ensures
            final(self).wf(),
            final(self)@ == old(self)@.remove(id),
            final(self).max_age() == old(self).max_age(),
    {
        let ghost before = self@;
        match self.find(id) {
            Some(i) => {
                let ghost s = media_entries(self.entries@);
                self.entries.remove(i);
                proof {
                    assert(media_entries(self.entries@) =~= s.remove(i as int));
                    lemma_remove(s, i as int);
                }
            },
            None => {
                assert(before =~= before.remove(id));
            },
        }
    }

    /// Drops everything.
    pub fn clear(&mut self)
        ensures
            final(self).wf(),
            final(self)@ == Map::<i32, (V, i64)>::empty(),
            final(self).max_age() == old(self).max_age(),
    {
        self.entries.clear();
        assert(self@ =~= Map::<i32, (V, i64)>::empty());
    }

    /// How many ids are cached, fresh or not.
    pub fn len(&self) -> (r: usize)
        requires
            self.wf(),
        ensures
            r == self@.len(),
    {
        proof {
            lemma_map_len(media_entries(self.entries@));
        }
        self.entries.len()
    }

    /// Whether nothing is cached.
    pub fn is_empty(&self) -> (r: bool)
        requires
            self.wf(),
        ensures
            r == (self@.len() == 0),
    {
        self.len() == 0
    }
}

/// Media-list entries cached by user and list status, each list with the
/// time it was stored; a list older than the cache's maximum age is not
/// served.
pub struct ListCache<E> {
    entries: Vec<(i32, String, Vec<E>, i64)>,
    max_age_seconds: i64,
}

impl<E> ListCache<E> {
    /// The cached lists by (user id, status), each with the time it was stored.
    pub closed spec fn view(&self) -> Map<(i32, Seq<char>), (Vec<E>, i64)> {
        seq_to_map(list_entries(self.entries@))
    }

    pub closed spec fn max_age(&self) -> i64 {
        self.max_age_seconds
    }

    pub closed spec fn wf(&self) -> bool {
        keys_unique(list_entries(self.entries@))
    }

    /// An empty cache whose lists are served for `max_age_seconds`.
    pub fn new(max_age_seconds: i64) -> (r: Self)
        ensures
            r.wf(),
            r@ == Map::<(i32, Seq<char>), (Vec<E>, i64)>::empty(),
            r.max_age() == max_age_seconds,
    {
        let r = ListCache { entries: Vec::new(), max_age_seconds };
        assert(r@ =~= Map::<(i32, Seq<char>), (Vec<E>, i64)>::empty());
        r
    }

    fn find(&self, user_id: i32, status: &str) -> (r: Option<usize>)
        requires
            self.wf(),
        ensures
            match r {
                Some(i) => i < self.entries@.len() && self.entries@[i as int].0 == user_id
                    && self.entries@[i as int].1@ == status@ && self@.contains_key((user_id, status@))
                    && self@[(user_id, status@)] == (
                    self.entries@[i as int].2,
                    self.entries@[i as int].3,
                ),
                None => !self@.contains_key((user_id, status@)),
            },
    {
        let ghost s = list_entries(self.entries@);
        let ghost key = (user_id, status@);
        let status_s = String::from_str(status);
        let mut i: usize = 0;
        while i < self.entries.len()
            invariant
                i <= self.entries@.len(),
                s == list_entries(self.entries@),
                self.wf(),
                status_s@ == status@,
                key == (user_id, status@),
                forall|j: int| 0 <= j < i ==> s[j].0 != key,
            decreases self.entries.len() - i,
        {
            let e = &self.entries[i];
            assert(s[i as int].0 == (e.0, e.1@));
            if e.0 == user_id && e.1 == status_s {
                proof {
                    lemma_map_at(s, i as int);
                }
                return Some(i);
            }
            i = i + 1;
        }
        proof {
            lemma_map_absent(s, key);
        }
        None
    }

    /// Caches `entries` as the list of `user_id` with `status`, stored at
    /// `now`, replacing what was there.
    pub fn add(&mut self, user_id: i32, status: String, entries: Vec<E>, now: i64)
        requires
            old(self).wf(),
        ensures
            final(self).wf(),
            final(self)@ == old(self)@.insert((user_id, status@), (entries, now)),
            final(self).max_age() == old(self).max_age(),
    {
        let ghost before = self@;
        let ghost key = (user_id, status@);
        if let Some(i) = self.find(user_id, status.as_str()) {
            let ghost s = list_entries(self.entries@);
            self.entries.remove(i);
            proof {
                assert(list_entries(self.entries@) =~= s.remove(i as int));
                lemma_remove(s, i as int);
            }
        }
        let ghost mid = list_entries(self.entries@);
        assert(!has_key(mid, key)) by {
            if has_key(mid, key) {
                assert(seq_to_map(mid).contains_key(key));
            }
        }
        self.entries.push((user_id, status, entries, now));
        proof {
            assert(list_entries(self.entries@) =~= mid.push((key, (entries, now))));
            lemma_push(mid, (key, (entries, now)));
            assert(self@ =~= before.insert(key, (entries, now)));
        }
    }

    /// The list of `user_id` with `status`, if it was stored no more than
    /// the maximum age before `now`.
    pub fn get(&self, user_id: i32, status: &str, now: i64) -> (r: Option<&Vec<E>>)
        requires
            self.wf(),
        ensures
            match self@.get((user_id, status@)) {
                Some(e) => if fresh(e.1, now, self.max_age()) {
                    r matches Some(v) && *v == e.0
                } else {
                    r is None
                },
                None => r is None,
            },
    {
        match self.find(user_id, status) {
            Some(i) => {
                let e = &self.entries[i];
                if is_fresh(e.3, now, self.max_age_seconds) {
                    Some(&e.2)
                } else {
                    None
                }
            },
            None => None,
        }
    }

    /// Drops the list of `user_id` with `status`.
    pub fn invalidate(&mut self, user_id: i32, status: &str)
        requires
            old(self).wf(),
        ensures
            final(self).wf(),
            final(self)@ == old(self)@.remove((user_id, status@)),
            final(self).max_age() == old(self).max_age(),
    {
        let ghost before = self@;
        match self.find(user_id, status) {
            Some(i) => {
                let ghost s = list_entries(self.entries@);
                proof {
                    lemma_map_at(s, i as int);
                }
                self.entries.remove(i);
                proof {
                    assert(list_entries(self.entries@) =~= s.remove(i as int));
                    lemma_remove(s, i as int);
                }
            },
            None => {
                assert(before =~= before.remove((user_id, status@)));
            },
        }
    }

    /// Drops every list of `user_id`.
    pub fn invalidate_all_for_user(&mut self, user_id: i32)
        requires
            old(self).wf(),
        ensures
            final(self).wf(),
            final(self).max_age() == old(self).max_age(),
            forall|k: (i32, Seq<char>)| #[trigger]
                final(self)@.contains_key(k) == (old(self)@.contains_key(k) && k.0 != user_id),
            forall|k: (i32, Seq<char>)| #[trigger]
                final(self)@.contains_key(k) ==> final(self)@[k] == old(self)@[k],
    {
        let ghost before = self@;
        let mut i: usize = 0;
        while i < self.entries.len()
            invariant
                i <= self.entries@.len(),
                self.wf(),
                self.max_age_seconds == old(self).max_age_seconds,
                before == old(self)@,
                forall|k: (i32, Seq<char>)| #[trigger]
                    self@.contains_key(k) ==> before.contains_key(k) && self@[k] == before[k],
                forall|k: (i32, Seq<char>)|
                    before.contains_key(k) && k.0 != user_id ==> #[trigger] self@.contains_key(k),
                forall|j: int| 0 <= j < i ==> self.entries@[j].0 != user_id,
            decreases self.entries.len() - i,
        {
            if self.entries[i].0 == user_id {
                let ghost s = list_entries(self.entries@);
                let ghost old_entries = self.entries@;
                let ghost prev = self@;
                self.entries.remove(i);
                proof {
                    assert(list_entries(self.entries@) =~= s.remove(i as int));
                    lemma_remove(s, i as int);
                    assert(s[i as int].0.0 == user_id);
                    assert(self@ == prev.remove(s[i as int].0));
                    assert forall|k: (i32, Seq<char>)| #[trigger] self@.contains_key(k) implies before.contains_key(k)
                        && self@[k] == before[k] by {
                        assert(prev.contains_key(k));
                    }
                    assert forall|k: (i32, Seq<char>)|
                        before.contains_key(k) && k.0 != user_id implies #[trigger] self@.contains_key(k) by {
                        assert(prev.contains_key(k));
                    }
                    assert forall|j: int| 0 <= j < i implies self.entries@[j].0 != user_id by {
                        assert(self.entries@[j] == old_entries[j]);
                    }
                }
            } else {
                i = i + 1;
            }
        }
        proof {
            let s = list_entries(self.entries@);
            assert forall|k: (i32, Seq<char>)| k.0 == user_id implies !#[trigger] self@.contains_key(
                k,
            ) by {
                assert forall|j: int| 0 <= j < s.len() implies s[j].0 != k by {
                    assert(s[j].0.0 == self.entries@[j].0);
                }
                lemma_map_absent(s, k);
            }
        }
    }

    /// Drops everything.
    pub fn clear(&mut self)
        ensures
            final(self).wf(),
            final(self)@ == Map::<(i32, Seq<char>), (Vec<E>, i64)>::empty(),
            final(self).max_age() == old(self).max_age(),
    {
        self.entries.clear();
        assert(self@ =~= Map::<(i32, Seq<char>), (Vec<E>, i64)>::empty());
    }

    /// How many lists are cached, fresh or not.
    pub fn len(&self) -> (r: usize)
        requires
            self.wf(),
        ensures
            r == self@.len(),
    {
        proof {
            lemma_map_len(list_entries(self.entries@));
        }
        self.entries.len()
    }

    /// Whether nothing is cached.
    pub fn is_empty(&self) -> (r: bool)
        requires
            self.wf(),
        ensures
            r == (self@.len() == 0),
    {
        self.len() == 0
    }
}

} // verus!
