//! The session table: which live connection each 16-byte session id stands
//! for. It is shared by all connection handlers behind one lock, so its
//! operations are plain map operations and never wait on anything.
use vstd::prelude::*;

verus! {

/// A live association between a session id and a connection.
#[derive(Debug, Clone, Copy, PartialEq, Eq)]
pub struct Session {
    /// The device that the connection belongs to.
    pub device_id: [u8; 16],
    /// The handle under which the supervisor knows the connection.
    pub connection_id: u64,
    /// When the session was created, in seconds since the Unix epoch.
    pub created_at: i64,
}

/// No session id occurs twice in `s`.
pub open spec fn keys_unique(s: Seq<([u8; 16], Session)>) -> bool {
    forall|i: int, j: int| 0 <= i < j < s.len() ==> s[i].0 != s[j].0
}

/// The map that the entries `s` stand for.
pub open spec fn entries_map(s: Seq<([u8; 16], Session)>) -> Map<[u8; 16], Session>
    decreases s.len(),
{
    if s.len() == 0 {
        Map::empty()
    } else {
        entries_map(s.drop_last()).insert(s.last().0, s.last().1)
    }
}

proof fn lemma_entries_unique_drop_last(s: Seq<([u8; 16], Session)>)
    requires
        keys_unique(s),
        s.len() > 0,
    ensures
        keys_unique(s.drop_last()),
        forall|i: int| 0 <= i < s.len() - 1 ==> s[i].0 != s.last().0,
{
}

proof fn lemma_entries_absent(s: Seq<([u8; 16], Session)>, k: [u8; 16])
    requires
        forall|i: int| 0 <= i < s.len() ==> s[i].0 != k,
    ensures
        !entries_map(s).contains_key(k),
    decreases s.len(),
{
    if s.len() > 0 {
        lemma_entries_absent(s.drop_last(), k);
    }
}

proof fn lemma_entries_lookup(s: Seq<([u8; 16], Session)>, i: int)
    requires
        keys_unique(s),
        0 <= i < s.len(),
    ensures
        entries_map(s).contains_key(s[i].0),
        entries_map(s)[s[i].0] == s[i].1,
    decreases s.len(),
{
    lemma_entries_unique_drop_last(s);
    if i < s.len() - 1 {
        lemma_entries_lookup(s.drop_last(), i);
    }
}

proof fn lemma_entries_update(s: Seq<([u8; 16], Session)>, i: int, v: Session)
    requires
        keys_unique(s),
        0 <= i < s.len(),
    ensures
        keys_unique(s.update(i, (s[i].0, v))),
        entries_map(s.update(i, (s[i].0, v))) == entries_map(s).insert(s[i].0, v),
    decreases s.len(),
{
    let k = s[i].0;
    let t = s.update(i, (k, v));
    lemma_entries_unique_drop_last(s);
    assert(keys_unique(t));
    if i == s.len() - 1 {
        assert(t.drop_last() =~= s.drop_last());
        assert(entries_map(t) =~= entries_map(s).insert(k, v));
    } else {
        assert(t.drop_last() =~= s.drop_last().update(i, (k, v)));
        lemma_entries_update(s.drop_last(), i, v);
        assert(entries_map(t) =~= entries_map(s).insert(k, v));
    }
}

proof fn lemma_entries_remove(s: Seq<([u8; 16], Session)>, i: int)
    requires
        keys_unique(s),
        0 <= i < s.len(),
    ensures
        keys_unique(s.remove(i)),
        entries_map(s.remove(i)) == entries_map(s).remove(s[i].0),
    decreases s.len(),
{
    let k = s[i].0;
    let t = s.remove(i);
    lemma_entries_unique_drop_last(s);
    assert forall|a: int, b: int| 0 <= a < b < t.len() implies t[a].0 != t[b].0 by {
        let sa = if a < i { a } else { a + 1 };
        let sb = if b < i { b } else { b + 1 };
        assert(t[a] == s[sa] && t[b] == s[sb]);
    }
    if i == s.len() - 1 {
        assert(t =~= s.drop_last());
        lemma_entries_absent(s.drop_last(), k);
        assert(entries_map(t) =~= entries_map(s).remove(k));
    } else {
        assert(t.drop_last() =~= s.drop_last().remove(i));
        assert(t.last() == s.last());
        lemma_entries_remove(s.drop_last(), i);
        assert(entries_map(t) =~= entries_map(s).remove(k));
    }
}

/// Whether two ids are equal.
fn ids_equal(a: &[u8; 16], b: &[u8; 16]) -> (r: bool)
    ensures
        r == (*a == *b),
{
    let mut i: usize = 0;
    while i < 16
        invariant
            0 <= i <= 16,
            forall|j: int| 0 <= j < i ==> a[j] == b[j],
        decreases 16 - i,
    {
        if a[i] != b[i] {
            return false;
        }
        i = i + 1;
    }
    assert(*a =~= *b);
    true
}

/// Sessions by session id.
pub struct SessionTable {
    entries: Vec<([u8; 16], Session)>,
}

impl View for SessionTable {
    type V = Map<[u8; 16], Session>;

    closed spec fn view(&self) -> Map<[u8; 16], Session> {
        entries_map(self.entries@)
    }
}

impl SessionTable {
    /// Every session id occurs once.
    pub closed spec fn wf(&self) -> bool {
        keys_unique(self.entries@)
    }

    /// An empty table.
    pub fn new() -> (r: SessionTable)
        ensures
            r.wf(),
            r@ == Map::<[u8; 16], Session>::empty(),
    {
        SessionTable { entries: Vec::new() }
    }

    /// Where `id` stands in the entries, if it does.
    fn find(&self, id: &[u8; 16]) -> (r: Option<usize>)
        ensures
            match r {
                Some(i) => i < self.entries@.len() && self.entries@[i as int].0 == *id,
                None => forall|i: int| 0 <= i < self.entries@.len() ==> self.entries@[i].0 != *id,
            },
    {
        let mut i: usize = 0;
        while i < self.entries.len()
            invariant
                0 <= i <= self.entries@.len(),
                forall|j: int| 0 <= j < i ==> self.entries@[j].0 != *id,
            decreases self.entries@.len() - i,
        {
            if ids_equal(&self.entries[i].0, id) {
                return Some(i);
            }
            i = i + 1;
        }
        None
    }

    /// The session under `id`, if there is one.
    pub fn get(&self, id: &[u8; 16]) -> (r: Option<Session>)
        requires
            self.wf(),
        ensures
            r == (if self@.contains_key(*id) {
                Some(self@[*id])
            } else {
                None::<Session>
            }),
    {
        match self.find(id) {
            Some(i) => {
                proof {
                    lemma_entries_lookup(self.entries@, i as int);
                }
                Some(self.entries[i].1)
            },
            None => {
                proof {
                    lemma_entries_absent(self.entries@, *id);
                }
                None
            },
        }
    }

    /// Puts `session` under `id`; returns the session it replaces, if any.
    pub fn insert(&mut self, id: [u8; 16], session: Session) -> (r: Option<Session>)
        requires
            old(self).wf(),
        ensures
            final(self).wf(),
            final(self)@ == old(self)@.insert(id, session),
            r == (if old(self)@.contains_key(id) {
                Some(old(self)@[id])
            } else {
                None::<Session>
            }),
    {
        match self.find(&id) {
            Some(i) => {
                let previous = self.entries[i].1;
                proof {
                    lemma_entries_lookup(self.entries@, i as int);
                    lemma_entries_update(self.entries@, i as int, session);
                }
                self.entries.set(i, (id, session));
                Some(previous)
            },
            None => {
                proof {
                    lemma_entries_absent(self.entries@, id);
                }
                let ghost before = self.entries@;
                self.entries.push((id, session));
                proof {
                    assert(self.entries@.drop_last() =~= before);
                }
                None
            },
        }
    }

    /// Takes the session under `id` out of the table, if there is one.
    pub fn remove(&mut self, id: &[u8; 16]) -> (r: Option<Session>)
        requires
            old(self).wf(),
        ensures
            final(self).wf(),
            final(self)@ == old(self)@.remove(*id),
            r == (if old(self)@.contains_key(*id) {
                Some(old(self)@[*id])
            } else {
                None::<Session>
            }),
    {
        match self.find(id) {
            Some(i) => {
                proof {
                    lemma_entries_lookup(self.entries@, i as int);
                    lemma_entries_remove(self.entries@, i as int);
                }
                let (_, session) = self.entries.remove(i);
                Some(session)
            },
            None => {
                proof {
                    lemma_entries_absent(self.entries@, *id);
                    assert(self@ =~= self@.remove(*id));
                }
                None
            },
        }
    }
}

} // verus!
