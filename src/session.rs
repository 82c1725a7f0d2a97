//! The session store: the token the service issued to each signed-in user.
use vstd::prelude::*;
use crate::text::str_eq;

verus! {

/// Whether no two entries share a username.
pub open spec fn unique_keys(e: Seq<(String, String)>) -> bool {
    forall|i: int, j: int|
        0 <= i < e.len() && 0 <= j < e.len() && i != j ==> #[trigger] e[i].0@ != #[trigger] e[j].0@
}

/// Whether some entry is for username `k`.
pub open spec fn has_key(e: Seq<(String, String)>, k: Seq<char>) -> bool {
    exists|i: int| 0 <= i < e.len() && #[trigger] e[i].0@ == k
}

/// The username-to-token map that a list of entries stands for.
pub open spec fn map_of(e: Seq<(String, String)>) -> Map<Seq<char>, Seq<char>> {
    Map::new(
        |k: Seq<char>| has_key(e, k),
        |k: Seq<char>| e[choose|i: int| 0 <= i < e.len() && #[trigger] e[i].0@ == k].1@,
    )
}

proof fn lemma_lookup(e: Seq<(String, String)>, i: int)
    requires
        unique_keys(e),
        0 <= i < e.len(),
    ensures
        map_of(e).contains_key(e[i].0@),
        map_of(e)[e[i].0@] == e[i].1@,
{
    let k = e[i].0@;
    assert(has_key(e, k));
    let j = choose|j: int| 0 <= j < e.len() && #[trigger] e[j].0@ == k;
    assert(j == i);
}

/// The sessions of one client: at most one token per username.
pub struct SessionStore {
    entries: Vec<(String, String)>,
}

impl View for SessionStore {
    type V = Map<Seq<char>, Seq<char>>;

    closed spec fn view(&self) -> Map<Seq<char>, Seq<char>> {
        map_of(self.entries@)
    }
}

impl SessionStore {
    #[verifier::type_invariant]
    spec fn keys_unique(&self) -> bool {
        unique_keys(self.entries@)
    }

    /// A store with no sessions.
    pub fn new() -> (r: SessionStore)
        ensures
            r@ == Map::<Seq<char>, Seq<char>>::empty(),
    {
        let r = SessionStore { entries: Vec::new() };
        assert(map_of(r.entries@) =~= Map::<Seq<char>, Seq<char>>::empty());
        r
    }

    /// Moves the entries out, leaving the store empty.
    fn take_entries(&mut self) -> (e: Vec<(String, String)>)
        ensures
            e@ == old(self).entries@,
            unique_keys(e@),
    {
        proof {
            use_type_invariant(&*self);
        }
        let mut empty = SessionStore { entries: Vec::new() };
        core::mem::swap(self, &mut empty);
        let SessionStore { entries } = empty;
        entries
    }

    fn find(&self, username: &str) -> (r: Option<usize>)
        ensures
            match r {
                Some(i) => i < self.entries@.len() && self.entries@[i as int].0@ == username@,
                None => !has_key(self.entries@, username@),
            },
    {
        let mut i: usize = 0;
        while i < self.entries.len()
            invariant
                i <= self.entries@.len(),
                forall|j: int| 0 <= j < i ==> #[trigger] self.entries@[j].0@ != username@,
            decreases self.entries@.len() - i,
        {
            if str_eq(self.entries[i].0.as_str(), username) {
                return Some(i);
            }
            i = i + 1;
        }
        None
    }

    /// The token of `username`, if it has a session.
    pub fn cookie(&self, username: &str) -> (r: Option<&str>)
        ensures
            match r {
                Some(t) => self@.contains_key(username@) && self@[username@] == t@,
                None => !self@.contains_key(username@),
            },
    {
        proof {
            use_type_invariant(self);
        }
        match self.find(username) {
            Some(i) => {
                proof {
                    lemma_lookup(self.entries@, i as int);
                }
                Some(self.entries[i].1.as_str())
            },
            None => None,
        }
    }

    /// Records `cookie` as the token of `username`, replacing any earlier one.
    pub fn set_cookie(&mut self, username: &str, cookie: String)
        ensures
            final(self)@ == old(self)@.insert(username@, cookie@),
    {
        proof {
            use_type_invariant(&*self);
        }
        let ghost old_e = self.entries@;
        let found = self.find(username);
        let mut entries = self.take_entries();
        match found {
            Some(i) => {
                let key = String::from_str(username);
                entries.set(i, (key, cookie));
                let ghost new_e = entries@;
                assert(unique_keys(new_e)) by {
                    assert forall|a: int, b: int|
                        0 <= a < new_e.len() && 0 <= b < new_e.len() && a != b
                        implies #[trigger] new_e[a].0@ != #[trigger] new_e[b].0@ by {
                        assert(old_e[a].0@ != old_e[b].0@);
                    }
                }
                proof {
                    assert forall|k: Seq<char>|
                        #[trigger] map_of(new_e).contains_key(k) == old(self)@.insert(
                            username@,
                            cookie@,
                        ).contains_key(k) by {
                        if has_key(new_e, k) {
                            let j = choose|j: int| 0 <= j < new_e.len() && #[trigger] new_e[j].0@ == k;
                            assert(old_e[j].0@ == k);
                        }
                        if has_key(old_e, k) {
                            let j = choose|j: int| 0 <= j < old_e.len() && #[trigger] old_e[j].0@ == k;
                            assert(new_e[j].0@ == k);
                        }
                        if k == username@ {
                            assert(new_e[i as int].0@ == k);
                        }
                    }
                    assert forall|k: Seq<char>| #[trigger]
                        map_of(new_e).contains_key(k) implies map_of(new_e)[k] == old(
                        self,
                    )@.insert(username@, cookie@)[k] by {
                        let j = choose|j: int| 0 <= j < new_e.len() && #[trigger] new_e[j].0@ == k;
                        lemma_lookup(new_e, j);
                        if j != i {
                            lemma_lookup(old_e, j);
                        }
                    }
                    assert(map_of(new_e) =~= old(self)@.insert(username@, cookie@));
                }
                *self = SessionStore { entries };
            },
            None => {
                let key = String::from_str(username);
                entries.push((key, cookie));
                let ghost new_e = entries@;
                let ghost n = old_e.len() as int;
                assert(unique_keys(new_e)) by {
                    assert forall|a: int, b: int|
                        0 <= a < new_e.len() && 0 <= b < new_e.len() && a != b
                        implies #[trigger] new_e[a].0@ != #[trigger] new_e[b].0@ by {
                        if a < n && b < n {
                            assert(old_e[a].0@ != old_e[b].0@);
                        } else if a < n {
                            assert(old_e[a].0@ != username@);
                        } else {
                            assert(old_e[b].0@ != username@);
                        }
                    }
                }
                proof {
                    assert forall|k: Seq<char>|
                        #[trigger] map_of(new_e).contains_key(k) == old(self)@.insert(
                            username@,
                            cookie@,
                        ).contains_key(k) by {
                        if has_key(new_e, k) {
                            let j = choose|j: int| 0 <= j < new_e.len() && #[trigger] new_e[j].0@ == k;
                            if j < n {
                                assert(old_e[j].0@ == k);
                            }
                        }
                        if has_key(old_e, k) {
                            let j = choose|j: int| 0 <= j < old_e.len() && #[trigger] old_e[j].0@ == k;
                            assert(new_e[j].0@ == k);
                        }
                        if k == username@ {
                            assert(new_e[n].0@ == k);
                        }
                    }
                    assert forall|k: Seq<char>| #[trigger]
                        map_of(new_e).contains_key(k) implies map_of(new_e)[k] == old(
                        self,
                    )@.insert(username@, cookie@)[k] by {
                        let j = choose|j: int| 0 <= j < new_e.len() && #[trigger] new_e[j].0@ == k;
                        lemma_lookup(new_e, j);
                        if j < n {
                            lemma_lookup(old_e, j);
                        }
                    }
                    assert(map_of(new_e) =~= old(self)@.insert(username@, cookie@));
                }
                *self = SessionStore { entries };
            },
        }
    }

    /// Forgets the session of `username`, if it has one.
    pub fn remove_cookie(&mut self, username: &str)
        ensures
            final(self)@ == old(self)@.remove(username@),
    {
        proof {
            use_type_invariant(&*self);
        }
        let ghost old_e = self.entries@;
        let found = self.find(username);
        let mut entries = self.take_entries();
        match found {
            Some(i) => {
                let _ = entries.remove(i);
                let ghost new_e = entries@;
                let ghost ii = i as int;
                assert(forall|j: int| 0 <= j < new_e.len() ==> #[trigger] new_e[j] == (if j < ii {
                    old_e[j]
                } else {
                    old_e[j + 1]
                }));
                assert(unique_keys(new_e)) by {
                    assert forall|a: int, b: int|
                        0 <= a < new_e.len() && 0 <= b < new_e.len() && a != b
                        implies #[trigger] new_e[a].0@ != #[trigger] new_e[b].0@ by {
                        let a1 = if a < ii { a } else { a + 1 };
                        let b1 = if b < ii { b } else { b + 1 };
                        assert(old_e[a1].0@ != old_e[b1].0@);
                    }
                }
                proof {
                    assert forall|k: Seq<char>|
                        #[trigger] map_of(new_e).contains_key(k) == old(self)@.remove(
                            username@,
                        ).contains_key(k) by {
                        if has_key(new_e, k) {
                            let j = choose|j: int| 0 <= j < new_e.len() && #[trigger] new_e[j].0@ == k;
                            let j1 = if j < ii { j } else { j + 1 };
                            assert(old_e[j1].0@ == k);
                            assert(j1 != ii);
                        }
                        if has_key(old_e, k) && k != username@ {
                            let j = choose|j: int| 0 <= j < old_e.len() && #[trigger] old_e[j].0@ == k;
                            assert(j != ii);
                            let j0 = if j < ii { j } else { j - 1 };
                            assert(new_e[j0].0@ == k);
                        }
                    }
                    assert forall|k: Seq<char>| #[trigger]
                        map_of(new_e).contains_key(k) implies map_of(new_e)[k] == old(
                        self,
                    )@.remove(username@)[k] by {
                        let j = choose|j: int| 0 <= j < new_e.len() && #[trigger] new_e[j].0@ == k;
                        lemma_lookup(new_e, j);
                        let j1 = if j < ii { j } else { j + 1 };
                        lemma_lookup(old_e, j1);
                    }
                    assert(map_of(new_e) =~= old(self)@.remove(username@));
                }
                *self = SessionStore { entries };
            },
            None => {
                assert(map_of(old_e) =~= old(self)@.remove(username@));
                *self = SessionStore { entries };
            },
        }
    }
}

/// What a session store promises across calls: a token just set is the one
/// read back, a removed session reads as absent, and a second set replaces
/// the first rather than adding to it.
pub proof fn lemma_session_laws(
    m: Map<Seq<char>, Seq<char>>,
    u: Seq<char>,
    t1: Seq<char>,
    t2: Seq<char>,
)
    ensures
        m.insert(u, t1).contains_key(u) && m.insert(u, t1)[u] == t1,
        !m.insert(u, t1).remove(u).contains_key(u),
        m.insert(u, t1).insert(u, t2) == m.insert(u, t2),
        m.insert(u, t1).insert(u, t2).dom() == m.insert(u, t1).dom(),
{
    assert(m.insert(u, t1).insert(u, t2) =~= m.insert(u, t2));
    assert(m.insert(u, t1).insert(u, t2).dom() =~= m.insert(u, t1).dom());
}

} // verus!
