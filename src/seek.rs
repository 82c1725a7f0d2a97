//! The key-value seek cursor.
//!
//! The service keeps the cursor position; each step asks it for the next
//! pair. The decisions live here, as a state machine: what to ask next, and
//! what a reply means. The caller sends the requests and feeds the replies
//! back. Any failed step ends the sequence, and an ended sequence never
//! restarts.
use vstd::prelude::*;
use crate::error::RequestError;
use crate::transport::{
    auth_headers, headers_view, joined, pair_text, pairs_view, plan_get, Method, RequestPlan,
};

verus! {

/// A decoded reply of one seek step: the keys found and the value of the
/// first.
#[derive(Debug)]
pub struct SeekEntry {
    pub keys: Vec<String>,
    pub values: String,
}

/// A cursor over a key range of one store, positioned by the service.
pub struct KeyValueSeek {
    username: String,
    pod: String,
    store: String,
    limit: Option<u32>,
    finished: bool,
}

/// The query of a seek step.
pub open spec fn step_query(pod: Seq<char>, store: Seq<char>) -> Seq<(Seq<char>, Seq<char>)> {
    seq![("pod_name"@, pod), ("table_name"@, store)]
}

/// The URI of a seek step.
pub open spec fn step_uri(base: Seq<char>, pod: Seq<char>, store: Seq<char>) -> Seq<char> {
    base + "/kv/seek/next"@ + seq!['?'] + "pod_name"@ + seq!['='] + pod + seq!['&'] + "table_name"@
        + seq!['='] + store
}

/// The pair a successful step yields: the first key and the value, or
/// nothing where the reply holds no key.
pub open spec fn yielded(e: SeekEntry) -> Option<(Seq<char>, Seq<char>)> {
    if e.keys@.len() > 0 {
        Some((e.keys@[0]@, e.values@))
    } else {
        None
    }
}

/// What one step yields, from its outcome.
pub open spec fn step_outcome(reply: Result<SeekEntry, RequestError>) -> Option<(Seq<char>, Seq<char>)> {
    match reply {
        Ok(e) => yielded(e),
        Err(_) => None,
    }
}

/// The characters of an optional pair of strings.
pub open spec fn pair_view(p: Option<(String, String)>) -> Option<(Seq<char>, Seq<char>)> {
    match p {
        Some(kv) => Some((kv.0@, kv.1@)),
        None => None,
    }
}

impl KeyValueSeek {
    /// The user whose session the steps are sent with.
    pub closed spec fn spec_username(&self) -> Seq<char> {
        self.username@
    }

    /// The pod of the store.
    pub closed spec fn spec_pod(&self) -> Seq<char> {
        self.pod@
    }

    /// The store the range belongs to.
    pub closed spec fn spec_store(&self) -> Seq<char> {
        self.store@
    }

    /// The bound the range was opened with, if any.
    pub closed spec fn spec_limit(&self) -> Option<u32> {
        self.limit
    }

    /// Whether the sequence has ended.
    pub closed spec fn spec_finished(&self) -> bool {
        self.finished
    }

    /// A cursor over `store` of `pod`, once the service has accepted the
    /// range; `limit` is the bound the range was opened with.
    pub fn new(username: &str, pod: &str, store: &str, limit: Option<u32>) -> (r: KeyValueSeek)
        ensures
            r.spec_username() == username@,
            r.spec_pod() == pod@,
            r.spec_store() == store@,
            r.spec_limit() == limit,
            !r.spec_finished(),
    {
        KeyValueSeek {
            username: String::from_str(username),
            pod: String::from_str(pod),
            store: String::from_str(store),
            limit,
            finished: false,
        }
    }

    /// The user whose session the steps are sent with.
    pub fn username(&self) -> (r: &str)
        ensures
            r@ == self.spec_username(),
    {
        self.username.as_str()
    }

    /// Whether the sequence has ended.
    pub fn is_finished(&self) -> (r: bool)
        ensures
            r == self.spec_finished(),
    {
        self.finished
    }

    /// The query of the next step.
    pub fn step_query(&self) -> (r: Vec<(String, String)>)
        ensures
            pairs_view(r@) == step_query(self.spec_pod(), self.spec_store()),
            r@.len() == 2,
            r@[0].0@ == "pod_name"@ && r@[0].1@ == self.spec_pod(),
            r@[1].0@ == "table_name"@ && r@[1].1@ == self.spec_store(),
    {
        let mut q: Vec<(String, String)> = Vec::new();
        q.push((String::from_str("pod_name"), self.pod.clone()));
        q.push((String::from_str("table_name"), self.store.clone()));
        assert(pairs_view(q@) =~= step_query(self.spec_pod(), self.spec_store()));
        q
    }

    /// The request of the next step, or `None` once the sequence has ended.
    pub fn next_request(&self, base: &str, token: &str) -> (r: Option<RequestPlan>)
        ensures
            self.spec_finished() ==> r is None,
            !self.spec_finished() ==> (r matches Some(p) && p.method == Method::Get && p.uri@
                == step_uri(base@, self.spec_pod(), self.spec_store()) && headers_view(p.headers@)
                == auth_headers(Some(token@)) && p.body@.len() == 0),
    {
        if self.finished {
            return None;
        }
        let q = self.step_query();
        let p = plan_get(base, "/kv/seek/next", &q, Some(token));
        proof {
            let qs = q@;
            assert(qs.drop_last() =~= seq![qs[0]]);
            assert(joined(qs.drop_last()) == pair_text(qs[0]));
            assert(joined(qs) == pair_text(qs[0]) + seq!['&'] + pair_text(qs[1]));
            assert(p.uri@ =~= step_uri(base@, self.spec_pod(), self.spec_store()));
        }
        Some(p)
    }

    /// Takes the outcome of a step. A reply with a key yields the first key
    /// and the value; a failed step, or a reply with no key, ends the
    /// sequence. An ended sequence yields nothing more.
    pub fn on_reply(&mut self, reply: Result<SeekEntry, RequestError>) -> (r: Option<(String, String)>)
        ensures
            final(self).spec_username() == old(self).spec_username(),
            final(self).spec_pod() == old(self).spec_pod(),
            final(self).spec_store() == old(self).spec_store(),
            final(self).spec_limit() == old(self).spec_limit(),
            old(self).spec_finished() ==> r is None && final(self).spec_finished(),
            !old(self).spec_finished() ==> pair_view(r) == step_outcome(reply),
            !old(self).spec_finished() ==> (final(self).spec_finished() <==> step_outcome(reply) is None),
    {
        if self.finished {
            return None;
        }
        match reply {
            Ok(e) => {
                let SeekEntry { keys, values } = e;
                if keys.len() > 0 {
                    let mut keys = keys;
                    let key = keys.swap_remove(0);
                    Some((key, values))
                } else {
                    self.finished = true;
                    None
                }
            },
            Err(_) => {
                self.finished = true;
                None
            },
        }
    }

    /// Bounds on how many pairs are left: none below, and the range's limit
    /// above if it was opened with one.
    pub fn size_hint(&self) -> (r: (usize, Option<usize>))
        ensures
            r.0 == 0,
            match self.spec_limit() {
                Some(l) => r.1 == Some(l as usize),
                None => r.1 is None,
            },
    {
        match self.limit {
            Some(l) => (0, Some(l as usize)),
            None => (0, None),
        }
    }
}

} // verus!
