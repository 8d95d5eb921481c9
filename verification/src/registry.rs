//! The Client Registry: maps a logical client id to its live connection.
//! An insert under an existing id replaces the old entry and hands it
//! back; the superseded actor discovers its abandonment when its queue
//! handle is dropped.  Keys are unique, and routing a send resolves to
//! exactly the newest connection registered under the target id.

use vstd::prelude::*;
use crate::events::Outbound;
use crate::strutil::str_eq;

verus! {

#[verifier::external_type_specification]
#[verifier::external_body]
#[verifier::reject_recursive_types(T)]
pub struct ExSender<T>(tokio::sync::mpsc::Sender<T>);

/// A registered client connection: the numeric connection id assigned at
/// accept time, the normalized peer address, the logical client id, and
/// the handle onto that connection's private outbound queue.
pub struct ClientConnection {
    pub id: u32,
    pub address: String,
    pub client_id: String,
    pub sender: tokio::sync::mpsc::Sender<Outbound>,
}

/// Whether some entry is registered under `key`.
pub open spec fn has_key(s: Seq<ClientConnection>, key: Seq<char>) -> bool {
    exists|i: int| 0 <= i < s.len() && s[i].client_id@ == key
}

/// The index registered under `key`, when there is one.
pub open spec fn key_idx(s: Seq<ClientConnection>, key: Seq<char>) -> int {
    choose|i: int| 0 <= i < s.len() && s[i].client_id@ == key
}

/// Keys are pairwise distinct.
pub open spec fn distinct_keys(s: Seq<ClientConnection>) -> bool {
    forall|i: int, j: int| 0 <= i < j < s.len() ==> s[i].client_id@ != s[j].client_id@
}

/// The effect of registering `c`: replace the entry under its client id,
/// or append a new one.
pub open spec fn upsert_spec(s: Seq<ClientConnection>, c: ClientConnection) -> Seq<
    ClientConnection,
> {
    if has_key(s, c.client_id@) {
        s.update(key_idx(s, c.client_id@), c)
    } else {
        s.push(c)
    }
}

/// The client registry.
pub struct Registry {
    entries: Vec<ClientConnection>,
}

impl View for Registry {
    type V = Seq<ClientConnection>;

    closed spec fn view(&self) -> Seq<ClientConnection> {
        self.entries@
    }
}

impl Registry {
    /// The registry's invariant: one entry per client id.
    pub open spec fn wf(&self) -> bool {
        distinct_keys(self@)
    }

    pub fn new() -> (r: Registry)
        ensures
            r@ == Seq::<ClientConnection>::empty(),
            r.wf(),
    {
        let r = Registry { entries: Vec::new() };
        proof {
            assert(r@ =~= Seq::<ClientConnection>::empty());
        }
        r
    }

    /// The index of the entry under `key`, if any.
    fn find(&self, key: &str) -> (r: Option<usize>)
        requires
            self.wf(),
        ensures
            r is Some <==> has_key(self@, key@),
            r matches Some(i) ==> 0 <= i < self@.len() && self@[i as int].client_id@ == key@ && i
                == key_idx(self@, key@),
    {
        let n = self.entries.len();
        let mut i: usize = 0;
        while i < n
            invariant
                i <= n,
                n == self.entries@.len(),
                self.wf(),
                forall|j: int| 0 <= j < i ==> self@[j].client_id@ != key@,
            decreases n - i,
        {
            if str_eq(self.entries[i].client_id.as_str(), key) {
                proof {
                    assert(self@[i as int].client_id@ == key@);
                    let k = key_idx(self@, key@);
                    assert(0 <= k < self@.len() && self@[k].client_id@ == key@);
                    if k != i {
                        assert(self@[k].client_id@ == self@[i as int].client_id@);
                    }
                }
                return Some(i);
            }
            i = i + 1;
        }
        None
    }

    /// Register a connection under its client id, returning the entry it
    /// replaced, if any.
    pub fn upsert(&mut self, conn: ClientConnection) -> (r: Option<ClientConnection>)
        requires
            old(self).wf(),
        ensures
            final(self).wf(),
            final(self)@ == upsert_spec(old(self)@, conn),
            r is Some <==> has_key(old(self)@, conn.client_id@),
            r matches Some(e) ==> e == old(self)@[key_idx(old(self)@, conn.client_id@)],
    {
        let found = self.find(conn.client_id.as_str());
        match found {
            Some(i) => {
                let ghost pre = self@;
                let prev = self.entries.remove(i);
                self.entries.insert(i, conn);
                proof {
                    assert(self@ =~= pre.update(i as int, conn));
                    assert(final(self).wf()) by {
                        assert(forall|j: int|
                            0 <= j < pre.len() && j != i ==> self@[j] == pre[j]);
                        assert(self@[i as int].client_id@ == pre[i as int].client_id@);
                    }
                }
                Some(prev)
            },
            None => {
                let ghost pre = self@;
                let ghost key = conn.client_id@;
                self.entries.push(conn);
                proof {
                    assert(self@ =~= pre.push(conn));
                    assert(final(self).wf()) by {
                        assert(forall|j: int| 0 <= j < pre.len() ==> self@[j] == pre[j]);
                        assert(self@[pre.len() as int] == conn);
                        assert(!has_key(pre, key));
                        assert(forall|j: int| 0 <= j < pre.len() ==> pre[j].client_id@ != key);
                    }
                }
                None
            },
        }
    }

    /// The entry under `key`, if any.
    pub fn get(&self, key: &str) -> (r: Option<&ClientConnection>)
        requires
            self.wf(),
        ensures
            r is Some <==> has_key(self@, key@),
            r matches Some(c) ==> *c == self@[key_idx(self@, key@)],
    {
        match self.find(key) {
            Some(i) => Some(&self.entries[i]),
            None => None,
        }
    }

    /// Remove the entry under `key`, returning it.
    pub fn remove(&mut self, key: &str) -> (r: Option<ClientConnection>)
        requires
            old(self).wf(),
        ensures
            final(self).wf(),
            !has_key(old(self)@, key@) ==> final(self)@ == old(self)@ && r is None,
            has_key(old(self)@, key@) ==> final(self)@ == old(self)@.remove(
                key_idx(old(self)@, key@),
            ) && r == Some(old(self)@[key_idx(old(self)@, key@)]),
    {
        let found = self.find(key);
        match found {
            Some(i) => {
                let ghost pre = self@;
                let prev = self.entries.remove(i);
                proof {
                    assert(self@ =~= pre.remove(i as int));
                    assert(final(self).wf()) by {
                        assert forall|a: int, b: int|
                            0 <= a < b < self@.len() implies self@[a].client_id@
                            != self@[b].client_id@ by {
                            let sa = if a < i {
                                a
                            } else {
                                a + 1
                            };
                            let sb = if b < i {
                                b
                            } else {
                                b + 1
                            };
                            assert(self@[a] == pre[sa]);
                            assert(self@[b] == pre[sb]);
                        }
                    }
                }
                Some(prev)
            },
            None => None,
        }
    }

    /// Drop every entry.
    pub fn clear(&mut self)
        ensures
            final(self)@ == Seq::<ClientConnection>::empty(),
            final(self).wf(),
    {
        self.entries.clear();
        proof {
            assert(self@ =~= Seq::<ClientConnection>::empty());
        }
    }

    pub fn len(&self) -> (r: usize)
        ensures
            r == self@.len(),
    {
        self.entries.len()
    }

    /// The entry at a position, for iteration by the delivery layer.
    pub fn entry_at(&self, i: usize) -> (r: &ClientConnection)
        requires
            i < self@.len(),
        ensures
            *r == self@[i as int],
    {
        &self.entries[i]
    }

    /// Which registry positions a send should be delivered to: every
    /// position for a broadcast (empty target id), exactly the one
    /// registered under the target otherwise, and none when the target
    /// is unknown.
    pub fn targets(&self, target: &str) -> (r: Vec<usize>)
        requires
            self.wf(),
        ensures
            target@.len() == 0 ==> r@.len() == self@.len() && (forall|k: int|
                0 <= k < r@.len() ==> r@[k] == k),
            target@.len() > 0 && has_key(self@, target@) ==> r@.len() == 1 && r@[0] == key_idx(
                self@,
                target@,
            ),
            target@.len() > 0 && !has_key(self@, target@) ==> r@.len() == 0,
    {
        let mut out: Vec<usize> = Vec::new();
        if target.unicode_len() == 0 {
            let n = self.entries.len();
            let mut i: usize = 0;
            while i < n
                invariant
                    i <= n,
                    n == self@.len(),
                    out@.len() == i,
                    forall|k: int| 0 <= k < i ==> out@[k] == k,
                decreases n - i,
            {
                out.push(i);
                i = i + 1;
            }
        } else {
            match self.find(target) {
                Some(i) => {
                    out.push(i);
                },
                None => {},
            }
        }
        out
    }
}

/// After registering a connection, the entry under its client id is that
/// very connection: a send to the id resolves to the newest registration,
/// never a replaced one.
pub proof fn lemma_upsert_newest(s: Seq<ClientConnection>, c: ClientConnection)
    requires
        distinct_keys(s),
    ensures
        distinct_keys(upsert_spec(s, c)),
        has_key(upsert_spec(s, c), c.client_id@),
        upsert_spec(s, c)[key_idx(upsert_spec(s, c), c.client_id@)] == c,
{
    let t = upsert_spec(s, c);
    if has_key(s, c.client_id@) {
        let i = key_idx(s, c.client_id@);
        assert(0 <= i < s.len() && s[i].client_id@ == c.client_id@);
        assert(t == s.update(i, c));
        assert(t[i] == c);
        assert(distinct_keys(t)) by {
            assert(forall|j: int| 0 <= j < s.len() && j != i ==> t[j] == s[j]);
            assert(t[i].client_id@ == s[i].client_id@);
        }
        assert(has_key(t, c.client_id@));
        let k = key_idx(t, c.client_id@);
        assert(0 <= k < t.len() && t[k].client_id@ == c.client_id@);
        if k != i {
            assert(t[k].client_id@ == t[i].client_id@);
        }
    } else {
        assert(t == s.push(c));
        assert(t[s.len() as int] == c);
        assert(distinct_keys(t)) by {
            assert(forall|j: int| 0 <= j < s.len() ==> t[j] == s[j]);
            assert(forall|j: int| 0 <= j < s.len() ==> s[j].client_id@ != c.client_id@);
        }
        assert(has_key(t, c.client_id@));
        let k = key_idx(t, c.client_id@);
        assert(0 <= k < t.len() && t[k].client_id@ == c.client_id@);
        if k != s.len() as int {
            assert(t[k].client_id@ == t[s.len() as int].client_id@);
            assert(s[k].client_id@ == c.client_id@);
        }
    }
}

} // verus!
