//! The Subscription Set: the ordered set of state-path strings observers
//! have asked to watch.  It is session-scoped to the server, survives
//! individual client connects and disconnects, and never holds a path
//! twice.  A request to watch all paths (`*`) is stored as the empty
//! string sentinel.

use vstd::prelude::*;
use crate::strutil::str_eq;

verus! {

/// No two entries are equal.
pub open spec fn distinct_seq(s: Seq<Seq<char>>) -> bool {
    forall|i: int, j: int| 0 <= i < j < s.len() ==> s[i] != s[j]
}

/// How a requested path is stored: the all-paths wildcard becomes the
/// empty-string sentinel, everything else is kept as is.
pub open spec fn mapped_path(p: Seq<char>) -> Seq<char> {
    if p == "*"@ {
        Seq::empty()
    } else {
        p
    }
}

/// The effect of a subscribe on the stored paths.
pub open spec fn add_spec(s: Seq<Seq<char>>, p: Seq<char>) -> Seq<Seq<char>> {
    if s.contains(mapped_path(p)) {
        s
    } else {
        s.push(mapped_path(p))
    }
}

/// The index of `p` in `s`, when present.
pub open spec fn idx_of(s: Seq<Seq<char>>, p: Seq<char>) -> int {
    choose|i: int| 0 <= i < s.len() && s[i] == p
}

/// The effect of an unsubscribe on the stored paths.
pub open spec fn remove_spec(s: Seq<Seq<char>>, p: Seq<char>) -> Seq<Seq<char>> {
    if s.contains(p) {
        s.remove(idx_of(s, p))
    } else {
        s
    }
}

/// The ordered set of subscribed state paths.
pub struct Subscriptions {
    items: Vec<String>,
}

impl View for Subscriptions {
    type V = Seq<Seq<char>>;

    closed spec fn view(&self) -> Seq<Seq<char>> {
        self.items.deep_view()
    }
}

impl Subscriptions {
    /// The set's invariant: no duplicate entries.
    pub open spec fn wf(&self) -> bool {
        distinct_seq(self@)
    }

    pub fn new() -> (r: Subscriptions)
        ensures
            r@ == Seq::<Seq<char>>::empty(),
            r.wf(),
    {
        let r = Subscriptions { items: Vec::new() };
        proof {
            assert(r@ =~= Seq::<Seq<char>>::empty());
        }
        r
    }

    /// Whether a stored entry equals `p` (after no mapping: callers pass
    /// the stored form).
    fn contains_stored(&self, p: &str) -> (r: bool)
        ensures
            r == self@.contains(p@),
    {
        let n = self.items.len();
        let mut i: usize = 0;
        while i < n
            invariant
                i <= n,
                n == self.items@.len(),
                forall|j: int| 0 <= j < i ==> self@[j] != p@,
            decreases n - i,
        {
            if str_eq(self.items[i].as_str(), p) {
                proof {
                    assert(self@[i as int] == p@);
                }
                return true;
            }
            proof {
                assert(self@[i as int] == self.items@[i as int]@);
            }
            i = i + 1;
        }
        proof {
            assert(forall|j: int| 0 <= j < self@.len() ==> self@[j] != p@);
        }
        false
    }

    /// Subscribe to a path: a no-op if it is already present; the
    /// all-paths wildcard is stored as the empty-string sentinel.
    pub fn add(&mut self, path: String)
        requires
            old(self).wf(),
        ensures
            final(self)@ == add_spec(old(self)@, path@),
            final(self).wf(),
    {
        let stored: String = if str_eq(path.as_str(), "*") {
            String::new()
        } else {
            path
        };
        proof {
            assert(stored@ == mapped_path(path@));
        }
        if !self.contains_stored(stored.as_str()) {
            let ghost pre = self@;
            self.items.push(stored);
            proof {
                assert(self@ =~= pre.push(stored@));
            }
        }
    }

    /// Unsubscribe from a path: removes the stored entry equal to it, if
    /// any.  The wildcard is not mapped here: what is removed is exactly
    /// the given string.
    pub fn remove(&mut self, path: &str)
        requires
            old(self).wf(),
        ensures
            final(self)@ == remove_spec(old(self)@, path@),
            final(self).wf(),
    {
        let n = self.items.len();
        let mut i: usize = 0;
        while i < n
            invariant
                i <= n,
                n == self.items@.len(),
                self@ == old(self)@,
                distinct_seq(self@),
                forall|j: int| 0 <= j < i ==> self@[j] != path@,
            decreases n - i,
        {
            if str_eq(self.items[i].as_str(), path) {
                let ghost pre = self@;
                proof {
                    assert(pre[i as int] == path@);
                    assert(pre.contains(path@));
                    assert(pre[idx_of(pre, path@)] == path@);
                }
                self.items.remove(i);
                proof {
                    assert(self@ =~= pre.remove(i as int));
                    lemma_distinct_remove(pre, i as int);
                    assert(idx_of(pre, path@) == i as int) by {
                        let k = idx_of(pre, path@);
                        assert(0 <= k < pre.len() && pre[k] == path@);
                        if k != i {
                            assert(pre[k] == pre[i as int]);
                        }
                    }
                }
                return ;
            }
            proof {
                assert(self@[i as int] == self.items@[i as int]@);
            }
            i = i + 1;
        }
        proof {
            assert(forall|j: int| 0 <= j < self@.len() ==> self@[j] != path@);
            assert(!self@.contains(path@));
        }
    }

    /// Empty the set.
    pub fn clear(&mut self)
        ensures
            final(self)@ == Seq::<Seq<char>>::empty(),
            final(self).wf(),
    {
        self.items.clear();
        proof {
            assert(self@ =~= Seq::<Seq<char>>::empty());
        }
    }

    /// The current ordered sequence of stored paths, for inclusion in
    /// outbound subscription snapshot messages.
    pub fn snapshot(&self) -> (r: Vec<String>)
        ensures
            r.deep_view() == self@,
    {
        let n = self.items.len();
        let mut out: Vec<String> = Vec::new();
        let mut i: usize = 0;
        while i < n
            invariant
                i <= n,
                n == self.items@.len(),
                out@.len() == i,
                forall|k: int| 0 <= k < i ==> out@[k]@ == self.items@[k]@,
            decreases n - i,
        {
            out.push(self.items[i].clone());
            i = i + 1;
        }
        proof {
            assert(out.deep_view() =~= self@) by {
                assert(forall|k: int| 0 <= k < n ==> out.deep_view()[k] == out@[k]@);
                assert(forall|k: int| 0 <= k < n ==> self@[k] == self.items@[k]@);
            }
        }
        out
    }

    pub fn len(&self) -> (r: usize)
        ensures
            r == self@.len(),
    {
        self.items.len()
    }
}

/// Removing an entry from a duplicate-free sequence keeps it
/// duplicate-free.
pub proof fn lemma_distinct_remove(s: Seq<Seq<char>>, i: int)
    requires
        distinct_seq(s),
        0 <= i < s.len(),
    ensures
        distinct_seq(s.remove(i)),
{
    let t = s.remove(i);
    assert forall|a: int, b: int| 0 <= a < b < t.len() implies t[a] != t[b] by {
        let sa = if a < i {
            a
        } else {
            a + 1
        };
        let sb = if b < i {
            b
        } else {
            b + 1
        };
        assert(t[a] == s[sa]);
        assert(t[b] == s[sb]);
    }
}

/// After removing the unique occurrence of an entry from a
/// duplicate-free sequence, the entry is gone; all other entries keep
/// their membership.
pub proof fn lemma_remove_membership(s: Seq<Seq<char>>, i: int, q: Seq<char>)
    requires
        distinct_seq(s),
        0 <= i < s.len(),
    ensures
        q != s[i] ==> (s.remove(i).contains(q) <==> s.contains(q)),
        !s.remove(i).contains(s[i]),
{
    let t = s.remove(i);
    if q != s[i] {
        if s.contains(q) {
            let k = choose|k: int| 0 <= k < s.len() && s[k] == q;
            if k < i {
                assert(t[k] == s[k]);
                assert(t.contains(q));
            } else {
                assert(t[k - 1] == s[k]);
                assert(t.contains(q));
            }
        }
        if t.contains(q) {
            let k = choose|k: int| 0 <= k < t.len() && t[k] == q;
            let sk = if k < i {
                k
            } else {
                k + 1
            };
            assert(s[sk] == t[k]);
            assert(s.contains(q));
        }
    }
    if t.contains(s[i]) {
        let k = choose|k: int| 0 <= k < t.len() && t[k] == s[i];
        let sk = if k < i {
            k
        } else {
            k + 1
        };
        assert(s[sk] == t[k]);
        assert(sk != i);
        assert(s[sk] != s[i]);
    }
}

/// The effect of subscribing to each path in turn.
pub open spec fn add_all_spec(s: Seq<Seq<char>>, paths: Seq<Seq<char>>) -> Seq<Seq<char>>
    decreases paths.len(),
{
    if paths.len() == 0 {
        s
    } else {
        add_spec(add_all_spec(s, paths.drop_last()), paths.last())
    }
}

/// The net effect of a sequence of subscribe (`true`) / unsubscribe
/// (`false`) operations on one path.
pub open spec fn apply_ops(s: Seq<Seq<char>>, ops: Seq<bool>, p: Seq<char>) -> Seq<Seq<char>>
    decreases ops.len(),
{
    if ops.len() == 0 {
        s
    } else {
        let prev = apply_ops(s, ops.drop_last(), p);
        if ops.last() {
            add_spec(prev, p)
        } else {
            remove_spec(prev, p)
        }
    }
}

/// For any sequence of subscribe/unsubscribe operations on one path
/// (other than the wildcard, which subscribes under the sentinel), the
/// set stays duplicate-free, the path's membership afterwards is decided
/// by the last operation alone, and every other entry's membership is
/// untouched.
pub proof fn lemma_subscription_net_effect(s: Seq<Seq<char>>, ops: Seq<bool>, p: Seq<char>, q: Seq<char>)
    requires
        distinct_seq(s),
        p != "*"@,
    ensures
        distinct_seq(apply_ops(s, ops, p)),
        ops.len() > 0 ==> (apply_ops(s, ops, p).contains(p) <==> ops.last()),
        q != p ==> (apply_ops(s, ops, p).contains(q) <==> s.contains(q)),
    decreases ops.len(),
{
    assert(mapped_path(p) == p);
    if ops.len() == 0 {
    } else {
        let prev = apply_ops(s, ops.drop_last(), p);
        lemma_subscription_net_effect(s, ops.drop_last(), p, q);
        if ops.last() {
            if !prev.contains(p) {
                assert(prev.push(p).last() == p);
                assert(forall|j: int| 0 <= j < prev.len() ==> prev.push(p)[j] == prev[j]);
                if q != p && prev.push(p).contains(q) {
                    let k = choose|k: int| 0 <= k < prev.push(p).len() && prev.push(p)[k] == q;
                    assert(k < prev.len());
                    assert(prev.contains(q));
                }
            }
            assert(apply_ops(s, ops, p).contains(p)) by {
                if prev.contains(p) {
                } else {
                    assert(prev.push(p).last() == p);
                }
            }
        } else {
            if prev.contains(p) {
                let i = idx_of(prev, p);
                assert(0 <= i < prev.len() && prev[i] == p);
                lemma_distinct_remove(prev, i);
                lemma_remove_membership(prev, i, q);
            }
        }
    }
}

} // verus!
