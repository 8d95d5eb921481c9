//! Fresh client-id generation.  When a client introduces itself without a
//! usable id, the server hands it a freshly generated one.  Ids come from
//! the UUID library; since randomness alone cannot be *proved* unique,
//! the generator keeps the list of every id it has handed out, checks the
//! fresh candidate against it, and falls back to a deterministic id of a
//! shape that provably collides with nothing previously issued.  Every id
//! ever returned is distinct from all earlier ones.

use vstd::prelude::*;
use vstd::string::StringExecFns;
use crate::strutil::dec_digits;
use crate::strutil::dec_string;
use crate::strutil::lemma_dec_digits_injective;
use crate::strutil::lemma_dec_digits_len_u64;
use crate::strutil::str_eq;

verus! {

/// Relies on uuid::Uuid::new_v4 and the hyphenated Display of a Uuid:
/// a random version-4 UUID rendered in its 36-character hyphenated form.
/// Nothing is assumed about which id comes back, only its length.
#[verifier::external_body]
fn new_uuid_string() -> (r: String)
    ensures
        r@.len() == 36,
{
    uuid::Uuid::new_v4().to_string()
}

/// The generator's deterministic fallback id for slot `k`.
pub open spec fn fallback_id(k: nat) -> Seq<char> {
    seq!['g'] + dec_digits(k)
}

/// Generator of client ids that are distinct within the process
/// lifetime.
pub struct IdGen {
    issued: Vec<String>,
}

impl View for IdGen {
    type V = Seq<Seq<char>>;

    /// Every id handed out so far, in order.
    closed spec fn view(&self) -> Seq<Seq<char>> {
        self.issued.deep_view()
    }
}

impl IdGen {
    /// The generator's invariant: issued ids are pairwise distinct, and
    /// each is either UUID-shaped (36 characters) or the fallback id of
    /// its own slot.
    pub closed spec fn wf(&self) -> bool {
        &&& forall|i: int, j: int| 0 <= i < j < self@.len() ==> self@[i] != self@[j]
        &&& forall|i: int|
            0 <= i < self@.len() ==> (self@[i].len() == 36 || self@[i] == fallback_id(i as nat))
    }

    pub fn new() -> (r: IdGen)
        ensures
            r@ == Seq::<Seq<char>>::empty(),
            r.wf(),
    {
        let r = IdGen { issued: Vec::new() };
        proof {
            assert(r@ =~= Seq::<Seq<char>>::empty());
        }
        r
    }

    /// Ids issued so far are pairwise distinct.
    pub proof fn lemma_issued_distinct(&self)
        requires
            self.wf(),
        ensures
            forall|i: int, j: int| 0 <= i < j < self@.len() ==> self@[i] != self@[j],
    {
    }

    fn contains_id(&self, p: &str) -> (r: bool)
        ensures
            r == self@.contains(p@),
    {
        let n = self.issued.len();
        let mut i: usize = 0;
        while i < n
            invariant
                i <= n,
                n == self.issued@.len(),
                forall|j: int| 0 <= j < i ==> self@[j] != p@,
            decreases n - i,
        {
            if str_eq(self.issued[i].as_str(), p) {
                proof {
                    assert(self@[i as int] == p@);
                }
                return true;
            }
            proof {
                assert(self@[i as int] == self.issued@[i as int]@);
            }
            i = i + 1;
        }
        proof {
            assert(forall|j: int| 0 <= j < self@.len() ==> self@[j] != p@);
        }
        false
    }

    /// Generate an id distinct from every id this generator has ever
    /// returned.
    pub fn fresh(&mut self) -> (r: String)
        requires
            old(self).wf(),
        ensures
            final(self).wf(),
            !old(self)@.contains(r@),
            final(self)@ == old(self)@.push(r@),
    {
        let cand = new_uuid_string();
        if !self.contains_id(cand.as_str()) {
            let ghost pre = self@;
            let out = cand.clone();
            self.issued.push(cand);
            proof {
                assert(self@ =~= pre.push(out@));
                assert(final(self).wf()) by {
                    assert(forall|i: int| 0 <= i < pre.len() ==> self@[i] == pre[i]);
                    assert(self@[pre.len() as int] == out@);
                }
            }
            out
        } else {
            let slot = self.issued.len();
            let mut fid = String::new();
            proof {
                reveal_strlit("g");
            }
            fid.append("g");
            let d = dec_string(slot as u64);
            fid.append(d.as_str());
            proof {
                assert(fid@ =~= fallback_id(slot as nat));
                lemma_dec_digits_len_u64(slot as u64);
                assert(fid@.len() <= 21);
                assert forall|i: int| 0 <= i < self@.len() implies self@[i] != fid@ by {
                    if self@[i].len() == 36 {
                        assert(fid@.len() != 36);
                    } else {
                        assert(self@[i] == fallback_id(i as nat));
                        if self@[i] == fid@ {
                            assert(fallback_id(i as nat) == fallback_id(slot as nat));
                            assert(dec_digits(i as nat) =~= fallback_id(i as nat).subrange(
                                1,
                                fallback_id(i as nat).len() as int,
                            ));
                            assert(dec_digits(slot as nat) =~= fallback_id(slot as nat).subrange(
                                1,
                                fallback_id(slot as nat).len() as int,
                            ));
                            lemma_dec_digits_injective(i as nat, slot as nat);
                        }
                    }
                }
                assert(!self@.contains(fid@));
            }
            let ghost pre = self@;
            let out = fid.clone();
            self.issued.push(fid);
            proof {
                assert(self@ =~= pre.push(out@));
                assert(final(self).wf()) by {
                    assert(forall|i: int| 0 <= i < pre.len() ==> self@[i] == pre[i]);
                    assert(self@[pre.len() as int] == out@);
                    assert(out@ == fallback_id(pre.len() as nat));
                }
            }
            out
        }
    }

    /// How many ids have been issued.
    pub fn issued_count(&self) -> (r: usize)
        ensures
            r == self@.len(),
    {
        self.issued.len()
    }
}

} // verus!
