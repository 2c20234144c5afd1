use vstd::prelude::*;

use crate::errors::Errors;
use crate::AccountId;

verus! {

/// Most admins the registry may ever hold.
pub const MAX_ADMINS: usize = 10;

/// Owner plus a bounded, duplicate-free list of admin identities.
/// The owner is the administrative root and is tracked separately
/// from the admin list.
pub struct AdminRegistry {
    pub owner: AccountId,
    pub admins: Vec<AccountId>,
}

/// No identity occurs twice in the sequence.
pub open spec fn unique_seq(s: Seq<AccountId>) -> bool {
    forall|i: int, j: int| 0 <= i < j < s.len() ==> s[i] != s[j]
}

impl AdminRegistry {
    /// The registry's invariant: the admin list is bounded and has no
    /// duplicate identities.
    pub open spec fn wf(self) -> bool {
        &&& self.admins@.len() <= MAX_ADMINS
        &&& unique_seq(self.admins@)
    }

    /// Whether `a` is a registered admin.
    pub open spec fn spec_is_admin(self, a: AccountId) -> bool {
        self.admins@.contains(a)
    }

    pub fn new(owner: AccountId) -> (r: AdminRegistry)
        ensures
            r.owner == owner,
            r.admins@ == Seq::<AccountId>::empty(),
            r.wf(),
    {
        AdminRegistry { owner, admins: Vec::new() }
    }

    pub fn is_admin(&self, a: AccountId) -> (r: bool)
        ensures
            r == self.spec_is_admin(a),
    {
        let mut i: usize = 0;
        while i < self.admins.len()
            invariant
                i <= self.admins@.len(),
                forall|k: int| 0 <= k < i ==> self.admins@[k] != a,
            decreases self.admins@.len() - i,
        {
            if self.admins[i] == a {
                return true;
            }
            i = i + 1;
        }
        false
    }

    /// Registers a new admin. Only the owner may do this; the list is
    /// capped at `MAX_ADMINS` and never holds the same identity twice.
    pub fn add_admin(&mut self, caller: AccountId, admin: AccountId) -> (r: Result<(), Errors>)
        requires
            old(self).wf(),
        ensures
            final(self).wf(),
            final(self).owner == old(self).owner,
            caller != old(self).owner ==> r == Err::<(), Errors>(Errors::OnlyAuthority),
            caller == old(self).owner && old(self).admins@.len() >= MAX_ADMINS ==> r == Err::<
                (),
                Errors,
            >(Errors::MaxAdmins),
            caller == old(self).owner && old(self).admins@.len() < MAX_ADMINS && old(
                self,
            ).spec_is_admin(admin) ==> r == Err::<(), Errors>(Errors::AdminAlreadyExists),
            r is Err ==> final(self).admins@ == old(self).admins@,
            r is Ok <==> caller == old(self).owner && old(self).admins@.len() < MAX_ADMINS && !old(
                self,
            ).spec_is_admin(admin),
            r is Ok ==> final(self).admins@ == old(self).admins@.push(admin),
            r is Ok ==> final(self).spec_is_admin(admin),
    {
        if caller != self.owner {
            return Err(Errors::OnlyAuthority);
        }
        if self.admins.len() >= MAX_ADMINS {
            return Err(Errors::MaxAdmins);
        }
        if self.is_admin(admin) {
            return Err(Errors::AdminAlreadyExists);
        }
        let ghost prev = self.admins@;
        self.admins.push(admin);
        proof {
            let s = self.admins@;
            let n = prev.len() as int;
            assert(s == prev.push(admin));
            assert(s[n] == admin);
            assert(s.contains(admin));
            assert forall|p: int, q: int| 0 <= p < q < s.len() implies s[p] != s[q] by {
                if q < n {
                    assert(s[p] == prev[p]);
                    assert(s[q] == prev[q]);
                    assert(prev[p] != prev[q]);
                } else {
                    assert(s[p] == prev[p]);
                    assert(prev.contains(prev[p]));
                    assert(prev[p] != admin);
                }
            }
            assert(unique_seq(s));
        }
        Ok(())
    }

    /// Unregisters an admin, keeping the order of the remaining entries.
    /// Only the owner may do this.
    #[verifier::loop_isolation(false)]
    pub fn remove_admin(&mut self, caller: AccountId, admin: AccountId) -> (r: Result<(), Errors>)
        requires
            old(self).wf(),
        ensures
            final(self).wf(),
            final(self).owner == old(self).owner,
            caller != old(self).owner ==> r == Err::<(), Errors>(Errors::OnlyAuthority),
            caller == old(self).owner && !old(self).spec_is_admin(admin) ==> r == Err::<
                (),
                Errors,
            >(Errors::AdminInvalid),
            r is Err ==> final(self).admins@ == old(self).admins@,
            r is Ok <==> caller == old(self).owner && old(self).spec_is_admin(admin),
            r is Ok ==> final(self).admins@ == old(self).admins@.remove(
                old(self).admins@.index_of(admin),
            ),
            r is Ok ==> !final(self).spec_is_admin(admin),
    {
        if caller != self.owner {
            return Err(Errors::OnlyAuthority);
        }
        let ghost snapshot = self.admins@;
        let ghost owner0 = self.owner;
        proof {
            assert(unique_seq(snapshot));
        }
        let mut i: usize = 0;
        while i < self.admins.len()
            invariant
                self.admins@ == snapshot,
                self.owner == owner0,
                unique_seq(snapshot),
                snapshot.len() <= MAX_ADMINS,
                i <= snapshot.len(),
                forall|k: int| 0 <= k < i ==> snapshot[k] != admin,
            decreases snapshot.len() - i,
        {
            if self.admins[i] == admin {
                proof {
                    assert(snapshot[i as int] == admin);
                    assert(snapshot.contains(admin));
                    let k = snapshot.index_of(admin);
                    assert(0 <= k < snapshot.len() && snapshot[k] == admin);
                    if k < i as int {
                        assert(snapshot[k] != snapshot[i as int]);
                    }
                    if k > i as int {
                        assert(snapshot[i as int] != snapshot[k]);
                    }
                    assert(k == i as int);
                }
                self.admins.remove(i);
                proof {
                    snapshot.remove_ensures(i as int);
                    assert(self.admins@ == snapshot.remove(i as int));
                    assert forall|p: int, q: int|
                        0 <= p < q < self.admins@.len() implies self.admins@[p]
                        != self.admins@[q] by {
                        let p0: int = if p < i as int {
                            p
                        } else {
                            p + 1
                        };
                        let q0: int = if q < i as int {
                            q
                        } else {
                            q + 1
                        };
                        assert(self.admins@[p] == snapshot[p0]);
                        assert(self.admins@[q] == snapshot[q0]);
                        assert(snapshot[p0] != snapshot[q0]);
                    }
                    assert forall|k: int| 0 <= k < self.admins@.len() implies self.admins@[k]
                        != admin by {
                        if k < i as int {
                            assert(self.admins@[k] == snapshot[k]);
                        } else {
                            assert(self.admins@[k] == snapshot[k + 1]);
                            assert(snapshot[i as int] != snapshot[k + 1]);
                        }
                    }
                    assert(!self.admins@.contains(admin));
                }
                return Ok(());
            }
            i = i + 1;
        }
        Err(Errors::AdminInvalid)
    }
}

} // verus!
