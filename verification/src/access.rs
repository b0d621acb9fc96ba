use vstd::prelude::*;
use crate::model::authorized;
use crate::types::{Address, Error};

verus! {

/// The administrator and the set of minters.
#[derive(Clone, Debug)]
pub struct AccessControl {
    admin: Option<Address>,
    minters: Vec<Address>,
}

/// Succeeds where `caller` is the very identity `subject`.
pub fn check_owner(caller: &Address, subject: &Address) -> (r: Result<(), Error>)
    ensures
        r == authorized(*caller == *subject),
{
    if *caller == *subject {
        Ok(())
    } else {
        Err(Error::Unauthorized)
    }
}

impl AccessControl {
    /// The administrator, once one was set.
    pub closed spec fn admin(&self) -> Option<Address> {
        self.admin
    }

    /// The identities that may mint.
    pub closed spec fn minters(&self) -> Set<Address> {
        self.minters@.to_set()
    }

    /// No administrator and no minter.
    pub fn new() -> (a: AccessControl)
        ensures
            a.admin() is None,
            a.minters() == Set::<Address>::empty(),
    {
        let a = AccessControl { admin: None, minters: Vec::new() };
        assert(a.minters@.to_set() =~= Set::<Address>::empty());
        a
    }

    /// Makes `admin` the administrator, whoever was before.
    pub fn save_admin(&mut self, admin: &Address)
        ensures
            final(self).admin() == Some(*admin),
            final(self).minters() == old(self).minters(),
    {
        self.admin = Some(*admin);
    }

    /// Whether an administrator was set.
    pub fn has_admin(&self) -> (r: bool)
        ensures
            r == self.admin() is Some,
    {
        self.admin.is_some()
    }

    /// The administrator.
    pub fn get_admin(&self) -> (a: Address)
        requires
            self.admin() is Some,
        ensures
            self.admin() == Some(a),
    {
        self.admin.unwrap()
    }

    /// Puts `minter` among the minters, with no question asked of anyone:
    /// for a host that brings back what it kept of the minters.
    pub fn save_minter(&mut self, minter: &Address)
        ensures
            final(self).admin() == old(self).admin(),
            final(self).minters() == old(self).minters().insert(*minter),
    {
        if !self.is_minter(minter) {
            self.minters.push(*minter);
            assert(self.minters@.to_set() =~= old(self).minters@.to_set().insert(*minter)) by {
                let before = old(self).minters@;
                let after = self.minters@;
                assert(after == before.push(*minter));
                assert forall|a: Address| after.contains(a) <==> (before.contains(a) || a
                    == *minter) by {
                    if before.contains(a) {
                        let j = choose|j: int| 0 <= j < before.len() && before[j] == a;
                        assert(after[j] == a);
                    }
                    if a == *minter {
                        assert(after[before.len() as int] == a);
                    }
                }
            }
        } else {
            assert(self.minters@.to_set() =~= old(self).minters@.to_set().insert(*minter));
        }
    }

    /// Whether `address` is among the minters.
    pub fn is_minter(&self, address: &Address) -> (r: bool)
        ensures
            r == self.minters().contains(*address),
    {
        let n: usize = self.minters.len();
        let mut i: usize = 0;
        while i < n
            invariant
                n == self.minters@.len(),
                i <= n,
                forall|j: int| 0 <= j < i ==> self.minters@[j] != *address,
            decreases n - i,
        {
            if self.minters[i] == *address {
                return true;
            }
            i += 1;
        }
        false
    }

    /// Succeeds where `caller` is among the minters.
    pub fn check_minter(&self, caller: &Address) -> (r: Result<(), Error>)
        ensures
            r == authorized(self.minters().contains(*caller)),
    {
        if self.is_minter(caller) {
            Ok(())
        } else {
            Err(Error::Unauthorized)
        }
    }

    /// Succeeds where `caller` is the administrator.
    pub fn check_admin(&self, caller: &Address) -> (r: Result<(), Error>)
        ensures
            r == authorized(self.admin() == Some(*caller)),
    {
        match self.admin {
            Some(a) => check_owner(caller, &a),
            None => Err(Error::Unauthorized),
        }
    }

    /// The administrator adds `minter` to the minters; anyone else is turned
    /// down and nothing changes.
    pub fn add_minter(&mut self, caller: &Address, minter: &Address) -> (r: Result<(), Error>)
        ensures
            r == authorized(old(self).admin() == Some(*caller)),
            final(self).admin() == old(self).admin(),
            r is Ok ==> final(self).minters() == old(self).minters().insert(*minter),
            r is Err ==> *final(self) == *old(self),
    {
        self.check_admin(caller)?;
        self.save_minter(minter);
        Ok(())
    }

    /// The administrator takes `minter` out of the minters; anyone else is
    /// turned down and nothing changes.
    pub fn remove_minter(&mut self, caller: &Address, minter: &Address) -> (r: Result<(), Error>)
        ensures
            r == authorized(old(self).admin() == Some(*caller)),
            final(self).admin() == old(self).admin(),
            r is Ok ==> final(self).minters() == old(self).minters().remove(*minter),
            r is Err ==> *final(self) == *old(self),
    {
        self.check_admin(caller)?;
        let n: usize = self.minters.len();
        let mut kept: Vec<Address> = Vec::new();
        let mut i: usize = 0;
        while i < n
            invariant
                n == self.minters@.len(),
                i <= n,
                *self == *old(self),
                forall|k: int| 0 <= k < kept@.len() ==> kept@[k] != *minter
                    && self.minters@.contains(#[trigger] kept@[k]),
                forall|j: int|
                    0 <= j < i && #[trigger] self.minters@[j] != *minter ==> kept@.contains(
                        self.minters@[j],
                    ),
            decreases n - i,
        {
            let a: Address = self.minters[i];
            if a != *minter {
                let ghost before = kept@;
                kept.push(a);
                assert(kept@[before.len() as int] == a);
                assert forall|j: int|
                    0 <= j < i + 1 && #[trigger] self.minters@[j] != *minter implies kept@.contains(
                    self.minters@[j],
                ) by {
                    if j < i {
                        let k = choose|k: int| 0 <= k < before.len() && before[k] == self.minters@[j];
                        assert(kept@[k] == self.minters@[j]);
                    }
                }
            }
            i += 1;
        }
        self.minters = kept;
        assert(self.minters@.to_set() =~= old(self).minters@.to_set().remove(*minter)) by {
            let before = old(self).minters@;
            let after = self.minters@;
            assert forall|a: Address| after.contains(a) <==> (before.contains(a) && a
                != *minter) by {
                if before.contains(a) && a != *minter {
                    let j = choose|j: int| 0 <= j < before.len() && before[j] == a;
                    assert(before[j] != *minter);
                }
            }
        }
        Ok(())
    }

    /// The administrator hands the role to `new_admin`; anyone else is turned
    /// down and nothing changes.
    pub fn transfer_admin(&mut self, caller: &Address, new_admin: &Address) -> (r: Result<
        (),
        Error,
    >)
        ensures
            r == authorized(old(self).admin() == Some(*caller)),
            final(self).minters() == old(self).minters(),
            r is Ok ==> final(self).admin() == Some(*new_admin),
            r is Err ==> *final(self) == *old(self),
    {
        self.check_admin(caller)?;
        self.save_admin(new_admin);
        Ok(())
    }
}

} // verus!
