use vstd::prelude::*;

use crate::address::Address;
use crate::model::{
    addr_seq, authorized_depositor, depositor_list, no_duplicates, owner_only_error,
    set_allowed_depositor_post,
};
use crate::laws::lemma_depositor_list_stays_distinct;
use crate::types::{opt_view, Receipt, VaultError};
use crate::vault::CalloraVault;

verus! {

/// Whether `a` occurs in `list`.
pub fn list_contains(list: &Vec<Address>, a: &Address) -> (r: bool)
    ensures
        r == addr_seq(list@).contains(a@),
{
    let mut i: usize = 0;
    while i < list.len()
        invariant
            i <= list@.len(),
            forall|j: int| 0 <= j < i ==> list@[j]@ != a@,
        decreases list@.len() - i,
    {
        if list[i].same(a) {
            assert(addr_seq(list@)[i as int] == a@);
            return true;
        }
        i = i + 1;
    }
    assert(!addr_seq(list@).contains(a@)) by {
        if addr_seq(list@).contains(a@) {
            let k = choose|k: int| 0 <= k < addr_seq(list@).len() && addr_seq(list@)[k] == a@;
            assert(list@[k]@ == a@);
        }
    }
    false
}

/// A copy of a list of addresses.
pub fn copy_list(list: &Vec<Address>) -> (r: Vec<Address>)
    ensures
        addr_seq(r@) == addr_seq(list@),
{
    let mut r: Vec<Address> = Vec::new();
    let mut i: usize = 0;
    while i < list.len()
        invariant
            i <= list@.len(),
            r@.len() == i,
            forall|j: int| 0 <= j < i ==> #[trigger] r@[j]@ == list@[j]@,
        decreases list@.len() - i,
    {
        r.push(list[i].duplicate());
        i = i + 1;
    }
    assert(addr_seq(r@) =~= addr_seq(list@));
    r
}

impl CalloraVault {
    /// Whether `caller` is the owner or an allowed depositor.
    pub fn is_authorized_depositor(&self, caller: Address) -> (r: Result<bool, VaultError>)
        ensures
            match r {
                Ok(b) => self@.meta is Some && b == authorized_depositor(self@, caller@),
                Err(e) => self@.meta is None && e == VaultError::NotInitialized,
            },
    {
        let meta = match self.get_meta() {
            Ok(m) => m,
            Err(e) => return Err(e),
        };
        if caller.same(&meta.owner) {
            return Ok(true);
        }
        match &self.depositors {
            Some(list) => Ok(list_contains(list, &caller)),
            None => Ok(false),
        }
    }

    /// The allowed depositors; empty where no list was stored.
    pub fn get_allowed_depositors(&self) -> (r: Vec<Address>)
        ensures
            addr_seq(r@) == depositor_list(self@),
    {
        match &self.depositors {
            Some(list) => copy_list(list),
            None => Vec::new(),
        }
    }

    /// Owner only: `Some(d)` adds `d` to the allowed depositors unless it is
    /// already there; `None` empties the list. `caller` must authorise the
    /// call. A list without repeated addresses stays so.
    pub fn set_allowed_depositor(&mut self, caller: Address, depositor: Option<Address>) -> (r: Result<Receipt, VaultError>)
        ensures
            match r {
                Ok(receipt) => {
                    &&& owner_only_error(old(self)@, caller@) is None
                    &&& final(self)@ == set_allowed_depositor_post(old(self)@, opt_view(depositor))
                    &&& receipt.authorizer@ == caller@
                    &&& receipt.event is None
                },
                Err(e) => owner_only_error(old(self)@, caller@) == Some(e) && *final(self) == *old(self),
            },
            no_duplicates(depositor_list(old(self)@)) ==> no_duplicates(depositor_list(final(self)@)),
    {
        match self.require_owner(caller.duplicate()) {
            Ok(_) => {},
            Err(e) => return Err(e),
        }
        match depositor {
            Some(d) => {
                let mut list: Vec<Address> = match &self.depositors {
                    Some(l) => copy_list(l),
                    None => Vec::new(),
                };
                let ghost before = addr_seq(list@);
                assert(before =~= depositor_list(old(self)@));
                let ghost dv = d@;
                if !list_contains(&list, &d) {
                    list.push(d);
                    assert(addr_seq(list@) =~= before.push(dv));
                }
                assert(addr_seq(list@) == (if before.contains(dv) {
                    before
                } else {
                    before.push(dv)
                }));
                self.depositors = Some(list);
            },
            None => {
                self.depositors = Some(Vec::new());
                assert(addr_seq(Seq::<Address>::empty()) =~= Seq::<Seq<u8>>::empty());
            },
        }
        proof {
            if no_duplicates(depositor_list(old(self)@)) {
                lemma_depositor_list_stays_distinct(old(self)@, opt_view(depositor));
            }
        }
        Ok(Receipt { authorizer: caller, event: None })
    }

    /// Owner only: empty the allowed depositors. `caller` must authorise the
    /// call.
    pub fn clear_allowed_depositors(&mut self, caller: Address) -> (r: Result<Receipt, VaultError>)
        ensures
            match r {
                Ok(receipt) => {
                    &&& owner_only_error(old(self)@, caller@) is None
                    &&& final(self)@ == set_allowed_depositor_post(old(self)@, None)
                    &&& receipt.authorizer@ == caller@
                    &&& receipt.event is None
                },
                Err(e) => owner_only_error(old(self)@, caller@) == Some(e) && *final(self) == *old(self),
            },
    {
        match self.require_owner(caller.duplicate()) {
            Ok(_) => {},
            Err(e) => return Err(e),
        }
        self.depositors = Some(Vec::new());
        assert(addr_seq(Seq::<Address>::empty()) =~= Seq::<Seq<u8>>::empty());
        Ok(Receipt { authorizer: caller, event: None })
    }
}

} // verus!
