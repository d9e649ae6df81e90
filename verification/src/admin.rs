use vstd::prelude::*;

use crate::address::Address;
use crate::calls::{auth_step, VaultCall};
use crate::model::{
    accept_admin_error, accept_admin_post, admin_only_error, authorized_deduct_caller,
    initialized_error, max_deduct_of, owner_only_error, set_admin_post, set_authorized_caller_post,
    set_max_deduct_error, set_max_deduct_post,
};
use crate::types::{duplicate_opt, opt_view, Receipt, VaultError, VaultEvent};
use crate::vault::CalloraVault;

verus! {

impl CalloraVault {
    /// The address whose authorisation `accept_admin` demands before its
    /// other checks: the pending nominee; refused when none is pending.
    pub fn accept_admin_authorizer(&self) -> (r: Result<Address, VaultError>)
        ensures
            match r {
                Ok(a) => auth_step(self@, VaultCall::AcceptAdmin) == Ok::<Option<Seq<u8>>, VaultError>(Some(a@)),
                Err(e) => auth_step(self@, VaultCall::AcceptAdmin) == Err::<Option<Seq<u8>>, VaultError>(e),
            },
    {
        match &self.pending_admin {
            Some(p) => Ok(p.duplicate()),
            None => Err(VaultError::NoAdminTransferPending),
        }
    }

    /// The address whose authorisation `set_authorized_caller` and
    /// `set_max_deduct` demand before their other checks: the owner in the
    /// vault record; refused when the vault is not initialised.
    pub fn owner_authorizer(&self) -> (r: Result<Address, VaultError>)
        ensures
            match r {
                Ok(a) => {
                    &&& self@.meta is Some
                    &&& a@ == self@.meta->Some_0.owner
                    &&& forall|c: Option<Seq<u8>>| auth_step(self@, VaultCall::SetAuthorizedCaller { new_caller: c })
                        == Ok::<Option<Seq<u8>>, VaultError>(Some(a@))
                    &&& forall|x: i128| auth_step(self@, VaultCall::SetMaxDeduct { max: x })
                        == Ok::<Option<Seq<u8>>, VaultError>(Some(a@))
                },
                Err(e) => {
                    &&& self@.meta is None
                    &&& e == VaultError::NotInitialized
                    &&& forall|c: Option<Seq<u8>>| auth_step(self@, VaultCall::SetAuthorizedCaller { new_caller: c })
                        == Err::<Option<Seq<u8>>, VaultError>(e)
                    &&& forall|x: i128| auth_step(self@, VaultCall::SetMaxDeduct { max: x })
                        == Err::<Option<Seq<u8>>, VaultError>(e)
                },
            },
    {
        match &self.meta {
            Some(m) => Ok(m.owner.duplicate()),
            None => Err(VaultError::NotInitialized),
        }
    }

    /// Nominate `new_admin` as the next admin; only the current admin may,
    /// and must authorise the call. The admin changes only when the nominee
    /// accepts.
    pub fn set_admin(&mut self, caller: Address, new_admin: Address) -> (r: Result<Receipt, VaultError>)
        ensures
            match r {
                Ok(receipt) => {
                    &&& admin_only_error(old(self)@, caller@) is None
                    &&& final(self)@ == set_admin_post(old(self)@, new_admin@)
                    &&& receipt.authorizer@ == caller@
                    &&& receipt.event matches Some(VaultEvent::AdminNominated { current: c, nominee: n })
                    &&& c@ == caller@
                    &&& n@ == new_admin@
                },
                Err(e) => admin_only_error(old(self)@, caller@) == Some(e) && *final(self) == *old(self),
            },
    {
        let cur = match self.get_admin() {
            Ok(a) => a,
            Err(e) => return Err(e),
        };
        if !caller.same(&cur) {
            return Err(VaultError::CallerNotAdmin);
        }
        self.pending_admin = Some(new_admin.duplicate());
        Ok(Receipt {
            authorizer: caller,
            event: Some(VaultEvent::AdminNominated { current: cur, nominee: new_admin }),
        })
    }

    /// The pending nominee becomes admin, and no transfer stays pending. The
    /// nominee must authorise the call.
    pub fn accept_admin(&mut self) -> (r: Result<Receipt, VaultError>)
        ensures
            match r {
                Ok(receipt) => {
                    &&& accept_admin_error(old(self)@) is None
                    &&& final(self)@ == accept_admin_post(old(self)@)
                    &&& Some(receipt.authorizer@) == old(self)@.pending_admin
                    &&& receipt.event matches Some(VaultEvent::AdminAccepted { previous: p, admin: a })
                    &&& Some(p@) == old(self)@.admin
                    &&& Some(a@) == old(self)@.pending_admin
                },
                Err(e) => accept_admin_error(old(self)@) == Some(e) && *final(self) == *old(self),
            },
    {
        let pending = match &self.pending_admin {
            Some(p) => p.duplicate(),
            None => return Err(VaultError::NoAdminTransferPending),
        };
        let cur = match self.get_admin() {
            Ok(a) => a,
            Err(e) => return Err(e),
        };
        self.admin = Some(pending.duplicate());
        self.pending_admin = None;
        Ok(Receipt {
            authorizer: pending.duplicate(),
            event: Some(VaultEvent::AdminAccepted { previous: cur, admin: pending }),
        })
    }

    /// Succeeds exactly when the vault is initialised and `caller` is its
    /// owner.
    pub fn require_owner(&self, caller: Address) -> (r: Result<(), VaultError>)
        ensures
            match r {
                Ok(_) => owner_only_error(self@, caller@) is None,
                Err(e) => owner_only_error(self@, caller@) == Some(e),
            },
    {
        match &self.meta {
            Some(meta) => if caller.same(&meta.owner) {
                Ok(())
            } else {
                Err(VaultError::CallerNotOwner)
            },
            None => Err(VaultError::NotInitialized),
        }
    }

    /// Replace the address allowed to deduct besides the owner (`None`: only
    /// the owner). The owner must authorise the call.
    pub fn set_authorized_caller(&mut self, new_caller: Option<Address>) -> (r: Result<Receipt, VaultError>)
        ensures
            match r {
                Ok(receipt) => {
                    &&& initialized_error(old(self)@) is None
                    &&& final(self)@ == set_authorized_caller_post(old(self)@, opt_view(new_caller))
                    &&& receipt.authorizer@ == old(self)@.meta->Some_0.owner
                    &&& receipt.event matches Some(VaultEvent::AuthorizedCallerSet { owner: o, old_caller: before, new_caller: after })
                    &&& o@ == old(self)@.meta->Some_0.owner
                    &&& opt_view(before) == old(self)@.meta->Some_0.authorized_caller
                    &&& opt_view(after) == opt_view(new_caller)
                },
                Err(e) => initialized_error(old(self)@) == Some(e) && *final(self) == *old(self),
            },
    {
        let mut meta = match self.get_meta() {
            Ok(m) => m,
            Err(e) => return Err(e),
        };
        let before = duplicate_opt(&meta.authorized_caller);
        meta.authorized_caller = duplicate_opt(&new_caller);
        let owner = meta.owner.duplicate();
        self.meta = Some(meta);
        Ok(Receipt {
            authorizer: owner.duplicate(),
            event: Some(VaultEvent::AuthorizedCallerSet { owner, old_caller: before, new_caller }),
        })
    }

    /// Set the maximum amount per deduction, which must be positive. The
    /// owner must authorise the call.
    pub fn set_max_deduct(&mut self, max_deduct: i128) -> (r: Result<Receipt, VaultError>)
        ensures
            match r {
                Ok(receipt) => {
                    &&& set_max_deduct_error(old(self)@, max_deduct) is None
                    &&& final(self)@ == set_max_deduct_post(old(self)@, max_deduct)
                    &&& receipt.authorizer@ == old(self)@.meta->Some_0.owner
                    &&& receipt.event matches Some(VaultEvent::MaxDeductSet { owner: o, old_max: before, new_max: after })
                    &&& o@ == old(self)@.meta->Some_0.owner
                    &&& before == max_deduct_of(old(self)@)
                    &&& after == max_deduct
                },
                Err(e) => set_max_deduct_error(old(self)@, max_deduct) == Some(e) && *final(self) == *old(self),
            },
    {
        let meta = match self.get_meta() {
            Ok(m) => m,
            Err(e) => return Err(e),
        };
        if max_deduct <= 0 {
            return Err(VaultError::MaxDeductNotPositive);
        }
        let before = self.get_max_deduct();
        self.max_deduct = Some(max_deduct);
        Ok(Receipt {
            authorizer: meta.owner.duplicate(),
            event: Some(VaultEvent::MaxDeductSet { owner: meta.owner, old_max: before, new_max: max_deduct }),
        })
    }

    /// Succeeds exactly when the vault is initialised and `caller` is its
    /// owner or its authorised caller.
    pub fn require_authorized_deduct_caller(&self, caller: &Address) -> (r: Result<(), VaultError>)
        ensures
            match r {
                Ok(_) => authorized_deduct_caller(self@, caller@),
                Err(e) => !authorized_deduct_caller(self@, caller@) && e == (if self@.meta is None {
                    VaultError::NotInitialized
                } else {
                    VaultError::UnauthorizedCaller
                }),
            },
    {
        let meta = match self.get_meta() {
            Ok(m) => m,
            Err(e) => return Err(e),
        };
        let auth = match &meta.authorized_caller {
            Some(ac) => caller.same(ac) || caller.same(&meta.owner),
            None => caller.same(&meta.owner),
        };
        if auth {
            Ok(())
        } else {
            Err(VaultError::UnauthorizedCaller)
        }
    }
}

} // verus!
