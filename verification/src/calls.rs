//! The state-changing calls of the vault as data, and what a sequence of
//! them does to the storage, composed from the transition functions that
//! the calls' own contracts use: a refused call leaves the storage as it
//! was, an accepted one moves it to the call's post-state.
use vstd::prelude::*;

use crate::model::{
    accept_admin_error, accept_admin_post, admin_only_error, init_error, init_post,
    initialized_error, migrate_post, owner_only_error, set_admin_post, set_allowed_depositor_post,
    set_authorized_caller_post, set_max_deduct_error, set_max_deduct_post, set_price_error,
    set_revenue_pool_error, set_settlement_error, VaultModel,
};
use crate::offerings::{set_price_post, set_revenue_pool_post, set_settlement_post};
use crate::types::VaultError;

verus! {

/// One state-changing call with its arguments (addresses as strkey bytes).
pub enum VaultCall {
    Init {
        owner: Seq<u8>,
        usdc_token: Seq<u8>,
        initial_balance: Option<i128>,
        authorized_caller: Option<Seq<u8>>,
        min_deposit: Option<i128>,
        revenue_pool: Option<Seq<u8>>,
        max_deduct: Option<i128>,
        ledger_balance: i128,
    },
    SetAdmin { caller: Seq<u8>, new_admin: Seq<u8> },
    AcceptAdmin,
    SetAuthorizedCaller { new_caller: Option<Seq<u8>> },
    SetMaxDeduct { max: i128 },
    SetAllowedDepositor { caller: Seq<u8>, depositor: Option<Seq<u8>> },
    ClearAllowedDepositors { caller: Seq<u8> },
    Migrate,
    SetSettlement { caller: Seq<u8>, settlement: Seq<u8> },
    SetRevenuePool { caller: Seq<u8>, pool: Option<Seq<u8>> },
    SetPrice { caller: Seq<u8>, offering_id: Seq<u8>, price: Seq<u8> },
}

/// The refusal of call `c` on storage `m`, if it is refused.
pub open spec fn call_error(m: VaultModel, c: VaultCall) -> Option<VaultError> {
    match c {
        VaultCall::Init {
            usdc_token,
            initial_balance,
            authorized_caller,
            min_deposit,
            revenue_pool,
            max_deduct,
            ledger_balance,
            ..
        } => init_error(
            m,
            usdc_token,
            initial_balance,
            authorized_caller,
            min_deposit,
            revenue_pool,
            max_deduct,
            ledger_balance,
        ),
        VaultCall::SetAdmin { caller, .. } => admin_only_error(m, caller),
        VaultCall::AcceptAdmin => accept_admin_error(m),
        VaultCall::SetAuthorizedCaller { .. } => initialized_error(m),
        VaultCall::SetMaxDeduct { max } => set_max_deduct_error(m, max),
        VaultCall::SetAllowedDepositor { caller, .. } => owner_only_error(m, caller),
        VaultCall::ClearAllowedDepositors { caller } => owner_only_error(m, caller),
        VaultCall::Migrate => None,
        VaultCall::SetSettlement { caller, settlement } => set_settlement_error(m, caller, settlement),
        VaultCall::SetRevenuePool { caller, pool } => set_revenue_pool_error(m, caller, pool),
        VaultCall::SetPrice { caller, offering_id, price } => set_price_error(m, caller, offering_id, price),
    }
}

/// The storage after call `c` on `m` was accepted.
pub open spec fn call_post(m: VaultModel, c: VaultCall) -> VaultModel {
    match c {
        VaultCall::Init {
            owner,
            usdc_token,
            initial_balance,
            authorized_caller,
            min_deposit,
            revenue_pool,
            max_deduct,
            ..
        } => init_post(
            m,
            owner,
            usdc_token,
            initial_balance,
            authorized_caller,
            min_deposit,
            revenue_pool,
            max_deduct,
        ),
        VaultCall::SetAdmin { new_admin, .. } => set_admin_post(m, new_admin),
        VaultCall::AcceptAdmin => accept_admin_post(m),
        VaultCall::SetAuthorizedCaller { new_caller } => set_authorized_caller_post(m, new_caller),
        VaultCall::SetMaxDeduct { max } => set_max_deduct_post(m, max),
        VaultCall::SetAllowedDepositor { depositor, .. } => set_allowed_depositor_post(m, depositor),
        VaultCall::ClearAllowedDepositors { .. } => set_allowed_depositor_post(m, None),
        VaultCall::Migrate => migrate_post(m),
        VaultCall::SetSettlement { settlement, .. } => set_settlement_post(m, settlement),
        VaultCall::SetRevenuePool { pool, .. } => set_revenue_pool_post(m, pool),
        VaultCall::SetPrice { offering_id, price, .. } => set_price_post(m, offering_id, price),
    }
}

/// The storage after call `c` on `m`, accepted or refused.
#[verifier::opaque]
pub open spec fn step(m: VaultModel, c: VaultCall) -> VaultModel {
    if call_error(m, c) is None {
        call_post(m, c)
    } else {
        m
    }
}

/// The storage after the calls `calls`, in order, starting from `m`.
pub open spec fn run(m: VaultModel, calls: Seq<VaultCall>) -> VaultModel
    decreases calls.len(),
{
    if calls.len() == 0 {
        m
    } else {
        step(run(m, calls.drop_last()), calls.last())
    }
}

/// Whether the `i`-th of `calls`, made from `m`, is accepted.
pub open spec fn accepted(m: VaultModel, calls: Seq<VaultCall>, i: int) -> bool {
    call_error(run(m, calls.take(i)), calls[i]) is None
}

/// The first thing a call does: demand the authorisation of an address
/// (`Ok(Some(a))`), demand none (`Ok(None)`), or refuse before any
/// authorisation is asked (`Err(e)`, when the address to ask comes from a
/// storage slot that is empty). Calls whose authoriser is an argument ask it
/// before they read any storage.
pub open spec fn auth_step(m: VaultModel, c: VaultCall) -> Result<Option<Seq<u8>>, VaultError> {
    match c {
        VaultCall::Init { owner, .. } => Ok(Some(owner)),
        VaultCall::SetAdmin { caller, .. } => Ok(Some(caller)),
        VaultCall::AcceptAdmin => match m.pending_admin {
            Some(p) => Ok(Some(p)),
            None => Err(VaultError::NoAdminTransferPending),
        },
        VaultCall::SetAuthorizedCaller { .. } => match m.meta {
            Some(meta) => Ok(Some(meta.owner)),
            None => Err(VaultError::NotInitialized),
        },
        VaultCall::SetMaxDeduct { .. } => match m.meta {
            Some(meta) => Ok(Some(meta.owner)),
            None => Err(VaultError::NotInitialized),
        },
        VaultCall::SetAllowedDepositor { caller, .. } => Ok(Some(caller)),
        VaultCall::ClearAllowedDepositors { caller } => Ok(Some(caller)),
        VaultCall::Migrate => Ok(None),
        VaultCall::SetSettlement { caller, .. } => Ok(Some(caller)),
        VaultCall::SetRevenuePool { caller, .. } => Ok(Some(caller)),
        VaultCall::SetPrice { caller, .. } => Ok(Some(caller)),
    }
}

/// How an invocation of a call ends.
pub enum Outcome {
    /// The call took effect.
    Done,
    /// The address whose authorisation was demanded had not authorised the
    /// invocation.
    Unauthorized,
    /// The call was refused with this error.
    Refused(VaultError),
}

/// How invoking call `c` on `m` ends, where `signed` holds the addresses
/// that authorised the invocation: first the authorisation step, then the
/// call's own checks.
pub open spec fn invoke_outcome(m: VaultModel, c: VaultCall, signed: Set<Seq<u8>>) -> Outcome {
    match auth_step(m, c) {
        Err(e) => Outcome::Refused(e),
        Ok(a) => if a matches Some(x) && !signed.contains(x) {
            Outcome::Unauthorized
        } else {
            match call_error(m, c) {
                Some(e) => Outcome::Refused(e),
                None => Outcome::Done,
            }
        },
    }
}

/// The storage after invoking call `c` on `m` with the authorisations
/// `signed`: the call's post-state if it took effect, `m` otherwise.
pub open spec fn invoke(m: VaultModel, c: VaultCall, signed: Set<Seq<u8>>) -> VaultModel {
    if invoke_outcome(m, c, signed) is Done {
        call_post(m, c)
    } else {
        m
    }
}

} // verus!
