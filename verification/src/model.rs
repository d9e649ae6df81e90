use vstd::prelude::*;

use crate::address::Address;
use crate::types::{MetaModel, StorageKey, VaultError, DEFAULT_MAX_DEDUCT, DEFAULT_MIN_DEPOSIT, MAX_OFFERING_ID_LEN};

verus! {

/// Mathematical model of the vault's instance storage: one field per slot,
/// `None` (or an empty map) where the slot is absent. Addresses are their
/// strkey bytes; `address` is the vault contract's own address.
pub struct VaultModel {
    pub address: Seq<u8>,
    pub meta: Option<MetaModel>,
    pub admin: Option<Seq<u8>>,
    pub usdc_token: Option<Seq<u8>>,
    pub settlement: Option<Seq<u8>>,
    pub revenue_pool: Option<Seq<u8>>,
    pub max_deduct: Option<i128>,
    pub paused: Option<bool>,
    pub metadata: Map<Seq<u8>, Seq<u8>>,
    pub prices: Map<Seq<u8>, Seq<u8>>,
    pub pending_owner: Option<Seq<u8>>,
    pub pending_admin: Option<Seq<u8>>,
    pub depositors: Option<Seq<Seq<u8>>>,
}

/// The strkeys of a list of addresses.
pub open spec fn addr_seq(v: Seq<Address>) -> Seq<Seq<u8>> {
    v.map_values(|a: Address| a@)
}

/// A vault at `address` whose storage holds nothing yet.
pub open spec fn empty_model(address: Seq<u8>) -> VaultModel {
    VaultModel {
        address,
        meta: None,
        admin: None,
        usdc_token: None,
        settlement: None,
        revenue_pool: None,
        max_deduct: None,
        paused: None,
        metadata: Map::empty(),
        prices: Map::empty(),
        pending_owner: None,
        pending_admin: None,
        depositors: None,
    }
}

pub open spec fn or_default(o: Option<i128>, d: i128) -> i128 {
    match o {
        Some(v) => v,
        None => d,
    }
}

/// The configured deduction cap, `i128::MAX` where none was stored.
pub open spec fn max_deduct_of(m: VaultModel) -> i128 {
    or_default(m.max_deduct, DEFAULT_MAX_DEDUCT)
}

/// Whether the vault is paused; never pausing means not paused.
pub open spec fn paused_of(m: VaultModel) -> bool {
    match m.paused {
        Some(b) => b,
        None => false,
    }
}

/// The stored depositor allow-list, empty where none was stored.
pub open spec fn depositor_list(m: VaultModel) -> Seq<Seq<u8>> {
    match m.depositors {
        Some(l) => l,
        None => Seq::empty(),
    }
}

/// Whether no address occurs twice in `s`.
pub open spec fn no_duplicates(s: Seq<Seq<u8>>) -> bool {
    forall|i: int, j: int| 0 <= i < s.len() && 0 <= j < s.len() && i != j ==> s[i] != s[j]
}

/// Whether the storage slot `key` holds a value.
pub open spec fn slot_present(m: VaultModel, key: StorageKey) -> bool {
    match key {
        StorageKey::MetaKey => m.meta is Some,
        StorageKey::Admin => m.admin is Some,
        StorageKey::UsdcToken => m.usdc_token is Some,
        StorageKey::Settlement => m.settlement is Some,
        StorageKey::RevenuePool => m.revenue_pool is Some,
        StorageKey::MaxDeduct => m.max_deduct is Some,
        StorageKey::Paused => m.paused is Some,
        StorageKey::Metadata(id) => m.metadata.contains_key(id@),
        StorageKey::PendingOwner => m.pending_owner is Some,
        StorageKey::PendingAdmin => m.pending_admin is Some,
        StorageKey::DepositorList => m.depositors is Some,
        StorageKey::Price(id) => m.prices.contains_key(id@),
    }
}

// ---------------------------------------------------------------------------
// init
// ---------------------------------------------------------------------------

/// The refusal of `init` found before the on-ledger balance is consulted.
pub open spec fn init_check(
    m: VaultModel,
    usdc_token: Seq<u8>,
    initial_balance: Option<i128>,
    authorized_caller: Option<Seq<u8>>,
    min_deposit: Option<i128>,
    revenue_pool: Option<Seq<u8>>,
    max_deduct: Option<i128>,
) -> Option<VaultError> {
    let balance = or_default(initial_balance, 0);
    let min_d = or_default(min_deposit, DEFAULT_MIN_DEPOSIT);
    let max_d = or_default(max_deduct, DEFAULT_MAX_DEDUCT);
    if m.meta is Some {
        Some(VaultError::AlreadyInitialized)
    } else if usdc_token == m.address {
        Some(VaultError::UsdcTokenIsVault)
    } else if revenue_pool == Some(m.address) {
        Some(VaultError::RevenuePoolIsVault)
    } else if authorized_caller == Some(m.address) {
        Some(VaultError::AuthorizedCallerIsVault)
    } else if balance < 0 {
        Some(VaultError::NegativeInitialBalance)
    } else if min_d <= 0 {
        Some(VaultError::MinDepositNotPositive)
    } else if max_d <= 0 {
        Some(VaultError::MaxDeductNotPositive)
    } else if min_d > max_d {
        Some(VaultError::MinDepositExceedsMaxDeduct)
    } else {
        None
    }
}

/// The refusal of `init`, given the vault's on-ledger balance of the token.
pub open spec fn init_error(
    m: VaultModel,
    usdc_token: Seq<u8>,
    initial_balance: Option<i128>,
    authorized_caller: Option<Seq<u8>>,
    min_deposit: Option<i128>,
    revenue_pool: Option<Seq<u8>>,
    max_deduct: Option<i128>,
    ledger_balance: i128,
) -> Option<VaultError> {
    let balance = or_default(initial_balance, 0);
    match init_check(m, usdc_token, initial_balance, authorized_caller, min_deposit, revenue_pool, max_deduct) {
        Some(e) => Some(e),
        None => if balance > 0 && ledger_balance < balance {
            Some(VaultError::InitialBalanceExceedsLedger)
        } else {
            None
        },
    }
}

/// The record that `init` stores and returns.
pub open spec fn init_meta(
    owner: Seq<u8>,
    initial_balance: Option<i128>,
    authorized_caller: Option<Seq<u8>>,
    min_deposit: Option<i128>,
) -> MetaModel {
    MetaModel {
        owner,
        balance: or_default(initial_balance, 0),
        authorized_caller,
        min_deposit: or_default(min_deposit, DEFAULT_MIN_DEPOSIT),
    }
}

/// The storage after a successful `init`.
pub open spec fn init_post(
    m: VaultModel,
    owner: Seq<u8>,
    usdc_token: Seq<u8>,
    initial_balance: Option<i128>,
    authorized_caller: Option<Seq<u8>>,
    min_deposit: Option<i128>,
    revenue_pool: Option<Seq<u8>>,
    max_deduct: Option<i128>,
) -> VaultModel {
    VaultModel {
        meta: Some(init_meta(owner, initial_balance, authorized_caller, min_deposit)),
        usdc_token: Some(usdc_token),
        admin: Some(owner),
        revenue_pool: if revenue_pool is Some {
            revenue_pool
        } else {
            m.revenue_pool
        },
        max_deduct: Some(or_default(max_deduct, DEFAULT_MAX_DEDUCT)),
        ..m
    }
}

// ---------------------------------------------------------------------------
// admin transfer
// ---------------------------------------------------------------------------

/// The refusal of a call that only the current admin may make.
pub open spec fn admin_only_error(m: VaultModel, caller: Seq<u8>) -> Option<VaultError> {
    match m.admin {
        None => Some(VaultError::NotInitialized),
        Some(a) => if caller != a {
            Some(VaultError::CallerNotAdmin)
        } else {
            None
        },
    }
}

/// The storage after `set_admin` nominated `new_admin`.
pub open spec fn set_admin_post(m: VaultModel, new_admin: Seq<u8>) -> VaultModel {
    VaultModel { pending_admin: Some(new_admin), ..m }
}

/// The refusal of `accept_admin`.
pub open spec fn accept_admin_error(m: VaultModel) -> Option<VaultError> {
    if m.pending_admin is None {
        Some(VaultError::NoAdminTransferPending)
    } else if m.admin is None {
        Some(VaultError::NotInitialized)
    } else {
        None
    }
}

/// The storage after `accept_admin`: the nominee is admin, nobody is pending.
pub open spec fn accept_admin_post(m: VaultModel) -> VaultModel {
    VaultModel { admin: m.pending_admin, pending_admin: None, ..m }
}

// ---------------------------------------------------------------------------
// owner checks and owner-only setters
// ---------------------------------------------------------------------------

/// The refusal of `require_owner(caller)`.
pub open spec fn owner_only_error(m: VaultModel, caller: Seq<u8>) -> Option<VaultError> {
    match m.meta {
        None => Some(VaultError::NotInitialized),
        Some(meta) => if caller != meta.owner {
            Some(VaultError::CallerNotOwner)
        } else {
            None
        },
    }
}

/// The refusal of a call that needs an initialised vault.
pub open spec fn initialized_error(m: VaultModel) -> Option<VaultError> {
    if m.meta is None {
        Some(VaultError::NotInitialized)
    } else {
        None
    }
}

/// The storage after `set_authorized_caller(new_caller)`.
pub open spec fn set_authorized_caller_post(m: VaultModel, new_caller: Option<Seq<u8>>) -> VaultModel {
    VaultModel {
        meta: match m.meta {
            Some(meta) => Some(MetaModel { authorized_caller: new_caller, ..meta }),
            None => None,
        },
        ..m
    }
}

/// The refusal of `set_max_deduct(max_deduct)`.
pub open spec fn set_max_deduct_error(m: VaultModel, max_deduct: i128) -> Option<VaultError> {
    if m.meta is None {
        Some(VaultError::NotInitialized)
    } else if max_deduct <= 0 {
        Some(VaultError::MaxDeductNotPositive)
    } else {
        None
    }
}

/// The storage after `set_max_deduct(max_deduct)`.
pub open spec fn set_max_deduct_post(m: VaultModel, max_deduct: i128) -> VaultModel {
    VaultModel { max_deduct: Some(max_deduct), ..m }
}

// ---------------------------------------------------------------------------
// depositor allow-list
// ---------------------------------------------------------------------------

/// The storage after `set_allowed_depositor(_, depositor)`: `Some(d)` adds
/// `d` unless already listed; `None` empties the list.
pub open spec fn set_allowed_depositor_post(m: VaultModel, depositor: Option<Seq<u8>>) -> VaultModel {
    VaultModel {
        depositors: Some(
            match depositor {
                Some(d) => if depositor_list(m).contains(d) {
                    depositor_list(m)
                } else {
                    depositor_list(m).push(d)
                },
                None => Seq::empty(),
            },
        ),
        ..m
    }
}

/// Whether `caller` may deposit: the owner or a listed depositor.
pub open spec fn authorized_depositor(m: VaultModel, caller: Seq<u8>) -> bool {
    &&& m.meta is Some
    &&& (caller == m.meta->Some_0.owner || depositor_list(m).contains(caller))
}

/// Whether `caller` may deduct: the owner or the authorised caller.
pub open spec fn authorized_deduct_caller(m: VaultModel, caller: Seq<u8>) -> bool {
    &&& m.meta is Some
    &&& (caller == m.meta->Some_0.owner || m.meta->Some_0.authorized_caller == Some(caller))
}

/// The storage after `migrate`: a vault with a record but no admin slot gets
/// its owner as admin.
pub open spec fn migrate_post(m: VaultModel) -> VaultModel {
    if m.admin is None && m.meta is Some {
        VaultModel { admin: Some(m.meta->Some_0.owner), ..m }
    } else {
        m
    }
}

// ---------------------------------------------------------------------------
// settlement, revenue pool, prices
// ---------------------------------------------------------------------------

/// The refusal of `set_settlement(caller, settlement)`.
pub open spec fn set_settlement_error(m: VaultModel, caller: Seq<u8>, settlement: Seq<u8>) -> Option<VaultError> {
    match admin_only_error(m, caller) {
        Some(e) => Some(e),
        None => if settlement == m.address {
            Some(VaultError::SettlementIsVault)
        } else if m.usdc_token == Some(settlement) {
            Some(VaultError::SettlementIsUsdcToken)
        } else if m.revenue_pool == Some(settlement) {
            Some(VaultError::SettlementIsRevenuePool)
        } else {
            None
        },
    }
}

/// The refusal of `set_revenue_pool(caller, pool)`.
pub open spec fn set_revenue_pool_error(m: VaultModel, caller: Seq<u8>, pool: Option<Seq<u8>>) -> Option<VaultError> {
    match admin_only_error(m, caller) {
        Some(e) => Some(e),
        None => if pool == Some(m.address) {
            Some(VaultError::RevenuePoolIsVault)
        } else {
            None
        },
    }
}

/// Whether `c` is an ASCII decimal digit.
pub open spec fn is_digit(c: u8) -> bool {
    48 <= c <= 57
}

/// Whether `price` is the decimal text of a positive integer: non-empty,
/// digits only, not all zeros.
pub open spec fn valid_price(price: Seq<u8>) -> bool {
    &&& price.len() > 0
    &&& forall|i: int| 0 <= i < price.len() ==> is_digit(#[trigger] price[i])
    &&& exists|i: int| 0 <= i < price.len() && #[trigger] price[i] != 48
}

/// The refusal of `set_price(caller, offering_id, price)`.
pub open spec fn set_price_error(m: VaultModel, caller: Seq<u8>, offering_id: Seq<u8>, price: Seq<u8>) -> Option<VaultError> {
    match admin_only_error(m, caller) {
        Some(e) => Some(e),
        None => if offering_id.len() > MAX_OFFERING_ID_LEN {
            Some(VaultError::OfferingIdTooLong)
        } else if !valid_price(price) {
            Some(VaultError::InvalidPrice)
        } else {
            None
        },
    }
}

} // verus!
