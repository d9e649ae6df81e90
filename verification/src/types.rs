use vstd::prelude::*;

use crate::address::Address;

verus! {

/// Deduction cap used when none was configured: no cap.
pub const DEFAULT_MAX_DEDUCT: i128 = i128::MAX;

/// Minimum deposit used when none was given at initialisation.
pub const DEFAULT_MIN_DEPOSIT: i128 = 1;

/// Largest number of items in one batch deduction.
pub const MAX_BATCH_SIZE: u32 = 50;

/// Longest offering metadata, in bytes.
pub const MAX_METADATA_LEN: u32 = 256;

/// Longest offering id, in bytes.
pub const MAX_OFFERING_ID_LEN: u32 = 64;

/// The view of an optional address: the strkey bytes, if any.
pub open spec fn opt_view(a: Option<Address>) -> Option<Seq<u8>> {
    match a {
        Some(x) => Some(x@),
        None => None,
    }
}

/// A copy of an optional address.
pub fn duplicate_opt(a: &Option<Address>) -> (r: Option<Address>)
    ensures
        opt_view(r) == opt_view(*a),
{
    match a {
        Some(x) => Some(x.duplicate()),
        None => None,
    }
}

/// One item of a batch deduction.
#[derive(Clone, Debug)]
pub struct DeductItem {
    pub amount: i128,
    /// Optional request id (the bytes of a symbol).
    pub request_id: Option<Vec<u8>>,
}

/// The vault's core record, stored under [`StorageKey::MetaKey`].
#[derive(Clone, Debug, PartialEq, Eq)]
pub struct VaultMeta {
    pub owner: Address,
    pub balance: i128,
    pub authorized_caller: Option<Address>,
    pub min_deposit: i128,
}

/// Mathematical model of a [`VaultMeta`].
pub struct MetaModel {
    pub owner: Seq<u8>,
    pub balance: i128,
    pub authorized_caller: Option<Seq<u8>>,
    pub min_deposit: i128,
}

impl View for VaultMeta {
    type V = MetaModel;

    open spec fn view(&self) -> MetaModel {
        MetaModel {
            owner: self.owner@,
            balance: self.balance,
            authorized_caller: opt_view(self.authorized_caller),
            min_deposit: self.min_deposit,
        }
    }
}

impl VaultMeta {
    /// A copy of this record.
    pub fn duplicate(&self) -> (r: VaultMeta)
        ensures
            r@ == self@,
    {
        VaultMeta {
            owner: self.owner.duplicate(),
            balance: self.balance,
            authorized_caller: duplicate_opt(&self.authorized_caller),
            min_deposit: self.min_deposit,
        }
    }
}

/// Payload of the `withdraw` and `withdraw_to` events.
#[derive(Clone, Copy, Debug, PartialEq, Eq)]
pub struct WithdrawEventData {
    pub amount: i128,
    pub new_balance: i128,
}

/// The slots of the vault's instance storage.
#[derive(Clone, Debug, PartialEq, Eq)]
pub enum StorageKey {
    MetaKey,
    Admin,
    UsdcToken,
    Settlement,
    RevenuePool,
    /// The maximum allowed amount per deduct call.
    MaxDeduct,
    Paused,
    /// Metadata of the offering with this id.
    Metadata(Vec<u8>),
    PendingOwner,
    PendingAdmin,
    DepositorList,
    /// Price of the offering with this id.
    Price(Vec<u8>),
}

/// Why a vault call is refused. Each refusal aborts the call and leaves the
/// vault unchanged.
#[derive(Clone, Copy, Debug, PartialEq, Eq)]
pub enum VaultError {
    AlreadyInitialized,
    UsdcTokenIsVault,
    RevenuePoolIsVault,
    AuthorizedCallerIsVault,
    NegativeInitialBalance,
    MinDepositNotPositive,
    MaxDeductNotPositive,
    MinDepositExceedsMaxDeduct,
    InitialBalanceExceedsLedger,
    NotInitialized,
    SettlementNotSet,
    CallerNotAdmin,
    NoAdminTransferPending,
    CallerNotOwner,
    UnauthorizedCaller,
    SettlementIsVault,
    SettlementIsUsdcToken,
    SettlementIsRevenuePool,
    OfferingIdTooLong,
    InvalidPrice,
}

/// The text of the panic message for refusal `e`.
pub open spec fn error_text(e: VaultError) -> Seq<char> {
    match e {
        VaultError::AlreadyInitialized => "vault already initialized"@,
        VaultError::UsdcTokenIsVault => "usdc_token cannot be vault address"@,
        VaultError::RevenuePoolIsVault => "revenue_pool cannot be vault address"@,
        VaultError::AuthorizedCallerIsVault => "authorized_caller cannot be vault address"@,
        VaultError::NegativeInitialBalance => "initial balance must be non-negative"@,
        VaultError::MinDepositNotPositive => "min_deposit must be positive"@,
        VaultError::MaxDeductNotPositive => "max_deduct must be positive"@,
        VaultError::MinDepositExceedsMaxDeduct => "min_deposit cannot exceed max_deduct"@,
        VaultError::InitialBalanceExceedsLedger => "initial_balance exceeds on-ledger USDC balance"@,
        VaultError::NotInitialized => "vault not initialized"@,
        VaultError::SettlementNotSet => "settlement address not set"@,
        VaultError::CallerNotAdmin => "unauthorized: caller is not admin"@,
        VaultError::NoAdminTransferPending => "no admin transfer pending"@,
        VaultError::CallerNotOwner => "unauthorized: owner only"@,
        VaultError::UnauthorizedCaller => "unauthorized caller"@,
        VaultError::SettlementIsVault => "settlement cannot be vault address"@,
        VaultError::SettlementIsUsdcToken => "settlement cannot be usdc_token address"@,
        VaultError::SettlementIsRevenuePool => "settlement cannot be revenue_pool address"@,
        VaultError::OfferingIdTooLong => "offering_id exceeds max length"@,
        VaultError::InvalidPrice => "price must be a positive integer"@,
    }
}

impl VaultError {
    /// The panic message with which the contract aborts on this refusal.
    pub fn message(&self) -> (r: &'static str)
        ensures
            r@ == error_text(*self),
    {
        match self {
            VaultError::AlreadyInitialized => "vault already initialized",
            VaultError::UsdcTokenIsVault => "usdc_token cannot be vault address",
            VaultError::RevenuePoolIsVault => "revenue_pool cannot be vault address",
            VaultError::AuthorizedCallerIsVault => "authorized_caller cannot be vault address",
            VaultError::NegativeInitialBalance => "initial balance must be non-negative",
            VaultError::MinDepositNotPositive => "min_deposit must be positive",
            VaultError::MaxDeductNotPositive => "max_deduct must be positive",
            VaultError::MinDepositExceedsMaxDeduct => "min_deposit cannot exceed max_deduct",
            VaultError::InitialBalanceExceedsLedger => "initial_balance exceeds on-ledger USDC balance",
            VaultError::NotInitialized => "vault not initialized",
            VaultError::SettlementNotSet => "settlement address not set",
            VaultError::CallerNotAdmin => "unauthorized: caller is not admin",
            VaultError::NoAdminTransferPending => "no admin transfer pending",
            VaultError::CallerNotOwner => "unauthorized: owner only",
            VaultError::UnauthorizedCaller => "unauthorized caller",
            VaultError::SettlementIsVault => "settlement cannot be vault address",
            VaultError::SettlementIsUsdcToken => "settlement cannot be usdc_token address",
            VaultError::SettlementIsRevenuePool => "settlement cannot be revenue_pool address",
            VaultError::OfferingIdTooLong => "offering_id exceeds max length",
            VaultError::InvalidPrice => "price must be a positive integer",
        }
    }
}

/// An event the vault publishes.
#[derive(Clone, Debug, PartialEq, Eq)]
pub enum VaultEvent {
    /// Topics `("init", owner)`, data `balance`.
    Init { owner: Address, balance: i128 },
    /// Topics `("admin_nominated", current, nominee)`, data `()`.
    AdminNominated { current: Address, nominee: Address },
    /// Topics `("admin_accepted", previous, admin)`, data `()`.
    AdminAccepted { previous: Address, admin: Address },
    /// Topics `("set_authorized_caller", owner)`, data `(old, new)`.
    AuthorizedCallerSet { owner: Address, old_caller: Option<Address>, new_caller: Option<Address> },
    /// Topics `("set_max_deduct", owner)`, data `(old, new)`.
    MaxDeductSet { owner: Address, old_max: i128, new_max: i128 },
    /// Topics `("price_set", offering_id)`, data `price`.
    PriceSet { offering_id: Vec<u8>, price: Vec<u8> },
}

/// What a successful state-changing call asks of its environment: the
/// address whose authorisation the call needed, and the event to publish.
/// The environment demands that authorisation before the call's checks
/// (see `calls::auth_step`); the call takes effect only if it was given.
#[derive(Clone, Debug, PartialEq, Eq)]
pub struct Receipt {
    pub authorizer: Address,
    pub event: Option<VaultEvent>,
}

} // verus!
