use vstd::prelude::*;

use crate::address::Address;
use crate::byte_map::ByteMap;
use crate::model::{
    addr_seq, empty_model, init_check, init_error, init_meta, init_post, max_deduct_of,
    migrate_post, or_default, paused_of, slot_present, VaultModel,
};
use crate::types::{
    duplicate_opt, opt_view, Receipt, StorageKey, VaultError, VaultEvent, VaultMeta, DEFAULT_MAX_DEDUCT,
    DEFAULT_MIN_DEPOSIT,
};

verus! {

/// The Callora vault contract, as the content of its instance storage: one
/// field per storage slot, plus the contract's own address.
pub struct CalloraVault {
    /// The vault contract's own address.
    pub address: Address,
    pub meta: Option<VaultMeta>,
    pub admin: Option<Address>,
    pub usdc_token: Option<Address>,
    pub settlement: Option<Address>,
    pub revenue_pool: Option<Address>,
    pub max_deduct: Option<i128>,
    pub paused: Option<bool>,
    pub metadata: ByteMap,
    pub prices: ByteMap,
    pub pending_owner: Option<Address>,
    pub pending_admin: Option<Address>,
    pub depositors: Option<Vec<Address>>,
}

impl View for CalloraVault {
    type V = VaultModel;

    open spec fn view(&self) -> VaultModel {
        VaultModel {
            address: self.address@,
            meta: match self.meta {
                Some(m) => Some(m@),
                None => None,
            },
            admin: opt_view(self.admin),
            usdc_token: opt_view(self.usdc_token),
            settlement: opt_view(self.settlement),
            revenue_pool: opt_view(self.revenue_pool),
            max_deduct: self.max_deduct,
            paused: self.paused,
            metadata: self.metadata@,
            prices: self.prices@,
            pending_owner: opt_view(self.pending_owner),
            pending_admin: opt_view(self.pending_admin),
            depositors: match self.depositors {
                Some(v) => Some(addr_seq(v@)),
                None => None,
            },
        }
    }
}

impl CalloraVault {
    /// A vault deployed at `address`, with nothing stored yet.
    pub fn new(address: Address) -> (r: CalloraVault)
        ensures
            r@ == empty_model(address@),
    {
        CalloraVault {
            address,
            meta: None,
            admin: None,
            usdc_token: None,
            settlement: None,
            revenue_pool: None,
            max_deduct: None,
            paused: None,
            metadata: ByteMap::new(),
            prices: ByteMap::new(),
            pending_owner: None,
            pending_admin: None,
            depositors: None,
        }
    }

    /// The checks of `init` that come before the on-ledger balance is read.
    /// `Ok(true)` when they pass and the initial balance is positive, so that
    /// the vault's on-ledger balance of `usdc_token` must be read and handed
    /// to `init`; `Ok(false)` when they pass and no such read is needed.
    pub fn init_preflight(
        &self,
        usdc_token: &Address,
        initial_balance: Option<i128>,
        authorized_caller: &Option<Address>,
        min_deposit: Option<i128>,
        revenue_pool: &Option<Address>,
        max_deduct: Option<i128>,
    ) -> (r: Result<bool, VaultError>)
        ensures
            match r {
                Ok(b) => init_check(
                    self@,
                    usdc_token@,
                    initial_balance,
                    opt_view(*authorized_caller),
                    min_deposit,
                    opt_view(*revenue_pool),
                    max_deduct,
                ) is None && b == (or_default(initial_balance, 0) > 0),
                Err(e) => init_check(
                    self@,
                    usdc_token@,
                    initial_balance,
                    opt_view(*authorized_caller),
                    min_deposit,
                    opt_view(*revenue_pool),
                    max_deduct,
                ) == Some(e),
            },
    {
        if self.has(&StorageKey::MetaKey) {
            return Err(VaultError::AlreadyInitialized);
        }
        if usdc_token.same(&self.address) {
            return Err(VaultError::UsdcTokenIsVault);
        }
        if let Some(p) = revenue_pool {
            if p.same(&self.address) {
                return Err(VaultError::RevenuePoolIsVault);
            }
        }
        if let Some(ac) = authorized_caller {
            if ac.same(&self.address) {
                return Err(VaultError::AuthorizedCallerIsVault);
            }
        }
        let balance: i128 = match initial_balance {
            Some(b) => b,
            None => 0,
        };
        if balance < 0 {
            return Err(VaultError::NegativeInitialBalance);
        }
        let min_d: i128 = match min_deposit {
            Some(v) => v,
            None => DEFAULT_MIN_DEPOSIT,
        };
        if min_d <= 0 {
            return Err(VaultError::MinDepositNotPositive);
        }
        let max_d: i128 = match max_deduct {
            Some(v) => v,
            None => DEFAULT_MAX_DEDUCT,
        };
        if max_d <= 0 {
            return Err(VaultError::MaxDeductNotPositive);
        }
        if min_d > max_d {
            return Err(VaultError::MinDepositExceedsMaxDeduct);
        }
        Ok(balance > 0)
    }

    /// Initialise the vault; allowed exactly once.
    ///
    /// `ledger_balance` is the vault's on-ledger balance of `usdc_token`; it
    /// is consulted only when the initial balance is positive, which must
    /// then not exceed it. On success the vault record is stored and
    /// returned, `owner` becomes admin, and the `init` event is due; `owner`
    /// must authorise the call.
    pub fn init(
        &mut self,
        owner: Address,
        usdc_token: Address,
        initial_balance: Option<i128>,
        authorized_caller: Option<Address>,
        min_deposit: Option<i128>,
        revenue_pool: Option<Address>,
        max_deduct: Option<i128>,
        ledger_balance: i128,
    ) -> (r: Result<(VaultMeta, Receipt), VaultError>)
        ensures
            match r {
                Ok((meta, receipt)) => {
                    &&& init_error(
                        old(self)@,
                        usdc_token@,
                        initial_balance,
                        opt_view(authorized_caller),
                        min_deposit,
                        opt_view(revenue_pool),
                        max_deduct,
                        ledger_balance,
                    ) is None
                    &&& final(self)@ == init_post(
                        old(self)@,
                        owner@,
                        usdc_token@,
                        initial_balance,
                        opt_view(authorized_caller),
                        min_deposit,
                        opt_view(revenue_pool),
                        max_deduct,
                    )
                    &&& meta@ == init_meta(owner@, initial_balance, opt_view(authorized_caller), min_deposit)
                    &&& receipt.authorizer@ == owner@
                    &&& receipt.event matches Some(VaultEvent::Init { owner: o, balance: b })
                    &&& o@ == owner@
                    &&& b == or_default(initial_balance, 0)
                },
                Err(e) => {
                    &&& init_error(
                        old(self)@,
                        usdc_token@,
                        initial_balance,
                        opt_view(authorized_caller),
                        min_deposit,
                        opt_view(revenue_pool),
                        max_deduct,
                        ledger_balance,
                    ) == Some(e)
                    &&& *final(self) == *old(self)
                },
            },
    {
        let ok = self.init_preflight(
            &usdc_token,
            initial_balance,
            &authorized_caller,
            min_deposit,
            &revenue_pool,
            max_deduct,
        );
        let needs_ledger = match ok {
            Ok(b) => b,
            Err(e) => return Err(e),
        };
        let balance: i128 = match initial_balance {
            Some(b) => b,
            None => 0,
        };
        if needs_ledger && ledger_balance < balance {
            return Err(VaultError::InitialBalanceExceedsLedger);
        }
        let min_d: i128 = match min_deposit {
            Some(v) => v,
            None => DEFAULT_MIN_DEPOSIT,
        };
        let max_d: i128 = match max_deduct {
            Some(v) => v,
            None => DEFAULT_MAX_DEDUCT,
        };
        let meta = VaultMeta {
            owner: owner.duplicate(),
            balance,
            authorized_caller,
            min_deposit: min_d,
        };
        self.meta = Some(meta.duplicate());
        self.usdc_token = Some(usdc_token);
        self.admin = Some(owner.duplicate());
        if revenue_pool.is_some() {
            self.revenue_pool = revenue_pool;
        }
        self.max_deduct = Some(max_d);
        let receipt = Receipt {
            authorizer: owner.duplicate(),
            event: Some(VaultEvent::Init { owner, balance }),
        };
        Ok((meta, receipt))
    }
}


impl CalloraVault {
    /// The full vault record.
    pub fn get_meta(&self) -> (r: Result<VaultMeta, VaultError>)
        ensures
            match r {
                Ok(m) => self@.meta == Some(m@),
                Err(e) => self@.meta is None && e == VaultError::NotInitialized,
            },
    {
        match &self.meta {
            Some(m) => Ok(m.duplicate()),
            None => Err(VaultError::NotInitialized),
        }
    }

    /// The tracked USDC balance.
    pub fn balance(&self) -> (r: Result<i128, VaultError>)
        ensures
            match r {
                Ok(b) => self@.meta is Some && b == self@.meta->Some_0.balance,
                Err(e) => self@.meta is None && e == VaultError::NotInitialized,
            },
    {
        match &self.meta {
            Some(m) => Ok(m.balance),
            None => Err(VaultError::NotInitialized),
        }
    }

    /// The current admin.
    pub fn get_admin(&self) -> (r: Result<Address, VaultError>)
        ensures
            match r {
                Ok(a) => self@.admin == Some(a@),
                Err(e) => self@.admin is None && e == VaultError::NotInitialized,
            },
    {
        match &self.admin {
            Some(a) => Ok(a.duplicate()),
            None => Err(VaultError::NotInitialized),
        }
    }

    /// The USDC token contract.
    pub fn get_usdc_token(&self) -> (r: Result<Address, VaultError>)
        ensures
            match r {
                Ok(a) => self@.usdc_token == Some(a@),
                Err(e) => self@.usdc_token is None && e == VaultError::NotInitialized,
            },
    {
        match &self.usdc_token {
            Some(a) => Ok(a.duplicate()),
            None => Err(VaultError::NotInitialized),
        }
    }

    /// The maximum amount per deduction; `i128::MAX` (no cap) where none
    /// was set.
    pub fn get_max_deduct(&self) -> (r: i128)
        ensures
            r == max_deduct_of(self@),
    {
        match self.max_deduct {
            Some(v) => v,
            None => DEFAULT_MAX_DEDUCT,
        }
    }

    /// The settlement contract.
    pub fn get_settlement(&self) -> (r: Result<Address, VaultError>)
        ensures
            match r {
                Ok(a) => self@.settlement == Some(a@),
                Err(e) => self@.settlement is None && e == VaultError::SettlementNotSet,
            },
    {
        match &self.settlement {
            Some(a) => Ok(a.duplicate()),
            None => Err(VaultError::SettlementNotSet),
        }
    }

    /// The revenue pool, if one is set.
    pub fn get_revenue_pool(&self) -> (r: Option<Address>)
        ensures
            opt_view(r) == self@.revenue_pool,
    {
        duplicate_opt(&self.revenue_pool)
    }

    /// `(usdc_token, settlement, revenue_pool)` in one call.
    pub fn get_contract_addresses(&self) -> (r: (Option<Address>, Option<Address>, Option<Address>))
        ensures
            opt_view(r.0) == self@.usdc_token,
            opt_view(r.1) == self@.settlement,
            opt_view(r.2) == self@.revenue_pool,
    {
        (
            duplicate_opt(&self.usdc_token),
            duplicate_opt(&self.settlement),
            duplicate_opt(&self.revenue_pool),
        )
    }

    /// Whether the vault is paused; `false` before it was ever paused.
    pub fn is_paused(&self) -> (r: bool)
        ensures
            r == paused_of(self@),
    {
        match self.paused {
            Some(b) => b,
            None => false,
        }
    }

    /// The metadata stored for `offering_id`, if any.
    pub fn get_metadata(&self, offering_id: Vec<u8>) -> (r: Option<Vec<u8>>)
        ensures
            match r {
                Some(v) => self@.metadata.contains_key(offering_id@) && v@ == self@.metadata[offering_id@],
                None => !self@.metadata.contains_key(offering_id@),
            },
    {
        self.metadata.get(&offering_id)
    }

    /// Whether the slot `key` of the instance storage holds a value.
    pub fn has(&self, key: &StorageKey) -> (r: bool)
        ensures
            r == slot_present(self@, *key),
    {
        match key {
            StorageKey::MetaKey => self.meta.is_some(),
            StorageKey::Admin => self.admin.is_some(),
            StorageKey::UsdcToken => self.usdc_token.is_some(),
            StorageKey::Settlement => self.settlement.is_some(),
            StorageKey::RevenuePool => self.revenue_pool.is_some(),
            StorageKey::MaxDeduct => self.max_deduct.is_some(),
            StorageKey::Paused => self.paused.is_some(),
            StorageKey::Metadata(id) => self.metadata.get(id).is_some(),
            StorageKey::PendingOwner => self.pending_owner.is_some(),
            StorageKey::PendingAdmin => self.pending_admin.is_some(),
            StorageKey::DepositorList => self.depositors.is_some(),
            StorageKey::Price(id) => self.prices.get(id).is_some(),
        }
    }

    /// Give a vault that has a record but no admin slot its owner as admin;
    /// otherwise change nothing.
    pub fn migrate(&mut self)
        ensures
            final(self)@ == migrate_post(old(self)@),
    {
        if !self.has(&StorageKey::Admin) {
            if let Some(meta) = &self.meta {
                let owner = meta.owner.duplicate();
                self.admin = Some(owner);
            }
        }
    }
}

} // verus!
