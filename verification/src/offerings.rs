use vstd::prelude::*;

use crate::address::{copy_bytes, Address};
use crate::model::{
    admin_only_error, is_digit, set_price_error, set_revenue_pool_error, set_settlement_error,
    valid_price, VaultModel,
};
use crate::types::{opt_view, Receipt, VaultError, VaultEvent, MAX_OFFERING_ID_LEN};
use crate::vault::CalloraVault;

verus! {

/// Whether `price` is the decimal text of a positive integer.
pub fn is_valid_price(price: &Vec<u8>) -> (r: bool)
    ensures
        r == valid_price(price@),
{
    if price.len() == 0 {
        return false;
    }
    let mut nonzero = false;
    let mut i: usize = 0;
    while i < price.len()
        invariant
            i <= price@.len(),
            forall|j: int| 0 <= j < i ==> is_digit(#[trigger] price@[j]),
            nonzero == (exists|j: int| 0 <= j < i && #[trigger] price@[j] != 48),
        decreases price@.len() - i,
    {
        let c = price[i];
        if c < 48 || c > 57 {
            assert(!is_digit(price@[i as int]));
            return false;
        }
        if c != 48 {
            nonzero = true;
        }
        i = i + 1;
    }
    nonzero
}

/// The storage after `set_settlement(_, settlement)`.
pub open spec fn set_settlement_post(m: VaultModel, settlement: Seq<u8>) -> VaultModel {
    VaultModel { settlement: Some(settlement), ..m }
}

/// The storage after `set_revenue_pool(_, pool)`: `None` removes the pool.
pub open spec fn set_revenue_pool_post(m: VaultModel, pool: Option<Seq<u8>>) -> VaultModel {
    VaultModel { revenue_pool: pool, ..m }
}

/// The storage after `set_price(_, offering_id, price)`.
pub open spec fn set_price_post(m: VaultModel, offering_id: Seq<u8>, price: Seq<u8>) -> VaultModel {
    VaultModel { prices: m.prices.insert(offering_id, price), ..m }
}

impl CalloraVault {
    /// Succeeds exactly when the vault has an admin and `caller` is it.
    fn require_admin(&self, caller: &Address) -> (r: Result<(), VaultError>)
        ensures
            match r {
                Ok(_) => admin_only_error(self@, caller@) is None,
                Err(e) => admin_only_error(self@, caller@) == Some(e),
            },
    {
        let cur = match self.get_admin() {
            Ok(a) => a,
            Err(e) => return Err(e),
        };
        if caller.same(&cur) {
            Ok(())
        } else {
            Err(VaultError::CallerNotAdmin)
        }
    }

    /// Admin only: set the settlement contract, which may be neither the
    /// vault itself, nor the USDC token, nor the revenue pool. `caller` must
    /// authorise the call.
    pub fn set_settlement(&mut self, caller: Address, settlement: Address) -> (r: Result<Receipt, VaultError>)
        ensures
            match r {
                Ok(receipt) => {
                    &&& set_settlement_error(old(self)@, caller@, settlement@) is None
                    &&& final(self)@ == set_settlement_post(old(self)@, settlement@)
                    &&& receipt.authorizer@ == caller@
                    &&& receipt.event is None
                },
                Err(e) => set_settlement_error(old(self)@, caller@, settlement@) == Some(e) && *final(self) == *old(self),
            },
    {
        match self.require_admin(&caller) {
            Ok(_) => {},
            Err(e) => return Err(e),
        }
        if settlement.same(&self.address) {
            return Err(VaultError::SettlementIsVault);
        }
        if let Some(t) = &self.usdc_token {
            if settlement.same(t) {
                return Err(VaultError::SettlementIsUsdcToken);
            }
        }
        if let Some(p) = &self.revenue_pool {
            if settlement.same(p) {
                return Err(VaultError::SettlementIsRevenuePool);
            }
        }
        self.settlement = Some(settlement);
        Ok(Receipt { authorizer: caller, event: None })
    }

    /// Admin only: set the revenue pool (`None` removes it); the pool may
    /// not be the vault itself. It is not compared with the settlement: the
    /// settlement is kept apart from the pool only when the settlement is
    /// set. `caller` must authorise the call.
    pub fn set_revenue_pool(&mut self, caller: Address, revenue_pool: Option<Address>) -> (r: Result<Receipt, VaultError>)
        ensures
            match r {
                Ok(receipt) => {
                    &&& set_revenue_pool_error(old(self)@, caller@, opt_view(revenue_pool)) is None
                    &&& final(self)@ == set_revenue_pool_post(old(self)@, opt_view(revenue_pool))
                    &&& receipt.authorizer@ == caller@
                    &&& receipt.event is None
                },
                Err(e) => set_revenue_pool_error(old(self)@, caller@, opt_view(revenue_pool)) == Some(e)
                    && *final(self) == *old(self),
            },
    {
        match self.require_admin(&caller) {
            Ok(_) => {},
            Err(e) => return Err(e),
        }
        if let Some(p) = &revenue_pool {
            if p.same(&self.address) {
                return Err(VaultError::RevenuePoolIsVault);
            }
        }
        self.revenue_pool = revenue_pool;
        Ok(Receipt { authorizer: caller, event: None })
    }

    /// Admin only: set the price of an offering. The offering id may be at
    /// most `MAX_OFFERING_ID_LEN` bytes long, and the price must be the
    /// decimal text of a positive integer. `caller` must authorise the
    /// call; the `price_set` event is due.
    pub fn set_price(&mut self, caller: Address, offering_id: Vec<u8>, price: Vec<u8>) -> (r: Result<Receipt, VaultError>)
        ensures
            match r {
                Ok(receipt) => {
                    &&& set_price_error(old(self)@, caller@, offering_id@, price@) is None
                    &&& final(self)@ == set_price_post(old(self)@, offering_id@, price@)
                    &&& receipt.authorizer@ == caller@
                    &&& receipt.event matches Some(VaultEvent::PriceSet { offering_id: i, price: p })
                    &&& i@ == offering_id@
                    &&& p@ == price@
                },
                Err(e) => set_price_error(old(self)@, caller@, offering_id@, price@) == Some(e)
                    && *final(self) == *old(self),
            },
    {
        match self.require_admin(&caller) {
            Ok(_) => {},
            Err(e) => return Err(e),
        }
        if offering_id.len() > MAX_OFFERING_ID_LEN as usize {
            return Err(VaultError::OfferingIdTooLong);
        }
        if !is_valid_price(&price) {
            return Err(VaultError::InvalidPrice);
        }
        self.prices.insert(copy_bytes(&offering_id), copy_bytes(&price));
        Ok(Receipt {
            authorizer: caller,
            event: Some(VaultEvent::PriceSet { offering_id, price }),
        })
    }

    /// The price stored for `offering_id`, if any.
    pub fn get_price(&self, offering_id: Vec<u8>) -> (r: Option<Vec<u8>>)
        ensures
            match r {
                Some(v) => self@.prices.contains_key(offering_id@) && v@ == self@.prices[offering_id@],
                None => !self@.prices.contains_key(offering_id@),
            },
    {
        self.prices.get(&offering_id)
    }
}

} // verus!
