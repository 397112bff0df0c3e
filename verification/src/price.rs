//! Pricing state: the yearly price and the registration overhead, each
//! mutable only by the registry's administrator, who confirms with an
//! attached deposit of exactly one yoctoNEAR.

use vstd::prelude::*;

use crate::registry::Registry;
use crate::types::{CallContext, NnsError, ONE_YOCTO};

verus! {

impl Registry {
    /// The attached single yoctoNEAR and the administrator check that gate
    /// both setters.
    pub open spec fn admin_setter_error(self, ctx: CallContext) -> Option<NnsError> {
        if ctx.attached_deposit != ONE_YOCTO {
            Some(NnsError::InsufficientDeposit)
        } else if ctx.predecessor_account_id@ != self.owner_id@ {
            Some(NnsError::Unauthorized)
        } else {
            None
        }
    }

    /// Sets the price of one registration year.
    pub fn set_price(&mut self, price: u128, ctx: &CallContext) -> (r: Result<(), NnsError>)
        ensures
            r is Err <==> old(self).admin_setter_error(*ctx) is Some,
            r matches Err(e) ==> Some(e) == old(self).admin_setter_error(*ctx),
            r is Err ==> *final(self) == *old(self),
            r is Ok ==> final(self).price_for_one_year == price,
            final(self).owner_id == old(self).owner_id,
            final(self).account_id == old(self).account_id,
            final(self).fee_register == old(self).fee_register,
            final(self).resolver_code_len == old(self).resolver_code_len,
            final(self).name_expired_date == old(self).name_expired_date,
            final(self).default_name == old(self).default_name,
            final(self).tokens == old(self).tokens,
    {
        if ctx.attached_deposit != ONE_YOCTO {
            return Err(NnsError::InsufficientDeposit);
        }
        if !(ctx.predecessor_account_id == self.owner_id) {
            return Err(NnsError::Unauthorized);
        }
        self.price_for_one_year = price;
        Ok(())
    }

    /// The price of one registration year.
    pub fn price_per_year(&self) -> (r: u128)
        ensures
            r == self.price_for_one_year,
    {
        self.price_for_one_year
    }

    /// Sets the fixed registration overhead.
    pub fn set_fee_register(&mut self, price: u128, ctx: &CallContext) -> (r: Result<
        (),
        NnsError,
    >)
        ensures
            r is Err <==> old(self).admin_setter_error(*ctx) is Some,
            r matches Err(e) ==> Some(e) == old(self).admin_setter_error(*ctx),
            r is Err ==> *final(self) == *old(self),
            r is Ok ==> final(self).fee_register == price,
            final(self).owner_id == old(self).owner_id,
            final(self).account_id == old(self).account_id,
            final(self).price_for_one_year == old(self).price_for_one_year,
            final(self).resolver_code_len == old(self).resolver_code_len,
            final(self).name_expired_date == old(self).name_expired_date,
            final(self).default_name == old(self).default_name,
            final(self).tokens == old(self).tokens,
    {
        if ctx.attached_deposit != ONE_YOCTO {
            return Err(NnsError::InsufficientDeposit);
        }
        if !(ctx.predecessor_account_id == self.owner_id) {
            return Err(NnsError::Unauthorized);
        }
        self.fee_register = price;
        Ok(())
    }

    /// The fixed registration overhead.
    pub fn fee_register(&self) -> (r: u128)
        ensures
            r == self.fee_register,
    {
        self.fee_register
    }
}

} // verus!
