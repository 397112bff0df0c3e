//! Expiration bookkeeping: a name whose date lies in the past is dead
//! weight anyone may capture; one whose date lies in the future can only be
//! extended, by its owner, and only forward.

use vstd::prelude::*;

use crate::registry::Registry;
use crate::types::{CallContext, NnsError, ONE_YEAR_MILLISECOND};

verus! {

/// No name's expiration moved backwards between the two snapshots.
pub open spec fn expirations_nondecreasing(
    pre: Map<Seq<char>, u64>,
    post: Map<Seq<char>, u64>,
) -> bool {
    forall|n: Seq<char>|
        #[trigger] pre.contains_key(n) ==> post.contains_key(n) && pre[n] <= post[n]
}

impl Registry {
    /// The date an extension of `token_id` grows from: the stored
    /// expiration, or the present moment for a name that has none.
    pub open spec fn extend_base(self, token_id: Seq<char>, now: u64) -> int {
        if self.name_expired_date@.contains_key(token_id) {
            self.name_expired_date@[token_id] as int
        } else {
            now as int
        }
    }

    /// How many whole years a deposit buys.
    pub open spec fn years_for_deposit(self, deposit: u128) -> int {
        deposit as int / self.price_for_one_year as int
    }

    /// Whether `token_id`'s stored expiration lies strictly in the past.
    pub fn is_name_expired(&self, token_id: &String, now: u64) -> (r: bool)
        requires
            self.wf(),
            self.name_expired_date@.contains_key(token_id@),
        ensures
            r == (self.name_expired_date@[token_id@] < now),
    {
        let name_expire_date = *self.name_expired_date.get(token_id).unwrap();
        name_expire_date < now
    }

    /// Refuses any operation on a name whose expiration has passed.
    pub fn asset_name_expired(&self, token_id: &String, now: u64) -> (r: Result<(), NnsError>)
        requires
            self.wf(),
            self.name_expired_date@.contains_key(token_id@),
        ensures
            r is Ok <==> self.name_expired_date@[token_id@] >= now,
            r matches Err(e) ==> e == NnsError::Expired,
    {
        if self.is_name_expired(token_id, now) {
            Err(NnsError::Expired)
        } else {
            Ok(())
        }
    }

    /// Stores a new expiration for `token_id`; a date that does not lie in
    /// the future is refused.
    pub fn update_expired_date(&mut self, token_id: &String, expired_date: u64, now: u64) -> (r:
        Result<(), NnsError>)
        requires
            old(self).wf(),
        ensures
            final(self).wf(),
            r is Err <==> expired_date <= now,
            r matches Err(e) ==> e == NnsError::InvalidExpiration,
            r is Err ==> *final(self) == *old(self),
            r is Ok ==> final(self).name_expired_date@ == old(self).name_expired_date@.insert(
                token_id@,
                expired_date,
            ),
            final(self).owner_id == old(self).owner_id,
            final(self).account_id == old(self).account_id,
            final(self).price_for_one_year == old(self).price_for_one_year,
            final(self).fee_register == old(self).fee_register,
            final(self).resolver_code_len == old(self).resolver_code_len,
            final(self).default_name == old(self).default_name,
            final(self).tokens == old(self).tokens,
    {
        if !(expired_date > now) {
            return Err(NnsError::InvalidExpiration);
        }
        self.name_expired_date.insert(token_id.clone(), expired_date);
        Ok(())
    }

    /// Extends the caller's unexpired name by as many years as the attached
    /// deposit buys.  An expired name cannot be extended here: it can only
    /// be re-registered through `register`.
    pub fn extend(&mut self, token_id: String, ctx: &CallContext) -> (r: Result<(), NnsError>)
        requires
            old(self).wf(),
            old(self).price_for_one_year >= 1,
            old(self).extend_base(token_id@, ctx.block_timestamp_ms) + old(self).years_for_deposit(
                ctx.attached_deposit,
            ) * ONE_YEAR_MILLISECOND <= u64::MAX,
        ensures
            final(self).wf(),
            r is Err ==> *final(self) == *old(self),
            ({
                let now = ctx.block_timestamp_ms;
                let owner_ok = old(self).token_owner_ok(token_id@, ctx.predecessor_account_id@);
                let base = old(self).extend_base(token_id@, now);
                let grown = base + old(self).years_for_deposit(ctx.attached_deposit)
                    * ONE_YEAR_MILLISECOND;
                &&& (r == Err::<(), NnsError>(NnsError::Unauthorized) <==> !owner_ok)
                &&& (r == Err::<(), NnsError>(NnsError::Expired) <==> owner_ok && base < now)
                &&& (r == Err::<(), NnsError>(NnsError::InvalidExpiration) <==> owner_ok && base
                    >= now && grown <= now)
                &&& (r is Ok <==> owner_ok && base >= now && grown > now)
                &&& (r is Ok ==> final(self).name_expired_date@
                    == old(self).name_expired_date@.insert(token_id@, grown as u64))
            }),
            expirations_nondecreasing(old(self).name_expired_date@, final(self).name_expired_date@),
            final(self).owner_id == old(self).owner_id,
            final(self).account_id == old(self).account_id,
            final(self).price_for_one_year == old(self).price_for_one_year,
            final(self).fee_register == old(self).fee_register,
            final(self).resolver_code_len == old(self).resolver_code_len,
            final(self).default_name == old(self).default_name,
            final(self).tokens == old(self).tokens,
    {
        let now = ctx.block_timestamp_ms;
        match self.token_owner_only(&token_id, ctx) {
            Ok(_) => (),
            Err(e) => {
                return Err(e);
            },
        }
        let name_expired_date: u64 = match self.name_expired_date.get(&token_id) {
            Some(d) => *d,
            None => now,
        };
        if !(name_expired_date >= now) {
            return Err(NnsError::Expired);
        }
        let deposited = ctx.attached_deposit;
        let years_wide: u128 = deposited / self.price_for_one_year;
        let years_extended: u64 = years_wide as u64;
        let new_expired_date: u64 = name_expired_date + years_extended * ONE_YEAR_MILLISECOND;
        self.update_expired_date(&token_id, new_expired_date, now)
    }

    /// The stored expiration of `token_id`, if it has one.
    pub fn expired_date(&self, token_id: &String) -> (r: Option<u64>)
        requires
            self.wf(),
        ensures
            match r {
                Some(d) => self.name_expired_date@.contains_key(token_id@)
                    && d == self.name_expired_date@[token_id@],
                None => !self.name_expired_date@.contains_key(token_id@),
            },
    {
        match self.name_expired_date.get(token_id) {
            Some(d) => Some(*d),
            None => None,
        }
    }
}

} // verus!
