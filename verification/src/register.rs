//! Registration: the caller-facing `register` entry point that validates
//! and dispatches, the privileged `register_name` mutation it targets, and
//! the default-name pointers.

use vstd::prelude::*;
use vstd::string::StringExecFns;

use crate::registry::Registry;
use crate::types::{
    CallContext, NameRecord, NnsError, RefundOnFailure, RegisterNameCall, Token, TokenMetadata,
    FUNCTION_CALL_GAS, ONE_YEAR_MILLISECOND,
};

verus! {

/// Every default pointer at `name` belongs to the account that owns `name`.
pub open spec fn default_refs_only_owner(s: Registry, name: Seq<char>) -> bool {
    forall|a: Seq<char>|
        #[trigger] s.default_name@.contains_key(a) && s.default_name@[a]@ == name
            ==> s.tokens@.contains_key(name) && s.tokens@[name].owner_id@ == a
}

/// No default pointer at all refers to `name`.
pub open spec fn no_default_ref(s: Registry, name: Seq<char>) -> bool {
    forall|a: Seq<char>|
        #[trigger] s.default_name@.contains_key(a) ==> s.default_name@[a]@ != name
}

impl Registry {
    /// Whether a registration of `token_id` is blocked because the name is
    /// already held and not yet expired.
    pub open spec fn register_blocked_unexpired(self, token_id: Seq<char>, now: u64) -> bool {
        self.name_expired_date@.contains_key(token_id)
            && self.name_expired_date@[token_id] >= now
    }

    /// The display metadata of a name, derived from the name alone.
    pub fn metadata_by_token(&self, token_id: &String) -> (m: TokenMetadata)
        ensures
            m.title@ == token_id@ + ".nns"@,
            m.description@ == "Navara name service powered by NEAR protocol"@,
    {
        TokenMetadata {
            title: token_id.clone().concat(".nns"),
            description: "Navara name service powered by NEAR protocol".to_owned(),
        }
    }

    /// Whether `token` is its owner's registered default name.
    pub fn is_default_name(&self, token: &Token) -> (r: bool)
        requires
            self.wf(),
        ensures
            r == (self.default_name@.contains_key(token.owner_id@)
                && self.default_name@[token.owner_id@]@ == token.token_id@),
    {
        match self.default_name.get(&token.owner_id) {
            Some(default_name) => default_name.eq(&token.token_id),
            None => false,
        }
    }

    /// Validates a registration and dispatches the privileged self-call
    /// that performs it, chained with a refund of the net deposit to the
    /// caller should that call fail.  Nothing changes synchronously.
    pub fn register(&self, token_id: String, token_owner_id: String, ctx: &CallContext) -> (r:
        Result<RegisterNameCall, NnsError>)
        requires
            self.wf(),
            self.price_for_one_year >= 1,
            self.years_for_deposit((ctx.attached_deposit - self.fee_register) as u128)
                <= u64::MAX || ctx.attached_deposit < self.fee_register,
        ensures
            ({
                let now = ctx.block_timestamp_ms;
                let net = ctx.attached_deposit - self.fee_register;
                &&& (r == Err::<RegisterNameCall, NnsError>(NnsError::Unexpired)
                    <==> self.register_blocked_unexpired(token_id@, now))
                &&& (r == Err::<RegisterNameCall, NnsError>(NnsError::InsufficientDeposit)
                    <==> !self.register_blocked_unexpired(token_id@, now)
                        && ctx.attached_deposit < self.fee_register + self.price_for_one_year)
                &&& (r is Ok <==> !self.register_blocked_unexpired(token_id@, now)
                    && ctx.attached_deposit >= self.fee_register + self.price_for_one_year)
                &&& (r matches Ok(call) ==> {
                    &&& call.target_account_id@ == self.account_id@
                    &&& call.attached_deposit == net
                    &&& call.gas == FUNCTION_CALL_GAS
                    &&& call.token_id@ == token_id@
                    &&& call.token_owner_id@ == token_owner_id@
                    &&& call.token_metadata.title@ == token_id@ + ".nns"@
                    &&& call.years_extended == self.years_for_deposit(net as u128)
                    &&& call.on_failure.signer@ == ctx.predecessor_account_id@
                    &&& call.on_failure.deposited == net
                })
            }),
    {
        let now = ctx.block_timestamp_ms;
        match self.name_expired_date.get(&token_id) {
            Some(name_expired_date) => {
                if !(*name_expired_date < now) {
                    return Err(NnsError::Unexpired);
                }
            },
            None => (),
        }
        if ctx.attached_deposit < self.fee_register {
            return Err(NnsError::InsufficientDeposit);
        }
        let deposited: u128 = ctx.attached_deposit - self.fee_register;
        if deposited < self.price_for_one_year {
            return Err(NnsError::InsufficientDeposit);
        }
        let years_wide: u128 = deposited / self.price_for_one_year;
        let years_extended: u64 = years_wide as u64;
        let token_metadata = self.metadata_by_token(&token_id);
        Ok(
            RegisterNameCall {
                target_account_id: self.account_id.clone(),
                attached_deposit: deposited,
                gas: FUNCTION_CALL_GAS,
                token_id,
                token_owner_id,
                token_metadata,
                years_extended,
                on_failure: RefundOnFailure {
                    signer: ctx.predecessor_account_id.clone(),
                    deposited,
                },
            },
        )
    }

    /// The privileged mutation behind `register`: overwrites the name's
    /// expiration, then either re-points an existing token at the
    /// transaction's signer — clearing the default pointer that referenced
    /// it — or mints a fresh one to `token_owner_id`.
    ///
    /// An existing token deliberately goes to the signer, not to the
    /// `token_owner_id` argument: in the re-registration path the signer is
    /// the effective new holder.
    pub fn register_name(
        &mut self,
        token_id: String,
        token_owner_id: String,
        token_metadata: TokenMetadata,
        years_extended: u64,
        ctx: &CallContext,
    ) -> (r: Result<Token, NnsError>)
        requires
            old(self).wf(),
            ctx.block_timestamp_ms + years_extended * ONE_YEAR_MILLISECOND <= u64::MAX,
        ensures
            final(self).wf(),
            r is Err ==> *final(self) == *old(self),
            ({
                let now = ctx.block_timestamp_ms;
                let grown = now + years_extended * ONE_YEAR_MILLISECOND;
                let authorized = ctx.predecessor_account_id@ == old(self).account_id@;
                &&& (r == Err::<Token, NnsError>(NnsError::Unauthorized) <==> !authorized)
                &&& (r == Err::<Token, NnsError>(NnsError::InvalidExpiration) <==> authorized
                    && years_extended == 0)
                &&& (r is Ok <==> authorized && years_extended >= 1)
                &&& (r is Ok ==> final(self).name_expired_date@
                    == old(self).name_expired_date@.insert(token_id@, grown as u64))
            }),
            r is Ok && old(self).tokens@.contains_key(token_id@) ==> {
                let prior_owner = old(self).tokens@[token_id@].owner_id@;
                &&& final(self).tokens@.dom() == old(self).tokens@.dom()
                &&& final(self).tokens@[token_id@].owner_id@ == ctx.signer_account_id@
                &&& final(self).tokens@[token_id@].metadata
                    == old(self).tokens@[token_id@].metadata
                &&& (forall|k: Seq<char>|
                    #[trigger] old(self).tokens@.contains_key(k) && k != token_id@
                        ==> final(self).tokens@[k] == old(self).tokens@[k])
                &&& final(self).default_name@ == (
                    if old(self).default_name@.contains_key(prior_owner)
                        && old(self).default_name@[prior_owner]@ == token_id@ {
                        old(self).default_name@.remove(prior_owner)
                    } else {
                        old(self).default_name@
                    })
                &&& (r->Ok_0.token_id@ == token_id@
                    && r->Ok_0.owner_id@ == ctx.signer_account_id@)
                &&& (r->Ok_0.metadata matches Some(m)
                    && m.title@ == old(self).tokens@[token_id@].metadata.title@
                    && m.description@ == old(self).tokens@[token_id@].metadata.description@)
            },
            r is Ok && !old(self).tokens@.contains_key(token_id@) ==> {
                &&& final(self).tokens@.dom() == old(self).tokens@.dom().insert(token_id@)
                &&& final(self).tokens@[token_id@].owner_id@ == token_owner_id@
                &&& final(self).tokens@[token_id@].metadata == token_metadata
                &&& (forall|k: Seq<char>|
                    #[trigger] old(self).tokens@.contains_key(k) && k != token_id@
                        ==> final(self).tokens@[k] == old(self).tokens@[k])
                &&& final(self).default_name@ == old(self).default_name@
                &&& (r->Ok_0.token_id@ == token_id@ && r->Ok_0.owner_id@ == token_owner_id@)
                &&& (r->Ok_0.metadata matches Some(m) && m.title@ == token_metadata.title@
                    && m.description@ == token_metadata.description@)
            },
            r is Ok && (!old(self).name_expired_date@.contains_key(token_id@)
                || old(self).name_expired_date@[token_id@] < ctx.block_timestamp_ms)
                ==> crate::expire::expirations_nondecreasing(
                old(self).name_expired_date@,
                final(self).name_expired_date@,
            ),
            r is Ok && old(self).tokens@.contains_key(token_id@) && default_refs_only_owner(
                *old(self),
                token_id@,
            ) ==> no_default_ref(*final(self), token_id@),
            final(self).owner_id == old(self).owner_id,
            final(self).account_id == old(self).account_id,
            final(self).price_for_one_year == old(self).price_for_one_year,
            final(self).fee_register == old(self).fee_register,
            final(self).resolver_code_len == old(self).resolver_code_len,
    {
        if !(ctx.predecessor_account_id == self.account_id) {
            return Err(NnsError::Unauthorized);
        }
        let now = ctx.block_timestamp_ms;
        let new_expired_date: u64 = now + years_extended * ONE_YEAR_MILLISECOND;
        let prior: Option<(String, TokenMetadata)> = match self.tokens.get(&token_id) {
            Some(record) => Some(
                (
                    record.owner_id.clone(),
                    TokenMetadata {
                        title: record.metadata.title.clone(),
                        description: record.metadata.description.clone(),
                    },
                ),
            ),
            None => None,
        };
        match self.update_expired_date(&token_id, new_expired_date, now) {
            Ok(_) => (),
            Err(e) => {
                return Err(e);
            },
        }
        match prior {
            Some((prior_owner, prior_metadata)) => {
                let pointed = match self.default_name.get(&prior_owner) {
                    Some(name) => name.eq(&token_id),
                    None => false,
                };
                if pointed {
                    self.default_name.remove(&prior_owner);
                }
                let record = NameRecord {
                    owner_id: ctx.signer_account_id.clone(),
                    metadata: prior_metadata,
                };
                let snapshot = Registry::make_token(&token_id, &record);
                self.tokens.insert(token_id, record);
                proof {
                    assert(self.tokens@.dom() =~= old(self).tokens@.dom());
                }
                Ok(snapshot)
            },
            None => {
                let record = NameRecord { owner_id: token_owner_id, metadata: token_metadata };
                let snapshot = Registry::make_token(&token_id, &record);
                self.tokens.insert(token_id, record);
                proof {
                    assert(self.tokens@.dom() =~= old(self).tokens@.dom().insert(
                        token_id@,
                    ));
                }
                Ok(snapshot)
            },
        }
    }

    /// Points the caller's default name at `token_id`; a minted name can
    /// only be chosen by its owner.
    pub fn set_default(&mut self, token_id: String, ctx: &CallContext) -> (r: Result<
        (),
        NnsError,
    >)
        requires
            old(self).wf(),
        ensures
            final(self).wf(),
            r is Err ==> *final(self) == *old(self),
            r is Err <==> old(self).tokens@.contains_key(token_id@)
                && old(self).tokens@[token_id@].owner_id@ != ctx.predecessor_account_id@,
            r matches Err(e) ==> e == NnsError::Unauthorized,
            r is Ok ==> final(self).default_name@ == old(self).default_name@.insert(
                ctx.predecessor_account_id@,
                token_id,
            ),
            r is Ok && old(self).tokens@.contains_key(token_id@) ==> (forall|n: Seq<char>|
                default_refs_only_owner(*old(self), n) ==> default_refs_only_owner(
                    *final(self),
                    n,
                )),
            final(self).owner_id == old(self).owner_id,
            final(self).account_id == old(self).account_id,
            final(self).price_for_one_year == old(self).price_for_one_year,
            final(self).fee_register == old(self).fee_register,
            final(self).resolver_code_len == old(self).resolver_code_len,
            final(self).name_expired_date == old(self).name_expired_date,
            final(self).tokens == old(self).tokens,
    {
        match self.tokens.get(&token_id) {
            Some(record) => {
                if !(record.owner_id == ctx.predecessor_account_id) {
                    return Err(NnsError::Unauthorized);
                }
            },
            None => (),
        }
        self.default_name.insert(ctx.predecessor_account_id.clone(), token_id);
        Ok(())
    }

    /// Drops the caller's default-name pointer, if any.
    pub fn remove_default(&mut self, ctx: &CallContext)
        requires
            old(self).wf(),
        ensures
            final(self).wf(),
            final(self).default_name@ == old(self).default_name@.remove(
                ctx.predecessor_account_id@,
            ),
            final(self).owner_id == old(self).owner_id,
            final(self).account_id == old(self).account_id,
            final(self).price_for_one_year == old(self).price_for_one_year,
            final(self).fee_register == old(self).fee_register,
            final(self).resolver_code_len == old(self).resolver_code_len,
            final(self).name_expired_date == old(self).name_expired_date,
            final(self).tokens == old(self).tokens,
    {
        self.default_name.remove(&ctx.predecessor_account_id);
    }

    /// The default name `account_id` registered, if any.
    pub fn default_name(&self, account_id: &String) -> (r: Option<String>)
        requires
            self.wf(),
        ensures
            match r {
                Some(name) => self.default_name@.contains_key(account_id@)
                    && name@ == self.default_name@[account_id@]@,
                None => !self.default_name@.contains_key(account_id@),
            },
    {
        match self.default_name.get(account_id) {
            Some(name) => Some(name.clone()),
            None => None,
        }
    }
}

} // verus!
