//! The registry contract: name tokens, expirations, default-name pointers
//! and pricing.

use vstd::prelude::*;

use crate::assoc_map::AssocMap;
use crate::types::{
    CallContext, NameRecord, NnsError, PromiseOutcome, Refund, Token, TokenMetadata,
    DEFAULT_ONE_NEAR_YOCTO, DEFAULT_REGISTER_GAS_DEPOSIT,
};

verus! {

/// The registry's whole state.  Ownership of each minted name is part of
/// this state: the token standard's transfer and approval mechanics act on
/// it from outside, and the hooks in `core_impl` keep the rest of the state
/// consistent with them.
pub struct Registry {
    /// The account that administers pricing.
    pub owner_id: String,
    /// The registry contract's own account.
    pub account_id: String,
    /// Price of one registration year, in yoctoNEAR.
    pub price_for_one_year: u128,
    /// Fixed overhead withheld from every registration deposit.
    pub fee_register: u128,
    /// Size in bytes of the resolver code bundle the deployment shell holds.
    pub resolver_code_len: u64,
    /// Expiration date of each name, in milliseconds.
    pub name_expired_date: AssocMap<u64>,
    /// Each account's primary name.
    pub default_name: AssocMap<String>,
    /// The minted names: owner and display metadata of each.
    pub tokens: AssocMap<NameRecord>,
}

impl Registry {
    /// The stores are well formed and every minted name has an expiration.
    pub open spec fn wf(self) -> bool {
        &&& self.name_expired_date.wf()
        &&& self.default_name.wf()
        &&& self.tokens.wf()
        &&& forall|n: Seq<char>|
            #[trigger] self.tokens@.contains_key(n) ==> self.name_expired_date@.contains_key(n)
    }

    /// `caller` holds the minted name `token_id`.
    pub open spec fn token_owner_ok(self, token_id: Seq<char>, caller: Seq<char>) -> bool {
        self.tokens@.contains_key(token_id) && self.tokens@[token_id].owner_id@ == caller
    }

    /// An empty registry with the given administrator, account and pricing.
    pub fn new(
        owner_id: String,
        account_id: String,
        price_for_one_year: u128,
        fee_register: u128,
        resolver_code_len: u64,
    ) -> (r: Registry)
        ensures
            r.wf(),
            r.owner_id@ == owner_id@,
            r.account_id@ == account_id@,
            r.price_for_one_year == price_for_one_year,
            r.fee_register == fee_register,
            r.resolver_code_len == resolver_code_len,
            r.name_expired_date@ == Map::<Seq<char>, u64>::empty(),
            r.default_name@ == Map::<Seq<char>, String>::empty(),
            r.tokens@ == Map::<Seq<char>, NameRecord>::empty(),
    {
        Registry {
            owner_id,
            account_id,
            price_for_one_year,
            fee_register,
            resolver_code_len,
            name_expired_date: AssocMap::new(),
            default_name: AssocMap::new(),
            tokens: AssocMap::new(),
        }
    }

    /// An empty registry with the default pricing: one NEAR per year, half a
    /// NEAR of registration overhead.
    pub fn new_default_meta(owner_id: String, account_id: String, resolver_code_len: u64) -> (r:
        Registry)
        ensures
            r.wf(),
            r.owner_id@ == owner_id@,
            r.account_id@ == account_id@,
            r.price_for_one_year == DEFAULT_ONE_NEAR_YOCTO,
            r.fee_register == DEFAULT_REGISTER_GAS_DEPOSIT,
            r.resolver_code_len == resolver_code_len,
            r.name_expired_date@ == Map::<Seq<char>, u64>::empty(),
            r.default_name@ == Map::<Seq<char>, String>::empty(),
            r.tokens@ == Map::<Seq<char>, NameRecord>::empty(),
    {
        Registry::new(
            owner_id,
            account_id,
            DEFAULT_ONE_NEAR_YOCTO,
            DEFAULT_REGISTER_GAS_DEPOSIT,
            resolver_code_len,
        )
    }

    /// State migration: the retrieved state carried over with a new
    /// registration overhead.  Reading the old state is the shell's part.
    pub fn migrate(self, fee_register: u128) -> (r: Registry)
        ensures
            r.fee_register == fee_register,
            r.owner_id == self.owner_id,
            r.account_id == self.account_id,
            r.price_for_one_year == self.price_for_one_year,
            r.resolver_code_len == self.resolver_code_len,
            r.name_expired_date == self.name_expired_date,
            r.default_name == self.default_name,
            r.tokens == self.tokens,
    {
        Registry { fee_register, ..self }
    }

    /// A caller-facing snapshot of the minted name `token_id`.
    pub(crate) fn make_token(token_id: &String, record: &NameRecord) -> (t: Token)
        ensures
            t.token_id@ == token_id@,
            t.owner_id@ == record.owner_id@,
            t.metadata matches Some(m) && m.title@ == record.metadata.title@
                && m.description@ == record.metadata.description@,
    {
        Token {
            token_id: token_id.clone(),
            owner_id: record.owner_id.clone(),
            metadata: Some(
                TokenMetadata {
                    title: record.metadata.title.clone(),
                    description: record.metadata.description.clone(),
                },
            ),
        }
    }

    /// The snapshot of `token_id`, handed out only to its current owner.
    pub fn token_owner_only(&self, token_id: &String, ctx: &CallContext) -> (r: Result<
        Token,
        NnsError,
    >)
        requires
            self.wf(),
        ensures
            r is Ok <==> self.token_owner_ok(token_id@, ctx.predecessor_account_id@),
            r matches Ok(t) ==> t.token_id@ == token_id@
                && t.owner_id@ == self.tokens@[token_id@].owner_id@
                && (t.metadata matches Some(m)
                    && m.title@ == self.tokens@[token_id@].metadata.title@
                    && m.description@ == self.tokens@[token_id@].metadata.description@),
            r matches Err(e) ==> e == NnsError::Unauthorized,
    {
        match self.tokens.get(token_id) {
            Some(record) => {
                if record.owner_id == ctx.predecessor_account_id {
                    Ok(Registry::make_token(token_id, record))
                } else {
                    Err(NnsError::Unauthorized)
                }
            },
            None => Err(NnsError::Unauthorized),
        }
    }

    /// The compensation step chained behind every asynchronous mutation:
    /// once the host has finalized the mutation's outcome, a failure —
    /// and nothing else — refunds the deposit.  Only the registry itself
    /// may invoke it.
    pub fn failure_resolve(
        &self,
        signer: String,
        deposited: u128,
        outcome: PromiseOutcome,
        ctx: &CallContext,
    ) -> (r: Result<Option<Refund>, NnsError>)
        ensures
            r is Err <==> ctx.predecessor_account_id@ != self.account_id@,
            r matches Err(e) ==> e == NnsError::Unauthorized,
            r is Ok && outcome == PromiseOutcome::Failed ==> (r->Ok_0 matches Some(refund)
                && refund.receiver_id@ == signer@ && refund.amount == deposited),
            r is Ok && outcome == PromiseOutcome::Succeeded ==> r->Ok_0 is None,
    {
        if !(ctx.predecessor_account_id == self.account_id) {
            return Err(NnsError::Unauthorized);
        }
        match outcome {
            PromiseOutcome::Failed => Ok(
                Some(Refund { receiver_id: signer, amount: deposited }),
            ),
            PromiseOutcome::Succeeded => Ok(None),
        }
    }
}

} // verus!
