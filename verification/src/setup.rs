//! Resolver deployment and the ownership push into a deployed resolver.

use vstd::prelude::*;
use vstd::string::StringExecFns;

use crate::encode::{ascii_no_escape, borsh_owner_args, json_owner_args};
use crate::registry::Registry;
use crate::types::{
    CallContext, DeployResolverCall, NnsError, OwnerChangedCall, RefundOnFailure,
    EXTRA_BYTES, FUNCTION_CALL_GAS, STORAGE_PRICE_PER_BYTE,
};

verus! {

/// The initializer arguments of a resolver: who owns it from birth.
pub struct ResolverArgs {
    pub owner_id: String,
}

/// The remote surface of a deployed resolver, as the registry calls it.
pub trait NameResolver {
    /// Relays a change of control; answers the previous owner.
    fn owner_changed(&mut self, owner_id: String) -> String;
}

impl Registry {
    /// The least balance a resolver deployment must carry: the code bundle
    /// plus a storage margin, priced per byte, with the initializer
    /// arguments counted twice.
    pub open spec fn min_attach_spec(self, owner: Seq<char>) -> int {
        (self.resolver_code_len as int + EXTRA_BYTES as int + (4 + owner.len()) * 2)
            * STORAGE_PRICE_PER_BYTE as int + 5
    }

    /// Computes [`Registry::min_attach_spec`] for the given arguments.
    pub fn get_min_attach_balance(&self, args: &ResolverArgs) -> (r: u128)
        requires
            ascii_no_escape(args.owner_id@),
            args.owner_id@.len() <= u32::MAX,
            self.min_attach_spec(args.owner_id@) <= u128::MAX,
        ensures
            r == self.min_attach_spec(args.owner_id@),
    {
        let encoded = borsh_owner_args(&args.owner_id);
        let total_bytes: u128 = self.resolver_code_len as u128 + EXTRA_BYTES as u128 + (
        encoded.len() as u128) * 2;
        total_bytes * STORAGE_PRICE_PER_BYTE + 5
    }

    /// Deploys a resolver for the caller's name: creates the sub-account
    /// `<name>.<registry>`, moves the computed minimum balance over,
    /// deploys the code and calls the initializer with the name's current
    /// owner, chained with a refund of the whole attached deposit should
    /// any of that fail.
    pub fn setup(&self, token_id: String, ctx: &CallContext) -> (r: Result<
        DeployResolverCall,
        NnsError,
    >)
        requires
            self.wf(),
            ascii_no_escape(ctx.predecessor_account_id@),
            ctx.predecessor_account_id@.len() <= u32::MAX,
            self.min_attach_spec(ctx.predecessor_account_id@) <= u128::MAX,
        ensures
            ({
                let owner_ok = self.token_owner_ok(token_id@, ctx.predecessor_account_id@);
                let min = self.min_attach_spec(ctx.predecessor_account_id@);
                &&& (r == Err::<DeployResolverCall, NnsError>(NnsError::Unauthorized)
                    <==> !owner_ok)
                &&& (r == Err::<DeployResolverCall, NnsError>(NnsError::InsufficientDeposit)
                    <==> owner_ok && ctx.attached_deposit <= min)
                &&& (r is Ok <==> owner_ok && ctx.attached_deposit > min)
                &&& (r matches Ok(call) ==> {
                    &&& call.resolver_account_id@ == token_id@ + "."@ + self.account_id@
                    &&& call.transfer_amount == min
                    &&& call.init_args@ == "{\"owner_id\":\""@ + ctx.predecessor_account_id@
                        + "\"}"@
                    &&& call.gas == FUNCTION_CALL_GAS
                    &&& call.on_failure.signer@ == ctx.predecessor_account_id@
                    &&& call.on_failure.deposited == ctx.attached_deposit
                })
            }),
    {
        let token = match self.token_owner_only(&token_id, ctx) {
            Ok(t) => t,
            Err(e) => {
                return Err(e);
            },
        };
        let owner_id = token.owner_id;
        let resolver_args = ResolverArgs { owner_id: owner_id.clone() };
        let min_attach_balance = self.get_min_attach_balance(&resolver_args);
        if !(ctx.attached_deposit > min_attach_balance) {
            return Err(NnsError::InsufficientDeposit);
        }
        let resolver_account_id = token_id.concat(".").concat(self.account_id.as_str());
        let init_args = json_owner_args(&resolver_args.owner_id);
        Ok(
            DeployResolverCall {
                resolver_account_id,
                transfer_amount: min_attach_balance,
                init_args,
                gas: FUNCTION_CALL_GAS,
                on_failure: RefundOnFailure {
                    signer: owner_id,
                    deposited: ctx.attached_deposit,
                },
            },
        )
    }

    /// Pushes the caller, the name's owner, into the name's deployed
    /// resolver through its `owner_changed` entry point.  No registry state
    /// changes.
    pub fn take_ownership(&self, token_id: String, ctx: &CallContext) -> (r: Result<
        OwnerChangedCall,
        NnsError,
    >)
        requires
            self.wf(),
            ascii_no_escape(ctx.predecessor_account_id@),
        ensures
            r is Ok <==> self.token_owner_ok(token_id@, ctx.predecessor_account_id@),
            r matches Err(e) ==> e == NnsError::Unauthorized,
            r matches Ok(call) ==> {
                &&& call.resolver_account_id@ == token_id@ + "."@ + self.account_id@
                &&& call.args@ == "{\"owner_id\":\""@ + ctx.predecessor_account_id@ + "\"}"@
                &&& call.gas == FUNCTION_CALL_GAS
            },
    {
        match self.token_owner_only(&token_id, ctx) {
            Ok(_) => (),
            Err(e) => {
                return Err(e);
            },
        }
        let args = json_owner_args(&ctx.predecessor_account_id);
        let resolver_account_id = token_id.concat(".").concat(self.account_id.as_str());
        Ok(OwnerChangedCall { resolver_account_id, args, gas: FUNCTION_CALL_GAS })
    }
}

} // verus!
