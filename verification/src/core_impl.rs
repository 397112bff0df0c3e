//! Transfer hooks.  Approval and enumeration mechanics belong to the token
//! standard and are out of scope here: the hooks model the owner-driven
//! transfer paths, and their whole point is that the expiry gate and the
//! default-name cleanup run on every one of them.

use vstd::prelude::*;

use crate::register::{default_refs_only_owner, no_default_ref};
use crate::registry::Registry;
use crate::types::{CallContext, NnsError, Token, TransferCallAction};

verus! {

/// Every default pointer at `name` belongs to one of the two accounts.
pub open spec fn default_refs_among(s: Registry, name: Seq<char>, a1: Seq<char>, a2: Seq<char>) -> bool {
    forall|a: Seq<char>|
        #[trigger] s.default_name@.contains_key(a) && s.default_name@[a]@ == name ==> a == a1 || a
            == a2
}

/// Every default pointer at `name` belongs to the account that owns `name`.
pub open spec fn default_refs_consistent(s: Registry, name: Seq<char>) -> bool {
    forall|a: Seq<char>|
        #[trigger] s.default_name@.contains_key(a) && s.default_name@[a]@ == name
            ==> s.tokens@.contains_key(name) && s.tokens@[name].owner_id@ == a
}

impl Registry {
    /// The public snapshot of a minted name.
    pub fn nft_token(&self, token_id: &String) -> (r: Option<Token>)
        requires
            self.wf(),
        ensures
            match r {
                Some(t) => self.tokens@.contains_key(token_id@) && t.token_id@ == token_id@
                    && t.owner_id@ == self.tokens@[token_id@].owner_id@
                    && (t.metadata matches Some(m)
                        && m.title@ == self.tokens@[token_id@].metadata.title@
                        && m.description@ == self.tokens@[token_id@].metadata.description@),
                None => !self.tokens@.contains_key(token_id@),
            },
    {
        match self.tokens.get(token_id) {
            Some(record) => Some(Registry::make_token(token_id, record)),
            None => None,
        }
    }

    /// A direct owner transfer: gated on the name being unexpired, clearing
    /// the owner's default pointer before the token moves.
    #[allow(unused_variables)]
    pub fn nft_transfer(
        &mut self,
        receiver_id: String,
        token_id: String,
        approval_id: Option<u64>,
        memo: Option<String>,
        ctx: &CallContext,
    ) -> (r: Result<(), NnsError>)
        requires
            old(self).wf(),
            old(self).tokens@.contains_key(token_id@),
        ensures
            final(self).wf(),
            r is Err ==> *final(self) == *old(self),
            ({
                let now = ctx.block_timestamp_ms;
                let expired = old(self).name_expired_date@[token_id@] < now;
                let owner = old(self).tokens@[token_id@].owner_id@;
                &&& (r == Err::<(), NnsError>(NnsError::Expired) <==> expired)
                &&& (r == Err::<(), NnsError>(NnsError::Unauthorized) <==> !expired && owner
                    != ctx.predecessor_account_id@)
                &&& (r is Ok <==> !expired && owner == ctx.predecessor_account_id@)
            }),
            r is Ok ==> {
                let owner = old(self).tokens@[token_id@].owner_id@;
                &&& final(self).tokens@.dom() == old(self).tokens@.dom()
                &&& final(self).tokens@[token_id@].owner_id@ == receiver_id@
                &&& final(self).tokens@[token_id@].metadata
                    == old(self).tokens@[token_id@].metadata
                &&& (forall|k: Seq<char>|
                    #[trigger] old(self).tokens@.contains_key(k) && k != token_id@
                        ==> final(self).tokens@[k] == old(self).tokens@[k])
                &&& final(self).default_name@ == (
                    if old(self).default_name@.contains_key(owner)
                        && old(self).default_name@[owner]@ == token_id@ {
                        old(self).default_name@.remove(owner)
                    } else {
                        old(self).default_name@
                    })
            },
            r is Ok && default_refs_only_owner(*old(self), token_id@) ==> no_default_ref(
                *final(self),
                token_id@,
            ),
            final(self).owner_id == old(self).owner_id,
            final(self).account_id == old(self).account_id,
            final(self).price_for_one_year == old(self).price_for_one_year,
            final(self).fee_register == old(self).fee_register,
            final(self).resolver_code_len == old(self).resolver_code_len,
            final(self).name_expired_date == old(self).name_expired_date,
    {
        let now = ctx.block_timestamp_ms;
        match self.asset_name_expired(&token_id, now) {
            Ok(_) => (),
            Err(e) => {
                return Err(e);
            },
        }
        let (prior_owner, prior_metadata) = match self.tokens.get(&token_id) {
            Some(record) => (
                record.owner_id.clone(),
                crate::types::TokenMetadata {
                    title: record.metadata.title.clone(),
                    description: record.metadata.description.clone(),
                },
            ),
            None => {
                return Err(NnsError::Unauthorized);
            },
        };
        if !(prior_owner == ctx.predecessor_account_id) {
            return Err(NnsError::Unauthorized);
        }
        let pointed = match self.default_name.get(&prior_owner) {
            Some(name) => name.eq(&token_id),
            None => false,
        };
        if pointed {
            self.default_name.remove(&prior_owner);
        }
        self.tokens.insert(
            token_id,
            crate::types::NameRecord { owner_id: receiver_id, metadata: prior_metadata },
        );
        proof {
            assert(self.tokens@.dom() =~= old(self).tokens@.dom());
        }
        Ok(())
    }

    /// The first half of a two-phase transfer: the expiry gate, the token
    /// standard's immediate move to the receiver, and the dispatched call
    /// that asks the receiver to accept or return the name.  The default
    /// pointer is settled later, in `nft_resolve_transfer`.
    pub fn nft_transfer_call(
        &mut self,
        receiver_id: String,
        token_id: String,
        approval_id: Option<u64>,
        memo: Option<String>,
        msg: String,
        ctx: &CallContext,
    ) -> (r: Result<TransferCallAction, NnsError>)
        requires
            old(self).wf(),
            old(self).tokens@.contains_key(token_id@),
        ensures
            final(self).wf(),
            r is Err ==> *final(self) == *old(self),
            ({
                let now = ctx.block_timestamp_ms;
                let expired = old(self).name_expired_date@[token_id@] < now;
                let owner = old(self).tokens@[token_id@].owner_id@;
                &&& (r == Err::<TransferCallAction, NnsError>(NnsError::Expired) <==> expired)
                &&& (r matches Err(e) && e == NnsError::Unauthorized <==> !expired && owner
                    != ctx.predecessor_account_id@)
                &&& (r is Ok <==> !expired && owner == ctx.predecessor_account_id@)
            }),
            r matches Ok(call) ==> {
                &&& final(self).tokens@.dom() == old(self).tokens@.dom()
                &&& final(self).tokens@[token_id@].owner_id@ == receiver_id@
                &&& final(self).tokens@[token_id@].metadata
                    == old(self).tokens@[token_id@].metadata
                &&& (forall|k: Seq<char>|
                    #[trigger] old(self).tokens@.contains_key(k) && k != token_id@
                        ==> final(self).tokens@[k] == old(self).tokens@[k])
                &&& final(self).default_name == old(self).default_name
                &&& call.receiver_id@ == receiver_id@
                &&& call.token_id@ == token_id@
                &&& call.approval_id == approval_id
                &&& call.msg@ == msg@
            },
            final(self).owner_id == old(self).owner_id,
            final(self).account_id == old(self).account_id,
            final(self).price_for_one_year == old(self).price_for_one_year,
            final(self).fee_register == old(self).fee_register,
            final(self).resolver_code_len == old(self).resolver_code_len,
            final(self).name_expired_date == old(self).name_expired_date,
    {
        let now = ctx.block_timestamp_ms;
        match self.asset_name_expired(&token_id, now) {
            Ok(_) => (),
            Err(e) => {
                return Err(e);
            },
        }
        let prior_metadata = match self.tokens.get(&token_id) {
            Some(record) => {
                if !(record.owner_id == ctx.predecessor_account_id) {
                    return Err(NnsError::Unauthorized);
                }
                crate::types::TokenMetadata {
                    title: record.metadata.title.clone(),
                    description: record.metadata.description.clone(),
                }
            },
            None => {
                return Err(NnsError::Unauthorized);
            },
        };
        self.tokens.insert(
            token_id.clone(),
            crate::types::NameRecord { owner_id: receiver_id.clone(), metadata: prior_metadata },
        );
        proof {
            assert(self.tokens@.dom() =~= old(self).tokens@.dom());
        }
        Ok(TransferCallAction { receiver_id, token_id, approval_id, memo, msg })
    }

    /// The second half of a two-phase transfer, run by the registry itself
    /// once the receiver's verdict is final: either the receiver keeps the
    /// name or it returns to the previous owner, and whichever of the two
    /// no longer holds it loses any default pointer at it.  Returns whether
    /// the transfer stood.
    pub fn nft_resolve_transfer(
        &mut self,
        previous_owner_id: String,
        receiver_id: String,
        token_id: String,
        keep: bool,
        ctx: &CallContext,
    ) -> (r: Result<bool, NnsError>)
        requires
            old(self).wf(),
            old(self).tokens@.contains_key(token_id@),
        ensures
            final(self).wf(),
            r is Err ==> *final(self) == *old(self),
            r is Err <==> ctx.predecessor_account_id@ != old(self).account_id@,
            r matches Err(e) ==> e == NnsError::Unauthorized,
            r matches Ok(kept) ==> kept == keep,
            r is Ok && keep ==> {
                &&& final(self).tokens == old(self).tokens
                &&& final(self).default_name@ == (
                    if old(self).default_name@.contains_key(previous_owner_id@)
                        && old(self).default_name@[previous_owner_id@]@ == token_id@ {
                        old(self).default_name@.remove(previous_owner_id@)
                    } else {
                        old(self).default_name@
                    })
            },
            r is Ok && !keep ==> {
                &&& final(self).tokens@.dom() == old(self).tokens@.dom()
                &&& final(self).tokens@[token_id@].owner_id@ == previous_owner_id@
                &&& final(self).tokens@[token_id@].metadata
                    == old(self).tokens@[token_id@].metadata
                &&& (forall|k: Seq<char>|
                    #[trigger] old(self).tokens@.contains_key(k) && k != token_id@
                        ==> final(self).tokens@[k] == old(self).tokens@[k])
                &&& final(self).default_name@ == (
                    if old(self).default_name@.contains_key(receiver_id@)
                        && old(self).default_name@[receiver_id@]@ == token_id@ {
                        old(self).default_name@.remove(receiver_id@)
                    } else {
                        old(self).default_name@
                    })
            },
            r is Ok && keep && old(self).tokens@[token_id@].owner_id@ == receiver_id@
                && default_refs_among(*old(self), token_id@, previous_owner_id@, receiver_id@)
                ==> default_refs_consistent(*final(self), token_id@),
            r is Ok && !keep && default_refs_among(
                *old(self),
                token_id@,
                previous_owner_id@,
                receiver_id@,
            ) ==> default_refs_consistent(*final(self), token_id@),
            final(self).owner_id == old(self).owner_id,
            final(self).account_id == old(self).account_id,
            final(self).price_for_one_year == old(self).price_for_one_year,
            final(self).fee_register == old(self).fee_register,
            final(self).resolver_code_len == old(self).resolver_code_len,
            final(self).name_expired_date == old(self).name_expired_date,
    {
        if !(ctx.predecessor_account_id == self.account_id) {
            return Err(NnsError::Unauthorized);
        }
        if keep {
            let pointed = match self.default_name.get(&previous_owner_id) {
                Some(name) => name.eq(&token_id),
                None => false,
            };
            if pointed {
                self.default_name.remove(&previous_owner_id);
            }
            return Ok(true);
        }
        let prior_metadata = match self.tokens.get(&token_id) {
            Some(record) => crate::types::TokenMetadata {
                title: record.metadata.title.clone(),
                description: record.metadata.description.clone(),
            },
            None => {
                return Err(NnsError::Unauthorized);
            },
        };
        self.tokens.insert(
            token_id.clone(),
            crate::types::NameRecord { owner_id: previous_owner_id, metadata: prior_metadata },
        );
        proof {
            assert(self.tokens@.dom() =~= old(self).tokens@.dom());
        }
        let pointed = match self.default_name.get(&receiver_id) {
            Some(name) => name.eq(&token_id),
            None => false,
        };
        if pointed {
            self.default_name.remove(&receiver_id);
        }
        Ok(false)
    }
}

} // verus!
