//! The per-name resolver contract: network addresses, text records and an
//! IPFS pointer, owner-gated, with ownership pushed in only by the registry
//! that deployed it.

use vstd::prelude::*;

use crate::assoc_map::AssocMap;
use crate::types::{CallContext, DeleteAccountAction, NnsError};

verus! {

/// The most text records a resolver stores.
pub const TEXT_RECORDS_CAP: usize = 10;

/// One network's address entry, as view calls return it.
#[derive(Debug, PartialEq)]
pub struct JsonToken {
    pub network: String,
    pub address: Option<String>,
}

/// A resolver's whole state.
pub struct Resolver {
    /// The registry that deployed this resolver: the only account allowed
    /// to relay ownership changes.  Immutable from birth.
    pub registry: String,
    /// The current controller.
    pub owner: String,
    /// Address of this name on each network.
    pub address_by_networks: AssocMap<String>,
    /// The optional IPFS pointer.
    pub ipfs: Option<String>,
    /// Free-form text records, capped at [`TEXT_RECORDS_CAP`].
    pub text_records: AssocMap<String>,
}

/// `m` overwritten by `entries`, in order: the later entry wins a key.
pub open spec fn merged(
    m: Map<Seq<char>, String>,
    entries: Seq<(String, String)>,
) -> Map<Seq<char>, String>
    decreases entries.len(),
{
    if entries.len() == 0 {
        m
    } else {
        merged(m, entries.drop_last()).insert(entries.last().0@, entries.last().1)
    }
}

impl Resolver {
    /// The stores are well formed and the text records respect their cap.
    pub open spec fn wf(self) -> bool {
        &&& self.address_by_networks.wf()
        &&& self.text_records.wf()
        &&& self.text_records@.dom().len() <= TEXT_RECORDS_CAP
    }

    /// A fresh resolver: the deploying caller becomes the trusted registry,
    /// `owner_id` the controller, and every store starts empty.
    pub fn new(owner_id: String, ctx: &CallContext) -> (r: Resolver)
        ensures
            r.wf(),
            r.registry@ == ctx.predecessor_account_id@,
            r.owner@ == owner_id@,
            r.address_by_networks@ == Map::<Seq<char>, String>::empty(),
            r.address_by_networks.keys() == Seq::<Seq<char>>::empty(),
            r.ipfs is None,
            r.text_records@ == Map::<Seq<char>, String>::empty(),
    {
        Resolver {
            registry: ctx.predecessor_account_id.clone(),
            owner: owner_id,
            address_by_networks: AssocMap::new(),
            ipfs: None,
            text_records: AssocMap::new(),
        }
    }

    fn only_registry(&self, ctx: &CallContext) -> (r: Result<(), NnsError>)
        ensures
            r is Ok <==> ctx.predecessor_account_id@ == self.registry@,
            r matches Err(e) ==> e == NnsError::Unauthorized,
    {
        if ctx.predecessor_account_id == self.registry {
            Ok(())
        } else {
            Err(NnsError::Unauthorized)
        }
    }

    fn only_owner(&self, ctx: &CallContext) -> (r: Result<(), NnsError>)
        ensures
            r is Ok <==> ctx.predecessor_account_id@ == self.owner@,
            r matches Err(e) ==> e == NnsError::Unauthorized,
    {
        if ctx.predecessor_account_id == self.owner {
            Ok(())
        } else {
            Err(NnsError::Unauthorized)
        }
    }

    /// Records a new controller, relayed by the registry on behalf of the
    /// name's fresh owner, and answers who controlled the resolver before.
    /// Only the configured registry may call, and a signer who already is
    /// the stored owner is refused.
    pub fn owner_changed(&mut self, owner_id: String, ctx: &CallContext) -> (r: Result<
        String,
        NnsError,
    >)
        requires
            old(self).wf(),
        ensures
            final(self).wf(),
            r is Err ==> *final(self) == *old(self),
            r == Err::<String, NnsError>(NnsError::Unauthorized) <==> ctx.predecessor_account_id@
                != old(self).registry@,
            r == Err::<String, NnsError>(NnsError::OwnerUnchanged)
                <==> ctx.predecessor_account_id@ == old(self).registry@
                && ctx.signer_account_id@ == old(self).owner@,
            r is Ok <==> ctx.predecessor_account_id@ == old(self).registry@
                && ctx.signer_account_id@ != old(self).owner@,
            r matches Ok(previous) ==> previous@ == old(self).owner@ && final(self).owner@
                == owner_id@,
            final(self).registry == old(self).registry,
            final(self).address_by_networks == old(self).address_by_networks,
            final(self).ipfs == old(self).ipfs,
            final(self).text_records == old(self).text_records,
    {
        match self.only_registry(ctx) {
            Ok(_) => (),
            Err(e) => {
                return Err(e);
            },
        }
        if ctx.signer_account_id == self.owner {
            return Err(NnsError::OwnerUnchanged);
        }
        let previous_owner = self.owner.clone();
        self.owner = owner_id;
        Ok(previous_owner)
    }

    /// Wipes every record store.  The storage the wipe released is measured
    /// by the host; the returned beneficiary is who the shell refunds it to.
    pub fn clear(&mut self, beneficiary: String, ctx: &CallContext) -> (r: Result<
        String,
        NnsError,
    >)
        requires
            old(self).wf(),
        ensures
            final(self).wf(),
            r is Err ==> *final(self) == *old(self),
            r is Ok <==> ctx.predecessor_account_id@ == old(self).owner@,
            r matches Err(e) ==> e == NnsError::Unauthorized,
            r matches Ok(b) ==> b@ == beneficiary@,
            r is Ok ==> final(self).address_by_networks@ == Map::<Seq<char>, String>::empty()
                && final(self).text_records@ == Map::<Seq<char>, String>::empty()
                && final(self).ipfs is None,
            final(self).registry == old(self).registry,
            final(self).owner == old(self).owner,
    {
        match self.only_owner(ctx) {
            Ok(_) => (),
            Err(e) => {
                return Err(e);
            },
        }
        self.address_by_networks.clear_all();
        self.ipfs = None;
        self.text_records.clear_all();
        proof {
            assert(self.text_records@.dom() =~= Set::<Seq<char>>::empty());
        }
        Ok(beneficiary)
    }

    /// Deletes the resolver account, sending its remaining balance to
    /// `beneficiary`.  Owner-only; the deletion itself is the host's.
    pub fn self_delete(&self, beneficiary: String, ctx: &CallContext) -> (r: Result<
        DeleteAccountAction,
        NnsError,
    >)
        ensures
            r is Ok <==> ctx.predecessor_account_id@ == self.owner@,
            r matches Err(e) ==> e == NnsError::Unauthorized,
            r matches Ok(action) ==> action.beneficiary@ == beneficiary@,
    {
        match self.only_owner(ctx) {
            Ok(_) => (),
            Err(e) => {
                return Err(e);
            },
        }
        Ok(DeleteAccountAction { beneficiary })
    }

    /// This name's address on `network`, if one is stored.
    pub fn resolve(&self, network: String) -> (r: JsonToken)
        requires
            self.wf(),
        ensures
            r.network@ == network@,
            match r.address {
                Some(a) => self.address_by_networks@.contains_key(network@)
                    && a@ == self.address_by_networks@[network@]@,
                None => !self.address_by_networks@.contains_key(network@),
            },
    {
        let address = match self.address_by_networks.get(&network) {
            Some(a) => Some(a.clone()),
            None => None,
        };
        JsonToken { network, address }
    }

    /// Stores a batch of per-network addresses, later entries overwriting
    /// earlier ones.  Owner-only.
    pub fn set_addresses(&mut self, addresses: Vec<(String, String)>, ctx: &CallContext) -> (r:
        Result<(), NnsError>)
        requires
            old(self).wf(),
        ensures
            final(self).wf(),
            r is Err ==> *final(self) == *old(self),
            r is Ok <==> ctx.predecessor_account_id@ == old(self).owner@,
            r matches Err(e) ==> e == NnsError::Unauthorized,
            r is Ok ==> final(self).address_by_networks@ == merged(
                old(self).address_by_networks@,
                addresses@,
            ),
            final(self).registry == old(self).registry,
            final(self).owner == old(self).owner,
            final(self).ipfs == old(self).ipfs,
            final(self).text_records == old(self).text_records,
    {
        match self.only_owner(ctx) {
            Ok(_) => (),
            Err(e) => {
                return Err(e);
            },
        }
        let n = addresses.len();
        for i in 0..n
            invariant
                n == addresses@.len(),
                self.wf(),
                self.address_by_networks@ == merged(
                    old(self).address_by_networks@,
                    addresses@.take(i as int),
                ),
                self.registry == old(self).registry,
                self.owner == old(self).owner,
                self.ipfs == old(self).ipfs,
                self.text_records == old(self).text_records,
        {
            let key = addresses[i].0.clone();
            let val = addresses[i].1.clone();
            self.address_by_networks.insert(key, val);
            proof {
                assert(addresses@.take(i + 1).drop_last() =~= addresses@.take(i as int));
                assert(addresses@.take(i + 1).last() == addresses@[i as int]);
            }
        }
        proof {
            assert(addresses@.take(n as int) =~= addresses@);
        }
        // The text-record cap is audited after every batch setter; on a
        // well-formed store this audit can never fire.
        if self.text_records.len() > TEXT_RECORDS_CAP {
            return Err(NnsError::TooManyRecords);
        }
        Ok(())
    }

    /// The stored addresses from place `from_index` on, at most `limit` of
    /// them (fifty when unspecified), in enumeration order.
    pub fn get_addresses(&self, from_index: Option<u128>, limit: Option<u64>) -> (r: Vec<
        JsonToken,
    >)
        requires
            self.wf(),
            from_index matches Some(s) ==> s <= usize::MAX,
            limit matches Some(l) ==> l <= usize::MAX,
        ensures
            ({
                let keys = self.address_by_networks.keys();
                let start = (match from_index {
                    Some(s) => s as int,
                    None => 0,
                });
                let lim = (match limit {
                    Some(l) => l as int,
                    None => 50,
                });
                let count = (if start <= keys.len() {
                    (if keys.len() - start <= lim {
                        keys.len() - start
                    } else {
                        lim
                    })
                } else {
                    0
                });
                &&& r@.len() == count
                &&& forall|j: int|
                    0 <= j < count ==> (#[trigger] r@[j]).network@ == keys[start + j]
                        && (r@[j].address matches Some(a) && a@ == self.address_by_networks@[keys[
                        start + j
                    ]]@)
            }),
    {
        let start: usize = match from_index {
            Some(s) => s as usize,
            None => 0,
        };
        let lim: usize = match limit {
            Some(l) => l as usize,
            None => 50,
        };
        let total = self.address_by_networks.len();
        let mut out: Vec<JsonToken> = Vec::new();
        if start > total {
            return out;
        }
        let upto: usize = if total - start <= lim {
            total
        } else {
            start + lim
        };
        let mut i: usize = start;
        while i < upto
            invariant
                self.wf(),
                start <= i <= upto <= self.address_by_networks.keys().len(),
                out@.len() == i - start,
                forall|j: int|
                    0 <= j < out@.len() ==> (#[trigger] out@[j]).network@
                        == self.address_by_networks.keys()[start + j] && (out@[j].address matches
                        Some(a) && a@ == self.address_by_networks@[self.address_by_networks.keys()[
                        start + j
                    ]]@),
            decreases upto - i,
        {
            let network = self.address_by_networks.key_at(i).clone();
            proof {
                self.address_by_networks.lemma_keys_complete();
            }
            let entry = self.resolve(network);
            let ghost prev = out@;
            out.push(entry);
            proof {
                assert(forall|j: int| 0 <= j < prev.len() ==> #[trigger] out@[j] == prev[j]);
                assert(out@[i - start].network@ == self.address_by_networks.keys()[i as int]);
            }
            i = i + 1;
        }
        out
    }

    /// Stores a batch of text records, later entries overwriting earlier
    /// ones, all or nothing: if the store would end up over its cap the
    /// whole batch is refused and nothing changes.  Owner-only.
    pub fn set_text_records(&mut self, records: Vec<(String, String)>, ctx: &CallContext) -> (r:
        Result<(), NnsError>)
        requires
            old(self).wf(),
        ensures
            final(self).wf(),
            r is Err ==> *final(self) == *old(self),
            r == Err::<(), NnsError>(NnsError::Unauthorized) <==> ctx.predecessor_account_id@
                != old(self).owner@,
            r == Err::<(), NnsError>(NnsError::TooManyRecords) <==> ctx.predecessor_account_id@
                == old(self).owner@ && merged(old(self).text_records@, records@).dom().len()
                > TEXT_RECORDS_CAP,
            r is Ok <==> ctx.predecessor_account_id@ == old(self).owner@ && merged(
                old(self).text_records@,
                records@,
            ).dom().len() <= TEXT_RECORDS_CAP,
            r is Ok ==> final(self).text_records@ == merged(old(self).text_records@, records@),
            r is Ok ==> final(self).text_records@.dom().len() <= TEXT_RECORDS_CAP,
            final(self).registry == old(self).registry,
            final(self).owner == old(self).owner,
            final(self).address_by_networks == old(self).address_by_networks,
            final(self).ipfs == old(self).ipfs,
    {
        match self.only_owner(ctx) {
            Ok(_) => (),
            Err(e) => {
                return Err(e);
            },
        }
        let mut staged = self.text_records.duplicate();
        let n = records.len();
        for i in 0..n
            invariant
                n == records@.len(),
                staged.wf(),
                staged@ == merged(old(self).text_records@, records@.take(i as int)),
                *self == *old(self),
        {
            let key = records[i].0.clone();
            let val = records[i].1.clone();
            staged.insert(key, val);
            proof {
                assert(records@.take(i + 1).drop_last() =~= records@.take(i as int));
                assert(records@.take(i + 1).last() == records@[i as int]);
            }
        }
        proof {
            assert(records@.take(n as int) =~= records@);
        }
        if staged.len() > TEXT_RECORDS_CAP {
            return Err(NnsError::TooManyRecords);
        }
        self.text_records = staged;
        Ok(())
    }

    /// Every stored text record, in enumeration order.
    pub fn get_text_records(&self) -> (r: Vec<(String, String)>)
        requires
            self.wf(),
        ensures
            r@.len() == self.text_records.keys().len(),
            forall|j: int|
                0 <= j < r@.len() ==> (#[trigger] r@[j]).0@ == self.text_records.keys()[j]
                    && r@[j].1@ == self.text_records@[self.text_records.keys()[j]]@,
    {
        let n = self.text_records.len();
        let mut out: Vec<(String, String)> = Vec::new();
        for i in 0..n
            invariant
                self.wf(),
                n == self.text_records.keys().len(),
                out@.len() == i,
                forall|j: int|
                    0 <= j < i ==> (#[trigger] out@[j]).0@ == self.text_records.keys()[j]
                        && out@[j].1@ == self.text_records@[self.text_records.keys()[j]]@,
        {
            let key = self.text_records.key_at(i).clone();
            let val = self.text_records.val_at(i).clone();
            out.push((key, val));
        }
        out
    }

    /// Stores the IPFS pointer.  Owner-only.
    pub fn set_ipfs(&mut self, value: String, ctx: &CallContext) -> (r: Result<(), NnsError>)
        requires
            old(self).wf(),
        ensures
            final(self).wf(),
            r is Err ==> *final(self) == *old(self),
            r is Ok <==> ctx.predecessor_account_id@ == old(self).owner@,
            r matches Err(e) ==> e == NnsError::Unauthorized,
            r is Ok ==> (final(self).ipfs matches Some(v) && v@ == value@),
            final(self).registry == old(self).registry,
            final(self).owner == old(self).owner,
            final(self).address_by_networks == old(self).address_by_networks,
            final(self).text_records == old(self).text_records,
    {
        match self.only_owner(ctx) {
            Ok(_) => (),
            Err(e) => {
                return Err(e);
            },
        }
        self.ipfs = Some(value);
        Ok(())
    }

    /// The stored IPFS pointer, if any.
    pub fn ipfs(&self) -> (r: Option<String>)
        ensures
            match r {
                Some(v) => self.ipfs matches Some(stored) && v@ == stored@,
                None => self.ipfs is None,
            },
    {
        match &self.ipfs {
            Some(v) => Some(v.clone()),
            None => None,
        }
    }
}

} // verus!
