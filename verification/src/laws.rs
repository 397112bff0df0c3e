//! The service's cross-cutting guarantees.
//!
//! Each operation's contract already pins its own step; the lemmas here
//! splice those steps together: monotone expirations compose over any
//! sequence of calls, an expired name is open to capture, and a state
//! without default pointers at a name satisfies every pointer precondition
//! the transfer hooks ask for.

use vstd::prelude::*;

use crate::core_impl::default_refs_among;
use crate::expire::expirations_nondecreasing;
use crate::register::{default_refs_only_owner, no_default_ref};
use crate::registry::Registry;

verus! {

/// Expirations are monotonically non-decreasing across any sequence of
/// successful `extend` and `register_name` calls: each such call ensures
/// `expirations_nondecreasing` between its two states (for `register_name`,
/// on the expired or fresh names the `register` entry point admits), and
/// this lemma chains those single steps.
pub proof fn lemma_expirations_nondecreasing_trans(
    m1: Map<Seq<char>, u64>,
    m2: Map<Seq<char>, u64>,
    m3: Map<Seq<char>, u64>,
)
    requires
        expirations_nondecreasing(m1, m2),
        expirations_nondecreasing(m2, m3),
    ensures
        expirations_nondecreasing(m1, m3),
{
}

/// Over a whole run of the registry — any chain of expiration snapshots in
/// which each step is non-decreasing — the last snapshot dominates the
/// first: no sequence of successful calls ever moves a name's expiration
/// backwards.
pub proof fn lemma_expirations_nondecreasing_seq(snapshots: Seq<Map<Seq<char>, u64>>)
    requires
        snapshots.len() >= 1,
        forall|i: int|
            0 <= i < snapshots.len() - 1 ==> expirations_nondecreasing(
                snapshots[i],
                #[trigger] snapshots[i + 1],
            ),
    ensures
        expirations_nondecreasing(snapshots.first(), snapshots.last()),
    decreases snapshots.len(),
{
    if snapshots.len() > 1 {
        let n = snapshots.len() as int;
        lemma_expirations_nondecreasing_seq(snapshots.drop_last());
        assert(expirations_nondecreasing(snapshots[n - 2], snapshots[(n - 2) + 1]));
        assert(snapshots.drop_last().last() == snapshots[n - 2]);
        lemma_expirations_nondecreasing_trans(
            snapshots.first(),
            snapshots.drop_last().last(),
            snapshots.last(),
        );
    }
}

/// A name whose expiration lies in the past is eligible for capture by
/// anyone: no deposit-carrying `register` call is blocked as `Unexpired`,
/// so by `register`'s contract it returns the dispatched mutation, and by
/// `register_name`'s contract that mutation re-points the token at the
/// transaction's signer.
pub proof fn lemma_expired_name_capturable(s: Registry, token_id: Seq<char>, now: u64)
    requires
        s.name_expired_date@.contains_key(token_id) ==> s.name_expired_date@[token_id] < now,
    ensures
        !s.register_blocked_unexpired(token_id, now),
{
}

/// Once no default pointer at all refers to a name — what the transfer
/// hooks and `register_name` leave behind — every pointer precondition
/// those operations ask of the next step holds vacuously.
pub proof fn lemma_no_ref_meets_every_precondition(
    s: Registry,
    name: Seq<char>,
    a1: Seq<char>,
    a2: Seq<char>,
)
    requires
        no_default_ref(s, name),
    ensures
        default_refs_only_owner(s, name),
        default_refs_among(s, name, a1, a2),
{
}

} // verus!
