//! The library's laws: properties that tie several entry points together,
//! stated over the same spec functions the entry points' contracts use.

use vstd::prelude::*;

use crate::lifecycle::spec_deliver;
use crate::recovery::{entries_not_for, recoverable_coins};
use crate::state::{
    flight_at, flight_index, flight_matches, has_flight, lemma_flight_table_remove, StateModel,
};
use crate::types::{CoinModel, PolicyModel, RecoveryModel};

verus! {

/// Appending one ledger entry grows exactly its recoverer's claimable list,
/// by exactly that entry's coin, and leaves everyone else's list unchanged.
pub proof fn lemma_recoverable_after_push(r: Seq<RecoveryModel>, e: RecoveryModel, who: Seq<char>)
    ensures
        recoverable_coins(r.push(e), who) == if e.recoverer == who {
            recoverable_coins(r, who).push(e.coin)
        } else {
            recoverable_coins(r, who)
        },
{
    assert(r.push(e).drop_last() =~= r);
}

/// Law: handling a delivery outcome twice for the same `(channel, sequence)`
/// key leaves exactly the state that handling it once leaves.  The first
/// notification discharges the only in-flight transfer under that key, so the
/// second finds nothing and changes nothing — a replayed or out-of-order
/// notification can never double-credit the recovery ledger.
pub proof fn lemma_delivery_idempotent(m: StateModel, ch: Seq<char>, sq: u64, success: bool)
    requires
        m.wf(),
    ensures
        spec_deliver(spec_deliver(m, ch, sq, success), ch, sq, success) == spec_deliver(
            m,
            ch,
            sq,
            success,
        ),
{
    if has_flight(m.in_flight, ch, sq) {
        let i = flight_index(m.in_flight, ch, sq);
        let m1 = spec_deliver(m, ch, sq, success);
        m.in_flight.remove_ensures(i);
        assert forall|j: int| 0 <= j < m1.in_flight.len() implies !flight_matches(
            #[trigger] m1.in_flight[j],
            ch,
            sq,
        ) by {
            if j < i {
                assert(m1.in_flight[j] == m.in_flight[j]);
            } else {
                assert(m1.in_flight[j] == m.in_flight[j + 1]);
            }
        }
        assert(!has_flight(m1.in_flight, ch, sq));
    }
}

/// Law: a delivery outcome, whatever it is, keeps the state well-formed.
pub proof fn lemma_deliver_preserves_wf(m: StateModel, ch: Seq<char>, sq: u64, success: bool)
    requires
        m.wf(),
    ensures
        spec_deliver(m, ch, sq, success).wf(),
{
    if has_flight(m.in_flight, ch, sq) {
        let i = flight_index(m.in_flight, ch, sq);
        lemma_flight_table_remove(m.in_flight, i);
    }
}

/// Law: when a delivery fails (or times out) for an operation whose policy
/// names a recovery address, that address's claimable balances afterwards are
/// exactly what they were before plus the one in-flight coin — and no other
/// address's balances move.
pub proof fn lemma_failed_delivery_recoverable(m: StateModel, ch: Seq<char>, sq: u64, a: Seq<char>)
    requires
        m.wf(),
        has_flight(m.in_flight, ch, sq),
        flight_at(m.in_flight, ch, sq).op.on_failed_delivery == PolicyModel::LocalRecovery(a),
    ensures
        recoverable_coins(spec_deliver(m, ch, sq, false).recovery, a) == recoverable_coins(
            m.recovery,
            a,
        ).push(flight_at(m.in_flight, ch, sq).op.amount_in_flight),
        forall|b: Seq<char>|
            b != a ==> #[trigger] recoverable_coins(spec_deliver(m, ch, sq, false).recovery, b)
                == recoverable_coins(m.recovery, b),
{
    let f = flight_at(m.in_flight, ch, sq);
    let e = RecoveryModel { recoverer: a, coin: f.op.amount_in_flight };
    assert(spec_deliver(m, ch, sq, false).recovery == m.recovery.push(e));
    lemma_recoverable_after_push(m.recovery, e, a);
    assert forall|b: Seq<char>| b != a implies #[trigger] recoverable_coins(
        spec_deliver(m, ch, sq, false).recovery,
        b,
    ) == recoverable_coins(m.recovery, b) by {
        lemma_recoverable_after_push(m.recovery, e, b);
    }
}

/// Law: after a claim, the claimant's recoverable balances are empty — the
/// ledger a claim leaves behind holds nothing for the claimant.
pub proof fn lemma_claim_clears(r: Seq<RecoveryModel>, who: Seq<char>)
    ensures
        recoverable_coins(entries_not_for(r, who), who) == Seq::<CoinModel>::empty(),
    decreases r.len(),
{
    if r.len() == 0 {
    } else {
        lemma_claim_clears(r.drop_last(), who);
        if r.last().recoverer == who {
        } else {
            lemma_recoverable_after_push(entries_not_for(r.drop_last(), who), r.last(), who);
        }
    }
}

/// Law: a claim by one sender leaves every other sender's claimable balances
/// exactly as they were.
pub proof fn lemma_claim_preserves_others(r: Seq<RecoveryModel>, who: Seq<char>, other: Seq<char>)
    requires
        other != who,
    ensures
        recoverable_coins(entries_not_for(r, who), other) == recoverable_coins(r, other),
    decreases r.len(),
{
    if r.len() == 0 {
    } else {
        lemma_claim_preserves_others(r.drop_last(), who, other);
        assert(r.drop_last().push(r.last()) =~= r);
        lemma_recoverable_after_push(r.drop_last(), r.last(), other);
        if r.last().recoverer == who {
        } else {
            lemma_recoverable_after_push(entries_not_for(r.drop_last(), who), r.last(), other);
        }
    }
}

/// Law: an adverse delivery outcome never touches anything but the in-flight
/// table and the recovery ledger; a successful one never touches anything but
/// the in-flight table.
pub proof fn lemma_deliver_frame(m: StateModel, ch: Seq<char>, sq: u64, success: bool)
    ensures
        spec_deliver(m, ch, sq, success).config == m.config,
        spec_deliver(m, ch, sq, success).next_token == m.next_token,
        spec_deliver(m, ch, sq, success).pending_swaps == m.pending_swaps,
        spec_deliver(m, ch, sq, success).pending_forwards == m.pending_forwards,
        success ==> spec_deliver(m, ch, sq, success).recovery == m.recovery,
{
}

} // verus!
