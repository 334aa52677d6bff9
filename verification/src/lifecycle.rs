//! The delivery-lifecycle handler: reacts to the transport layer's outcome
//! notifications for a previously dispatched forward transfer.
//!
//! An acknowledged success resolves the operation to delivered; an
//! acknowledged failure or a timeout applies the operation's failed-delivery
//! policy and resolves it to recoverable or abandoned.  A notification whose
//! `(channel, sequence)` key is not tracked — a duplicate, or one for an
//! operation already resolved — is a no-op, never an error and never a second
//! credit.

use vstd::prelude::*;

use crate::state::{
    flight_at, flight_index, has_flight, lemma_flight_index_unique,
    lemma_flight_table_remove, lemma_map_values_push, lemma_map_values_remove, ContractState,
    FlightModel, InFlightForward, StateModel,
};
use crate::types::{
    Action, ContractError, FailedDeliveryAction, PolicyModel, RecoveryEntry, RecoveryModel,
};

verus! {

/// The ledger entries a failed delivery of `f` appends: one entry for the
/// policy's recovery address, or none when the policy asks for nothing.
pub open spec fn recovery_after_failure(r: Seq<RecoveryModel>, f: FlightModel) -> Seq<
    RecoveryModel,
> {
    match f.op.on_failed_delivery {
        PolicyModel::DoNothing => r,
        PolicyModel::LocalRecovery(a) => r.push(
            RecoveryModel { recoverer: a, coin: f.op.amount_in_flight },
        ),
    }
}

/// The state after a delivery outcome for the transport key `(ch, sq)` is
/// handled: the matching in-flight transfer, if any, is discharged, and on an
/// adverse outcome its policy's recovery entry is appended; an unknown key
/// changes nothing.
pub open spec fn spec_deliver(m: StateModel, ch: Seq<char>, sq: u64, success: bool) -> StateModel {
    if has_flight(m.in_flight, ch, sq) {
        let i = flight_index(m.in_flight, ch, sq);
        let f = m.in_flight[i];
        StateModel {
            in_flight: m.in_flight.remove(i),
            recovery: if success {
                m.recovery
            } else {
                recovery_after_failure(m.recovery, f)
            },
            ..m
        }
    } else {
        m
    }
}

impl ContractState {
    /// Discharges the in-flight transfer keyed `(channel, sequence)` under
    /// the given outcome.
    fn resolve_delivery(&mut self, channel: &String, sequence: u64, success: bool) -> (r: Action)
        requires
            old(self).wf(),
        ensures
            final(self).wf(),
            final(self)@ == spec_deliver(old(self)@, channel@, sequence, success),
            r == Action::Noop <==> !has_flight(old(self)@.in_flight, channel@, sequence),
            has_flight(old(self)@.in_flight, channel@, sequence) && success ==> r
                == Action::Delivered,
            has_flight(old(self)@.in_flight, channel@, sequence) && !success ==> match flight_at(
                old(self)@.in_flight,
                channel@,
                sequence,
            ).op.on_failed_delivery {
                PolicyModel::DoNothing => r == Action::AbandonedByPolicy,
                PolicyModel::LocalRecovery(a) => r matches Action::MarkedRecoverable {
                    cause,
                    recoverer,
                    coin,
                } && cause == ContractError::ForwardFailed && recoverer@ == a && coin@ == flight_at(
                    old(self)@.in_flight,
                    channel@,
                    sequence,
                ).op.amount_in_flight,
            },
    {
        let idx = match self.find_flight(channel, sequence) {
            None => {
                return Action::Noop;
            },
            Some(i) => i,
        };
        proof {
            lemma_flight_index_unique(self@.in_flight, channel@, sequence, idx as int);
        }
        let entry = self.in_flight.remove(idx);
        proof {
            lemma_map_values_remove(
                old(self).in_flight@,
                |e: InFlightForward| e@,
                idx as int,
            );
            lemma_flight_table_remove(old(self)@.in_flight, idx as int);
        }
        if success {
            proof {
                assert(final(self)@ =~~= spec_deliver(old(self)@, channel@, sequence, true));
            }
            return Action::Delivered;
        }
        match entry.op.on_failed_delivery {
            FailedDeliveryAction::DoNothing => {
                proof {
                    assert(final(self)@ =~~= spec_deliver(old(self)@, channel@, sequence, false));
                }
                Action::AbandonedByPolicy
            },
            FailedDeliveryAction::LocalRecovery(a) => {
                let recoverer = a.clone();
                let coin = entry.op.amount_in_flight.clone();
                let ghost before = self@.recovery;
                self.recovery.push(
                    RecoveryEntry { recoverer: a, coin: entry.op.amount_in_flight },
                );
                proof {
                    lemma_map_values_push(
                        self.recovery@.drop_last(),
                        |e: RecoveryEntry| e@,
                        self.recovery@.last(),
                    );
                    assert(self.recovery@.drop_last().push(self.recovery@.last())
                        =~= self.recovery@);
                    assert(final(self)@ =~~= spec_deliver(old(self)@, channel@, sequence, false));
                }
                Action::MarkedRecoverable {
                    cause: ContractError::ForwardFailed,
                    recoverer,
                    coin,
                }
            },
        }
    }

    /// The transport acknowledged the transfer keyed `(channel, sequence)`:
    /// on success the operation is delivered and its tracking state dropped;
    /// on failure the receiving chain rejected the transfer and the
    /// failed-delivery policy is applied.  The acknowledgment payload is the
    /// transport's own data and is not interpreted here.
    pub fn on_delivery_ack(
        &mut self,
        channel: &String,
        sequence: u64,
        _ack_payload: &String,
        success: bool,
    ) -> (r: Action)
        requires
            old(self).wf(),
        ensures
            final(self).wf(),
            final(self)@ == spec_deliver(old(self)@, channel@, sequence, success),
            r == Action::Noop <==> !has_flight(old(self)@.in_flight, channel@, sequence),
            has_flight(old(self)@.in_flight, channel@, sequence) && success ==> r
                == Action::Delivered,
            has_flight(old(self)@.in_flight, channel@, sequence) && !success ==> match flight_at(
                old(self)@.in_flight,
                channel@,
                sequence,
            ).op.on_failed_delivery {
                PolicyModel::DoNothing => r == Action::AbandonedByPolicy,
                PolicyModel::LocalRecovery(a) => r matches Action::MarkedRecoverable {
                    cause,
                    recoverer,
                    coin,
                } && cause == ContractError::ForwardFailed && recoverer@ == a && coin@ == flight_at(
                    old(self)@.in_flight,
                    channel@,
                    sequence,
                ).op.amount_in_flight,
            },
    {
        self.resolve_delivery(channel, sequence, success)
    }

    /// The transport reported no acknowledgment within its window for the
    /// transfer keyed `(channel, sequence)`.  The transport guarantees the
    /// transfer did not complete, so this is handled exactly like an
    /// acknowledged failure.
    pub fn on_delivery_timeout(&mut self, channel: &String, sequence: u64) -> (r: Action)
        requires
            old(self).wf(),
        ensures
            final(self).wf(),
            final(self)@ == spec_deliver(old(self)@, channel@, sequence, false),
            r == Action::Noop <==> !has_flight(old(self)@.in_flight, channel@, sequence),
            has_flight(old(self)@.in_flight, channel@, sequence) ==> match flight_at(
                old(self)@.in_flight,
                channel@,
                sequence,
            ).op.on_failed_delivery {
                PolicyModel::DoNothing => r == Action::AbandonedByPolicy,
                PolicyModel::LocalRecovery(a) => r matches Action::MarkedRecoverable {
                    cause,
                    recoverer,
                    coin,
                } && cause == ContractError::ForwardFailed && recoverer@ == a && coin@ == flight_at(
                    old(self)@.in_flight,
                    channel@,
                    sequence,
                ).op.amount_in_flight,
            },
    {
        self.resolve_delivery(channel, sequence, false)
    }
}

} // verus!
