//! The swap-and-forward orchestrator: decides whether an inbound transfer
//! needs a swap, dispatches the swap and the forward transfer as independent
//! asynchronous steps, and resumes each step when its reply arrives, routing
//! every adverse outcome to the recovery ledger.

use vstd::prelude::*;

use crate::state::{
    forward_index, forward_record, has_flight, has_forward_token, has_swap_token,
    lemma_flight_table_push, lemma_forward_index_unique, lemma_forward_table_push,
    lemma_forward_table_remove, lemma_map_values_remove,
    lemma_swap_index_unique, lemma_swap_table_push, lemma_swap_table_remove, swap_index, swap_op,
    ContractState, FlightModel, ForwardRecordModel, InFlightForward, PendingForward, PendingSwap,
    SwapRecordModel,
};
use crate::types::{
    clone_note, note_view, Action, ActionModel, Coin, CoinModel, ContractError,
    FailedDeliveryAction, ForwardReplyOutcome, OpModel, PendingOperation, RecoveryEntry,
    RecoveryModel, ReplyKind, SwapReplyOutcome,
};

verus! {

/// The reply tag under which a swap dispatch asks to be resumed.
pub const SWAP_REPLY_ID: u64 = 1;

/// The reply tag under which a forward dispatch asks to be resumed.
pub const FORWARD_REPLY_ID: u64 = 2;

/// Routes a raw reply tag to the handler that owns it, rejecting any tag
/// outside the recognized set rather than defaulting.
pub fn classify_reply(id: u64) -> (r: Result<ReplyKind, ContractError>)
    ensures
        id == SWAP_REPLY_ID ==> r == Ok::<ReplyKind, ContractError>(ReplyKind::Swap),
        id == FORWARD_REPLY_ID ==> r == Ok::<ReplyKind, ContractError>(ReplyKind::Forward),
        id != SWAP_REPLY_ID && id != FORWARD_REPLY_ID ==> r == Err::<ReplyKind, ContractError>(
            ContractError::InvalidReplyIdentifier { id },
        ),
{
    if id == SWAP_REPLY_ID {
        Ok(ReplyKind::Swap)
    } else if id == FORWARD_REPLY_ID {
        Ok(ReplyKind::Forward)
    } else {
        Err(ContractError::InvalidReplyIdentifier { id })
    }
}

/// The operation context an inbound transfer opens.
pub open spec fn opened_op(
    sender: Seq<char>,
    input: CoinModel,
    output_denom: Seq<char>,
    receiver: Seq<char>,
    slippage_bps: u64,
    forwarding_note: Option<Seq<char>>,
    on_failed_delivery: crate::types::PolicyModel,
    route_hint: Option<Seq<char>>,
) -> OpModel {
    OpModel {
        original_sender: sender,
        receiver: receiver,
        output_denom: output_denom,
        slippage_bps: slippage_bps,
        forwarding_note: forwarding_note,
        on_failed_delivery: on_failed_delivery,
        route_hint: route_hint,
        amount_in_flight: input,
    }
}

impl ContractState {
    /// Entry point of an operation: an inbound transfer of `input`, to end up
    /// as `output_denom` with `receiver` over the cross-chain transport.
    ///
    /// When the source denomination already equals the output denomination no
    /// swap is dispatched: the full amount goes straight to the forward step
    /// over `resolved_channel`, the registry's transport channel for the
    /// output denomination as the host resolved it.  Otherwise a swap is
    /// dispatched to the swap service under a fresh correlation token and the
    /// operation is parked until [`Self::on_swap_reply`].  When the forward
    /// step is due but the registry resolved no channel (`resolved_channel`
    /// is `None`), the funds are recorded recoverable for `sender` instead —
    /// the invocation itself still succeeds.
    ///
    /// The mint counter must not be exhausted (a machine limit: fewer than
    /// `u64::MAX` tokens ever minted); the host checks `next_token` first.
    pub fn execute_swap_and_forward(
        &mut self,
        sender: &String,
        input: Coin,
        output_denom: String,
        receiver: String,
        slippage_bps: u64,
        forwarding_note: Option<String>,
        on_failed_delivery: FailedDeliveryAction,
        route_hint: Option<String>,
        resolved_channel: Option<String>,
    ) -> (r: Result<Action, ContractError>)
        requires
            old(self).wf(),
            input@.denom != output_denom@ || resolved_channel is Some ==> old(self).next_token
                < u64::MAX,
        ensures
            final(self).wf(),
            r is Ok,
            final(self)@.config == old(self)@.config,
            final(self)@.in_flight == old(self)@.in_flight,
            ({
                let op = opened_op(
                    sender@,
                    input@,
                    output_denom@,
                    receiver@,
                    slippage_bps,
                    note_view(forwarding_note),
                    on_failed_delivery@,
                    note_view(route_hint),
                );
                if input@.denom != output_denom@ {
                    &&& final(self)@.pending_swaps == old(self)@.pending_swaps.push(
                        SwapRecordModel { token: old(self)@.next_token, op },
                    )
                    &&& final(self)@.next_token == old(self)@.next_token + 1
                    &&& final(self)@.pending_forwards == old(self)@.pending_forwards
                    &&& final(self)@.recovery == old(self)@.recovery
                    &&& r matches Ok(a) && a@ == (ActionModel::DispatchSwap {
                        token: old(self)@.next_token,
                        input: input@,
                        output_denom: output_denom@,
                        slippage_bps,
                        route_hint: note_view(route_hint),
                    })
                } else {
                    &&& final(self)@.pending_swaps == old(self)@.pending_swaps
                    &&& match resolved_channel {
                        Some(ch) => {
                            &&& final(self)@.pending_forwards == old(
                                self,
                            )@.pending_forwards.push(
                                ForwardRecordModel {
                                    token: old(self)@.next_token,
                                    channel: ch@,
                                    op,
                                },
                            )
                            &&& final(self)@.next_token == old(self)@.next_token + 1
                            &&& final(self)@.recovery == old(self)@.recovery
                            &&& r matches Ok(a) && a@ == (ActionModel::DispatchForward {
                                token: old(self)@.next_token,
                                channel: ch@,
                                receiver: receiver@,
                                coin: input@,
                                note: note_view(forwarding_note),
                            })
                        },
                        None => {
                            &&& final(self)@.pending_forwards == old(self)@.pending_forwards
                            &&& final(self)@.next_token == old(self)@.next_token
                            &&& final(self)@.recovery == old(self)@.recovery.push(
                                RecoveryModel { recoverer: sender@, coin: input@ },
                            )
                            &&& r matches Ok(a) && a@ == (ActionModel::MarkedRecoverable {
                                cause: ContractError::RegistryResolutionFailed,
                                recoverer: sender@,
                                coin: input@,
                            })
                        },
                    }
                }
            }),
    {
        let needs_swap = !(input.denom == output_denom);
        if needs_swap {
            let token = self.next_token;
            self.next_token = token + 1;
            let action_input = input.clone();
            let action_output = output_denom.clone();
            let action_route = clone_note(&route_hint);
            let op = PendingOperation {
                original_sender: sender.clone(),
                receiver,
                output_denom,
                slippage_bps,
                forwarding_note,
                on_failed_delivery,
                route_hint,
                amount_in_flight: input,
            };
            let ghost swaps_before = self@.pending_swaps;
            let ghost rec = SwapRecordModel { token, op: op@ };
            self.pending_swaps.push(PendingSwap { token, op });
            proof {
                assert(self@.pending_swaps =~= swaps_before.push(rec));
                lemma_swap_table_push(swaps_before, rec, self.next_token);
            }
            Ok(
                Action::DispatchSwap {
                    token,
                    input: action_input,
                    output_denom: action_output,
                    slippage_bps,
                    route_hint: action_route,
                },
            )
        } else {
            match resolved_channel {
                Some(channel) => {
                    let token = self.next_token;
                    self.next_token = token + 1;
                    let action_coin = input.clone();
                    let action_channel = channel.clone();
                    let action_receiver = receiver.clone();
                    let action_note = clone_note(&forwarding_note);
                    let op = PendingOperation {
                        original_sender: sender.clone(),
                        receiver,
                        output_denom,
                        slippage_bps,
                        forwarding_note,
                        on_failed_delivery,
                        route_hint,
                        amount_in_flight: input,
                    };
                    let ghost fwds_before = self@.pending_forwards;
                    let ghost rec = ForwardRecordModel { token, channel: channel@, op: op@ };
                    self.pending_forwards.push(PendingForward { token, channel, op });
                    proof {
                        assert(self@.pending_forwards =~= fwds_before.push(rec));
                        lemma_forward_table_push(fwds_before, rec, self.next_token);
                    }
                    Ok(
                        Action::DispatchForward {
                            token,
                            channel: action_channel,
                            receiver: action_receiver,
                            coin: action_coin,
                            note: action_note,
                        },
                    )
                },
                None => {
                    let recoverer = sender.clone();
                    let coin = input.clone();
                    let ghost rec_before = self@.recovery;
                    let ghost rentry = RecoveryModel { recoverer: sender@, coin: input@ };
                    self.recovery.push(RecoveryEntry { recoverer: sender.clone(), coin: input });
                    proof {
                        assert(self@.recovery =~= rec_before.push(rentry));
                    }
                    Ok(
                        Action::MarkedRecoverable {
                            cause: ContractError::RegistryResolutionFailed,
                            recoverer,
                            coin,
                        },
                    )
                },
            }
        }
    }

    /// Resumes an operation when the swap service's reply arrives.
    ///
    /// A reply bearing a token with no pending operation is rejected with
    /// `UnknownCorrelation` and changes nothing: it is either forged or a
    /// replay for an operation already resolved, and must never release funds
    /// twice.  On a successful reply the swapped output is forwarded to the
    /// operation's receiver over `resolved_channel`, the registry's channel
    /// for the output denomination as the host resolved it (`None` sends the
    /// swapped funds to recovery instead).  On a failed reply the swap never
    /// executed, so the original source coin is recorded recoverable for the
    /// original sender and no forward is attempted.
    ///
    /// The mint counter must not be exhausted (a machine limit: fewer than
    /// `u64::MAX` tokens ever minted); the host checks `next_token` first.
    pub fn on_swap_reply(
        &mut self,
        token: u64,
        outcome: SwapReplyOutcome,
        resolved_channel: Option<String>,
    ) -> (r: Result<Action, ContractError>)
        requires
            old(self).wf(),
            outcome matches SwapReplyOutcome::Success { .. } && resolved_channel is Some ==> old(
                self,
            ).next_token < u64::MAX,
        ensures
            final(self).wf(),
            !has_swap_token(old(self)@.pending_swaps, token) ==> r == Err::<Action, ContractError>(
                ContractError::UnknownCorrelation { token },
            ) && *final(self) == *old(self),
            has_swap_token(old(self)@.pending_swaps, token) ==> {
                let op = swap_op(old(self)@.pending_swaps, token);
                &&& r is Ok
                &&& final(self)@.pending_swaps == old(self)@.pending_swaps.remove(
                    swap_index(old(self)@.pending_swaps, token),
                )
                &&& final(self)@.config == old(self)@.config
                &&& final(self)@.in_flight == old(self)@.in_flight
                &&& match outcome {
                    SwapReplyOutcome::Failure => {
                        &&& final(self)@.pending_forwards == old(self)@.pending_forwards
                        &&& final(self)@.next_token == old(self)@.next_token
                        &&& final(self)@.recovery == old(self)@.recovery.push(
                            RecoveryModel {
                                recoverer: op.original_sender,
                                coin: op.amount_in_flight,
                            },
                        )
                        &&& r matches Ok(a) && a@ == (ActionModel::MarkedRecoverable {
                            cause: ContractError::SwapFailed,
                            recoverer: op.original_sender,
                            coin: op.amount_in_flight,
                        })
                    },
                    SwapReplyOutcome::Success { output_amount } => {
                        let swapped = CoinModel { denom: op.output_denom, amount: output_amount };
                        match resolved_channel {
                            Some(ch) => {
                                &&& final(self)@.pending_forwards == old(
                                    self,
                                )@.pending_forwards.push(
                                    ForwardRecordModel {
                                        token: old(self)@.next_token,
                                        channel: ch@,
                                        op: OpModel { amount_in_flight: swapped, ..op },
                                    },
                                )
                                &&& final(self)@.next_token == old(self)@.next_token + 1
                                &&& final(self)@.recovery == old(self)@.recovery
                                &&& r matches Ok(a) && a@ == (ActionModel::DispatchForward {
                                    token: old(self)@.next_token,
                                    channel: ch@,
                                    receiver: op.receiver,
                                    coin: swapped,
                                    note: op.forwarding_note,
                                })
                            },
                            None => {
                                &&& final(self)@.pending_forwards == old(self)@.pending_forwards
                                &&& final(self)@.next_token == old(self)@.next_token
                                &&& final(self)@.recovery == old(self)@.recovery.push(
                                    RecoveryModel {
                                        recoverer: op.original_sender,
                                        coin: swapped,
                                    },
                                )
                                &&& r matches Ok(a) && a@ == (ActionModel::MarkedRecoverable {
                                    cause: ContractError::RegistryResolutionFailed,
                                    recoverer: op.original_sender,
                                    coin: swapped,
                                })
                            },
                        }
                    },
                }
            },
    {
        let idx = match self.find_swap(token) {
            None => {
                return Err(ContractError::UnknownCorrelation { token });
            },
            Some(i) => i,
        };
        proof {
            lemma_swap_index_unique(self@.pending_swaps, token, idx as int);
        }
        let entry = self.pending_swaps.remove(idx);
        proof {
            lemma_map_values_remove(old(self).pending_swaps@, |e: PendingSwap| e@, idx as int);
            lemma_swap_table_remove(old(self)@.pending_swaps, idx as int, old(self)@.next_token);
        }
        let op = entry.op;
        match outcome {
            SwapReplyOutcome::Failure => {
                let recoverer = op.original_sender.clone();
                let coin = op.amount_in_flight.clone();
                let ghost rec_before = self@.recovery;
                let ghost rentry = RecoveryModel {
                    recoverer: op.original_sender@,
                    coin: op.amount_in_flight@,
                };
                self.recovery.push(
                    RecoveryEntry { recoverer: op.original_sender, coin: op.amount_in_flight },
                );
                proof {
                    assert(self@.recovery =~= rec_before.push(rentry));
                }
                Ok(Action::MarkedRecoverable { cause: ContractError::SwapFailed, recoverer, coin })
            },
            SwapReplyOutcome::Success { output_amount } => {
                match resolved_channel {
                    Some(channel) => {
                        let fwd_token = self.next_token;
                        self.next_token = fwd_token + 1;
                        let swapped = Coin { denom: op.output_denom, amount: output_amount };
                        let action_coin = swapped.clone();
                        let action_channel = channel.clone();
                        let action_receiver = op.receiver.clone();
                        let action_note = clone_note(&op.forwarding_note);
                        let new_op = PendingOperation {
                            original_sender: op.original_sender,
                            receiver: op.receiver,
                            output_denom: swapped.denom.clone(),
                            slippage_bps: op.slippage_bps,
                            forwarding_note: op.forwarding_note,
                            on_failed_delivery: op.on_failed_delivery,
                            route_hint: op.route_hint,
                            amount_in_flight: swapped,
                        };
                        let ghost fwds_before = self@.pending_forwards;
                        let ghost new_op_view = new_op@;
                        let ghost rec = ForwardRecordModel {
                            token: fwd_token,
                            channel: channel@,
                            op: new_op_view,
                        };
                        self.pending_forwards.push(
                            PendingForward { token: fwd_token, channel, op: new_op },
                        );
                        proof {
                            assert(self@.pending_forwards =~= fwds_before.push(rec));
                            lemma_forward_table_push(fwds_before, rec, self.next_token);
                            assert(new_op_view =~= (OpModel {
                                amount_in_flight: CoinModel {
                                    denom: swap_op(old(self)@.pending_swaps, token).output_denom,
                                    amount: output_amount,
                                },
                                ..swap_op(old(self)@.pending_swaps, token)
                            }));
                        }
                        Ok(
                            Action::DispatchForward {
                                token: fwd_token,
                                channel: action_channel,
                                receiver: action_receiver,
                                coin: action_coin,
                                note: action_note,
                            },
                        )
                    },
                    None => {
                        let swapped = Coin {
                            denom: op.output_denom,
                            amount: output_amount,
                        };
                        let recoverer = op.original_sender.clone();
                        let coin = swapped.clone();
                        let ghost rec_before = self@.recovery;
                        let ghost rentry = RecoveryModel {
                            recoverer: op.original_sender@,
                            coin: swapped@,
                        };
                        self.recovery.push(
                            RecoveryEntry { recoverer: op.original_sender, coin: swapped },
                        );
                        proof {
                            assert(self@.recovery =~= rec_before.push(rentry));
                        }
                        Ok(
                            Action::MarkedRecoverable {
                                cause: ContractError::RegistryResolutionFailed,
                                recoverer,
                                coin,
                            },
                        )
                    },
                }
            },
        }
    }

    /// Resumes an operation when the transport's dispatch reply arrives for a
    /// forward transfer.
    ///
    /// A reply bearing a token with no pending forward is rejected with
    /// `UnknownCorrelation` and changes nothing.  When the transport accepted
    /// the transfer, the operation is filed under the transport's own
    /// `(channel, sequence)` key to await its delivery outcome; a sequence
    /// key that is somehow already tracked is treated like a rejected
    /// dispatch rather than overwriting another operation's funds.  When the
    /// transport rejected the transfer synchronously, the in-flight coin is
    /// recorded recoverable for the original sender.
    pub fn on_forward_reply(&mut self, token: u64, outcome: ForwardReplyOutcome) -> (r: Result<
        Action,
        ContractError,
    >)
        requires
            old(self).wf(),
        ensures
            final(self).wf(),
            !has_forward_token(old(self)@.pending_forwards, token) ==> r == Err::<
                Action,
                ContractError,
            >(ContractError::UnknownCorrelation { token }) && *final(self) == *old(self),
            has_forward_token(old(self)@.pending_forwards, token) ==> {
                let rec = forward_record(old(self)@.pending_forwards, token);
                let fallback_recovery = old(self)@.recovery.push(
                    RecoveryModel { recoverer: rec.op.original_sender, coin: rec.op.amount_in_flight },
                );
                &&& r is Ok
                &&& final(self)@.pending_forwards == old(self)@.pending_forwards.remove(
                    forward_index(old(self)@.pending_forwards, token),
                )
                &&& final(self)@.config == old(self)@.config
                &&& final(self)@.next_token == old(self)@.next_token
                &&& final(self)@.pending_swaps == old(self)@.pending_swaps
                &&& match outcome {
                    ForwardReplyOutcome::Dispatched { sequence } => {
                        if has_flight(old(self)@.in_flight, rec.channel, sequence) {
                            &&& final(self)@.in_flight == old(self)@.in_flight
                            &&& final(self)@.recovery == fallback_recovery
                            &&& r matches Ok(a) && a@ == (ActionModel::MarkedRecoverable {
                                cause: ContractError::ForwardFailed,
                                recoverer: rec.op.original_sender,
                                coin: rec.op.amount_in_flight,
                            })
                        } else {
                            &&& final(self)@.in_flight == old(self)@.in_flight.push(
                                FlightModel { channel: rec.channel, sequence, op: rec.op },
                            )
                            &&& final(self)@.recovery == old(self)@.recovery
                            &&& r matches Ok(a) && a@ == (ActionModel::ForwardTracked {
                                channel: rec.channel,
                                sequence,
                            })
                        }
                    },
                    ForwardReplyOutcome::Failure => {
                        &&& final(self)@.in_flight == old(self)@.in_flight
                        &&& final(self)@.recovery == fallback_recovery
                        &&& r matches Ok(a) && a@ == (ActionModel::MarkedRecoverable {
                            cause: ContractError::ForwardFailed,
                            recoverer: rec.op.original_sender,
                            coin: rec.op.amount_in_flight,
                        })
                    },
                }
            },
    {
        let idx = match self.find_forward(token) {
            None => {
                return Err(ContractError::UnknownCorrelation { token });
            },
            Some(i) => i,
        };
        proof {
            lemma_forward_index_unique(self@.pending_forwards, token, idx as int);
        }
        let entry = self.pending_forwards.remove(idx);
        proof {
            lemma_map_values_remove(
                old(self).pending_forwards@,
                |e: PendingForward| e@,
                idx as int,
            );
            lemma_forward_table_remove(
                old(self)@.pending_forwards,
                idx as int,
                old(self)@.next_token,
            );
        }
        let tracked_now = match outcome {
            ForwardReplyOutcome::Dispatched { sequence } => {
                if self.find_flight(&entry.channel, sequence).is_none() {
                    Some(sequence)
                } else {
                    None
                }
            },
            ForwardReplyOutcome::Failure => None,
        };
        match tracked_now {
            Some(sequence) => {
                let action_channel = entry.channel.clone();
                let ghost flights_before = self@.in_flight;
                let ghost flight_view = FlightModel {
                    channel: entry.channel@,
                    sequence,
                    op: entry.op@,
                };
                self.in_flight.push(
                    InFlightForward { channel: entry.channel, sequence, op: entry.op },
                );
                proof {
                    assert(self@.in_flight =~= flights_before.push(flight_view));
                    lemma_flight_table_push(flights_before, flight_view);
                }
                Ok(Action::ForwardTracked { channel: action_channel, sequence })
            },
            None => {
                let recoverer = entry.op.original_sender.clone();
                let coin = entry.op.amount_in_flight.clone();
                let ghost rec_before = self@.recovery;
                let ghost rentry = RecoveryModel {
                    recoverer: entry.op.original_sender@,
                    coin: entry.op.amount_in_flight@,
                };
                self.recovery.push(
                    RecoveryEntry {
                        recoverer: entry.op.original_sender,
                        coin: entry.op.amount_in_flight,
                    },
                );
                proof {
                    assert(self@.recovery =~= rec_before.push(rentry));
                }
                Ok(
                    Action::MarkedRecoverable {
                        cause: ContractError::ForwardFailed,
                        recoverer,
                        coin,
                    },
                )
            },
        }
    }
}

} // verus!
