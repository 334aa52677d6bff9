use crosschain_swaps::config::initialize;
use crosschain_swaps::orchestrator::{classify_reply, FORWARD_REPLY_ID, SWAP_REPLY_ID};
use crosschain_swaps::state::ContractState;
use crosschain_swaps::types::{
    Action, Coin, ContractError, FailedDeliveryAction, ForwardReplyOutcome, ReplyKind,
    SwapReplyOutcome,
};

fn setup() -> ContractState {
    initialize(
        "swapservice".to_string(),
        "governor1".to_string(),
        "registry9".to_string(),
    )
    .expect("all three addresses are well-formed")
}

fn coin(denom: &str, amount: u128) -> Coin {
    Coin {
        denom: denom.to_string(),
        amount,
    }
}

/// Starts an operation that needs a swap (unitsOfX -> unitsOfY) and returns
/// the swap correlation token.
fn start_swap_operation(state: &mut ContractState) -> u64 {
    let action = state
        .execute_swap_and_forward(
            &"alice".to_string(),
            coin("unitsOfX", 100),
            "unitsOfY".to_string(),
            "bob".to_string(),
            100,
            Some("memo".to_string()),
            FailedDeliveryAction::LocalRecovery("alice".to_string()),
            None,
            None,
        )
        .expect("entry invocation succeeds");
    match action {
        Action::DispatchSwap { token, .. } => token,
        other => panic!("expected a swap dispatch, got {other:?}"),
    }
}

#[test]
fn scenario_a_same_denomination_skips_swap() {
    // Transfer 100 unitsOfX with output denomination unitsOfX: no swap is
    // dispatched and the full amount goes straight to the forward step.
    let mut state = setup();
    let action = state
        .execute_swap_and_forward(
            &"alice".to_string(),
            coin("unitsOfX", 100),
            "unitsOfX".to_string(),
            "bob".to_string(),
            100,
            None,
            FailedDeliveryAction::LocalRecovery("alice".to_string()),
            None,
            Some("channel7".to_string()),
        )
        .expect("entry invocation succeeds");
    assert_eq!(
        action,
        Action::DispatchForward {
            token: 0,
            channel: "channel7".to_string(),
            receiver: "bob".to_string(),
            coin: coin("unitsOfX", 100),
            note: None,
        }
    );
    assert_eq!(state.pending_swap_count(), 0);
    assert_eq!(state.pending_forward_count(), 1);
}

#[test]
fn scenario_b_swap_forward_delivered() {
    // Swap dispatched, successful reply with 98 unitsOfY, forward dispatched,
    // acknowledged success: delivered, no recovery entry.
    let mut state = setup();
    let token = start_swap_operation(&mut state);
    assert_eq!(token, 0);
    assert_eq!(state.pending_swap_count(), 1);

    let action = state
        .on_swap_reply(
            token,
            SwapReplyOutcome::Success { output_amount: 98 },
            Some("channel7".to_string()),
        )
        .expect("known token");
    assert_eq!(
        action,
        Action::DispatchForward {
            token: 1,
            channel: "channel7".to_string(),
            receiver: "bob".to_string(),
            coin: coin("unitsOfY", 98),
            note: Some("memo".to_string()),
        }
    );
    assert_eq!(state.pending_swap_count(), 0);

    let action = state
        .on_forward_reply(1, ForwardReplyOutcome::Dispatched { sequence: 5 })
        .expect("known token");
    assert_eq!(
        action,
        Action::ForwardTracked {
            channel: "channel7".to_string(),
            sequence: 5,
        }
    );
    assert!(state.is_in_flight(&"channel7".to_string(), 5));

    let action = state.on_delivery_ack(&"channel7".to_string(), 5, &"ok".to_string(), true);
    assert_eq!(action, Action::Delivered);
    assert!(!state.is_in_flight(&"channel7".to_string(), 5));
    assert_eq!(state.query_recoverable(&"alice".to_string()), Vec::new());
}

#[test]
fn scenario_c_swap_failure_recovers_source_coin() {
    // The swap reply reports failure: the swap never executed, so the source
    // coin (100 unitsOfX) is recorded recoverable and no forward is attempted.
    let mut state = setup();
    let token = start_swap_operation(&mut state);

    let action = state
        .on_swap_reply(token, SwapReplyOutcome::Failure, Some("channel7".to_string()))
        .expect("known token");
    assert_eq!(
        action,
        Action::MarkedRecoverable {
            cause: ContractError::SwapFailed,
            recoverer: "alice".to_string(),
            coin: coin("unitsOfX", 100),
        }
    );
    assert_eq!(state.pending_forward_count(), 0);
    assert_eq!(state.in_flight_count(), 0);
    assert_eq!(
        state.query_recoverable(&"alice".to_string()),
        vec![coin("unitsOfX", 100)]
    );
}

#[test]
fn scenario_d_delivery_timeout_recovers_output_coin() {
    // Swap succeeds (98 unitsOfY), forward dispatched, but delivery times
    // out: the swapped coin is recorded recoverable for the sender.
    let mut state = setup();
    let token = start_swap_operation(&mut state);
    state
        .on_swap_reply(
            token,
            SwapReplyOutcome::Success { output_amount: 98 },
            Some("channel7".to_string()),
        )
        .expect("known token");
    state
        .on_forward_reply(1, ForwardReplyOutcome::Dispatched { sequence: 5 })
        .expect("known token");

    let action = state.on_delivery_timeout(&"channel7".to_string(), 5);
    assert_eq!(
        action,
        Action::MarkedRecoverable {
            cause: ContractError::ForwardFailed,
            recoverer: "alice".to_string(),
            coin: coin("unitsOfY", 98),
        }
    );
    assert_eq!(
        state.query_recoverable(&"alice".to_string()),
        vec![coin("unitsOfY", 98)]
    );
}

#[test]
fn unknown_swap_correlation_is_rejected_without_state_change() {
    let mut state = setup();
    let token = start_swap_operation(&mut state);
    let bogus = token + 41;

    let result = state.on_swap_reply(
        bogus,
        SwapReplyOutcome::Success { output_amount: 98 },
        Some("channel7".to_string()),
    );
    assert_eq!(result, Err(ContractError::UnknownCorrelation { token: bogus }));
    assert_eq!(state.pending_swap_count(), 1);
    assert_eq!(state.pending_forward_count(), 0);
    assert_eq!(state.in_flight_count(), 0);
    assert_eq!(state.query_recoverable(&"alice".to_string()), Vec::new());
}

#[test]
fn unknown_forward_correlation_is_rejected_without_state_change() {
    let mut state = setup();
    let result = state.on_forward_reply(7, ForwardReplyOutcome::Dispatched { sequence: 1 });
    assert_eq!(result, Err(ContractError::UnknownCorrelation { token: 7 }));
    assert_eq!(state.pending_forward_count(), 0);
    assert_eq!(state.in_flight_count(), 0);
}

#[test]
fn recoverable_query_and_claim() {
    // An operation that reached recoverable shows exactly the recorded coin;
    // a claim returns it, clears the ledger, and a second claim releases
    // nothing.
    let mut state = setup();
    let token = start_swap_operation(&mut state);
    state
        .on_swap_reply(token, SwapReplyOutcome::Failure, None)
        .expect("known token");
    assert_eq!(
        state.query_recoverable(&"alice".to_string()),
        vec![coin("unitsOfX", 100)]
    );

    let action = state.execute_recover(&"alice".to_string());
    assert_eq!(
        action,
        Action::Release {
            to: "alice".to_string(),
            coins: vec![coin("unitsOfX", 100)],
        }
    );
    assert_eq!(state.query_recoverable(&"alice".to_string()), Vec::new());

    let action = state.execute_recover(&"alice".to_string());
    assert_eq!(
        action,
        Action::Release {
            to: "alice".to_string(),
            coins: Vec::new(),
        }
    );
}

#[test]
fn claim_leaves_other_senders_balances_alone() {
    let mut state = setup();
    // Two operations from different senders, both ending recoverable.
    for sender in ["alice", "carol"] {
        let action = state
            .execute_swap_and_forward(
                &sender.to_string(),
                coin("unitsOfX", 50),
                "unitsOfX".to_string(),
                "bob".to_string(),
                0,
                None,
                FailedDeliveryAction::LocalRecovery(sender.to_string()),
                None,
                None,
            )
            .expect("entry invocation succeeds");
        assert!(matches!(
            action,
            Action::MarkedRecoverable {
                cause: ContractError::RegistryResolutionFailed,
                ..
            }
        ));
    }
    state.execute_recover(&"alice".to_string());
    assert_eq!(state.query_recoverable(&"alice".to_string()), Vec::new());
    assert_eq!(
        state.query_recoverable(&"carol".to_string()),
        vec![coin("unitsOfX", 50)]
    );
}

#[test]
fn duplicate_delivery_notification_is_a_noop() {
    // Delivering the same timeout twice ends in the same state and ledger as
    // delivering it once.
    let mut state = setup();
    let token = start_swap_operation(&mut state);
    state
        .on_swap_reply(
            token,
            SwapReplyOutcome::Success { output_amount: 98 },
            Some("channel7".to_string()),
        )
        .expect("known token");
    state
        .on_forward_reply(1, ForwardReplyOutcome::Dispatched { sequence: 5 })
        .expect("known token");

    let first = state.on_delivery_timeout(&"channel7".to_string(), 5);
    assert!(matches!(first, Action::MarkedRecoverable { .. }));
    let ledger_after_first = state.query_recoverable(&"alice".to_string());

    let second = state.on_delivery_timeout(&"channel7".to_string(), 5);
    assert_eq!(second, Action::Noop);
    assert_eq!(state.query_recoverable(&"alice".to_string()), ledger_after_first);
    assert_eq!(state.in_flight_count(), 0);
}

#[test]
fn duplicate_success_acknowledgment_is_a_noop() {
    let mut state = setup();
    let token = start_swap_operation(&mut state);
    state
        .on_swap_reply(
            token,
            SwapReplyOutcome::Success { output_amount: 98 },
            Some("channel7".to_string()),
        )
        .expect("known token");
    state
        .on_forward_reply(1, ForwardReplyOutcome::Dispatched { sequence: 5 })
        .expect("known token");

    let first = state.on_delivery_ack(&"channel7".to_string(), 5, &"ok".to_string(), true);
    assert_eq!(first, Action::Delivered);
    let second = state.on_delivery_ack(&"channel7".to_string(), 5, &"ok".to_string(), true);
    assert_eq!(second, Action::Noop);
    assert_eq!(state.query_recoverable(&"alice".to_string()), Vec::new());
}

#[test]
fn delivery_failure_with_do_nothing_policy_records_nothing() {
    let mut state = setup();
    let action = state
        .execute_swap_and_forward(
            &"alice".to_string(),
            coin("unitsOfX", 100),
            "unitsOfX".to_string(),
            "bob".to_string(),
            0,
            None,
            FailedDeliveryAction::DoNothing,
            None,
            Some("channel7".to_string()),
        )
        .expect("entry invocation succeeds");
    let token = match action {
        Action::DispatchForward { token, .. } => token,
        other => panic!("expected a forward dispatch, got {other:?}"),
    };
    state
        .on_forward_reply(token, ForwardReplyOutcome::Dispatched { sequence: 9 })
        .expect("known token");

    let action = state.on_delivery_ack(&"channel7".to_string(), 9, &"err".to_string(), false);
    assert_eq!(action, Action::AbandonedByPolicy);
    assert_eq!(state.query_recoverable(&"alice".to_string()), Vec::new());
    assert_eq!(state.in_flight_count(), 0);
}

#[test]
fn registry_failure_at_entry_recovers_input() {
    let mut state = setup();
    let action = state
        .execute_swap_and_forward(
            &"alice".to_string(),
            coin("unitsOfX", 100),
            "unitsOfX".to_string(),
            "bob".to_string(),
            0,
            None,
            FailedDeliveryAction::LocalRecovery("alice".to_string()),
            None,
            None,
        )
        .expect("entry invocation succeeds");
    assert_eq!(
        action,
        Action::MarkedRecoverable {
            cause: ContractError::RegistryResolutionFailed,
            recoverer: "alice".to_string(),
            coin: coin("unitsOfX", 100),
        }
    );
    assert_eq!(state.pending_forward_count(), 0);
}

#[test]
fn registry_failure_after_swap_recovers_output() {
    let mut state = setup();
    let token = start_swap_operation(&mut state);
    let action = state
        .on_swap_reply(token, SwapReplyOutcome::Success { output_amount: 98 }, None)
        .expect("known token");
    assert_eq!(
        action,
        Action::MarkedRecoverable {
            cause: ContractError::RegistryResolutionFailed,
            recoverer: "alice".to_string(),
            coin: coin("unitsOfY", 98),
        }
    );
    assert_eq!(
        state.query_recoverable(&"alice".to_string()),
        vec![coin("unitsOfY", 98)]
    );
}

#[test]
fn synchronous_forward_rejection_recovers_output() {
    let mut state = setup();
    let token = start_swap_operation(&mut state);
    state
        .on_swap_reply(
            token,
            SwapReplyOutcome::Success { output_amount: 98 },
            Some("channel7".to_string()),
        )
        .expect("known token");
    let action = state
        .on_forward_reply(1, ForwardReplyOutcome::Failure)
        .expect("known token");
    assert_eq!(
        action,
        Action::MarkedRecoverable {
            cause: ContractError::ForwardFailed,
            recoverer: "alice".to_string(),
            coin: coin("unitsOfY", 98),
        }
    );
    assert_eq!(state.in_flight_count(), 0);
}

#[test]
fn colliding_transport_key_is_routed_to_recovery() {
    let mut state = setup();
    // Two skip-swap operations forwarded over the same channel; the transport
    // (incorrectly) reports the same sequence for both.
    for _ in 0..2 {
        let action = state
            .execute_swap_and_forward(
                &"alice".to_string(),
                coin("unitsOfX", 10),
                "unitsOfX".to_string(),
                "bob".to_string(),
                0,
                None,
                FailedDeliveryAction::LocalRecovery("alice".to_string()),
                None,
                Some("channel7".to_string()),
            )
            .expect("entry invocation succeeds");
        assert!(matches!(action, Action::DispatchForward { .. }));
    }
    let first = state
        .on_forward_reply(0, ForwardReplyOutcome::Dispatched { sequence: 5 })
        .expect("known token");
    assert!(matches!(first, Action::ForwardTracked { .. }));
    let second = state
        .on_forward_reply(1, ForwardReplyOutcome::Dispatched { sequence: 5 })
        .expect("known token");
    assert_eq!(
        second,
        Action::MarkedRecoverable {
            cause: ContractError::ForwardFailed,
            recoverer: "alice".to_string(),
            coin: coin("unitsOfX", 10),
        }
    );
    // The first operation's tracking state is untouched.
    assert!(state.is_in_flight(&"channel7".to_string(), 5));
    assert_eq!(
        state.query_recoverable(&"alice".to_string()),
        vec![coin("unitsOfX", 10)]
    );
}

#[test]
fn classify_reply_recognizes_the_closed_tag_set() {
    assert_eq!(classify_reply(SWAP_REPLY_ID), Ok(ReplyKind::Swap));
    assert_eq!(classify_reply(FORWARD_REPLY_ID), Ok(ReplyKind::Forward));
    assert_eq!(
        classify_reply(99),
        Err(ContractError::InvalidReplyIdentifier { id: 99 })
    );
}
