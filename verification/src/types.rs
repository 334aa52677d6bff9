//! The plain data carried through the orchestrator, together with the
//! mathematical models (the `..Model` ghost types) that the contracts speak of.

use vstd::prelude::*;

verus! {

/// An amount of one denomination.
#[derive(Debug, PartialEq, Eq)]
pub struct Coin {
    pub denom: String,
    pub amount: u128,
}

/// Model of a [`Coin`]: the denomination as a character sequence.
#[verifier::ext_equal]
pub ghost struct CoinModel {
    pub denom: Seq<char>,
    pub amount: u128,
}

impl View for Coin {
    type V = CoinModel;

    open spec fn view(&self) -> CoinModel {
        CoinModel { denom: self.denom@, amount: self.amount }
    }
}

impl Clone for Coin {
    fn clone(&self) -> (r: Self)
        ensures
            r == *self,
    {
        Coin { denom: self.denom.clone(), amount: self.amount }
    }
}

/// What the delivery-lifecycle handler does with the in-flight funds when the
/// transport reports that a forwarded transfer failed or timed out.
#[derive(Debug, PartialEq, Eq)]
pub enum FailedDeliveryAction {
    /// Drop the tracking state and record nothing: the sender opted out of
    /// recovery.
    DoNothing,
    /// Credit the in-flight funds to this local address as a claimable
    /// recoverable balance (callers normally name the original sender here).
    LocalRecovery(String),
}

/// Model of a [`FailedDeliveryAction`].
#[verifier::ext_equal]
pub ghost enum PolicyModel {
    DoNothing,
    LocalRecovery(Seq<char>),
}

impl View for FailedDeliveryAction {
    type V = PolicyModel;

    open spec fn view(&self) -> PolicyModel {
        match self {
            FailedDeliveryAction::DoNothing => PolicyModel::DoNothing,
            FailedDeliveryAction::LocalRecovery(a) => PolicyModel::LocalRecovery(a@),
        }
    }
}

impl Clone for FailedDeliveryAction {
    fn clone(&self) -> (r: Self)
        ensures
            r == *self,
    {
        match self {
            FailedDeliveryAction::DoNothing => FailedDeliveryAction::DoNothing,
            FailedDeliveryAction::LocalRecovery(a) => FailedDeliveryAction::LocalRecovery(
                a.clone(),
            ),
        }
    }
}

/// The view of an optional auxiliary string.
pub open spec fn note_view(n: Option<String>) -> Option<Seq<char>> {
    match n {
        Some(s) => Some(s@),
        None => None,
    }
}

/// Duplicates an optional auxiliary string.
pub fn clone_note(n: &Option<String>) -> (r: Option<String>)
    ensures
        r == *n,
{
    match n {
        Some(s) => Some(s.clone()),
        None => None,
    }
}

/// The context an asynchronous sub-call must carry so that the matching reply
/// can resume the operation: whom to pay, whom to refund, and what is in
/// flight.  While a swap is pending, `amount_in_flight` is the source coin;
/// once the swap is confirmed it becomes the swapped output coin.
#[derive(Debug, PartialEq, Eq)]
pub struct PendingOperation {
    pub original_sender: String,
    pub receiver: String,
    pub output_denom: String,
    pub slippage_bps: u64,
    pub forwarding_note: Option<String>,
    pub on_failed_delivery: FailedDeliveryAction,
    pub route_hint: Option<String>,
    pub amount_in_flight: Coin,
}

/// Model of a [`PendingOperation`].
#[verifier::ext_equal]
pub ghost struct OpModel {
    pub original_sender: Seq<char>,
    pub receiver: Seq<char>,
    pub output_denom: Seq<char>,
    pub slippage_bps: u64,
    pub forwarding_note: Option<Seq<char>>,
    pub on_failed_delivery: PolicyModel,
    pub route_hint: Option<Seq<char>>,
    pub amount_in_flight: CoinModel,
}

impl View for PendingOperation {
    type V = OpModel;

    open spec fn view(&self) -> OpModel {
        OpModel {
            original_sender: self.original_sender@,
            receiver: self.receiver@,
            output_denom: self.output_denom@,
            slippage_bps: self.slippage_bps,
            forwarding_note: note_view(self.forwarding_note),
            on_failed_delivery: self.on_failed_delivery@,
            route_hint: note_view(self.route_hint),
            amount_in_flight: self.amount_in_flight@,
        }
    }
}

impl Clone for PendingOperation {
    fn clone(&self) -> (r: Self)
        ensures
            r == *self,
    {
        PendingOperation {
            original_sender: self.original_sender.clone(),
            receiver: self.receiver.clone(),
            output_denom: self.output_denom.clone(),
            slippage_bps: self.slippage_bps,
            forwarding_note: clone_note(&self.forwarding_note),
            on_failed_delivery: self.on_failed_delivery.clone(),
            route_hint: clone_note(&self.route_hint),
            amount_in_flight: self.amount_in_flight.clone(),
        }
    }
}

/// One claimable balance of the recovery ledger.
#[derive(Debug, PartialEq, Eq)]
pub struct RecoveryEntry {
    pub recoverer: String,
    pub coin: Coin,
}

/// Model of a [`RecoveryEntry`].
#[verifier::ext_equal]
pub ghost struct RecoveryModel {
    pub recoverer: Seq<char>,
    pub coin: CoinModel,
}

impl View for RecoveryEntry {
    type V = RecoveryModel;

    open spec fn view(&self) -> RecoveryModel {
        RecoveryModel { recoverer: self.recoverer@, coin: self.coin@ }
    }
}

impl Clone for RecoveryEntry {
    fn clone(&self) -> (r: Self)
        ensures
            r == *self,
    {
        RecoveryEntry { recoverer: self.recoverer.clone(), coin: self.coin.clone() }
    }
}

/// Why an invocation was rejected, or which external outcome sent an
/// operation to the recovery path.
#[derive(Debug, Clone, Copy, PartialEq, Eq)]
pub enum ContractError {
    /// The caller lacks the required role.
    Unauthorized,
    /// A malformed local-chain identity.
    InvalidAddress,
    /// A reply names a correlation token with no pending operation.
    UnknownCorrelation { token: u64 },
    /// A reply tag outside the recognized set.
    InvalidReplyIdentifier { id: u64 },
    /// The registry resolved no transport channel for a denomination.
    RegistryResolutionFailed,
    /// The swap service reported that the swap did not execute.
    SwapFailed,
    /// The transport rejected the forward or reported a failed delivery.
    ForwardFailed,
}

/// What the swap service reported back for a dispatched swap.
#[derive(Debug, Clone, Copy, PartialEq, Eq)]
pub enum SwapReplyOutcome {
    /// The swap executed and produced this amount of the output denomination.
    Success { output_amount: u128 },
    /// The swap did not execute; the source funds never left the contract.
    Failure,
}

/// What the transport reported back for a dispatched forward transfer.
#[derive(Debug, Clone, Copy, PartialEq, Eq)]
pub enum ForwardReplyOutcome {
    /// The transport accepted the transfer and assigned it this sequence
    /// number on the channel it was sent over.
    Dispatched { sequence: u64 },
    /// The transport rejected the transfer synchronously.
    Failure,
}

/// The closed set of reply kinds an asynchronous reply may bear.
#[derive(Debug, Clone, Copy, PartialEq, Eq)]
pub enum ReplyKind {
    Swap,
    Forward,
}

/// What the host must do after an invocation: the orchestrator decides, the
/// host performs the outside work.
#[derive(Debug, PartialEq, Eq)]
pub enum Action {
    /// Ask the swap service to convert `input` into `output_denom`, tagging
    /// the call with `token`.
    DispatchSwap {
        token: u64,
        input: Coin,
        output_denom: String,
        slippage_bps: u64,
        route_hint: Option<String>,
    },
    /// Send `coin` to `receiver` over `channel`, tagging the transfer with
    /// `token`.
    DispatchForward {
        token: u64,
        channel: String,
        receiver: String,
        coin: Coin,
        note: Option<String>,
    },
    /// The forward transfer is in flight under the transport's own key.
    ForwardTracked { channel: String, sequence: u64 },
    /// Release these balances to `to` on the local chain.
    Release { to: String, coins: Vec<Coin> },
    /// The operation resolved to recoverable: `coin` is now claimable by
    /// `recoverer`, and `cause` names the adverse outcome.
    MarkedRecoverable { cause: ContractError, recoverer: String, coin: Coin },
    /// The forwarded funds arrived; the operation is resolved.
    Delivered,
    /// Delivery failed but the failed-delivery policy asked for nothing.
    AbandonedByPolicy,
    /// A duplicate or late notification was ignored.
    Noop,
}

/// Model of an [`Action`].
#[verifier::ext_equal]
pub ghost enum ActionModel {
    DispatchSwap {
        token: u64,
        input: CoinModel,
        output_denom: Seq<char>,
        slippage_bps: u64,
        route_hint: Option<Seq<char>>,
    },
    DispatchForward {
        token: u64,
        channel: Seq<char>,
        receiver: Seq<char>,
        coin: CoinModel,
        note: Option<Seq<char>>,
    },
    ForwardTracked { channel: Seq<char>, sequence: u64 },
    Release { to: Seq<char>, coins: Seq<CoinModel> },
    MarkedRecoverable { cause: ContractError, recoverer: Seq<char>, coin: CoinModel },
    Delivered,
    AbandonedByPolicy,
    Noop,
}

impl View for Action {
    type V = ActionModel;

    open spec fn view(&self) -> ActionModel {
        match self {
            Action::DispatchSwap { token, input, output_denom, slippage_bps, route_hint } => (
            ActionModel::DispatchSwap {
                token: *token,
                input: input@,
                output_denom: output_denom@,
                slippage_bps: *slippage_bps,
                route_hint: note_view(*route_hint),
            }),
            Action::DispatchForward { token, channel, receiver, coin, note } => (
            ActionModel::DispatchForward {
                token: *token,
                channel: channel@,
                receiver: receiver@,
                coin: coin@,
                note: note_view(*note),
            }),
            Action::ForwardTracked { channel, sequence } => (ActionModel::ForwardTracked {
                channel: channel@,
                sequence: *sequence,
            }),
            Action::Release { to, coins } => (ActionModel::Release {
                to: to@,
                coins: coins@.map_values(|c: Coin| c@),
            }),
            Action::MarkedRecoverable { cause, recoverer, coin } => (
            ActionModel::MarkedRecoverable {
                cause: *cause,
                recoverer: recoverer@,
                coin: coin@,
            }),
            Action::Delivered => ActionModel::Delivered,
            Action::AbandonedByPolicy => ActionModel::AbandonedByPolicy,
            Action::Noop => ActionModel::Noop,
        }
    }
}

} // verus!
