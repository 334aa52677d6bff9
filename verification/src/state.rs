//! The orchestrator's whole state: configuration, the two pending-operation
//! correlation tables, the in-flight forward table, and the recovery ledger.

use vstd::prelude::*;

use crate::addr::valid_addr;
use crate::types::{OpModel, PendingOperation, RecoveryEntry, RecoveryModel};

verus! {

/// The addresses every operation reads: the swap service, the governing
/// owner, and the denomination/channel registry.
#[derive(Debug, PartialEq, Eq)]
pub struct Config {
    pub swap_contract: String,
    pub governor: String,
    pub registry_contract: String,
}

/// Model of a [`Config`].
#[verifier::ext_equal]
pub ghost struct ConfigModel {
    pub swap_contract: Seq<char>,
    pub governor: Seq<char>,
    pub registry_contract: Seq<char>,
}

impl View for Config {
    type V = ConfigModel;

    open spec fn view(&self) -> ConfigModel {
        ConfigModel {
            swap_contract: self.swap_contract@,
            governor: self.governor@,
            registry_contract: self.registry_contract@,
        }
    }
}

impl ConfigModel {
    /// All three addresses are well-formed local identities.
    pub open spec fn wf(self) -> bool {
        &&& valid_addr(self.swap_contract)
        &&& valid_addr(self.governor)
        &&& valid_addr(self.registry_contract)
    }
}

/// An operation awaiting the swap service's reply, filed under its
/// correlation token.
pub struct PendingSwap {
    pub token: u64,
    pub op: PendingOperation,
}

/// Model of a [`PendingSwap`].
#[verifier::ext_equal]
pub ghost struct SwapRecordModel {
    pub token: u64,
    pub op: OpModel,
}

impl View for PendingSwap {
    type V = SwapRecordModel;

    open spec fn view(&self) -> SwapRecordModel {
        SwapRecordModel { token: self.token, op: self.op@ }
    }
}

/// An operation whose forward transfer was handed to the transport, awaiting
/// the transport's dispatch reply, filed under its correlation token.
pub struct PendingForward {
    pub token: u64,
    pub channel: String,
    pub op: PendingOperation,
}

/// Model of a [`PendingForward`].
#[verifier::ext_equal]
pub ghost struct ForwardRecordModel {
    pub token: u64,
    pub channel: Seq<char>,
    pub op: OpModel,
}

impl View for PendingForward {
    type V = ForwardRecordModel;

    open spec fn view(&self) -> ForwardRecordModel {
        ForwardRecordModel { token: self.token, channel: self.channel@, op: self.op@ }
    }
}

/// A dispatched forward transfer awaiting its delivery outcome, filed under
/// the transport's own `(channel, sequence)` key.
pub struct InFlightForward {
    pub channel: String,
    pub sequence: u64,
    pub op: PendingOperation,
}

/// Model of an [`InFlightForward`].
#[verifier::ext_equal]
pub ghost struct FlightModel {
    pub channel: Seq<char>,
    pub sequence: u64,
    pub op: OpModel,
}

impl View for InFlightForward {
    type V = FlightModel;

    open spec fn view(&self) -> FlightModel {
        FlightModel { channel: self.channel@, sequence: self.sequence, op: self.op@ }
    }
}

/// A token has a pending swap filed under it.
pub open spec fn has_swap_token(s: Seq<SwapRecordModel>, token: u64) -> bool {
    exists|i: int| 0 <= i < s.len() && (#[trigger] s[i]).token == token
}

/// The index of the pending swap filed under `token` (unique in a well-formed
/// state).
pub open spec fn swap_index(s: Seq<SwapRecordModel>, token: u64) -> int {
    choose|i: int| 0 <= i < s.len() && (#[trigger] s[i]).token == token
}

/// The operation context of the pending swap filed under `token`.
pub open spec fn swap_op(s: Seq<SwapRecordModel>, token: u64) -> OpModel {
    s[swap_index(s, token)].op
}

/// A token has a pending forward filed under it.
pub open spec fn has_forward_token(s: Seq<ForwardRecordModel>, token: u64) -> bool {
    exists|i: int| 0 <= i < s.len() && (#[trigger] s[i]).token == token
}

/// The index of the pending forward filed under `token`.
pub open spec fn forward_index(s: Seq<ForwardRecordModel>, token: u64) -> int {
    choose|i: int| 0 <= i < s.len() && (#[trigger] s[i]).token == token
}

/// The pending forward filed under `token`.
pub open spec fn forward_record(s: Seq<ForwardRecordModel>, token: u64) -> ForwardRecordModel {
    s[forward_index(s, token)]
}

/// The in-flight transfer `f` carries the transport key `(ch, sq)`.
pub open spec fn flight_matches(f: FlightModel, ch: Seq<char>, sq: u64) -> bool {
    f.channel == ch && f.sequence == sq
}

/// Some in-flight transfer carries the transport key `(ch, sq)`.
pub open spec fn has_flight(s: Seq<FlightModel>, ch: Seq<char>, sq: u64) -> bool {
    exists|i: int| 0 <= i < s.len() && flight_matches(#[trigger] s[i], ch, sq)
}

/// The index of the in-flight transfer keyed `(ch, sq)` (unique in a
/// well-formed state).
pub open spec fn flight_index(s: Seq<FlightModel>, ch: Seq<char>, sq: u64) -> int {
    choose|i: int| 0 <= i < s.len() && flight_matches(#[trigger] s[i], ch, sq)
}

/// The in-flight transfer keyed `(ch, sq)`.
pub open spec fn flight_at(s: Seq<FlightModel>, ch: Seq<char>, sq: u64) -> FlightModel {
    s[flight_index(s, ch, sq)]
}

/// No two pending swaps share a correlation token.
pub open spec fn distinct_swap_tokens(s: Seq<SwapRecordModel>) -> bool {
    forall|i: int, j: int|
        #![trigger s[i].token, s[j].token]
        0 <= i < j < s.len() ==> s[i].token != s[j].token
}

/// No two pending forwards share a correlation token.
pub open spec fn distinct_forward_tokens(s: Seq<ForwardRecordModel>) -> bool {
    forall|i: int, j: int|
        #![trigger s[i].token, s[j].token]
        0 <= i < j < s.len() ==> s[i].token != s[j].token
}

/// No two in-flight transfers share a transport key.
pub open spec fn distinct_flight_keys(s: Seq<FlightModel>) -> bool {
    forall|i: int, j: int|
        #![trigger s[i], s[j]]
        0 <= i < j < s.len() ==> !(s[i].channel == s[j].channel && s[i].sequence == s[j].sequence)
}

/// Every pending swap's token was minted below `bound`.
pub open spec fn swap_tokens_below(s: Seq<SwapRecordModel>, bound: u64) -> bool {
    forall|i: int| 0 <= i < s.len() ==> (#[trigger] s[i]).token < bound
}

/// Every pending forward's token was minted below `bound`.
pub open spec fn forward_tokens_below(s: Seq<ForwardRecordModel>, bound: u64) -> bool {
    forall|i: int| 0 <= i < s.len() ==> (#[trigger] s[i]).token < bound
}

/// Model of a [`ContractState`].
#[verifier::ext_equal]
pub ghost struct StateModel {
    pub config: ConfigModel,
    pub next_token: u64,
    pub pending_swaps: Seq<SwapRecordModel>,
    pub pending_forwards: Seq<ForwardRecordModel>,
    pub in_flight: Seq<FlightModel>,
    pub recovery: Seq<RecoveryModel>,
}

impl StateModel {
    /// Well-formedness: the configuration holds valid addresses, correlation
    /// tokens are unique per table and below the mint counter, and at most
    /// one in-flight transfer exists per transport key.
    pub open spec fn wf(self) -> bool {
        &&& self.config.wf()
        &&& distinct_swap_tokens(self.pending_swaps)
        &&& distinct_forward_tokens(self.pending_forwards)
        &&& distinct_flight_keys(self.in_flight)
        &&& swap_tokens_below(self.pending_swaps, self.next_token)
        &&& forward_tokens_below(self.pending_forwards, self.next_token)
    }

    /// The parts an administrative call must leave untouched: everything but
    /// the configuration.
    pub open spec fn same_operational_state(self, other: StateModel) -> bool {
        &&& self.next_token == other.next_token
        &&& self.pending_swaps == other.pending_swaps
        &&& self.pending_forwards == other.pending_forwards
        &&& self.in_flight == other.in_flight
        &&& self.recovery == other.recovery
    }
}

/// The whole orchestration state.  Its host owns exactly one value of it,
/// created by [`crate::config::initialize`], and mutates it only through the
/// entry points of this library, each of which is a single atomic invocation.
pub struct ContractState {
    pub config: Config,
    pub next_token: u64,
    pub pending_swaps: Vec<PendingSwap>,
    pub pending_forwards: Vec<PendingForward>,
    pub in_flight: Vec<InFlightForward>,
    pub recovery: Vec<RecoveryEntry>,
}

impl View for ContractState {
    type V = StateModel;

    open spec fn view(&self) -> StateModel {
        StateModel {
            config: self.config@,
            next_token: self.next_token,
            pending_swaps: self.pending_swaps@.map_values(|e: PendingSwap| e@),
            pending_forwards: self.pending_forwards@.map_values(|e: PendingForward| e@),
            in_flight: self.in_flight@.map_values(|e: InFlightForward| e@),
            recovery: self.recovery@.map_values(|e: RecoveryEntry| e@),
        }
    }
}

impl ContractState {
    /// See [`StateModel::wf`].
    pub open spec fn wf(&self) -> bool {
        self@.wf()
    }

    /// Finds the pending swap filed under `token`.
    pub(crate) fn find_swap(&self, token: u64) -> (r: Option<usize>)
        ensures
            match r {
                Some(i) => i < self.pending_swaps@.len() && self@.pending_swaps[i as int].token
                    == token,
                None => !has_swap_token(self@.pending_swaps, token),
            },
    {
        let n = self.pending_swaps.len();
        let mut i: usize = 0;
        while i < n
            invariant
                i <= n,
                n == self.pending_swaps@.len(),
                forall|j: int| 0 <= j < i ==> self@.pending_swaps[j].token != token,
            decreases n - i,
        {
            if self.pending_swaps[i].token == token {
                return Some(i);
            }
            i += 1;
        }
        None
    }

    /// Finds the pending forward filed under `token`.
    pub(crate) fn find_forward(&self, token: u64) -> (r: Option<usize>)
        ensures
            match r {
                Some(i) => i < self.pending_forwards@.len() && self@.pending_forwards[i as int].token
                    == token,
                None => !has_forward_token(self@.pending_forwards, token),
            },
    {
        let n = self.pending_forwards.len();
        let mut i: usize = 0;
        while i < n
            invariant
                i <= n,
                n == self.pending_forwards@.len(),
                forall|j: int| 0 <= j < i ==> self@.pending_forwards[j].token != token,
            decreases n - i,
        {
            if self.pending_forwards[i].token == token {
                return Some(i);
            }
            i += 1;
        }
        None
    }

    /// Finds the in-flight transfer keyed `(channel, sequence)`.
    pub(crate) fn find_flight(&self, channel: &String, sequence: u64) -> (r: Option<usize>)
        ensures
            match r {
                Some(i) => i < self.in_flight@.len() && flight_matches(
                    self@.in_flight[i as int],
                    channel@,
                    sequence,
                ),
                None => !has_flight(self@.in_flight, channel@, sequence),
            },
    {
        let n = self.in_flight.len();
        let mut i: usize = 0;
        while i < n
            invariant
                i <= n,
                n == self.in_flight@.len(),
                forall|j: int| 0 <= j < i ==> !flight_matches(self@.in_flight[j], channel@, sequence),
            decreases n - i,
        {
            if self.in_flight[i].sequence == sequence && self.in_flight[i].channel == *channel {
                return Some(i);
            }
            i += 1;
        }
        None
    }

    /// The output denomination of the pending swap filed under `token`, for
    /// the host to resolve its transport channel before handing over the swap
    /// reply; `None` when no swap is pending under that token.
    pub fn pending_swap_output_denom(&self, token: u64) -> (r: Option<String>)
        requires
            self.wf(),
        ensures
            match r {
                Some(d) => has_swap_token(self@.pending_swaps, token) && d@ == swap_op(
                    self@.pending_swaps,
                    token,
                ).output_denom,
                None => !has_swap_token(self@.pending_swaps, token),
            },
    {
        match self.find_swap(token) {
            Some(i) => {
                proof {
                    lemma_swap_index_unique(self@.pending_swaps, token, i as int);
                }
                Some(self.pending_swaps[i].op.output_denom.clone())
            },
            None => None,
        }
    }

    /// How many operations are awaiting a swap reply.
    pub fn pending_swap_count(&self) -> (n: usize)
        ensures
            n == self@.pending_swaps.len(),
    {
        self.pending_swaps.len()
    }

    /// How many forward transfers are awaiting a dispatch reply.
    pub fn pending_forward_count(&self) -> (n: usize)
        ensures
            n == self@.pending_forwards.len(),
    {
        self.pending_forwards.len()
    }

    /// How many forward transfers are awaiting a delivery outcome.
    pub fn in_flight_count(&self) -> (n: usize)
        ensures
            n == self@.in_flight.len(),
    {
        self.in_flight.len()
    }

    /// Whether a forward transfer keyed `(channel, sequence)` is awaiting its
    /// delivery outcome.
    pub fn is_in_flight(&self, channel: &String, sequence: u64) -> (b: bool)
        ensures
            b == has_flight(self@.in_flight, channel@, sequence),
    {
        self.find_flight(channel, sequence).is_some()
    }
}

/// Mapping a model over a sequence commutes with `push`.
pub proof fn lemma_map_values_push<A, B>(s: Seq<A>, f: spec_fn(A) -> B, a: A)
    ensures
        s.push(a).map_values(f) =~= s.map_values(f).push(f(a)),
{
    assert forall|i: int| 0 <= i < s.push(a).map_values(f).len() implies s.push(a).map_values(f)[i]
        == s.map_values(f).push(f(a))[i] by {
        if i < s.len() {
        }
    }
}

/// Mapping a model over a sequence commutes with `remove`.
pub proof fn lemma_map_values_remove<A, B>(s: Seq<A>, f: spec_fn(A) -> B, i: int)
    requires
        0 <= i < s.len(),
    ensures
        s.remove(i).map_values(f) =~= s.map_values(f).remove(i),
{
    s.remove_ensures(i);
    s.map_values(f).remove_ensures(i);
    assert forall|j: int| 0 <= j < s.remove(i).map_values(f).len() implies s.remove(i).map_values(
        f,
    )[j] == s.map_values(f).remove(i)[j] by {
        if j < i {
        } else {
        }
    }
}

/// Removing an entry keeps swap tokens unique and below their bound.
pub proof fn lemma_swap_table_remove(s: Seq<SwapRecordModel>, i: int, bound: u64)
    requires
        0 <= i < s.len(),
        distinct_swap_tokens(s),
        swap_tokens_below(s, bound),
    ensures
        distinct_swap_tokens(s.remove(i)),
        swap_tokens_below(s.remove(i), bound),
{
    s.remove_ensures(i);
}

/// Removing an entry keeps forward tokens unique and below their bound.
pub proof fn lemma_forward_table_remove(s: Seq<ForwardRecordModel>, i: int, bound: u64)
    requires
        0 <= i < s.len(),
        distinct_forward_tokens(s),
        forward_tokens_below(s, bound),
    ensures
        distinct_forward_tokens(s.remove(i)),
        forward_tokens_below(s.remove(i), bound),
{
    s.remove_ensures(i);
}

/// Removing an entry keeps in-flight transport keys unique.
pub proof fn lemma_flight_table_remove(s: Seq<FlightModel>, i: int)
    requires
        0 <= i < s.len(),
        distinct_flight_keys(s),
    ensures
        distinct_flight_keys(s.remove(i)),
{
    s.remove_ensures(i);
}

/// Filing a fresh token keeps swap tokens unique and below a grown bound.
pub proof fn lemma_swap_table_push(s: Seq<SwapRecordModel>, rec: SwapRecordModel, bound: u64)
    requires
        distinct_swap_tokens(s),
        swap_tokens_below(s, rec.token),
        rec.token < bound,
    ensures
        distinct_swap_tokens(s.push(rec)),
        swap_tokens_below(s.push(rec), bound),
{
}

/// Filing a fresh token keeps forward tokens unique and below a grown bound.
pub proof fn lemma_forward_table_push(s: Seq<ForwardRecordModel>, rec: ForwardRecordModel, bound: u64)
    requires
        distinct_forward_tokens(s),
        forward_tokens_below(s, rec.token),
        rec.token < bound,
    ensures
        distinct_forward_tokens(s.push(rec)),
        forward_tokens_below(s.push(rec), bound),
{
}

/// Filing a transfer under a key not yet present keeps transport keys unique.
pub proof fn lemma_flight_table_push(s: Seq<FlightModel>, f: FlightModel)
    requires
        distinct_flight_keys(s),
        !has_flight(s, f.channel, f.sequence),
    ensures
        distinct_flight_keys(s.push(f)),
{
    assert forall|i: int, j: int| 0 <= i < j < s.push(f).len() implies !((#[trigger] s.push(
        f,
    )[i]).channel == (#[trigger] s.push(f)[j]).channel && s.push(f)[i].sequence == s.push(
        f,
    )[j].sequence) by {
        if j < s.len() {
        } else {
            assert(s.push(f)[j] == f);
            assert(s.push(f)[i] == s[i]);
            if s[i].channel == f.channel && s[i].sequence == f.sequence {
                assert(flight_matches(s[i], f.channel, f.sequence));
            }
        }
    }
}

/// In a table of unique tokens, any index whose token matches is the chosen
/// one.
pub proof fn lemma_swap_index_unique(s: Seq<SwapRecordModel>, token: u64, i: int)
    requires
        distinct_swap_tokens(s),
        0 <= i < s.len(),
        s[i].token == token,
    ensures
        has_swap_token(s, token),
        swap_index(s, token) == i,
{
    assert(has_swap_token(s, token));
    let j = swap_index(s, token);
    if i < j {
        assert(s[i].token != s[j].token);
    } else if j < i {
        assert(s[j].token != s[i].token);
    }
}

/// In a table of unique tokens, any index whose token matches is the chosen
/// one.
pub proof fn lemma_forward_index_unique(s: Seq<ForwardRecordModel>, token: u64, i: int)
    requires
        distinct_forward_tokens(s),
        0 <= i < s.len(),
        s[i].token == token,
    ensures
        has_forward_token(s, token),
        forward_index(s, token) == i,
{
    assert(has_forward_token(s, token));
    let j = forward_index(s, token);
    if i < j {
        assert(s[i].token != s[j].token);
    } else if j < i {
        assert(s[j].token != s[i].token);
    }
}

/// In a table of unique transport keys, any index whose key matches is the
/// chosen one.
pub proof fn lemma_flight_index_unique(s: Seq<FlightModel>, ch: Seq<char>, sq: u64, i: int)
    requires
        distinct_flight_keys(s),
        0 <= i < s.len(),
        flight_matches(s[i], ch, sq),
    ensures
        has_flight(s, ch, sq),
        flight_index(s, ch, sq) == i,
{
    assert(has_flight(s, ch, sq));
    let j = flight_index(s, ch, sq);
    if i < j {
        assert(!(s[i].channel == s[j].channel && s[i].sequence == s[j].sequence));
    } else if j < i {
        assert(!(s[j].channel == s[i].channel && s[j].sequence == s[i].sequence));
    }
}

} // verus!
