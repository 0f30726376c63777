//! The phase controller: every state-changing operation of the protocol,
//! gatekept against the current phase and the caller's identity.
//!
//! Each operation is a pure function from the persisted state and the
//! event the host reports to the next state and the action the host must
//! perform.  The outcome of each operation is pinned by a spec function,
//! so the laws of the state machine are proved once, over the spec
//! functions, and hold of the executable code through its contracts.

use vstd::prelude::*;

use crate::codec::{decode_unsigned32_little_endian, le32_of, DecodeError};
use crate::state::{Address, AggregationState, EngineStatus, Phase};

verus! {

/// Opaque handle of a secret-shared variable held by the engine.
#[derive(Clone, Copy, PartialEq, Eq, Structural, Debug)]
pub struct SecretVarId {
    pub raw_id: u32,
}

/// The fixed bit width every secret contribution must declare.
pub const SECRET_INPUT_BIT_WIDTH: u32 = 32;

/// The declared shape of a newly registered secret input slot: the
/// engine enforces this bit width on the contribution it receives.
#[derive(Clone, Copy, PartialEq, Eq, Structural, Debug)]
pub struct InputSlot {
    pub expected_bit_width: u32,
}

/// A request handed to the engine to change its lifecycle.
#[derive(Clone, Copy, PartialEq, Eq, Structural, Debug)]
pub enum StateChangeRequest {
    /// Begin the secure summation over all registered contributions.
    StartComputation,
}

/// A request that the engine declassify (open) one output variable.
#[derive(Clone, Copy, PartialEq, Eq, Structural, Debug)]
pub struct OpenRequest {
    pub variable: SecretVarId,
}

/// The terminal signal: the contract's lifecycle is complete.
#[derive(Clone, Copy, PartialEq, Eq, Structural, Debug)]
pub struct DoneSignal {}

/// Why a start request was refused.  Neither error is accompanied by any
/// state mutation.
#[derive(Clone, Copy, PartialEq, Eq, Structural, Debug)]
pub enum StartComputationError {
    /// The caller is not the administrator.
    Authorization,
    /// The protocol or the engine was not in the collecting/waiting
    /// phase; carries the engine status that was observed.
    Phase { observed: EngineStatus },
}

/// The engine reported an unexpected number of variables.  Fatal: the
/// protocol wiring is broken and the host must abort the invocation.
#[derive(Clone, Copy, PartialEq, Eq, Structural, Debug)]
pub struct ProtocolViolation {
    /// How many variables were reported; exactly one is expected.
    pub observed_count: usize,
}

/// Why the opened-variables callback failed.  Both are fatal for the
/// invocation; the host rolls the state back.
#[derive(Clone, Copy, PartialEq, Eq, Structural, Debug)]
pub enum OpenedError {
    Protocol(ProtocolViolation),
    Decode(DecodeError),
}

/// The state a freshly initialized contract holds.
pub open spec fn initial_state(caller: Address) -> AggregationState {
    AggregationState { administrator: caller, phase: Phase::Collecting, sum_result: None }
}

/// Outcome of a start request, as a function of the caller, the state
/// and the engine status: a phase error while not collecting or while
/// the engine is not waiting, an authorization error for anyone but the
/// administrator, and otherwise the computing state with a start
/// request.
pub open spec fn start_outcome(
    caller: Address,
    state: AggregationState,
    engine_status: EngineStatus,
) -> Result<(AggregationState, StateChangeRequest), StartComputationError> {
    if !(state.phase is Collecting) {
        Err(StartComputationError::Phase { observed: engine_status })
    } else if caller != state.administrator {
        Err(StartComputationError::Authorization)
    } else if !(engine_status is Waiting) {
        Err(StartComputationError::Phase { observed: engine_status })
    } else {
        Ok(
            (
                AggregationState { phase: Phase::Computing, ..state },
                StateChangeRequest::StartComputation,
            ),
        )
    }
}

/// Outcome of the computation-complete callback: exactly one output
/// identifier yields an open request for it, any other count is a
/// protocol violation.
pub open spec fn computation_complete_outcome(output_ids: Seq<SecretVarId>) -> Result<
    OpenRequest,
    ProtocolViolation,
> {
    if output_ids.len() == 1 {
        Ok(OpenRequest { variable: output_ids[0] })
    } else {
        Err(ProtocolViolation { observed_count: output_ids.len() as usize })
    }
}

/// Outcome of the variables-opened callback: exactly one opened
/// identifier whose four raw bytes decode little-endian yields the
/// terminal state carrying the sum; any other count or length is fatal.
pub open spec fn variables_opened_outcome(
    state: AggregationState,
    opened_ids: Seq<SecretVarId>,
    raw_bytes: Seq<u8>,
) -> Result<(AggregationState, DoneSignal), OpenedError> {
    if opened_ids.len() != 1 {
        Err(OpenedError::Protocol(ProtocolViolation { observed_count: opened_ids.len() as usize }))
    } else if raw_bytes.len() != 4 {
        Err(OpenedError::Decode(DecodeError { observed_length: raw_bytes.len() as usize }))
    } else {
        Ok(
            (
                AggregationState {
                    phase: Phase::Done,
                    sum_result: Some(le32_of(raw_bytes)),
                    ..state
                },
                DoneSignal {},
            ),
        )
    }
}

/// Creates the contract state: the initializing caller becomes the
/// administrator for the lifetime of the contract, contributions are
/// being collected, and no result exists yet.
pub fn initialize(caller: Address) -> (state: AggregationState)
    ensures
        state == initial_state(caller),
        state.administrator == caller,
        state.phase is Collecting,
        state.sum_result is None,
        state.wf(),
{
    AggregationState { administrator: caller, phase: Phase::Collecting, sum_result: None }
}

/// Registers a new secret input slot: the contract's only duty toward
/// intake is declaring the fixed 32-bit width of every contribution.
pub fn register_secret_input_slot() -> (slot: InputSlot)
    ensures
        slot.expected_bit_width == SECRET_INPUT_BIT_WIDTH,
{
    InputSlot { expected_bit_width: SECRET_INPUT_BIT_WIDTH }
}

/// Acknowledges that a contribution was confirmed.  The protocol keeps
/// no per-contribution bookkeeping, so the state passes through
/// unchanged.
pub fn inputted_variable(state: AggregationState, _inputted: SecretVarId) -> (r: AggregationState)
    ensures
        r == state,
{
    state
}

/// Validates a request to start the secure summation and, when it is
/// legal, advances the protocol to the computing phase and emits the
/// start request for the engine.  On an error the caller's state is
/// untouched: no new state is produced at all.
pub fn start_computation(
    caller: Address,
    state: &AggregationState,
    engine_status: EngineStatus,
) -> (r: Result<(AggregationState, StateChangeRequest), StartComputationError>)
    requires
        state.wf(),
    ensures
        r == start_outcome(caller, *state, engine_status),
        r is Ok <==> (state.phase is Collecting && caller == state.administrator
            && engine_status is Waiting),
        r matches Ok(p) ==> p.0.wf() && p.0.phase is Computing && p.0.administrator
            == state.administrator && p.0.sum_result == state.sum_result,
{
    if !(state.phase == Phase::Collecting) {
        return Err(StartComputationError::Phase { observed: engine_status });
    }
    if !(caller == state.administrator) {
        return Err(StartComputationError::Authorization);
    }
    if !(engine_status == EngineStatus::Waiting) {
        return Err(StartComputationError::Phase { observed: engine_status });
    }
    Ok(
        (
            AggregationState {
                administrator: state.administrator,
                phase: Phase::Computing,
                sum_result: state.sum_result,
            },
            StateChangeRequest::StartComputation,
        ),
    )
}

/// Handles the engine's report that the computation finished: the single
/// output variable is to be declassified.  Any other number of outputs
/// is a protocol violation on which the host must abort.
pub fn on_computation_complete(output_ids: &Vec<SecretVarId>) -> (r: Result<
    OpenRequest,
    ProtocolViolation,
>)
    ensures
        r == computation_complete_outcome(output_ids@),
        r is Ok <==> output_ids@.len() == 1,
        r matches Ok(req) ==> req.variable == output_ids@[0],
        r matches Err(e) ==> e.observed_count == output_ids@.len(),
{
    if output_ids.len() == 1 {
        Ok(OpenRequest { variable: output_ids[0] })
    } else {
        Err(ProtocolViolation { observed_count: output_ids.len() })
    }
}

/// Handles the engine's report that the output variable was opened:
/// decodes the disclosed bytes, stores the sum, and moves the protocol
/// to its terminal phase, signalling the host that the contract is done.
/// A wrong variable count or byte length is fatal and produces no new
/// state.
pub fn on_variables_opened(
    state: &AggregationState,
    opened_ids: &Vec<SecretVarId>,
    raw_bytes: &Vec<u8>,
) -> (r: Result<(AggregationState, DoneSignal), OpenedError>)
    requires
        state.wf(),
        state.phase is Computing,
    ensures
        r == variables_opened_outcome(*state, opened_ids@, raw_bytes@),
        r is Ok <==> (opened_ids@.len() == 1 && raw_bytes@.len() == 4),
        r matches Ok(p) ==> p.0.wf() && p.0.phase is Done && p.0.administrator
            == state.administrator && p.0.sum_result == Some(le32_of(raw_bytes@)),
{
    if opened_ids.len() != 1 {
        return Err(OpenedError::Protocol(ProtocolViolation { observed_count: opened_ids.len() }));
    }
    match decode_unsigned32_little_endian(raw_bytes) {
        Ok(sum) => Ok(
            (
                AggregationState {
                    administrator: state.administrator,
                    phase: Phase::Done,
                    sum_result: Some(sum),
                },
                DoneSignal {},
            ),
        ),
        Err(e) => Err(OpenedError::Decode(e)),
    }
}

/// Law: while the protocol is not collecting, a start request from any
/// caller, under any engine status, fails with a phase error; no new
/// state is produced, so the persisted state is unchanged.
pub proof fn lemma_start_rejected_outside_collecting(
    caller: Address,
    state: AggregationState,
    engine_status: EngineStatus,
)
    requires
        !(state.phase is Collecting),
    ensures
        start_outcome(caller, state, engine_status) == Err::<
            (AggregationState, StateChangeRequest),
            StartComputationError,
        >(StartComputationError::Phase { observed: engine_status }),
{
}

/// Law: while the protocol is collecting, a start request from anyone
/// but the administrator fails with an authorization error; no new state
/// is produced, so the persisted state is unchanged.
pub proof fn lemma_start_rejected_for_non_administrator(
    caller: Address,
    state: AggregationState,
    engine_status: EngineStatus,
)
    requires
        state.phase is Collecting,
        caller != state.administrator,
    ensures
        start_outcome(caller, state, engine_status) == Err::<
            (AggregationState, StateChangeRequest),
            StartComputationError,
        >(StartComputationError::Authorization),
{
}

/// Law: every successful transition keeps the administrator, moves the
/// phase exactly one step forward in the one-directional lifecycle, and
/// writes the result exactly once, at the transition into the terminal
/// phase.
pub proof fn lemma_transitions_monotonic(
    caller: Address,
    state: AggregationState,
    engine_status: EngineStatus,
    opened_state: AggregationState,
    opened_ids: Seq<SecretVarId>,
    raw_bytes: Seq<u8>,
)
    requires
        opened_state.wf(),
        opened_state.phase is Computing,
    ensures
        start_outcome(caller, state, engine_status) matches Ok(p) ==> p.0.administrator
            == state.administrator && p.0.phase.rank() == state.phase.rank() + 1 && p.0.sum_result
            == state.sum_result,
        variables_opened_outcome(opened_state, opened_ids, raw_bytes) matches Ok(p) ==> (
        p.0.administrator == opened_state.administrator && p.0.phase.rank()
            == opened_state.phase.rank() + 1 && opened_state.sum_result is None
            && p.0.sum_result is Some),
{
}

/// Law: the administrator's start request from the collecting phase with
/// a waiting engine succeeds, and it is the only path into the computing
/// phase: initialization yields the collecting phase, the opened
/// callback yields the terminal phase, and a start request yields the
/// computing phase exactly when the caller is the administrator, the
/// protocol is collecting and the engine is waiting.
pub proof fn lemma_computing_only_via_authorized_start(
    caller: Address,
    state: AggregationState,
    engine_status: EngineStatus,
    opened_state: AggregationState,
    opened_ids: Seq<SecretVarId>,
    raw_bytes: Seq<u8>,
)
    ensures
        start_outcome(caller, state, engine_status) is Ok <==> (state.phase is Collecting && caller
            == state.administrator && engine_status is Waiting),
        start_outcome(caller, state, engine_status) matches Ok(p) ==> p.0.phase is Computing,
        !(initial_state(caller).phase is Computing),
        variables_opened_outcome(opened_state, opened_ids, raw_bytes) matches Ok(p) ==> !(
        p.0.phase is Computing),
{
}

} // verus!
