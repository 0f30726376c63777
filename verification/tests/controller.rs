use secret_sum::codec::encode_unsigned32_little_endian;
use secret_sum::controller::{
    initialize, inputted_variable, on_computation_complete, on_variables_opened,
    register_secret_input_slot, start_computation, DoneSignal, OpenRequest, OpenedError,
    ProtocolViolation, SecretVarId, StartComputationError, StateChangeRequest,
    SECRET_INPUT_BIT_WIDTH,
};
use secret_sum::state::{Address, AggregationState, EngineStatus, Phase};
use secret_sum::summation::zk_compute;

#[test]
fn initialize_sets_administrator_and_collecting_phase() {
    let admin = Address { id: 7 };
    let state = initialize(admin);
    assert_eq!(state.administrator, admin);
    assert_eq!(state.phase, Phase::Collecting);
    assert_eq!(state.sum_result, None);
}

#[test]
fn input_slot_declares_32_bit_width() {
    let slot = register_secret_input_slot();
    assert_eq!(slot.expected_bit_width, 32);
    assert_eq!(slot.expected_bit_width, SECRET_INPUT_BIT_WIDTH);
}

#[test]
fn inputted_variable_keeps_state() {
    let admin = Address { id: 7 };
    let state = initialize(admin);
    let after = inputted_variable(state, SecretVarId { raw_id: 4 });
    assert_eq!(after, state);
}

#[test]
fn start_fails_with_phase_error_outside_collecting() {
    let admin = Address { id: 1 };
    let computing = AggregationState {
        administrator: admin,
        phase: Phase::Computing,
        sum_result: None,
    };
    let done = AggregationState {
        administrator: admin,
        phase: Phase::Done,
        sum_result: Some(3),
    };
    for state in [computing, done] {
        for caller in [admin, Address { id: 2 }] {
            let r = start_computation(caller, &state, EngineStatus::Waiting);
            assert_eq!(
                r,
                Err(StartComputationError::Phase {
                    observed: EngineStatus::Waiting
                })
            );
        }
    }
    assert_eq!(computing.phase, Phase::Computing);
    assert_eq!(done.phase, Phase::Done);
}

#[test]
fn start_fails_with_authorization_error_for_non_administrator() {
    let admin = Address { id: 1 };
    let intruder = Address { id: 2 };
    let state = initialize(admin);
    let r = start_computation(intruder, &state, EngineStatus::Waiting);
    assert_eq!(r, Err(StartComputationError::Authorization));
    assert_eq!(state.phase, Phase::Collecting);
    assert_eq!(state.sum_result, None);
}

#[test]
fn start_fails_with_phase_error_while_engine_not_waiting() {
    let admin = Address { id: 1 };
    let state = initialize(admin);
    let r = start_computation(admin, &state, EngineStatus::Computing);
    assert_eq!(
        r,
        Err(StartComputationError::Phase {
            observed: EngineStatus::Computing
        })
    );
}

#[test]
fn start_succeeds_for_administrator_while_collecting_and_waiting() {
    let admin = Address { id: 1 };
    let state = initialize(admin);
    let (next, request) = start_computation(admin, &state, EngineStatus::Waiting).unwrap();
    assert_eq!(request, StateChangeRequest::StartComputation);
    assert_eq!(next.phase, Phase::Computing);
    assert_eq!(next.administrator, admin);
    assert_eq!(next.sum_result, None);
}

#[test]
fn computation_complete_requires_exactly_one_output() {
    let none: Vec<SecretVarId> = vec![];
    assert_eq!(
        on_computation_complete(&none),
        Err(ProtocolViolation { observed_count: 0 })
    );
    let two = vec![SecretVarId { raw_id: 1 }, SecretVarId { raw_id: 2 }];
    assert_eq!(
        on_computation_complete(&two),
        Err(ProtocolViolation { observed_count: 2 })
    );
    let one = vec![SecretVarId { raw_id: 9 }];
    assert_eq!(
        on_computation_complete(&one),
        Ok(OpenRequest {
            variable: SecretVarId { raw_id: 9 }
        })
    );
}

#[test]
fn variables_opened_decodes_and_finishes() {
    let admin = Address { id: 1 };
    let state = AggregationState {
        administrator: admin,
        phase: Phase::Computing,
        sum_result: None,
    };
    let ids = vec![SecretVarId { raw_id: 3 }];
    let bytes = vec![0x05, 0x00, 0x00, 0x00];
    let (done, signal) = on_variables_opened(&state, &ids, &bytes).unwrap();
    assert_eq!(signal, DoneSignal {});
    assert_eq!(done.sum_result, Some(5));
    assert_eq!(done.phase, Phase::Done);
    assert_eq!(done.administrator, admin);
}

#[test]
fn variables_opened_rejects_wrong_variable_count() {
    let admin = Address { id: 1 };
    let state = AggregationState {
        administrator: admin,
        phase: Phase::Computing,
        sum_result: None,
    };
    let ids = vec![SecretVarId { raw_id: 3 }, SecretVarId { raw_id: 4 }];
    let bytes = vec![0x05, 0x00, 0x00, 0x00];
    assert_eq!(
        on_variables_opened(&state, &ids, &bytes),
        Err(OpenedError::Protocol(ProtocolViolation {
            observed_count: 2
        }))
    );
}

#[test]
fn variables_opened_rejects_wrong_byte_length() {
    let admin = Address { id: 1 };
    let state = AggregationState {
        administrator: admin,
        phase: Phase::Computing,
        sum_result: None,
    };
    let ids = vec![SecretVarId { raw_id: 3 }];
    let bytes = vec![0x05, 0x00, 0x00];
    let r = on_variables_opened(&state, &ids, &bytes);
    match r {
        Err(OpenedError::Decode(e)) => assert_eq!(e.observed_length, 3),
        other => panic!("expected a decode error, got {:?}", other),
    }
}

#[test]
fn full_lifecycle_publishes_the_sum() {
    let admin = Address { id: 10 };
    let mut state = initialize(admin);
    let first = register_secret_input_slot();
    let second = register_secret_input_slot();
    assert_eq!(first.expected_bit_width, 32);
    assert_eq!(second.expected_bit_width, 32);

    let (next, request) = start_computation(admin, &state, EngineStatus::Waiting).unwrap();
    assert_eq!(request, StateChangeRequest::StartComputation);
    state = next;
    assert_eq!(state.phase, Phase::Computing);

    let contributions = vec![7u32, 12u32];
    let sum = zk_compute(&contributions);
    assert_eq!(sum, 19);

    let output_id = SecretVarId { raw_id: 3 };
    let open_request = on_computation_complete(&vec![output_id]).unwrap();
    assert_eq!(open_request.variable, output_id);

    let bytes = encode_unsigned32_little_endian(sum);
    assert_eq!(bytes, vec![19, 0, 0, 0]);
    let (done, _signal) =
        on_variables_opened(&state, &vec![open_request.variable], &bytes).unwrap();
    assert_eq!(done.sum_result, Some(19));
    assert_eq!(done.phase, Phase::Done);
    assert_eq!(done.administrator, admin);
}

#[test]
fn non_administrator_start_leaves_state_collecting() {
    let admin = Address { id: 1 };
    let outsider = Address { id: 99 };
    let state = initialize(admin);
    let r = start_computation(outsider, &state, EngineStatus::Waiting);
    assert!(r.is_err());
    assert_eq!(state.sum_result, None);
    assert_eq!(state.phase, Phase::Collecting);
}
