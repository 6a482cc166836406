use bombay_entity::{
    lifecycle_machine, lifecycle_model, lifecycle_topology, validate_lifecycle_topology,
    ActivationId, DispatchId, DrainFailure, DrainStage, LifecycleEdge, LifecycleModel,
    LifecyclePhase, LifecycleTrigger, Machine, SlotEvent, TransitionEvidence,
};

fn activation(value: u64) -> ActivationId {
    ActivationId::new(value)
}

#[test]
fn topology_is_valid_and_renders_deterministically() {
    validate_lifecycle_topology(lifecycle_topology()).unwrap();
    let model = lifecycle_model();
    let mut mermaid = String::new();
    model.write_mermaid(&mut mermaid).unwrap();
    assert_eq!(model.vertices().len(), 5);
    assert_eq!(model.transitions().len(), 7);
    assert_eq!(
        mermaid,
        "stateDiagram-v2\n    [*] --> inactive\n    inactive --> activating: claim_activation\n    activating --> active: activation_succeeded\n    activating --> inactive: activation_failed\n    active --> draining: begin_drain\n    draining --> retiring: fence_acknowledged\n    draining --> retiring: force_drain\n    retiring --> inactive: terminated\n"
    );
}

#[test]
fn every_observed_phase_change_carries_declared_edge_evidence() {
    let model = lifecycle_model();
    let machine = lifecycle_machine::<u8, u8, u8>();
    let (claim, machine) = machine.step(SlotEvent::ClaimActivation {
        activation_id: activation(1),
        dispatch_id: DispatchId::new(1),
        command: 1,
        waiter_limit: 1,
    });
    assert_eq!(
        claim.evidence,
        TransitionEvidence::Traversed(LifecycleEdge::ClaimActivation)
    );
    let (activated, machine) = machine.step(SlotEvent::ActivationSucceeded {
        activation_id: activation(1),
        endpoint: 2,
        lease: 3,
    });
    assert_eq!(
        activated.evidence,
        TransitionEvidence::Traversed(LifecycleEdge::ActivationSucceeded)
    );
    let (_, machine) = machine.step(SlotEvent::DeliveryResolved {
        activation_id: activation(1),
        failure: None,
    });
    let (drain, machine) = machine.step(SlotEvent::BeginDrain {
        activation_id: activation(1),
    });
    let (fence, machine) = machine.step(SlotEvent::FenceAcknowledged {
        activation_id: activation(1),
    });
    let (terminated, _machine) = machine.step(SlotEvent::Terminated {
        activation_id: activation(1),
    });
    for evidence in [
        claim.evidence,
        activated.evidence,
        drain.evidence,
        fence.evidence,
        terminated.evidence,
    ] {
        let TransitionEvidence::Traversed(edge) = evidence else {
            panic!("phase change lacked edge evidence")
        };
        assert!(model.contains(edge));
    }
    assert_eq!(lifecycle_model(), model);
}

#[test]
fn stale_and_nonchanging_inputs_are_honestly_classified() {
    let machine = lifecycle_machine::<u8, u8, u8>();
    let (dispatch, machine) = machine.step(SlotEvent::Dispatch {
        dispatch_id: DispatchId::new(1),
        command: 1,
    });
    assert_eq!(
        dispatch.evidence,
        TransitionEvidence::SelfLoop {
            phase: LifecyclePhase::Inactive,
            trigger: LifecycleTrigger::Dispatch
        }
    );
    let (ignored, _) = machine.step(SlotEvent::Terminated {
        activation_id: activation(9),
    });
    assert_eq!(
        ignored.evidence,
        TransitionEvidence::Ignored {
            phase: LifecyclePhase::Inactive,
            trigger: LifecycleTrigger::Terminated
        }
    );
}

#[test]
fn forced_drain_has_its_distinct_declared_edge() {
    let machine = lifecycle_machine::<u8, u8, u8>();
    let (_, machine) = machine.step(SlotEvent::ClaimActivation {
        activation_id: activation(1),
        dispatch_id: DispatchId::new(1),
        command: 1,
        waiter_limit: 1,
    });
    let (_, machine) = machine.step(SlotEvent::ActivationSucceeded {
        activation_id: activation(1),
        endpoint: 2,
        lease: 3,
    });
    let (_, machine) = machine.step(SlotEvent::DeliveryResolved {
        activation_id: activation(1),
        failure: None,
    });
    let (_, machine) = machine.step(SlotEvent::BeginDrain {
        activation_id: activation(1),
    });
    let (forced, _) = machine.step(SlotEvent::ForceDrain {
        activation_id: activation(1),
        failure: DrainFailure {
            stage: DrainStage::FenceAcknowledgement,
            outstanding_reservations: 0,
        },
    });
    assert_eq!(
        forced.evidence,
        TransitionEvidence::Traversed(LifecycleEdge::ForceDrain)
    );
}

#[derive(Clone, Copy)]
enum Input {
    ClaimCurrent,
    Dispatch,
    ActivationCurrent,
    ActivationStale,
    ActivationFailure,
    DeliveryCurrent,
    BeginDrainCurrent,
    BeginDrainStale,
    FenceCurrent,
    ForceCurrent,
    TerminatedCurrent,
    TerminatedStale,
}

const INPUTS: [Input; 12] = [
    Input::ClaimCurrent,
    Input::Dispatch,
    Input::ActivationCurrent,
    Input::ActivationStale,
    Input::ActivationFailure,
    Input::DeliveryCurrent,
    Input::BeginDrainCurrent,
    Input::BeginDrainStale,
    Input::FenceCurrent,
    Input::ForceCurrent,
    Input::TerminatedCurrent,
    Input::TerminatedStale,
];

fn event(input: Input) -> SlotEvent<u8, u8, u8> {
    match input {
        Input::ClaimCurrent => SlotEvent::ClaimActivation {
            activation_id: activation(1),
            dispatch_id: DispatchId::new(1),
            command: 1,
            waiter_limit: 2,
        },
        Input::Dispatch => SlotEvent::Dispatch {
            dispatch_id: DispatchId::new(2),
            command: 2,
        },
        Input::ActivationCurrent => SlotEvent::ActivationSucceeded {
            activation_id: activation(1),
            endpoint: 1,
            lease: 1,
        },
        Input::ActivationStale => SlotEvent::ActivationSucceeded {
            activation_id: activation(2),
            endpoint: 2,
            lease: 2,
        },
        Input::ActivationFailure => SlotEvent::ActivationFailed {
            activation_id: activation(1),
        },
        Input::DeliveryCurrent => SlotEvent::DeliveryResolved {
            activation_id: activation(1),
            failure: None,
        },
        Input::BeginDrainCurrent => SlotEvent::BeginDrain {
            activation_id: activation(1),
        },
        Input::BeginDrainStale => SlotEvent::BeginDrain {
            activation_id: activation(2),
        },
        Input::FenceCurrent => SlotEvent::FenceAcknowledged {
            activation_id: activation(1),
        },
        Input::ForceCurrent => SlotEvent::ForceDrain {
            activation_id: activation(1),
            failure: DrainFailure {
                stage: DrainStage::FenceAcknowledgement,
                outstanding_reservations: 0,
            },
        },
        Input::TerminatedCurrent => SlotEvent::Terminated {
            activation_id: activation(1),
        },
        Input::TerminatedStale => SlotEvent::Terminated {
            activation_id: activation(2),
        },
    }
}

fn check_trace(trace: &[Input], model: LifecycleModel) {
    let mut machine = lifecycle_machine::<u8, u8, u8>();
    for input in trace {
        let before = lifecycle_model();
        let (output, successor) = machine.step(event(*input));
        if let TransitionEvidence::Traversed(edge) = output.evidence {
            assert!(model.contains(edge));
        }
        assert_eq!(lifecycle_model(), before);
        machine = successor;
    }
}

fn enumerate(prefix: &mut Vec<Input>, remaining: usize, model: LifecycleModel) {
    check_trace(prefix, model);
    if remaining == 0 {
        return;
    }
    for input in INPUTS {
        prefix.push(input);
        enumerate(prefix, remaining - 1, model);
        prefix.pop();
    }
}

#[test]
fn bounded_event_traces_preserve_topology_evidence_and_structure() {
    let model = lifecycle_model();
    enumerate(&mut Vec::new(), 4, model);
}
