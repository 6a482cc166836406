use bombay_entity::{
    ActivationId, ActiveSlot, DispatchId, DrainFailure, DrainProgress, DrainStage, DrainingSlot,
    EntitySlot, LifecyclePhase, Refusal, ReservationCount, RetirementMode, SlotEffect, SlotEvent,
};

fn activation(value: u64) -> ActivationId {
    ActivationId::new(value)
}

fn dispatch(value: u64) -> DispatchId {
    DispatchId::new(value)
}

fn activating(waiters: &[(u64, u8)], limit: usize) -> EntitySlot<u8, u8, u8> {
    let (first, rest) = waiters.split_first().expect("one waiter");
    let mut slot = EntitySlot::Inactive
        .decide(SlotEvent::ClaimActivation {
            activation_id: activation(1),
            dispatch_id: dispatch(first.0),
            command: first.1,
            waiter_limit: limit,
        })
        .state;
    for (id, command) in rest {
        slot = slot
            .decide(SlotEvent::Dispatch {
                dispatch_id: dispatch(*id),
                command: *command,
            })
            .state;
    }
    slot
}

#[test]
fn identities_report_their_sequence_values() {
    assert_eq!(activation(7).get(), 7);
    assert_eq!(dispatch(9).get(), 9);
    assert_eq!(activation(3), activation(3));
    assert_ne!(activation(3), activation(4));
}

#[test]
fn inactive_slot_refuses_dispatch_as_unavailable() {
    let decision = EntitySlot::<u8, u8, u8>::Inactive.decide(SlotEvent::Dispatch {
        dispatch_id: dispatch(4),
        command: 44,
    });
    assert!(matches!(decision.state, EntitySlot::Inactive));
    assert!(matches!(
        decision.effects.as_slice(),
        [SlotEffect::Reject { dispatch_id, command: 44, reason: Refusal::Unavailable }] if *dispatch_id == dispatch(4)
    ));
}

#[test]
fn stale_success_on_inactive_slot_retires_the_lease() {
    let decision = EntitySlot::<u8, u8, u8>::Inactive.decide(SlotEvent::ActivationSucceeded {
        activation_id: activation(8),
        endpoint: 1,
        lease: 99,
    });
    assert!(matches!(decision.state, EntitySlot::Inactive));
    assert!(matches!(
        decision.effects.as_slice(),
        [SlotEffect::Retire {
            activation_id,
            lease: 99,
            retirement: RetirementMode::Forced(DrainFailure { stage: DrainStage::Retirement, outstanding_reservations: 0 }),
        }] if *activation_id == activation(8)
    ));
}

#[test]
fn activation_delivers_every_waiter_in_arrival_order() {
    let slot = activating(&[(1, 10), (2, 20), (3, 30)], 3);
    let decision = slot.decide(SlotEvent::ActivationSucceeded {
        activation_id: activation(1),
        endpoint: 5,
        lease: 6,
    });
    assert!(matches!(
        decision.state,
        EntitySlot::Active(ActiveSlot { endpoint: 5, lease: 6, reservations: ReservationCount::Pending(3), .. })
    ));
    assert!(matches!(
        decision.effects.as_slice(),
        [
            SlotEffect::Deliver { command: 10, endpoint: 5, .. },
            SlotEffect::Deliver { command: 20, endpoint: 5, .. },
            SlotEffect::Deliver { command: 30, endpoint: 5, .. },
        ]
    ));
}

#[test]
fn canceled_waiter_is_withdrawn_and_others_keep_their_order() {
    let slot = activating(&[(1, 10), (2, 20), (3, 30)], 3);
    let canceled = slot
        .decide(SlotEvent::CancelWaiter {
            activation_id: activation(1),
            dispatch_id: dispatch(2),
        })
        .state;
    let EntitySlot::Activating(state) = &canceled else {
        panic!("slot left activation")
    };
    let commands: Vec<u8> = state.waiters.iter().map(|waiter| waiter.command).collect();
    assert_eq!(commands, [10, 30]);
    let stale = canceled.decide(SlotEvent::CancelWaiter {
        activation_id: activation(2),
        dispatch_id: dispatch(1),
    });
    let EntitySlot::Activating(state) = &stale.state else {
        panic!("slot left activation")
    };
    assert_eq!(state.waiters.len(), 2);
    assert!(stale.effects.as_slice().is_empty());
}

#[test]
fn activating_slot_refuses_a_second_claim_as_busy() {
    let slot = activating(&[(1, 10)], 4);
    let decision = slot.decide(SlotEvent::ClaimActivation {
        activation_id: activation(2),
        dispatch_id: dispatch(2),
        command: 20,
        waiter_limit: 4,
    });
    assert!(matches!(decision.state, EntitySlot::Activating(_)));
    assert!(matches!(
        decision.effects.as_slice(),
        [SlotEffect::Reject { command: 20, reason: Refusal::Busy, .. }]
    ));
}

#[test]
fn active_dispatch_reserves_and_resolution_releases() {
    let active = EntitySlot::<u8, u8, u8>::Active(ActiveSlot {
        activation_id: activation(2),
        endpoint: 7,
        lease: 9,
        reservations: ReservationCount::Drained,
    });
    let delivered = active.decide(SlotEvent::Dispatch {
        dispatch_id: dispatch(5),
        command: 50,
    });
    assert!(matches!(
        delivered.state,
        EntitySlot::Active(ActiveSlot { reservations: ReservationCount::Pending(1), .. })
    ));
    assert!(matches!(
        delivered.effects.as_slice(),
        [SlotEffect::Deliver { command: 50, endpoint: 7, .. }]
    ));
    let failed = delivered.state.decide(SlotEvent::DeliveryResolved {
        activation_id: activation(2),
        failure: Some((dispatch(5), 50)),
    });
    assert!(matches!(
        failed.state,
        EntitySlot::Active(ActiveSlot { reservations: ReservationCount::Drained, .. })
    ));
    assert!(matches!(
        failed.effects.as_slice(),
        [SlotEffect::Reject { command: 50, reason: Refusal::Unavailable, .. }]
    ));
}

#[test]
fn begin_drain_with_nothing_reserved_enqueues_the_fence_at_once() {
    let active = EntitySlot::<u8, u8, u8>::Active(ActiveSlot {
        activation_id: activation(2),
        endpoint: 7,
        lease: 9,
        reservations: ReservationCount::Drained,
    });
    let stale = active.decide(SlotEvent::BeginDrain {
        activation_id: activation(3),
    });
    assert!(matches!(stale.state, EntitySlot::Active(_)));
    assert!(stale.effects.as_slice().is_empty());
    let draining = stale.state.decide(SlotEvent::BeginDrain {
        activation_id: activation(2),
    });
    assert!(matches!(
        draining.state,
        EntitySlot::Draining(DrainingSlot { progress: DrainProgress::FenceAcknowledgement, .. })
    ));
    assert!(matches!(
        draining.effects.as_slice(),
        [SlotEffect::EnqueueFence { endpoint: 7, .. }]
    ));
}

#[test]
fn forced_drain_hands_the_lease_to_retirement_with_its_failure() {
    let draining = EntitySlot::<u8, u8, u8>::Draining(DrainingSlot {
        activation_id: activation(3),
        endpoint: 3,
        lease: 33,
        progress: DrainProgress::Reservations(2),
    });
    let failure = DrainFailure {
        stage: DrainStage::Reservations,
        outstanding_reservations: 2,
    };
    let forced = draining.decide(SlotEvent::ForceDrain {
        activation_id: activation(3),
        failure,
    });
    assert!(matches!(forced.state, EntitySlot::Retiring { activation_id } if activation_id == activation(3)));
    assert!(matches!(
        forced.effects.as_slice(),
        [SlotEffect::Retire { lease: 33, retirement: RetirementMode::Forced(f), .. }] if *f == failure
    ));
    let removed = forced.state.decide(SlotEvent::Terminated {
        activation_id: activation(3),
    });
    assert!(matches!(removed.state, EntitySlot::Inactive));
    assert!(matches!(
        removed.effects.as_slice(),
        [SlotEffect::Remove { activation_id }] if *activation_id == activation(3)
    ));
}

#[test]
fn fence_is_not_acknowledged_while_reservations_remain() {
    let draining = EntitySlot::<u8, u8, u8>::Draining(DrainingSlot {
        activation_id: activation(3),
        endpoint: 3,
        lease: 33,
        progress: DrainProgress::Reservations(2),
    });
    let early = draining.decide(SlotEvent::FenceAcknowledged {
        activation_id: activation(3),
    });
    assert!(matches!(
        early.state,
        EntitySlot::Draining(DrainingSlot { progress: DrainProgress::Reservations(2), .. })
    ));
    assert!(early.effects.as_slice().is_empty());
    let one = early.state.decide(SlotEvent::DeliveryResolved {
        activation_id: activation(3),
        failure: None,
    });
    assert!(matches!(
        one.state,
        EntitySlot::Draining(DrainingSlot { progress: DrainProgress::Reservations(1), .. })
    ));
    assert!(one.effects.as_slice().is_empty());
    let last = one.state.decide(SlotEvent::DeliveryResolved {
        activation_id: activation(3),
        failure: Some((dispatch(4), 40)),
    });
    assert!(matches!(
        last.effects.as_slice(),
        [SlotEffect::Reject { command: 40, .. }, SlotEffect::EnqueueFence { endpoint: 3, .. }]
    ));
}

#[test]
fn retiring_slot_refuses_commands_as_draining() {
    let retiring = EntitySlot::<u8, u8, u8>::Retiring {
        activation_id: activation(7),
    };
    let refused = retiring.decide(SlotEvent::ClaimActivation {
        activation_id: activation(8),
        dispatch_id: dispatch(1),
        command: 1,
        waiter_limit: 1,
    });
    assert!(matches!(refused.state, EntitySlot::Retiring { .. }));
    assert!(matches!(
        refused.effects.as_slice(),
        [SlotEffect::Reject { command: 1, reason: Refusal::Draining, .. }]
    ));
}

#[test]
fn phase_and_activation_of_each_state() {
    let inactive = EntitySlot::<u8, u8, u8>::Inactive;
    assert_eq!(inactive.phase(), LifecyclePhase::Inactive);
    assert_eq!(inactive.activation_id(), None);
    let retiring = EntitySlot::<u8, u8, u8>::Retiring {
        activation_id: activation(4),
    };
    assert_eq!(retiring.phase(), LifecyclePhase::Retiring);
    assert_eq!(retiring.activation_id(), Some(activation(4)));
    let slot = activating(&[(1, 1)], 1);
    assert_eq!(slot.phase(), LifecyclePhase::Activating);
    assert_eq!(slot.activation_id(), Some(activation(1)));
}

#[test]
fn decide_all_folds_facts_and_concatenates_effects() {
    let decision = EntitySlot::<u8, u8, u8>::Inactive.decide_all(vec![
        SlotEvent::ClaimActivation {
            activation_id: activation(1),
            dispatch_id: dispatch(1),
            command: 10,
            waiter_limit: 2,
        },
        SlotEvent::Dispatch {
            dispatch_id: dispatch(2),
            command: 20,
        },
        SlotEvent::ActivationSucceeded {
            activation_id: activation(1),
            endpoint: 3,
            lease: 4,
        },
    ]);
    assert!(matches!(
        decision.state,
        EntitySlot::Active(ActiveSlot { reservations: ReservationCount::Pending(2), lease: 4, .. })
    ));
    assert!(matches!(
        decision.effects.as_slice(),
        [
            SlotEffect::StartActivation { .. },
            SlotEffect::Deliver { command: 10, .. },
            SlotEffect::Deliver { command: 20, .. },
        ]
    ));
    let empty = EntitySlot::<u8, u8, u8>::Inactive.decide_all(Vec::new());
    assert!(matches!(empty.state, EntitySlot::Inactive));
    assert!(empty.effects.into_vec().is_empty());
}

#[test]
fn effect_batches_are_consumed_in_order() {
    let slot = activating(&[(1, 10), (2, 20)], 2);
    let failed = slot.decide(SlotEvent::ActivationFailed {
        activation_id: activation(1),
    });
    let seen = std::cell::RefCell::new(Vec::new());
    failed.effects.for_each(|effect| match effect {
        SlotEffect::Reject { command, .. } => seen.borrow_mut().push(command),
        SlotEffect::Remove { .. } => seen.borrow_mut().push(0),
        _ => seen.borrow_mut().push(255),
    });
    assert_eq!(seen.into_inner(), [10, 20, 0]);
}

#[test]
fn late_failed_delivery_returns_its_command_to_an_idle_or_retiring_slot() {
    let idle = EntitySlot::<u8, u8, u8>::Inactive.decide(SlotEvent::DeliveryResolved {
        activation_id: activation(3),
        failure: Some((dispatch(6), 60)),
    });
    assert!(matches!(idle.state, EntitySlot::Inactive));
    assert!(matches!(
        idle.effects.as_slice(),
        [SlotEffect::Reject { dispatch_id, command: 60, reason: Refusal::Unavailable }] if *dispatch_id == dispatch(6)
    ));
    let retiring = EntitySlot::<u8, u8, u8>::Retiring {
        activation_id: activation(3),
    }
    .decide(SlotEvent::DeliveryResolved {
        activation_id: activation(3),
        failure: Some((dispatch(7), 70)),
    });
    assert!(matches!(retiring.state, EntitySlot::Retiring { activation_id } if activation_id == activation(3)));
    assert!(matches!(
        retiring.effects.as_slice(),
        [SlotEffect::Reject { dispatch_id, command: 70, reason: Refusal::Unavailable }] if *dispatch_id == dispatch(7)
    ));
    let succeeded = EntitySlot::<u8, u8, u8>::Inactive.decide(SlotEvent::DeliveryResolved {
        activation_id: activation(3),
        failure: None,
    });
    assert!(succeeded.effects.as_slice().is_empty());
}

#[test]
fn dispatch_then_resolution_restores_the_reservation_count() {
    let active = EntitySlot::<u8, u8, u8>::Active(ActiveSlot {
        activation_id: activation(2),
        endpoint: 7,
        lease: 9,
        reservations: ReservationCount::Pending(3),
    });
    let delivered = active.decide(SlotEvent::Dispatch {
        dispatch_id: dispatch(5),
        command: 50,
    });
    assert!(matches!(
        delivered.state,
        EntitySlot::Active(ActiveSlot { reservations: ReservationCount::Pending(4), .. })
    ));
    let resolved = delivered.state.decide(SlotEvent::DeliveryResolved {
        activation_id: activation(2),
        failure: None,
    });
    assert!(matches!(
        resolved.state,
        EntitySlot::Active(ActiveSlot { reservations: ReservationCount::Pending(3), .. })
    ));
    assert!(resolved.effects.as_slice().is_empty());
}

#[test]
fn a_saturated_reservation_count_does_not_admit_a_dispatch() {
    let saturated = EntitySlot::<u8, u8, u8>::Active(ActiveSlot {
        activation_id: activation(2),
        endpoint: 7,
        lease: 9,
        reservations: ReservationCount::Pending(usize::MAX),
    });
    let dispatch_event = SlotEvent::Dispatch {
        dispatch_id: dispatch(5),
        command: 50,
    };
    assert!(!saturated.admits(&dispatch_event));
    assert!(saturated.admits(&SlotEvent::DeliveryResolved {
        activation_id: activation(2),
        failure: None,
    }));
    assert!(EntitySlot::<u8, u8, u8>::Inactive.admits(&dispatch_event));
}

#[test]
fn an_activation_claim_needs_a_non_zero_waiter_limit() {
    let claim = |waiter_limit| SlotEvent::<u8, u8, u8>::ClaimActivation {
        activation_id: activation(1),
        dispatch_id: dispatch(1),
        command: 1,
        waiter_limit,
    };
    assert!(claim(1).is_well_formed());
    assert!(!claim(0).is_well_formed());
    assert!(SlotEvent::<u8, u8, u8>::Dispatch { dispatch_id: dispatch(1), command: 1 }.is_well_formed());
}

#[test]
fn an_incarnation_keeps_its_identity_until_retired() {
    let claimed = EntitySlot::<u8, u8, u8>::Inactive.decide(SlotEvent::ClaimActivation {
        activation_id: activation(5),
        dispatch_id: dispatch(1),
        command: 1,
        waiter_limit: 2,
    });
    assert_eq!(claimed.state.activation_id(), Some(activation(5)));
    let active = claimed.state.decide(SlotEvent::ActivationSucceeded {
        activation_id: activation(5),
        endpoint: 3,
        lease: 4,
    });
    assert_eq!(active.state.activation_id(), Some(activation(5)));
    let stale = active.state.decide(SlotEvent::ActivationSucceeded {
        activation_id: activation(6),
        endpoint: 7,
        lease: 8,
    });
    assert_eq!(stale.state.activation_id(), Some(activation(5)));
}
