use bombay_entity::{
    ActivationId, ActiveSlot, DispatchId, DrainProgress, DrainingSlot, EntitySlot, Refusal,
    ReservationCount, RetirementMode, SlotEffect, SlotEffectBatch, SlotEvent,
};

fn activation(value: u64) -> ActivationId {
    ActivationId::new(value)
}

fn dispatch(value: u64) -> DispatchId {
    DispatchId::new(value)
}

#[test]
fn concurrent_demand_starts_one_activation_and_bounds_waiters() {
    let first = EntitySlot::<u8, u8, u8>::Inactive.decide(SlotEvent::ClaimActivation {
        activation_id: activation(1),
        dispatch_id: dispatch(1),
        command: 10,
        waiter_limit: 2,
    });
    assert!(matches!(
        first.effects.as_slice(),
        [SlotEffect::StartActivation { .. }]
    ));

    let second = first.state.decide(SlotEvent::Dispatch {
        dispatch_id: dispatch(2),
        command: 20,
    });
    assert!(second.effects.as_slice().is_empty());
    let third = second.state.decide(SlotEvent::Dispatch {
        dispatch_id: dispatch(3),
        command: 30,
    });
    assert!(matches!(
        third.effects.as_slice(),
        [SlotEffect::Reject {
            command: 30,
            reason: Refusal::Busy,
            ..
        }]
    ));
}

#[test]
fn drain_waits_for_reserved_delivery_before_enqueuing_fence() {
    let active = EntitySlot::<u8, u8, u8>::Active(ActiveSlot {
        activation_id: activation(2),
        endpoint: 7,
        lease: 9,
        reservations: ReservationCount::Pending(1),
    });
    let draining = active.decide(SlotEvent::BeginDrain {
        activation_id: activation(2),
    });
    assert!(draining.effects.as_slice().is_empty());

    let resolved = draining.state.decide(SlotEvent::DeliveryResolved {
        activation_id: activation(2),
        failure: None,
    });
    assert!(matches!(
        resolved.effects.as_slice(),
        [SlotEffect::EnqueueFence { .. }]
    ));

    let acknowledged = resolved.state.decide(SlotEvent::FenceAcknowledged {
        activation_id: activation(2),
    });
    assert!(matches!(
        acknowledged.effects.as_slice(),
        [SlotEffect::Retire {
            retirement: RetirementMode::Graceful,
            ..
        }]
    ));
}

#[test]
fn stale_activation_cannot_replace_live_incarnation() {
    let active = EntitySlot::<u8, u8, u8>::Active(ActiveSlot {
        activation_id: activation(5),
        endpoint: 5,
        lease: 5,
        reservations: ReservationCount::Drained,
    });
    let stale = active.decide(SlotEvent::ActivationSucceeded {
        activation_id: activation(4),
        endpoint: 4,
        lease: 4,
    });
    assert!(matches!(
        stale.state,
        EntitySlot::Active(ActiveSlot { activation_id, .. }) if activation_id == activation(5)
    ));
    assert!(
        matches!(stale.effects.as_slice(), [SlotEffect::Retire { activation_id, .. }] if *activation_id == activation(4))
    );
}

#[test]
fn stale_termination_cannot_remove_newer_incarnation() {
    let retiring = EntitySlot::<u8, u8, u8>::Retiring {
        activation_id: activation(7),
    };
    let stale = retiring.decide(SlotEvent::Terminated {
        activation_id: activation(6),
    });
    assert!(matches!(
        stale.state,
        EntitySlot::Retiring { activation_id } if activation_id == activation(7)
    ));
    assert!(stale.effects.as_slice().is_empty());
}

#[test]
fn draining_never_reopens_admission() {
    let draining = EntitySlot::<u8, u8, u8>::Draining(DrainingSlot {
        activation_id: activation(3),
        endpoint: 3,
        lease: 3,
        progress: DrainProgress::FenceAcknowledgement,
    });
    let refused = draining.decide(SlotEvent::Dispatch {
        dispatch_id: dispatch(8),
        command: 9,
    });
    assert!(matches!(refused.state, EntitySlot::Draining(_)));
    assert!(matches!(
        refused.effects.as_slice(),
        [SlotEffect::Reject {
            reason: Refusal::Draining,
            command: 9,
            ..
        }]
    ));
}

#[test]
fn activation_failure_preserves_waiter_order_before_removal() {
    let first = EntitySlot::<u8, u8, u8>::Inactive.decide(SlotEvent::ClaimActivation {
        activation_id: activation(1),
        dispatch_id: dispatch(1),
        command: 10,
        waiter_limit: 2,
    });
    let second = first.state.decide(SlotEvent::Dispatch {
        dispatch_id: dispatch(2),
        command: 20,
    });
    let failed = second.state.decide(SlotEvent::ActivationFailed {
        activation_id: activation(1),
    });
    assert!(matches!(
        failed.effects.as_slice(),
        [
            SlotEffect::Reject { dispatch_id: first_id, command: 10, .. },
            SlotEffect::Reject { dispatch_id: second_id, command: 20, .. },
            SlotEffect::Remove { activation_id }
        ] if *first_id == dispatch(1) && *second_id == dispatch(2) && *activation_id == activation(1)
    ));
}

#[test]
fn effect_batch_has_identity_and_associative_order() {
    let a = SlotEffectBatch::<u8, u8, u8>::one(SlotEffect::Remove {
        activation_id: activation(1),
    });
    let b = SlotEffectBatch::one(SlotEffect::Remove {
        activation_id: activation(2),
    });
    let combined = SlotEffectBatch::default() + a + b;

    assert!(matches!(
        combined.as_slice(),
        [
            SlotEffect::Remove { activation_id: first },
            SlotEffect::Remove { activation_id: second }
        ] if *first == activation(1) && *second == activation(2)
    ));
}
