use bombay_entity::{
    abandoned_waiter, dispatch_failure_from, fence_drain_failure, passivation_outcome, settle,
    ActivationId, Activated, DirectoryError, DispatchFailure, DrainFenceAcknowledged, DrainStage,
    EntityBehavior, FenceFailure, LifecycleEdge, LifecyclePhase, LifecycleTrigger, Passivation,
    TransitionEvidence,
};

#[test]
fn fence_failures_force_drain_at_their_stage() {
    let enqueue = fence_drain_failure(FenceFailure::Enqueue);
    assert_eq!(enqueue.stage, DrainStage::FenceEnqueue);
    assert_eq!(enqueue.outstanding_reservations, 0);
    let acknowledgement = fence_drain_failure(FenceFailure::Acknowledgement);
    assert_eq!(acknowledgement.stage, DrainStage::FenceAcknowledgement);
}

#[test]
fn directory_failures_return_the_command() {
    assert!(matches!(
        dispatch_failure_from(DirectoryError::ActivationIdsExhausted(5_u8)),
        DispatchFailure::ActivationIdsExhausted(5)
    ));
    assert!(matches!(
        dispatch_failure_from(DirectoryError::DispatchIdsExhausted(6_u8)),
        DispatchFailure::DispatchIdsExhausted(6)
    ));
}

#[test]
fn passivation_reports_not_active_begun_or_already_passivating() {
    assert_eq!(passivation_outcome(None), Passivation::NotActive);
    assert_eq!(
        passivation_outcome(Some(TransitionEvidence::Traversed(LifecycleEdge::BeginDrain))),
        Passivation::Begun
    );
    assert_eq!(
        passivation_outcome(Some(TransitionEvidence::Ignored {
            phase: LifecyclePhase::Draining,
            trigger: LifecycleTrigger::BeginDrain,
        })),
        Passivation::AlreadyPassivating
    );
    assert_eq!(
        passivation_outcome(Some(TransitionEvidence::SelfLoop {
            phase: LifecyclePhase::Retiring,
            trigger: LifecycleTrigger::BeginDrain,
        })),
        Passivation::AlreadyPassivating
    );
    assert_eq!(
        passivation_outcome(Some(TransitionEvidence::Ignored {
            phase: LifecyclePhase::Activating,
            trigger: LifecycleTrigger::BeginDrain,
        })),
        Passivation::NotActive
    );
}

#[test]
fn first_result_settles_a_dispatch() {
    let mut outcome = None;
    assert!(settle(&mut outcome, 1));
    assert!(!settle(&mut outcome, 2));
    assert_eq!(outcome, Some(1));
}

#[test]
fn only_an_unfinished_joined_dispatch_cancels_its_waiter() {
    let activation = ActivationId::new(3);
    assert_eq!(abandoned_waiter(false, Some(activation)), Some(activation));
    assert_eq!(abandoned_waiter(true, Some(activation)), None);
    assert_eq!(abandoned_waiter(false, None), None);
}

#[test]
fn entity_behavior_wraps_its_inner_behavior() {
    let behavior = EntityBehavior::new(17_u32);
    assert_eq!(*behavior.inner(), 17);
    assert_eq!(behavior.into_inner(), 17);
    assert_eq!(DrainFenceAcknowledged, DrainFenceAcknowledged);
    let activated = Activated { endpoint: 1_u8, lease: 2_u8 };
    assert_eq!((activated.endpoint, activated.lease), (1, 2));
}
