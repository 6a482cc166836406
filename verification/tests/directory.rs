use std::sync::atomic::{AtomicU64, Ordering};

use bombay_entity::{
    admission_event, allocate, removal_matches, runtime_call, sequence_identity, shard_index,
    shard_mask, ActivationId, DirectoryConfig, DirectoryError, DispatchId, EntityId, Refusal,
    RetirementMode, RuntimeCall, SlotEffect, SlotEvent,
};

#[test]
fn default_configuration_has_sixty_four_shards_and_waiters() {
    let config = DirectoryConfig::default();
    assert_eq!(config.shards, 64);
    assert_eq!(config.activation_waiters, 64);
}

#[test]
fn shard_count_must_be_a_power_of_two() {
    assert_eq!(shard_mask::<()>(64).ok(), Some(63));
    assert_eq!(shard_mask::<()>(1).ok(), Some(0));
    assert!(matches!(shard_mask::<()>(48), Err(DirectoryError::InvalidShardCount)));
    assert!(matches!(shard_mask::<()>(0), Err(DirectoryError::InvalidShardCount)));
}

#[test]
fn shard_index_keeps_the_masked_bits() {
    assert_eq!(shard_index(0xabcd, 63), 0xabcd & 63);
    assert_eq!(shard_index(u64::MAX, 0), 0);
    assert_eq!(shard_index(5, 7), 5);
}

#[test]
fn identities_are_allocated_in_order_until_exhausted() {
    let sequence = AtomicU64::new(1);
    assert_eq!(allocate(&sequence), Some(1));
    assert_eq!(allocate(&sequence), Some(2));
    assert_eq!(sequence.load(Ordering::Relaxed), 3);
    let exhausted = AtomicU64::new(u64::MAX);
    assert_eq!(allocate(&exhausted), None);
    assert_eq!(exhausted.load(Ordering::Relaxed), u64::MAX);
    let zero = AtomicU64::new(0);
    assert_eq!(allocate(&zero), None);
}

#[test]
fn identity_is_the_value_before_a_successful_advance() {
    assert_eq!(sequence_identity(Ok(5)), Some(5));
    assert_eq!(sequence_identity(Ok(0)), None);
    assert_eq!(sequence_identity(Err(u64::MAX)), None);
}

#[test]
fn effects_are_routed_to_the_matching_runtime_capability() {
    let entity = EntityId::new(42_u64);
    let activation = ActivationId::new(3);
    let dispatch = DispatchId::new(4);
    let route = |effect: SlotEffect<u8, u8, u8>| runtime_call(entity, effect);
    assert_eq!(
        route(SlotEffect::StartActivation { activation_id: activation }),
        RuntimeCall::StartActivation { entity_id: entity, activation_id: activation }
    );
    assert_eq!(
        route(SlotEffect::Deliver { activation_id: activation, dispatch_id: dispatch, endpoint: 7, command: 8 }),
        RuntimeCall::Deliver { entity_id: entity, activation_id: activation, dispatch_id: dispatch, endpoint: 7, command: 8 }
    );
    assert_eq!(
        route(SlotEffect::Reject { dispatch_id: dispatch, command: 9, reason: Refusal::Busy }),
        RuntimeCall::Reject { dispatch_id: dispatch, command: 9, reason: Refusal::Busy }
    );
    assert_eq!(
        route(SlotEffect::EnqueueFence { activation_id: activation, endpoint: 7 }),
        RuntimeCall::EnqueueFence { entity_id: entity, activation_id: activation, endpoint: 7 }
    );
    assert_eq!(
        route(SlotEffect::Retire { activation_id: activation, lease: 6, retirement: RetirementMode::Graceful }),
        RuntimeCall::Retire { entity_id: entity, activation_id: activation, lease: 6, retirement: RetirementMode::Graceful }
    );
    assert_eq!(
        route(SlotEffect::Remove { activation_id: activation }),
        RuntimeCall::RemoveSlot { activation_id: activation }
    );
}

#[test]
fn first_dispatch_claims_and_later_dispatches_join() {
    let dispatch = DispatchId::new(4);
    let joined = admission_event::<u8, u8, u8>(dispatch, 40, true, None, 8);
    assert!(matches!(joined, Ok(SlotEvent::Dispatch { dispatch_id, command: 40 }) if dispatch_id == dispatch));
    let claimed = admission_event::<u8, u8, u8>(dispatch, 41, false, Some(9), 8);
    assert!(matches!(
        claimed,
        Ok(SlotEvent::ClaimActivation { activation_id, dispatch_id, command: 41, waiter_limit: 8 })
            if activation_id == ActivationId::new(9) && dispatch_id == dispatch
    ));
    let exhausted = admission_event::<u8, u8, u8>(dispatch, 42, false, None, 8);
    assert!(matches!(exhausted, Err(DirectoryError::ActivationIdsExhausted(42))));
}

#[test]
fn removal_requires_the_same_slot_marked_for_the_same_activation() {
    let current = ActivationId::new(5);
    let older = ActivationId::new(4);
    assert!(removal_matches(true, Some(current), current));
    assert!(!removal_matches(false, Some(current), current));
    assert!(!removal_matches(true, Some(older), current));
    assert!(!removal_matches(true, None, current));
}
