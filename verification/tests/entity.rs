use bombay_entity::EntityId;

#[test]
fn entity_id_preserves_domain_identity() {
    let id = EntityId::new(42_u64);

    assert_eq!(id.get(), &42);
    assert_eq!(id.to_string(), "42");
    assert_eq!(id.into_inner(), 42);
}
