use graphile_worker::definition::JobDefinition;

#[test]
fn a_definition_carries_identifier_and_handler() {
    let definition = JobDefinition::of("send_email", 5u32);
    assert_eq!(definition.identifier(), "send_email");
    assert_eq!(*definition.handler(), 5);
    let batch = JobDefinition::of_batch("send_emails", 6u32);
    assert_eq!(batch.identifier(), "send_emails");
    assert_eq!(*batch.handler(), 6);
}

#[test]
fn the_identifier_can_be_replaced() {
    let definition = JobDefinition::of("send_email", 5u32).with_identifier("tenant_a/send_email");
    let handler = definition.handler();
    let (identifier, same_handler) = definition.into_parts();
    assert_eq!(identifier, "tenant_a/send_email");
    assert!(std::sync::Arc::ptr_eq(&handler, &same_handler));
}

#[test]
fn a_cloned_definition_shares_its_handler() {
    let definition = JobDefinition::of("send_email", 5u32);
    let copy = definition.clone();
    assert_eq!(copy.identifier(), "send_email");
    assert!(std::sync::Arc::ptr_eq(&copy.handler(), &definition.handler()));
}
