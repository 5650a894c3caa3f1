use ore_cli::advisory::parse_advisory;

#[test]
fn parses_plain_document() {
    let cfg = parse_advisory(br#"{"busses":[{"id":3,"priority_fee":500}]}"#)
        .expect("well-formed document");
    assert_eq!(cfg.busses.len(), 1);
    assert_eq!(cfg.busses[0].id, 3);
    assert_eq!(cfg.busses[0].priority_fee, 500);
}

#[test]
fn parses_whitespace_and_field_order() {
    let body = b" {\n\t\"busses\" : [ { \"priority_fee\" : 42 , \"id\" : 7 } ,\r\n {\"id\":0,\"priority_fee\":1} ] } ";
    let cfg = parse_advisory(body).expect("well-formed document");
    assert_eq!(cfg.busses.len(), 2);
    assert_eq!(cfg.busses[0].id, 7);
    assert_eq!(cfg.busses[0].priority_fee, 42);
    assert_eq!(cfg.busses[1].id, 0);
    assert_eq!(cfg.busses[1].priority_fee, 1);
}

#[test]
fn parses_empty_bus_list() {
    let cfg = parse_advisory(br#"{"busses":[]}"#).expect("well-formed document");
    assert!(cfg.busses.is_empty());
}

#[test]
fn parses_u64_boundary() {
    let body = br#"{"busses":[{"id":1,"priority_fee":18446744073709551615}]}"#;
    let cfg = parse_advisory(body).expect("well-formed document");
    assert_eq!(cfg.busses[0].priority_fee, u64::MAX);
}

#[test]
fn malformed_documents_degrade_to_none() {
    // a fee just past u64::MAX
    assert!(parse_advisory(br#"{"busses":[{"id":1,"priority_fee":18446744073709551616}]}"#)
        .is_none());
    assert!(parse_advisory(b"").is_none());
    assert!(parse_advisory(b"not json at all").is_none());
    assert!(parse_advisory(br#"{"busses":}"#).is_none());
    assert!(parse_advisory(br#"{"busses":[{"id":1}]}"#).is_none());
    assert!(parse_advisory(br#"{"busses":[{"id":1,"id":2}]}"#).is_none());
    assert!(parse_advisory(br#"{"busses":[{"id":1,"priority_fee":2}"#).is_none());
    assert!(parse_advisory(br#"{"busses":[{"id":1,"priority_fee":2}]} trailing"#).is_none());
    assert!(parse_advisory(br#"{"wrong":[{"id":1,"priority_fee":2}]}"#).is_none());
    assert!(parse_advisory(br#"{"busses":[{"id":-1,"priority_fee":2}]}"#).is_none());
}
