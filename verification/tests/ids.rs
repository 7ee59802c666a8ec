use kicad_gateway::ids::{CheckpointId, DeviceId, IdParseError, OperationId, SessionId, WorkspaceId};

#[test]
fn device_id_round_trips_through_display_and_fromstr() {
    let id = DeviceId::new();
    let s = id.to_string();
    assert!(s.starts_with("dev_"));
    let parsed: DeviceId = s.parse().expect("valid id parses");
    assert_eq!(id, parsed);
}

#[test]
fn distinct_id_types_are_not_interchangeable_at_compile_time() {
    fn takes_device_id(_: DeviceId) {}
    let d = DeviceId::new();
    takes_device_id(d);
    let _w = WorkspaceId::new();
}

#[test]
fn wrong_prefix_is_rejected() {
    let session_id = SessionId::new();
    let as_string = session_id.to_string();
    let parsed: Result<DeviceId, _> = as_string.parse();
    assert_eq!(
        parsed,
        Err(IdParseError::MissingPrefix {
            expected_prefix: "dev"
        })
    );
}

#[test]
fn malformed_body_is_rejected() {
    let parsed: Result<DeviceId, _> = "dev_not-a-ulid".parse();
    assert!(matches!(parsed, Err(IdParseError::InvalidUlid(_))));
}

#[test]
fn known_ulid_has_its_canonical_text() {
    let id = OperationId::from_ulid(0);
    assert_eq!(id.to_string(), "op_00000000000000000000000000");
    assert_eq!(id.as_ulid(), 0);
    let id = CheckpointId::from_ulid(1);
    assert_eq!(id.to_string(), "chk_00000000000000000000000001");
    assert_eq!(CheckpointId::parse("chk_00000000000000000000000001"), Ok(id));
}

#[test]
fn ulid_value_round_trips_through_from_ulid() {
    let id = WorkspaceId::new();
    assert_eq!(WorkspaceId::from_ulid(id.as_ulid()), id);
    assert_eq!(WorkspaceId::parse(&id.to_string()), Ok(id));
}

#[test]
fn parse_error_debug_text_matches_derived_debug() {
    let err = DeviceId::parse("sess_01ARZ3NDEKTSV4RRFFQ69G5FAV").unwrap_err();
    assert_eq!(err.debug_text(), format!("{err:?}"));
    let err = DeviceId::parse("dev_!!").unwrap_err();
    assert_eq!(err.debug_text(), format!("{err:?}"));
}

#[test]
fn missing_separator_is_a_missing_prefix() {
    assert_eq!(
        DeviceId::parse("dev01ARZ3NDEKTSV4RRFFQ69G5FAV"),
        Err(IdParseError::MissingPrefix {
            expected_prefix: "dev"
        })
    );
}

#[test]
fn fromstr_agrees_with_parse_on_each_outcome() {
    let id = SessionId::new();
    let text = id.to_string();
    let via_trait: SessionId = text.parse().expect("valid id parses");
    assert_eq!(via_trait, id);
    let wrong: Result<SessionId, IdParseError> = "dev_01ARZ3NDEKTSV4RRFFQ69G5FAV".parse();
    assert_eq!(wrong, SessionId::parse("dev_01ARZ3NDEKTSV4RRFFQ69G5FAV"));
    assert!(matches!(wrong, Err(IdParseError::MissingPrefix { expected_prefix: "sess" })));
    let bad_body: Result<SessionId, IdParseError> = "sess_not-a-ulid".parse();
    assert!(matches!(bad_body, Err(IdParseError::InvalidUlid(_))));
}

#[test]
fn ulid_text_is_read_in_either_case() {
    let upper = DeviceId::parse("dev_01ARZ3NDEKTSV4RRFFQ69G5FAV").expect("valid id");
    let lower = DeviceId::parse("dev_01arz3ndektsv4rrffq69g5fav").expect("lower case is accepted");
    assert_eq!(upper, lower);
    assert_eq!(upper.to_string(), "dev_01ARZ3NDEKTSV4RRFFQ69G5FAV");
}

#[test]
fn ulid_text_keeps_the_low_128_bits() {
    let all_ones = DeviceId::parse("dev_ZZZZZZZZZZZZZZZZZZZZZZZZZZ").expect("26 digits parse");
    assert_eq!(all_ones.as_ulid(), u128::MAX);
    let wrapped = DeviceId::parse("dev_80000000000000000000000000").expect("26 digits parse");
    assert_eq!(wrapped.as_ulid(), 0);
    assert!(matches!(
        DeviceId::parse("dev_0000000000000000000000000I"),
        Err(IdParseError::InvalidUlid(_))
    ));
}
