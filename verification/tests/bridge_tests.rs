//! Host-level tests of the value bridge: round trips, shape failures,
//! range failures, and mismatch reporting.

use zenroom_minimal::errors::ValueKind;
use zenroom_minimal::{Error, Handle, HostType, HostValue, Keyring, Octet, ScriptValue, StaticUserData};
use zenroom_minimal::bridge::{from_script, to_script};

fn round_trip(v: HostValue, t: HostType) -> HostValue {
    let bridged = to_script(&v).expect("bridging should succeed");
    from_script(&bridged, &t).expect("reading back should succeed")
}

#[test]
fn scalar_round_trips() {
    assert_eq!(round_trip(HostValue::Nil, HostType::Unit), HostValue::Nil);
    assert_eq!(
        round_trip(HostValue::Bool(true), HostType::Bool),
        HostValue::Bool(true)
    );
    assert_eq!(
        round_trip(HostValue::Int(-42), HostType::Int),
        HostValue::Int(-42)
    );
    assert_eq!(
        round_trip(HostValue::Text("héllo".to_string()), HostType::Text),
        HostValue::Text("héllo".to_string())
    );
}

#[test]
fn bytes_round_trip() {
    let v = HostValue::Bytes(vec![0, 1, 127, 255]);
    assert_eq!(round_trip(v, HostType::Bytes), HostValue::Bytes(vec![0, 1, 127, 255]));
}

#[test]
fn sequence_round_trip() {
    let v = HostValue::List(vec![
        HostValue::Int(1),
        HostValue::Int(2),
        HostValue::Int(3),
    ]);
    let t = HostType::List(Box::new(HostType::Int));
    let expected = HostValue::List(vec![
        HostValue::Int(1),
        HostValue::Int(2),
        HostValue::Int(3),
    ]);
    assert_eq!(round_trip(v, t), expected);
}

#[test]
fn map_round_trip() {
    let v = HostValue::Dict(vec![
        ("a".to_string(), HostValue::Int(1)),
        ("b".to_string(), HostValue::Int(2)),
    ]);
    let t = HostType::Dict(Box::new(HostType::Int));
    let expected = HostValue::Dict(vec![
        ("a".to_string(), HostValue::Int(1)),
        ("b".to_string(), HostValue::Int(2)),
    ]);
    assert_eq!(round_trip(v, t), expected);
}

#[test]
fn option_round_trips() {
    let t = HostType::Opt(Box::new(HostType::Int));
    assert_eq!(
        round_trip(HostValue::Opt(None), t),
        HostValue::Opt(None)
    );
    let t2 = HostType::Opt(Box::new(HostType::Int));
    assert_eq!(
        round_trip(HostValue::Opt(Some(Box::new(HostValue::Int(7)))), t2),
        HostValue::Opt(Some(Box::new(HostValue::Int(7))))
    );
}

#[test]
fn nested_round_trip() {
    let v = HostValue::Dict(vec![(
        "xs".to_string(),
        HostValue::List(vec![HostValue::Text("x".to_string())]),
    )]);
    let t = HostType::Dict(Box::new(HostType::List(Box::new(HostType::Text))));
    let expected = HostValue::Dict(vec![(
        "xs".to_string(),
        HostValue::List(vec![HostValue::Text("x".to_string())]),
    )]);
    assert_eq!(round_trip(v, t), expected);
}

#[test]
fn handle_round_trip_and_tag_mismatch() {
    let v = HostValue::Handle(Handle { tag: "octet".to_string(), id: 9 });
    let t = HostType::Handle("octet".to_string());
    assert_eq!(
        round_trip(v, t),
        HostValue::Handle(Handle { tag: "octet".to_string(), id: 9 })
    );

    let s = ScriptValue::Handle(Handle { tag: "octet".to_string(), id: 9 });
    let r = from_script(&s, &HostType::Handle("keyring".to_string()));
    assert_eq!(
        r,
        Err(Error::TypeMismatch {
            expected: ValueKind::Handle("keyring".to_string()),
            found: ValueKind::Handle("octet".to_string()),
        })
    );
}

#[test]
fn gapped_table_fails_shape() {
    // Positions 1 and 3 set, 2 missing: rejected, never truncated.
    let s = ScriptValue::Table(vec![
        (ScriptValue::Number(1), ScriptValue::Number(10)),
        (ScriptValue::Number(3), ScriptValue::Number(30)),
    ]);
    let r = from_script(&s, &HostType::List(Box::new(HostType::Int)));
    assert_eq!(r, Err(Error::Shape));
}

#[test]
fn string_keyed_table_fails_shape_as_sequence() {
    let s = ScriptValue::Table(vec![(
        ScriptValue::Str("a".to_string()),
        ScriptValue::Number(1),
    )]);
    let r = from_script(&s, &HostType::List(Box::new(HostType::Int)));
    assert_eq!(r, Err(Error::Shape));
}

#[test]
fn oversized_byte_fails_range() {
    let s = ScriptValue::Table(vec![(ScriptValue::Number(1), ScriptValue::Number(300))]);
    let r = from_script(&s, &HostType::Bytes);
    assert_eq!(r, Err(Error::Range));
}

#[test]
fn kind_mismatch_is_reported() {
    let r = from_script(&ScriptValue::Boolean(true), &HostType::Int);
    assert_eq!(
        r,
        Err(Error::TypeMismatch { expected: ValueKind::Number, found: ValueKind::Boolean })
    );
}

#[test]
fn entry_failure_aborts_whole_map() {
    let s = ScriptValue::Table(vec![
        (ScriptValue::Str("good".to_string()), ScriptValue::Number(1)),
        (ScriptValue::Str("bad".to_string()), ScriptValue::Boolean(false)),
    ]);
    let r = from_script(&s, &HostType::Dict(Box::new(HostType::Int)));
    assert_eq!(
        r,
        Err(Error::TypeMismatch { expected: ValueKind::Number, found: ValueKind::Boolean })
    );
}

#[test]
fn sequence_bridges_to_one_indexed_table() {
    let v = HostValue::List(vec![HostValue::Int(5), HostValue::Int(6)]);
    let bridged = to_script(&v).unwrap();
    assert_eq!(
        bridged,
        ScriptValue::Table(vec![
            (ScriptValue::Number(1), ScriptValue::Number(5)),
            (ScriptValue::Number(2), ScriptValue::Number(6)),
        ])
    );
}

#[test]
fn absent_option_bridges_to_nil() {
    assert_eq!(to_script(&HostValue::Opt(None)).unwrap(), ScriptValue::Nil);
    assert_eq!(
        to_script(&HostValue::Opt(Some(Box::new(HostValue::Bool(true))))).unwrap(),
        ScriptValue::Boolean(true)
    );
}

#[test]
fn handle_tags_are_fixed() {
    assert_eq!(Octet::default().handle_tag(), "octet");
    assert_eq!(Keyring::new().handle_tag(), "keyring");
}
