use fastmssql::errors::Error;
use fastmssql::host_value::HostValue;
use fastmssql::params::{decode_wire, encode_params, encode_value, GroupArg, ParamInput, WireParam};

fn listed_values() -> Vec<HostValue> {
    vec![
        HostValue::Null,
        HostValue::Bool(true),
        HostValue::Int(42),
        HostValue::Float((3.14f64).to_bits()),
        HostValue::Str(String::from("x")),
        HostValue::Bytes(vec![1u8, 2u8]),
    ]
}

#[test]
fn round_trip_of_every_listed_value() {
    for v in listed_values() {
        let copy = v.duplicate();
        let wire = encode_value(&v);
        let back = decode_wire(wire);
        assert_eq!(back, copy);
    }
}

#[test]
fn float_round_trip_is_bit_exact() {
    let bits = (3.14f64).to_bits();
    let back = decode_wire(encode_value(&HostValue::Float(bits)));
    match back {
        HostValue::Float(b) => assert_eq!(f64::from_bits(b), 3.14f64),
        _ => panic!("float did not come back as a float"),
    }
}

#[test]
fn encode_shapes_match_the_wire_set() {
    assert!(matches!(encode_value(&HostValue::Null), WireParam::Null));
    assert!(matches!(encode_value(&HostValue::Bool(true)), WireParam::Bool(true)));
    assert!(matches!(encode_value(&HostValue::Int(42)), WireParam::Int64(42)));
    match encode_value(&HostValue::Str(String::from("x"))) {
        WireParam::Str(s) => assert_eq!(s, "x"),
        _ => panic!("text did not encode as text"),
    }
    match encode_value(&HostValue::Bytes(vec![1, 2])) {
        WireParam::Bytes(b) => assert_eq!(b, vec![1u8, 2u8]),
        _ => panic!("bytes did not encode as bytes"),
    }
}

#[test]
fn datetime_encodes_as_its_text() {
    match encode_value(&HostValue::DateTime(String::from("2024-01-02 03:04:05"))) {
        WireParam::Str(s) => assert_eq!(s, "2024-01-02 03:04:05"),
        _ => panic!("timestamp did not encode as text"),
    }
}

#[test]
fn groups_expand_one_level_in_order() {
    let inputs = vec![
        ParamInput::Single(HostValue::Int(1)),
        ParamInput::Many(vec![
            GroupArg::Item(HostValue::Int(2)),
            GroupArg::Item(HostValue::Int(3)),
        ]),
        ParamInput::Single(HostValue::Str(String::from("z"))),
    ];
    let out = encode_params(&inputs).unwrap();
    assert_eq!(out.len(), 4);
    assert!(matches!(out[0], WireParam::Int64(1)));
    assert!(matches!(out[1], WireParam::Int64(2)));
    assert!(matches!(out[2], WireParam::Int64(3)));
    match &out[3] {
        WireParam::Str(s) => assert_eq!(s, "z"),
        _ => panic!("last parameter lost its place"),
    }
}

#[test]
fn strings_and_bytes_are_single_parameters() {
    // the embedding never marks text or bytes as expandable; they
    // arrive as singles and stay single parameters
    let inputs = vec![
        ParamInput::Single(HostValue::Str(String::from("ab"))),
        ParamInput::Single(HostValue::Bytes(vec![1, 2, 3])),
    ];
    let out = encode_params(&inputs).unwrap();
    assert_eq!(out.len(), 2);
}

#[test]
fn a_nested_group_element_fails_the_call() {
    let inputs = vec![ParamInput::Many(vec![
        GroupArg::Item(HostValue::Int(1)),
        GroupArg::Odd(String::from("list")),
    ])];
    match encode_params(&inputs) {
        Err(Error::TypeConversion(msg)) => {
            assert!(msg.contains("unsupported parameter type"));
            assert!(msg.contains("list"));
        },
        _ => panic!("a nested iterable must fail the call"),
    }
}

#[test]
fn an_unsupported_argument_fails_the_call() {
    let inputs = vec![
        ParamInput::Single(HostValue::Int(1)),
        ParamInput::Unsupported(String::from("dict")),
    ];
    match encode_params(&inputs) {
        Err(Error::TypeConversion(msg)) => assert!(msg.contains("dict")),
        _ => panic!("an unconvertible argument must fail the call"),
    }
}

#[test]
fn empty_parameter_list_encodes_empty() {
    let out = encode_params(&Vec::new()).unwrap();
    assert_eq!(out.len(), 0);
}
