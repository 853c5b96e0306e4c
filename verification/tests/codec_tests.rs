use up_rpc_server::codec::decode_status;
use up_rpc_server::codec::encode_status;
use up_rpc_server::ProtoAny;
use up_rpc_server::UCode;
use up_rpc_server::UStatus;

#[test]
fn test_proto_serialization() {
    let ustatus = UStatus {
        code: UCode::CANCELLED.value(),
        message: Some("the message".to_string()),
        details: vec![ProtoAny {
            type_url: "type.googleapis.com/google.protobuf.Timestamp".to_string(),
            value: Vec::new(),
        }],
    };
    let proto = encode_status(&ustatus);
    let deserialized_status =
        decode_status(proto.as_slice()).expect("failed to deserialize status");
    assert_eq!(ustatus, deserialized_status);
}

#[test]
fn test_exact_wire_bytes() {
    // code 5 -> field 1 varint; "hi" -> field 2, length 2
    let ustatus = UStatus {
        code: UCode::NOT_FOUND.value(),
        message: Some("hi".to_string()),
        details: Vec::new(),
    };
    let proto = encode_status(&ustatus);
    assert_eq!(proto, vec![0x08, 0x05, 0x12, 0x02, b'h', b'i']);

    // the default status encodes to nothing
    assert_eq!(encode_status(&UStatus::default()), Vec::<u8>::new());

    // a multi-byte varint: code 300 = 0b10_0101100
    let ustatus = UStatus {
        code: 300,
        ..Default::default()
    };
    assert_eq!(encode_status(&ustatus), vec![0x08, 0xAC, 0x02]);
}

#[test]
fn test_round_trip_preserves_every_field() {
    let ustatus = UStatus {
        code: 300,
        message: Some(String::new()),
        details: vec![
            ProtoAny {
                type_url: "a/b".to_string(),
                value: vec![1, 2, 3],
            },
            ProtoAny {
                type_url: String::new(),
                value: vec![0xFF],
            },
        ],
    };
    let decoded = decode_status(encode_status(&ustatus).as_slice()).unwrap();
    assert_eq!(ustatus, decoded);
}

#[test]
fn test_negative_code_round_trip() {
    // negative codes are sign-extended to ten varint bytes on the wire
    let ustatus = UStatus {
        code: -1,
        ..Default::default()
    };
    let proto = encode_status(&ustatus);
    assert_eq!(proto.len(), 11);
    assert_eq!(proto[0], 0x08);
    let decoded = decode_status(proto.as_slice()).unwrap();
    assert_eq!(decoded.code, -1);
}

#[test]
fn test_decode_rejects_malformed_input() {
    // unknown field tag
    assert!(decode_status(&[0xFF]).is_none());
    // truncated length-delimited payload
    assert!(decode_status(&[0x12, 0x05, b'a']).is_none());
    // unterminated varint
    assert!(decode_status(&[0x08, 0x80]).is_none());
    // message payload that is not UTF-8
    assert!(decode_status(&[0x12, 0x01, 0xFF]).is_none());
}

#[test]
fn test_decode_reads_detail_records() {
    let ustatus = UStatus {
        code: UCode::INTERNAL.value(),
        message: None,
        details: vec![ProtoAny {
            type_url: "t".to_string(),
            value: vec![9],
        }],
    };
    let proto = encode_status(&ustatus);
    let decoded = decode_status(proto.as_slice()).unwrap();
    assert_eq!(decoded.details.len(), 1);
    assert_eq!(decoded.details[0].type_url, "t");
    assert_eq!(decoded.details[0].value, vec![9]);
}
