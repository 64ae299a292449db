use tosca_controller::error::ErrorKind;
use tosca_controller::parameters::{ParameterKind, ParameterValue};
use tosca_controller::payloads::{
    BoolPayload, CharsSequencePayload, F64Payload, ParameterPayload, ParametersPayloads, U32Payload,
    U64Payload, U8Payload,
};

fn payloads() -> ParametersPayloads {
    let mut p = ParametersPayloads::new();
    p.insert(
        "on".to_string(),
        ParameterPayload::new(ParameterKind::Bool { default: false }, ParameterValue::Bool(true)),
    );
    p.insert(
        "level".to_string(),
        ParameterPayload::new(
            ParameterKind::RangeU64 { min: 0, max: 20, step: 1, default: 5 },
            ParameterValue::U64(7),
        ),
    );
    p.insert(
        "small".to_string(),
        ParameterPayload::new(
            ParameterKind::U8 { default: 1, min: 0, max: 9 },
            ParameterValue::U8(3),
        ),
    );
    p.insert(
        "label".to_string(),
        ParameterPayload::new(
            ParameterKind::CharsSequence { default: "none".to_string() },
            ParameterValue::CharsSequence("hall".to_string()),
        ),
    );
    p.insert(
        "count".to_string(),
        ParameterPayload::new(
            ParameterKind::RangeU32 { min: 0, max: 9, step: 1, default: 0 },
            ParameterValue::U32(4),
        ),
    );
    p
}

#[test]
fn typed_payloads_are_extracted_once() {
    let mut p = payloads();
    assert_eq!(p.bool("on"), Ok(BoolPayload { value: true, default: false }));
    assert_eq!(
        p.u64("level"),
        Ok(U64Payload { value: 7, default: 5, min: 0, max: 20 })
    );
    assert_eq!(p.u8("small"), Ok(U8Payload { value: 3, default: 1, min: 0, max: 9 }));
    assert_eq!(
        p.chars_sequence("label"),
        Ok(CharsSequencePayload { value: "hall".to_string(), default: "none".to_string() })
    );
    assert_eq!(p.u32("count"), Ok(U32Payload { value: 4, default: 0, min: 0, max: 9 }));
    let again = p.bool("on").unwrap_err();
    assert_eq!(again.kind, ErrorKind::InvalidParameter);
    assert_eq!(again.description, "`on` not found.");
}

#[test]
fn wrong_kind_is_refused() {
    let mut p = payloads();
    let error = p.u16("level").unwrap_err();
    assert_eq!(error.description, "`level` is not a `u16` kind");
    // The payload was taken out even though its kind did not match.
    assert!(p.get("level").is_none());
    assert!(p.get("on").is_some());
    let error = p.chars_sequence("on").unwrap_err();
    assert_eq!(error.description, "`on` is not a `characters sequence` kind");
}

#[test]
fn extract_moves_last_into_place() {
    let mut p = payloads();
    let taken = p.extract("on").unwrap();
    assert_eq!(taken.value, ParameterValue::Bool(true));
    assert_eq!(p.extract("on"), None);
    assert!(p.get("count").is_some());
}

#[test]
fn float_payloads_keep_their_text() {
    let mut p = ParametersPayloads::new();
    p.insert(
        "ratio".to_string(),
        ParameterPayload::new(
            ParameterKind::RangeF64 {
                min: "0".to_string(),
                max: "1".to_string(),
                step: "0.1".to_string(),
                default: "0.5".to_string(),
            },
            ParameterValue::F64("0.7".to_string()),
        ),
    );
    assert_eq!(
        p.float64("ratio"),
        Ok(F64Payload {
            value: "0.7".to_string(),
            default: "0.5".to_string(),
            min: "0".to_string(),
            max: "1".to_string(),
            step: "0.1".to_string(),
        })
    );
    let mut q = payloads();
    assert_eq!(q.float32("on").unwrap_err().description, "`on` is not a `f32` kind");
}
