//! Tests of the transform text codec: exact encodings, exact decodings, the
//! round trip, and every failure message.

use where_was_i::serialization::{
    deserialize_transform, serialize_transform, transform_to_lines, QuatBits, Transform, Vec3Bits,
    WhereWasIParseError,
};

fn lines_of(xs: &[&str]) -> Vec<String> {
    xs.iter().map(|s| s.to_string()).collect()
}

fn identity_text() -> String {
    "v0\n\ntranslation:\n0\n0\n0\n\nrotation:\n0\n0\n0\n1\n\nscale:\n1\n1\n1\n".to_string()
}

fn camera_transform() -> Transform {
    Transform::new(
        Vec3Bits::new(
            10.000002f32.to_bits(),
            10.0f32.to_bits(),
            10.0f32.to_bits(),
        ),
        QuatBits::new(
            (-0.27984813f32).to_bits(),
            0.36470526f32.to_bits(),
            0.11591691f32.to_bits(),
            0.88047624f32.to_bits(),
        ),
        Vec3Bits::new(1.0f32.to_bits(), 1.0f32.to_bits(), 1.0f32.to_bits()),
    )
}

fn camera_text() -> String {
    "v0\n\ntranslation:\n10.000002\n10\n10\n\nrotation:\n-0.27984813\n0.36470526\n0.11591691\n0.88047624\n\nscale:\n1\n1\n1\n".to_string()
}

fn split_lines(text: &str) -> Vec<String> {
    text.lines().map(|l| l.to_string()).collect()
}

#[test]
fn test_serialize_identity() {
    let text = serialize_transform(&Transform::identity());
    assert_eq!(text.as_bytes(), identity_text().as_bytes());
}

#[test]
fn test_serialize_camera() {
    let text = serialize_transform(&camera_transform());
    assert_eq!(text.as_bytes(), camera_text().as_bytes());
}

#[test]
fn test_deserialize_identity() {
    let lines = split_lines(&identity_text());
    let transform = deserialize_transform(&lines).expect("Expected serialization to succeed");
    assert_eq!(transform, Transform::identity());
}

#[test]
fn test_deserialize_camera() {
    let lines = split_lines(&camera_text());
    let transform = deserialize_transform(&lines).expect("Expected serialization to succeed");
    assert_eq!(transform, camera_transform());
}

#[test]
fn test_deserialize_invalid_version() {
    let mut lines = split_lines(&identity_text());
    lines[0] = "v1".to_string();
    assert_eq!(
        deserialize_transform(&lines),
        Err(WhereWasIParseError {
            message: "Wrong version: v1".into()
        })
    );
}

#[test]
fn test_deserialize_invalid_file() {
    let lines = lines_of(&["v0", "", "translation:"]);
    assert_eq!(
        deserialize_transform(&lines),
        Err(WhereWasIParseError {
            message: "Expected line to be there, but it wasn't there".into()
        })
    );
}

#[test]
fn round_trip_restores_every_bit() {
    let original = Transform::new(
        Vec3Bits::new(
            4.0f32.to_bits(),
            3.5f32.to_bits(),
            (-2.0f32).to_bits(),
        ),
        QuatBits::new(
            (-0.1f32).to_bits(),
            0.7f32.to_bits(),
            0.4f32.to_bits(),
            0.6f32.to_bits(),
        ),
        Vec3Bits::new(
            12.6f32.to_bits(),
            (-1.0f32).to_bits(),
            2.4f32.to_bits(),
        ),
    );
    let text = serialize_transform(&original);
    let lines = split_lines(&text);
    let restored = deserialize_transform(&lines).expect("round trip must decode");
    assert_eq!(restored, original);
}

#[test]
fn round_trip_keeps_negative_zero() {
    let original = Transform::new(
        Vec3Bits::new((-0.0f32).to_bits(), 0.0f32.to_bits(), 0.0f32.to_bits()),
        QuatBits::new(0, 0, 0, 1.0f32.to_bits()),
        Vec3Bits::new(1.0f32.to_bits(), 1.0f32.to_bits(), 1.0f32.to_bits()),
    );
    let text = serialize_transform(&original);
    assert!(text.starts_with("v0\n\ntranslation:\n-0\n0\n0\n"));
    let restored = deserialize_transform(&split_lines(&text)).expect("round trip must decode");
    assert_eq!(restored, original);
}

#[test]
fn transform_to_lines_layout() {
    let lines = transform_to_lines(&Transform::identity());
    let expected = lines_of(&[
        "v0",
        "",
        "translation:",
        "0",
        "0",
        "0",
        "",
        "rotation:",
        "0",
        "0",
        "0",
        "1",
        "",
        "scale:",
        "1",
        "1",
        "1",
    ]);
    assert_eq!(lines, expected);
}

#[test]
fn labels_and_blanks_are_not_checked() {
    let lines = lines_of(&[
        "v0",
        "anything",
        "not a label",
        "0",
        "0",
        "0",
        "garbage",
        "still not a label",
        "0",
        "0",
        "0",
        "1",
        "###",
        "???",
        "1",
        "1",
        "1",
        "a trailing line",
        "and another",
    ]);
    let transform = deserialize_transform(&lines).expect("labels must not be validated");
    assert_eq!(transform, Transform::identity());
}

#[test]
fn version_gate_rejects_any_other_first_line() {
    let mut lines = split_lines(&identity_text());
    lines[0] = "V0".to_string();
    assert_eq!(
        deserialize_transform(&lines),
        Err(WhereWasIParseError {
            message: "Wrong version: V0".into()
        })
    );
}

#[test]
fn empty_input_is_a_missing_line() {
    let lines: Vec<String> = Vec::new();
    assert_eq!(
        deserialize_transform(&lines),
        Err(WhereWasIParseError {
            message: "Expected line to be there, but it wasn't there".into()
        })
    );
}

#[test]
fn sixteen_lines_are_one_too_few() {
    let mut lines = split_lines(&identity_text());
    assert_eq!(lines.len(), 17);
    lines.pop();
    assert_eq!(
        deserialize_transform(&lines),
        Err(WhereWasIParseError {
            message: "Expected line to be there, but it wasn't there".into()
        })
    );
}

#[test]
fn bad_numeric_line_reports_the_parser_message() {
    let mut lines = split_lines(&identity_text());
    lines[3] = "not a number".to_string();
    assert_eq!(
        deserialize_transform(&lines),
        Err(WhereWasIParseError {
            message: "invalid float literal".into()
        })
    );
}

#[test]
fn empty_numeric_line_reports_the_parser_message() {
    let mut lines = split_lines(&identity_text());
    lines[9] = "".to_string();
    assert_eq!(
        deserialize_transform(&lines),
        Err(WhereWasIParseError {
            message: "cannot parse float from empty string".into()
        })
    );
}

#[test]
fn first_failure_wins() {
    let mut lines = split_lines(&identity_text());
    lines[4] = "bad".to_string();
    lines[9] = "also bad".to_string();
    assert_eq!(
        deserialize_transform(&lines),
        Err(WhereWasIParseError {
            message: "invalid float literal".into()
        })
    );
}

#[test]
fn scientific_notation_is_accepted() {
    let mut lines = split_lines(&identity_text());
    lines[3] = "1.5e3".to_string();
    let transform = deserialize_transform(&lines).expect("scientific notation must parse");
    assert_eq!(transform.translation.x, 1500.0f32.to_bits());
}

#[test]
fn identity_bits_are_the_float_bits_of_zero_and_one() {
    let t = Transform::identity();
    assert_eq!(t.translation.x, 0.0f32.to_bits());
    assert_eq!(t.translation.y, 0.0f32.to_bits());
    assert_eq!(t.translation.z, 0.0f32.to_bits());
    assert_eq!(t.rotation.x, 0.0f32.to_bits());
    assert_eq!(t.rotation.w, 1.0f32.to_bits());
    assert_eq!(t.scale.x, 1.0f32.to_bits());
}

#[test]
fn expected_line_constructor_message() {
    assert_eq!(
        WhereWasIParseError::expected_line().message,
        "Expected line to be there, but it wasn't there"
    );
}
