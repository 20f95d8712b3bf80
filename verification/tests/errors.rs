use serde_typename::error::{invalid_type_message, invalid_variant_message, unsupported_message};
use serde_typename::{Direction, Error, ErrorCode};

#[test]
fn directions_render_as_words() {
    assert_eq!(Direction::Serialization.as_str(), "serialization");
    assert_eq!(Direction::Deserialization.as_str(), "deserialization");
}

#[test]
fn constructors_set_the_direction() {
    let de = Error::deserialization(ErrorCode::TrailingCharacters);
    assert_eq!(de.direction(), Direction::Deserialization);
    assert_eq!(de.code(), &ErrorCode::TrailingCharacters);

    let ser = Error::serialization(ErrorCode::Message("no".to_string()));
    assert_eq!(ser.direction(), Direction::Serialization);
    assert_eq!(ser.code(), &ErrorCode::Message("no".to_string()));

    assert_ne!(
        Error::serialization(ErrorCode::TrailingCharacters),
        Error::deserialization(ErrorCode::TrailingCharacters)
    );
}

#[test]
fn custom_keeps_the_message() {
    let de = Error::custom(Direction::Deserialization, "value out of range");
    assert_eq!(de, Error::deserialization(ErrorCode::Message("value out of range".to_string())));
    assert_eq!(de.message(), "deserialization: value out of range");

    let ser = Error::custom(Direction::Serialization, "");
    assert_eq!(ser, Error::serialization(ErrorCode::Message(String::new())));
    assert_eq!(ser.message(), "serialization: ");
}

#[test]
fn unknown_variant_lists_what_was_expected() {
    let error = Error::unknown_variant("Baz", &["Foo", "Bar"]);
    assert_eq!(error.direction(), Direction::Deserialization);
    assert_eq!(
        error.code(),
        &ErrorCode::InvalidVariantName {
            received: "Baz".to_string(),
            allowed: vec!["Foo".to_string(), "Bar".to_string()],
        }
    );
    assert_eq!(
        error.message(),
        "deserialization: invalid variant: Baz is not a valid variant name ([\"Foo\", \"Bar\"])"
    );

    let none = Error::unknown_variant("Baz", &[]);
    assert_eq!(
        none.code(),
        &ErrorCode::InvalidVariantName { received: "Baz".to_string(), allowed: vec![] }
    );
}

#[test]
fn invalid_type_keeps_both_sides() {
    let error = Error::invalid_type("boolean `true`", "unit struct Foo");
    assert_eq!(error.direction(), Direction::Deserialization);
    assert_eq!(
        error.code(),
        &ErrorCode::InvalidType {
            unexpected: "boolean `true`".to_string(),
            expected: "unit struct Foo".to_string(),
        }
    );
    assert_eq!(
        error.message(),
        "deserialization: invalid type: boolean `true`, expected unit struct Foo"
    );
}

#[test]
fn codes_render_as_messages() {
    assert_eq!(ErrorCode::Message("plain".to_string()).message(), "plain");
    assert_eq!(
        ErrorCode::UnsupportedOperation("serialize_bool".to_string()).message(),
        "unsupported operation: serialize_bool"
    );
    assert_eq!(
        ErrorCode::InvalidType { unexpected: "a".to_string(), expected: "b".to_string() }.message(),
        "invalid type: a, expected b"
    );
    assert_eq!(
        ErrorCode::InvalidVariantName { received: "x".to_string(), allowed: vec!["A".to_string()] }
            .message(),
        "invalid variant: x is not a valid variant name ([\"A\"])"
    );
    assert_eq!(
        ErrorCode::TrailingCharacters.message(),
        "trailing characters: input ends with trailing characters"
    );
}

#[test]
fn allowed_names_are_quoted_and_escaped() {
    let code = ErrorCode::InvalidVariantName {
        received: "a\"b".to_string(),
        allowed: vec!["say \"hi\"".to_string(), "back\\slash".to_string(), "new\nline".to_string()],
    };
    assert_eq!(
        code.message(),
        "invalid variant: a\"b is not a valid variant name ([\"say \\\"hi\\\"\", \"back\\\\slash\", \"new\\nline\"])"
    );
}

#[test]
fn errors_render_direction_then_code() {
    assert_eq!(
        Error::deserialization(ErrorCode::TrailingCharacters).message(),
        "deserialization: trailing characters: input ends with trailing characters"
    );
    assert_eq!(
        Error::serialization(ErrorCode::UnsupportedOperation("serialize_map".to_string()))
            .message(),
        "serialization: unsupported operation: serialize_map"
    );
}

#[test]
fn message_parts_are_joined_as_given() {
    assert_eq!(unsupported_message(""), "unsupported operation: ");
    assert_eq!(unsupported_message("op"), "unsupported operation: op");
    assert_eq!(invalid_type_message("", ""), "invalid type: , expected ");
    assert_eq!(invalid_type_message("x", "y"), "invalid type: x, expected y");
    assert_eq!(invalid_variant_message("", ""), "invalid variant:  is not a valid variant name ()");
    assert_eq!(
        invalid_variant_message("Foo", "one, two"),
        "invalid variant: Foo is not a valid variant name (one, two)"
    );
}

#[test]
fn errors_can_be_cloned_and_compared() {
    let error = Error::unknown_variant("x", &["y"]);
    let copy = error.clone();
    assert_eq!(error, copy);
    assert_eq!(format!("{:?}", error), format!("{:?}", copy));
}
