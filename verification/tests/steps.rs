use serde_typename::de::Kind;
use serde_typename::target::{names_of, resolve};
use serde_typename::text::same_name;
use serde_typename::{Deserializer, Direction, ErrorCode, Serializer, Variant};

#[test]
fn names_are_the_same_only_byte_for_byte() {
    assert!(same_name("Foo", "Foo"));
    assert!(same_name("", ""));
    assert!(!same_name("Foo", "foo"));
    assert!(!same_name("Foo", "Foo "));
    assert!(!same_name(" Foo", "Foo"));
    assert!(!same_name("Foo", "Fo"));
    assert!(!same_name("", "F"));
    assert!(same_name("naïve", "naïve"));
    assert!(!same_name("naïve", "naive"));
    // one letter, written as one character and as two
    assert!(!same_name("\u{e9}", "e\u{301}"));
}

#[test]
fn writer_gives_the_name_it_is_told() {
    let writer = Serializer::new();
    assert_eq!(writer.serialize_unit_struct("Unit").unwrap(), "Unit");
    assert_eq!(writer.serialize_unit_variant("Enum", 4, "Variant").unwrap(), "Variant");
    assert_eq!(writer.serialize_newtype_struct("Wrapper").unwrap(), "Wrapper");
    assert_eq!(writer.serialize_newtype_variant("Enum", 0, "Holds").unwrap(), "Holds");
}

#[test]
fn writer_lets_fields_go_by_and_then_gives_the_name() {
    let writer = Serializer::new();

    let mut tuple = writer.serialize_tuple_struct("Pair", 2).unwrap();
    assert!(tuple.serialize_field().is_ok());
    assert!(tuple.serialize_field().is_ok());
    assert_eq!(tuple.end().unwrap(), "Pair");

    let mut variant = writer.serialize_tuple_variant("Enum", 1, "Triple", 3).unwrap();
    for _ in 0..3 {
        assert!(variant.serialize_field().is_ok());
    }
    assert_eq!(variant.end().unwrap(), "Triple");

    let record = writer.serialize_struct("Record", 0).unwrap();
    assert_eq!(record.end().unwrap(), "Record");

    let mut entry = writer.serialize_struct_variant("Enum", 2, "Entry", 1).unwrap();
    assert!(entry.serialize_field().is_ok());
    assert_eq!(entry.end().unwrap(), "Entry");
}

#[test]
fn writer_does_not_count_the_fields() {
    let writer = Serializer::new();
    let mut tuple = writer.serialize_tuple_struct("Pair", 2).unwrap();
    for _ in 0..5 {
        assert!(tuple.serialize_field().is_ok());
    }
    assert_eq!(tuple.end().unwrap(), "Pair");
}

#[test]
fn identifier_is_the_whole_input() {
    let mut reader = Deserializer::new(" Foo bar ");
    assert_eq!(reader.remaining(), " Foo bar ");
    assert_eq!(reader.deserialize_identifier().unwrap(), " Foo bar ");
    assert_eq!(reader.remaining(), "");
    assert_eq!(reader.deserialize_identifier().unwrap(), "");
}

#[test]
fn unit_struct_is_read_from_its_name_only() {
    let mut reader = Deserializer::new("Foo");
    assert!(reader.deserialize_unit_struct("Foo").is_ok());
    assert_eq!(reader.remaining(), "");

    let mut other = Deserializer::new("Foo");
    let error = other.deserialize_unit_struct("Bar").unwrap_err();
    assert_eq!(other.remaining(), "Foo");
    assert_eq!(error.direction(), Direction::Deserialization);
    assert_eq!(
        error.code(),
        &ErrorCode::InvalidVariantName {
            received: "Foo".to_string(),
            allowed: vec!["Bar".to_string()],
        }
    );
}

#[test]
fn variant_content_is_never_there() {
    let mut reader = Deserializer::new("Holds");
    assert_eq!(reader.deserialize_identifier().unwrap(), "Holds");
    assert!(reader.variant_content(Kind::Unit).is_ok());
    let cases = [
        (Kind::Newtype, "newtype variant"),
        (Kind::Tuple, "tuple variant"),
        (Kind::Struct, "struct variant"),
    ];
    for (kind, expected) in cases {
        assert_eq!(kind.name(), expected);
        let error = reader.variant_content(kind).unwrap_err();
        assert_eq!(
            error.code(),
            &ErrorCode::InvalidType {
                unexpected: "unit variant".to_string(),
                expected: expected.to_string(),
            }
        );
    }
    assert_eq!(Kind::Unit.name(), "unit variant");
}

#[test]
fn finish_asks_for_all_input_to_be_read() {
    let fresh = Deserializer::new("abc");
    let error = fresh.finish(7u8).unwrap_err();
    assert_eq!(error.direction(), Direction::Deserialization);
    assert_eq!(error.code(), &ErrorCode::TrailingCharacters);
    assert_eq!(
        error.message(),
        "deserialization: trailing characters: input ends with trailing characters"
    );

    let blank = Deserializer::new(" ");
    assert_eq!(blank.finish(()).unwrap_err().code(), &ErrorCode::TrailingCharacters);

    let empty = Deserializer::new("");
    assert_eq!(empty.finish(7u8).unwrap(), 7);

    let mut read = Deserializer::new("abc");
    assert_eq!(read.deserialize_identifier().unwrap(), "abc");
    assert_eq!(read.finish("done").unwrap(), "done");
}

#[test]
fn resolve_finds_the_first_exact_match() {
    let variants = vec![
        Variant { name: "One", kind: Kind::Unit },
        Variant { name: "Two", kind: Kind::Tuple },
        Variant { name: "two", kind: Kind::Unit },
        Variant { name: "Two", kind: Kind::Unit },
    ];
    assert_eq!(resolve(&variants, "One"), Some(0));
    assert_eq!(resolve(&variants, "Two"), Some(1));
    assert_eq!(resolve(&variants, "two"), Some(2));
    assert_eq!(resolve(&variants, "TWO"), None);
    assert_eq!(resolve(&variants, "Tw"), None);
    assert_eq!(resolve(&variants, ""), None);
    assert_eq!(resolve(&Vec::new(), "One"), None);
    assert_eq!(names_of(&variants), vec!["One", "Two", "two", "Two"]);
    assert!(names_of(&Vec::new()).is_empty());
}
