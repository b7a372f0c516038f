use markdown::error::Error;
use markdown::message::{Message, Place};
use markdown::unist::{Point, Position};

#[test]
fn place_point_to_string() {
    let place = Place::Point(Point::new(3, 7, 20));
    assert_eq!(place.to_string(), "3:7");
}

#[test]
fn place_position_to_string() {
    let place = Place::Position(Position::new(1, 2, 1, 12, 3, 11));
    assert_eq!(place.to_string(), "1:2-12:3");
}

#[test]
fn message_with_place_to_string() {
    let message = Message {
        place: Some(Box::new(Place::Point(Point::new(1, 1, 0)))),
        reason: "Unexpected end of file".into(),
        rule_id: Box::new("unexpected-eof".into()),
        source: Box::new("markdown".into()),
    };
    assert_eq!(
        message.to_string(),
        "1:1: Unexpected end of file (markdown:unexpected-eof)"
    );
}

#[test]
fn message_without_place_to_string() {
    let message = Message {
        place: None,
        reason: "a".into(),
        rule_id: Box::new("b".into()),
        source: Box::new("c".into()),
    };
    assert_eq!(message.to_string(), "a (c:b)");
}

#[test]
fn error_parser_to_string() {
    assert_eq!(
        Error::Parser("x".into()).to_string(),
        "Parser error: x"
    );
}

#[test]
fn error_compiler_to_string() {
    assert_eq!(
        Error::Compiler("y".into()).to_string(),
        "Compiler error: y"
    );
}

#[test]
fn error_serialization_to_string() {
    let error = serde_json::from_str::<u8>("x").unwrap_err();
    let expected = format!("Serialization error: {}", error);
    assert_eq!(Error::Serialization(error).to_string(), expected);
    assert!(expected.starts_with("Serialization error: expected value"));
}
