use isucari::error::{CustomError, StatusCode};
use isucari::paging::{position, position_in_uri, Cursor, Position};

fn pairs(list: &[(&str, &str)]) -> Vec<(String, String)> {
    list.iter().map(|(n, v)| (n.to_string(), v.to_string())).collect()
}

fn error(message: &str) -> CustomError {
    CustomError::new(StatusCode::InternalServerError, message)
}

#[test]
fn position_from_a_url() {
    assert_eq!(
        position_in_uri("http://localhost/new_items/1.json?item_id=5&created_at=17"),
        Some(Ok(Position { item_id: 5, created_at: 17 }))
    );
    assert_eq!(
        position_in_uri("http://localhost/x?item%5Fid=%2B5&other=1&created_at=-17#item_id=9"),
        Some(Ok(Position { item_id: 5, created_at: -17 }))
    );
}

#[test]
fn last_value_in_a_url_counts() {
    assert_eq!(
        position_in_uri("http://h/?item_id=1&created_at=2&item_id=3"),
        Some(Ok(Position { item_id: 3, created_at: 2 }))
    );
    assert_eq!(
        position_in_uri("http://h/?item_id=1&created_at=2&item_id=x"),
        Some(Err(error("item_id param error")))
    );
}

#[test]
fn relative_reference_is_no_url() {
    assert_eq!(position_in_uri("/new_items/1.json?item_id=5&created_at=17"), None);
    assert_eq!(position_in_uri(""), None);
}

#[test]
fn missing_numbers_are_errors() {
    assert_eq!(position_in_uri("http://h/"), Some(Err(error("item_id param error"))));
    assert_eq!(
        position_in_uri("http://h/?item_id=1"),
        Some(Err(error("created_at param error")))
    );
    assert_eq!(
        position(&pairs(&[("created_at", "1")])),
        Err(error("item_id param error"))
    );
}

#[test]
fn numbers_as_they_are_read() {
    for (text, value) in [
        ("0", Some(0)),
        ("007", Some(7)),
        ("+5", Some(5)),
        ("-5", Some(-5)),
        ("-0", Some(0)),
        ("9223372036854775807", Some(i64::MAX)),
        ("-9223372036854775808", Some(i64::MIN)),
        ("9223372036854775808", None),
        ("-9223372036854775809", None),
        ("", None),
        ("+", None),
        ("-", None),
        ("+-5", None),
        ("--5", None),
        (" 5", None),
        ("5 ", None),
        ("1_000", None),
        ("0x10", None),
        ("\u{ff15}", None),
    ] {
        let read = position(&pairs(&[("item_id", text), ("created_at", "1")]));
        match value {
            Some(item_id) => assert_eq!(read, Ok(Position { item_id, created_at: 1 })),
            None => assert_eq!(read, Err(error("item_id param error"))),
        }
    }
}

#[test]
fn position_in_decimal_is_read_back() {
    let list = [("x", "1"), ("item_id", "49"), ("created_at", "1546300800")];
    assert_eq!(
        position(&pairs(&list)),
        Ok(Position { item_id: 49, created_at: 1_546_300_800 })
    );
}

#[test]
fn cursor_needs_both_numbers() {
    assert_eq!(Position { item_id: 0, created_at: 1 }.cursor(), Some(Cursor::FirstPage));
    assert_eq!(Position { item_id: 1, created_at: 0 }.cursor(), Some(Cursor::FirstPage));
    assert!(matches!(
        Position { item_id: 1, created_at: 1 }.cursor(),
        Some(Cursor::After(_, 1))
    ));
    assert_eq!(Position { item_id: 1, created_at: i64::MAX }.cursor(), None);
}
