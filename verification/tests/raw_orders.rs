use server::infrastructure::local_repositories::file_repository::{
    frame_raw_order, frame_raw_orders, parse_raw_orders,
};

#[test]
fn frame_raw_order_appends_delimiter() {
    assert_eq!(frame_raw_order("{\"a\":1}".to_string()), "{\"a\":1}\n#\n");
    assert_eq!(frame_raw_order(String::new()), "\n#\n");
}

#[test]
fn parse_empty_file_gives_none() {
    assert_eq!(parse_raw_orders(""), None);
}

#[test]
fn parse_only_delimiters_gives_none() {
    assert_eq!(parse_raw_orders("\n#\n\n#\n"), None);
}

#[test]
fn parse_text_without_delimiter_is_one_record() {
    assert_eq!(parse_raw_orders("abc"), Some(vec!["abc".to_string()]));
}

#[test]
fn parse_splits_at_each_delimiter_and_drops_empty_pieces() {
    assert_eq!(
        parse_raw_orders("a\n#\n\n#\nb\n#\nc"),
        Some(vec!["a".to_string(), "b".to_string(), "c".to_string()])
    );
}

#[test]
fn parse_takes_leftmost_delimiter() {
    // "x\n#\n#\n": the first delimiter starts right after "x".
    assert_eq!(
        parse_raw_orders("x\n#\n#\n"),
        Some(vec!["x".to_string(), "#\n".to_string()])
    );
}

#[test]
fn parse_keeps_non_ascii_text() {
    assert_eq!(
        parse_raw_orders("заказ\n#\nÜber\n#\n"),
        Some(vec!["заказ".to_string(), "Über".to_string()])
    );
}

#[test]
fn frame_then_parse_round_trips() {
    let records = vec![
        "{\n  \"order_uid\": \"b563feb7b2b84b6test\"\n}".to_string(),
        "{\n  \"order_uid\": \"second\"\n}".to_string(),
        "third #1".to_string(),
    ];
    let text = frame_raw_orders(&records);
    assert_eq!(parse_raw_orders(&text), Some(records));
}

#[test]
fn frame_raw_orders_concatenates_framed_records() {
    let records = vec!["a".to_string(), "b".to_string()];
    assert_eq!(frame_raw_orders(&records), "a\n#\nb\n#\n");
    assert_eq!(frame_raw_orders(&Vec::new()), "");
}

#[test]
fn appended_frames_read_back_in_write_order() {
    let mut file = String::new();
    for r in ["first", "second", "third"] {
        file.push_str(&frame_raw_order(r.to_string()));
    }
    assert_eq!(
        parse_raw_orders(&file),
        Some(vec!["first".to_string(), "second".to_string(), "third".to_string()])
    );
}
