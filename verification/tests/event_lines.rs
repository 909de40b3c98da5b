use discobot_supervisor::events::{format_event, render_events, trim_trailing, ChildEvent};

#[test]
fn ordering_of_three_events() {
    let events = vec![
        ChildEvent::Stdout("a".as_bytes().to_vec()),
        ChildEvent::Stderr("b".as_bytes().to_vec()),
        ChildEvent::Stdout("c".as_bytes().to_vec()),
    ];
    let lines = render_events(&events);
    assert_eq!(lines.len(), 3);
    assert_eq!(lines[0], "[stdout] a\n".as_bytes());
    assert_eq!(lines[1], "[stderr] b\n".as_bytes());
    assert_eq!(lines[2], "[stdout] c\n".as_bytes());
}

#[test]
fn unrecorded_events_leave_no_line() {
    let events = vec![
        ChildEvent::Other,
        ChildEvent::Stdout("x".as_bytes().to_vec()),
        ChildEvent::Other,
    ];
    let lines = render_events(&events);
    assert_eq!(lines, vec!["[stdout] x\n".as_bytes().to_vec()]);
    assert_eq!(format_event(&ChildEvent::Other), None);
}

#[test]
fn payload_line_endings_are_trimmed() {
    let line = format_event(&ChildEvent::Stdout("hello\r\n".as_bytes().to_vec())).unwrap();
    assert_eq!(line, "[stdout] hello\n".as_bytes());
    let line = format_event(&ChildEvent::Stderr("warn\n\n".as_bytes().to_vec())).unwrap();
    assert_eq!(line, "[stderr] warn\n".as_bytes());
    assert_eq!(
        trim_trailing(&"x\n\r\n".as_bytes().to_vec()),
        "x\n".as_bytes().to_vec()
    );
}

#[test]
fn invalid_utf8_is_replaced() {
    let line = format_event(&ChildEvent::Stdout(vec![b'o', b'k', 0xFF])).unwrap();
    let expected = format!("[stdout] ok{}\n", '\u{FFFD}');
    assert_eq!(line, expected.as_bytes());
}

#[test]
fn error_event_line() {
    let line = format_event(&ChildEvent::Error("boom".as_bytes().to_vec())).unwrap();
    assert_eq!(line, "[error] boom\n".as_bytes());
}

#[test]
fn terminated_event_lines() {
    let line = format_event(&ChildEvent::Terminated(Some(0), None)).unwrap();
    assert_eq!(line, "[terminated] code: Some(0), signal: None\n".as_bytes());
    let line = format_event(&ChildEvent::Terminated(None, Some(9))).unwrap();
    assert_eq!(line, "[terminated] code: None, signal: Some(9)\n".as_bytes());
    let line = format_event(&ChildEvent::Terminated(Some(-17), None)).unwrap();
    assert_eq!(line, "[terminated] code: Some(-17), signal: None\n".as_bytes());
}

#[test]
fn empty_payload_still_makes_a_line() {
    let line = format_event(&ChildEvent::Stdout(Vec::new())).unwrap();
    assert_eq!(line, "[stdout] \n".as_bytes());
}
