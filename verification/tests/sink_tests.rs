use twitch::sink::AppendOutcome;
use twitch::sink::RenderSink;

#[test]
fn append_without_target_is_a_noop() {
    let mut sink = RenderSink::without_target();
    let r = sink.append("hello".to_string());
    assert_eq!(r, AppendOutcome::NoTarget);
    assert!(!sink.has_target());
    assert_eq!(sink.line_count(), 0);
}

#[test]
fn append_keeps_order() {
    let mut sink = RenderSink::new();
    assert_eq!(sink.append("first".to_string()), AppendOutcome::Appended);
    assert_eq!(sink.append("second".to_string()), AppendOutcome::Appended);
    assert_eq!(sink.line_count(), 2);
    assert_eq!(sink.line_at(0), "first");
    assert_eq!(sink.line_at(1), "second");
}

#[test]
fn trim_fires_only_past_high_water() {
    let mut sink = RenderSink::new();
    for i in 0..=200 {
        sink.append(format!("line{}", i));
    }
    // 201 lines: the latest append found exactly 200 and did not trim.
    assert_eq!(sink.line_count(), 201);
    assert_eq!(sink.line_at(0), "line0");

    // One more append finds 201 lines, appends, and trims indices 0..180.
    sink.append("line201".to_string());
    assert_eq!(sink.line_count(), 22);
    for k in 0..22 {
        assert_eq!(sink.line_at(k), &format!("line{}", 180 + k));
    }
    assert_eq!(sink.line_at(21), "line201");
}

#[test]
fn teardown_then_anything_is_a_noop() {
    let mut sink = RenderSink::new();
    sink.append("hello".to_string());
    assert!(sink.teardown());
    assert!(!sink.has_target());

    assert!(!sink.teardown());
    assert_eq!(sink.append("late".to_string()), AppendOutcome::NoTarget);
    assert!(!sink.teardown());
    assert!(!sink.has_target());
    assert_eq!(sink.line_count(), 0);
}
