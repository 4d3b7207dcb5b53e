use monlomon::state::App;
use monlomon::types::{MongoLog, Severity};

fn entry(msg: &str, s: Severity) -> MongoLog {
    MongoLog {
        attr: String::from("null"),
        c: String::from("CTRL"),
        ctx: String::from("main"),
        id: String::from("1"),
        msg: String::from(msg),
        s,
        t: String::from("2023-01-01T10:00:00.000Z"),
    }
}

fn app_with(entries: Vec<MongoLog>) -> App {
    let mut app = App::new();
    for e in entries {
        app.push(e);
    }
    app.filter_logs();
    app
}

#[test]
fn view_is_filtered_subsequence_in_order() {
    let mut app = app_with(vec![
        entry("one", Severity::Informational),
        entry("two", Severity::Error),
        entry("three", Severity::Informational),
        entry("four", Severity::Warning),
    ]);
    assert_eq!(app.view_logs.len(), 4);
    app.toggle_verbosity_informational();
    let msgs: Vec<&str> = app.view_logs.iter().map(|l| l.msg.as_str()).collect();
    assert_eq!(msgs, vec!["two", "four"]);
    assert_eq!(app.view_items.len(), 2);
    assert_eq!(app.view_items[0], vec!["0", "2023-01-01T10:00:00.000Z", "Error", "CTRL", "main", "two"]);
    assert_eq!(app.view_items[1], vec!["1", "2023-01-01T10:00:00.000Z", "Warning", "CTRL", "main", "four"]);
    assert_eq!(app.selected, Some(0));
    assert_eq!(app.selected_log.as_ref().map(|l| l.msg.as_str()), Some("two"));
}

#[test]
fn recompute_is_idempotent() {
    let mut app = app_with(vec![
        entry("one", Severity::Informational),
        entry("two", Severity::Error),
    ]);
    app.filter_logs();
    let view1: Vec<String> = app.view_logs.iter().map(|l| l.msg.clone()).collect();
    let items1 = app.view_items.clone();
    let selected1 = app.selected;
    app.filter_logs();
    let view2: Vec<String> = app.view_logs.iter().map(|l| l.msg.clone()).collect();
    assert_eq!(view1, view2);
    assert_eq!(items1, app.view_items);
    assert_eq!(selected1, app.selected);
}

#[test]
fn unknown_severity_is_hidden() {
    let app = app_with(vec![
        entry("odd", Severity::Other(String::from("Z"))),
        entry("plain", Severity::Informational),
    ]);
    let msgs: Vec<&str> = app.view_logs.iter().map(|l| l.msg.as_str()).collect();
    assert_eq!(msgs, vec!["plain"]);
}

#[test]
fn unknown_severity_matching_a_name_passes() {
    let mut app = app_with(vec![entry("coincidence", Severity::Other(String::from("Fatal")))]);
    assert_eq!(app.view_logs.len(), 1);
    app.toggle_verbosity_fatal();
    assert_eq!(app.view_logs.len(), 0);
    assert_eq!(app.selected, None);
}

#[test]
fn empty_store_recompute_changes_nothing() {
    let mut app = App::new();
    app.filter_logs();
    assert_eq!(app.view_logs.len(), 0);
    assert_eq!(app.view_items.len(), 0);
    assert_eq!(app.selected, None);
    assert!(app.selected_log.is_none());
}

#[test]
fn exclude_removes_every_matching_entry() {
    let mut app = app_with(vec![
        entry("connection refused", Severity::Error),
        entry("listening", Severity::Informational),
        entry("connection refused", Severity::Warning),
    ]);
    assert_eq!(app.view_logs.len(), 3);
    // Row 0 is the first "connection refused" entry.
    app.exclude_selected_msg();
    let msgs: Vec<&str> = app.view_logs.iter().map(|l| l.msg.as_str()).collect();
    assert_eq!(msgs, vec!["listening"]);
    assert_eq!(app.filtered_msgs, vec!["connection refused"]);
    app.reset_msg_filter();
    assert_eq!(app.view_logs.len(), 3);
    assert_eq!(app.filtered_msgs.len(), 0);
    assert_eq!(app.selected, Some(0));
}

#[test]
fn exclude_same_message_twice_is_a_noop() {
    let mut app = app_with(vec![
        entry("dup", Severity::Error),
        entry("dup", Severity::Error),
    ]);
    app.exclude_selected_msg();
    assert_eq!(app.filtered_msgs, vec!["dup"]);
    assert_eq!(app.view_logs.len(), 0);
    assert_eq!(app.selected, None);
    // Nothing is selected now, so a second exclude changes nothing.
    app.exclude_selected_msg();
    assert_eq!(app.filtered_msgs, vec!["dup"]);
    assert_eq!(app.view_logs.len(), 0);
}

#[test]
fn exclude_without_selection_is_a_noop() {
    let mut app = App::new();
    app.filter_logs();
    app.exclude_selected_msg();
    assert_eq!(app.filtered_msgs.len(), 0);
}

#[test]
fn reset_keeps_severity_toggles() {
    let mut app = app_with(vec![
        entry("one", Severity::Informational),
        entry("two", Severity::Error),
    ]);
    app.toggle_verbosity_informational();
    app.exclude_selected_msg();
    assert_eq!(app.view_logs.len(), 0);
    app.reset_msg_filter();
    let msgs: Vec<&str> = app.view_logs.iter().map(|l| l.msg.as_str()).collect();
    assert_eq!(msgs, vec!["two"]);
    assert!(!app.verbose_filters.informational);
    assert!(app.verbose_filters.error);
}

#[test]
fn end_to_end_four_lines() {
    let lines = [
        "{\"t\":{\"$date\":\"2023-01-01T10:00:00.000Z\"},\"s\":\"I\",\"c\":\"NETWORK\",\"id\":1,\"ctx\":\"conn1\",\"msg\":\"first\",\"attr\":{}}",
        "{\"t\":{\"$date\":\"2023-01-01T10:00:01.000Z\"},\"s\":\"I\",\"c\":\"NETWORK\",\"id\":2,\"ctx\":\"conn2\",\"msg\":\"second\",\"attr\":{}}",
        "{\"t\":{\"$date\":\"2023-01-01T10:00:02.000Z\"},\"s\":\"E\",\"c\":\"NETWORK\",\"id\":3,\"ctx\":\"conn3\",\"msg\":\"third\",\"attr\":{}}",
        "this line is not valid json",
    ];
    let mut app = App::new();
    for line in lines {
        if let Some(log) = monlomon::utils::decode_line(line) {
            app.push(log);
        }
    }
    app.filter_logs();
    assert_eq!(app.logs.len(), 3);
    assert_eq!(app.view_logs.len(), 3);
    app.toggle_verbosity_informational();
    assert_eq!(app.view_logs.len(), 1);
    assert_eq!(app.view_logs[0].s, Severity::Error);
    assert_eq!(app.view_logs[0].msg, "third");
    assert_eq!(app.selected, Some(0));
}

#[test]
fn end_to_end_exclude_and_reset_shared_message() {
    let mut app = app_with(vec![
        entry("connection refused", Severity::Error),
        entry("connection refused", Severity::Error),
        entry("other", Severity::Informational),
    ]);
    // Select the second of the two sharing the message, then exclude it.
    app.next();
    assert_eq!(app.selected, Some(1));
    app.exclude_selected_msg();
    let msgs: Vec<&str> = app.view_logs.iter().map(|l| l.msg.as_str()).collect();
    assert_eq!(msgs, vec!["other"]);
    app.reset_msg_filter();
    let msgs: Vec<&str> = app.view_logs.iter().map(|l| l.msg.as_str()).collect();
    assert_eq!(msgs, vec!["connection refused", "connection refused", "other"]);
}
