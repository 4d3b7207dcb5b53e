use monlomon::types::{MongoLog, RawLog, Severity};
use monlomon::utils::{clean_string, decode_line, make_object_from_untyped_object,
    usize_to_string, verbose_level_from_abbrv};

#[test]
fn abbreviation_table() {
    assert_eq!(verbose_level_from_abbrv(String::from("F")), "Fatal");
    assert_eq!(verbose_level_from_abbrv(String::from("E")), "Error");
    assert_eq!(verbose_level_from_abbrv(String::from("W")), "Warning");
    assert_eq!(verbose_level_from_abbrv(String::from("I")), "Informational");
}

#[test]
fn abbreviation_passthrough() {
    assert_eq!(verbose_level_from_abbrv(String::from("X")), "X");
    assert_eq!(verbose_level_from_abbrv(String::from("Debug")), "Debug");
    assert_eq!(verbose_level_from_abbrv(String::from("")), "");
    assert_eq!(verbose_level_from_abbrv(String::from("f")), "f");
}

#[test]
fn severity_from_abbreviation() {
    assert_eq!(Severity::from_abbrv(String::from("F")), Severity::Fatal);
    assert_eq!(Severity::from_abbrv(String::from("E")), Severity::Error);
    assert_eq!(Severity::from_abbrv(String::from("W")), Severity::Warning);
    assert_eq!(Severity::from_abbrv(String::from("I")), Severity::Informational);
    assert_eq!(
        Severity::from_abbrv(String::from("Fatal")),
        Severity::Other(String::from("Fatal"))
    );
    assert_eq!(Severity::from_abbrv(String::from("Z")), Severity::Other(String::from("Z")));
}

#[test]
fn severity_label_text() {
    assert_eq!(Severity::Informational.label(), "Informational");
    assert_eq!(Severity::Warning.label(), "Warning");
    assert_eq!(Severity::Error.label(), "Error");
    assert_eq!(Severity::Fatal.label(), "Fatal");
    assert_eq!(Severity::Other(String::from("Z")).label(), "Z");
}

#[test]
fn clean_string_strips_quotes() {
    assert_eq!(clean_string(String::from("\"hello\"")), "hello");
    assert_eq!(clean_string(String::from("a\"b\"c")), "abc");
    assert_eq!(clean_string(String::from("plain")), "plain");
    assert_eq!(clean_string(String::from("")), "");
    assert_eq!(clean_string(String::from("\"\"")), "");
}

#[test]
fn decimal_rendering() {
    assert_eq!(usize_to_string(0), "0");
    assert_eq!(usize_to_string(7), "7");
    assert_eq!(usize_to_string(10), "10");
    assert_eq!(usize_to_string(123), "123");
    assert_eq!(usize_to_string(90210), "90210");
}

#[test]
fn raw_record_decoding() {
    let raw = RawLog {
        attr: String::from("{\"port\":27017}"),
        c: String::from("\"NETWORK\""),
        ctx: String::from("\"listener\""),
        id: String::from("23016"),
        msg: String::from("\"Waiting for connections\""),
        s: String::from("\"I\""),
        t: String::from("\"2023-01-01T10:00:00.000Z\""),
    };
    let log: MongoLog = make_object_from_untyped_object(raw);
    assert_eq!(log.attr, "{\"port\":27017}");
    assert_eq!(log.c, "NETWORK");
    assert_eq!(log.ctx, "listener");
    assert_eq!(log.id, "23016");
    assert_eq!(log.msg, "Waiting for connections");
    assert_eq!(log.s, Severity::Informational);
    assert_eq!(log.t, "2023-01-01T10:00:00.000Z");
}

#[test]
fn decode_line_well_formed() {
    let line = "{\"t\":{\"$date\":\"2023-01-01T10:00:00.000Z\"},\"s\":\"E\",\"c\":\"NETWORK\",\"id\":22944,\"ctx\":\"conn1\",\"msg\":\"connection refused\",\"attr\":{\"remote\":\"127.0.0.1\"}}";
    let log = decode_line(line).expect("a well-formed line decodes");
    assert_eq!(log.t, "2023-01-01T10:00:00.000Z");
    assert_eq!(log.s, Severity::Error);
    assert_eq!(log.c, "NETWORK");
    assert_eq!(log.id, "22944");
    assert_eq!(log.ctx, "conn1");
    assert_eq!(log.msg, "connection refused");
    assert_eq!(log.attr, "{\"remote\":\"127.0.0.1\"}");
}

#[test]
fn decode_line_malformed() {
    assert!(decode_line("not json at all").is_none());
    assert!(decode_line("{\"s\":\"I\"").is_none());
    assert!(decode_line("").is_none());
}

#[test]
fn decode_line_missing_fields() {
    let log = decode_line("{}").expect("an empty object still decodes");
    assert_eq!(log.s, Severity::Other(String::from("null")));
    assert_eq!(log.msg, "null");
    assert_eq!(log.t, "null");
    assert_eq!(log.attr, "null");
}
