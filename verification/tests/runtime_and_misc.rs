use jg_launcher::error::MessageError;
use jg_launcher::jvm_util::{version_report, VersionProperties};
use jg_launcher::launcher_helper::binary_class_name;
use jg_launcher::runtime_classes::parse_runtime_classes;
use jg_launcher::text::push_decimal;

fn record(name: &[u8], data: &[u8]) -> Vec<u8> {
    let mut v = (name.len() as u32).to_be_bytes().to_vec();
    v.extend_from_slice(name);
    v.extend_from_slice(&(data.len() as u32).to_be_bytes());
    v.extend_from_slice(data);
    v
}

#[test]
fn bundle_records_read_back() {
    let mut blob = record(b"a.b.C", b"\xca\xfe");
    blob.extend(record(b"D", b"xyz"));
    let r = parse_runtime_classes(&blob);
    assert!(!r.damaged);
    assert_eq!(r.classes.len(), 2);
    assert_eq!(r.classes[0].name, b"a/b/C".to_vec());
    assert_eq!(r.classes[0].data, b"\xca\xfe".to_vec());
    assert_eq!(r.classes[1].name, b"D".to_vec());
    assert_eq!(r.classes[1].data, b"xyz".to_vec());
}

#[test]
fn damaged_bundles_keep_the_good_records() {
    let mut blob = record(b"A", b"1");
    blob.extend(record(b"B", b""));
    let r = parse_runtime_classes(&blob);
    assert!(r.damaged);
    assert_eq!(r.classes.len(), 1);
    let mut short = record(b"A", b"12");
    short.truncate(short.len() - 1);
    let r = parse_runtime_classes(&short);
    assert!(r.damaged);
    assert!(r.classes.is_empty());
    assert!(parse_runtime_classes(&[0, 0, 0, 1]).damaged);
    let r = parse_runtime_classes(&[]);
    assert!(!r.damaged && r.classes.is_empty());
}

#[test]
fn binary_names_use_dots() {
    assert_eq!(binary_class_name("a/b/Main"), "a.b.Main");
    assert_eq!(binary_class_name("Main"), "Main");
}

#[test]
fn decimal_digits() {
    let mut s = String::from("pid=");
    push_decimal(&mut s, 0);
    push_decimal(&mut s, 1234567890123);
    assert_eq!(s, "pid=01234567890123");
}

#[test]
fn message_errors_keep_their_text() {
    assert_eq!(MessageError::new("launch failed").msg, "launch failed");
    assert_eq!(MessageError::new_with("x".to_string()).msg, "x");
}

fn props() -> VersionProperties {
    VersionProperties {
        version: Some("21.0.2".to_string()),
        version_date: Some("2024-01-16".to_string()),
        vm_specification_version: Some("21".to_string()),
        runtime_version: Some("21.0.2+13".to_string()),
        runtime_name: Some("OpenJDK Runtime Environment".to_string()),
        vm_name: Some("OpenJDK 64-Bit Server VM".to_string()),
        vm_version: Some("21.0.2+13".to_string()),
        vm_info: Some("mixed mode".to_string()),
    }
}

#[test]
fn version_report_lines() {
    let (text, err) = version_report(&props());
    assert!(err.is_none());
    assert_eq!(
        text,
        "java version: 21.0.2 2024-01-16 21\nOpenJDK Runtime Environment (build 21.0.2+13)\nOpenJDK 64-Bit Server VM (build 21.0.2+13, mixed mode)\n"
    );
    let mut p = props();
    p.version_date = None;
    p.runtime_version = None;
    assert_eq!(version_report(&p).0, "java version: 21.0.2\n");
}

#[test]
fn version_report_stops_at_missing_values() {
    let mut p = props();
    p.version = None;
    let (text, err) = version_report(&p);
    assert_eq!(text, "");
    assert_eq!(err.unwrap().msg, "version is null");
    let mut p = props();
    p.vm_version = None;
    let (text, err) = version_report(&p);
    assert!(text.ends_with("(build 21.0.2+13)\n"));
    assert_eq!(err.unwrap().msg, "vm version is null");
}
