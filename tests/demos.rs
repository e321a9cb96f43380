use insecure_patterns::{
    command_text, config_message, credential_message, guarded_number, insecure_deserialize_demo,
    launch_report, parse_payload, raw_pointer_demo, raw_round_trip, resolve_config, OwnedInt, PayloadError,
    SlotHeap, DB_PASSWORD, DEFAULT_CONFIG, INITIAL_VALUE, UPDATED_VALUE,
};

#[test]
fn credential_message_shows_the_secret() {
    let msg = credential_message();
    assert!(msg.contains("S3cr3tPassw0rd!!"));
    assert_eq!(msg, "Connecting to DB with password: S3cr3tPassw0rd!!");
    assert_eq!(DB_PASSWORD, "S3cr3tPassw0rd!!");
}

#[test]
fn command_text_appends_input_unchanged() {
    assert_eq!(command_text(" -la / "), "ls  -la / ");
}

#[test]
fn command_text_passes_metacharacters_through() {
    assert_eq!(command_text("; rm -rf /"), "ls ; rm -rf /");
    assert_eq!(command_text("$(whoami) | cat `id` && echo 'x' > \"y\""),
        "ls $(whoami) | cat `id` && echo 'x' > \"y\"");
}

#[test]
fn command_text_of_empty_input_is_the_prefix() {
    assert_eq!(command_text(""), "ls ");
}

#[test]
fn launch_report_after_run() {
    assert_eq!(launch_report(Ok("exit status: 0")), "Command ran, status: exit status: 0");
}

#[test]
fn launch_report_after_failure() {
    assert_eq!(
        launch_report(Err("No such file or directory (os error 2)")),
        "Failed to run command: No such file or directory (os error 2)"
    );
}

#[test]
fn config_falls_back_to_default() {
    assert_eq!(resolve_config(None), "default-config");
    assert_eq!(DEFAULT_CONFIG, "default-config");
}

#[test]
fn config_takes_the_set_value() {
    assert_eq!(resolve_config(Some("x".to_string())), "x");
    assert_eq!(resolve_config(Some(String::new())), "");
}

#[test]
fn config_message_line() {
    assert_eq!(config_message("default-config"), "Loaded config: default-config");
}

#[test]
fn guarded_number_absent_stays_absent() {
    assert_eq!(guarded_number(None), None);
}

#[test]
fn guarded_number_present_is_read() {
    assert_eq!(guarded_number(Some(-7)), Some(-7));
    assert_eq!(guarded_number(Some(i32::MAX)), Some(i32::MAX));
}

#[test]
fn payload_is_taken_without_validation() {
    let m = parse_payload(r#"{"is_admin": "true", "name": "attacker"}"#).unwrap();
    assert_eq!(m.len(), 2);
    assert_eq!(m.get("is_admin").map(|v| v.as_str()), Some("true"));
    assert_eq!(m.get("name").map(|v| v.as_str()), Some("attacker"));
}

#[test]
fn payload_empty_object_is_empty_map() {
    let m = parse_payload("{}").unwrap();
    assert!(m.is_empty());
}

#[test]
fn payload_bare_string_is_malformed() {
    assert_eq!(parse_payload(r#""is_admin""#).err(), Some(PayloadError::Malformed));
}

#[test]
fn payload_mismatched_value_type_is_malformed() {
    assert_eq!(
        parse_payload(r#"{"is_admin": true, "name": "attacker"}"#).err(),
        Some(PayloadError::Malformed)
    );
}

#[test]
fn payload_truncated_text_is_malformed() {
    assert_eq!(parse_payload(r#"{"name": "attacker""#).err(), Some(PayloadError::Malformed));
    assert_eq!(parse_payload("").err(), Some(PayloadError::Malformed));
}

#[test]
fn raw_pointer_demo_yields_written_value() {
    assert_eq!(INITIAL_VALUE, 100);
    assert_eq!(UPDATED_VALUE, 200);
    assert_eq!(raw_pointer_demo(), 200);
}

#[test]
fn raw_round_trip_on_a_used_heap() {
    let mut heap = SlotHeap::new();
    let kept = heap.into_raw(OwnedInt::new(5));
    assert_eq!(raw_round_trip(&mut heap, 100, 200), 200);
    assert_eq!(heap.from_raw(kept).get(), 5);
}

#[test]
fn write_then_reconstruct_reads_new_value() {
    let mut heap = SlotHeap::new();
    let a = heap.into_raw(OwnedInt::new(100));
    heap.write(a, 200);
    let h = heap.from_raw(a);
    assert_eq!(h.get(), 200);
}

#[test]
fn deserialize_demo_returns_the_map_as_parsed() {
    let m = insecure_deserialize_demo(r#"{"is_admin": "true", "name": "attacker"}"#);
    assert_eq!(m.len(), 2);
    assert_eq!(m.get("is_admin").map(|v| v.as_str()), Some("true"));
    assert_eq!(m.get("name").map(|v| v.as_str()), Some("attacker"));
}

#[test]
fn deserialize_demo_keeps_the_last_of_equal_keys() {
    let m = insecure_deserialize_demo(r#" {"role": "user", "role": "admin"} "#);
    assert_eq!(m.len(), 1);
    assert_eq!(m.get("role").map(|v| v.as_str()), Some("admin"));
}
