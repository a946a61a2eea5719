use dora_tool::api::{list_devices, save_rules, PersistOutcome};
use dora_tool::config::{load_rules, RuleFile};
use dora_tool::error::ApiError;
use dora_tool::models::{DeviceConfig, DeviceView, RawDevice};
use dora_tool::response::{ApiResponse, HTTP_INTERNAL_SERVER_ERROR, HTTP_OK};

fn rule(role: &str, vid: u16, pid: u16, serial: Option<&str>, port_path: &str) -> DeviceConfig {
    DeviceConfig {
        role: role.to_string(),
        vid,
        pid,
        serial: serial.map(|s| s.to_string()),
        port_path: port_path.to_string(),
    }
}

#[test]
fn list_devices_answers_with_the_views() {
    let raws = vec![
        RawDevice {
            vid: 0x2341,
            pid: 0x0043,
            serial: Some("ABC123".to_string()),
            port_path: "1-2".to_string(),
            system_path: "/dev/x".to_string(),
        },
        RawDevice {
            vid: 0x0001,
            pid: 0x0002,
            serial: None,
            port_path: "1-3".to_string(),
            system_path: "/dev/y".to_string(),
        },
    ];
    let rules = vec![rule("arduino", 0x2341, 0x0043, Some("ABC123"), "1-2")];
    let resp = list_devices(&raws, &rules).expect("listing never fails");
    assert_eq!(resp.code, 0);
    assert_eq!(resp.msg, "ok");
    assert_eq!(resp.http_status, 200);
    assert_eq!(
        resp.data,
        Some(vec![
            DeviceView {
                role: Some("arduino".to_string()),
                vid: "0x2341".to_string(),
                pid: "0x0043".to_string(),
                serial: Some("ABC123".to_string()),
                port_path: "1-2".to_string(),
                system_path: "/dev/x".to_string(),
            },
            DeviceView {
                role: None,
                vid: "0x0001".to_string(),
                pid: "0x0002".to_string(),
                serial: None,
                port_path: "1-3".to_string(),
                system_path: "/dev/y".to_string(),
            },
        ])
    );
}

#[test]
fn list_devices_of_empty_registry_is_an_empty_success() {
    let resp = list_devices(&[], &[rule("a", 1, 1, None, "p")]).expect("listing never fails");
    assert_eq!(resp, ApiResponse::success(Vec::<DeviceView>::new()));
}

#[test]
fn empty_submission_is_rejected() {
    let store = vec![rule("kept", 1, 1, None, "p")];
    match save_rules(Vec::new()) {
        Err(e) => {
            assert_eq!(e, ApiError::InvalidParam);
            assert_eq!(e.code(), 1002);
            assert_eq!(e.status(), 400);
        }
        Ok(_) => panic!("an empty rule set was accepted"),
    }
    assert_eq!(store, vec![rule("kept", 1, 1, None, "p")]);
}

#[test]
fn accepted_submission_holds_the_submitted_rules() {
    let submitted = vec![rule("a", 1, 1, None, "p"), rule("b", 2, 2, Some("S"), "q")];
    let pending = save_rules(submitted.clone()).expect("a rule set with rules is accepted");
    assert_eq!(pending.rules(), &submitted);
}

#[test]
fn written_rules_replace_the_rules_in_memory() {
    let mut store = vec![rule("old", 9, 9, None, "z")];
    let submitted = vec![rule("a", 1, 1, None, "p"), rule("b", 2, 2, Some("S"), "q")];
    let pending = save_rules(submitted.clone()).expect("accepted");
    let answer = pending.finish(&mut store, PersistOutcome::Written);
    assert_eq!(answer, Ok(ApiResponse::ok()));
    let resp = answer.unwrap();
    assert_eq!(resp.code, 0);
    assert_eq!(resp.msg, "ok");
    assert_eq!(resp.data, None);
    assert_eq!(resp.http_status, HTTP_OK);
    assert_eq!(store, submitted);
}

#[test]
fn failed_write_keeps_the_rules_in_memory() {
    let before = vec![rule("old", 9, 9, None, "z")];
    let mut store = before.clone();
    let pending = save_rules(vec![rule("a", 1, 1, None, "p")]).expect("accepted");
    let answer = pending.finish(&mut store, PersistOutcome::NotWritten("disk full".to_string()));
    let resp = answer.expect("a failed write is answered with an envelope");
    assert_eq!(resp.code, 500);
    assert_eq!(resp.msg, "写入失败: disk full");
    assert_eq!(resp.msg, format!("写入失败: {}", "disk full"));
    assert_eq!(resp.data, None);
    assert_eq!(resp.http_status, HTTP_INTERNAL_SERVER_ERROR);
    assert_eq!(store, before);
}

#[test]
fn failed_write_without_reason_is_reported_with_the_prefix_alone() {
    let mut store = Vec::new();
    let pending = save_rules(vec![rule("a", 1, 1, None, "p")]).expect("accepted");
    let resp = pending.finish(&mut store, PersistOutcome::NotWritten(String::new())).unwrap();
    assert_eq!(resp.msg, "写入失败: ");
    assert!(store.is_empty());
}

#[test]
fn unserializable_rules_are_an_unknown_error() {
    let before = vec![rule("old", 9, 9, None, "z")];
    let mut store = before.clone();
    let pending = save_rules(vec![rule("a", 1, 1, None, "p")]).expect("accepted");
    let answer = pending.finish(&mut store, PersistOutcome::NotSerialized);
    assert_eq!(answer, Err(ApiError::Unknown));
    assert_eq!(store, before);
}

#[test]
fn saved_rules_load_again_unchanged() {
    let submitted = vec![
        rule("arduino", 0x2341, 0x0043, Some("ABC123"), "1-2"),
        rule("cam", 0x046d, 0x0825, None, "1-1"),
    ];
    let mut store = Vec::new();
    let pending = save_rules(submitted.clone()).expect("accepted");
    let written = pending.rules().clone();
    assert_eq!(pending.finish(&mut store, PersistOutcome::Written), Ok(ApiResponse::ok()));

    let file = RuleFile::Read { content: "[{}, {}]".to_string(), parsed: Some(written) };
    assert_eq!(load_rules(file), Ok(submitted.clone()));
    assert_eq!(store, submitted);
}
