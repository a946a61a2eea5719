use dora_tool::config::{blank, load_rules, LoadError, RuleFile};
use dora_tool::models::DeviceConfig;

fn rule(role: &str, vid: u16, pid: u16, serial: Option<&str>, port_path: &str) -> DeviceConfig {
    DeviceConfig {
        role: role.to_string(),
        vid,
        pid,
        serial: serial.map(|s| s.to_string()),
        port_path: port_path.to_string(),
    }
}

#[test]
fn missing_file_is_an_empty_rule_list() {
    assert_eq!(load_rules(RuleFile::Missing), Ok(Vec::new()));
}

#[test]
fn empty_file_is_an_empty_rule_list() {
    let file = RuleFile::Read { content: String::new(), parsed: None };
    assert_eq!(load_rules(file), Ok(Vec::new()));
}

#[test]
fn blank_file_is_an_empty_rule_list() {
    let file = RuleFile::Read { content: " \n\t \r\n".to_string(), parsed: None };
    assert_eq!(load_rules(file), Ok(Vec::new()));
    let odd = RuleFile::Read {
        content: "  ".to_string(),
        parsed: Some(vec![rule("a", 1, 1, None, "p")]),
    };
    assert_eq!(load_rules(odd), Ok(Vec::new()));
}

#[test]
fn decoded_file_gives_its_rules() {
    let rules = vec![rule("a", 1, 1, None, "p"), rule("b", 2, 2, Some("S"), "q")];
    let file = RuleFile::Read { content: "[ ... ]".to_string(), parsed: Some(rules.clone()) };
    assert_eq!(load_rules(file), Ok(rules));
    let none = RuleFile::Read { content: "[]".to_string(), parsed: Some(Vec::new()) };
    assert_eq!(load_rules(none), Ok(Vec::new()));
}

#[test]
fn rejected_file_is_malformed() {
    let file = RuleFile::Read { content: "{ not an array".to_string(), parsed: None };
    assert_eq!(load_rules(file), Err(LoadError::Malformed));
    let padded = RuleFile::Read { content: "  x  ".to_string(), parsed: None };
    assert_eq!(load_rules(padded), Err(LoadError::Malformed));
}

#[test]
fn unreadable_file_is_an_error() {
    assert_eq!(load_rules(RuleFile::Unreadable), Err(LoadError::Unreadable));
}

#[test]
fn blank_means_nothing_but_white_space() {
    assert!(blank(""));
    assert!(blank(" "));
    assert!(blank("\n"));
    assert!(blank("\t\r\n \u{000b}\u{000c}"));
    assert!(blank("\u{0085}\u{00a0}\u{1680}\u{2000}\u{200a}\u{2028}\u{2029}\u{202f}\u{205f}\u{3000}"));
    assert!(!blank("a"));
    assert!(!blank("  a"));
    assert!(!blank("a  "));
    assert!(!blank(" \n[]\n "));
    assert!(!blank("\u{200b}"));
    assert!(!blank("\u{feff}"));
    assert!(!blank("0"));
}

#[test]
fn blank_agrees_with_trimming() {
    let samples = ["", " ", "x", " x", "x ", "\n\n", "\t[\t", "\u{3000}", "\u{3000}一", "[]"];
    for s in samples {
        assert_eq!(blank(s), s.trim().is_empty());
    }
}
