use dora_tool::text::{format_hex_id, same_opt_text};

#[test]
fn hex_ids_have_four_lower_case_digits() {
    assert_eq!(format_hex_id(0x0000), "0x0000");
    assert_eq!(format_hex_id(0x0001), "0x0001");
    assert_eq!(format_hex_id(0x000f), "0x000f");
    assert_eq!(format_hex_id(0x0010), "0x0010");
    assert_eq!(format_hex_id(0x0043), "0x0043");
    assert_eq!(format_hex_id(0x2341), "0x2341");
    assert_eq!(format_hex_id(0x3290), "0x3290");
    assert_eq!(format_hex_id(0xabcd), "0xabcd");
    assert_eq!(format_hex_id(0xffff), "0xffff");
}

#[test]
fn hex_ids_agree_with_the_standard_formatter() {
    let mut v: u32 = 0;
    while v <= 0xffff {
        assert_eq!(format_hex_id(v as u16), format!("0x{:04x}", v));
        v += 1;
    }
}

#[test]
fn optional_texts_compare_by_content() {
    let a = Some("ABC".to_string());
    let b = Some("ABC".to_string());
    let c = Some("ABD".to_string());
    assert!(same_opt_text(&a, &b));
    assert!(!same_opt_text(&a, &c));
    assert!(!same_opt_text(&a, &None));
    assert!(!same_opt_text(&None, &a));
    assert!(same_opt_text(&None, &None));
    assert!(same_opt_text(&Some(String::new()), &Some(String::new())));
    assert!(!same_opt_text(&Some(String::new()), &None));
}
