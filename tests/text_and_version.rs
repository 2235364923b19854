use console_log_saver::processes::editor_project_path;
use console_log_saver::text::{
    contains, decimal_string, decode_utf16, hex8_string, same_text, signed_decimal_string, starts_with,
};
use console_log_saver::version::{parse_u32, update_status, Version};
use console_log_saver::UnityProcess;

#[test]
fn numbers_as_text() {
    assert_eq!(decimal_string(0), "0");
    assert_eq!(decimal_string(4294967295), "4294967295");
    assert_eq!(signed_decimal_string(-2147483648), "-2147483648");
    assert_eq!(signed_decimal_string(42), "42");
    assert_eq!(hex8_string(0xdeadbeef), "deadbeef");
    assert_eq!(hex8_string(0x1f), "0000001f");
}

#[test]
fn utf16_decoding() {
    assert_eq!(decode_utf16(&[0x48, 0x69]).unwrap(), "Hi");
    assert_eq!(decode_utf16(&[0xD83C, 0xDF0D]).unwrap(), "🌍");
    assert!(decode_utf16(&[0xDC00]).is_none());
    assert_eq!(decode_utf16(&[]).unwrap(), "");
}

#[test]
fn text_comparisons() {
    assert!(same_text("abc", "abc"));
    assert!(!same_text("abc", "abd"));
    assert!(starts_with("git+ssh:", "git+"));
    assert!(!starts_with("gi", "git+"));
    assert!(contains("a/b.git#v1", ".git"));
    assert!(!contains("a/b.gi", ".git"));
    assert!(contains("x", ""));
}

#[test]
fn versions_parse_and_order() {
    assert_eq!(Version::parse("1.2.3"), Some(Version::new(1, 2, 3, false)));
    assert_eq!(Version::parse("1.2.3-beta.1"), Some(Version::new(1, 2, 3, true)));
    assert_eq!(Version::parse("1.2.3-"), Some(Version::new(1, 2, 3, false)));
    assert_eq!(Version::parse("1.2"), None);
    assert_eq!(Version::parse("1.2.3.4"), None);
    assert_eq!(Version::parse("+1.2.3"), Some(Version::new(1, 2, 3, false)));
    assert_eq!(Version::parse("a.2.3"), None);
    assert_eq!(parse_u32("4294967295"), Some(u32::MAX));
    assert_eq!(parse_u32("4294967296"), None);
    assert_eq!(parse_u32(""), None);
    assert_eq!(parse_u32("+"), None);
    assert!(Version::new(1, 3, 0, false).is_newer_than(&Version::new(1, 2, 9, false)));
    assert!(!Version::new(1, 2, 3, false).is_newer_than(&Version::new(1, 2, 3, false)));
    assert!(Version::new(1, 2, 3, true).is_newer_than(&Version::new(1, 2, 3, false)));
}

#[test]
fn update_check_reads_the_first_line() {
    let current = Version::new(0, 1, 0, false);
    assert_eq!(update_status("  0.2.0 \nignored\n", &current), Some((true, Version::new(0, 2, 0, false))));
    assert_eq!(update_status("0.1.0", &current), Some((false, Version::new(0, 1, 0, false))));
    assert_eq!(update_status("not a version\n", &current), None);
}

#[test]
fn editor_command_lines() {
    let args = |a: &[&str]| a.iter().map(|s| s.to_string()).collect::<Vec<String>>();
    assert_eq!(
        editor_project_path(&args(&["Unity", "-projectPath", "/p/one", "-projectPath", "/p/two"])),
        Some("/p/one".to_string())
    );
    assert_eq!(editor_project_path(&args(&["Unity", "-projectPath", "/p", "-srvPort", "1"])), None);
    assert_eq!(editor_project_path(&args(&["Unity", "-projectPath"])), None);
    assert_eq!(editor_project_path(&args(&["Unity"])), None);
    let p = UnityProcess::new(12, "/p/one".to_string());
    assert_eq!(p.pid(), 12);
    assert_eq!(p.project_path(), "/p/one");
}

#[test]
fn versions_compare_with_operators() {
    let older: Version = "1.2.3".parse().unwrap();
    let newer: Version = "1.10.0".parse().unwrap();
    assert!(newer > older);
    assert!(older < newer);
    assert!(older <= Version::new(1, 2, 3, false));
    assert!("1.2.3-rc1".parse::<Version>().unwrap() > older);
    assert!("x".parse::<Version>().is_err());
}
