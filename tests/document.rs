use console_log_saver::cls_file::{
    check_header_name, check_header_value, eq_ignore_ascii_case, ClsFileBuilder,
};
use console_log_saver::packages::{upm_dependency_value, vpm_dependency_value, LockedPackage, UpmDependencyType};
use console_log_saver::process_remote::ProcessRemoteError;
use console_log_saver::redact::{home_pattern, masked, PathPart, ReplaceSet};
use console_log_saver::saver::{render_log_document, DecodedLog, LogEntry};
use console_log_saver::transfer::{encode_transfer, Corruption, LogRecord, TransferData};
use console_log_saver::wire::ByteOrder;
use console_log_saver::{run_console_log_saver, ConsoleLogSaverConfig};

const SEP: &str = "================abc================";

fn head() -> String {
    format!("ConsoleLogSaverData/1.0\nSeparator: {SEP}\n")
}

#[test]
fn heading_then_empty_body() {
    let text = ClsFileBuilder::with_separator_id("abc").add_header("A", "b").begin_body().build();
    assert_eq!(text, format!("{}A: b\n\n{SEP}\n", head()));
}

#[test]
fn content_closes_a_section() {
    let text = ClsFileBuilder::with_separator_id("abc")
        .begin_body()
        .add_header("Mode", "1")
        .add_content("log-element", "msg")
        .build();
    assert_eq!(text, format!("{}\n{SEP}\nMode: 1\nContent: log-element\n\nmsg{SEP}\n", head()));
}

#[test]
fn open_section_is_closed_by_build() {
    let text = ClsFileBuilder::with_separator_id("abc").begin_body().add_header("Mode", "1").build();
    assert_eq!(text, format!("{}\n{SEP}\nMode: 1\n\n{SEP}\n", head()));
}

#[test]
fn random_separator_has_the_fence() {
    let text = ClsFileBuilder::new().begin_body().build();
    let second = text.lines().nth(1).unwrap();
    assert!(second.starts_with("Separator: ================"));
    assert_eq!(second.len(), "Separator: ".len() + 16 + 32 + 16);
    let id = &second["Separator: ".len() + 16..second.len() - 16];
    assert!(id.chars().all(|c| c.is_ascii_hexdigit() && !c.is_ascii_uppercase()));
}

#[test]
fn header_names_and_values() {
    assert!(check_header_name("Build-Target"));
    assert!(check_header_name("a!#$%&'*+-.^_`|~9"));
    assert!(!check_header_name(""));
    assert!(!check_header_name("bad name"));
    assert!(!check_header_name("naïve"));
    assert!(check_header_value("anything: goes"));
    assert!(!check_header_value("two\nlines"));
    assert!(!check_header_value("cr\r"));
    assert!(eq_ignore_ascii_case("SePaRaToR", "separator"));
    assert!(!eq_ignore_ascii_case("separators", "separator"));
}

#[test]
fn dependency_kinds() {
    let kind = UpmDependencyType::detect_from_version;
    assert_eq!(kind("1.2.3"), UpmDependencyType::NpmRemote);
    assert_eq!(kind("https://github.com/a/b.git"), UpmDependencyType::HttpsGit);
    assert_eq!(kind("git+https://example.com/x"), UpmDependencyType::HttpsGit);
    assert_eq!(kind("ssh://git@host/x.git"), UpmDependencyType::SshGit);
    assert_eq!(kind("git://host/x.git"), UpmDependencyType::GitGit);
    assert_eq!(kind("file:///home/me/repo.git"), UpmDependencyType::FileGit);
    assert_eq!(kind("file:../local"), UpmDependencyType::FileRelative);
    assert_eq!(kind("file:/abs/path"), UpmDependencyType::FileAbsolute);
    assert_eq!(kind("file:C:\\pkgs\\x"), UpmDependencyType::FileAbsolute);
}

fn config(hide_user_name: bool, hide_user_home: bool, hide_os_info: bool, hide_sig: bool) -> ConsoleLogSaverConfig {
    ConsoleLogSaverConfig {
        hide_user_name,
        hide_user_home,
        hide_os_info,
        hide_aws_upload_signature: hide_sig,
    }
}

#[test]
fn default_config_hides_name_home_and_signature() {
    let c = ConsoleLogSaverConfig::default();
    assert!(c.hide_user_name && c.hide_user_home && !c.hide_os_info && c.hide_aws_upload_signature);
}

#[test]
fn redaction_rules() {
    let home = vec![
        PathPart::Root,
        PathPart::Normal("home".to_string()),
        PathPart::Normal("alice".to_string()),
    ];
    assert_eq!(home_pattern(&home), "[/\\\\]home[/\\\\]alice");
    assert_eq!(masked("a=", "x", "!"), "a=${x}!");
    let set = ReplaceSet::new(&config(true, true, false, true), "Alice", &home);
    assert_eq!(
        set.replace_all("at /home/ALICE/p by alice"),
        "at ${user-home}/p by ${user-name}"
    );
    assert_eq!(
        set.replace_all("u?Signature=abc&AWSAccessKeyId=KEY x"),
        "u?Signature=${signature-param}&AWSAccessKeyId=${aws-access-key-id-param} x"
    );
    assert_eq!(
        set.replace_all("{\"assetUrl\": \"https://x/y\"}"),
        "{\"assetUrl\": \"${asset-url}\"}"
    );
    let keep = ReplaceSet::new(&config(false, false, false, false), "Alice", &home);
    assert_eq!(keep.replace_all("alice Signature=abc"), "alice Signature=abc");
}

#[test]
fn dependency_values() {
    let home = vec![PathPart::Root, PathPart::Normal("home".to_string()), PathPart::Normal("bob".to_string())];
    let set = ReplaceSet::new(&config(false, true, false, false), "bob", &home);
    assert_eq!(upm_dependency_value("com.a", "file:/home/bob/pkg", &set), "com.a@file:${user-home}/pkg");
    assert_eq!(upm_dependency_value("com.a", "file:../home/bob", &set), "com.a@file:../home/bob");
    assert_eq!(upm_dependency_value("com.b", "1.0.0", &set), "com.b@1.0.0");
    assert_eq!(vpm_dependency_value("com.vrc", "3.5.0"), "com.vrc@3.5.0");
}

#[test]
fn rendered_document() {
    let log = DecodedLog {
        unity_version: "2022.3.10f1".to_string(),
        os_description: "Linux".to_string(),
        build_target: "StandaloneLinux64".to_string(),
        current_directory: "/p".to_string(),
        entries: vec![
            LogEntry { message: "Hello".to_string(), mode: 0 },
            LogEntry { message: "World".to_string(), mode: -1 },
        ],
    };
    let set = ReplaceSet::new(&config(false, false, true, false), "", &vec![]);
    let upm = vec![
        LockedPackage { name: "com.a".to_string(), version: Some("1.0.0".to_string()) },
        LockedPackage { name: "com.none".to_string(), version: None },
    ];
    let vpm = vec![LockedPackage { name: "com.v".to_string(), version: Some("2.0.0".to_string()) }];
    let text = render_log_document(&log, &config(false, false, true, false), &set, &upm, &vpm, "abc");
    let expected = format!(
        "{}Vendor: ConsoleLogSaver/0.1.0 (CLS-LLDB-RS)\nUnity-Version: 2022.3.10f1\n\
         Hidden-Data: aws-access-key-id-param\nHidden-Data: asset-url\n\
         Build-Target: StandaloneLinux64\nUpm-Dependency: com.a@1.0.0\nVpm-Dependency: com.v@2.0.0\n\
         \n{SEP}\n\
         Mode: 0\nMode-Raw: 00000000\nContent: log-element\n\nHello{SEP}\n\
         Mode: -1\nMode-Raw: ffffffff\nContent: log-element\n\nWorld{SEP}\n",
        head()
    );
    assert_eq!(text, expected);
}

fn units(s: &str) -> Vec<u16> {
    s.encode_utf16().collect()
}

#[test]
fn saver_reports_corrupt_and_non_utf16_data() {
    let home = vec![PathPart::Root, PathPart::Normal("home".to_string()), PathPart::Normal("nobody".to_string())];
    let set = ReplaceSet::new(&ConsoleLogSaverConfig::default(), "nobody", &home);
    let r = run_console_log_saver(vec![1, 2, 3], ByteOrder::Little, &ConsoleLogSaverConfig::default(), &set, &vec![], &vec![]);
    assert!(matches!(r, Err(ProcessRemoteError::CorruptData { corruption: Corruption::Truncated })));

    let bad = TransferData {
        unity_version: vec![0xD800],
        os_description: vec![],
        build_target: vec![],
        current_directory: vec![],
        entries: vec![],
    };
    let region = encode_transfer(&bad, ByteOrder::Little);
    let r = run_console_log_saver(region[8..].to_vec(), ByteOrder::Little, &ConsoleLogSaverConfig::default(), &set, &vec![], &vec![]);
    assert!(matches!(r, Err(ProcessRemoteError::NonUtf8LogContents)));

    let good = TransferData {
        unity_version: units("6000.0.1f1"),
        os_description: units("macOS"),
        build_target: units("iOS"),
        current_directory: units("/p"),
        entries: vec![LogRecord { message: units("Hi"), mode: 16 }],
    };
    let region = encode_transfer(&good, ByteOrder::Little);
    let text = run_console_log_saver(region[8..].to_vec(), ByteOrder::Little, &ConsoleLogSaverConfig::default(), &set, &vec![], &vec![]).unwrap();
    assert!(text.starts_with("ConsoleLogSaverData/1.0\nSeparator: "));
    assert!(text.contains("Unity-Version: 6000.0.1f1\nEditor-Platform: macOS\n"));
    assert!(text.contains("Mode: 16\nMode-Raw: 00000010\nContent: log-element\n\nHi"));
}

#[test]
fn user_name_is_matched_literally() {
    let home = vec![PathPart::Root, PathPart::Normal("home".to_string()), PathPart::Normal("j.doe".to_string())];
    let set = ReplaceSet::new(&config(true, true, false, false), "j.doe", &home);
    assert_eq!(home_pattern(&home), "[/\\\\]home[/\\\\]j\\.doe");
    assert_eq!(set.replace_all("j.doe and jXdoe"), "${user-name} and jXdoe");
    assert_eq!(set.replace_all("/home/jXdoe/x"), "/home/jXdoe/x");
    assert_eq!(set.replace_all("C:\\home\\J.DOE\\x"), "C:${user-home}\\x");
}
