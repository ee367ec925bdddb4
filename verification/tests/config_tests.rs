use grubimage::config::{config_from_entries, read_config, Config, ConfigEntry, ConfigError, RawEntry};

fn entry(key: &str, shown: &str, value: RawEntry) -> ConfigEntry {
    ConfigEntry {
        key: key.to_string(),
        shown: shown.to_string(),
        value,
    }
}

fn string_array(items: &[&str]) -> RawEntry {
    RawEntry::Arr(items.iter().map(|s| Some(s.to_string())).collect())
}

fn assert_defaults(config: &Config) {
    assert_eq!(config.build_command, vec!["build".to_string()]);
    assert_eq!(
        config.run_command,
        vec![
            "qemu-system-i386".to_string(),
            "-cdrom".to_string(),
            "{}".to_string()
        ]
    );
    assert!(config.run_command.iter().any(|t| t.contains("{}")));
    assert!(config.run_args.is_none());
    assert!(config.test_args.is_none());
    assert_eq!(config.test_timeout, 300);
    assert!(config.test_success_exit_code.is_none());
    assert!(config.test_no_reboot);
}

#[test]
fn defaults_when_table_absent() {
    let manifest = "[package]\nname = \"kernel\"\nversion = \"0.1.0\"\n";
    let config = read_config(manifest).expect("a manifest without the table yields defaults");
    assert_defaults(&config);
}

#[test]
fn defaults_when_manifest_empty() {
    let config = read_config("").expect("an empty manifest yields defaults");
    assert_defaults(&config);
}

#[test]
fn defaults_from_missing_entries() {
    let config = config_from_entries(None).expect("no table yields defaults");
    assert_defaults(&config);
}

#[test]
fn defaults_from_empty_table() {
    let config = config_from_entries(Some(Vec::new())).expect("an empty table yields defaults");
    assert_defaults(&config);
}

#[test]
fn unparseable_manifest_is_rejected() {
    let result = read_config("this = = is not toml");
    assert_eq!(result.unwrap_err(), ConfigError::Parse);
}

#[test]
fn non_table_configuration_is_rejected() {
    let manifest = "[package.metadata]\ngrubimage = 5\n";
    match read_config(manifest) {
        Err(ConfigError::NotATable(shown)) => assert_eq!(shown, "5"),
        other => panic!("expected NotATable, got {:?}", other),
    }
}

#[test]
fn negative_timeout_is_rejected() {
    let manifest = "[package.metadata.grubimage]\ntest-timeout = -1\n";
    match read_config(manifest) {
        Err(ConfigError::NegativeTimeout(t)) => assert_eq!(t, -1),
        other => panic!("expected NegativeTimeout, got {:?}", other),
    }
}

#[test]
fn negative_timeout_entry_never_yields_a_config() {
    let entries = vec![entry("test-timeout", "-7", RawEntry::Int(-7))];
    match config_from_entries(Some(entries)) {
        Err(ConfigError::NegativeTimeout(t)) => assert_eq!(t, -7),
        other => panic!("expected NegativeTimeout, got {:?}", other),
    }
}

#[test]
fn unknown_key_is_rejected_naming_it() {
    let manifest = "[package.metadata.grubimage]\nbogus-key = 5\n";
    match read_config(manifest) {
        Err(ConfigError::UnknownKey(key, shown)) => {
            assert_eq!(key, "bogus-key");
            assert_eq!(shown, "5");
        }
        other => panic!("expected UnknownKey, got {:?}", other),
    }
}

#[test]
fn recognized_key_with_wrong_type_is_rejected() {
    let manifest = "[package.metadata.grubimage]\ntest-timeout = true\n";
    match read_config(manifest) {
        Err(ConfigError::UnknownKey(key, shown)) => {
            assert_eq!(key, "test-timeout");
            assert_eq!(shown, "true");
        }
        other => panic!("expected UnknownKey, got {:?}", other),
    }
}

#[test]
fn non_string_array_element_is_rejected() {
    let manifest = "[package.metadata.grubimage]\nbuild-command = [\"bld\", 3]\n";
    match read_config(manifest) {
        Err(ConfigError::NotAStringArray(prop)) => assert_eq!(prop, "build-command"),
        other => panic!("expected NotAStringArray, got {:?}", other),
    }
}

#[test]
fn full_table_is_parsed() {
    let manifest = "\
[package]
name = \"kernel\"
version = \"0.1.0\"

[package.metadata.grubimage]
build-command = [\"bld\"]
run-command = [\"qemu-system-x86_64\", \"-drive\", \"{}\"]
run-args = [\"-serial\", \"stdio\"]
test-args = [\"-display\", \"none\"]
test-timeout = 120
test-success-exit-code = 33
test-no-reboot = false
";
    let config = read_config(manifest).expect("a valid table parses");
    assert_eq!(config.build_command, vec!["bld".to_string()]);
    assert_eq!(
        config.run_command,
        vec![
            "qemu-system-x86_64".to_string(),
            "-drive".to_string(),
            "{}".to_string()
        ]
    );
    assert_eq!(
        config.run_args,
        Some(vec!["-serial".to_string(), "stdio".to_string()])
    );
    assert_eq!(
        config.test_args,
        Some(vec!["-display".to_string(), "none".to_string()])
    );
    assert_eq!(config.test_timeout, 120);
    assert_eq!(config.test_success_exit_code, Some(33));
    assert!(!config.test_no_reboot);
}

#[test]
fn first_offending_entry_decides_the_error() {
    let entries = vec![
        entry("bogus", "1", RawEntry::Int(1)),
        entry("test-timeout", "-5", RawEntry::Int(-5)),
    ];
    match config_from_entries(Some(entries)) {
        Err(ConfigError::UnknownKey(key, _)) => assert_eq!(key, "bogus"),
        other => panic!("expected UnknownKey, got {:?}", other),
    }
}

#[test]
fn later_entry_overrides_earlier_one() {
    let entries = vec![
        entry("build-command", "[\"a\"]", string_array(&["a"])),
        entry("build-command", "[\"b\"]", string_array(&["b"])),
    ];
    let config = config_from_entries(Some(entries)).expect("valid entries parse");
    assert_eq!(config.build_command, vec!["b".to_string()]);
}

#[test]
fn boolean_entry_is_applied() {
    let entries = vec![entry("test-no-reboot", "false", RawEntry::Bool(false))];
    let config = config_from_entries(Some(entries)).expect("valid entries parse");
    assert!(!config.test_no_reboot);
}

#[test]
fn other_valued_entry_is_rejected() {
    let entries = vec![entry("run-command", "3.5", RawEntry::Other)];
    match config_from_entries(Some(entries)) {
        Err(ConfigError::UnknownKey(key, shown)) => {
            assert_eq!(key, "run-command");
            assert_eq!(shown, "3.5");
        }
        other => panic!("expected UnknownKey, got {:?}", other),
    }
}

#[test]
fn error_messages_name_what_was_rejected() {
    assert_eq!(
        ConfigError::Parse.message(),
        "Failed to parse Cargo.toml"
    );
    assert_eq!(
        ConfigError::UnknownKey("foo".to_string(), "5".to_string()).message(),
        "unexpected `package.metadata.grubimage` key `foo` with value `5`"
    );
    assert_eq!(
        ConfigError::NegativeTimeout(-1).message(),
        "test-timeout must not be negative"
    );
    assert_eq!(
        ConfigError::NotAStringArray("run-args".to_string()).message(),
        "run-args must be a list of strings"
    );
    assert_eq!(
        ConfigError::NotATable("5".to_string()).message(),
        "grubimage configuration invalid: 5"
    );
}

#[test]
fn oversized_timeout_wraps_to_thirty_two_bits() {
    let entries = vec![entry(
        "test-timeout",
        "4294967301",
        RawEntry::Int((1i64 << 32) + 5),
    )];
    let config = config_from_entries(Some(entries)).expect("non-negative timeout parses");
    assert_eq!(config.test_timeout, 5);
}

#[test]
fn negative_success_exit_code_is_kept() {
    let entries = vec![entry(
        "test-success-exit-code",
        "-1",
        RawEntry::Int(-1),
    )];
    let config = config_from_entries(Some(entries)).expect("any integer exit code parses");
    assert_eq!(config.test_success_exit_code, Some(-1));
}

#[test]
fn oversized_exit_code_keeps_its_low_bits() {
    let entries = vec![entry(
        "test-success-exit-code",
        "2147483648",
        RawEntry::Int(1i64 << 31),
    )];
    let config = config_from_entries(Some(entries)).expect("any integer exit code parses");
    assert_eq!(config.test_success_exit_code, Some(i32::MIN));

    let entries = vec![entry(
        "test-success-exit-code",
        "-2147483649",
        RawEntry::Int(-(1i64 << 31) - 1),
    )];
    let config = config_from_entries(Some(entries)).expect("any integer exit code parses");
    assert_eq!(config.test_success_exit_code, Some(i32::MAX));
}
