use grubimage::artifacts::{
    artifacts_from_output, build_command_line, build_kernel_outcome, collect_artifacts,
    split_lines, ArtifactRecord, BuildError,
};
use grubimage::config::config_from_entries;

#[test]
fn collect_keeps_executables_in_order() {
    let records = vec![
        ArtifactRecord::Executable("/target/debug/a".to_string()),
        ArtifactRecord::NoExecutable,
        ArtifactRecord::Executable("/target/debug/b".to_string()),
        ArtifactRecord::NoExecutable,
    ];
    let artifacts = collect_artifacts(records).expect("valid records collect");
    assert_eq!(
        artifacts,
        vec!["/target/debug/a".to_string(), "/target/debug/b".to_string()]
    );
}

#[test]
fn collect_of_no_executables_is_empty_not_an_error() {
    let records = vec![ArtifactRecord::NoExecutable, ArtifactRecord::NoExecutable];
    let artifacts = collect_artifacts(records).expect("records without executables collect");
    assert!(artifacts.is_empty());
}

#[test]
fn collect_fails_on_the_first_invalid_record() {
    let records = vec![
        ArtifactRecord::Executable("/a".to_string()),
        ArtifactRecord::Invalid("first".to_string()),
        ArtifactRecord::Invalid("second".to_string()),
    ];
    match collect_artifacts(records) {
        Err(BuildError::InvalidRecord { message }) => assert_eq!(message, "first"),
        other => panic!("expected InvalidRecord, got {:?}", other),
    }
}

#[test]
fn structured_output_yields_executables_in_order() {
    let stdout = b"{\"reason\":\"compiler-artifact\"}\n\
{\"executable\":\"/target/debug/kernel\"}\n\
{\"reason\":\"build-finished\"}\n\
{\"executable\":\"/target/debug/other\"}\n"
        .to_vec();
    let artifacts = artifacts_from_output(stdout).expect("valid output parses");
    assert_eq!(
        artifacts,
        vec![
            "/target/debug/kernel".to_string(),
            "/target/debug/other".to_string()
        ]
    );
}

#[test]
fn crlf_and_empty_lines_are_handled() {
    let stdout = b"{\"executable\":\"/x\"}\r\n\r\n{\"done\":true}\r\n".to_vec();
    let artifacts = artifacts_from_output(stdout).expect("valid output parses");
    assert_eq!(artifacts, vec!["/x".to_string()]);
}

#[test]
fn invalid_utf8_output_is_rejected() {
    let stdout = vec![0xff, 0xfe, 0x0a];
    assert_eq!(
        artifacts_from_output(stdout),
        Err(BuildError::InvalidUtf8)
    );
}

#[test]
fn malformed_record_is_rejected() {
    let stdout = b"{\"executable\":\"/a\"}\nnot json at all\n".to_vec();
    match artifacts_from_output(stdout) {
        Err(BuildError::InvalidRecord { message }) => assert!(!message.is_empty()),
        other => panic!("expected InvalidRecord, got {:?}", other),
    }
}

#[test]
fn split_lines_matches_line_endings() {
    let lines = split_lines("a\nb\r\nc");
    assert_eq!(
        lines,
        vec!["a".to_string(), "b".to_string(), "c".to_string()]
    );
    assert_eq!(split_lines("a\n"), vec!["a".to_string()]);
    assert_eq!(split_lines(""), Vec::<String>::new());
    assert_eq!(
        split_lines("a\n\nb"),
        vec!["a".to_string(), "".to_string(), "b".to_string()]
    );
}

#[test]
fn failed_build_carries_stderr_verbatim() {
    let stderr = b"error[E0308]: mismatched types\n".to_vec();
    match build_kernel_outcome(false, stderr.clone(), true, Vec::new(), Vec::new()) {
        Err(BuildError::BuildFailed { stderr: captured }) => assert_eq!(captured, stderr),
        other => panic!("expected BuildFailed, got {:?}", other),
    }
}

#[test]
fn failed_structured_build_carries_its_stderr() {
    let stderr = b"second failure".to_vec();
    match build_kernel_outcome(true, Vec::new(), false, stderr.clone(), Vec::new()) {
        Err(BuildError::BuildFailed { stderr: captured }) => assert_eq!(captured, stderr),
        other => panic!("expected BuildFailed, got {:?}", other),
    }
}

#[test]
fn successful_build_parses_the_structured_output() {
    let stdout = b"{\"executable\":\"/target/debug/kernel\"}\n".to_vec();
    let artifacts =
        build_kernel_outcome(true, Vec::new(), true, Vec::new(), stdout).expect("build succeeded");
    assert_eq!(artifacts, vec!["/target/debug/kernel".to_string()]);
}

#[test]
fn build_command_uses_the_configured_subcommand() {
    let config = config_from_entries(None).expect("defaults");
    let args = vec!["--release".to_string()];
    assert_eq!(
        build_command_line(&config, &args, false),
        vec!["build".to_string(), "--release".to_string()]
    );
    assert_eq!(
        build_command_line(&config, &Vec::new(), true),
        vec![
            "build".to_string(),
            "--message-format".to_string(),
            "json".to_string()
        ]
    );
}
