use lark_codex_bridge::codex::process::check_pipes;
use lark_codex_bridge::codex::process::collection_deadline;
use lark_codex_bridge::codex::process::ensure_supported;
use lark_codex_bridge::codex::process::group_step;
use lark_codex_bridge::codex::process::judge_probe;
use lark_codex_bridge::codex::process::parse_version;
use lark_codex_bridge::codex::process::spawn_failure_is_retryable;
use lark_codex_bridge::codex::process::GroupProbe;
use lark_codex_bridge::codex::process::GroupStep;
use lark_codex_bridge::codex::process::LimitedOutput;
use lark_codex_bridge::codex::process::OwnedTree;
use lark_codex_bridge::codex::process::Pipes;
use lark_codex_bridge::codex::process::ProbeOutcome;
use lark_codex_bridge::codex::process::ProcessError;
use lark_codex_bridge::codex::process::ProcessExit;
use lark_codex_bridge::codex::process::ShortageCodes;
use lark_codex_bridge::codex::process::SidecarBootstrapFailure;
use lark_codex_bridge::codex::process::SidecarSpawnFailure;
use lark_codex_bridge::codex::process::SpawnErrorKind;
use lark_codex_bridge::codex::process::Waited;
use lark_codex_bridge::limits::MAX_VERSION_OUTPUT_BYTES;
use lark_codex_bridge::limits::VERSION_PROBE_CLEANUP_RESERVE_MS;
use lark_codex_bridge::version::parse_release;
use lark_codex_bridge::version::Version;

#[test]
fn parses_only_the_exact_codex_version_shape() {
    assert_eq!(
        parse_version(b"codex-cli 0.146.0\n").ok(),
        Some(Version::new(0, 146, 0))
    );
    for invalid in [
        b"codex 0.146.0".as_slice(),
        b"codex-cli v0.146.0".as_slice(),
        b"codex-cli 0.146.0 extra".as_slice(),
        b"0.146.0".as_slice(),
        b" codex-cli 0.146.0".as_slice(),
        b"codex-cli  0.146.0".as_slice(),
        b"codex-cli\t0.146.0".as_slice(),
        b"codex-cli 0.146.0 \n".as_slice(),
        b"codex-cli 0.146.0-beta.1".as_slice(),
        b"codex-cli 0.146.0+build".as_slice(),
        b"codex-cli 0.146.0\nextra".as_slice(),
    ] {
        assert!(matches!(
            parse_version(invalid),
            Err(ProcessError::InvalidVersionOutput)
        ));
    }
}

#[test]
fn enforces_the_exact_reviewed_schema_versions() {
    assert!(ensure_supported(Version::new(0, 146, 0)).is_ok());
    assert!(ensure_supported(Version::new(0, 149, 0)).is_ok());
    for version in [
        Version::new(0, 145, 9),
        Version::new(0, 147, 0),
        Version::new(0, 150, 0),
        Version::new(1, 0, 0),
    ] {
        assert!(matches!(
            ensure_supported(version),
            Err(ProcessError::UnsupportedVersion { .. })
        ));
    }
}

#[test]
fn releases_are_read_and_written_back() {
    let version = parse_release("12.0.345").expect("a release");
    assert_eq!(version, Version::new(12, 0, 345));
    assert_eq!(version.to_text(), "12.0.345");
    assert!(version.is_release());
    assert!(parse_release("1.2").is_none());
    assert!(parse_release("1.2.3-rc.1").is_none());
    assert!(parse_release("01.2.3").is_none());
    assert!(parse_release("").is_none());
}

#[test]
fn unsupported_versions_are_named() {
    let error = ensure_supported(Version::new(0, 148, 0)).err().expect("not supported");
    assert_eq!(
        error.to_text(),
        "Codex 0.148.0 is unsupported; expected an exact reviewed version"
    );
}

#[test]
fn only_resource_shortages_are_retried() {
    let codes = ShortageCodes {
        again: 11,
        process_files: 24,
        system_files: 23,
        memory: 12,
    };
    assert!(spawn_failure_is_retryable(SpawnErrorKind::WouldBlock, None, codes));
    assert!(spawn_failure_is_retryable(SpawnErrorKind::Other, Some(24), codes));
    assert!(!spawn_failure_is_retryable(SpawnErrorKind::Other, Some(2), codes));
    assert!(!spawn_failure_is_retryable(SpawnErrorKind::Other, None, codes));
    assert_eq!(
        SidecarSpawnFailure::classify(SpawnErrorKind::Other, Some(2), codes),
        SidecarSpawnFailure::Failed
    );
    assert!(SidecarSpawnFailure::classify(SpawnErrorKind::Other, Some(12), codes).is_retryable());
}

#[test]
fn bootstrap_failures_have_one_spelling() {
    assert_eq!(
        SidecarBootstrapFailure::from_wire("version_probe_timeout"),
        Some(SidecarBootstrapFailure::VersionProbeTimeout)
    );
    assert_eq!(
        SidecarBootstrapFailure::from_wire("sidecar_failed"),
        Some(SidecarBootstrapFailure::SidecarFailed)
    );
    assert_eq!(SidecarBootstrapFailure::from_wire("VersionProbeTimeout"), None);
    assert!(SidecarBootstrapFailure::VersionProbeIo.is_retryable());
    assert!(!SidecarBootstrapFailure::PinnedCodexMissing.is_retryable());
}

#[test]
fn version_output_is_kept_up_to_its_bound() {
    let mut output = LimitedOutput::new();
    output.take_chunk(b"codex-cli ");
    output.take_chunk(b"0.149.0\n");
    assert!(!output.too_long);
    assert_eq!(parse_version(&output.bytes).ok(), Some(Version::new(0, 149, 0)));
    output.take_chunk(&vec![b'x'; MAX_VERSION_OUTPUT_BYTES]);
    assert!(output.too_long);
}

#[test]
fn cleanup_keeps_a_reserve_of_the_probe() {
    assert_eq!(
        collection_deadline(VERSION_PROBE_CLEANUP_RESERVE_MS + 7),
        7
    );
}

#[test]
fn a_group_is_looked_at_until_it_is_gone() {
    assert_eq!(group_step(GroupProbe::Absent, 5, 1), GroupStep::Empty);
    assert!(matches!(
        group_step(GroupProbe::Present, 0, 1_000_000),
        GroupStep::LookAgainAt { .. }
    ));
    assert!(!matches!(
        group_step(GroupProbe::Present, 10, 10),
        GroupStep::LookAgainAt { .. } | GroupStep::Empty
    ));
}

#[test]
fn a_tree_is_reaped_once() {
    let mut tree = OwnedTree::new();
    assert!(tree.already_reaped().is_none());
    let exit = ProcessExit {
        pid: 7,
        success: true,
        code: Some(0),
        signal: None,
    };
    let reaped = tree.judge_reap(Waited::Exited(exit), true);
    assert_eq!(reaped.ok(), Some(exit));
    assert!(matches!(tree.already_reaped(), Some(Ok(held)) if held == exit));
}

#[test]
fn a_missing_pipe_is_named() {
    assert!(check_pipes(Pipes {
        stdout: true,
        stdin: true,
        stderr: true,
    })
    .is_ok());
    assert!(check_pipes(Pipes {
        stdout: true,
        stdin: false,
        stderr: true,
    })
    .is_err());
}

fn probed(text: &str) -> Result<Version, ProcessError> {
    let mut stdout = LimitedOutput::new();
    stdout.take_chunk(text.as_bytes());
    judge_probe(ProbeOutcome::Collected {
        stdout: Some(stdout),
        stderr: Some(LimitedOutput::new()),
        success: true,
        code: Some(0),
    })
}

#[test]
fn a_probe_finds_the_printed_version() {
    for text in ["0.146.0", "0.149.0"] {
        let version = probed(&format!("codex-cli {text}\n")).ok().expect("a known version");
        assert_eq!(version.to_text(), text);
    }
    for text in ["0.145.9", "0.147.0", "0.150.0", "1.0.0"] {
        match probed(&format!("codex-cli {text}\n")) {
            Err(ProcessError::UnsupportedVersion { found }) => assert_eq!(found.to_text(), text),
            _ => panic!("only known versions are accepted"),
        }
    }
    assert!(matches!(
        probed("codex 0.149.0\n"),
        Err(ProcessError::InvalidVersionOutput)
    ));
    assert!(matches!(
        judge_probe(ProbeOutcome::GroupLingers { cleaned: false }),
        Err(ProcessError::ProcessTreeCleanupUnconfirmed)
    ));
}
