use lark_codex_bridge::codex::process::ProcessError;
use lark_codex_bridge::codex::process::SidecarBootstrapFailure;
use lark_codex_bridge::codex::sidecar::check_home;
use lark_codex_bridge::codex::sidecar::finish_frame;
use lark_codex_bridge::codex::sidecar::inherited_sidecar_environment;
use lark_codex_bridge::codex::sidecar::validate_configure_response;
use lark_codex_bridge::codex::sidecar::validate_hello;
use lark_codex_bridge::codex::sidecar::CodexSidecarConfig;
use lark_codex_bridge::codex::sidecar::ConfigureData;
use lark_codex_bridge::codex::sidecar::ConfigureResponse;
use lark_codex_bridge::codex::sidecar::FrameBuffer;
use lark_codex_bridge::codex::sidecar::FrameStep;
use lark_codex_bridge::codex::sidecar::HelloFrame;
use lark_codex_bridge::codex::sidecar::HomeDirectory;
use lark_codex_bridge::codex::sidecar::SignalAuthority;
use lark_codex_bridge::codex::sidecar::CODEX_SIDECAR_PROTOCOL;
use lark_codex_bridge::codex::sidecar::CODEX_SIDECAR_VERSION;
use lark_codex_bridge::codex::sidecar::REQUIRED_SIDECAR_CAPABILITIES;
use lark_codex_bridge::limits::CODEX_SIDECAR_PENDING_CAPACITY;
use lark_codex_bridge::limits::RPC_SERVER_REQUEST_CAPACITY;
use lark_codex_bridge::limits::RPC_TOTAL_PENDING_CAPACITY;
use lark_codex_bridge::version::Version;

fn capabilities() -> Vec<String> {
    REQUIRED_SIDECAR_CAPABILITIES
        .iter()
        .map(ToString::to_string)
        .collect()
}

fn configured(version: &str) -> ConfigureResponse {
    ConfigureResponse {
        v: CODEX_SIDECAR_VERSION,
        kind: "response".to_owned(),
        id: "configure-test".to_owned(),
        ok: true,
        data: Some(ConfigureData {
            upstream_version: version.to_owned(),
            adapter_version: version.to_owned(),
            capabilities: capabilities(),
        }),
        error: None,
    }
}

#[test]
fn debug_redacts_every_configured_path_and_argument() {
    let config = CodexSidecarConfig {
        node_binary: "secret-node".to_owned(),
        entrypoint: "secret-entrypoint".to_owned(),
        codex_binary: Some("secret-codex".to_owned()),
        codex_home: Some("secret-home".to_owned()),
        codex_arguments: vec!["secret-argument".to_owned()],
        ..CodexSidecarConfig::default()
    };
    let debug = config.debug_text();
    for secret in [
        "secret-node",
        "secret-entrypoint",
        "secret-codex",
        "secret-home",
        "secret-argument",
    ] {
        assert!(!debug.contains(secret));
    }
    assert!(debug.contains("codex_argument_count: 1"));
}

#[test]
fn inherited_environment_is_an_explicit_home_aware_allowlist() {
    let inherited = inherited_sidecar_environment(Some("/usr/bin"), Some("/home/user"));
    let allowed = ["HOME", "PATH"];
    assert!(
        inherited.iter().all(|(name, _)| allowed.contains(name)),
        "the sidecar environment must remain a fixed allowlist"
    );
    assert_eq!(
        inherited
            .iter()
            .find(|(name, _)| *name == "HOME")
            .map(|(_, value)| *value),
        Some("/home/user")
    );
    assert!(inherited_sidecar_environment::<String>(None, None).is_empty());
}

#[test]
fn hello_requires_the_exact_negotiated_capability_set() {
    let config = CodexSidecarConfig::default();
    let valid = HelloFrame {
        protocol: CODEX_SIDECAR_PROTOCOL.to_owned(),
        v: CODEX_SIDECAR_VERSION,
        kind: "hello".to_owned(),
        max_frame_bytes: config.max_frame_bytes,
        capabilities: capabilities(),
    };
    assert!(validate_hello(&valid, &config).is_ok());
    let mut unknown = valid;
    unknown
        .capabilities
        .push("future-unsafe-capability".to_owned());
    assert!(matches!(
        validate_hello(&unknown, &config),
        Err(ProcessError::SidecarProtocol)
    ));
}

#[test]
fn hello_rejects_a_repeated_or_missing_capability() {
    let config = CodexSidecarConfig::default();
    let mut repeated = capabilities();
    repeated.push(repeated[0].clone());
    let mut missing = capabilities();
    missing.pop();
    for offered in [repeated, missing] {
        let hello = HelloFrame {
            protocol: CODEX_SIDECAR_PROTOCOL.to_owned(),
            v: CODEX_SIDECAR_VERSION,
            kind: "hello".to_owned(),
            max_frame_bytes: config.max_frame_bytes,
            capabilities: offered,
        };
        assert!(validate_hello(&hello, &config).is_err());
    }
}

#[test]
fn pending_bound_covers_both_rpc_directions() {
    assert_eq!(
        CODEX_SIDECAR_PENDING_CAPACITY,
        RPC_TOTAL_PENDING_CAPACITY + RPC_SERVER_REQUEST_CAPACITY
    );
}

#[test]
fn wrapper_arguments_must_be_nonempty() {
    let config = CodexSidecarConfig {
        codex_arguments: vec![String::new()],
        ..CodexSidecarConfig::default()
    };
    assert!(matches!(
        config.validate(),
        Err(ProcessError::InvalidSidecarConfig)
    ));
}

#[test]
fn default_sidecar_settings_are_valid() {
    assert!(CodexSidecarConfig::default().validate().is_ok());
    let zeroed = CodexSidecarConfig {
        codex_arguments: vec!["a\0b".to_owned()],
        ..CodexSidecarConfig::default()
    };
    assert!(zeroed.validate().is_err());
    let unbounded = CodexSidecarConfig {
        max_pending: CODEX_SIDECAR_PENDING_CAPACITY + 1,
        ..CodexSidecarConfig::default()
    };
    assert!(unbounded.validate().is_err());
}

#[test]
fn configure_failures_are_closed_typed_classifications() {
    let retryable = ConfigureResponse {
        v: CODEX_SIDECAR_VERSION,
        kind: "response".to_owned(),
        id: "configure-test".to_owned(),
        ok: false,
        data: None,
        error: Some(SidecarBootstrapFailure::VersionProbeTimeout),
    };
    assert!(matches!(
        validate_configure_response(retryable, "configure-test"),
        Err(ProcessError::SidecarBootstrapRejected {
            failure: SidecarBootstrapFailure::VersionProbeTimeout
        })
    ));

    let unknown = SidecarBootstrapFailure::from_wire("future_unreviewed_failure");
    assert!(unknown.is_none(), "unknown classifications must fail closed");
}

#[test]
fn configuration_yields_a_supported_release() {
    assert_eq!(
        validate_configure_response(configured("0.151.0"), "configure-test").ok(),
        Some(Version::new(0, 151, 0))
    );
    assert!(matches!(
        validate_configure_response(configured("0.150.0"), "configure-test"),
        Err(ProcessError::UnsupportedSidecarVersion { .. })
    ));
    assert!(matches!(
        validate_configure_response(configured("0.151.0"), "another"),
        Err(ProcessError::SidecarProtocol)
    ));
    assert!(matches!(
        validate_configure_response(configured("0.151"), "configure-test"),
        Err(ProcessError::SidecarProtocol)
    ));
}

#[test]
fn a_finished_frame_is_read_back() {
    let frame = finish_frame(b"{\"v\":1}".to_vec(), 64).ok().expect("within the bound");
    assert_eq!(frame, b"{\"v\":1}\n".to_vec());
    let mut buffer = FrameBuffer::new(64);
    match buffer.take(&frame) {
        FrameStep::Complete { frame, consumed } => {
            assert_eq!(frame, b"{\"v\":1}".to_vec());
            assert_eq!(consumed, 8);
        }
        _ => panic!("a whole frame is complete"),
    }
    assert!(finish_frame(vec![b'x'; 65], 64).is_err());
}

#[test]
fn frames_arrive_in_pieces() {
    let mut buffer = FrameBuffer::new(8);
    assert!(matches!(buffer.take(b"abc"), FrameStep::More));
    assert!(matches!(
        buffer.take(b"def\nrest"),
        FrameStep::Complete { consumed: 4, .. }
    ));
    match buffer.take(b"next\n") {
        FrameStep::Complete { frame, .. } => assert_eq!(frame, b"next".to_vec()),
        _ => panic!("the buffer starts over"),
    }
    assert!(matches!(buffer.take(b"abc"), FrameStep::More));
    assert!(matches!(buffer.take(b"defghi"), FrameStep::Fail(_)));
    assert_eq!(buffer.bytes, b"abc".to_vec());
}

#[test]
fn home_directories_are_checked_apart() {
    assert!(check_home(HomeDirectory::Unset).is_ok());
    assert!(check_home(HomeDirectory::Directory).is_ok());
    assert!(matches!(
        check_home(HomeDirectory::NotDirectory),
        Err(ProcessError::InvalidCodexHome)
    ));
}

#[test]
fn a_released_leader_is_never_signalled() {
    let mut authority = SignalAuthority::new(true);
    assert!(!authority.kill_on_drop(false));
    let mut reserved = SignalAuthority::new(true);
    assert!(reserved.kill_on_drop(true));
}
