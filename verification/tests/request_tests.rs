//! Request builders, status parsing, permission decoding and the telemetry
//! records.

use base64::Engine;

use package_broker::device_apps::{AppMetadata, InstalledApp};
use package_broker::engine::AppData;
use package_broker::extn::{ExtnResponse, RippleError};
use package_broker::metrics::{ErrorParams, ErrorType, Param, SystemErrorParams};
use package_broker::processor::{AppsOperationStatus, ThunderPackageManagerRequestProcessor};
use package_broker::requests::{
    CancelRequest, GetListRequest, GetMetadataRequest, InstallAppRequest, KeyValuePair, Metadata,
    ThunderAppMetadata, UninstallAppRequest,
};
use package_broker::status::{AppsOperationType, OperationStatus};
use package_broker::telemetry::{
    get_error_type, get_params, TelemetryAppError, TelemetryPayload, TelemetrySystemError,
    TelemetrySignIn,
};

type Processor = ThunderPackageManagerRequestProcessor;

fn encode_blob(json: &str) -> String {
    base64::engine::general_purpose::STANDARD.encode(json)
}

#[test]
fn operation_status_classification() {
    let terminal = [
        "Succeeded",
        "Failed",
        "DownloadFailed",
        "VerificationFailed",
        "InstallationFailed",
        "Cancelled",
        "NotEnoughStorage",
    ];
    for s in terminal {
        assert!(OperationStatus::new(s).completed(), "{s} must be terminal");
    }
    let non_terminal = ["NotStarted", "Downloading", "Downloaded", "Verifying", "Unknown"];
    for s in non_terminal {
        assert!(!OperationStatus::new(s).completed(), "{s} must not be terminal");
    }
    // Unrecognised statuses map to Unknown and are not terminal.
    assert_eq!(OperationStatus::new("Paused"), OperationStatus::Unknown);
    assert!(!OperationStatus::new("Paused").completed());
    assert_eq!(OperationStatus::new("Succeeded"), OperationStatus::Succeeded);
}

#[test]
fn operation_type_parsing_ignores_ascii_case() {
    assert_eq!(AppsOperationType::from_str("install"), Ok(AppsOperationType::Install));
    assert_eq!(AppsOperationType::from_str("Install"), Ok(AppsOperationType::Install));
    assert_eq!(AppsOperationType::from_str("INSTALL"), Ok(AppsOperationType::Install));
    assert_eq!(AppsOperationType::from_str("uninstall"), Ok(AppsOperationType::Uninstall));
    assert_eq!(AppsOperationType::from_str("UnInstall"), Ok(AppsOperationType::Uninstall));
    assert_eq!(AppsOperationType::from_str("reinstall"), Err(()));
    assert_eq!(AppsOperationType::from_str(""), Err(()));
}

#[test]
fn install_request_reads_type_and_category_from_data() {
    let app = AppMetadata {
        id: "app1".to_string(),
        title: "App One".to_string(),
        version: "1.0".to_string(),
        uri: "https://apps.example/app1".to_string(),
        data: Some("{\"type\":\"interactive\",\"category\":\"games\"}".to_string()),
    };
    let request = InstallAppRequest::new(app);
    assert_eq!(request.id, "app1");
    assert_eq!(request.version, "1.0");
    assert_eq!(request.url, "https://apps.example/app1");
    assert_eq!(request.app_name, "App One");
    assert_eq!(request._type, "interactive");
    assert_eq!(request.category, "games");
}

#[test]
fn install_request_defaults_on_missing_or_bad_data() {
    let no_data = InstallAppRequest::new(AppMetadata {
        id: "a".to_string(),
        title: "A".to_string(),
        version: "1".to_string(),
        uri: "u".to_string(),
        data: None,
    });
    assert_eq!(no_data._type, "");
    assert_eq!(no_data.category, "");

    let bad_data = InstallAppRequest::new(AppMetadata {
        id: "a".to_string(),
        title: "A".to_string(),
        version: "1".to_string(),
        uri: "u".to_string(),
        data: Some("not json".to_string()),
    });
    assert_eq!(bad_data._type, "");
    assert_eq!(bad_data.category, "");

    let partial = InstallAppRequest::new(AppMetadata {
        id: "a".to_string(),
        title: "A".to_string(),
        version: "1".to_string(),
        uri: "u".to_string(),
        data: Some("{\"category\":\"music\"}".to_string()),
    });
    assert_eq!(partial._type, "");
    assert_eq!(partial.category, "music");
}

#[test]
fn plain_request_builders_keep_their_fields() {
    assert_eq!(GetListRequest::new("app1".to_string()).id, "app1");
    assert_eq!(CancelRequest::new("H1".to_string()).handle, "H1");
    let metadata_request = GetMetadataRequest::new("app1".to_string(), "1.0".to_string());
    assert_eq!(metadata_request.id, "app1");
    assert_eq!(metadata_request.version, "1.0");
    assert_eq!(AppData::new("2.0".to_string()).version, "2.0");
    assert_eq!(AppData::default().version, "");

    let uninstall = UninstallAppRequest::new(InstalledApp {
        id: "app2".to_string(),
        version: "2.0".to_string(),
    });
    assert_eq!(uninstall.id, "app2");
    assert_eq!(uninstall.version, "2.0");
    assert_eq!(uninstall._type, "");
    assert_eq!(uninstall.uninstall_type, "");
}

#[test]
fn apps_operation_status_holds_the_event_fields() {
    let status = AppsOperationStatus::new(
        "H1".to_string(),
        AppsOperationType::Install,
        "interactive".to_string(),
        "app1".to_string(),
        "1.0".to_string(),
        "Succeeded".to_string(),
        "done".to_string(),
    );
    assert_eq!(status.handle, "H1");
    assert_eq!(status.operation, AppsOperationType::Install);
    assert_eq!(status.app_type, "interactive");
    assert_eq!(status.id, "app1");
    assert_eq!(status.version, "1.0");
    assert_eq!(status.status, "Succeeded");
    assert_eq!(status.details, "done");
}

#[test]
fn decode_permissions_round_trips_a_real_blob() {
    let encoded = encode_blob("{\"capabilities\":[\"cap:one\",\"cap:two\"]}");
    let permissions = Processor::decode_permissions(encoded).unwrap();
    assert_eq!(permissions.capabilities, vec!["cap:one".to_string(), "cap:two".to_string()]);
}

#[test]
fn decode_permissions_rejects_bad_input() {
    // Not base64 at all.
    assert!(Processor::decode_permissions("%%%not-base64%%%".to_string()).is_err());
    // Valid base64 of text that is not the blob's JSON shape.
    assert!(Processor::decode_permissions(encode_blob("not json")).is_err());
    // Valid JSON without the capabilities member.
    assert!(Processor::decode_permissions(encode_blob("{\"other\":[]}")).is_err());
    // A capabilities member whose items are not strings.
    assert!(Processor::decode_permissions(encode_blob("{\"capabilities\":[1,2]}")).is_err());
}

#[test]
fn permissions_response_finds_the_firebolt_resource() {
    let metadata = ThunderAppMetadata {
        metadata: Metadata {
            appname: "App One".to_string(),
            _type: "interactive".to_string(),
            url: "https://apps.example/app1".to_string(),
        },
        resources: vec![
            KeyValuePair { key: "icon".to_string(), value: "ignored".to_string() },
            KeyValuePair {
                key: "firebolt".to_string(),
                value: encode_blob("{\"capabilities\":[\"cap:play\"]}"),
            },
        ],
    };
    let response = Processor::permissions_response(Some(metadata));
    assert_eq!(response, ExtnResponse::Permission(vec!["cap:play".to_string()]));
}

#[test]
fn permissions_response_errors() {
    // The metadata answer did not decode.
    assert_eq!(
        Processor::permissions_response(None),
        ExtnResponse::Error(RippleError::ProcessorError)
    );
    // No resource entry named firebolt.
    let metadata = ThunderAppMetadata {
        metadata: Metadata {
            appname: "a".to_string(),
            _type: "t".to_string(),
            url: "u".to_string(),
        },
        resources: vec![KeyValuePair { key: "icon".to_string(), value: "x".to_string() }],
    };
    assert_eq!(
        Processor::permissions_response(Some(metadata)),
        ExtnResponse::Error(RippleError::ProcessorError)
    );
    // A firebolt entry whose blob does not decode.
    let broken = ThunderAppMetadata {
        metadata: Metadata {
            appname: "a".to_string(),
            _type: "t".to_string(),
            url: "u".to_string(),
        },
        resources: vec![KeyValuePair { key: "firebolt".to_string(), value: "***".to_string() }],
    };
    assert_eq!(
        Processor::permissions_response(Some(broken)),
        ExtnResponse::Error(RippleError::ProcessorError)
    );
}

#[test]
fn apps_list_response_wraps_or_errors() {
    let apps = vec![InstalledApp { id: "app1".to_string(), version: "1.0".to_string() }];
    assert_eq!(
        Processor::apps_list_response(Some(apps.clone())),
        ExtnResponse::InstalledApps(apps)
    );
    assert_eq!(
        Processor::apps_list_response(None),
        ExtnResponse::Error(RippleError::ProcessorError)
    );
}

#[test]
fn find_installed_app_returns_first_match() {
    let apps = vec![
        InstalledApp { id: "app1".to_string(), version: "1.0".to_string() },
        InstalledApp { id: "app2".to_string(), version: "2.0".to_string() },
        InstalledApp { id: "app2".to_string(), version: "2.1".to_string() },
    ];
    assert_eq!(Processor::find_installed_app(&apps, "app2"), Some(1));
    assert_eq!(Processor::find_installed_app(&apps, "app3"), None);
}

#[test]
fn telemetry_session_id_update() {
    let mut payload = TelemetryPayload::SignIn(TelemetrySignIn {
        app_id: "app1".to_string(),
        ripple_session_id: "old".to_string(),
        app_session_id: None,
    });
    payload.update_session_id("new-session".to_string());
    match payload {
        TelemetryPayload::SignIn(s) => {
            assert_eq!(s.ripple_session_id, "new-session");
            assert_eq!(s.app_id, "app1");
        }
        other => panic!("unexpected payload {other:?}"),
    }
}

#[test]
fn telemetry_error_records() {
    let app_error = TelemetryAppError::from(ErrorParams {
        error_type: ErrorType::network,
        code: "E42".to_string(),
        description: "link down".to_string(),
        visible: true,
        parameters: Some(vec![Param { name: "k".to_string(), value: "v".to_string() }]),
    });
    assert_eq!(app_error.app_id, "");
    assert_eq!(app_error.error_type, "network");
    assert_eq!(app_error.code, "E42");
    assert_eq!(app_error.description, "link down");
    assert!(app_error.visible);
    assert_eq!(app_error.parameters.as_ref().unwrap().get("k"), Some(&"v".to_string()));
    assert_eq!(app_error.ripple_session_id, "");

    let system_error = TelemetrySystemError::from(SystemErrorParams {
        error_name: "boot-failure".to_string(),
        component: "launcher".to_string(),
        context: Some("early".to_string()),
    });
    assert_eq!(system_error.error_name, "boot-failure");
    assert_eq!(system_error.component, "launcher");
    assert_eq!(system_error.context, Some("early".to_string()));
    assert_eq!(system_error.ripple_session_id, "");
    assert_eq!(system_error.ripple_version, "ripple.version.tbd");
    assert_eq!(system_error.ripple_context, None);
}

#[test]
fn error_type_names_and_params() {
    assert_eq!(get_error_type(ErrorType::network), "network");
    assert_eq!(get_error_type(ErrorType::media), "media");
    assert_eq!(get_error_type(ErrorType::restriction), "restriction");
    assert_eq!(get_error_type(ErrorType::entitlement), "entitlement");
    assert_eq!(get_error_type(ErrorType::other), "other");

    assert!(get_params(None).is_none());
    let params = get_params(Some(vec![
        Param { name: "a".to_string(), value: "1".to_string() },
        Param { name: "b".to_string(), value: "2".to_string() },
    ]))
    .unwrap();
    assert_eq!(params.get("a"), Some(&"1".to_string()));
    assert_eq!(params.get("b"), Some(&"2".to_string()));
    assert_eq!(params.len(), 2);
}
