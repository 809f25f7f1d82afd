use fenrir::base64::base64_encode_bytes;
use fenrir::encode_basic_credentials;
use fenrir::noop::NopBackend;
use fenrir::ureq::TransportOutcome;
use fenrir::ureq::UreqBackend;
use fenrir::AuthenticationMethod;
use fenrir::Backend;
use fenrir::Fenrir;
use fenrir::FenrirError;
use fenrir::NetworkingBackend;
use fenrir::SendAction;
use fenrir::SerializationFormat;
use fenrir::Streams;

#[test]
fn creating_a_noop_instance_without_credentials_works_correctly() {
    let result = Fenrir::builder()
        .endpoint("https://loki.example.com".to_string())
        .build();
    assert_eq!(
        result.backend.authentication_method(),
        AuthenticationMethod::Anonymous
    );
    assert_eq!(result.backend.credentials(), None);
}

#[test]
fn creating_a_noop_instance_with_credentials_works_correctly() {
    let result = Fenrir::builder()
        .endpoint("https://loki.example.com".to_string())
        .with_authentication(
            AuthenticationMethod::Basic,
            "username".to_string(),
            "password".to_string(),
        )
        .build();
    assert_eq!(
        result.backend.authentication_method(),
        AuthenticationMethod::Anonymous
    );
    assert_eq!(result.backend.credentials(), None);
}

#[test]
fn creating_a_ureq_instance_without_credentials_works_correctly() {
    let result = Fenrir::builder()
        .endpoint("https://loki.example.com".to_string())
        .network(NetworkingBackend::Ureq)
        .format(SerializationFormat::Json)
        .build();
    assert_eq!(
        result.backend.authentication_method(),
        AuthenticationMethod::Anonymous
    );
    assert_eq!(result.backend.credentials(), None);
    assert!(matches!(result.backend, Backend::Ureq(_)));
}

#[test]
fn creating_a_ureq_instance_with_credentials_works_correctly() {
    let result = Fenrir::builder()
        .endpoint("https://loki.example.com".to_string())
        .network(NetworkingBackend::Ureq)
        .format(SerializationFormat::Json)
        .with_authentication(
            AuthenticationMethod::Basic,
            "username".to_string(),
            "password".to_string(),
        )
        .build();
    assert_eq!(
        result.backend.authentication_method(),
        AuthenticationMethod::Basic
    );
    assert_eq!(
        result.backend.credentials(),
        Some("dXNlcm5hbWU6cGFzc3dvcmQ=".to_string())
    );
    assert!(matches!(result.backend, Backend::Ureq(_)));
}

#[test]
fn basic_credential_encoding_matches_the_expected_base64() {
    let credential = encode_basic_credentials("username", "password");
    assert_eq!(credential, "dXNlcm5hbWU6cGFzc3dvcmQ=".to_string());
}

#[test]
fn base64_encoding_matches_the_reference_vectors() {
    assert_eq!(base64_encode_bytes(b""), "".to_string());
    assert_eq!(base64_encode_bytes(b"f"), "Zg==".to_string());
    assert_eq!(base64_encode_bytes(b"fo"), "Zm8=".to_string());
    assert_eq!(base64_encode_bytes(b"foo"), "Zm9v".to_string());
    assert_eq!(base64_encode_bytes(b"foob"), "Zm9vYg==".to_string());
    assert_eq!(base64_encode_bytes(b"fooba"), "Zm9vYmE=".to_string());
    assert_eq!(base64_encode_bytes(b"foobar"), "Zm9vYmFy".to_string());
}

#[test]
fn the_push_url_joins_the_endpoint_with_the_versioned_push_path() {
    let backend = UreqBackend {
        endpoint: "https://loki.example.com".to_string(),
        authentication: AuthenticationMethod::Anonymous,
        credentials: "".to_string(),
    };
    let request = backend
        .prepare_request("{}".to_string())
        .expect("a well-formed endpoint must accept the push path");
    assert_eq!(request.url, "https://loki.example.com/loki/api/v1/push");
    assert_eq!(request.content_type, "application/json; charset=utf-8");
    assert_eq!(request.body, "{}");
    assert_eq!(request.timeout_seconds, 10);
    assert_eq!(request.authorization, None);
}

#[test]
fn a_basic_request_carries_the_authorization_header() {
    let backend = UreqBackend {
        endpoint: "https://loki.example.com".to_string(),
        authentication: AuthenticationMethod::Basic,
        credentials: encode_basic_credentials("username", "password"),
    };
    let request = backend
        .prepare_request("{}".to_string())
        .expect("a well-formed endpoint must accept the push path");
    assert_eq!(
        request.authorization,
        Some("Basic dXNlcm5hbWU6cGFzc3dvcmQ=".to_string())
    );
}

#[test]
fn a_malformed_endpoint_is_a_configuration_error() {
    let backend = UreqBackend {
        endpoint: "not an absolute url".to_string(),
        authentication: AuthenticationMethod::Anonymous,
        credentials: "".to_string(),
    };
    let error = backend
        .prepare_request("{}".to_string())
        .expect_err("a malformed endpoint must be rejected");
    match error {
        FenrirError::Configuration(detail) => {
            assert_eq!(
                detail,
                "endpoint cannot accept the push path: not an absolute url"
            );
        }
        _ => panic!("expected a configuration error"),
    }
}

#[test]
fn a_serializer_failure_is_a_serialization_error() {
    let backend = UreqBackend {
        endpoint: "https://loki.example.com".to_string(),
        authentication: AuthenticationMethod::Anonymous,
        credentials: "".to_string(),
    };
    let error = backend
        .prepare_send(Err("the batch cannot be represented".to_string()))
        .expect_err("a serializer failure must be surfaced");
    match error {
        FenrirError::Serialization(detail) => {
            assert_eq!(detail, "the batch cannot be represented");
        }
        _ => panic!("expected a serialization error"),
    }
}

#[test]
fn a_failed_delivery_is_a_transport_error() {
    let backend = UreqBackend {
        endpoint: "https://loki.example.com".to_string(),
        authentication: AuthenticationMethod::Anonymous,
        credentials: "".to_string(),
    };
    assert!(backend.complete_send(TransportOutcome::Delivered).is_ok());
    let error = backend
        .complete_send(TransportOutcome::Failed(
            "timed out after 10 seconds".to_string(),
        ))
        .expect_err("a failed delivery must be surfaced");
    match error {
        FenrirError::Transport(detail) => {
            assert_eq!(detail, "timed out after 10 seconds");
            assert_eq!(
                FenrirError::Transport(detail).message(),
                "timed out after 10 seconds"
            );
        }
        _ => panic!("expected a transport error"),
    }
}

#[test]
fn the_noop_backend_discards_batches_and_serializer_failures() {
    let batch = Streams { streams: vec![] };
    assert!(NopBackend.send(&batch).is_ok());
    let client = Fenrir::builder().build();
    let action = client
        .backend
        .prepare_send(Err("the batch cannot be represented".to_string()))
        .expect("the no-op backend never fails");
    assert!(matches!(action, SendAction::Done));
    assert!(client
        .backend
        .complete_send(TransportOutcome::Failed("ignored".to_string()))
        .is_ok());
}

#[test]
fn an_empty_credential_with_basic_authentication_reports_absent() {
    let backend = UreqBackend {
        endpoint: "https://loki.example.com".to_string(),
        authentication: AuthenticationMethod::Basic,
        credentials: "".to_string(),
    };
    assert_eq!(backend.credentials(), None);
    assert_eq!(backend.authentication_method(), AuthenticationMethod::Basic);
}

#[test]
fn planning_a_ureq_send_describes_the_post() {
    let client = Fenrir::builder()
        .endpoint("https://loki.example.com".to_string())
        .network(NetworkingBackend::Ureq)
        .with_authentication(
            AuthenticationMethod::Basic,
            "username".to_string(),
            "password".to_string(),
        )
        .build();
    let action = client
        .backend
        .prepare_send(Ok("{\"streams\":[]}".to_string()))
        .expect("a well-formed endpoint must accept the push path");
    match action {
        SendAction::Post(request) => {
            assert_eq!(request.url, "https://loki.example.com/loki/api/v1/push");
            assert_eq!(request.body, "{\"streams\":[]}");
            assert_eq!(
                request.authorization,
                Some("Basic dXNlcm5hbWU6cGFzc3dvcmQ=".to_string())
            );
        }
        SendAction::Done => panic!("the ureq backend must issue a request"),
    }
}
