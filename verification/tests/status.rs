use kopuz::status::{api_error_for, grpc_code_for, ApiError, ErrorCode, GrpcCode};

/// Every code the daemon can send round-trips. `DaemonGone` is absent on
/// purpose: it is synthesized by the client and never sent.
#[test]
fn status_every_code_survives_the_status_round_trip() {
    let codes = [
        ErrorCode::InvalidInput,
        ErrorCode::NotFound,
        ErrorCode::Conflict,
        ErrorCode::SourceAuthExpired,
        ErrorCode::SourceUnreachable,
        ErrorCode::Unsupported,
        ErrorCode::Internal,
    ];
    for code in codes {
        let error = ApiError {
            code,
            message: "m".into(),
        };
        let back = api_error_for(grpc_code_for(error.code), error.message.clone(), false);
        assert_eq!(error, back);
    }
}

/// The daemon-sent half of the UNAVAILABLE split.
#[test]
fn a_media_server_failure_stays_a_media_server_failure() {
    let sent = grpc_code_for(ErrorCode::SourceUnreachable);
    assert_eq!(sent, GrpcCode::Unavailable);
    assert_eq!(
        api_error_for(sent, "jellyfin timed out".to_string(), false).code,
        ErrorCode::SourceUnreachable
    );
}

#[test]
fn an_unavailable_transport_means_the_daemon_is_gone() {
    assert_eq!(api_error_for(GrpcCode::Unavailable, String::new(), true).code, ErrorCode::DaemonGone);
    assert_eq!(grpc_code_for(ErrorCode::DaemonGone), GrpcCode::Internal);
    assert_eq!(api_error_for(GrpcCode::Unauthenticated, String::new(), false).code, ErrorCode::Internal);
    assert_eq!(api_error_for(GrpcCode::DeadlineExceeded, String::new(), true).code, ErrorCode::Internal);
}
