use gateway::Error;
use gateway::ErrorKind;

fn response_of(kind: ErrorKind) -> (u16, String) {
    let r = Error::from_kind(kind).into_response();
    (r.status, r.body)
}

#[test]
fn mapping_covers_every_kind_exactly() {
    let expected: [(ErrorKind, u16, &str); 15] = [
        (ErrorKind::Internal, 500, "internal server error"),
        (ErrorKind::NotReady, 500, "not ready yet"),
        (ErrorKind::KeyMissing, 401, "request is missing a key"),
        (ErrorKind::Unauthorized, 401, "unauthorized"),
        (ErrorKind::KeyMalformed, 400, "request has an invalid key"),
        (ErrorKind::BadHost, 400, "the 'Host' header is invalid"),
        (ErrorKind::InvalidProjectName, 400, "invalid project name"),
        (ErrorKind::InvalidOperation, 400, "the requested operation is invalid"),
        (ErrorKind::UserAlreadyExists, 400, "user already exists"),
        (
            ErrorKind::ProjectAlreadyExists,
            400,
            "a project with the same name already exists",
        ),
        (ErrorKind::Forbidden, 403, "forbidden"),
        (ErrorKind::UserNotFound, 404, "user not found"),
        (ErrorKind::ProjectNotFound, 404, "project not found"),
        (ErrorKind::ProjectNotReady, 503, "project not ready"),
        (ErrorKind::ProjectUnavailable, 502, "project returned invalid response"),
    ];
    for (kind, status, message) in expected {
        let (got_status, got_body) = response_of(kind);
        assert_eq!(got_status, status);
        assert_eq!(got_body, format!("{{\"error\":\"{}\"}}", message));
    }
}

#[test]
fn mapping_ignores_the_wrapped_cause() {
    let bare = Error::from_kind(ErrorKind::ProjectNotFound).into_response();
    let caused = Error::custom(ErrorKind::ProjectNotFound, "row missing in the store")
        .into_response();
    assert_eq!(bare.status, caused.status);
    assert_eq!(bare.body, caused.body);
    assert!(!caused.body.contains("row missing"));
}

#[test]
fn construction_paths_keep_the_kind() {
    assert_eq!(Error::from_kind(ErrorKind::BadHost).kind(), ErrorKind::BadHost);
    assert_eq!(
        Error::custom(ErrorKind::Internal, "boom").kind(),
        ErrorKind::Internal
    );
    assert_eq!(
        Error::source(ErrorKind::ProjectUnavailable, "connection reset".to_string()).kind(),
        ErrorKind::ProjectUnavailable
    );
    assert_eq!(Error::from(ErrorKind::NotReady).kind(), ErrorKind::NotReady);
}

#[test]
fn describe_shows_kind_and_cause() {
    assert_eq!(
        Error::from_kind(ErrorKind::ProjectNotFound).describe(),
        "project_not_found"
    );
    assert_eq!(
        Error::custom(ErrorKind::Internal, "boom").describe(),
        "internal: boom"
    );
    assert_eq!(
        Error::source(ErrorKind::BadHost, "empty header".to_string()).describe(),
        "bad_host: empty header"
    );
}

#[test]
fn kind_names_are_stable() {
    assert_eq!(ErrorKind::KeyMissing.name(), "key_missing");
    assert_eq!(ErrorKind::ProjectAlreadyExists.name(), "project_already_exists");
    assert_eq!(ErrorKind::NotReady.name(), "not_ready");
}
