use vm_panel::error::{APIError, ErrorKind};

#[test]
fn each_kind_has_its_status() {
    assert_eq!(ErrorKind::BadRequest.status(), 400);
    assert_eq!(ErrorKind::Unauthorized.status(), 401);
    assert_eq!(ErrorKind::NotFound.status(), 404);
    assert_eq!(ErrorKind::UpstreamFailure.status(), 500);
    assert_eq!(ErrorKind::Internal.status(), 500);
}

#[test]
fn constructors_set_kind_and_message() {
    let e = APIError::unauthorized("Invalid token");
    assert_eq!((e.kind, e.message.as_str()), (ErrorKind::Unauthorized, "Invalid token"));
    let e = APIError::not_found("Server not found");
    assert_eq!((e.kind, e.message.as_str()), (ErrorKind::NotFound, "Server not found"));
    let e = APIError::bad_request("No available IP addresses");
    assert_eq!((e.kind, e.message.as_str()), (ErrorKind::BadRequest, "No available IP addresses"));
    let e = APIError::internal_server_error("boom");
    assert_eq!((e.kind, e.message.as_str()), (ErrorKind::Internal, "boom"));
    let e = APIError::upstream_failure("Failed to create domain: 503");
    assert_eq!(
        (e.kind, e.message.as_str()),
        (ErrorKind::UpstreamFailure, "Failed to create domain: 503")
    );
    let e = APIError::new(ErrorKind::NotFound, "");
    assert_eq!((e.kind, e.message.as_str()), (ErrorKind::NotFound, ""));
}

#[test]
fn the_response_carries_status_and_message() {
    let e = APIError::not_found("Server not found");
    assert_eq!(e.status(), 404);
    let body = e.into_response();
    assert_eq!(body.status, 404);
    assert_eq!(body.message, "Server not found");
    let body = APIError::internal_server_error("connection reset").into_response();
    assert_eq!(body.status, 500);
    assert_eq!(body.message, "connection reset");
}
