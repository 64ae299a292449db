use tosca_controller::error::{Error, ErrorKind};

#[test]
fn controller_error() {
    let error = Error::new(ErrorKind::Discovery, "Process failed.");

    assert_eq!(error.format(), r"Discovery: Process failed.");
}

#[test]
fn error_kind_descriptions() {
    assert_eq!(ErrorKind::InvalidParameter.description(), "Invalid Parameter");
    assert_eq!(ErrorKind::Sender.description(), "Response Sender");
    assert_eq!(ErrorKind::JsonResponse.description(), "Json Response");
    assert_eq!(ErrorKind::StreamResponse.description(), "Stream Response");
    let error = Error::new(ErrorKind::Events, "none");
    assert_eq!(error.kind(), ErrorKind::Events);
    assert_eq!(error.format(), "Events: none");
}
