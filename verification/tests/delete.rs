use toss::delete::{delete_outcome, parse_delete_param, DeleteRequest};
use toss::error::TransferError;

#[test]
fn splits_identifier_and_token() {
    assert_eq!(parse_delete_param("abc123/def456"), Some(("abc123", "def456")));
}

#[test]
fn splits_on_first_separator_only() {
    assert_eq!(parse_delete_param("abc123/def/456"), Some(("abc123", "def/456")));
}

#[test]
fn without_separator_there_is_nothing_to_split() {
    assert_eq!(parse_delete_param("abc123"), None);
    assert_eq!(parse_delete_param(""), None);
}

#[test]
fn empty_parts_are_kept() {
    assert_eq!(parse_delete_param("/"), Some(("", "")));
    assert_eq!(parse_delete_param("/token"), Some(("", "token")));
    assert_eq!(parse_delete_param("id/"), Some(("id", "")));
    assert_eq!(parse_delete_param("//"), Some(("", "/")));
}

#[test]
fn splits_by_characters_not_bytes() {
    assert_eq!(parse_delete_param("dätei/schlüssel"), Some(("dätei", "schlüssel")));
    assert_eq!(parse_delete_param("日本/語"), Some(("日本", "語")));
}

#[test]
fn request_is_parsed_from_composite_argument() {
    let request = DeleteRequest::parse("abc123/def456").unwrap();
    assert_eq!(request.identifier(), "abc123");
    assert_eq!(request.deletion_token(), "def456");
}

#[test]
fn request_keeps_later_separators_in_token() {
    let request = DeleteRequest::parse("abc123/def/456").unwrap();
    assert_eq!(request.identifier(), "abc123");
    assert_eq!(request.deletion_token(), "def/456");
}

#[test]
fn request_without_separator_is_invalid_argument() {
    assert_eq!(DeleteRequest::parse("abc123"), Err(TransferError::InvalidArgument));
    assert_eq!(DeleteRequest::parse(""), Err(TransferError::InvalidArgument));
}

#[test]
fn joining_the_parts_gives_the_argument_back() {
    for param in ["a/b", "abc123/def/456", "/", "x/", "/y", "p/q/r/s"] {
        let request = DeleteRequest::parse(param).unwrap();
        assert!(!request.identifier().contains('/'));
        assert_eq!(format!("{}/{}", request.identifier(), request.deletion_token()), param);
    }
}

#[test]
fn delete_success_is_success() {
    assert_eq!(delete_outcome(Ok(())), Ok(()));
}

#[test]
fn delete_failure_keeps_the_transport_message() {
    assert_eq!(
        delete_outcome(Err("Failed to delete file: 404 Not Found".to_string())),
        Err(TransferError::TransportError("Failed to delete file: 404 Not Found".to_string()))
    );
}

#[test]
fn second_delete_is_reported_by_its_own_answer() {
    let first = delete_outcome(Ok(()));
    let second = delete_outcome(Err("already gone".to_string()));
    assert_eq!(first, Ok(()));
    assert_eq!(second, Err(TransferError::TransportError("already gone".to_string())));
    let third = delete_outcome(Ok(()));
    assert_eq!(third, Ok(()));
}

#[test]
fn error_messages() {
    assert_eq!(TransferError::IoError("No such file".to_string()).message(), "No such file");
    assert_eq!(
        TransferError::TransportError("WebSocket closed unexpectedly".to_string()).message(),
        "WebSocket closed unexpectedly"
    );
    assert_eq!(
        TransferError::InvalidArgument.message(),
        "Invalid format for --delete. Use 'file_identifier/deletion_token' (e.g., 'abc123/def456')"
    );
    assert_eq!(
        TransferError::ConfigurationError.message(),
        "The provided chunk size is not a valid integer."
    );
}
