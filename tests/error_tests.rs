use anduflow::ExtractorError;
use std::io::Error as IoError;

#[test]
fn test_extract_ops_error() {
    let extractor_err = ExtractorError::ExtractOpsError("test error".to_string());

    match extractor_err {
        ExtractorError::ExtractOpsError(msg) => {
            assert_eq!(msg, "test error");
        }
        _ => panic!("Expected ExtractOpsError"),
    }
}

#[test]
fn test_standard_error() {
    let err = IoError::new(std::io::ErrorKind::Other, "test io error");
    let extractor_err: ExtractorError = err.into();

    match extractor_err {
        ExtractorError::StandardError(_) => {}
        _ => panic!("Expected StandardError"),
    }
}

#[test]
fn json_error_converts_to_serialization_error() {
    let err = serde_json::from_str::<serde_json::Value>("{").unwrap_err();
    let extractor_err: ExtractorError = err.into();
    assert!(matches!(extractor_err, ExtractorError::SerializationError(_)));
}

#[test]
fn object_store_error_converts() {
    let extractor_err: ExtractorError = object_store::Error::NotImplemented.into();
    assert!(matches!(extractor_err, ExtractorError::ObjectStoreError(_)));
}
