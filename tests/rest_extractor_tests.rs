use anduflow::decode_failure;
use anduflow::Checkpoint;
use anduflow::ExtractFormat;
use anduflow::Extractor;
use anduflow::ExtractorError;
use anduflow::ExtractorResult;
use anduflow::RestExtractor;

fn ops_message(err: ExtractorError) -> String {
    match err {
        ExtractorError::ExtractOpsError(msg) => msg,
        other => panic!("expected an operation error, got {:?}", other),
    }
}

fn decode_message(err: ExtractorError) -> String {
    match err {
        ExtractorError::DecodeError(msg) => msg,
        other => panic!("expected a decode error, got {:?}", other),
    }
}

fn header<'a>(extractor: &'a RestExtractor, name: &str) -> Vec<&'a str> {
    extractor
        .headers()
        .iter()
        .filter(|(k, _)| k.eq_ignore_ascii_case(name))
        .map(|(_, v)| v.as_str())
        .collect()
}

#[test]
fn test_rest_extractor_new() {
    let extractor = RestExtractor::new("https://api.example.com", "data");
    assert_eq!(extractor.url().unwrap(), "https://api.example.com/data");
}

#[test]
fn test_rest_extractor_with_query_param() {
    let extractor = RestExtractor::new("https://api.example.com", "data")
        .with_query_param(&[("limit", "10"), ("offset", "0")]);
    assert!(extractor.url().unwrap().starts_with("https://api.example.com/data"));
}

#[test]
fn test_rest_extractor_with_header() {
    let extractor = RestExtractor::new("https://api.example.com", "data")
        .with_header("User-Agent", "Test-Agent/1.0");
    assert_eq!(extractor.url().unwrap(), "https://api.example.com/data");
}

#[test]
fn test_rest_extractor_with_auth_token() {
    let extractor = RestExtractor::new("https://api.example.com", "data").with_auth_token("test-token");
    assert_eq!(extractor.url().unwrap(), "https://api.example.com/data");
}

#[test]
fn test_rest_extractor_with_basic_auth() {
    let extractor = RestExtractor::new("https://api.example.com", "data").with_basic_auth("user", "pass");
    assert_eq!(extractor.url().unwrap(), "https://api.example.com/data");
}

#[test]
fn test_rest_extractor_with_method() {
    let extractor = RestExtractor::new("https://api.example.com", "data").with_method("POST");
    assert_eq!(extractor.url().unwrap(), "https://api.example.com/data");
}

#[test]
fn test_rest_extractor_source_name() {
    let extractor = RestExtractor::new("https://api.example.com", "data");
    assert_eq!(extractor.source_name().unwrap(), "RestExtractor");
}

#[test]
fn test_rest_extractor_extract_json() {
    let extractor = RestExtractor::new("http://127.0.0.1:5000", "api/data");
    assert_eq!(extractor.target(), "http://127.0.0.1:5000/api/data");
    let result = RestExtractor::decode_json(200, r#"{"id":1,"name":"test"}"#).unwrap();
    assert_eq!(result["id"], 1);
    assert_eq!(result["name"], "test");
}

#[test]
fn test_rest_extractor_post_with_json_body() {
    let mut body = serde_json::Map::new();
    body.insert("query".to_string(), serde_json::Value::String("test".to_string()));
    let extractor = RestExtractor::new("http://127.0.0.1:5000", "api/data")
        .with_method("POST")
        .with_json_body(&serde_json::Value::Object(body));
    assert_eq!(extractor.method(), "POST");
    assert_eq!(extractor.body().unwrap().as_slice(), br#"{"query":"test"}"#);
    assert_eq!(header(&extractor, "content-type"), vec!["application/json"]);

    let result = RestExtractor::decode_json(200, r#"{"result":"success"}"#).unwrap();
    assert_eq!(result["result"], "success");
}

#[test]
fn test_rest_extractor_error_handling() {
    let result = RestExtractor::decode_json(500, r#"{"error":"Internal server error"}"#);
    assert!(result.is_ok());
}

#[test]
fn base_and_endpoint_join_with_one_slash() {
    let cases = [
        ("https://api.example.com/", "/data"),
        ("https://api.example.com", "data"),
        ("https://api.example.com//", "data"),
        ("https://api.example.com", "///data"),
        ("https://api.example.com///", "//data"),
    ];
    for (base, endpoint) in cases {
        let extractor = RestExtractor::new(base, endpoint);
        assert_eq!(extractor.target(), "https://api.example.com/data");
        assert_eq!(extractor.url().unwrap(), "https://api.example.com/data");
    }
}

#[test]
fn join_keeps_inner_slashes_and_empty_parts() {
    assert_eq!(RestExtractor::new("https://h/v1/", "/a/b/").target(), "https://h/v1/a/b/");
    assert_eq!(RestExtractor::new("", "").target(), "/");
    assert_eq!(RestExtractor::new("///", "data").target(), "/data");
}

#[test]
fn new_defaults_to_get_with_empty_template() {
    let extractor = RestExtractor::new("https://api.example.com", "data");
    assert_eq!(extractor.method(), "GET");
    assert!(extractor.headers().is_empty());
    assert!(extractor.query().is_empty());
    assert!(extractor.body().is_none());
}

#[test]
fn method_change_keeps_headers_query_and_body() {
    let extractor = RestExtractor::new("https://api.example.com", "data")
        .with_header("X-Trace", "abc")
        .with_auth_token("tok")
        .with_query_param(&[("limit", "10")])
        .with_body(b"payload".to_vec())
        .with_method("PUT");
    assert_eq!(extractor.method(), "PUT");
    assert_eq!(header(&extractor, "x-trace"), vec!["abc"]);
    assert_eq!(header(&extractor, "authorization"), vec!["Bearer tok"]);
    assert_eq!(extractor.query(), &vec![("limit".to_string(), "10".to_string())]);
    assert_eq!(extractor.body().unwrap().as_slice(), b"payload");
    assert_eq!(extractor.url().unwrap(), "https://api.example.com/data?limit=10");
}

#[test]
fn invalid_method_falls_back_to_get() {
    let extractor = RestExtractor::new("https://api.example.com", "data").with_method("POST");
    assert_eq!(extractor.with_method("NOT A METHOD").method(), "GET");
    let extractor = RestExtractor::new("https://api.example.com", "data").with_method("");
    assert_eq!(extractor.method(), "GET");
    let extractor = RestExtractor::new("https://api.example.com", "data").with_method("PATCH");
    assert_eq!(extractor.method(), "PATCH");
    let extractor = RestExtractor::new("https://api.example.com", "data").with_method("X-Custom_1");
    assert_eq!(extractor.method(), "X-Custom_1");
    let extractor = RestExtractor::new("https://api.example.com", "data").with_method("PÖST");
    assert_eq!(extractor.method(), "GET");
}

#[test]
fn basic_auth_sets_encoded_credentials() {
    let extractor = RestExtractor::new("https://api.example.com", "data").with_basic_auth("user", "pass");
    assert_eq!(header(&extractor, "authorization"), vec!["Basic dXNlcjpwYXNz"]);
}

#[test]
fn token_applied_after_basic_auth_wins() {
    let extractor = RestExtractor::new("https://api.example.com", "data")
        .with_basic_auth("user", "pass")
        .with_auth_token("test-token");
    assert_eq!(header(&extractor, "authorization"), vec!["Bearer test-token"]);
    assert_eq!(extractor.headers().len(), 1);
}

#[test]
fn header_names_overwrite_regardless_of_case() {
    let extractor = RestExtractor::new("https://api.example.com", "data")
        .with_header("User-Agent", "one")
        .with_header("Accept", "text/plain")
        .with_header("user-agent", "two");
    assert_eq!(
        extractor.headers(),
        &vec![
            ("user-agent".to_string(), "two".to_string()),
            ("Accept".to_string(), "text/plain".to_string()),
        ]
    );
}

#[test]
fn json_body_keeps_existing_content_type() {
    let extractor = RestExtractor::new("https://api.example.com", "data")
        .with_header("Content-Type", "application/vnd.api+json")
        .with_json_body(&serde_json::Value::Bool(true));
    assert_eq!(header(&extractor, "content-type"), vec!["application/vnd.api+json"]);
    assert_eq!(extractor.body().unwrap().as_slice(), b"true");
}

#[test]
fn url_serializes_query_pairs() {
    let extractor = RestExtractor::new("https://api.example.com", "data")
        .with_query_param(&[("limit", "10"), ("offset", "0")])
        .with_query_param(&[("q", "a b&c")]);
    assert_eq!(
        extractor.url().unwrap(),
        "https://api.example.com/data?limit=10&offset=0&q=a+b%26c"
    );
}

#[test]
fn url_normalizes_scheme_and_host() {
    let extractor = RestExtractor::new("HTTPS://API.EXAMPLE.COM", "data");
    assert_eq!(extractor.url().unwrap(), "https://api.example.com/data");
}

#[test]
fn url_of_a_relative_target_is_none() {
    let extractor = RestExtractor::new("api.example.com", "data");
    assert_eq!(extractor.target(), "api.example.com/data");
    assert!(extractor.url().is_none());
}

#[test]
fn empty_body_fails_with_status() {
    let err = RestExtractor::decode_json(204, "").unwrap_err();
    assert_eq!(ops_message(err), "Empty response body (status: 204 No Content)");
    let err = RestExtractor::decode_json(500, " \n\t\r ").unwrap_err();
    assert_eq!(ops_message(err), "Empty response body (status: 500 Internal Server Error)");
}

#[test]
fn empty_body_with_unregistered_status() {
    let err = RestExtractor::decode_json(599, "").unwrap_err();
    assert_eq!(ops_message(err), "Empty response body (status: 599 <unknown status code>)");
    let err = RestExtractor::decode_json(42, "\u{3000}").unwrap_err();
    assert_eq!(ops_message(err), "Empty response body (status: 42 <unknown status code>)");
}

#[test]
fn malformed_body_quotes_its_start() {
    let err = RestExtractor::decode_json(200, "not json").unwrap_err();
    let msg = decode_message(err);
    assert!(msg.starts_with("Failed to parse JSON: expected ident"));
    assert!(msg.ends_with(". Response snippet: not json"));
}

#[test]
fn malformed_large_body_is_quoted_only_in_part() {
    let body = format!("<{}>", "x".repeat(5000));
    let err = RestExtractor::decode_json(200, &body).unwrap_err();
    let msg = decode_message(err);
    let snippet: String = body.chars().take(1024).collect();
    assert!(msg.ends_with(&format!(". Response snippet: {}", snippet)));
    assert!(msg.len() < 1024 + 200);
}

#[test]
fn snippet_counts_characters_not_bytes() {
    let body: String = "é".repeat(2000);
    let msg = decode_message(decode_failure("bad", &body));
    let snippet: String = "é".repeat(1024);
    assert_eq!(msg, format!("Failed to parse JSON: bad. Response snippet: {}", snippet));
}

#[test]
fn truncated_document_is_a_decode_error() {
    let err = RestExtractor::decode_json(200, r#"{"id":1,"#).unwrap_err();
    let msg = decode_message(err);
    assert!(msg.starts_with("Failed to parse JSON: EOF while parsing"));
    assert!(msg.ends_with(r#". Response snippet: {"id":1,"#));
}

#[test]
fn json_body_is_the_compact_text_of_the_value() {
    let value: serde_json::Value = serde_json::from_str(r#"{ "a" : [1, 2], "b" : null }"#).unwrap();
    let extractor = RestExtractor::new("https://api.example.com", "data").with_json_body(&value);
    assert_eq!(extractor.body().unwrap().as_slice(), br#"{"a":[1,2],"b":null}"#);
    assert_eq!(extractor.body().unwrap(), &serde_json::to_vec(&value).unwrap());
}

#[test]
fn set_checkpoint_leaves_adapter_unchanged() {
    let mut extractor = RestExtractor::new("https://api.example.com", "data").with_header("A", "1");
    assert!(extractor.set_checkpoint(Checkpoint("x".to_string())).is_err());
    assert_eq!(extractor.target(), "https://api.example.com/data");
    assert_eq!(extractor.headers(), &vec![("A".to_string(), "1".to_string())]);
    assert!(extractor.checkpoint().is_none());
}

#[test]
fn metadata_is_unsupported() {
    let extractor = RestExtractor::new("https://api.example.com", "data");
    let msg = ops_message(extractor.metadata().unwrap_err());
    assert_eq!(msg, "RestExtractor does not provide metadata");
}

#[test]
fn rest_adapter_has_no_incremental_support() {
    let mut extractor = RestExtractor::new("https://api.example.com", "data");
    assert!(!extractor.supports_incremental());
    assert!(extractor.checkpoint().is_none());
    let err = extractor.set_checkpoint(Checkpoint("42".to_string())).unwrap_err();
    assert_eq!(ops_message(err), "Source does not support incremental");
    assert!(RestExtractor::schema().is_none());
    assert!(RestExtractor::close().is_ok());
}

struct Fixed;

impl Extractor for Fixed {
    fn close() -> ExtractorResult<()> {
        Ok(())
    }

    fn source_name(&self) -> ExtractorResult<&str> {
        Ok("fixed")
    }
}

#[test]
fn default_adapter_refuses_checkpoints() {
    let mut source = Fixed;
    assert!(!source.supports_incremental());
    assert!(source.checkpoint().is_none());
    let err = source.set_checkpoint(Checkpoint("7".to_string())).unwrap_err();
    assert_eq!(ops_message(err), "Source does not support incremental");
    assert!(Fixed::schema().is_none());
}

#[test]
fn formats_compare_by_tag() {
    assert_eq!(ExtractFormat::Json, ExtractFormat::Json);
    assert_ne!(ExtractFormat::Text, ExtractFormat::Bytes);
    let copy = ExtractFormat::Bytes;
    assert_eq!(copy, ExtractFormat::Bytes);
}
