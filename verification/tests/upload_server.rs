use kimage::config::ServerConfig;
use kimage::server::MultipartField;
use kimage::server::ServeOutcome;
use kimage::server::UploadOutcome;
use kimage::server::concat_chunks;
use kimage::server::handle_upload;
use kimage::server::png_content_type;
use kimage::server::serve_response;
use kimage::server::stored_file_path;

fn test_config() -> ServerConfig {
    ServerConfig {
        port: 8080,
        api_key: String::from("test-api-key"),
        storage_path: String::from("/srv/images"),
        server_url: String::from("http://localhost:8080"),
    }
}

fn image_field(data: &[u8]) -> MultipartField {
    MultipartField { name: String::from("image"), chunks: vec![data.to_vec()] }
}

fn is_alnum(c: char) -> bool {
    c.is_ascii_alphanumeric()
}

#[test]
fn upload_roundtrip_stores_decoded_bytes() {
    let config = test_config();
    let auth = Some(String::from("test-api-key"));
    let fields = vec![image_field(b"aGVsbG8=")];
    let outcome = handle_upload(&config, &auth, &fields);
    assert_eq!(outcome.status(), 200);
    match outcome {
        UploadOutcome::Store { filename, path, url, bytes } => {
            assert_eq!(bytes, b"hello".to_vec());
            assert_eq!(filename.len(), 14);
            assert!(filename.ends_with(".png"));
            assert!(filename.chars().take(10).all(is_alnum));
            assert_eq!(path, format!("/srv/images/{}", filename));
            assert_eq!(url, format!("http://localhost:8080/{}", filename));
        },
        _ => panic!("expected a store outcome"),
    }
}

#[test]
fn authorize_requires_exact_key() {
    let config = test_config();
    assert!(kimage::server::authorize(&config, &Some(String::from("test-api-key"))));
    assert!(!kimage::server::authorize(&config, &Some(String::from("test-api-key "))));
    assert!(!kimage::server::authorize(&config, &None));
}

#[test]
fn upload_wrong_key_unauthorized() {
    let config = test_config();
    let auth = Some(String::from("not-the-key"));
    let fields = vec![image_field(b"aGVsbG8=")];
    let outcome = handle_upload(&config, &auth, &fields);
    assert!(matches!(outcome, UploadOutcome::Unauthorized));
    assert_eq!(outcome.status(), 401);
}

#[test]
fn upload_missing_auth_unauthorized() {
    let config = test_config();
    let fields = vec![image_field(b"aGVsbG8=")];
    let outcome = handle_upload(&config, &None, &fields);
    assert!(matches!(outcome, UploadOutcome::Unauthorized));
    assert_eq!(outcome.status(), 401);
}

#[test]
fn upload_no_image_field_bad_request() {
    let config = test_config();
    let auth = Some(String::from("test-api-key"));
    let fields = vec![
        MultipartField { name: String::from("picture"), chunks: vec![b"aGVsbG8=".to_vec()] },
        MultipartField { name: String::from("note"), chunks: vec![b"hi".to_vec()] },
    ];
    let outcome = handle_upload(&config, &auth, &fields);
    assert!(matches!(outcome, UploadOutcome::MissingField));
    assert_eq!(outcome.status(), 400);
}

#[test]
fn upload_bad_base64_bad_request() {
    let config = test_config();
    let auth = Some(String::from("test-api-key"));
    let fields = vec![image_field(b"!!!not base64!!!")];
    let outcome = handle_upload(&config, &auth, &fields);
    assert!(matches!(outcome, UploadOutcome::BadBase64));
    assert_eq!(outcome.status(), 400);
}

#[test]
fn upload_unpadded_base64_rejected() {
    let config = test_config();
    let auth = Some(String::from("test-api-key"));
    let fields = vec![image_field(b"aGk")];
    let outcome = handle_upload(&config, &auth, &fields);
    assert!(matches!(outcome, UploadOutcome::BadBase64));
}

#[test]
fn upload_nonzero_trailing_bits_rejected() {
    let config = test_config();
    let auth = Some(String::from("test-api-key"));
    // "aGl=" carries nonzero bits after the two encoded bytes.
    let fields = vec![image_field(b"aGl=")];
    let outcome = handle_upload(&config, &auth, &fields);
    assert!(matches!(outcome, UploadOutcome::BadBase64));
}

#[test]
fn upload_first_image_field_wins() {
    let config = test_config();
    let auth = Some(String::from("test-api-key"));
    let fields = vec![
        MultipartField { name: String::from("other"), chunks: vec![b"x".to_vec()] },
        image_field(b"Zmlyc3Q="),
        image_field(b"c2Vjb25k"),
    ];
    match handle_upload(&config, &auth, &fields) {
        UploadOutcome::Store { bytes, .. } => assert_eq!(bytes, b"first".to_vec()),
        _ => panic!("expected a store outcome"),
    }
}

#[test]
fn upload_chunked_field_concatenated() {
    let config = test_config();
    let auth = Some(String::from("test-api-key"));
    let field = MultipartField {
        name: String::from("image"),
        chunks: vec![b"aGVs".to_vec(), b"bG8=".to_vec()],
    };
    match handle_upload(&config, &auth, &vec![field]) {
        UploadOutcome::Store { bytes, .. } => assert_eq!(bytes, b"hello".to_vec()),
        _ => panic!("expected a store outcome"),
    }
}

#[test]
fn concat_chunks_preserves_order() {
    let chunks = vec![b"ab".to_vec(), vec![], b"c".to_vec(), b"def".to_vec()];
    assert_eq!(concat_chunks(&chunks), b"abcdef".to_vec());
}

#[test]
fn serve_found_returns_identical_bytes() {
    let content = vec![1u8, 2, 3, 255, 0];
    let outcome = serve_response(Some(content.clone()));
    assert_eq!(outcome.status(), 200);
    match outcome {
        ServeOutcome::Found { bytes } => assert_eq!(bytes, content),
        _ => panic!("expected a found outcome"),
    }
}

#[test]
fn serve_missing_is_not_found() {
    let outcome = serve_response(None);
    assert!(matches!(outcome, ServeOutcome::NotFound));
    assert_eq!(outcome.status(), 404);
}

#[test]
fn stored_file_path_joins_under_storage() {
    let config = test_config();
    assert_eq!(stored_file_path(&config, "abc.png"), "/srv/images/abc.png");
}

#[test]
fn served_content_type_is_png() {
    assert_eq!(png_content_type(), "image/png");
}
