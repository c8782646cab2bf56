use markdown_vault::error::StoreError;
use markdown_vault::greeting::greet;
use markdown_vault::remote::{
    connection_body, connection_check_url, connection_step, crypto_outcome, crypto_request,
    is_success, operation_url, CheckStep, CryptoOperation, CryptoRequest, Transport,
};

#[test]
fn urls_of_the_service() {
    assert_eq!(operation_url(CryptoOperation::Encrypt), "https://localhost:7102/Lain/encrypt");
    assert_eq!(operation_url(CryptoOperation::Decrypt), "https://localhost:7102/Lain/decrypt");
    assert_eq!(connection_check_url(), "https://localhost:7102/Lain/ConnectionCheck");
}

#[test]
fn success_is_the_2xx_range() {
    assert!(!is_success(199));
    assert!(is_success(200));
    assert!(is_success(299));
    assert!(!is_success(300));
    assert!(!is_success(500));
}

#[test]
fn request_for_existing_folder() {
    let r = crypto_request(
        Some("/home/u/markdown_files/alice".to_string()),
        vec!["keep.md".to_string()],
        "k".to_string(),
        "v".to_string(),
    );
    assert_eq!(
        r,
        Ok(CryptoRequest {
            key: "k".to_string(),
            iv: "v".to_string(),
            file_path: "/home/u/markdown_files/alice".to_string(),
            excluded_files: vec!["keep.md".to_string()],
        })
    );
}

#[test]
fn request_for_missing_folder_is_not_found() {
    let r = crypto_request(None, vec![], "k".to_string(), "v".to_string());
    assert_eq!(r, Err(StoreError::NotFound("User directory not found.".to_string())));
}

#[test]
fn outcomes_of_folder_requests() {
    assert_eq!(
        crypto_outcome(CryptoOperation::Encrypt, Transport::Answered(200)),
        Ok("Encryption request sent with full folder path.".to_string())
    );
    assert_eq!(
        crypto_outcome(CryptoOperation::Decrypt, Transport::Answered(204)),
        Ok("Decryption request sent with full folder path.".to_string())
    );
    assert_eq!(
        crypto_outcome(CryptoOperation::Encrypt, Transport::Answered(500)),
        Err(StoreError::Network("Error occurred during encryption.".to_string()))
    );
    assert_eq!(
        crypto_outcome(CryptoOperation::Decrypt, Transport::Answered(404)),
        Err(StoreError::Network("Error occurred during decryption.".to_string()))
    );
    assert_eq!(
        crypto_outcome(CryptoOperation::Decrypt, Transport::Unreachable("refused".to_string())),
        Err(StoreError::Network("Failed to send request: refused".to_string()))
    );
}

#[test]
fn unreachable_connection_check_is_network_error() {
    match connection_step(Transport::Unreachable("connection refused".to_string())) {
        CheckStep::Finished(Err(StoreError::Network(m))) => {
            assert_eq!(m, "Failed to send request: connection refused")
        }
        other => panic!("unexpected {:?}", other),
    }
}

#[test]
fn connection_check_steps() {
    assert_eq!(connection_step(Transport::Answered(200)), CheckStep::ReadBody);
    assert_eq!(
        connection_step(Transport::Answered(503)),
        CheckStep::Finished(Err(StoreError::Network(
            "Error occurred while checking connection.".to_string()
        )))
    );
    assert_eq!(connection_body(Ok("alive".to_string())), Ok("alive".to_string()));
    assert_eq!(
        connection_body(Err("eof".to_string())),
        Err(StoreError::Network("Failed to read response: eof".to_string()))
    );
}

#[test]
fn greeting_text() {
    assert_eq!(greet("Lain"), "Hello, Lain! You've been greeted from Rust!");
}
