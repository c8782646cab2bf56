use vstd::prelude::*;
use vstd::string::*;

use crate::error::StoreError;

verus! {

/// Base URL of the remote encryption service.
pub const API_BASE_URL: &'static str = "https://localhost:7102/Lain";

/// The two requests that transform a folder.
#[derive(Debug, Clone, Copy, PartialEq, Eq, Structural)]
pub enum CryptoOperation {
    Encrypt,
    Decrypt,
}

pub open spec fn operation_path(op: CryptoOperation) -> Seq<char> {
    match op {
        CryptoOperation::Encrypt => "/encrypt"@,
        CryptoOperation::Decrypt => "/decrypt"@,
    }
}

/// The acknowledgement returned once the service accepted a request.
pub open spec fn acknowledgement(op: CryptoOperation) -> Seq<char> {
    match op {
        CryptoOperation::Encrypt => "Encryption request sent with full folder path."@,
        CryptoOperation::Decrypt => "Decryption request sent with full folder path."@,
    }
}

/// The message of a request that the service refused.
pub open spec fn refusal(op: CryptoOperation) -> Seq<char> {
    match op {
        CryptoOperation::Encrypt => "Error occurred during encryption."@,
        CryptoOperation::Decrypt => "Error occurred during decryption."@,
    }
}

/// The message of a request that could not be sent.
pub open spec fn send_failure(detail: Seq<char>) -> Seq<char> {
    "Failed to send request: "@ + detail
}

/// A status in the 2xx range.
pub open spec fn success_status(status: u16) -> bool {
    200 <= status <= 299
}

/// What came of sending a request: the transport failed, or the service
/// answered with a status.
#[derive(Debug, Clone, PartialEq, Eq)]
pub enum Transport {
    Unreachable(String),
    Answered(u16),
}

/// The payload posted to the service for a folder.
#[derive(Debug, Clone, PartialEq, Eq)]
pub struct CryptoRequest {
    pub key: String,
    pub iv: String,
    pub file_path: String,
    pub excluded_files: Vec<String>,
}

/// After the connection check was sent: read the body, or stop with a result.
#[derive(Debug, PartialEq, Eq)]
pub enum CheckStep {
    ReadBody,
    Finished(Result<String, StoreError>),
}

/// The URL a folder request is posted to.
pub fn operation_url(op: CryptoOperation) -> (r: String)
    ensures
        r@ == API_BASE_URL@ + operation_path(op),
{
    let base = String::from_str(API_BASE_URL);
    match op {
        CryptoOperation::Encrypt => base.concat("/encrypt"),
        CryptoOperation::Decrypt => base.concat("/decrypt"),
    }
}

/// The URL of the service's health check.
pub fn connection_check_url() -> (r: String)
    ensures
        r@ == API_BASE_URL@ + "/ConnectionCheck"@,
{
    String::from_str(API_BASE_URL).concat("/ConnectionCheck")
}

/// Whether a status reports success.
pub fn is_success(status: u16) -> (r: bool)
    ensures
        r == success_status(status),
{
    200 <= status && status <= 299
}

/// The payload for a folder request, from the folder's absolute path when
/// that folder exists, or `None` when it does not.
pub fn crypto_request(
    folder: Option<String>,
    excluded_files: Vec<String>,
    key: String,
    iv: String,
) -> (r: Result<CryptoRequest, StoreError>)
    ensures
        match folder {
            None => r matches Err(StoreError::NotFound(m)) && m@ == "User directory not found."@,
            Some(path) => r == Ok::<CryptoRequest, StoreError>(
                (CryptoRequest { key, iv, file_path: path, excluded_files }),
            ),
        },
{
    match folder {
        None => Err(StoreError::NotFound(String::from_str("User directory not found."))),
        Some(path) => Ok(CryptoRequest { key, iv, file_path: path, excluded_files }),
    }
}

/// The outcome of a folder request, from what came of sending it. Only the
/// status is looked at: the service's work itself is not checked.
pub fn crypto_outcome(op: CryptoOperation, sent: Transport) -> (r: Result<String, StoreError>)
    ensures
        match sent {
            Transport::Unreachable(detail) => r matches Err(StoreError::Network(m)) && m@
                == send_failure(detail@),
            Transport::Answered(status) => if success_status(status) {
                r matches Ok(ack) && ack@ == acknowledgement(op)
            } else {
                r matches Err(StoreError::Network(m)) && m@ == refusal(op)
            },
        },
{
    match sent {
        Transport::Unreachable(detail) => Err(
            StoreError::Network(String::from_str("Failed to send request: ").concat(detail.as_str())),
        ),
        Transport::Answered(status) => {
            if is_success(status) {
                match op {
                    CryptoOperation::Encrypt => Ok(
                        String::from_str("Encryption request sent with full folder path."),
                    ),
                    CryptoOperation::Decrypt => Ok(
                        String::from_str("Decryption request sent with full folder path."),
                    ),
                }
            } else {
                match op {
                    CryptoOperation::Encrypt => Err(
                        StoreError::Network(String::from_str("Error occurred during encryption.")),
                    ),
                    CryptoOperation::Decrypt => Err(
                        StoreError::Network(String::from_str("Error occurred during decryption.")),
                    ),
                }
            }
        },
    }
}

/// The next step of a connection check, from what came of sending it: a
/// transport failure or a failing status ends it with a network error; a
/// success goes on to read the body.
pub fn connection_step(sent: Transport) -> (r: CheckStep)
    ensures
        match sent {
            Transport::Unreachable(detail) => r matches CheckStep::Finished(
                Err(StoreError::Network(m)),
            ) && m@ == send_failure(detail@),
            Transport::Answered(status) => if success_status(status) {
                r == CheckStep::ReadBody
            } else {
                r matches CheckStep::Finished(Err(StoreError::Network(m))) && m@
                    == "Error occurred while checking connection."@
            },
        },
{
    match sent {
        Transport::Unreachable(detail) => CheckStep::Finished(
            Err(StoreError::Network(String::from_str("Failed to send request: ").concat(detail.as_str()))),
        ),
        Transport::Answered(status) => {
            if is_success(status) {
                CheckStep::ReadBody
            } else {
                CheckStep::Finished(
                    Err(StoreError::Network(String::from_str("Error occurred while checking connection."))),
                )
            }
        },
    }
}

/// The result of a connection check whose status was a success, from the
/// outcome of reading the body: the body itself, or a network error.
pub fn connection_body(read: Result<String, String>) -> (r: Result<String, StoreError>)
    ensures
        match read {
            Ok(body) => r == Ok::<String, StoreError>(body),
            Err(detail) => r matches Err(StoreError::Network(m)) && m@ == "Failed to read response: "@
                + detail@,
        },
{
    match read {
        Ok(body) => Ok(body),
        Err(detail) => Err(
            StoreError::Network(String::from_str("Failed to read response: ").concat(detail.as_str())),
        ),
    }
}

} // verus!
