//! The agent's local server: its listening settings, its request shapes,
//! and how its routes answer a failure.
use vstd::prelude::*;
use crate::grpc::{GrpcCode, GrpcStatus};
use crate::messaging_auth::MessagingAuthErrorCodes;
use crate::provisioning::ProvisioningErrorCodes;

verus! {

/// Where the agent's local server listens.
pub struct Settings {
    pub url: String,
    pub port: i16,
    pub tls: bool,
}

/// The query of a manifest request: the provisioning code.
pub struct QueryParams {
    pub code: String,
}

/// The gRPC service that answers reads of the machine settings.
#[derive(Debug, Default)]
pub struct DeviceSettingServiceHandler {}

/// The answer of a route whose provisioning call failed with `detail`: an
/// invalid-argument status that says code generation failed.
pub fn provisioning_route_error(detail: &str) -> (r: GrpcStatus)
    ensures
        r.code == GrpcCode::InvalidArgument,
        r.message@ == "Provisioning code generation failed : "@ + detail@,
{
    GrpcStatus {
        code: GrpcCode::InvalidArgument,
        message: String::from_str("Provisioning code generation failed : ").concat(detail),
    }
}

#[verifier::external_type_specification]
#[verifier::external_body]
pub struct ExJsonValue(serde_json::Value);

/// `serde_json::Value::Object` of a new, empty `serde_json::Map`: the JSON
/// value `{}`. The value is opaque here; nothing is promised of it.
#[verifier::external_body]
fn empty_json_object() -> (r: serde_json::Value) {
    serde_json::Value::Object(serde_json::Map::new())
}

/// The body of a successful answer of the local server.
pub struct SuccessResponse {
    pub success: bool,
    pub status: String,
    pub status_code: i16,
    pub message: Option<String>,
    pub error_code: Option<String>,
    pub sub_errors: Option<String>,
    pub payload: serde_json::Value,
}

impl Default for SuccessResponse {
    /// A success with status `OK`, code 200, and the payload `{}`.
    fn default() -> (r: Self)
        ensures
            r.success,
            r.status@ == "OK"@,
            r.status_code == 200,
            r.message is None,
            r.error_code is None,
            r.sub_errors is None,
    {
        SuccessResponse {
            success: true,
            status: String::from_str("OK"),
            status_code: 200,
            message: None,
            error_code: None,
            sub_errors: None,
            payload: empty_json_object(),
        }
    }
}

/// The body of a failed answer of the local server.
pub struct ErrorResponse {
    pub success: bool,
    pub status: String,
    pub status_code: i16,
    pub message: Option<String>,
    pub error_code: String,
    pub sub_errors: Option<String>,
    pub payload: Option<serde_json::Value>,
}

impl Default for ErrorResponse {
    /// An internal server error: status `500 INTERNAL_SERVER_ERROR`, code 500.
    fn default() -> (r: Self)
        ensures
            !r.success,
            r.status@ == "500 INTERNAL_SERVER_ERROR"@,
            r.status_code == 500,
            r.error_code@ == "500"@,
            r.message is None,
            r.sub_errors is None,
            r.payload is None,
    {
        ErrorResponse {
            success: false,
            status: String::from_str("500 INTERNAL_SERVER_ERROR"),
            status_code: 500,
            message: None,
            error_code: String::from_str("500"),
            sub_errors: None,
            payload: None,
        }
    }
}

/// The status line, code and message a failed route answers with: a
/// `500 INTERNAL_SERVER_ERROR` with no message stands behind each.
pub open spec fn is_error_answer(
    r: ErrorResponse,
    status: Seq<char>,
    status_code: i16,
    error_code: Seq<char>,
    message: Seq<char>,
) -> bool {
    &&& !r.success
    &&& r.status@ == status
    &&& r.status_code == status_code
    &&& r.error_code@ == error_code
    &&& r.message matches Some(m) && m@ == message
    &&& r.sub_errors is None
    &&& r.payload is None
}

fn error_answer(status: &str, status_code: i16, error_code: &str, message: &str) -> (r: ErrorResponse)
    ensures
        is_error_answer(r, status@, status_code, error_code@, message@),
{
    ErrorResponse {
        success: false,
        status: String::from_str(status),
        status_code,
        message: Some(String::from_str(message)),
        error_code: String::from_str(error_code),
        sub_errors: None,
        payload: None,
    }
}

/// The answer to an unknown failure: the default error, with a message that
/// says so.
fn unknown_error_answer() -> (r: ErrorResponse)
    ensures
        is_error_answer(r, "500 INTERNAL_SERVER_ERROR"@, 500, "500"@, "Encountered an unknown error"@),
{
    let d = ErrorResponse::default();
    ErrorResponse { message: Some(String::from_str("Encountered an unknown error")), ..d }
}

/// The answer of a provisioning route that failed: by the provisioning
/// error's code when the failure is a provisioning error (`Some`), else an
/// unknown error.
pub fn error_provisioning_handler(code: Option<ProvisioningErrorCodes>) -> (r: ErrorResponse)
    ensures
        match code {
            Some(ProvisioningErrorCodes::ManifestationNotFound) => is_error_answer(
                r,
                "400 BAD REQUEST"@,
                400,
                "400"@,
                "Manifestation not found"@,
            ),
            Some(ProvisioningErrorCodes::CertificateGenerationFailed) => is_error_answer(
                r,
                "500 INTERNAL SERVER ERROR"@,
                500,
                "500"@,
                "Error while generating certificate"@,
            ),
            Some(ProvisioningErrorCodes::CsrSignedFailed) => is_error_answer(
                r,
                "500 INTERNAL SERVER ERROR"@,
                500,
                "500"@,
                "Error while signing csr"@,
            ),
            Some(ProvisioningErrorCodes::CertificateWriteFailed) => is_error_answer(
                r,
                "500 INTERNAL SERVER ERROR"@,
                500,
                "500"@,
                "Error while writing certificates to path specified in settings"@,
            ),
            _ => is_error_answer(r, "500 INTERNAL_SERVER_ERROR"@, 500, "500"@, "Encountered an unknown error"@),
        },
{
    match code {
        Some(ProvisioningErrorCodes::ManifestationNotFound) => error_answer(
            "400 BAD REQUEST",
            400,
            "400",
            "Manifestation not found",
        ),
        Some(ProvisioningErrorCodes::CertificateGenerationFailed) => error_answer(
            "500 INTERNAL SERVER ERROR",
            500,
            "500",
            "Error while generating certificate",
        ),
        Some(ProvisioningErrorCodes::CsrSignedFailed) => error_answer(
            "500 INTERNAL SERVER ERROR",
            500,
            "500",
            "Error while signing csr",
        ),
        Some(ProvisioningErrorCodes::CertificateWriteFailed) => error_answer(
            "500 INTERNAL SERVER ERROR",
            500,
            "500",
            "Error while writing certificates to path specified in settings",
        ),
        _ => unknown_error_answer(),
    }
}

/// The answer of the broker-credential route that failed: by the error's
/// code when the failure is a credential error (`Some`), else an unknown
/// error.
pub fn error_messaging_auth(code: Option<MessagingAuthErrorCodes>) -> (r: ErrorResponse)
    ensures
        match code {
            Some(MessagingAuthErrorCodes::AuthCredentialGenerationError) => is_error_answer(
                r,
                "500 INTERNAL SERVER ERROR"@,
                500,
                "500"@,
                "Error while generating auth credentials"@,
            ),
            None => is_error_answer(r, "500 INTERNAL_SERVER_ERROR"@, 500, "500"@, "Encountered an unknown error"@),
        },
{
    match code {
        Some(MessagingAuthErrorCodes::AuthCredentialGenerationError) => error_answer(
            "500 INTERNAL SERVER ERROR",
            500,
            "500",
            "Error while generating auth credentials",
        ),
        None => unknown_error_answer(),
    }
}

} // verus!
