//! The provisioning service: its errors, its requests to the provisioning
//! server, the files it writes and removes, and its subscription task.
use vstd::prelude::*;
use crate::text::{code_message_string, code_message_text};
use crate::grpc::{GrpcCode, GrpcStatus};
use crate::outside::{json_string_array, sha256_hex, spec_json_string_array, spec_sha256_hex, random_alphanumeric, to_uppercase};
use crate::text::{all_ascii, ascii_upper, contains_seq, str_contains, str_equal, string_views, is_ascii_alphanumeric_char};
use crate::agent_settings::ProvisioningSettings;
use crate::events::{cancel_owed, cleared, AgentEvent, SlotCommand, TaskSlot};

verus! {

/// Error codes of the provisioning service.
#[derive(Debug, Default, Clone, Copy, PartialEq, Eq, Structural)]
pub enum ProvisioningErrorCodes {
    #[default]
    UnknownError,
    UnauthorizedError,
    NotFoundError,
    BadRequestError,
    UnreachableError,
    InternalServerError,
    CSRSignReadFileError,
    CertificateWriteError,
    SendEventError,
    SettingsDatabaseDeleteError,
    ParseResponseError,
    ChannelSendMessageError,
    ChannelReceiveMessageError,
    MachineMismatchError,
    ExtractMessagePayloadError,
    DeprovisioningError,
    SubscribeToNatsError,
    PayloadDeserializationError,
    InvalidMachineIdError,
    ManifestationNotFound,
    CertificateGenerationFailed,
    CsrSignedFailed,
    CertificateWriteFailed,
}

impl ProvisioningErrorCodes {
    /// The variant's name, as `{:?}` prints it.
    pub open spec fn spec_name(self) -> Seq<char> {
        match self {
            ProvisioningErrorCodes::UnknownError => "UnknownError"@,
            ProvisioningErrorCodes::UnauthorizedError => "UnauthorizedError"@,
            ProvisioningErrorCodes::NotFoundError => "NotFoundError"@,
            ProvisioningErrorCodes::BadRequestError => "BadRequestError"@,
            ProvisioningErrorCodes::UnreachableError => "UnreachableError"@,
            ProvisioningErrorCodes::InternalServerError => "InternalServerError"@,
            ProvisioningErrorCodes::CSRSignReadFileError => "CSRSignReadFileError"@,
            ProvisioningErrorCodes::CertificateWriteError => "CertificateWriteError"@,
            ProvisioningErrorCodes::SendEventError => "SendEventError"@,
            ProvisioningErrorCodes::SettingsDatabaseDeleteError => "SettingsDatabaseDeleteError"@,
            ProvisioningErrorCodes::ParseResponseError => "ParseResponseError"@,
            ProvisioningErrorCodes::ChannelSendMessageError => "ChannelSendMessageError"@,
            ProvisioningErrorCodes::ChannelReceiveMessageError => "ChannelReceiveMessageError"@,
            ProvisioningErrorCodes::MachineMismatchError => "MachineMismatchError"@,
            ProvisioningErrorCodes::ExtractMessagePayloadError => "ExtractMessagePayloadError"@,
            ProvisioningErrorCodes::DeprovisioningError => "DeprovisioningError"@,
            ProvisioningErrorCodes::SubscribeToNatsError => "SubscribeToNatsError"@,
            ProvisioningErrorCodes::PayloadDeserializationError => "PayloadDeserializationError"@,
            ProvisioningErrorCodes::InvalidMachineIdError => "InvalidMachineIdError"@,
            ProvisioningErrorCodes::ManifestationNotFound => "ManifestationNotFound"@,
            ProvisioningErrorCodes::CertificateGenerationFailed => "CertificateGenerationFailed"@,
            ProvisioningErrorCodes::CsrSignedFailed => "CsrSignedFailed"@,
            ProvisioningErrorCodes::CertificateWriteFailed => "CertificateWriteFailed"@,
        }
    }

    /// The code's display text.
    pub open spec fn spec_text(self) -> Seq<char> {
        "ProvisioningErrorCodes: "@ + self.spec_name()
    }

    /// The variant's name, as `{:?}` prints it.
    pub fn name(&self) -> (r: String)
        ensures
            r@ == self.spec_name(),
    {
        match self {
            ProvisioningErrorCodes::UnknownError => String::from_str("UnknownError"),
            ProvisioningErrorCodes::UnauthorizedError => String::from_str("UnauthorizedError"),
            ProvisioningErrorCodes::NotFoundError => String::from_str("NotFoundError"),
            ProvisioningErrorCodes::BadRequestError => String::from_str("BadRequestError"),
            ProvisioningErrorCodes::UnreachableError => String::from_str("UnreachableError"),
            ProvisioningErrorCodes::InternalServerError => String::from_str("InternalServerError"),
            ProvisioningErrorCodes::CSRSignReadFileError => String::from_str("CSRSignReadFileError"),
            ProvisioningErrorCodes::CertificateWriteError => String::from_str("CertificateWriteError"),
            ProvisioningErrorCodes::SendEventError => String::from_str("SendEventError"),
            ProvisioningErrorCodes::SettingsDatabaseDeleteError => String::from_str("SettingsDatabaseDeleteError"),
            ProvisioningErrorCodes::ParseResponseError => String::from_str("ParseResponseError"),
            ProvisioningErrorCodes::ChannelSendMessageError => String::from_str("ChannelSendMessageError"),
            ProvisioningErrorCodes::ChannelReceiveMessageError => String::from_str("ChannelReceiveMessageError"),
            ProvisioningErrorCodes::MachineMismatchError => String::from_str("MachineMismatchError"),
            ProvisioningErrorCodes::ExtractMessagePayloadError => String::from_str("ExtractMessagePayloadError"),
            ProvisioningErrorCodes::DeprovisioningError => String::from_str("DeprovisioningError"),
            ProvisioningErrorCodes::SubscribeToNatsError => String::from_str("SubscribeToNatsError"),
            ProvisioningErrorCodes::PayloadDeserializationError => String::from_str("PayloadDeserializationError"),
            ProvisioningErrorCodes::InvalidMachineIdError => String::from_str("InvalidMachineIdError"),
            ProvisioningErrorCodes::ManifestationNotFound => String::from_str("ManifestationNotFound"),
            ProvisioningErrorCodes::CertificateGenerationFailed => String::from_str("CertificateGenerationFailed"),
            ProvisioningErrorCodes::CsrSignedFailed => String::from_str("CsrSignedFailed"),
            ProvisioningErrorCodes::CertificateWriteFailed => String::from_str("CertificateWriteFailed"),
        }
    }

    /// The code's display text.
    pub fn to_string(&self) -> (r: String)
        ensures
            r@ == self.spec_text(),
    {
        String::from_str("ProvisioningErrorCodes: ").concat(self.name().as_str())
    }
}

/// A provisioning service error: a code and a message.
#[derive(Debug)]
pub struct ProvisioningError {
    pub code: ProvisioningErrorCodes,
    pub message: String,
}

impl ProvisioningError {
    /// The error's display text.
    pub open spec fn spec_text(&self) -> Seq<char> {
        code_message_text("ProvisioningErrorCodes:"@, self.code.spec_name(), self.message@)
    }

    /// Builds the error. `capture_error` asks for the error to be reported to
    /// the error tracker, which the application does; the value is the same
    /// either way.
    #[allow(unused_variables)]
    pub fn new(code: ProvisioningErrorCodes, message: String, capture_error: bool) -> (r: Self)
        ensures
            r.code == code,
            r.message@ == message@,
    {
        Self { code, message }
    }

    /// The error's display text.
    pub fn to_string(&self) -> (r: String)
        ensures
            r@ == self.spec_text(),
    {
        code_message_string("ProvisioningErrorCodes:", self.code.name().as_str(), self.message.as_str())
    }
}

/// The gRPC status a provisioning error is answered with: the message is
/// kept, the code is chosen by the error code.
pub open spec fn spec_provisioning_grpc_code(code: ProvisioningErrorCodes) -> GrpcCode {
    match code {
        ProvisioningErrorCodes::UnauthorizedError => GrpcCode::Unauthenticated,
        ProvisioningErrorCodes::NotFoundError => GrpcCode::NotFound,
        ProvisioningErrorCodes::BadRequestError => GrpcCode::InvalidArgument,
        ProvisioningErrorCodes::UnreachableError => GrpcCode::Unavailable,
        _ => GrpcCode::Unknown,
    }
}

pub fn map_provisioning_error_to_tonic(code: ProvisioningErrorCodes, message: String) -> (r: GrpcStatus)
    ensures
        r.code == spec_provisioning_grpc_code(code),
        r.message@ == message@,
{
    let c = match code {
        ProvisioningErrorCodes::UnauthorizedError => GrpcCode::Unauthenticated,
        ProvisioningErrorCodes::NotFoundError => GrpcCode::NotFound,
        ProvisioningErrorCodes::BadRequestError => GrpcCode::InvalidArgument,
        ProvisioningErrorCodes::UnreachableError => GrpcCode::Unavailable,
        _ => GrpcCode::Unknown,
    };
    GrpcStatus { code: c, message }
}

/// An error payload of the provisioning server.
pub struct ErrorResponse {
    pub status: i32,
    pub message: String,
}

/// The answer to a ping of the provisioning server.
#[derive(Debug)]
pub struct PingResponse {
    pub code: String,
    pub message: String,
}

/// The envelope in which the provisioning server answers.
pub struct ProvisioningServerResponseGeneric<T> {
    pub success: bool,
    pub status: String,
    pub status_code: i16,
    pub message: Option<String>,
    pub error_code: Option<String>,
    pub sub_errors: Option<String>,
    pub payload: T,
}

/// What the provisioning server knows of a provisioning code.
pub struct ProvisioningManifest {
    pub machine_id: String,
    pub cert_sign_url: String,
    pub cert_valid_upto: String,
}

/// Why a certificate is asked for.
#[derive(Debug, Clone, Copy, PartialEq, Eq, Structural)]
pub enum CertSignRequestType {
    Provision,
    ReIssue,
}

/// A request to sign the machine's certificate signing request.
pub struct SignCSRRequest {
    pub csr: String,
    pub machine_id: String,
    pub request_type: CertSignRequestType,
}

/// The certificates the server signed or holds for the machine.
pub struct SignedCertificates {
    pub cert: String,
    pub root_cert: String,
    pub ca_bundle: Vec<String>,
}

/// The subscriptions the provisioning service holds; `S` is the messaging
/// client's subscription handle.
pub struct ProvisioningSubscriber<S> {
    pub de_provisioning_request: Option<S>,
    pub re_issue_certificate: Option<S>,
}

/// The subjects the provisioning service subscribes to.
pub enum ProvisioningSubject {
    DeProvision(String),
    ReIssueCertificate(String),
}

/// Removal of the machine's files, for the de-provisioning.
pub trait FileSystem {
    /// Removes each of `files`.
    fn remove_files(&self, files: Vec<String>) -> Result<(), String>;

    /// Removes the directory at `path` and all it holds.
    fn remove_dir_all(&self, path: &str) -> Result<(), String>;
}

/// `machine.<sha256 of machine id>.deprovision`
pub open spec fn spec_deprovision_subject(machine_id: Seq<char>) -> Seq<char> {
    "machine."@ + spec_sha256_hex(machine_id) + ".deprovision"@
}

/// `machine.<sha256 of machine id>.provisioning.cert.re_issue`
pub open spec fn spec_re_issue_subject(machine_id: Seq<char>) -> Seq<char> {
    "machine."@ + spec_sha256_hex(machine_id) + ".provisioning.cert.re_issue"@
}

/// The subjects the provisioning service subscribes to for a machine: its
/// de-provisioning requests, then its certificate re-issue requests.
pub fn provisioning_subjects(machine_id: &str) -> (r: Vec<ProvisioningSubject>)
    ensures
        r@.len() == 2,
        r@[0] matches ProvisioningSubject::DeProvision(s) && s@ == spec_deprovision_subject(machine_id@),
        r@[1] matches ProvisioningSubject::ReIssueCertificate(s) && s@ == spec_re_issue_subject(
            machine_id@,
        ),
{
    let h = sha256_hex(machine_id);
    let mut r = Vec::new();
    r.push(
        ProvisioningSubject::DeProvision(
            String::from_str("machine.").concat(h.as_str()).concat(".deprovision"),
        ),
    );
    r.push(
        ProvisioningSubject::ReIssueCertificate(
            String::from_str("machine.").concat(h.as_str()).concat(".provisioning.cert.re_issue"),
        ),
    );
    r
}

/// What came of an HTTP request: no answer, or an answer with a status.
pub enum HttpOutcome {
    /// The request failed before an answer came; the error's text.
    Unreachable { error: String },
    /// The server answered with this status code.
    Answered { status: u16 },
}

/// The result of pinging the provisioning server: any 2xx answer is
/// success; 401, 404, 400 and 500 have codes of their own; no answer is
/// `UnreachableError`.
pub open spec fn spec_ping_error(outcome: HttpOutcome) -> Option<(ProvisioningErrorCodes, Seq<char>)> {
    match outcome {
        HttpOutcome::Unreachable { error } => Some(
            (
                ProvisioningErrorCodes::UnreachableError,
                "ping call returned error num - 1007, error - "@ + error@,
            ),
        ),
        HttpOutcome::Answered { status } => if 200 <= status <= 299 {
            None
        } else if status == 401 {
            Some(
                (
                    ProvisioningErrorCodes::UnauthorizedError,
                    "ping call returned unauthorized error num - 1002"@,
                ),
            )
        } else if status == 404 {
            Some((ProvisioningErrorCodes::NotFoundError, "ping call returned not found error num - 1003"@))
        } else if status == 400 {
            Some((ProvisioningErrorCodes::BadRequestError, "ping call returned bad request num - 1004"@))
        } else if status == 500 {
            Some(
                (
                    ProvisioningErrorCodes::InternalServerError,
                    "ping call returned internal server error num - 1005"@,
                ),
            )
        } else {
            Some((ProvisioningErrorCodes::UnknownError, "ping call returned unknown error num - 1006"@))
        },
    }
}

pub open spec fn is_error(r: ProvisioningError, e: (ProvisioningErrorCodes, Seq<char>)) -> bool {
    r.code == e.0 && r.message@ == e.1
}

fn error_of(code: ProvisioningErrorCodes, message: String) -> (r: ProvisioningError)
    ensures
        r.code == code,
        r.message@ == message@,
{
    ProvisioningError::new(code, message, true)
}

/// Reads the answer to a ping of the provisioning server.
pub fn ping(outcome: HttpOutcome) -> (r: Result<PingResponse, ProvisioningError>)
    ensures
        match spec_ping_error(outcome) {
            Some(f) => r matches Err(e) && is_error(e, f),
            None => r matches Ok(p) && p.code@ == "success"@ && p.message@.len() == 0,
        },
{
    match outcome {
        HttpOutcome::Unreachable { error } => Err(
            error_of(
                ProvisioningErrorCodes::UnreachableError,
                String::from_str("ping call returned error num - 1007, error - ").concat(error.as_str()),
            ),
        ),
        HttpOutcome::Answered { status } => {
            if 200 <= status && status <= 299 {
                Ok(PingResponse { code: String::from_str("success"), message: String::new() })
            } else if status == 401 {
                Err(
                    error_of(
                        ProvisioningErrorCodes::UnauthorizedError,
                        String::from_str("ping call returned unauthorized error num - 1002"),
                    ),
                )
            } else if status == 404 {
                Err(
                    error_of(
                        ProvisioningErrorCodes::NotFoundError,
                        String::from_str("ping call returned not found error num - 1003"),
                    ),
                )
            } else if status == 400 {
                Err(
                    error_of(
                        ProvisioningErrorCodes::BadRequestError,
                        String::from_str("ping call returned bad request num - 1004"),
                    ),
                )
            } else if status == 500 {
                Err(
                    error_of(
                        ProvisioningErrorCodes::InternalServerError,
                        String::from_str("ping call returned internal server error num - 1005"),
                    ),
                )
            } else {
                Err(
                    error_of(
                        ProvisioningErrorCodes::UnknownError,
                        String::from_str("ping call returned unknown error num - 1006"),
                    ),
                )
            }
        },
    }
}

/// Which request to the provisioning server failed.
#[derive(Debug, Clone, Copy, PartialEq, Eq, Structural)]
pub enum ServerRequest {
    /// Looking up the manifest of a provisioning code.
    ManifestLookup,
    /// Having the certificate signing request signed.
    CsrSign,
}

/// The error for a failed request to the provisioning server, by the HTTP
/// status the failure carries (if any) and the failure's text.
pub open spec fn spec_request_error(
    request: ServerRequest,
    status: Option<u16>,
    error: Seq<char>,
) -> (ProvisioningErrorCodes, Seq<char>) {
    let what = match request {
        ServerRequest::ManifestLookup => "manifest find endpoint url"@,
        ServerRequest::CsrSign => "csr sign url"@,
    };
    match status {
        Some(500) => (ProvisioningErrorCodes::InternalServerError, what + " returned server error - "@ + error),
        Some(400) => (ProvisioningErrorCodes::BadRequestError, what + " returned bad request - "@ + error),
        Some(404) => (ProvisioningErrorCodes::NotFoundError, what + " not found - "@ + error),
        Some(_) => (ProvisioningErrorCodes::UnknownError, what + " returned unknown error - "@ + error),
        None => (ProvisioningErrorCodes::UnknownError, what + " returned unmatched error - "@ + error),
    }
}

pub fn request_error(request: ServerRequest, status: Option<u16>, error: &str) -> (r: ProvisioningError)
    ensures
        is_error(r, spec_request_error(request, status, error@)),
{
    let what = match request {
        ServerRequest::ManifestLookup => "manifest find endpoint url",
        ServerRequest::CsrSign => "csr sign url",
    };
    let (code, tail) = match status {
        Some(500) => (ProvisioningErrorCodes::InternalServerError, " returned server error - "),
        Some(400) => (ProvisioningErrorCodes::BadRequestError, " returned bad request - "),
        Some(404) => (ProvisioningErrorCodes::NotFoundError, " not found - "),
        Some(_) => (ProvisioningErrorCodes::UnknownError, " returned unknown error - "),
        None => (ProvisioningErrorCodes::UnknownError, " returned unmatched error - "),
    };
    error_of(code, String::from_str(what).concat(tail).concat(error))
}

/// The error for an answer of the provisioning server that does not parse.
pub fn parse_response_error(request: ServerRequest, error: &str) -> (r: ProvisioningError)
    ensures
        r.code == ProvisioningErrorCodes::ParseResponseError,
        r.message@ == match request {
            ServerRequest::ManifestLookup => "error parsing manifest lookup response - "@,
            ServerRequest::CsrSign => "error parsing csr sign response - "@,
        } + error@,
{
    let head = match request {
        ServerRequest::ManifestLookup => "error parsing manifest lookup response - ",
        ServerRequest::CsrSign => "error parsing csr sign response - ",
    };
    error_of(ProvisioningErrorCodes::ParseResponseError, String::from_str(head).concat(error))
}

/// The error for a signing request whose CSR file could not be opened
/// (`opening`) or read, at `path`, with the file system's `error`.
pub fn csr_read_error(opening: bool, path: &str, error: &str) -> (r: ProvisioningError)
    ensures
        r.code == ProvisioningErrorCodes::CSRSignReadFileError,
        r.message@ == (if opening { "error opening csr in path - "@ } else { "error reading csr in path - "@ })
            + path@ + " - "@ + error@,
{
    let head = if opening {
        "error opening csr in path - "
    } else {
        "error reading csr in path - "
    };
    error_of(ProvisioningErrorCodes::CSRSignReadFileError, String::from_str(head).concat(path).concat(" - ").concat(error))
}

/// `<service_url><find_path><code>`: where the manifest of a code is looked up.
pub fn manifest_url(service_url: &str, find_path: &str, code: &str) -> (r: String)
    ensures
        r@ == service_url@ + find_path@ + code@,
{
    String::from_str(service_url).concat(find_path).concat(code)
}

/// `<request_url><cert_signing_url>`: where the signing request is posted.
pub fn sign_csr_url(request_url: &str, cert_signing_url: &str) -> (r: String)
    ensures
        r@ == request_url@ + cert_signing_url@,
{
    String::from_str(request_url).concat(cert_signing_url)
}

/// The body of a signing request.
pub fn sign_csr_request(csr: String, machine_id: &str, request_type: CertSignRequestType) -> (r: SignCSRRequest)
    ensures
        r.csr@ == csr@,
        r.machine_id@ == machine_id@,
        r.request_type == request_type,
{
    SignCSRRequest { csr, machine_id: String::from_str(machine_id), request_type }
}

/// The paths under the data directory where the agent keeps its
/// certificate material and settings database, relative to that directory.
pub struct DataLayout {
    pub private_key: String,
    pub csr: String,
    pub cert: String,
    pub ca_bundle: String,
    pub root_cert: String,
    pub db: String,
}

/// The same paths, prefixed with the data directory.
pub fn data_paths(data_dir: &str, layout: &DataLayout) -> (r: DataLayout)
    ensures
        r.private_key@ == data_dir@ + layout.private_key@,
        r.csr@ == data_dir@ + layout.csr@,
        r.cert@ == data_dir@ + layout.cert@,
        r.ca_bundle@ == data_dir@ + layout.ca_bundle@,
        r.root_cert@ == data_dir@ + layout.root_cert@,
        r.db@ == data_dir@ + layout.db@,
{
    DataLayout {
        private_key: String::from_str(data_dir).concat(layout.private_key.as_str()),
        csr: String::from_str(data_dir).concat(layout.csr.as_str()),
        cert: String::from_str(data_dir).concat(layout.cert.as_str()),
        ca_bundle: String::from_str(data_dir).concat(layout.ca_bundle.as_str()),
        root_cert: String::from_str(data_dir).concat(layout.root_cert.as_str()),
        db: String::from_str(data_dir).concat(layout.db.as_str()),
    }
}

/// The files de-provisioning removes, in the order it removes them: the
/// certificate, the private key, the signing request, the CA bundle, the
/// root certificate.
pub fn de_provision_files(paths: &DataLayout) -> (r: Vec<String>)
    ensures
        string_views(r@) == seq![
            paths.cert@,
            paths.private_key@,
            paths.csr@,
            paths.ca_bundle@,
            paths.root_cert@,
        ],
{
    let r = vec![
        paths.cert.clone(),
        paths.private_key.clone(),
        paths.csr.clone(),
        paths.ca_bundle.clone(),
        paths.root_cert.clone(),
    ];
    assert(string_views(r@) =~= seq![
        paths.cert@,
        paths.private_key@,
        paths.csr@,
        paths.ca_bundle@,
        paths.root_cert@,
    ]);
    r
}

/// The steps of de-provisioning after the certificate files are removed
/// (a failure to remove them is passed on as it is); it stops at the first
/// that fails.
pub enum DeProvisionStep {
    /// Broadcasting the de-provisioned event failed.
    SendEvent(String),
    /// Resolving the database path failed.
    ResolveDbPath(String),
    /// Removing the database directory failed.
    RemoveDb(String),
}

/// The error de-provisioning ends with when a step fails.
pub fn de_provision_error(failed: DeProvisionStep) -> (r: ProvisioningError)
    ensures
        match failed {
            DeProvisionStep::SendEvent(e) => r.code == ProvisioningErrorCodes::SendEventError
                && r.message@ == "error sending de provisioning event, code:1001, error - "@ + e@,
            DeProvisionStep::ResolveDbPath(e) => r.code
                == ProvisioningErrorCodes::SettingsDatabaseDeleteError && r.message@
                == "error constructing db path - "@ + e@,
            DeProvisionStep::RemoveDb(e) => r.code == ProvisioningErrorCodes::SettingsDatabaseDeleteError
                && r.message@ == "error deleting db, code: 1001, error - "@ + e@,
        },
{
    match failed {
        DeProvisionStep::SendEvent(e) => error_of(
            ProvisioningErrorCodes::SendEventError,
            String::from_str("error sending de provisioning event, code:1001, error - ").concat(
                e.as_str(),
            ),
        ),
        DeProvisionStep::ResolveDbPath(e) => error_of(
            ProvisioningErrorCodes::SettingsDatabaseDeleteError,
            String::from_str("error constructing db path - ").concat(e.as_str()),
        ),
        DeProvisionStep::RemoveDb(e) => error_of(
            ProvisioningErrorCodes::SettingsDatabaseDeleteError,
            String::from_str("error deleting db, code: 1001, error - ").concat(e.as_str()),
        ),
    }
}

/// The error when the provisioned event could not be broadcast.
pub fn provisioned_event_error(error: &str) -> (r: ProvisioningError)
    ensures
        r.code == ProvisioningErrorCodes::SendEventError,
        r.message@ == "error sending provisioning event, code: 1001, error - "@ + error@,
{
    error_of(
        ProvisioningErrorCodes::SendEventError,
        String::from_str("error sending provisioning event, code: 1001, error - ").concat(error),
    )
}

/// Which certificate file failed to be written.
#[derive(Debug, Clone, Copy, PartialEq, Eq, Structural)]
pub enum CertFile {
    Machine,
    CaBundle,
    Root,
}

/// The error when a certificate file could not be written.
pub fn certificate_write_error(file: CertFile, path: &str, error: &str) -> (r: ProvisioningError)
    ensures
        r.code == ProvisioningErrorCodes::CertificateWriteError,
        r.message@ == "error saving "@ + match file {
            CertFile::Machine => "machine"@,
            CertFile::CaBundle => "ca_bundle"@,
            CertFile::Root => "root"@,
        } + " certificate in path - "@ + path@ + " - "@ + error@,
{
    let what = match file {
        CertFile::Machine => "machine",
        CertFile::CaBundle => "ca_bundle",
        CertFile::Root => "root",
    };
    error_of(
        ProvisioningErrorCodes::CertificateWriteError,
        String::from_str("error saving ").concat(what).concat(" certificate in path - ").concat(
            path,
        ).concat(" - ").concat(error),
    )
}

/// A de-provisioning request is obeyed only when it names this machine.
pub fn deprovision_request_matches(request_machine_id: &str, machine_id: &str) -> (r: bool)
    ensures
        r == (request_machine_id@ == machine_id@),
{
    str_equal(request_machine_id, machine_id)
}

/// A certificate re-issue request is obeyed only when the subject it came on
/// holds the hash of the machine id it names.
pub open spec fn spec_re_issue_authorized(subject: Seq<char>, machine_id: Seq<char>) -> bool {
    contains_seq(subject, spec_sha256_hex(machine_id))
}

/// Checks a certificate re-issue request against the subject it came on.
pub fn check_re_issue_request(subject: &str, request_machine_id: &str) -> (r: Result<(), ProvisioningError>)
    ensures
        match r {
            Ok(()) => spec_re_issue_authorized(subject@, request_machine_id@),
            Err(e) => !spec_re_issue_authorized(subject@, request_machine_id@) && e.code
                == ProvisioningErrorCodes::InvalidMachineIdError && e.message@
                == "invalid machine id in request - req_machine_id: "@ + request_machine_id@ + " "@,
        },
{
    let hashed = sha256_hex(request_machine_id);
    if str_contains(subject, hashed.as_str()) {
        Ok(())
    } else {
        Err(
            error_of(
                ProvisioningErrorCodes::InvalidMachineIdError,
                String::from_str("invalid machine id in request - req_machine_id: ").concat(
                    request_machine_id,
                ).concat(" "),
            ),
        )
    }
}

/// Provisioning codes are six upper-case ASCII letters or digits.
pub open spec fn is_provisioning_code(code: Seq<char>) -> bool {
    &&& code.len() == 6
    &&& forall|i: int|
        0 <= i < code.len() ==> ('0' <= #[trigger] code[i] <= '9') || ('A' <= code[i] <= 'Z')
}

/// A fresh random provisioning code.
pub fn generate_code() -> (r: Result<String, ProvisioningError>)
    ensures
        r matches Ok(c) && is_provisioning_code(c@),
{
    let code = random_alphanumeric(6);
    assert(all_ascii(code@)) by {
        assert forall|i: int| 0 <= i < code@.len() implies (code@[i] as int) < 128 by {
            assert(is_ascii_alphanumeric_char(code@[i]));
        }
    }
    let upper = to_uppercase(code.as_str());
    assert forall|i: int| 0 <= i < upper@.len() implies ('0' <= #[trigger] upper@[i] <= '9') || (
    'A' <= upper@[i] <= 'Z') by {
        assert(is_ascii_alphanumeric_char(code@[i]));
    }
    Ok(upper)
}

/// The provisioning service as the agent's gRPC server uses it.
pub struct Provisioning {
    pub settings: ProvisioningSettings,
}

impl Provisioning {
    pub fn new(settings: ProvisioningSettings) -> (r: Self)
        ensures
            r.settings == settings,
    {
        Provisioning { settings }
    }

    /// A fresh random provisioning code.
    pub fn generate_code(&self) -> (r: Result<String, ProvisioningError>)
        ensures
            r matches Ok(c) && is_provisioning_code(c@),
    {
        generate_code()
    }
}

/// The provisioning service built from the settings read, or from the
/// defaults when they could not be read.
pub fn new_provisioning_service(read: Result<crate::agent_settings::AgentSettings, crate::agent_settings::SettingsError>) -> (r: Provisioning)
    ensures
        match read {
            Ok(s) => r.settings == s.provisioning,
            Err(_) => r.settings.is_default(),
        },
{
    let settings = crate::agent_settings::settings_or_default(read);
    Provisioning::new(settings.provisioning)
}

/// Where the provisioning service keeps its files and which server it
/// talks to.
pub struct Settings {
    pub data_dir: String,
    pub service_url: String,
}

/// What the provisioning service does in answer to an event.
pub enum ProvisioningAction {
    Ignore,
    /// Apply `cancel` to the subscription token, then subscribe to the
    /// de-provisioning and re-issue requests.
    Subscribe { cancel: SlotCommand },
    /// Apply `cancel` to the subscription token.
    Unsubscribe { cancel: SlotCommand },
}

/// The decisions of the provisioning service: its subscription task.
pub struct ProvisioningHandler {
    pub settings: Settings,
    pub subscriber: TaskSlot,
}

impl ProvisioningHandler {
    pub fn new(settings: Settings) -> (r: Self)
        ensures
            r.settings == settings,
            r.subscriber == TaskSlot::Empty,
    {
        ProvisioningHandler { settings, subscriber: TaskSlot::Empty }
    }

    /// Before subscribing again: the old token is to be cancelled.
    pub fn begin_subscribe(&mut self) -> (cancel: SlotCommand)
        ensures
            cancel == cancel_owed(old(self).subscriber),
            final(self).subscriber == cleared(old(self).subscriber),
            final(self).settings == old(self).settings,
    {
        self.subscriber.begin_restart()
    }

    /// The subscriptions were made and the token stored.
    pub fn subscribed(&mut self)
        ensures
            final(self).subscriber == TaskSlot::Running,
            final(self).settings == old(self).settings,
    {
        self.subscriber.started()
    }

    /// Cancels the subscription; `true` when one had been made.
    pub fn clear_nats_subscription(&mut self) -> (r: (bool, SlotCommand))
        ensures
            r.0 == (old(self).subscriber != TaskSlot::Empty),
            r.1 == cancel_owed(old(self).subscriber),
            final(self).subscriber == cleared(old(self).subscriber),
            final(self).settings == old(self).settings,
    {
        self.subscriber.clear()
    }

    /// Handles an event broadcast by another service.
    pub fn handle_event(&mut self, event: &AgentEvent) -> (r: ProvisioningAction)
        ensures
            *event is Deprovisioned ==> final(self).subscriber != TaskSlot::Running,
            final(self).settings == old(self).settings,
            match *event {
                AgentEvent::MessagingConnected => r == ProvisioningAction::Subscribe {
                    cancel: cancel_owed(old(self).subscriber),
                } && final(self).subscriber == cleared(old(self).subscriber),
                AgentEvent::MessagingDisconnected | AgentEvent::Deprovisioned => r
                    == ProvisioningAction::Unsubscribe { cancel: cancel_owed(old(self).subscriber) }
                    && final(self).subscriber == cleared(old(self).subscriber),
                _ => r == ProvisioningAction::Ignore && final(self).subscriber == old(self).subscriber,
            },
    {
        match event {
            AgentEvent::MessagingConnected => ProvisioningAction::Subscribe { cancel: self.begin_subscribe() },
            AgentEvent::MessagingDisconnected | AgentEvent::Deprovisioned => {
                let (_, cancel) = self.clear_nats_subscription();
                ProvisioningAction::Unsubscribe { cancel }
            },
            _ => ProvisioningAction::Ignore,
        }
    }
}


/// What the provisioning service is asked.
pub enum ProvisioningRequest {
    Ping,
    GenerateCode,
    ProvisionByCode { code: String },
    Deprovision,
}

/// The work that answers a request, with what it is given.
pub enum ProvisioningWork {
    /// Ping the server at `service_url`.
    Ping { service_url: String },
    /// Answer with this code (or error).
    Code { code: Result<String, ProvisioningError> },
    /// Provision the machine with `code` from the server at `service_url`,
    /// keeping its files under `data_dir`.
    ProvisionByCode { service_url: String, data_dir: String, code: String },
    /// De-provision the machine whose files are under `data_dir`.
    Deprovision { data_dir: String },
}

impl ProvisioningHandler {
    /// The work that answers `request`: each goes to the configured server
    /// and data directory; a code request is answered with a fresh code.
    pub fn answer(&self, request: ProvisioningRequest) -> (r: ProvisioningWork)
        ensures
            match request {
                ProvisioningRequest::Ping => r matches ProvisioningWork::Ping { service_url } && service_url@
                    == self.settings.service_url@,
                ProvisioningRequest::GenerateCode => r matches ProvisioningWork::Code { code } && code matches Ok(
                    c,
                ) && is_provisioning_code(c@),
                ProvisioningRequest::ProvisionByCode { code } => r matches ProvisioningWork::ProvisionByCode {
                    service_url,
                    data_dir,
                    code: c,
                } && service_url@ == self.settings.service_url@ && data_dir@ == self.settings.data_dir@ && c@
                    == code@,
                ProvisioningRequest::Deprovision => r matches ProvisioningWork::Deprovision { data_dir } && data_dir@
                    == self.settings.data_dir@,
            },
    {
        match request {
            ProvisioningRequest::Ping => ProvisioningWork::Ping { service_url: self.settings.service_url.clone() },
            ProvisioningRequest::GenerateCode => ProvisioningWork::Code { code: generate_code() },
            ProvisioningRequest::ProvisionByCode { code } => ProvisioningWork::ProvisionByCode {
                service_url: self.settings.service_url.clone(),
                data_dir: self.settings.data_dir.clone(),
                code,
            },
            ProvisioningRequest::Deprovision => ProvisioningWork::Deprovision {
                data_dir: self.settings.data_dir.clone(),
            },
        }
    }
}

/// One step of obtaining the machine's certificates.
pub enum CryptoStep {
    /// Generate the private key at `path`.
    GeneratePrivateKey { path: String },
    /// Generate at `path` a signing request for `machine_id`, with the key at
    /// `key_path`.
    GenerateCsr { path: String, key_path: String, machine_id: String },
    /// Have the request at `csr_path` signed at `<request_url><cert_signing_url>`.
    SignCsr {
        request_url: String,
        csr_path: String,
        machine_id: String,
        cert_signing_url: String,
        request_type: CertSignRequestType,
    },
}

/// The steps of obtaining the certificates of `machine_id`, in order, with
/// the files laid out in `paths`.
pub fn cryptography_steps(
    service_url: &str,
    machine_id: &str,
    cert_sign_url: &str,
    paths: &DataLayout,
    request_type: CertSignRequestType,
) -> (r: Vec<CryptoStep>)
    ensures
        r@.len() == 3,
        r@[0] matches CryptoStep::GeneratePrivateKey { path } && path@ == paths.private_key@,
        r@[1] matches CryptoStep::GenerateCsr { path, key_path, machine_id: m } && path@ == paths.csr@ && key_path@
            == paths.private_key@ && m@ == machine_id@,
        r@[2] matches CryptoStep::SignCsr { request_url, csr_path, machine_id: m, cert_signing_url, request_type: t }
            && request_url@ == service_url@ && csr_path@ == paths.csr@ && m@ == machine_id@ && cert_signing_url@
            == cert_sign_url@ && t == request_type,
{
    let mut r: Vec<CryptoStep> = Vec::new();
    r.push(CryptoStep::GeneratePrivateKey { path: paths.private_key.clone() });
    r.push(
        CryptoStep::GenerateCsr {
            path: paths.csr.clone(),
            key_path: paths.private_key.clone(),
            machine_id: String::from_str(machine_id),
        },
    );
    r.push(
        CryptoStep::SignCsr {
            request_url: String::from_str(service_url),
            csr_path: paths.csr.clone(),
            machine_id: String::from_str(machine_id),
            cert_signing_url: String::from_str(cert_sign_url),
            request_type,
        },
    );
    r
}

/// One certificate file to write: which, where, and what.
pub struct CertWrite {
    pub file: CertFile,
    pub path: String,
    pub contents: String,
}

/// The certificate files written from what the server signed, in the order
/// they are written: the machine certificate, the CA bundle (as the JSON
/// array of its certificates), the root certificate. Writing stops at the
/// first failure, reported by `certificate_write_error`.
pub fn certificate_writes(paths: &DataLayout, signed: SignedCertificates) -> (r: Vec<CertWrite>)
    ensures
        r@.len() == 3,
        r@[0].file == CertFile::Machine && r@[0].path@ == paths.cert@ && r@[0].contents@ == signed.cert@,
        r@[1].file == CertFile::CaBundle && r@[1].path@ == paths.ca_bundle@ && r@[1].contents@
            == spec_json_string_array(string_views(signed.ca_bundle@)),
        r@[2].file == CertFile::Root && r@[2].path@ == paths.root_cert@ && r@[2].contents@ == signed.root_cert@,
{
    let ca_bundle = match json_string_array(&signed.ca_bundle) {
        Some(text) => text,
        None => {
            assert(false);
            String::new()
        },
    };
    let mut r: Vec<CertWrite> = Vec::new();
    r.push(CertWrite { file: CertFile::Machine, path: paths.cert.clone(), contents: signed.cert });
    r.push(CertWrite { file: CertFile::CaBundle, path: paths.ca_bundle.clone(), contents: ca_bundle });
    r.push(CertWrite { file: CertFile::Root, path: paths.root_cert.clone(), contents: signed.root_cert });
    r
}

} // verus!
