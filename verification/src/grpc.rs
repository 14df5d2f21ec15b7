//! The agent's gRPC server: its errors, the status codes it answers with,
//! and where it listens.
use vstd::prelude::*;
use crate::text::{code_message_string, code_message_text};
use crate::outside::{regex_first_group, spec_regex_first_group, to_uppercase, spec_to_uppercase};
use crate::text::{all_ascii, ascii_upper, str_equal};
use crate::provisioning::ProvisioningError;

verus! {

/// Error codes of the agent's gRPC server.
#[derive(Debug, Default, Clone, Copy, PartialEq, Eq, Structural)]
pub enum AgentServerErrorCodes {
    #[default]
    UnknownError,
    InitGRPCServerError,
    InitMessagingClientError,
}

impl AgentServerErrorCodes {
    /// The variant's name, as `{:?}` prints it.
    pub open spec fn spec_name(self) -> Seq<char> {
        match self {
            AgentServerErrorCodes::UnknownError => "UnknownError"@,
            AgentServerErrorCodes::InitGRPCServerError => "InitGRPCServerError"@,
            AgentServerErrorCodes::InitMessagingClientError => "InitMessagingClientError"@,
        }
    }

    /// The code's display text.
    pub open spec fn spec_text(self) -> Seq<char> {
        "AgentServerErrorCodes: "@ + self.spec_name()
    }

    /// The variant's name, as `{:?}` prints it.
    pub fn name(&self) -> (r: String)
        ensures
            r@ == self.spec_name(),
    {
        match self {
            AgentServerErrorCodes::UnknownError => String::from_str("UnknownError"),
            AgentServerErrorCodes::InitGRPCServerError => String::from_str("InitGRPCServerError"),
            AgentServerErrorCodes::InitMessagingClientError => String::from_str("InitMessagingClientError"),
        }
    }

    /// The code's display text.
    pub fn to_string(&self) -> (r: String)
        ensures
            r@ == self.spec_text(),
    {
        String::from_str("AgentServerErrorCodes: ").concat(self.name().as_str())
    }
}

/// An agent server error: a code and a message.
#[derive(Debug)]
pub struct AgentServerError {
    pub code: AgentServerErrorCodes,
    pub message: String,
}

impl AgentServerError {
    /// The error's display text.
    pub open spec fn spec_text(&self) -> Seq<char> {
        code_message_text("AgentServerErrorCodes:"@, self.code.spec_name(), self.message@)
    }

    /// Builds the error. `capture_error` asks for the error to be reported to
    /// the error tracker, which the application does; the value is the same
    /// either way.
    #[allow(unused_variables)]
    pub fn new(code: AgentServerErrorCodes, message: String, capture_error: bool) -> (r: Self)
        ensures
            r.code == code,
            r.message@ == message@,
    {
        Self { code, message }
    }

    /// The error's display text.
    pub fn to_string(&self) -> (r: String)
        ensures
            r@ == self.spec_text(),
    {
        code_message_string("AgentServerErrorCodes:", self.code.name().as_str(), self.message.as_str())
    }
}

/// The gRPC status codes (the values of `tonic::Code`).
#[derive(Debug, Clone, Copy, PartialEq, Eq, Structural)]
pub enum GrpcCode {
    /// The `OK` status (tonic's `Code::Ok`).
    Okay,
    Cancelled,
    Unknown,
    InvalidArgument,
    DeadlineExceeded,
    NotFound,
    AlreadyExists,
    PermissionDenied,
    ResourceExhausted,
    FailedPrecondition,
    Aborted,
    OutOfRange,
    Unimplemented,
    Internal,
    Unavailable,
    DataLoss,
    Unauthenticated,
}

impl GrpcCode {
    /// The code's status name in the gRPC protocol (`INTERNAL` for
    /// `Internal`, `OK` for `Okay`).
    pub open spec fn status_name(self) -> Seq<char> {
        match self {
            GrpcCode::Okay => "OK"@,
            GrpcCode::Cancelled => "CANCELLED"@,
            GrpcCode::Unknown => "UNKNOWN"@,
            GrpcCode::InvalidArgument => "INVALID_ARGUMENT"@,
            GrpcCode::DeadlineExceeded => "DEADLINE_EXCEEDED"@,
            GrpcCode::NotFound => "NOT_FOUND"@,
            GrpcCode::AlreadyExists => "ALREADY_EXISTS"@,
            GrpcCode::PermissionDenied => "PERMISSION_DENIED"@,
            GrpcCode::ResourceExhausted => "RESOURCE_EXHAUSTED"@,
            GrpcCode::FailedPrecondition => "FAILED_PRECONDITION"@,
            GrpcCode::Aborted => "ABORTED"@,
            GrpcCode::OutOfRange => "OUT_OF_RANGE"@,
            GrpcCode::Unimplemented => "UNIMPLEMENTED"@,
            GrpcCode::Internal => "INTERNAL"@,
            GrpcCode::Unavailable => "UNAVAILABLE"@,
            GrpcCode::DataLoss => "DATA_LOSS"@,
            GrpcCode::Unauthenticated => "UNAUTHENTICATED"@,
        }
    }

    /// The codes whose status names the agent's errors are resolved from.
    pub open spec fn is_resolvable(self) -> bool {
        match self {
            GrpcCode::AlreadyExists | GrpcCode::PermissionDenied | GrpcCode::ResourceExhausted
            | GrpcCode::FailedPrecondition | GrpcCode::OutOfRange | GrpcCode::DataLoss => false,
            _ => true,
        }
    }
}

/// A gRPC status: a code and a message.
#[derive(Debug)]
pub struct GrpcStatus {
    pub code: GrpcCode,
    pub message: String,
}

/// The code named by an upper-case status name; `Unknown` for any name
/// not listed.
pub open spec fn spec_code_from_name(name: Seq<char>) -> GrpcCode {
    if name == "OK"@ {
        GrpcCode::Okay
    } else if name == "CANCELLED"@ {
        GrpcCode::Cancelled
    } else if name == "UNKNOWN"@ {
        GrpcCode::Unknown
    } else if name == "INVALID_ARGUMENT"@ {
        GrpcCode::InvalidArgument
    } else if name == "DEADLINE_EXCEEDED"@ {
        GrpcCode::DeadlineExceeded
    } else if name == "NOT_FOUND"@ {
        GrpcCode::NotFound
    } else if name == "ABORTED"@ {
        GrpcCode::Aborted
    } else if name == "UNIMPLEMENTED"@ {
        GrpcCode::Unimplemented
    } else if name == "INTERNAL"@ {
        GrpcCode::Internal
    } else if name == "UNAVAILABLE"@ {
        GrpcCode::Unavailable
    } else if name == "UNAUTHENTICATED"@ {
        GrpcCode::Unauthenticated
    } else {
        GrpcCode::Unknown
    }
}

fn code_from_name(name: &str) -> (r: GrpcCode)
    ensures
        r == spec_code_from_name(name@),
{
    if str_equal(name, "OK") {
        GrpcCode::Okay
    } else if str_equal(name, "CANCELLED") {
        GrpcCode::Cancelled
    } else if str_equal(name, "UNKNOWN") {
        GrpcCode::Unknown
    } else if str_equal(name, "INVALID_ARGUMENT") {
        GrpcCode::InvalidArgument
    } else if str_equal(name, "DEADLINE_EXCEEDED") {
        GrpcCode::DeadlineExceeded
    } else if str_equal(name, "NOT_FOUND") {
        GrpcCode::NotFound
    } else if str_equal(name, "ABORTED") {
        GrpcCode::Aborted
    } else if str_equal(name, "UNIMPLEMENTED") {
        GrpcCode::Unimplemented
    } else if str_equal(name, "INTERNAL") {
        GrpcCode::Internal
    } else if str_equal(name, "UNAVAILABLE") {
        GrpcCode::Unavailable
    } else if str_equal(name, "UNAUTHENTICATED") {
        GrpcCode::Unauthenticated
    } else {
        GrpcCode::Unknown
    }
}

/// The gRPC code a status name stands for, whatever its letter case.
pub fn resolve_tonic_error_code(code: &str) -> (r: GrpcCode)
    ensures
        r == spec_code_from_name(spec_to_uppercase(code@)),
        all_ascii(code@) ==> r == spec_code_from_name(ascii_upper(code@)),
{
    let upper = to_uppercase(code);
    code_from_name(upper.as_str())
}

/// The pattern that finds the status name in an error message.
pub open spec fn spec_status_pattern() -> Seq<char> {
    "status: (\\w+),"@
}

fn status_pattern() -> (r: &'static str)
    ensures
        r@ == spec_status_pattern(),
{
    "status: (\\w+),"
}

/// The status name that an error message quotes, if any.
pub open spec fn spec_quoted_status(message: Seq<char>) -> Option<Seq<char>> {
    spec_regex_first_group(spec_status_pattern(), message)
}

/// The gRPC status for a provisioning error whose message quotes a status
/// name (`status: NAME,`): that name's code, and the error's display text.
pub fn resolve_error(error: ProvisioningError) -> (r: GrpcStatus)
    requires
        spec_quoted_status(error.message@) is Some,
    ensures
        r.code == spec_code_from_name(spec_to_uppercase(spec_quoted_status(error.message@)->0)),
        r.message@ == error.spec_text(),
{
    let name = regex_first_group(status_pattern(), error.message.as_str());
    match name {
        Some(n) => GrpcStatus { code: resolve_tonic_error_code(n.as_str()), message: error.to_string() },
        None => {
            assert(false);
            GrpcStatus { code: GrpcCode::Unknown, message: error.to_string() }
        },
    }
}

/// `resolve_error` for any provisioning error: `None` when the message
/// quotes no status name.
pub fn try_resolve_error(error: ProvisioningError) -> (r: Option<GrpcStatus>)
    ensures
        match r {
            None => spec_quoted_status(error.message@) is None,
            Some(s) => spec_quoted_status(error.message@) is Some && s.code == spec_code_from_name(
                spec_to_uppercase(spec_quoted_status(error.message@)->0),
            ) && s.message@ == error.spec_text(),
        },
{
    match regex_first_group(status_pattern(), error.message.as_str()) {
        Some(_) => Some(resolve_error(error)),
        None => None,
    }
}

/// A batch of telemetry handed over by the gRPC exporters: the encoded batch
/// and the kind of data the exporter named.
pub struct EncodeData {
    pub encoded: Vec<u8>,
    pub user_type: String,
}

/// The kind an export request names in its `user` metadata entry; `User`
/// when it names none.
pub fn export_user_type(user: Option<&str>) -> (r: String)
    ensures
        r@ == match user {
            Some(u) => u@,
            None => "User"@,
        },
{
    match user {
        Some(u) => String::from_str(u),
        None => String::from_str("User"),
    }
}

/// The address the gRPC server listens on: the configured one, or the
/// loopback address when none is configured.
pub fn server_host(url: Option<String>) -> (r: String)
    ensures
        r@ == match url {
            Some(u) => u@,
            None => "127.0.0.1"@,
        },
{
    match url {
        Some(u) => u,
        None => String::from_str("127.0.0.1"),
    }
}

/// The configured port as the server reads it: the `i16` taken as a `u16`,
/// so a negative value wraps round.
pub fn server_port(port: i16) -> (r: u16)
    ensures
        r as int == if port >= 0 { port as int } else { port + 65536 },
{
    if port >= 0 {
        port as u16
    } else {
        (port as i32 + 65536) as u16
    }
}

/// The error reported when the gRPC server could not start.
pub fn server_start_error(detail: &str) -> (r: AgentServerError)
    ensures
        r.code == AgentServerErrorCodes::InitGRPCServerError,
        r.message@ == "error initializing grpc server - "@ + detail@,
{
    AgentServerError::new(
        AgentServerErrorCodes::InitGRPCServerError,
        String::from_str("error initializing grpc server - ").concat(detail),
        true,
    )
}

} // verus!
