//! The status service: what it publishes about the machine and where, and
//! the errors it reports.
use vstd::prelude::*;
use crate::text::{code_message_string, code_message_text, decimal_text, i64_to_decimal};
use crate::outside::{sha256_hex, spec_sha256_hex, utc_now_rfc3339_seconds, is_rfc3339_utc_seconds};

verus! {

/// Error codes of the status service.
#[derive(Debug, Default, Clone, Copy, PartialEq, Eq, Structural)]
pub enum StatusErrorCodes {
    #[default]
    UnknownError,
    InitMessagingClientError,
    ChannelSendMessageError,
    ChannelRecvTimeoutError,
    FetchPlatformInfoError,
    FetchMachineIdError,
    FetchLoadAverageError,
    FetchUptimeError,
}

impl StatusErrorCodes {
    /// The variant's name, as `{:?}` prints it.
    pub open spec fn spec_name(self) -> Seq<char> {
        match self {
            StatusErrorCodes::UnknownError => "UnknownError"@,
            StatusErrorCodes::InitMessagingClientError => "InitMessagingClientError"@,
            StatusErrorCodes::ChannelSendMessageError => "ChannelSendMessageError"@,
            StatusErrorCodes::ChannelRecvTimeoutError => "ChannelRecvTimeoutError"@,
            StatusErrorCodes::FetchPlatformInfoError => "FetchPlatformInfoError"@,
            StatusErrorCodes::FetchMachineIdError => "FetchMachineIdError"@,
            StatusErrorCodes::FetchLoadAverageError => "FetchLoadAverageError"@,
            StatusErrorCodes::FetchUptimeError => "FetchUptimeError"@,
        }
    }

    /// The code's display text.
    pub open spec fn spec_text(self) -> Seq<char> {
        "StatusErrorCodes: "@ + self.spec_name()
    }

    /// The variant's name, as `{:?}` prints it.
    pub fn name(&self) -> (r: String)
        ensures
            r@ == self.spec_name(),
    {
        match self {
            StatusErrorCodes::UnknownError => String::from_str("UnknownError"),
            StatusErrorCodes::InitMessagingClientError => String::from_str("InitMessagingClientError"),
            StatusErrorCodes::ChannelSendMessageError => String::from_str("ChannelSendMessageError"),
            StatusErrorCodes::ChannelRecvTimeoutError => String::from_str("ChannelRecvTimeoutError"),
            StatusErrorCodes::FetchPlatformInfoError => String::from_str("FetchPlatformInfoError"),
            StatusErrorCodes::FetchMachineIdError => String::from_str("FetchMachineIdError"),
            StatusErrorCodes::FetchLoadAverageError => String::from_str("FetchLoadAverageError"),
            StatusErrorCodes::FetchUptimeError => String::from_str("FetchUptimeError"),
        }
    }

    /// The code's display text.
    pub fn to_string(&self) -> (r: String)
        ensures
            r@ == self.spec_text(),
    {
        String::from_str("StatusErrorCodes: ").concat(self.name().as_str())
    }
}

/// A status service error: a code and a message.
#[derive(Debug)]
pub struct StatusError {
    pub code: StatusErrorCodes,
    pub message: String,
}

impl StatusError {
    /// The error's display text.
    pub open spec fn spec_text(&self) -> Seq<char> {
        code_message_text("StatusErrorCodes:"@, self.code.spec_name(), self.message@)
    }

    /// Builds the error. `capture_error` asks for the error to be reported to
    /// the error tracker, which the application does; the value is the same
    /// either way.
    #[allow(unused_variables)]
    pub fn new(code: StatusErrorCodes, message: String, capture_error: bool) -> (r: Self)
        ensures
            r.code == code,
            r.message@ == message@,
    {
        Self { code, message }
    }

    /// The error's display text.
    pub fn to_string(&self) -> (r: String)
        ensures
            r@ == self.spec_text(),
    {
        code_message_string("StatusErrorCodes:", self.code.name().as_str(), self.message.as_str())
    }
}

/// What the status service publishes at each tick.
pub struct StatusPublishPayload {
    pub time: String,
    pub machine_id: String,
    pub sys_uptime: String,
    pub sys_load_avg: String,
}

/// What the status service publishes once about the platform it runs on.
#[derive(Default)]
pub struct PlatformInfo {
    pub machine_id: String,
    pub hostname: String,
    pub os_name: String,
    pub os_version: String,
    pub os_build: String,
    pub platform: String,
    pub platform_release: String,
    pub arch: String,
    pub agent_version: String,
    pub agent_name: String,
}

/// `machine.<sha256 of the machine id>.status.<kind>`
pub open spec fn spec_status_subject(machine_id: Seq<char>, kind: Seq<char>) -> Seq<char> {
    "machine."@ + spec_sha256_hex(machine_id) + ".status."@ + kind
}

/// The subject that the periodic status of a machine is published on.
pub fn status_heartbeat_subject(machine_id: &str) -> (r: String)
    ensures
        r@ == spec_status_subject(machine_id@, "heartbeat"@),
{
    String::from_str("machine.").concat(sha256_hex(machine_id).as_str()).concat(".status.").concat("heartbeat")
}

/// The subject that the platform information of a machine is published on.
pub fn status_info_subject(machine_id: &str) -> (r: String)
    ensures
        r@ == spec_status_subject(machine_id@, "info"@),
{
    String::from_str("machine.").concat(sha256_hex(machine_id).as_str()).concat(".status.").concat("info")
}

/// The periodic status: stamped with the current UTC time (RFC 3339, whole
/// seconds, `+00:00` offset), the uptime in whole seconds written in
/// decimal, and the load averages as the caller rendered them.
pub fn status_payload(machine_id: String, uptime_secs: i64, load_avg: String) -> (r: StatusPublishPayload)
    ensures
        is_rfc3339_utc_seconds(r.time@),
        r.machine_id@ == machine_id@,
        r.sys_uptime@ == decimal_text(uptime_secs as int),
        r.sys_load_avg@ == load_avg@,
{
    StatusPublishPayload {
        time: utc_now_rfc3339_seconds(),
        machine_id,
        sys_uptime: i64_to_decimal(uptime_secs),
        sys_load_avg: load_avg,
    }
}

/// The platform information of the agent: what the caller read from the
/// system, under the agent's name; build and platform are left empty.
pub fn platform_info(
    machine_id: String,
    hostname: String,
    os_name: String,
    os_version: String,
    platform_release: String,
    arch: String,
    agent_version: String,
) -> (r: PlatformInfo)
    ensures
        r.machine_id@ == machine_id@,
        r.hostname@ == hostname@,
        r.os_name@ == os_name@,
        r.os_version@ == os_version@,
        r.os_build@ == Seq::<char>::empty(),
        r.platform@ == Seq::<char>::empty(),
        r.platform_release@ == platform_release@,
        r.arch@ == arch@,
        r.agent_version@ == agent_version@,
        r.agent_name@ == "mecha-agent"@,
{
    PlatformInfo {
        machine_id,
        hostname,
        os_name,
        os_version,
        os_build: String::new(),
        platform: String::new(),
        platform_release,
        arch,
        agent_version,
        agent_name: String::from_str("mecha-agent"),
    }
}

/// The steps of publishing the periodic status that can fail.
#[derive(Debug, Clone, Copy, PartialEq, Eq, Structural)]
pub enum StatusStep {
    /// Asking the identity service for the machine id.
    MachineId,
    /// Reading the system uptime.
    Uptime,
    /// Reading the load averages.
    LoadAverage,
    /// Handing the status to the messaging service.
    Publish,
    /// Waiting for the messaging service to confirm.
    PublishReply,
}

/// The code and message reported when `step` fails with `detail`.
pub open spec fn spec_status_error(step: StatusStep, detail: Seq<char>) -> (StatusErrorCodes, Seq<char>) {
    match step {
        StatusStep::MachineId => (StatusErrorCodes::FetchMachineIdError, "error getting machine id - "@ + detail),
        StatusStep::Uptime => (StatusErrorCodes::FetchUptimeError, "error getting uptime - "@ + detail),
        StatusStep::LoadAverage => (StatusErrorCodes::FetchLoadAverageError, "error getting load average - "@ + detail),
        StatusStep::Publish => (StatusErrorCodes::ChannelSendMessageError, "error send status message"@),
        StatusStep::PublishReply => (StatusErrorCodes::ChannelRecvTimeoutError, "error receiving message: "@ + detail),
    }
}

/// The error reported when `step` fails with `detail`.
pub fn status_error(step: StatusStep, detail: &str) -> (r: StatusError)
    ensures
        (r.code, r.message@) == spec_status_error(step, detail@),
{
    match step {
        StatusStep::MachineId => StatusError::new(
            StatusErrorCodes::FetchMachineIdError,
            String::from_str("error getting machine id - ").concat(detail),
            false,
        ),
        StatusStep::Uptime => StatusError::new(
            StatusErrorCodes::FetchUptimeError,
            String::from_str("error getting uptime - ").concat(detail),
            false,
        ),
        StatusStep::LoadAverage => StatusError::new(
            StatusErrorCodes::FetchLoadAverageError,
            String::from_str("error getting load average - ").concat(detail),
            false,
        ),
        StatusStep::Publish => StatusError::new(
            StatusErrorCodes::ChannelSendMessageError,
            String::from_str("error send status message"),
            false,
        ),
        StatusStep::PublishReply => StatusError::new(
            StatusErrorCodes::ChannelRecvTimeoutError,
            String::from_str("error receiving message: ").concat(detail),
            false,
        ),
    }
}

/// The facts about the platform that can fail to be read.
#[derive(Debug, Clone, Copy, PartialEq, Eq, Structural)]
pub enum PlatformFact {
    Hostname,
    PlatformRelease,
    MachineId,
}

/// The error reported when `fact` cannot be read, with `detail`.
pub fn platform_info_error(fact: PlatformFact, detail: &str) -> (r: StatusError)
    ensures
        r.code == StatusErrorCodes::FetchPlatformInfoError,
        r.message@ == match fact {
            PlatformFact::Hostname => "error getting hostname - "@,
            PlatformFact::PlatformRelease => "error getting platform release - "@,
            PlatformFact::MachineId => "error getting machine id - "@,
        } + detail@,
{
    let head = match fact {
        PlatformFact::Hostname => String::from_str("error getting hostname - "),
        PlatformFact::PlatformRelease => String::from_str("error getting platform release - "),
        PlatformFact::MachineId => String::from_str("error getting machine id - "),
    };
    StatusError::new(StatusErrorCodes::FetchPlatformInfoError, head.concat(detail), false)
}

/// The error reported when the machine id could not be asked for.
pub fn machine_id_request_error(detail: &str) -> (r: StatusError)
    ensures
        r.code == StatusErrorCodes::ChannelSendMessageError,
        r.message@ == "error send get machine id message to identity service - "@ + detail@,
{
    StatusError::new(
        StatusErrorCodes::ChannelSendMessageError,
        String::from_str("error send get machine id message to identity service - ").concat(detail),
        false,
    )
}

} // verus!
