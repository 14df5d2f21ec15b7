//! The telemetry service: whether the collector runs and how it is started,
//! where metrics and logs go, and the errors it reports.
use vstd::prelude::*;
use crate::text::{code_message_string, code_message_text};
use crate::events::AgentEvent;
use crate::outside::{sha256_hex, spec_sha256_hex};

verus! {

/// Error codes of the telemetry service.
#[derive(Debug, Default, Clone, Copy, PartialEq, Eq, Structural)]
pub enum TelemetryErrorCodes {
    #[default]
    DataCollectionDisabled,
    MessageSentFailed,
    InitMessagingClientError,
    MetricsSerializeFailed,
    LogsSeralizeFailed,
    TraceSeralizeFailed,
    ChannelSendMessageError,
    ChannelReceiveMessageError,
}

impl TelemetryErrorCodes {
    /// The variant's name, as `{:?}` prints it.
    pub open spec fn spec_name(self) -> Seq<char> {
        match self {
            TelemetryErrorCodes::DataCollectionDisabled => "DataCollectionDisabled"@,
            TelemetryErrorCodes::MessageSentFailed => "MessageSentFailed"@,
            TelemetryErrorCodes::InitMessagingClientError => "InitMessagingClientError"@,
            TelemetryErrorCodes::MetricsSerializeFailed => "MetricsSerializeFailed"@,
            TelemetryErrorCodes::LogsSeralizeFailed => "LogsSeralizeFailed"@,
            TelemetryErrorCodes::TraceSeralizeFailed => "TraceSeralizeFailed"@,
            TelemetryErrorCodes::ChannelSendMessageError => "ChannelSendMessageError"@,
            TelemetryErrorCodes::ChannelReceiveMessageError => "ChannelReceiveMessageError"@,
        }
    }

    /// The code's display text.
    pub open spec fn spec_text(self) -> Seq<char> {
        "TelemetryErrorCodes: "@ + self.spec_name()
    }

    /// The variant's name, as `{:?}` prints it.
    pub fn name(&self) -> (r: String)
        ensures
            r@ == self.spec_name(),
    {
        match self {
            TelemetryErrorCodes::DataCollectionDisabled => String::from_str("DataCollectionDisabled"),
            TelemetryErrorCodes::MessageSentFailed => String::from_str("MessageSentFailed"),
            TelemetryErrorCodes::InitMessagingClientError => String::from_str("InitMessagingClientError"),
            TelemetryErrorCodes::MetricsSerializeFailed => String::from_str("MetricsSerializeFailed"),
            TelemetryErrorCodes::LogsSeralizeFailed => String::from_str("LogsSeralizeFailed"),
            TelemetryErrorCodes::TraceSeralizeFailed => String::from_str("TraceSeralizeFailed"),
            TelemetryErrorCodes::ChannelSendMessageError => String::from_str("ChannelSendMessageError"),
            TelemetryErrorCodes::ChannelReceiveMessageError => String::from_str("ChannelReceiveMessageError"),
        }
    }

    /// The code's display text.
    pub fn to_string(&self) -> (r: String)
        ensures
            r@ == self.spec_text(),
    {
        String::from_str("TelemetryErrorCodes: ").concat(self.name().as_str())
    }
}

/// A telemetry service error: a code and a message.
#[derive(Debug)]
pub struct TelemetryError {
    pub code: TelemetryErrorCodes,
    pub message: String,
}

impl TelemetryError {
    /// The error's display text.
    pub open spec fn spec_text(&self) -> Seq<char> {
        code_message_text("TelemetryErrorCodes:"@, self.code.spec_name(), self.message@)
    }

    /// Builds the error.
    pub fn new(code: TelemetryErrorCodes, message: String) -> (r: Self)
        ensures
            r.code == code,
            r.message@ == message@,
    {
        Self { code, message }
    }

    /// The error's display text.
    pub fn to_string(&self) -> (r: String)
        ensures
            r@ == self.spec_text(),
    {
        code_message_string("TelemetryErrorCodes:", self.code.name().as_str(), self.message.as_str())
    }
}

/// The envelope of the agent's HTTP answers about telemetry.
pub struct TelemetryResponseGeneric<T> {
    pub success: bool,
    pub status: String,
    pub status_code: i16,
    pub message: Option<String>,
    pub error_code: Option<String>,
    pub sub_errors: Option<String>,
    pub payload: T,
}

/// What is published for a batch of metrics or logs: the encoded batch, its
/// kind as the sender named it, and the machine it comes from.
pub struct EncodeData {
    pub encoded: Vec<u8>,
    pub user_type: String,
    pub machine_id: String,
}

/// Which kinds of data are collected.
pub struct TelemetrySettingsCollect {
    pub system: bool,
    pub user: bool,
}

/// The OpenTelemetry collector: its program and its configuration file.
pub struct TelemetryOtelCollector {
    pub bin: String,
    pub conf: String,
}

/// The telemetry section of the agent's settings.
pub struct TelemetrySettings {
    pub enabled: bool,
    pub collect: TelemetrySettingsCollect,
    pub otel_collector: TelemetryOtelCollector,
}

/// The collector's command line when telemetry is enabled: its program and
/// `--config <conf>`. When telemetry is disabled, the error that says so.
pub fn collector_command(settings: &TelemetrySettings) -> (r: Result<(String, Vec<String>), TelemetryError>)
    ensures
        settings.enabled ==> (r matches Ok((program, args)) && program@ == settings.otel_collector.bin@
            && args@.len() == 2 && args@[0]@ == "--config"@ && args@[1]@ == settings.otel_collector.conf@),
        !settings.enabled ==> (r matches Err(e) && e.code == TelemetryErrorCodes::DataCollectionDisabled
            && e.message@ == "telemetry data collection is disabled"@),
{
    if settings.enabled {
        let mut args: Vec<String> = Vec::new();
        args.push(String::from_str("--config"));
        args.push(settings.otel_collector.conf.clone());
        Ok((settings.otel_collector.bin.clone(), args))
    } else {
        Err(
            TelemetryError::new(
                TelemetryErrorCodes::DataCollectionDisabled,
                String::from_str("telemetry data collection is disabled"),
            ),
        )
    }
}

/// The outcome of starting the collector: `true` once it was spawned, else
/// the spawn error.
pub fn collector_started(spawn_error: Option<String>) -> (r: Result<bool, String>)
    ensures
        match spawn_error {
            None => r matches Ok(b) && b,
            Some(e) => r matches Err(m) && m@ == "Failed to initialize telemetry - "@ + e@,
        },
{
    match spawn_error {
        None => Ok(true),
        Some(e) => Err(String::from_str("Failed to initialize telemetry - ").concat(e.as_str())),
    }
}

/// The two kinds of data the agent forwards.
#[derive(Debug, Clone, Copy, PartialEq, Eq, Structural)]
pub enum TelemetryKind {
    Metrics,
    Logs,
}

/// The kind's word in subjects and messages.
pub open spec fn spec_kind_word(kind: TelemetryKind) -> Seq<char> {
    match kind {
        TelemetryKind::Metrics => "metrics"@,
        TelemetryKind::Logs => "logs"@,
    }
}

fn kind_word(kind: TelemetryKind) -> (r: String)
    ensures
        r@ == spec_kind_word(kind),
{
    match kind {
        TelemetryKind::Metrics => String::from_str("metrics"),
        TelemetryKind::Logs => String::from_str("logs"),
    }
}

/// `machine.<sha256 of the machine id>.telemetry.<metrics|logs>`
pub open spec fn spec_telemetry_subject(kind: TelemetryKind, machine_id: Seq<char>) -> Seq<char> {
    "machine."@ + spec_sha256_hex(machine_id) + ".telemetry."@ + spec_kind_word(kind)
}

/// The subject that data of `kind` from a machine is published on.
pub fn telemetry_subject(kind: TelemetryKind, machine_id: &str) -> (r: String)
    ensures
        r@ == spec_telemetry_subject(kind, machine_id@),
{
    String::from_str("machine.").concat(sha256_hex(machine_id).as_str()).concat(".telemetry.").concat(
        kind_word(kind).as_str(),
    )
}

/// What is published for a batch: the batch as received, its kind, the
/// machine.
pub fn encode_data(encoded: Vec<u8>, user_type: String, machine_id: String) -> (r: EncodeData)
    ensures
        r.encoded@ == encoded@,
        r.user_type@ == user_type@,
        r.machine_id@ == machine_id@,
{
    EncodeData { encoded, user_type, machine_id }
}

/// Whether a batch is published: user data collection is on. Either way the
/// request succeeds.
pub fn publishes_batch(settings: &TelemetrySettings) -> (r: bool)
    ensures
        r == settings.collect.user,
{
    settings.collect.user
}

/// The error reported when a batch of `kind` could not be serialised.
pub fn serialize_error(kind: TelemetryKind, detail: &str) -> (r: TelemetryError)
    ensures
        r.code == match kind {
            TelemetryKind::Metrics => TelemetryErrorCodes::MetricsSerializeFailed,
            TelemetryKind::Logs => TelemetryErrorCodes::LogsSeralizeFailed,
        },
        r.message@ == "failed to serialize "@ + spec_kind_word(kind) + " - "@ + detail@,
{
    let code = match kind {
        TelemetryKind::Metrics => TelemetryErrorCodes::MetricsSerializeFailed,
        TelemetryKind::Logs => TelemetryErrorCodes::LogsSeralizeFailed,
    };
    let message = String::from_str("failed to serialize ").concat(kind_word(kind).as_str()).concat(" - ").concat(
        detail,
    );
    TelemetryError::new(code, message)
}

/// The error reported when a batch of `kind` could not be handed to the
/// messaging service.
pub fn send_error(kind: TelemetryKind, detail: &str) -> (r: TelemetryError)
    ensures
        r.code == TelemetryErrorCodes::ChannelSendMessageError,
        r.message@ == "failed to send "@ + spec_kind_word(kind) + " message - "@ + detail@,
{
    let message = String::from_str("failed to send ").concat(kind_word(kind).as_str()).concat(" message - ").concat(
        detail,
    );
    TelemetryError::new(TelemetryErrorCodes::ChannelSendMessageError, message)
}

/// The error reported when a message to another service could not be sent.
pub fn request_error(detail: &str) -> (r: TelemetryError)
    ensures
        r.code == TelemetryErrorCodes::ChannelSendMessageError,
        r.message@ == "failed to send message - "@ + detail@,
{
    TelemetryError::new(
        TelemetryErrorCodes::ChannelSendMessageError,
        String::from_str("failed to send message - ").concat(detail),
    )
}

/// The error reported when the messaging service did not confirm.
pub fn receive_error(detail: &str) -> (r: TelemetryError)
    ensures
        r.code == TelemetryErrorCodes::ChannelReceiveMessageError,
        r.message@ == "failed to receive message - "@ + detail@,
{
    TelemetryError::new(
        TelemetryErrorCodes::ChannelReceiveMessageError,
        String::from_str("failed to receive message - ").concat(detail),
    )
}

/// Whether an event makes the telemetry service set up its metrics
/// exporters: only a messaging connection does.
pub fn initializes_metrics(event: &AgentEvent) -> (r: bool)
    ensures
        r <==> *event is MessagingConnected,
{
    match event {
        AgentEvent::MessagingConnected => true,
        _ => false,
    }
}

} // verus!
