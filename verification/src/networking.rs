//! The networking service: its errors, the subjects of its channels, and
//! its answers to settings updates and de-provisioning.
use vstd::prelude::*;
use crate::text::{code_message_string, code_message_text};
use crate::events::{cancel_owed, cleared, AgentEvent, PayloadFault, SlotCommand, StringTable, TaskSlot};
use crate::outside::{random_alphanumeric, sha256_hex, spec_sha256_hex, to_lowercase, spec_to_lowercase};
use crate::text::{debug_text, is_ascii_alphanumeric_char, spec_debug_text, str_equal, str_starts_with, starts_with_seq};

verus! {

/// Error codes of the networking service.
#[derive(Debug, Default, Clone, Copy, PartialEq, Eq, Structural)]
pub enum NetworkingErrorCodes {
    #[default]
    NetworkingError,
    ExtractMessagePayloadError,
    MachineSettingsProviderNameNotFoundError,
    ProviderMetadataPayloadCreateError,
    MachineSettingsMachineIdNotFoundError,
    SystemArchNotFoundError,
    SystemOsNotFoundError,
    GetProviderConfigsError,
    MessagingClientConnectError,
    MessagingRequestProviderMetadataError,
    MessagingRequestProviderConfigError,
    ProviderDirectoryCreateError,
    ProviderDownloadError,
    ProviderFileCreateError,
    ProviderFileWriteError,
    ProviderFileExtractError,
    InvalidProviderFileType,
    ProviderBinariesSaveError,
    CertsValidateOrCreateError,
    CertsDirectoryCreateError,
    CertsGenerateError,
    MachineSettingsEnrollmentUrlFoundError,
    CertReadFileError,
    SignCertError,
    SignCertDecodeError,
    SignCertConvertStringError,
    SignCertFileCreateError,
    SignCertFileSaveError,
    CaCertDecodeError,
    CaCertConvertStringError,
    CaCertFileCreateError,
    CaCertFileSaveError,
    NebulaBaseConfigParseError,
    NebulaConfigDeSerializeError,
    NebulaConfigSerializeError,
    NebulaConfigFileCreateError,
    NebulaConfigFileGenerateError,
    NebulaStartError,
    SudoCheckFailed,
    CommandRunError,
    CertNotFoundError,
    KeyNotFoundError,
    CertValidityCheckError,
    CertExpiredError,
    CertVerificationCheckError,
    CertVerifyError,
    UnknownError,
    ChannelSendMessageError,
    ChannelReceiveMessageError,
    GenerateKeyPairError,
    SettingUpWireguardError,
    PullMessagesError,
    PayloadDeserializationError,
    MessageAcknowledgeError,
    ExtractMessageHeadersError,
    CreateConsumerError,
    NetworkingInitError,
}

impl NetworkingErrorCodes {
    /// The variant's name, as `{:?}` prints it.
    pub open spec fn spec_name(self) -> Seq<char> {
        match self {
            NetworkingErrorCodes::NetworkingError => "NetworkingError"@,
            NetworkingErrorCodes::ExtractMessagePayloadError => "ExtractMessagePayloadError"@,
            NetworkingErrorCodes::MachineSettingsProviderNameNotFoundError => "MachineSettingsProviderNameNotFoundError"@,
            NetworkingErrorCodes::ProviderMetadataPayloadCreateError => "ProviderMetadataPayloadCreateError"@,
            NetworkingErrorCodes::MachineSettingsMachineIdNotFoundError => "MachineSettingsMachineIdNotFoundError"@,
            NetworkingErrorCodes::SystemArchNotFoundError => "SystemArchNotFoundError"@,
            NetworkingErrorCodes::SystemOsNotFoundError => "SystemOsNotFoundError"@,
            NetworkingErrorCodes::GetProviderConfigsError => "GetProviderConfigsError"@,
            NetworkingErrorCodes::MessagingClientConnectError => "MessagingClientConnectError"@,
            NetworkingErrorCodes::MessagingRequestProviderMetadataError => "MessagingRequestProviderMetadataError"@,
            NetworkingErrorCodes::MessagingRequestProviderConfigError => "MessagingRequestProviderConfigError"@,
            NetworkingErrorCodes::ProviderDirectoryCreateError => "ProviderDirectoryCreateError"@,
            NetworkingErrorCodes::ProviderDownloadError => "ProviderDownloadError"@,
            NetworkingErrorCodes::ProviderFileCreateError => "ProviderFileCreateError"@,
            NetworkingErrorCodes::ProviderFileWriteError => "ProviderFileWriteError"@,
            NetworkingErrorCodes::ProviderFileExtractError => "ProviderFileExtractError"@,
            NetworkingErrorCodes::InvalidProviderFileType => "InvalidProviderFileType"@,
            NetworkingErrorCodes::ProviderBinariesSaveError => "ProviderBinariesSaveError"@,
            NetworkingErrorCodes::CertsValidateOrCreateError => "CertsValidateOrCreateError"@,
            NetworkingErrorCodes::CertsDirectoryCreateError => "CertsDirectoryCreateError"@,
            NetworkingErrorCodes::CertsGenerateError => "CertsGenerateError"@,
            NetworkingErrorCodes::MachineSettingsEnrollmentUrlFoundError => "MachineSettingsEnrollmentUrlFoundError"@,
            NetworkingErrorCodes::CertReadFileError => "CertReadFileError"@,
            NetworkingErrorCodes::SignCertError => "SignCertError"@,
            NetworkingErrorCodes::SignCertDecodeError => "SignCertDecodeError"@,
            NetworkingErrorCodes::SignCertConvertStringError => "SignCertConvertStringError"@,
            NetworkingErrorCodes::SignCertFileCreateError => "SignCertFileCreateError"@,
            NetworkingErrorCodes::SignCertFileSaveError => "SignCertFileSaveError"@,
            NetworkingErrorCodes::CaCertDecodeError => "CaCertDecodeError"@,
            NetworkingErrorCodes::CaCertConvertStringError => "CaCertConvertStringError"@,
            NetworkingErrorCodes::CaCertFileCreateError => "CaCertFileCreateError"@,
            NetworkingErrorCodes::CaCertFileSaveError => "CaCertFileSaveError"@,
            NetworkingErrorCodes::NebulaBaseConfigParseError => "NebulaBaseConfigParseError"@,
            NetworkingErrorCodes::NebulaConfigDeSerializeError => "NebulaConfigDeSerializeError"@,
            NetworkingErrorCodes::NebulaConfigSerializeError => "NebulaConfigSerializeError"@,
            NetworkingErrorCodes::NebulaConfigFileCreateError => "NebulaConfigFileCreateError"@,
            NetworkingErrorCodes::NebulaConfigFileGenerateError => "NebulaConfigFileGenerateError"@,
            NetworkingErrorCodes::NebulaStartError => "NebulaStartError"@,
            NetworkingErrorCodes::SudoCheckFailed => "SudoCheckFailed"@,
            NetworkingErrorCodes::CommandRunError => "CommandRunError"@,
            NetworkingErrorCodes::CertNotFoundError => "CertNotFoundError"@,
            NetworkingErrorCodes::KeyNotFoundError => "KeyNotFoundError"@,
            NetworkingErrorCodes::CertValidityCheckError => "CertValidityCheckError"@,
            NetworkingErrorCodes::CertExpiredError => "CertExpiredError"@,
            NetworkingErrorCodes::CertVerificationCheckError => "CertVerificationCheckError"@,
            NetworkingErrorCodes::CertVerifyError => "CertVerifyError"@,
            NetworkingErrorCodes::UnknownError => "UnknownError"@,
            NetworkingErrorCodes::ChannelSendMessageError => "ChannelSendMessageError"@,
            NetworkingErrorCodes::ChannelReceiveMessageError => "ChannelReceiveMessageError"@,
            NetworkingErrorCodes::GenerateKeyPairError => "GenerateKeyPairError"@,
            NetworkingErrorCodes::SettingUpWireguardError => "SettingUpWireguardError"@,
            NetworkingErrorCodes::PullMessagesError => "PullMessagesError"@,
            NetworkingErrorCodes::PayloadDeserializationError => "PayloadDeserializationError"@,
            NetworkingErrorCodes::MessageAcknowledgeError => "MessageAcknowledgeError"@,
            NetworkingErrorCodes::ExtractMessageHeadersError => "ExtractMessageHeadersError"@,
            NetworkingErrorCodes::CreateConsumerError => "CreateConsumerError"@,
            NetworkingErrorCodes::NetworkingInitError => "NetworkingInitError"@,
        }
    }

    /// The code's display text.
    pub open spec fn spec_text(self) -> Seq<char> {
        "NetworkingErrorCodes: "@ + self.spec_name()
    }

    /// The variant's name, as `{:?}` prints it.
    pub fn name(&self) -> (r: String)
        ensures
            r@ == self.spec_name(),
    {
        match self {
            NetworkingErrorCodes::NetworkingError => String::from_str("NetworkingError"),
            NetworkingErrorCodes::ExtractMessagePayloadError => String::from_str("ExtractMessagePayloadError"),
            NetworkingErrorCodes::MachineSettingsProviderNameNotFoundError => String::from_str("MachineSettingsProviderNameNotFoundError"),
            NetworkingErrorCodes::ProviderMetadataPayloadCreateError => String::from_str("ProviderMetadataPayloadCreateError"),
            NetworkingErrorCodes::MachineSettingsMachineIdNotFoundError => String::from_str("MachineSettingsMachineIdNotFoundError"),
            NetworkingErrorCodes::SystemArchNotFoundError => String::from_str("SystemArchNotFoundError"),
            NetworkingErrorCodes::SystemOsNotFoundError => String::from_str("SystemOsNotFoundError"),
            NetworkingErrorCodes::GetProviderConfigsError => String::from_str("GetProviderConfigsError"),
            NetworkingErrorCodes::MessagingClientConnectError => String::from_str("MessagingClientConnectError"),
            NetworkingErrorCodes::MessagingRequestProviderMetadataError => String::from_str("MessagingRequestProviderMetadataError"),
            NetworkingErrorCodes::MessagingRequestProviderConfigError => String::from_str("MessagingRequestProviderConfigError"),
            NetworkingErrorCodes::ProviderDirectoryCreateError => String::from_str("ProviderDirectoryCreateError"),
            NetworkingErrorCodes::ProviderDownloadError => String::from_str("ProviderDownloadError"),
            NetworkingErrorCodes::ProviderFileCreateError => String::from_str("ProviderFileCreateError"),
            NetworkingErrorCodes::ProviderFileWriteError => String::from_str("ProviderFileWriteError"),
            NetworkingErrorCodes::ProviderFileExtractError => String::from_str("ProviderFileExtractError"),
            NetworkingErrorCodes::InvalidProviderFileType => String::from_str("InvalidProviderFileType"),
            NetworkingErrorCodes::ProviderBinariesSaveError => String::from_str("ProviderBinariesSaveError"),
            NetworkingErrorCodes::CertsValidateOrCreateError => String::from_str("CertsValidateOrCreateError"),
            NetworkingErrorCodes::CertsDirectoryCreateError => String::from_str("CertsDirectoryCreateError"),
            NetworkingErrorCodes::CertsGenerateError => String::from_str("CertsGenerateError"),
            NetworkingErrorCodes::MachineSettingsEnrollmentUrlFoundError => String::from_str("MachineSettingsEnrollmentUrlFoundError"),
            NetworkingErrorCodes::CertReadFileError => String::from_str("CertReadFileError"),
            NetworkingErrorCodes::SignCertError => String::from_str("SignCertError"),
            NetworkingErrorCodes::SignCertDecodeError => String::from_str("SignCertDecodeError"),
            NetworkingErrorCodes::SignCertConvertStringError => String::from_str("SignCertConvertStringError"),
            NetworkingErrorCodes::SignCertFileCreateError => String::from_str("SignCertFileCreateError"),
            NetworkingErrorCodes::SignCertFileSaveError => String::from_str("SignCertFileSaveError"),
            NetworkingErrorCodes::CaCertDecodeError => String::from_str("CaCertDecodeError"),
            NetworkingErrorCodes::CaCertConvertStringError => String::from_str("CaCertConvertStringError"),
            NetworkingErrorCodes::CaCertFileCreateError => String::from_str("CaCertFileCreateError"),
            NetworkingErrorCodes::CaCertFileSaveError => String::from_str("CaCertFileSaveError"),
            NetworkingErrorCodes::NebulaBaseConfigParseError => String::from_str("NebulaBaseConfigParseError"),
            NetworkingErrorCodes::NebulaConfigDeSerializeError => String::from_str("NebulaConfigDeSerializeError"),
            NetworkingErrorCodes::NebulaConfigSerializeError => String::from_str("NebulaConfigSerializeError"),
            NetworkingErrorCodes::NebulaConfigFileCreateError => String::from_str("NebulaConfigFileCreateError"),
            NetworkingErrorCodes::NebulaConfigFileGenerateError => String::from_str("NebulaConfigFileGenerateError"),
            NetworkingErrorCodes::NebulaStartError => String::from_str("NebulaStartError"),
            NetworkingErrorCodes::SudoCheckFailed => String::from_str("SudoCheckFailed"),
            NetworkingErrorCodes::CommandRunError => String::from_str("CommandRunError"),
            NetworkingErrorCodes::CertNotFoundError => String::from_str("CertNotFoundError"),
            NetworkingErrorCodes::KeyNotFoundError => String::from_str("KeyNotFoundError"),
            NetworkingErrorCodes::CertValidityCheckError => String::from_str("CertValidityCheckError"),
            NetworkingErrorCodes::CertExpiredError => String::from_str("CertExpiredError"),
            NetworkingErrorCodes::CertVerificationCheckError => String::from_str("CertVerificationCheckError"),
            NetworkingErrorCodes::CertVerifyError => String::from_str("CertVerifyError"),
            NetworkingErrorCodes::UnknownError => String::from_str("UnknownError"),
            NetworkingErrorCodes::ChannelSendMessageError => String::from_str("ChannelSendMessageError"),
            NetworkingErrorCodes::ChannelReceiveMessageError => String::from_str("ChannelReceiveMessageError"),
            NetworkingErrorCodes::GenerateKeyPairError => String::from_str("GenerateKeyPairError"),
            NetworkingErrorCodes::SettingUpWireguardError => String::from_str("SettingUpWireguardError"),
            NetworkingErrorCodes::PullMessagesError => String::from_str("PullMessagesError"),
            NetworkingErrorCodes::PayloadDeserializationError => String::from_str("PayloadDeserializationError"),
            NetworkingErrorCodes::MessageAcknowledgeError => String::from_str("MessageAcknowledgeError"),
            NetworkingErrorCodes::ExtractMessageHeadersError => String::from_str("ExtractMessageHeadersError"),
            NetworkingErrorCodes::CreateConsumerError => String::from_str("CreateConsumerError"),
            NetworkingErrorCodes::NetworkingInitError => String::from_str("NetworkingInitError"),
        }
    }

    /// The code's display text.
    pub fn to_string(&self) -> (r: String)
        ensures
            r@ == self.spec_text(),
    {
        String::from_str("NetworkingErrorCodes: ").concat(self.name().as_str())
    }
}

/// A networking service error: a code and a message.
#[derive(Debug)]
pub struct NetworkingError {
    pub code: NetworkingErrorCodes,
    pub message: String,
}

impl NetworkingError {
    /// The error's display text.
    pub open spec fn spec_text(&self) -> Seq<char> {
        code_message_text("NetworkingErrorCodes:"@, self.code.spec_name(), self.message@)
    }

    /// Builds the error. `capture_error` asks for the error to be reported to
    /// the error tracker, which the application does; the value is the same
    /// either way.
    #[allow(unused_variables)]
    pub fn new(code: NetworkingErrorCodes, message: String, capture_error: bool) -> (r: Self)
        ensures
            r.code == code,
            r.message@ == message@,
    {
        Self { code, message }
    }

    /// The error's display text.
    pub fn to_string(&self) -> (r: String)
        ensures
            r@ == self.spec_text(),
    {
        code_message_string("NetworkingErrorCodes:", self.code.name().as_str(), self.message.as_str())
    }
}

/// State of a handshake transaction opened by this node.
pub enum TransactionStatus {
    TxnState { machine_id: String, state: String },
}

/// A handshake transaction just opened for `machine_id`: `PENDING`.
pub fn pending_transaction(machine_id: String) -> (r: TransactionStatus)
    ensures
        r matches TransactionStatus::TxnState { machine_id: m, state: s } && m@ == machine_id@ && s@
            == "PENDING"@,
{
    TransactionStatus::TxnState { machine_id, state: String::from_str("PENDING") }
}

/// Which channel a node listens on in a network.
pub struct ChannelDetails {
    pub machine_id: String,
    pub network_id: String,
    pub channel: String,
}

/// The subscriptions the networking service holds; `S` is the messaging
/// client's subscription handle.
pub struct NetworkingSubscriber<S> {
    pub handshake_request: Option<S>,
}

/// The subjects the networking service subscribes to.
pub enum NetworkingSubject {
    HandshakeRequest(String),
}

/// `network.<sha256 of the network id>.node.handshake.<channel>`
pub open spec fn spec_handshake_subject(network_id: Seq<char>, channel: Seq<char>) -> Seq<char> {
    "network."@ + spec_sha256_hex(network_id) + ".node.handshake."@ + channel
}

/// The subject on which the node listening on `channel` in `network_id`
/// receives handshakes.
pub fn handshake_subject(network_id: &str, channel: &str) -> (r: String)
    ensures
        r@ == spec_handshake_subject(network_id@, channel@),
{
    String::from_str("network.").concat(sha256_hex(network_id).as_str()).concat(".node.handshake.").concat(
        channel,
    )
}

/// The subjects the networking service subscribes to for its own channel.
pub fn networking_subjects(network_id: &str, channel_id: &str) -> (r: Vec<NetworkingSubject>)
    ensures
        r@.len() == 1,
        r@[0] matches NetworkingSubject::HandshakeRequest(s) && s@ == spec_handshake_subject(
            network_id@,
            channel_id@,
        ),
{
    let mut r = Vec::new();
    r.push(NetworkingSubject::HandshakeRequest(handshake_subject(network_id, channel_id)));
    r
}

/// The subject a handshake request is answered on: the requester's channel.
pub fn handshake_reply_subject(request: &ChannelDetails) -> (r: String)
    ensures
        r@ == spec_handshake_subject(request.network_id@, request.channel@),
{
    handshake_subject(request.network_id.as_str(), request.channel.as_str())
}

/// `machine.<sha256 of machine id>.networking.network.<sha256 of network id>.channel`
pub open spec fn spec_channel_subject(machine_id: Seq<char>, network_id: Seq<char>) -> Seq<char> {
    "machine."@ + spec_sha256_hex(machine_id) + ".networking.network."@ + spec_sha256_hex(network_id)
        + ".channel"@
}

/// The subject on which a machine announces its channel in a network.
pub fn channel_subject(machine_id: &str, network_id: &str) -> (r: String)
    ensures
        r@ == spec_channel_subject(machine_id@, network_id@),
{
    String::from_str("machine.").concat(sha256_hex(machine_id).as_str()).concat(
        ".networking.network.",
    ).concat(sha256_hex(network_id).as_str()).concat(".channel")
}

/// `networking.networks.<sha256 of network id>.channels.<sha256 of machine id>`
pub open spec fn spec_channel_sync_filter(network_id: Seq<char>, machine_id: Seq<char>) -> Seq<char> {
    "networking.networks."@ + spec_sha256_hex(network_id) + ".channels."@ + spec_sha256_hex(machine_id)
}

/// The filter subject of the consumer that receives other nodes' channels.
pub fn channel_sync_filter_subject(network_id: &str, machine_id: &str) -> (r: String)
    ensures
        r@ == spec_channel_sync_filter(network_id@, machine_id@),
{
    String::from_str("networking.networks.").concat(sha256_hex(network_id).as_str()).concat(
        ".channels.",
    ).concat(sha256_hex(machine_id).as_str())
}

/// The stream that carries channel announcements.
pub fn networking_stream_name() -> (r: String)
    ensures
        r@ == "networking_v1"@,
{
    String::from_str("networking_v1")
}

/// The value of `header_key` in the message headers: an error when the
/// message has no headers, the empty string when the key is absent.
pub fn get_header_by_key(headers: Option<StringTable>, header_key: String) -> (r: Result<String, NetworkingError>)
    ensures
        match headers {
            None => r matches Err(e) && e.code == NetworkingErrorCodes::ExtractMessageHeadersError
                && e.message@ == "no headers found in message"@,
            Some(h) => r matches Ok(v) && v@ == match h.spec_get(header_key@) {
                Some(x) => x,
                None => Seq::<char>::empty(),
            },
        },
{
    match headers {
        None => Err(
            NetworkingError::new(
                NetworkingErrorCodes::ExtractMessageHeadersError,
                String::from_str("no headers found in message"),
                true,
            ),
        ),
        Some(h) => match h.get(header_key.as_str()) {
            Some(v) => Ok(v),
            None => Ok(String::new()),
        },
    }
}

/// The kinds of message seen on a handshake channel, told apart by the
/// `Message-Type` header.
#[derive(Debug, Clone, Copy, PartialEq, Eq, Structural)]
pub enum HandshakeKind {
    Request,
    Reply,
    Unknown,
}

pub open spec fn spec_handshake_kind(message_type: Seq<char>) -> HandshakeKind {
    if message_type == "REQUEST"@ {
        HandshakeKind::Request
    } else if message_type == "REPLY"@ {
        HandshakeKind::Reply
    } else {
        HandshakeKind::Unknown
    }
}

/// Classifies a handshake message by its `Message-Type` header value.
pub fn handshake_kind(message_type: &str) -> (r: HandshakeKind)
    ensures
        r == spec_handshake_kind(message_type@),
{
    if str_equal(message_type, "REQUEST") {
        HandshakeKind::Request
    } else if str_equal(message_type, "REPLY") {
        HandshakeKind::Reply
    } else {
        HandshakeKind::Unknown
    }
}

/// Whether a network interface is one whose IPv4 addresses are offered as
/// local candidates: its lower-cased name starts with `wlan`, `eth` or `en`.
pub open spec fn spec_is_endpoint_interface(name: Seq<char>) -> bool {
    let lower = spec_to_lowercase(name);
    starts_with_seq(lower, "wlan"@) || starts_with_seq(lower, "eth"@) || starts_with_seq(lower, "en"@)
}

pub fn is_endpoint_interface(name: &str) -> (r: bool)
    ensures
        r == spec_is_endpoint_interface(name@),
{
    let lower = to_lowercase(name);
    str_starts_with(lower.as_str(), "wlan") || str_starts_with(lower.as_str(), "eth")
        || str_starts_with(lower.as_str(), "en")
}

/// The port offered with the local candidates: the disco address's port, or
/// 8080 when the address does not parse.
pub fn candidate_port(disco_port: Option<u16>) -> (r: u16)
    ensures
        r == match disco_port {
            Some(p) => p,
            None => 8080,
        },
{
    match disco_port {
        Some(p) => p,
        None => 8080,
    }
}

/// Whether the messaging service must reconnect: the setting
/// `networking.enabled` changes to `new_setting`.
pub open spec fn spec_needs_reconnect(existing: StringTable, new_setting: Seq<char>) -> bool {
    existing.spec_get("networking.enabled"@) != Some(new_setting)
}

pub fn needs_reconnect(existing: &StringTable, new_setting: &str) -> (r: bool)
    ensures
        r == spec_needs_reconnect(*existing, new_setting@),
{
    match existing.get("networking.enabled") {
        Some(v) => !str_equal(v.as_str(), new_setting),
        None => true,
    }
}

/// What a settings update asks of the networking service, read from the
/// new value of `networking.enabled`.
#[derive(Debug, Clone, Copy, PartialEq, Eq, Structural)]
pub enum NetworkingPlan {
    /// `"true"`: reconnect messaging if the setting changed, configure the
    /// tunnel, publish the channel, subscribe and start the consumer.
    Enable,
    /// `"false"`: reconnect messaging if the setting changed, then drop the
    /// subscriptions.
    Disable,
    /// Any other value, or none.
    Ignore,
}

pub open spec fn spec_networking_plan(new_settings: StringTable) -> NetworkingPlan {
    match new_settings.spec_get("networking.enabled"@) {
        Some(v) => if v == "true"@ {
            NetworkingPlan::Enable
        } else if v == "false"@ {
            NetworkingPlan::Disable
        } else {
            NetworkingPlan::Ignore
        },
        None => NetworkingPlan::Ignore,
    }
}

pub fn networking_plan(new_settings: &StringTable) -> (r: NetworkingPlan)
    ensures
        r == spec_networking_plan(*new_settings),
{
    match new_settings.get("networking.enabled") {
        Some(v) => if str_equal(v.as_str(), "true") {
            NetworkingPlan::Enable
        } else if str_equal(v.as_str(), "false") {
            NetworkingPlan::Disable
        } else {
            NetworkingPlan::Ignore
        },
        None => NetworkingPlan::Ignore,
    }
}

/// What the networking service does in answer to an event.
pub enum NetworkingAction {
    Ignore,
    /// Apply the two cancellations to the handshake-subscription token and
    /// the channel-consumer token.
    ClearSubscriptions { subscriber: SlotCommand, consumer: SlotCommand },
    /// Reconnect messaging when the setting changed, configure the tunnel,
    /// publish the channel, then (re)subscribe and (re)start the consumer:
    /// the steps `steps` lists.
    Enable { reconnect: bool },
    /// Reconnect messaging when the setting changed, then clear the
    /// subscriptions.
    Disable { reconnect: bool, subscriber: SlotCommand, consumer: SlotCommand },
}

/// One step of carrying out a networking action.
#[derive(Debug, Clone, Copy, PartialEq, Eq, Structural)]
pub enum NetworkingStep {
    /// Ask messaging to reconnect, when the action says the setting changed.
    Reconnect,
    /// Configure the tunnel interface.
    ConfigureTunnel,
    /// Publish this node's channel.
    PublishChannel,
    /// Cancel the old handshake subscription and subscribe again.
    Subscribe,
    /// Cancel the old channel consumer and start it again.
    StartConsumer,
    /// Apply the action's cancellations to the two tokens.
    ClearSubscriptions,
}

/// The steps an action is carried out with, in order.
pub open spec fn spec_action_steps(a: NetworkingAction) -> Seq<NetworkingStep> {
    match a {
        NetworkingAction::Ignore => Seq::empty(),
        NetworkingAction::ClearSubscriptions { .. } => seq![NetworkingStep::ClearSubscriptions],
        NetworkingAction::Enable { reconnect } => (if reconnect {
            seq![NetworkingStep::Reconnect]
        } else {
            Seq::empty()
        }) + seq![
            NetworkingStep::ConfigureTunnel,
            NetworkingStep::PublishChannel,
            NetworkingStep::Subscribe,
            NetworkingStep::StartConsumer,
        ],
        NetworkingAction::Disable { reconnect, .. } => (if reconnect {
            seq![NetworkingStep::Reconnect]
        } else {
            Seq::empty()
        }) + seq![NetworkingStep::ClearSubscriptions],
    }
}

impl NetworkingAction {
    /// The steps that carry out this action, in order.
    pub fn steps(&self) -> (r: Vec<NetworkingStep>)
        ensures
            r@ == spec_action_steps(*self),
    {
        let mut r: Vec<NetworkingStep> = Vec::new();
        match self {
            NetworkingAction::Ignore => {},
            NetworkingAction::ClearSubscriptions { .. } => {
                r.push(NetworkingStep::ClearSubscriptions);
            },
            NetworkingAction::Enable { reconnect } => {
                if *reconnect {
                    r.push(NetworkingStep::Reconnect);
                }
                r.push(NetworkingStep::ConfigureTunnel);
                r.push(NetworkingStep::PublishChannel);
                r.push(NetworkingStep::Subscribe);
                r.push(NetworkingStep::StartConsumer);
            },
            NetworkingAction::Disable { reconnect, .. } => {
                if *reconnect {
                    r.push(NetworkingStep::Reconnect);
                }
                r.push(NetworkingStep::ClearSubscriptions);
            },
        }
        assert(r@ =~= spec_action_steps(*self));
        r
    }
}

/// The decisions of the networking service: its two background tasks.
pub struct NetworkingHandler {
    pub subscriber: TaskSlot,
    pub consumer: TaskSlot,
}

impl NetworkingHandler {
    pub fn new() -> (r: Self)
        ensures
            r.subscriber == TaskSlot::Empty,
            r.consumer == TaskSlot::Empty,
    {
        NetworkingHandler { subscriber: TaskSlot::Empty, consumer: TaskSlot::Empty }
    }

    /// Cancels both tasks; always `true`.
    pub fn clear_nats_subscription(&mut self) -> (r: (bool, SlotCommand, SlotCommand))
        ensures
            r.0,
            r.1 == cancel_owed(old(self).subscriber),
            r.2 == cancel_owed(old(self).consumer),
            final(self).subscriber == cleared(old(self).subscriber),
            final(self).consumer == cleared(old(self).consumer),
    {
        let (_, s) = self.subscriber.clear();
        let (_, c) = self.consumer.clear();
        (true, s, c)
    }

    /// Before the handshake subscription is (re)made: the old token is to be
    /// cancelled.
    pub fn begin_subscribe(&mut self) -> (cancel: SlotCommand)
        ensures
            cancel == cancel_owed(old(self).subscriber),
            final(self).subscriber == cleared(old(self).subscriber),
            final(self).consumer == old(self).consumer,
    {
        self.subscriber.begin_restart()
    }

    /// The handshake subscription was made and its token stored.
    pub fn subscribed(&mut self)
        ensures
            final(self).subscriber == TaskSlot::Running,
            final(self).consumer == old(self).consumer,
    {
        self.subscriber.started()
    }

    /// Before the channel consumer is (re)started: the old token is to be
    /// cancelled.
    pub fn begin_consumer(&mut self) -> (cancel: SlotCommand)
        ensures
            cancel == cancel_owed(old(self).consumer),
            final(self).consumer == cleared(old(self).consumer),
            final(self).subscriber == old(self).subscriber,
    {
        self.consumer.begin_restart()
    }

    /// The channel consumer was started and its token stored.
    pub fn consumer_started(&mut self)
        ensures
            final(self).consumer == TaskSlot::Running,
            final(self).subscriber == old(self).subscriber,
    {
        self.consumer.started()
    }

    /// Handles an event broadcast by another service.
    pub fn handle_event(&mut self, event: &AgentEvent) -> (r: NetworkingAction)
        ensures
            *event is Deprovisioned ==> final(self).subscriber != TaskSlot::Running,
            *event is Deprovisioned ==> final(self).consumer != TaskSlot::Running,
            match *event {
                AgentEvent::Deprovisioned => r == NetworkingAction::ClearSubscriptions {
                    subscriber: cancel_owed(old(self).subscriber),
                    consumer: cancel_owed(old(self).consumer),
                } && final(self).subscriber == cleared(old(self).subscriber) && final(self).consumer
                    == cleared(old(self).consumer),
                AgentEvent::SettingsUpdated { existing_settings, new_settings } => match spec_networking_plan(
                    new_settings,
                ) {
                    NetworkingPlan::Enable => r == NetworkingAction::Enable {
                        reconnect: spec_needs_reconnect(existing_settings, "true"@),
                    } && final(self).subscriber == old(self).subscriber && final(self).consumer == old(
                        self,
                    ).consumer,
                    NetworkingPlan::Disable => r == NetworkingAction::Disable {
                        reconnect: spec_needs_reconnect(existing_settings, "false"@),
                        subscriber: cancel_owed(old(self).subscriber),
                        consumer: cancel_owed(old(self).consumer),
                    } && final(self).subscriber == cleared(old(self).subscriber) && final(self).consumer
                        == cleared(old(self).consumer),
                    NetworkingPlan::Ignore => r == NetworkingAction::Ignore && final(self).subscriber
                        == old(self).subscriber && final(self).consumer == old(self).consumer,
                },
                _ => r == NetworkingAction::Ignore && final(self).subscriber == old(self).subscriber
                    && final(self).consumer == old(self).consumer,
            },
    {
        match event {
            AgentEvent::Deprovisioned => {
                let (_, s, c) = self.clear_nats_subscription();
                NetworkingAction::ClearSubscriptions { subscriber: s, consumer: c }
            },
            AgentEvent::SettingsUpdated { existing_settings, new_settings } => {
                match networking_plan(new_settings) {
                    NetworkingPlan::Enable => NetworkingAction::Enable {
                        reconnect: needs_reconnect(existing_settings, "true"),
                    },
                    NetworkingPlan::Disable => {
                        let reconnect = needs_reconnect(existing_settings, "false");
                        let (_, s, c) = self.clear_nats_subscription();
                        NetworkingAction::Disable { reconnect, subscriber: s, consumer: c }
                    },
                    NetworkingPlan::Ignore => NetworkingAction::Ignore,
                }
            },
            _ => NetworkingAction::Ignore,
        }
    }
}

/// The settings key under which the machine's network id is stored.
pub fn network_id_key() -> (r: String)
    ensures
        r@ == "networking.network_id"@,
{
    String::from_str("networking.network_id")
}

/// The steps of configuring the tunnel that can fail.
#[derive(Debug, Clone, Copy, PartialEq, Eq, Structural)]
pub enum TunnelStep {
    /// Generating the key pair.
    GenerateKeyPair,
    /// Setting up the interface.
    SetUpInterface,
    /// Handing the channel details to the messaging service.
    PublishChannel,
}

/// The code and message reported when `step` fails with `detail`.
pub open spec fn spec_tunnel_error(step: TunnelStep, detail: Seq<char>) -> (NetworkingErrorCodes, Seq<char>) {
    match step {
        TunnelStep::GenerateKeyPair => (NetworkingErrorCodes::GenerateKeyPairError, "error generating key pair - "@
            + detail),
        TunnelStep::SetUpInterface => (NetworkingErrorCodes::SettingUpWireguardError,
        "error setting up wireguard interface - "@ + detail),
        TunnelStep::PublishChannel => (NetworkingErrorCodes::UnknownError, "error sending message to messaging - "@
            + detail),
    }
}

/// The error reported when `step` of configuring the tunnel fails.
pub fn tunnel_error(step: TunnelStep, detail: &str) -> (r: NetworkingError)
    ensures
        (r.code, r.message@) == spec_tunnel_error(step, detail@),
{
    let (code, head) = match step {
        TunnelStep::GenerateKeyPair => (NetworkingErrorCodes::GenerateKeyPairError, "error generating key pair - "),
        TunnelStep::SetUpInterface => (
            NetworkingErrorCodes::SettingUpWireguardError,
            "error setting up wireguard interface - ",
        ),
        TunnelStep::PublishChannel => (NetworkingErrorCodes::UnknownError, "error sending message to messaging - "),
    };
    NetworkingError::new(code, String::from_str(head).concat(detail), true)
}

/// What a machine publishes about its tunnel endpoint on a network.
pub fn channel_details(machine_id: String, network_id: String, channel: String) -> (r: ChannelDetails)
    ensures
        r.machine_id@ == machine_id@,
        r.network_id@ == network_id@,
        r.channel@ == channel@,
{
    ChannelDetails { machine_id, network_id, channel }
}

/// The error reported for a channel message whose payload cannot be read.
pub fn channel_payload_error(fault: PayloadFault) -> (r: NetworkingError)
    ensures
        match fault {
            PayloadFault::NotUtf8 { detail } => r.code == NetworkingErrorCodes::ExtractMessagePayloadError
                && r.message@ == "error converting payload to string - "@ + detail@,
            PayloadFault::NotJson { detail } => r.code == NetworkingErrorCodes::PayloadDeserializationError
                && r.message@ == "error while deserializing message payload "@ + detail@,
        },
{
    match fault {
        PayloadFault::NotUtf8 { detail } => NetworkingError::new(
            NetworkingErrorCodes::ExtractMessagePayloadError,
            String::from_str("error converting payload to string - ").concat(detail.as_str()),
            true,
        ),
        PayloadFault::NotJson { detail } => NetworkingError::new(
            NetworkingErrorCodes::PayloadDeserializationError,
            String::from_str("error while deserializing message payload ").concat(detail.as_str()),
            true,
        ),
    }
}

/// The error reported when the channel consumer could not pull messages:
/// the puller's error kind, as `{:?}` writes it, and its text.
pub fn pull_messages_error(kind: &str, text: &str) -> (r: NetworkingError)
    ensures
        r.code == NetworkingErrorCodes::PullMessagesError,
        r.message@ == "pull messages error - "@ + kind@ + " - "@ + text@,
{
    let message = String::from_str("pull messages error - ").concat(kind).concat(" - ").concat(text);
    NetworkingError::new(NetworkingErrorCodes::PullMessagesError, message, true)
}

/// A fresh name for the channel consumer: ten random ASCII letters and
/// digits.
pub fn channel_consumer_name() -> (r: String)
    ensures
        r@.len() == 10,
        forall|i: int| 0 <= i < r@.len() ==> is_ascii_alphanumeric_char(#[trigger] r@[i]),
{
    random_alphanumeric(10)
}

/// The error reported when the request for the stream client could not be
/// sent; `error` is the channel's error text, which the message quotes as
/// `{:?}` writes it.
pub fn init_jetstream_send_error(error: &str) -> (r: NetworkingError)
    ensures
        r.code == NetworkingErrorCodes::ChannelSendMessageError,
        r.message@ == "error sending init jetstream message - "@ + spec_debug_text(error@),
{
    NetworkingError::new(
        NetworkingErrorCodes::ChannelSendMessageError,
        String::from_str("error sending init jetstream message - ").concat(debug_text(error).as_str()),
        true,
    )
}

/// The error reported when the stream client did not come; `error` is the
/// receiver's error as `{:?}` writes it.
pub fn init_jetstream_receive_error(error: &str) -> (r: NetworkingError)
    ensures
        r.code == NetworkingErrorCodes::ChannelReceiveMessageError,
        r.message@ == "error receiving init jetstream message - "@ + error@,
{
    NetworkingError::new(
        NetworkingErrorCodes::ChannelReceiveMessageError,
        String::from_str("error receiving init jetstream message - ").concat(error),
        true,
    )
}

} // verus!
