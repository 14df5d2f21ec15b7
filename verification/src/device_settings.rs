//! The machine-settings service: where synchronised settings come from, how
//! a settings message is answered, and the bookkeeping of its consumer task.
use vstd::prelude::*;
use crate::text::{code_message_string, code_message_text, debug_text, spec_debug_text};
use crate::events::{cancel_owed, cleared, AgentEvent, PayloadFault, SlotCommand, StringTable, TaskSlot};
use crate::agent_settings::AgentSettings;
use crate::outside::{random_alphanumeric, sha256_hex, spec_sha256_hex};
use crate::text::is_ascii_alphanumeric_char;

verus! {

/// Error codes of the machine-settings service.
#[derive(Debug, Default, Clone, Copy, PartialEq, Eq, Structural)]
pub enum DeviceSettingErrorCodes {
    #[default]
    UnknownError,
    ExtractAddTaskPayloadError,
    MessageHeaderEmptyError,
    AckHeaderNotFoundError,
    PullMessagesError,
    ChannelSendMessageError,
    ChannelReceiveMessageError,
    CreateConsumerError,
}

impl DeviceSettingErrorCodes {
    /// The variant's name, as `{:?}` prints it.
    pub open spec fn spec_name(self) -> Seq<char> {
        match self {
            DeviceSettingErrorCodes::UnknownError => "UnknownError"@,
            DeviceSettingErrorCodes::ExtractAddTaskPayloadError => "ExtractAddTaskPayloadError"@,
            DeviceSettingErrorCodes::MessageHeaderEmptyError => "MessageHeaderEmptyError"@,
            DeviceSettingErrorCodes::AckHeaderNotFoundError => "AckHeaderNotFoundError"@,
            DeviceSettingErrorCodes::PullMessagesError => "PullMessagesError"@,
            DeviceSettingErrorCodes::ChannelSendMessageError => "ChannelSendMessageError"@,
            DeviceSettingErrorCodes::ChannelReceiveMessageError => "ChannelReceiveMessageError"@,
            DeviceSettingErrorCodes::CreateConsumerError => "CreateConsumerError"@,
        }
    }

    /// The code's display text.
    pub open spec fn spec_text(self) -> Seq<char> {
        "DeviceSettingErrorCodes: "@ + self.spec_name()
    }

    /// The variant's name, as `{:?}` prints it.
    pub fn name(&self) -> (r: String)
        ensures
            r@ == self.spec_name(),
    {
        match self {
            DeviceSettingErrorCodes::UnknownError => String::from_str("UnknownError"),
            DeviceSettingErrorCodes::ExtractAddTaskPayloadError => String::from_str("ExtractAddTaskPayloadError"),
            DeviceSettingErrorCodes::MessageHeaderEmptyError => String::from_str("MessageHeaderEmptyError"),
            DeviceSettingErrorCodes::AckHeaderNotFoundError => String::from_str("AckHeaderNotFoundError"),
            DeviceSettingErrorCodes::PullMessagesError => String::from_str("PullMessagesError"),
            DeviceSettingErrorCodes::ChannelSendMessageError => String::from_str("ChannelSendMessageError"),
            DeviceSettingErrorCodes::ChannelReceiveMessageError => String::from_str("ChannelReceiveMessageError"),
            DeviceSettingErrorCodes::CreateConsumerError => String::from_str("CreateConsumerError"),
        }
    }

    /// The code's display text.
    pub fn to_string(&self) -> (r: String)
        ensures
            r@ == self.spec_text(),
    {
        String::from_str("DeviceSettingErrorCodes: ").concat(self.name().as_str())
    }
}

/// A machine-settings service error: a code and a message.
#[derive(Debug)]
pub struct DeviceSettingError {
    pub code: DeviceSettingErrorCodes,
    pub message: String,
}

impl DeviceSettingError {
    /// The error's display text.
    pub open spec fn spec_text(&self) -> Seq<char> {
        code_message_text("DeviceSettingErrorCodes:"@, self.code.spec_name(), self.message@)
    }

    /// Builds the error. `capture_error` asks for the error to be reported to
    /// the error tracker, which the application does; the value is the same
    /// either way.
    #[allow(unused_variables)]
    pub fn new(code: DeviceSettingErrorCodes, message: String, capture_error: bool) -> (r: Self)
        ensures
            r.code == code,
            r.message@ == message@,
    {
        Self { code, message }
    }

    /// The error's display text.
    pub fn to_string(&self) -> (r: String)
        ensures
            r@ == self.spec_text(),
    {
        code_message_string("DeviceSettingErrorCodes:", self.code.name().as_str(), self.message.as_str())
    }
}

/// The answer a settings message gets once it is stored.
pub struct SettingsAckPayload {
    pub status: String,
}

/// A settings message: one key and its value.
pub struct AddTaskRequestPayload {
    pub key: String,
    pub value: String,
    pub created_at: String,
}

/// The status that acknowledges a stored settings message.
pub fn sync_complete_ack() -> (r: SettingsAckPayload)
    ensures
        r.status@ == "SYNC_COMPLETE"@,
{
    SettingsAckPayload { status: String::from_str("SYNC_COMPLETE") }
}

/// The stream that machine settings are published on.
pub fn settings_stream_name() -> (r: String)
    ensures
        r@ == "machine_settings"@,
{
    String::from_str("machine_settings")
}

/// `machine.<sha256 of the machine id>.settings.kv.>`
pub open spec fn spec_settings_filter_subject(machine_id: Seq<char>) -> Seq<char> {
    "machine."@ + spec_sha256_hex(machine_id) + ".settings.kv.>"@
}

/// The subjects the settings consumer of a machine takes messages from.
pub fn settings_filter_subject(machine_id: &str) -> (r: String)
    ensures
        r@ == spec_settings_filter_subject(machine_id@),
{
    String::from_str("machine.").concat(sha256_hex(machine_id).as_str()).concat(".settings.kv.>")
}

/// A fresh consumer name: ten random ASCII letters and digits.
pub fn settings_consumer_name() -> (r: String)
    ensures
        r@.len() == 10,
        forall|i: int| 0 <= i < r@.len() ==> is_ascii_alphanumeric_char(#[trigger] r@[i]),
{
    random_alphanumeric(10)
}

/// The header that names the subject an acknowledgement goes to.
pub fn ack_header_name() -> (r: String)
    ensures
        r@ == "Ack-To"@,
{
    String::from_str("Ack-To")
}

/// The subject that a settings message asks its acknowledgement to be sent
/// to: the value of its `Ack-To` header.
pub fn ack_subject(headers: Option<StringTable>) -> (r: Result<String, DeviceSettingError>)
    ensures
        match headers {
            None => r matches Err(e) && e.code == DeviceSettingErrorCodes::MessageHeaderEmptyError
                && e.message@ == "message doesn't contain any headers"@,
            Some(h) => match h.spec_get("Ack-To"@) {
                Some(v) => r matches Ok(s) && s@ == v,
                None => r matches Err(e) && e.code == DeviceSettingErrorCodes::AckHeaderNotFoundError
                    && e.message@ == "ack header not found"@,
            },
        },
{
    ack_target(headers, false)
}

/// The settings that a message asks to store: its one key and value.
pub fn settings_from_payload(payload: AddTaskRequestPayload) -> (r: StringTable)
    ensures
        r.entries@.len() == 1,
        r.entries@[0].0@ == payload.key@,
        r.entries@[0].1@ == payload.value@,
        r.spec_get(payload.key@) == Some(payload.value@),
{
    let mut entries: Vec<(String, String)> = Vec::new();
    entries.push((payload.key, payload.value));
    let r = StringTable { entries };
    assert(r.entries@.drop_first() =~= Seq::<(String, String)>::empty());
    r
}

/// The value stored under a key, as the service answers it: the empty
/// string when nothing is stored.
pub fn stored_value(found: Option<String>) -> (r: String)
    ensures
        r@ == match found {
            Some(v) => v@,
            None => Seq::<char>::empty(),
        },
{
    match found {
        Some(v) => v,
        None => String::new(),
    }
}

/// The error reported for an unreadable settings message: its bytes are
/// not UTF-8, or its text is not a settings message.
pub fn payload_error(fault: PayloadFault) -> (r: DeviceSettingError)
    ensures
        r.code == DeviceSettingErrorCodes::ExtractAddTaskPayloadError,
        r.message@ == match fault {
            PayloadFault::NotUtf8 { detail } => "error parsing message payload - "@ + detail@,
            PayloadFault::NotJson { detail } => "error converting payload to AddTaskRequestPayload - "@
                + detail@,
        },
{
    let message = match fault {
        PayloadFault::NotUtf8 { detail } => String::from_str("error parsing message payload - ").concat(
            detail.as_str(),
        ),
        PayloadFault::NotJson { detail } => String::from_str(
            "error converting payload to AddTaskRequestPayload - ",
        ).concat(detail.as_str()),
    };
    DeviceSettingError::new(DeviceSettingErrorCodes::ExtractAddTaskPayloadError, message, true)
}

/// The error reported when a message to another service could not be sent:
/// `what` names the message, `error` is the channel's error text.
pub fn channel_send_error(what: &str, error: &str) -> (r: DeviceSettingError)
    ensures
        r.code == DeviceSettingErrorCodes::ChannelSendMessageError,
        r.message@ == "error sending "@ + what@ + " - "@ + spec_debug_text(error@),
{
    let message = String::from_str("error sending ").concat(what).concat(" - ").concat(debug_text(error).as_str());
    DeviceSettingError::new(DeviceSettingErrorCodes::ChannelSendMessageError, message, true)
}

/// The error reported when the consumer could not pull messages: the
/// puller's error kind, as `{:?}` writes it, and its text.
pub fn pull_messages_error(kind: &str, text: &str) -> (r: DeviceSettingError)
    ensures
        r.code == DeviceSettingErrorCodes::PullMessagesError,
        r.message@ == "pull messages error - "@ + kind@ + " - "@ + text@,
{
    let message = String::from_str("pull messages error - ").concat(kind).concat(" - ").concat(text);
    DeviceSettingError::new(DeviceSettingErrorCodes::PullMessagesError, message, true)
}

/// The error reported when another service did not answer: `what` names
/// the message, `error` is the receiver's error as `{:?}` writes it.
pub fn channel_receive_error(what: &str, error: &str) -> (r: DeviceSettingError)
    ensures
        r.code == DeviceSettingErrorCodes::ChannelReceiveMessageError,
        r.message@ == "error receiving "@ + what@ + " - "@ + error@,
{
    let message = String::from_str("error receiving ").concat(what).concat(" - ").concat(error);
    DeviceSettingError::new(DeviceSettingErrorCodes::ChannelReceiveMessageError, message, true)
}

/// The error reported when the settings consumer could not be created.
pub fn create_consumer_error(error: &str) -> (r: DeviceSettingError)
    ensures
        r.code == DeviceSettingErrorCodes::CreateConsumerError,
        r.message@ == "create consumer error - "@ + spec_debug_text(error@) + " "@,
{
    let message = String::from_str("create consumer error - ").concat(debug_text(error).as_str()).concat(" ");
    DeviceSettingError::new(DeviceSettingErrorCodes::CreateConsumerError, message, true)
}

/// What the settings service does in answer to an event.
pub enum SettingsAction {
    Ignore,
    /// Apply `cancel` to the consumer token, then create the consumer.
    StartConsumer { cancel: SlotCommand },
    /// Apply the two cancellations to the sync token and the consumer token.
    Clear { sync: SlotCommand, consumer: SlotCommand },
}

/// The decisions of the settings service: its consumer task and its sync
/// task.
pub struct SettingHandler {
    pub consumer: TaskSlot,
    pub sync: TaskSlot,
}

impl SettingHandler {
    pub fn new() -> (r: Self)
        ensures
            r.consumer == TaskSlot::Empty,
            r.sync == TaskSlot::Empty,
    {
        SettingHandler { consumer: TaskSlot::Empty, sync: TaskSlot::Empty }
    }

    /// Before the consumer is (re)created: the old token is to be cancelled.
    pub fn begin_consumer(&mut self) -> (cancel: SlotCommand)
        ensures
            cancel == cancel_owed(old(self).consumer),
            final(self).consumer == cleared(old(self).consumer),
            final(self).sync == old(self).sync,
    {
        self.consumer.begin_restart()
    }

    /// The outcome of creating the consumer: on success its task runs and its
    /// token is stored; on failure the error carries the cause.
    pub fn consumer_created(&mut self, created: Result<(), String>) -> (r: Result<bool, DeviceSettingError>)
        ensures
            final(self).sync == old(self).sync,
            match created {
                Ok(_) => r matches Ok(b) && b && final(self).consumer == TaskSlot::Running,
                Err(e) => r matches Err(err) && err.code == DeviceSettingErrorCodes::CreateConsumerError
                    && err.message@ == "create consumer error - "@ + spec_debug_text(e@) + " "@
                    && final(self).consumer == old(self).consumer,
            },
    {
        match created {
            Ok(_) => {
                self.consumer.started();
                Ok(true)
            },
            Err(e) => Err(create_consumer_error(e.as_str())),
        }
    }

    /// Cancels the consumer; `true` when one had been started.
    pub fn clear_settings_subscription(&mut self) -> (r: (bool, SlotCommand))
        ensures
            r.0 == (old(self).consumer != TaskSlot::Empty),
            r.1 == cancel_owed(old(self).consumer),
            final(self).consumer == cleared(old(self).consumer),
            final(self).sync == old(self).sync,
    {
        self.consumer.clear()
    }

    /// Cancels the sync task; `true` when one had been started.
    pub fn clear_sync_settings_subscriber(&mut self) -> (r: (bool, SlotCommand))
        ensures
            r.0 == (old(self).sync != TaskSlot::Empty),
            r.1 == cancel_owed(old(self).sync),
            final(self).sync == cleared(old(self).sync),
            final(self).consumer == old(self).consumer,
    {
        self.sync.clear()
    }

    /// Handles an event broadcast by another service.
    pub fn handle_event(&mut self, event: &AgentEvent) -> (r: SettingsAction)
        ensures
            *event is Deprovisioned ==> final(self).consumer != TaskSlot::Running,
            *event is Deprovisioned ==> final(self).sync != TaskSlot::Running,
            match *event {
                AgentEvent::MessagingConnected => r == SettingsAction::StartConsumer {
                    cancel: cancel_owed(old(self).consumer),
                } && final(self).consumer == cleared(old(self).consumer) && final(self).sync == old(self).sync,
                AgentEvent::MessagingDisconnected | AgentEvent::Deprovisioned => r == SettingsAction::Clear {
                    sync: cancel_owed(old(self).sync),
                    consumer: cancel_owed(old(self).consumer),
                } && final(self).consumer == cleared(old(self).consumer) && final(self).sync == cleared(
                    old(self).sync,
                ),
                _ => r == SettingsAction::Ignore && final(self).consumer == old(self).consumer && final(self).sync
                    == old(self).sync,
            },
    {
        match event {
            AgentEvent::MessagingConnected => SettingsAction::StartConsumer { cancel: self.begin_consumer() },
            AgentEvent::MessagingDisconnected | AgentEvent::Deprovisioned => {
                let (_, sync) = self.clear_sync_settings_subscriber();
                let (_, consumer) = self.clear_settings_subscription();
                SettingsAction::Clear { sync, consumer }
            },
            _ => SettingsAction::Ignore,
        }
    }
}


/// The code and message of an error, as the contracts compare them.
pub open spec fn is_setting_error(e: DeviceSettingError, code: DeviceSettingErrorCodes, message: Seq<char>) -> bool {
    e.code == code && e.message@ == message
}

/// Where the acknowledgement of a message goes, or why it cannot be sent:
/// `legacy` selects the texts of the machine-settings puller that predates
/// the settings service.
pub open spec fn spec_ack_target(headers: Option<StringTable>, legacy: bool) -> Result<
    Seq<char>,
    (DeviceSettingErrorCodes, Seq<char>),
> {
    match headers {
        None => Err(
            (
                DeviceSettingErrorCodes::MessageHeaderEmptyError,
                if legacy {
                    "Message doesn't contain any headers"@
                } else {
                    "message doesn't contain any headers"@
                },
            ),
        ),
        Some(h) => match h.spec_get("Ack-To"@) {
            Some(v) => Ok(v),
            None => Err(
                (
                    DeviceSettingErrorCodes::AckHeaderNotFoundError,
                    if legacy {
                        "Ack header not found"@
                    } else {
                        "ack header not found"@
                    },
                ),
            ),
        },
    }
}

/// The message of the error for an unreadable settings message.
pub open spec fn spec_payload_message(fault: PayloadFault, legacy: bool) -> Seq<char> {
    match fault {
        PayloadFault::NotUtf8 { detail } => if legacy {
            "Error converting payload to string - "@ + detail@
        } else {
            "error parsing message payload - "@ + detail@
        },
        PayloadFault::NotJson { detail } => if legacy {
            "Error converting payload to AddTaskRequestPayload - "@ + detail@
        } else {
            "error converting payload to AddTaskRequestPayload - "@ + detail@
        },
    }
}

/// What is done with a settings message once it is read: its setting is
/// stored, then the acknowledgement is sent to `ack_to` (or, when it cannot
/// be, the error that says why ends the processing).
pub struct SettingsMessagePlan {
    pub store: StringTable,
    pub ack_to: Result<String, DeviceSettingError>,
    pub ack: SettingsAckPayload,
}

/// The plan for a message that was read as `parsed` and carried `headers`,
/// or the error for an unreadable one.
pub open spec fn is_message_plan(
    r: Result<SettingsMessagePlan, DeviceSettingError>,
    parsed: Result<AddTaskRequestPayload, PayloadFault>,
    headers: Option<StringTable>,
    legacy: bool,
) -> bool {
    match parsed {
        Err(fault) => r matches Err(e) && is_setting_error(
            e,
            DeviceSettingErrorCodes::ExtractAddTaskPayloadError,
            spec_payload_message(fault, legacy),
        ),
        Ok(p) => r matches Ok(plan) && plan.store.entries@.len() == 1 && plan.store.entries@[0].0@ == p.key@
            && plan.store.entries@[0].1@ == p.value@ && plan.ack.status@ == "SYNC_COMPLETE"@ && match spec_ack_target(
            headers,
            legacy,
        ) {
            Ok(v) => plan.ack_to matches Ok(s) && s@ == v,
            Err((code, message)) => plan.ack_to matches Err(e) && is_setting_error(e, code, message),
        },
    }
}

fn ack_target(headers: Option<StringTable>, legacy: bool) -> (r: Result<String, DeviceSettingError>)
    ensures
        match spec_ack_target(headers, legacy) {
            Ok(v) => r matches Ok(s) && s@ == v,
            Err((code, message)) => r matches Err(e) && is_setting_error(e, code, message),
        },
{
    match headers {
        None => Err(
            DeviceSettingError::new(
                DeviceSettingErrorCodes::MessageHeaderEmptyError,
                if legacy {
                    String::from_str("Message doesn't contain any headers")
                } else {
                    String::from_str("message doesn't contain any headers")
                },
                false,
            ),
        ),
        Some(h) => match h.get("Ack-To") {
            Some(v) => Ok(v),
            None => Err(
                DeviceSettingError::new(
                    DeviceSettingErrorCodes::AckHeaderNotFoundError,
                    if legacy {
                        String::from_str("Ack header not found")
                    } else {
                        String::from_str("ack header not found")
                    },
                    legacy,
                ),
            ),
        },
    }
}

fn plan_message(parsed: Result<AddTaskRequestPayload, PayloadFault>, headers: Option<StringTable>, legacy: bool) -> (r:
    Result<SettingsMessagePlan, DeviceSettingError>)
    ensures
        is_message_plan(r, parsed, headers, legacy),
{
    match parsed {
        Err(fault) => {
            let message = match fault {
                PayloadFault::NotUtf8 { detail } => if legacy {
                    String::from_str("Error converting payload to string - ").concat(detail.as_str())
                } else {
                    String::from_str("error parsing message payload - ").concat(detail.as_str())
                },
                PayloadFault::NotJson { detail } => if legacy {
                    String::from_str("Error converting payload to AddTaskRequestPayload - ").concat(detail.as_str())
                } else {
                    String::from_str("error converting payload to AddTaskRequestPayload - ").concat(detail.as_str())
                },
            };
            Err(DeviceSettingError::new(DeviceSettingErrorCodes::ExtractAddTaskPayloadError, message, true))
        },
        Ok(p) => {
            let store = settings_from_payload(p);
            Ok(SettingsMessagePlan { store, ack_to: ack_target(headers, legacy), ack: sync_complete_ack() })
        },
    }
}

/// What the settings service does with one pulled message, read as `parsed`
/// (the payload, or why it could not be read) with its `headers`.
pub fn settings_message_step(parsed: Result<AddTaskRequestPayload, PayloadFault>, headers: Option<StringTable>) -> (r:
    Result<SettingsMessagePlan, DeviceSettingError>)
    ensures
        is_message_plan(r, parsed, headers, false),
{
    plan_message(parsed, headers, false)
}

/// The machine-settings puller that predates the settings service: it
/// reads the `device_settings` stream and stores each setting it pulls.
pub struct DeviceSettings {
    pub settings: AgentSettings,
}

impl DeviceSettings {
    pub fn new(settings: AgentSettings) -> (r: Self)
        ensures
            r.settings == settings,
    {
        DeviceSettings { settings }
    }

    /// The stream it pulls from.
    pub fn stream_name(&self) -> (r: String)
        ensures
            r@ == "device_settings"@,
    {
        String::from_str("device_settings")
    }

    /// What it does with one pulled message, read as `parsed` with its
    /// `headers`.
    pub fn message_step(&self, parsed: Result<AddTaskRequestPayload, PayloadFault>, headers: Option<StringTable>) -> (r:
        Result<SettingsMessagePlan, DeviceSettingError>)
        ensures
            is_message_plan(r, parsed, headers, true),
    {
        plan_message(parsed, headers, true)
    }

    /// The answer to a read of `key`, given what the store held.
    pub fn get_settings(&self, found: Option<String>) -> (r: String)
        ensures
            r@ == match found {
                Some(v) => v@,
                None => Seq::<char>::empty(),
            },
    {
        stored_value(found)
    }
}

impl SettingHandler {
    /// The answer to a read of a key, given what reading the store gave:
    /// the value, the empty string for a key that holds none, or the store's
    /// error.
    pub fn answer_get_settings(&self, read: Result<Option<String>, String>) -> (r: Result<String, String>)
        ensures
            match read {
                Ok(Some(v)) => r matches Ok(s) && s@ == v@,
                Ok(None) => r matches Ok(s) && s@.len() == 0,
                Err(e) => r matches Err(t) && t@ == e@,
            },
    {
        match read {
            Ok(found) => Ok(stored_value(found)),
            Err(e) => Err(e),
        }
    }

    /// The answer to a write of settings: `false`, whatever storing them
    /// and announcing the update gave.
    #[allow(unused_variables)]
    pub fn answer_set_settings(&self, stored: Result<bool, String>) -> (r: Result<bool, String>)
        ensures
            r matches Ok(b) && !b,
    {
        Ok(false)
    }
}

} // verus!
