//! The heartbeat service: what it publishes and where, the errors it
//! reports, and the bookkeeping of its timer.
use vstd::prelude::*;
use crate::text::{code_message_string, code_message_text};
use crate::events::{cancel_owed, AgentEvent, SlotCommand, TaskSlot};
use crate::outside::{sha256_hex, spec_sha256_hex, utc_now_rfc3339_seconds, is_rfc3339_utc_seconds};

verus! {

/// Error codes of the heartbeat service.
#[derive(Debug, Default, Clone, Copy, PartialEq, Eq, Structural)]
pub enum HeartbeatErrorCodes {
    #[default]
    UnknownError,
    InitMessagingClientError,
    ChannelSendMessageError,
    ChannelRecvTimeoutError,
}

impl HeartbeatErrorCodes {
    /// The variant's name, as `{:?}` prints it.
    pub open spec fn spec_name(self) -> Seq<char> {
        match self {
            HeartbeatErrorCodes::UnknownError => "UnknownError"@,
            HeartbeatErrorCodes::InitMessagingClientError => "InitMessagingClientError"@,
            HeartbeatErrorCodes::ChannelSendMessageError => "ChannelSendMessageError"@,
            HeartbeatErrorCodes::ChannelRecvTimeoutError => "ChannelRecvTimeoutError"@,
        }
    }

    /// The code's display text.
    pub open spec fn spec_text(self) -> Seq<char> {
        "HeartbeatErrorCodes: "@ + self.spec_name()
    }

    /// The variant's name, as `{:?}` prints it.
    pub fn name(&self) -> (r: String)
        ensures
            r@ == self.spec_name(),
    {
        match self {
            HeartbeatErrorCodes::UnknownError => String::from_str("UnknownError"),
            HeartbeatErrorCodes::InitMessagingClientError => String::from_str("InitMessagingClientError"),
            HeartbeatErrorCodes::ChannelSendMessageError => String::from_str("ChannelSendMessageError"),
            HeartbeatErrorCodes::ChannelRecvTimeoutError => String::from_str("ChannelRecvTimeoutError"),
        }
    }

    /// The code's display text.
    pub fn to_string(&self) -> (r: String)
        ensures
            r@ == self.spec_text(),
    {
        String::from_str("HeartbeatErrorCodes: ").concat(self.name().as_str())
    }
}

/// A heartbeat service error: a code and a message.
#[derive(Debug)]
pub struct HeartbeatError {
    pub code: HeartbeatErrorCodes,
    pub message: String,
}

impl HeartbeatError {
    /// The error's display text.
    pub open spec fn spec_text(&self) -> Seq<char> {
        code_message_text("HeartbeatErrorCodes:"@, self.code.spec_name(), self.message@)
    }

    /// Builds the error. `capture_error` asks for the error to be reported to
    /// the error tracker, which the application does; the value is the same
    /// either way.
    #[allow(unused_variables)]
    pub fn new(code: HeartbeatErrorCodes, message: String, capture_error: bool) -> (r: Self)
        ensures
            r.code == code,
            r.message@ == message@,
    {
        Self { code, message }
    }

    /// The error's display text.
    pub fn to_string(&self) -> (r: String)
        ensures
            r@ == self.spec_text(),
    {
        code_message_string("HeartbeatErrorCodes:", self.code.name().as_str(), self.message.as_str())
    }
}

/// What the heartbeat service publishes at each tick.
pub struct HeartbeatPublishPayload {
    pub time: String,
    pub machine_id: String,
}

/// `machine.<sha256 of the machine id>.heartbeat`
pub open spec fn spec_heartbeat_subject(machine_id: Seq<char>) -> Seq<char> {
    "machine."@ + spec_sha256_hex(machine_id) + ".heartbeat"@
}

/// The subject that heartbeats of the machine are published on.
pub fn heartbeat_subject(machine_id: &str) -> (r: String)
    ensures
        r@ == spec_heartbeat_subject(machine_id@),
{
    String::from_str("machine.").concat(sha256_hex(machine_id).as_str()).concat(".heartbeat")
}

/// The heartbeat of `machine_id`, stamped with the current UTC time
/// (RFC 3339, whole seconds, `+00:00` offset).
pub fn heartbeat_payload(machine_id: String) -> (r: HeartbeatPublishPayload)
    ensures
        is_rfc3339_utc_seconds(r.time@),
        r.machine_id@ == machine_id@,
{
    HeartbeatPublishPayload { time: utc_now_rfc3339_seconds(), machine_id }
}

/// What the heartbeat service does in answer to an event.
#[derive(Debug, Clone, Copy, PartialEq, Eq, Structural)]
pub enum HeartbeatAction {
    /// Nothing.
    Ignore,
    /// Apply `cancel` to the current timer token, then start a new timer
    /// that publishes a heartbeat at each tick.
    StartTimer { cancel: SlotCommand },
    /// Apply `cancel` to the current timer token.
    StopTimer { cancel: SlotCommand },
}

/// The timer slot after `event`.
pub open spec fn heartbeat_next(timer: TaskSlot, event: AgentEvent) -> TaskSlot {
    match event {
        AgentEvent::MessagingConnected => TaskSlot::Running,
        AgentEvent::MessagingDisconnected | AgentEvent::Deprovisioned => if timer == TaskSlot::Empty {
            TaskSlot::Empty
        } else {
            TaskSlot::Cancelled
        },
        _ => timer,
    }
}

/// The action that `event` calls for.
pub open spec fn heartbeat_action(timer: TaskSlot, event: AgentEvent) -> HeartbeatAction {
    match event {
        AgentEvent::MessagingConnected => HeartbeatAction::StartTimer { cancel: cancel_owed(timer) },
        AgentEvent::MessagingDisconnected | AgentEvent::Deprovisioned => HeartbeatAction::StopTimer {
            cancel: cancel_owed(timer),
        },
        _ => HeartbeatAction::Ignore,
    }
}

/// The decisions of the heartbeat service: the state of its timer task.
pub struct HeartbeatHandler {
    pub timer: TaskSlot,
}

impl HeartbeatHandler {
    /// A service that has not started a timer yet.
    pub fn new() -> (r: Self)
        ensures
            r.timer == TaskSlot::Empty,
    {
        HeartbeatHandler { timer: TaskSlot::Empty }
    }

    /// Replaces the timer: the current token, if any, is to be cancelled and a
    /// new timer started.
    pub fn set_timer(&mut self) -> (cancel: SlotCommand)
        ensures
            final(self).timer == TaskSlot::Running,
            cancel == cancel_owed(old(self).timer),
    {
        let cancel = self.timer.begin_restart();
        self.timer.started();
        cancel
    }

    /// Cancels the timer; `true` when a timer had been set.
    pub fn clear_timer(&mut self) -> (r: (bool, SlotCommand))
        ensures
            r.0 == (old(self).timer != TaskSlot::Empty),
            r.1 == cancel_owed(old(self).timer),
            final(self).timer == heartbeat_next(old(self).timer, AgentEvent::MessagingDisconnected),
    {
        self.timer.clear()
    }

    /// Handles an event broadcast by another service.
    pub fn handle_event(&mut self, event: &AgentEvent) -> (r: HeartbeatAction)
        ensures
            final(self).timer == heartbeat_next(old(self).timer, *event),
            r == heartbeat_action(old(self).timer, *event),
            *event is Deprovisioned ==> final(self).timer != TaskSlot::Running,
    {
        match event {
            AgentEvent::MessagingConnected => HeartbeatAction::StartTimer { cancel: self.set_timer() },
            AgentEvent::MessagingDisconnected | AgentEvent::Deprovisioned => {
                let (_, cancel) = self.clear_timer();
                HeartbeatAction::StopTimer { cancel }
            },
            _ => HeartbeatAction::Ignore,
        }
    }
}

/// The steps of publishing a heartbeat that can fail.
#[derive(Debug, Clone, Copy, PartialEq, Eq, Structural)]
pub enum HeartbeatStep {
    /// Asking the identity service for the machine id.
    MachineIdRequest,
    /// Handing the heartbeat to the messaging service.
    Publish,
    /// Waiting for the messaging service to confirm.
    PublishReply,
}

/// The code and message reported when `step` fails with `detail`.
pub open spec fn spec_heartbeat_error(step: HeartbeatStep, detail: Seq<char>) -> (HeartbeatErrorCodes, Seq<char>) {
    match step {
        HeartbeatStep::MachineIdRequest => (
            HeartbeatErrorCodes::ChannelSendMessageError,
            "error send identity message to get machine_id: "@ + detail,
        ),
        HeartbeatStep::Publish => (HeartbeatErrorCodes::ChannelSendMessageError, "error send heartbeat message"@),
        HeartbeatStep::PublishReply => (HeartbeatErrorCodes::ChannelRecvTimeoutError, "error receiving message: "@
            + detail),
    }
}

/// The error reported when `step` fails with `detail` (for the machine-id
/// request, the channel's error as `{:?}` writes it).
pub fn heartbeat_error(step: HeartbeatStep, detail: &str) -> (r: HeartbeatError)
    ensures
        (r.code, r.message@) == spec_heartbeat_error(step, detail@),
{
    match step {
        HeartbeatStep::MachineIdRequest => HeartbeatError::new(
            HeartbeatErrorCodes::ChannelSendMessageError,
            String::from_str("error send identity message to get machine_id: ").concat(detail),
            false,
        ),
        HeartbeatStep::Publish => HeartbeatError::new(
            HeartbeatErrorCodes::ChannelSendMessageError,
            String::from_str("error send heartbeat message"),
            false,
        ),
        HeartbeatStep::PublishReply => HeartbeatError::new(
            HeartbeatErrorCodes::ChannelRecvTimeoutError,
            String::from_str("error receiving message: ").concat(detail),
            false,
        ),
    }
}

} // verus!
