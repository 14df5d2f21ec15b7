//! The messaging service: its errors, the broker requests it serves, and
//! its answers to the other services' events.
use vstd::prelude::*;
use crate::text::{code_message_string, code_message_text};
use crate::events::AgentEvent;
use crate::outside::{sha256_hex, spec_sha256_hex};

verus! {

/// Error codes of the messaging service.
#[derive(Debug, Default, Clone, Copy, PartialEq, Eq, Structural)]
pub enum MessagingErrorCodes {
    #[default]
    UnknownError,
    GetAuthNonceError,
    NatsClientNotInitialized,
    AuthNonceResponseParseError,
    AuthTokenResponseParseError,
    ChannelSendMessageError,
    ChannelReceiveMessageError,
    EventSendError,
}

impl MessagingErrorCodes {
    /// The variant's name, as `{:?}` prints it.
    pub open spec fn spec_name(self) -> Seq<char> {
        match self {
            MessagingErrorCodes::UnknownError => "UnknownError"@,
            MessagingErrorCodes::GetAuthNonceError => "GetAuthNonceError"@,
            MessagingErrorCodes::NatsClientNotInitialized => "NatsClientNotInitialized"@,
            MessagingErrorCodes::AuthNonceResponseParseError => "AuthNonceResponseParseError"@,
            MessagingErrorCodes::AuthTokenResponseParseError => "AuthTokenResponseParseError"@,
            MessagingErrorCodes::ChannelSendMessageError => "ChannelSendMessageError"@,
            MessagingErrorCodes::ChannelReceiveMessageError => "ChannelReceiveMessageError"@,
            MessagingErrorCodes::EventSendError => "EventSendError"@,
        }
    }

    /// The code's display text.
    pub open spec fn spec_text(self) -> Seq<char> {
        "MessagingErrorCodes: "@ + self.spec_name()
    }

    /// The variant's name, as `{:?}` prints it.
    pub fn name(&self) -> (r: String)
        ensures
            r@ == self.spec_name(),
    {
        match self {
            MessagingErrorCodes::UnknownError => String::from_str("UnknownError"),
            MessagingErrorCodes::GetAuthNonceError => String::from_str("GetAuthNonceError"),
            MessagingErrorCodes::NatsClientNotInitialized => String::from_str("NatsClientNotInitialized"),
            MessagingErrorCodes::AuthNonceResponseParseError => String::from_str("AuthNonceResponseParseError"),
            MessagingErrorCodes::AuthTokenResponseParseError => String::from_str("AuthTokenResponseParseError"),
            MessagingErrorCodes::ChannelSendMessageError => String::from_str("ChannelSendMessageError"),
            MessagingErrorCodes::ChannelReceiveMessageError => String::from_str("ChannelReceiveMessageError"),
            MessagingErrorCodes::EventSendError => String::from_str("EventSendError"),
        }
    }

    /// The code's display text.
    pub fn to_string(&self) -> (r: String)
        ensures
            r@ == self.spec_text(),
    {
        String::from_str("MessagingErrorCodes: ").concat(self.name().as_str())
    }
}

/// A messaging service error: a code and a message.
#[derive(Debug)]
pub struct MessagingError {
    pub code: MessagingErrorCodes,
    pub message: String,
}

impl MessagingError {
    /// The error's display text.
    pub open spec fn spec_text(&self) -> Seq<char> {
        code_message_text("MessagingErrorCodes:"@, self.code.spec_name(), self.message@)
    }

    /// Builds the error. `capture_error` asks for the error to be reported to
    /// the error tracker, which the application does; the value is the same
    /// either way.
    #[allow(unused_variables)]
    pub fn new(code: MessagingErrorCodes, message: String, capture_error: bool) -> (r: Self)
        ensures
            r.code == code,
            r.message@ == message@,
    {
        Self { code, message }
    }

    /// The error's display text.
    pub fn to_string(&self) -> (r: String)
        ensures
            r@ == self.spec_text(),
    {
        code_message_string("MessagingErrorCodes:", self.code.name().as_str(), self.message.as_str())
    }
}

/// The envelope in which the messaging server answers.
pub struct MessagingServerResponseGeneric<T> {
    pub success: bool,
    pub status: String,
    pub status_code: i16,
    pub message: Option<String>,
    pub error_code: Option<String>,
    pub sub_errors: Option<String>,
    pub payload: T,
}

/// Settings of the messaging broker.
pub struct MessagingSettings {
    pub mqtt: MQTTSettings,
}

pub struct MQTTSettings {
    pub url: String,
    pub username: String,
    pub password: String,
    pub vendor: String,
}

/// `inbox.<sha256 of machine id>`
pub open spec fn spec_inbox_prefix(machine_id: Seq<char>) -> Seq<char> {
    "inbox."@ + spec_sha256_hex(machine_id)
}

/// The prefix of the reply subjects the machine's broker client uses.
pub fn inbox_prefix(machine_id: &str) -> (r: String)
    ensures
        r@ == spec_inbox_prefix(machine_id@),
{
    String::from_str("inbox.").concat(sha256_hex(machine_id).as_str())
}

/// Every broker operation needs the client: without one it fails with
/// `NatsClientNotInitialized`.
pub fn require_client(has_client: bool, capture_error: bool) -> (r: Result<(), MessagingError>)
    ensures
        has_client ==> r is Ok,
        !has_client ==> (r matches Err(e) && e.code == MessagingErrorCodes::NatsClientNotInitialized
            && e.message@ == "messaging service initialized without nats client"@),
{
    if has_client {
        Ok(())
    } else {
        Err(
            MessagingError::new(
                MessagingErrorCodes::NatsClientNotInitialized,
                String::from_str("messaging service initialized without nats client"),
                capture_error,
            ),
        )
    }
}

/// Whether a service is running.
#[derive(Debug, Clone, Copy, PartialEq, Eq, Structural)]
pub enum ServiceStatus {
    Started,
    Stopped,
}

/// What the messaging service does in answer to an event.
#[derive(Debug, Clone, Copy, PartialEq, Eq, Structural)]
pub enum MessagingAction {
    Ignore,
    /// Ask the identity service for the machine id, then `start` with it.
    Start,
    /// Broadcast `MessagingDisconnected`, then connect again.
    AnnounceDisconnectAndReconnect,
}

/// The requests the messaging service serves.
#[derive(Debug, Clone, Copy, PartialEq, Eq, Structural)]
pub enum MessagingRequest {
    Connect,
    Disconnect,
    Reconnect,
    Subscriber,
    Send,
    Request,
    InitJetStream,
}

/// The broker operation a request is served with.
#[derive(Debug, Clone, Copy, PartialEq, Eq, Structural)]
pub enum MessagingOperation {
    /// No operation; the request goes unanswered.
    Unanswered,
    Connect,
    Subscribe,
    Publish,
    Request,
    InitJetStream,
}

pub open spec fn spec_operation(request: MessagingRequest) -> MessagingOperation {
    match request {
        MessagingRequest::Connect | MessagingRequest::Reconnect => MessagingOperation::Connect,
        MessagingRequest::Disconnect => MessagingOperation::Unanswered,
        MessagingRequest::Subscriber => MessagingOperation::Subscribe,
        MessagingRequest::Send => MessagingOperation::Publish,
        MessagingRequest::Request => MessagingOperation::Request,
        MessagingRequest::InitJetStream => MessagingOperation::InitJetStream,
    }
}

/// The decisions of the messaging service.
pub struct MessagingHandler {
    pub status: ServiceStatus,
}

impl MessagingHandler {
    /// A new service counts as started.
    pub fn new() -> (r: Self)
        ensures
            r.status == ServiceStatus::Started,
    {
        MessagingHandler { status: ServiceStatus::Started }
    }

    /// Handles an event broadcast by another service.
    pub fn handle_event(&mut self, event: &AgentEvent) -> (r: MessagingAction)
        ensures
            match *event {
                AgentEvent::Provisioned => r == MessagingAction::Start && final(self).status == old(
                    self,
                ).status,
                AgentEvent::Deprovisioned => r == MessagingAction::Ignore && final(self).status
                    == ServiceStatus::Stopped,
                AgentEvent::NatsDisconnected => r == MessagingAction::AnnounceDisconnectAndReconnect
                    && final(self).status == old(self).status,
                _ => r == MessagingAction::Ignore && final(self).status == old(self).status,
            },
    {
        match event {
            AgentEvent::Provisioned => MessagingAction::Start,
            AgentEvent::Deprovisioned => {
                let _ = self.stop();
                MessagingAction::Ignore
            },
            AgentEvent::NatsDisconnected => MessagingAction::AnnounceDisconnectAndReconnect,
            _ => MessagingAction::Ignore,
        }
    }

    /// Starts the service with what the identity service answered: `None`
    /// when it gave no machine id. A machine with an id marks the service
    /// started and asks to connect (the second value); the answer is `false`
    /// only when the id could not be had.
    pub fn start(&mut self, machine_id: Option<&str>) -> (r: (bool, bool))
        ensures
            match machine_id {
                None => !r.0 && !r.1 && final(self).status == old(self).status,
                Some(id) => r.0 && r.1 == (id@.len() > 0) && final(self).status == if id@.len() > 0 {
                    ServiceStatus::Started
                } else {
                    old(self).status
                },
            },
    {
        match machine_id {
            None => (false, false),
            Some(id) => {
                if id.unicode_len() > 0 {
                    self.status = ServiceStatus::Started;
                    (true, true)
                } else {
                    (true, false)
                }
            },
        }
    }

    /// Marks the service stopped.
    pub fn stop(&mut self) -> (r: bool)
        ensures
            r,
            final(self).status == ServiceStatus::Stopped,
    {
        self.status = ServiceStatus::Stopped;
        true
    }

    pub fn get_status(&self) -> (r: ServiceStatus)
        ensures
            r == self.status,
    {
        self.status
    }

    pub fn is_stopped(&self) -> (r: bool)
        ensures
            r == (self.status == ServiceStatus::Stopped),
    {
        self.status == ServiceStatus::Stopped
    }

    pub fn is_started(&self) -> (r: bool)
        ensures
            r == (self.status == ServiceStatus::Started),
    {
        self.status == ServiceStatus::Started
    }

    /// The broker operation that serves a request.
    pub fn operation(&self, request: MessagingRequest) -> (r: MessagingOperation)
        ensures
            r == spec_operation(request),
    {
        match request {
            MessagingRequest::Connect | MessagingRequest::Reconnect => MessagingOperation::Connect,
            MessagingRequest::Disconnect => MessagingOperation::Unanswered,
            MessagingRequest::Subscriber => MessagingOperation::Subscribe,
            MessagingRequest::Send => MessagingOperation::Publish,
            MessagingRequest::Request => MessagingOperation::Request,
            MessagingRequest::InitJetStream => MessagingOperation::InitJetStream,
        }
    }
}

/// Which step of asking another service a question failed.
#[derive(Debug, Clone, Copy, PartialEq, Eq, Structural)]
pub enum ChannelStep {
    Send,
    Receive,
}

/// The error when asking the identity service for the machine id failed.
pub fn machine_id_request_error(step: ChannelStep, error: &str) -> (r: MessagingError)
    ensures
        step == ChannelStep::Send ==> r.code == MessagingErrorCodes::ChannelSendMessageError
            && r.message@ == "error sending get machine id message - "@ + error@,
        step == ChannelStep::Receive ==> r.code == MessagingErrorCodes::ChannelReceiveMessageError
            && r.message@ == "error receiving get machine id message - "@ + error@,
{
    match step {
        ChannelStep::Send => MessagingError::new(
            MessagingErrorCodes::ChannelSendMessageError,
            String::from_str("error sending get machine id message - ").concat(error),
            true,
        ),
        ChannelStep::Receive => MessagingError::new(
            MessagingErrorCodes::ChannelReceiveMessageError,
            String::from_str("error receiving get machine id message - ").concat(error),
            true,
        ),
    }
}

/// The requests of the broker authentication that can fail.
#[derive(Debug, Clone, Copy, PartialEq, Eq, Structural)]
pub enum AuthRequest {
    /// Asking the services for a nonce to sign.
    Nonce,
    /// Exchanging the signed nonce for a token.
    Token,
}

/// The error when a request of the broker authentication failed; both
/// carry the nonce error's code.
pub fn auth_request_error(request: AuthRequest, detail: &str) -> (r: MessagingError)
    ensures
        r.code == MessagingErrorCodes::GetAuthNonceError,
        r.message@ == match request {
            AuthRequest::Nonce => "get auth nonce error - "@,
            AuthRequest::Token => "get auth token error - "@,
        } + detail@,
{
    let head = match request {
        AuthRequest::Nonce => String::from_str("get auth nonce error - "),
        AuthRequest::Token => String::from_str("get auth token error - "),
    };
    MessagingError::new(MessagingErrorCodes::GetAuthNonceError, head.concat(detail), true)
}

/// The error when the connected event could not be broadcast.
pub fn connected_event_error(detail: &str) -> (r: MessagingError)
    ensures
        r.code == MessagingErrorCodes::EventSendError,
        r.message@ == "error sending messaging service event - "@ + detail@,
{
    MessagingError::new(
        MessagingErrorCodes::EventSendError,
        String::from_str("error sending messaging service event - ").concat(detail),
        true,
    )
}

} // verus!
