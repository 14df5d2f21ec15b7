use mecha_agent::messaging::{auth_request_error, connected_event_error, AuthRequest, MessagingErrorCodes};
use mecha_agent::device_settings::{channel_receive_error, pull_messages_error, DeviceSettingErrorCodes};
use mecha_agent::events::PayloadFault;
use mecha_agent::heartbeat::{heartbeat_error, heartbeat_payload, HeartbeatErrorCodes, HeartbeatStep};
use mecha_agent::identity::{is_provisioned, machine_cert_error, machine_id_error, IdentityErrorCodes};
use mecha_agent::networking::{channel_consumer_name, init_jetstream_receive_error, init_jetstream_send_error, channel_payload_error, pull_messages_error as networking_pull_error, NetworkingErrorCodes};

#[test]
fn heartbeat_step_errors() {
    let e = heartbeat_error(HeartbeatStep::MachineIdRequest, "SendError { .. }");
    assert_eq!(e.code, HeartbeatErrorCodes::ChannelSendMessageError);
    assert_eq!(e.message, "error send identity message to get machine_id: SendError { .. }");
    let e = heartbeat_error(HeartbeatStep::Publish, "ignored");
    assert_eq!(e.message, "error send heartbeat message");
    let e = heartbeat_error(HeartbeatStep::PublishReply, "timeout");
    assert_eq!(e.code, HeartbeatErrorCodes::ChannelRecvTimeoutError);
    assert_eq!(e.message, "error receiving message: timeout");
    let p = heartbeat_payload("machine-1".to_string());
    assert_eq!(p.machine_id, "machine-1");
    assert!(p.time.ends_with("+00:00"));
}

#[test]
fn consumer_errors() {
    let e = pull_messages_error("MissingHeartbeat", "no heartbeat");
    assert_eq!(e.code, DeviceSettingErrorCodes::PullMessagesError);
    assert_eq!(e.message, "pull messages error - MissingHeartbeat - no heartbeat");
    let e = channel_receive_error("init jetstream message", "Timeout");
    assert_eq!(e.code, DeviceSettingErrorCodes::ChannelReceiveMessageError);
    assert_eq!(e.message, "error receiving init jetstream message - Timeout");
    let e = networking_pull_error("Other", "x");
    assert_eq!(e.code, NetworkingErrorCodes::PullMessagesError);
    assert_eq!(e.message, "pull messages error - Other - x");
    let e = channel_payload_error(PayloadFault::NotUtf8 { detail: "invalid utf-8".to_string() });
    assert_eq!(e.code, NetworkingErrorCodes::ExtractMessagePayloadError);
    assert_eq!(e.message, "error converting payload to string - invalid utf-8");
    let e = channel_payload_error(PayloadFault::NotJson { detail: "eof".to_string() });
    assert_eq!(e.code, NetworkingErrorCodes::PayloadDeserializationError);
    assert_eq!(e.message, "error while deserializing message payload eof");
}

#[test]
fn identity_decisions() {
    assert!(is_provisioned("machine-1"));
    assert!(!is_provisioned(""));
    let e = machine_id_error("NotFound");
    assert_eq!(e.code, IdentityErrorCodes::GetMachineIdError);
    assert_eq!(e.message, "failed to get machine id: NotFound");
    let e = machine_cert_error("NotFound");
    assert_eq!(e.code, IdentityErrorCodes::GetMachineCertError);
    assert_eq!(e.message, "failed to get machine cert: NotFound");
}

#[test]
fn messaging_authentication_errors() {
    let e = auth_request_error(AuthRequest::Token, "denied");
    assert_eq!(e.code, MessagingErrorCodes::GetAuthNonceError);
    assert_eq!(e.message, "get auth token error - denied");
    let e = auth_request_error(AuthRequest::Nonce, "down");
    assert_eq!(e.message, "get auth nonce error - down");
    let e = connected_event_error("no receivers");
    assert_eq!(e.code, MessagingErrorCodes::EventSendError);
    assert_eq!(e.message, "error sending messaging service event - no receivers");
}

#[test]
fn channel_consumer_setup() {
    let name = channel_consumer_name();
    assert_eq!(name.len(), 10);
    assert!(name.chars().all(|c| c.is_ascii_alphanumeric()));
    let e = init_jetstream_send_error("channel closed");
    assert_eq!(e.code, NetworkingErrorCodes::ChannelSendMessageError);
    assert_eq!(e.message, "error sending init jetstream message - \"channel closed\"");
    let e = init_jetstream_receive_error("Elapsed(())");
    assert_eq!(e.code, NetworkingErrorCodes::ChannelReceiveMessageError);
    assert_eq!(e.message, "error receiving init jetstream message - Elapsed(())");
}
