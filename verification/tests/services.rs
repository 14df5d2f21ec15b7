use mecha_agent::device_settings::{
    settings_message_step,
    ack_header_name, ack_subject, channel_send_error, payload_error, settings_consumer_name, settings_from_payload,
    stored_value, sync_complete_ack, AddTaskRequestPayload, DeviceSettingErrorCodes,
};
use mecha_agent::events::{PayloadFault, StringTable};
use mecha_agent::grpc::{
    export_user_type, resolve_error, resolve_tonic_error_code, server_host, server_port, server_start_error,
    try_resolve_error, AgentServerErrorCodes, GrpcCode,
};
use mecha_agent::networking::{
    candidate_port, channel_details, get_header_by_key, handshake_kind, is_endpoint_interface, network_id_key,
    pending_transaction, tunnel_error, HandshakeKind, NetworkingErrorCodes, TransactionStatus, TunnelStep,
};
use mecha_agent::provisioning::{ProvisioningError, ProvisioningErrorCodes};
use mecha_agent::server::provisioning_route_error;
use mecha_agent::status::{
    machine_id_request_error, platform_info, platform_info_error, status_error, status_payload, PlatformFact,
    StatusErrorCodes, StatusStep,
};
use mecha_agent::telemetry::{
    collector_command, collector_started, encode_data, publishes_batch, receive_error, request_error, send_error,
    serialize_error, TelemetryErrorCodes, TelemetryKind, TelemetryOtelCollector, TelemetrySettings,
    TelemetrySettingsCollect,
};

fn table(entries: &[(&str, &str)]) -> StringTable {
    StringTable { entries: entries.iter().map(|(k, v)| (k.to_string(), v.to_string())).collect() }
}

#[test]
fn ack_goes_to_the_ack_to_header() {
    assert_eq!(ack_header_name(), "Ack-To");
    let s = ack_subject(Some(table(&[("Other", "x"), ("Ack-To", "reply.subject")]))).unwrap();
    assert_eq!(s, "reply.subject");
    let e = ack_subject(None).unwrap_err();
    assert_eq!(e.code, DeviceSettingErrorCodes::MessageHeaderEmptyError);
    assert_eq!(e.message, "message doesn't contain any headers");
    let e = ack_subject(Some(table(&[("Other", "x")]))).unwrap_err();
    assert_eq!(e.code, DeviceSettingErrorCodes::AckHeaderNotFoundError);
    assert_eq!(e.message, "ack header not found");
    assert_eq!(sync_complete_ack().status, "SYNC_COMPLETE");
}

#[test]
fn a_stored_setting_reads_back() {
    let payload = AddTaskRequestPayload {
        key: "networking.enabled".to_string(),
        value: "true".to_string(),
        created_at: "2024-01-01".to_string(),
    };
    let t = settings_from_payload(payload);
    assert_eq!(t.entries.len(), 1);
    assert_eq!(t.get("networking.enabled"), Some("true".to_string()));
    assert_eq!(t.get("missing"), None);
    assert_eq!(stored_value(Some("v".to_string())), "v");
    assert_eq!(stored_value(None), "");
}

#[test]
fn settings_errors() {
    let e = payload_error(PayloadFault::NotUtf8 { detail: "bad byte".to_string() });
    assert_eq!(e.code, DeviceSettingErrorCodes::ExtractAddTaskPayloadError);
    assert_eq!(e.message, "error parsing message payload - bad byte");
    let e = payload_error(PayloadFault::NotJson { detail: "missing field".to_string() });
    assert_eq!(e.message, "error converting payload to AddTaskRequestPayload - missing field");
    let e = channel_send_error("settings synced event", "closed");
    assert_eq!(e.code, DeviceSettingErrorCodes::ChannelSendMessageError);
    assert_eq!(e.message, "error sending settings synced event - \"closed\"");
    let name = settings_consumer_name();
    assert_eq!(name.len(), 10);
    assert!(name.chars().all(|c| c.is_ascii_alphanumeric()));
}

#[test]
fn header_lookup() {
    let v = get_header_by_key(Some(table(&[("Message-Type", "REQUEST")])), "Message-Type".to_string()).unwrap();
    assert_eq!(v, "REQUEST");
    let v = get_header_by_key(Some(table(&[])), "Message-Type".to_string()).unwrap();
    assert_eq!(v, "");
    let e = get_header_by_key(None, "Message-Type".to_string()).unwrap_err();
    assert_eq!(e.code, NetworkingErrorCodes::ExtractMessageHeadersError);
    assert_eq!(e.message, "no headers found in message");
}

#[test]
fn networking_decisions() {
    assert_eq!(handshake_kind("REQUEST"), HandshakeKind::Request);
    assert_eq!(handshake_kind("REPLY"), HandshakeKind::Reply);
    assert_eq!(handshake_kind("request"), HandshakeKind::Unknown);
    assert!(is_endpoint_interface("eth0"));
    assert!(is_endpoint_interface("WLAN1"));
    assert!(is_endpoint_interface("enp3s0"));
    assert!(!is_endpoint_interface("lo"));
    assert!(!is_endpoint_interface("docker0"));
    assert_eq!(candidate_port(Some(4242)), 4242);
    assert_eq!(candidate_port(None), 8080);
    assert_eq!(network_id_key(), "networking.network_id");
    match pending_transaction("m".to_string()) {
        TransactionStatus::TxnState { machine_id, state } => {
            assert_eq!(machine_id, "m");
            assert_eq!(state, "PENDING");
        }
    }
    let e = tunnel_error(TunnelStep::SetUpInterface, "no tun");
    assert_eq!(e.code, NetworkingErrorCodes::SettingUpWireguardError);
    assert_eq!(e.message, "error setting up wireguard interface - no tun");
    let e = tunnel_error(TunnelStep::GenerateKeyPair, "rng");
    assert_eq!(e.code, NetworkingErrorCodes::GenerateKeyPairError);
    let e = tunnel_error(TunnelStep::PublishChannel, "closed");
    assert_eq!(e.code, NetworkingErrorCodes::UnknownError);
    assert_eq!(e.message, "error sending message to messaging - closed");
    let d = channel_details("m".to_string(), "n".to_string(), "c".to_string());
    assert_eq!((d.machine_id.as_str(), d.network_id.as_str(), d.channel.as_str()), ("m", "n", "c"));
}

#[test]
fn status_names_resolve_whatever_their_case() {
    assert_eq!(resolve_tonic_error_code("NOT_FOUND"), GrpcCode::NotFound);
    assert_eq!(resolve_tonic_error_code("not_found"), GrpcCode::NotFound);
    assert_eq!(resolve_tonic_error_code("Unavailable"), GrpcCode::Unavailable);
    assert_eq!(resolve_tonic_error_code("ok"), GrpcCode::Okay);
    assert_eq!(resolve_tonic_error_code("unauthenticated"), GrpcCode::Unauthenticated);
    assert_eq!(resolve_tonic_error_code("PERMISSION_DENIED"), GrpcCode::Unknown);
    assert_eq!(resolve_tonic_error_code("whatever"), GrpcCode::Unknown);
}

#[test]
fn provisioning_errors_carry_their_quoted_status() {
    let e = ProvisioningError::new(
        ProvisioningErrorCodes::InternalServerError,
        "call failed, status: not_found, body".to_string(),
        false,
    );
    let s = resolve_error(e);
    assert_eq!(s.code, GrpcCode::NotFound);
    assert_eq!(
        s.message,
        "ProvisioningErrorCodes:(code: InternalServerError, message: call failed, status: not_found, body)"
    );
    let e = ProvisioningError::new(ProvisioningErrorCodes::UnknownError, "no status here".to_string(), false);
    assert!(try_resolve_error(e).is_none());
    let e = ProvisioningError::new(ProvisioningErrorCodes::UnknownError, "x status: UNAVAILABLE, y".to_string(), false);
    assert_eq!(try_resolve_error(e).unwrap().code, GrpcCode::Unavailable);
}

#[test]
fn grpc_server_settings() {
    assert_eq!(export_user_type(Some("System")), "System");
    assert_eq!(export_user_type(None), "User");
    assert_eq!(server_host(None), "127.0.0.1");
    assert_eq!(server_host(Some("0.0.0.0".to_string())), "0.0.0.0");
    assert_eq!(server_port(3001), 3001);
    assert_eq!(server_port(-1), 65535);
    assert_eq!(server_port(i16::MIN), 32768);
    let e = server_start_error("address in use");
    assert_eq!(e.code, AgentServerErrorCodes::InitGRPCServerError);
    assert_eq!(e.message, "error initializing grpc server - address in use");
    let s = provisioning_route_error("boom");
    assert_eq!(s.code, GrpcCode::InvalidArgument);
    assert_eq!(s.message, "Provisioning code generation failed : boom");
}

#[test]
fn status_payload_and_platform_info() {
    let p = status_payload("m".to_string(), -42, "1m:0.5 5m:0.4 15m:0.3".to_string());
    assert_eq!(p.machine_id, "m");
    assert_eq!(p.sys_uptime, "-42");
    assert_eq!(p.sys_load_avg, "1m:0.5 5m:0.4 15m:0.3");
    assert_eq!(p.time.len(), "2024-01-26T18:30:09+00:00".len());
    assert!(p.time.ends_with("+00:00"));
    let p = status_payload("m".to_string(), 86400, String::new());
    assert_eq!(p.sys_uptime, "86400");
    let i = platform_info(
        "m".to_string(),
        "host".to_string(),
        "linux".to_string(),
        "6.1".to_string(),
        "6.1.0".to_string(),
        "x86_64".to_string(),
        "0.1.0".to_string(),
    );
    assert_eq!(i.agent_name, "mecha-agent");
    assert_eq!(i.os_build, "");
    assert_eq!(i.platform, "");
    assert_eq!(i.hostname, "host");
}

#[test]
fn status_errors() {
    let e = status_error(StatusStep::MachineId, "closed");
    assert_eq!((e.code, e.message.as_str()), (StatusErrorCodes::FetchMachineIdError, "error getting machine id - closed"));
    let e = status_error(StatusStep::Uptime, "u");
    assert_eq!((e.code, e.message.as_str()), (StatusErrorCodes::FetchUptimeError, "error getting uptime - u"));
    let e = status_error(StatusStep::LoadAverage, "l");
    assert_eq!(e.code, StatusErrorCodes::FetchLoadAverageError);
    let e = status_error(StatusStep::Publish, "ignored");
    assert_eq!((e.code, e.message.as_str()), (StatusErrorCodes::ChannelSendMessageError, "error send status message"));
    let e = status_error(StatusStep::PublishReply, "timeout");
    assert_eq!((e.code, e.message.as_str()), (StatusErrorCodes::ChannelRecvTimeoutError, "error receiving message: timeout"));
    let e = platform_info_error(PlatformFact::Hostname, "h");
    assert_eq!((e.code, e.message.as_str()), (StatusErrorCodes::FetchPlatformInfoError, "error getting hostname - h"));
    let e = machine_id_request_error("closed");
    assert_eq!(e.message, "error send get machine id message to identity service - closed");
}

fn telemetry(enabled: bool, user: bool) -> TelemetrySettings {
    TelemetrySettings {
        enabled,
        collect: TelemetrySettingsCollect { system: true, user },
        otel_collector: TelemetryOtelCollector { bin: "otelcol".to_string(), conf: "/etc/otel.yml".to_string() },
    }
}

#[test]
fn telemetry_collector_and_batches() {
    let (program, args) = collector_command(&telemetry(true, false)).unwrap();
    assert_eq!(program, "otelcol");
    assert_eq!(args, vec!["--config".to_string(), "/etc/otel.yml".to_string()]);
    let e = collector_command(&telemetry(false, true)).unwrap_err();
    assert_eq!(e.code, TelemetryErrorCodes::DataCollectionDisabled);
    assert_eq!(e.message, "telemetry data collection is disabled");
    assert_eq!(collector_started(None), Ok(true));
    assert_eq!(collector_started(Some("not found".to_string())), Err("Failed to initialize telemetry - not found".to_string()));
    assert!(publishes_batch(&telemetry(true, true)));
    assert!(!publishes_batch(&telemetry(true, false)));
    let d = encode_data(vec![1, 2, 3], "User".to_string(), "m".to_string());
    assert_eq!(d.encoded, vec![1, 2, 3]);
    let e = serialize_error(TelemetryKind::Logs, "x");
    assert_eq!((e.code, e.message.as_str()), (TelemetryErrorCodes::LogsSeralizeFailed, "failed to serialize logs - x"));
    let e = serialize_error(TelemetryKind::Metrics, "x");
    assert_eq!(e.code, TelemetryErrorCodes::MetricsSerializeFailed);
    let e = send_error(TelemetryKind::Metrics, "closed");
    assert_eq!(e.message, "failed to send metrics message - closed");
    assert_eq!(request_error("c").message, "failed to send message - c");
    assert_eq!(receive_error("t").code, TelemetryErrorCodes::ChannelReceiveMessageError);
}

#[test]
fn local_server_answer_defaults() {
    let ok = mecha_agent::server::SuccessResponse::default();
    assert!(ok.success);
    assert_eq!((ok.status.as_str(), ok.status_code), ("OK", 200));
    assert_eq!(ok.payload, serde_json::Value::Object(serde_json::Map::new()));
    let err = mecha_agent::server::ErrorResponse::default();
    assert!(!err.success);
    assert_eq!((err.status.as_str(), err.status_code, err.error_code.as_str()), ("500 INTERNAL_SERVER_ERROR", 500, "500"));
    assert!(err.payload.is_none());
}

#[test]
fn settings_messages_are_stored_then_acknowledged() {
    let payload = AddTaskRequestPayload { key: "k".to_string(), value: "v".to_string(), created_at: "t".to_string() };
    let plan = settings_message_step(Ok(payload), Some(table(&[("Ack-To", "acks.1")]))).unwrap();
    assert_eq!(plan.store.entries, vec![("k".to_string(), "v".to_string())]);
    assert_eq!(plan.ack_to.unwrap(), "acks.1");
    assert_eq!(plan.ack.status, "SYNC_COMPLETE");
    let payload = AddTaskRequestPayload { key: "k".to_string(), value: "v".to_string(), created_at: "t".to_string() };
    let plan = settings_message_step(Ok(payload), None).unwrap();
    assert_eq!(plan.store.entries.len(), 1);
    assert_eq!(plan.ack_to.unwrap_err().message, "message doesn't contain any headers");
    let e = settings_message_step(Err(PayloadFault::NotJson { detail: "eof".to_string() }), None).err().unwrap();
    assert_eq!(e.code, DeviceSettingErrorCodes::ExtractAddTaskPayloadError);
    assert_eq!(e.message, "error converting payload to AddTaskRequestPayload - eof");
}
