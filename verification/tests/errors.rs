use mecha_agent::agent_settings::{SettingsError, SettingsErrorCodes};
use mecha_agent::device_settings::{DeviceSettingError, DeviceSettingErrorCodes};
use mecha_agent::grpc::{AgentServerError, AgentServerErrorCodes};
use mecha_agent::heartbeat::{HeartbeatError, HeartbeatErrorCodes};
use mecha_agent::identity::{IdentityError, IdentityErrorCodes};
use mecha_agent::messaging::{MessagingError, MessagingErrorCodes};
use mecha_agent::messaging_auth::{MessagingAuthErrorCodes, MessagingAuthServiceError};
use mecha_agent::nebula::{NebulaError, NebulaErrorCodes};
use mecha_agent::networking::{NetworkingError, NetworkingErrorCodes};
use mecha_agent::provisioning::{ProvisioningError, ProvisioningErrorCodes};
use mecha_agent::status::{StatusError, StatusErrorCodes};
use mecha_agent::telemetry::{TelemetryError, TelemetryErrorCodes};

#[test]
fn identity_error_keeps_code_and_message() {
    let e = IdentityError::new(IdentityErrorCodes::GetMachineIdError, "no id".to_string());
    assert_eq!(e.code, IdentityErrorCodes::GetMachineIdError);
    assert_eq!(e.message, "no id");
    assert_eq!(e.to_string(), "IdentityErrorCodes:(code: GetMachineIdError, message: no id)");
    assert_eq!(e.code.to_string(), "IdentityErrorCodes: GetMachineIdError");
}

#[test]
fn error_codes_default_to_their_first_variant() {
    assert_eq!(IdentityErrorCodes::default(), IdentityErrorCodes::UnknownError);
    assert_eq!(TelemetryErrorCodes::default(), TelemetryErrorCodes::DataCollectionDisabled);
    assert_eq!(DeviceSettingErrorCodes::default(), DeviceSettingErrorCodes::UnknownError);
    assert_eq!(MessagingAuthErrorCodes::default(), MessagingAuthErrorCodes::AuthCredentialGenerationError);
}

#[test]
fn heartbeat_error_text() {
    let e = HeartbeatError::new(HeartbeatErrorCodes::ChannelRecvTimeoutError, "late".to_string(), false);
    assert_eq!(e.to_string(), "HeartbeatErrorCodes:(code: ChannelRecvTimeoutError, message: late)");
    assert_eq!(HeartbeatErrorCodes::InitMessagingClientError.to_string(), "HeartbeatErrorCodes: InitMessagingClientError");
}

#[test]
fn messaging_error_text() {
    let e = MessagingError::new(MessagingErrorCodes::NatsClientNotInitialized, "m".to_string(), true);
    assert_eq!(e.to_string(), "MessagingErrorCodes:(code: NatsClientNotInitialized, message: m)");
}

#[test]
fn messaging_auth_error_text() {
    let e = MessagingAuthServiceError::new(MessagingAuthErrorCodes::AuthCredentialGenerationError, "x".to_string(), false);
    assert_eq!(e.to_string(), "(code: AuthCredentialGenerationError, message: x)");
    assert_eq!(
        MessagingAuthErrorCodes::AuthCredentialGenerationError.to_string(),
        "Error while generating username and password"
    );
}

#[test]
fn networking_error_text() {
    let e = NetworkingError::new(NetworkingErrorCodes::GenerateKeyPairError, "k".to_string(), false);
    assert_eq!(e.to_string(), "NetworkingErrorCodes:(code: GenerateKeyPairError, message: k)");
    assert_eq!(NetworkingErrorCodes::UnknownError.to_string(), "NetworkingErrorCodes: UnknownError");
}

#[test]
fn nebula_error_text() {
    let e = NebulaError::new(NebulaErrorCodes::NebulaStartError, "s".to_string(), false);
    assert_eq!(e.to_string(), "NebulaErrorCodes:(code: NebulaStartError, message: s)");
}

#[test]
fn provisioning_error_text() {
    let e = ProvisioningError::new(ProvisioningErrorCodes::NotFoundError, "gone".to_string(), false);
    assert_eq!(e.to_string(), "ProvisioningErrorCodes:(code: NotFoundError, message: gone)");
}

#[test]
fn settings_error_text() {
    let e = SettingsError::new(SettingsErrorCodes::ParseError, "bad yaml".to_string());
    assert_eq!(e.to_string(), "(code: ParseError, message: bad yaml)");
    assert_eq!(SettingsErrorCodes::ReadError.to_string(), "ReadError");
}

#[test]
fn agent_server_error_text() {
    let e = AgentServerError::new(AgentServerErrorCodes::InitGRPCServerError, "port".to_string(), true);
    assert_eq!(e.to_string(), "AgentServerErrorCodes:(code: InitGRPCServerError, message: port)");
}

#[test]
fn device_setting_error_text() {
    let e = DeviceSettingError::new(DeviceSettingErrorCodes::AckHeaderNotFoundError, "a".to_string(), false);
    assert_eq!(e.to_string(), "DeviceSettingErrorCodes:(code: AckHeaderNotFoundError, message: a)");
    assert_eq!(DeviceSettingErrorCodes::PullMessagesError.to_string(), "DeviceSettingErrorCodes: PullMessagesError");
}

#[test]
fn status_error_text() {
    let e = StatusError::new(StatusErrorCodes::FetchUptimeError, "u".to_string(), false);
    assert_eq!(e.to_string(), "StatusErrorCodes:(code: FetchUptimeError, message: u)");
}

#[test]
fn telemetry_error_text() {
    let e = TelemetryError::new(TelemetryErrorCodes::LogsSeralizeFailed, "l".to_string());
    assert_eq!(e.to_string(), "TelemetryErrorCodes:(code: LogsSeralizeFailed, message: l)");
    assert_eq!(TelemetryErrorCodes::LogsSeralizeFailed.name(), "LogsSeralizeFailed");
}
