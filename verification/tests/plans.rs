use mecha_agent::agent_settings::AgentSettings;
use mecha_agent::device_settings::{DeviceSettingErrorCodes, DeviceSettings, SettingHandler};
use mecha_agent::events::{PayloadFault, StringTable};
use mecha_agent::messaging_auth::MessagingAuthErrorCodes;
use mecha_agent::networking::{NetworkingAction, NetworkingErrorCodes, NetworkingStep};
use mecha_agent::provisioning::{
    certificate_writes, cryptography_steps, CertFile, CertSignRequestType, CryptoStep, DataLayout, ProvisioningErrorCodes,
    ProvisioningHandler, ProvisioningRequest, ProvisioningWork, Settings, SignedCertificates,
};
use mecha_agent::events::SlotCommand;
use mecha_agent::server::{error_messaging_auth, error_provisioning_handler};

fn layout() -> DataLayout {
    DataLayout {
        private_key: "/d/device.key".to_string(),
        csr: "/d/device.csr".to_string(),
        cert: "/d/device.pem".to_string(),
        ca_bundle: "/d/ca.pem".to_string(),
        root_cert: "/d/root.pem".to_string(),
        db: "/d/db".to_string(),
    }
}

#[test]
fn certificates_are_obtained_in_order() {
    let steps = cryptography_steps("http://s", "m1", "/cert-sign", &layout(), CertSignRequestType::Provision);
    assert_eq!(steps.len(), 3);
    assert!(matches!(&steps[0], CryptoStep::GeneratePrivateKey { path } if path == "/d/device.key"));
    assert!(matches!(&steps[1], CryptoStep::GenerateCsr { path, key_path, machine_id }
        if path == "/d/device.csr" && key_path == "/d/device.key" && machine_id == "m1"));
    assert!(matches!(&steps[2], CryptoStep::SignCsr { request_url, csr_path, cert_signing_url, request_type, .. }
        if request_url == "http://s" && csr_path == "/d/device.csr" && cert_signing_url == "/cert-sign"
            && *request_type == CertSignRequestType::Provision));
    let signed = SignedCertificates {
        cert: "cert".to_string(),
        root_cert: "root_cert".to_string(),
        ca_bundle: vec!["ca_bundle".to_string()],
    };
    let writes = certificate_writes(&layout(), signed);
    let got: Vec<(CertFile, &str, &str)> = writes.iter().map(|w| (w.file, w.path.as_str(), w.contents.as_str())).collect();
    assert_eq!(
        got,
        vec![
            (CertFile::Machine, "/d/device.pem", "cert"),
            (CertFile::CaBundle, "/d/ca.pem", "[\"ca_bundle\"]"),
            (CertFile::Root, "/d/root.pem", "root_cert"),
        ]
    );
}

#[test]
fn provisioning_requests_go_to_the_configured_server() {
    let h = ProvisioningHandler::new(Settings { data_dir: "/data".to_string(), service_url: "http://s".to_string() });
    assert!(matches!(h.answer(ProvisioningRequest::Ping), ProvisioningWork::Ping { service_url } if service_url == "http://s"));
    match h.answer(ProvisioningRequest::GenerateCode) {
        ProvisioningWork::Code { code } => assert_eq!(code.unwrap().len(), 6),
        _ => panic!("a code request is answered with a code"),
    }
    assert!(matches!(h.answer(ProvisioningRequest::ProvisionByCode { code: "ABC123".to_string() }),
        ProvisioningWork::ProvisionByCode { service_url, data_dir, code }
            if service_url == "http://s" && data_dir == "/data" && code == "ABC123"));
    assert!(matches!(h.answer(ProvisioningRequest::Deprovision), ProvisioningWork::Deprovision { data_dir } if data_dir == "/data"));
}

#[test]
fn settings_requests_are_answered() {
    let h = SettingHandler::new();
    assert_eq!(h.answer_get_settings(Ok(Some("v".to_string()))), Ok("v".to_string()));
    assert_eq!(h.answer_get_settings(Ok(None)), Ok(String::new()));
    assert_eq!(h.answer_get_settings(Err("db".to_string())), Err("db".to_string()));
    assert_eq!(h.answer_set_settings(Ok(true)), Ok(false));
    assert_eq!(h.answer_set_settings(Err("db".to_string())), Ok(false));
}

#[test]
fn legacy_puller_texts() {
    let d = DeviceSettings::new(AgentSettings::default());
    assert_eq!(d.stream_name(), "device_settings");
    assert_eq!(d.get_settings(None), "");
    let e = d.message_step(Err(PayloadFault::NotUtf8 { detail: "x".to_string() }), None).err().unwrap();
    assert_eq!(e.message, "Error converting payload to string - x");
    let p = mecha_agent::device_settings::AddTaskRequestPayload {
        key: "k".to_string(),
        value: "v".to_string(),
        created_at: "t".to_string(),
    };
    let plan = d.message_step(Ok(p), Some(StringTable { entries: vec![] })).unwrap();
    let e = plan.ack_to.unwrap_err();
    assert_eq!(e.code, DeviceSettingErrorCodes::AckHeaderNotFoundError);
    assert_eq!(e.message, "Ack header not found");
}

#[test]
fn networking_actions_run_in_order() {
    assert_eq!(
        NetworkingAction::Enable { reconnect: true }.steps(),
        vec![
            NetworkingStep::Reconnect,
            NetworkingStep::ConfigureTunnel,
            NetworkingStep::PublishChannel,
            NetworkingStep::Subscribe,
            NetworkingStep::StartConsumer,
        ]
    );
    assert_eq!(NetworkingAction::Enable { reconnect: false }.steps().len(), 4);
    assert_eq!(
        NetworkingAction::Disable { reconnect: false, subscriber: SlotCommand::Keep, consumer: SlotCommand::Keep }.steps(),
        vec![NetworkingStep::ClearSubscriptions]
    );
    assert!(NetworkingAction::Ignore.steps().is_empty());
}

#[test]
fn route_failures_are_answered() {
    let r = error_provisioning_handler(Some(ProvisioningErrorCodes::ManifestationNotFound));
    assert_eq!((r.status.as_str(), r.status_code, r.error_code.as_str()), ("400 BAD REQUEST", 400, "400"));
    assert_eq!(r.message.as_deref(), Some("Manifestation not found"));
    let r = error_provisioning_handler(Some(ProvisioningErrorCodes::CsrSignedFailed));
    assert_eq!(r.message.as_deref(), Some("Error while signing csr"));
    let r = error_provisioning_handler(Some(ProvisioningErrorCodes::NotFoundError));
    assert_eq!((r.status.as_str(), r.message.as_deref()), ("500 INTERNAL_SERVER_ERROR", Some("Encountered an unknown error")));
    let r = error_provisioning_handler(None);
    assert_eq!(r.message.as_deref(), Some("Encountered an unknown error"));
    let r = error_messaging_auth(Some(MessagingAuthErrorCodes::AuthCredentialGenerationError));
    assert_eq!((r.status.as_str(), r.message.as_deref()), ("500 INTERNAL SERVER ERROR", Some("Error while generating auth credentials")));
    assert!(!error_messaging_auth(None).success);
}

#[test]
fn networking_error_texts_are_distinct() {
    let codes = [
        NetworkingErrorCodes::UnknownError,
        NetworkingErrorCodes::GenerateKeyPairError,
        NetworkingErrorCodes::SettingUpWireguardError,
        NetworkingErrorCodes::PullMessagesError,
        NetworkingErrorCodes::ExtractMessageHeadersError,
    ];
    for (i, a) in codes.iter().enumerate() {
        for (j, b) in codes.iter().enumerate() {
            assert_eq!(a.to_string() == b.to_string(), i == j);
        }
    }
}
