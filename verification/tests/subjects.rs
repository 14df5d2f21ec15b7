use mecha_agent::device_settings::{settings_filter_subject, settings_stream_name};
use mecha_agent::heartbeat::heartbeat_subject;
use mecha_agent::messaging::inbox_prefix;
use mecha_agent::networking::{
    channel_subject, channel_sync_filter_subject, handshake_reply_subject, handshake_subject, networking_stream_name,
    networking_subjects, ChannelDetails, NetworkingSubject,
};
use mecha_agent::provisioning::{provisioning_subjects, ProvisioningSubject};
use mecha_agent::status::{status_heartbeat_subject, status_info_subject};
use mecha_agent::telemetry::{telemetry_subject, TelemetryKind};

const HELLO: &str = "2cf24dba5fb0a30e26e83b2ac5b9e29e1b161e5c1fa7425e73043362938b9824";
const MACHINE: &str = "f7a7266df8b420793d51b92561955db28792ce00570593d47d44d954189b3685";
const NET: &str = "17d5a8f04ffcb40e27c0afc2b4858c55a6f22b378c8a2e1eb735888d760cdee6";

#[test]
fn heartbeat_subject_hashes_the_machine_id() {
    assert_eq!(heartbeat_subject("hello"), format!("machine.{}.heartbeat", HELLO));
    assert_eq!(heartbeat_subject("machine-1"), format!("machine.{}.heartbeat", MACHINE));
}

#[test]
fn inbox_prefix_hashes_the_machine_id() {
    assert_eq!(inbox_prefix("machine-1"), format!("inbox.{}", MACHINE));
}

#[test]
fn status_subjects() {
    assert_eq!(status_heartbeat_subject("machine-1"), format!("machine.{}.status.heartbeat", MACHINE));
    assert_eq!(status_info_subject("machine-1"), format!("machine.{}.status.info", MACHINE));
}

#[test]
fn telemetry_subjects() {
    assert_eq!(telemetry_subject(TelemetryKind::Metrics, "machine-1"), format!("machine.{}.telemetry.metrics", MACHINE));
    assert_eq!(telemetry_subject(TelemetryKind::Logs, "machine-1"), format!("machine.{}.telemetry.logs", MACHINE));
}

#[test]
fn settings_subjects() {
    assert_eq!(settings_filter_subject("machine-1"), format!("machine.{}.settings.kv.>", MACHINE));
    assert_eq!(settings_stream_name(), "machine_settings");
}

#[test]
fn provisioning_subjects_in_order() {
    let subjects = provisioning_subjects("machine-1");
    assert_eq!(subjects.len(), 2);
    match &subjects[0] {
        ProvisioningSubject::DeProvision(s) => assert_eq!(s, &format!("machine.{}.deprovision", MACHINE)),
        _ => panic!("first subject is not the de-provisioning one"),
    }
    match &subjects[1] {
        ProvisioningSubject::ReIssueCertificate(s) => {
            assert_eq!(s, &format!("machine.{}.provisioning.cert.re_issue", MACHINE))
        }
        _ => panic!("second subject is not the re-issue one"),
    }
}

#[test]
fn networking_subjects_and_streams() {
    assert_eq!(handshake_subject("net-1", "ch-9"), format!("network.{}.node.handshake.ch-9", NET));
    let subjects = networking_subjects("net-1", "ch-9");
    assert_eq!(subjects.len(), 1);
    match &subjects[0] {
        NetworkingSubject::HandshakeRequest(s) => assert_eq!(s, &format!("network.{}.node.handshake.ch-9", NET)),
    }
    let details = ChannelDetails {
        machine_id: "machine-1".to_string(),
        network_id: "net-1".to_string(),
        channel: "ch-2".to_string(),
    };
    assert_eq!(handshake_reply_subject(&details), format!("network.{}.node.handshake.ch-2", NET));
    assert_eq!(
        channel_subject("machine-1", "net-1"),
        format!("machine.{}.networking.network.{}.channel", MACHINE, NET)
    );
    assert_eq!(
        channel_sync_filter_subject("net-1", "machine-1"),
        format!("networking.networks.{}.channels.{}", NET, MACHINE)
    );
    assert_eq!(networking_stream_name(), "networking_v1");
}
