use mecha_agent::device_settings::{SettingHandler, SettingsAction};
use mecha_agent::events::{AgentEvent, SlotCommand, StringTable, TaskSlot};
use mecha_agent::heartbeat::{HeartbeatAction, HeartbeatHandler};
use mecha_agent::messaging::{MessagingAction, MessagingHandler, MessagingOperation, MessagingRequest, ServiceStatus};
use mecha_agent::networking::{NetworkingAction, NetworkingHandler};
use mecha_agent::provisioning::{ProvisioningAction, ProvisioningHandler, Settings};
use mecha_agent::telemetry::initializes_metrics;

fn table(entries: &[(&str, &str)]) -> StringTable {
    StringTable { entries: entries.iter().map(|(k, v)| (k.to_string(), v.to_string())).collect() }
}

#[test]
fn heartbeat_timer_starts_on_connect_and_stops_on_disconnect() {
    let mut h = HeartbeatHandler::new();
    assert_eq!(h.timer, TaskSlot::Empty);
    let a = h.handle_event(&AgentEvent::MessagingConnected);
    assert_eq!(a, HeartbeatAction::StartTimer { cancel: SlotCommand::Keep });
    assert_eq!(h.timer, TaskSlot::Running);
    let a = h.handle_event(&AgentEvent::MessagingConnected);
    assert_eq!(a, HeartbeatAction::StartTimer { cancel: SlotCommand::Cancel });
    assert_eq!(h.timer, TaskSlot::Running);
    let a = h.handle_event(&AgentEvent::MessagingDisconnected);
    assert_eq!(a, HeartbeatAction::StopTimer { cancel: SlotCommand::Cancel });
    assert_eq!(h.timer, TaskSlot::Cancelled);
    let a = h.handle_event(&AgentEvent::Provisioned);
    assert_eq!(a, HeartbeatAction::Ignore);
    assert_eq!(h.timer, TaskSlot::Cancelled);
}

#[test]
fn heartbeat_clear_reports_whether_a_timer_existed() {
    let mut h = HeartbeatHandler::new();
    assert_eq!(h.clear_timer(), (false, SlotCommand::Keep));
    assert_eq!(h.set_timer(), SlotCommand::Keep);
    assert_eq!(h.clear_timer(), (true, SlotCommand::Cancel));
    assert_eq!(h.timer, TaskSlot::Cancelled);
}

#[test]
fn deprovisioning_stops_every_service_task() {
    let mut h = HeartbeatHandler::new();
    h.handle_event(&AgentEvent::MessagingConnected);
    h.handle_event(&AgentEvent::Deprovisioned);
    assert_ne!(h.timer, TaskSlot::Running);

    let mut n = NetworkingHandler::new();
    n.subscribed();
    n.consumer_started();
    let a = n.handle_event(&AgentEvent::Deprovisioned);
    assert!(matches!(
        a,
        NetworkingAction::ClearSubscriptions { subscriber: SlotCommand::Cancel, consumer: SlotCommand::Cancel }
    ));
    assert_eq!(n.subscriber, TaskSlot::Cancelled);
    assert_eq!(n.consumer, TaskSlot::Cancelled);

    let mut s = SettingHandler::new();
    s.begin_consumer();
    assert!(s.consumer_created(Ok(())).unwrap());
    let a = s.handle_event(&AgentEvent::Deprovisioned);
    assert!(matches!(a, SettingsAction::Clear { sync: SlotCommand::Keep, consumer: SlotCommand::Cancel }));
    assert_ne!(s.consumer, TaskSlot::Running);

    let mut p = ProvisioningHandler::new(Settings { data_dir: "/tmp/d".to_string(), service_url: "http://s".to_string() });
    p.subscribed();
    let a = p.handle_event(&AgentEvent::Deprovisioned);
    assert!(matches!(a, ProvisioningAction::Unsubscribe { cancel: SlotCommand::Cancel }));
    assert_eq!(p.subscriber, TaskSlot::Cancelled);

    let mut m = MessagingHandler::new();
    assert_eq!(m.handle_event(&AgentEvent::Deprovisioned), MessagingAction::Ignore);
    assert!(m.is_stopped());
}

#[test]
fn settings_consumer_restart_and_failure() {
    let mut s = SettingHandler::new();
    let a = s.handle_event(&AgentEvent::MessagingConnected);
    assert!(matches!(a, SettingsAction::StartConsumer { cancel: SlotCommand::Keep }));
    assert!(s.consumer_created(Ok(())).unwrap());
    assert_eq!(s.consumer, TaskSlot::Running);
    let a = s.handle_event(&AgentEvent::MessagingConnected);
    assert!(matches!(a, SettingsAction::StartConsumer { cancel: SlotCommand::Cancel }));
    let e = s.consumer_created(Err("no stream".to_string())).unwrap_err();
    assert_eq!(e.message, "create consumer error - \"no stream\" ");
    assert_eq!(s.consumer, TaskSlot::Cancelled);
    assert_eq!(s.clear_sync_settings_subscriber(), (false, SlotCommand::Keep));
    assert_eq!(s.clear_settings_subscription(), (true, SlotCommand::Cancel));
}

#[test]
fn provisioning_subscribes_on_connect() {
    let mut p = ProvisioningHandler::new(Settings { data_dir: "/d".to_string(), service_url: "http://s".to_string() });
    assert!(matches!(p.handle_event(&AgentEvent::MessagingConnected), ProvisioningAction::Subscribe { cancel: SlotCommand::Keep }));
    p.subscribed();
    assert!(matches!(p.handle_event(&AgentEvent::MessagingConnected), ProvisioningAction::Subscribe { cancel: SlotCommand::Cancel }));
    assert!(matches!(p.handle_event(&AgentEvent::SettingsSynced), ProvisioningAction::Ignore));
    assert_eq!(p.clear_nats_subscription(), (true, SlotCommand::Cancel));
    assert_eq!(p.settings.data_dir, "/d");
}

#[test]
fn networking_follows_the_enabled_setting() {
    let mut n = NetworkingHandler::new();
    let event = AgentEvent::SettingsUpdated {
        existing_settings: table(&[("networking.enabled", "false")]),
        new_settings: table(&[("networking.enabled", "true")]),
    };
    assert!(matches!(n.handle_event(&event), NetworkingAction::Enable { reconnect: true }));
    let event = AgentEvent::SettingsUpdated {
        existing_settings: table(&[("networking.enabled", "true")]),
        new_settings: table(&[("networking.enabled", "true")]),
    };
    assert!(matches!(n.handle_event(&event), NetworkingAction::Enable { reconnect: false }));
    n.subscribed();
    let event = AgentEvent::SettingsUpdated {
        existing_settings: table(&[("networking.enabled", "true")]),
        new_settings: table(&[("networking.enabled", "false")]),
    };
    assert!(matches!(
        n.handle_event(&event),
        NetworkingAction::Disable { reconnect: true, subscriber: SlotCommand::Cancel, consumer: SlotCommand::Keep }
    ));
    let event = AgentEvent::SettingsUpdated {
        existing_settings: table(&[]),
        new_settings: table(&[("other", "1")]),
    };
    assert!(matches!(n.handle_event(&event), NetworkingAction::Ignore));
    let event = AgentEvent::SettingsUpdated {
        existing_settings: table(&[]),
        new_settings: table(&[("networking.enabled", "maybe")]),
    };
    assert!(matches!(n.handle_event(&event), NetworkingAction::Ignore));
    assert_eq!(n.clear_nats_subscription(), (true, SlotCommand::Cancel, SlotCommand::Keep));
}

#[test]
fn messaging_starts_with_a_machine_id() {
    let mut m = MessagingHandler::new();
    assert_eq!(m.get_status(), ServiceStatus::Started);
    assert!(m.stop());
    assert!(m.is_stopped());
    assert_eq!(m.handle_event(&AgentEvent::Provisioned), MessagingAction::Start);
    assert_eq!(m.start(None), (false, false));
    assert!(m.is_stopped());
    assert_eq!(m.start(Some("")), (true, false));
    assert!(m.is_stopped());
    assert_eq!(m.start(Some("machine-1")), (true, true));
    assert!(m.is_started());
    assert_eq!(m.handle_event(&AgentEvent::NatsDisconnected), MessagingAction::AnnounceDisconnectAndReconnect);
    assert_eq!(m.operation(MessagingRequest::Reconnect), MessagingOperation::Connect);
    assert_eq!(m.operation(MessagingRequest::Disconnect), MessagingOperation::Unanswered);
    assert_eq!(m.operation(MessagingRequest::Send), MessagingOperation::Publish);
}

#[test]
fn telemetry_sets_up_metrics_on_connect_only() {
    assert!(initializes_metrics(&AgentEvent::MessagingConnected));
    assert!(!initializes_metrics(&AgentEvent::MessagingDisconnected));
    assert!(!initializes_metrics(&AgentEvent::Provisioned));
}
