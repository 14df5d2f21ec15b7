//! Verified core of the Mecha device agent: error vocabularies, settings
//! defaults, subject naming, command and response interpretation, and the
//! decision logic of the agent's long-running services.

pub mod identity;
pub mod heartbeat;
pub mod networking;
pub mod handshake;
pub mod nebula;
pub mod command;
pub mod text;
pub mod outside;
pub mod events;
pub mod agent_settings;
pub mod grpc;
pub mod provisioning;
pub mod messaging;
pub mod messaging_auth;
pub mod device_settings;
pub mod status;
pub mod telemetry;
pub mod server;
pub mod messaging_server;
pub mod laws;
