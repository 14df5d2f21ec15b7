use openssl::ec::{EcGroup, EcKey};
use openssl::hash::MessageDigest;
use openssl::nid::Nid;
use openssl::pkey::PKey;
use openssl::sign::Verifier;
use mecha_agent::agent_settings::{read_settings_path_from_args, settings_file_path, settings_or_default, settings_parse_error, AgentSettings};
use mecha_agent::command::{command_line, run_command_result, spawn_command_error, CommandOutcome};
use mecha_agent::messaging::{machine_id_request_error, require_client, ChannelStep, MessagingErrorCodes};
use mecha_agent::messaging_auth::{password_from_signature, MessagingAuthErrorCodes, MessagingAuthService, MessagingAuthSettings, SignedKeys};
use mecha_agent::nebula::{
    cert_valid_at, decode_cert_args, decode_cert_output, decode_cert_parsed, generate_nebula_key_cert,
    is_cert_valid, is_cert_verified, keygen_args, nebula_cert_program, nebula_start_command, start_nebula,
    verify_cert, verify_cert_args, NebulaCert, NebulaCertDetails, NebulaError, NebulaErrorCodes, NebulaSettings,
    Timestamp,
};
use mecha_agent::text::{i64_to_decimal, split_whitespace, str_contains, str_equal, str_starts_with, u64_to_decimal};

fn args(v: &[&str]) -> Vec<String> {
    v.iter().map(|s| s.to_string()).collect()
}

#[test]
fn whitespace_splitting() {
    assert_eq!(split_whitespace("  a\tbc \n d  "), args(&["a", "bc", "d"]));
    assert!(split_whitespace(" \u{3000} ").is_empty());
    assert_eq!(split_whitespace("x\u{a0}y"), args(&["x", "y"]));
    let (program, rest) = command_line("nebula -config /etc/n/config.yaml").unwrap();
    assert_eq!(program, "nebula");
    assert_eq!(rest, args(&["-config", "/etc/n/config.yaml"]));
    assert!(command_line("   ").is_none());
}

#[test]
fn decimal_rendering() {
    assert_eq!(u64_to_decimal(0), "0");
    assert_eq!(u64_to_decimal(u64::MAX), u64::MAX.to_string());
    assert_eq!(i64_to_decimal(-7), "-7");
    assert_eq!(i64_to_decimal(i64::MIN), i64::MIN.to_string());
    assert_eq!(i64_to_decimal(1234567890), "1234567890");
}

#[test]
fn string_searches() {
    assert!(str_contains("machine.abc.deprovision", "abc"));
    assert!(!str_contains("ab", "abc"));
    assert!(str_contains("anything", ""));
    assert!(str_starts_with("wlan0", "wlan"));
    assert!(!str_starts_with("wl", "wlan"));
    assert!(str_equal("x", "x"));
    assert!(!str_equal("x", "y"));
}

#[test]
fn command_outcomes() {
    assert_eq!(
        run_command_result(CommandOutcome::Exited { success: true, stdout: "o".to_string(), stderr: String::new() }),
        Ok(true)
    );
    assert_eq!(
        run_command_result(CommandOutcome::Exited { success: false, stdout: String::new(), stderr: "bad".to_string() }),
        Err("error while running command, error - bad".to_string())
    );
    assert_eq!(
        run_command_result(CommandOutcome::NotRun { error: "enoent".to_string() }),
        Err("error while getting output result enoent".to_string())
    );
    assert_eq!(spawn_command_error("nebula", "enoent"), "failed to spawn command nebula, error - enoent");
}

#[test]
fn settings_path_resolution() {
    let given = args(&["agent", "--settings", "/etc/agent.yml"]);
    assert_eq!(read_settings_path_from_args(&given), Some("/etc/agent.yml".to_string()));
    assert_eq!(read_settings_path_from_args(&args(&["agent", "-s", "/a.yml"])), Some("/a.yml".to_string()));
    assert_eq!(read_settings_path_from_args(&args(&["agent", "-x", "/a.yml"])), None);
    assert_eq!(read_settings_path_from_args(&args(&["agent", "-s"])), None);
    assert_eq!(settings_file_path(Some("/env.yml".to_string()), &given), "/etc/agent.yml");
    assert_eq!(settings_file_path(Some("/env.yml".to_string()), &args(&["agent"])), "/env.yml");
    assert_eq!(settings_file_path(None, &args(&["agent"])), "~/.mecha/agent/settings.yml");
    let s = settings_or_default(Err(settings_parse_error("line 3")));
    assert!(!s.sentry.enabled);
    assert_eq!(s.server.url, Some("127.0.0.1".to_string()));
    assert_eq!(s.server.port, 3001);
    assert_eq!(settings_parse_error("line 3").message, "error parsing the settings.yml - line 3");
    let d = AgentSettings::default();
    assert_eq!(d.provisioning.paths.root.cert, "~/.mecha/agent/certs/root.pem");
}

#[test]
fn messaging_client_checks() {
    assert!(require_client(true, false).is_ok());
    let e = require_client(false, true).unwrap_err();
    assert_eq!(e.code, MessagingErrorCodes::NatsClientNotInitialized);
    assert_eq!(e.message, "messaging service initialized without nats client");
    let e = machine_id_request_error(ChannelStep::Send, "closed");
    assert_eq!(e.code, MessagingErrorCodes::ChannelSendMessageError);
}

fn details(not_before: i64, not_after: i64) -> NebulaCertDetails {
    NebulaCertDetails {
        curve: "CURVE25519".to_string(),
        domains: vec![],
        groups: vec![],
        ips: vec!["10.0.0.1/24".to_string()],
        is_ca: false,
        issuer: "ca".to_string(),
        name: "node".to_string(),
        not_after: Timestamp { secs: not_after, nanos: 0 },
        not_before: Timestamp { secs: not_before, nanos: 0 },
        public_key: "pk".to_string(),
        subnets: vec![],
    }
}

fn cert(not_before: i64, not_after: i64) -> NebulaCert {
    NebulaCert { details: details(not_before, not_after), fingerprint: "f".to_string(), signature: "s".to_string() }
}

#[test]
fn nebula_certificates() {
    assert_eq!(nebula_cert_program(), "nebula-cert");
    assert_eq!(decode_cert_args("/n/host.crt"), args(&["print", "-path", "/n/host.crt", "-json"]));
    assert_eq!(verify_cert_args("/n/ca.crt", "/n/host.crt"), args(&["verify", "-ca", "/n/ca.crt", "-crt", "/n/host.crt"]));
    assert_eq!(keygen_args("/n/host.pub", "/n/host.key"), args(&["keygen", "-out-key", "/n/host.key", "-out-pub", "/n/host.pub"]));
    assert_eq!(nebula_start_command("/usr/bin", "/etc/nebula"), "/usr/bin/nebula -config /etc/nebula/config.yaml");

    let out = decode_cert_output(CommandOutcome::Exited { success: true, stdout: "{}".to_string(), stderr: String::new() });
    assert_eq!(out.unwrap(), "{}");
    let e = decode_cert_output(CommandOutcome::Exited { success: false, stdout: String::new(), stderr: "bad".to_string() }).unwrap_err();
    assert_eq!(e.code, NebulaErrorCodes::NebulaCommandOutputError);
    assert_eq!(e.message, "failed to get output from command: bad");
    let e = decode_cert_output(CommandOutcome::NotRun { error: "enoent".to_string() }).unwrap_err();
    assert_eq!(e.code, NebulaErrorCodes::NebulaCommandError);
    assert_eq!(e.message, "failed to execute command: enoent");
    let e = decode_cert_parsed(Err("eof".to_string())).err().unwrap();
    assert_eq!(e.code, NebulaErrorCodes::NebulaCommandOutputDeserializeError);
    assert_eq!(e.message, "failed to deserialize: eof");

    assert_eq!(is_cert_valid(Ok(cert(0, i64::MAX))).unwrap(), true);
    assert_eq!(is_cert_valid(Ok(cert(0, 1))).unwrap(), false);
    assert_eq!(is_cert_valid(Ok(cert(i64::MAX - 1, i64::MAX))).unwrap(), false);
    let e = is_cert_valid(Err(NebulaError::new(NebulaErrorCodes::NebulaCommandError, "x".to_string(), false))).unwrap_err();
    assert_eq!(e.code, NebulaErrorCodes::NebulaCertDecodeError);
    assert_eq!(e.message, "failed to decode cert: NebulaErrorCodes:(code: NebulaCommandError, message: x)");
    assert!(cert_valid_at(&details(10, 20), Timestamp { secs: 15, nanos: 0 }));
    assert!(!cert_valid_at(&details(10, 20), Timestamp { secs: 20, nanos: 0 }));
    assert!(!cert_valid_at(&details(10, 20), Timestamp { secs: 10, nanos: 0 }));
    assert!(cert_valid_at(&details(10, 20), Timestamp { secs: 10, nanos: 1 }));

    assert_eq!(verify_cert(CommandOutcome::Exited { success: true, stdout: String::new(), stderr: String::new() }).unwrap(), true);
    let v = verify_cert(CommandOutcome::Exited { success: false, stdout: String::new(), stderr: "expired".to_string() });
    let e = is_cert_verified(v).unwrap_err();
    assert_eq!(e.code, NebulaErrorCodes::NebulaCertVerificationError);
    assert_eq!(
        e.message,
        "failed to verify cert: NebulaErrorCodes:(code: NebulaCommandOutputError, message: failed to get output from command: expired)"
    );
    assert_eq!(is_cert_verified(Ok(false)).unwrap(), false);

    assert_eq!(generate_nebula_key_cert(CommandOutcome::Exited { success: true, stdout: String::new(), stderr: String::new() }).unwrap(), true);
    let e = generate_nebula_key_cert(CommandOutcome::Exited { success: false, stdout: String::new(), stderr: String::new() }).unwrap_err();
    assert_eq!(e.code, NebulaErrorCodes::NebulaCertsGenError);
    assert_eq!(e.message, "nebula command status returned false");
    let e = generate_nebula_key_cert(CommandOutcome::NotRun { error: "enoent".to_string() }).unwrap_err();
    assert_eq!(e.message, "error while generating nebula certs, error - enoent");

    assert_eq!(start_nebula(Ok(true)).unwrap(), true);
    let e = start_nebula(Err("killed".to_string())).unwrap_err();
    assert_eq!(e.code, NebulaErrorCodes::NebulaStartError);
    assert_eq!(e.message, "error while running command to start nebula, error - killed");

    let d = NebulaSettings::default();
    assert!(d.static_host_map.is_empty());
    assert_eq!(d.listen.port, 0);
}

#[test]
fn messaging_credentials_are_signed_user_names() {
    let group = EcGroup::from_curve_name(Nid::X9_62_PRIME256V1).unwrap();
    let key = PKey::from_ec_key(EcKey::generate(&group).unwrap()).unwrap();
    let pem = key.private_key_to_pem_pkcs8().unwrap();

    let service = MessagingAuthService::new(MessagingAuthSettings {
        signed_key: SignedKeys { privatekey: "/keys/nats.key".to_string() },
    });
    assert_eq!(service.private_key_path(), "/keys/nats.key");
    let creds = service.auth(Ok(pem)).unwrap();
    assert_eq!(creds.username.len(), 64);
    assert!(creds.username.chars().all(|c| c.is_ascii_digit() || ('a'..='f').contains(&c)));
    let signature = openssl::base64::decode_block(&creds.password).unwrap();
    let mut verifier = Verifier::new(MessageDigest::sha256(), &key).unwrap();
    verifier.update(creds.username.as_bytes()).unwrap();
    assert!(verifier.verify(&signature).unwrap());

    let e = service.auth(Err("no such file".to_string())).err().unwrap();
    assert_eq!(e.code, MessagingAuthErrorCodes::AuthCredentialGenerationError);
    assert_eq!(e.message, "Error: no such file");
    let e = service.auth(Ok(b"not a key".to_vec())).err().unwrap();
    assert_eq!(e.code, MessagingAuthErrorCodes::AuthCredentialGenerationError);
    assert!(e.message.starts_with("Error: "));
}

#[test]
fn passwords_are_base64_of_the_signature() {
    assert_eq!(password_from_signature(Ok(b"abc".to_vec())), Ok("YWJj".to_string()));
    assert_eq!(password_from_signature(Ok(vec![0xff, 0x00])), Ok("/wA=".to_string()));
    assert_eq!(password_from_signature(Ok(vec![])), Ok(String::new()));
    assert_eq!(password_from_signature(Err("bad key".to_string())), Err("bad key".to_string()));
}
