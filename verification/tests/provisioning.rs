use mecha_agent::agent_settings::{settings_read_error, AgentSettings, SettingsErrorCodes};
use mecha_agent::grpc::GrpcCode;
use mecha_agent::provisioning::{
    certificate_write_error, check_re_issue_request, csr_read_error, data_paths, de_provision_error,
    de_provision_files, deprovision_request_matches, generate_code, manifest_url, map_provisioning_error_to_tonic,
    new_provisioning_service, parse_response_error, ping, provisioned_event_error, request_error, sign_csr_request,
    sign_csr_url, CertFile, CertSignRequestType, DataLayout, DeProvisionStep, HttpOutcome, ProvisioningErrorCodes,
    ServerRequest,
};

const MACHINE: &str = "f7a7266df8b420793d51b92561955db28792ce00570593d47d44d954189b3685";

fn is_code(c: &str) -> bool {
    c.len() == 6 && c.chars().all(|ch| ch.is_ascii_digit() || ch.is_ascii_uppercase())
}

#[test]
fn test_generate_code() {
    let code = generate_code();
    assert!(code.is_ok());
    assert!(is_code(&code.unwrap()));
}

#[test]
fn test_ping() {
    let ping_result = ping(HttpOutcome::Answered { status: 200 });
    assert!(ping_result.is_ok());
    let p = ping_result.unwrap();
    assert_eq!(p.code, "success");
    assert_eq!(p.message, "");
}

#[test]
fn ping_failures() {
    let cases = [
        (401, ProvisioningErrorCodes::UnauthorizedError, "ping call returned unauthorized error num - 1002"),
        (404, ProvisioningErrorCodes::NotFoundError, "ping call returned not found error num - 1003"),
        (400, ProvisioningErrorCodes::BadRequestError, "ping call returned bad request num - 1004"),
        (500, ProvisioningErrorCodes::InternalServerError, "ping call returned internal server error num - 1005"),
        (302, ProvisioningErrorCodes::UnknownError, "ping call returned unknown error num - 1006"),
    ];
    for (status, code, message) in cases {
        let e = ping(HttpOutcome::Answered { status }).unwrap_err();
        assert_eq!(e.code, code);
        assert_eq!(e.message, message);
    }
    assert!(ping(HttpOutcome::Answered { status: 204 }).is_ok());
    let e = ping(HttpOutcome::Unreachable { error: "refused".to_string() }).unwrap_err();
    assert_eq!(e.code, ProvisioningErrorCodes::UnreachableError);
    assert_eq!(e.message, "ping call returned error num - 1007, error - refused");
}

#[test]
fn manifest_lookup_url_and_errors() {
    let url = manifest_url("http://127.0.0.1:1234", "/v1/provisioning/manifest/find?code=", "12345");
    assert_eq!(url, "http://127.0.0.1:1234/v1/provisioning/manifest/find?code=12345");
    let e = request_error(ServerRequest::ManifestLookup, Some(404), "x");
    assert_eq!(e.code, ProvisioningErrorCodes::NotFoundError);
    assert_eq!(e.message, "manifest find endpoint url not found - x");
    let e = parse_response_error(ServerRequest::ManifestLookup, "eof");
    assert_eq!(e.code, ProvisioningErrorCodes::ParseResponseError);
    assert_eq!(e.message, "error parsing manifest lookup response - eof");
}

#[test]
fn csr_signing_requests() {
    assert_eq!(sign_csr_url("http://h", "/cert-sign"), "http://h/cert-sign");
    let r = sign_csr_request("PEM".to_string(), "12345", CertSignRequestType::ReIssue);
    assert_eq!(r.csr, "PEM");
    assert_eq!(r.machine_id, "12345");
    assert!(matches!(r.request_type, CertSignRequestType::ReIssue));
    let cases = [
        (Some(500), ProvisioningErrorCodes::InternalServerError, "csr sign url returned server error - e"),
        (Some(400), ProvisioningErrorCodes::BadRequestError, "csr sign url returned bad request - e"),
        (Some(404), ProvisioningErrorCodes::NotFoundError, "csr sign url not found - e"),
        (Some(418), ProvisioningErrorCodes::UnknownError, "csr sign url returned unknown error - e"),
        (None, ProvisioningErrorCodes::UnknownError, "csr sign url returned unmatched error - e"),
    ];
    for (status, code, message) in cases {
        let e = request_error(ServerRequest::CsrSign, status, "e");
        assert_eq!(e.code, code);
        assert_eq!(e.message, message);
    }
    let e = csr_read_error(true, "/k/device.csr", "denied");
    assert_eq!(e.code, ProvisioningErrorCodes::CSRSignReadFileError);
    assert_eq!(e.message, "error opening csr in path - /k/device.csr - denied");
    let e = csr_read_error(false, "/k/device.csr", "eof");
    assert_eq!(e.message, "error reading csr in path - /k/device.csr - eof");
}

fn layout() -> DataLayout {
    DataLayout {
        private_key: "/keys/device.key".to_string(),
        csr: "/certs/device.csr".to_string(),
        cert: "/certs/device.pem".to_string(),
        ca_bundle: "/certs/ca_bundle.pem".to_string(),
        root_cert: "/certs/root.pem".to_string(),
        db: "/db".to_string(),
    }
}

#[test]
fn test_de_provision() {
    let data_dir = "~/.mecha_test";
    let paths = data_paths(data_dir, &layout());
    assert_eq!(
        de_provision_files(&paths),
        vec![
            "~/.mecha_test/certs/device.pem".to_string(),
            "~/.mecha_test/keys/device.key".to_string(),
            "~/.mecha_test/certs/device.csr".to_string(),
            "~/.mecha_test/certs/ca_bundle.pem".to_string(),
            "~/.mecha_test/certs/root.pem".to_string(),
        ]
    );
    assert!(paths.db.contains(".mecha_test/db"));
}

#[test]
fn de_provisioning_errors() {
    let e = de_provision_error(DeProvisionStep::SendEvent("closed".to_string()));
    assert_eq!(e.code, ProvisioningErrorCodes::SendEventError);
    assert_eq!(e.message, "error sending de provisioning event, code:1001, error - closed");
    let e = de_provision_error(DeProvisionStep::ResolveDbPath("no home".to_string()));
    assert_eq!(e.code, ProvisioningErrorCodes::SettingsDatabaseDeleteError);
    assert_eq!(e.message, "error constructing db path - no home");
    let e = de_provision_error(DeProvisionStep::RemoveDb("busy".to_string()));
    assert_eq!(e.message, "error deleting db, code: 1001, error - busy");
    let e = provisioned_event_error("closed");
    assert_eq!(e.message, "error sending provisioning event, code: 1001, error - closed");
    let e = certificate_write_error(CertFile::CaBundle, "/c", "full");
    assert_eq!(e.code, ProvisioningErrorCodes::CertificateWriteError);
    assert_eq!(e.message, "error saving ca_bundle certificate in path - /c - full");
}

#[test]
fn requests_must_name_this_machine() {
    assert!(deprovision_request_matches("machine-1", "machine-1"));
    assert!(!deprovision_request_matches("machine-2", "machine-1"));
    let subject = format!("machine.{}.provisioning.cert.re_issue", MACHINE);
    assert!(check_re_issue_request(&subject, "machine-1").is_ok());
    let e = check_re_issue_request(&subject, "machine-2").unwrap_err();
    assert_eq!(e.code, ProvisioningErrorCodes::InvalidMachineIdError);
    assert_eq!(e.message, "invalid machine id in request - req_machine_id: machine-2 ");
}

#[test]
fn provisioning_errors_map_to_grpc_codes() {
    let cases = [
        (ProvisioningErrorCodes::UnauthorizedError, GrpcCode::Unauthenticated),
        (ProvisioningErrorCodes::NotFoundError, GrpcCode::NotFound),
        (ProvisioningErrorCodes::BadRequestError, GrpcCode::InvalidArgument),
        (ProvisioningErrorCodes::UnreachableError, GrpcCode::Unavailable),
        (ProvisioningErrorCodes::SendEventError, GrpcCode::Unknown),
    ];
    for (code, grpc) in cases {
        let s = map_provisioning_error_to_tonic(code, "m".to_string());
        assert_eq!(s.code, grpc);
        assert_eq!(s.message, "m");
    }
}

#[test]
fn provisioning_service_falls_back_to_default_settings() {
    let p = new_provisioning_service(Err(settings_read_error("missing")));
    assert_eq!(p.settings.server_url, "http://localhost:3000");
    assert_eq!(p.settings.paths.device.cert, "~/.mecha/agent/certs/device.pem");
    let mut s = AgentSettings::default();
    s.provisioning.server_url = "https://p.example".to_string();
    let p = new_provisioning_service(Ok(s));
    assert_eq!(p.settings.server_url, "https://p.example");
    assert!(is_code(&p.generate_code().unwrap()));
    assert_eq!(settings_read_error("x").code, SettingsErrorCodes::ReadError);
}
