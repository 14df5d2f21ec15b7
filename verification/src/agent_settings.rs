//! The agent's settings: their defaults, where the settings file is found,
//! and the errors of reading it.
use vstd::prelude::*;
use crate::text::{code_message_string, code_message_text, str_equal};

verus! {

/// Error codes of reading the agent's settings file.
#[derive(Debug, Default, Clone, Copy, PartialEq, Eq, Structural)]
pub enum SettingsErrorCodes {
    #[default]
    UnknownError,
    ReadError,
    ParseError,
}

impl SettingsErrorCodes {
    /// The variant's name, as `{:?}` prints it.
    pub open spec fn spec_name(self) -> Seq<char> {
        match self {
            SettingsErrorCodes::UnknownError => "UnknownError"@,
            SettingsErrorCodes::ReadError => "ReadError"@,
            SettingsErrorCodes::ParseError => "ParseError"@,
        }
    }

    /// The code's display text.
    pub open spec fn spec_text(self) -> Seq<char> {
        self.spec_name()
    }

    /// The variant's name, as `{:?}` prints it.
    pub fn name(&self) -> (r: String)
        ensures
            r@ == self.spec_name(),
    {
        match self {
            SettingsErrorCodes::UnknownError => String::from_str("UnknownError"),
            SettingsErrorCodes::ReadError => String::from_str("ReadError"),
            SettingsErrorCodes::ParseError => String::from_str("ParseError"),
        }
    }

    /// The code's display text.
    pub fn to_string(&self) -> (r: String)
        ensures
            r@ == self.spec_text(),
    {
        self.name()
    }
}

/// A settings error: a code and a message.
#[derive(Debug, Default)]
pub struct SettingsError {
    pub code: SettingsErrorCodes,
    pub message: String,
}

impl SettingsError {
    /// The error's display text.
    pub open spec fn spec_text(&self) -> Seq<char> {
        code_message_text(""@, self.code.spec_name(), self.message@)
    }

    /// Builds the error.
    pub fn new(code: SettingsErrorCodes, message: String) -> (r: Self)
        ensures
            r.code == code,
            r.message@ == message@,
    {
        Self { code, message }
    }

    /// The error's display text.
    pub fn to_string(&self) -> (r: String)
        ensures
            r@ == self.spec_text(),
    {
        code_message_string("", self.code.name().as_str(), self.message.as_str())
    }
}

/// The agent's settings file (`settings.yml`).
pub struct AgentSettings {
    pub sentry: SentrySettings,
    pub server: ServerSettings,
    pub provisioning: ProvisioningSettings,
}

/// Error reporting.
pub struct SentrySettings {
    pub enabled: bool,
    pub dsn: Option<String>,
}

/// The agent's gRPC server.
pub struct ServerSettings {
    pub url: Option<String>,
    pub port: i16,
    pub tls: bool,
}

/// Where the provisioning service is reached and keeps its certificates.
pub struct ProvisioningSettings {
    pub server_url: String,
    pub paths: CertificatePaths,
    pub openssl: OpenSslSettings,
}

pub struct OpenSslSettings {
    pub engine: Option<String>,
}

pub struct CertificatePaths {
    pub device: DeviceCertificate,
    pub server: ServerCertificate,
    pub intermediate: IntermediateCertificate,
    pub root: RootCertificate,
}

pub struct DeviceCertificate {
    pub private_key: String,
    pub csr: String,
    pub cert: String,
}

pub struct ServerCertificate {
    pub cert: String,
}

pub struct IntermediateCertificate {
    pub cert: String,
}

pub struct RootCertificate {
    pub cert: String,
}

impl SentrySettings {
    pub open spec fn is_default(&self) -> bool {
        !self.enabled && self.dsn is None
    }
}

impl Default for SentrySettings {
    fn default() -> (r: Self)
        ensures
            r.is_default(),
    {
        SentrySettings { enabled: false, dsn: None }
    }
}

impl ServerSettings {
    pub open spec fn is_default(&self) -> bool {
        &&& self.url matches Some(u) && u@ == "127.0.0.1"@
        &&& self.port == 3001
        &&& !self.tls
    }
}

impl Default for ServerSettings {
    fn default() -> (r: Self)
        ensures
            r.is_default(),
    {
        ServerSettings { url: Some(String::from_str("127.0.0.1")), port: 3001, tls: false }
    }
}

impl ProvisioningSettings {
    pub open spec fn is_default(&self) -> bool {
        &&& self.server_url@ == "http://localhost:3000"@
        &&& self.paths.device.private_key@ == "~/.mecha/agent/.keys/device.key"@
        &&& self.paths.device.csr@ == "~/.mecha/agent/certs/device.csr"@
        &&& self.paths.device.cert@ == "~/.mecha/agent/certs/device.pem"@
        &&& self.paths.server.cert@ == "~/.mecha/agent/certs/server.pem"@
        &&& self.paths.intermediate.cert@ == "~/.mecha/agent/certs/intermediate.pem"@
        &&& self.paths.root.cert@ == "~/.mecha/agent/certs/root.pem"@
        &&& self.openssl.engine is None
    }
}

impl Default for ProvisioningSettings {
    fn default() -> (r: Self)
        ensures
            r.is_default(),
    {
        ProvisioningSettings {
            server_url: String::from_str("http://localhost:3000"),
            paths: CertificatePaths {
                device: DeviceCertificate {
                    private_key: String::from_str("~/.mecha/agent/.keys/device.key"),
                    csr: String::from_str("~/.mecha/agent/certs/device.csr"),
                    cert: String::from_str("~/.mecha/agent/certs/device.pem"),
                },
                server: ServerCertificate { cert: String::from_str("~/.mecha/agent/certs/server.pem") },
                intermediate: IntermediateCertificate {
                    cert: String::from_str("~/.mecha/agent/certs/intermediate.pem"),
                },
                root: RootCertificate { cert: String::from_str("~/.mecha/agent/certs/root.pem") },
            },
            openssl: OpenSslSettings { engine: None },
        }
    }
}

impl AgentSettings {
    pub open spec fn is_default(&self) -> bool {
        self.sentry.is_default() && self.server.is_default() && self.provisioning.is_default()
    }
}

impl Default for AgentSettings {
    fn default() -> (r: Self)
        ensures
            r.is_default(),
    {
        AgentSettings {
            sentry: SentrySettings::default(),
            server: ServerSettings::default(),
            provisioning: ProvisioningSettings::default(),
        }
    }
}

/// The settings path given on the command line: the word after `-s` or
/// `--settings` when that flag is the first argument.
pub open spec fn spec_settings_path_from_args(args: Seq<Seq<char>>) -> Option<Seq<char>> {
    if args.len() > 2 && (args[1] == "-s"@ || args[1] == "--settings"@) {
        Some(args[2])
    } else {
        None
    }
}

/// Reads the settings path from the program's arguments (`args[0]` being
/// the program).
pub fn read_settings_path_from_args(args: &Vec<String>) -> (r: Option<String>)
    ensures
        match r {
            Some(p) => spec_settings_path_from_args(args@.map_values(|a: String| a@)) == Some(p@),
            None => spec_settings_path_from_args(args@.map_values(|a: String| a@)) is None,
        },
{
    if args.len() > 2 && (str_equal(args[1].as_str(), "-s") || str_equal(args[1].as_str(), "--settings")) {
        Some(args[2].clone())
    } else {
        None
    }
}

/// Where the settings file is read from: the command line's path, else the
/// `AGENT_SETTINGS_PATH` environment value, else `~/.mecha/agent/settings.yml`.
pub fn settings_file_path(env_value: Option<String>, args: &Vec<String>) -> (r: String)
    ensures
        r@ == match spec_settings_path_from_args(args@.map_values(|a: String| a@)) {
            Some(p) => p,
            None => match env_value {
                Some(v) => v@,
                None => "~/.mecha/agent/settings.yml"@,
            },
        },
{
    match read_settings_path_from_args(args) {
        Some(p) => p,
        None => match env_value {
            Some(v) => v,
            None => String::from_str("~/.mecha/agent/settings.yml"),
        },
    }
}

/// The error for a settings file that could not be opened.
pub fn settings_read_error(error: &str) -> (r: SettingsError)
    ensures
        r.code == SettingsErrorCodes::ReadError,
        r.message@ == "error read the settings.yml in the path - "@ + error@,
{
    SettingsError::new(
        SettingsErrorCodes::ReadError,
        String::from_str("error read the settings.yml in the path - ").concat(error),
    )
}

/// The error for a settings file that does not parse.
pub fn settings_parse_error(error: &str) -> (r: SettingsError)
    ensures
        r.code == SettingsErrorCodes::ParseError,
        r.message@ == "error parsing the settings.yml - "@ + error@,
{
    SettingsError::new(
        SettingsErrorCodes::ParseError,
        String::from_str("error parsing the settings.yml - ").concat(error),
    )
}

/// The settings to run with: those read, or the defaults when reading failed.
pub fn settings_or_default(read: Result<AgentSettings, SettingsError>) -> (r: AgentSettings)
    ensures
        match read {
            Ok(s) => r == s,
            Err(_) => r.is_default(),
        },
{
    match read {
        Ok(s) => s,
        Err(_) => AgentSettings::default(),
    }
}

} // verus!
