//! The Nebula overlay network: its configuration, its certificates, and
//! what the `nebula-cert` and `nebula` programs report.
use vstd::prelude::*;
use crate::text::{code_message_string, code_message_text, string_views};
use crate::command::CommandOutcome;

verus! {

/// Error codes of the overlay-network (Nebula) helpers.
#[derive(Debug, Default, Clone, Copy, PartialEq, Eq, Structural)]
pub enum NebulaErrorCodes {
    #[default]
    NebulaError,
    NebulaCommandError,
    NebulaCommandOutputError,
    NebulaCommandOutputDeserializeError,
    NebulaCertDecodeError,
    NebulaCertVerificationError,
    NebulaCertsGenError,
    NebulaStartError,
}

impl NebulaErrorCodes {
    /// The variant's name, as `{:?}` prints it.
    pub open spec fn spec_name(self) -> Seq<char> {
        match self {
            NebulaErrorCodes::NebulaError => "NebulaError"@,
            NebulaErrorCodes::NebulaCommandError => "NebulaCommandError"@,
            NebulaErrorCodes::NebulaCommandOutputError => "NebulaCommandOutputError"@,
            NebulaErrorCodes::NebulaCommandOutputDeserializeError => "NebulaCommandOutputDeserializeError"@,
            NebulaErrorCodes::NebulaCertDecodeError => "NebulaCertDecodeError"@,
            NebulaErrorCodes::NebulaCertVerificationError => "NebulaCertVerificationError"@,
            NebulaErrorCodes::NebulaCertsGenError => "NebulaCertsGenError"@,
            NebulaErrorCodes::NebulaStartError => "NebulaStartError"@,
        }
    }

    /// The code's display text.
    pub open spec fn spec_text(self) -> Seq<char> {
        "NebulaErrorCodes: "@ + self.spec_name()
    }

    /// The variant's name, as `{:?}` prints it.
    pub fn name(&self) -> (r: String)
        ensures
            r@ == self.spec_name(),
    {
        match self {
            NebulaErrorCodes::NebulaError => String::from_str("NebulaError"),
            NebulaErrorCodes::NebulaCommandError => String::from_str("NebulaCommandError"),
            NebulaErrorCodes::NebulaCommandOutputError => String::from_str("NebulaCommandOutputError"),
            NebulaErrorCodes::NebulaCommandOutputDeserializeError => String::from_str("NebulaCommandOutputDeserializeError"),
            NebulaErrorCodes::NebulaCertDecodeError => String::from_str("NebulaCertDecodeError"),
            NebulaErrorCodes::NebulaCertVerificationError => String::from_str("NebulaCertVerificationError"),
            NebulaErrorCodes::NebulaCertsGenError => String::from_str("NebulaCertsGenError"),
            NebulaErrorCodes::NebulaStartError => String::from_str("NebulaStartError"),
        }
    }

    /// The code's display text.
    pub fn to_string(&self) -> (r: String)
        ensures
            r@ == self.spec_text(),
    {
        String::from_str("NebulaErrorCodes: ").concat(self.name().as_str())
    }
}

/// A Nebula helper error: a code and a message.
#[derive(Debug)]
pub struct NebulaError {
    pub code: NebulaErrorCodes,
    pub message: String,
}

impl NebulaError {
    /// The error's display text.
    pub open spec fn spec_text(&self) -> Seq<char> {
        code_message_text("NebulaErrorCodes:"@, self.code.spec_name(), self.message@)
    }

    /// Builds the error. `capture_error` asks for the error to be reported to
    /// the error tracker, which the application does; the value is the same
    /// either way.
    #[allow(unused_variables)]
    pub fn new(code: NebulaErrorCodes, message: String, capture_error: bool) -> (r: Self)
        ensures
            r.code == code,
            r.message@ == message@,
    {
        Self { code, message }
    }

    /// The error's display text.
    pub fn to_string(&self) -> (r: String)
        ensures
            r@ == self.spec_text(),
    {
        code_message_string("NebulaErrorCodes:", self.code.name().as_str(), self.message.as_str())
    }
}

/// A point in UTC time: whole seconds since the Unix epoch and the
/// nanoseconds past that second.
#[derive(Debug, Clone, Copy, PartialEq, Eq, Structural)]
pub struct Timestamp {
    pub secs: i64,
    pub nanos: u32,
}

/// `a` comes strictly before `b`.
pub open spec fn spec_before(a: Timestamp, b: Timestamp) -> bool {
    a.secs < b.secs || (a.secs == b.secs && a.nanos < b.nanos)
}

pub fn before(a: Timestamp, b: Timestamp) -> (r: bool)
    ensures
        r == spec_before(a, b),
{
    a.secs < b.secs || (a.secs == b.secs && a.nanos < b.nanos)
}

/// The current UTC time, read from the clock. Nothing is promised of it.
#[verifier::external_body]
pub(crate) fn utc_now() -> (r: Timestamp) {
    let now = chrono::Utc::now();
    Timestamp { secs: now.timestamp(), nanos: now.timestamp_subsec_nanos() }
}

/// The Nebula configuration file's contents.
pub struct NebulaSettings {
    pub pki: PKISettings,
    /// Overlay address to the public addresses it is reached at; no address
    /// appears twice as a key.
    pub static_host_map: Vec<(String, Vec<String>)>,
    pub lighthouse: LighthouseSettings,
    pub firewall: FirewallSettings,
    pub tun: TunSettings,
    pub punchy: PunchySettings,
    pub listen: ListenSettings,
    pub relay: RelaySettings,
    pub logging: LoggingSettings,
}

pub struct PKISettings {
    pub ca: String,
    pub cert: String,
    pub key: String,
}

pub struct StaticHostMap {
    pub hosts: Vec<String>,
}

pub struct LighthouseSettings {
    pub am_lighthouse: bool,
    pub interval: Option<u32>,
    pub hosts: Vec<String>,
}

pub struct FirewallSettings {
    pub outbound_action: Option<String>,
    pub inbound_action: Option<String>,
    pub conntrack: ConntrackSettings,
    pub outbound: Vec<FirewallRule>,
    pub inbound: Vec<FirewallRule>,
}

pub struct ConntrackSettings {
    pub tcp_timeout: String,
    pub udp_timeout: String,
    pub default_timeout: String,
}

pub struct FirewallRule {
    pub port: String,
    pub proto: String,
    pub host: Option<String>,
    pub cidr: Option<String>,
    pub group: Option<String>,
}

pub struct TunSettings {
    pub disabled: bool,
    pub dev: String,
    pub drop_local_broadcast: bool,
    pub drop_multicast: bool,
    pub tx_queue: u32,
    pub mtu: u32,
}

pub struct PunchySettings {
    pub punch: bool,
    pub respond: bool,
    pub delay: String,
    pub respond_delay: Option<String>,
}

pub struct ListenSettings {
    pub host: String,
    pub port: u16,
}

pub struct RelaySettings {
    pub am_relay: bool,
    pub use_relays: bool,
}

pub struct LoggingSettings {
    pub level: String,
    pub format: String,
}

impl PKISettings {
    pub open spec fn is_default(&self) -> bool {
        self.ca@.len() == 0 && self.cert@.len() == 0 && self.key@.len() == 0
    }
}

impl Default for PKISettings {
    fn default() -> (r: Self)
        ensures
            r.is_default(),
    {
        PKISettings { ca: String::new(), cert: String::new(), key: String::new() }
    }
}

impl StaticHostMap {
    pub open spec fn is_default(&self) -> bool {
        self.hosts@.len() == 0
    }
}

impl Default for StaticHostMap {
    fn default() -> (r: Self)
        ensures
            r.is_default(),
    {
        StaticHostMap { hosts: Vec::new() }
    }
}

impl LighthouseSettings {
    pub open spec fn is_default(&self) -> bool {
        !self.am_lighthouse && self.interval is None && self.hosts@.len() == 0
    }
}

impl Default for LighthouseSettings {
    fn default() -> (r: Self)
        ensures
            r.is_default(),
    {
        LighthouseSettings { am_lighthouse: false, interval: None, hosts: Vec::new() }
    }
}

impl ConntrackSettings {
    pub open spec fn is_default(&self) -> bool {
        self.tcp_timeout@.len() == 0 && self.udp_timeout@.len() == 0 && self.default_timeout@.len()
            == 0
    }
}

impl Default for ConntrackSettings {
    fn default() -> (r: Self)
        ensures
            r.is_default(),
    {
        ConntrackSettings {
            tcp_timeout: String::new(),
            udp_timeout: String::new(),
            default_timeout: String::new(),
        }
    }
}

impl FirewallSettings {
    pub open spec fn is_default(&self) -> bool {
        self.outbound_action is None && self.inbound_action is None && self.conntrack.is_default()
            && self.outbound@.len() == 0 && self.inbound@.len() == 0
    }
}

impl Default for FirewallSettings {
    fn default() -> (r: Self)
        ensures
            r.is_default(),
    {
        FirewallSettings {
            outbound_action: None,
            inbound_action: None,
            conntrack: ConntrackSettings::default(),
            outbound: Vec::new(),
            inbound: Vec::new(),
        }
    }
}

impl FirewallRule {
    pub open spec fn is_default(&self) -> bool {
        self.port@.len() == 0 && self.proto@.len() == 0 && self.host is None && self.cidr is None
            && self.group is None
    }
}

impl Default for FirewallRule {
    fn default() -> (r: Self)
        ensures
            r.is_default(),
    {
        FirewallRule {
            port: String::new(),
            proto: String::new(),
            host: None,
            cidr: None,
            group: None,
        }
    }
}

impl TunSettings {
    pub open spec fn is_default(&self) -> bool {
        !self.disabled && self.dev@.len() == 0 && !self.drop_local_broadcast && !self.drop_multicast
            && self.tx_queue == 0 && self.mtu == 0
    }
}

impl Default for TunSettings {
    fn default() -> (r: Self)
        ensures
            r.is_default(),
    {
        TunSettings {
            disabled: false,
            dev: String::new(),
            drop_local_broadcast: false,
            drop_multicast: false,
            tx_queue: 0,
            mtu: 0,
        }
    }
}

impl PunchySettings {
    pub open spec fn is_default(&self) -> bool {
        !self.punch && !self.respond && self.delay@.len() == 0 && self.respond_delay is None
    }
}

impl Default for PunchySettings {
    fn default() -> (r: Self)
        ensures
            r.is_default(),
    {
        PunchySettings { punch: false, respond: false, delay: String::new(), respond_delay: None }
    }
}

impl ListenSettings {
    pub open spec fn is_default(&self) -> bool {
        self.host@.len() == 0 && self.port == 0
    }
}

impl Default for ListenSettings {
    fn default() -> (r: Self)
        ensures
            r.is_default(),
    {
        ListenSettings { host: String::new(), port: 0 }
    }
}

impl RelaySettings {
    pub open spec fn is_default(&self) -> bool {
        !self.am_relay && !self.use_relays
    }
}

impl Default for RelaySettings {
    fn default() -> (r: Self)
        ensures
            r.is_default(),
    {
        RelaySettings { am_relay: false, use_relays: false }
    }
}

impl LoggingSettings {
    pub open spec fn is_default(&self) -> bool {
        self.level@.len() == 0 && self.format@.len() == 0
    }
}

impl Default for LoggingSettings {
    fn default() -> (r: Self)
        ensures
            r.is_default(),
    {
        LoggingSettings { level: String::new(), format: String::new() }
    }
}

impl NebulaSettings {
    /// No overlay address appears twice as a key of the static host map.
    pub open spec fn well_formed(&self) -> bool {
        forall|i: int, j: int|
            0 <= i < j < self.static_host_map@.len() ==> (#[trigger] self.static_host_map@[i]).0@
                != (#[trigger] self.static_host_map@[j]).0@
    }

    pub open spec fn is_default(&self) -> bool {
        &&& self.pki.is_default()
        &&& self.static_host_map@.len() == 0
        &&& self.lighthouse.is_default()
        &&& self.firewall.is_default()
        &&& self.tun.is_default()
        &&& self.punchy.is_default()
        &&& self.listen.is_default()
        &&& self.relay.is_default()
        &&& self.logging.is_default()
    }
}

impl Default for NebulaSettings {
    fn default() -> (r: Self)
        ensures
            r.is_default(),
            r.well_formed(),
    {
        NebulaSettings {
            pki: PKISettings::default(),
            static_host_map: Vec::new(),
            lighthouse: LighthouseSettings::default(),
            firewall: FirewallSettings::default(),
            tun: TunSettings::default(),
            punchy: PunchySettings::default(),
            listen: ListenSettings::default(),
            relay: RelaySettings::default(),
            logging: LoggingSettings::default(),
        }
    }
}

/// What `nebula-cert print -json` reports of a certificate.
pub struct NebulaCertDetails {
    pub curve: String,
    pub domains: Vec<String>,
    pub groups: Vec<String>,
    pub ips: Vec<String>,
    pub is_ca: bool,
    pub issuer: String,
    pub name: String,
    pub not_after: Timestamp,
    pub not_before: Timestamp,
    pub public_key: String,
    pub subnets: Vec<String>,
}

/// A decoded Nebula certificate.
pub struct NebulaCert {
    pub details: NebulaCertDetails,
    pub fingerprint: String,
    pub signature: String,
}

/// The program that handles Nebula certificates.
pub fn nebula_cert_program() -> (r: String)
    ensures
        r@ == "nebula-cert"@,
{
    String::from_str("nebula-cert")
}

/// Arguments that print the certificate at `cert_path` as JSON.
pub fn decode_cert_args(cert_path: &str) -> (r: Vec<String>)
    ensures
        string_views(r@) == seq!["print"@, "-path"@, cert_path@, "-json"@],
{
    let r = vec![
        String::from_str("print"),
        String::from_str("-path"),
        String::from_str(cert_path),
        String::from_str("-json"),
    ];
    assert(string_views(r@) =~= seq!["print"@, "-path"@, cert_path@, "-json"@]);
    r
}

/// The error for a `nebula-cert` run that did not start or did not
/// succeed; `None` for a successful run.
pub open spec fn spec_command_failure(outcome: CommandOutcome) -> Option<(NebulaErrorCodes, Seq<char>)> {
    match outcome {
        CommandOutcome::NotRun { error } => Some(
            (NebulaErrorCodes::NebulaCommandError, "failed to execute command: "@ + error@),
        ),
        CommandOutcome::Exited { success, stderr, .. } => if success {
            None
        } else {
            Some(
                (
                    NebulaErrorCodes::NebulaCommandOutputError,
                    "failed to get output from command: "@ + stderr@,
                ),
            )
        },
    }
}

pub open spec fn is_error(r: NebulaError, e: (NebulaErrorCodes, Seq<char>)) -> bool {
    r.code == e.0 && r.message@ == e.1
}

fn command_failure(outcome: &CommandOutcome) -> (r: Option<NebulaError>)
    ensures
        match (r, spec_command_failure(*outcome)) {
            (None, None) => true,
            (Some(e), Some(f)) => is_error(e, f),
            _ => false,
        },
{
    match outcome {
        CommandOutcome::NotRun { error } => Some(
            NebulaError::new(
                NebulaErrorCodes::NebulaCommandError,
                String::from_str("failed to execute command: ").concat(error.as_str()),
                true,
            ),
        ),
        CommandOutcome::Exited { success, stderr, .. } => if *success {
            None
        } else {
            Some(
                NebulaError::new(
                    NebulaErrorCodes::NebulaCommandOutputError,
                    String::from_str("failed to get output from command: ").concat(stderr.as_str()),
                    true,
                ),
            )
        },
    }
}

/// Reads a `nebula-cert print` run: its standard output when it succeeded.
pub fn decode_cert_output(outcome: CommandOutcome) -> (r: Result<String, NebulaError>)
    ensures
        match (spec_command_failure(outcome), outcome) {
            (Some(f), _) => r matches Err(e) && is_error(e, f),
            (None, CommandOutcome::Exited { stdout, .. }) => r matches Ok(s) && s@ == stdout@,
            _ => false,
        },
{
    match command_failure(&outcome) {
        Some(e) => Err(e),
        None => match outcome {
            CommandOutcome::Exited { stdout, .. } => Ok(stdout),
            CommandOutcome::NotRun { .. } => {
                assert(false);
                Err(NebulaError::new(NebulaErrorCodes::NebulaError, String::new(), false))
            },
        },
    }
}

/// The certificate parsed from that output, or the parser's error text.
pub fn decode_cert_parsed(parsed: Result<NebulaCert, String>) -> (r: Result<NebulaCert, NebulaError>)
    ensures
        match parsed {
            Ok(c) => r == Ok::<NebulaCert, NebulaError>(c),
            Err(t) => r matches Err(e) && e.code == NebulaErrorCodes::NebulaCommandOutputDeserializeError
                && e.message@ == "failed to deserialize: "@ + t@,
        },
{
    match parsed {
        Ok(c) => Ok(c),
        Err(t) => Err(
            NebulaError::new(
                NebulaErrorCodes::NebulaCommandOutputDeserializeError,
                String::from_str("failed to deserialize: ").concat(t.as_str()),
                true,
            ),
        ),
    }
}

/// Arguments that verify `cert_path` against the CA at `ca_path`.
pub fn verify_cert_args(ca_path: &str, cert_path: &str) -> (r: Vec<String>)
    ensures
        string_views(r@) == seq!["verify"@, "-ca"@, ca_path@, "-crt"@, cert_path@],
{
    let r = vec![
        String::from_str("verify"),
        String::from_str("-ca"),
        String::from_str(ca_path),
        String::from_str("-crt"),
        String::from_str(cert_path),
    ];
    assert(string_views(r@) =~= seq!["verify"@, "-ca"@, ca_path@, "-crt"@, cert_path@]);
    r
}

/// Reads a `nebula-cert verify` run: `true` when it succeeded.
pub fn verify_cert(outcome: CommandOutcome) -> (r: Result<bool, NebulaError>)
    ensures
        match spec_command_failure(outcome) {
            Some(f) => r matches Err(e) && is_error(e, f),
            None => r == Ok::<bool, NebulaError>(true),
        },
{
    match command_failure(&outcome) {
        Some(e) => Err(e),
        None => Ok(true),
    }
}

/// Whether the certificate is valid at `now`: strictly inside its validity
/// window.
pub open spec fn spec_cert_valid_at(details: NebulaCertDetails, now: Timestamp) -> bool {
    spec_before(details.not_before, now) && spec_before(now, details.not_after)
}

pub fn cert_valid_at(details: &NebulaCertDetails, now: Timestamp) -> (r: bool)
    ensures
        r == spec_cert_valid_at(*details, now),
{
    before(details.not_before, now) && before(now, details.not_after)
}

/// Whether a decoded certificate is valid now. A decoding error becomes a
/// `NebulaCertDecodeError`; for a certificate, the answer is its validity
/// (`cert_valid_at`) at the time read from the clock, which the clock alone
/// decides.
pub fn is_cert_valid(decoded: Result<NebulaCert, NebulaError>) -> (r: Result<bool, NebulaError>)
    ensures
        match decoded {
            Ok(c) => r matches Ok(b) && exists|now: Timestamp| b == spec_cert_valid_at(c.details, now),
            Err(d) => r matches Err(e) && e.code == NebulaErrorCodes::NebulaCertDecodeError
                && e.message@ == "failed to decode cert: "@ + d.spec_text(),
        },
{
    match decoded {
        Ok(cert) => {
            let now = utc_now();
            let valid = cert_valid_at(&cert.details, now);
            assert(valid == spec_cert_valid_at(cert.details, now));
            Ok(valid)
        },
        Err(d) => Err(
            NebulaError::new(
                NebulaErrorCodes::NebulaCertDecodeError,
                String::from_str("failed to decode cert: ").concat(d.to_string().as_str()),
                true,
            ),
        ),
    }
}

/// Whether the certificate was verified, given what verifying it gave: a
/// verification error becomes a `NebulaCertVerificationError` that quotes it.
pub fn is_cert_verified(verification: Result<bool, NebulaError>) -> (r: Result<bool, NebulaError>)
    ensures
        match verification {
            Ok(v) => r == Ok::<bool, NebulaError>(v),
            Err(d) => r matches Err(e) && e.code == NebulaErrorCodes::NebulaCertVerificationError
                && e.message@ == "failed to verify cert: "@ + d.spec_text(),
        },
{
    match verification {
        Ok(v) => Ok(v),
        Err(d) => Err(
            NebulaError::new(
                NebulaErrorCodes::NebulaCertVerificationError,
                String::from_str("failed to verify cert: ").concat(d.to_string().as_str()),
                true,
            ),
        ),
    }
}

/// Arguments that write a new key pair to `key_path` and `pub_path`.
pub fn keygen_args(pub_path: &str, key_path: &str) -> (r: Vec<String>)
    ensures
        string_views(r@) == seq!["keygen"@, "-out-key"@, key_path@, "-out-pub"@, pub_path@],
{
    let r = vec![
        String::from_str("keygen"),
        String::from_str("-out-key"),
        String::from_str(key_path),
        String::from_str("-out-pub"),
        String::from_str(pub_path),
    ];
    assert(string_views(r@) =~= seq!["keygen"@, "-out-key"@, key_path@, "-out-pub"@, pub_path@]);
    r
}

/// Reads a `nebula-cert keygen` run, of which only the exit status is kept.
pub fn generate_nebula_key_cert(outcome: CommandOutcome) -> (r: Result<bool, NebulaError>)
    ensures
        match outcome {
            CommandOutcome::NotRun { error } => r matches Err(e) && e.code
                == NebulaErrorCodes::NebulaCertsGenError && e.message@
                == "error while generating nebula certs, error - "@ + error@,
            CommandOutcome::Exited { success, .. } => if success {
                r == Ok::<bool, NebulaError>(true)
            } else {
                r matches Err(e) && e.code == NebulaErrorCodes::NebulaCertsGenError && e.message@
                    == "nebula command status returned false"@
            },
        },
{
    match outcome {
        CommandOutcome::NotRun { error } => Err(
            NebulaError::new(
                NebulaErrorCodes::NebulaCertsGenError,
                String::from_str("error while generating nebula certs, error - ").concat(
                    error.as_str(),
                ),
                true,
            ),
        ),
        CommandOutcome::Exited { success, .. } => if success {
            Ok(true)
        } else {
            Err(
                NebulaError::new(
                    NebulaErrorCodes::NebulaCertsGenError,
                    String::from_str("nebula command status returned false"),
                    true,
                ),
            )
        },
    }
}

/// `<binary_path>/nebula -config <config_path>/config.yaml`
pub open spec fn spec_nebula_start_command(binary_path: Seq<char>, config_path: Seq<char>) -> Seq<char> {
    binary_path + "/nebula -config "@ + config_path + "/config.yaml"@
}

/// The command line that starts Nebula.
pub fn nebula_start_command(binary_path: &str, config_path: &str) -> (r: String)
    ensures
        r@ == spec_nebula_start_command(binary_path@, config_path@),
{
    String::from_str(binary_path).concat("/nebula -config ").concat(config_path).concat("/config.yaml")
}

/// Whether Nebula started, given what running its command line gave (see
/// `command::run_command_result`); a failure becomes a `NebulaStartError`.
pub fn start_nebula(run: Result<bool, String>) -> (r: Result<bool, NebulaError>)
    ensures
        match run {
            Ok(v) => r == Ok::<bool, NebulaError>(v),
            Err(t) => r matches Err(e) && e.code == NebulaErrorCodes::NebulaStartError && e.message@
                == "error while running command to start nebula, error - "@ + t@,
        },
{
    match run {
        Ok(v) => Ok(v),
        Err(t) => Err(
            NebulaError::new(
                NebulaErrorCodes::NebulaStartError,
                String::from_str("error while running command to start nebula, error - ").concat(
                    t.as_str(),
                ),
                true,
            ),
        ),
    }
}

} // verus!
