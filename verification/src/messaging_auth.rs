//! Broker credentials: a random user name, signed with the service's key.
use vstd::prelude::*;
use vstd::utf8::encode_utf8;
use crate::text::{code_message_string, code_message_text, is_lower_hex_char};
use crate::outside::{base64_encode, base64_encode_block, base64_len_fits, error_stack_text, random_alphanumeric, sha256_hex, sign_sha256_with_pem_key, spec_sha256_signature_valid};

verus! {

/// Error codes of the broker-credential service.
#[derive(Debug, Default, Clone, Copy, PartialEq, Eq, Structural)]
pub enum MessagingAuthErrorCodes {
    #[default]
    AuthCredentialGenerationError,
}

impl MessagingAuthErrorCodes {
    /// The variant's name, as `{:?}` prints it.
    pub open spec fn spec_name(self) -> Seq<char> {
        match self {
            MessagingAuthErrorCodes::AuthCredentialGenerationError => "AuthCredentialGenerationError"@,
        }
    }

    /// The code's display text.
    pub open spec fn spec_text(self) -> Seq<char> {
        match self {
            MessagingAuthErrorCodes::AuthCredentialGenerationError => "Error while generating username and password"@,
        }
    }

    /// The variant's name, as `{:?}` prints it.
    pub fn name(&self) -> (r: String)
        ensures
            r@ == self.spec_name(),
    {
        match self {
            MessagingAuthErrorCodes::AuthCredentialGenerationError => String::from_str("AuthCredentialGenerationError"),
        }
    }

    /// The code's display text.
    pub fn to_string(&self) -> (r: String)
        ensures
            r@ == self.spec_text(),
    {
        match self {
            MessagingAuthErrorCodes::AuthCredentialGenerationError => String::from_str("Error while generating username and password"),
        }
    }
}

/// A broker-credential service error: a code and a message.
#[derive(Debug)]
pub struct MessagingAuthServiceError {
    pub code: MessagingAuthErrorCodes,
    pub message: String,
}

impl MessagingAuthServiceError {
    /// The error's display text.
    pub open spec fn spec_text(&self) -> Seq<char> {
        code_message_text(""@, self.code.spec_name(), self.message@)
    }

    /// Builds the error. `capture_error` asks for the error to be reported to
    /// the error tracker, which the application does; the value is the same
    /// either way.
    #[allow(unused_variables)]
    pub fn new(code: MessagingAuthErrorCodes, message: String, capture_error: bool) -> (r: Self)
        ensures
            r.code == code,
            r.message@ == message@,
    {
        Self { code, message }
    }

    /// The error's display text.
    pub fn to_string(&self) -> (r: String)
        ensures
            r@ == self.spec_text(),
    {
        code_message_string("", self.code.name().as_str(), self.message.as_str())
    }
}

/// Broker credentials.
#[derive(Debug)]
pub struct AuthResponse {
    pub username: String,
    pub password: String,
}

/// Settings of the broker-credential service.
pub struct MessagingAuthSettings {
    pub signed_key: SignedKeys,
}

/// Where the signing key is kept.
pub struct SignedKeys {
    pub privatekey: String,
}

/// Issues broker credentials: a random user name and, as password, the
/// base64 of that name's signature by the service's private key.
pub struct MessagingAuthService {
    settings: MessagingAuthSettings,
}

/// A user name: the SHA-256, in lower-case hex, of 32 random ASCII letters
/// and digits.
pub open spec fn is_user_name(u: Seq<char>) -> bool {
    u.len() == 64 && forall|i: int| 0 <= i < u.len() ==> is_lower_hex_char(#[trigger] u[i])
}

fn generate_username() -> (r: String)
    ensures
        is_user_name(r@),
{
    let seed = random_alphanumeric(32);
    sha256_hex(seed.as_str())
}

fn auth_error(detail: &str) -> (r: MessagingAuthServiceError)
    ensures
        r.code == MessagingAuthErrorCodes::AuthCredentialGenerationError,
        r.message@ == "Error: "@ + detail@,
{
    MessagingAuthServiceError::new(
        MessagingAuthErrorCodes::AuthCredentialGenerationError,
        String::from_str("Error: ").concat(detail),
        true,
    )
}

/// What becomes of a signing outcome: the base64 of the signature, the
/// signing error's text, or, for a signature too long for OpenSSL's encoder,
/// an error that says so.
pub open spec fn spec_password(signed: Result<Seq<u8>, Seq<char>>) -> Result<Seq<char>, Seq<char>> {
    match signed {
        Ok(sig) => if base64_len_fits(sig.len() as int) {
            Ok(base64_encode(sig))
        } else {
            Err("signature too long to encode"@)
        },
        Err(t) => Err(t),
    }
}

/// A signing outcome or password, as text.
pub open spec fn signed_view(signed: Result<Vec<u8>, String>) -> Result<Seq<u8>, Seq<char>> {
    match signed {
        Ok(sig) => Ok(sig@),
        Err(t) => Err(t@),
    }
}

pub open spec fn password_view(r: Result<String, String>) -> Result<Seq<char>, Seq<char>> {
    match r {
        Ok(p) => Ok(p@),
        Err(t) => Err(t@),
    }
}

/// The password made of a signing outcome: the base64 of the signature, or
/// the signing error's text.
pub fn password_from_signature(signed: Result<Vec<u8>, String>) -> (r: Result<String, String>)
    ensures
        password_view(r) == spec_password(signed_view(signed)),
{
    match signed {
        Ok(sig) => {
            assert(base64_len_fits(sig@.len() as int) <==> sig@.len() <= 1_610_612_733) by (nonlinear_arith)
                requires
                    sig@.len() >= 0,
            ;
            if sig.len() <= 1_610_612_733 {
                Ok(base64_encode_block(sig.as_slice()))
            } else {
                Err(String::from_str("signature too long to encode"))
            }
        },
        Err(t) => Err(t),
    }
}

/// The password for `data`: the base64 of its SHA-256 signature by the key
/// in `key_pem`, or the signing error's text. Whether signing succeeds, and
/// which signature it gives, OpenSSL decides: the result is what
/// `password_from_signature` makes of that outcome.
fn generate_password(key_pem: &[u8], data: &[u8]) -> (r: Result<String, String>)
    requires
        key_pem@.len() <= i32::MAX,
    ensures
        exists|signed: Result<Seq<u8>, Seq<char>>|
            password_view(r) == spec_password(signed) && (signed matches Ok(sig) ==> spec_sha256_signature_valid(
                key_pem@,
                data@,
                sig,
            )),
        r matches Ok(p) ==> exists|sig: Seq<u8>|
            spec_sha256_signature_valid(key_pem@, data@, sig) && p@ == base64_encode(sig),
{
    let signed = match sign_sha256_with_pem_key(key_pem, data) {
        Ok(sig) => Ok(sig),
        Err(e) => Err(error_stack_text(&e)),
    };
    let ghost outcome = signed_view(signed);
    assert(outcome matches Ok(sig) ==> spec_sha256_signature_valid(key_pem@, data@, sig));
    let r = password_from_signature(signed);
    assert(password_view(r) == spec_password(outcome));
    r
}

impl MessagingAuthService {
    pub fn new(settings: MessagingAuthSettings) -> (r: Self)
        ensures
            r.settings() == settings,
    {
        Self { settings: settings }
    }

    pub closed spec fn settings(&self) -> MessagingAuthSettings {
        self.settings
    }

    /// Where the private key that signs the user names is read from.
    pub fn private_key_path(&self) -> (r: &String)
        ensures
            *r == self.settings().signed_key.privatekey,
    {
        &self.settings.signed_key.privatekey
    }

    /// Issues credentials with the private key read from
    /// `private_key_path()`, or the text of the error reading it: a random
    /// user name, and as password the base64 of a SHA-256 signature of the
    /// user name's bytes under that key. A key longer than a C `int` makes
    /// OpenSSL panic, and `requires` leaves it out.
    pub fn auth(&self, private_key: Result<Vec<u8>, String>) -> (r: Result<AuthResponse, MessagingAuthServiceError>)
        requires
            private_key matches Ok(pem) ==> pem@.len() <= i32::MAX,
        ensures
            match private_key {
                Err(t) => r matches Err(e) && e.code == MessagingAuthErrorCodes::AuthCredentialGenerationError
                    && e.message@ == "Error: "@ + t@,
                Ok(pem) => match r {
                    Ok(a) => is_user_name(a.username@) && exists|sig: Seq<u8>|
                        spec_sha256_signature_valid(pem@, encode_utf8(a.username@), sig) && a.password@
                            == base64_encode(sig),
                    Err(e) => e.code == MessagingAuthErrorCodes::AuthCredentialGenerationError && exists|t: Seq<char>|
                        e.message@ == "Error: "@ + t,
                },
            },
    {
        let username = generate_username();
        match private_key {
            Err(t) => Err(auth_error(t.as_str())),
            Ok(pem) => match generate_password(pem.as_slice(), username.as_str().as_bytes()) {
                Ok(password) => Ok(AuthResponse { username, password }),
                Err(t) => Err(auth_error(t.as_str())),
            },
        }
    }
}

} // verus!
