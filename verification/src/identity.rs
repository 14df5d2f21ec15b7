//! The identity service: the machine's certificate material and the errors
//! of reading it.
use vstd::prelude::*;
use crate::text::{code_message_string, code_message_text};

verus! {

/// Error codes of the identity service.
#[derive(Debug, Default, Clone, Copy, PartialEq, Eq, Structural)]
pub enum IdentityErrorCodes {
    #[default]
    UnknownError,
    GetMachineIdError,
    GetMachineCertError,
}

impl IdentityErrorCodes {
    /// The variant's name, as `{:?}` prints it.
    pub open spec fn spec_name(self) -> Seq<char> {
        match self {
            IdentityErrorCodes::UnknownError => "UnknownError"@,
            IdentityErrorCodes::GetMachineIdError => "GetMachineIdError"@,
            IdentityErrorCodes::GetMachineCertError => "GetMachineCertError"@,
        }
    }

    /// The code's display text.
    pub open spec fn spec_text(self) -> Seq<char> {
        "IdentityErrorCodes: "@ + self.spec_name()
    }

    /// The variant's name, as `{:?}` prints it.
    pub fn name(&self) -> (r: String)
        ensures
            r@ == self.spec_name(),
    {
        match self {
            IdentityErrorCodes::UnknownError => String::from_str("UnknownError"),
            IdentityErrorCodes::GetMachineIdError => String::from_str("GetMachineIdError"),
            IdentityErrorCodes::GetMachineCertError => String::from_str("GetMachineCertError"),
        }
    }

    /// The code's display text.
    pub fn to_string(&self) -> (r: String)
        ensures
            r@ == self.spec_text(),
    {
        String::from_str("IdentityErrorCodes: ").concat(self.name().as_str())
    }
}

/// An identity service error: a code and a message.
#[derive(Debug)]
pub struct IdentityError {
    pub code: IdentityErrorCodes,
    pub message: String,
}

impl IdentityError {
    /// The error's display text.
    pub open spec fn spec_text(&self) -> Seq<char> {
        code_message_text("IdentityErrorCodes:"@, self.code.spec_name(), self.message@)
    }

    /// Builds the error.
    pub fn new(code: IdentityErrorCodes, message: String) -> (r: Self)
        ensures
            r.code == code,
            r.message@ == message@,
    {
        Self { code, message }
    }

    /// The error's display text.
    pub fn to_string(&self) -> (r: String)
        ensures
            r@ == self.spec_text(),
    {
        code_message_string("IdentityErrorCodes:", self.code.name().as_str(), self.message.as_str())
    }
}
/// Where the identity service keeps its data.
pub struct Settings {
    pub data_dir: String,
}

/// The files that make up the machine's certificate material.
pub struct MachineCertPaths {
    pub machine_cert: String,
    pub machine_private_key: String,
    pub ca_bundle: String,
    pub root_cert: String,
}

/// A machine counts as provisioned once its certificate names a machine id.
pub fn is_provisioned(machine_id: &str) -> (r: bool)
    ensures
        r == (machine_id@.len() > 0),
{
    machine_id.unicode_len() > 0
}

/// The error reported when the machine id could not be read from the
/// certificate; `detail` is the reader's error as `{:?}` writes it.
pub fn machine_id_error(detail: &str) -> (r: IdentityError)
    ensures
        r.code == IdentityErrorCodes::GetMachineIdError,
        r.message@ == "failed to get machine id: "@ + detail@,
{
    IdentityError::new(
        IdentityErrorCodes::GetMachineIdError,
        String::from_str("failed to get machine id: ").concat(detail),
    )
}

/// The error reported when the machine's certificates could not be read;
/// `detail` is the reader's error as `{:?}` writes it.
pub fn machine_cert_error(detail: &str) -> (r: IdentityError)
    ensures
        r.code == IdentityErrorCodes::GetMachineCertError,
        r.message@ == "failed to get machine cert: "@ + detail@,
{
    IdentityError::new(
        IdentityErrorCodes::GetMachineCertError,
        String::from_str("failed to get machine cert: ").concat(detail),
    )
}

} // verus!
