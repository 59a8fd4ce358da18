//! Failure reasons that registry operations report.

use vstd::prelude::*;
use vstd::string::StringExecFns;

verus! {

/// Every way a registry operation can fail.  Absence of a record is never an
/// error: `get` signals it with `None` and `delete` with `false`.
#[derive(Debug)]
pub enum RegistryError {
    /// `create` was asked for a name that is already registered.
    AlreadyExists { name: String },
    /// The backend deliberately does not support this operation; the variant
    /// carries the attempted operation and the name it was attempted on.
    Unimplemented { operation: String, name: String },
    /// An interface matched the requested name, but its address family could
    /// not be read as IPv4.
    AddressResolution { name: String },
    /// The OS-level interface enumeration itself failed.
    SystemQuery { message: String },
}

/// The descriptive text of an error, as a character sequence.
pub open spec fn spec_error_message(e: RegistryError) -> Seq<char> {
    match e {
        RegistryError::AlreadyExists { name } => name@ + ": Already exists"@,
        RegistryError::Unimplemented { operation, name } => "TODO: ip link "@ + operation@
            + " "@ + name@,
        RegistryError::AddressResolution { name } =>
            "Unknown type of address/netmask for interface "@ + name@,
        RegistryError::SystemQuery { message } => "getifaddrs() failed: "@ + message@,
    }
}

impl RegistryError {
    /// Render the descriptive failure text.
    pub fn message(&self) -> (r: String)
        ensures
            r@ == spec_error_message(*self),
    {
        match self {
            RegistryError::AlreadyExists { name } => {
                let mut out = name.clone();
                out.append(": Already exists");
                out
            },
            RegistryError::Unimplemented { operation, name } => {
                let mut out = String::from_str("TODO: ip link ");
                out.append(operation.as_str());
                out.append(" ");
                out.append(name.as_str());
                out
            },
            RegistryError::AddressResolution { name } => {
                let mut out = String::from_str("Unknown type of address/netmask for interface ");
                out.append(name.as_str());
                out
            },
            RegistryError::SystemQuery { message } => {
                let mut out = String::from_str("getifaddrs() failed: ");
                out.append(message.as_str());
                out
            },
        }
    }
}

} // verus!
