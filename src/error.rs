use vstd::prelude::*;

verus! {

/// Why an operation on the listing store was rejected. A rejected operation
/// leaves the store as it was.
#[derive(Clone, Copy, Debug, PartialEq, Eq, Structural)]
pub enum RegistryError {
    /// A string field is longer than its bound.
    FieldTooLong,
    /// A record already occupies the derived address.
    AlreadyExists,
    /// No record lives at the presented address.
    RecordNotFound,
    /// The presented address is not the one derived from the request.
    AddressMismatch,
    /// The requester is not the record's owner.
    Unauthorized,
    /// No derivation tag yields a valid address.
    DerivationExhausted,
}

impl RegistryError {
    /// A human-readable description of the error.
    pub fn message(&self) -> (r: &'static str) {
        match self {
            RegistryError::FieldTooLong => "Provided string exceeds maximum length",
            RegistryError::AlreadyExists => "A listing already exists at this address",
            RegistryError::RecordNotFound => "No listing exists at this address",
            RegistryError::AddressMismatch => "The listing address does not match its seeds",
            RegistryError::Unauthorized => "Only the listing's provider may change it",
            RegistryError::DerivationExhausted => "No valid listing address could be derived",
        }
    }
}

} // verus!
