use vstd::prelude::*;

verus! {

/// The four kinds of failure that cross the layers of the core.
#[derive(Clone, Debug)]
pub enum DomainError {
    /// Malformed input, detected before any mutation.
    ValidationError(String),
    /// The referenced entity does not exist.
    NotFound(String),
    /// A uniqueness rule would be broken.
    AlreadyExists(String),
    /// A storage-layer failure not otherwise classified.
    InvalidOperation(String),
}

impl DomainError {
    /// The message carried by the error.
    pub open spec fn spec_detail(&self) -> Seq<char> {
        match self {
            DomainError::ValidationError(m) => m@,
            DomainError::NotFound(m) => m@,
            DomainError::AlreadyExists(m) => m@,
            DomainError::InvalidOperation(m) => m@,
        }
    }

    pub open spec fn spec_prefix(&self) -> Seq<char> {
        match self {
            DomainError::ValidationError(_) => "Validation error: "@,
            DomainError::NotFound(_) => "Not found: "@,
            DomainError::AlreadyExists(_) => "Already exists: "@,
            DomainError::InvalidOperation(_) => "Invalid operation: "@,
        }
    }

    /// The human-readable form: the kind, a colon, and the detail.
    pub fn message(&self) -> (r: String)
        ensures
            r@ == self.spec_prefix() + self.spec_detail(),
    {
        let (prefix, detail) = match self {
            DomainError::ValidationError(m) => ("Validation error: ", m),
            DomainError::NotFound(m) => ("Not found: ", m),
            DomainError::AlreadyExists(m) => ("Already exists: ", m),
            DomainError::InvalidOperation(m) => ("Invalid operation: ", m),
        };
        let head = String::from_str(prefix);
        head.concat(detail.as_str())
    }
}

/// What a storage driver reported, reduced to what the core distinguishes.
#[derive(Clone, Debug)]
pub enum StorageFailure {
    /// A query that expects one row found none.
    NoRows,
    /// A uniqueness constraint refused a write.
    UniqueViolation(String),
    /// Any other driver failure, with its description.
    Other(String),
}

/// Maps a storage failure to the error kind of the core: no row is
/// `NotFound`, a uniqueness refusal is `AlreadyExists`, anything else is
/// `InvalidOperation` carrying the driver's description.
pub fn storage_error(f: StorageFailure) -> (r: DomainError)
    ensures
        match f {
            StorageFailure::NoRows => r is NotFound && r.spec_detail() == "Record not found"@,
            StorageFailure::UniqueViolation(m) => r is AlreadyExists && r.spec_detail() == m@,
            StorageFailure::Other(m) => r is InvalidOperation && r.spec_detail() == m@,
        },
{
    match f {
        StorageFailure::NoRows => DomainError::NotFound(String::from_str("Record not found")),
        StorageFailure::UniqueViolation(m) => DomainError::AlreadyExists(m),
        StorageFailure::Other(m) => DomainError::InvalidOperation(m),
    }
}

} // verus!
