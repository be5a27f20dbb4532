use vstd::prelude::*;

verus! {

/// Everything that can go wrong while opening or using an instance.
#[derive(Debug, Clone)]
pub enum IsarError {
    /// The caller passed something unusable: no directory, an unknown collection id.
    IllegalArg { message: String },
    /// The schema is malformed.
    SchemaError { message: String },
    /// The name is already open with a schema of the fingerprint `existing`,
    /// which is not the fingerprint `requested`.
    SchemaMismatch { existing: u64, requested: u64 },
    /// Bringing the stored structure in line with the schema failed.
    MigrationError { message: String },
    /// The storage engine reported a failure.
    DbError { code: i32, message: String },
}

impl IsarError {
    /// An illegal-argument error carrying `message`.
    pub fn illegal_arg(message: &str) -> (e: IsarError)
        ensures
            e == (IsarError::IllegalArg { message: e->IllegalArg_message }),
            e->IllegalArg_message@ == message@,
    {
        IsarError::IllegalArg { message: message.to_owned() }
    }

    /// Whether this is an illegal-argument error.
    pub fn is_illegal_arg(&self) -> (b: bool)
        ensures
            b == (*self is IllegalArg),
    {
        match self {
            IsarError::IllegalArg { .. } => true,
            _ => false,
        }
    }

    /// Whether this is a schema-mismatch error.
    pub fn is_schema_mismatch(&self) -> (b: bool)
        ensures
            b == (*self is SchemaMismatch),
    {
        match self {
            IsarError::SchemaMismatch { .. } => true,
            _ => false,
        }
    }
}

} // verus!
