//! The failure kinds of the control-table core.

use vstd::prelude::*;

verus! {

/// A failure reported by the bus transport. The core never inspects it: it is
/// carried to the caller exactly as the transport produced it.
#[derive(Debug, Clone, PartialEq, Eq)]
pub struct TransportError {
    pub detail: String,
}

/// Every way an operation of this crate can fail.
#[derive(Debug, Clone, PartialEq, Eq)]
pub enum Error {
    /// A register was declared with an invalid width, outside the table, under
    /// a name already taken, or over bytes that belong to another register.
    Configuration,
    /// No register of the requested name exists.
    UnknownRegister,
    /// A register was declared after the schema had been frozen.
    SchemaFrozen,
    /// The register's access mode forbids the requested operation.
    AccessViolation,
    /// A value lies outside the domain of the register or converter.
    Domain,
    /// The transport failed; its error is passed on unchanged.
    Transport(TransportError),
}

} // verus!
