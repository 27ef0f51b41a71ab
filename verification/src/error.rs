//! The typed errors of the partition predicate engine. Every failure is a
//! recoverable value; no operation in the crate panics.
use vstd::prelude::*;

verus! {

/// An error of the partition predicate engine.
#[derive(Clone, Debug, PartialEq, Eq)]
pub enum DeltaTableError {
    /// A construction triple or list held an unrecognized operator or an
    /// empty key; carries the offending input, rendered for diagnostics.
    InvalidPartitionFilter { partition_filter: String },
    /// A Hive-style path segment did not split into exactly a key and a
    /// value; carries the offending segment.
    PartitionError { partition: String },
    /// A filter named a field the schema lacks, or one of a non-primitive
    /// type; carries a message naming the field.
    SchemaMismatch { msg: String },
    /// The kernel's scalar parser rejected an operand; carries the parser's
    /// own message.
    Kernel { msg: String },
}

} // verus!
