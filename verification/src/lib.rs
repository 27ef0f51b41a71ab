//! Partition predicate engine for Delta-style tables.
//!
//! The crate models partition values as typed scalars with a partial order,
//! builds partition filters from raw text, matches filters against known
//! partition values, renders filters in their canonical text form, and
//! compiles filters into push-down predicates for the kernel's scan planner.
pub mod error;
pub mod filter;
pub mod kernel;
pub mod matcher;
pub mod ord;
pub mod partition;
pub mod predicate;
pub mod scalar;
pub mod text;

pub use error::DeltaTableError;
pub use filter::{PartitionFilter, PartitionValue};
pub use partition::DeltaTablePartition;
pub use scalar::{DataType, PrimitiveKind, ScalarValue};
