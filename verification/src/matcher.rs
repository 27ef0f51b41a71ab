//! Matching partition filters against known partition values.
//!
//! Equality and the list operators compare the partition value's canonical
//! text against the raw operand, except on timestamp columns, whose text
//! forms are not canonical: there equality resolves the operand through the
//! typed parser and the scalar partial order. The ordering operators always
//! take the typed path. A parse failure or an incomparable pair is a
//! definite non-match, never an error.
use vstd::prelude::*;

use crate::filter::{FilterView, PartitionFilter, PartitionValue, PartitionValueView, str_eq};
use crate::kernel::{parse_primitive_scalar, parsed_scalar};
use crate::ord::scalar_cmp;
use crate::partition::{DeltaTablePartition, PartitionView};
use crate::scalar::{DataType, PrimitiveKind, ScalarValue, ScalarView};
use crate::text::scalar_text;
use core::cmp::Ordering;

verus! {

/// The outcome of resolving a raw operand against a partition value of the
/// given declared type: the operand parsed at the type's primitive kind,
/// then ordered against the partition's scalar. `None` on a parse failure,
/// an incomparable pair, or a non-primitive type.
pub open spec fn compare_typed_spec(
    pv: ScalarView,
    text: Seq<char>,
    dt: DataType,
) -> Option<Ordering> {
    match dt {
        DataType::Primitive(kind) => match parsed_scalar(kind, text) {
            Some(other) => scalar_cmp(pv, other),
            None => None,
        },
        DataType::Complex => None,
    }
}

fn compare_typed_value(
    partition_value: &ScalarValue,
    filter_value: &str,
    data_type: &DataType,
) -> (r: Option<Ordering>)
    ensures
        r == compare_typed_spec(partition_value@, filter_value@, *data_type),
{
    match data_type {
        DataType::Primitive(kind) => match parse_primitive_scalar(kind, filter_value) {
            Ok(other) => partition_value.partial_compare(&other),
            Err(_) => None,
        },
        DataType::Complex => None,
    }
}

/// Whether a filter matches one partition of the given declared type:
/// false on a key mismatch; the `Equal("")` filter is the null-partition
/// test; otherwise the operator decides as the module doc describes.
pub open spec fn match_spec(f: FilterView, p: PartitionView, dt: DataType) -> bool {
    if f.key != p.key {
        false
    } else if f.value == PartitionValueView::Equal(Seq::<char>::empty()) {
        p.value is Null
    } else {
        match f.value {
            PartitionValueView::Equal(v) => if dt == DataType::Primitive(
                PrimitiveKind::Timestamp,
            ) {
                compare_typed_spec(p.value, v, dt) == Some(Ordering::Equal)
            } else {
                scalar_text(p.value) == v
            },
            PartitionValueView::NotEqual(v) => if dt == DataType::Primitive(
                PrimitiveKind::Timestamp,
            ) {
                match compare_typed_spec(p.value, v, dt) {
                    Some(o) => o != Ordering::Equal,
                    None => false,
                }
            } else {
                !(scalar_text(p.value) == v)
            },
            PartitionValueView::GreaterThan(v) => compare_typed_spec(p.value, v, dt)
                == Some(Ordering::Greater),
            PartitionValueView::GreaterThanOrEqual(v) => {
                let c = compare_typed_spec(p.value, v, dt);
                c == Some(Ordering::Greater) || c == Some(Ordering::Equal)
            },
            PartitionValueView::LessThan(v) => compare_typed_spec(p.value, v, dt)
                == Some(Ordering::Less),
            PartitionValueView::LessThanOrEqual(v) => {
                let c = compare_typed_spec(p.value, v, dt);
                c == Some(Ordering::Less) || c == Some(Ordering::Equal)
            },
            PartitionValueView::In(vs) => vs.contains(scalar_text(p.value)),
            PartitionValueView::NotIn(vs) => !vs.contains(scalar_text(p.value)),
        }
    }
}

/// True where matching `f` at the declared type `dt` resolves the operand
/// through the typed comparator: the four ordering operators always, and
/// equality or inequality on a timestamp column with a non-empty operand
/// (the empty-equality filter is the null-partition test instead).
pub open spec fn uses_typed_comparison(f: FilterView, dt: DataType) -> bool {
    match f.value {
        PartitionValueView::GreaterThan(_) => true,
        PartitionValueView::GreaterThanOrEqual(_) => true,
        PartitionValueView::LessThan(_) => true,
        PartitionValueView::LessThanOrEqual(_) => true,
        PartitionValueView::Equal(v) => dt == DataType::Primitive(PrimitiveKind::Timestamp)
            && v.len() > 0,
        PartitionValueView::NotEqual(_) => dt == DataType::Primitive(
            PrimitiveKind::Timestamp,
        ),
        _ => false,
    }
}

/// Law: wherever matching goes through the typed comparator, an operand
/// that fails to parse or a pair the partial order cannot relate is a
/// definite non-match; the matcher never resolves an unknown comparison to
/// true.
pub proof fn lemma_unknown_comparison_never_matches(
    f: FilterView,
    p: PartitionView,
    dt: DataType,
)
    requires
        uses_typed_comparison(f, dt),
        compare_typed_spec(p.value, crate::filter::simple_operand(f.value), dt) is None,
    ensures
        !match_spec(f, p, dt),
{
}

fn list_contains(vs: &Vec<String>, text: &str) -> (r: bool)
    ensures
        r == vs.deep_view().contains(text@),
{
    let mut i: usize = 0;
    while i < vs.len()
        invariant
            i <= vs@.len(),
            vs.deep_view().len() == vs@.len(),
            forall|j: int| 0 <= j < i ==> vs.deep_view()[j] != text@,
        decreases vs@.len() - i,
    {
        if str_eq(vs[i].as_str(), text) {
            proof {
                assert(vs.deep_view()[i as int] == text@);
            }
            return true;
        }
        i = i + 1;
    }
    false
}

/// The first declared type listed for the key, or `None` when none is.
pub open spec fn type_of_key(types: Seq<(String, DataType)>, key: Seq<char>) -> Option<
    DataType,
>
    decreases types.len(),
{
    if types.len() == 0 {
        None
    } else if types[0].0@ == key {
        Some(types[0].1)
    } else {
        type_of_key(types.skip(1), key)
    }
}

fn lookup_type(types: &Vec<(String, DataType)>, key: &str) -> (r: Option<DataType>)
    ensures
        r == type_of_key(types@, key@),
{
    let mut i: usize = 0;
    proof {
        assert(types@.skip(0) =~= types@);
    }
    loop
        invariant
            i <= types@.len(),
            type_of_key(types@, key@) == type_of_key(types@.skip(i as int), key@),
        decreases types@.len() - i,
    {
        if i == types.len() {
            return None;
        }
        if str_eq(types[i].0.as_str(), key) {
            return Some(types[i].1);
        }
        proof {
            assert(types@.skip(i as int).skip(1) =~= types@.skip(i + 1));
        }
        i = i + 1;
    }
}

impl PartitionFilter {
    /// Whether this filter matches the given partition at the given
    /// declared column type; see [`match_spec`].
    pub fn match_partition(
        &self,
        partition: &DeltaTablePartition,
        data_type: &DataType,
    ) -> (r: bool)
        ensures
            r == match_spec(self@, partition@, *data_type),
    {
        if !str_eq(self.key.as_str(), partition.key.as_str()) {
            return false;
        }
        if let PartitionValue::Equal(v) = &self.value {
            if v.as_str().is_empty() {
                proof {
                    assert(v@ =~= Seq::<char>::empty());
                }
                return partition.value.is_null();
            }
        }
        let is_timestamp = *data_type == DataType::Primitive(PrimitiveKind::Timestamp);
        match &self.value {
            PartitionValue::Equal(v) => {
                if is_timestamp {
                    matches!(
                        compare_typed_value(&partition.value, v.as_str(), data_type),
                        Some(Ordering::Equal)
                    )
                } else {
                    let text = partition.value.serialize();
                    text == *v
                }
            },
            PartitionValue::NotEqual(v) => {
                if is_timestamp {
                    match compare_typed_value(&partition.value, v.as_str(), data_type) {
                        Some(Ordering::Equal) => false,
                        Some(_) => true,
                        None => false,
                    }
                } else {
                    let text = partition.value.serialize();
                    !(text == *v)
                }
            },
            PartitionValue::GreaterThan(v) => matches!(
                compare_typed_value(&partition.value, v.as_str(), data_type),
                Some(Ordering::Greater)
            ),
            PartitionValue::GreaterThanOrEqual(v) => matches!(
                compare_typed_value(&partition.value, v.as_str(), data_type),
                Some(Ordering::Greater) | Some(Ordering::Equal)
            ),
            PartitionValue::LessThan(v) => matches!(
                compare_typed_value(&partition.value, v.as_str(), data_type),
                Some(Ordering::Less)
            ),
            PartitionValue::LessThanOrEqual(v) => matches!(
                compare_typed_value(&partition.value, v.as_str(), data_type),
                Some(Ordering::Less) | Some(Ordering::Equal)
            ),
            PartitionValue::In(vs) => {
                let text = partition.value.serialize();
                list_contains(vs, text.as_str())
            },
            PartitionValue::NotIn(vs) => {
                let text = partition.value.serialize();
                !list_contains(vs, text.as_str())
            },
        }
    }

    /// Whether some partition among the given ones satisfies this filter,
    /// at the declared type that the type list gives for the filter's key.
    /// The list must carry an entry for that key.
    pub fn match_partitions(
        &self,
        partitions: &[DeltaTablePartition],
        partition_col_data_types: &Vec<(String, DataType)>,
    ) -> (r: bool)
        requires
            type_of_key(partition_col_data_types@, self@.key) is Some,
        ensures
            r == exists|i: int|
                0 <= i < partitions@.len() && match_spec(
                    self@,
                    partitions@[i]@,
                    type_of_key(partition_col_data_types@, self@.key).unwrap(),
                ),
    {
        let data_type = lookup_type(partition_col_data_types, self.key.as_str()).unwrap();
        let mut i: usize = 0;
        while i < partitions.len()
            invariant
                i <= partitions@.len(),
                Some(data_type) == type_of_key(partition_col_data_types@, self@.key),
                forall|j: int|
                    0 <= j < i ==> !match_spec(self@, partitions@[j]@, data_type),
            decreases partitions@.len() - i,
        {
            if self.match_partition(&partitions[i], &data_type) {
                return true;
            }
            i = i + 1;
        }
        false
    }
}

} // verus!
