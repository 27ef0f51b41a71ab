//! One column's value for one physical partition, and its construction
//! from a typed scalar or from a Hive-style `key=value` path segment.
use vstd::prelude::*;

use crate::error::DeltaTableError;
use crate::scalar::{ScalarValue, ScalarView};

verus! {

/// The sentinel that Hive-style layouts write as the path segment value of
/// a null partition.
pub const NULL_PARTITION_VALUE_DATA_PATH: &'static str = "__HIVE_DEFAULT_PARTITION__";

/// One partition column's resolved value.
#[derive(Clone, Debug, PartialEq)]
pub struct DeltaTablePartition {
    pub key: String,
    pub value: ScalarValue,
}

/// The mathematical value of a [`DeltaTablePartition`].
pub struct PartitionView {
    pub key: Seq<char>,
    pub value: ScalarView,
}

impl View for DeltaTablePartition {
    type V = PartitionView;

    open spec fn view(&self) -> PartitionView {
        PartitionView { key: self.key@, value: self.value@ }
    }
}

/// True when `i` is the position of the only `=` in `s`: the position a
/// Hive-style segment splits at.
pub open spec fn splits_once(s: Seq<char>, i: int) -> bool {
    0 <= i < s.len() && s[i] == '=' && (forall|j: int|
        0 <= j < s.len() && j != i ==> s[j] != '=')
}

/// The partition a Hive-style segment denotes: the text before its only
/// `=` as the key, the text after it as an untyped string scalar. `None`
/// when the segment has no `=` or more than one.
pub open spec fn hive_partition(s: Seq<char>) -> Option<PartitionView> {
    if exists|i: int| splits_once(s, i) {
        let i = choose|i: int| splits_once(s, i);
        Some(
            PartitionView { key: s.take(i), value: ScalarView::String(s.skip(i + 1)) },
        )
    } else {
        None
    }
}

impl DeltaTablePartition {
    /// Builds a partition from a key and an already-typed scalar.
    pub fn from_partition_value(partition_value: (&str, &ScalarValue)) -> (r: Self)
        ensures
            r@ == (PartitionView { key: partition_value.0@, value: partition_value.1@ }),
    {
        let (k, v) = partition_value;
        DeltaTablePartition { key: k.to_owned(), value: v.dup() }
    }

    /// Parses a Hive-style `key=value` path segment. The segment must split
    /// on `=` into exactly two parts; the value side may be empty and is
    /// always taken as an untyped string scalar. A segment with no `=` or
    /// more than one is rejected with [`DeltaTableError::PartitionError`]
    /// carrying the segment.
    pub fn parse(segment: &str) -> (r: Result<Self, DeltaTableError>)
        ensures
            r is Ok <==> exists|i: int| splits_once(segment@, i),
            r matches Ok(p) ==> Some(p@) == hive_partition(segment@),
            r matches Err(e) ==> e matches DeltaTableError::PartitionError { partition }
                && partition@ == segment@,
    {
        let len = segment.unicode_len();
        let mut found: Option<usize> = None;
        let mut i: usize = 0;
        while i < len
            invariant
                i <= len,
                len == segment@.len(),
                found matches Some(k) ==> k < i && segment@[k as int] == '='
                    && (forall|j: int| 0 <= j < i && j != k ==> segment@[j] != '='),
                found is None ==> (forall|j: int| 0 <= j < i ==> segment@[j] != '='),
            decreases len - i,
        {
            let c = segment.get_char(i);
            if c == '=' {
                match found {
                    Some(k) => {
                        proof {
                            assert forall|cand: int| !splits_once(segment@, cand) by {
                                if splits_once(segment@, cand) {
                                    if cand == k as int {
                                        assert(segment@[i as int] == '=');
                                    } else {
                                        assert(segment@[k as int] == '=');
                                    }
                                }
                            };
                        }
                        return Err(DeltaTableError::PartitionError {
                            partition: segment.to_owned(),
                        });
                    },
                    None => {
                        found = Some(i);
                    },
                }
            }
            i = i + 1;
        }
        match found {
            Some(k) => {
                proof {
                    assert(splits_once(segment@, k as int));
                    let c = choose|j: int| splits_once(segment@, j);
                    assert(segment@[k as int] == '=');
                    assert(c == k as int);
                }
                let key = segment.substring_char(0, k).to_owned();
                let value = segment.substring_char(k + 1, len).to_owned();
                proof {
                    assert(segment@.subrange(0, k as int) =~= segment@.take(k as int));
                    assert(segment@.subrange(k + 1, len as int) =~= segment@.skip(
                        k + 1,
                    ));
                }
                Ok(DeltaTablePartition { key, value: ScalarValue::String(value) })
            },
            None => {
                proof {
                    assert forall|cand: int| !splits_once(segment@, cand) by {
                        if splits_once(segment@, cand) {
                            assert(segment@[cand] == '=');
                        }
                    };
                }
                Err(DeltaTableError::PartitionError { partition: segment.to_owned() })
            },
        }
    }
}

} // verus!
