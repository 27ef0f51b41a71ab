use delta_kernel::expressions::Scalar as KernelScalar;
use delta_kernel::schema::{DataType as KernelDataType, PrimitiveType, StructField, StructType};
use delta_partitions::predicate::{
    filter_to_predicate, to_kernel_predicate, CompareOp, FilterPredicate, JunctionOp,
    PredicateLeaf,
};
use delta_partitions::{
    DataType, DeltaTableError, DeltaTablePartition, PartitionFilter, PartitionValue,
    PrimitiveKind, ScalarValue,
};
use std::cmp::Ordering;

#[test]
fn construction_rejects_unknown_operators() {
    assert!(matches!(
        PartitionFilter::try_from_triple("k", "==", "v").unwrap_err(),
        DeltaTableError::InvalidPartitionFilter { .. }
    ));
    assert!(matches!(
        PartitionFilter::try_from_triple("k", "LIKE", "v").unwrap_err(),
        DeltaTableError::InvalidPartitionFilter { .. }
    ));
    // The list operators are case-sensitive and lowercase.
    assert!(PartitionFilter::try_from_list("k", "IN", ["a"].as_slice()).is_err());
    assert!(PartitionFilter::try_from_list("k", "NOT IN", ["a"].as_slice()).is_err());
    assert!(PartitionFilter::try_from_list("k", "not  in", ["a"].as_slice()).is_err());
}

#[test]
fn construction_rejects_empty_key_for_every_operator() {
    for op in ["=", "!=", ">", ">=", "<", "<="] {
        assert!(matches!(
            PartitionFilter::try_from_triple("", op, "v").unwrap_err(),
            DeltaTableError::InvalidPartitionFilter { .. }
        ));
    }
    for op in ["in", "not in"] {
        assert!(matches!(
            PartitionFilter::try_from_list("", op, ["a"].as_slice()).unwrap_err(),
            DeltaTableError::InvalidPartitionFilter { .. }
        ));
    }
}

#[test]
fn invalid_filter_error_carries_the_triple() {
    let err = PartitionFilter::try_from_triple("date", "LIKE", "2021").unwrap_err();
    assert_eq!(
        err,
        DeltaTableError::InvalidPartitionFilter {
            partition_filter: "(\"date\", \"LIKE\", \"2021\")".to_string()
        }
    );
}

#[test]
fn serialization_reparses_to_the_same_filter() {
    for op in ["=", "!=", ">", ">=", "<", "<="] {
        let filter = PartitionFilter::try_from_triple("date", op, "2022-05-22").unwrap();
        let rendered = filter.serialize();
        assert_eq!(rendered, format!("date {op} '2022-05-22'"));
        // Split the canonical form back into its triple and rebuild.
        let rest = rendered.strip_prefix("date ").unwrap();
        let (parsed_op, quoted) = rest.split_once(' ').unwrap();
        let value = quoted.strip_prefix('\'').unwrap().strip_suffix('\'').unwrap();
        let reparsed = PartitionFilter::try_from_triple("date", parsed_op, value).unwrap();
        assert_eq!(reparsed, filter);
    }
}

#[test]
fn hive_segment_with_empty_value_parses() {
    let partition = DeltaTablePartition::parse("year=").unwrap();
    assert_eq!(partition.key, "year");
    assert_eq!(partition.value, ScalarValue::String(String::new()));
}

#[test]
fn match_partition_ordering_operators() {
    let years = ["2019", "2020", "2021"].map(|y| DeltaTablePartition {
        key: "year".to_string(),
        value: ScalarValue::String(y.to_string()),
    });
    let string_type = DataType::Primitive(PrimitiveKind::String);

    let ne = PartitionFilter::try_from_triple("year", "!=", "2020").unwrap();
    assert!(ne.match_partition(&years[0], &string_type));
    assert!(!ne.match_partition(&years[1], &string_type));
    assert!(ne.match_partition(&years[2], &string_type));

    let gt = PartitionFilter::try_from_triple("year", ">", "2020").unwrap();
    assert!(!gt.match_partition(&years[0], &string_type));
    assert!(!gt.match_partition(&years[1], &string_type));
    assert!(gt.match_partition(&years[2], &string_type));

    let le = PartitionFilter::try_from_triple("year", "<=", "2019").unwrap();
    assert!(le.match_partition(&years[0], &string_type));
    assert!(!le.match_partition(&years[1], &string_type));
    assert!(!le.match_partition(&years[2], &string_type));
}

#[test]
fn match_partition_in_and_not_in() {
    let p2020 = DeltaTablePartition {
        key: "year".to_string(),
        value: ScalarValue::String("2020".to_string()),
    };
    let p2019 = DeltaTablePartition {
        key: "year".to_string(),
        value: ScalarValue::String("2019".to_string()),
    };
    let string_type = DataType::Primitive(PrimitiveKind::String);

    let filter =
        PartitionFilter::try_from_list("year", "in", ["2020", "2021"].as_slice()).unwrap();
    assert!(filter.match_partition(&p2020, &string_type));
    assert!(!filter.match_partition(&p2019, &string_type));

    let filter =
        PartitionFilter::try_from_list("year", "not in", ["2020", "2021"].as_slice()).unwrap();
    assert!(!filter.match_partition(&p2020, &string_type));
    assert!(filter.match_partition(&p2019, &string_type));
}

#[test]
fn empty_equality_is_the_null_partition_test() {
    let filter = PartitionFilter::try_from_triple("k", "=", "").unwrap();
    let null_partition = DeltaTablePartition::from_partition_value((
        "k",
        &ScalarValue::Null(DataType::Primitive(PrimitiveKind::String)),
    ));
    let text_partition = DeltaTablePartition::from_partition_value((
        "k",
        &ScalarValue::String("x".to_string()),
    ));
    let string_type = DataType::Primitive(PrimitiveKind::String);
    assert!(filter.match_partition(&null_partition, &string_type));
    assert!(!filter.match_partition(&text_partition, &string_type));
}

#[test]
fn typed_comparison_on_integer_columns() {
    // The operand text parses at the column's type, so the comparison is
    // numeric, not textual: "99" < "100" as integers.
    let partition = DeltaTablePartition {
        key: "score".to_string(),
        value: ScalarValue::Integer(99),
    };
    let int_type = DataType::Primitive(PrimitiveKind::Integer);
    let filter = PartitionFilter::try_from_triple("score", "<", "100").unwrap();
    assert!(filter.match_partition(&partition, &int_type));
    let filter = PartitionFilter::try_from_triple("score", ">", "100").unwrap();
    assert!(!filter.match_partition(&partition, &int_type));
    // An unparseable operand is a definite non-match, not an error.
    let filter = PartitionFilter::try_from_triple("score", "<", "ninety").unwrap();
    assert!(!filter.match_partition(&partition, &int_type));
}

#[test]
fn timestamp_equality_goes_through_the_typed_parser() {
    let partition = DeltaTablePartition {
        key: "time".to_string(),
        value: ScalarValue::Timestamp(1_000_000),
    };
    let ts_type = DataType::Primitive(PrimitiveKind::Timestamp);
    // Textual timestamp forms are not canonical, so equality parses the
    // operand instead of comparing serialized text.
    let filter =
        PartitionFilter::try_from_triple("time", "=", "1970-01-01 00:00:01").unwrap();
    assert!(filter.match_partition(&partition, &ts_type));
    let filter =
        PartitionFilter::try_from_triple("time", "!=", "1970-01-01 00:00:02").unwrap();
    assert!(filter.match_partition(&partition, &ts_type));
}

#[test]
fn decimals_with_differing_scale_are_incomparable() {
    let a = ScalarValue::Decimal { bits: 12345, precision: 10, scale: 2 };
    let b = ScalarValue::Decimal { bits: 12345, precision: 10, scale: 3 };
    let c = ScalarValue::Decimal { bits: 99, precision: 10, scale: 2 };
    assert_eq!(a.partial_compare(&b), None);
    assert_eq!(b.partial_compare(&a), None);
    assert_eq!(a.partial_compare(&c), Some(Ordering::Greater));

    // Through the matcher, an incomparable pair resolves to non-match for
    // every ordering operator.
    let partition = DeltaTablePartition { key: "amount".to_string(), value: a };
    let mismatched = DataType::Primitive(PrimitiveKind::Decimal { precision: 10, scale: 3 });
    let gt = PartitionFilter::try_from_triple("amount", ">", "1.5").unwrap();
    let lt = PartitionFilter::try_from_triple("amount", "<", "1.5").unwrap();
    assert!(!gt.match_partition(&partition, &mismatched));
    assert!(!lt.match_partition(&partition, &mismatched));
}

#[test]
fn null_orders_below_every_value() {
    let null = ScalarValue::Null(DataType::Primitive(PrimitiveKind::Integer));
    let one = ScalarValue::Integer(1);
    assert_eq!(null.partial_compare(&null), Some(Ordering::Equal));
    assert_eq!(null.partial_compare(&one), Some(Ordering::Less));
    assert_eq!(one.partial_compare(&null), Some(Ordering::Greater));
}

#[test]
fn mismatched_kinds_are_incomparable() {
    let n = ScalarValue::Integer(1);
    let s = ScalarValue::String("1".to_string());
    assert_eq!(n.partial_compare(&s), None);
    assert_eq!(s.partial_compare(&n), None);
    let ts = ScalarValue::Timestamp(5);
    let ntz = ScalarValue::TimestampNtz(5);
    assert_eq!(ts.partial_compare(&ntz), None);
}

#[test]
fn float_comparison_follows_the_numeric_order() {
    let f = |x: f32| ScalarValue::Float {
        raw: KernelScalar::Float(x),
        bits: x.to_bits(),
        text: format!("{x}"),
    };
    assert_eq!(f(1.5).partial_compare(&f(2.5)), Some(Ordering::Less));
    assert_eq!(f(-1.5).partial_compare(&f(1.5)), Some(Ordering::Less));
    assert_eq!(f(0.0).partial_compare(&f(-0.0)), Some(Ordering::Equal));
    assert_eq!(f(f32::NAN).partial_compare(&f(1.0)), None);
}

#[test]
fn scalar_text_renderings() {
    assert_eq!(ScalarValue::Integer(-42).serialize(), "-42");
    assert_eq!(ScalarValue::Long(0).serialize(), "0");
    assert_eq!(ScalarValue::Boolean(true).serialize(), "true");
    assert_eq!(
        ScalarValue::Null(DataType::Primitive(PrimitiveKind::String)).serialize(),
        "null"
    );
    assert_eq!(ScalarValue::String("abc".to_string()).serialize(), "abc");
    assert_eq!(
        ScalarValue::Decimal { bits: 12345, precision: 10, scale: 2 }.serialize(),
        "123.45"
    );
    assert_eq!(
        ScalarValue::Decimal { bits: -12345, precision: 10, scale: 2 }.serialize(),
        "-123.45"
    );
    assert_eq!(
        ScalarValue::Decimal { bits: 5, precision: 10, scale: 3 }.serialize(),
        "0.005"
    );
    assert_eq!(
        ScalarValue::Decimal { bits: 12345, precision: 10, scale: 0 }.serialize(),
        "12345"
    );
    assert_eq!(ScalarValue::Binary(vec![1, 2, 3]).serialize(), "[1, 2, 3]");
    assert_eq!(ScalarValue::Binary(vec![]).serialize(), "[]");
    assert_eq!(ScalarValue::Date(19000).serialize(), "19000");
}

#[test]
fn compile_yields_the_model_leaf() {
    let schema = StructType::try_new(vec![StructField::new(
        "name",
        KernelDataType::Primitive(PrimitiveType::String),
        true,
    )])
    .unwrap();
    let filter = PartitionFilter {
        key: "name".to_string(),
        value: PartitionValue::Equal("Alice".to_string()),
    };
    let predicate = filter_to_predicate(&filter, &schema).unwrap();
    assert_eq!(
        predicate,
        FilterPredicate::Comparison(PredicateLeaf {
            op: CompareOp::Eq,
            column: "name".to_string(),
            literal: ScalarValue::String("Alice".to_string()),
        })
    );
}

#[test]
fn compile_in_yields_or_junction_in_input_order() {
    let schema = StructType::try_new(vec![StructField::new(
        "category",
        KernelDataType::Primitive(PrimitiveType::String),
        true,
    )])
    .unwrap();
    let leaf = |op: CompareOp, v: &str| PredicateLeaf {
        op,
        column: "category".to_string(),
        literal: ScalarValue::String(v.to_string()),
    };

    let filter =
        PartitionFilter::try_from_list("category", "in", ["books", "electronics"].as_slice())
            .unwrap();
    assert_eq!(
        filter_to_predicate(&filter, &schema).unwrap(),
        FilterPredicate::Junction {
            op: JunctionOp::Or,
            preds: vec![leaf(CompareOp::Eq, "books"), leaf(CompareOp::Eq, "electronics")],
        }
    );

    let filter =
        PartitionFilter::try_from_list("category", "not in", ["books", "electronics"].as_slice())
            .unwrap();
    assert_eq!(
        filter_to_predicate(&filter, &schema).unwrap(),
        FilterPredicate::Junction {
            op: JunctionOp::And,
            preds: vec![leaf(CompareOp::Ne, "books"), leaf(CompareOp::Ne, "electronics")],
        }
    );
}

#[test]
fn compile_empty_list_yields_empty_junction() {
    let schema = StructType::try_new(vec![StructField::new(
        "tag",
        KernelDataType::Primitive(PrimitiveType::String),
        true,
    )])
    .unwrap();
    let filter = PartitionFilter {
        key: "tag".to_string(),
        value: PartitionValue::In(vec![]),
    };
    assert_eq!(
        filter_to_predicate(&filter, &schema).unwrap(),
        FilterPredicate::Junction { op: JunctionOp::Or, preds: vec![] }
    );
}

#[test]
fn compile_error_messages_name_the_field() {
    let schema = StructType::try_new(vec![StructField::new(
        "present",
        KernelDataType::Primitive(PrimitiveType::String),
        true,
    )])
    .unwrap();
    let filter = PartitionFilter {
        key: "absent".to_string(),
        value: PartitionValue::Equal("v".to_string()),
    };
    assert_eq!(
        filter_to_predicate(&filter, &schema).unwrap_err(),
        DeltaTableError::SchemaMismatch {
            msg: "Field 'absent' is not a root table field.".to_string()
        }
    );

    let nested = StructType::try_new(vec![StructField::new(
        "inner",
        KernelDataType::Primitive(PrimitiveType::String),
        true,
    )])
    .unwrap();
    let schema = StructType::try_new(vec![StructField::new(
        "nested",
        KernelDataType::Struct(Box::new(nested)),
        true,
    )])
    .unwrap();
    let filter = PartitionFilter {
        key: "nested".to_string(),
        value: PartitionValue::Equal("v".to_string()),
    };
    assert_eq!(
        filter_to_predicate(&filter, &schema).unwrap_err(),
        DeltaTableError::SchemaMismatch {
            msg: "Field 'nested' is not a primitive type".to_string()
        }
    );
}

#[test]
fn compile_parse_failure_is_a_kernel_error() {
    let schema = StructType::try_new(vec![StructField::new(
        "number",
        KernelDataType::Primitive(PrimitiveType::Integer),
        true,
    )])
    .unwrap();
    let filter = PartitionFilter {
        key: "number".to_string(),
        value: PartitionValue::Equal("not_a_number".to_string()),
    };
    assert!(matches!(
        filter_to_predicate(&filter, &schema).unwrap_err(),
        DeltaTableError::Kernel { .. }
    ));
}

#[test]
fn to_kernel_predicate_ands_all_filters() {
    let schema = StructType::try_new(vec![
        StructField::new("year", KernelDataType::Primitive(PrimitiveType::Integer), true),
        StructField::new("month", KernelDataType::Primitive(PrimitiveType::Integer), true),
    ])
    .unwrap();
    let filters = vec![
        PartitionFilter::try_from_triple("year", "=", "2021").unwrap(),
        PartitionFilter::try_from_triple("month", ">", "6").unwrap(),
    ];
    assert!(to_kernel_predicate(&filters, &schema).is_ok());

    let filters = vec![
        PartitionFilter::try_from_triple("year", "=", "2021").unwrap(),
        PartitionFilter::try_from_triple("month", ">", "June").unwrap(),
    ];
    assert!(to_kernel_predicate(&filters, &schema).is_err());
}

#[test]
fn empty_in_list_matches_nothing() {
    let partition = DeltaTablePartition {
        key: "year".to_string(),
        value: ScalarValue::String("2020".to_string()),
    };
    let string_type = DataType::Primitive(PrimitiveKind::String);
    let nothing = PartitionFilter {
        key: "year".to_string(),
        value: PartitionValue::In(vec![]),
    };
    assert!(!nothing.match_partition(&partition, &string_type));
    let everything = PartitionFilter {
        key: "year".to_string(),
        value: PartitionValue::NotIn(vec![]),
    };
    assert!(everything.match_partition(&partition, &string_type));
}

#[test]
fn complex_column_types_never_order() {
    let partition = DeltaTablePartition {
        key: "nested".to_string(),
        value: ScalarValue::String("x".to_string()),
    };
    let gt = PartitionFilter::try_from_triple("nested", ">", "a").unwrap();
    assert!(!gt.match_partition(&partition, &DataType::Complex));
    // The direct text-equality path still applies to complex types.
    let eq = PartitionFilter::try_from_triple("nested", "=", "x").unwrap();
    assert!(eq.match_partition(&partition, &DataType::Complex));
}
