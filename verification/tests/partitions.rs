use delta_kernel::expressions::{Expression, JunctionPredicateOp, Predicate, Scalar};
use delta_kernel::schema::{DataType as KernelDataType, PrimitiveType, StructField, StructType};
use delta_partitions::predicate::filter_to_kernel_predicate;
use delta_partitions::{
    DataType, DeltaTableError, DeltaTablePartition, PartitionFilter, PartitionValue,
    PrimitiveKind, ScalarValue,
};

fn check_serialize(filter: PartitionFilter, expected: &str) {
    assert_eq!(filter.serialize(), expected.to_string())
}

#[test]
fn test_serialize_partition_filter() {
    check_serialize(
        PartitionFilter::try_from_triple("date", "=", "2022-05-22").unwrap(),
        "date = '2022-05-22'",
    );
    check_serialize(
        PartitionFilter::try_from_triple("date", "!=", "2022-05-22").unwrap(),
        "date != '2022-05-22'",
    );
    check_serialize(
        PartitionFilter::try_from_triple("date", ">", "2022-05-22").unwrap(),
        "date > '2022-05-22'",
    );
    check_serialize(
        PartitionFilter::try_from_triple("date", ">=", "2022-05-22").unwrap(),
        "date >= '2022-05-22'",
    );
    check_serialize(
        PartitionFilter::try_from_triple("date", "<", "2022-05-22").unwrap(),
        "date < '2022-05-22'",
    );
    check_serialize(
        PartitionFilter::try_from_triple("date", "<=", "2022-05-22").unwrap(),
        "date <= '2022-05-22'",
    );
    check_serialize(
        PartitionFilter::try_from_list("date", "in", ["2023-11-04", "2023-06-07"].as_slice())
            .unwrap(),
        "date IN ('2023-11-04', '2023-06-07')",
    );
    check_serialize(
        PartitionFilter::try_from_list("date", "not in", ["2023-11-04", "2023-06-07"].as_slice())
            .unwrap(),
        "date NOT IN ('2023-11-04', '2023-06-07')",
    );
}

#[test]
fn tryfrom_invalid() {
    let buf = "this-is-not-a-partition";
    let partition = DeltaTablePartition::parse(buf);
    assert!(partition.is_err());
}

#[test]
fn tryfrom_valid() {
    let buf = "ds=2024-04-01";
    let partition = DeltaTablePartition::parse(buf);
    assert!(partition.is_ok());
    let partition = partition.unwrap();
    assert_eq!(partition.key, "ds");
    assert_eq!(partition.value, ScalarValue::String("2024-04-01".to_string()));
}

#[test]
fn test_create_delta_table_partition() {
    let year = "2021".to_string();
    let path = format!("year={year}");
    assert_eq!(
        DeltaTablePartition::parse(path.as_ref()).unwrap(),
        DeltaTablePartition {
            key: "year".into(),
            value: ScalarValue::String(year),
        }
    );

    let _wrong_path = "year=2021/month=";
    assert!(matches!(
        DeltaTablePartition::parse(_wrong_path).unwrap_err(),
        DeltaTableError::PartitionError {
            partition: _wrong_path
        },
    ))
}

#[test]
fn test_match_partition() {
    let partition_2021 = DeltaTablePartition {
        key: "year".into(),
        value: ScalarValue::String("2021".into()),
    };
    let partition_2020 = DeltaTablePartition {
        key: "year".into(),
        value: ScalarValue::String("2020".into()),
    };
    let partition_2019 = DeltaTablePartition {
        key: "year".into(),
        value: ScalarValue::String("2019".into()),
    };

    let partition_year_2020_filter = PartitionFilter {
        key: "year".to_string(),
        value: PartitionValue::Equal("2020".to_string()),
    };
    let partition_month_12_filter = PartitionFilter {
        key: "month".to_string(),
        value: PartitionValue::Equal("12".to_string()),
    };
    let string_type = DataType::Primitive(PrimitiveKind::String);

    assert!(!partition_year_2020_filter.match_partition(&partition_2021, &string_type));
    assert!(partition_year_2020_filter.match_partition(&partition_2020, &string_type));
    assert!(!partition_year_2020_filter.match_partition(&partition_2019, &string_type));
    assert!(!partition_month_12_filter.match_partition(&partition_2019, &string_type));
}

#[test]
fn test_match_filters() {
    let partitions = vec![
        DeltaTablePartition {
            key: "year".into(),
            value: ScalarValue::String("2021".into()),
        },
        DeltaTablePartition {
            key: "month".into(),
            value: ScalarValue::String("12".into()),
        },
    ];

    let string_type = DataType::Primitive(PrimitiveKind::String);
    let partition_data_types: Vec<(String, DataType)> = vec![
        ("year".to_string(), string_type),
        ("month".to_string(), string_type),
    ];

    let valid_filters = PartitionFilter {
        key: "year".to_string(),
        value: PartitionValue::Equal("2021".to_string()),
    };

    let valid_filter_month = PartitionFilter {
        key: "month".to_string(),
        value: PartitionValue::Equal("12".to_string()),
    };

    let invalid_filter = PartitionFilter {
        key: "year".to_string(),
        value: PartitionValue::Equal("2020".to_string()),
    };

    assert!(valid_filters.match_partitions(&partitions, &partition_data_types));
    assert!(valid_filter_month.match_partitions(&partitions, &partition_data_types));
    assert!(!invalid_filter.match_partitions(&partitions, &partition_data_types));
}

#[test]
fn test_filter_to_kernel_predicate_equal() {
    let schema = StructType::try_new(vec![
        StructField::new("name", KernelDataType::Primitive(PrimitiveType::String), true),
        StructField::new("age", KernelDataType::Primitive(PrimitiveType::Integer), true),
    ])
    .unwrap();
    let filter = PartitionFilter {
        key: "name".to_string(),
        value: PartitionValue::Equal("Alice".to_string()),
    };

    let predicate = filter_to_kernel_predicate(&filter, &schema).unwrap();

    let expected = Expression::column(["name"]).eq(Scalar::String("Alice".into()));
    assert_eq!(predicate, expected);
}

#[test]
fn test_filter_to_kernel_predicate_not_equal() {
    let schema = StructType::try_new(vec![StructField::new(
        "status",
        KernelDataType::Primitive(PrimitiveType::String),
        true,
    )])
    .unwrap();
    let filter = PartitionFilter {
        key: "status".to_string(),
        value: PartitionValue::NotEqual("inactive".to_string()),
    };

    let predicate = filter_to_kernel_predicate(&filter, &schema).unwrap();

    let expected = Expression::column(["status"]).ne(Scalar::String("inactive".into()));
    assert_eq!(predicate, expected);
}

#[test]
fn test_filter_to_kernel_predicate_comparisons() {
    let schema = StructType::try_new(vec![
        StructField::new("score", KernelDataType::Primitive(PrimitiveType::Integer), true),
        StructField::new("price", KernelDataType::Primitive(PrimitiveType::Long), true),
    ])
    .unwrap();

    // Test less than
    let filter = PartitionFilter {
        key: "score".to_string(),
        value: PartitionValue::LessThan("100".to_string()),
    };
    let predicate = filter_to_kernel_predicate(&filter, &schema).unwrap();
    let expected = Expression::column(["score"]).lt(Scalar::Integer(100));
    assert_eq!(predicate, expected);

    // Test less than or equal
    let filter = PartitionFilter {
        key: "score".to_string(),
        value: PartitionValue::LessThanOrEqual("100".to_string()),
    };
    let predicate = filter_to_kernel_predicate(&filter, &schema).unwrap();
    let expected = Expression::column(["score"]).le(Scalar::Integer(100));
    assert_eq!(predicate, expected);

    // Test greater than
    let filter = PartitionFilter {
        key: "price".to_string(),
        value: PartitionValue::GreaterThan("50".to_string()),
    };
    let predicate = filter_to_kernel_predicate(&filter, &schema).unwrap();
    let expected = Expression::column(["price"]).gt(Scalar::Long(50));
    assert_eq!(predicate, expected);

    // Test greater than or equal
    let filter = PartitionFilter {
        key: "price".to_string(),
        value: PartitionValue::GreaterThanOrEqual("50".to_string()),
    };
    let predicate = filter_to_kernel_predicate(&filter, &schema).unwrap();
    let expected = Expression::column(["price"]).ge(Scalar::Long(50));
    assert_eq!(predicate, expected);
}

#[test]
fn test_filter_to_kernel_predicate_in_operations() {
    let schema = StructType::try_new(vec![StructField::new(
        "category",
        KernelDataType::Primitive(PrimitiveType::String),
        true,
    )])
    .unwrap();

    let column = Expression::column(["category"]);
    let categories = [
        Scalar::String("books".to_string()),
        Scalar::String("electronics".to_string()),
    ];

    // Test In operation
    let filter = PartitionFilter {
        key: "category".to_string(),
        value: PartitionValue::In(vec!["books".to_string(), "electronics".to_string()]),
    };
    let predicate = filter_to_kernel_predicate(&filter, &schema).unwrap();
    let expected_inner = categories
        .clone()
        .into_iter()
        .map(|s| column.clone().eq(s))
        .collect::<Vec<_>>();
    let expected = Predicate::junction(JunctionPredicateOp::Or, expected_inner);
    assert_eq!(predicate, expected);

    // Test NotIn operation
    let filter = PartitionFilter {
        key: "category".to_string(),
        value: PartitionValue::NotIn(vec!["books".to_string(), "electronics".to_string()]),
    };
    let predicate = filter_to_kernel_predicate(&filter, &schema).unwrap();
    let expected_inner = categories
        .into_iter()
        .map(|s| column.clone().ne(s))
        .collect::<Vec<_>>();
    let expected = Predicate::junction(JunctionPredicateOp::And, expected_inner);
    assert_eq!(predicate, expected);
}

#[test]
fn test_filter_to_kernel_predicate_empty_in_list() {
    let schema = StructType::try_new(vec![StructField::new(
        "tag",
        KernelDataType::Primitive(PrimitiveType::String),
        true,
    )])
    .unwrap();

    let filter = PartitionFilter {
        key: "tag".to_string(),
        value: PartitionValue::In(vec![]),
    };
    let result = filter_to_kernel_predicate(&filter, &schema);
    assert!(result.is_ok());
}

#[test]
fn test_filter_to_kernel_predicate_field_not_found() {
    let schema = StructType::try_new(vec![StructField::new(
        "existing_field",
        KernelDataType::Primitive(PrimitiveType::String),
        true,
    )])
    .unwrap();

    let filter = PartitionFilter {
        key: "nonexistent_field".to_string(),
        value: PartitionValue::Equal("value".to_string()),
    };

    let result = filter_to_kernel_predicate(&filter, &schema);
    assert!(result.is_err());
    assert!(matches!(
        result.unwrap_err(),
        DeltaTableError::SchemaMismatch { .. }
    ));
}

#[test]
fn test_filter_to_kernel_predicate_non_primitive_field() {
    let nested_struct = StructType::try_new(vec![StructField::new(
        "inner",
        KernelDataType::Primitive(PrimitiveType::String),
        true,
    )])
    .unwrap();
    let schema = StructType::try_new(vec![StructField::new(
        "nested",
        KernelDataType::Struct(Box::new(nested_struct)),
        true,
    )])
    .unwrap();

    let filter = PartitionFilter {
        key: "nested".to_string(),
        value: PartitionValue::Equal("value".to_string()),
    };

    let result = filter_to_kernel_predicate(&filter, &schema);
    assert!(result.is_err());
    assert!(matches!(
        result.unwrap_err(),
        DeltaTableError::SchemaMismatch { .. }
    ));
}

#[test]
fn test_filter_to_kernel_predicate_different_data_types() {
    let schema = StructType::try_new(vec![
        StructField::new(
            "bool_field",
            KernelDataType::Primitive(PrimitiveType::Boolean),
            true,
        ),
        StructField::new(
            "date_field",
            KernelDataType::Primitive(PrimitiveType::Date),
            true,
        ),
        StructField::new(
            "timestamp_field",
            KernelDataType::Primitive(PrimitiveType::Timestamp),
            true,
        ),
        StructField::new(
            "double_field",
            KernelDataType::Primitive(PrimitiveType::Double),
            true,
        ),
        StructField::new(
            "float_field",
            KernelDataType::Primitive(PrimitiveType::Float),
            true,
        ),
    ])
    .unwrap();

    // Test boolean field
    let filter = PartitionFilter {
        key: "bool_field".to_string(),
        value: PartitionValue::Equal("true".to_string()),
    };
    assert!(filter_to_kernel_predicate(&filter, &schema).is_ok());

    // Test date field
    let filter = PartitionFilter {
        key: "date_field".to_string(),
        value: PartitionValue::GreaterThan("2023-01-01".to_string()),
    };
    assert!(filter_to_kernel_predicate(&filter, &schema).is_ok());

    // Test float field
    let filter = PartitionFilter {
        key: "float_field".to_string(),
        value: PartitionValue::LessThan("3.14".to_string()),
    };
    assert!(filter_to_kernel_predicate(&filter, &schema).is_ok());
}

#[test]
fn test_filter_to_kernel_predicate_invalid_scalar_value() {
    let schema = StructType::try_new(vec![StructField::new(
        "number",
        KernelDataType::Primitive(PrimitiveType::Integer),
        true,
    )])
    .unwrap();

    let filter = PartitionFilter {
        key: "number".to_string(),
        value: PartitionValue::Equal("not_a_number".to_string()),
    };

    let result = filter_to_kernel_predicate(&filter, &schema);
    assert!(result.is_err());
}
