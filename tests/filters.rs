use wei_assistant::builder::{MAX_FILTERS, MAX_VALUE_CHARS, PREFIX_CHARS};
use wei_assistant::{ComparisonOp, FilterCriteria, FilterError, QueryBuilder, SupplierField, TypeClass};

const ALL_FIELDS: [SupplierField; 15] = [
    SupplierField::ContactPerson,
    SupplierField::Wechat,
    SupplierField::Phone,
    SupplierField::Quantity,
    SupplierField::Location,
    SupplierField::Price,
    SupplierField::BandwidthPrice,
    SupplierField::StoragePrice,
    SupplierField::MinContractPeriod,
    SupplierField::BreachPenalties,
    SupplierField::PaymentTerms,
    SupplierField::ServerName,
    SupplierField::ServerConfig,
    SupplierField::RentalModel,
    SupplierField::NetworkingCategory,
];

const ALL_OPS: [ComparisonOp; 9] = [
    ComparisonOp::Eq,
    ComparisonOp::Neq,
    ComparisonOp::Gt,
    ComparisonOp::Lt,
    ComparisonOp::Gte,
    ComparisonOp::Lte,
    ComparisonOp::Like,
    ComparisonOp::IsNull,
    ComparisonOp::IsNotNull,
];

fn criterion(field: &str, op: &str, value: Option<&str>) -> FilterCriteria {
    FilterCriteria::from_str_tuple(field, op, value).unwrap()
}

#[test]
fn test_filter_criteria_validation() {
    let criteria1 = FilterCriteria::from_str_tuple("contact", "eq", Some("张三"));
    assert!(criteria1.is_ok());

    let criteria2 = FilterCriteria::from_str_tuple("quantity", "gt", Some("5"));
    assert!(criteria2.is_ok());

    let criteria3 = FilterCriteria::from_str_tuple("unknown_field", "eq", Some("值"));
    assert!(criteria3.is_err());

    let criteria4 = FilterCriteria::from_str_tuple("contact", "invalid_op", Some("值"));
    assert!(criteria4.is_err());

    let criteria5 = FilterCriteria::from_str_tuple("quantity", "like", Some("非数字"));
    assert!(criteria5.is_err());
}

#[test]
fn test_query_builder() {
    let criteria1 = FilterCriteria::from_str_tuple("contact", "eq", Some("张三")).unwrap();
    let criteria2 = FilterCriteria::from_str_tuple("quantity", "gt", Some("5")).unwrap();

    let builder = QueryBuilder::new().filter(criteria1).filter(criteria2);

    assert!(builder.validate().is_ok());

    let (query, params) = builder.build().unwrap();
    // The fragment carries no leading keyword: the caller prefixes it.
    assert!(!query.contains("WHERE"));
    assert!(query.contains("contact = ?"));
    assert!(query.contains("quantity > ?"));
    assert!(query.contains("AND"));
    assert_eq!(params.len(), 2);
    assert_eq!(params[0], "张三");
    assert_eq!(params[1], "5");
}

#[test]
fn test_query_builder_validation() {
    let invalid_criteria = FilterCriteria {
        field: SupplierField::Quantity,
        op: ComparisonOp::Like,
        value: Some("10".to_string()),
    };

    let builder = QueryBuilder::new().filter(invalid_criteria);
    let validation_result = builder.validate();

    assert!(validation_result.is_err());
    let err_msg = validation_result.unwrap_err().message();
    assert!(err_msg.contains("Quantity") && err_msg.contains("Like"));
}

#[test]
fn every_field_name_resolves() {
    for f in ALL_FIELDS {
        let back = SupplierField::from_str(f.column_name()).unwrap();
        assert_eq!(back, f);
    }
    assert_eq!(SupplierField::from_str("bandwidth_price").unwrap(), SupplierField::BandwidthPrice);
    match SupplierField::from_str("Contact") {
        Err(FilterError::UnknownField { name }) => assert_eq!(name, "Contact"),
        other => panic!("unexpected {:?}", other),
    }
    assert!(SupplierField::from_str("").is_err());
}

#[test]
fn every_operator_alias_resolves_in_any_case() {
    let table: [(&str, ComparisonOp); 18] = [
        ("=", ComparisonOp::Eq),
        ("eq", ComparisonOp::Eq),
        ("!=", ComparisonOp::Neq),
        ("<>", ComparisonOp::Neq),
        ("neq", ComparisonOp::Neq),
        (">", ComparisonOp::Gt),
        ("gt", ComparisonOp::Gt),
        ("<", ComparisonOp::Lt),
        ("lt", ComparisonOp::Lt),
        (">=", ComparisonOp::Gte),
        ("gte", ComparisonOp::Gte),
        ("<=", ComparisonOp::Lte),
        ("lte", ComparisonOp::Lte),
        ("like", ComparisonOp::Like),
        ("is null", ComparisonOp::IsNull),
        ("isnull", ComparisonOp::IsNull),
        ("is not null", ComparisonOp::IsNotNull),
        ("isnotnull", ComparisonOp::IsNotNull),
    ];
    for (token, op) in table {
        assert_eq!(ComparisonOp::from_str(token).unwrap(), op);
        assert_eq!(ComparisonOp::from_str(&token.to_uppercase()).unwrap(), op);
        assert_eq!(ComparisonOp::from_lowercase_token(token), Some(op));
    }
    assert_eq!(ComparisonOp::from_str("Is Not Null").unwrap(), ComparisonOp::IsNotNull);
    assert_eq!(ComparisonOp::from_str("LiKe").unwrap(), ComparisonOp::Like);
    match ComparisonOp::from_str("==") {
        Err(FilterError::UnknownOperator { token }) => assert_eq!(token, "=="),
        other => panic!("unexpected {:?}", other),
    }
    assert!(ComparisonOp::from_str("is  null").is_err());
    assert!(ComparisonOp::from_str("").is_err());
    assert_eq!(ComparisonOp::from_lowercase_token("GT"), None);
}

#[test]
fn lowercasing_reaches_the_catalog() {
    // Only a lowered token matches the word aliases.
    assert_eq!(ComparisonOp::from_str("GTE").unwrap(), ComparisonOp::Gte);
    assert_eq!(ComparisonOp::from_str("NEQ").unwrap(), ComparisonOp::Neq);
}

#[test]
fn compatibility_matrix_holds_for_every_pair() {
    for f in ALL_FIELDS {
        for op in ALL_OPS {
            let expected = match op {
                ComparisonOp::Like => f.is_string(),
                ComparisonOp::Gt | ComparisonOp::Lt | ComparisonOp::Gte | ComparisonOp::Lte => {
                    f.is_numeric()
                }
                _ => true,
            };
            assert_eq!(op.applicable_to(f.type_class()), expected);
            let r = FilterCriteria::from_str_tuple(f.column_name(), op.sql(), Some("1"));
            if expected {
                let c = r.unwrap();
                assert_eq!(c.field, f);
                assert_eq!(c.op, op);
            } else {
                match r {
                    Err(FilterError::IncompatibleOperator { field, op: o }) => {
                        assert_eq!(field, f);
                        assert_eq!(o, op);
                    }
                    other => panic!("unexpected {:?}", other),
                }
            }
        }
    }
}

#[test]
fn type_classes_of_fields() {
    let numeric = [
        SupplierField::Quantity,
        SupplierField::Price,
        SupplierField::BandwidthPrice,
        SupplierField::StoragePrice,
    ];
    for f in ALL_FIELDS {
        let is_num = numeric.contains(&f);
        assert_eq!(f.is_numeric(), is_num);
        assert_eq!(f.is_string(), !is_num);
        assert_eq!(f.type_class(), if is_num { TypeClass::Numeric } else { TypeClass::Text });
    }
}

#[test]
fn compiling_the_same_set_twice_is_identical() {
    let make = || {
        QueryBuilder::new()
            .filter(criterion("price", "<=", Some("99.5")))
            .filter(criterion("location", "like", Some("%京%")))
            .filter(criterion("phone", "is not null", None))
    };
    let first = make().build().unwrap();
    let second = make().build().unwrap();
    assert_eq!(first, second);
}

#[test]
fn clauses_and_params_keep_push_order() {
    let (fragment, params) = QueryBuilder::new()
        .filter(criterion("storage_price", "gte", Some("3")))
        .filter(criterion("wechat", "isnull", Some("dropped")))
        .filter(criterion("contact", "neq", Some("Li")))
        .build()
        .unwrap();
    assert_eq!(fragment, "storage_price >= ? AND wechat IS NULL AND contact != ?");
    assert_eq!(params, vec!["3".to_string(), "Li".to_string()]);

    let (fragment, params) = QueryBuilder::new()
        .filter(criterion("contact", "neq", Some("Li")))
        .filter(criterion("wechat", "isnull", None))
        .filter(criterion("storage_price", "gte", Some("3")))
        .build()
        .unwrap();
    assert_eq!(fragment, "contact != ? AND wechat IS NULL AND storage_price >= ?");
    assert_eq!(params, vec!["Li".to_string(), "3".to_string()]);
}

fn twenty_distinct() -> QueryBuilder {
    let mut b = QueryBuilder::new();
    for f in ALL_FIELDS {
        b = b.filter(FilterCriteria { field: f, op: ComparisonOp::Eq, value: Some("x".to_string()) });
    }
    for f in &ALL_FIELDS[..5] {
        b = b.filter(FilterCriteria { field: *f, op: ComparisonOp::IsNotNull, value: None });
    }
    b
}

#[test]
fn twenty_criteria_validate_and_twenty_one_do_not() {
    let b = twenty_distinct();
    assert_eq!(b.len(), MAX_FILTERS);
    assert!(b.validate().is_ok());
    let (fragment, params) = b.build().unwrap();
    assert_eq!(fragment.matches(" AND ").count(), 19);
    assert_eq!(params.len(), 15);

    let b = twenty_distinct().filter(FilterCriteria {
        field: SupplierField::Price,
        op: ComparisonOp::Gt,
        value: Some("1".to_string()),
    });
    assert_eq!(b.len(), 21);
    match b.validate() {
        Err(FilterError::TooManyFilters { count }) => assert_eq!(count, 21),
        other => panic!("unexpected {:?}", other),
    }
    assert!(matches!(b.build(), Err(FilterError::ValidationError)));
}

#[test]
fn repeated_field_and_operator_is_a_duplicate() {
    let b = QueryBuilder::new()
        .filter(criterion("contact", "eq", Some("a")))
        .filter(criterion("contact", "eq", Some("b")));
    match b.validate() {
        Err(FilterError::DuplicateCondition { field, op }) => {
            assert_eq!(field, SupplierField::ContactPerson);
            assert_eq!(op, ComparisonOp::Eq);
        }
        other => panic!("unexpected {:?}", other),
    }

    let b = QueryBuilder::new()
        .filter(criterion("contact", "eq", Some("a")))
        .filter(criterion("contact", "neq", Some("b")));
    assert!(b.validate().is_ok());
    let (fragment, params) = b.build().unwrap();
    assert_eq!(fragment, "contact = ? AND contact != ?");
    assert_eq!(params, vec!["a".to_string(), "b".to_string()]);
}

#[test]
fn null_operators_drop_their_operand() {
    let c = FilterCriteria::from_str_tuple("quantity", "is null", Some("ignored")).unwrap();
    assert_eq!(c.field, SupplierField::Quantity);
    assert_eq!(c.op, ComparisonOp::IsNull);
    assert!(c.value.is_none());
    let c = FilterCriteria::from_str_tuple("phone", "ISNOTNULL", None).unwrap();
    assert!(c.value.is_none());
    let (fragment, params) = QueryBuilder::new().filter(c).build().unwrap();
    assert_eq!(fragment, "phone IS NOT NULL");
    assert!(params.is_empty());
}

#[test]
fn missing_operand_is_rejected() {
    match FilterCriteria::from_str_tuple("contact", "eq", None) {
        Err(FilterError::MissingOperand { field, op }) => {
            assert_eq!(field, SupplierField::ContactPerson);
            assert_eq!(op, ComparisonOp::Eq);
        }
        other => panic!("unexpected {:?}", other),
    }
    let b = QueryBuilder::new().filter(FilterCriteria {
        field: SupplierField::Price,
        op: ComparisonOp::Lt,
        value: None,
    });
    assert!(matches!(b.validate(), Err(FilterError::MissingOperand { .. })));
}

#[test]
fn empty_set_compiles_to_nothing() {
    let b = QueryBuilder::new();
    assert_eq!(b.len(), 0);
    assert!(b.validate().is_ok());
    let (fragment, params) = b.build().unwrap();
    assert_eq!(fragment, "");
    assert!(params.is_empty());
}

#[test]
fn end_to_end_two_conditions() {
    let b = QueryBuilder::new()
        .filter(criterion("contact", "eq", Some("Zhang")))
        .filter(criterion("quantity", "gt", Some("5")));
    assert!(b.validate().is_ok());
    let (fragment, params) = b.build().unwrap();
    assert_eq!(fragment, "contact = ? AND quantity > ?");
    assert_eq!(params, vec!["Zhang".to_string(), "5".to_string()]);
}

#[test]
fn end_to_end_like_on_quantity_is_incompatible() {
    let e = FilterCriteria::from_str_tuple("quantity", "like", Some("5")).unwrap_err();
    match &e {
        FilterError::IncompatibleOperator { field, op } => {
            assert_eq!(*field, SupplierField::Quantity);
            assert_eq!(*op, ComparisonOp::Like);
        }
        other => panic!("unexpected {:?}", other),
    }
    assert_eq!(e.message(), "field 'Quantity' does not support operator 'Like'");
}

#[test]
fn end_to_end_long_operand_shows_only_a_prefix() {
    let long: String = (0..300).map(|i| char::from(b'a' + (i % 26) as u8)).collect();
    let b = QueryBuilder::new().filter(criterion("location", "eq", Some(&long)));
    let e = b.validate().unwrap_err();
    let prefix: String = long.chars().take(32).collect();
    match &e {
        FilterError::ValueTooLong { field, op, prefix: p } => {
            assert_eq!(*field, SupplierField::Location);
            assert_eq!(*op, ComparisonOp::Eq);
            assert_eq!(p, &prefix);
        }
        other => panic!("unexpected {:?}", other),
    }
    let msg = e.message();
    assert!(msg.contains(&prefix));
    assert!(!msg.contains(&long[..33]));
    assert_eq!(msg, format!("value too long for field 'Location': {}...", prefix));
}

#[test]
fn operand_length_counts_characters() {
    let exact: String = "供".repeat(MAX_VALUE_CHARS);
    let b = QueryBuilder::new().filter(criterion("server_name", "eq", Some(&exact)));
    assert!(b.validate().is_ok());

    let over: String = "应".repeat(MAX_VALUE_CHARS + 1);
    let b = QueryBuilder::new().filter(criterion("server_name", "eq", Some(&over)));
    match b.validate() {
        Err(FilterError::ValueTooLong { prefix, .. }) => {
            assert_eq!(prefix.chars().count(), PREFIX_CHARS);
            assert_eq!(prefix, "应".repeat(PREFIX_CHARS));
        }
        other => panic!("unexpected {:?}", other),
    }
}

#[test]
fn first_violation_in_order_is_reported() {
    let long = "z".repeat(300);
    let b = QueryBuilder::new()
        .filter(FilterCriteria {
            field: SupplierField::Phone,
            op: ComparisonOp::Eq,
            value: Some(long),
        })
        .filter(FilterCriteria {
            field: SupplierField::Price,
            op: ComparisonOp::Like,
            value: Some("1".to_string()),
        });
    assert!(matches!(b.validate(), Err(FilterError::ValueTooLong { .. })));

    let b = QueryBuilder::new()
        .filter(criterion("price", "lt", Some("1")))
        .filter(criterion("price", "lt", Some("2")))
        .filter(FilterCriteria {
            field: SupplierField::Phone,
            op: ComparisonOp::Gt,
            value: Some("1".to_string()),
        });
    assert!(matches!(b.validate(), Err(FilterError::DuplicateCondition { .. })));
}

#[test]
fn error_messages_name_their_subject() {
    let unknown = FilterCriteria::from_str_tuple("colour", "eq", Some("x")).unwrap_err();
    assert_eq!(unknown.message(), "unknown field: colour");
    let unknown = FilterCriteria::from_str_tuple("price", "~", Some("x")).unwrap_err();
    assert_eq!(unknown.message(), "unknown operator: ~");
    let missing = FilterCriteria::from_str_tuple("price", "GT", None).unwrap_err();
    assert_eq!(missing.message(), "operator 'Gt' on field 'Price' needs a value");
    let dup = FilterError::DuplicateCondition {
        field: SupplierField::RentalModel,
        op: ComparisonOp::Neq,
    };
    assert_eq!(dup.message(), "duplicate condition: field 'RentalModel' with operator 'Neq'");
    assert_eq!(
        FilterError::TooManyFilters { count: 30 }.message(),
        "too many filter conditions: at most 20 are supported"
    );
    assert_eq!(
        FilterError::ValidationError.message(),
        "the filter set has not passed validation"
    );
}

#[test]
fn operator_spellings_and_arity() {
    let sql: Vec<&str> = ALL_OPS.iter().map(|o| o.sql()).collect();
    assert_eq!(sql, vec!["=", "!=", ">", "<", ">=", "<=", "LIKE", "IS NULL", "IS NOT NULL"]);
    let arity: Vec<bool> = ALL_OPS.iter().map(|o| o.requires_operand()).collect();
    assert_eq!(arity, vec![true, true, true, true, true, true, true, false, false]);
}
