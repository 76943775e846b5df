use documentdb_gateway::document::{
    convert_to_bool, ElementType, Entry, Field, FieldValue, Scalar,
};
use documentdb_gateway::error::{CommandError, ErrorCode};
use documentdb_gateway::processor::data_management::{
    convert_to_scale, process_aggregate, process_coll_stats, process_compact, process_count,
    process_current_op, process_db_stats, process_delete, process_distinct, process_find,
    process_find_and_modify, process_get_parameter, process_insert, process_kill_op,
    process_list_collections, process_list_databases, process_update, process_validate,
    BackendCall, CommandPlan, PostProcessing, RequestContext, Scale,
};

fn field(key: &str, value: FieldValue) -> Field {
    Field { key: key.to_string(), value }
}

fn text(value: &str) -> FieldValue {
    FieldValue::Scalar(Scalar::String(value.to_string()))
}

fn entry(key: &str, value: Scalar) -> Entry {
    Entry { key: key.to_string(), value }
}

/// An embedded document that was read to its end.
fn document(entries: Vec<Entry>) -> FieldValue {
    FieldValue::Document { entries, unread: None }
}

fn request(db: &str, fields: Vec<Field>) -> RequestContext {
    RequestContext {
        fields,
        unread: None,
        db: Ok(db.to_string()),
        collection: Ok("orders".to_string()),
        activity_id: "activity-1".to_string(),
    }
}

fn error(code: ErrorCode, message: &str) -> CommandError {
    CommandError { code, message: message.to_string() }
}

fn scale_as_number(scale: Scale) -> f64 {
    match scale {
        Scale::Double(bits) => f64::from_bits(bits),
        Scale::Integer(i) => i as f64,
    }
}

fn parameters(all: bool, show_details: bool, params: &[&str]) -> CommandPlan {
    CommandPlan {
        call: BackendCall::GetParameter {
            all,
            show_details,
            params: params.iter().map(|p| p.to_string()).collect(),
        },
        after: PostProcessing::Nothing,
    }
}

#[test]
fn scale_coercion() {
    let double = convert_to_scale(&FieldValue::Scalar(Scalar::Double(2.5f64.to_bits()))).unwrap();
    assert_eq!(scale_as_number(double), 2.5);
    let int32 = convert_to_scale(&FieldValue::Scalar(Scalar::Int32(4))).unwrap();
    assert_eq!(scale_as_number(int32), 4.0);
    let int64 = convert_to_scale(&FieldValue::Scalar(Scalar::Int64(9))).unwrap();
    assert_eq!(scale_as_number(int64), 9.0);
    let undefined = convert_to_scale(&FieldValue::Scalar(Scalar::Undefined)).unwrap();
    assert_eq!(scale_as_number(undefined), 1.0);
    let null = convert_to_scale(&FieldValue::Scalar(Scalar::Null)).unwrap();
    assert_eq!(scale_as_number(null), 1.0);
    assert_eq!(
        convert_to_scale(&text("big")),
        Err(error(ErrorCode::TypeMismatch, "Unexpected bson type for scale: String"))
    );
}

#[test]
fn scale_rejects_every_other_kind() {
    assert_eq!(
        convert_to_scale(&FieldValue::Scalar(Scalar::Boolean(true))),
        Err(error(ErrorCode::TypeMismatch, "Unexpected bson type for scale: Boolean"))
    );
    assert_eq!(
        convert_to_scale(&document(vec![])),
        Err(error(ErrorCode::TypeMismatch, "Unexpected bson type for scale: EmbeddedDocument"))
    );
    assert_eq!(
        convert_to_scale(&FieldValue::Scalar(Scalar::Other(ElementType::Decimal128))),
        Err(error(ErrorCode::TypeMismatch, "Unexpected bson type for scale: Decimal128"))
    );
    assert_eq!(
        convert_to_scale(&FieldValue::Scalar(Scalar::Int32(-3))),
        Ok(Scale::Integer(-3))
    );
    assert_eq!(
        convert_to_scale(&FieldValue::Scalar(Scalar::Int64(i64::MIN))),
        Ok(Scale::Integer(i64::MIN))
    );
}

#[test]
fn stats_apply_the_scale_rule_alike() {
    let no_scale = request("shop", vec![field("collStats", text("orders"))]);
    let one = Scale::Double(1.0f64.to_bits());
    assert_eq!(
        process_coll_stats(&no_scale),
        Ok(CommandPlan { call: BackendCall::CollStats { scale: one }, after: PostProcessing::Nothing })
    );
    assert_eq!(
        process_db_stats(&no_scale),
        Ok(CommandPlan { call: BackendCall::DbStats { scale: one }, after: PostProcessing::Nothing })
    );
    let scaled = request(
        "shop",
        vec![
            field("dbStats", FieldValue::Scalar(Scalar::Int32(1))),
            field("scale", FieldValue::Scalar(Scalar::Int32(1024))),
            field("scale", text("ignored")),
        ],
    );
    assert_eq!(
        process_coll_stats(&scaled).unwrap().call,
        BackendCall::CollStats { scale: Scale::Integer(1024) }
    );
    assert_eq!(
        process_db_stats(&scaled).unwrap().call,
        BackendCall::DbStats { scale: Scale::Integer(1024) }
    );
    let wrong = request("shop", vec![field("scale", text("1024"))]);
    let mismatch = error(ErrorCode::TypeMismatch, "Unexpected bson type for scale: String");
    assert_eq!(process_coll_stats(&wrong), Err(mismatch.clone()));
    assert_eq!(process_db_stats(&wrong), Err(mismatch));
}

#[test]
fn kill_op_against_admin_goes_to_the_backend() {
    let killing = request("admin", vec![field("killOp", FieldValue::Scalar(Scalar::Int32(1))), field("op", text("12:345"))]);
    assert_eq!(
        process_kill_op(&killing),
        Ok(CommandPlan {
            call: BackendCall::KillOp { operation_id: "12:345".to_string() },
            after: PostProcessing::Nothing,
        })
    );
    // The last `op` field is the one that counts.
    let twice = request("admin", vec![field("op", text("1:1")), field("op", text("2:2"))]);
    assert_eq!(
        process_kill_op(&twice).unwrap().call,
        BackendCall::KillOp { operation_id: "2:2".to_string() }
    );
}

#[test]
fn kill_op_against_another_database_is_unauthorized() {
    let killing = request("shop", vec![field("op", text("12:345"))]);
    assert_eq!(
        process_kill_op(&killing),
        Err(error(
            ErrorCode::Unauthorized,
            "killOp may only be run against the admin database."
        ))
    );
    let upper = request("Admin", vec![field("op", text("12:345"))]);
    assert_eq!(process_kill_op(&upper).unwrap_err().code, ErrorCode::Unauthorized);
}

#[test]
fn kill_op_needs_a_string_op() {
    let missing = request("admin", vec![field("killOp", FieldValue::Scalar(Scalar::Int32(1)))]);
    assert_eq!(
        process_kill_op(&missing),
        Err(error(ErrorCode::BadValue, "Did not provide \"op\" field"))
    );
    let number = request("admin", vec![field("op", FieldValue::Scalar(Scalar::Int64(7)))]);
    assert_eq!(
        process_kill_op(&number),
        Err(error(
            ErrorCode::TypeMismatch,
            "Expected \"op\" field to be a string, but got Int64"
        ))
    );
    let document = request("admin", vec![field("op", text("1:1")), field("op", document(vec![]))]);
    assert_eq!(
        process_kill_op(&document),
        Err(error(
            ErrorCode::TypeMismatch,
            "Expected \"op\" field to be a string, but got EmbeddedDocument"
        ))
    );
}

#[test]
fn kill_op_looks_at_the_database_before_the_fields() {
    let unauthorized =
        error(ErrorCode::Unauthorized, "killOp may only be run against the admin database.");
    let without_op = request("shop", vec![]);
    assert_eq!(process_kill_op(&without_op), Err(unauthorized.clone()));
    let wrong_op = request("shop", vec![field("op", FieldValue::Scalar(Scalar::Int64(7)))]);
    assert_eq!(process_kill_op(&wrong_op), Err(unauthorized.clone()));
    let mut broken = request("shop", vec![]);
    broken.unread = Some(error(ErrorCode::BadValue, "malformed value"));
    assert_eq!(process_kill_op(&broken), Err(unauthorized));
}

#[test]
fn kill_op_passes_on_the_error_of_reading_the_fields() {
    let malformed = error(ErrorCode::BadValue, "malformed value");
    let mut broken = request("admin", vec![field("op", text("1:1"))]);
    broken.unread = Some(malformed.clone());
    assert_eq!(process_kill_op(&broken), Err(malformed));
    // A field of the wrong kind that was read before comes first.
    let mut wrong = request("admin", vec![field("op", FieldValue::Scalar(Scalar::Null))]);
    wrong.unread = Some(error(ErrorCode::BadValue, "malformed value"));
    assert_eq!(
        process_kill_op(&wrong),
        Err(error(
            ErrorCode::TypeMismatch,
            "Expected \"op\" field to be a string, but got Null"
        ))
    );
}

#[test]
fn kill_op_passes_on_the_error_of_the_database() {
    let unresolved = RequestContext {
        fields: vec![field("op", text("1:1"))],
        unread: None,
        db: Err(error(ErrorCode::BadValue, "no database")),
        collection: Ok("c".to_string()),
        activity_id: "a".to_string(),
    };
    assert_eq!(process_kill_op(&unresolved), Err(error(ErrorCode::BadValue, "no database")));
    assert_eq!(
        process_get_parameter(&unresolved),
        Err(error(ErrorCode::BadValue, "no database"))
    );
}

#[test]
fn get_parameter_against_admin_goes_to_the_backend() {
    let star = request("admin", vec![field("getParameter", text("*")), field("featureX", text("1"))]);
    assert_eq!(process_get_parameter(&star), Ok(parameters(true, false, &[])));
    let named = request(
        "admin",
        vec![
            field("getParameter", FieldValue::Scalar(Scalar::Int32(1))),
            field("featureX", FieldValue::Scalar(Scalar::Int32(1))),
            field("$db", text("admin")),
        ],
    );
    assert_eq!(process_get_parameter(&named), Ok(parameters(false, false, &["featureX", "$db"])));
    let options = request(
        "admin",
        vec![
            field(
                "getParameter",
                document(vec![
                    entry("allParameters", Scalar::Boolean(true)),
                    entry("showDetails", Scalar::Int32(1)),
                    entry("unknownOption", Scalar::String("kept out".to_string())),
                ]),
            ),
            field("quiet", FieldValue::Scalar(Scalar::Boolean(true))),
        ],
    );
    assert_eq!(process_get_parameter(&options), Ok(parameters(true, true, &["quiet"])));
    let plain = request("admin", vec![field("getParameter", text("all"))]);
    assert_eq!(process_get_parameter(&plain), Ok(parameters(false, false, &[])));
}

#[test]
fn get_parameter_against_another_database_is_unauthorized() {
    let star = request("shop", vec![field("getParameter", text("*"))]);
    assert_eq!(
        process_get_parameter(&star),
        Err(error(
            ErrorCode::Unauthorized,
            "getParameter may only be run against the admin database."
        ))
    );
}

#[test]
fn get_parameter_options_must_be_truth_values() {
    let all = request(
        "admin",
        vec![field(
            "getParameter",
            document(vec![entry("allParameters", Scalar::String("yes".to_string()))]),
        )],
    );
    assert_eq!(
        process_get_parameter(&all),
        Err(error(ErrorCode::TypeMismatch, "allParameters should be a bool"))
    );
    let details = request(
        "admin",
        vec![field(
            "getParameter",
            document(vec![
                entry("allParameters", Scalar::Double(0.0f64.to_bits())),
                entry("showDetails", Scalar::Null),
                entry("allParameters", Scalar::Null),
            ]),
        )],
    );
    assert_eq!(
        process_get_parameter(&details),
        Err(error(ErrorCode::TypeMismatch, "showDetails should be convertible to a bool"))
    );
    // A later document overrides an earlier one, field by field.
    let twice = request(
        "admin",
        vec![
            field(
                "getParameter",
                document(vec![
                    entry("allParameters", Scalar::Boolean(true)),
                    entry("showDetails", Scalar::Boolean(true)),
                ]),
            ),
            field(
                "getParameter",
                document(vec![entry("allParameters", Scalar::Int64(0))]),
            ),
        ],
    );
    assert_eq!(process_get_parameter(&twice), Ok(parameters(false, true, &[])));
}

#[test]
fn get_parameter_looks_at_the_database_before_the_fields() {
    let unauthorized = error(
        ErrorCode::Unauthorized,
        "getParameter may only be run against the admin database.",
    );
    let wrong_option = request(
        "test",
        vec![field("getParameter", document(vec![entry("allParameters", Scalar::Null)]))],
    );
    assert_eq!(process_get_parameter(&wrong_option), Err(unauthorized.clone()));
    let mut broken = request("test", vec![field("getParameter", text("*"))]);
    broken.unread = Some(error(ErrorCode::BadValue, "malformed value"));
    assert_eq!(process_get_parameter(&broken), Err(unauthorized));
}

#[test]
fn get_parameter_passes_on_the_error_of_reading() {
    let malformed = error(ErrorCode::BadValue, "malformed value");
    let mut broken = request("admin", vec![field("getParameter", text("*"))]);
    broken.unread = Some(malformed.clone());
    assert_eq!(process_get_parameter(&broken), Err(malformed.clone()));
    // An options document that could not be read to its end.
    let options = |entries: Vec<Entry>| {
        request(
            "admin",
            vec![
                field(
                    "getParameter",
                    FieldValue::Document { entries, unread: Some(malformed.clone()) },
                ),
                field("later", FieldValue::Scalar(Scalar::Null)),
            ],
        )
    };
    assert_eq!(
        process_get_parameter(&options(vec![entry("showDetails", Scalar::Boolean(true))])),
        Err(malformed.clone())
    );
    // An entry of the wrong kind that was read before comes first.
    assert_eq!(
        process_get_parameter(&options(vec![entry("showDetails", Scalar::Null)])),
        Err(error(ErrorCode::TypeMismatch, "showDetails should be convertible to a bool"))
    );
    // Under another key the document is not looked into.
    let unrelated = request(
        "admin",
        vec![field(
            "filter",
            FieldValue::Document { entries: vec![], unread: Some(malformed.clone()) },
        )],
    );
    assert_eq!(process_get_parameter(&unrelated), Ok(parameters(false, false, &["filter"])));
}

#[test]
fn stats_pass_on_the_error_of_reading_before_a_scale_is_found() {
    let malformed = error(ErrorCode::BadValue, "malformed value");
    let mut without = request("shop", vec![field("dbStats", FieldValue::Scalar(Scalar::Int32(1)))]);
    without.unread = Some(malformed.clone());
    assert_eq!(process_db_stats(&without), Err(malformed.clone()));
    assert_eq!(process_coll_stats(&without), Err(malformed.clone()));
    // A scale that was read before the reading failed is used.
    let mut with = request("shop", vec![field("scale", FieldValue::Scalar(Scalar::Int32(2)))]);
    with.unread = Some(malformed);
    assert_eq!(
        process_db_stats(&with).unwrap().call,
        BackendCall::DbStats { scale: Scale::Integer(2) }
    );
}

#[test]
fn well_formed_values_are_held_by_the_variant_of_their_kind() {
    for kind in [
        ElementType::Double,
        ElementType::String,
        ElementType::Boolean,
        ElementType::Int32,
        ElementType::Int64,
        ElementType::Undefined,
        ElementType::Null,
    ] {
        assert!(!Scalar::Other(kind).is_well_formed(), "{kind:?}");
        assert!(!FieldValue::Scalar(Scalar::Other(kind)).is_well_formed(), "{kind:?}");
        assert!(!document(vec![entry("a", Scalar::Other(kind))]).is_well_formed(), "{kind:?}");
    }
    for kind in [ElementType::Array, ElementType::Decimal128, ElementType::MinKey] {
        assert!(Scalar::Other(kind).is_well_formed(), "{kind:?}");
        assert!(FieldValue::Scalar(Scalar::Other(kind)).is_well_formed(), "{kind:?}");
    }
    // A document within a document is known by its kind; a field that is a
    // document is held with its entries.
    assert!(Scalar::Other(ElementType::EmbeddedDocument).is_well_formed());
    assert!(document(vec![entry("a", Scalar::Other(ElementType::EmbeddedDocument))])
        .is_well_formed());
    assert!(!FieldValue::Scalar(Scalar::Other(ElementType::EmbeddedDocument)).is_well_formed());
    assert!(Scalar::Null.is_well_formed());
    assert!(text("x").is_well_formed());
    assert!(request("admin", vec![field("op", text("1:1"))]).is_well_formed());
    assert!(!request(
        "admin",
        vec![field("op", text("1:1")), field("x", FieldValue::Scalar(Scalar::Other(ElementType::Null)))]
    )
    .is_well_formed());
}

#[test]
fn truth_values() {
    assert_eq!(convert_to_bool(&Scalar::Boolean(false)), Some(false));
    assert_eq!(convert_to_bool(&Scalar::Boolean(true)), Some(true));
    assert_eq!(convert_to_bool(&Scalar::Int32(0)), Some(false));
    assert_eq!(convert_to_bool(&Scalar::Int32(-2)), Some(true));
    assert_eq!(convert_to_bool(&Scalar::Int64(0)), Some(false));
    assert_eq!(convert_to_bool(&Scalar::Int64(5)), Some(true));
    for x in [0.0f64, -0.0, 0.5, -3.0, f64::NAN, f64::INFINITY, 5e-324] {
        assert_eq!(convert_to_bool(&Scalar::Double(x.to_bits())), Some(x != 0.0), "{x}");
    }
    assert_eq!(convert_to_bool(&Scalar::String("true".to_string())), None);
    assert_eq!(convert_to_bool(&Scalar::Null), None);
    assert_eq!(convert_to_bool(&Scalar::Undefined), None);
    assert_eq!(convert_to_bool(&Scalar::Other(ElementType::Array)), None);
}

#[test]
fn count_needs_its_collection() {
    let counted = request("shop", vec![field("count", text("orders"))]);
    assert_eq!(
        process_count(&counted),
        Ok(CommandPlan { call: BackendCall::Count, after: PostProcessing::Nothing })
    );
    let unresolved = RequestContext {
        fields: vec![],
        unread: None,
        db: Ok("shop".to_string()),
        collection: Err(error(ErrorCode::BadValue, "collection is missing")),
        activity_id: "a".to_string(),
    };
    assert_eq!(
        process_count(&unresolved),
        Err(error(ErrorCode::BadValue, "collection is missing"))
    );
}

#[test]
fn dispatch_table() {
    let plan = |call, after| CommandPlan { call, after };
    assert_eq!(
        process_delete(true),
        plan(
            BackendCall::Delete { is_read_only_for_disk_full: true },
            PostProcessing::TransformWriteErrors
        )
    );
    assert_eq!(
        process_insert(true, false, true),
        plan(
            BackendCall::Insert {
                enable_write_procedures: true,
                enable_write_procedures_with_batch_commit: false,
                enable_backend_timeout: true,
            },
            PostProcessing::TransformWriteErrors
        )
    );
    assert_eq!(
        process_update(false, true, false),
        plan(
            BackendCall::Update {
                enable_write_procedures: false,
                enable_write_procedures_with_batch_commit: true,
                enable_backend_timeout: false,
            },
            PostProcessing::TransformWriteErrors
        )
    );
    assert_eq!(process_find(), plan(BackendCall::Find, PostProcessing::SaveCursor));
    assert_eq!(process_aggregate(), plan(BackendCall::Aggregate, PostProcessing::SaveCursor));
    assert_eq!(
        process_list_collections(),
        plan(BackendCall::ListCollections, PostProcessing::SaveCursor)
    );
    assert_eq!(process_list_databases(), plan(BackendCall::ListDatabases, PostProcessing::Nothing));
    assert_eq!(process_validate(), plan(BackendCall::Validate, PostProcessing::Nothing));
    assert_eq!(
        process_find_and_modify(),
        plan(BackendCall::FindAndModify, PostProcessing::Nothing)
    );
    assert_eq!(process_distinct(), plan(BackendCall::Distinct, PostProcessing::Nothing));
    assert_eq!(process_current_op(), plan(BackendCall::CurrentOp, PostProcessing::Nothing));
    assert_eq!(process_compact(), plan(BackendCall::Compact, PostProcessing::Nothing));
}

#[test]
fn element_type_names() {
    let names = [
        (ElementType::Double, "Double"),
        (ElementType::String, "String"),
        (ElementType::EmbeddedDocument, "EmbeddedDocument"),
        (ElementType::Array, "Array"),
        (ElementType::Binary, "Binary"),
        (ElementType::Undefined, "Undefined"),
        (ElementType::ObjectId, "ObjectId"),
        (ElementType::Boolean, "Boolean"),
        (ElementType::DateTime, "DateTime"),
        (ElementType::Null, "Null"),
        (ElementType::RegularExpression, "RegularExpression"),
        (ElementType::DbPointer, "DbPointer"),
        (ElementType::JavaScriptCode, "JavaScriptCode"),
        (ElementType::Symbol, "Symbol"),
        (ElementType::JavaScriptCodeWithScope, "JavaScriptCodeWithScope"),
        (ElementType::Int32, "Int32"),
        (ElementType::Timestamp, "Timestamp"),
        (ElementType::Int64, "Int64"),
        (ElementType::Decimal128, "Decimal128"),
        (ElementType::MaxKey, "MaxKey"),
        (ElementType::MinKey, "MinKey"),
    ];
    for (kind, name) in names {
        assert_eq!(kind.name(), name);
        assert_eq!(format!("{kind:?}"), name);
        assert_eq!(Scalar::Other(kind).element_type(), kind);
    }
    assert_eq!(text("x").element_type(), ElementType::String);
    assert_eq!(text("x").as_str(), Some("x"));
    assert_eq!(document(vec![]).as_str(), None);
}
