use model::metrics::{
    AggregateClassificationMetrics, ConfusionMatrix, Entry, MultiClassClassificationMetrics, Row,
};
use model::policy::{GetIamPolicyRequest, GetPolicyOptions};
use model::query_request::QueryRequest;
use model::reference::{
    ConnectionProperty, DatasetReference, QueryParameter, QueryParameterType, QueryParameterValue,
};
use model::wire::{find, numeric_text, FaultKind, Member, Wire};

fn s(x: &str) -> String {
    x.to_string()
}

fn entry(key: &str, value: Wire) -> Member {
    Member { key: s(key), value }
}

fn keys(w: &Wire) -> Vec<String> {
    match w {
        Wire::Obj(o) => o.iter().map(|m| m.key.clone()).collect(),
        _ => panic!("not an object"),
    }
}

fn full_request() -> QueryRequest {
    let mut r = QueryRequest::new("SELECT x FROM t WHERE y = @y");
    r.connection_properties = Some(vec![ConnectionProperty { key: Some(s("time_zone")), value: Some(s("UTC")) }]);
    r.default_dataset = Some(DatasetReference { dataset_id: s("ds"), project_id: Some(s("proj")) });
    r.dry_run = Some(true);
    r.kind = Some(s("bigquery#queryRequest"));
    r.labels = Some(vec![(s("team"), s("data")), (s("env"), s("prod"))]);
    r.location = Some(s("EU"));
    r.max_results = Some(1000);
    r.maximum_bytes_billed = Some(s("1000"));
    r.parameter_mode = Some(s("NAMED"));
    r.preserve_nulls = Some(false);
    r.query_parameters = Some(vec![QueryParameter {
        name: Some(s("y")),
        parameter_type: QueryParameterType { type_: s("INT64") },
        parameter_value: QueryParameterValue { value: Some(s("7")) },
    }]);
    r.request_id = Some(s("0b8f7c9e-1111-2222-3333-444455556666"));
    r.timeout_ms = Some(10000);
    r.use_query_cache = Some(true);
    r
}

#[test]
fn new_uses_standard_sql_and_leaves_the_rest_unset() {
    let r = QueryRequest::new("SELECT 1");
    assert_eq!(r.query, "SELECT 1");
    assert!(!r.use_legacy_sql);
    assert!(r.connection_properties.is_none());
    assert!(r.default_dataset.is_none());
    assert!(r.dry_run.is_none());
    assert!(r.kind.is_none());
    assert!(r.labels.is_none());
    assert!(r.location.is_none());
    assert!(r.max_results.is_none());
    assert!(r.maximum_bytes_billed.is_none());
    assert!(r.parameter_mode.is_none());
    assert!(r.preserve_nulls.is_none());
    assert!(r.query_parameters.is_none());
    assert!(r.request_id.is_none());
    assert!(r.timeout_ms.is_none());
    assert!(r.use_query_cache.is_none());
}

#[test]
fn new_request_encodes_only_required_keys() {
    let w = QueryRequest::new("SELECT 1").to_wire();
    assert_eq!(keys(&w), vec![s("query"), s("useLegacySql")]);
    assert_eq!(
        w,
        Wire::Obj(vec![entry("query", Wire::Str(s("SELECT 1"))), entry("useLegacySql", Wire::Bool(false))])
    );
}

#[test]
fn full_request_round_trips() {
    let r = full_request();
    let w = r.to_wire();
    assert_eq!(keys(&w).len(), 16);
    assert_eq!(QueryRequest::from_wire(&w), Ok(r));
}

#[test]
fn keys_are_lower_camel_case_in_declaration_order() {
    let w = full_request().to_wire();
    let expected = [
        "connectionProperties", "defaultDataset", "dryRun", "kind", "labels", "location", "maxResults",
        "maximumBytesBilled", "parameterMode", "preserveNulls", "query", "queryParameters", "requestId",
        "timeoutMs", "useLegacySql", "useQueryCache",
    ];
    assert_eq!(keys(&w), expected.iter().map(|k| s(k)).collect::<Vec<_>>());
}

#[test]
fn bytes_billed_stays_text() {
    let mut r = QueryRequest::new("SELECT 1");
    r.maximum_bytes_billed = Some(s("1000"));
    let w = r.to_wire();
    match &w {
        Wire::Obj(o) => assert_eq!(find(o, "maximumBytesBilled"), Some(&Wire::Str(s("1000")))),
        _ => panic!("not an object"),
    }
    let back = QueryRequest::from_wire(&w).unwrap();
    assert_eq!(back.maximum_bytes_billed, Some(s("1000")));
    assert_eq!(back.to_wire(), w);
}

#[test]
fn non_numeric_bytes_billed_is_a_format_error() {
    let w = Wire::Obj(vec![
        entry("query", Wire::Str(s("SELECT 1"))),
        entry("useLegacySql", Wire::Bool(false)),
        entry("maximumBytesBilled", Wire::Str(s("12a"))),
    ]);
    let e = QueryRequest::from_wire(&w).unwrap_err();
    assert_eq!(e.kind, FaultKind::Invalid);
    assert_eq!(e.entity, "QueryRequest");
    assert_eq!(e.field, "maximumBytesBilled");
    assert_eq!(e.message(), "QueryRequest.maximumBytesBilled: invalid value");
}

#[test]
fn numeric_text_accepts_signed_digits_only() {
    assert!(numeric_text("1000"));
    assert!(numeric_text("-5"));
    assert!(!numeric_text(""));
    assert!(!numeric_text("-"));
    assert!(!numeric_text("1.5"));
}

#[test]
fn empty_sequence_is_kept_apart_from_unset() {
    let mut r = QueryRequest::new("SELECT 1");
    r.connection_properties = Some(vec![]);
    let w = r.to_wire();
    match &w {
        Wire::Obj(o) => {
            assert_eq!(find(o, "connectionProperties"), Some(&Wire::Arr(vec![])));
            assert_eq!(find(o, "queryParameters"), None);
        },
        _ => panic!("not an object"),
    }
    let back = QueryRequest::from_wire(&w).unwrap();
    assert_eq!(back.connection_properties, Some(vec![]));
    assert_eq!(back.query_parameters, None);
}

#[test]
fn unknown_key_is_ignored_and_not_re_encoded() {
    let w = Wire::Obj(vec![
        entry("query", Wire::Str(s("SELECT 1"))),
        entry("futureOption", Wire::Num(3)),
        entry("useLegacySql", Wire::Bool(true)),
    ]);
    let r = QueryRequest::from_wire(&w).unwrap();
    assert_eq!(r.query, "SELECT 1");
    assert!(r.use_legacy_sql);
    assert_eq!(keys(&r.to_wire()), vec![s("query"), s("useLegacySql")]);
}

#[test]
fn missing_query_names_the_field() {
    let w = Wire::Obj(vec![entry("useLegacySql", Wire::Bool(false))]);
    let e = QueryRequest::from_wire(&w).unwrap_err();
    assert_eq!(e.kind, FaultKind::Missing);
    assert_eq!(e.entity, "QueryRequest");
    assert_eq!(e.field, "query");
}

#[test]
fn missing_dialect_flag_names_the_field() {
    let w = Wire::Obj(vec![entry("query", Wire::Str(s("SELECT 1")))]);
    let e = QueryRequest::from_wire(&w).unwrap_err();
    assert_eq!(e.kind, FaultKind::Missing);
    assert_eq!(e.field, "useLegacySql");
}

#[test]
fn wrong_type_is_a_format_error() {
    let w = Wire::Obj(vec![entry("query", Wire::Num(1)), entry("useLegacySql", Wire::Bool(false))]);
    let e = QueryRequest::from_wire(&w).unwrap_err();
    assert_eq!(e.kind, FaultKind::Invalid);
    assert_eq!(e.field, "query");
    let e = QueryRequest::from_wire(&Wire::Arr(vec![])).unwrap_err();
    assert_eq!(e.kind, FaultKind::Invalid);
    assert_eq!(e.field, "");
}

#[test]
fn out_of_range_page_size_is_a_format_error() {
    let w = Wire::Obj(vec![
        entry("query", Wire::Str(s("SELECT 1"))),
        entry("useLegacySql", Wire::Bool(false)),
        entry("maxResults", Wire::Num(1i64 << 40)),
    ]);
    assert_eq!(QueryRequest::from_wire(&w).unwrap_err().field, "maxResults");
}

#[test]
fn null_counts_as_unset() {
    let w = Wire::Obj(vec![
        entry("query", Wire::Str(s("SELECT 1"))),
        entry("useLegacySql", Wire::Bool(false)),
        entry("location", Wire::Null),
    ]);
    assert_eq!(QueryRequest::from_wire(&w).unwrap().location, None);
}

#[test]
fn duplicate_label_keys_are_a_format_error() {
    let labels = Wire::Obj(vec![entry("a", Wire::Str(s("1"))), entry("a", Wire::Str(s("2")))]);
    let w = Wire::Obj(vec![
        entry("query", Wire::Str(s("SELECT 1"))),
        entry("useLegacySql", Wire::Bool(false)),
        entry("labels", labels),
    ]);
    assert_eq!(QueryRequest::from_wire(&w).unwrap_err().field, "labels");
}

#[test]
fn later_duplicate_entry_wins() {
    let w = Wire::Obj(vec![
        entry("query", Wire::Str(s("SELECT 1"))),
        entry("query", Wire::Str(s("SELECT 2"))),
        entry("useLegacySql", Wire::Bool(false)),
    ]);
    assert_eq!(QueryRequest::from_wire(&w).unwrap().query, "SELECT 2");
}

#[test]
fn dataset_reference_requires_its_id() {
    let w = Wire::Obj(vec![entry("projectId", Wire::Str(s("p")))]);
    let e = DatasetReference::from_wire(&w).unwrap_err();
    assert_eq!(e.kind, FaultKind::Missing);
    assert_eq!(e.entity, "DatasetReference");
    assert_eq!(e.field, "datasetId");
}

#[test]
fn nested_fault_is_reported_at_the_outer_field() {
    let w = Wire::Obj(vec![
        entry("query", Wire::Str(s("SELECT 1"))),
        entry("useLegacySql", Wire::Bool(false)),
        entry("defaultDataset", Wire::Obj(vec![])),
    ]);
    let e = QueryRequest::from_wire(&w).unwrap_err();
    assert_eq!(e.kind, FaultKind::Invalid);
    assert_eq!(e.field, "defaultDataset");
}

#[test]
fn policy_request_round_trips() {
    let r = GetIamPolicyRequest { options: Some(GetPolicyOptions { requested_policy_version: Some(3) }) };
    let w = r.to_wire();
    assert_eq!(
        w,
        Wire::Obj(vec![entry(
            "options",
            Wire::Obj(vec![entry("requestedPolicyVersion", Wire::Num(3))])
        )])
    );
    assert_eq!(GetIamPolicyRequest::from_wire(&w), Ok(r));
    let empty = GetIamPolicyRequest { options: None };
    assert_eq!(empty.to_wire(), Wire::Obj(vec![]));
    assert_eq!(GetIamPolicyRequest::from_wire(&Wire::Obj(vec![])), Ok(empty));
}

#[test]
fn metrics_round_trip() {
    let m = MultiClassClassificationMetrics {
        aggregate_classification_metrics: Some(AggregateClassificationMetrics {}),
        confusion_matrix_list: Some(vec![ConfusionMatrix {
            rows: Some(vec![
                Row {
                    actual_label: Some(s("cat")),
                    entries: Some(vec![
                        Entry { item_count: Some(s("12")), predicted_label: Some(s("cat")) },
                        Entry { item_count: Some(s("3")), predicted_label: Some(s("dog")) },
                    ]),
                },
                Row { actual_label: None, entries: Some(vec![]) },
            ]),
        }]),
    };
    let w = m.to_wire();
    assert_eq!(keys(&w), vec![s("aggregateClassificationMetrics"), s("confusionMatrixList")]);
    assert_eq!(MultiClassClassificationMetrics::from_wire(&w), Ok(m));
}

#[test]
fn row_with_bad_entry_is_a_format_error() {
    let w = Wire::Obj(vec![entry(
        "entries",
        Wire::Arr(vec![Wire::Obj(vec![entry("itemCount", Wire::Str(s("many")))])]),
    )]);
    let e = Row::from_wire(&w).unwrap_err();
    assert_eq!(e.entity, "Row");
    assert_eq!(e.field, "entries");
}

#[test]
fn unset_row_fields_are_omitted() {
    let r = Row { actual_label: None, entries: None };
    assert_eq!(r.to_wire(), Wire::Obj(vec![]));
}
