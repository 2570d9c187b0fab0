//! The request that submits a query.
use vstd::prelude::*;
use crate::wire::{Wire, WireV, Member, FaultKind, FormatError, FormatErrorV, fault, make_fault, result_view, lookup, find, obj_view, lemma_obj_view, snoc_opt, lemma_lookup_push, optional, required, str_of, bool_of, i32_of, is_numeric_text, numeric_text_of, keys_unique, text_map_of, text_map_wire, text_map_view, put, str_from, bool_from, i32_from, numeric_text_from, text_map_to_wire, text_map_from};
use crate::reference::{ConnectionProperty, ConnectionPropertyV, DatasetReference, DatasetReferenceV, QueryParameter, QueryParameterV, connection_property_seq_view, connection_property_seq_wire, connection_property_seq_from, connection_property_seq_wf, connection_property_seq_to_wire, connection_property_seq_from_wire, dataset_reference_wire, dataset_reference_from, dataset_reference_wf, query_parameter_seq_view, query_parameter_seq_wire, query_parameter_seq_from, query_parameter_seq_wf, query_parameter_seq_to_wire, query_parameter_seq_from_wire};

verus! {

/// The request body that submits a query.
#[derive(Debug, PartialEq)]
pub struct QueryRequest {
    /// Connection properties.
    pub connection_properties: Option<Vec<ConnectionProperty>>,
    /// The dataset that unqualified table names in the query refer to.
    pub default_dataset: Option<DatasetReference>,
    /// If set to true, the query is not run: only its statistics are returned.
    pub dry_run: Option<bool>,
    /// The resource type of the request.
    pub kind: Option<String>,
    /// The labels associated with this job, keys distinct.
    pub labels: Option<Vec<(String, String)>>,
    /// The geographic location where the job should run.
    pub location: Option<String>,
    /// The maximum number of rows of data to return per page of results.
    pub max_results: Option<i32>,
    /// Limits the bytes billed for this job; decimal text of an integer.
    pub maximum_bytes_billed: Option<String>,
    /// `POSITIONAL` for positional (?) query parameters, `NAMED` for named (@myparam) ones.
    pub parameter_mode: Option<String>,
    /// Deprecated.
    pub preserve_nulls: Option<bool>,
    /// The query text.
    pub query: String,
    /// Query parameters for standard SQL queries.
    pub query_parameters: Option<Vec<QueryParameter>>,
    /// A unique identifier, provided by the user, that makes the request idempotent.
    pub request_id: Option<String>,
    /// How long to wait for the query to complete, in milliseconds.
    pub timeout_ms: Option<i32>,
    /// Whether to use the legacy SQL dialect; false selects standard SQL.
    pub use_legacy_sql: bool,
    /// Whether to look for the result in the query cache.
    pub use_query_cache: Option<bool>,
}

pub struct QueryRequestV {
    pub connection_properties: Option<Seq<ConnectionPropertyV>>,
    pub default_dataset: Option<DatasetReferenceV>,
    pub dry_run: Option<bool>,
    pub kind: Option<Seq<char>>,
    pub labels: Option<Seq<(Seq<char>, Seq<char>)>>,
    pub location: Option<Seq<char>>,
    pub max_results: Option<i32>,
    pub maximum_bytes_billed: Option<Seq<char>>,
    pub parameter_mode: Option<Seq<char>>,
    pub preserve_nulls: Option<bool>,
    pub query: Seq<char>,
    pub query_parameters: Option<Seq<QueryParameterV>>,
    pub request_id: Option<Seq<char>>,
    pub timeout_ms: Option<i32>,
    pub use_legacy_sql: bool,
    pub use_query_cache: Option<bool>,
}

impl View for QueryRequest {
    type V = QueryRequestV;

    open spec fn view(&self) -> QueryRequestV {
        QueryRequestV {
            connection_properties: match self.connection_properties {
                Some(x) => Some(connection_property_seq_view(x@)),
                None => None,
            },
            default_dataset: match self.default_dataset {
                Some(x) => Some(x@),
                None => None,
            },
            dry_run: match self.dry_run {
                Some(x) => Some(x),
                None => None,
            },
            kind: match self.kind {
                Some(x) => Some(x@),
                None => None,
            },
            labels: match self.labels {
                Some(x) => Some(text_map_view(x@)),
                None => None,
            },
            location: match self.location {
                Some(x) => Some(x@),
                None => None,
            },
            max_results: match self.max_results {
                Some(x) => Some(x),
                None => None,
            },
            maximum_bytes_billed: match self.maximum_bytes_billed {
                Some(x) => Some(x@),
                None => None,
            },
            parameter_mode: match self.parameter_mode {
                Some(x) => Some(x@),
                None => None,
            },
            preserve_nulls: match self.preserve_nulls {
                Some(x) => Some(x),
                None => None,
            },
            query: self.query@,
            query_parameters: match self.query_parameters {
                Some(x) => Some(query_parameter_seq_view(x@)),
                None => None,
            },
            request_id: match self.request_id {
                Some(x) => Some(x@),
                None => None,
            },
            timeout_ms: match self.timeout_ms {
                Some(x) => Some(x),
                None => None,
            },
            use_legacy_sql: self.use_legacy_sql,
            use_query_cache: match self.use_query_cache {
                Some(x) => Some(x),
                None => None,
            },
        }
    }
}

/// Whether `v` is a valid value: what decoding can produce.
pub open spec fn query_request_wf(v: QueryRequestV) -> bool {
    &&& match v.connection_properties {
        Some(x) => connection_property_seq_wf(x),
        None => true,
    }
    &&& match v.default_dataset {
        Some(x) => dataset_reference_wf(x),
        None => true,
    }
    &&& match v.labels {
        Some(x) => keys_unique(x),
        None => true,
    }
    &&& match v.maximum_bytes_billed {
        Some(x) => is_numeric_text(x),
        None => true,
    }
    &&& match v.query_parameters {
        Some(x) => query_parameter_seq_wf(x),
        None => true,
    }
}

/// The wire keys of the fields, in declaration order.
pub open spec fn query_request_keys() -> Seq<Seq<char>> {
    seq!["connectionProperties"@, "defaultDataset"@, "dryRun"@, "kind"@, "labels"@, "location"@, "maxResults"@, "maximumBytesBilled"@, "parameterMode"@, "preserveNulls"@, "query"@, "queryParameters"@, "requestId"@, "timeoutMs"@, "useLegacySql"@, "useQueryCache"@]
}

/// The wire form: an object holding each set field under its key, in declaration order.
pub open spec fn query_request_wire(v: QueryRequestV) -> WireV {
    WireV::Obj(snoc_opt(
        snoc_opt(
            snoc_opt(
                snoc_opt(
                    snoc_opt(
                        snoc_opt(
                            snoc_opt(
                                snoc_opt(
                                    snoc_opt(
                                        snoc_opt(
                                            snoc_opt(
                                                snoc_opt(
                                                    snoc_opt(
                                                        snoc_opt(
                                                            Seq::empty(),
                                                            "connectionProperties"@,
                                                            match v.connection_properties {
                                                                Some(x) => Some(connection_property_seq_wire(x)),
                                                                None => None,
                                                            },
                                                        ),
                                                        "defaultDataset"@,
                                                        match v.default_dataset {
                                                            Some(x) => Some(dataset_reference_wire(x)),
                                                            None => None,
                                                        },
                                                    ),
                                                    "dryRun"@,
                                                    match v.dry_run {
                                                        Some(x) => Some(WireV::Bool(x)),
                                                        None => None,
                                                    },
                                                ),
                                                "kind"@,
                                                match v.kind {
                                                    Some(x) => Some(WireV::Str(x)),
                                                    None => None,
                                                },
                                            ),
                                            "labels"@,
                                            match v.labels {
                                                Some(x) => Some(text_map_wire(x)),
                                                None => None,
                                            },
                                        ),
                                        "location"@,
                                        match v.location {
                                            Some(x) => Some(WireV::Str(x)),
                                            None => None,
                                        },
                                    ),
                                    "maxResults"@,
                                    match v.max_results {
                                        Some(x) => Some(WireV::Num(x as int)),
                                        None => None,
                                    },
                                ),
                                "maximumBytesBilled"@,
                                match v.maximum_bytes_billed {
                                    Some(x) => Some(WireV::Str(x)),
                                    None => None,
                                },
                            ),
                            "parameterMode"@,
                            match v.parameter_mode {
                                Some(x) => Some(WireV::Str(x)),
                                None => None,
                            },
                        ),
                        "preserveNulls"@,
                        match v.preserve_nulls {
                            Some(x) => Some(WireV::Bool(x)),
                            None => None,
                        },
                    ).push(("query"@, WireV::Str(v.query))),
                    "queryParameters"@,
                    match v.query_parameters {
                        Some(x) => Some(query_parameter_seq_wire(x)),
                        None => None,
                    },
                ),
                "requestId"@,
                match v.request_id {
                    Some(x) => Some(WireV::Str(x)),
                    None => None,
                },
            ),
            "timeoutMs"@,
            match v.timeout_ms {
                Some(x) => Some(WireV::Num(x as int)),
                None => None,
            },
        ).push(("useLegacySql"@, WireV::Bool(v.use_legacy_sql))),
        "useQueryCache"@,
        match v.use_query_cache {
            Some(x) => Some(WireV::Bool(x)),
            None => None,
        },
    ))
}

/// The field `connection_properties` as decoded from the entries `o`.
pub open spec fn query_request_field_connection_properties(o: Seq<(Seq<char>, WireV)>) -> Result<Option<Seq<ConnectionPropertyV>>, FaultKind> {
    optional(lookup(o, "connectionProperties"@), |x: WireV| connection_property_seq_from(x))
}

/// The field `default_dataset` as decoded from the entries `o`.
pub open spec fn query_request_field_default_dataset(o: Seq<(Seq<char>, WireV)>) -> Result<Option<DatasetReferenceV>, FaultKind> {
    optional(lookup(o, "defaultDataset"@), |x: WireV| dataset_reference_from(x))
}

/// The field `dry_run` as decoded from the entries `o`.
pub open spec fn query_request_field_dry_run(o: Seq<(Seq<char>, WireV)>) -> Result<Option<bool>, FaultKind> {
    optional(lookup(o, "dryRun"@), |x: WireV| bool_of(x))
}

/// The field `kind` as decoded from the entries `o`.
pub open spec fn query_request_field_kind(o: Seq<(Seq<char>, WireV)>) -> Result<Option<Seq<char>>, FaultKind> {
    optional(lookup(o, "kind"@), |x: WireV| str_of(x))
}

/// The field `labels` as decoded from the entries `o`.
pub open spec fn query_request_field_labels(o: Seq<(Seq<char>, WireV)>) -> Result<Option<Seq<(Seq<char>, Seq<char>)>>, FaultKind> {
    optional(lookup(o, "labels"@), |x: WireV| text_map_of(x))
}

/// The field `location` as decoded from the entries `o`.
pub open spec fn query_request_field_location(o: Seq<(Seq<char>, WireV)>) -> Result<Option<Seq<char>>, FaultKind> {
    optional(lookup(o, "location"@), |x: WireV| str_of(x))
}

/// The field `max_results` as decoded from the entries `o`.
pub open spec fn query_request_field_max_results(o: Seq<(Seq<char>, WireV)>) -> Result<Option<i32>, FaultKind> {
    optional(lookup(o, "maxResults"@), |x: WireV| i32_of(x))
}

/// The field `maximum_bytes_billed` as decoded from the entries `o`.
pub open spec fn query_request_field_maximum_bytes_billed(o: Seq<(Seq<char>, WireV)>) -> Result<Option<Seq<char>>, FaultKind> {
    optional(lookup(o, "maximumBytesBilled"@), |x: WireV| numeric_text_of(x))
}

/// The field `parameter_mode` as decoded from the entries `o`.
pub open spec fn query_request_field_parameter_mode(o: Seq<(Seq<char>, WireV)>) -> Result<Option<Seq<char>>, FaultKind> {
    optional(lookup(o, "parameterMode"@), |x: WireV| str_of(x))
}

/// The field `preserve_nulls` as decoded from the entries `o`.
pub open spec fn query_request_field_preserve_nulls(o: Seq<(Seq<char>, WireV)>) -> Result<Option<bool>, FaultKind> {
    optional(lookup(o, "preserveNulls"@), |x: WireV| bool_of(x))
}

/// The field `query` as decoded from the entries `o`.
pub open spec fn query_request_field_query(o: Seq<(Seq<char>, WireV)>) -> Result<Seq<char>, FaultKind> {
    required(lookup(o, "query"@), |x: WireV| str_of(x))
}

/// The field `query_parameters` as decoded from the entries `o`.
pub open spec fn query_request_field_query_parameters(o: Seq<(Seq<char>, WireV)>) -> Result<Option<Seq<QueryParameterV>>, FaultKind> {
    optional(lookup(o, "queryParameters"@), |x: WireV| query_parameter_seq_from(x))
}

/// The field `request_id` as decoded from the entries `o`.
pub open spec fn query_request_field_request_id(o: Seq<(Seq<char>, WireV)>) -> Result<Option<Seq<char>>, FaultKind> {
    optional(lookup(o, "requestId"@), |x: WireV| str_of(x))
}

/// The field `timeout_ms` as decoded from the entries `o`.
pub open spec fn query_request_field_timeout_ms(o: Seq<(Seq<char>, WireV)>) -> Result<Option<i32>, FaultKind> {
    optional(lookup(o, "timeoutMs"@), |x: WireV| i32_of(x))
}

/// The field `use_legacy_sql` as decoded from the entries `o`.
pub open spec fn query_request_field_use_legacy_sql(o: Seq<(Seq<char>, WireV)>) -> Result<bool, FaultKind> {
    required(lookup(o, "useLegacySql"@), |x: WireV| bool_of(x))
}

/// The field `use_query_cache` as decoded from the entries `o`.
pub open spec fn query_request_field_use_query_cache(o: Seq<(Seq<char>, WireV)>) -> Result<Option<bool>, FaultKind> {
    optional(lookup(o, "useQueryCache"@), |x: WireV| bool_of(x))
}

/// Decoding: each field looked up by its key; the first field at fault, in
/// declaration order, gives the error; keys of no field are ignored.
pub open spec fn query_request_of(w: WireV) -> Result<QueryRequestV, FormatErrorV> {
    match w {
        WireV::Obj(o) => {
            let connection_properties = query_request_field_connection_properties(o);
            let default_dataset = query_request_field_default_dataset(o);
            let dry_run = query_request_field_dry_run(o);
            let kind = query_request_field_kind(o);
            let labels = query_request_field_labels(o);
            let location = query_request_field_location(o);
            let max_results = query_request_field_max_results(o);
            let maximum_bytes_billed = query_request_field_maximum_bytes_billed(o);
            let parameter_mode = query_request_field_parameter_mode(o);
            let preserve_nulls = query_request_field_preserve_nulls(o);
            let query = query_request_field_query(o);
            let query_parameters = query_request_field_query_parameters(o);
            let request_id = query_request_field_request_id(o);
            let timeout_ms = query_request_field_timeout_ms(o);
            let use_legacy_sql = query_request_field_use_legacy_sql(o);
            let use_query_cache = query_request_field_use_query_cache(o);
            if connection_properties is Err {
                Err(fault(connection_properties->Err_0, "QueryRequest"@, "connectionProperties"@))
            }
            else if default_dataset is Err {
                Err(fault(default_dataset->Err_0, "QueryRequest"@, "defaultDataset"@))
            }
            else if dry_run is Err {
                Err(fault(dry_run->Err_0, "QueryRequest"@, "dryRun"@))
            }
            else if kind is Err {
                Err(fault(kind->Err_0, "QueryRequest"@, "kind"@))
            }
            else if labels is Err {
                Err(fault(labels->Err_0, "QueryRequest"@, "labels"@))
            }
            else if location is Err {
                Err(fault(location->Err_0, "QueryRequest"@, "location"@))
            }
            else if max_results is Err {
                Err(fault(max_results->Err_0, "QueryRequest"@, "maxResults"@))
            }
            else if maximum_bytes_billed is Err {
                Err(fault(maximum_bytes_billed->Err_0, "QueryRequest"@, "maximumBytesBilled"@))
            }
            else if parameter_mode is Err {
                Err(fault(parameter_mode->Err_0, "QueryRequest"@, "parameterMode"@))
            }
            else if preserve_nulls is Err {
                Err(fault(preserve_nulls->Err_0, "QueryRequest"@, "preserveNulls"@))
            }
            else if query is Err {
                Err(fault(query->Err_0, "QueryRequest"@, "query"@))
            }
            else if query_parameters is Err {
                Err(fault(query_parameters->Err_0, "QueryRequest"@, "queryParameters"@))
            }
            else if request_id is Err {
                Err(fault(request_id->Err_0, "QueryRequest"@, "requestId"@))
            }
            else if timeout_ms is Err {
                Err(fault(timeout_ms->Err_0, "QueryRequest"@, "timeoutMs"@))
            }
            else if use_legacy_sql is Err {
                Err(fault(use_legacy_sql->Err_0, "QueryRequest"@, "useLegacySql"@))
            }
            else if use_query_cache is Err {
                Err(fault(use_query_cache->Err_0, "QueryRequest"@, "useQueryCache"@))
            } else {
                Ok(QueryRequestV {
                    connection_properties: connection_properties->Ok_0,
                    default_dataset: default_dataset->Ok_0,
                    dry_run: dry_run->Ok_0,
                    kind: kind->Ok_0,
                    labels: labels->Ok_0,
                    location: location->Ok_0,
                    max_results: max_results->Ok_0,
                    maximum_bytes_billed: maximum_bytes_billed->Ok_0,
                    parameter_mode: parameter_mode->Ok_0,
                    preserve_nulls: preserve_nulls->Ok_0,
                    query: query->Ok_0,
                    query_parameters: query_parameters->Ok_0,
                    request_id: request_id->Ok_0,
                    timeout_ms: timeout_ms->Ok_0,
                    use_legacy_sql: use_legacy_sql->Ok_0,
                    use_query_cache: use_query_cache->Ok_0,
                })
            }
        },
        _ => Err(fault(FaultKind::Invalid, "QueryRequest"@, ""@)),
    }
}

/// The decoded value, where decoding succeeds.
pub open spec fn query_request_from(w: WireV) -> Option<QueryRequestV> {
    match query_request_of(w) {
        Ok(v) => Some(v),
        Err(_) => None,
    }
}

fn query_request_decode_connection_properties(o: &Vec<Member>) -> (r: Result<Option<Vec<ConnectionProperty>>, FaultKind>)
    ensures
        match r {
            Ok(x) => query_request_field_connection_properties(obj_view(o)) == Ok::<_, FaultKind>(match x {
                Some(y) => Some(connection_property_seq_view(y@)),
                None => None,
            }),
            Err(k) => query_request_field_connection_properties(obj_view(o)) == Err::<Option<Seq<ConnectionPropertyV>>, FaultKind>(k),
        },
{
    match find(o, "connectionProperties") {
        None => Ok(None),
        Some(Wire::Null) => Ok(None),
        Some(x) => match connection_property_seq_from_wire(x) {
            Some(v) => Ok(Some(v)),
            None => Err(FaultKind::Invalid),
        },
    }
}

fn query_request_decode_default_dataset(o: &Vec<Member>) -> (r: Result<Option<DatasetReference>, FaultKind>)
    ensures
        match r {
            Ok(x) => query_request_field_default_dataset(obj_view(o)) == Ok::<_, FaultKind>(match x {
                Some(y) => Some(y@),
                None => None,
            }),
            Err(k) => query_request_field_default_dataset(obj_view(o)) == Err::<Option<DatasetReferenceV>, FaultKind>(k),
        },
{
    match find(o, "defaultDataset") {
        None => Ok(None),
        Some(Wire::Null) => Ok(None),
        Some(x) => match match DatasetReference::from_wire(x) {
                        Ok(v) => Some(v),
                        Err(_) => None,
                    } {
            Some(v) => Ok(Some(v)),
            None => Err(FaultKind::Invalid),
        },
    }
}

fn query_request_decode_dry_run(o: &Vec<Member>) -> (r: Result<Option<bool>, FaultKind>)
    ensures
        match r {
            Ok(x) => query_request_field_dry_run(obj_view(o)) == Ok::<_, FaultKind>(match x {
                Some(y) => Some(y),
                None => None,
            }),
            Err(k) => query_request_field_dry_run(obj_view(o)) == Err::<Option<bool>, FaultKind>(k),
        },
{
    match find(o, "dryRun") {
        None => Ok(None),
        Some(Wire::Null) => Ok(None),
        Some(x) => match bool_from(x) {
            Some(v) => Ok(Some(v)),
            None => Err(FaultKind::Invalid),
        },
    }
}

fn query_request_decode_kind(o: &Vec<Member>) -> (r: Result<Option<String>, FaultKind>)
    ensures
        match r {
            Ok(x) => query_request_field_kind(obj_view(o)) == Ok::<_, FaultKind>(match x {
                Some(y) => Some(y@),
                None => None,
            }),
            Err(k) => query_request_field_kind(obj_view(o)) == Err::<Option<Seq<char>>, FaultKind>(k),
        },
{
    match find(o, "kind") {
        None => Ok(None),
        Some(Wire::Null) => Ok(None),
        Some(x) => match str_from(x) {
            Some(v) => Ok(Some(v)),
            None => Err(FaultKind::Invalid),
        },
    }
}

fn query_request_decode_labels(o: &Vec<Member>) -> (r: Result<Option<Vec<(String, String)>>, FaultKind>)
    ensures
        match r {
            Ok(x) => query_request_field_labels(obj_view(o)) == Ok::<_, FaultKind>(match x {
                Some(y) => Some(text_map_view(y@)),
                None => None,
            }),
            Err(k) => query_request_field_labels(obj_view(o)) == Err::<Option<Seq<(Seq<char>, Seq<char>)>>, FaultKind>(k),
        },
{
    match find(o, "labels") {
        None => Ok(None),
        Some(Wire::Null) => Ok(None),
        Some(x) => match text_map_from(x) {
            Some(v) => Ok(Some(v)),
            None => Err(FaultKind::Invalid),
        },
    }
}

fn query_request_decode_location(o: &Vec<Member>) -> (r: Result<Option<String>, FaultKind>)
    ensures
        match r {
            Ok(x) => query_request_field_location(obj_view(o)) == Ok::<_, FaultKind>(match x {
                Some(y) => Some(y@),
                None => None,
            }),
            Err(k) => query_request_field_location(obj_view(o)) == Err::<Option<Seq<char>>, FaultKind>(k),
        },
{
    match find(o, "location") {
        None => Ok(None),
        Some(Wire::Null) => Ok(None),
        Some(x) => match str_from(x) {
            Some(v) => Ok(Some(v)),
            None => Err(FaultKind::Invalid),
        },
    }
}

fn query_request_decode_max_results(o: &Vec<Member>) -> (r: Result<Option<i32>, FaultKind>)
    ensures
        match r {
            Ok(x) => query_request_field_max_results(obj_view(o)) == Ok::<_, FaultKind>(match x {
                Some(y) => Some(y),
                None => None,
            }),
            Err(k) => query_request_field_max_results(obj_view(o)) == Err::<Option<i32>, FaultKind>(k),
        },
{
    match find(o, "maxResults") {
        None => Ok(None),
        Some(Wire::Null) => Ok(None),
        Some(x) => match i32_from(x) {
            Some(v) => Ok(Some(v)),
            None => Err(FaultKind::Invalid),
        },
    }
}

fn query_request_decode_maximum_bytes_billed(o: &Vec<Member>) -> (r: Result<Option<String>, FaultKind>)
    ensures
        match r {
            Ok(x) => query_request_field_maximum_bytes_billed(obj_view(o)) == Ok::<_, FaultKind>(match x {
                Some(y) => Some(y@),
                None => None,
            }),
            Err(k) => query_request_field_maximum_bytes_billed(obj_view(o)) == Err::<Option<Seq<char>>, FaultKind>(k),
        },
{
    match find(o, "maximumBytesBilled") {
        None => Ok(None),
        Some(Wire::Null) => Ok(None),
        Some(x) => match numeric_text_from(x) {
            Some(v) => Ok(Some(v)),
            None => Err(FaultKind::Invalid),
        },
    }
}

fn query_request_decode_parameter_mode(o: &Vec<Member>) -> (r: Result<Option<String>, FaultKind>)
    ensures
        match r {
            Ok(x) => query_request_field_parameter_mode(obj_view(o)) == Ok::<_, FaultKind>(match x {
                Some(y) => Some(y@),
                None => None,
            }),
            Err(k) => query_request_field_parameter_mode(obj_view(o)) == Err::<Option<Seq<char>>, FaultKind>(k),
        },
{
    match find(o, "parameterMode") {
        None => Ok(None),
        Some(Wire::Null) => Ok(None),
        Some(x) => match str_from(x) {
            Some(v) => Ok(Some(v)),
            None => Err(FaultKind::Invalid),
        },
    }
}

fn query_request_decode_preserve_nulls(o: &Vec<Member>) -> (r: Result<Option<bool>, FaultKind>)
    ensures
        match r {
            Ok(x) => query_request_field_preserve_nulls(obj_view(o)) == Ok::<_, FaultKind>(match x {
                Some(y) => Some(y),
                None => None,
            }),
            Err(k) => query_request_field_preserve_nulls(obj_view(o)) == Err::<Option<bool>, FaultKind>(k),
        },
{
    match find(o, "preserveNulls") {
        None => Ok(None),
        Some(Wire::Null) => Ok(None),
        Some(x) => match bool_from(x) {
            Some(v) => Ok(Some(v)),
            None => Err(FaultKind::Invalid),
        },
    }
}

fn query_request_decode_query(o: &Vec<Member>) -> (r: Result<String, FaultKind>)
    ensures
        match r {
            Ok(x) => query_request_field_query(obj_view(o)) == Ok::<_, FaultKind>(x@),
            Err(k) => query_request_field_query(obj_view(o)) == Err::<Seq<char>, FaultKind>(k),
        },
{
    match find(o, "query") {
        None => Err(FaultKind::Missing),
        Some(x) => match str_from(x) {
            Some(v) => Ok(v),
            None => Err(FaultKind::Invalid),
        },
    }
}

fn query_request_decode_query_parameters(o: &Vec<Member>) -> (r: Result<Option<Vec<QueryParameter>>, FaultKind>)
    ensures
        match r {
            Ok(x) => query_request_field_query_parameters(obj_view(o)) == Ok::<_, FaultKind>(match x {
                Some(y) => Some(query_parameter_seq_view(y@)),
                None => None,
            }),
            Err(k) => query_request_field_query_parameters(obj_view(o)) == Err::<Option<Seq<QueryParameterV>>, FaultKind>(k),
        },
{
    match find(o, "queryParameters") {
        None => Ok(None),
        Some(Wire::Null) => Ok(None),
        Some(x) => match query_parameter_seq_from_wire(x) {
            Some(v) => Ok(Some(v)),
            None => Err(FaultKind::Invalid),
        },
    }
}

fn query_request_decode_request_id(o: &Vec<Member>) -> (r: Result<Option<String>, FaultKind>)
    ensures
        match r {
            Ok(x) => query_request_field_request_id(obj_view(o)) == Ok::<_, FaultKind>(match x {
                Some(y) => Some(y@),
                None => None,
            }),
            Err(k) => query_request_field_request_id(obj_view(o)) == Err::<Option<Seq<char>>, FaultKind>(k),
        },
{
    match find(o, "requestId") {
        None => Ok(None),
        Some(Wire::Null) => Ok(None),
        Some(x) => match str_from(x) {
            Some(v) => Ok(Some(v)),
            None => Err(FaultKind::Invalid),
        },
    }
}

fn query_request_decode_timeout_ms(o: &Vec<Member>) -> (r: Result<Option<i32>, FaultKind>)
    ensures
        match r {
            Ok(x) => query_request_field_timeout_ms(obj_view(o)) == Ok::<_, FaultKind>(match x {
                Some(y) => Some(y),
                None => None,
            }),
            Err(k) => query_request_field_timeout_ms(obj_view(o)) == Err::<Option<i32>, FaultKind>(k),
        },
{
    match find(o, "timeoutMs") {
        None => Ok(None),
        Some(Wire::Null) => Ok(None),
        Some(x) => match i32_from(x) {
            Some(v) => Ok(Some(v)),
            None => Err(FaultKind::Invalid),
        },
    }
}

fn query_request_decode_use_legacy_sql(o: &Vec<Member>) -> (r: Result<bool, FaultKind>)
    ensures
        match r {
            Ok(x) => query_request_field_use_legacy_sql(obj_view(o)) == Ok::<_, FaultKind>(x),
            Err(k) => query_request_field_use_legacy_sql(obj_view(o)) == Err::<bool, FaultKind>(k),
        },
{
    match find(o, "useLegacySql") {
        None => Err(FaultKind::Missing),
        Some(x) => match bool_from(x) {
            Some(v) => Ok(v),
            None => Err(FaultKind::Invalid),
        },
    }
}

fn query_request_decode_use_query_cache(o: &Vec<Member>) -> (r: Result<Option<bool>, FaultKind>)
    ensures
        match r {
            Ok(x) => query_request_field_use_query_cache(obj_view(o)) == Ok::<_, FaultKind>(match x {
                Some(y) => Some(y),
                None => None,
            }),
            Err(k) => query_request_field_use_query_cache(obj_view(o)) == Err::<Option<bool>, FaultKind>(k),
        },
{
    match find(o, "useQueryCache") {
        None => Ok(None),
        Some(Wire::Null) => Ok(None),
        Some(x) => match bool_from(x) {
            Some(v) => Ok(Some(v)),
            None => Err(FaultKind::Invalid),
        },
    }
}

impl QueryRequest {
    /// Encodes the value; unset optional fields are left out.
    #[verifier::rlimit(100)]
    pub fn to_wire(&self) -> (w: Wire)
        ensures
            w@ == query_request_wire(self@),
    {
        let mut o: Vec<Member> = Vec::new();
        assert(obj_view(&o) =~= Seq::empty());
        if let Some(x) = &self.connection_properties {
            put(&mut o, "connectionProperties", connection_property_seq_to_wire(x));
        }
        if let Some(x) = &self.default_dataset {
            put(&mut o, "defaultDataset", x.to_wire());
        }
        if let Some(x) = &self.dry_run {
            put(&mut o, "dryRun", Wire::Bool(*x));
        }
        if let Some(x) = &self.kind {
            put(&mut o, "kind", Wire::Str(x.clone()));
        }
        if let Some(x) = &self.labels {
            put(&mut o, "labels", text_map_to_wire(x));
        }
        if let Some(x) = &self.location {
            put(&mut o, "location", Wire::Str(x.clone()));
        }
        if let Some(x) = &self.max_results {
            put(&mut o, "maxResults", Wire::Num(*x as i64));
        }
        if let Some(x) = &self.maximum_bytes_billed {
            put(&mut o, "maximumBytesBilled", Wire::Str(x.clone()));
        }
        if let Some(x) = &self.parameter_mode {
            put(&mut o, "parameterMode", Wire::Str(x.clone()));
        }
        if let Some(x) = &self.preserve_nulls {
            put(&mut o, "preserveNulls", Wire::Bool(*x));
        }
        put(&mut o, "query", Wire::Str((&self.query).clone()));
        if let Some(x) = &self.query_parameters {
            put(&mut o, "queryParameters", query_parameter_seq_to_wire(x));
        }
        if let Some(x) = &self.request_id {
            put(&mut o, "requestId", Wire::Str(x.clone()));
        }
        if let Some(x) = &self.timeout_ms {
            put(&mut o, "timeoutMs", Wire::Num(*x as i64));
        }
        put(&mut o, "useLegacySql", Wire::Bool(*(&self.use_legacy_sql)));
        if let Some(x) = &self.use_query_cache {
            put(&mut o, "useQueryCache", Wire::Bool(*x));
        }
        proof {
            lemma_obj_view(&o);
        }
        Wire::Obj(o)
    }

    /// Decodes a wire value; fails with a format error where a required field is
    /// missing or a value has the wrong shape.
    pub fn from_wire(w: &Wire) -> (r: Result<QueryRequest, FormatError>)
        ensures
            result_view(r) == query_request_of(w@),
    {
        match w {
            Wire::Obj(o) => {
                proof {
                    lemma_obj_view(o);
                }
                let connection_properties = match query_request_decode_connection_properties(o) {
                    Ok(x) => x,
                    Err(k) => return Err(make_fault(k, "QueryRequest", "connectionProperties")),
                };
                let default_dataset = match query_request_decode_default_dataset(o) {
                    Ok(x) => x,
                    Err(k) => return Err(make_fault(k, "QueryRequest", "defaultDataset")),
                };
                let dry_run = match query_request_decode_dry_run(o) {
                    Ok(x) => x,
                    Err(k) => return Err(make_fault(k, "QueryRequest", "dryRun")),
                };
                let kind = match query_request_decode_kind(o) {
                    Ok(x) => x,
                    Err(k) => return Err(make_fault(k, "QueryRequest", "kind")),
                };
                let labels = match query_request_decode_labels(o) {
                    Ok(x) => x,
                    Err(k) => return Err(make_fault(k, "QueryRequest", "labels")),
                };
                let location = match query_request_decode_location(o) {
                    Ok(x) => x,
                    Err(k) => return Err(make_fault(k, "QueryRequest", "location")),
                };
                let max_results = match query_request_decode_max_results(o) {
                    Ok(x) => x,
                    Err(k) => return Err(make_fault(k, "QueryRequest", "maxResults")),
                };
                let maximum_bytes_billed = match query_request_decode_maximum_bytes_billed(o) {
                    Ok(x) => x,
                    Err(k) => return Err(make_fault(k, "QueryRequest", "maximumBytesBilled")),
                };
                let parameter_mode = match query_request_decode_parameter_mode(o) {
                    Ok(x) => x,
                    Err(k) => return Err(make_fault(k, "QueryRequest", "parameterMode")),
                };
                let preserve_nulls = match query_request_decode_preserve_nulls(o) {
                    Ok(x) => x,
                    Err(k) => return Err(make_fault(k, "QueryRequest", "preserveNulls")),
                };
                let query = match query_request_decode_query(o) {
                    Ok(x) => x,
                    Err(k) => return Err(make_fault(k, "QueryRequest", "query")),
                };
                let query_parameters = match query_request_decode_query_parameters(o) {
                    Ok(x) => x,
                    Err(k) => return Err(make_fault(k, "QueryRequest", "queryParameters")),
                };
                let request_id = match query_request_decode_request_id(o) {
                    Ok(x) => x,
                    Err(k) => return Err(make_fault(k, "QueryRequest", "requestId")),
                };
                let timeout_ms = match query_request_decode_timeout_ms(o) {
                    Ok(x) => x,
                    Err(k) => return Err(make_fault(k, "QueryRequest", "timeoutMs")),
                };
                let use_legacy_sql = match query_request_decode_use_legacy_sql(o) {
                    Ok(x) => x,
                    Err(k) => return Err(make_fault(k, "QueryRequest", "useLegacySql")),
                };
                let use_query_cache = match query_request_decode_use_query_cache(o) {
                    Ok(x) => x,
                    Err(k) => return Err(make_fault(k, "QueryRequest", "useQueryCache")),
                };
                Ok(QueryRequest { connection_properties, default_dataset, dry_run, kind, labels, location, max_results, maximum_bytes_billed, parameter_mode, preserve_nulls, query, query_parameters, request_id, timeout_ms, use_legacy_sql, use_query_cache })
            },
            _ => Err(make_fault(FaultKind::Invalid, "QueryRequest", "")),
        }
    }
}

impl QueryRequest {
    /// A request for the query `sql_query` in standard SQL, every optional field unset.
    pub fn new(sql_query: &str) -> (r: QueryRequest)
        ensures
            r@ == (QueryRequestV {
                connection_properties: None,
                default_dataset: None,
                dry_run: None,
                kind: None,
                labels: None,
                location: None,
                max_results: None,
                maximum_bytes_billed: None,
                parameter_mode: None,
                preserve_nulls: None,
                query: sql_query@,
                query_parameters: None,
                request_id: None,
                timeout_ms: None,
                use_legacy_sql: false,
                use_query_cache: None,
            }),
    {
        QueryRequest {
            connection_properties: None,
            default_dataset: None,
            dry_run: None,
            kind: None,
            labels: None,
            location: None,
            max_results: None,
            maximum_bytes_billed: None,
            parameter_mode: None,
            preserve_nulls: None,
            query: sql_query.to_owned(),
            query_parameters: None,
            request_id: None,
            timeout_ms: None,
            use_legacy_sql: false,
            use_query_cache: None,
        }
    }
}

/// An entry under a key of no field changes nothing in decoding.
pub proof fn lemma_query_request_ignores_unknown(o: Seq<(Seq<char>, WireV)>, k: Seq<char>, x: WireV)
    requires
        !query_request_keys().contains(k),
    ensures
        query_request_of(WireV::Obj(o.push((k, x)))) == query_request_of(WireV::Obj(o)),
{
    broadcast use lemma_lookup_push;

    assert(query_request_keys()[0] == "connectionProperties"@);
    assert(query_request_keys()[1] == "defaultDataset"@);
    assert(query_request_keys()[2] == "dryRun"@);
    assert(query_request_keys()[3] == "kind"@);
    assert(query_request_keys()[4] == "labels"@);
    assert(query_request_keys()[5] == "location"@);
    assert(query_request_keys()[6] == "maxResults"@);
    assert(query_request_keys()[7] == "maximumBytesBilled"@);
    assert(query_request_keys()[8] == "parameterMode"@);
    assert(query_request_keys()[9] == "preserveNulls"@);
    assert(query_request_keys()[10] == "query"@);
    assert(query_request_keys()[11] == "queryParameters"@);
    assert(query_request_keys()[12] == "requestId"@);
    assert(query_request_keys()[13] == "timeoutMs"@);
    assert(query_request_keys()[14] == "useLegacySql"@);
    assert(query_request_keys()[15] == "useQueryCache"@);
}

} // verus!
