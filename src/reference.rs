//! References and parameters that a query request carries.
use vstd::prelude::*;
use crate::wire::{Wire, WireV, Member, FaultKind, FormatError, FormatErrorV, fault, make_fault, result_view, lookup, find, obj_view, arr_view, lemma_obj_view, lemma_arr_view, snoc_opt, lemma_lookup_push, lemma_lookup_snoc_opt, has_key, lemma_lookup_none, optional, required, str_of, put, str_from, without, lemma_lookup_without};

verus! {

/// Names a dataset: the default target of a query.
#[derive(Debug, PartialEq)]
pub struct DatasetReference {
    /// The dataset's identifier.
    pub dataset_id: String,
    /// The identifier of the project that holds the dataset.
    pub project_id: Option<String>,
}

pub struct DatasetReferenceV {
    pub dataset_id: Seq<char>,
    pub project_id: Option<Seq<char>>,
}

impl View for DatasetReference {
    type V = DatasetReferenceV;

    open spec fn view(&self) -> DatasetReferenceV {
        DatasetReferenceV {
            dataset_id: self.dataset_id@,
            project_id: match self.project_id {
                Some(x) => Some(x@),
                None => None,
            },
        }
    }
}

/// Whether `v` is a valid value: what decoding can produce.
pub open spec fn dataset_reference_wf(v: DatasetReferenceV) -> bool {
    true
}

/// The wire keys of the fields, in declaration order.
pub open spec fn dataset_reference_keys() -> Seq<Seq<char>> {
    seq!["datasetId"@, "projectId"@]
}

/// The wire form: an object holding each set field under its key, in declaration order.
pub open spec fn dataset_reference_wire(v: DatasetReferenceV) -> WireV {
    WireV::Obj(snoc_opt(
        Seq::empty().push(("datasetId"@, WireV::Str(v.dataset_id))),
        "projectId"@,
        match v.project_id {
            Some(x) => Some(WireV::Str(x)),
            None => None,
        },
    ))
}

/// The field `dataset_id` as decoded from the entries `o`.
pub open spec fn dataset_reference_field_dataset_id(o: Seq<(Seq<char>, WireV)>) -> Result<Seq<char>, FaultKind> {
    required(lookup(o, "datasetId"@), |x: WireV| str_of(x))
}

/// The field `project_id` as decoded from the entries `o`.
pub open spec fn dataset_reference_field_project_id(o: Seq<(Seq<char>, WireV)>) -> Result<Option<Seq<char>>, FaultKind> {
    optional(lookup(o, "projectId"@), |x: WireV| str_of(x))
}

/// Decoding: each field looked up by its key; the first field at fault, in
/// declaration order, gives the error; keys of no field are ignored.
pub open spec fn dataset_reference_of(w: WireV) -> Result<DatasetReferenceV, FormatErrorV> {
    match w {
        WireV::Obj(o) => {
            let dataset_id = dataset_reference_field_dataset_id(o);
            let project_id = dataset_reference_field_project_id(o);
            if dataset_id is Err {
                Err(fault(dataset_id->Err_0, "DatasetReference"@, "datasetId"@))
            }
            else if project_id is Err {
                Err(fault(project_id->Err_0, "DatasetReference"@, "projectId"@))
            } else {
                Ok(DatasetReferenceV {
                    dataset_id: dataset_id->Ok_0,
                    project_id: project_id->Ok_0,
                })
            }
        },
        _ => Err(fault(FaultKind::Invalid, "DatasetReference"@, ""@)),
    }
}

/// The decoded value, where decoding succeeds.
pub open spec fn dataset_reference_from(w: WireV) -> Option<DatasetReferenceV> {
    match dataset_reference_of(w) {
        Ok(v) => Some(v),
        Err(_) => None,
    }
}

fn dataset_reference_decode_dataset_id(o: &Vec<Member>) -> (r: Result<String, FaultKind>)
    ensures
        match r {
            Ok(x) => dataset_reference_field_dataset_id(obj_view(o)) == Ok::<_, FaultKind>(x@),
            Err(k) => dataset_reference_field_dataset_id(obj_view(o)) == Err::<Seq<char>, FaultKind>(k),
        },
{
    match find(o, "datasetId") {
        None => Err(FaultKind::Missing),
        Some(x) => match str_from(x) {
            Some(v) => Ok(v),
            None => Err(FaultKind::Invalid),
        },
    }
}

fn dataset_reference_decode_project_id(o: &Vec<Member>) -> (r: Result<Option<String>, FaultKind>)
    ensures
        match r {
            Ok(x) => dataset_reference_field_project_id(obj_view(o)) == Ok::<_, FaultKind>(match x {
                Some(y) => Some(y@),
                None => None,
            }),
            Err(k) => dataset_reference_field_project_id(obj_view(o)) == Err::<Option<Seq<char>>, FaultKind>(k),
        },
{
    match find(o, "projectId") {
        None => Ok(None),
        Some(Wire::Null) => Ok(None),
        Some(x) => match str_from(x) {
            Some(v) => Ok(Some(v)),
            None => Err(FaultKind::Invalid),
        },
    }
}

impl DatasetReference {
    /// Encodes the value; unset optional fields are left out.
    pub fn to_wire(&self) -> (w: Wire)
        ensures
            w@ == dataset_reference_wire(self@),
    {
        let mut o: Vec<Member> = Vec::new();
        assert(obj_view(&o) =~= Seq::empty());
        put(&mut o, "datasetId", Wire::Str((&self.dataset_id).clone()));
        if let Some(x) = &self.project_id {
            put(&mut o, "projectId", Wire::Str(x.clone()));
        }
        proof {
            lemma_obj_view(&o);
        }
        Wire::Obj(o)
    }

    /// Decodes a wire value; fails with a format error where a required field is
    /// missing or a value has the wrong shape.
    pub fn from_wire(w: &Wire) -> (r: Result<DatasetReference, FormatError>)
        ensures
            result_view(r) == dataset_reference_of(w@),
    {
        match w {
            Wire::Obj(o) => {
                proof {
                    lemma_obj_view(o);
                }
                let dataset_id = match dataset_reference_decode_dataset_id(o) {
                    Ok(x) => x,
                    Err(k) => return Err(make_fault(k, "DatasetReference", "datasetId")),
                };
                let project_id = match dataset_reference_decode_project_id(o) {
                    Ok(x) => x,
                    Err(k) => return Err(make_fault(k, "DatasetReference", "projectId")),
                };
                Ok(DatasetReference { dataset_id, project_id })
            },
            _ => Err(make_fault(FaultKind::Invalid, "DatasetReference", "")),
        }
    }
}

proof fn lemma_dataset_reference_field_dataset_id_round_trip(v: DatasetReferenceV)
    requires
        dataset_reference_wf(v),
    ensures
        dataset_reference_field_dataset_id(dataset_reference_wire(v)->Obj_0) == Ok::<_, FaultKind>(v.dataset_id),
{
    broadcast use lemma_lookup_push, lemma_lookup_snoc_opt;

    reveal_strlit("datasetId");
    reveal_strlit("projectId");
    assert("datasetId"@[0] != "projectId"@[0]);
}

proof fn lemma_dataset_reference_field_project_id_round_trip(v: DatasetReferenceV)
    requires
        dataset_reference_wf(v),
    ensures
        dataset_reference_field_project_id(dataset_reference_wire(v)->Obj_0) == Ok::<_, FaultKind>(v.project_id),
{
    broadcast use lemma_lookup_push, lemma_lookup_snoc_opt;

    reveal_strlit("datasetId");
    reveal_strlit("projectId");
    assert("projectId"@[0] != "datasetId"@[0]);
}

/// Decoding the encoding of a valid value gives the value back.
pub proof fn lemma_dataset_reference_round_trip(v: DatasetReferenceV)
    requires
        dataset_reference_wf(v),
    ensures
        dataset_reference_of(dataset_reference_wire(v)) == Ok::<DatasetReferenceV, FormatErrorV>(v),
{
    lemma_dataset_reference_field_dataset_id_round_trip(v);
    lemma_dataset_reference_field_project_id_round_trip(v);
}

proof fn lemma_dataset_reference_omits_project_id(v: DatasetReferenceV)
    ensures
        v.project_id is None ==> !has_key(dataset_reference_wire(v)->Obj_0, "projectId"@),
{
    broadcast use lemma_lookup_push, lemma_lookup_snoc_opt;

    reveal_strlit("datasetId");
    reveal_strlit("projectId");
    assert("projectId"@[0] != "datasetId"@[0]);
    lemma_lookup_none(dataset_reference_wire(v)->Obj_0, "projectId"@);
}

/// An optional field left unset has no entry in the encoding.
pub proof fn lemma_dataset_reference_omits_unset(v: DatasetReferenceV)
    ensures
        v.project_id is None ==> !has_key(dataset_reference_wire(v)->Obj_0, "projectId"@),
{
    lemma_dataset_reference_omits_project_id(v);
}

/// An entry under a key of no field changes nothing in decoding, and no
/// encoding holds such a key.
pub proof fn lemma_dataset_reference_ignores_unknown(o: Seq<(Seq<char>, WireV)>, k: Seq<char>, x: WireV, v: DatasetReferenceV)
    requires
        !dataset_reference_keys().contains(k),
    ensures
        dataset_reference_of(WireV::Obj(o.push((k, x)))) == dataset_reference_of(WireV::Obj(o)),
        !has_key(dataset_reference_wire(v)->Obj_0, k),
{
    broadcast use lemma_lookup_push, lemma_lookup_snoc_opt;

    reveal_strlit("datasetId");
    reveal_strlit("projectId");
    assert("datasetId"@[0] != "projectId"@[0]);
    assert(dataset_reference_keys()[0] == "datasetId"@);
    assert(dataset_reference_keys()[1] == "projectId"@);
    lemma_lookup_none(dataset_reference_wire(v)->Obj_0, k);
}

/// Removing the entry of the required field `dataset_id` from a valid encoding makes
/// decoding fail with a format error naming that field.
pub proof fn lemma_dataset_reference_requires_dataset_id(v: DatasetReferenceV)
    requires
        dataset_reference_wf(v),
    ensures
        dataset_reference_of(WireV::Obj(without(dataset_reference_wire(v)->Obj_0, "datasetId"@))) == Err::<DatasetReferenceV, FormatErrorV>(
            fault(FaultKind::Missing, "DatasetReference"@, "datasetId"@),
        ),
{
    broadcast use lemma_lookup_without;

    reveal_strlit("datasetId");
    reveal_strlit("projectId");
    assert("datasetId"@[0] != "projectId"@[0]);
    let o = dataset_reference_wire(v)->Obj_0;
}

/// A key-value property of the connection a query runs in.
#[derive(Debug, PartialEq)]
pub struct ConnectionProperty {
    /// The property's name.
    pub key: Option<String>,
    /// The property's value.
    pub value: Option<String>,
}

pub struct ConnectionPropertyV {
    pub key: Option<Seq<char>>,
    pub value: Option<Seq<char>>,
}

impl View for ConnectionProperty {
    type V = ConnectionPropertyV;

    open spec fn view(&self) -> ConnectionPropertyV {
        ConnectionPropertyV {
            key: match self.key {
                Some(x) => Some(x@),
                None => None,
            },
            value: match self.value {
                Some(x) => Some(x@),
                None => None,
            },
        }
    }
}

/// Whether `v` is a valid value: what decoding can produce.
pub open spec fn connection_property_wf(v: ConnectionPropertyV) -> bool {
    true
}

/// The wire keys of the fields, in declaration order.
pub open spec fn connection_property_keys() -> Seq<Seq<char>> {
    seq!["key"@, "value"@]
}

/// The wire form: an object holding each set field under its key, in declaration order.
pub open spec fn connection_property_wire(v: ConnectionPropertyV) -> WireV {
    WireV::Obj(snoc_opt(
        snoc_opt(
            Seq::empty(),
            "key"@,
            match v.key {
                Some(x) => Some(WireV::Str(x)),
                None => None,
            },
        ),
        "value"@,
        match v.value {
            Some(x) => Some(WireV::Str(x)),
            None => None,
        },
    ))
}

/// The field `key` as decoded from the entries `o`.
pub open spec fn connection_property_field_key(o: Seq<(Seq<char>, WireV)>) -> Result<Option<Seq<char>>, FaultKind> {
    optional(lookup(o, "key"@), |x: WireV| str_of(x))
}

/// The field `value` as decoded from the entries `o`.
pub open spec fn connection_property_field_value(o: Seq<(Seq<char>, WireV)>) -> Result<Option<Seq<char>>, FaultKind> {
    optional(lookup(o, "value"@), |x: WireV| str_of(x))
}

/// Decoding: each field looked up by its key; the first field at fault, in
/// declaration order, gives the error; keys of no field are ignored.
pub open spec fn connection_property_of(w: WireV) -> Result<ConnectionPropertyV, FormatErrorV> {
    match w {
        WireV::Obj(o) => {
            let key = connection_property_field_key(o);
            let value = connection_property_field_value(o);
            if key is Err {
                Err(fault(key->Err_0, "ConnectionProperty"@, "key"@))
            }
            else if value is Err {
                Err(fault(value->Err_0, "ConnectionProperty"@, "value"@))
            } else {
                Ok(ConnectionPropertyV {
                    key: key->Ok_0,
                    value: value->Ok_0,
                })
            }
        },
        _ => Err(fault(FaultKind::Invalid, "ConnectionProperty"@, ""@)),
    }
}

/// The decoded value, where decoding succeeds.
pub open spec fn connection_property_from(w: WireV) -> Option<ConnectionPropertyV> {
    match connection_property_of(w) {
        Ok(v) => Some(v),
        Err(_) => None,
    }
}

fn connection_property_decode_key(o: &Vec<Member>) -> (r: Result<Option<String>, FaultKind>)
    ensures
        match r {
            Ok(x) => connection_property_field_key(obj_view(o)) == Ok::<_, FaultKind>(match x {
                Some(y) => Some(y@),
                None => None,
            }),
            Err(k) => connection_property_field_key(obj_view(o)) == Err::<Option<Seq<char>>, FaultKind>(k),
        },
{
    match find(o, "key") {
        None => Ok(None),
        Some(Wire::Null) => Ok(None),
        Some(x) => match str_from(x) {
            Some(v) => Ok(Some(v)),
            None => Err(FaultKind::Invalid),
        },
    }
}

fn connection_property_decode_value(o: &Vec<Member>) -> (r: Result<Option<String>, FaultKind>)
    ensures
        match r {
            Ok(x) => connection_property_field_value(obj_view(o)) == Ok::<_, FaultKind>(match x {
                Some(y) => Some(y@),
                None => None,
            }),
            Err(k) => connection_property_field_value(obj_view(o)) == Err::<Option<Seq<char>>, FaultKind>(k),
        },
{
    match find(o, "value") {
        None => Ok(None),
        Some(Wire::Null) => Ok(None),
        Some(x) => match str_from(x) {
            Some(v) => Ok(Some(v)),
            None => Err(FaultKind::Invalid),
        },
    }
}

impl ConnectionProperty {
    /// Encodes the value; unset optional fields are left out.
    pub fn to_wire(&self) -> (w: Wire)
        ensures
            w@ == connection_property_wire(self@),
    {
        let mut o: Vec<Member> = Vec::new();
        assert(obj_view(&o) =~= Seq::empty());
        if let Some(x) = &self.key {
            put(&mut o, "key", Wire::Str(x.clone()));
        }
        if let Some(x) = &self.value {
            put(&mut o, "value", Wire::Str(x.clone()));
        }
        proof {
            lemma_obj_view(&o);
        }
        Wire::Obj(o)
    }

    /// Decodes a wire value; fails with a format error where a required field is
    /// missing or a value has the wrong shape.
    pub fn from_wire(w: &Wire) -> (r: Result<ConnectionProperty, FormatError>)
        ensures
            result_view(r) == connection_property_of(w@),
    {
        match w {
            Wire::Obj(o) => {
                proof {
                    lemma_obj_view(o);
                }
                let key = match connection_property_decode_key(o) {
                    Ok(x) => x,
                    Err(k) => return Err(make_fault(k, "ConnectionProperty", "key")),
                };
                let value = match connection_property_decode_value(o) {
                    Ok(x) => x,
                    Err(k) => return Err(make_fault(k, "ConnectionProperty", "value")),
                };
                Ok(ConnectionProperty { key, value })
            },
            _ => Err(make_fault(FaultKind::Invalid, "ConnectionProperty", "")),
        }
    }
}

proof fn lemma_connection_property_field_key_round_trip(v: ConnectionPropertyV)
    requires
        connection_property_wf(v),
    ensures
        connection_property_field_key(connection_property_wire(v)->Obj_0) == Ok::<_, FaultKind>(v.key),
{
    broadcast use lemma_lookup_push, lemma_lookup_snoc_opt;

    reveal_strlit("key");
    reveal_strlit("value");
    assert("key"@.len() != "value"@.len());
}

proof fn lemma_connection_property_field_value_round_trip(v: ConnectionPropertyV)
    requires
        connection_property_wf(v),
    ensures
        connection_property_field_value(connection_property_wire(v)->Obj_0) == Ok::<_, FaultKind>(v.value),
{
    broadcast use lemma_lookup_push, lemma_lookup_snoc_opt;

    reveal_strlit("key");
    reveal_strlit("value");
    assert("value"@.len() != "key"@.len());
}

/// Decoding the encoding of a valid value gives the value back.
pub proof fn lemma_connection_property_round_trip(v: ConnectionPropertyV)
    requires
        connection_property_wf(v),
    ensures
        connection_property_of(connection_property_wire(v)) == Ok::<ConnectionPropertyV, FormatErrorV>(v),
{
    lemma_connection_property_field_key_round_trip(v);
    lemma_connection_property_field_value_round_trip(v);
}

proof fn lemma_connection_property_omits_key(v: ConnectionPropertyV)
    ensures
        v.key is None ==> !has_key(connection_property_wire(v)->Obj_0, "key"@),
{
    broadcast use lemma_lookup_push, lemma_lookup_snoc_opt;

    reveal_strlit("key");
    reveal_strlit("value");
    assert("key"@.len() != "value"@.len());
    lemma_lookup_none(connection_property_wire(v)->Obj_0, "key"@);
}

proof fn lemma_connection_property_omits_value(v: ConnectionPropertyV)
    ensures
        v.value is None ==> !has_key(connection_property_wire(v)->Obj_0, "value"@),
{
    broadcast use lemma_lookup_push, lemma_lookup_snoc_opt;

    reveal_strlit("key");
    reveal_strlit("value");
    assert("value"@.len() != "key"@.len());
    lemma_lookup_none(connection_property_wire(v)->Obj_0, "value"@);
}

/// An optional field left unset has no entry in the encoding.
pub proof fn lemma_connection_property_omits_unset(v: ConnectionPropertyV)
    ensures
        v.key is None ==> !has_key(connection_property_wire(v)->Obj_0, "key"@),
        v.value is None ==> !has_key(connection_property_wire(v)->Obj_0, "value"@),
{
    lemma_connection_property_omits_key(v);
    lemma_connection_property_omits_value(v);
}

/// An entry under a key of no field changes nothing in decoding, and no
/// encoding holds such a key.
pub proof fn lemma_connection_property_ignores_unknown(o: Seq<(Seq<char>, WireV)>, k: Seq<char>, x: WireV, v: ConnectionPropertyV)
    requires
        !connection_property_keys().contains(k),
    ensures
        connection_property_of(WireV::Obj(o.push((k, x)))) == connection_property_of(WireV::Obj(o)),
        !has_key(connection_property_wire(v)->Obj_0, k),
{
    broadcast use lemma_lookup_push, lemma_lookup_snoc_opt;

    reveal_strlit("key");
    reveal_strlit("value");
    assert("key"@.len() != "value"@.len());
    assert(connection_property_keys()[0] == "key"@);
    assert(connection_property_keys()[1] == "value"@);
    lemma_lookup_none(connection_property_wire(v)->Obj_0, k);
}

/// The models of a sequence of values.
pub open spec fn connection_property_seq_view(v: Seq<ConnectionProperty>) -> Seq<ConnectionPropertyV> {
    v.map_values(|e: ConnectionProperty| e@)
}

/// A sequence encodes as an array of the elements' encodings.
pub open spec fn connection_property_seq_wire(s: Seq<ConnectionPropertyV>) -> WireV {
    WireV::Arr(s.map_values(|e: ConnectionPropertyV| connection_property_wire(e)))
}

pub open spec fn connection_property_seq_wf(s: Seq<ConnectionPropertyV>) -> bool {
    forall|i: int| 0 <= i < s.len() ==> connection_property_wf(#[trigger] s[i])
}

/// An array whose every element decodes, decoded element by element.
pub open spec fn connection_property_seq_from(w: WireV) -> Option<Seq<ConnectionPropertyV>> {
    match w {
        WireV::Arr(items) => if forall|i: int| 0 <= i < items.len() ==> #[trigger] connection_property_from(items[i]) is Some {
            Some(Seq::new(items.len(), |i: int| connection_property_from(items[i])->Some_0))
        } else {
            None
        },
        _ => None,
    }
}

pub fn connection_property_seq_to_wire(v: &Vec<ConnectionProperty>) -> (w: Wire)
    ensures
        w@ == connection_property_seq_wire(connection_property_seq_view(v@)),
{
    let mut out: Vec<Wire> = Vec::new();
    let mut i: usize = 0;
    while i < v.len()
        invariant
            i <= v.len(),
            out.len() == i,
            forall|j: int| 0 <= j < i ==> (#[trigger] out[j])@ == connection_property_wire(v[j]@),
        decreases v.len() - i,
    {
        out.push(v[i].to_wire());
        i = i + 1;
    }
    proof {
        lemma_arr_view(&out);
        assert(arr_view(&out) =~= connection_property_seq_wire(connection_property_seq_view(v@))->Arr_0);
    }
    Wire::Arr(out)
}

pub fn connection_property_seq_from_wire(w: &Wire) -> (r: Option<Vec<ConnectionProperty>>)
    ensures
        match r {
            Some(v) => connection_property_seq_from(w@) == Some(connection_property_seq_view(v@)),
            None => connection_property_seq_from(w@) is None,
        },
{
    match w {
        Wire::Arr(items) => {
            proof {
                lemma_arr_view(items);
            }
            let mut out: Vec<ConnectionProperty> = Vec::new();
            let mut i: usize = 0;
            while i < items.len()
                invariant
                    i <= items.len(),
                    out.len() == i,
                    w@ == WireV::Arr(arr_view(items)),
                    forall|j: int| 0 <= j < i ==> connection_property_from(#[trigger] arr_view(items)[j]) == Some(out[j]@),
                decreases items.len() - i,
            {
                assert(arr_view(items)[i as int] == items[i as int]@);
                match ConnectionProperty::from_wire(&items[i]) {
                    Ok(e) => out.push(e),
                    Err(_) => {
                        assert(connection_property_from(arr_view(items)[i as int]) is None);
                        return None;
                    },
                }
                i = i + 1;
            }
            proof {
                assert(forall|j: int| 0 <= j < items.len() ==> connection_property_from(#[trigger] arr_view(items)[j]) is Some);
                assert(connection_property_seq_from(w@)->Some_0 =~= connection_property_seq_view(out@));
            }
            Some(out)
        },
        _ => None,
    }
}

/// Decoding the encoding of a sequence of valid values gives the sequence back.
pub proof fn lemma_connection_property_seq_round_trip(s: Seq<ConnectionPropertyV>)
    requires
        connection_property_seq_wf(s),
    ensures
        connection_property_seq_from(connection_property_seq_wire(s)) == Some(s),
{
    let items = connection_property_seq_wire(s)->Arr_0;
    assert forall|i: int| 0 <= i < items.len() implies #[trigger] connection_property_from(items[i]) == Some(s[i]) by {
        lemma_connection_property_round_trip(s[i]);
    }
    assert(connection_property_seq_from(connection_property_seq_wire(s))->Some_0 =~= s);
}

/// An empty sequence encodes as an empty array, which decodes to an empty sequence.
pub proof fn lemma_connection_property_seq_empty()
    ensures
        connection_property_seq_wire(Seq::empty()) == WireV::Arr(Seq::empty()),
        connection_property_seq_from(WireV::Arr(Seq::empty())) == Some(Seq::<ConnectionPropertyV>::empty()),
{
    assert(connection_property_seq_wire(Seq::empty())->Arr_0 =~= Seq::empty());
    assert(connection_property_seq_from(WireV::Arr(Seq::empty()))->Some_0 =~= Seq::<ConnectionPropertyV>::empty());
}

/// The type of a query parameter.
#[derive(Debug, PartialEq)]
pub struct QueryParameterType {
    /// The name of the type, such as `INT64` or `STRING`.
    pub type_: String,
}

pub struct QueryParameterTypeV {
    pub type_: Seq<char>,
}

impl View for QueryParameterType {
    type V = QueryParameterTypeV;

    open spec fn view(&self) -> QueryParameterTypeV {
        QueryParameterTypeV {
            type_: self.type_@,
        }
    }
}

/// Whether `v` is a valid value: what decoding can produce.
pub open spec fn query_parameter_type_wf(v: QueryParameterTypeV) -> bool {
    true
}

/// The wire keys of the fields, in declaration order.
pub open spec fn query_parameter_type_keys() -> Seq<Seq<char>> {
    seq!["type"@]
}

/// The wire form: an object holding each set field under its key, in declaration order.
pub open spec fn query_parameter_type_wire(v: QueryParameterTypeV) -> WireV {
    WireV::Obj(Seq::empty().push(("type"@, WireV::Str(v.type_))))
}

/// The field `type_` as decoded from the entries `o`.
pub open spec fn query_parameter_type_field_type_(o: Seq<(Seq<char>, WireV)>) -> Result<Seq<char>, FaultKind> {
    required(lookup(o, "type"@), |x: WireV| str_of(x))
}

/// Decoding: each field looked up by its key; the first field at fault, in
/// declaration order, gives the error; keys of no field are ignored.
pub open spec fn query_parameter_type_of(w: WireV) -> Result<QueryParameterTypeV, FormatErrorV> {
    match w {
        WireV::Obj(o) => {
            let type_ = query_parameter_type_field_type_(o);
            if type_ is Err {
                Err(fault(type_->Err_0, "QueryParameterType"@, "type"@))
            } else {
                Ok(QueryParameterTypeV {
                    type_: type_->Ok_0,
                })
            }
        },
        _ => Err(fault(FaultKind::Invalid, "QueryParameterType"@, ""@)),
    }
}

/// The decoded value, where decoding succeeds.
pub open spec fn query_parameter_type_from(w: WireV) -> Option<QueryParameterTypeV> {
    match query_parameter_type_of(w) {
        Ok(v) => Some(v),
        Err(_) => None,
    }
}

fn query_parameter_type_decode_type_(o: &Vec<Member>) -> (r: Result<String, FaultKind>)
    ensures
        match r {
            Ok(x) => query_parameter_type_field_type_(obj_view(o)) == Ok::<_, FaultKind>(x@),
            Err(k) => query_parameter_type_field_type_(obj_view(o)) == Err::<Seq<char>, FaultKind>(k),
        },
{
    match find(o, "type") {
        None => Err(FaultKind::Missing),
        Some(x) => match str_from(x) {
            Some(v) => Ok(v),
            None => Err(FaultKind::Invalid),
        },
    }
}

impl QueryParameterType {
    /// Encodes the value; unset optional fields are left out.
    pub fn to_wire(&self) -> (w: Wire)
        ensures
            w@ == query_parameter_type_wire(self@),
    {
        let mut o: Vec<Member> = Vec::new();
        assert(obj_view(&o) =~= Seq::empty());
        put(&mut o, "type", Wire::Str((&self.type_).clone()));
        proof {
            lemma_obj_view(&o);
        }
        Wire::Obj(o)
    }

    /// Decodes a wire value; fails with a format error where a required field is
    /// missing or a value has the wrong shape.
    pub fn from_wire(w: &Wire) -> (r: Result<QueryParameterType, FormatError>)
        ensures
            result_view(r) == query_parameter_type_of(w@),
    {
        match w {
            Wire::Obj(o) => {
                proof {
                    lemma_obj_view(o);
                }
                let type_ = match query_parameter_type_decode_type_(o) {
                    Ok(x) => x,
                    Err(k) => return Err(make_fault(k, "QueryParameterType", "type")),
                };
                Ok(QueryParameterType { type_ })
            },
            _ => Err(make_fault(FaultKind::Invalid, "QueryParameterType", "")),
        }
    }
}

proof fn lemma_query_parameter_type_field_type__round_trip(v: QueryParameterTypeV)
    requires
        query_parameter_type_wf(v),
    ensures
        query_parameter_type_field_type_(query_parameter_type_wire(v)->Obj_0) == Ok::<_, FaultKind>(v.type_),
{
    broadcast use lemma_lookup_push, lemma_lookup_snoc_opt;

    reveal_strlit("type");
}

/// Decoding the encoding of a valid value gives the value back.
pub proof fn lemma_query_parameter_type_round_trip(v: QueryParameterTypeV)
    requires
        query_parameter_type_wf(v),
    ensures
        query_parameter_type_of(query_parameter_type_wire(v)) == Ok::<QueryParameterTypeV, FormatErrorV>(v),
{
    lemma_query_parameter_type_field_type__round_trip(v);
}

/// An entry under a key of no field changes nothing in decoding, and no
/// encoding holds such a key.
pub proof fn lemma_query_parameter_type_ignores_unknown(o: Seq<(Seq<char>, WireV)>, k: Seq<char>, x: WireV, v: QueryParameterTypeV)
    requires
        !query_parameter_type_keys().contains(k),
    ensures
        query_parameter_type_of(WireV::Obj(o.push((k, x)))) == query_parameter_type_of(WireV::Obj(o)),
        !has_key(query_parameter_type_wire(v)->Obj_0, k),
{
    broadcast use lemma_lookup_push, lemma_lookup_snoc_opt;

    reveal_strlit("type");
    assert(query_parameter_type_keys()[0] == "type"@);
    lemma_lookup_none(query_parameter_type_wire(v)->Obj_0, k);
}

/// Removing the entry of the required field `type_` from a valid encoding makes
/// decoding fail with a format error naming that field.
pub proof fn lemma_query_parameter_type_requires_type_(v: QueryParameterTypeV)
    requires
        query_parameter_type_wf(v),
    ensures
        query_parameter_type_of(WireV::Obj(without(query_parameter_type_wire(v)->Obj_0, "type"@))) == Err::<QueryParameterTypeV, FormatErrorV>(
            fault(FaultKind::Missing, "QueryParameterType"@, "type"@),
        ),
{
    broadcast use lemma_lookup_without;

    reveal_strlit("type");
    let o = query_parameter_type_wire(v)->Obj_0;
}

/// The value of a query parameter.
#[derive(Debug, PartialEq)]
pub struct QueryParameterValue {
    /// The value as text.
    pub value: Option<String>,
}

pub struct QueryParameterValueV {
    pub value: Option<Seq<char>>,
}

impl View for QueryParameterValue {
    type V = QueryParameterValueV;

    open spec fn view(&self) -> QueryParameterValueV {
        QueryParameterValueV {
            value: match self.value {
                Some(x) => Some(x@),
                None => None,
            },
        }
    }
}

/// Whether `v` is a valid value: what decoding can produce.
pub open spec fn query_parameter_value_wf(v: QueryParameterValueV) -> bool {
    true
}

/// The wire keys of the fields, in declaration order.
pub open spec fn query_parameter_value_keys() -> Seq<Seq<char>> {
    seq!["value"@]
}

/// The wire form: an object holding each set field under its key, in declaration order.
pub open spec fn query_parameter_value_wire(v: QueryParameterValueV) -> WireV {
    WireV::Obj(snoc_opt(
        Seq::empty(),
        "value"@,
        match v.value {
            Some(x) => Some(WireV::Str(x)),
            None => None,
        },
    ))
}

/// The field `value` as decoded from the entries `o`.
pub open spec fn query_parameter_value_field_value(o: Seq<(Seq<char>, WireV)>) -> Result<Option<Seq<char>>, FaultKind> {
    optional(lookup(o, "value"@), |x: WireV| str_of(x))
}

/// Decoding: each field looked up by its key; the first field at fault, in
/// declaration order, gives the error; keys of no field are ignored.
pub open spec fn query_parameter_value_of(w: WireV) -> Result<QueryParameterValueV, FormatErrorV> {
    match w {
        WireV::Obj(o) => {
            let value = query_parameter_value_field_value(o);
            if value is Err {
                Err(fault(value->Err_0, "QueryParameterValue"@, "value"@))
            } else {
                Ok(QueryParameterValueV {
                    value: value->Ok_0,
                })
            }
        },
        _ => Err(fault(FaultKind::Invalid, "QueryParameterValue"@, ""@)),
    }
}

/// The decoded value, where decoding succeeds.
pub open spec fn query_parameter_value_from(w: WireV) -> Option<QueryParameterValueV> {
    match query_parameter_value_of(w) {
        Ok(v) => Some(v),
        Err(_) => None,
    }
}

fn query_parameter_value_decode_value(o: &Vec<Member>) -> (r: Result<Option<String>, FaultKind>)
    ensures
        match r {
            Ok(x) => query_parameter_value_field_value(obj_view(o)) == Ok::<_, FaultKind>(match x {
                Some(y) => Some(y@),
                None => None,
            }),
            Err(k) => query_parameter_value_field_value(obj_view(o)) == Err::<Option<Seq<char>>, FaultKind>(k),
        },
{
    match find(o, "value") {
        None => Ok(None),
        Some(Wire::Null) => Ok(None),
        Some(x) => match str_from(x) {
            Some(v) => Ok(Some(v)),
            None => Err(FaultKind::Invalid),
        },
    }
}

impl QueryParameterValue {
    /// Encodes the value; unset optional fields are left out.
    pub fn to_wire(&self) -> (w: Wire)
        ensures
            w@ == query_parameter_value_wire(self@),
    {
        let mut o: Vec<Member> = Vec::new();
        assert(obj_view(&o) =~= Seq::empty());
        if let Some(x) = &self.value {
            put(&mut o, "value", Wire::Str(x.clone()));
        }
        proof {
            lemma_obj_view(&o);
        }
        Wire::Obj(o)
    }

    /// Decodes a wire value; fails with a format error where a required field is
    /// missing or a value has the wrong shape.
    pub fn from_wire(w: &Wire) -> (r: Result<QueryParameterValue, FormatError>)
        ensures
            result_view(r) == query_parameter_value_of(w@),
    {
        match w {
            Wire::Obj(o) => {
                proof {
                    lemma_obj_view(o);
                }
                let value = match query_parameter_value_decode_value(o) {
                    Ok(x) => x,
                    Err(k) => return Err(make_fault(k, "QueryParameterValue", "value")),
                };
                Ok(QueryParameterValue { value })
            },
            _ => Err(make_fault(FaultKind::Invalid, "QueryParameterValue", "")),
        }
    }
}

proof fn lemma_query_parameter_value_field_value_round_trip(v: QueryParameterValueV)
    requires
        query_parameter_value_wf(v),
    ensures
        query_parameter_value_field_value(query_parameter_value_wire(v)->Obj_0) == Ok::<_, FaultKind>(v.value),
{
    broadcast use lemma_lookup_push, lemma_lookup_snoc_opt;

    reveal_strlit("value");
}

/// Decoding the encoding of a valid value gives the value back.
pub proof fn lemma_query_parameter_value_round_trip(v: QueryParameterValueV)
    requires
        query_parameter_value_wf(v),
    ensures
        query_parameter_value_of(query_parameter_value_wire(v)) == Ok::<QueryParameterValueV, FormatErrorV>(v),
{
    lemma_query_parameter_value_field_value_round_trip(v);
}

proof fn lemma_query_parameter_value_omits_value(v: QueryParameterValueV)
    ensures
        v.value is None ==> !has_key(query_parameter_value_wire(v)->Obj_0, "value"@),
{
    broadcast use lemma_lookup_push, lemma_lookup_snoc_opt;

    reveal_strlit("value");
    lemma_lookup_none(query_parameter_value_wire(v)->Obj_0, "value"@);
}

/// An optional field left unset has no entry in the encoding.
pub proof fn lemma_query_parameter_value_omits_unset(v: QueryParameterValueV)
    ensures
        v.value is None ==> !has_key(query_parameter_value_wire(v)->Obj_0, "value"@),
{
    lemma_query_parameter_value_omits_value(v);
}

/// An entry under a key of no field changes nothing in decoding, and no
/// encoding holds such a key.
pub proof fn lemma_query_parameter_value_ignores_unknown(o: Seq<(Seq<char>, WireV)>, k: Seq<char>, x: WireV, v: QueryParameterValueV)
    requires
        !query_parameter_value_keys().contains(k),
    ensures
        query_parameter_value_of(WireV::Obj(o.push((k, x)))) == query_parameter_value_of(WireV::Obj(o)),
        !has_key(query_parameter_value_wire(v)->Obj_0, k),
{
    broadcast use lemma_lookup_push, lemma_lookup_snoc_opt;

    reveal_strlit("value");
    assert(query_parameter_value_keys()[0] == "value"@);
    lemma_lookup_none(query_parameter_value_wire(v)->Obj_0, k);
}

/// A parameter bound into a query.
#[derive(Debug, PartialEq)]
pub struct QueryParameter {
    /// The parameter's name; unset for a positional parameter.
    pub name: Option<String>,
    /// The parameter's type.
    pub parameter_type: QueryParameterType,
    /// The parameter's value.
    pub parameter_value: QueryParameterValue,
}

pub struct QueryParameterV {
    pub name: Option<Seq<char>>,
    pub parameter_type: QueryParameterTypeV,
    pub parameter_value: QueryParameterValueV,
}

impl View for QueryParameter {
    type V = QueryParameterV;

    open spec fn view(&self) -> QueryParameterV {
        QueryParameterV {
            name: match self.name {
                Some(x) => Some(x@),
                None => None,
            },
            parameter_type: self.parameter_type@,
            parameter_value: self.parameter_value@,
        }
    }
}

/// Whether `v` is a valid value: what decoding can produce.
pub open spec fn query_parameter_wf(v: QueryParameterV) -> bool {
    &&& query_parameter_type_wf(v.parameter_type)
    &&& query_parameter_value_wf(v.parameter_value)
}

/// The wire keys of the fields, in declaration order.
pub open spec fn query_parameter_keys() -> Seq<Seq<char>> {
    seq!["name"@, "parameterType"@, "parameterValue"@]
}

/// The wire form: an object holding each set field under its key, in declaration order.
pub open spec fn query_parameter_wire(v: QueryParameterV) -> WireV {
    WireV::Obj(snoc_opt(
        Seq::empty(),
        "name"@,
        match v.name {
            Some(x) => Some(WireV::Str(x)),
            None => None,
        },
    ).push(("parameterType"@, query_parameter_type_wire(v.parameter_type))).push(("parameterValue"@, query_parameter_value_wire(v.parameter_value))))
}

/// The field `name` as decoded from the entries `o`.
pub open spec fn query_parameter_field_name(o: Seq<(Seq<char>, WireV)>) -> Result<Option<Seq<char>>, FaultKind> {
    optional(lookup(o, "name"@), |x: WireV| str_of(x))
}

/// The field `parameter_type` as decoded from the entries `o`.
pub open spec fn query_parameter_field_parameter_type(o: Seq<(Seq<char>, WireV)>) -> Result<QueryParameterTypeV, FaultKind> {
    required(lookup(o, "parameterType"@), |x: WireV| query_parameter_type_from(x))
}

/// The field `parameter_value` as decoded from the entries `o`.
pub open spec fn query_parameter_field_parameter_value(o: Seq<(Seq<char>, WireV)>) -> Result<QueryParameterValueV, FaultKind> {
    required(lookup(o, "parameterValue"@), |x: WireV| query_parameter_value_from(x))
}

/// Decoding: each field looked up by its key; the first field at fault, in
/// declaration order, gives the error; keys of no field are ignored.
pub open spec fn query_parameter_of(w: WireV) -> Result<QueryParameterV, FormatErrorV> {
    match w {
        WireV::Obj(o) => {
            let name = query_parameter_field_name(o);
            let parameter_type = query_parameter_field_parameter_type(o);
            let parameter_value = query_parameter_field_parameter_value(o);
            if name is Err {
                Err(fault(name->Err_0, "QueryParameter"@, "name"@))
            }
            else if parameter_type is Err {
                Err(fault(parameter_type->Err_0, "QueryParameter"@, "parameterType"@))
            }
            else if parameter_value is Err {
                Err(fault(parameter_value->Err_0, "QueryParameter"@, "parameterValue"@))
            } else {
                Ok(QueryParameterV {
                    name: name->Ok_0,
                    parameter_type: parameter_type->Ok_0,
                    parameter_value: parameter_value->Ok_0,
                })
            }
        },
        _ => Err(fault(FaultKind::Invalid, "QueryParameter"@, ""@)),
    }
}

/// The decoded value, where decoding succeeds.
pub open spec fn query_parameter_from(w: WireV) -> Option<QueryParameterV> {
    match query_parameter_of(w) {
        Ok(v) => Some(v),
        Err(_) => None,
    }
}

fn query_parameter_decode_name(o: &Vec<Member>) -> (r: Result<Option<String>, FaultKind>)
    ensures
        match r {
            Ok(x) => query_parameter_field_name(obj_view(o)) == Ok::<_, FaultKind>(match x {
                Some(y) => Some(y@),
                None => None,
            }),
            Err(k) => query_parameter_field_name(obj_view(o)) == Err::<Option<Seq<char>>, FaultKind>(k),
        },
{
    match find(o, "name") {
        None => Ok(None),
        Some(Wire::Null) => Ok(None),
        Some(x) => match str_from(x) {
            Some(v) => Ok(Some(v)),
            None => Err(FaultKind::Invalid),
        },
    }
}

fn query_parameter_decode_parameter_type(o: &Vec<Member>) -> (r: Result<QueryParameterType, FaultKind>)
    ensures
        match r {
            Ok(x) => query_parameter_field_parameter_type(obj_view(o)) == Ok::<_, FaultKind>(x@),
            Err(k) => query_parameter_field_parameter_type(obj_view(o)) == Err::<QueryParameterTypeV, FaultKind>(k),
        },
{
    match find(o, "parameterType") {
        None => Err(FaultKind::Missing),
        Some(x) => match match QueryParameterType::from_wire(x) {
                        Ok(v) => Some(v),
                        Err(_) => None,
                    } {
            Some(v) => Ok(v),
            None => Err(FaultKind::Invalid),
        },
    }
}

fn query_parameter_decode_parameter_value(o: &Vec<Member>) -> (r: Result<QueryParameterValue, FaultKind>)
    ensures
        match r {
            Ok(x) => query_parameter_field_parameter_value(obj_view(o)) == Ok::<_, FaultKind>(x@),
            Err(k) => query_parameter_field_parameter_value(obj_view(o)) == Err::<QueryParameterValueV, FaultKind>(k),
        },
{
    match find(o, "parameterValue") {
        None => Err(FaultKind::Missing),
        Some(x) => match match QueryParameterValue::from_wire(x) {
                        Ok(v) => Some(v),
                        Err(_) => None,
                    } {
            Some(v) => Ok(v),
            None => Err(FaultKind::Invalid),
        },
    }
}

impl QueryParameter {
    /// Encodes the value; unset optional fields are left out.
    pub fn to_wire(&self) -> (w: Wire)
        ensures
            w@ == query_parameter_wire(self@),
    {
        let mut o: Vec<Member> = Vec::new();
        assert(obj_view(&o) =~= Seq::empty());
        if let Some(x) = &self.name {
            put(&mut o, "name", Wire::Str(x.clone()));
        }
        put(&mut o, "parameterType", (&self.parameter_type).to_wire());
        put(&mut o, "parameterValue", (&self.parameter_value).to_wire());
        proof {
            lemma_obj_view(&o);
        }
        Wire::Obj(o)
    }

    /// Decodes a wire value; fails with a format error where a required field is
    /// missing or a value has the wrong shape.
    pub fn from_wire(w: &Wire) -> (r: Result<QueryParameter, FormatError>)
        ensures
            result_view(r) == query_parameter_of(w@),
    {
        match w {
            Wire::Obj(o) => {
                proof {
                    lemma_obj_view(o);
                }
                let name = match query_parameter_decode_name(o) {
                    Ok(x) => x,
                    Err(k) => return Err(make_fault(k, "QueryParameter", "name")),
                };
                let parameter_type = match query_parameter_decode_parameter_type(o) {
                    Ok(x) => x,
                    Err(k) => return Err(make_fault(k, "QueryParameter", "parameterType")),
                };
                let parameter_value = match query_parameter_decode_parameter_value(o) {
                    Ok(x) => x,
                    Err(k) => return Err(make_fault(k, "QueryParameter", "parameterValue")),
                };
                Ok(QueryParameter { name, parameter_type, parameter_value })
            },
            _ => Err(make_fault(FaultKind::Invalid, "QueryParameter", "")),
        }
    }
}

proof fn lemma_query_parameter_field_name_round_trip(v: QueryParameterV)
    requires
        query_parameter_wf(v),
    ensures
        query_parameter_field_name(query_parameter_wire(v)->Obj_0) == Ok::<_, FaultKind>(v.name),
{
    broadcast use lemma_lookup_push, lemma_lookup_snoc_opt;

    reveal_strlit("name");
    reveal_strlit("parameterType");
    reveal_strlit("parameterValue");
    assert("name"@.len() != "parameterType"@.len());
    assert("name"@.len() != "parameterValue"@.len());
}

proof fn lemma_query_parameter_field_parameter_type_round_trip(v: QueryParameterV)
    requires
        query_parameter_wf(v),
    ensures
        query_parameter_field_parameter_type(query_parameter_wire(v)->Obj_0) == Ok::<_, FaultKind>(v.parameter_type),
{
    broadcast use lemma_lookup_push, lemma_lookup_snoc_opt;

    reveal_strlit("name");
    reveal_strlit("parameterType");
    reveal_strlit("parameterValue");
    assert("parameterType"@.len() != "name"@.len());
    assert("parameterType"@.len() != "parameterValue"@.len());
    lemma_query_parameter_type_round_trip(v.parameter_type);
}

proof fn lemma_query_parameter_field_parameter_value_round_trip(v: QueryParameterV)
    requires
        query_parameter_wf(v),
    ensures
        query_parameter_field_parameter_value(query_parameter_wire(v)->Obj_0) == Ok::<_, FaultKind>(v.parameter_value),
{
    broadcast use lemma_lookup_push, lemma_lookup_snoc_opt;

    reveal_strlit("name");
    reveal_strlit("parameterType");
    reveal_strlit("parameterValue");
    assert("parameterValue"@.len() != "name"@.len());
    assert("parameterValue"@.len() != "parameterType"@.len());
    lemma_query_parameter_value_round_trip(v.parameter_value);
}

/// Decoding the encoding of a valid value gives the value back.
pub proof fn lemma_query_parameter_round_trip(v: QueryParameterV)
    requires
        query_parameter_wf(v),
    ensures
        query_parameter_of(query_parameter_wire(v)) == Ok::<QueryParameterV, FormatErrorV>(v),
{
    lemma_query_parameter_field_name_round_trip(v);
    lemma_query_parameter_field_parameter_type_round_trip(v);
    lemma_query_parameter_field_parameter_value_round_trip(v);
}

proof fn lemma_query_parameter_omits_name(v: QueryParameterV)
    ensures
        v.name is None ==> !has_key(query_parameter_wire(v)->Obj_0, "name"@),
{
    broadcast use lemma_lookup_push, lemma_lookup_snoc_opt;

    reveal_strlit("name");
    reveal_strlit("parameterType");
    reveal_strlit("parameterValue");
    assert("name"@.len() != "parameterType"@.len());
    assert("name"@.len() != "parameterValue"@.len());
    lemma_lookup_none(query_parameter_wire(v)->Obj_0, "name"@);
}

/// An optional field left unset has no entry in the encoding.
pub proof fn lemma_query_parameter_omits_unset(v: QueryParameterV)
    ensures
        v.name is None ==> !has_key(query_parameter_wire(v)->Obj_0, "name"@),
{
    lemma_query_parameter_omits_name(v);
}

/// An entry under a key of no field changes nothing in decoding, and no
/// encoding holds such a key.
pub proof fn lemma_query_parameter_ignores_unknown(o: Seq<(Seq<char>, WireV)>, k: Seq<char>, x: WireV, v: QueryParameterV)
    requires
        !query_parameter_keys().contains(k),
    ensures
        query_parameter_of(WireV::Obj(o.push((k, x)))) == query_parameter_of(WireV::Obj(o)),
        !has_key(query_parameter_wire(v)->Obj_0, k),
{
    broadcast use lemma_lookup_push, lemma_lookup_snoc_opt;

    reveal_strlit("name");
    reveal_strlit("parameterType");
    reveal_strlit("parameterValue");
    assert("name"@.len() != "parameterType"@.len());
    assert("name"@.len() != "parameterValue"@.len());
    assert("parameterType"@.len() != "parameterValue"@.len());
    assert(query_parameter_keys()[0] == "name"@);
    assert(query_parameter_keys()[1] == "parameterType"@);
    assert(query_parameter_keys()[2] == "parameterValue"@);
    lemma_lookup_none(query_parameter_wire(v)->Obj_0, k);
}

/// Removing the entry of the required field `parameter_type` from a valid encoding makes
/// decoding fail with a format error naming that field.
pub proof fn lemma_query_parameter_requires_parameter_type(v: QueryParameterV)
    requires
        query_parameter_wf(v),
    ensures
        query_parameter_of(WireV::Obj(without(query_parameter_wire(v)->Obj_0, "parameterType"@))) == Err::<QueryParameterV, FormatErrorV>(
            fault(FaultKind::Missing, "QueryParameter"@, "parameterType"@),
        ),
{
    broadcast use lemma_lookup_without;

    reveal_strlit("name");
    reveal_strlit("parameterType");
    reveal_strlit("parameterValue");
    assert("parameterType"@.len() != "name"@.len());
    assert("parameterType"@.len() != "parameterValue"@.len());
    let o = query_parameter_wire(v)->Obj_0;
    lemma_query_parameter_field_name_round_trip(v);
    assert(query_parameter_field_name(without(o, "parameterType"@)) == query_parameter_field_name(o));
}

/// Removing the entry of the required field `parameter_value` from a valid encoding makes
/// decoding fail with a format error naming that field.
pub proof fn lemma_query_parameter_requires_parameter_value(v: QueryParameterV)
    requires
        query_parameter_wf(v),
    ensures
        query_parameter_of(WireV::Obj(without(query_parameter_wire(v)->Obj_0, "parameterValue"@))) == Err::<QueryParameterV, FormatErrorV>(
            fault(FaultKind::Missing, "QueryParameter"@, "parameterValue"@),
        ),
{
    broadcast use lemma_lookup_without;

    reveal_strlit("name");
    reveal_strlit("parameterType");
    reveal_strlit("parameterValue");
    assert("parameterValue"@.len() != "name"@.len());
    assert("parameterValue"@.len() != "parameterType"@.len());
    let o = query_parameter_wire(v)->Obj_0;
    lemma_query_parameter_field_name_round_trip(v);
    assert(query_parameter_field_name(without(o, "parameterValue"@)) == query_parameter_field_name(o));
    lemma_query_parameter_field_parameter_type_round_trip(v);
    assert(query_parameter_field_parameter_type(without(o, "parameterValue"@)) == query_parameter_field_parameter_type(o));
}

/// The models of a sequence of values.
pub open spec fn query_parameter_seq_view(v: Seq<QueryParameter>) -> Seq<QueryParameterV> {
    v.map_values(|e: QueryParameter| e@)
}

/// A sequence encodes as an array of the elements' encodings.
pub open spec fn query_parameter_seq_wire(s: Seq<QueryParameterV>) -> WireV {
    WireV::Arr(s.map_values(|e: QueryParameterV| query_parameter_wire(e)))
}

pub open spec fn query_parameter_seq_wf(s: Seq<QueryParameterV>) -> bool {
    forall|i: int| 0 <= i < s.len() ==> query_parameter_wf(#[trigger] s[i])
}

/// An array whose every element decodes, decoded element by element.
pub open spec fn query_parameter_seq_from(w: WireV) -> Option<Seq<QueryParameterV>> {
    match w {
        WireV::Arr(items) => if forall|i: int| 0 <= i < items.len() ==> #[trigger] query_parameter_from(items[i]) is Some {
            Some(Seq::new(items.len(), |i: int| query_parameter_from(items[i])->Some_0))
        } else {
            None
        },
        _ => None,
    }
}

pub fn query_parameter_seq_to_wire(v: &Vec<QueryParameter>) -> (w: Wire)
    ensures
        w@ == query_parameter_seq_wire(query_parameter_seq_view(v@)),
{
    let mut out: Vec<Wire> = Vec::new();
    let mut i: usize = 0;
    while i < v.len()
        invariant
            i <= v.len(),
            out.len() == i,
            forall|j: int| 0 <= j < i ==> (#[trigger] out[j])@ == query_parameter_wire(v[j]@),
        decreases v.len() - i,
    {
        out.push(v[i].to_wire());
        i = i + 1;
    }
    proof {
        lemma_arr_view(&out);
        assert(arr_view(&out) =~= query_parameter_seq_wire(query_parameter_seq_view(v@))->Arr_0);
    }
    Wire::Arr(out)
}

pub fn query_parameter_seq_from_wire(w: &Wire) -> (r: Option<Vec<QueryParameter>>)
    ensures
        match r {
            Some(v) => query_parameter_seq_from(w@) == Some(query_parameter_seq_view(v@)),
            None => query_parameter_seq_from(w@) is None,
        },
{
    match w {
        Wire::Arr(items) => {
            proof {
                lemma_arr_view(items);
            }
            let mut out: Vec<QueryParameter> = Vec::new();
            let mut i: usize = 0;
            while i < items.len()
                invariant
                    i <= items.len(),
                    out.len() == i,
                    w@ == WireV::Arr(arr_view(items)),
                    forall|j: int| 0 <= j < i ==> query_parameter_from(#[trigger] arr_view(items)[j]) == Some(out[j]@),
                decreases items.len() - i,
            {
                assert(arr_view(items)[i as int] == items[i as int]@);
                match QueryParameter::from_wire(&items[i]) {
                    Ok(e) => out.push(e),
                    Err(_) => {
                        assert(query_parameter_from(arr_view(items)[i as int]) is None);
                        return None;
                    },
                }
                i = i + 1;
            }
            proof {
                assert(forall|j: int| 0 <= j < items.len() ==> query_parameter_from(#[trigger] arr_view(items)[j]) is Some);
                assert(query_parameter_seq_from(w@)->Some_0 =~= query_parameter_seq_view(out@));
            }
            Some(out)
        },
        _ => None,
    }
}

/// Decoding the encoding of a sequence of valid values gives the sequence back.
pub proof fn lemma_query_parameter_seq_round_trip(s: Seq<QueryParameterV>)
    requires
        query_parameter_seq_wf(s),
    ensures
        query_parameter_seq_from(query_parameter_seq_wire(s)) == Some(s),
{
    let items = query_parameter_seq_wire(s)->Arr_0;
    assert forall|i: int| 0 <= i < items.len() implies #[trigger] query_parameter_from(items[i]) == Some(s[i]) by {
        lemma_query_parameter_round_trip(s[i]);
    }
    assert(query_parameter_seq_from(query_parameter_seq_wire(s))->Some_0 =~= s);
}

/// An empty sequence encodes as an empty array, which decodes to an empty sequence.
pub proof fn lemma_query_parameter_seq_empty()
    ensures
        query_parameter_seq_wire(Seq::empty()) == WireV::Arr(Seq::empty()),
        query_parameter_seq_from(WireV::Arr(Seq::empty())) == Some(Seq::<QueryParameterV>::empty()),
{
    assert(query_parameter_seq_wire(Seq::empty())->Arr_0 =~= Seq::empty());
    assert(query_parameter_seq_from(WireV::Arr(Seq::empty()))->Some_0 =~= Seq::<QueryParameterV>::empty());
}

} // verus!
