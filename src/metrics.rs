//! Evaluation metrics for multi-class classification models.
use vstd::prelude::*;
use crate::wire::{Wire, WireV, Member, FaultKind, FormatError, FormatErrorV, fault, make_fault, result_view, lookup, find, obj_view, arr_view, lemma_obj_view, lemma_arr_view, snoc_opt, lemma_lookup_push, lemma_lookup_snoc_opt, has_key, lemma_lookup_none, optional, required, str_of, is_numeric_text, numeric_text_of, put, str_from, numeric_text_from};

verus! {

/// The number of items that were predicted as one label.
#[derive(Debug, PartialEq)]
pub struct Entry {
    /// The number of items predicted as the label; decimal text of an integer.
    pub item_count: Option<String>,
    /// The predicted label.
    pub predicted_label: Option<String>,
}

pub struct EntryV {
    pub item_count: Option<Seq<char>>,
    pub predicted_label: Option<Seq<char>>,
}

impl View for Entry {
    type V = EntryV;

    open spec fn view(&self) -> EntryV {
        EntryV {
            item_count: match self.item_count {
                Some(x) => Some(x@),
                None => None,
            },
            predicted_label: match self.predicted_label {
                Some(x) => Some(x@),
                None => None,
            },
        }
    }
}

/// Whether `v` is a valid value: what decoding can produce.
pub open spec fn entry_wf(v: EntryV) -> bool {
    &&& match v.item_count {
        Some(x) => is_numeric_text(x),
        None => true,
    }
}

/// The wire keys of the fields, in declaration order.
pub open spec fn entry_keys() -> Seq<Seq<char>> {
    seq!["itemCount"@, "predictedLabel"@]
}

/// The wire form: an object holding each set field under its key, in declaration order.
pub open spec fn entry_wire(v: EntryV) -> WireV {
    WireV::Obj(snoc_opt(
        snoc_opt(
            Seq::empty(),
            "itemCount"@,
            match v.item_count {
                Some(x) => Some(WireV::Str(x)),
                None => None,
            },
        ),
        "predictedLabel"@,
        match v.predicted_label {
            Some(x) => Some(WireV::Str(x)),
            None => None,
        },
    ))
}

/// The field `item_count` as decoded from the entries `o`.
pub open spec fn entry_field_item_count(o: Seq<(Seq<char>, WireV)>) -> Result<Option<Seq<char>>, FaultKind> {
    optional(lookup(o, "itemCount"@), |x: WireV| numeric_text_of(x))
}

/// The field `predicted_label` as decoded from the entries `o`.
pub open spec fn entry_field_predicted_label(o: Seq<(Seq<char>, WireV)>) -> Result<Option<Seq<char>>, FaultKind> {
    optional(lookup(o, "predictedLabel"@), |x: WireV| str_of(x))
}

/// Decoding: each field looked up by its key; the first field at fault, in
/// declaration order, gives the error; keys of no field are ignored.
pub open spec fn entry_of(w: WireV) -> Result<EntryV, FormatErrorV> {
    match w {
        WireV::Obj(o) => {
            let item_count = entry_field_item_count(o);
            let predicted_label = entry_field_predicted_label(o);
            if item_count is Err {
                Err(fault(item_count->Err_0, "Entry"@, "itemCount"@))
            }
            else if predicted_label is Err {
                Err(fault(predicted_label->Err_0, "Entry"@, "predictedLabel"@))
            } else {
                Ok(EntryV {
                    item_count: item_count->Ok_0,
                    predicted_label: predicted_label->Ok_0,
                })
            }
        },
        _ => Err(fault(FaultKind::Invalid, "Entry"@, ""@)),
    }
}

/// The decoded value, where decoding succeeds.
pub open spec fn entry_from(w: WireV) -> Option<EntryV> {
    match entry_of(w) {
        Ok(v) => Some(v),
        Err(_) => None,
    }
}

fn entry_decode_item_count(o: &Vec<Member>) -> (r: Result<Option<String>, FaultKind>)
    ensures
        match r {
            Ok(x) => entry_field_item_count(obj_view(o)) == Ok::<_, FaultKind>(match x {
                Some(y) => Some(y@),
                None => None,
            }),
            Err(k) => entry_field_item_count(obj_view(o)) == Err::<Option<Seq<char>>, FaultKind>(k),
        },
{
    match find(o, "itemCount") {
        None => Ok(None),
        Some(Wire::Null) => Ok(None),
        Some(x) => match numeric_text_from(x) {
            Some(v) => Ok(Some(v)),
            None => Err(FaultKind::Invalid),
        },
    }
}

fn entry_decode_predicted_label(o: &Vec<Member>) -> (r: Result<Option<String>, FaultKind>)
    ensures
        match r {
            Ok(x) => entry_field_predicted_label(obj_view(o)) == Ok::<_, FaultKind>(match x {
                Some(y) => Some(y@),
                None => None,
            }),
            Err(k) => entry_field_predicted_label(obj_view(o)) == Err::<Option<Seq<char>>, FaultKind>(k),
        },
{
    match find(o, "predictedLabel") {
        None => Ok(None),
        Some(Wire::Null) => Ok(None),
        Some(x) => match str_from(x) {
            Some(v) => Ok(Some(v)),
            None => Err(FaultKind::Invalid),
        },
    }
}

impl Entry {
    /// Encodes the value; unset optional fields are left out.
    pub fn to_wire(&self) -> (w: Wire)
        ensures
            w@ == entry_wire(self@),
    {
        let mut o: Vec<Member> = Vec::new();
        assert(obj_view(&o) =~= Seq::empty());
        if let Some(x) = &self.item_count {
            put(&mut o, "itemCount", Wire::Str(x.clone()));
        }
        if let Some(x) = &self.predicted_label {
            put(&mut o, "predictedLabel", Wire::Str(x.clone()));
        }
        proof {
            lemma_obj_view(&o);
        }
        Wire::Obj(o)
    }

    /// Decodes a wire value; fails with a format error where a required field is
    /// missing or a value has the wrong shape.
    pub fn from_wire(w: &Wire) -> (r: Result<Entry, FormatError>)
        ensures
            result_view(r) == entry_of(w@),
    {
        match w {
            Wire::Obj(o) => {
                proof {
                    lemma_obj_view(o);
                }
                let item_count = match entry_decode_item_count(o) {
                    Ok(x) => x,
                    Err(k) => return Err(make_fault(k, "Entry", "itemCount")),
                };
                let predicted_label = match entry_decode_predicted_label(o) {
                    Ok(x) => x,
                    Err(k) => return Err(make_fault(k, "Entry", "predictedLabel")),
                };
                Ok(Entry { item_count, predicted_label })
            },
            _ => Err(make_fault(FaultKind::Invalid, "Entry", "")),
        }
    }
}

proof fn lemma_entry_field_item_count_round_trip(v: EntryV)
    requires
        entry_wf(v),
    ensures
        entry_field_item_count(entry_wire(v)->Obj_0) == Ok::<_, FaultKind>(v.item_count),
{
    broadcast use lemma_lookup_push, lemma_lookup_snoc_opt;

    reveal_strlit("itemCount");
    reveal_strlit("predictedLabel");
    assert("itemCount"@.len() != "predictedLabel"@.len());
}

proof fn lemma_entry_field_predicted_label_round_trip(v: EntryV)
    requires
        entry_wf(v),
    ensures
        entry_field_predicted_label(entry_wire(v)->Obj_0) == Ok::<_, FaultKind>(v.predicted_label),
{
    broadcast use lemma_lookup_push, lemma_lookup_snoc_opt;

    reveal_strlit("itemCount");
    reveal_strlit("predictedLabel");
    assert("predictedLabel"@.len() != "itemCount"@.len());
}

/// Decoding the encoding of a valid value gives the value back.
pub proof fn lemma_entry_round_trip(v: EntryV)
    requires
        entry_wf(v),
    ensures
        entry_of(entry_wire(v)) == Ok::<EntryV, FormatErrorV>(v),
{
    lemma_entry_field_item_count_round_trip(v);
    lemma_entry_field_predicted_label_round_trip(v);
}

proof fn lemma_entry_omits_item_count(v: EntryV)
    ensures
        v.item_count is None ==> !has_key(entry_wire(v)->Obj_0, "itemCount"@),
{
    broadcast use lemma_lookup_push, lemma_lookup_snoc_opt;

    reveal_strlit("itemCount");
    reveal_strlit("predictedLabel");
    assert("itemCount"@.len() != "predictedLabel"@.len());
    lemma_lookup_none(entry_wire(v)->Obj_0, "itemCount"@);
}

proof fn lemma_entry_omits_predicted_label(v: EntryV)
    ensures
        v.predicted_label is None ==> !has_key(entry_wire(v)->Obj_0, "predictedLabel"@),
{
    broadcast use lemma_lookup_push, lemma_lookup_snoc_opt;

    reveal_strlit("itemCount");
    reveal_strlit("predictedLabel");
    assert("predictedLabel"@.len() != "itemCount"@.len());
    lemma_lookup_none(entry_wire(v)->Obj_0, "predictedLabel"@);
}

/// An optional field left unset has no entry in the encoding.
pub proof fn lemma_entry_omits_unset(v: EntryV)
    ensures
        v.item_count is None ==> !has_key(entry_wire(v)->Obj_0, "itemCount"@),
        v.predicted_label is None ==> !has_key(entry_wire(v)->Obj_0, "predictedLabel"@),
{
    lemma_entry_omits_item_count(v);
    lemma_entry_omits_predicted_label(v);
}

/// An entry under a key of no field changes nothing in decoding, and no
/// encoding holds such a key.
pub proof fn lemma_entry_ignores_unknown(o: Seq<(Seq<char>, WireV)>, k: Seq<char>, x: WireV, v: EntryV)
    requires
        !entry_keys().contains(k),
    ensures
        entry_of(WireV::Obj(o.push((k, x)))) == entry_of(WireV::Obj(o)),
        !has_key(entry_wire(v)->Obj_0, k),
{
    broadcast use lemma_lookup_push, lemma_lookup_snoc_opt;

    reveal_strlit("itemCount");
    reveal_strlit("predictedLabel");
    assert("itemCount"@.len() != "predictedLabel"@.len());
    assert(entry_keys()[0] == "itemCount"@);
    assert(entry_keys()[1] == "predictedLabel"@);
    lemma_lookup_none(entry_wire(v)->Obj_0, k);
}

/// The models of a sequence of values.
pub open spec fn entry_seq_view(v: Seq<Entry>) -> Seq<EntryV> {
    v.map_values(|e: Entry| e@)
}

/// A sequence encodes as an array of the elements' encodings.
pub open spec fn entry_seq_wire(s: Seq<EntryV>) -> WireV {
    WireV::Arr(s.map_values(|e: EntryV| entry_wire(e)))
}

pub open spec fn entry_seq_wf(s: Seq<EntryV>) -> bool {
    forall|i: int| 0 <= i < s.len() ==> entry_wf(#[trigger] s[i])
}

/// An array whose every element decodes, decoded element by element.
pub open spec fn entry_seq_from(w: WireV) -> Option<Seq<EntryV>> {
    match w {
        WireV::Arr(items) => if forall|i: int| 0 <= i < items.len() ==> #[trigger] entry_from(items[i]) is Some {
            Some(Seq::new(items.len(), |i: int| entry_from(items[i])->Some_0))
        } else {
            None
        },
        _ => None,
    }
}

pub fn entry_seq_to_wire(v: &Vec<Entry>) -> (w: Wire)
    ensures
        w@ == entry_seq_wire(entry_seq_view(v@)),
{
    let mut out: Vec<Wire> = Vec::new();
    let mut i: usize = 0;
    while i < v.len()
        invariant
            i <= v.len(),
            out.len() == i,
            forall|j: int| 0 <= j < i ==> (#[trigger] out[j])@ == entry_wire(v[j]@),
        decreases v.len() - i,
    {
        out.push(v[i].to_wire());
        i = i + 1;
    }
    proof {
        lemma_arr_view(&out);
        assert(arr_view(&out) =~= entry_seq_wire(entry_seq_view(v@))->Arr_0);
    }
    Wire::Arr(out)
}

pub fn entry_seq_from_wire(w: &Wire) -> (r: Option<Vec<Entry>>)
    ensures
        match r {
            Some(v) => entry_seq_from(w@) == Some(entry_seq_view(v@)),
            None => entry_seq_from(w@) is None,
        },
{
    match w {
        Wire::Arr(items) => {
            proof {
                lemma_arr_view(items);
            }
            let mut out: Vec<Entry> = Vec::new();
            let mut i: usize = 0;
            while i < items.len()
                invariant
                    i <= items.len(),
                    out.len() == i,
                    w@ == WireV::Arr(arr_view(items)),
                    forall|j: int| 0 <= j < i ==> entry_from(#[trigger] arr_view(items)[j]) == Some(out[j]@),
                decreases items.len() - i,
            {
                assert(arr_view(items)[i as int] == items[i as int]@);
                match Entry::from_wire(&items[i]) {
                    Ok(e) => out.push(e),
                    Err(_) => {
                        assert(entry_from(arr_view(items)[i as int]) is None);
                        return None;
                    },
                }
                i = i + 1;
            }
            proof {
                assert(forall|j: int| 0 <= j < items.len() ==> entry_from(#[trigger] arr_view(items)[j]) is Some);
                assert(entry_seq_from(w@)->Some_0 =~= entry_seq_view(out@));
            }
            Some(out)
        },
        _ => None,
    }
}

/// Decoding the encoding of a sequence of valid values gives the sequence back.
pub proof fn lemma_entry_seq_round_trip(s: Seq<EntryV>)
    requires
        entry_seq_wf(s),
    ensures
        entry_seq_from(entry_seq_wire(s)) == Some(s),
{
    let items = entry_seq_wire(s)->Arr_0;
    assert forall|i: int| 0 <= i < items.len() implies #[trigger] entry_from(items[i]) == Some(s[i]) by {
        lemma_entry_round_trip(s[i]);
    }
    assert(entry_seq_from(entry_seq_wire(s))->Some_0 =~= s);
}

/// An empty sequence encodes as an empty array, which decodes to an empty sequence.
pub proof fn lemma_entry_seq_empty()
    ensures
        entry_seq_wire(Seq::empty()) == WireV::Arr(Seq::empty()),
        entry_seq_from(WireV::Arr(Seq::empty())) == Some(Seq::<EntryV>::empty()),
{
    assert(entry_seq_wire(Seq::empty())->Arr_0 =~= Seq::empty());
    assert(entry_seq_from(WireV::Arr(Seq::empty()))->Some_0 =~= Seq::<EntryV>::empty());
}

/// A single row in the confusion matrix.
#[derive(Debug, PartialEq)]
pub struct Row {
    /// The original label of this row.
    pub actual_label: Option<String>,
    /// Info describing predicted label distribution.
    pub entries: Option<Vec<Entry>>,
}

pub struct RowV {
    pub actual_label: Option<Seq<char>>,
    pub entries: Option<Seq<EntryV>>,
}

impl View for Row {
    type V = RowV;

    open spec fn view(&self) -> RowV {
        RowV {
            actual_label: match self.actual_label {
                Some(x) => Some(x@),
                None => None,
            },
            entries: match self.entries {
                Some(x) => Some(entry_seq_view(x@)),
                None => None,
            },
        }
    }
}

/// Whether `v` is a valid value: what decoding can produce.
pub open spec fn row_wf(v: RowV) -> bool {
    &&& match v.entries {
        Some(x) => entry_seq_wf(x),
        None => true,
    }
}

/// The wire keys of the fields, in declaration order.
pub open spec fn row_keys() -> Seq<Seq<char>> {
    seq!["actualLabel"@, "entries"@]
}

/// The wire form: an object holding each set field under its key, in declaration order.
pub open spec fn row_wire(v: RowV) -> WireV {
    WireV::Obj(snoc_opt(
        snoc_opt(
            Seq::empty(),
            "actualLabel"@,
            match v.actual_label {
                Some(x) => Some(WireV::Str(x)),
                None => None,
            },
        ),
        "entries"@,
        match v.entries {
            Some(x) => Some(entry_seq_wire(x)),
            None => None,
        },
    ))
}

/// The field `actual_label` as decoded from the entries `o`.
pub open spec fn row_field_actual_label(o: Seq<(Seq<char>, WireV)>) -> Result<Option<Seq<char>>, FaultKind> {
    optional(lookup(o, "actualLabel"@), |x: WireV| str_of(x))
}

/// The field `entries` as decoded from the entries `o`.
pub open spec fn row_field_entries(o: Seq<(Seq<char>, WireV)>) -> Result<Option<Seq<EntryV>>, FaultKind> {
    optional(lookup(o, "entries"@), |x: WireV| entry_seq_from(x))
}

/// Decoding: each field looked up by its key; the first field at fault, in
/// declaration order, gives the error; keys of no field are ignored.
pub open spec fn row_of(w: WireV) -> Result<RowV, FormatErrorV> {
    match w {
        WireV::Obj(o) => {
            let actual_label = row_field_actual_label(o);
            let entries = row_field_entries(o);
            if actual_label is Err {
                Err(fault(actual_label->Err_0, "Row"@, "actualLabel"@))
            }
            else if entries is Err {
                Err(fault(entries->Err_0, "Row"@, "entries"@))
            } else {
                Ok(RowV {
                    actual_label: actual_label->Ok_0,
                    entries: entries->Ok_0,
                })
            }
        },
        _ => Err(fault(FaultKind::Invalid, "Row"@, ""@)),
    }
}

/// The decoded value, where decoding succeeds.
pub open spec fn row_from(w: WireV) -> Option<RowV> {
    match row_of(w) {
        Ok(v) => Some(v),
        Err(_) => None,
    }
}

fn row_decode_actual_label(o: &Vec<Member>) -> (r: Result<Option<String>, FaultKind>)
    ensures
        match r {
            Ok(x) => row_field_actual_label(obj_view(o)) == Ok::<_, FaultKind>(match x {
                Some(y) => Some(y@),
                None => None,
            }),
            Err(k) => row_field_actual_label(obj_view(o)) == Err::<Option<Seq<char>>, FaultKind>(k),
        },
{
    match find(o, "actualLabel") {
        None => Ok(None),
        Some(Wire::Null) => Ok(None),
        Some(x) => match str_from(x) {
            Some(v) => Ok(Some(v)),
            None => Err(FaultKind::Invalid),
        },
    }
}

fn row_decode_entries(o: &Vec<Member>) -> (r: Result<Option<Vec<Entry>>, FaultKind>)
    ensures
        match r {
            Ok(x) => row_field_entries(obj_view(o)) == Ok::<_, FaultKind>(match x {
                Some(y) => Some(entry_seq_view(y@)),
                None => None,
            }),
            Err(k) => row_field_entries(obj_view(o)) == Err::<Option<Seq<EntryV>>, FaultKind>(k),
        },
{
    match find(o, "entries") {
        None => Ok(None),
        Some(Wire::Null) => Ok(None),
        Some(x) => match entry_seq_from_wire(x) {
            Some(v) => Ok(Some(v)),
            None => Err(FaultKind::Invalid),
        },
    }
}

impl Row {
    /// Encodes the value; unset optional fields are left out.
    pub fn to_wire(&self) -> (w: Wire)
        ensures
            w@ == row_wire(self@),
    {
        let mut o: Vec<Member> = Vec::new();
        assert(obj_view(&o) =~= Seq::empty());
        if let Some(x) = &self.actual_label {
            put(&mut o, "actualLabel", Wire::Str(x.clone()));
        }
        if let Some(x) = &self.entries {
            put(&mut o, "entries", entry_seq_to_wire(x));
        }
        proof {
            lemma_obj_view(&o);
        }
        Wire::Obj(o)
    }

    /// Decodes a wire value; fails with a format error where a required field is
    /// missing or a value has the wrong shape.
    pub fn from_wire(w: &Wire) -> (r: Result<Row, FormatError>)
        ensures
            result_view(r) == row_of(w@),
    {
        match w {
            Wire::Obj(o) => {
                proof {
                    lemma_obj_view(o);
                }
                let actual_label = match row_decode_actual_label(o) {
                    Ok(x) => x,
                    Err(k) => return Err(make_fault(k, "Row", "actualLabel")),
                };
                let entries = match row_decode_entries(o) {
                    Ok(x) => x,
                    Err(k) => return Err(make_fault(k, "Row", "entries")),
                };
                Ok(Row { actual_label, entries })
            },
            _ => Err(make_fault(FaultKind::Invalid, "Row", "")),
        }
    }
}

proof fn lemma_row_field_actual_label_round_trip(v: RowV)
    requires
        row_wf(v),
    ensures
        row_field_actual_label(row_wire(v)->Obj_0) == Ok::<_, FaultKind>(v.actual_label),
{
    broadcast use lemma_lookup_push, lemma_lookup_snoc_opt;

    reveal_strlit("actualLabel");
    reveal_strlit("entries");
    assert("actualLabel"@.len() != "entries"@.len());
}

proof fn lemma_row_field_entries_round_trip(v: RowV)
    requires
        row_wf(v),
    ensures
        row_field_entries(row_wire(v)->Obj_0) == Ok::<_, FaultKind>(v.entries),
{
    broadcast use lemma_lookup_push, lemma_lookup_snoc_opt;

    reveal_strlit("actualLabel");
    reveal_strlit("entries");
    assert("entries"@.len() != "actualLabel"@.len());
    if let Some(x) = v.entries {
        lemma_entry_seq_round_trip(x);
    }
}

/// Decoding the encoding of a valid value gives the value back.
pub proof fn lemma_row_round_trip(v: RowV)
    requires
        row_wf(v),
    ensures
        row_of(row_wire(v)) == Ok::<RowV, FormatErrorV>(v),
{
    lemma_row_field_actual_label_round_trip(v);
    lemma_row_field_entries_round_trip(v);
}

proof fn lemma_row_omits_actual_label(v: RowV)
    ensures
        v.actual_label is None ==> !has_key(row_wire(v)->Obj_0, "actualLabel"@),
{
    broadcast use lemma_lookup_push, lemma_lookup_snoc_opt;

    reveal_strlit("actualLabel");
    reveal_strlit("entries");
    assert("actualLabel"@.len() != "entries"@.len());
    lemma_lookup_none(row_wire(v)->Obj_0, "actualLabel"@);
}

proof fn lemma_row_omits_entries(v: RowV)
    ensures
        v.entries is None ==> !has_key(row_wire(v)->Obj_0, "entries"@),
{
    broadcast use lemma_lookup_push, lemma_lookup_snoc_opt;

    reveal_strlit("actualLabel");
    reveal_strlit("entries");
    assert("entries"@.len() != "actualLabel"@.len());
    lemma_lookup_none(row_wire(v)->Obj_0, "entries"@);
}

/// An optional field left unset has no entry in the encoding.
pub proof fn lemma_row_omits_unset(v: RowV)
    ensures
        v.actual_label is None ==> !has_key(row_wire(v)->Obj_0, "actualLabel"@),
        v.entries is None ==> !has_key(row_wire(v)->Obj_0, "entries"@),
{
    lemma_row_omits_actual_label(v);
    lemma_row_omits_entries(v);
}

/// An entry under a key of no field changes nothing in decoding, and no
/// encoding holds such a key.
pub proof fn lemma_row_ignores_unknown(o: Seq<(Seq<char>, WireV)>, k: Seq<char>, x: WireV, v: RowV)
    requires
        !row_keys().contains(k),
    ensures
        row_of(WireV::Obj(o.push((k, x)))) == row_of(WireV::Obj(o)),
        !has_key(row_wire(v)->Obj_0, k),
{
    broadcast use lemma_lookup_push, lemma_lookup_snoc_opt;

    reveal_strlit("actualLabel");
    reveal_strlit("entries");
    assert("actualLabel"@.len() != "entries"@.len());
    assert(row_keys()[0] == "actualLabel"@);
    assert(row_keys()[1] == "entries"@);
    lemma_lookup_none(row_wire(v)->Obj_0, k);
}

/// The models of a sequence of values.
pub open spec fn row_seq_view(v: Seq<Row>) -> Seq<RowV> {
    v.map_values(|e: Row| e@)
}

/// A sequence encodes as an array of the elements' encodings.
pub open spec fn row_seq_wire(s: Seq<RowV>) -> WireV {
    WireV::Arr(s.map_values(|e: RowV| row_wire(e)))
}

pub open spec fn row_seq_wf(s: Seq<RowV>) -> bool {
    forall|i: int| 0 <= i < s.len() ==> row_wf(#[trigger] s[i])
}

/// An array whose every element decodes, decoded element by element.
pub open spec fn row_seq_from(w: WireV) -> Option<Seq<RowV>> {
    match w {
        WireV::Arr(items) => if forall|i: int| 0 <= i < items.len() ==> #[trigger] row_from(items[i]) is Some {
            Some(Seq::new(items.len(), |i: int| row_from(items[i])->Some_0))
        } else {
            None
        },
        _ => None,
    }
}

pub fn row_seq_to_wire(v: &Vec<Row>) -> (w: Wire)
    ensures
        w@ == row_seq_wire(row_seq_view(v@)),
{
    let mut out: Vec<Wire> = Vec::new();
    let mut i: usize = 0;
    while i < v.len()
        invariant
            i <= v.len(),
            out.len() == i,
            forall|j: int| 0 <= j < i ==> (#[trigger] out[j])@ == row_wire(v[j]@),
        decreases v.len() - i,
    {
        out.push(v[i].to_wire());
        i = i + 1;
    }
    proof {
        lemma_arr_view(&out);
        assert(arr_view(&out) =~= row_seq_wire(row_seq_view(v@))->Arr_0);
    }
    Wire::Arr(out)
}

pub fn row_seq_from_wire(w: &Wire) -> (r: Option<Vec<Row>>)
    ensures
        match r {
            Some(v) => row_seq_from(w@) == Some(row_seq_view(v@)),
            None => row_seq_from(w@) is None,
        },
{
    match w {
        Wire::Arr(items) => {
            proof {
                lemma_arr_view(items);
            }
            let mut out: Vec<Row> = Vec::new();
            let mut i: usize = 0;
            while i < items.len()
                invariant
                    i <= items.len(),
                    out.len() == i,
                    w@ == WireV::Arr(arr_view(items)),
                    forall|j: int| 0 <= j < i ==> row_from(#[trigger] arr_view(items)[j]) == Some(out[j]@),
                decreases items.len() - i,
            {
                assert(arr_view(items)[i as int] == items[i as int]@);
                match Row::from_wire(&items[i]) {
                    Ok(e) => out.push(e),
                    Err(_) => {
                        assert(row_from(arr_view(items)[i as int]) is None);
                        return None;
                    },
                }
                i = i + 1;
            }
            proof {
                assert(forall|j: int| 0 <= j < items.len() ==> row_from(#[trigger] arr_view(items)[j]) is Some);
                assert(row_seq_from(w@)->Some_0 =~= row_seq_view(out@));
            }
            Some(out)
        },
        _ => None,
    }
}

/// Decoding the encoding of a sequence of valid values gives the sequence back.
pub proof fn lemma_row_seq_round_trip(s: Seq<RowV>)
    requires
        row_seq_wf(s),
    ensures
        row_seq_from(row_seq_wire(s)) == Some(s),
{
    let items = row_seq_wire(s)->Arr_0;
    assert forall|i: int| 0 <= i < items.len() implies #[trigger] row_from(items[i]) == Some(s[i]) by {
        lemma_row_round_trip(s[i]);
    }
    assert(row_seq_from(row_seq_wire(s))->Some_0 =~= s);
}

/// An empty sequence encodes as an empty array, which decodes to an empty sequence.
pub proof fn lemma_row_seq_empty()
    ensures
        row_seq_wire(Seq::empty()) == WireV::Arr(Seq::empty()),
        row_seq_from(WireV::Arr(Seq::empty())) == Some(Seq::<RowV>::empty()),
{
    assert(row_seq_wire(Seq::empty())->Arr_0 =~= Seq::empty());
    assert(row_seq_from(WireV::Arr(Seq::empty()))->Some_0 =~= Seq::<RowV>::empty());
}

/// A confusion matrix at one decision threshold.
#[derive(Debug, PartialEq)]
pub struct ConfusionMatrix {
    /// One row for each actual label.
    pub rows: Option<Vec<Row>>,
}

pub struct ConfusionMatrixV {
    pub rows: Option<Seq<RowV>>,
}

impl View for ConfusionMatrix {
    type V = ConfusionMatrixV;

    open spec fn view(&self) -> ConfusionMatrixV {
        ConfusionMatrixV {
            rows: match self.rows {
                Some(x) => Some(row_seq_view(x@)),
                None => None,
            },
        }
    }
}

/// Whether `v` is a valid value: what decoding can produce.
pub open spec fn confusion_matrix_wf(v: ConfusionMatrixV) -> bool {
    &&& match v.rows {
        Some(x) => row_seq_wf(x),
        None => true,
    }
}

/// The wire keys of the fields, in declaration order.
pub open spec fn confusion_matrix_keys() -> Seq<Seq<char>> {
    seq!["rows"@]
}

/// The wire form: an object holding each set field under its key, in declaration order.
pub open spec fn confusion_matrix_wire(v: ConfusionMatrixV) -> WireV {
    WireV::Obj(snoc_opt(
        Seq::empty(),
        "rows"@,
        match v.rows {
            Some(x) => Some(row_seq_wire(x)),
            None => None,
        },
    ))
}

/// The field `rows` as decoded from the entries `o`.
pub open spec fn confusion_matrix_field_rows(o: Seq<(Seq<char>, WireV)>) -> Result<Option<Seq<RowV>>, FaultKind> {
    optional(lookup(o, "rows"@), |x: WireV| row_seq_from(x))
}

/// Decoding: each field looked up by its key; the first field at fault, in
/// declaration order, gives the error; keys of no field are ignored.
pub open spec fn confusion_matrix_of(w: WireV) -> Result<ConfusionMatrixV, FormatErrorV> {
    match w {
        WireV::Obj(o) => {
            let rows = confusion_matrix_field_rows(o);
            if rows is Err {
                Err(fault(rows->Err_0, "ConfusionMatrix"@, "rows"@))
            } else {
                Ok(ConfusionMatrixV {
                    rows: rows->Ok_0,
                })
            }
        },
        _ => Err(fault(FaultKind::Invalid, "ConfusionMatrix"@, ""@)),
    }
}

/// The decoded value, where decoding succeeds.
pub open spec fn confusion_matrix_from(w: WireV) -> Option<ConfusionMatrixV> {
    match confusion_matrix_of(w) {
        Ok(v) => Some(v),
        Err(_) => None,
    }
}

fn confusion_matrix_decode_rows(o: &Vec<Member>) -> (r: Result<Option<Vec<Row>>, FaultKind>)
    ensures
        match r {
            Ok(x) => confusion_matrix_field_rows(obj_view(o)) == Ok::<_, FaultKind>(match x {
                Some(y) => Some(row_seq_view(y@)),
                None => None,
            }),
            Err(k) => confusion_matrix_field_rows(obj_view(o)) == Err::<Option<Seq<RowV>>, FaultKind>(k),
        },
{
    match find(o, "rows") {
        None => Ok(None),
        Some(Wire::Null) => Ok(None),
        Some(x) => match row_seq_from_wire(x) {
            Some(v) => Ok(Some(v)),
            None => Err(FaultKind::Invalid),
        },
    }
}

impl ConfusionMatrix {
    /// Encodes the value; unset optional fields are left out.
    pub fn to_wire(&self) -> (w: Wire)
        ensures
            w@ == confusion_matrix_wire(self@),
    {
        let mut o: Vec<Member> = Vec::new();
        assert(obj_view(&o) =~= Seq::empty());
        if let Some(x) = &self.rows {
            put(&mut o, "rows", row_seq_to_wire(x));
        }
        proof {
            lemma_obj_view(&o);
        }
        Wire::Obj(o)
    }

    /// Decodes a wire value; fails with a format error where a required field is
    /// missing or a value has the wrong shape.
    pub fn from_wire(w: &Wire) -> (r: Result<ConfusionMatrix, FormatError>)
        ensures
            result_view(r) == confusion_matrix_of(w@),
    {
        match w {
            Wire::Obj(o) => {
                proof {
                    lemma_obj_view(o);
                }
                let rows = match confusion_matrix_decode_rows(o) {
                    Ok(x) => x,
                    Err(k) => return Err(make_fault(k, "ConfusionMatrix", "rows")),
                };
                Ok(ConfusionMatrix { rows })
            },
            _ => Err(make_fault(FaultKind::Invalid, "ConfusionMatrix", "")),
        }
    }
}

proof fn lemma_confusion_matrix_field_rows_round_trip(v: ConfusionMatrixV)
    requires
        confusion_matrix_wf(v),
    ensures
        confusion_matrix_field_rows(confusion_matrix_wire(v)->Obj_0) == Ok::<_, FaultKind>(v.rows),
{
    broadcast use lemma_lookup_push, lemma_lookup_snoc_opt;

    reveal_strlit("rows");
    if let Some(x) = v.rows {
        lemma_row_seq_round_trip(x);
    }
}

/// Decoding the encoding of a valid value gives the value back.
pub proof fn lemma_confusion_matrix_round_trip(v: ConfusionMatrixV)
    requires
        confusion_matrix_wf(v),
    ensures
        confusion_matrix_of(confusion_matrix_wire(v)) == Ok::<ConfusionMatrixV, FormatErrorV>(v),
{
    lemma_confusion_matrix_field_rows_round_trip(v);
}

proof fn lemma_confusion_matrix_omits_rows(v: ConfusionMatrixV)
    ensures
        v.rows is None ==> !has_key(confusion_matrix_wire(v)->Obj_0, "rows"@),
{
    broadcast use lemma_lookup_push, lemma_lookup_snoc_opt;

    reveal_strlit("rows");
    lemma_lookup_none(confusion_matrix_wire(v)->Obj_0, "rows"@);
}

/// An optional field left unset has no entry in the encoding.
pub proof fn lemma_confusion_matrix_omits_unset(v: ConfusionMatrixV)
    ensures
        v.rows is None ==> !has_key(confusion_matrix_wire(v)->Obj_0, "rows"@),
{
    lemma_confusion_matrix_omits_rows(v);
}

/// An entry under a key of no field changes nothing in decoding, and no
/// encoding holds such a key.
pub proof fn lemma_confusion_matrix_ignores_unknown(o: Seq<(Seq<char>, WireV)>, k: Seq<char>, x: WireV, v: ConfusionMatrixV)
    requires
        !confusion_matrix_keys().contains(k),
    ensures
        confusion_matrix_of(WireV::Obj(o.push((k, x)))) == confusion_matrix_of(WireV::Obj(o)),
        !has_key(confusion_matrix_wire(v)->Obj_0, k),
{
    broadcast use lemma_lookup_push, lemma_lookup_snoc_opt;

    reveal_strlit("rows");
    assert(confusion_matrix_keys()[0] == "rows"@);
    lemma_lookup_none(confusion_matrix_wire(v)->Obj_0, k);
}

/// The models of a sequence of values.
pub open spec fn confusion_matrix_seq_view(v: Seq<ConfusionMatrix>) -> Seq<ConfusionMatrixV> {
    v.map_values(|e: ConfusionMatrix| e@)
}

/// A sequence encodes as an array of the elements' encodings.
pub open spec fn confusion_matrix_seq_wire(s: Seq<ConfusionMatrixV>) -> WireV {
    WireV::Arr(s.map_values(|e: ConfusionMatrixV| confusion_matrix_wire(e)))
}

pub open spec fn confusion_matrix_seq_wf(s: Seq<ConfusionMatrixV>) -> bool {
    forall|i: int| 0 <= i < s.len() ==> confusion_matrix_wf(#[trigger] s[i])
}

/// An array whose every element decodes, decoded element by element.
pub open spec fn confusion_matrix_seq_from(w: WireV) -> Option<Seq<ConfusionMatrixV>> {
    match w {
        WireV::Arr(items) => if forall|i: int| 0 <= i < items.len() ==> #[trigger] confusion_matrix_from(items[i]) is Some {
            Some(Seq::new(items.len(), |i: int| confusion_matrix_from(items[i])->Some_0))
        } else {
            None
        },
        _ => None,
    }
}

pub fn confusion_matrix_seq_to_wire(v: &Vec<ConfusionMatrix>) -> (w: Wire)
    ensures
        w@ == confusion_matrix_seq_wire(confusion_matrix_seq_view(v@)),
{
    let mut out: Vec<Wire> = Vec::new();
    let mut i: usize = 0;
    while i < v.len()
        invariant
            i <= v.len(),
            out.len() == i,
            forall|j: int| 0 <= j < i ==> (#[trigger] out[j])@ == confusion_matrix_wire(v[j]@),
        decreases v.len() - i,
    {
        out.push(v[i].to_wire());
        i = i + 1;
    }
    proof {
        lemma_arr_view(&out);
        assert(arr_view(&out) =~= confusion_matrix_seq_wire(confusion_matrix_seq_view(v@))->Arr_0);
    }
    Wire::Arr(out)
}

pub fn confusion_matrix_seq_from_wire(w: &Wire) -> (r: Option<Vec<ConfusionMatrix>>)
    ensures
        match r {
            Some(v) => confusion_matrix_seq_from(w@) == Some(confusion_matrix_seq_view(v@)),
            None => confusion_matrix_seq_from(w@) is None,
        },
{
    match w {
        Wire::Arr(items) => {
            proof {
                lemma_arr_view(items);
            }
            let mut out: Vec<ConfusionMatrix> = Vec::new();
            let mut i: usize = 0;
            while i < items.len()
                invariant
                    i <= items.len(),
                    out.len() == i,
                    w@ == WireV::Arr(arr_view(items)),
                    forall|j: int| 0 <= j < i ==> confusion_matrix_from(#[trigger] arr_view(items)[j]) == Some(out[j]@),
                decreases items.len() - i,
            {
                assert(arr_view(items)[i as int] == items[i as int]@);
                match ConfusionMatrix::from_wire(&items[i]) {
                    Ok(e) => out.push(e),
                    Err(_) => {
                        assert(confusion_matrix_from(arr_view(items)[i as int]) is None);
                        return None;
                    },
                }
                i = i + 1;
            }
            proof {
                assert(forall|j: int| 0 <= j < items.len() ==> confusion_matrix_from(#[trigger] arr_view(items)[j]) is Some);
                assert(confusion_matrix_seq_from(w@)->Some_0 =~= confusion_matrix_seq_view(out@));
            }
            Some(out)
        },
        _ => None,
    }
}

/// Decoding the encoding of a sequence of valid values gives the sequence back.
pub proof fn lemma_confusion_matrix_seq_round_trip(s: Seq<ConfusionMatrixV>)
    requires
        confusion_matrix_seq_wf(s),
    ensures
        confusion_matrix_seq_from(confusion_matrix_seq_wire(s)) == Some(s),
{
    let items = confusion_matrix_seq_wire(s)->Arr_0;
    assert forall|i: int| 0 <= i < items.len() implies #[trigger] confusion_matrix_from(items[i]) == Some(s[i]) by {
        lemma_confusion_matrix_round_trip(s[i]);
    }
    assert(confusion_matrix_seq_from(confusion_matrix_seq_wire(s))->Some_0 =~= s);
}

/// An empty sequence encodes as an empty array, which decodes to an empty sequence.
pub proof fn lemma_confusion_matrix_seq_empty()
    ensures
        confusion_matrix_seq_wire(Seq::empty()) == WireV::Arr(Seq::empty()),
        confusion_matrix_seq_from(WireV::Arr(Seq::empty())) == Some(Seq::<ConfusionMatrixV>::empty()),
{
    assert(confusion_matrix_seq_wire(Seq::empty())->Arr_0 =~= Seq::empty());
    assert(confusion_matrix_seq_from(WireV::Arr(Seq::empty()))->Some_0 =~= Seq::<ConfusionMatrixV>::empty());
}

/// Classification metrics aggregated over all labels; its values are floating-point numbers, which this model does not hold, so it keeps none of them.
#[derive(Debug, PartialEq)]
pub struct AggregateClassificationMetrics {
}

pub struct AggregateClassificationMetricsV {
}

impl View for AggregateClassificationMetrics {
    type V = AggregateClassificationMetricsV;

    open spec fn view(&self) -> AggregateClassificationMetricsV {
        AggregateClassificationMetricsV {}
    }
}

/// Whether `v` is a valid value: what decoding can produce.
pub open spec fn aggregate_classification_metrics_wf(v: AggregateClassificationMetricsV) -> bool {
    true
}

/// The wire keys of the fields, in declaration order.
pub open spec fn aggregate_classification_metrics_keys() -> Seq<Seq<char>> {
    seq![]
}

/// The wire form: an object holding each set field under its key, in declaration order.
pub open spec fn aggregate_classification_metrics_wire(v: AggregateClassificationMetricsV) -> WireV {
    WireV::Obj(Seq::empty())
}

/// Decoding: each field looked up by its key; the first field at fault, in
/// declaration order, gives the error; keys of no field are ignored.
pub open spec fn aggregate_classification_metrics_of(w: WireV) -> Result<AggregateClassificationMetricsV, FormatErrorV> {
    match w {
        WireV::Obj(o) => Ok(AggregateClassificationMetricsV {}),
        _ => Err(fault(FaultKind::Invalid, "AggregateClassificationMetrics"@, ""@)),
    }
}

/// The decoded value, where decoding succeeds.
pub open spec fn aggregate_classification_metrics_from(w: WireV) -> Option<AggregateClassificationMetricsV> {
    match aggregate_classification_metrics_of(w) {
        Ok(v) => Some(v),
        Err(_) => None,
    }
}

impl AggregateClassificationMetrics {
    /// Encodes the value; unset optional fields are left out.
    pub fn to_wire(&self) -> (w: Wire)
        ensures
            w@ == aggregate_classification_metrics_wire(self@),
    {
        let mut o: Vec<Member> = Vec::new();
        assert(obj_view(&o) =~= Seq::empty());
        proof {
            lemma_obj_view(&o);
        }
        Wire::Obj(o)
    }

    /// Decodes a wire value; fails with a format error where a required field is
    /// missing or a value has the wrong shape.
    pub fn from_wire(w: &Wire) -> (r: Result<AggregateClassificationMetrics, FormatError>)
        ensures
            result_view(r) == aggregate_classification_metrics_of(w@),
    {
        match w {
            Wire::Obj(_) => Ok(AggregateClassificationMetrics {}),
            _ => Err(make_fault(FaultKind::Invalid, "AggregateClassificationMetrics", "")),
        }
    }
}

/// Decoding the encoding of a valid value gives the value back.
pub proof fn lemma_aggregate_classification_metrics_round_trip(v: AggregateClassificationMetricsV)
    requires
        aggregate_classification_metrics_wf(v),
    ensures
        aggregate_classification_metrics_of(aggregate_classification_metrics_wire(v)) == Ok::<AggregateClassificationMetricsV, FormatErrorV>(v),
{
}

/// An entry under a key of no field changes nothing in decoding, and no
/// encoding holds such a key.
pub proof fn lemma_aggregate_classification_metrics_ignores_unknown(o: Seq<(Seq<char>, WireV)>, k: Seq<char>, x: WireV, v: AggregateClassificationMetricsV)
    requires
        !aggregate_classification_metrics_keys().contains(k),
    ensures
        aggregate_classification_metrics_of(WireV::Obj(o.push((k, x)))) == aggregate_classification_metrics_of(WireV::Obj(o)),
        !has_key(aggregate_classification_metrics_wire(v)->Obj_0, k),
{
    broadcast use lemma_lookup_push, lemma_lookup_snoc_opt;

    lemma_lookup_none(aggregate_classification_metrics_wire(v)->Obj_0, k);
}

/// Evaluation metrics for multi-class classification/classifier models.
#[derive(Debug, PartialEq)]
pub struct MultiClassClassificationMetrics {
    /// Aggregate classification metrics.
    pub aggregate_classification_metrics: Option<AggregateClassificationMetrics>,
    /// Confusion matrix at different thresholds.
    pub confusion_matrix_list: Option<Vec<ConfusionMatrix>>,
}

pub struct MultiClassClassificationMetricsV {
    pub aggregate_classification_metrics: Option<AggregateClassificationMetricsV>,
    pub confusion_matrix_list: Option<Seq<ConfusionMatrixV>>,
}

impl View for MultiClassClassificationMetrics {
    type V = MultiClassClassificationMetricsV;

    open spec fn view(&self) -> MultiClassClassificationMetricsV {
        MultiClassClassificationMetricsV {
            aggregate_classification_metrics: match self.aggregate_classification_metrics {
                Some(x) => Some(x@),
                None => None,
            },
            confusion_matrix_list: match self.confusion_matrix_list {
                Some(x) => Some(confusion_matrix_seq_view(x@)),
                None => None,
            },
        }
    }
}

/// Whether `v` is a valid value: what decoding can produce.
pub open spec fn multi_class_classification_metrics_wf(v: MultiClassClassificationMetricsV) -> bool {
    &&& match v.aggregate_classification_metrics {
        Some(x) => aggregate_classification_metrics_wf(x),
        None => true,
    }
    &&& match v.confusion_matrix_list {
        Some(x) => confusion_matrix_seq_wf(x),
        None => true,
    }
}

/// The wire keys of the fields, in declaration order.
pub open spec fn multi_class_classification_metrics_keys() -> Seq<Seq<char>> {
    seq!["aggregateClassificationMetrics"@, "confusionMatrixList"@]
}

/// The wire form: an object holding each set field under its key, in declaration order.
pub open spec fn multi_class_classification_metrics_wire(v: MultiClassClassificationMetricsV) -> WireV {
    WireV::Obj(snoc_opt(
        snoc_opt(
            Seq::empty(),
            "aggregateClassificationMetrics"@,
            match v.aggregate_classification_metrics {
                Some(x) => Some(aggregate_classification_metrics_wire(x)),
                None => None,
            },
        ),
        "confusionMatrixList"@,
        match v.confusion_matrix_list {
            Some(x) => Some(confusion_matrix_seq_wire(x)),
            None => None,
        },
    ))
}

/// The field `aggregate_classification_metrics` as decoded from the entries `o`.
pub open spec fn multi_class_classification_metrics_field_aggregate_classification_metrics(o: Seq<(Seq<char>, WireV)>) -> Result<Option<AggregateClassificationMetricsV>, FaultKind> {
    optional(lookup(o, "aggregateClassificationMetrics"@), |x: WireV| aggregate_classification_metrics_from(x))
}

/// The field `confusion_matrix_list` as decoded from the entries `o`.
pub open spec fn multi_class_classification_metrics_field_confusion_matrix_list(o: Seq<(Seq<char>, WireV)>) -> Result<Option<Seq<ConfusionMatrixV>>, FaultKind> {
    optional(lookup(o, "confusionMatrixList"@), |x: WireV| confusion_matrix_seq_from(x))
}

/// Decoding: each field looked up by its key; the first field at fault, in
/// declaration order, gives the error; keys of no field are ignored.
pub open spec fn multi_class_classification_metrics_of(w: WireV) -> Result<MultiClassClassificationMetricsV, FormatErrorV> {
    match w {
        WireV::Obj(o) => {
            let aggregate_classification_metrics = multi_class_classification_metrics_field_aggregate_classification_metrics(o);
            let confusion_matrix_list = multi_class_classification_metrics_field_confusion_matrix_list(o);
            if aggregate_classification_metrics is Err {
                Err(fault(aggregate_classification_metrics->Err_0, "MultiClassClassificationMetrics"@, "aggregateClassificationMetrics"@))
            }
            else if confusion_matrix_list is Err {
                Err(fault(confusion_matrix_list->Err_0, "MultiClassClassificationMetrics"@, "confusionMatrixList"@))
            } else {
                Ok(MultiClassClassificationMetricsV {
                    aggregate_classification_metrics: aggregate_classification_metrics->Ok_0,
                    confusion_matrix_list: confusion_matrix_list->Ok_0,
                })
            }
        },
        _ => Err(fault(FaultKind::Invalid, "MultiClassClassificationMetrics"@, ""@)),
    }
}

/// The decoded value, where decoding succeeds.
pub open spec fn multi_class_classification_metrics_from(w: WireV) -> Option<MultiClassClassificationMetricsV> {
    match multi_class_classification_metrics_of(w) {
        Ok(v) => Some(v),
        Err(_) => None,
    }
}

fn multi_class_classification_metrics_decode_aggregate_classification_metrics(o: &Vec<Member>) -> (r: Result<Option<AggregateClassificationMetrics>, FaultKind>)
    ensures
        match r {
            Ok(x) => multi_class_classification_metrics_field_aggregate_classification_metrics(obj_view(o)) == Ok::<_, FaultKind>(match x {
                Some(y) => Some(y@),
                None => None,
            }),
            Err(k) => multi_class_classification_metrics_field_aggregate_classification_metrics(obj_view(o)) == Err::<Option<AggregateClassificationMetricsV>, FaultKind>(k),
        },
{
    match find(o, "aggregateClassificationMetrics") {
        None => Ok(None),
        Some(Wire::Null) => Ok(None),
        Some(x) => match match AggregateClassificationMetrics::from_wire(x) {
                        Ok(v) => Some(v),
                        Err(_) => None,
                    } {
            Some(v) => Ok(Some(v)),
            None => Err(FaultKind::Invalid),
        },
    }
}

fn multi_class_classification_metrics_decode_confusion_matrix_list(o: &Vec<Member>) -> (r: Result<Option<Vec<ConfusionMatrix>>, FaultKind>)
    ensures
        match r {
            Ok(x) => multi_class_classification_metrics_field_confusion_matrix_list(obj_view(o)) == Ok::<_, FaultKind>(match x {
                Some(y) => Some(confusion_matrix_seq_view(y@)),
                None => None,
            }),
            Err(k) => multi_class_classification_metrics_field_confusion_matrix_list(obj_view(o)) == Err::<Option<Seq<ConfusionMatrixV>>, FaultKind>(k),
        },
{
    match find(o, "confusionMatrixList") {
        None => Ok(None),
        Some(Wire::Null) => Ok(None),
        Some(x) => match confusion_matrix_seq_from_wire(x) {
            Some(v) => Ok(Some(v)),
            None => Err(FaultKind::Invalid),
        },
    }
}

impl MultiClassClassificationMetrics {
    /// Encodes the value; unset optional fields are left out.
    pub fn to_wire(&self) -> (w: Wire)
        ensures
            w@ == multi_class_classification_metrics_wire(self@),
    {
        let mut o: Vec<Member> = Vec::new();
        assert(obj_view(&o) =~= Seq::empty());
        if let Some(x) = &self.aggregate_classification_metrics {
            put(&mut o, "aggregateClassificationMetrics", x.to_wire());
        }
        if let Some(x) = &self.confusion_matrix_list {
            put(&mut o, "confusionMatrixList", confusion_matrix_seq_to_wire(x));
        }
        proof {
            lemma_obj_view(&o);
        }
        Wire::Obj(o)
    }

    /// Decodes a wire value; fails with a format error where a required field is
    /// missing or a value has the wrong shape.
    pub fn from_wire(w: &Wire) -> (r: Result<MultiClassClassificationMetrics, FormatError>)
        ensures
            result_view(r) == multi_class_classification_metrics_of(w@),
    {
        match w {
            Wire::Obj(o) => {
                proof {
                    lemma_obj_view(o);
                }
                let aggregate_classification_metrics = match multi_class_classification_metrics_decode_aggregate_classification_metrics(o) {
                    Ok(x) => x,
                    Err(k) => return Err(make_fault(k, "MultiClassClassificationMetrics", "aggregateClassificationMetrics")),
                };
                let confusion_matrix_list = match multi_class_classification_metrics_decode_confusion_matrix_list(o) {
                    Ok(x) => x,
                    Err(k) => return Err(make_fault(k, "MultiClassClassificationMetrics", "confusionMatrixList")),
                };
                Ok(MultiClassClassificationMetrics { aggregate_classification_metrics, confusion_matrix_list })
            },
            _ => Err(make_fault(FaultKind::Invalid, "MultiClassClassificationMetrics", "")),
        }
    }
}

proof fn lemma_multi_class_classification_metrics_field_aggregate_classification_metrics_round_trip(v: MultiClassClassificationMetricsV)
    requires
        multi_class_classification_metrics_wf(v),
    ensures
        multi_class_classification_metrics_field_aggregate_classification_metrics(multi_class_classification_metrics_wire(v)->Obj_0) == Ok::<_, FaultKind>(v.aggregate_classification_metrics),
{
    broadcast use lemma_lookup_push, lemma_lookup_snoc_opt;

    reveal_strlit("aggregateClassificationMetrics");
    reveal_strlit("confusionMatrixList");
    assert("aggregateClassificationMetrics"@.len() != "confusionMatrixList"@.len());
    if let Some(x) = v.aggregate_classification_metrics {
        lemma_aggregate_classification_metrics_round_trip(x);
    }
}

proof fn lemma_multi_class_classification_metrics_field_confusion_matrix_list_round_trip(v: MultiClassClassificationMetricsV)
    requires
        multi_class_classification_metrics_wf(v),
    ensures
        multi_class_classification_metrics_field_confusion_matrix_list(multi_class_classification_metrics_wire(v)->Obj_0) == Ok::<_, FaultKind>(v.confusion_matrix_list),
{
    broadcast use lemma_lookup_push, lemma_lookup_snoc_opt;

    reveal_strlit("aggregateClassificationMetrics");
    reveal_strlit("confusionMatrixList");
    assert("confusionMatrixList"@.len() != "aggregateClassificationMetrics"@.len());
    if let Some(x) = v.confusion_matrix_list {
        lemma_confusion_matrix_seq_round_trip(x);
    }
}

/// Decoding the encoding of a valid value gives the value back.
pub proof fn lemma_multi_class_classification_metrics_round_trip(v: MultiClassClassificationMetricsV)
    requires
        multi_class_classification_metrics_wf(v),
    ensures
        multi_class_classification_metrics_of(multi_class_classification_metrics_wire(v)) == Ok::<MultiClassClassificationMetricsV, FormatErrorV>(v),
{
    lemma_multi_class_classification_metrics_field_aggregate_classification_metrics_round_trip(v);
    lemma_multi_class_classification_metrics_field_confusion_matrix_list_round_trip(v);
}

proof fn lemma_multi_class_classification_metrics_omits_aggregate_classification_metrics(v: MultiClassClassificationMetricsV)
    ensures
        v.aggregate_classification_metrics is None ==> !has_key(multi_class_classification_metrics_wire(v)->Obj_0, "aggregateClassificationMetrics"@),
{
    broadcast use lemma_lookup_push, lemma_lookup_snoc_opt;

    reveal_strlit("aggregateClassificationMetrics");
    reveal_strlit("confusionMatrixList");
    assert("aggregateClassificationMetrics"@.len() != "confusionMatrixList"@.len());
    lemma_lookup_none(multi_class_classification_metrics_wire(v)->Obj_0, "aggregateClassificationMetrics"@);
}

proof fn lemma_multi_class_classification_metrics_omits_confusion_matrix_list(v: MultiClassClassificationMetricsV)
    ensures
        v.confusion_matrix_list is None ==> !has_key(multi_class_classification_metrics_wire(v)->Obj_0, "confusionMatrixList"@),
{
    broadcast use lemma_lookup_push, lemma_lookup_snoc_opt;

    reveal_strlit("aggregateClassificationMetrics");
    reveal_strlit("confusionMatrixList");
    assert("confusionMatrixList"@.len() != "aggregateClassificationMetrics"@.len());
    lemma_lookup_none(multi_class_classification_metrics_wire(v)->Obj_0, "confusionMatrixList"@);
}

/// An optional field left unset has no entry in the encoding.
pub proof fn lemma_multi_class_classification_metrics_omits_unset(v: MultiClassClassificationMetricsV)
    ensures
        v.aggregate_classification_metrics is None ==> !has_key(multi_class_classification_metrics_wire(v)->Obj_0, "aggregateClassificationMetrics"@),
        v.confusion_matrix_list is None ==> !has_key(multi_class_classification_metrics_wire(v)->Obj_0, "confusionMatrixList"@),
{
    lemma_multi_class_classification_metrics_omits_aggregate_classification_metrics(v);
    lemma_multi_class_classification_metrics_omits_confusion_matrix_list(v);
}

/// An entry under a key of no field changes nothing in decoding, and no
/// encoding holds such a key.
pub proof fn lemma_multi_class_classification_metrics_ignores_unknown(o: Seq<(Seq<char>, WireV)>, k: Seq<char>, x: WireV, v: MultiClassClassificationMetricsV)
    requires
        !multi_class_classification_metrics_keys().contains(k),
    ensures
        multi_class_classification_metrics_of(WireV::Obj(o.push((k, x)))) == multi_class_classification_metrics_of(WireV::Obj(o)),
        !has_key(multi_class_classification_metrics_wire(v)->Obj_0, k),
{
    broadcast use lemma_lookup_push, lemma_lookup_snoc_opt;

    reveal_strlit("aggregateClassificationMetrics");
    reveal_strlit("confusionMatrixList");
    assert("aggregateClassificationMetrics"@.len() != "confusionMatrixList"@.len());
    assert(multi_class_classification_metrics_keys()[0] == "aggregateClassificationMetrics"@);
    assert(multi_class_classification_metrics_keys()[1] == "confusionMatrixList"@);
    lemma_lookup_none(multi_class_classification_metrics_wire(v)->Obj_0, k);
}

} // verus!
