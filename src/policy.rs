//! The request that reads a resource's access policy.
use vstd::prelude::*;
use crate::wire::{Wire, WireV, Member, FaultKind, FormatError, FormatErrorV, fault, make_fault, result_view, lookup, find, obj_view, lemma_obj_view, snoc_opt, lemma_lookup_push, lemma_lookup_snoc_opt, has_key, lemma_lookup_none, optional, required, i32_of, put, i32_from};

verus! {

/// Options that control how much of a policy is returned.
#[derive(Debug, PartialEq)]
pub struct GetPolicyOptions {
    /// The policy format version to be returned.
    pub requested_policy_version: Option<i32>,
}

pub struct GetPolicyOptionsV {
    pub requested_policy_version: Option<i32>,
}

impl View for GetPolicyOptions {
    type V = GetPolicyOptionsV;

    open spec fn view(&self) -> GetPolicyOptionsV {
        GetPolicyOptionsV {
            requested_policy_version: match self.requested_policy_version {
                Some(x) => Some(x),
                None => None,
            },
        }
    }
}

/// Whether `v` is a valid value: what decoding can produce.
pub open spec fn get_policy_options_wf(v: GetPolicyOptionsV) -> bool {
    true
}

/// The wire keys of the fields, in declaration order.
pub open spec fn get_policy_options_keys() -> Seq<Seq<char>> {
    seq!["requestedPolicyVersion"@]
}

/// The wire form: an object holding each set field under its key, in declaration order.
pub open spec fn get_policy_options_wire(v: GetPolicyOptionsV) -> WireV {
    WireV::Obj(snoc_opt(
        Seq::empty(),
        "requestedPolicyVersion"@,
        match v.requested_policy_version {
            Some(x) => Some(WireV::Num(x as int)),
            None => None,
        },
    ))
}

/// The field `requested_policy_version` as decoded from the entries `o`.
pub open spec fn get_policy_options_field_requested_policy_version(o: Seq<(Seq<char>, WireV)>) -> Result<Option<i32>, FaultKind> {
    optional(lookup(o, "requestedPolicyVersion"@), |x: WireV| i32_of(x))
}

/// Decoding: each field looked up by its key; the first field at fault, in
/// declaration order, gives the error; keys of no field are ignored.
pub open spec fn get_policy_options_of(w: WireV) -> Result<GetPolicyOptionsV, FormatErrorV> {
    match w {
        WireV::Obj(o) => {
            let requested_policy_version = get_policy_options_field_requested_policy_version(o);
            if requested_policy_version is Err {
                Err(fault(requested_policy_version->Err_0, "GetPolicyOptions"@, "requestedPolicyVersion"@))
            } else {
                Ok(GetPolicyOptionsV {
                    requested_policy_version: requested_policy_version->Ok_0,
                })
            }
        },
        _ => Err(fault(FaultKind::Invalid, "GetPolicyOptions"@, ""@)),
    }
}

/// The decoded value, where decoding succeeds.
pub open spec fn get_policy_options_from(w: WireV) -> Option<GetPolicyOptionsV> {
    match get_policy_options_of(w) {
        Ok(v) => Some(v),
        Err(_) => None,
    }
}

fn get_policy_options_decode_requested_policy_version(o: &Vec<Member>) -> (r: Result<Option<i32>, FaultKind>)
    ensures
        match r {
            Ok(x) => get_policy_options_field_requested_policy_version(obj_view(o)) == Ok::<_, FaultKind>(match x {
                Some(y) => Some(y),
                None => None,
            }),
            Err(k) => get_policy_options_field_requested_policy_version(obj_view(o)) == Err::<Option<i32>, FaultKind>(k),
        },
{
    match find(o, "requestedPolicyVersion") {
        None => Ok(None),
        Some(Wire::Null) => Ok(None),
        Some(x) => match i32_from(x) {
            Some(v) => Ok(Some(v)),
            None => Err(FaultKind::Invalid),
        },
    }
}

impl GetPolicyOptions {
    /// Encodes the value; unset optional fields are left out.
    pub fn to_wire(&self) -> (w: Wire)
        ensures
            w@ == get_policy_options_wire(self@),
    {
        let mut o: Vec<Member> = Vec::new();
        assert(obj_view(&o) =~= Seq::empty());
        if let Some(x) = &self.requested_policy_version {
            put(&mut o, "requestedPolicyVersion", Wire::Num(*x as i64));
        }
        proof {
            lemma_obj_view(&o);
        }
        Wire::Obj(o)
    }

    /// Decodes a wire value; fails with a format error where a required field is
    /// missing or a value has the wrong shape.
    pub fn from_wire(w: &Wire) -> (r: Result<GetPolicyOptions, FormatError>)
        ensures
            result_view(r) == get_policy_options_of(w@),
    {
        match w {
            Wire::Obj(o) => {
                proof {
                    lemma_obj_view(o);
                }
                let requested_policy_version = match get_policy_options_decode_requested_policy_version(o) {
                    Ok(x) => x,
                    Err(k) => return Err(make_fault(k, "GetPolicyOptions", "requestedPolicyVersion")),
                };
                Ok(GetPolicyOptions { requested_policy_version })
            },
            _ => Err(make_fault(FaultKind::Invalid, "GetPolicyOptions", "")),
        }
    }
}

proof fn lemma_get_policy_options_field_requested_policy_version_round_trip(v: GetPolicyOptionsV)
    requires
        get_policy_options_wf(v),
    ensures
        get_policy_options_field_requested_policy_version(get_policy_options_wire(v)->Obj_0) == Ok::<_, FaultKind>(v.requested_policy_version),
{
    broadcast use lemma_lookup_push, lemma_lookup_snoc_opt;

    reveal_strlit("requestedPolicyVersion");
}

/// Decoding the encoding of a valid value gives the value back.
pub proof fn lemma_get_policy_options_round_trip(v: GetPolicyOptionsV)
    requires
        get_policy_options_wf(v),
    ensures
        get_policy_options_of(get_policy_options_wire(v)) == Ok::<GetPolicyOptionsV, FormatErrorV>(v),
{
    lemma_get_policy_options_field_requested_policy_version_round_trip(v);
}

proof fn lemma_get_policy_options_omits_requested_policy_version(v: GetPolicyOptionsV)
    ensures
        v.requested_policy_version is None ==> !has_key(get_policy_options_wire(v)->Obj_0, "requestedPolicyVersion"@),
{
    broadcast use lemma_lookup_push, lemma_lookup_snoc_opt;

    reveal_strlit("requestedPolicyVersion");
    lemma_lookup_none(get_policy_options_wire(v)->Obj_0, "requestedPolicyVersion"@);
}

/// An optional field left unset has no entry in the encoding.
pub proof fn lemma_get_policy_options_omits_unset(v: GetPolicyOptionsV)
    ensures
        v.requested_policy_version is None ==> !has_key(get_policy_options_wire(v)->Obj_0, "requestedPolicyVersion"@),
{
    lemma_get_policy_options_omits_requested_policy_version(v);
}

/// An entry under a key of no field changes nothing in decoding, and no
/// encoding holds such a key.
pub proof fn lemma_get_policy_options_ignores_unknown(o: Seq<(Seq<char>, WireV)>, k: Seq<char>, x: WireV, v: GetPolicyOptionsV)
    requires
        !get_policy_options_keys().contains(k),
    ensures
        get_policy_options_of(WireV::Obj(o.push((k, x)))) == get_policy_options_of(WireV::Obj(o)),
        !has_key(get_policy_options_wire(v)->Obj_0, k),
{
    broadcast use lemma_lookup_push, lemma_lookup_snoc_opt;

    reveal_strlit("requestedPolicyVersion");
    assert(get_policy_options_keys()[0] == "requestedPolicyVersion"@);
    lemma_lookup_none(get_policy_options_wire(v)->Obj_0, k);
}

/// Request message for the `GetIamPolicy` method.
#[derive(Debug, PartialEq)]
pub struct GetIamPolicyRequest {
    /// Options that control the detail of the returned policy.
    pub options: Option<GetPolicyOptions>,
}

pub struct GetIamPolicyRequestV {
    pub options: Option<GetPolicyOptionsV>,
}

impl View for GetIamPolicyRequest {
    type V = GetIamPolicyRequestV;

    open spec fn view(&self) -> GetIamPolicyRequestV {
        GetIamPolicyRequestV {
            options: match self.options {
                Some(x) => Some(x@),
                None => None,
            },
        }
    }
}

/// Whether `v` is a valid value: what decoding can produce.
pub open spec fn get_iam_policy_request_wf(v: GetIamPolicyRequestV) -> bool {
    &&& match v.options {
        Some(x) => get_policy_options_wf(x),
        None => true,
    }
}

/// The wire keys of the fields, in declaration order.
pub open spec fn get_iam_policy_request_keys() -> Seq<Seq<char>> {
    seq!["options"@]
}

/// The wire form: an object holding each set field under its key, in declaration order.
pub open spec fn get_iam_policy_request_wire(v: GetIamPolicyRequestV) -> WireV {
    WireV::Obj(snoc_opt(
        Seq::empty(),
        "options"@,
        match v.options {
            Some(x) => Some(get_policy_options_wire(x)),
            None => None,
        },
    ))
}

/// The field `options` as decoded from the entries `o`.
pub open spec fn get_iam_policy_request_field_options(o: Seq<(Seq<char>, WireV)>) -> Result<Option<GetPolicyOptionsV>, FaultKind> {
    optional(lookup(o, "options"@), |x: WireV| get_policy_options_from(x))
}

/// Decoding: each field looked up by its key; the first field at fault, in
/// declaration order, gives the error; keys of no field are ignored.
pub open spec fn get_iam_policy_request_of(w: WireV) -> Result<GetIamPolicyRequestV, FormatErrorV> {
    match w {
        WireV::Obj(o) => {
            let options = get_iam_policy_request_field_options(o);
            if options is Err {
                Err(fault(options->Err_0, "GetIamPolicyRequest"@, "options"@))
            } else {
                Ok(GetIamPolicyRequestV {
                    options: options->Ok_0,
                })
            }
        },
        _ => Err(fault(FaultKind::Invalid, "GetIamPolicyRequest"@, ""@)),
    }
}

/// The decoded value, where decoding succeeds.
pub open spec fn get_iam_policy_request_from(w: WireV) -> Option<GetIamPolicyRequestV> {
    match get_iam_policy_request_of(w) {
        Ok(v) => Some(v),
        Err(_) => None,
    }
}

fn get_iam_policy_request_decode_options(o: &Vec<Member>) -> (r: Result<Option<GetPolicyOptions>, FaultKind>)
    ensures
        match r {
            Ok(x) => get_iam_policy_request_field_options(obj_view(o)) == Ok::<_, FaultKind>(match x {
                Some(y) => Some(y@),
                None => None,
            }),
            Err(k) => get_iam_policy_request_field_options(obj_view(o)) == Err::<Option<GetPolicyOptionsV>, FaultKind>(k),
        },
{
    match find(o, "options") {
        None => Ok(None),
        Some(Wire::Null) => Ok(None),
        Some(x) => match match GetPolicyOptions::from_wire(x) {
                        Ok(v) => Some(v),
                        Err(_) => None,
                    } {
            Some(v) => Ok(Some(v)),
            None => Err(FaultKind::Invalid),
        },
    }
}

impl GetIamPolicyRequest {
    /// Encodes the value; unset optional fields are left out.
    pub fn to_wire(&self) -> (w: Wire)
        ensures
            w@ == get_iam_policy_request_wire(self@),
    {
        let mut o: Vec<Member> = Vec::new();
        assert(obj_view(&o) =~= Seq::empty());
        if let Some(x) = &self.options {
            put(&mut o, "options", x.to_wire());
        }
        proof {
            lemma_obj_view(&o);
        }
        Wire::Obj(o)
    }

    /// Decodes a wire value; fails with a format error where a required field is
    /// missing or a value has the wrong shape.
    pub fn from_wire(w: &Wire) -> (r: Result<GetIamPolicyRequest, FormatError>)
        ensures
            result_view(r) == get_iam_policy_request_of(w@),
    {
        match w {
            Wire::Obj(o) => {
                proof {
                    lemma_obj_view(o);
                }
                let options = match get_iam_policy_request_decode_options(o) {
                    Ok(x) => x,
                    Err(k) => return Err(make_fault(k, "GetIamPolicyRequest", "options")),
                };
                Ok(GetIamPolicyRequest { options })
            },
            _ => Err(make_fault(FaultKind::Invalid, "GetIamPolicyRequest", "")),
        }
    }
}

proof fn lemma_get_iam_policy_request_field_options_round_trip(v: GetIamPolicyRequestV)
    requires
        get_iam_policy_request_wf(v),
    ensures
        get_iam_policy_request_field_options(get_iam_policy_request_wire(v)->Obj_0) == Ok::<_, FaultKind>(v.options),
{
    broadcast use lemma_lookup_push, lemma_lookup_snoc_opt;

    reveal_strlit("options");
    if let Some(x) = v.options {
        lemma_get_policy_options_round_trip(x);
    }
}

/// Decoding the encoding of a valid value gives the value back.
pub proof fn lemma_get_iam_policy_request_round_trip(v: GetIamPolicyRequestV)
    requires
        get_iam_policy_request_wf(v),
    ensures
        get_iam_policy_request_of(get_iam_policy_request_wire(v)) == Ok::<GetIamPolicyRequestV, FormatErrorV>(v),
{
    lemma_get_iam_policy_request_field_options_round_trip(v);
}

proof fn lemma_get_iam_policy_request_omits_options(v: GetIamPolicyRequestV)
    ensures
        v.options is None ==> !has_key(get_iam_policy_request_wire(v)->Obj_0, "options"@),
{
    broadcast use lemma_lookup_push, lemma_lookup_snoc_opt;

    reveal_strlit("options");
    lemma_lookup_none(get_iam_policy_request_wire(v)->Obj_0, "options"@);
}

/// An optional field left unset has no entry in the encoding.
pub proof fn lemma_get_iam_policy_request_omits_unset(v: GetIamPolicyRequestV)
    ensures
        v.options is None ==> !has_key(get_iam_policy_request_wire(v)->Obj_0, "options"@),
{
    lemma_get_iam_policy_request_omits_options(v);
}

/// An entry under a key of no field changes nothing in decoding, and no
/// encoding holds such a key.
pub proof fn lemma_get_iam_policy_request_ignores_unknown(o: Seq<(Seq<char>, WireV)>, k: Seq<char>, x: WireV, v: GetIamPolicyRequestV)
    requires
        !get_iam_policy_request_keys().contains(k),
    ensures
        get_iam_policy_request_of(WireV::Obj(o.push((k, x)))) == get_iam_policy_request_of(WireV::Obj(o)),
        !has_key(get_iam_policy_request_wire(v)->Obj_0, k),
{
    broadcast use lemma_lookup_push, lemma_lookup_snoc_opt;

    reveal_strlit("options");
    assert(get_iam_policy_request_keys()[0] == "options"@);
    lemma_lookup_none(get_iam_policy_request_wire(v)->Obj_0, k);
}

} // verus!
