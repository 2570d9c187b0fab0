//! The wire format: a key-value tree, its model, and the field-level codecs
//! that every entity shares.
use vstd::prelude::*;

verus! {

/// A value of the wire format: a text-based key-value tree.
#[derive(Debug, PartialEq)]
pub enum Wire {
    Null,
    Bool(bool),
    Num(i64),
    Str(String),
    Arr(Vec<Wire>),
    Obj(Vec<Member>),
}

/// One key-value entry of a wire object.
#[derive(Debug, PartialEq)]
pub struct Member {
    pub key: String,
    pub value: Wire,
}

/// The mathematical model of a wire value.
pub enum WireV {
    Null,
    Bool(bool),
    Num(int),
    Str(Seq<char>),
    Arr(Seq<WireV>),
    Obj(Seq<(Seq<char>, WireV)>),
}

impl View for Wire {
    type V = WireV;

    open spec fn view(&self) -> WireV
        decreases self,
    {
        match self {
            Wire::Null => WireV::Null,
            Wire::Bool(b) => WireV::Bool(*b),
            Wire::Num(n) => WireV::Num(*n as int),
            Wire::Str(s) => WireV::Str(s@),
            Wire::Arr(v) => WireV::Arr(
                Seq::new(v.len() as nat, |i: int| if 0 <= i < v.len() { v[i].view() } else { WireV::Null }),
            ),
            Wire::Obj(v) => WireV::Obj(
                Seq::new(
                    v.len() as nat,
                    |i: int| if 0 <= i < v.len() { member_view(&v[i]) } else { (Seq::<char>::empty(), WireV::Null) },
                ),
            ),
        }
    }
}

/// The model of one entry of an object.
pub open spec fn member_view(m: &Member) -> (Seq<char>, WireV)
    decreases m,
{
    (m.key@, m.value.view())
}

/// The model of the entries of an object.
pub open spec fn obj_view(o: &Vec<Member>) -> Seq<(Seq<char>, WireV)> {
    Seq::new(o.len() as nat, |i: int| member_view(&o[i]))
}

/// The value stored under key `k` in the entries `o`; where a key repeats, the
/// last entry wins.
pub open spec fn lookup(o: Seq<(Seq<char>, WireV)>, k: Seq<char>) -> Option<WireV>
    decreases o.len(),
{
    if o.len() == 0 {
        None
    } else if o.last().0 == k {
        Some(o.last().1)
    } else {
        lookup(o.drop_last(), k)
    }
}

/// Finds the entry under `key`, scanning from the end.
pub fn find<'a>(o: &'a Vec<Member>, key: &str) -> (r: Option<&'a Wire>)
    ensures
        match r {
            Some(w) => lookup(obj_view(o), key@) == Some(w@),
            None => lookup(obj_view(o), key@) is None,
        },
{
    let ghost entries = obj_view(o);
    let k: String = key.to_owned();
    assert(entries.take(o.len() as int) =~= entries);
    let mut i: usize = o.len();
    while i > 0
        invariant
            i <= o.len(),
            entries == obj_view(o),
            k@ == key@,
            lookup(entries.take(i as int), key@) == lookup(entries, key@),
        decreases i,
    {
        assert(entries.take(i as int).drop_last() =~= entries.take(i - 1));
        assert(entries.take(i as int).last() == entries[i - 1]);
        assert(entries[i - 1] == (o[i - 1].key@, o[i - 1].value@));
        if o[i - 1].key == k {
            return Some(&o[i - 1].value);
        }
        i = i - 1;
    }
    None
}

/// Why a wire value was refused.
#[derive(Clone, Copy, Debug, PartialEq, Eq, Structural)]
pub enum FaultKind {
    /// A required field is absent.
    Missing,
    /// A value cannot be converted to the field's type, or the value is not an object.
    Invalid,
}

/// The format error: raised only while decoding, it names the entity and the
/// wire key of the field at fault (empty where the value itself is not an object).
#[derive(Debug, Clone, PartialEq)]
pub struct FormatError {
    pub kind: FaultKind,
    pub entity: String,
    pub field: String,
}

pub struct FormatErrorV {
    pub kind: FaultKind,
    pub entity: Seq<char>,
    pub field: Seq<char>,
}

impl View for FormatError {
    type V = FormatErrorV;

    open spec fn view(&self) -> FormatErrorV {
        FormatErrorV { kind: self.kind, entity: self.entity@, field: self.field@ }
    }
}

impl FormatError {
    /// The error's description, as "Entity.field: cause".
    pub fn message(&self) -> (r: String)
        ensures
            r@ == self.entity@ + "."@ + self.field@ + ": "@ + match self.kind {
                FaultKind::Missing => "missing field"@,
                FaultKind::Invalid => "invalid value"@,
            },
    {
        let mut r = self.entity.clone();
        r.append(".");
        r.append(self.field.as_str());
        r.append(": ");
        match self.kind {
            FaultKind::Missing => r.append("missing field"),
            FaultKind::Invalid => r.append("invalid value"),
        }
        r
    }
}

pub open spec fn fault(kind: FaultKind, entity: Seq<char>, field: Seq<char>) -> FormatErrorV {
    FormatErrorV { kind, entity, field }
}

pub fn make_fault(kind: FaultKind, entity: &str, field: &str) -> (r: FormatError)
    ensures
        r@ == fault(kind, entity@, field@),
{
    FormatError { kind, entity: entity.to_owned(), field: field.to_owned() }
}

/// The model of a decoding result.
pub open spec fn result_view<T: View>(r: Result<T, FormatError>) -> Result<T::V, FormatErrorV> {
    match r {
        Ok(v) => Ok(v@),
        Err(e) => Err(e@),
    }
}

/// The model of the elements of an array.
pub open spec fn arr_view(v: &Vec<Wire>) -> Seq<WireV> {
    Seq::new(v.len() as nat, |i: int| v[i]@)
}

pub proof fn lemma_obj_view(o: &Vec<Member>)
    ensures
        Wire::Obj(*o)@ == WireV::Obj(obj_view(o)),
{
    let w = Wire::Obj(*o);
    assert(w@->Obj_0 =~= obj_view(o));
}

pub proof fn lemma_arr_view(v: &Vec<Wire>)
    ensures
        Wire::Arr(*v)@ == WireV::Arr(arr_view(v)),
{
    assert(Wire::Arr(*v)@->Arr_0 =~= arr_view(v));
}

/// `p` with the entry `(k, w)` appended where `x` is `Some(w)`, unchanged where it is `None`.
pub open spec fn snoc_opt(p: Seq<(Seq<char>, WireV)>, k: Seq<char>, x: Option<WireV>) -> Seq<(Seq<char>, WireV)> {
    match x {
        Some(w) => p.push((k, w)),
        None => p,
    }
}

pub broadcast proof fn lemma_lookup_push(p: Seq<(Seq<char>, WireV)>, k: Seq<char>, w: WireV, q: Seq<char>)
    ensures
        #[trigger] lookup(p.push((k, w)), q) == if k == q { Some(w) } else { lookup(p, q) },
{
    assert(p.push((k, w)).drop_last() =~= p);
}

pub broadcast proof fn lemma_lookup_snoc_opt(p: Seq<(Seq<char>, WireV)>, k: Seq<char>, x: Option<WireV>, q: Seq<char>)
    ensures
        #[trigger] lookup(snoc_opt(p, k, x), q) == if k == q && x is Some { x } else { lookup(p, q) },
{
    if let Some(w) = x {
        lemma_lookup_push(p, k, w, q);
    }
}

/// Whether some entry of `o` has the key `k`.
pub open spec fn has_key(o: Seq<(Seq<char>, WireV)>, k: Seq<char>) -> bool {
    exists|i: int| 0 <= i < o.len() && #[trigger] o[i].0 == k
}

pub proof fn lemma_lookup_none(o: Seq<(Seq<char>, WireV)>, k: Seq<char>)
    ensures
        lookup(o, k) is None <==> !has_key(o, k),
    decreases o.len(),
{
    if o.len() > 0 {
        lemma_lookup_none(o.drop_last(), k);
        if has_key(o.drop_last(), k) {
            let i = choose|i: int| 0 <= i < o.drop_last().len() && #[trigger] o.drop_last()[i].0 == k;
            assert(o[i].0 == k);
        }
        if has_key(o, k) && o.last().0 != k {
            let i = choose|i: int| 0 <= i < o.len() && #[trigger] o[i].0 == k;
            assert(o.drop_last()[i].0 == k);
        }
    }
}

/// The result of decoding an optional field from what the lookup found.
/// A `null` value counts as unset.
pub open spec fn optional<T>(found: Option<WireV>, conv: spec_fn(WireV) -> Option<T>) -> Result<Option<T>, FaultKind> {
    match found {
        None => Ok(None),
        Some(WireV::Null) => Ok(None),
        Some(w) => match conv(w) {
            Some(t) => Ok(Some(t)),
            None => Err(FaultKind::Invalid),
        },
    }
}

/// The result of decoding a required field from what the lookup found.
pub open spec fn required<T>(found: Option<WireV>, conv: spec_fn(WireV) -> Option<T>) -> Result<T, FaultKind> {
    match found {
        None => Err(FaultKind::Missing),
        Some(w) => match conv(w) {
            Some(t) => Ok(t),
            None => Err(FaultKind::Invalid),
        },
    }
}

pub open spec fn str_of(w: WireV) -> Option<Seq<char>> {
    match w {
        WireV::Str(s) => Some(s),
        _ => None,
    }
}

pub open spec fn bool_of(w: WireV) -> Option<bool> {
    match w {
        WireV::Bool(b) => Some(b),
        _ => None,
    }
}

pub open spec fn i32_of(w: WireV) -> Option<i32> {
    match w {
        WireV::Num(n) => if i32::MIN <= n <= i32::MAX {
            Some(n as i32)
        } else {
            None
        },
        _ => None,
    }
}

pub open spec fn is_digit(c: char) -> bool {
    '0' <= c <= '9'
}

/// Decimal text of an integer: an optional minus sign, then one or more digits.
pub open spec fn is_numeric_text(s: Seq<char>) -> bool {
    unsigned_part(s).len() > 0 && forall|i: int| 0 <= i < unsigned_part(s).len() ==> is_digit(
        #[trigger] unsigned_part(s)[i],
    )
}

/// The text after a leading minus sign, if any.
pub open spec fn unsigned_part(s: Seq<char>) -> Seq<char> {
    if s.len() > 0 && s[0] == '-' {
        s.drop_first()
    } else {
        s
    }
}

pub open spec fn numeric_text_of(w: WireV) -> Option<Seq<char>> {
    match w {
        WireV::Str(s) => if is_numeric_text(s) {
            Some(s)
        } else {
            None
        },
        _ => None,
    }
}

/// Whether the keys of `m` are pairwise distinct.
pub open spec fn keys_unique(m: Seq<(Seq<char>, Seq<char>)>) -> bool {
    forall|i: int, j: int| 0 <= i < j < m.len() ==> #[trigger] m[i].0 != #[trigger] m[j].0
}

/// The entries of an object, each value read as text.
pub open spec fn text_entries(o: Seq<(Seq<char>, WireV)>) -> Seq<(Seq<char>, Seq<char>)> {
    o.map_values(|e: (Seq<char>, WireV)| (e.0, str_of(e.1)->Some_0))
}

/// An object whose values are all text and whose keys are distinct, as a text-to-text map.
pub open spec fn text_map_of(w: WireV) -> Option<Seq<(Seq<char>, Seq<char>)>> {
    match w {
        WireV::Obj(o) => {
            let m = text_entries(o);
            if (forall|i: int| 0 <= i < o.len() ==> (#[trigger] o[i]).1 is Str) && keys_unique(m) {
                Some(m)
            } else {
                None
            }
        },
        _ => None,
    }
}

pub open spec fn text_map_wire(m: Seq<(Seq<char>, Seq<char>)>) -> WireV {
    WireV::Obj(m.map_values(|e: (Seq<char>, Seq<char>)| (e.0, WireV::Str(e.1))))
}

pub open spec fn opt_str_wire(x: Option<Seq<char>>) -> Option<WireV> {
    match x {
        Some(s) => Some(WireV::Str(s)),
        None => None,
    }
}

pub open spec fn opt_bool_wire(x: Option<bool>) -> Option<WireV> {
    match x {
        Some(b) => Some(WireV::Bool(b)),
        None => None,
    }
}

pub open spec fn opt_i32_wire(x: Option<i32>) -> Option<WireV> {
    match x {
        Some(n) => Some(WireV::Num(n as int)),
        None => None,
    }
}

pub open spec fn opt_str_view(x: Option<String>) -> Option<Seq<char>> {
    match x {
        Some(s) => Some(s@),
        None => None,
    }
}

/// The model of a text-to-text map held as key-value pairs.
pub open spec fn text_map_view(v: Seq<(String, String)>) -> Seq<(Seq<char>, Seq<char>)> {
    v.map_values(|e: (String, String)| (e.0@, e.1@))
}

/// Appends the entry `(key, value)` to an object under construction.
pub fn put(o: &mut Vec<Member>, key: &str, value: Wire)
    ensures
        obj_view(final(o)) == obj_view(old(o)).push((key@, value@)),
{
    o.push(Member { key: key.to_owned(), value });
    assert(obj_view(final(o)) =~= obj_view(old(o)).push((key@, value@)));
}

pub fn str_from(w: &Wire) -> (r: Option<String>)
    ensures
        opt_str_view(r) == str_of(w@),
{
    match w {
        Wire::Str(s) => Some(s.clone()),
        _ => None,
    }
}

pub fn bool_from(w: &Wire) -> (r: Option<bool>)
    ensures
        r == bool_of(w@),
{
    match w {
        Wire::Bool(b) => Some(*b),
        _ => None,
    }
}

pub fn i32_from(w: &Wire) -> (r: Option<i32>)
    ensures
        r == i32_of(w@),
{
    match w {
        Wire::Num(n) => if i32::MIN as i64 <= *n && *n <= i32::MAX as i64 {
            Some(*n as i32)
        } else {
            None
        },
        _ => None,
    }
}

/// Whether `s` is decimal text of an integer.
pub fn numeric_text(s: &str) -> (r: bool)
    ensures
        r == is_numeric_text(s@),
{
    let n = s.unicode_len();
    let start: usize = if n > 0 && s.get_char(0) == '-' { 1 } else { 0 };
    let ghost d = unsigned_part(s@);
    assert(d =~= s@.subrange(start as int, n as int));
    if start >= n {
        assert(d.len() == 0);
        return false;
    }
    let mut i: usize = start;
    while i < n
        invariant
            start <= i <= n,
            n == s@.len(),
            d == unsigned_part(s@),
            d =~= s@.subrange(start as int, n as int),
            forall|j: int| 0 <= j < i - start ==> is_digit(#[trigger] d[j]),
        decreases n - i,
    {
        let c = s.get_char(i);
        if !('0' <= c && c <= '9') {
            assert(d[i - start] == c);
            assert(!is_digit(d[i - start]));
            return false;
        }
        i = i + 1;
    }
    true
}

pub fn numeric_text_from(w: &Wire) -> (r: Option<String>)
    ensures
        opt_str_view(r) == numeric_text_of(w@),
{
    match w {
        Wire::Str(s) => if numeric_text(s.as_str()) {
            Some(s.clone())
        } else {
            None
        },
        _ => None,
    }
}

/// Encodes a text-to-text map as an object of text values.
pub fn text_map_to_wire(m: &Vec<(String, String)>) -> (w: Wire)
    ensures
        w@ == text_map_wire(text_map_view(m@)),
{
    let mut o: Vec<Member> = Vec::new();
    let mut i: usize = 0;
    while i < m.len()
        invariant
            i <= m.len(),
            obj_view(&o) =~= text_map_wire(text_map_view(m@.take(i as int)))->Obj_0,
        decreases m.len() - i,
    {
        put(&mut o, m[i].0.as_str(), Wire::Str(m[i].1.clone()));
        assert(text_map_view(m@.take(i + 1)) =~= text_map_view(m@.take(i as int)).push((m[i as int].0@, m[i as int].1@)));
        assert(obj_view(&o) =~= text_map_wire(text_map_view(m@.take(i + 1)))->Obj_0);
        i = i + 1;
    }
    assert(m@.take(m.len() as int) =~= m@);
    proof {
        lemma_obj_view(&o);
    }
    Wire::Obj(o)
}

/// Decodes an object of text values with distinct keys as a text-to-text map.
pub fn text_map_from(w: &Wire) -> (r: Option<Vec<(String, String)>>)
    ensures
        match r {
            Some(m) => text_map_of(w@) == Some(text_map_view(m@)),
            None => text_map_of(w@) is None,
        },
{
    match w {
        Wire::Obj(o) => {
            proof {
                lemma_obj_view(o);
            }
            let ghost ov = obj_view(o);
            let ghost mv = text_entries(ov);
            let mut m: Vec<(String, String)> = Vec::new();
            let mut i: usize = 0;
            while i < o.len()
                invariant
                    i <= o.len(),
                    ov == obj_view(o),
                    w@ == WireV::Obj(ov),
                    mv == text_entries(ov),
                    m.len() == i,
                    forall|j: int| 0 <= j < i ==> (#[trigger] ov[j]).1 is Str,
                    text_map_view(m@) =~= mv.take(i as int),
                    keys_unique(mv.take(i as int)),
                decreases o.len() - i,
            {
                let v = match &o[i].value {
                    Wire::Str(s) => s.clone(),
                    _ => {
                        assert(!(ov[i as int].1 is Str));
                        return None;
                    },
                };
                let mut j: usize = 0;
                while j < i
                    invariant
                        j <= i < o.len(),
                        ov == obj_view(o),
                        w@ == WireV::Obj(ov),
                        mv == text_entries(ov),
                        m.len() == i,
                        text_map_view(m@) =~= mv.take(i as int),
                        forall|k: int| 0 <= k < j ==> #[trigger] mv[k].0 != mv[i as int].0,
                    decreases i - j,
                {
                    assert(mv.take(i as int)[j as int] == mv[j as int]);
                    assert(text_map_view(m@)[j as int] == (m[j as int].0@, m[j as int].1@));
                    assert(mv[i as int].0 == o[i as int].key@);
                    if m[j].0 == o[i].key {
                        assert(mv[j as int].0 == mv[i as int].0);
                        assert(!keys_unique(mv));
                        return None;
                    }
                    assert(mv.take(i as int)[j as int] == mv[j as int]);
                    j = j + 1;
                }
                assert(mv[i as int] == (o[i as int].key@, v@));
                m.push((o[i].key.clone(), v));
                assert(text_map_view(m@) =~= mv.take(i + 1));
                assert forall|a: int, b: int| 0 <= a < b < i + 1 implies #[trigger] mv.take(i + 1)[a].0
                    != #[trigger] mv.take(i + 1)[b].0 by {
                    if b < i {
                        assert(mv.take(i as int)[a].0 != mv.take(i as int)[b].0);
                    }
                }
                i = i + 1;
            }
            assert(mv.take(o.len() as int) =~= mv);
            Some(m)
        },
        _ => None,
    }
}

/// `o` without its entries under the key `k`.
pub open spec fn without(o: Seq<(Seq<char>, WireV)>, k: Seq<char>) -> Seq<(Seq<char>, WireV)>
    decreases o.len(),
{
    if o.len() == 0 {
        o
    } else if o.last().0 == k {
        without(o.drop_last(), k)
    } else {
        without(o.drop_last(), k).push(o.last())
    }
}

pub broadcast proof fn lemma_lookup_without(o: Seq<(Seq<char>, WireV)>, k: Seq<char>, q: Seq<char>)
    ensures
        #[trigger] lookup(without(o, k), q) == if q == k { None } else { lookup(o, q) },
    decreases o.len(),
{
    if o.len() > 0 {
        lemma_lookup_without(o.drop_last(), k, q);
        if o.last().0 != k {
            lemma_lookup_push(without(o.drop_last(), k), o.last().0, o.last().1, q);
        }
    }
}

pub proof fn lemma_text_map_round_trip(m: Seq<(Seq<char>, Seq<char>)>)
    requires
        keys_unique(m),
    ensures
        text_map_of(text_map_wire(m)) == Some(m),
{
    let o = text_map_wire(m)->Obj_0;
    assert(text_entries(o) =~= m);
}

} // verus!
