//! Flat records: the fields of one JSON object described by a table of
//! field descriptors, read with defaults and written with omission.
use vstd::prelude::*;
use crate::json::{
    JsonNumber, JsonValue, lookup, member, find_member, float_of_u64, float_of_i64, float_from_u64,
    float_from_i64,
};

verus! {

/// How a field is held on the wire.
#[derive(Clone, Copy)]
pub enum Kind {
    /// A string; left out of the object when empty.
    Text,
    /// An unsigned 64-bit integer.
    Id,
    /// An unsigned 8-bit integer.
    Small,
    /// A boolean.
    Flag,
    /// A float.
    Prob,
    /// An array of unsigned 64-bit integers.
    Ids,
    /// A nested object, read and written by the record that owns it.
    Object,
    /// An array of nested objects, read and written by the record that owns it.
    List,
}

/// A field descriptor: the key on the wire, how the value is held, and
/// whether the key must be present when reading.
#[derive(Clone, Copy)]
pub struct Field {
    pub name: &'static str,
    pub kind: Kind,
    pub required: bool,
}

/// The value of one field, as the contracts speak of it.
pub enum FlatVal {
    Text(Seq<char>),
    Id(u64),
    Small(u8),
    Flag(bool),
    Prob(serde_json::Number),
    Ids(Seq<u64>),
    /// A nested object or list, handled by the owner of the record.
    Nested,
}

/// The value of one field. `Node` carries a nested value that is already
/// encoded; `Nested` marks one that was found when reading.
pub enum FieldValue {
    Text(String),
    Id(u64),
    Small(u8),
    Flag(bool),
    Prob(serde_json::Number),
    Ids(Vec<u64>),
    Node(JsonValue),
    Nested,
}

impl View for FieldValue {
    type V = FlatVal;

    open spec fn view(&self) -> FlatVal {
        match self {
            FieldValue::Text(s) => FlatVal::Text(s@),
            FieldValue::Id(u) => FlatVal::Id(*u),
            FieldValue::Small(u) => FlatVal::Small(*u),
            FieldValue::Flag(b) => FlatVal::Flag(*b),
            FieldValue::Prob(x) => FlatVal::Prob(*x),
            FieldValue::Ids(xs) => FlatVal::Ids(xs@),
            FieldValue::Node(_) => FlatVal::Nested,
            FieldValue::Nested => FlatVal::Nested,
        }
    }
}

pub open spec fn views(vs: Seq<FieldValue>) -> Seq<FlatVal> {
    vs.map_values(|v: FieldValue| v@)
}

/// Whether a value has the shape that a kind of field holds.
pub open spec fn fits(kind: Kind, v: FlatVal) -> bool {
    match kind {
        Kind::Text => v is Text,
        Kind::Id => v is Id,
        Kind::Small => v is Small,
        Kind::Flag => v is Flag,
        Kind::Prob => v is Prob,
        Kind::Ids => v is Ids,
        Kind::Object => v is Nested,
        Kind::List => v is Nested,
    }
}

/// No two descriptors of the table share a key.
pub open spec fn distinct_names(schema: Seq<Field>) -> bool {
    forall|i: int, k: int|
        0 <= i < schema.len() && 0 <= k < schema.len() && i != k ==> schema[i].name@
            != schema[k].name@
}

/// The integers of an array whose items are all unsigned integers.
pub open spec fn ids_of(a: Seq<JsonValue>) -> Option<Seq<u64>> {
    if forall|i: int|
        0 <= i < a.len() ==> (#[trigger] a[i]) is Number && a[i]->Number_0 is PosInt {
        Some(a.map_values(|x: JsonValue| x->Number_0->PosInt_0))
    } else {
        None
    }
}

/// What a present key yields for a kind of field; `None` on a type mismatch.
pub open spec fn read_value(kind: Kind, j: JsonValue) -> Option<FlatVal> {
    match (kind, j) {
        (Kind::Text, JsonValue::Str(s)) => Some(FlatVal::Text(s@)),
        (Kind::Id, JsonValue::Number(JsonNumber::PosInt(u))) => Some(FlatVal::Id(u)),
        (Kind::Small, JsonValue::Number(JsonNumber::PosInt(u))) => if u <= 255 {
            Some(FlatVal::Small(u as u8))
        } else {
            None
        },
        (Kind::Flag, JsonValue::Bool(b)) => Some(FlatVal::Flag(b)),
        (Kind::Prob, JsonValue::Number(JsonNumber::PosInt(u))) => Some(FlatVal::Prob(float_of_u64(u))),
        (Kind::Prob, JsonValue::Number(JsonNumber::NegInt(i))) => Some(FlatVal::Prob(float_of_i64(i))),
        (Kind::Prob, JsonValue::Number(JsonNumber::Float(x))) => Some(FlatVal::Prob(x)),
        (Kind::Ids, JsonValue::Array(a)) => match ids_of(a@) {
            Some(xs) => Some(FlatVal::Ids(xs)),
            None => None,
        },
        (Kind::Object, JsonValue::Object(_)) => Some(FlatVal::Nested),
        (Kind::List, JsonValue::Array(_)) => Some(FlatVal::Nested),
        _ => None,
    }
}

/// The value that an absent key stands for: the zero of its kind.
pub open spec fn default_of(kind: Kind) -> FlatVal {
    match kind {
        Kind::Text => FlatVal::Text(Seq::empty()),
        Kind::Id => FlatVal::Id(0),
        Kind::Small => FlatVal::Small(0),
        Kind::Flag => FlatVal::Flag(false),
        Kind::Prob => FlatVal::Prob(float_of_u64(0)),
        Kind::Ids => FlatVal::Ids(Seq::empty()),
        Kind::Object => FlatVal::Nested,
        Kind::List => FlatVal::Nested,
    }
}

/// What one field reads as from the members of an object.
pub open spec fn read_field(f: Field, o: Seq<(String, JsonValue)>) -> Option<FlatVal> {
    match lookup(o, f.name@) {
        None => if f.required {
            None
        } else {
            Some(default_of(f.kind))
        },
        Some(j) => read_value(f.kind, j),
    }
}

/// What a record reads as: `None` unless `j` is an object whose every field reads.
pub open spec fn read_record(schema: Seq<Field>, j: JsonValue) -> Option<Seq<FlatVal>> {
    match j {
        JsonValue::Object(o) => if forall|i: int|
            0 <= i < schema.len() ==> (#[trigger] read_field(schema[i], o@)) is Some {
            Some(Seq::new(schema.len(), |i: int| read_field(schema[i], o@)->Some_0))
        } else {
            None
        },
        _ => None,
    }
}

/// An empty string is the one value that is left out when writing.
pub open spec fn omitted(v: FlatVal) -> bool {
    v is Text && v->Text_0.len() == 0
}

/// The positions of the fields that are written, in order.
pub open spec fn kept(vals: Seq<FlatVal>) -> Seq<int>
    decreases vals.len(),
{
    if vals.len() == 0 {
        Seq::empty()
    } else {
        let p = kept(vals.drop_last());
        if omitted(vals.last()) {
            p
        } else {
            p.push(vals.len() - 1)
        }
    }
}

/// Whether `j` is how a value of a field of that kind is written.
pub open spec fn shows(kind: Kind, v: FlatVal, j: JsonValue) -> bool {
    match v {
        FlatVal::Text(s) => j is Str && j->Str_0@ == s,
        FlatVal::Id(u) => j == JsonValue::Number(JsonNumber::PosInt(u)),
        FlatVal::Small(u) => j == JsonValue::Number(JsonNumber::PosInt(u as u64)),
        FlatVal::Flag(b) => j == JsonValue::Bool(b),
        FlatVal::Prob(x) => j == JsonValue::Number(JsonNumber::Float(x)),
        FlatVal::Ids(xs) => j is Array && ids_of(j->Array_0@) == Some(xs),
        FlatVal::Nested => (kind is Object && j is Object) || (kind is List && j is Array),
    }
}

/// `o` is the record written from `vals`: one member per kept field, in the
/// order of the table, keyed by the field's name.
pub open spec fn written(schema: Seq<Field>, vals: Seq<FlatVal>, o: Seq<(String, JsonValue)>) -> bool {
    let ks = kept(vals);
    &&& o.len() == ks.len()
    &&& forall|k: int|
        0 <= k < o.len() ==> (#[trigger] o[k]).0@ == schema[ks[k]].name@ && shows(
            schema[ks[k]].kind,
            vals[ks[k]],
            o[k].1,
        )
}

/// A value that can be written for a field of that kind.
pub open spec fn writable(kind: Kind, v: FieldValue) -> bool {
    match v {
        FieldValue::Node(j) => (kind is Object && j is Object) || (kind is List && j is Array),
        FieldValue::Nested => false,
        _ => fits(kind, v@),
    }
}

fn read_ids(a: &Vec<JsonValue>) -> (r: Option<Vec<u64>>)
    ensures
        match r {
            Some(xs) => ids_of(a@) == Some(xs@),
            None => ids_of(a@) is None,
        },
{
    let mut out: Vec<u64> = Vec::new();
    let mut i: usize = 0;
    while i < a.len()
        invariant
            i <= a@.len(),
            out@.len() == i,
            forall|k: int|
                0 <= k < i ==> (#[trigger] a@[k]) is Number && a@[k]->Number_0 is PosInt
                    && out@[k] == a@[k]->Number_0->PosInt_0,
        decreases a@.len() - i,
    {
        match &a[i] {
            JsonValue::Number(JsonNumber::PosInt(u)) => out.push(*u),
            _ => return None,
        }
        i = i + 1;
    }
    assert(out@ =~= a@.map_values(|x: JsonValue| x->Number_0->PosInt_0));
    Some(out)
}

/// Reads the value of a present key for a field of the given kind.
pub fn read_value_of(kind: Kind, j: &JsonValue) -> (r: Option<FieldValue>)
    ensures
        match r {
            Some(v) => read_value(kind, *j) == Some(v@),
            None => read_value(kind, *j) is None,
        },
{
    match (kind, j) {
        (Kind::Text, JsonValue::Str(s)) => Some(FieldValue::Text(s.clone())),
        (Kind::Id, JsonValue::Number(JsonNumber::PosInt(u))) => Some(FieldValue::Id(*u)),
        (Kind::Small, JsonValue::Number(JsonNumber::PosInt(u))) => if *u <= 255 {
            Some(FieldValue::Small(*u as u8))
        } else {
            None
        },
        (Kind::Flag, JsonValue::Bool(b)) => Some(FieldValue::Flag(*b)),
        (Kind::Prob, JsonValue::Number(JsonNumber::PosInt(u))) => Some(FieldValue::Prob(float_from_u64(*u))),
        (Kind::Prob, JsonValue::Number(JsonNumber::NegInt(i))) => Some(FieldValue::Prob(float_from_i64(*i))),
        (Kind::Prob, JsonValue::Number(JsonNumber::Float(x))) => Some(FieldValue::Prob(x.clone())),
        (Kind::Ids, JsonValue::Array(a)) => match read_ids(a) {
            Some(xs) => Some(FieldValue::Ids(xs)),
            None => None,
        },
        (Kind::Object, JsonValue::Object(_)) => Some(FieldValue::Nested),
        (Kind::List, JsonValue::Array(_)) => Some(FieldValue::Nested),
        _ => None,
    }
}

/// The zero value of a kind of field.
pub fn default_value(kind: Kind) -> (r: FieldValue)
    ensures
        r@ == default_of(kind),
{
    match kind {
        Kind::Text => FieldValue::Text(String::new()),
        Kind::Id => FieldValue::Id(0),
        Kind::Small => FieldValue::Small(0),
        Kind::Flag => FieldValue::Flag(false),
        Kind::Prob => FieldValue::Prob(float_from_u64(0)),
        Kind::Ids => {
            let v: Vec<u64> = Vec::new();
            assert(v@ =~= Seq::<u64>::empty());
            FieldValue::Ids(v)
        },
        Kind::Object => FieldValue::Nested,
        Kind::List => FieldValue::Nested,
    }
}

/// Reads one field from the members of an object.
pub fn read_field_of(f: Field, o: &Vec<(String, JsonValue)>) -> (r: Option<FieldValue>)
    ensures
        match r {
            Some(v) => read_field(f, o@) == Some(v@),
            None => read_field(f, o@) is None,
        },
{
    match find_member(o, f.name) {
        None => if f.required {
            None
        } else {
            Some(default_value(f.kind))
        },
        Some(j) => read_value_of(f.kind, j),
    }
}

/// Reads every field of a table from an object, in the order of the table.
pub fn read_record_of(schema: &Vec<Field>, j: &JsonValue) -> (r: Option<Vec<FieldValue>>)
    ensures
        match r {
            Some(vs) => read_record(schema@, *j) == Some(views(vs@)),
            None => read_record(schema@, *j) is None,
        },
        r matches Some(vs) ==> {
            &&& *j is Object
            &&& vs@.len() == schema@.len()
            &&& forall|i: int|
                0 <= i < schema@.len() ==> read_field(schema@[i], j->Object_0@) is Some && (
                #[trigger] vs@[i])@ == read_field(schema@[i], j->Object_0@)->Some_0
        },
{
    let o = match j {
        JsonValue::Object(o) => o,
        _ => return None,
    };
    let mut out: Vec<FieldValue> = Vec::new();
    let mut i: usize = 0;
    while i < schema.len()
        invariant
            *j == JsonValue::Object(*o),
            i <= schema@.len(),
            out@.len() == i,
            forall|k: int|
                0 <= k < i ==> (#[trigger] read_field(schema@[k], o@)) == Some(out@[k]@),
        decreases schema@.len() - i,
    {
        match read_field_of(schema[i], o) {
            Some(v) => out.push(v),
            None => return None,
        }
        i = i + 1;
    }
    assert(views(out@) =~= Seq::new(schema@.len(), |i: int| read_field(schema@[i], o@)->Some_0));
    Some(out)
}

/// The kept positions are in range, rising, and name fields that are written.
pub proof fn lemma_kept(vals: Seq<FlatVal>)
    ensures
        kept(vals).len() <= vals.len(),
        forall|k: int|
            0 <= k < kept(vals).len() ==> 0 <= #[trigger] kept(vals)[k] < vals.len() && !omitted(
                vals[kept(vals)[k]],
            ),
        forall|k: int, m: int|
            0 <= k < m < kept(vals).len() ==> #[trigger] kept(vals)[k] < #[trigger] kept(vals)[m],
        forall|i: int|
            0 <= i < vals.len() && !omitted(#[trigger] vals[i]) ==> exists|k: int|
                0 <= k < kept(vals).len() && kept(vals)[k] == i,
    decreases vals.len(),
{
    if vals.len() > 0 {
        let p = vals.drop_last();
        lemma_kept(p);
        assert forall|i: int| 0 <= i < vals.len() && !omitted(#[trigger] vals[i]) implies exists|
            k: int,
        | 0 <= k < kept(vals).len() && kept(vals)[k] == i by {
            if i < vals.len() - 1 {
                assert(p[i] == vals[i]);
                let k = choose|k: int| 0 <= k < kept(p).len() && kept(p)[k] == i;
                assert(kept(vals)[k] == i);
            } else {
                assert(kept(vals)[kept(p).len() as int] == i);
            }
        }
    }
}

fn write_ids(xs: &Vec<u64>) -> (r: Vec<JsonValue>)
    ensures
        ids_of(r@) == Some(xs@),
{
    let mut out: Vec<JsonValue> = Vec::new();
    let mut i: usize = 0;
    while i < xs.len()
        invariant
            i <= xs@.len(),
            out@.len() == i,
            forall|k: int|
                0 <= k < i ==> #[trigger] out@[k] == JsonValue::Number(JsonNumber::PosInt(xs@[k])),
        decreases xs@.len() - i,
    {
        out.push(JsonValue::Number(JsonNumber::PosInt(xs[i])));
        i = i + 1;
    }
    assert(out@.map_values(|x: JsonValue| x->Number_0->PosInt_0) =~= xs@);
    out
}

/// Writes the value of one field.
pub fn write_value_of(kind: Kind, v: FieldValue) -> (r: JsonValue)
    requires
        writable(kind, v),
    ensures
        shows(kind, v@, r),
        v is Node ==> r == v->Node_0,
{
    match v {
        FieldValue::Text(s) => JsonValue::Str(s),
        FieldValue::Id(u) => JsonValue::Number(JsonNumber::PosInt(u)),
        FieldValue::Small(u) => JsonValue::Number(JsonNumber::PosInt(u as u64)),
        FieldValue::Flag(b) => JsonValue::Bool(b),
        FieldValue::Prob(x) => JsonValue::Number(JsonNumber::Float(x)),
        FieldValue::Ids(xs) => JsonValue::Array(write_ids(&xs)),
        FieldValue::Node(j) => j,
        FieldValue::Nested => JsonValue::Null,
    }
}

/// Whether a value is left out when writing.
pub fn is_omitted(v: &FieldValue) -> (r: bool)
    ensures
        r == omitted(v@),
{
    match v {
        FieldValue::Text(s) => s.as_str().is_empty(),
        _ => false,
    }
}

/// Writes the members of an object from a table and one value per field:
/// each field in the order of the table, but for the empty strings.
pub fn write_record_of(schema: &Vec<Field>, vals: Vec<FieldValue>) -> (r: Vec<(String, JsonValue)>)
    requires
        schema@.len() == vals@.len(),
        forall|i: int| 0 <= i < vals@.len() ==> writable(schema@[i].kind, #[trigger] vals@[i]),
    ensures
        written(schema@, views(vals@), r@),
        forall|k: int|
            0 <= k < r@.len() && (#[trigger] vals@[kept(views(vals@))[k]]) is Node ==> r@[k].1
                == vals@[kept(views(vals@))[k]]->Node_0,
{
    let ghost all = vals@;
    let ghost n = all.len();
    let mut rest = vals;
    let mut out: Vec<(String, JsonValue)> = Vec::new();
    let mut i: usize = 0;
    assert(rest@.subrange(0, n as int) =~= rest@);
    while i < schema.len()
        invariant
            n == all.len(),
            n == schema@.len(),
            i <= n,
            rest@ =~= all.subrange(i as int, n as int),
            forall|i: int| 0 <= i < all.len() ==> writable(schema@[i].kind, #[trigger] all[i]),
            written(schema@, views(all.subrange(0, i as int)), out@),
            forall|k: int|
                0 <= k < out@.len() && (#[trigger] all[kept(views(all.subrange(0, i as int)))[k]])
                    is Node ==> out@[k].1 == all[kept(views(all.subrange(0, i as int)))[k]]->Node_0,
        decreases n - i,
    {
        let v = rest.remove(0);
        assert(v == all[i as int]);
        let ghost pre = views(all.subrange(0, i as int));
        let ghost post = views(all.subrange(0, i + 1));
        assert(post.drop_last() =~= pre);
        assert(post.last() == v@);
        proof {
            lemma_kept(pre);
            assert forall|k: int| 0 <= k < kept(pre).len() implies post[kept(pre)[k]] == pre[kept(
                pre,
            )[k]] && all.subrange(0, i + 1)[kept(pre)[k]] == all[kept(pre)[k]] by {}
        }
        if is_omitted(&v) {
            assert(kept(post) == kept(pre));
        } else {
            let f = schema[i];
            let ghost old_out = out@;
            let j = write_value_of(f.kind, v);
            out.push((f.name.to_owned(), j));
            assert(kept(post) == kept(pre).push(i as int));
            assert(forall|k: int| 0 <= k < old_out.len() ==> out@[k] == old_out[k]);
        }
        i = i + 1;
    }
    assert(all.subrange(0, n as int) =~= all);
    out
}

pub fn copy_ids(xs: &Vec<u64>) -> (r: Vec<u64>)
    ensures
        r@ == xs@,
{
    let mut out: Vec<u64> = Vec::new();
    let mut i: usize = 0;
    while i < xs.len()
        invariant
            i <= xs@.len(),
            out@ =~= xs@.subrange(0, i as int),
        decreases xs@.len() - i,
    {
        out.push(xs[i]);
        i = i + 1;
    }
    assert(out@ =~= xs@);
    out
}

/// The string held at position `i` of a read record.
pub fn text_at(vs: &Vec<FieldValue>, i: usize) -> (r: String)
    requires
        i < vs@.len(),
        vs@[i as int]@ is Text,
    ensures
        FlatVal::Text(r@) == vs@[i as int]@,
{
    match &vs[i] {
        FieldValue::Text(s) => s.clone(),
        _ => String::new(),
    }
}

/// The integer held at position `i` of a read record.
pub fn id_at(vs: &Vec<FieldValue>, i: usize) -> (r: u64)
    requires
        i < vs@.len(),
        vs@[i as int]@ is Id,
    ensures
        FlatVal::Id(r) == vs@[i as int]@,
{
    match &vs[i] {
        FieldValue::Id(u) => *u,
        _ => 0,
    }
}

/// The small integer held at position `i` of a read record.
pub fn small_at(vs: &Vec<FieldValue>, i: usize) -> (r: u8)
    requires
        i < vs@.len(),
        vs@[i as int]@ is Small,
    ensures
        FlatVal::Small(r) == vs@[i as int]@,
{
    match &vs[i] {
        FieldValue::Small(u) => *u,
        _ => 0,
    }
}

/// The flag held at position `i` of a read record.
pub fn flag_at(vs: &Vec<FieldValue>, i: usize) -> (r: bool)
    requires
        i < vs@.len(),
        vs@[i as int]@ is Flag,
    ensures
        FlatVal::Flag(r) == vs@[i as int]@,
{
    match &vs[i] {
        FieldValue::Flag(b) => *b,
        _ => false,
    }
}

/// The float held at position `i` of a read record.
pub fn prob_at(vs: &Vec<FieldValue>, i: usize) -> (r: serde_json::Number)
    requires
        i < vs@.len(),
        vs@[i as int]@ is Prob,
    ensures
        FlatVal::Prob(r) == vs@[i as int]@,
{
    match &vs[i] {
        FieldValue::Prob(x) => x.clone(),
        _ => float_from_u64(0),
    }
}

/// The integer list held at position `i` of a read record.
pub fn ids_at(vs: &Vec<FieldValue>, i: usize) -> (r: Vec<u64>)
    requires
        i < vs@.len(),
        vs@[i as int]@ is Ids,
    ensures
        FlatVal::Ids(r@) == vs@[i as int]@,
{
    match &vs[i] {
        FieldValue::Ids(xs) => copy_ids(xs),
        _ => Vec::new(),
    }
}

/// The first member of `o` named `key` is the one at `k`.
pub proof fn lemma_lookup_at(o: Seq<(String, JsonValue)>, key: Seq<char>, k: int)
    requires
        0 <= k < o.len(),
        o[k].0@ == key,
        forall|m: int| 0 <= m < k ==> (#[trigger] o[m]).0@ != key,
    ensures
        lookup(o, key) == Some(o[k].1),
    decreases k,
{
    if k > 0 {
        assert(o[0].0@ != key);
        let d = o.drop_first();
        assert(forall|m: int| 0 <= m < k - 1 ==> #[trigger] d[m] == o[m + 1]);
        lemma_lookup_at(d, key, k - 1);
    }
}

/// No member of `o` is named `key`.
pub proof fn lemma_lookup_none(o: Seq<(String, JsonValue)>, key: Seq<char>)
    requires
        forall|m: int| 0 <= m < o.len() ==> (#[trigger] o[m]).0@ != key,
    ensures
        lookup(o, key) is None,
    decreases o.len(),
{
    if o.len() > 0 {
        assert(o[0].0@ != key);
        let d = o.drop_first();
        assert(forall|m: int| 0 <= m < d.len() ==> #[trigger] d[m] == o[m + 1]);
        lemma_lookup_none(d, key);
    }
}

/// Where a field stands in a written record: nowhere when it is omitted,
/// else at the member that its kept position gives.
pub proof fn lemma_written_lookup(
    schema: Seq<Field>,
    vals: Seq<FlatVal>,
    o: Seq<(String, JsonValue)>,
    i: int,
)
    requires
        written(schema, vals, o),
        distinct_names(schema),
        vals.len() == schema.len(),
        0 <= i < vals.len(),
    ensures
        omitted(vals[i]) ==> lookup(o, schema[i].name@) is None,
        !omitted(vals[i]) ==> exists|k: int|
            0 <= k < o.len() && kept(vals)[k] == i && lookup(o, schema[i].name@) == Some(
                #[trigger] o[k].1,
            ),
{
    lemma_kept(vals);
    let ks = kept(vals);
    if omitted(vals[i]) {
        assert forall|m: int| 0 <= m < o.len() implies (#[trigger] o[m]).0@ != schema[i].name@ by {
            assert(ks[m] != i);
        }
        lemma_lookup_none(o, schema[i].name@);
    } else {
        let k = choose|k: int| 0 <= k < ks.len() && ks[k] == i;
        assert forall|m: int| 0 <= m < k implies (#[trigger] o[m]).0@ != schema[i].name@ by {
            assert(ks[m] < ks[k]);
        }
        lemma_lookup_at(o, schema[i].name@, k);
        assert(lookup(o, schema[i].name@) == Some(o[k].1));
    }
}

/// Every value has the shape of its field's kind.
pub open spec fn fits_all(schema: Seq<Field>, vals: Seq<FlatVal>) -> bool {
    &&& vals.len() == schema.len()
    &&& forall|i: int| 0 <= i < vals.len() ==> fits(schema[i].kind, #[trigger] vals[i])
}

/// No required string field is empty: an empty one would be left out and
/// then missed when reading.
pub open spec fn storable(schema: Seq<Field>, vals: Seq<FlatVal>) -> bool {
    forall|i: int|
        0 <= i < vals.len() && schema[i].required && (#[trigger] vals[i]) is Text
            ==> vals[i]->Text_0.len() > 0
}

proof fn lemma_read_shows(kind: Kind, v: FlatVal, j: JsonValue)
    requires
        fits(kind, v),
        shows(kind, v, j),
    ensures
        read_value(kind, j) == Some(v),
{
}

/// Reading a written record gives back the values it was written from.
pub proof fn lemma_read_written(schema: Seq<Field>, vals: Seq<FlatVal>, o: Vec<(String, JsonValue)>)
    requires
        written(schema, vals, o@),
        distinct_names(schema),
        fits_all(schema, vals),
        storable(schema, vals),
    ensures
        read_record(schema, JsonValue::Object(o)) == Some(vals),
{
    assert forall|i: int| 0 <= i < schema.len() implies #[trigger] read_field(schema[i], o@) == Some(
        vals[i],
    ) by {
        lemma_written_lookup(schema, vals, o@, i);
        if omitted(vals[i]) {
            assert(vals[i]->Text_0 =~= Seq::<char>::empty());
        } else {
            let k = choose|k: int|
                0 <= k < o@.len() && kept(vals)[k] == i && lookup(o@, schema[i].name@) == Some(
                    #[trigger] o@[k].1,
                );
            lemma_read_shows(schema[i].kind, vals[i], o@[k].1);
        }
    }
    assert(Seq::new(schema.len(), |i: int| read_field(schema[i], o@)->Some_0) =~= vals);
}

/// A string field is written if and only if it is not empty, and then
/// under its own name with its exact value.
pub proof fn law_text_written_iff_not_empty(
    schema: Seq<Field>,
    vals: Seq<FlatVal>,
    o: Seq<(String, JsonValue)>,
    i: int,
)
    requires
        written(schema, vals, o),
        distinct_names(schema),
        vals.len() == schema.len(),
        0 <= i < vals.len(),
        vals[i] is Text,
    ensures
        vals[i]->Text_0.len() == 0 ==> lookup(o, schema[i].name@) is None,
        vals[i]->Text_0.len() > 0 ==> match lookup(o, schema[i].name@) {
            Some(JsonValue::Str(s)) => s@ == vals[i]->Text_0,
            _ => false,
        },
{
    lemma_written_lookup(schema, vals, o, i);
}

/// Every field that is not a string (a number, a flag, a list, a nested
/// object) is written whatever its value, zero and empty included.
pub proof fn law_non_text_always_written(
    schema: Seq<Field>,
    vals: Seq<FlatVal>,
    o: Seq<(String, JsonValue)>,
    i: int,
)
    requires
        written(schema, vals, o),
        distinct_names(schema),
        vals.len() == schema.len(),
        0 <= i < vals.len(),
        !(vals[i] is Text),
    ensures
        lookup(o, schema[i].name@) is Some,
        shows(schema[i].kind, vals[i], lookup(o, schema[i].name@)->Some_0),
{
    lemma_written_lookup(schema, vals, o, i);
}

/// A field whose key is absent reads as the zero value of its kind.
pub proof fn law_absent_field_is_zero(schema: Seq<Field>, o: Vec<(String, JsonValue)>, i: int)
    requires
        0 <= i < schema.len(),
        lookup(o@, schema[i].name@) is None,
        read_record(schema, JsonValue::Object(o)) is Some,
    ensures
        !schema[i].required,
        read_record(schema, JsonValue::Object(o))->Some_0[i] == default_of(schema[i].kind),
{
    assert(read_field(schema[i], o@) is Some);
}

/// A record with a required field absent does not read.
pub proof fn law_required_field_absent(schema: Seq<Field>, j: JsonValue, i: int)
    requires
        0 <= i < schema.len(),
        schema[i].required,
        member(j, schema[i].name@) is None,
    ensures
        read_record(schema, j) is None,
{
    if j is Object {
        assert(read_field(schema[i], j->Object_0@) is None);
    }
}

} // verus!
