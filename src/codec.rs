//! The typed side of the mapping: every model type reads itself from and
//! writes itself to a JSON object through its field table.
use vstd::prelude::*;
use crate::json::{JsonNumber, JsonValue, member, parsed_text, rendered_text, parse_json_text, render_json_text};
use crate::record::{Field, FlatVal, read_record, default_of, law_absent_field_is_zero, law_required_field_absent, law_text_written_iff_not_empty, law_non_text_always_written};
use crate::model::{JSONNLP, Token, Dependency, Meta, lemma_names_meta, lemma_names_token};

verus! {

/// A model type with a field table.
pub trait Record: Sized {
    /// The field table, in declared order.
    spec fn schema() -> Seq<Field>;

    /// The values of the fields, in the order of the table; nested members
    /// stand as `Nested`.
    spec fn flat(&self) -> Seq<FlatVal>;

    /// `j` reads as a value of this type.
    spec fn accepts(j: JsonValue) -> bool;

    /// `j` reads as `t`.
    spec fn decodes(j: JsonValue, t: Self) -> bool;

    /// `j` is what `self` is written as.
    spec fn encodes(&self, j: JsonValue) -> bool;

    /// No required string field, here or below, is empty.
    spec fn storable(&self) -> bool;

    fn fields() -> (r: Vec<Field>)
        ensures
            r@ == Self::schema(),
    ;

    fn decode(j: &JsonValue) -> (r: Option<Self>)
        ensures
            r is Some <==> Self::accepts(*j),
            r matches Some(t) ==> Self::decodes(*j, t),
    ;

    fn encode(&self) -> (j: JsonValue)
        ensures
            self.encodes(j),
            j is Object,
    ;

    /// What a value reads as is, field by field, its flat view.
    proof fn lemma_decodes_flat(j: JsonValue, t: Self)
        requires
            Self::decodes(j, t),
        ensures
            read_record(Self::schema(), j) == Some(t.flat()),
    ;

    /// What is written reads back as the value it was written from.
    proof fn lemma_round_trip(&self, j: JsonValue)
        requires
            self.storable(),
            self.encodes(j),
        ensures
            Self::accepts(j),
            Self::decodes(j, *self),
    ;
}

/// The items of a list member; an absent member is an empty list.
pub open spec fn items(m: Option<JsonValue>) -> Seq<JsonValue> {
    match m {
        Some(JsonValue::Array(a)) => a@,
        _ => Seq::empty(),
    }
}

pub open spec fn owned(m: Option<&JsonValue>) -> Option<JsonValue> {
    match m {
        Some(j) => Some(*j),
        None => None,
    }
}

pub open spec fn all_accept<T: Record>(js: Seq<JsonValue>) -> bool {
    forall|i: int| 0 <= i < js.len() ==> T::accepts(#[trigger] js[i])
}

pub open spec fn all_decode<T: Record>(js: Seq<JsonValue>, ts: Seq<T>) -> bool {
    &&& js.len() == ts.len()
    &&& forall|i: int| 0 <= i < js.len() ==> T::decodes(#[trigger] js[i], ts[i])
}

pub open spec fn all_encode<T: Record>(ts: Seq<T>, m: Option<JsonValue>) -> bool {
    &&& m matches Some(JsonValue::Array(a))
    &&& items(m).len() == ts.len()
    &&& forall|i: int| 0 <= i < ts.len() ==> (#[trigger] ts[i]).encodes(items(m)[i])
}

pub open spec fn all_storable<T: Record>(ts: Seq<T>) -> bool {
    forall|i: int| 0 <= i < ts.len() ==> (#[trigger] ts[i]).storable()
}

/// Reads a list member; an absent member is an empty list.
pub fn decode_list<T: Record>(m: Option<&JsonValue>) -> (r: Option<Vec<T>>)
    requires
        m matches Some(j) ==> j is Array,
    ensures
        r is Some <==> all_accept::<T>(items(owned(m))),
        r matches Some(ts) ==> all_decode::<T>(items(owned(m)), ts@),
{
    let mut out: Vec<T> = Vec::new();
    let a = match m {
        Some(JsonValue::Array(a)) => a,
        _ => {
            return Some(out);
        },
    };
    let mut i: usize = 0;
    while i < a.len()
        invariant
            items(owned(m)) == a@,
            i <= a@.len(),
            out@.len() == i,
            forall|k: int| 0 <= k < i ==> T::accepts(#[trigger] a@[k]),
            forall|k: int| 0 <= k < i ==> T::decodes(#[trigger] a@[k], out@[k]),
        decreases a@.len() - i,
    {
        match T::decode(&a[i]) {
            Some(t) => out.push(t),
            None => return None,
        }
        i = i + 1;
    }
    Some(out)
}

/// Writes a list member, one object per item.
pub fn encode_list<T: Record>(ts: &Vec<T>) -> (r: JsonValue)
    ensures
        all_encode(ts@, Some(r)),
{
    let mut out: Vec<JsonValue> = Vec::new();
    let mut i: usize = 0;
    while i < ts.len()
        invariant
            i <= ts@.len(),
            out@.len() == i,
            forall|k: int| 0 <= k < i ==> (#[trigger] ts@[k]).encodes(out@[k]),
        decreases ts@.len() - i,
    {
        out.push(ts[i].encode());
        i = i + 1;
    }
    JsonValue::Array(out)
}

/// A written list reads back as the list it was written from.
pub proof fn lemma_list_round_trip<T: Record>(ts: Seq<T>, m: Option<JsonValue>)
    requires
        all_storable(ts),
        all_encode(ts, m),
    ensures
        all_accept::<T>(items(m)),
        all_decode::<T>(items(m), ts),
{
    assert forall|i: int| 0 <= i < ts.len() implies T::accepts(#[trigger] items(m)[i]) && T::decodes(
        items(m)[i],
        ts[i],
    ) by {
        ts[i].lemma_round_trip(items(m)[i]);
    }
}

/// How a call of the codec fails.
#[derive(Clone, Copy, Debug, PartialEq, Eq, Structural)]
pub enum CodecError {
    /// The text is not JSON, or a required member is absent, or a member
    /// holds a value of the wrong type.
    MalformedInput,
    /// The underlying stream or file could not be read.
    IoError,
    /// The tree could not be written as text.
    EncodingError,
}

/// Reads a JSON-NLP collection from a JSON tree.
pub fn from_json_value(j: &JsonValue) -> (r: Result<JSONNLP, CodecError>)
    ensures
        r is Ok <==> JSONNLP::accepts(*j),
        r matches Ok(m) ==> JSONNLP::decodes(*j, m),
        r matches Err(e) ==> e == CodecError::MalformedInput,
{
    match JSONNLP::decode(j) {
        Some(m) => Ok(m),
        None => Err(CodecError::MalformedInput),
    }
}

/// Reads a JSON-NLP collection from JSON text.
pub fn from_string(json: &str) -> (r: Result<JSONNLP, CodecError>)
    ensures
        parsed_text(json@) is None ==> r == Err::<JSONNLP, CodecError>(CodecError::MalformedInput),
        parsed_text(json@) matches Some(j) ==> (r is Ok <==> JSONNLP::accepts(j)),
        parsed_text(json@) matches Some(j) ==> (r matches Ok(m) ==> JSONNLP::decodes(j, m)),
        r matches Err(e) ==> e == CodecError::MalformedInput,
{
    match parse_json_text(json) {
        Ok(j) => from_json_value(&j),
        Err(_) => Err(CodecError::MalformedInput),
    }
}

/// Writes a JSON-NLP collection as a JSON tree.
pub fn to_json_value(m: &JSONNLP) -> (j: JsonValue)
    ensures
        m.encodes(j),
{
    m.encode()
}

/// Writes a JSON-NLP collection as JSON text.
pub fn get_json(m: &JSONNLP) -> (r: Result<String, CodecError>)
    ensures
        r is Ok,
        r matches Ok(s) ==> exists|j: JsonValue| m.encodes(j) && s@ == rendered_text(j),
{
    let j = to_json_value(m);
    match render_json_text(&j) {
        Ok(s) => Ok(s),
        Err(_) => Err(CodecError::EncodingError),
    }
}

/// A collection whose required strings are not empty reads back from its
/// own encoding as itself: reading what was written gives the same model.
pub proof fn law_round_trip(m: JSONNLP, j: JsonValue)
    requires
        m.storable(),
        m.encodes(j),
    ensures
        JSONNLP::accepts(j),
        JSONNLP::decodes(j, m),
{
    m.lemma_round_trip(j);
}

/// In a value of any model type read from `j`, a field whose key `j` lacks
/// holds the zero value of its kind, and that field is not a required one.
pub proof fn law_absent_field_reads_as_zero<T: Record>(j: JsonValue, t: T, i: int)
    requires
        T::decodes(j, t),
        0 <= i < T::schema().len(),
        member(j, T::schema()[i].name@) is None,
    ensures
        !T::schema()[i].required,
        t.flat()[i] == default_of(T::schema()[i].kind),
{
    T::lemma_decodes_flat(j, t);
    assert(j == JsonValue::Object(j->Object_0));
    law_absent_field_is_zero(T::schema(), j->Object_0, i);
}

/// A token object without `id`, `text` or `lemma` does not read.
pub proof fn law_token_needs_id_text_lemma(j: JsonValue)
    requires
        member(j, "id"@) is None || member(j, "text"@) is None || member(j, "lemma"@) is None,
    ensures
        !Token::accepts(j),
{
    if member(j, "id"@) is None {
        law_required_field_absent(Token::schema(), j, 0);
    } else if member(j, "text"@) is None {
        law_required_field_absent(Token::schema(), j, 2);
    } else {
        law_required_field_absent(Token::schema(), j, 3);
    }
}

/// A dependency object without `lab`, `gov` or `dep` does not read.
pub proof fn law_dependency_needs_lab_gov_dep(j: JsonValue)
    requires
        member(j, "lab"@) is None || member(j, "gov"@) is None || member(j, "dep"@) is None,
    ensures
        !Dependency::accepts(j),
{
    if member(j, "lab"@) is None {
        law_required_field_absent(Dependency::schema(), j, 0);
    } else if member(j, "gov"@) is None {
        law_required_field_absent(Dependency::schema(), j, 1);
    } else {
        law_required_field_absent(Dependency::schema(), j, 2);
    }
}

/// A metadata author that is not empty is written under `DC.author`.
pub proof fn law_meta_author_key(m: Meta, j: JsonValue)
    requires
        m.encodes(j),
        m.author@.len() > 0,
    ensures
        member(j, "DC.author"@) matches Some(JsonValue::Str(s)) && s@ == m.author@,
{
    lemma_names_meta();
    law_text_written_iff_not_empty(Meta::schema(), m.flat(), j->Object_0@, 1);
}

/// A token's `prop_id_prob` is always written under `propIDProbability`.
pub proof fn law_token_prop_probability_key(t: Token, j: JsonValue)
    requires
        t.encodes(j),
    ensures
        member(j, "propIDProbability"@) == Some(JsonValue::Number(JsonNumber::Float(t.prop_id_prob))),
{
    lemma_names_token();
    law_non_text_always_written(Token::schema(), t.flat(), j->Object_0@, 12);
}

} // verus!
