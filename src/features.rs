//! The features of a token and their field table.
use vstd::prelude::*;
use crate::json::JsonValue;
use crate::record::{
    Field, Kind, FlatVal, FieldValue, read_record, read_record_of, write_record_of, written, storable,
    distinct_names, views, lemma_read_written, text_at, small_at, flag_at,
};
use crate::codec::Record;

verus! {

/// Morpho-syntactic, semantic and orthographic features of a token.
pub struct TokenFeatures {
    pub overt: bool,
    pub stop: bool,
    pub alpha: bool,
    pub number: u8,
    pub gender: String,
    pub person: u8,
    pub tense: String,
    pub perfect: bool,
    pub continuous: bool,
    pub progressive: bool,
    pub case: String,
    pub human: bool,
    pub animate: bool,
    pub negated: bool,
    pub countable: bool,
    pub factive: bool,
    pub counterfactive: bool,
    pub irregular: bool,
    pub phrasalverb: bool,
    pub mood: String,
    pub foreign: bool,
    pub spaceafter: bool,
}

impl Record for TokenFeatures {
    open spec fn schema() -> Seq<Field> {
        seq![
            Field { name: "overt", kind: Kind::Flag, required: false },
            Field { name: "stop", kind: Kind::Flag, required: false },
            Field { name: "alpha", kind: Kind::Flag, required: false },
            Field { name: "number", kind: Kind::Small, required: false },
            Field { name: "gender", kind: Kind::Text, required: false },
            Field { name: "person", kind: Kind::Small, required: false },
            Field { name: "tense", kind: Kind::Text, required: false },
            Field { name: "perfect", kind: Kind::Flag, required: false },
            Field { name: "continuous", kind: Kind::Flag, required: false },
            Field { name: "progressive", kind: Kind::Flag, required: false },
            Field { name: "case", kind: Kind::Text, required: false },
            Field { name: "human", kind: Kind::Flag, required: false },
            Field { name: "animate", kind: Kind::Flag, required: false },
            Field { name: "negated", kind: Kind::Flag, required: false },
            Field { name: "countable", kind: Kind::Flag, required: false },
            Field { name: "factive", kind: Kind::Flag, required: false },
            Field { name: "counterfactive", kind: Kind::Flag, required: false },
            Field { name: "irregular", kind: Kind::Flag, required: false },
            Field { name: "phrasalVerb", kind: Kind::Flag, required: false },
            Field { name: "mood", kind: Kind::Text, required: false },
            Field { name: "foreign", kind: Kind::Flag, required: false },
            Field { name: "spaceAfter", kind: Kind::Flag, required: false },
        ]
    }

    open spec fn flat(&self) -> Seq<FlatVal> {
        seq![
            FlatVal::Flag(self.overt),
            FlatVal::Flag(self.stop),
            FlatVal::Flag(self.alpha),
            FlatVal::Small(self.number),
            FlatVal::Text(self.gender@),
            FlatVal::Small(self.person),
            FlatVal::Text(self.tense@),
            FlatVal::Flag(self.perfect),
            FlatVal::Flag(self.continuous),
            FlatVal::Flag(self.progressive),
            FlatVal::Text(self.case@),
            FlatVal::Flag(self.human),
            FlatVal::Flag(self.animate),
            FlatVal::Flag(self.negated),
            FlatVal::Flag(self.countable),
            FlatVal::Flag(self.factive),
            FlatVal::Flag(self.counterfactive),
            FlatVal::Flag(self.irregular),
            FlatVal::Flag(self.phrasalverb),
            FlatVal::Text(self.mood@),
            FlatVal::Flag(self.foreign),
            FlatVal::Flag(self.spaceafter),
        ]
    }

    open spec fn accepts(j: JsonValue) -> bool {
        read_record(Self::schema(), j) is Some
    }

    open spec fn decodes(j: JsonValue, t: Self) -> bool {
        read_record(Self::schema(), j) == Some(t.flat())
    }

    open spec fn encodes(&self, j: JsonValue) -> bool {
        &&& j is Object
        &&& written(Self::schema(), self.flat(), j->Object_0@)
    }

    open spec fn storable(&self) -> bool {
        storable(Self::schema(), self.flat())
    }

    fn fields() -> (r: Vec<Field>) {
        vec![
            Field { name: "overt", kind: Kind::Flag, required: false },
            Field { name: "stop", kind: Kind::Flag, required: false },
            Field { name: "alpha", kind: Kind::Flag, required: false },
            Field { name: "number", kind: Kind::Small, required: false },
            Field { name: "gender", kind: Kind::Text, required: false },
            Field { name: "person", kind: Kind::Small, required: false },
            Field { name: "tense", kind: Kind::Text, required: false },
            Field { name: "perfect", kind: Kind::Flag, required: false },
            Field { name: "continuous", kind: Kind::Flag, required: false },
            Field { name: "progressive", kind: Kind::Flag, required: false },
            Field { name: "case", kind: Kind::Text, required: false },
            Field { name: "human", kind: Kind::Flag, required: false },
            Field { name: "animate", kind: Kind::Flag, required: false },
            Field { name: "negated", kind: Kind::Flag, required: false },
            Field { name: "countable", kind: Kind::Flag, required: false },
            Field { name: "factive", kind: Kind::Flag, required: false },
            Field { name: "counterfactive", kind: Kind::Flag, required: false },
            Field { name: "irregular", kind: Kind::Flag, required: false },
            Field { name: "phrasalVerb", kind: Kind::Flag, required: false },
            Field { name: "mood", kind: Kind::Text, required: false },
            Field { name: "foreign", kind: Kind::Flag, required: false },
            Field { name: "spaceAfter", kind: Kind::Flag, required: false },
        ]
    }

    #[verifier::spinoff_prover]
    #[verifier::rlimit(100)]
    fn decode(j: &JsonValue) -> (r: Option<Self>) {
        let schema = Self::fields();
        let vs = match read_record_of(&schema, j) {
            Some(vs) => vs,
            None => return None,
        };
        let o = match j {
            JsonValue::Object(o) => o,
            _ => return None,
        };
        let t = TokenFeatures {
            overt: flag_at(&vs, 0),
            stop: flag_at(&vs, 1),
            alpha: flag_at(&vs, 2),
            number: small_at(&vs, 3),
            gender: text_at(&vs, 4),
            person: small_at(&vs, 5),
            tense: text_at(&vs, 6),
            perfect: flag_at(&vs, 7),
            continuous: flag_at(&vs, 8),
            progressive: flag_at(&vs, 9),
            case: text_at(&vs, 10),
            human: flag_at(&vs, 11),
            animate: flag_at(&vs, 12),
            negated: flag_at(&vs, 13),
            countable: flag_at(&vs, 14),
            factive: flag_at(&vs, 15),
            counterfactive: flag_at(&vs, 16),
            irregular: flag_at(&vs, 17),
            phrasalverb: flag_at(&vs, 18),
            mood: text_at(&vs, 19),
            foreign: flag_at(&vs, 20),
            spaceafter: flag_at(&vs, 21),
        };
        proof {
            lemma_flat_from_reads(t, views(vs@));
        }
        Some(t)
    }

    #[verifier::spinoff_prover]
    #[verifier::rlimit(100)]
    fn encode(&self) -> (j: JsonValue) {
        let vals: Vec<FieldValue> = vec![
            FieldValue::Flag(self.overt),
            FieldValue::Flag(self.stop),
            FieldValue::Flag(self.alpha),
            FieldValue::Small(self.number),
            FieldValue::Text(self.gender.clone()),
            FieldValue::Small(self.person),
            FieldValue::Text(self.tense.clone()),
            FieldValue::Flag(self.perfect),
            FieldValue::Flag(self.continuous),
            FieldValue::Flag(self.progressive),
            FieldValue::Text(self.case.clone()),
            FieldValue::Flag(self.human),
            FieldValue::Flag(self.animate),
            FieldValue::Flag(self.negated),
            FieldValue::Flag(self.countable),
            FieldValue::Flag(self.factive),
            FieldValue::Flag(self.counterfactive),
            FieldValue::Flag(self.irregular),
            FieldValue::Flag(self.phrasalverb),
            FieldValue::Text(self.mood.clone()),
            FieldValue::Flag(self.foreign),
            FieldValue::Flag(self.spaceafter),
        ];
        let ghost gv = vals@;
        proof {
            lemma_values_written(*self, gv);
        }
        let schema = Self::fields();
        let o = write_record_of(&schema, vals);
        JsonValue::Object(o)
    }

    proof fn lemma_decodes_flat(j: JsonValue, t: Self) {
    }

    proof fn lemma_round_trip(&self, j: JsonValue) {
        lemma_names_tokenfeatures();
        let o = j->Object_0;
        assert(j == JsonValue::Object(o));
        assert(crate::record::fits(Self::schema()[0].kind, self.flat()[0]));
        assert(crate::record::fits(Self::schema()[1].kind, self.flat()[1]));
        assert(crate::record::fits(Self::schema()[2].kind, self.flat()[2]));
        assert(crate::record::fits(Self::schema()[3].kind, self.flat()[3]));
        assert(crate::record::fits(Self::schema()[4].kind, self.flat()[4]));
        assert(crate::record::fits(Self::schema()[5].kind, self.flat()[5]));
        assert(crate::record::fits(Self::schema()[6].kind, self.flat()[6]));
        assert(crate::record::fits(Self::schema()[7].kind, self.flat()[7]));
        assert(crate::record::fits(Self::schema()[8].kind, self.flat()[8]));
        assert(crate::record::fits(Self::schema()[9].kind, self.flat()[9]));
        assert(crate::record::fits(Self::schema()[10].kind, self.flat()[10]));
        assert(crate::record::fits(Self::schema()[11].kind, self.flat()[11]));
        assert(crate::record::fits(Self::schema()[12].kind, self.flat()[12]));
        assert(crate::record::fits(Self::schema()[13].kind, self.flat()[13]));
        assert(crate::record::fits(Self::schema()[14].kind, self.flat()[14]));
        assert(crate::record::fits(Self::schema()[15].kind, self.flat()[15]));
        assert(crate::record::fits(Self::schema()[16].kind, self.flat()[16]));
        assert(crate::record::fits(Self::schema()[17].kind, self.flat()[17]));
        assert(crate::record::fits(Self::schema()[18].kind, self.flat()[18]));
        assert(crate::record::fits(Self::schema()[19].kind, self.flat()[19]));
        assert(crate::record::fits(Self::schema()[20].kind, self.flat()[20]));
        assert(crate::record::fits(Self::schema()[21].kind, self.flat()[21]));
        assert(crate::record::fits_all(Self::schema(), self.flat()));
        lemma_read_written(Self::schema(), self.flat(), o);
    }
}

/// The keys of the field table of `TokenFeatures` are distinct.
pub proof fn lemma_names_tokenfeatures()
    ensures
        distinct_names(TokenFeatures::schema()),
{
    reveal_strlit("alpha");
    reveal_strlit("animate");
    reveal_strlit("case");
    reveal_strlit("continuous");
    reveal_strlit("countable");
    reveal_strlit("counterfactive");
    reveal_strlit("factive");
    reveal_strlit("foreign");
    reveal_strlit("gender");
    reveal_strlit("human");
    reveal_strlit("irregular");
    reveal_strlit("mood");
    reveal_strlit("negated");
    reveal_strlit("number");
    reveal_strlit("overt");
    reveal_strlit("perfect");
    reveal_strlit("person");
    reveal_strlit("phrasalVerb");
    reveal_strlit("progressive");
    reveal_strlit("spaceAfter");
    reveal_strlit("stop");
    reveal_strlit("tense");
    let s = TokenFeatures::schema();
    assert(s[0].name@ == "overt"@);
    assert(s[1].name@ == "stop"@);
    assert(s[2].name@ == "alpha"@);
    assert(s[3].name@ == "number"@);
    assert(s[4].name@ == "gender"@);
    assert(s[5].name@ == "person"@);
    assert(s[6].name@ == "tense"@);
    assert(s[7].name@ == "perfect"@);
    assert(s[8].name@ == "continuous"@);
    assert(s[9].name@ == "progressive"@);
    assert(s[10].name@ == "case"@);
    assert(s[11].name@ == "human"@);
    assert(s[12].name@ == "animate"@);
    assert(s[13].name@ == "negated"@);
    assert(s[14].name@ == "countable"@);
    assert(s[15].name@ == "factive"@);
    assert(s[16].name@ == "counterfactive"@);
    assert(s[17].name@ == "irregular"@);
    assert(s[18].name@ == "phrasalVerb"@);
    assert(s[19].name@ == "mood"@);
    assert(s[20].name@ == "foreign"@);
    assert(s[21].name@ == "spaceAfter"@);
    assert("alpha"@.len() == 5);
    assert("animate"@.len() == 7);
    assert("case"@.len() == 4);
    assert("continuous"@.len() == 10);
    assert("countable"@.len() == 9);
    assert("counterfactive"@.len() == 14);
    assert("factive"@.len() == 7);
    assert("foreign"@.len() == 7);
    assert("gender"@.len() == 6);
    assert("human"@.len() == 5);
    assert("irregular"@.len() == 9);
    assert("mood"@.len() == 4);
    assert("negated"@.len() == 7);
    assert("number"@.len() == 6);
    assert("overt"@.len() == 5);
    assert("perfect"@.len() == 7);
    assert("person"@.len() == 6);
    assert("phrasalVerb"@.len() == 11);
    assert("progressive"@.len() == 11);
    assert("spaceAfter"@.len() == 10);
    assert("stop"@.len() == 4);
    assert("tense"@.len() == 5);
    assert("overt"@[0] == 'o' && "alpha"@[0] == 'a');
    assert("overt"@[0] == 'o' && "tense"@[0] == 't');
    assert("overt"@[0] == 'o' && "human"@[0] == 'h');
    assert("stop"@[0] == 's' && "case"@[0] == 'c');
    assert("stop"@[0] == 's' && "mood"@[0] == 'm');
    assert("alpha"@[0] == 'a' && "tense"@[0] == 't');
    assert("alpha"@[0] == 'a' && "human"@[0] == 'h');
    assert("number"@[0] == 'n' && "gender"@[0] == 'g');
    assert("number"@[0] == 'n' && "person"@[0] == 'p');
    assert("gender"@[0] == 'g' && "person"@[0] == 'p');
    assert("tense"@[0] == 't' && "human"@[0] == 'h');
    assert("perfect"@[0] == 'p' && "animate"@[0] == 'a');
    assert("perfect"@[0] == 'p' && "negated"@[0] == 'n');
    assert("perfect"@[0] == 'p' && "factive"@[0] == 'f');
    assert("perfect"@[0] == 'p' && "foreign"@[0] == 'f');
    assert("continuous"@[0] == 'c' && "spaceAfter"@[0] == 's');
    assert("progressive"@[1] == 'r' && "phrasalVerb"@[1] == 'h');
    assert("case"@[0] == 'c' && "mood"@[0] == 'm');
    assert("animate"@[0] == 'a' && "negated"@[0] == 'n');
    assert("animate"@[0] == 'a' && "factive"@[0] == 'f');
    assert("animate"@[0] == 'a' && "foreign"@[0] == 'f');
    assert("negated"@[0] == 'n' && "factive"@[0] == 'f');
    assert("negated"@[0] == 'n' && "foreign"@[0] == 'f');
    assert("countable"@[0] == 'c' && "irregular"@[0] == 'i');
    assert("factive"@[1] == 'a' && "foreign"@[1] == 'o');
}

/// A record whose every position holds the matching field of `t` is `t`'s flat view.
proof fn lemma_flat_from_reads(t: TokenFeatures, vs: Seq<FlatVal>)
    requires
        vs.len() == 22,
        vs[0] == FlatVal::Flag(t.overt),
        vs[1] == FlatVal::Flag(t.stop),
        vs[2] == FlatVal::Flag(t.alpha),
        vs[3] == FlatVal::Small(t.number),
        vs[4] == FlatVal::Text(t.gender@),
        vs[5] == FlatVal::Small(t.person),
        vs[6] == FlatVal::Text(t.tense@),
        vs[7] == FlatVal::Flag(t.perfect),
        vs[8] == FlatVal::Flag(t.continuous),
        vs[9] == FlatVal::Flag(t.progressive),
        vs[10] == FlatVal::Text(t.case@),
        vs[11] == FlatVal::Flag(t.human),
        vs[12] == FlatVal::Flag(t.animate),
        vs[13] == FlatVal::Flag(t.negated),
        vs[14] == FlatVal::Flag(t.countable),
        vs[15] == FlatVal::Flag(t.factive),
        vs[16] == FlatVal::Flag(t.counterfactive),
        vs[17] == FlatVal::Flag(t.irregular),
        vs[18] == FlatVal::Flag(t.phrasalverb),
        vs[19] == FlatVal::Text(t.mood@),
        vs[20] == FlatVal::Flag(t.foreign),
        vs[21] == FlatVal::Flag(t.spaceafter),
    ensures
        t.flat() == vs,
{
    assert(t.flat() =~= vs);
}

/// The values handed to the writer view as `t`'s flat view, and none is nested.
#[verifier::rlimit(100)]
proof fn lemma_values_view(t: TokenFeatures, vals: Seq<FieldValue>)
    requires
        vals.len() == 22,
        vals[0] == FieldValue::Flag(t.overt),
        vals[1] == FieldValue::Flag(t.stop),
        vals[2] == FieldValue::Flag(t.alpha),
        vals[3] == FieldValue::Small(t.number),
        vals[4] is Text && vals[4]->Text_0@ == t.gender@,
        vals[5] == FieldValue::Small(t.person),
        vals[6] is Text && vals[6]->Text_0@ == t.tense@,
        vals[7] == FieldValue::Flag(t.perfect),
        vals[8] == FieldValue::Flag(t.continuous),
        vals[9] == FieldValue::Flag(t.progressive),
        vals[10] is Text && vals[10]->Text_0@ == t.case@,
        vals[11] == FieldValue::Flag(t.human),
        vals[12] == FieldValue::Flag(t.animate),
        vals[13] == FieldValue::Flag(t.negated),
        vals[14] == FieldValue::Flag(t.countable),
        vals[15] == FieldValue::Flag(t.factive),
        vals[16] == FieldValue::Flag(t.counterfactive),
        vals[17] == FieldValue::Flag(t.irregular),
        vals[18] == FieldValue::Flag(t.phrasalverb),
        vals[19] is Text && vals[19]->Text_0@ == t.mood@,
        vals[20] == FieldValue::Flag(t.foreign),
        vals[21] == FieldValue::Flag(t.spaceafter),
    ensures
        views(vals) == t.flat(),
        forall|i: int| 0 <= i < vals.len() ==> !(#[trigger] vals[i] is Node) && !(vals[i] is Nested),
{
    assert(views(vals)[0] == t.flat()[0]);
    assert(views(vals)[1] == t.flat()[1]);
    assert(views(vals)[2] == t.flat()[2]);
    assert(views(vals)[3] == t.flat()[3]);
    assert(views(vals)[4] == t.flat()[4]);
    assert(views(vals)[5] == t.flat()[5]);
    assert(views(vals)[6] == t.flat()[6]);
    assert(views(vals)[7] == t.flat()[7]);
    assert(views(vals)[8] == t.flat()[8]);
    assert(views(vals)[9] == t.flat()[9]);
    assert(views(vals)[10] == t.flat()[10]);
    assert(views(vals)[11] == t.flat()[11]);
    assert(views(vals)[12] == t.flat()[12]);
    assert(views(vals)[13] == t.flat()[13]);
    assert(views(vals)[14] == t.flat()[14]);
    assert(views(vals)[15] == t.flat()[15]);
    assert(views(vals)[16] == t.flat()[16]);
    assert(views(vals)[17] == t.flat()[17]);
    assert(views(vals)[18] == t.flat()[18]);
    assert(views(vals)[19] == t.flat()[19]);
    assert(views(vals)[20] == t.flat()[20]);
    assert(views(vals)[21] == t.flat()[21]);
    assert(views(vals) =~= t.flat());
}

/// Every field of `t` has the shape of its kind.
#[verifier::rlimit(100)]
proof fn lemma_fits(t: TokenFeatures)
    ensures
        crate::record::fits_all(TokenFeatures::schema(), t.flat()),
{
    assert(crate::record::fits(TokenFeatures::schema()[0].kind, t.flat()[0]));
    assert(crate::record::fits(TokenFeatures::schema()[1].kind, t.flat()[1]));
    assert(crate::record::fits(TokenFeatures::schema()[2].kind, t.flat()[2]));
    assert(crate::record::fits(TokenFeatures::schema()[3].kind, t.flat()[3]));
    assert(crate::record::fits(TokenFeatures::schema()[4].kind, t.flat()[4]));
    assert(crate::record::fits(TokenFeatures::schema()[5].kind, t.flat()[5]));
    assert(crate::record::fits(TokenFeatures::schema()[6].kind, t.flat()[6]));
    assert(crate::record::fits(TokenFeatures::schema()[7].kind, t.flat()[7]));
    assert(crate::record::fits(TokenFeatures::schema()[8].kind, t.flat()[8]));
    assert(crate::record::fits(TokenFeatures::schema()[9].kind, t.flat()[9]));
    assert(crate::record::fits(TokenFeatures::schema()[10].kind, t.flat()[10]));
    assert(crate::record::fits(TokenFeatures::schema()[11].kind, t.flat()[11]));
    assert(crate::record::fits(TokenFeatures::schema()[12].kind, t.flat()[12]));
    assert(crate::record::fits(TokenFeatures::schema()[13].kind, t.flat()[13]));
    assert(crate::record::fits(TokenFeatures::schema()[14].kind, t.flat()[14]));
    assert(crate::record::fits(TokenFeatures::schema()[15].kind, t.flat()[15]));
    assert(crate::record::fits(TokenFeatures::schema()[16].kind, t.flat()[16]));
    assert(crate::record::fits(TokenFeatures::schema()[17].kind, t.flat()[17]));
    assert(crate::record::fits(TokenFeatures::schema()[18].kind, t.flat()[18]));
    assert(crate::record::fits(TokenFeatures::schema()[19].kind, t.flat()[19]));
    assert(crate::record::fits(TokenFeatures::schema()[20].kind, t.flat()[20]));
    assert(crate::record::fits(TokenFeatures::schema()[21].kind, t.flat()[21]));
}

/// The values handed to the writer are `t`'s flat view, each of the kind
/// of its field.
proof fn lemma_values_written(t: TokenFeatures, vals: Seq<FieldValue>)
    requires
        vals.len() == 22,
        vals[0] == FieldValue::Flag(t.overt),
        vals[1] == FieldValue::Flag(t.stop),
        vals[2] == FieldValue::Flag(t.alpha),
        vals[3] == FieldValue::Small(t.number),
        vals[4] is Text && vals[4]->Text_0@ == t.gender@,
        vals[5] == FieldValue::Small(t.person),
        vals[6] is Text && vals[6]->Text_0@ == t.tense@,
        vals[7] == FieldValue::Flag(t.perfect),
        vals[8] == FieldValue::Flag(t.continuous),
        vals[9] == FieldValue::Flag(t.progressive),
        vals[10] is Text && vals[10]->Text_0@ == t.case@,
        vals[11] == FieldValue::Flag(t.human),
        vals[12] == FieldValue::Flag(t.animate),
        vals[13] == FieldValue::Flag(t.negated),
        vals[14] == FieldValue::Flag(t.countable),
        vals[15] == FieldValue::Flag(t.factive),
        vals[16] == FieldValue::Flag(t.counterfactive),
        vals[17] == FieldValue::Flag(t.irregular),
        vals[18] == FieldValue::Flag(t.phrasalverb),
        vals[19] is Text && vals[19]->Text_0@ == t.mood@,
        vals[20] == FieldValue::Flag(t.foreign),
        vals[21] == FieldValue::Flag(t.spaceafter),
    ensures
        views(vals) == t.flat(),
        forall|i: int|
            0 <= i < vals.len() ==> crate::record::writable(
                TokenFeatures::schema()[i].kind,
                #[trigger] vals[i],
            ),
{
    lemma_values_view(t, vals);
    lemma_fits(t);
    assert forall|i: int| 0 <= i < vals.len() implies crate::record::writable(
        TokenFeatures::schema()[i].kind,
        #[trigger] vals[i],
    ) by {
        assert(views(vals)[i] == vals[i]@);
    }
}

} // verus!
