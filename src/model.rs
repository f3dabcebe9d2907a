//! The JSON-NLP document model and the field table of each of its types.
use vstd::prelude::*;
use crate::json::{JsonValue, member, find_member, lookup};
use crate::record::{
    Field, Kind, FlatVal, FieldValue, read_record, read_record_of, write_record_of, written, storable,
    distinct_names, kept, views, lemma_read_written, lemma_written_lookup, text_at, id_at, flag_at, prob_at, ids_at,
};
pub use crate::features::TokenFeatures;
use crate::codec::{
    Record, items, all_accept, all_decode, all_encode, all_storable, decode_list, encode_list,
    lemma_list_round_trip,
};

verus! {

/// Document metadata in Dublin Core terms; every field is optional.
pub struct Meta {
    pub conforms_to: String,
    pub author: String,
    pub created: String,
    pub date: String,
    pub source: String,
    pub language: String,
    pub creator: String,
    pub publisher: String,
    pub title: String,
    pub description: String,
    pub identifier: String,
}

impl Record for Meta {
    open spec fn schema() -> Seq<Field> {
        seq![
            Field { name: "DC.conformsTo", kind: Kind::Text, required: false },
            Field { name: "DC.author", kind: Kind::Text, required: false },
            Field { name: "DC.created", kind: Kind::Text, required: false },
            Field { name: "DC.date", kind: Kind::Text, required: false },
            Field { name: "DC.source", kind: Kind::Text, required: false },
            Field { name: "DC.language", kind: Kind::Text, required: false },
            Field { name: "DC.creator", kind: Kind::Text, required: false },
            Field { name: "DC.publisher", kind: Kind::Text, required: false },
            Field { name: "DC.title", kind: Kind::Text, required: false },
            Field { name: "DC.description", kind: Kind::Text, required: false },
            Field { name: "DC.identifier", kind: Kind::Text, required: false },
        ]
    }

    open spec fn flat(&self) -> Seq<FlatVal> {
        seq![
            FlatVal::Text(self.conforms_to@),
            FlatVal::Text(self.author@),
            FlatVal::Text(self.created@),
            FlatVal::Text(self.date@),
            FlatVal::Text(self.source@),
            FlatVal::Text(self.language@),
            FlatVal::Text(self.creator@),
            FlatVal::Text(self.publisher@),
            FlatVal::Text(self.title@),
            FlatVal::Text(self.description@),
            FlatVal::Text(self.identifier@),
        ]
    }

    open spec fn accepts(j: JsonValue) -> bool {
        read_record(Self::schema(), j) is Some
    }

    open spec fn decodes(j: JsonValue, t: Self) -> bool {
        read_record(Self::schema(), j) == Some(t.flat())
    }

    open spec fn encodes(&self, j: JsonValue) -> bool {
        &&& j is Object
        &&& written(Self::schema(), self.flat(), j->Object_0@)
    }

    open spec fn storable(&self) -> bool {
        storable(Self::schema(), self.flat())
    }

    fn fields() -> (r: Vec<Field>) {
        vec![
            Field { name: "DC.conformsTo", kind: Kind::Text, required: false },
            Field { name: "DC.author", kind: Kind::Text, required: false },
            Field { name: "DC.created", kind: Kind::Text, required: false },
            Field { name: "DC.date", kind: Kind::Text, required: false },
            Field { name: "DC.source", kind: Kind::Text, required: false },
            Field { name: "DC.language", kind: Kind::Text, required: false },
            Field { name: "DC.creator", kind: Kind::Text, required: false },
            Field { name: "DC.publisher", kind: Kind::Text, required: false },
            Field { name: "DC.title", kind: Kind::Text, required: false },
            Field { name: "DC.description", kind: Kind::Text, required: false },
            Field { name: "DC.identifier", kind: Kind::Text, required: false },
        ]
    }

    fn decode(j: &JsonValue) -> (r: Option<Self>) {
        let schema = Self::fields();
        let vs = match read_record_of(&schema, j) {
            Some(vs) => vs,
            None => return None,
        };
        let o = match j {
            JsonValue::Object(o) => o,
            _ => return None,
        };
        let t = Meta {
            conforms_to: text_at(&vs, 0),
            author: text_at(&vs, 1),
            created: text_at(&vs, 2),
            date: text_at(&vs, 3),
            source: text_at(&vs, 4),
            language: text_at(&vs, 5),
            creator: text_at(&vs, 6),
            publisher: text_at(&vs, 7),
            title: text_at(&vs, 8),
            description: text_at(&vs, 9),
            identifier: text_at(&vs, 10),
        };
        assert(t.flat()[0] == views(vs@)[0]);
        assert(t.flat()[1] == views(vs@)[1]);
        assert(t.flat()[2] == views(vs@)[2]);
        assert(t.flat()[3] == views(vs@)[3]);
        assert(t.flat()[4] == views(vs@)[4]);
        assert(t.flat()[5] == views(vs@)[5]);
        assert(t.flat()[6] == views(vs@)[6]);
        assert(t.flat()[7] == views(vs@)[7]);
        assert(t.flat()[8] == views(vs@)[8]);
        assert(t.flat()[9] == views(vs@)[9]);
        assert(t.flat()[10] == views(vs@)[10]);
        assert(t.flat() =~= views(vs@));
        Some(t)
    }

    fn encode(&self) -> (j: JsonValue) {
        let vals: Vec<FieldValue> = vec![
            FieldValue::Text(self.conforms_to.clone()),
            FieldValue::Text(self.author.clone()),
            FieldValue::Text(self.created.clone()),
            FieldValue::Text(self.date.clone()),
            FieldValue::Text(self.source.clone()),
            FieldValue::Text(self.language.clone()),
            FieldValue::Text(self.creator.clone()),
            FieldValue::Text(self.publisher.clone()),
            FieldValue::Text(self.title.clone()),
            FieldValue::Text(self.description.clone()),
            FieldValue::Text(self.identifier.clone()),
        ];
        let ghost gv = vals@;
        assert(views(gv)[0] == self.flat()[0]);
        assert(views(gv)[1] == self.flat()[1]);
        assert(views(gv)[2] == self.flat()[2]);
        assert(views(gv)[3] == self.flat()[3]);
        assert(views(gv)[4] == self.flat()[4]);
        assert(views(gv)[5] == self.flat()[5]);
        assert(views(gv)[6] == self.flat()[6]);
        assert(views(gv)[7] == self.flat()[7]);
        assert(views(gv)[8] == self.flat()[8]);
        assert(views(gv)[9] == self.flat()[9]);
        assert(views(gv)[10] == self.flat()[10]);
        assert(views(gv) =~= self.flat());
        let schema = Self::fields();
        assert(crate::record::writable(schema@[0].kind, vals@[0]));
        assert(crate::record::writable(schema@[1].kind, vals@[1]));
        assert(crate::record::writable(schema@[2].kind, vals@[2]));
        assert(crate::record::writable(schema@[3].kind, vals@[3]));
        assert(crate::record::writable(schema@[4].kind, vals@[4]));
        assert(crate::record::writable(schema@[5].kind, vals@[5]));
        assert(crate::record::writable(schema@[6].kind, vals@[6]));
        assert(crate::record::writable(schema@[7].kind, vals@[7]));
        assert(crate::record::writable(schema@[8].kind, vals@[8]));
        assert(crate::record::writable(schema@[9].kind, vals@[9]));
        assert(crate::record::writable(schema@[10].kind, vals@[10]));
        let o = write_record_of(&schema, vals);
        JsonValue::Object(o)
    }

    proof fn lemma_decodes_flat(j: JsonValue, t: Self) {
    }

    proof fn lemma_round_trip(&self, j: JsonValue) {
        lemma_names_meta();
        let o = j->Object_0;
        assert(j == JsonValue::Object(o));
        assert(crate::record::fits(Self::schema()[0].kind, self.flat()[0]));
        assert(crate::record::fits(Self::schema()[1].kind, self.flat()[1]));
        assert(crate::record::fits(Self::schema()[2].kind, self.flat()[2]));
        assert(crate::record::fits(Self::schema()[3].kind, self.flat()[3]));
        assert(crate::record::fits(Self::schema()[4].kind, self.flat()[4]));
        assert(crate::record::fits(Self::schema()[5].kind, self.flat()[5]));
        assert(crate::record::fits(Self::schema()[6].kind, self.flat()[6]));
        assert(crate::record::fits(Self::schema()[7].kind, self.flat()[7]));
        assert(crate::record::fits(Self::schema()[8].kind, self.flat()[8]));
        assert(crate::record::fits(Self::schema()[9].kind, self.flat()[9]));
        assert(crate::record::fits(Self::schema()[10].kind, self.flat()[10]));
        assert(crate::record::fits_all(Self::schema(), self.flat()));
        lemma_read_written(Self::schema(), self.flat(), o);
    }
}

/// The keys of the field table of `Meta` are distinct.
pub proof fn lemma_names_meta()
    ensures
        distinct_names(Meta::schema()),
{
    reveal_strlit("DC.author");
    reveal_strlit("DC.conformsTo");
    reveal_strlit("DC.created");
    reveal_strlit("DC.creator");
    reveal_strlit("DC.date");
    reveal_strlit("DC.description");
    reveal_strlit("DC.identifier");
    reveal_strlit("DC.language");
    reveal_strlit("DC.publisher");
    reveal_strlit("DC.source");
    reveal_strlit("DC.title");
    let s = Meta::schema();
    assert(s[0].name@ == "DC.conformsTo"@);
    assert(s[1].name@ == "DC.author"@);
    assert(s[2].name@ == "DC.created"@);
    assert(s[3].name@ == "DC.date"@);
    assert(s[4].name@ == "DC.source"@);
    assert(s[5].name@ == "DC.language"@);
    assert(s[6].name@ == "DC.creator"@);
    assert(s[7].name@ == "DC.publisher"@);
    assert(s[8].name@ == "DC.title"@);
    assert(s[9].name@ == "DC.description"@);
    assert(s[10].name@ == "DC.identifier"@);
    assert("DC.author"@.len() == 9);
    assert("DC.conformsTo"@.len() == 13);
    assert("DC.created"@.len() == 10);
    assert("DC.creator"@.len() == 10);
    assert("DC.date"@.len() == 7);
    assert("DC.description"@.len() == 14);
    assert("DC.identifier"@.len() == 13);
    assert("DC.language"@.len() == 11);
    assert("DC.publisher"@.len() == 12);
    assert("DC.source"@.len() == 9);
    assert("DC.title"@.len() == 8);
    assert("DC.conformsTo"@[3] == 'c' && "DC.identifier"@[3] == 'i');
    assert("DC.author"@[3] == 'a' && "DC.source"@[3] == 's');
    assert("DC.created"@[8] == 'e' && "DC.creator"@[8] == 'o');
}

/// A token: the unit that the other annotations refer to by id.
pub struct Token {
    pub id: u64,
    pub sentence_id: u64,
    pub text: String,
    pub lemma: String,
    pub xpos: String,
    pub xpos_prob: serde_json::Number,
    pub upos: String,
    pub upos_prob: serde_json::Number,
    pub entity_iob: String,
    pub char_offset_begin: u64,
    pub char_offset_end: u64,
    pub prop_id: String,
    pub prop_id_prob: serde_json::Number,
    pub frame_id: u64,
    pub frame_id_prob: serde_json::Number,
    pub wordnet_id: u64,
    pub wordnet_id_prob: serde_json::Number,
    pub verbnet_id: u64,
    pub verbnet_id_prob: serde_json::Number,
    pub lang: String,
    pub features: TokenFeatures,
    pub shape: String,
    pub entity: String,
}

impl Record for Token {
    open spec fn schema() -> Seq<Field> {
        seq![
            Field { name: "id", kind: Kind::Id, required: true },
            Field { name: "sentence_id", kind: Kind::Id, required: true },
            Field { name: "text", kind: Kind::Text, required: true },
            Field { name: "lemma", kind: Kind::Text, required: true },
            Field { name: "xpos", kind: Kind::Text, required: false },
            Field { name: "xpos_prob", kind: Kind::Prob, required: false },
            Field { name: "upos", kind: Kind::Text, required: false },
            Field { name: "upos_prob", kind: Kind::Prob, required: false },
            Field { name: "entity_iob", kind: Kind::Text, required: false },
            Field { name: "characterOffsetBegin", kind: Kind::Id, required: false },
            Field { name: "characterOffsetEnd", kind: Kind::Id, required: false },
            Field { name: "propID", kind: Kind::Text, required: false },
            Field { name: "propIDProbability", kind: Kind::Prob, required: false },
            Field { name: "frameID", kind: Kind::Id, required: false },
            Field { name: "frameIDProb", kind: Kind::Prob, required: false },
            Field { name: "wordNetID", kind: Kind::Id, required: false },
            Field { name: "wordNetIDProb", kind: Kind::Prob, required: false },
            Field { name: "verbNetID", kind: Kind::Id, required: false },
            Field { name: "verbNetIDProb", kind: Kind::Prob, required: false },
            Field { name: "lang", kind: Kind::Text, required: false },
            Field { name: "features", kind: Kind::Object, required: true },
            Field { name: "shape", kind: Kind::Text, required: false },
            Field { name: "entity", kind: Kind::Text, required: false },
        ]
    }

    open spec fn flat(&self) -> Seq<FlatVal> {
        seq![
            FlatVal::Id(self.id),
            FlatVal::Id(self.sentence_id),
            FlatVal::Text(self.text@),
            FlatVal::Text(self.lemma@),
            FlatVal::Text(self.xpos@),
            FlatVal::Prob(self.xpos_prob),
            FlatVal::Text(self.upos@),
            FlatVal::Prob(self.upos_prob),
            FlatVal::Text(self.entity_iob@),
            FlatVal::Id(self.char_offset_begin),
            FlatVal::Id(self.char_offset_end),
            FlatVal::Text(self.prop_id@),
            FlatVal::Prob(self.prop_id_prob),
            FlatVal::Id(self.frame_id),
            FlatVal::Prob(self.frame_id_prob),
            FlatVal::Id(self.wordnet_id),
            FlatVal::Prob(self.wordnet_id_prob),
            FlatVal::Id(self.verbnet_id),
            FlatVal::Prob(self.verbnet_id_prob),
            FlatVal::Text(self.lang@),
            FlatVal::Nested,
            FlatVal::Text(self.shape@),
            FlatVal::Text(self.entity@),
        ]
    }

    open spec fn accepts(j: JsonValue) -> bool {
        &&& read_record(Self::schema(), j) is Some
        &&& TokenFeatures::accepts(member(j, "features"@)->Some_0)
    }

    open spec fn decodes(j: JsonValue, t: Self) -> bool {
        &&& read_record(Self::schema(), j) == Some(t.flat())
        &&& TokenFeatures::decodes(member(j, "features"@)->Some_0, t.features)
    }

    open spec fn encodes(&self, j: JsonValue) -> bool {
        &&& j is Object
        &&& written(Self::schema(), self.flat(), j->Object_0@)
        &&& self.features.encodes(member(j, "features"@)->Some_0)
    }

    open spec fn storable(&self) -> bool {
        &&& storable(Self::schema(), self.flat())
        &&& self.features.storable()
    }

    fn fields() -> (r: Vec<Field>) {
        vec![
            Field { name: "id", kind: Kind::Id, required: true },
            Field { name: "sentence_id", kind: Kind::Id, required: true },
            Field { name: "text", kind: Kind::Text, required: true },
            Field { name: "lemma", kind: Kind::Text, required: true },
            Field { name: "xpos", kind: Kind::Text, required: false },
            Field { name: "xpos_prob", kind: Kind::Prob, required: false },
            Field { name: "upos", kind: Kind::Text, required: false },
            Field { name: "upos_prob", kind: Kind::Prob, required: false },
            Field { name: "entity_iob", kind: Kind::Text, required: false },
            Field { name: "characterOffsetBegin", kind: Kind::Id, required: false },
            Field { name: "characterOffsetEnd", kind: Kind::Id, required: false },
            Field { name: "propID", kind: Kind::Text, required: false },
            Field { name: "propIDProbability", kind: Kind::Prob, required: false },
            Field { name: "frameID", kind: Kind::Id, required: false },
            Field { name: "frameIDProb", kind: Kind::Prob, required: false },
            Field { name: "wordNetID", kind: Kind::Id, required: false },
            Field { name: "wordNetIDProb", kind: Kind::Prob, required: false },
            Field { name: "verbNetID", kind: Kind::Id, required: false },
            Field { name: "verbNetIDProb", kind: Kind::Prob, required: false },
            Field { name: "lang", kind: Kind::Text, required: false },
            Field { name: "features", kind: Kind::Object, required: true },
            Field { name: "shape", kind: Kind::Text, required: false },
            Field { name: "entity", kind: Kind::Text, required: false },
        ]
    }

    #[verifier::spinoff_prover]
    #[verifier::rlimit(100)]
    fn decode(j: &JsonValue) -> (r: Option<Self>) {
        let schema = Self::fields();
        let vs = match read_record_of(&schema, j) {
            Some(vs) => vs,
            None => return None,
        };
        let o = match j {
            JsonValue::Object(o) => o,
            _ => return None,
        };
        proof {
            assert(crate::record::read_field(schema@[20], o@) is Some);
        }
        let features = match find_member(o, "features") {
            Some(c) => match TokenFeatures::decode(c) {
                Some(x) => x,
                None => return None,
            },
            None => return None,
        };
        let t = Token {
            id: id_at(&vs, 0),
            sentence_id: id_at(&vs, 1),
            text: text_at(&vs, 2),
            lemma: text_at(&vs, 3),
            xpos: text_at(&vs, 4),
            xpos_prob: prob_at(&vs, 5),
            upos: text_at(&vs, 6),
            upos_prob: prob_at(&vs, 7),
            entity_iob: text_at(&vs, 8),
            char_offset_begin: id_at(&vs, 9),
            char_offset_end: id_at(&vs, 10),
            prop_id: text_at(&vs, 11),
            prop_id_prob: prob_at(&vs, 12),
            frame_id: id_at(&vs, 13),
            frame_id_prob: prob_at(&vs, 14),
            wordnet_id: id_at(&vs, 15),
            wordnet_id_prob: prob_at(&vs, 16),
            verbnet_id: id_at(&vs, 17),
            verbnet_id_prob: prob_at(&vs, 18),
            lang: text_at(&vs, 19),
            features,
            shape: text_at(&vs, 21),
            entity: text_at(&vs, 22),
        };
        assert(t.flat()[0] == views(vs@)[0]);
        assert(t.flat()[1] == views(vs@)[1]);
        assert(t.flat()[2] == views(vs@)[2]);
        assert(t.flat()[3] == views(vs@)[3]);
        assert(t.flat()[4] == views(vs@)[4]);
        assert(t.flat()[5] == views(vs@)[5]);
        assert(t.flat()[6] == views(vs@)[6]);
        assert(t.flat()[7] == views(vs@)[7]);
        assert(t.flat()[8] == views(vs@)[8]);
        assert(t.flat()[9] == views(vs@)[9]);
        assert(t.flat()[10] == views(vs@)[10]);
        assert(t.flat()[11] == views(vs@)[11]);
        assert(t.flat()[12] == views(vs@)[12]);
        assert(t.flat()[13] == views(vs@)[13]);
        assert(t.flat()[14] == views(vs@)[14]);
        assert(t.flat()[15] == views(vs@)[15]);
        assert(t.flat()[16] == views(vs@)[16]);
        assert(t.flat()[17] == views(vs@)[17]);
        assert(t.flat()[18] == views(vs@)[18]);
        assert(t.flat()[19] == views(vs@)[19]);
        assert(t.flat()[20] == views(vs@)[20]);
        assert(t.flat()[21] == views(vs@)[21]);
        assert(t.flat()[22] == views(vs@)[22]);
        assert(t.flat() =~= views(vs@));
        Some(t)
    }

    #[verifier::spinoff_prover]
    #[verifier::rlimit(100)]
    fn encode(&self) -> (j: JsonValue) {
        let vals: Vec<FieldValue> = vec![
            FieldValue::Id(self.id),
            FieldValue::Id(self.sentence_id),
            FieldValue::Text(self.text.clone()),
            FieldValue::Text(self.lemma.clone()),
            FieldValue::Text(self.xpos.clone()),
            FieldValue::Prob(self.xpos_prob.clone()),
            FieldValue::Text(self.upos.clone()),
            FieldValue::Prob(self.upos_prob.clone()),
            FieldValue::Text(self.entity_iob.clone()),
            FieldValue::Id(self.char_offset_begin),
            FieldValue::Id(self.char_offset_end),
            FieldValue::Text(self.prop_id.clone()),
            FieldValue::Prob(self.prop_id_prob.clone()),
            FieldValue::Id(self.frame_id),
            FieldValue::Prob(self.frame_id_prob.clone()),
            FieldValue::Id(self.wordnet_id),
            FieldValue::Prob(self.wordnet_id_prob.clone()),
            FieldValue::Id(self.verbnet_id),
            FieldValue::Prob(self.verbnet_id_prob.clone()),
            FieldValue::Text(self.lang.clone()),
            FieldValue::Node(self.features.encode()),
            FieldValue::Text(self.shape.clone()),
            FieldValue::Text(self.entity.clone()),
        ];
        let ghost gv = vals@;
        assert(views(gv)[0] == self.flat()[0]);
        assert(views(gv)[1] == self.flat()[1]);
        assert(views(gv)[2] == self.flat()[2]);
        assert(views(gv)[3] == self.flat()[3]);
        assert(views(gv)[4] == self.flat()[4]);
        assert(views(gv)[5] == self.flat()[5]);
        assert(views(gv)[6] == self.flat()[6]);
        assert(views(gv)[7] == self.flat()[7]);
        assert(views(gv)[8] == self.flat()[8]);
        assert(views(gv)[9] == self.flat()[9]);
        assert(views(gv)[10] == self.flat()[10]);
        assert(views(gv)[11] == self.flat()[11]);
        assert(views(gv)[12] == self.flat()[12]);
        assert(views(gv)[13] == self.flat()[13]);
        assert(views(gv)[14] == self.flat()[14]);
        assert(views(gv)[15] == self.flat()[15]);
        assert(views(gv)[16] == self.flat()[16]);
        assert(views(gv)[17] == self.flat()[17]);
        assert(views(gv)[18] == self.flat()[18]);
        assert(views(gv)[19] == self.flat()[19]);
        assert(views(gv)[20] == self.flat()[20]);
        assert(views(gv)[21] == self.flat()[21]);
        assert(views(gv)[22] == self.flat()[22]);
        assert(views(gv) =~= self.flat());
        let schema = Self::fields();
        assert(crate::record::writable(schema@[0].kind, vals@[0]));
        assert(crate::record::writable(schema@[1].kind, vals@[1]));
        assert(crate::record::writable(schema@[2].kind, vals@[2]));
        assert(crate::record::writable(schema@[3].kind, vals@[3]));
        assert(crate::record::writable(schema@[4].kind, vals@[4]));
        assert(crate::record::writable(schema@[5].kind, vals@[5]));
        assert(crate::record::writable(schema@[6].kind, vals@[6]));
        assert(crate::record::writable(schema@[7].kind, vals@[7]));
        assert(crate::record::writable(schema@[8].kind, vals@[8]));
        assert(crate::record::writable(schema@[9].kind, vals@[9]));
        assert(crate::record::writable(schema@[10].kind, vals@[10]));
        assert(crate::record::writable(schema@[11].kind, vals@[11]));
        assert(crate::record::writable(schema@[12].kind, vals@[12]));
        assert(crate::record::writable(schema@[13].kind, vals@[13]));
        assert(crate::record::writable(schema@[14].kind, vals@[14]));
        assert(crate::record::writable(schema@[15].kind, vals@[15]));
        assert(crate::record::writable(schema@[16].kind, vals@[16]));
        assert(crate::record::writable(schema@[17].kind, vals@[17]));
        assert(crate::record::writable(schema@[18].kind, vals@[18]));
        assert(crate::record::writable(schema@[19].kind, vals@[19]));
        assert(crate::record::writable(schema@[20].kind, vals@[20]));
        assert(crate::record::writable(schema@[21].kind, vals@[21]));
        assert(crate::record::writable(schema@[22].kind, vals@[22]));
        let o = write_record_of(&schema, vals);
        proof {
            lemma_names_token();
            lemma_written_lookup(Self::schema(), self.flat(), o@, 20);
            let k20 = choose|k: int| 0 <= k < o@.len() && kept(self.flat())[k] == 20 && lookup(o@, "features"@) == Some(#[trigger] o@[k].1);
            assert(gv[kept(views(gv))[k20]] is Node);
        }
        JsonValue::Object(o)
    }

    proof fn lemma_decodes_flat(j: JsonValue, t: Self) {
    }

    proof fn lemma_round_trip(&self, j: JsonValue) {
        lemma_names_token();
        let o = j->Object_0;
        assert(j == JsonValue::Object(o));
        assert(crate::record::fits(Self::schema()[0].kind, self.flat()[0]));
        assert(crate::record::fits(Self::schema()[1].kind, self.flat()[1]));
        assert(crate::record::fits(Self::schema()[2].kind, self.flat()[2]));
        assert(crate::record::fits(Self::schema()[3].kind, self.flat()[3]));
        assert(crate::record::fits(Self::schema()[4].kind, self.flat()[4]));
        assert(crate::record::fits(Self::schema()[5].kind, self.flat()[5]));
        assert(crate::record::fits(Self::schema()[6].kind, self.flat()[6]));
        assert(crate::record::fits(Self::schema()[7].kind, self.flat()[7]));
        assert(crate::record::fits(Self::schema()[8].kind, self.flat()[8]));
        assert(crate::record::fits(Self::schema()[9].kind, self.flat()[9]));
        assert(crate::record::fits(Self::schema()[10].kind, self.flat()[10]));
        assert(crate::record::fits(Self::schema()[11].kind, self.flat()[11]));
        assert(crate::record::fits(Self::schema()[12].kind, self.flat()[12]));
        assert(crate::record::fits(Self::schema()[13].kind, self.flat()[13]));
        assert(crate::record::fits(Self::schema()[14].kind, self.flat()[14]));
        assert(crate::record::fits(Self::schema()[15].kind, self.flat()[15]));
        assert(crate::record::fits(Self::schema()[16].kind, self.flat()[16]));
        assert(crate::record::fits(Self::schema()[17].kind, self.flat()[17]));
        assert(crate::record::fits(Self::schema()[18].kind, self.flat()[18]));
        assert(crate::record::fits(Self::schema()[19].kind, self.flat()[19]));
        assert(crate::record::fits(Self::schema()[20].kind, self.flat()[20]));
        assert(crate::record::fits(Self::schema()[21].kind, self.flat()[21]));
        assert(crate::record::fits(Self::schema()[22].kind, self.flat()[22]));
        assert(crate::record::fits_all(Self::schema(), self.flat()));
        lemma_read_written(Self::schema(), self.flat(), o);
        self.features.lemma_round_trip(member(j, "features"@)->Some_0);
    }
}

/// The keys of the field table of `Token` are distinct.
pub proof fn lemma_names_token()
    ensures
        distinct_names(Token::schema()),
{
    reveal_strlit("characterOffsetBegin");
    reveal_strlit("characterOffsetEnd");
    reveal_strlit("entity");
    reveal_strlit("entity_iob");
    reveal_strlit("features");
    reveal_strlit("frameID");
    reveal_strlit("frameIDProb");
    reveal_strlit("id");
    reveal_strlit("lang");
    reveal_strlit("lemma");
    reveal_strlit("propID");
    reveal_strlit("propIDProbability");
    reveal_strlit("sentence_id");
    reveal_strlit("shape");
    reveal_strlit("text");
    reveal_strlit("upos");
    reveal_strlit("upos_prob");
    reveal_strlit("verbNetID");
    reveal_strlit("verbNetIDProb");
    reveal_strlit("wordNetID");
    reveal_strlit("wordNetIDProb");
    reveal_strlit("xpos");
    reveal_strlit("xpos_prob");
    let s = Token::schema();
    assert(s[0].name@ == "id"@);
    assert(s[1].name@ == "sentence_id"@);
    assert(s[2].name@ == "text"@);
    assert(s[3].name@ == "lemma"@);
    assert(s[4].name@ == "xpos"@);
    assert(s[5].name@ == "xpos_prob"@);
    assert(s[6].name@ == "upos"@);
    assert(s[7].name@ == "upos_prob"@);
    assert(s[8].name@ == "entity_iob"@);
    assert(s[9].name@ == "characterOffsetBegin"@);
    assert(s[10].name@ == "characterOffsetEnd"@);
    assert(s[11].name@ == "propID"@);
    assert(s[12].name@ == "propIDProbability"@);
    assert(s[13].name@ == "frameID"@);
    assert(s[14].name@ == "frameIDProb"@);
    assert(s[15].name@ == "wordNetID"@);
    assert(s[16].name@ == "wordNetIDProb"@);
    assert(s[17].name@ == "verbNetID"@);
    assert(s[18].name@ == "verbNetIDProb"@);
    assert(s[19].name@ == "lang"@);
    assert(s[20].name@ == "features"@);
    assert(s[21].name@ == "shape"@);
    assert(s[22].name@ == "entity"@);
    assert("characterOffsetBegin"@.len() == 20);
    assert("characterOffsetEnd"@.len() == 18);
    assert("entity"@.len() == 6);
    assert("entity_iob"@.len() == 10);
    assert("features"@.len() == 8);
    assert("frameID"@.len() == 7);
    assert("frameIDProb"@.len() == 11);
    assert("id"@.len() == 2);
    assert("lang"@.len() == 4);
    assert("lemma"@.len() == 5);
    assert("propID"@.len() == 6);
    assert("propIDProbability"@.len() == 17);
    assert("sentence_id"@.len() == 11);
    assert("shape"@.len() == 5);
    assert("text"@.len() == 4);
    assert("upos"@.len() == 4);
    assert("upos_prob"@.len() == 9);
    assert("verbNetID"@.len() == 9);
    assert("verbNetIDProb"@.len() == 13);
    assert("wordNetID"@.len() == 9);
    assert("wordNetIDProb"@.len() == 13);
    assert("xpos"@.len() == 4);
    assert("xpos_prob"@.len() == 9);
    assert("sentence_id"@[0] == 's' && "frameIDProb"@[0] == 'f');
    assert("text"@[0] == 't' && "xpos"@[0] == 'x');
    assert("text"@[0] == 't' && "upos"@[0] == 'u');
    assert("text"@[0] == 't' && "lang"@[0] == 'l');
    assert("lemma"@[0] == 'l' && "shape"@[0] == 's');
    assert("xpos"@[0] == 'x' && "upos"@[0] == 'u');
    assert("xpos"@[0] == 'x' && "lang"@[0] == 'l');
    assert("xpos_prob"@[0] == 'x' && "upos_prob"@[0] == 'u');
    assert("xpos_prob"@[0] == 'x' && "wordNetID"@[0] == 'w');
    assert("xpos_prob"@[0] == 'x' && "verbNetID"@[0] == 'v');
    assert("upos"@[0] == 'u' && "lang"@[0] == 'l');
    assert("upos_prob"@[0] == 'u' && "wordNetID"@[0] == 'w');
    assert("upos_prob"@[0] == 'u' && "verbNetID"@[0] == 'v');
    assert("propID"@[0] == 'p' && "entity"@[0] == 'e');
    assert("wordNetID"@[0] == 'w' && "verbNetID"@[0] == 'v');
    assert("wordNetIDProb"@[0] == 'w' && "verbNetIDProb"@[0] == 'v');
}

/// A sentence: a token range, its tokens and its clauses.
pub struct Sentence {
    pub id: u64,
    pub token_from: u64,
    pub token_to: u64,
    pub tokens: Vec<u64>,
    pub clauses: Vec<u64>,
    pub stype: String,
    pub sentiment: String,
    pub sentiment_prob: serde_json::Number,
}

impl Record for Sentence {
    open spec fn schema() -> Seq<Field> {
        seq![
            Field { name: "id", kind: Kind::Id, required: true },
            Field { name: "tokenFrom", kind: Kind::Id, required: false },
            Field { name: "tokenTo", kind: Kind::Id, required: false },
            Field { name: "tokens", kind: Kind::Ids, required: false },
            Field { name: "clauses", kind: Kind::Ids, required: false },
            Field { name: "type", kind: Kind::Text, required: false },
            Field { name: "sentiment", kind: Kind::Text, required: false },
            Field { name: "sentimentProb", kind: Kind::Prob, required: false },
        ]
    }

    open spec fn flat(&self) -> Seq<FlatVal> {
        seq![
            FlatVal::Id(self.id),
            FlatVal::Id(self.token_from),
            FlatVal::Id(self.token_to),
            FlatVal::Ids(self.tokens@),
            FlatVal::Ids(self.clauses@),
            FlatVal::Text(self.stype@),
            FlatVal::Text(self.sentiment@),
            FlatVal::Prob(self.sentiment_prob),
        ]
    }

    open spec fn accepts(j: JsonValue) -> bool {
        read_record(Self::schema(), j) is Some
    }

    open spec fn decodes(j: JsonValue, t: Self) -> bool {
        read_record(Self::schema(), j) == Some(t.flat())
    }

    open spec fn encodes(&self, j: JsonValue) -> bool {
        &&& j is Object
        &&& written(Self::schema(), self.flat(), j->Object_0@)
    }

    open spec fn storable(&self) -> bool {
        storable(Self::schema(), self.flat())
    }

    fn fields() -> (r: Vec<Field>) {
        vec![
            Field { name: "id", kind: Kind::Id, required: true },
            Field { name: "tokenFrom", kind: Kind::Id, required: false },
            Field { name: "tokenTo", kind: Kind::Id, required: false },
            Field { name: "tokens", kind: Kind::Ids, required: false },
            Field { name: "clauses", kind: Kind::Ids, required: false },
            Field { name: "type", kind: Kind::Text, required: false },
            Field { name: "sentiment", kind: Kind::Text, required: false },
            Field { name: "sentimentProb", kind: Kind::Prob, required: false },
        ]
    }

    fn decode(j: &JsonValue) -> (r: Option<Self>) {
        let schema = Self::fields();
        let vs = match read_record_of(&schema, j) {
            Some(vs) => vs,
            None => return None,
        };
        let o = match j {
            JsonValue::Object(o) => o,
            _ => return None,
        };
        let t = Sentence {
            id: id_at(&vs, 0),
            token_from: id_at(&vs, 1),
            token_to: id_at(&vs, 2),
            tokens: ids_at(&vs, 3),
            clauses: ids_at(&vs, 4),
            stype: text_at(&vs, 5),
            sentiment: text_at(&vs, 6),
            sentiment_prob: prob_at(&vs, 7),
        };
        assert(t.flat()[0] == views(vs@)[0]);
        assert(t.flat()[1] == views(vs@)[1]);
        assert(t.flat()[2] == views(vs@)[2]);
        assert(t.flat()[3] == views(vs@)[3]);
        assert(t.flat()[4] == views(vs@)[4]);
        assert(t.flat()[5] == views(vs@)[5]);
        assert(t.flat()[6] == views(vs@)[6]);
        assert(t.flat()[7] == views(vs@)[7]);
        assert(t.flat() =~= views(vs@));
        Some(t)
    }

    fn encode(&self) -> (j: JsonValue) {
        let vals: Vec<FieldValue> = vec![
            FieldValue::Id(self.id),
            FieldValue::Id(self.token_from),
            FieldValue::Id(self.token_to),
            FieldValue::Ids(crate::record::copy_ids(&self.tokens)),
            FieldValue::Ids(crate::record::copy_ids(&self.clauses)),
            FieldValue::Text(self.stype.clone()),
            FieldValue::Text(self.sentiment.clone()),
            FieldValue::Prob(self.sentiment_prob.clone()),
        ];
        let ghost gv = vals@;
        assert(views(gv)[0] == self.flat()[0]);
        assert(views(gv)[1] == self.flat()[1]);
        assert(views(gv)[2] == self.flat()[2]);
        assert(views(gv)[3] == self.flat()[3]);
        assert(views(gv)[4] == self.flat()[4]);
        assert(views(gv)[5] == self.flat()[5]);
        assert(views(gv)[6] == self.flat()[6]);
        assert(views(gv)[7] == self.flat()[7]);
        assert(views(gv) =~= self.flat());
        let schema = Self::fields();
        assert(crate::record::writable(schema@[0].kind, vals@[0]));
        assert(crate::record::writable(schema@[1].kind, vals@[1]));
        assert(crate::record::writable(schema@[2].kind, vals@[2]));
        assert(crate::record::writable(schema@[3].kind, vals@[3]));
        assert(crate::record::writable(schema@[4].kind, vals@[4]));
        assert(crate::record::writable(schema@[5].kind, vals@[5]));
        assert(crate::record::writable(schema@[6].kind, vals@[6]));
        assert(crate::record::writable(schema@[7].kind, vals@[7]));
        let o = write_record_of(&schema, vals);
        JsonValue::Object(o)
    }

    proof fn lemma_decodes_flat(j: JsonValue, t: Self) {
    }

    proof fn lemma_round_trip(&self, j: JsonValue) {
        lemma_names_sentence();
        let o = j->Object_0;
        assert(j == JsonValue::Object(o));
        assert(crate::record::fits(Self::schema()[0].kind, self.flat()[0]));
        assert(crate::record::fits(Self::schema()[1].kind, self.flat()[1]));
        assert(crate::record::fits(Self::schema()[2].kind, self.flat()[2]));
        assert(crate::record::fits(Self::schema()[3].kind, self.flat()[3]));
        assert(crate::record::fits(Self::schema()[4].kind, self.flat()[4]));
        assert(crate::record::fits(Self::schema()[5].kind, self.flat()[5]));
        assert(crate::record::fits(Self::schema()[6].kind, self.flat()[6]));
        assert(crate::record::fits(Self::schema()[7].kind, self.flat()[7]));
        assert(crate::record::fits_all(Self::schema(), self.flat()));
        lemma_read_written(Self::schema(), self.flat(), o);
    }
}

/// The keys of the field table of `Sentence` are distinct.
pub proof fn lemma_names_sentence()
    ensures
        distinct_names(Sentence::schema()),
{
    reveal_strlit("clauses");
    reveal_strlit("id");
    reveal_strlit("sentiment");
    reveal_strlit("sentimentProb");
    reveal_strlit("tokenFrom");
    reveal_strlit("tokenTo");
    reveal_strlit("tokens");
    reveal_strlit("type");
    let s = Sentence::schema();
    assert(s[0].name@ == "id"@);
    assert(s[1].name@ == "tokenFrom"@);
    assert(s[2].name@ == "tokenTo"@);
    assert(s[3].name@ == "tokens"@);
    assert(s[4].name@ == "clauses"@);
    assert(s[5].name@ == "type"@);
    assert(s[6].name@ == "sentiment"@);
    assert(s[7].name@ == "sentimentProb"@);
    assert("clauses"@.len() == 7);
    assert("id"@.len() == 2);
    assert("sentiment"@.len() == 9);
    assert("sentimentProb"@.len() == 13);
    assert("tokenFrom"@.len() == 9);
    assert("tokenTo"@.len() == 7);
    assert("tokens"@.len() == 6);
    assert("type"@.len() == 4);
    assert("tokenFrom"@[0] == 't' && "sentiment"@[0] == 's');
    assert("tokenTo"@[0] == 't' && "clauses"@[0] == 'c');
}

/// A clause of a sentence.
pub struct Clause {
    pub id: u64,
    pub sentence_id: u64,
    pub token_from: u64,
    pub token_to: u64,
    pub tokens: Vec<u64>,
    pub main: bool,
    pub gov: u64,
    pub head: u64,
    pub neg: bool,
    pub tense: String,
    pub mood: String,
    pub perfect: bool,
    pub continuous: bool,
    pub aspect: String,
    pub voice: String,
    pub sentiment: String,
    pub sentiment_prob: serde_json::Number,
}

impl Record for Clause {
    open spec fn schema() -> Seq<Field> {
        seq![
            Field { name: "id", kind: Kind::Id, required: true },
            Field { name: "sentenceId", kind: Kind::Id, required: false },
            Field { name: "tokenFrom", kind: Kind::Id, required: false },
            Field { name: "tokenTo", kind: Kind::Id, required: false },
            Field { name: "tokens", kind: Kind::Ids, required: false },
            Field { name: "main", kind: Kind::Flag, required: false },
            Field { name: "gov", kind: Kind::Id, required: false },
            Field { name: "head", kind: Kind::Id, required: false },
            Field { name: "neg", kind: Kind::Flag, required: false },
            Field { name: "tense", kind: Kind::Text, required: false },
            Field { name: "mood", kind: Kind::Text, required: false },
            Field { name: "perfect", kind: Kind::Flag, required: false },
            Field { name: "continuous", kind: Kind::Flag, required: false },
            Field { name: "aspect", kind: Kind::Text, required: false },
            Field { name: "voice", kind: Kind::Text, required: false },
            Field { name: "sentiment", kind: Kind::Text, required: false },
            Field { name: "sentimentProb", kind: Kind::Prob, required: false },
        ]
    }

    open spec fn flat(&self) -> Seq<FlatVal> {
        seq![
            FlatVal::Id(self.id),
            FlatVal::Id(self.sentence_id),
            FlatVal::Id(self.token_from),
            FlatVal::Id(self.token_to),
            FlatVal::Ids(self.tokens@),
            FlatVal::Flag(self.main),
            FlatVal::Id(self.gov),
            FlatVal::Id(self.head),
            FlatVal::Flag(self.neg),
            FlatVal::Text(self.tense@),
            FlatVal::Text(self.mood@),
            FlatVal::Flag(self.perfect),
            FlatVal::Flag(self.continuous),
            FlatVal::Text(self.aspect@),
            FlatVal::Text(self.voice@),
            FlatVal::Text(self.sentiment@),
            FlatVal::Prob(self.sentiment_prob),
        ]
    }

    open spec fn accepts(j: JsonValue) -> bool {
        read_record(Self::schema(), j) is Some
    }

    open spec fn decodes(j: JsonValue, t: Self) -> bool {
        read_record(Self::schema(), j) == Some(t.flat())
    }

    open spec fn encodes(&self, j: JsonValue) -> bool {
        &&& j is Object
        &&& written(Self::schema(), self.flat(), j->Object_0@)
    }

    open spec fn storable(&self) -> bool {
        storable(Self::schema(), self.flat())
    }

    fn fields() -> (r: Vec<Field>) {
        vec![
            Field { name: "id", kind: Kind::Id, required: true },
            Field { name: "sentenceId", kind: Kind::Id, required: false },
            Field { name: "tokenFrom", kind: Kind::Id, required: false },
            Field { name: "tokenTo", kind: Kind::Id, required: false },
            Field { name: "tokens", kind: Kind::Ids, required: false },
            Field { name: "main", kind: Kind::Flag, required: false },
            Field { name: "gov", kind: Kind::Id, required: false },
            Field { name: "head", kind: Kind::Id, required: false },
            Field { name: "neg", kind: Kind::Flag, required: false },
            Field { name: "tense", kind: Kind::Text, required: false },
            Field { name: "mood", kind: Kind::Text, required: false },
            Field { name: "perfect", kind: Kind::Flag, required: false },
            Field { name: "continuous", kind: Kind::Flag, required: false },
            Field { name: "aspect", kind: Kind::Text, required: false },
            Field { name: "voice", kind: Kind::Text, required: false },
            Field { name: "sentiment", kind: Kind::Text, required: false },
            Field { name: "sentimentProb", kind: Kind::Prob, required: false },
        ]
    }

    fn decode(j: &JsonValue) -> (r: Option<Self>) {
        let schema = Self::fields();
        let vs = match read_record_of(&schema, j) {
            Some(vs) => vs,
            None => return None,
        };
        let o = match j {
            JsonValue::Object(o) => o,
            _ => return None,
        };
        let t = Clause {
            id: id_at(&vs, 0),
            sentence_id: id_at(&vs, 1),
            token_from: id_at(&vs, 2),
            token_to: id_at(&vs, 3),
            tokens: ids_at(&vs, 4),
            main: flag_at(&vs, 5),
            gov: id_at(&vs, 6),
            head: id_at(&vs, 7),
            neg: flag_at(&vs, 8),
            tense: text_at(&vs, 9),
            mood: text_at(&vs, 10),
            perfect: flag_at(&vs, 11),
            continuous: flag_at(&vs, 12),
            aspect: text_at(&vs, 13),
            voice: text_at(&vs, 14),
            sentiment: text_at(&vs, 15),
            sentiment_prob: prob_at(&vs, 16),
        };
        assert(t.flat()[0] == views(vs@)[0]);
        assert(t.flat()[1] == views(vs@)[1]);
        assert(t.flat()[2] == views(vs@)[2]);
        assert(t.flat()[3] == views(vs@)[3]);
        assert(t.flat()[4] == views(vs@)[4]);
        assert(t.flat()[5] == views(vs@)[5]);
        assert(t.flat()[6] == views(vs@)[6]);
        assert(t.flat()[7] == views(vs@)[7]);
        assert(t.flat()[8] == views(vs@)[8]);
        assert(t.flat()[9] == views(vs@)[9]);
        assert(t.flat()[10] == views(vs@)[10]);
        assert(t.flat()[11] == views(vs@)[11]);
        assert(t.flat()[12] == views(vs@)[12]);
        assert(t.flat()[13] == views(vs@)[13]);
        assert(t.flat()[14] == views(vs@)[14]);
        assert(t.flat()[15] == views(vs@)[15]);
        assert(t.flat()[16] == views(vs@)[16]);
        assert(t.flat() =~= views(vs@));
        Some(t)
    }

    fn encode(&self) -> (j: JsonValue) {
        let vals: Vec<FieldValue> = vec![
            FieldValue::Id(self.id),
            FieldValue::Id(self.sentence_id),
            FieldValue::Id(self.token_from),
            FieldValue::Id(self.token_to),
            FieldValue::Ids(crate::record::copy_ids(&self.tokens)),
            FieldValue::Flag(self.main),
            FieldValue::Id(self.gov),
            FieldValue::Id(self.head),
            FieldValue::Flag(self.neg),
            FieldValue::Text(self.tense.clone()),
            FieldValue::Text(self.mood.clone()),
            FieldValue::Flag(self.perfect),
            FieldValue::Flag(self.continuous),
            FieldValue::Text(self.aspect.clone()),
            FieldValue::Text(self.voice.clone()),
            FieldValue::Text(self.sentiment.clone()),
            FieldValue::Prob(self.sentiment_prob.clone()),
        ];
        let ghost gv = vals@;
        assert(views(gv)[0] == self.flat()[0]);
        assert(views(gv)[1] == self.flat()[1]);
        assert(views(gv)[2] == self.flat()[2]);
        assert(views(gv)[3] == self.flat()[3]);
        assert(views(gv)[4] == self.flat()[4]);
        assert(views(gv)[5] == self.flat()[5]);
        assert(views(gv)[6] == self.flat()[6]);
        assert(views(gv)[7] == self.flat()[7]);
        assert(views(gv)[8] == self.flat()[8]);
        assert(views(gv)[9] == self.flat()[9]);
        assert(views(gv)[10] == self.flat()[10]);
        assert(views(gv)[11] == self.flat()[11]);
        assert(views(gv)[12] == self.flat()[12]);
        assert(views(gv)[13] == self.flat()[13]);
        assert(views(gv)[14] == self.flat()[14]);
        assert(views(gv)[15] == self.flat()[15]);
        assert(views(gv)[16] == self.flat()[16]);
        assert(views(gv) =~= self.flat());
        let schema = Self::fields();
        assert(crate::record::writable(schema@[0].kind, vals@[0]));
        assert(crate::record::writable(schema@[1].kind, vals@[1]));
        assert(crate::record::writable(schema@[2].kind, vals@[2]));
        assert(crate::record::writable(schema@[3].kind, vals@[3]));
        assert(crate::record::writable(schema@[4].kind, vals@[4]));
        assert(crate::record::writable(schema@[5].kind, vals@[5]));
        assert(crate::record::writable(schema@[6].kind, vals@[6]));
        assert(crate::record::writable(schema@[7].kind, vals@[7]));
        assert(crate::record::writable(schema@[8].kind, vals@[8]));
        assert(crate::record::writable(schema@[9].kind, vals@[9]));
        assert(crate::record::writable(schema@[10].kind, vals@[10]));
        assert(crate::record::writable(schema@[11].kind, vals@[11]));
        assert(crate::record::writable(schema@[12].kind, vals@[12]));
        assert(crate::record::writable(schema@[13].kind, vals@[13]));
        assert(crate::record::writable(schema@[14].kind, vals@[14]));
        assert(crate::record::writable(schema@[15].kind, vals@[15]));
        assert(crate::record::writable(schema@[16].kind, vals@[16]));
        let o = write_record_of(&schema, vals);
        JsonValue::Object(o)
    }

    proof fn lemma_decodes_flat(j: JsonValue, t: Self) {
    }

    proof fn lemma_round_trip(&self, j: JsonValue) {
        lemma_names_clause();
        let o = j->Object_0;
        assert(j == JsonValue::Object(o));
        assert(crate::record::fits(Self::schema()[0].kind, self.flat()[0]));
        assert(crate::record::fits(Self::schema()[1].kind, self.flat()[1]));
        assert(crate::record::fits(Self::schema()[2].kind, self.flat()[2]));
        assert(crate::record::fits(Self::schema()[3].kind, self.flat()[3]));
        assert(crate::record::fits(Self::schema()[4].kind, self.flat()[4]));
        assert(crate::record::fits(Self::schema()[5].kind, self.flat()[5]));
        assert(crate::record::fits(Self::schema()[6].kind, self.flat()[6]));
        assert(crate::record::fits(Self::schema()[7].kind, self.flat()[7]));
        assert(crate::record::fits(Self::schema()[8].kind, self.flat()[8]));
        assert(crate::record::fits(Self::schema()[9].kind, self.flat()[9]));
        assert(crate::record::fits(Self::schema()[10].kind, self.flat()[10]));
        assert(crate::record::fits(Self::schema()[11].kind, self.flat()[11]));
        assert(crate::record::fits(Self::schema()[12].kind, self.flat()[12]));
        assert(crate::record::fits(Self::schema()[13].kind, self.flat()[13]));
        assert(crate::record::fits(Self::schema()[14].kind, self.flat()[14]));
        assert(crate::record::fits(Self::schema()[15].kind, self.flat()[15]));
        assert(crate::record::fits(Self::schema()[16].kind, self.flat()[16]));
        assert(crate::record::fits_all(Self::schema(), self.flat()));
        lemma_read_written(Self::schema(), self.flat(), o);
    }
}

/// The keys of the field table of `Clause` are distinct.
pub proof fn lemma_names_clause()
    ensures
        distinct_names(Clause::schema()),
{
    reveal_strlit("aspect");
    reveal_strlit("continuous");
    reveal_strlit("gov");
    reveal_strlit("head");
    reveal_strlit("id");
    reveal_strlit("main");
    reveal_strlit("mood");
    reveal_strlit("neg");
    reveal_strlit("perfect");
    reveal_strlit("sentenceId");
    reveal_strlit("sentiment");
    reveal_strlit("sentimentProb");
    reveal_strlit("tense");
    reveal_strlit("tokenFrom");
    reveal_strlit("tokenTo");
    reveal_strlit("tokens");
    reveal_strlit("voice");
    let s = Clause::schema();
    assert(s[0].name@ == "id"@);
    assert(s[1].name@ == "sentenceId"@);
    assert(s[2].name@ == "tokenFrom"@);
    assert(s[3].name@ == "tokenTo"@);
    assert(s[4].name@ == "tokens"@);
    assert(s[5].name@ == "main"@);
    assert(s[6].name@ == "gov"@);
    assert(s[7].name@ == "head"@);
    assert(s[8].name@ == "neg"@);
    assert(s[9].name@ == "tense"@);
    assert(s[10].name@ == "mood"@);
    assert(s[11].name@ == "perfect"@);
    assert(s[12].name@ == "continuous"@);
    assert(s[13].name@ == "aspect"@);
    assert(s[14].name@ == "voice"@);
    assert(s[15].name@ == "sentiment"@);
    assert(s[16].name@ == "sentimentProb"@);
    assert("aspect"@.len() == 6);
    assert("continuous"@.len() == 10);
    assert("gov"@.len() == 3);
    assert("head"@.len() == 4);
    assert("id"@.len() == 2);
    assert("main"@.len() == 4);
    assert("mood"@.len() == 4);
    assert("neg"@.len() == 3);
    assert("perfect"@.len() == 7);
    assert("sentenceId"@.len() == 10);
    assert("sentiment"@.len() == 9);
    assert("sentimentProb"@.len() == 13);
    assert("tense"@.len() == 5);
    assert("tokenFrom"@.len() == 9);
    assert("tokenTo"@.len() == 7);
    assert("tokens"@.len() == 6);
    assert("voice"@.len() == 5);
    assert("sentenceId"@[0] == 's' && "continuous"@[0] == 'c');
    assert("tokenFrom"@[0] == 't' && "sentiment"@[0] == 's');
    assert("tokenTo"@[0] == 't' && "perfect"@[0] == 'p');
    assert("tokens"@[0] == 't' && "aspect"@[0] == 'a');
    assert("main"@[0] == 'm' && "head"@[0] == 'h');
    assert("main"@[1] == 'a' && "mood"@[1] == 'o');
    assert("gov"@[0] == 'g' && "neg"@[0] == 'n');
    assert("head"@[0] == 'h' && "mood"@[0] == 'm');
    assert("tense"@[0] == 't' && "voice"@[0] == 'v');
}

/// A labelled edge from a governor token to a dependent token.
pub struct Dependency {
    pub lab: String,
    pub gov: u64,
    pub dep: u64,
    pub prob: serde_json::Number,
}

impl Record for Dependency {
    open spec fn schema() -> Seq<Field> {
        seq![
            Field { name: "lab", kind: Kind::Text, required: true },
            Field { name: "gov", kind: Kind::Id, required: true },
            Field { name: "dep", kind: Kind::Id, required: true },
            Field { name: "prob", kind: Kind::Prob, required: false },
        ]
    }

    open spec fn flat(&self) -> Seq<FlatVal> {
        seq![
            FlatVal::Text(self.lab@),
            FlatVal::Id(self.gov),
            FlatVal::Id(self.dep),
            FlatVal::Prob(self.prob),
        ]
    }

    open spec fn accepts(j: JsonValue) -> bool {
        read_record(Self::schema(), j) is Some
    }

    open spec fn decodes(j: JsonValue, t: Self) -> bool {
        read_record(Self::schema(), j) == Some(t.flat())
    }

    open spec fn encodes(&self, j: JsonValue) -> bool {
        &&& j is Object
        &&& written(Self::schema(), self.flat(), j->Object_0@)
    }

    open spec fn storable(&self) -> bool {
        storable(Self::schema(), self.flat())
    }

    fn fields() -> (r: Vec<Field>) {
        vec![
            Field { name: "lab", kind: Kind::Text, required: true },
            Field { name: "gov", kind: Kind::Id, required: true },
            Field { name: "dep", kind: Kind::Id, required: true },
            Field { name: "prob", kind: Kind::Prob, required: false },
        ]
    }

    fn decode(j: &JsonValue) -> (r: Option<Self>) {
        let schema = Self::fields();
        let vs = match read_record_of(&schema, j) {
            Some(vs) => vs,
            None => return None,
        };
        let o = match j {
            JsonValue::Object(o) => o,
            _ => return None,
        };
        let t = Dependency {
            lab: text_at(&vs, 0),
            gov: id_at(&vs, 1),
            dep: id_at(&vs, 2),
            prob: prob_at(&vs, 3),
        };
        assert(t.flat()[0] == views(vs@)[0]);
        assert(t.flat()[1] == views(vs@)[1]);
        assert(t.flat()[2] == views(vs@)[2]);
        assert(t.flat()[3] == views(vs@)[3]);
        assert(t.flat() =~= views(vs@));
        Some(t)
    }

    fn encode(&self) -> (j: JsonValue) {
        let vals: Vec<FieldValue> = vec![
            FieldValue::Text(self.lab.clone()),
            FieldValue::Id(self.gov),
            FieldValue::Id(self.dep),
            FieldValue::Prob(self.prob.clone()),
        ];
        let ghost gv = vals@;
        assert(views(gv)[0] == self.flat()[0]);
        assert(views(gv)[1] == self.flat()[1]);
        assert(views(gv)[2] == self.flat()[2]);
        assert(views(gv)[3] == self.flat()[3]);
        assert(views(gv) =~= self.flat());
        let schema = Self::fields();
        assert(crate::record::writable(schema@[0].kind, vals@[0]));
        assert(crate::record::writable(schema@[1].kind, vals@[1]));
        assert(crate::record::writable(schema@[2].kind, vals@[2]));
        assert(crate::record::writable(schema@[3].kind, vals@[3]));
        let o = write_record_of(&schema, vals);
        JsonValue::Object(o)
    }

    proof fn lemma_decodes_flat(j: JsonValue, t: Self) {
    }

    proof fn lemma_round_trip(&self, j: JsonValue) {
        lemma_names_dependency();
        let o = j->Object_0;
        assert(j == JsonValue::Object(o));
        assert(crate::record::fits(Self::schema()[0].kind, self.flat()[0]));
        assert(crate::record::fits(Self::schema()[1].kind, self.flat()[1]));
        assert(crate::record::fits(Self::schema()[2].kind, self.flat()[2]));
        assert(crate::record::fits(Self::schema()[3].kind, self.flat()[3]));
        assert(crate::record::fits_all(Self::schema(), self.flat()));
        lemma_read_written(Self::schema(), self.flat(), o);
    }
}

/// The keys of the field table of `Dependency` are distinct.
pub proof fn lemma_names_dependency()
    ensures
        distinct_names(Dependency::schema()),
{
    reveal_strlit("dep");
    reveal_strlit("gov");
    reveal_strlit("lab");
    reveal_strlit("prob");
    let s = Dependency::schema();
    assert(s[0].name@ == "lab"@);
    assert(s[1].name@ == "gov"@);
    assert(s[2].name@ == "dep"@);
    assert(s[3].name@ == "prob"@);
    assert("dep"@.len() == 3);
    assert("gov"@.len() == 3);
    assert("lab"@.len() == 3);
    assert("prob"@.len() == 4);
    assert("lab"@[0] == 'l' && "gov"@[0] == 'g');
    assert("lab"@[0] == 'l' && "dep"@[0] == 'd');
    assert("gov"@[0] == 'g' && "dep"@[0] == 'd');
}

/// The dependency edges of one sentence.
pub struct DependencyTree {
    pub sentence_id: u64,
    pub style: String,
    pub dependencies: Vec<Dependency>,
    pub prob: serde_json::Number,
}

impl Record for DependencyTree {
    open spec fn schema() -> Seq<Field> {
        seq![
            Field { name: "sentenceId", kind: Kind::Id, required: false },
            Field { name: "style", kind: Kind::Text, required: false },
            Field { name: "dependencies", kind: Kind::List, required: false },
            Field { name: "prob", kind: Kind::Prob, required: false },
        ]
    }

    open spec fn flat(&self) -> Seq<FlatVal> {
        seq![
            FlatVal::Id(self.sentence_id),
            FlatVal::Text(self.style@),
            FlatVal::Nested,
            FlatVal::Prob(self.prob),
        ]
    }

    open spec fn accepts(j: JsonValue) -> bool {
        &&& read_record(Self::schema(), j) is Some
        &&& all_accept::<Dependency>(items(member(j, "dependencies"@)))
    }

    open spec fn decodes(j: JsonValue, t: Self) -> bool {
        &&& read_record(Self::schema(), j) == Some(t.flat())
        &&& all_decode::<Dependency>(items(member(j, "dependencies"@)), t.dependencies@)
    }

    open spec fn encodes(&self, j: JsonValue) -> bool {
        &&& j is Object
        &&& written(Self::schema(), self.flat(), j->Object_0@)
        &&& all_encode(self.dependencies@, member(j, "dependencies"@))
    }

    open spec fn storable(&self) -> bool {
        &&& storable(Self::schema(), self.flat())
        &&& all_storable(self.dependencies@)
    }

    fn fields() -> (r: Vec<Field>) {
        vec![
            Field { name: "sentenceId", kind: Kind::Id, required: false },
            Field { name: "style", kind: Kind::Text, required: false },
            Field { name: "dependencies", kind: Kind::List, required: false },
            Field { name: "prob", kind: Kind::Prob, required: false },
        ]
    }

    fn decode(j: &JsonValue) -> (r: Option<Self>) {
        let schema = Self::fields();
        let vs = match read_record_of(&schema, j) {
            Some(vs) => vs,
            None => return None,
        };
        let o = match j {
            JsonValue::Object(o) => o,
            _ => return None,
        };
        proof {
            assert(crate::record::read_field(schema@[2], o@) is Some);
        }
        let dependencies = match decode_list::<Dependency>(find_member(o, "dependencies")) {
            Some(x) => x,
            None => return None,
        };
        let t = DependencyTree {
            sentence_id: id_at(&vs, 0),
            style: text_at(&vs, 1),
            dependencies,
            prob: prob_at(&vs, 3),
        };
        assert(t.flat()[0] == views(vs@)[0]);
        assert(t.flat()[1] == views(vs@)[1]);
        assert(t.flat()[2] == views(vs@)[2]);
        assert(t.flat()[3] == views(vs@)[3]);
        assert(t.flat() =~= views(vs@));
        Some(t)
    }

    fn encode(&self) -> (j: JsonValue) {
        let vals: Vec<FieldValue> = vec![
            FieldValue::Id(self.sentence_id),
            FieldValue::Text(self.style.clone()),
            FieldValue::Node(encode_list(&self.dependencies)),
            FieldValue::Prob(self.prob.clone()),
        ];
        let ghost gv = vals@;
        assert(views(gv)[0] == self.flat()[0]);
        assert(views(gv)[1] == self.flat()[1]);
        assert(views(gv)[2] == self.flat()[2]);
        assert(views(gv)[3] == self.flat()[3]);
        assert(views(gv) =~= self.flat());
        let schema = Self::fields();
        assert(crate::record::writable(schema@[0].kind, vals@[0]));
        assert(crate::record::writable(schema@[1].kind, vals@[1]));
        assert(crate::record::writable(schema@[2].kind, vals@[2]));
        assert(crate::record::writable(schema@[3].kind, vals@[3]));
        let o = write_record_of(&schema, vals);
        proof {
            lemma_names_dependencytree();
            lemma_written_lookup(Self::schema(), self.flat(), o@, 2);
            let k2 = choose|k: int| 0 <= k < o@.len() && kept(self.flat())[k] == 2 && lookup(o@, "dependencies"@) == Some(#[trigger] o@[k].1);
            assert(gv[kept(views(gv))[k2]] is Node);
        }
        JsonValue::Object(o)
    }

    proof fn lemma_decodes_flat(j: JsonValue, t: Self) {
    }

    proof fn lemma_round_trip(&self, j: JsonValue) {
        lemma_names_dependencytree();
        let o = j->Object_0;
        assert(j == JsonValue::Object(o));
        assert(crate::record::fits(Self::schema()[0].kind, self.flat()[0]));
        assert(crate::record::fits(Self::schema()[1].kind, self.flat()[1]));
        assert(crate::record::fits(Self::schema()[2].kind, self.flat()[2]));
        assert(crate::record::fits(Self::schema()[3].kind, self.flat()[3]));
        assert(crate::record::fits_all(Self::schema(), self.flat()));
        lemma_read_written(Self::schema(), self.flat(), o);
        lemma_list_round_trip(self.dependencies@, member(j, "dependencies"@));
    }
}

/// The keys of the field table of `DependencyTree` are distinct.
pub proof fn lemma_names_dependencytree()
    ensures
        distinct_names(DependencyTree::schema()),
{
    reveal_strlit("dependencies");
    reveal_strlit("prob");
    reveal_strlit("sentenceId");
    reveal_strlit("style");
    let s = DependencyTree::schema();
    assert(s[0].name@ == "sentenceId"@);
    assert(s[1].name@ == "style"@);
    assert(s[2].name@ == "dependencies"@);
    assert(s[3].name@ == "prob"@);
    assert("dependencies"@.len() == 12);
    assert("prob"@.len() == 4);
    assert("sentenceId"@.len() == 10);
    assert("style"@.len() == 5);
}

/// The representative mention of a coreference chain.
pub struct CoreferenceRepresentantive {
    pub tokens: Vec<u64>,
    pub head: u64,
}

impl Record for CoreferenceRepresentantive {
    open spec fn schema() -> Seq<Field> {
        seq![
            Field { name: "tokens", kind: Kind::Ids, required: true },
            Field { name: "head", kind: Kind::Id, required: true },
        ]
    }

    open spec fn flat(&self) -> Seq<FlatVal> {
        seq![
            FlatVal::Ids(self.tokens@),
            FlatVal::Id(self.head),
        ]
    }

    open spec fn accepts(j: JsonValue) -> bool {
        read_record(Self::schema(), j) is Some
    }

    open spec fn decodes(j: JsonValue, t: Self) -> bool {
        read_record(Self::schema(), j) == Some(t.flat())
    }

    open spec fn encodes(&self, j: JsonValue) -> bool {
        &&& j is Object
        &&& written(Self::schema(), self.flat(), j->Object_0@)
    }

    open spec fn storable(&self) -> bool {
        storable(Self::schema(), self.flat())
    }

    fn fields() -> (r: Vec<Field>) {
        vec![
            Field { name: "tokens", kind: Kind::Ids, required: true },
            Field { name: "head", kind: Kind::Id, required: true },
        ]
    }

    fn decode(j: &JsonValue) -> (r: Option<Self>) {
        let schema = Self::fields();
        let vs = match read_record_of(&schema, j) {
            Some(vs) => vs,
            None => return None,
        };
        let o = match j {
            JsonValue::Object(o) => o,
            _ => return None,
        };
        let t = CoreferenceRepresentantive {
            tokens: ids_at(&vs, 0),
            head: id_at(&vs, 1),
        };
        assert(t.flat()[0] == views(vs@)[0]);
        assert(t.flat()[1] == views(vs@)[1]);
        assert(t.flat() =~= views(vs@));
        Some(t)
    }

    fn encode(&self) -> (j: JsonValue) {
        let vals: Vec<FieldValue> = vec![
            FieldValue::Ids(crate::record::copy_ids(&self.tokens)),
            FieldValue::Id(self.head),
        ];
        let ghost gv = vals@;
        assert(views(gv)[0] == self.flat()[0]);
        assert(views(gv)[1] == self.flat()[1]);
        assert(views(gv) =~= self.flat());
        let schema = Self::fields();
        assert(crate::record::writable(schema@[0].kind, vals@[0]));
        assert(crate::record::writable(schema@[1].kind, vals@[1]));
        let o = write_record_of(&schema, vals);
        JsonValue::Object(o)
    }

    proof fn lemma_decodes_flat(j: JsonValue, t: Self) {
    }

    proof fn lemma_round_trip(&self, j: JsonValue) {
        lemma_names_coreferencerepresentantive();
        let o = j->Object_0;
        assert(j == JsonValue::Object(o));
        assert(crate::record::fits(Self::schema()[0].kind, self.flat()[0]));
        assert(crate::record::fits(Self::schema()[1].kind, self.flat()[1]));
        assert(crate::record::fits_all(Self::schema(), self.flat()));
        lemma_read_written(Self::schema(), self.flat(), o);
    }
}

/// The keys of the field table of `CoreferenceRepresentantive` are distinct.
pub proof fn lemma_names_coreferencerepresentantive()
    ensures
        distinct_names(CoreferenceRepresentantive::schema()),
{
    reveal_strlit("head");
    reveal_strlit("tokens");
    let s = CoreferenceRepresentantive::schema();
    assert(s[0].name@ == "tokens"@);
    assert(s[1].name@ == "head"@);
    assert("head"@.len() == 4);
    assert("tokens"@.len() == 6);
}

/// A mention that refers to the representative of a chain.
pub struct CoreferenceReferents {
    pub tokens: Vec<u64>,
    pub head: u64,
    pub prob: serde_json::Number,
}

impl Record for CoreferenceReferents {
    open spec fn schema() -> Seq<Field> {
        seq![
            Field { name: "tokens", kind: Kind::Ids, required: true },
            Field { name: "head", kind: Kind::Id, required: true },
            Field { name: "prob", kind: Kind::Prob, required: false },
        ]
    }

    open spec fn flat(&self) -> Seq<FlatVal> {
        seq![
            FlatVal::Ids(self.tokens@),
            FlatVal::Id(self.head),
            FlatVal::Prob(self.prob),
        ]
    }

    open spec fn accepts(j: JsonValue) -> bool {
        read_record(Self::schema(), j) is Some
    }

    open spec fn decodes(j: JsonValue, t: Self) -> bool {
        read_record(Self::schema(), j) == Some(t.flat())
    }

    open spec fn encodes(&self, j: JsonValue) -> bool {
        &&& j is Object
        &&& written(Self::schema(), self.flat(), j->Object_0@)
    }

    open spec fn storable(&self) -> bool {
        storable(Self::schema(), self.flat())
    }

    fn fields() -> (r: Vec<Field>) {
        vec![
            Field { name: "tokens", kind: Kind::Ids, required: true },
            Field { name: "head", kind: Kind::Id, required: true },
            Field { name: "prob", kind: Kind::Prob, required: false },
        ]
    }

    fn decode(j: &JsonValue) -> (r: Option<Self>) {
        let schema = Self::fields();
        let vs = match read_record_of(&schema, j) {
            Some(vs) => vs,
            None => return None,
        };
        let o = match j {
            JsonValue::Object(o) => o,
            _ => return None,
        };
        let t = CoreferenceReferents {
            tokens: ids_at(&vs, 0),
            head: id_at(&vs, 1),
            prob: prob_at(&vs, 2),
        };
        assert(t.flat()[0] == views(vs@)[0]);
        assert(t.flat()[1] == views(vs@)[1]);
        assert(t.flat()[2] == views(vs@)[2]);
        assert(t.flat() =~= views(vs@));
        Some(t)
    }

    fn encode(&self) -> (j: JsonValue) {
        let vals: Vec<FieldValue> = vec![
            FieldValue::Ids(crate::record::copy_ids(&self.tokens)),
            FieldValue::Id(self.head),
            FieldValue::Prob(self.prob.clone()),
        ];
        let ghost gv = vals@;
        assert(views(gv)[0] == self.flat()[0]);
        assert(views(gv)[1] == self.flat()[1]);
        assert(views(gv)[2] == self.flat()[2]);
        assert(views(gv) =~= self.flat());
        let schema = Self::fields();
        assert(crate::record::writable(schema@[0].kind, vals@[0]));
        assert(crate::record::writable(schema@[1].kind, vals@[1]));
        assert(crate::record::writable(schema@[2].kind, vals@[2]));
        let o = write_record_of(&schema, vals);
        JsonValue::Object(o)
    }

    proof fn lemma_decodes_flat(j: JsonValue, t: Self) {
    }

    proof fn lemma_round_trip(&self, j: JsonValue) {
        lemma_names_coreferencereferents();
        let o = j->Object_0;
        assert(j == JsonValue::Object(o));
        assert(crate::record::fits(Self::schema()[0].kind, self.flat()[0]));
        assert(crate::record::fits(Self::schema()[1].kind, self.flat()[1]));
        assert(crate::record::fits(Self::schema()[2].kind, self.flat()[2]));
        assert(crate::record::fits_all(Self::schema(), self.flat()));
        lemma_read_written(Self::schema(), self.flat(), o);
    }
}

/// The keys of the field table of `CoreferenceReferents` are distinct.
pub proof fn lemma_names_coreferencereferents()
    ensures
        distinct_names(CoreferenceReferents::schema()),
{
    reveal_strlit("head");
    reveal_strlit("prob");
    reveal_strlit("tokens");
    let s = CoreferenceReferents::schema();
    assert(s[0].name@ == "tokens"@);
    assert(s[1].name@ == "head"@);
    assert(s[2].name@ == "prob"@);
    assert("head"@.len() == 4);
    assert("prob"@.len() == 4);
    assert("tokens"@.len() == 6);
    assert("head"@[0] == 'h' && "prob"@[0] == 'p');
}

/// A coreference chain: a representative and the mentions that refer to it.
pub struct Coreference {
    pub id: u64,
    pub representative: CoreferenceRepresentantive,
    pub referents: Vec<CoreferenceReferents>,
}

impl Record for Coreference {
    open spec fn schema() -> Seq<Field> {
        seq![
            Field { name: "id", kind: Kind::Id, required: true },
            Field { name: "representative", kind: Kind::Object, required: true },
            Field { name: "referents", kind: Kind::List, required: true },
        ]
    }

    open spec fn flat(&self) -> Seq<FlatVal> {
        seq![
            FlatVal::Id(self.id),
            FlatVal::Nested,
            FlatVal::Nested,
        ]
    }

    open spec fn accepts(j: JsonValue) -> bool {
        &&& read_record(Self::schema(), j) is Some
        &&& CoreferenceRepresentantive::accepts(member(j, "representative"@)->Some_0)
        &&& all_accept::<CoreferenceReferents>(items(member(j, "referents"@)))
    }

    open spec fn decodes(j: JsonValue, t: Self) -> bool {
        &&& read_record(Self::schema(), j) == Some(t.flat())
        &&& CoreferenceRepresentantive::decodes(member(j, "representative"@)->Some_0, t.representative)
        &&& all_decode::<CoreferenceReferents>(items(member(j, "referents"@)), t.referents@)
    }

    open spec fn encodes(&self, j: JsonValue) -> bool {
        &&& j is Object
        &&& written(Self::schema(), self.flat(), j->Object_0@)
        &&& self.representative.encodes(member(j, "representative"@)->Some_0)
        &&& all_encode(self.referents@, member(j, "referents"@))
    }

    open spec fn storable(&self) -> bool {
        &&& storable(Self::schema(), self.flat())
        &&& self.representative.storable()
        &&& all_storable(self.referents@)
    }

    fn fields() -> (r: Vec<Field>) {
        vec![
            Field { name: "id", kind: Kind::Id, required: true },
            Field { name: "representative", kind: Kind::Object, required: true },
            Field { name: "referents", kind: Kind::List, required: true },
        ]
    }

    fn decode(j: &JsonValue) -> (r: Option<Self>) {
        let schema = Self::fields();
        let vs = match read_record_of(&schema, j) {
            Some(vs) => vs,
            None => return None,
        };
        let o = match j {
            JsonValue::Object(o) => o,
            _ => return None,
        };
        proof {
            assert(crate::record::read_field(schema@[1], o@) is Some);
        }
        let representative = match find_member(o, "representative") {
            Some(c) => match CoreferenceRepresentantive::decode(c) {
                Some(x) => x,
                None => return None,
            },
            None => return None,
        };
        proof {
            assert(crate::record::read_field(schema@[2], o@) is Some);
        }
        let referents = match decode_list::<CoreferenceReferents>(find_member(o, "referents")) {
            Some(x) => x,
            None => return None,
        };
        let t = Coreference {
            id: id_at(&vs, 0),
            representative,
            referents,
        };
        assert(t.flat()[0] == views(vs@)[0]);
        assert(t.flat()[1] == views(vs@)[1]);
        assert(t.flat()[2] == views(vs@)[2]);
        assert(t.flat() =~= views(vs@));
        Some(t)
    }

    fn encode(&self) -> (j: JsonValue) {
        let vals: Vec<FieldValue> = vec![
            FieldValue::Id(self.id),
            FieldValue::Node(self.representative.encode()),
            FieldValue::Node(encode_list(&self.referents)),
        ];
        let ghost gv = vals@;
        assert(views(gv)[0] == self.flat()[0]);
        assert(views(gv)[1] == self.flat()[1]);
        assert(views(gv)[2] == self.flat()[2]);
        assert(views(gv) =~= self.flat());
        let schema = Self::fields();
        assert(crate::record::writable(schema@[0].kind, vals@[0]));
        assert(crate::record::writable(schema@[1].kind, vals@[1]));
        assert(crate::record::writable(schema@[2].kind, vals@[2]));
        let o = write_record_of(&schema, vals);
        proof {
            lemma_names_coreference();
            lemma_written_lookup(Self::schema(), self.flat(), o@, 1);
            let k1 = choose|k: int| 0 <= k < o@.len() && kept(self.flat())[k] == 1 && lookup(o@, "representative"@) == Some(#[trigger] o@[k].1);
            assert(gv[kept(views(gv))[k1]] is Node);
            lemma_written_lookup(Self::schema(), self.flat(), o@, 2);
            let k2 = choose|k: int| 0 <= k < o@.len() && kept(self.flat())[k] == 2 && lookup(o@, "referents"@) == Some(#[trigger] o@[k].1);
            assert(gv[kept(views(gv))[k2]] is Node);
        }
        JsonValue::Object(o)
    }

    proof fn lemma_decodes_flat(j: JsonValue, t: Self) {
    }

    proof fn lemma_round_trip(&self, j: JsonValue) {
        lemma_names_coreference();
        let o = j->Object_0;
        assert(j == JsonValue::Object(o));
        assert(crate::record::fits(Self::schema()[0].kind, self.flat()[0]));
        assert(crate::record::fits(Self::schema()[1].kind, self.flat()[1]));
        assert(crate::record::fits(Self::schema()[2].kind, self.flat()[2]));
        assert(crate::record::fits_all(Self::schema(), self.flat()));
        lemma_read_written(Self::schema(), self.flat(), o);
        self.representative.lemma_round_trip(member(j, "representative"@)->Some_0);
        lemma_list_round_trip(self.referents@, member(j, "referents"@));
    }
}

/// The keys of the field table of `Coreference` are distinct.
pub proof fn lemma_names_coreference()
    ensures
        distinct_names(Coreference::schema()),
{
    reveal_strlit("id");
    reveal_strlit("referents");
    reveal_strlit("representative");
    let s = Coreference::schema();
    assert(s[0].name@ == "id"@);
    assert(s[1].name@ == "representative"@);
    assert(s[2].name@ == "referents"@);
    assert("id"@.len() == 2);
    assert("referents"@.len() == 9);
    assert("representative"@.len() == 14);
}

/// A scope relation between tokens of a constituent parse.
pub struct Scope {
    pub id: u64,
    pub gov: Vec<u64>,
    pub dep: Vec<u64>,
    pub terminals: Vec<u64>,
}

impl Record for Scope {
    open spec fn schema() -> Seq<Field> {
        seq![
            Field { name: "id", kind: Kind::Id, required: true },
            Field { name: "gov", kind: Kind::Ids, required: true },
            Field { name: "dep", kind: Kind::Ids, required: true },
            Field { name: "terminals", kind: Kind::Ids, required: true },
        ]
    }

    open spec fn flat(&self) -> Seq<FlatVal> {
        seq![
            FlatVal::Id(self.id),
            FlatVal::Ids(self.gov@),
            FlatVal::Ids(self.dep@),
            FlatVal::Ids(self.terminals@),
        ]
    }

    open spec fn accepts(j: JsonValue) -> bool {
        read_record(Self::schema(), j) is Some
    }

    open spec fn decodes(j: JsonValue, t: Self) -> bool {
        read_record(Self::schema(), j) == Some(t.flat())
    }

    open spec fn encodes(&self, j: JsonValue) -> bool {
        &&& j is Object
        &&& written(Self::schema(), self.flat(), j->Object_0@)
    }

    open spec fn storable(&self) -> bool {
        storable(Self::schema(), self.flat())
    }

    fn fields() -> (r: Vec<Field>) {
        vec![
            Field { name: "id", kind: Kind::Id, required: true },
            Field { name: "gov", kind: Kind::Ids, required: true },
            Field { name: "dep", kind: Kind::Ids, required: true },
            Field { name: "terminals", kind: Kind::Ids, required: true },
        ]
    }

    fn decode(j: &JsonValue) -> (r: Option<Self>) {
        let schema = Self::fields();
        let vs = match read_record_of(&schema, j) {
            Some(vs) => vs,
            None => return None,
        };
        let o = match j {
            JsonValue::Object(o) => o,
            _ => return None,
        };
        let t = Scope {
            id: id_at(&vs, 0),
            gov: ids_at(&vs, 1),
            dep: ids_at(&vs, 2),
            terminals: ids_at(&vs, 3),
        };
        assert(t.flat()[0] == views(vs@)[0]);
        assert(t.flat()[1] == views(vs@)[1]);
        assert(t.flat()[2] == views(vs@)[2]);
        assert(t.flat()[3] == views(vs@)[3]);
        assert(t.flat() =~= views(vs@));
        Some(t)
    }

    fn encode(&self) -> (j: JsonValue) {
        let vals: Vec<FieldValue> = vec![
            FieldValue::Id(self.id),
            FieldValue::Ids(crate::record::copy_ids(&self.gov)),
            FieldValue::Ids(crate::record::copy_ids(&self.dep)),
            FieldValue::Ids(crate::record::copy_ids(&self.terminals)),
        ];
        let ghost gv = vals@;
        assert(views(gv)[0] == self.flat()[0]);
        assert(views(gv)[1] == self.flat()[1]);
        assert(views(gv)[2] == self.flat()[2]);
        assert(views(gv)[3] == self.flat()[3]);
        assert(views(gv) =~= self.flat());
        let schema = Self::fields();
        assert(crate::record::writable(schema@[0].kind, vals@[0]));
        assert(crate::record::writable(schema@[1].kind, vals@[1]));
        assert(crate::record::writable(schema@[2].kind, vals@[2]));
        assert(crate::record::writable(schema@[3].kind, vals@[3]));
        let o = write_record_of(&schema, vals);
        JsonValue::Object(o)
    }

    proof fn lemma_decodes_flat(j: JsonValue, t: Self) {
    }

    proof fn lemma_round_trip(&self, j: JsonValue) {
        lemma_names_scope();
        let o = j->Object_0;
        assert(j == JsonValue::Object(o));
        assert(crate::record::fits(Self::schema()[0].kind, self.flat()[0]));
        assert(crate::record::fits(Self::schema()[1].kind, self.flat()[1]));
        assert(crate::record::fits(Self::schema()[2].kind, self.flat()[2]));
        assert(crate::record::fits(Self::schema()[3].kind, self.flat()[3]));
        assert(crate::record::fits_all(Self::schema(), self.flat()));
        lemma_read_written(Self::schema(), self.flat(), o);
    }
}

/// The keys of the field table of `Scope` are distinct.
pub proof fn lemma_names_scope()
    ensures
        distinct_names(Scope::schema()),
{
    reveal_strlit("dep");
    reveal_strlit("gov");
    reveal_strlit("id");
    reveal_strlit("terminals");
    let s = Scope::schema();
    assert(s[0].name@ == "id"@);
    assert(s[1].name@ == "gov"@);
    assert(s[2].name@ == "dep"@);
    assert(s[3].name@ == "terminals"@);
    assert("dep"@.len() == 3);
    assert("gov"@.len() == 3);
    assert("id"@.len() == 2);
    assert("terminals"@.len() == 9);
    assert("gov"@[0] == 'g' && "dep"@[0] == 'd');
}

/// The constituent parse of one sentence.
pub struct ConstituentParse {
    pub sentence_id: u64,
    pub ctype: String,
    pub labeled_bracketing: String,
    pub prob: serde_json::Number,
    pub scopes: Vec<Scope>,
}

impl Record for ConstituentParse {
    open spec fn schema() -> Seq<Field> {
        seq![
            Field { name: "sentenceId", kind: Kind::Id, required: true },
            Field { name: "type", kind: Kind::Text, required: false },
            Field { name: "labeledBracketing", kind: Kind::Text, required: false },
            Field { name: "prob", kind: Kind::Prob, required: false },
            Field { name: "scopes", kind: Kind::List, required: false },
        ]
    }

    open spec fn flat(&self) -> Seq<FlatVal> {
        seq![
            FlatVal::Id(self.sentence_id),
            FlatVal::Text(self.ctype@),
            FlatVal::Text(self.labeled_bracketing@),
            FlatVal::Prob(self.prob),
            FlatVal::Nested,
        ]
    }

    open spec fn accepts(j: JsonValue) -> bool {
        &&& read_record(Self::schema(), j) is Some
        &&& all_accept::<Scope>(items(member(j, "scopes"@)))
    }

    open spec fn decodes(j: JsonValue, t: Self) -> bool {
        &&& read_record(Self::schema(), j) == Some(t.flat())
        &&& all_decode::<Scope>(items(member(j, "scopes"@)), t.scopes@)
    }

    open spec fn encodes(&self, j: JsonValue) -> bool {
        &&& j is Object
        &&& written(Self::schema(), self.flat(), j->Object_0@)
        &&& all_encode(self.scopes@, member(j, "scopes"@))
    }

    open spec fn storable(&self) -> bool {
        &&& storable(Self::schema(), self.flat())
        &&& all_storable(self.scopes@)
    }

    fn fields() -> (r: Vec<Field>) {
        vec![
            Field { name: "sentenceId", kind: Kind::Id, required: true },
            Field { name: "type", kind: Kind::Text, required: false },
            Field { name: "labeledBracketing", kind: Kind::Text, required: false },
            Field { name: "prob", kind: Kind::Prob, required: false },
            Field { name: "scopes", kind: Kind::List, required: false },
        ]
    }

    fn decode(j: &JsonValue) -> (r: Option<Self>) {
        let schema = Self::fields();
        let vs = match read_record_of(&schema, j) {
            Some(vs) => vs,
            None => return None,
        };
        let o = match j {
            JsonValue::Object(o) => o,
            _ => return None,
        };
        proof {
            assert(crate::record::read_field(schema@[4], o@) is Some);
        }
        let scopes = match decode_list::<Scope>(find_member(o, "scopes")) {
            Some(x) => x,
            None => return None,
        };
        let t = ConstituentParse {
            sentence_id: id_at(&vs, 0),
            ctype: text_at(&vs, 1),
            labeled_bracketing: text_at(&vs, 2),
            prob: prob_at(&vs, 3),
            scopes,
        };
        assert(t.flat()[0] == views(vs@)[0]);
        assert(t.flat()[1] == views(vs@)[1]);
        assert(t.flat()[2] == views(vs@)[2]);
        assert(t.flat()[3] == views(vs@)[3]);
        assert(t.flat()[4] == views(vs@)[4]);
        assert(t.flat() =~= views(vs@));
        Some(t)
    }

    fn encode(&self) -> (j: JsonValue) {
        let vals: Vec<FieldValue> = vec![
            FieldValue::Id(self.sentence_id),
            FieldValue::Text(self.ctype.clone()),
            FieldValue::Text(self.labeled_bracketing.clone()),
            FieldValue::Prob(self.prob.clone()),
            FieldValue::Node(encode_list(&self.scopes)),
        ];
        let ghost gv = vals@;
        assert(views(gv)[0] == self.flat()[0]);
        assert(views(gv)[1] == self.flat()[1]);
        assert(views(gv)[2] == self.flat()[2]);
        assert(views(gv)[3] == self.flat()[3]);
        assert(views(gv)[4] == self.flat()[4]);
        assert(views(gv) =~= self.flat());
        let schema = Self::fields();
        assert(crate::record::writable(schema@[0].kind, vals@[0]));
        assert(crate::record::writable(schema@[1].kind, vals@[1]));
        assert(crate::record::writable(schema@[2].kind, vals@[2]));
        assert(crate::record::writable(schema@[3].kind, vals@[3]));
        assert(crate::record::writable(schema@[4].kind, vals@[4]));
        let o = write_record_of(&schema, vals);
        proof {
            lemma_names_constituentparse();
            lemma_written_lookup(Self::schema(), self.flat(), o@, 4);
            let k4 = choose|k: int| 0 <= k < o@.len() && kept(self.flat())[k] == 4 && lookup(o@, "scopes"@) == Some(#[trigger] o@[k].1);
            assert(gv[kept(views(gv))[k4]] is Node);
        }
        JsonValue::Object(o)
    }

    proof fn lemma_decodes_flat(j: JsonValue, t: Self) {
    }

    proof fn lemma_round_trip(&self, j: JsonValue) {
        lemma_names_constituentparse();
        let o = j->Object_0;
        assert(j == JsonValue::Object(o));
        assert(crate::record::fits(Self::schema()[0].kind, self.flat()[0]));
        assert(crate::record::fits(Self::schema()[1].kind, self.flat()[1]));
        assert(crate::record::fits(Self::schema()[2].kind, self.flat()[2]));
        assert(crate::record::fits(Self::schema()[3].kind, self.flat()[3]));
        assert(crate::record::fits(Self::schema()[4].kind, self.flat()[4]));
        assert(crate::record::fits_all(Self::schema(), self.flat()));
        lemma_read_written(Self::schema(), self.flat(), o);
        lemma_list_round_trip(self.scopes@, member(j, "scopes"@));
    }
}

/// The keys of the field table of `ConstituentParse` are distinct.
pub proof fn lemma_names_constituentparse()
    ensures
        distinct_names(ConstituentParse::schema()),
{
    reveal_strlit("labeledBracketing");
    reveal_strlit("prob");
    reveal_strlit("scopes");
    reveal_strlit("sentenceId");
    reveal_strlit("type");
    let s = ConstituentParse::schema();
    assert(s[0].name@ == "sentenceId"@);
    assert(s[1].name@ == "type"@);
    assert(s[2].name@ == "labeledBracketing"@);
    assert(s[3].name@ == "prob"@);
    assert(s[4].name@ == "scopes"@);
    assert("labeledBracketing"@.len() == 17);
    assert("prob"@.len() == 4);
    assert("scopes"@.len() == 6);
    assert("sentenceId"@.len() == 10);
    assert("type"@.len() == 4);
    assert("type"@[0] == 't' && "prob"@[0] == 'p');
}

/// An expression or chunk of the text.
pub struct Expression {
    pub id: u64,
    pub etype: String,
    pub head: u64,
    pub dependency: String,
    pub token_from: u64,
    pub token_to: u64,
    pub tokens: Vec<u64>,
    pub prob: serde_json::Number,
}

impl Record for Expression {
    open spec fn schema() -> Seq<Field> {
        seq![
            Field { name: "id", kind: Kind::Id, required: true },
            Field { name: "type", kind: Kind::Text, required: false },
            Field { name: "head", kind: Kind::Id, required: false },
            Field { name: "dependency", kind: Kind::Text, required: false },
            Field { name: "tokenFrom", kind: Kind::Id, required: false },
            Field { name: "tokenTo", kind: Kind::Id, required: false },
            Field { name: "tokens", kind: Kind::Ids, required: false },
            Field { name: "prob", kind: Kind::Prob, required: false },
        ]
    }

    open spec fn flat(&self) -> Seq<FlatVal> {
        seq![
            FlatVal::Id(self.id),
            FlatVal::Text(self.etype@),
            FlatVal::Id(self.head),
            FlatVal::Text(self.dependency@),
            FlatVal::Id(self.token_from),
            FlatVal::Id(self.token_to),
            FlatVal::Ids(self.tokens@),
            FlatVal::Prob(self.prob),
        ]
    }

    open spec fn accepts(j: JsonValue) -> bool {
        read_record(Self::schema(), j) is Some
    }

    open spec fn decodes(j: JsonValue, t: Self) -> bool {
        read_record(Self::schema(), j) == Some(t.flat())
    }

    open spec fn encodes(&self, j: JsonValue) -> bool {
        &&& j is Object
        &&& written(Self::schema(), self.flat(), j->Object_0@)
    }

    open spec fn storable(&self) -> bool {
        storable(Self::schema(), self.flat())
    }

    fn fields() -> (r: Vec<Field>) {
        vec![
            Field { name: "id", kind: Kind::Id, required: true },
            Field { name: "type", kind: Kind::Text, required: false },
            Field { name: "head", kind: Kind::Id, required: false },
            Field { name: "dependency", kind: Kind::Text, required: false },
            Field { name: "tokenFrom", kind: Kind::Id, required: false },
            Field { name: "tokenTo", kind: Kind::Id, required: false },
            Field { name: "tokens", kind: Kind::Ids, required: false },
            Field { name: "prob", kind: Kind::Prob, required: false },
        ]
    }

    fn decode(j: &JsonValue) -> (r: Option<Self>) {
        let schema = Self::fields();
        let vs = match read_record_of(&schema, j) {
            Some(vs) => vs,
            None => return None,
        };
        let o = match j {
            JsonValue::Object(o) => o,
            _ => return None,
        };
        let t = Expression {
            id: id_at(&vs, 0),
            etype: text_at(&vs, 1),
            head: id_at(&vs, 2),
            dependency: text_at(&vs, 3),
            token_from: id_at(&vs, 4),
            token_to: id_at(&vs, 5),
            tokens: ids_at(&vs, 6),
            prob: prob_at(&vs, 7),
        };
        assert(t.flat()[0] == views(vs@)[0]);
        assert(t.flat()[1] == views(vs@)[1]);
        assert(t.flat()[2] == views(vs@)[2]);
        assert(t.flat()[3] == views(vs@)[3]);
        assert(t.flat()[4] == views(vs@)[4]);
        assert(t.flat()[5] == views(vs@)[5]);
        assert(t.flat()[6] == views(vs@)[6]);
        assert(t.flat()[7] == views(vs@)[7]);
        assert(t.flat() =~= views(vs@));
        Some(t)
    }

    fn encode(&self) -> (j: JsonValue) {
        let vals: Vec<FieldValue> = vec![
            FieldValue::Id(self.id),
            FieldValue::Text(self.etype.clone()),
            FieldValue::Id(self.head),
            FieldValue::Text(self.dependency.clone()),
            FieldValue::Id(self.token_from),
            FieldValue::Id(self.token_to),
            FieldValue::Ids(crate::record::copy_ids(&self.tokens)),
            FieldValue::Prob(self.prob.clone()),
        ];
        let ghost gv = vals@;
        assert(views(gv)[0] == self.flat()[0]);
        assert(views(gv)[1] == self.flat()[1]);
        assert(views(gv)[2] == self.flat()[2]);
        assert(views(gv)[3] == self.flat()[3]);
        assert(views(gv)[4] == self.flat()[4]);
        assert(views(gv)[5] == self.flat()[5]);
        assert(views(gv)[6] == self.flat()[6]);
        assert(views(gv)[7] == self.flat()[7]);
        assert(views(gv) =~= self.flat());
        let schema = Self::fields();
        assert(crate::record::writable(schema@[0].kind, vals@[0]));
        assert(crate::record::writable(schema@[1].kind, vals@[1]));
        assert(crate::record::writable(schema@[2].kind, vals@[2]));
        assert(crate::record::writable(schema@[3].kind, vals@[3]));
        assert(crate::record::writable(schema@[4].kind, vals@[4]));
        assert(crate::record::writable(schema@[5].kind, vals@[5]));
        assert(crate::record::writable(schema@[6].kind, vals@[6]));
        assert(crate::record::writable(schema@[7].kind, vals@[7]));
        let o = write_record_of(&schema, vals);
        JsonValue::Object(o)
    }

    proof fn lemma_decodes_flat(j: JsonValue, t: Self) {
    }

    proof fn lemma_round_trip(&self, j: JsonValue) {
        lemma_names_expression();
        let o = j->Object_0;
        assert(j == JsonValue::Object(o));
        assert(crate::record::fits(Self::schema()[0].kind, self.flat()[0]));
        assert(crate::record::fits(Self::schema()[1].kind, self.flat()[1]));
        assert(crate::record::fits(Self::schema()[2].kind, self.flat()[2]));
        assert(crate::record::fits(Self::schema()[3].kind, self.flat()[3]));
        assert(crate::record::fits(Self::schema()[4].kind, self.flat()[4]));
        assert(crate::record::fits(Self::schema()[5].kind, self.flat()[5]));
        assert(crate::record::fits(Self::schema()[6].kind, self.flat()[6]));
        assert(crate::record::fits(Self::schema()[7].kind, self.flat()[7]));
        assert(crate::record::fits_all(Self::schema(), self.flat()));
        lemma_read_written(Self::schema(), self.flat(), o);
    }
}

/// The keys of the field table of `Expression` are distinct.
pub proof fn lemma_names_expression()
    ensures
        distinct_names(Expression::schema()),
{
    reveal_strlit("dependency");
    reveal_strlit("head");
    reveal_strlit("id");
    reveal_strlit("prob");
    reveal_strlit("tokenFrom");
    reveal_strlit("tokenTo");
    reveal_strlit("tokens");
    reveal_strlit("type");
    let s = Expression::schema();
    assert(s[0].name@ == "id"@);
    assert(s[1].name@ == "type"@);
    assert(s[2].name@ == "head"@);
    assert(s[3].name@ == "dependency"@);
    assert(s[4].name@ == "tokenFrom"@);
    assert(s[5].name@ == "tokenTo"@);
    assert(s[6].name@ == "tokens"@);
    assert(s[7].name@ == "prob"@);
    assert("dependency"@.len() == 10);
    assert("head"@.len() == 4);
    assert("id"@.len() == 2);
    assert("prob"@.len() == 4);
    assert("tokenFrom"@.len() == 9);
    assert("tokenTo"@.len() == 7);
    assert("tokens"@.len() == 6);
    assert("type"@.len() == 4);
    assert("type"@[0] == 't' && "head"@[0] == 'h');
    assert("type"@[0] == 't' && "prob"@[0] == 'p');
    assert("head"@[0] == 'h' && "prob"@[0] == 'p');
}

/// A paragraph: a token range, its tokens and its sentences.
pub struct Paragraph {
    pub id: u64,
    pub token_from: u64,
    pub token_to: u64,
    pub tokens: Vec<u64>,
    pub sentences: Vec<u64>,
}

impl Record for Paragraph {
    open spec fn schema() -> Seq<Field> {
        seq![
            Field { name: "id", kind: Kind::Id, required: true },
            Field { name: "tokenFrom", kind: Kind::Id, required: false },
            Field { name: "tokenTo", kind: Kind::Id, required: false },
            Field { name: "tokens", kind: Kind::Ids, required: false },
            Field { name: "sentences", kind: Kind::Ids, required: false },
        ]
    }

    open spec fn flat(&self) -> Seq<FlatVal> {
        seq![
            FlatVal::Id(self.id),
            FlatVal::Id(self.token_from),
            FlatVal::Id(self.token_to),
            FlatVal::Ids(self.tokens@),
            FlatVal::Ids(self.sentences@),
        ]
    }

    open spec fn accepts(j: JsonValue) -> bool {
        read_record(Self::schema(), j) is Some
    }

    open spec fn decodes(j: JsonValue, t: Self) -> bool {
        read_record(Self::schema(), j) == Some(t.flat())
    }

    open spec fn encodes(&self, j: JsonValue) -> bool {
        &&& j is Object
        &&& written(Self::schema(), self.flat(), j->Object_0@)
    }

    open spec fn storable(&self) -> bool {
        storable(Self::schema(), self.flat())
    }

    fn fields() -> (r: Vec<Field>) {
        vec![
            Field { name: "id", kind: Kind::Id, required: true },
            Field { name: "tokenFrom", kind: Kind::Id, required: false },
            Field { name: "tokenTo", kind: Kind::Id, required: false },
            Field { name: "tokens", kind: Kind::Ids, required: false },
            Field { name: "sentences", kind: Kind::Ids, required: false },
        ]
    }

    fn decode(j: &JsonValue) -> (r: Option<Self>) {
        let schema = Self::fields();
        let vs = match read_record_of(&schema, j) {
            Some(vs) => vs,
            None => return None,
        };
        let o = match j {
            JsonValue::Object(o) => o,
            _ => return None,
        };
        let t = Paragraph {
            id: id_at(&vs, 0),
            token_from: id_at(&vs, 1),
            token_to: id_at(&vs, 2),
            tokens: ids_at(&vs, 3),
            sentences: ids_at(&vs, 4),
        };
        assert(t.flat()[0] == views(vs@)[0]);
        assert(t.flat()[1] == views(vs@)[1]);
        assert(t.flat()[2] == views(vs@)[2]);
        assert(t.flat()[3] == views(vs@)[3]);
        assert(t.flat()[4] == views(vs@)[4]);
        assert(t.flat() =~= views(vs@));
        Some(t)
    }

    fn encode(&self) -> (j: JsonValue) {
        let vals: Vec<FieldValue> = vec![
            FieldValue::Id(self.id),
            FieldValue::Id(self.token_from),
            FieldValue::Id(self.token_to),
            FieldValue::Ids(crate::record::copy_ids(&self.tokens)),
            FieldValue::Ids(crate::record::copy_ids(&self.sentences)),
        ];
        let ghost gv = vals@;
        assert(views(gv)[0] == self.flat()[0]);
        assert(views(gv)[1] == self.flat()[1]);
        assert(views(gv)[2] == self.flat()[2]);
        assert(views(gv)[3] == self.flat()[3]);
        assert(views(gv)[4] == self.flat()[4]);
        assert(views(gv) =~= self.flat());
        let schema = Self::fields();
        assert(crate::record::writable(schema@[0].kind, vals@[0]));
        assert(crate::record::writable(schema@[1].kind, vals@[1]));
        assert(crate::record::writable(schema@[2].kind, vals@[2]));
        assert(crate::record::writable(schema@[3].kind, vals@[3]));
        assert(crate::record::writable(schema@[4].kind, vals@[4]));
        let o = write_record_of(&schema, vals);
        JsonValue::Object(o)
    }

    proof fn lemma_decodes_flat(j: JsonValue, t: Self) {
    }

    proof fn lemma_round_trip(&self, j: JsonValue) {
        lemma_names_paragraph();
        let o = j->Object_0;
        assert(j == JsonValue::Object(o));
        assert(crate::record::fits(Self::schema()[0].kind, self.flat()[0]));
        assert(crate::record::fits(Self::schema()[1].kind, self.flat()[1]));
        assert(crate::record::fits(Self::schema()[2].kind, self.flat()[2]));
        assert(crate::record::fits(Self::schema()[3].kind, self.flat()[3]));
        assert(crate::record::fits(Self::schema()[4].kind, self.flat()[4]));
        assert(crate::record::fits_all(Self::schema(), self.flat()));
        lemma_read_written(Self::schema(), self.flat(), o);
    }
}

/// The keys of the field table of `Paragraph` are distinct.
pub proof fn lemma_names_paragraph()
    ensures
        distinct_names(Paragraph::schema()),
{
    reveal_strlit("id");
    reveal_strlit("sentences");
    reveal_strlit("tokenFrom");
    reveal_strlit("tokenTo");
    reveal_strlit("tokens");
    let s = Paragraph::schema();
    assert(s[0].name@ == "id"@);
    assert(s[1].name@ == "tokenFrom"@);
    assert(s[2].name@ == "tokenTo"@);
    assert(s[3].name@ == "tokens"@);
    assert(s[4].name@ == "sentences"@);
    assert("id"@.len() == 2);
    assert("sentences"@.len() == 9);
    assert("tokenFrom"@.len() == 9);
    assert("tokenTo"@.len() == 7);
    assert("tokens"@.len() == 6);
    assert("tokenFrom"@[0] == 't' && "sentences"@[0] == 's');
}

/// A label and value pair of an attribute-value matrix.
pub struct Attribute {
    pub lab: String,
    pub val: String,
}

impl Record for Attribute {
    open spec fn schema() -> Seq<Field> {
        seq![
            Field { name: "lab", kind: Kind::Text, required: true },
            Field { name: "val", kind: Kind::Text, required: true },
        ]
    }

    open spec fn flat(&self) -> Seq<FlatVal> {
        seq![
            FlatVal::Text(self.lab@),
            FlatVal::Text(self.val@),
        ]
    }

    open spec fn accepts(j: JsonValue) -> bool {
        read_record(Self::schema(), j) is Some
    }

    open spec fn decodes(j: JsonValue, t: Self) -> bool {
        read_record(Self::schema(), j) == Some(t.flat())
    }

    open spec fn encodes(&self, j: JsonValue) -> bool {
        &&& j is Object
        &&& written(Self::schema(), self.flat(), j->Object_0@)
    }

    open spec fn storable(&self) -> bool {
        storable(Self::schema(), self.flat())
    }

    fn fields() -> (r: Vec<Field>) {
        vec![
            Field { name: "lab", kind: Kind::Text, required: true },
            Field { name: "val", kind: Kind::Text, required: true },
        ]
    }

    fn decode(j: &JsonValue) -> (r: Option<Self>) {
        let schema = Self::fields();
        let vs = match read_record_of(&schema, j) {
            Some(vs) => vs,
            None => return None,
        };
        let o = match j {
            JsonValue::Object(o) => o,
            _ => return None,
        };
        let t = Attribute {
            lab: text_at(&vs, 0),
            val: text_at(&vs, 1),
        };
        assert(t.flat()[0] == views(vs@)[0]);
        assert(t.flat()[1] == views(vs@)[1]);
        assert(t.flat() =~= views(vs@));
        Some(t)
    }

    fn encode(&self) -> (j: JsonValue) {
        let vals: Vec<FieldValue> = vec![
            FieldValue::Text(self.lab.clone()),
            FieldValue::Text(self.val.clone()),
        ];
        let ghost gv = vals@;
        assert(views(gv)[0] == self.flat()[0]);
        assert(views(gv)[1] == self.flat()[1]);
        assert(views(gv) =~= self.flat());
        let schema = Self::fields();
        assert(crate::record::writable(schema@[0].kind, vals@[0]));
        assert(crate::record::writable(schema@[1].kind, vals@[1]));
        let o = write_record_of(&schema, vals);
        JsonValue::Object(o)
    }

    proof fn lemma_decodes_flat(j: JsonValue, t: Self) {
    }

    proof fn lemma_round_trip(&self, j: JsonValue) {
        lemma_names_attribute();
        let o = j->Object_0;
        assert(j == JsonValue::Object(o));
        assert(crate::record::fits(Self::schema()[0].kind, self.flat()[0]));
        assert(crate::record::fits(Self::schema()[1].kind, self.flat()[1]));
        assert(crate::record::fits_all(Self::schema(), self.flat()));
        lemma_read_written(Self::schema(), self.flat(), o);
    }
}

/// The keys of the field table of `Attribute` are distinct.
pub proof fn lemma_names_attribute()
    ensures
        distinct_names(Attribute::schema()),
{
    reveal_strlit("lab");
    reveal_strlit("val");
    let s = Attribute::schema();
    assert(s[0].name@ == "lab"@);
    assert(s[1].name@ == "val"@);
    assert("lab"@.len() == 3);
    assert("val"@.len() == 3);
    assert("lab"@[0] == 'l' && "val"@[0] == 'v');
}

/// An entity mention and its properties.
pub struct Entity {
    pub id: u64,
    pub label: String,
    pub etype: String,
    pub url: String,
    pub head: u64,
    pub token_from: u64,
    pub token_to: u64,
    pub tokens: Vec<u64>,
    pub triple_id: u64,
    pub sentiment: String,
    pub sentiment_prob: serde_json::Number,
    pub count: u64,
    pub attributes: Vec<Attribute>,
}

impl Record for Entity {
    open spec fn schema() -> Seq<Field> {
        seq![
            Field { name: "id", kind: Kind::Id, required: true },
            Field { name: "label", kind: Kind::Text, required: false },
            Field { name: "type", kind: Kind::Text, required: false },
            Field { name: "url", kind: Kind::Text, required: false },
            Field { name: "head", kind: Kind::Id, required: false },
            Field { name: "tokenFrom", kind: Kind::Id, required: false },
            Field { name: "tokenTo", kind: Kind::Id, required: false },
            Field { name: "tokens", kind: Kind::Ids, required: false },
            Field { name: "tripleID", kind: Kind::Id, required: false },
            Field { name: "sentiment", kind: Kind::Text, required: false },
            Field { name: "sentimentProb", kind: Kind::Prob, required: false },
            Field { name: "count", kind: Kind::Id, required: false },
            Field { name: "attributes", kind: Kind::List, required: false },
        ]
    }

    open spec fn flat(&self) -> Seq<FlatVal> {
        seq![
            FlatVal::Id(self.id),
            FlatVal::Text(self.label@),
            FlatVal::Text(self.etype@),
            FlatVal::Text(self.url@),
            FlatVal::Id(self.head),
            FlatVal::Id(self.token_from),
            FlatVal::Id(self.token_to),
            FlatVal::Ids(self.tokens@),
            FlatVal::Id(self.triple_id),
            FlatVal::Text(self.sentiment@),
            FlatVal::Prob(self.sentiment_prob),
            FlatVal::Id(self.count),
            FlatVal::Nested,
        ]
    }

    open spec fn accepts(j: JsonValue) -> bool {
        &&& read_record(Self::schema(), j) is Some
        &&& all_accept::<Attribute>(items(member(j, "attributes"@)))
    }

    open spec fn decodes(j: JsonValue, t: Self) -> bool {
        &&& read_record(Self::schema(), j) == Some(t.flat())
        &&& all_decode::<Attribute>(items(member(j, "attributes"@)), t.attributes@)
    }

    open spec fn encodes(&self, j: JsonValue) -> bool {
        &&& j is Object
        &&& written(Self::schema(), self.flat(), j->Object_0@)
        &&& all_encode(self.attributes@, member(j, "attributes"@))
    }

    open spec fn storable(&self) -> bool {
        &&& storable(Self::schema(), self.flat())
        &&& all_storable(self.attributes@)
    }

    fn fields() -> (r: Vec<Field>) {
        vec![
            Field { name: "id", kind: Kind::Id, required: true },
            Field { name: "label", kind: Kind::Text, required: false },
            Field { name: "type", kind: Kind::Text, required: false },
            Field { name: "url", kind: Kind::Text, required: false },
            Field { name: "head", kind: Kind::Id, required: false },
            Field { name: "tokenFrom", kind: Kind::Id, required: false },
            Field { name: "tokenTo", kind: Kind::Id, required: false },
            Field { name: "tokens", kind: Kind::Ids, required: false },
            Field { name: "tripleID", kind: Kind::Id, required: false },
            Field { name: "sentiment", kind: Kind::Text, required: false },
            Field { name: "sentimentProb", kind: Kind::Prob, required: false },
            Field { name: "count", kind: Kind::Id, required: false },
            Field { name: "attributes", kind: Kind::List, required: false },
        ]
    }

    fn decode(j: &JsonValue) -> (r: Option<Self>) {
        let schema = Self::fields();
        let vs = match read_record_of(&schema, j) {
            Some(vs) => vs,
            None => return None,
        };
        let o = match j {
            JsonValue::Object(o) => o,
            _ => return None,
        };
        proof {
            assert(crate::record::read_field(schema@[12], o@) is Some);
        }
        let attributes = match decode_list::<Attribute>(find_member(o, "attributes")) {
            Some(x) => x,
            None => return None,
        };
        let t = Entity {
            id: id_at(&vs, 0),
            label: text_at(&vs, 1),
            etype: text_at(&vs, 2),
            url: text_at(&vs, 3),
            head: id_at(&vs, 4),
            token_from: id_at(&vs, 5),
            token_to: id_at(&vs, 6),
            tokens: ids_at(&vs, 7),
            triple_id: id_at(&vs, 8),
            sentiment: text_at(&vs, 9),
            sentiment_prob: prob_at(&vs, 10),
            count: id_at(&vs, 11),
            attributes,
        };
        assert(t.flat()[0] == views(vs@)[0]);
        assert(t.flat()[1] == views(vs@)[1]);
        assert(t.flat()[2] == views(vs@)[2]);
        assert(t.flat()[3] == views(vs@)[3]);
        assert(t.flat()[4] == views(vs@)[4]);
        assert(t.flat()[5] == views(vs@)[5]);
        assert(t.flat()[6] == views(vs@)[6]);
        assert(t.flat()[7] == views(vs@)[7]);
        assert(t.flat()[8] == views(vs@)[8]);
        assert(t.flat()[9] == views(vs@)[9]);
        assert(t.flat()[10] == views(vs@)[10]);
        assert(t.flat()[11] == views(vs@)[11]);
        assert(t.flat()[12] == views(vs@)[12]);
        assert(t.flat() =~= views(vs@));
        Some(t)
    }

    fn encode(&self) -> (j: JsonValue) {
        let vals: Vec<FieldValue> = vec![
            FieldValue::Id(self.id),
            FieldValue::Text(self.label.clone()),
            FieldValue::Text(self.etype.clone()),
            FieldValue::Text(self.url.clone()),
            FieldValue::Id(self.head),
            FieldValue::Id(self.token_from),
            FieldValue::Id(self.token_to),
            FieldValue::Ids(crate::record::copy_ids(&self.tokens)),
            FieldValue::Id(self.triple_id),
            FieldValue::Text(self.sentiment.clone()),
            FieldValue::Prob(self.sentiment_prob.clone()),
            FieldValue::Id(self.count),
            FieldValue::Node(encode_list(&self.attributes)),
        ];
        let ghost gv = vals@;
        assert(views(gv)[0] == self.flat()[0]);
        assert(views(gv)[1] == self.flat()[1]);
        assert(views(gv)[2] == self.flat()[2]);
        assert(views(gv)[3] == self.flat()[3]);
        assert(views(gv)[4] == self.flat()[4]);
        assert(views(gv)[5] == self.flat()[5]);
        assert(views(gv)[6] == self.flat()[6]);
        assert(views(gv)[7] == self.flat()[7]);
        assert(views(gv)[8] == self.flat()[8]);
        assert(views(gv)[9] == self.flat()[9]);
        assert(views(gv)[10] == self.flat()[10]);
        assert(views(gv)[11] == self.flat()[11]);
        assert(views(gv)[12] == self.flat()[12]);
        assert(views(gv) =~= self.flat());
        let schema = Self::fields();
        assert(crate::record::writable(schema@[0].kind, vals@[0]));
        assert(crate::record::writable(schema@[1].kind, vals@[1]));
        assert(crate::record::writable(schema@[2].kind, vals@[2]));
        assert(crate::record::writable(schema@[3].kind, vals@[3]));
        assert(crate::record::writable(schema@[4].kind, vals@[4]));
        assert(crate::record::writable(schema@[5].kind, vals@[5]));
        assert(crate::record::writable(schema@[6].kind, vals@[6]));
        assert(crate::record::writable(schema@[7].kind, vals@[7]));
        assert(crate::record::writable(schema@[8].kind, vals@[8]));
        assert(crate::record::writable(schema@[9].kind, vals@[9]));
        assert(crate::record::writable(schema@[10].kind, vals@[10]));
        assert(crate::record::writable(schema@[11].kind, vals@[11]));
        assert(crate::record::writable(schema@[12].kind, vals@[12]));
        let o = write_record_of(&schema, vals);
        proof {
            lemma_names_entity();
            lemma_written_lookup(Self::schema(), self.flat(), o@, 12);
            let k12 = choose|k: int| 0 <= k < o@.len() && kept(self.flat())[k] == 12 && lookup(o@, "attributes"@) == Some(#[trigger] o@[k].1);
            assert(gv[kept(views(gv))[k12]] is Node);
        }
        JsonValue::Object(o)
    }

    proof fn lemma_decodes_flat(j: JsonValue, t: Self) {
    }

    proof fn lemma_round_trip(&self, j: JsonValue) {
        lemma_names_entity();
        let o = j->Object_0;
        assert(j == JsonValue::Object(o));
        assert(crate::record::fits(Self::schema()[0].kind, self.flat()[0]));
        assert(crate::record::fits(Self::schema()[1].kind, self.flat()[1]));
        assert(crate::record::fits(Self::schema()[2].kind, self.flat()[2]));
        assert(crate::record::fits(Self::schema()[3].kind, self.flat()[3]));
        assert(crate::record::fits(Self::schema()[4].kind, self.flat()[4]));
        assert(crate::record::fits(Self::schema()[5].kind, self.flat()[5]));
        assert(crate::record::fits(Self::schema()[6].kind, self.flat()[6]));
        assert(crate::record::fits(Self::schema()[7].kind, self.flat()[7]));
        assert(crate::record::fits(Self::schema()[8].kind, self.flat()[8]));
        assert(crate::record::fits(Self::schema()[9].kind, self.flat()[9]));
        assert(crate::record::fits(Self::schema()[10].kind, self.flat()[10]));
        assert(crate::record::fits(Self::schema()[11].kind, self.flat()[11]));
        assert(crate::record::fits(Self::schema()[12].kind, self.flat()[12]));
        assert(crate::record::fits_all(Self::schema(), self.flat()));
        lemma_read_written(Self::schema(), self.flat(), o);
        lemma_list_round_trip(self.attributes@, member(j, "attributes"@));
    }
}

/// The keys of the field table of `Entity` are distinct.
pub proof fn lemma_names_entity()
    ensures
        distinct_names(Entity::schema()),
{
    reveal_strlit("attributes");
    reveal_strlit("count");
    reveal_strlit("head");
    reveal_strlit("id");
    reveal_strlit("label");
    reveal_strlit("sentiment");
    reveal_strlit("sentimentProb");
    reveal_strlit("tokenFrom");
    reveal_strlit("tokenTo");
    reveal_strlit("tokens");
    reveal_strlit("tripleID");
    reveal_strlit("type");
    reveal_strlit("url");
    let s = Entity::schema();
    assert(s[0].name@ == "id"@);
    assert(s[1].name@ == "label"@);
    assert(s[2].name@ == "type"@);
    assert(s[3].name@ == "url"@);
    assert(s[4].name@ == "head"@);
    assert(s[5].name@ == "tokenFrom"@);
    assert(s[6].name@ == "tokenTo"@);
    assert(s[7].name@ == "tokens"@);
    assert(s[8].name@ == "tripleID"@);
    assert(s[9].name@ == "sentiment"@);
    assert(s[10].name@ == "sentimentProb"@);
    assert(s[11].name@ == "count"@);
    assert(s[12].name@ == "attributes"@);
    assert("attributes"@.len() == 10);
    assert("count"@.len() == 5);
    assert("head"@.len() == 4);
    assert("id"@.len() == 2);
    assert("label"@.len() == 5);
    assert("sentiment"@.len() == 9);
    assert("sentimentProb"@.len() == 13);
    assert("tokenFrom"@.len() == 9);
    assert("tokenTo"@.len() == 7);
    assert("tokens"@.len() == 6);
    assert("tripleID"@.len() == 8);
    assert("type"@.len() == 4);
    assert("url"@.len() == 3);
    assert("label"@[0] == 'l' && "count"@[0] == 'c');
    assert("type"@[0] == 't' && "head"@[0] == 'h');
    assert("tokenFrom"@[0] == 't' && "sentiment"@[0] == 's');
}

/// A relation of an entity, concept or knowledge graph.
pub struct Relation {
    pub id: u64,
    pub label: String,
    pub rtype: String,
    pub url: String,
    pub head: u64,
    pub token_from: u64,
    pub token_to: u64,
    pub tokens: Vec<u64>,
    pub sentiment: String,
    pub sentiment_prob: serde_json::Number,
    pub count: u64,
    pub attributes: Vec<Attribute>,
}

impl Record for Relation {
    open spec fn schema() -> Seq<Field> {
        seq![
            Field { name: "id", kind: Kind::Id, required: true },
            Field { name: "label", kind: Kind::Text, required: false },
            Field { name: "type", kind: Kind::Text, required: false },
            Field { name: "url", kind: Kind::Text, required: false },
            Field { name: "head", kind: Kind::Id, required: false },
            Field { name: "tokenFrom", kind: Kind::Id, required: false },
            Field { name: "tokenTo", kind: Kind::Id, required: false },
            Field { name: "tokens", kind: Kind::Ids, required: false },
            Field { name: "sentiment", kind: Kind::Text, required: false },
            Field { name: "sentimentProb", kind: Kind::Prob, required: false },
            Field { name: "count", kind: Kind::Id, required: false },
            Field { name: "attributes", kind: Kind::List, required: false },
        ]
    }

    open spec fn flat(&self) -> Seq<FlatVal> {
        seq![
            FlatVal::Id(self.id),
            FlatVal::Text(self.label@),
            FlatVal::Text(self.rtype@),
            FlatVal::Text(self.url@),
            FlatVal::Id(self.head),
            FlatVal::Id(self.token_from),
            FlatVal::Id(self.token_to),
            FlatVal::Ids(self.tokens@),
            FlatVal::Text(self.sentiment@),
            FlatVal::Prob(self.sentiment_prob),
            FlatVal::Id(self.count),
            FlatVal::Nested,
        ]
    }

    open spec fn accepts(j: JsonValue) -> bool {
        &&& read_record(Self::schema(), j) is Some
        &&& all_accept::<Attribute>(items(member(j, "attributes"@)))
    }

    open spec fn decodes(j: JsonValue, t: Self) -> bool {
        &&& read_record(Self::schema(), j) == Some(t.flat())
        &&& all_decode::<Attribute>(items(member(j, "attributes"@)), t.attributes@)
    }

    open spec fn encodes(&self, j: JsonValue) -> bool {
        &&& j is Object
        &&& written(Self::schema(), self.flat(), j->Object_0@)
        &&& all_encode(self.attributes@, member(j, "attributes"@))
    }

    open spec fn storable(&self) -> bool {
        &&& storable(Self::schema(), self.flat())
        &&& all_storable(self.attributes@)
    }

    fn fields() -> (r: Vec<Field>) {
        vec![
            Field { name: "id", kind: Kind::Id, required: true },
            Field { name: "label", kind: Kind::Text, required: false },
            Field { name: "type", kind: Kind::Text, required: false },
            Field { name: "url", kind: Kind::Text, required: false },
            Field { name: "head", kind: Kind::Id, required: false },
            Field { name: "tokenFrom", kind: Kind::Id, required: false },
            Field { name: "tokenTo", kind: Kind::Id, required: false },
            Field { name: "tokens", kind: Kind::Ids, required: false },
            Field { name: "sentiment", kind: Kind::Text, required: false },
            Field { name: "sentimentProb", kind: Kind::Prob, required: false },
            Field { name: "count", kind: Kind::Id, required: false },
            Field { name: "attributes", kind: Kind::List, required: false },
        ]
    }

    fn decode(j: &JsonValue) -> (r: Option<Self>) {
        let schema = Self::fields();
        let vs = match read_record_of(&schema, j) {
            Some(vs) => vs,
            None => return None,
        };
        let o = match j {
            JsonValue::Object(o) => o,
            _ => return None,
        };
        proof {
            assert(crate::record::read_field(schema@[11], o@) is Some);
        }
        let attributes = match decode_list::<Attribute>(find_member(o, "attributes")) {
            Some(x) => x,
            None => return None,
        };
        let t = Relation {
            id: id_at(&vs, 0),
            label: text_at(&vs, 1),
            rtype: text_at(&vs, 2),
            url: text_at(&vs, 3),
            head: id_at(&vs, 4),
            token_from: id_at(&vs, 5),
            token_to: id_at(&vs, 6),
            tokens: ids_at(&vs, 7),
            sentiment: text_at(&vs, 8),
            sentiment_prob: prob_at(&vs, 9),
            count: id_at(&vs, 10),
            attributes,
        };
        assert(t.flat()[0] == views(vs@)[0]);
        assert(t.flat()[1] == views(vs@)[1]);
        assert(t.flat()[2] == views(vs@)[2]);
        assert(t.flat()[3] == views(vs@)[3]);
        assert(t.flat()[4] == views(vs@)[4]);
        assert(t.flat()[5] == views(vs@)[5]);
        assert(t.flat()[6] == views(vs@)[6]);
        assert(t.flat()[7] == views(vs@)[7]);
        assert(t.flat()[8] == views(vs@)[8]);
        assert(t.flat()[9] == views(vs@)[9]);
        assert(t.flat()[10] == views(vs@)[10]);
        assert(t.flat()[11] == views(vs@)[11]);
        assert(t.flat() =~= views(vs@));
        Some(t)
    }

    fn encode(&self) -> (j: JsonValue) {
        let vals: Vec<FieldValue> = vec![
            FieldValue::Id(self.id),
            FieldValue::Text(self.label.clone()),
            FieldValue::Text(self.rtype.clone()),
            FieldValue::Text(self.url.clone()),
            FieldValue::Id(self.head),
            FieldValue::Id(self.token_from),
            FieldValue::Id(self.token_to),
            FieldValue::Ids(crate::record::copy_ids(&self.tokens)),
            FieldValue::Text(self.sentiment.clone()),
            FieldValue::Prob(self.sentiment_prob.clone()),
            FieldValue::Id(self.count),
            FieldValue::Node(encode_list(&self.attributes)),
        ];
        let ghost gv = vals@;
        assert(views(gv)[0] == self.flat()[0]);
        assert(views(gv)[1] == self.flat()[1]);
        assert(views(gv)[2] == self.flat()[2]);
        assert(views(gv)[3] == self.flat()[3]);
        assert(views(gv)[4] == self.flat()[4]);
        assert(views(gv)[5] == self.flat()[5]);
        assert(views(gv)[6] == self.flat()[6]);
        assert(views(gv)[7] == self.flat()[7]);
        assert(views(gv)[8] == self.flat()[8]);
        assert(views(gv)[9] == self.flat()[9]);
        assert(views(gv)[10] == self.flat()[10]);
        assert(views(gv)[11] == self.flat()[11]);
        assert(views(gv) =~= self.flat());
        let schema = Self::fields();
        assert(crate::record::writable(schema@[0].kind, vals@[0]));
        assert(crate::record::writable(schema@[1].kind, vals@[1]));
        assert(crate::record::writable(schema@[2].kind, vals@[2]));
        assert(crate::record::writable(schema@[3].kind, vals@[3]));
        assert(crate::record::writable(schema@[4].kind, vals@[4]));
        assert(crate::record::writable(schema@[5].kind, vals@[5]));
        assert(crate::record::writable(schema@[6].kind, vals@[6]));
        assert(crate::record::writable(schema@[7].kind, vals@[7]));
        assert(crate::record::writable(schema@[8].kind, vals@[8]));
        assert(crate::record::writable(schema@[9].kind, vals@[9]));
        assert(crate::record::writable(schema@[10].kind, vals@[10]));
        assert(crate::record::writable(schema@[11].kind, vals@[11]));
        let o = write_record_of(&schema, vals);
        proof {
            lemma_names_relation();
            lemma_written_lookup(Self::schema(), self.flat(), o@, 11);
            let k11 = choose|k: int| 0 <= k < o@.len() && kept(self.flat())[k] == 11 && lookup(o@, "attributes"@) == Some(#[trigger] o@[k].1);
            assert(gv[kept(views(gv))[k11]] is Node);
        }
        JsonValue::Object(o)
    }

    proof fn lemma_decodes_flat(j: JsonValue, t: Self) {
    }

    proof fn lemma_round_trip(&self, j: JsonValue) {
        lemma_names_relation();
        let o = j->Object_0;
        assert(j == JsonValue::Object(o));
        assert(crate::record::fits(Self::schema()[0].kind, self.flat()[0]));
        assert(crate::record::fits(Self::schema()[1].kind, self.flat()[1]));
        assert(crate::record::fits(Self::schema()[2].kind, self.flat()[2]));
        assert(crate::record::fits(Self::schema()[3].kind, self.flat()[3]));
        assert(crate::record::fits(Self::schema()[4].kind, self.flat()[4]));
        assert(crate::record::fits(Self::schema()[5].kind, self.flat()[5]));
        assert(crate::record::fits(Self::schema()[6].kind, self.flat()[6]));
        assert(crate::record::fits(Self::schema()[7].kind, self.flat()[7]));
        assert(crate::record::fits(Self::schema()[8].kind, self.flat()[8]));
        assert(crate::record::fits(Self::schema()[9].kind, self.flat()[9]));
        assert(crate::record::fits(Self::schema()[10].kind, self.flat()[10]));
        assert(crate::record::fits(Self::schema()[11].kind, self.flat()[11]));
        assert(crate::record::fits_all(Self::schema(), self.flat()));
        lemma_read_written(Self::schema(), self.flat(), o);
        lemma_list_round_trip(self.attributes@, member(j, "attributes"@));
    }
}

/// The keys of the field table of `Relation` are distinct.
pub proof fn lemma_names_relation()
    ensures
        distinct_names(Relation::schema()),
{
    reveal_strlit("attributes");
    reveal_strlit("count");
    reveal_strlit("head");
    reveal_strlit("id");
    reveal_strlit("label");
    reveal_strlit("sentiment");
    reveal_strlit("sentimentProb");
    reveal_strlit("tokenFrom");
    reveal_strlit("tokenTo");
    reveal_strlit("tokens");
    reveal_strlit("type");
    reveal_strlit("url");
    let s = Relation::schema();
    assert(s[0].name@ == "id"@);
    assert(s[1].name@ == "label"@);
    assert(s[2].name@ == "type"@);
    assert(s[3].name@ == "url"@);
    assert(s[4].name@ == "head"@);
    assert(s[5].name@ == "tokenFrom"@);
    assert(s[6].name@ == "tokenTo"@);
    assert(s[7].name@ == "tokens"@);
    assert(s[8].name@ == "sentiment"@);
    assert(s[9].name@ == "sentimentProb"@);
    assert(s[10].name@ == "count"@);
    assert(s[11].name@ == "attributes"@);
    assert("attributes"@.len() == 10);
    assert("count"@.len() == 5);
    assert("head"@.len() == 4);
    assert("id"@.len() == 2);
    assert("label"@.len() == 5);
    assert("sentiment"@.len() == 9);
    assert("sentimentProb"@.len() == 13);
    assert("tokenFrom"@.len() == 9);
    assert("tokenTo"@.len() == 7);
    assert("tokens"@.len() == 6);
    assert("type"@.len() == 4);
    assert("url"@.len() == 3);
    assert("label"@[0] == 'l' && "count"@[0] == 'c');
    assert("type"@[0] == 't' && "head"@[0] == 'h');
    assert("tokenFrom"@[0] == 't' && "sentiment"@[0] == 's');
}

/// A knowledge-graph edge between two entities.
pub struct Triple {
    pub id: u64,
    pub from_entity: u64,
    pub to_entity: u64,
    pub rel: u64,
    pub clause_id: Vec<u64>,
    pub sentence_id: Vec<u64>,
    pub directional: bool,
    pub event_id: u64,
    pub temp_seq: u64,
    pub prob: serde_json::Number,
    pub syntactic: bool,
    pub implied: bool,
    pub presupposed: bool,
    pub count: u64,
}

impl Record for Triple {
    open spec fn schema() -> Seq<Field> {
        seq![
            Field { name: "id", kind: Kind::Id, required: true },
            Field { name: "fromEntity", kind: Kind::Id, required: false },
            Field { name: "toEntity", kind: Kind::Id, required: false },
            Field { name: "rel", kind: Kind::Id, required: false },
            Field { name: "clauseID", kind: Kind::Ids, required: false },
            Field { name: "sentenceID", kind: Kind::Ids, required: false },
            Field { name: "directional", kind: Kind::Flag, required: false },
            Field { name: "eventID", kind: Kind::Id, required: false },
            Field { name: "tempSeq", kind: Kind::Id, required: false },
            Field { name: "prob", kind: Kind::Prob, required: false },
            Field { name: "syntactic", kind: Kind::Flag, required: false },
            Field { name: "implied", kind: Kind::Flag, required: false },
            Field { name: "presupposed", kind: Kind::Flag, required: false },
            Field { name: "count", kind: Kind::Id, required: false },
        ]
    }

    open spec fn flat(&self) -> Seq<FlatVal> {
        seq![
            FlatVal::Id(self.id),
            FlatVal::Id(self.from_entity),
            FlatVal::Id(self.to_entity),
            FlatVal::Id(self.rel),
            FlatVal::Ids(self.clause_id@),
            FlatVal::Ids(self.sentence_id@),
            FlatVal::Flag(self.directional),
            FlatVal::Id(self.event_id),
            FlatVal::Id(self.temp_seq),
            FlatVal::Prob(self.prob),
            FlatVal::Flag(self.syntactic),
            FlatVal::Flag(self.implied),
            FlatVal::Flag(self.presupposed),
            FlatVal::Id(self.count),
        ]
    }

    open spec fn accepts(j: JsonValue) -> bool {
        read_record(Self::schema(), j) is Some
    }

    open spec fn decodes(j: JsonValue, t: Self) -> bool {
        read_record(Self::schema(), j) == Some(t.flat())
    }

    open spec fn encodes(&self, j: JsonValue) -> bool {
        &&& j is Object
        &&& written(Self::schema(), self.flat(), j->Object_0@)
    }

    open spec fn storable(&self) -> bool {
        storable(Self::schema(), self.flat())
    }

    fn fields() -> (r: Vec<Field>) {
        vec![
            Field { name: "id", kind: Kind::Id, required: true },
            Field { name: "fromEntity", kind: Kind::Id, required: false },
            Field { name: "toEntity", kind: Kind::Id, required: false },
            Field { name: "rel", kind: Kind::Id, required: false },
            Field { name: "clauseID", kind: Kind::Ids, required: false },
            Field { name: "sentenceID", kind: Kind::Ids, required: false },
            Field { name: "directional", kind: Kind::Flag, required: false },
            Field { name: "eventID", kind: Kind::Id, required: false },
            Field { name: "tempSeq", kind: Kind::Id, required: false },
            Field { name: "prob", kind: Kind::Prob, required: false },
            Field { name: "syntactic", kind: Kind::Flag, required: false },
            Field { name: "implied", kind: Kind::Flag, required: false },
            Field { name: "presupposed", kind: Kind::Flag, required: false },
            Field { name: "count", kind: Kind::Id, required: false },
        ]
    }

    fn decode(j: &JsonValue) -> (r: Option<Self>) {
        let schema = Self::fields();
        let vs = match read_record_of(&schema, j) {
            Some(vs) => vs,
            None => return None,
        };
        let o = match j {
            JsonValue::Object(o) => o,
            _ => return None,
        };
        let t = Triple {
            id: id_at(&vs, 0),
            from_entity: id_at(&vs, 1),
            to_entity: id_at(&vs, 2),
            rel: id_at(&vs, 3),
            clause_id: ids_at(&vs, 4),
            sentence_id: ids_at(&vs, 5),
            directional: flag_at(&vs, 6),
            event_id: id_at(&vs, 7),
            temp_seq: id_at(&vs, 8),
            prob: prob_at(&vs, 9),
            syntactic: flag_at(&vs, 10),
            implied: flag_at(&vs, 11),
            presupposed: flag_at(&vs, 12),
            count: id_at(&vs, 13),
        };
        assert(t.flat()[0] == views(vs@)[0]);
        assert(t.flat()[1] == views(vs@)[1]);
        assert(t.flat()[2] == views(vs@)[2]);
        assert(t.flat()[3] == views(vs@)[3]);
        assert(t.flat()[4] == views(vs@)[4]);
        assert(t.flat()[5] == views(vs@)[5]);
        assert(t.flat()[6] == views(vs@)[6]);
        assert(t.flat()[7] == views(vs@)[7]);
        assert(t.flat()[8] == views(vs@)[8]);
        assert(t.flat()[9] == views(vs@)[9]);
        assert(t.flat()[10] == views(vs@)[10]);
        assert(t.flat()[11] == views(vs@)[11]);
        assert(t.flat()[12] == views(vs@)[12]);
        assert(t.flat()[13] == views(vs@)[13]);
        assert(t.flat() =~= views(vs@));
        Some(t)
    }

    fn encode(&self) -> (j: JsonValue) {
        let vals: Vec<FieldValue> = vec![
            FieldValue::Id(self.id),
            FieldValue::Id(self.from_entity),
            FieldValue::Id(self.to_entity),
            FieldValue::Id(self.rel),
            FieldValue::Ids(crate::record::copy_ids(&self.clause_id)),
            FieldValue::Ids(crate::record::copy_ids(&self.sentence_id)),
            FieldValue::Flag(self.directional),
            FieldValue::Id(self.event_id),
            FieldValue::Id(self.temp_seq),
            FieldValue::Prob(self.prob.clone()),
            FieldValue::Flag(self.syntactic),
            FieldValue::Flag(self.implied),
            FieldValue::Flag(self.presupposed),
            FieldValue::Id(self.count),
        ];
        let ghost gv = vals@;
        assert(views(gv)[0] == self.flat()[0]);
        assert(views(gv)[1] == self.flat()[1]);
        assert(views(gv)[2] == self.flat()[2]);
        assert(views(gv)[3] == self.flat()[3]);
        assert(views(gv)[4] == self.flat()[4]);
        assert(views(gv)[5] == self.flat()[5]);
        assert(views(gv)[6] == self.flat()[6]);
        assert(views(gv)[7] == self.flat()[7]);
        assert(views(gv)[8] == self.flat()[8]);
        assert(views(gv)[9] == self.flat()[9]);
        assert(views(gv)[10] == self.flat()[10]);
        assert(views(gv)[11] == self.flat()[11]);
        assert(views(gv)[12] == self.flat()[12]);
        assert(views(gv)[13] == self.flat()[13]);
        assert(views(gv) =~= self.flat());
        let schema = Self::fields();
        assert(crate::record::writable(schema@[0].kind, vals@[0]));
        assert(crate::record::writable(schema@[1].kind, vals@[1]));
        assert(crate::record::writable(schema@[2].kind, vals@[2]));
        assert(crate::record::writable(schema@[3].kind, vals@[3]));
        assert(crate::record::writable(schema@[4].kind, vals@[4]));
        assert(crate::record::writable(schema@[5].kind, vals@[5]));
        assert(crate::record::writable(schema@[6].kind, vals@[6]));
        assert(crate::record::writable(schema@[7].kind, vals@[7]));
        assert(crate::record::writable(schema@[8].kind, vals@[8]));
        assert(crate::record::writable(schema@[9].kind, vals@[9]));
        assert(crate::record::writable(schema@[10].kind, vals@[10]));
        assert(crate::record::writable(schema@[11].kind, vals@[11]));
        assert(crate::record::writable(schema@[12].kind, vals@[12]));
        assert(crate::record::writable(schema@[13].kind, vals@[13]));
        let o = write_record_of(&schema, vals);
        JsonValue::Object(o)
    }

    proof fn lemma_decodes_flat(j: JsonValue, t: Self) {
    }

    proof fn lemma_round_trip(&self, j: JsonValue) {
        lemma_names_triple();
        let o = j->Object_0;
        assert(j == JsonValue::Object(o));
        assert(crate::record::fits(Self::schema()[0].kind, self.flat()[0]));
        assert(crate::record::fits(Self::schema()[1].kind, self.flat()[1]));
        assert(crate::record::fits(Self::schema()[2].kind, self.flat()[2]));
        assert(crate::record::fits(Self::schema()[3].kind, self.flat()[3]));
        assert(crate::record::fits(Self::schema()[4].kind, self.flat()[4]));
        assert(crate::record::fits(Self::schema()[5].kind, self.flat()[5]));
        assert(crate::record::fits(Self::schema()[6].kind, self.flat()[6]));
        assert(crate::record::fits(Self::schema()[7].kind, self.flat()[7]));
        assert(crate::record::fits(Self::schema()[8].kind, self.flat()[8]));
        assert(crate::record::fits(Self::schema()[9].kind, self.flat()[9]));
        assert(crate::record::fits(Self::schema()[10].kind, self.flat()[10]));
        assert(crate::record::fits(Self::schema()[11].kind, self.flat()[11]));
        assert(crate::record::fits(Self::schema()[12].kind, self.flat()[12]));
        assert(crate::record::fits(Self::schema()[13].kind, self.flat()[13]));
        assert(crate::record::fits_all(Self::schema(), self.flat()));
        lemma_read_written(Self::schema(), self.flat(), o);
    }
}

/// The keys of the field table of `Triple` are distinct.
pub proof fn lemma_names_triple()
    ensures
        distinct_names(Triple::schema()),
{
    reveal_strlit("clauseID");
    reveal_strlit("count");
    reveal_strlit("directional");
    reveal_strlit("eventID");
    reveal_strlit("fromEntity");
    reveal_strlit("id");
    reveal_strlit("implied");
    reveal_strlit("presupposed");
    reveal_strlit("prob");
    reveal_strlit("rel");
    reveal_strlit("sentenceID");
    reveal_strlit("syntactic");
    reveal_strlit("tempSeq");
    reveal_strlit("toEntity");
    let s = Triple::schema();
    assert(s[0].name@ == "id"@);
    assert(s[1].name@ == "fromEntity"@);
    assert(s[2].name@ == "toEntity"@);
    assert(s[3].name@ == "rel"@);
    assert(s[4].name@ == "clauseID"@);
    assert(s[5].name@ == "sentenceID"@);
    assert(s[6].name@ == "directional"@);
    assert(s[7].name@ == "eventID"@);
    assert(s[8].name@ == "tempSeq"@);
    assert(s[9].name@ == "prob"@);
    assert(s[10].name@ == "syntactic"@);
    assert(s[11].name@ == "implied"@);
    assert(s[12].name@ == "presupposed"@);
    assert(s[13].name@ == "count"@);
    assert("clauseID"@.len() == 8);
    assert("count"@.len() == 5);
    assert("directional"@.len() == 11);
    assert("eventID"@.len() == 7);
    assert("fromEntity"@.len() == 10);
    assert("id"@.len() == 2);
    assert("implied"@.len() == 7);
    assert("presupposed"@.len() == 11);
    assert("prob"@.len() == 4);
    assert("rel"@.len() == 3);
    assert("sentenceID"@.len() == 10);
    assert("syntactic"@.len() == 9);
    assert("tempSeq"@.len() == 7);
    assert("toEntity"@.len() == 8);
    assert("fromEntity"@[0] == 'f' && "sentenceID"@[0] == 's');
    assert("toEntity"@[0] == 't' && "clauseID"@[0] == 'c');
    assert("directional"@[0] == 'd' && "presupposed"@[0] == 'p');
    assert("eventID"@[0] == 'e' && "tempSeq"@[0] == 't');
    assert("eventID"@[0] == 'e' && "implied"@[0] == 'i');
    assert("tempSeq"@[0] == 't' && "implied"@[0] == 'i');
}

/// One annotated document: its metadata, id and annotation lists.
pub struct Document {
    pub meta: Meta,
    pub id: u64,
    pub token_list: Vec<Token>,
    pub clauses: Vec<Clause>,
    pub sentences: Vec<Sentence>,
    pub paragraphs: Vec<Paragraph>,
    pub dependency_trees: Vec<DependencyTree>,
    pub coreferences: Vec<Coreference>,
    pub constituents: Vec<ConstituentParse>,
    pub expressions: Vec<Expression>,
    pub entities: Vec<Entity>,
    pub relations: Vec<Relation>,
    pub triples: Vec<Triple>,
}

impl Record for Document {
    open spec fn schema() -> Seq<Field> {
        seq![
            Field { name: "meta", kind: Kind::Object, required: true },
            Field { name: "id", kind: Kind::Id, required: true },
            Field { name: "tokenList", kind: Kind::List, required: false },
            Field { name: "clauses", kind: Kind::List, required: false },
            Field { name: "sentences", kind: Kind::List, required: false },
            Field { name: "paragraphs", kind: Kind::List, required: false },
            Field { name: "dependencyTrees", kind: Kind::List, required: false },
            Field { name: "coreferences", kind: Kind::List, required: false },
            Field { name: "constituents", kind: Kind::List, required: false },
            Field { name: "expressions", kind: Kind::List, required: false },
            Field { name: "entities", kind: Kind::List, required: false },
            Field { name: "relations", kind: Kind::List, required: false },
            Field { name: "triples", kind: Kind::List, required: false },
        ]
    }

    open spec fn flat(&self) -> Seq<FlatVal> {
        seq![
            FlatVal::Nested,
            FlatVal::Id(self.id),
            FlatVal::Nested,
            FlatVal::Nested,
            FlatVal::Nested,
            FlatVal::Nested,
            FlatVal::Nested,
            FlatVal::Nested,
            FlatVal::Nested,
            FlatVal::Nested,
            FlatVal::Nested,
            FlatVal::Nested,
            FlatVal::Nested,
        ]
    }

    open spec fn accepts(j: JsonValue) -> bool {
        &&& read_record(Self::schema(), j) is Some
        &&& Meta::accepts(member(j, "meta"@)->Some_0)
        &&& all_accept::<Token>(items(member(j, "tokenList"@)))
        &&& all_accept::<Clause>(items(member(j, "clauses"@)))
        &&& all_accept::<Sentence>(items(member(j, "sentences"@)))
        &&& all_accept::<Paragraph>(items(member(j, "paragraphs"@)))
        &&& all_accept::<DependencyTree>(items(member(j, "dependencyTrees"@)))
        &&& all_accept::<Coreference>(items(member(j, "coreferences"@)))
        &&& all_accept::<ConstituentParse>(items(member(j, "constituents"@)))
        &&& all_accept::<Expression>(items(member(j, "expressions"@)))
        &&& all_accept::<Entity>(items(member(j, "entities"@)))
        &&& all_accept::<Relation>(items(member(j, "relations"@)))
        &&& all_accept::<Triple>(items(member(j, "triples"@)))
    }

    open spec fn decodes(j: JsonValue, t: Self) -> bool {
        &&& read_record(Self::schema(), j) == Some(t.flat())
        &&& Meta::decodes(member(j, "meta"@)->Some_0, t.meta)
        &&& all_decode::<Token>(items(member(j, "tokenList"@)), t.token_list@)
        &&& all_decode::<Clause>(items(member(j, "clauses"@)), t.clauses@)
        &&& all_decode::<Sentence>(items(member(j, "sentences"@)), t.sentences@)
        &&& all_decode::<Paragraph>(items(member(j, "paragraphs"@)), t.paragraphs@)
        &&& all_decode::<DependencyTree>(items(member(j, "dependencyTrees"@)), t.dependency_trees@)
        &&& all_decode::<Coreference>(items(member(j, "coreferences"@)), t.coreferences@)
        &&& all_decode::<ConstituentParse>(items(member(j, "constituents"@)), t.constituents@)
        &&& all_decode::<Expression>(items(member(j, "expressions"@)), t.expressions@)
        &&& all_decode::<Entity>(items(member(j, "entities"@)), t.entities@)
        &&& all_decode::<Relation>(items(member(j, "relations"@)), t.relations@)
        &&& all_decode::<Triple>(items(member(j, "triples"@)), t.triples@)
    }

    open spec fn encodes(&self, j: JsonValue) -> bool {
        &&& j is Object
        &&& written(Self::schema(), self.flat(), j->Object_0@)
        &&& self.meta.encodes(member(j, "meta"@)->Some_0)
        &&& all_encode(self.token_list@, member(j, "tokenList"@))
        &&& all_encode(self.clauses@, member(j, "clauses"@))
        &&& all_encode(self.sentences@, member(j, "sentences"@))
        &&& all_encode(self.paragraphs@, member(j, "paragraphs"@))
        &&& all_encode(self.dependency_trees@, member(j, "dependencyTrees"@))
        &&& all_encode(self.coreferences@, member(j, "coreferences"@))
        &&& all_encode(self.constituents@, member(j, "constituents"@))
        &&& all_encode(self.expressions@, member(j, "expressions"@))
        &&& all_encode(self.entities@, member(j, "entities"@))
        &&& all_encode(self.relations@, member(j, "relations"@))
        &&& all_encode(self.triples@, member(j, "triples"@))
    }

    open spec fn storable(&self) -> bool {
        &&& storable(Self::schema(), self.flat())
        &&& self.meta.storable()
        &&& all_storable(self.token_list@)
        &&& all_storable(self.clauses@)
        &&& all_storable(self.sentences@)
        &&& all_storable(self.paragraphs@)
        &&& all_storable(self.dependency_trees@)
        &&& all_storable(self.coreferences@)
        &&& all_storable(self.constituents@)
        &&& all_storable(self.expressions@)
        &&& all_storable(self.entities@)
        &&& all_storable(self.relations@)
        &&& all_storable(self.triples@)
    }

    fn fields() -> (r: Vec<Field>) {
        vec![
            Field { name: "meta", kind: Kind::Object, required: true },
            Field { name: "id", kind: Kind::Id, required: true },
            Field { name: "tokenList", kind: Kind::List, required: false },
            Field { name: "clauses", kind: Kind::List, required: false },
            Field { name: "sentences", kind: Kind::List, required: false },
            Field { name: "paragraphs", kind: Kind::List, required: false },
            Field { name: "dependencyTrees", kind: Kind::List, required: false },
            Field { name: "coreferences", kind: Kind::List, required: false },
            Field { name: "constituents", kind: Kind::List, required: false },
            Field { name: "expressions", kind: Kind::List, required: false },
            Field { name: "entities", kind: Kind::List, required: false },
            Field { name: "relations", kind: Kind::List, required: false },
            Field { name: "triples", kind: Kind::List, required: false },
        ]
    }

    fn decode(j: &JsonValue) -> (r: Option<Self>) {
        let schema = Self::fields();
        let vs = match read_record_of(&schema, j) {
            Some(vs) => vs,
            None => return None,
        };
        let o = match j {
            JsonValue::Object(o) => o,
            _ => return None,
        };
        proof {
            assert(crate::record::read_field(schema@[0], o@) is Some);
        }
        let meta = match find_member(o, "meta") {
            Some(c) => match Meta::decode(c) {
                Some(x) => x,
                None => return None,
            },
            None => return None,
        };
        proof {
            assert(crate::record::read_field(schema@[2], o@) is Some);
        }
        let token_list = match decode_list::<Token>(find_member(o, "tokenList")) {
            Some(x) => x,
            None => return None,
        };
        proof {
            assert(crate::record::read_field(schema@[3], o@) is Some);
        }
        let clauses = match decode_list::<Clause>(find_member(o, "clauses")) {
            Some(x) => x,
            None => return None,
        };
        proof {
            assert(crate::record::read_field(schema@[4], o@) is Some);
        }
        let sentences = match decode_list::<Sentence>(find_member(o, "sentences")) {
            Some(x) => x,
            None => return None,
        };
        proof {
            assert(crate::record::read_field(schema@[5], o@) is Some);
        }
        let paragraphs = match decode_list::<Paragraph>(find_member(o, "paragraphs")) {
            Some(x) => x,
            None => return None,
        };
        proof {
            assert(crate::record::read_field(schema@[6], o@) is Some);
        }
        let dependency_trees = match decode_list::<DependencyTree>(find_member(o, "dependencyTrees")) {
            Some(x) => x,
            None => return None,
        };
        proof {
            assert(crate::record::read_field(schema@[7], o@) is Some);
        }
        let coreferences = match decode_list::<Coreference>(find_member(o, "coreferences")) {
            Some(x) => x,
            None => return None,
        };
        proof {
            assert(crate::record::read_field(schema@[8], o@) is Some);
        }
        let constituents = match decode_list::<ConstituentParse>(find_member(o, "constituents")) {
            Some(x) => x,
            None => return None,
        };
        proof {
            assert(crate::record::read_field(schema@[9], o@) is Some);
        }
        let expressions = match decode_list::<Expression>(find_member(o, "expressions")) {
            Some(x) => x,
            None => return None,
        };
        proof {
            assert(crate::record::read_field(schema@[10], o@) is Some);
        }
        let entities = match decode_list::<Entity>(find_member(o, "entities")) {
            Some(x) => x,
            None => return None,
        };
        proof {
            assert(crate::record::read_field(schema@[11], o@) is Some);
        }
        let relations = match decode_list::<Relation>(find_member(o, "relations")) {
            Some(x) => x,
            None => return None,
        };
        proof {
            assert(crate::record::read_field(schema@[12], o@) is Some);
        }
        let triples = match decode_list::<Triple>(find_member(o, "triples")) {
            Some(x) => x,
            None => return None,
        };
        let t = Document {
            meta,
            id: id_at(&vs, 1),
            token_list,
            clauses,
            sentences,
            paragraphs,
            dependency_trees,
            coreferences,
            constituents,
            expressions,
            entities,
            relations,
            triples,
        };
        assert(t.flat()[0] == views(vs@)[0]);
        assert(t.flat()[1] == views(vs@)[1]);
        assert(t.flat()[2] == views(vs@)[2]);
        assert(t.flat()[3] == views(vs@)[3]);
        assert(t.flat()[4] == views(vs@)[4]);
        assert(t.flat()[5] == views(vs@)[5]);
        assert(t.flat()[6] == views(vs@)[6]);
        assert(t.flat()[7] == views(vs@)[7]);
        assert(t.flat()[8] == views(vs@)[8]);
        assert(t.flat()[9] == views(vs@)[9]);
        assert(t.flat()[10] == views(vs@)[10]);
        assert(t.flat()[11] == views(vs@)[11]);
        assert(t.flat()[12] == views(vs@)[12]);
        assert(t.flat() =~= views(vs@));
        Some(t)
    }

    fn encode(&self) -> (j: JsonValue) {
        let vals: Vec<FieldValue> = vec![
            FieldValue::Node(self.meta.encode()),
            FieldValue::Id(self.id),
            FieldValue::Node(encode_list(&self.token_list)),
            FieldValue::Node(encode_list(&self.clauses)),
            FieldValue::Node(encode_list(&self.sentences)),
            FieldValue::Node(encode_list(&self.paragraphs)),
            FieldValue::Node(encode_list(&self.dependency_trees)),
            FieldValue::Node(encode_list(&self.coreferences)),
            FieldValue::Node(encode_list(&self.constituents)),
            FieldValue::Node(encode_list(&self.expressions)),
            FieldValue::Node(encode_list(&self.entities)),
            FieldValue::Node(encode_list(&self.relations)),
            FieldValue::Node(encode_list(&self.triples)),
        ];
        let ghost gv = vals@;
        assert(views(gv)[0] == self.flat()[0]);
        assert(views(gv)[1] == self.flat()[1]);
        assert(views(gv)[2] == self.flat()[2]);
        assert(views(gv)[3] == self.flat()[3]);
        assert(views(gv)[4] == self.flat()[4]);
        assert(views(gv)[5] == self.flat()[5]);
        assert(views(gv)[6] == self.flat()[6]);
        assert(views(gv)[7] == self.flat()[7]);
        assert(views(gv)[8] == self.flat()[8]);
        assert(views(gv)[9] == self.flat()[9]);
        assert(views(gv)[10] == self.flat()[10]);
        assert(views(gv)[11] == self.flat()[11]);
        assert(views(gv)[12] == self.flat()[12]);
        assert(views(gv) =~= self.flat());
        let schema = Self::fields();
        assert(crate::record::writable(schema@[0].kind, vals@[0]));
        assert(crate::record::writable(schema@[1].kind, vals@[1]));
        assert(crate::record::writable(schema@[2].kind, vals@[2]));
        assert(crate::record::writable(schema@[3].kind, vals@[3]));
        assert(crate::record::writable(schema@[4].kind, vals@[4]));
        assert(crate::record::writable(schema@[5].kind, vals@[5]));
        assert(crate::record::writable(schema@[6].kind, vals@[6]));
        assert(crate::record::writable(schema@[7].kind, vals@[7]));
        assert(crate::record::writable(schema@[8].kind, vals@[8]));
        assert(crate::record::writable(schema@[9].kind, vals@[9]));
        assert(crate::record::writable(schema@[10].kind, vals@[10]));
        assert(crate::record::writable(schema@[11].kind, vals@[11]));
        assert(crate::record::writable(schema@[12].kind, vals@[12]));
        let o = write_record_of(&schema, vals);
        proof {
            lemma_names_document();
            lemma_written_lookup(Self::schema(), self.flat(), o@, 0);
            let k0 = choose|k: int| 0 <= k < o@.len() && kept(self.flat())[k] == 0 && lookup(o@, "meta"@) == Some(#[trigger] o@[k].1);
            assert(gv[kept(views(gv))[k0]] is Node);
            lemma_written_lookup(Self::schema(), self.flat(), o@, 2);
            let k2 = choose|k: int| 0 <= k < o@.len() && kept(self.flat())[k] == 2 && lookup(o@, "tokenList"@) == Some(#[trigger] o@[k].1);
            assert(gv[kept(views(gv))[k2]] is Node);
            lemma_written_lookup(Self::schema(), self.flat(), o@, 3);
            let k3 = choose|k: int| 0 <= k < o@.len() && kept(self.flat())[k] == 3 && lookup(o@, "clauses"@) == Some(#[trigger] o@[k].1);
            assert(gv[kept(views(gv))[k3]] is Node);
            lemma_written_lookup(Self::schema(), self.flat(), o@, 4);
            let k4 = choose|k: int| 0 <= k < o@.len() && kept(self.flat())[k] == 4 && lookup(o@, "sentences"@) == Some(#[trigger] o@[k].1);
            assert(gv[kept(views(gv))[k4]] is Node);
            lemma_written_lookup(Self::schema(), self.flat(), o@, 5);
            let k5 = choose|k: int| 0 <= k < o@.len() && kept(self.flat())[k] == 5 && lookup(o@, "paragraphs"@) == Some(#[trigger] o@[k].1);
            assert(gv[kept(views(gv))[k5]] is Node);
            lemma_written_lookup(Self::schema(), self.flat(), o@, 6);
            let k6 = choose|k: int| 0 <= k < o@.len() && kept(self.flat())[k] == 6 && lookup(o@, "dependencyTrees"@) == Some(#[trigger] o@[k].1);
            assert(gv[kept(views(gv))[k6]] is Node);
            lemma_written_lookup(Self::schema(), self.flat(), o@, 7);
            let k7 = choose|k: int| 0 <= k < o@.len() && kept(self.flat())[k] == 7 && lookup(o@, "coreferences"@) == Some(#[trigger] o@[k].1);
            assert(gv[kept(views(gv))[k7]] is Node);
            lemma_written_lookup(Self::schema(), self.flat(), o@, 8);
            let k8 = choose|k: int| 0 <= k < o@.len() && kept(self.flat())[k] == 8 && lookup(o@, "constituents"@) == Some(#[trigger] o@[k].1);
            assert(gv[kept(views(gv))[k8]] is Node);
            lemma_written_lookup(Self::schema(), self.flat(), o@, 9);
            let k9 = choose|k: int| 0 <= k < o@.len() && kept(self.flat())[k] == 9 && lookup(o@, "expressions"@) == Some(#[trigger] o@[k].1);
            assert(gv[kept(views(gv))[k9]] is Node);
            lemma_written_lookup(Self::schema(), self.flat(), o@, 10);
            let k10 = choose|k: int| 0 <= k < o@.len() && kept(self.flat())[k] == 10 && lookup(o@, "entities"@) == Some(#[trigger] o@[k].1);
            assert(gv[kept(views(gv))[k10]] is Node);
            lemma_written_lookup(Self::schema(), self.flat(), o@, 11);
            let k11 = choose|k: int| 0 <= k < o@.len() && kept(self.flat())[k] == 11 && lookup(o@, "relations"@) == Some(#[trigger] o@[k].1);
            assert(gv[kept(views(gv))[k11]] is Node);
            lemma_written_lookup(Self::schema(), self.flat(), o@, 12);
            let k12 = choose|k: int| 0 <= k < o@.len() && kept(self.flat())[k] == 12 && lookup(o@, "triples"@) == Some(#[trigger] o@[k].1);
            assert(gv[kept(views(gv))[k12]] is Node);
        }
        JsonValue::Object(o)
    }

    proof fn lemma_decodes_flat(j: JsonValue, t: Self) {
    }

    proof fn lemma_round_trip(&self, j: JsonValue) {
        lemma_names_document();
        let o = j->Object_0;
        assert(j == JsonValue::Object(o));
        assert(crate::record::fits(Self::schema()[0].kind, self.flat()[0]));
        assert(crate::record::fits(Self::schema()[1].kind, self.flat()[1]));
        assert(crate::record::fits(Self::schema()[2].kind, self.flat()[2]));
        assert(crate::record::fits(Self::schema()[3].kind, self.flat()[3]));
        assert(crate::record::fits(Self::schema()[4].kind, self.flat()[4]));
        assert(crate::record::fits(Self::schema()[5].kind, self.flat()[5]));
        assert(crate::record::fits(Self::schema()[6].kind, self.flat()[6]));
        assert(crate::record::fits(Self::schema()[7].kind, self.flat()[7]));
        assert(crate::record::fits(Self::schema()[8].kind, self.flat()[8]));
        assert(crate::record::fits(Self::schema()[9].kind, self.flat()[9]));
        assert(crate::record::fits(Self::schema()[10].kind, self.flat()[10]));
        assert(crate::record::fits(Self::schema()[11].kind, self.flat()[11]));
        assert(crate::record::fits(Self::schema()[12].kind, self.flat()[12]));
        assert(crate::record::fits_all(Self::schema(), self.flat()));
        lemma_read_written(Self::schema(), self.flat(), o);
        self.meta.lemma_round_trip(member(j, "meta"@)->Some_0);
        lemma_list_round_trip(self.token_list@, member(j, "tokenList"@));
        lemma_list_round_trip(self.clauses@, member(j, "clauses"@));
        lemma_list_round_trip(self.sentences@, member(j, "sentences"@));
        lemma_list_round_trip(self.paragraphs@, member(j, "paragraphs"@));
        lemma_list_round_trip(self.dependency_trees@, member(j, "dependencyTrees"@));
        lemma_list_round_trip(self.coreferences@, member(j, "coreferences"@));
        lemma_list_round_trip(self.constituents@, member(j, "constituents"@));
        lemma_list_round_trip(self.expressions@, member(j, "expressions"@));
        lemma_list_round_trip(self.entities@, member(j, "entities"@));
        lemma_list_round_trip(self.relations@, member(j, "relations"@));
        lemma_list_round_trip(self.triples@, member(j, "triples"@));
    }
}

/// The keys of the field table of `Document` are distinct.
pub proof fn lemma_names_document()
    ensures
        distinct_names(Document::schema()),
{
    reveal_strlit("clauses");
    reveal_strlit("constituents");
    reveal_strlit("coreferences");
    reveal_strlit("dependencyTrees");
    reveal_strlit("entities");
    reveal_strlit("expressions");
    reveal_strlit("id");
    reveal_strlit("meta");
    reveal_strlit("paragraphs");
    reveal_strlit("relations");
    reveal_strlit("sentences");
    reveal_strlit("tokenList");
    reveal_strlit("triples");
    let s = Document::schema();
    assert(s[0].name@ == "meta"@);
    assert(s[1].name@ == "id"@);
    assert(s[2].name@ == "tokenList"@);
    assert(s[3].name@ == "clauses"@);
    assert(s[4].name@ == "sentences"@);
    assert(s[5].name@ == "paragraphs"@);
    assert(s[6].name@ == "dependencyTrees"@);
    assert(s[7].name@ == "coreferences"@);
    assert(s[8].name@ == "constituents"@);
    assert(s[9].name@ == "expressions"@);
    assert(s[10].name@ == "entities"@);
    assert(s[11].name@ == "relations"@);
    assert(s[12].name@ == "triples"@);
    assert("clauses"@.len() == 7);
    assert("constituents"@.len() == 12);
    assert("coreferences"@.len() == 12);
    assert("dependencyTrees"@.len() == 15);
    assert("entities"@.len() == 8);
    assert("expressions"@.len() == 11);
    assert("id"@.len() == 2);
    assert("meta"@.len() == 4);
    assert("paragraphs"@.len() == 10);
    assert("relations"@.len() == 9);
    assert("sentences"@.len() == 9);
    assert("tokenList"@.len() == 9);
    assert("triples"@.len() == 7);
    assert("tokenList"@[0] == 't' && "sentences"@[0] == 's');
    assert("tokenList"@[0] == 't' && "relations"@[0] == 'r');
    assert("clauses"@[0] == 'c' && "triples"@[0] == 't');
    assert("sentences"@[0] == 's' && "relations"@[0] == 'r');
    assert("coreferences"@[2] == 'r' && "constituents"@[2] == 'n');
}

/// A JSON-NLP collection: shared metadata and a list of documents.
pub struct JSONNLP {
    pub meta: Meta,
    pub docs: Vec<Document>,
}

impl Record for JSONNLP {
    open spec fn schema() -> Seq<Field> {
        seq![
            Field { name: "meta", kind: Kind::Object, required: true },
            Field { name: "docs", kind: Kind::List, required: false },
        ]
    }

    open spec fn flat(&self) -> Seq<FlatVal> {
        seq![
            FlatVal::Nested,
            FlatVal::Nested,
        ]
    }

    open spec fn accepts(j: JsonValue) -> bool {
        &&& read_record(Self::schema(), j) is Some
        &&& Meta::accepts(member(j, "meta"@)->Some_0)
        &&& all_accept::<Document>(items(member(j, "docs"@)))
    }

    open spec fn decodes(j: JsonValue, t: Self) -> bool {
        &&& read_record(Self::schema(), j) == Some(t.flat())
        &&& Meta::decodes(member(j, "meta"@)->Some_0, t.meta)
        &&& all_decode::<Document>(items(member(j, "docs"@)), t.docs@)
    }

    open spec fn encodes(&self, j: JsonValue) -> bool {
        &&& j is Object
        &&& written(Self::schema(), self.flat(), j->Object_0@)
        &&& self.meta.encodes(member(j, "meta"@)->Some_0)
        &&& all_encode(self.docs@, member(j, "docs"@))
    }

    open spec fn storable(&self) -> bool {
        &&& storable(Self::schema(), self.flat())
        &&& self.meta.storable()
        &&& all_storable(self.docs@)
    }

    fn fields() -> (r: Vec<Field>) {
        vec![
            Field { name: "meta", kind: Kind::Object, required: true },
            Field { name: "docs", kind: Kind::List, required: false },
        ]
    }

    fn decode(j: &JsonValue) -> (r: Option<Self>) {
        let schema = Self::fields();
        let vs = match read_record_of(&schema, j) {
            Some(vs) => vs,
            None => return None,
        };
        let o = match j {
            JsonValue::Object(o) => o,
            _ => return None,
        };
        proof {
            assert(crate::record::read_field(schema@[0], o@) is Some);
        }
        let meta = match find_member(o, "meta") {
            Some(c) => match Meta::decode(c) {
                Some(x) => x,
                None => return None,
            },
            None => return None,
        };
        proof {
            assert(crate::record::read_field(schema@[1], o@) is Some);
        }
        let docs = match decode_list::<Document>(find_member(o, "docs")) {
            Some(x) => x,
            None => return None,
        };
        let t = JSONNLP {
            meta,
            docs,
        };
        assert(t.flat()[0] == views(vs@)[0]);
        assert(t.flat()[1] == views(vs@)[1]);
        assert(t.flat() =~= views(vs@));
        Some(t)
    }

    fn encode(&self) -> (j: JsonValue) {
        let vals: Vec<FieldValue> = vec![
            FieldValue::Node(self.meta.encode()),
            FieldValue::Node(encode_list(&self.docs)),
        ];
        let ghost gv = vals@;
        assert(views(gv)[0] == self.flat()[0]);
        assert(views(gv)[1] == self.flat()[1]);
        assert(views(gv) =~= self.flat());
        let schema = Self::fields();
        assert(crate::record::writable(schema@[0].kind, vals@[0]));
        assert(crate::record::writable(schema@[1].kind, vals@[1]));
        let o = write_record_of(&schema, vals);
        proof {
            lemma_names_jsonnlp();
            lemma_written_lookup(Self::schema(), self.flat(), o@, 0);
            let k0 = choose|k: int| 0 <= k < o@.len() && kept(self.flat())[k] == 0 && lookup(o@, "meta"@) == Some(#[trigger] o@[k].1);
            assert(gv[kept(views(gv))[k0]] is Node);
            lemma_written_lookup(Self::schema(), self.flat(), o@, 1);
            let k1 = choose|k: int| 0 <= k < o@.len() && kept(self.flat())[k] == 1 && lookup(o@, "docs"@) == Some(#[trigger] o@[k].1);
            assert(gv[kept(views(gv))[k1]] is Node);
        }
        JsonValue::Object(o)
    }

    proof fn lemma_decodes_flat(j: JsonValue, t: Self) {
    }

    proof fn lemma_round_trip(&self, j: JsonValue) {
        lemma_names_jsonnlp();
        let o = j->Object_0;
        assert(j == JsonValue::Object(o));
        assert(crate::record::fits(Self::schema()[0].kind, self.flat()[0]));
        assert(crate::record::fits(Self::schema()[1].kind, self.flat()[1]));
        assert(crate::record::fits_all(Self::schema(), self.flat()));
        lemma_read_written(Self::schema(), self.flat(), o);
        self.meta.lemma_round_trip(member(j, "meta"@)->Some_0);
        lemma_list_round_trip(self.docs@, member(j, "docs"@));
    }
}

/// The keys of the field table of `JSONNLP` are distinct.
pub proof fn lemma_names_jsonnlp()
    ensures
        distinct_names(JSONNLP::schema()),
{
    reveal_strlit("docs");
    reveal_strlit("meta");
    let s = JSONNLP::schema();
    assert(s[0].name@ == "meta"@);
    assert(s[1].name@ == "docs"@);
    assert("docs"@.len() == 4);
    assert("meta"@.len() == 4);
    assert("meta"@[0] == 'm' && "docs"@[0] == 'd');
}

} // verus!
