use jsonnlp::codec::{from_string, get_json, CodecError};
use jsonnlp::model::{
    Attribute, Document, Entity, Meta, Token, TokenFeatures, JSONNLP, Dependency, DependencyTree,
};
use serde_json::Number;

fn num(x: f64) -> Number {
    Number::from_f64(x).unwrap()
}

fn empty_meta() -> Meta {
    Meta {
        conforms_to: String::new(),
        author: String::new(),
        created: String::new(),
        date: String::new(),
        source: String::new(),
        language: String::new(),
        creator: String::new(),
        publisher: String::new(),
        title: String::new(),
        description: String::new(),
        identifier: String::new(),
    }
}

fn plain_features() -> TokenFeatures {
    TokenFeatures {
        overt: false,
        stop: false,
        alpha: false,
        number: 0,
        gender: String::new(),
        person: 0,
        tense: String::new(),
        perfect: false,
        continuous: false,
        progressive: false,
        case: String::new(),
        human: false,
        animate: false,
        negated: false,
        countable: false,
        factive: false,
        counterfactive: false,
        irregular: false,
        phrasalverb: false,
        mood: String::new(),
        foreign: false,
        spaceafter: false,
    }
}

fn plain_token(id: u64, text: &str, lemma: &str) -> Token {
    Token {
        id,
        sentence_id: 1,
        text: text.to_string(),
        lemma: lemma.to_string(),
        xpos: String::new(),
        xpos_prob: num(0.0),
        upos: String::new(),
        upos_prob: num(0.0),
        entity_iob: String::new(),
        char_offset_begin: 0,
        char_offset_end: 0,
        prop_id: String::new(),
        prop_id_prob: num(0.0),
        frame_id: 0,
        frame_id_prob: num(0.0),
        wordnet_id: 0,
        wordnet_id_prob: num(0.0),
        verbnet_id: 0,
        verbnet_id_prob: num(0.0),
        lang: String::new(),
        features: plain_features(),
        shape: String::new(),
        entity: String::new(),
    }
}

fn document(id: u64, tokens: Vec<Token>) -> Document {
    Document {
        meta: empty_meta(),
        id,
        token_list: tokens,
        clauses: Vec::new(),
        sentences: Vec::new(),
        paragraphs: Vec::new(),
        dependency_trees: Vec::new(),
        coreferences: Vec::new(),
        constituents: Vec::new(),
        expressions: Vec::new(),
        entities: Vec::new(),
        relations: Vec::new(),
        triples: Vec::new(),
    }
}

fn collection(docs: Vec<Document>) -> JSONNLP {
    JSONNLP { meta: empty_meta(), docs }
}

#[test]
fn end_to_end_single_token() {
    let input = r#"{"meta":{},"docs":[{"meta":{},"id":1,"tokenList":[{"id":1,"sentence_id":1,"text":"Hi","lemma":"hi","features":{}}]}]}"#;
    let m = from_string(input).unwrap();
    assert_eq!(m.docs.len(), 1);
    assert_eq!(m.docs[0].token_list.len(), 1);
    let t = &m.docs[0].token_list[0];
    assert_eq!(t.text, "Hi");
    assert_eq!(t.lemma, "hi");
    assert_eq!(t.xpos_prob.as_f64(), Some(0.0));
    assert_eq!(t.xpos, "");
    let out = get_json(&m).unwrap();
    assert!(!out.contains("\"xpos\""));
    assert!(out.contains("\"text\":\"Hi\""));
}

#[test]
fn meta_author_uses_dublin_core_key() {
    let mut meta = empty_meta();
    meta.author = "X".to_string();
    let m = JSONNLP { meta, docs: Vec::new() };
    let out = get_json(&m).unwrap();
    assert_eq!(out, r#"{"meta":{"DC.author":"X"},"docs":[]}"#);
}

#[test]
fn token_prop_probability_key() {
    let mut t = plain_token(1, "a", "a");
    t.prop_id_prob = num(0.5);
    let out = get_json(&collection(vec![document(1, vec![t])])).unwrap();
    assert!(out.contains("\"propIDProbability\":0.5"));
}

#[test]
fn empty_document_renders_every_list_in_order() {
    let out = get_json(&collection(vec![document(7, Vec::new())])).unwrap();
    assert_eq!(
        out,
        r#"{"meta":{},"docs":[{"meta":{},"id":7,"tokenList":[],"clauses":[],"sentences":[],"paragraphs":[],"dependencyTrees":[],"coreferences":[],"constituents":[],"expressions":[],"entities":[],"relations":[],"triples":[]}]}"#
    );
}

#[test]
fn zero_and_false_values_are_written() {
    let out = get_json(&collection(vec![document(1, vec![plain_token(3, "x", "y")])])).unwrap();
    assert!(out.contains("\"characterOffsetBegin\":0"));
    assert!(out.contains("\"frameID\":0"));
    assert!(out.contains("\"xpos_prob\":0.0"));
    assert!(out.contains("\"overt\":false"));
    assert!(out.contains("\"phrasalVerb\":false"));
    assert!(out.contains("\"features\":{"));
    assert!(!out.contains("\"upos\""));
    assert!(!out.contains("\"gender\""));
}

#[test]
fn round_trip_keeps_every_field() {
    let mut t = plain_token(2, "cats", "cat");
    t.xpos = "NNS".to_string();
    t.xpos_prob = num(0.25);
    t.frame_id = 44;
    t.features.number = 2;
    t.features.stop = true;
    t.features.tense = "past".to_string();
    let mut d = document(5, vec![t]);
    d.meta.title = "T".to_string();
    d.dependency_trees.push(DependencyTree {
        sentence_id: 1,
        style: "ud".to_string(),
        dependencies: vec![Dependency { lab: "nsubj".to_string(), gov: 2, dep: 1, prob: num(0.75) }],
        prob: num(1.0),
    });
    d.entities.push(Entity {
        id: 9,
        label: "Cat".to_string(),
        etype: "ANIMAL".to_string(),
        url: String::new(),
        head: 2,
        token_from: 2,
        token_to: 2,
        tokens: vec![2],
        triple_id: 0,
        sentiment: String::new(),
        sentiment_prob: num(0.0),
        count: 1,
        attributes: vec![Attribute { lab: "k".to_string(), val: "v".to_string() }],
    });
    let m = collection(vec![d]);
    let text = get_json(&m).unwrap();
    let back = from_string(&text).unwrap();
    assert_eq!(get_json(&back).unwrap(), text);
    let d2 = &back.docs[0];
    assert_eq!(d2.id, 5);
    assert_eq!(d2.meta.title, "T");
    assert_eq!(d2.token_list[0].xpos, "NNS");
    assert_eq!(d2.token_list[0].xpos_prob.as_f64(), Some(0.25));
    assert_eq!(d2.token_list[0].frame_id, 44);
    assert_eq!(d2.token_list[0].features.number, 2);
    assert!(d2.token_list[0].features.stop);
    assert_eq!(d2.token_list[0].features.tense, "past");
    assert_eq!(d2.dependency_trees[0].dependencies[0].lab, "nsubj");
    assert_eq!(d2.entities[0].attributes[0].val, "v");
    assert_eq!(d2.entities[0].tokens, vec![2]);
}

#[test]
fn missing_optional_fields_take_zero_values() {
    let input = r#"{"meta":{},"docs":[{"meta":{},"id":1,"tokenList":[{"id":4,"sentence_id":2,"text":"a","lemma":"b","features":{}}],"sentences":[{"id":1}]}]}"#;
    let m = from_string(input).unwrap();
    let t = &m.docs[0].token_list[0];
    assert_eq!(t.upos, "");
    assert_eq!(t.char_offset_end, 0);
    assert_eq!(t.verbnet_id_prob.as_f64(), Some(0.0));
    assert!(!t.features.negated);
    assert_eq!(t.features.person, 0);
    let s = &m.docs[0].sentences[0];
    assert!(s.tokens.is_empty());
    assert_eq!(s.token_to, 0);
    assert!(m.docs[0].triples.is_empty());
    assert_eq!(m.meta.title, "");
}

#[test]
fn token_without_text_is_malformed() {
    let input = r#"{"meta":{},"docs":[{"meta":{},"id":1,"tokenList":[{"id":1,"sentence_id":1,"lemma":"hi","features":{}}]}]}"#;
    assert_eq!(from_string(input).err(), Some(CodecError::MalformedInput));
}

#[test]
fn token_without_id_is_malformed() {
    let input = r#"{"meta":{},"docs":[{"meta":{},"id":1,"tokenList":[{"sentence_id":1,"text":"a","lemma":"hi","features":{}}]}]}"#;
    assert_eq!(from_string(input).err(), Some(CodecError::MalformedInput));
}

#[test]
fn token_without_lemma_is_malformed() {
    let input = r#"{"meta":{},"docs":[{"meta":{},"id":1,"tokenList":[{"id":1,"sentence_id":1,"text":"a","features":{}}]}]}"#;
    assert_eq!(from_string(input).err(), Some(CodecError::MalformedInput));
}

#[test]
fn dependency_without_governor_is_malformed() {
    let input = r#"{"meta":{},"docs":[{"meta":{},"id":1,"dependencyTrees":[{"dependencies":[{"lab":"x","dep":1}]}]}]}"#;
    assert_eq!(from_string(input).err(), Some(CodecError::MalformedInput));
}

#[test]
fn invalid_json_text_is_malformed() {
    assert_eq!(from_string("{\"meta\":").err(), Some(CodecError::MalformedInput));
    assert_eq!(from_string("").err(), Some(CodecError::MalformedInput));
}

#[test]
fn type_mismatch_is_malformed() {
    let input = r#"{"meta":{},"docs":[{"meta":{},"id":"1"}]}"#;
    assert_eq!(from_string(input).err(), Some(CodecError::MalformedInput));
    let input = r#"{"meta":{"DC.author":3},"docs":[]}"#;
    assert_eq!(from_string(input).err(), Some(CodecError::MalformedInput));
}

#[test]
fn small_integer_out_of_range_is_malformed() {
    let input = r#"{"meta":{},"docs":[{"meta":{},"id":1,"tokenList":[{"id":1,"sentence_id":1,"text":"a","lemma":"a","features":{"number":256}}]}]}"#;
    assert_eq!(from_string(input).err(), Some(CodecError::MalformedInput));
}

#[test]
fn missing_top_level_meta_is_malformed() {
    assert_eq!(from_string(r#"{"docs":[]}"#).err(), Some(CodecError::MalformedInput));
}

#[test]
fn integer_probability_reads_as_float() {
    let input = r#"{"meta":{},"docs":[{"meta":{},"id":1,"dependencyTrees":[{"prob":1}]}]}"#;
    let m = from_string(input).unwrap();
    assert_eq!(m.docs[0].dependency_trees[0].prob.as_f64(), Some(1.0));
    assert!(get_json(&m).unwrap().contains("\"prob\":1.0"));
}

#[test]
fn unknown_members_are_ignored() {
    let input = r#"{"meta":{"extra":[1,2]},"docs":[],"other":{"a":null}}"#;
    let m = from_string(input).unwrap();
    assert!(m.docs.is_empty());
    assert_eq!(get_json(&m).unwrap(), r#"{"meta":{},"docs":[]}"#);
}

#[test]
fn missing_docs_is_an_empty_list() {
    let m = from_string(r#"{"meta":{"DC.title":"t"}}"#).unwrap();
    assert!(m.docs.is_empty());
    assert_eq!(m.meta.title, "t");
}

#[test]
fn empty_required_text_is_left_out_and_lemma_kept() {
    let input = r#"{"meta":{},"docs":[{"meta":{},"id":1,"tokenList":[{"id":1,"sentence_id":1,"text":"","lemma":"hi","features":{}}]}]}"#;
    let m = from_string(input).unwrap();
    let out = get_json(&m).unwrap();
    assert!(!out.contains("\"text\""));
    assert!(out.contains("\"lemma\":\"hi\""));
}

#[test]
fn triple_with_defaults_renders_every_member() {
    let m = from_string(r#"{"meta":{},"docs":[{"meta":{},"id":1,"triples":[{"id":3}]}]}"#).unwrap();
    let out = get_json(&m).unwrap();
    assert!(out.contains(r#""triples":[{"id":3,"fromEntity":0,"toEntity":0,"rel":0,"clauseID":[],"sentenceID":[],"directional":false,"eventID":0,"tempSeq":0,"prob":0.0,"syntactic":false,"implied":false,"presupposed":false,"count":0}]"#));
}

#[test]
fn rendering_a_reparsed_model_gives_the_same_text() {
    let input = r#"{"meta":{"DC.title":"t"},"docs":[{"meta":{},"id":2,"tokenList":[{"id":1,"sentence_id":1,"text":"a","lemma":"a","upos":"X","upos_prob":0.5,"features":{"gender":"f"}}],"paragraphs":[{"id":1,"tokens":[1]}]}]}"#;
    let first = get_json(&from_string(input).unwrap()).unwrap();
    let second = get_json(&from_string(&first).unwrap()).unwrap();
    assert_eq!(first, second);
}
