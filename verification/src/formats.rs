//! The file formats the library reads and writes: safetensors shard headers
//! and shards, the JSON of `config.json`, of the weight-map index and of
//! `decision-select.json`, and canonical JSON for binding digests. The
//! parsing and printing are `serde_json`'s and `safetensors`'s; what is read
//! out of them, and what is refused, is verified here.

use vstd::prelude::*;
use serde_json::Value;
use crate::export_repair::{header_len, le_value, sv, ConfigFacts, MAX_HEADER_LEN};
use crate::decisions::{
    binding_digest, binding_material, hint_from_fields, ov, select_hint_from_fields, JsonField,
    SelectHint,
};
use crate::digest::sha256;
use crate::feed::RedactionRead;
use vstd::utf8::encode_utf8;
use crate::weight_index::{index_shard_names, WeightEntry};
use crate::text::{
    chars_of, decimal, equals_str, equals_vec, extend_str, hex_lower, lemma_is_sorted_set,
    lemma_lex_total, lemma_lex_transitive, lemma_sorted_same_set_equal, lex_lt, push_decimal, sorted_set, sorted_unique, strictly_sorted, string_of, views,
};

verus! {

// ---------------------------------------------------------------- headers

/// One tensor of a shard header, as `safetensors::tensor::TensorInfo`
/// holds it: the dtype's name, the shape, and the data offsets.
#[derive(Clone, Debug, PartialEq, Eq)]
pub struct HeaderTensor {
    pub dtype: String,
    pub shape: Vec<usize>,
    pub start: usize,
    pub end: usize,
}

pub type TensorV = (Seq<char>, Seq<usize>, usize, usize);

pub open spec fn tensor_view(t: HeaderTensor) -> TensorV {
    (t.dtype@, t.shape@, t.start, t.end)
}

/// A shard header's JSON as the parser left it: not JSON (with the
/// parser's message), not an object, or each key with its value read as a
/// tensor description (or the reason it is not one), in key order.
#[derive(Clone, Debug, PartialEq, Eq)]
pub enum HeaderJson {
    NotJson(String),
    NotObject,
    Entries(Vec<(String, Result<HeaderTensor, String>)>),
}

pub type HeaderV = Result<Seq<(Seq<char>, Result<TensorV, Seq<char>>)>, Option<Seq<char>>>;

pub open spec fn header_view(h: HeaderJson) -> HeaderV {
    match h {
        HeaderJson::NotJson(m) => Err(Some(m@)),
        HeaderJson::NotObject => Err(None),
        HeaderJson::Entries(es) => Ok(
            es@.map_values(
                |e: (String, Result<HeaderTensor, String>)|
                    (
                        e.0@,
                        match e.1 {
                            Ok(t) => Ok(tensor_view(t)),
                            Err(m) => Err(m@),
                        },
                    ),
            ),
        ),
    }
}

/// What `serde_json` makes of a shard header's bytes, each value read as a
/// `safetensors` `TensorInfo`.
pub uninterp spec fn safetensors_header(bytes: Seq<u8>) -> HeaderV;

/// `serde_json::from_slice` of a header into a JSON value, then
/// `serde_json::from_value` of each member into `TensorInfo`. The contract
/// claims only that the outcome is a function of the bytes, named
/// `safetensors_header`; the dtype is carried by its variant name.
#[verifier::external_body]
fn parse_header_json(bytes: &Vec<u8>) -> (r: HeaderJson)
    ensures
        header_view(r) == safetensors_header(bytes@),
{
    let value: serde_json::Value = match serde_json::from_slice(bytes) {
        Ok(v) => v,
        Err(err) => return HeaderJson::NotJson(err.to_string()),
    };
    let Some(obj) = value.as_object() else { return HeaderJson::NotObject };
    HeaderJson::Entries(obj.iter().map(|(name, info)| {
        let t = serde_json::from_value::<safetensors::tensor::TensorInfo>(info.clone());
        (name.clone(), t.map(|t| HeaderTensor { dtype: format!("{:?}", t.dtype), shape: t.shape,
            start: t.data_offsets.0, end: t.data_offsets.1 }).map_err(|e| e.to_string()))
    }).collect())
}

/// The tensors of the parsed entries, skipping `__metadata__`, or the first
/// entry that is not a tensor description.
pub open spec fn header_tensors(
    es: Seq<(Seq<char>, Result<TensorV, Seq<char>>)>,
    path: Seq<char>,
) -> Result<Seq<(Seq<char>, TensorV)>, Seq<char>>
    decreases es.len(),
{
    if es.len() == 0 {
        Ok(Seq::empty())
    } else {
        match header_tensors(es.drop_last(), path) {
            Err(m) => Err(m),
            Ok(ts) => {
                let (name, parsed) = es.last();
                if name == "__metadata__"@ {
                    Ok(ts)
                } else {
                    match parsed {
                        Ok(t) => Ok(ts.push((name, t))),
                        Err(m) => Err("refuse:classify-journey: export-repair tensor "@ + name
                            + " in "@ + path + " has a bad header: "@ + m),
                    }
                }
            },
        }
    }
}

/// A shard's header: its declared length and its tensors, or the refusal.
pub open spec fn shard_header(prefix: Seq<u8>, header: Seq<u8>, path: Seq<char>) -> Result<
    (nat, Seq<(Seq<char>, TensorV)>),
    Seq<char>,
> {
    let pre = "refuse:classify-journey: export-repair "@;
    if le_value(prefix) > MAX_HEADER_LEN {
        Err(pre + path + " header is too large"@)
    } else {
        match safetensors_header(header) {
            Err(Some(m)) => Err(pre + path + " header is not JSON: "@ + m),
            Err(None) => Err(pre + path + " header is not an object"@),
            Ok(es) => match header_tensors(es, path) {
                Err(m) => Err(m),
                Ok(ts) => Ok((le_value(prefix), ts)),
            },
        }
    }
}

pub open spec fn named_tensors_view(v: Seq<(String, HeaderTensor)>) -> Seq<(Seq<char>, TensorV)> {
    v.map_values(|e: (String, HeaderTensor)| (e.0@, tensor_view(e.1)))
}

proof fn lemma_header_prefix(
    es: Seq<(Seq<char>, Result<TensorV, Seq<char>>)>,
    path: Seq<char>,
    k: int,
)
    requires
        0 <= k <= es.len(),
        header_tensors(es.take(k), path) is Err,
    ensures
        header_tensors(es, path) == header_tensors(es.take(k), path),
    decreases es.len(),
{
    if k == es.len() {
        assert(es.take(k) =~= es);
    } else {
        assert(es.drop_last().take(k) =~= es.take(k));
        lemma_header_prefix(es.drop_last(), path, k);
    }
}

fn copy_shape(v: &Vec<usize>) -> (out: Vec<usize>)
    ensures
        out@ == v@,
{
    let mut out: Vec<usize> = Vec::new();
    for i in 0..v.len()
        invariant
            out@ == v@.take(i as int),
    {
        out.push(v[i]);
        assert(v@.take(i + 1) =~= v@.take(i as int).push(v@[i as int]));
    }
    assert(v@.take(v@.len() as int) =~= v@);
    out
}

/// Reads a shard header: the eight-byte little-endian length (refused over
/// 100 MB), then the JSON header of that many bytes, whose members other
/// than `__metadata__` must each describe a tensor. `header` holds the
/// bytes after the length, as many as it declares.
pub fn read_shard_header(prefix: &Vec<u8>, header: &Vec<u8>, path: &str) -> (r: Result<
    (u64, Vec<(String, HeaderTensor)>),
    String,
>)
    requires
        prefix@.len() == 8,
    ensures
        match r {
            Ok((n, ts)) => shard_header(prefix@, header@, path@) == Ok::<
                (nat, Seq<(Seq<char>, TensorV)>),
                Seq<char>,
            >((n as nat, named_tensors_view(ts@))),
            Err(e) => shard_header(prefix@, header@, path@) == Err::<
                (nat, Seq<(Seq<char>, TensorV)>),
                Seq<char>,
            >(e@),
        },
{
    let n = match header_len(prefix, path) {
        Ok(n) => n,
        Err(e) => {
            return Err(e);
        },
    };
    let pre = "refuse:classify-journey: export-repair ";
    let parsed = parse_header_json(header);
    let entries = match parsed {
        HeaderJson::NotJson(m) => {
            let mut t = chars_of(pre);
            extend_str(&mut t, path);
            extend_str(&mut t, " header is not JSON: ");
            extend_str(&mut t, m.as_str());
            return Err(string_of(&t));
        },
        HeaderJson::NotObject => {
            let mut t = chars_of(pre);
            extend_str(&mut t, path);
            extend_str(&mut t, " header is not an object");
            return Err(string_of(&t));
        },
        HeaderJson::Entries(es) => es,
    };
    let ghost ev = header_view(HeaderJson::Entries(entries))->Ok_0;
    let mut out: Vec<(String, HeaderTensor)> = Vec::new();
    proof {
        assert(ev.take(0) =~= Seq::<(Seq<char>, Result<TensorV, Seq<char>>)>::empty());
        assert(named_tensors_view(out@) =~= Seq::<(Seq<char>, TensorV)>::empty());
    }
    for i in 0..entries.len()
        invariant
            ev == header_view(HeaderJson::Entries(entries))->Ok_0,
            ev == safetensors_header(header@)->Ok_0,
            safetensors_header(header@) is Ok,
            le_value(prefix@) <= MAX_HEADER_LEN,
            n as nat == le_value(prefix@),
            header_tensors(ev.take(i as int), path@) == Ok::<Seq<(Seq<char>, TensorV)>, Seq<char>>(
                named_tensors_view(out@),
            ),
    {
        let ghost t1 = ev.take(i + 1);
        proof {
            assert(t1.drop_last() =~= ev.take(i as int));
            assert(t1.last() == ev[i as int]);
        }
        let (name, item) = &entries[i];
        proof {
            assert(ev[i as int] == (name@, match *item {
                Ok(t) => Ok(tensor_view(t)),
                Err(m) => Err(m@),
            }));
        }
        if !equals_str(&chars_of(name.as_str()), "__metadata__") {
            match item {
                Ok(t) => {
                    let ghost before = named_tensors_view(out@);
                    let copy = HeaderTensor {
                        dtype: t.dtype.clone(),
                        shape: copy_shape(&t.shape),
                        start: t.start,
                        end: t.end,
                    };
                    out.push((name.clone(), copy));
                    assert(named_tensors_view(out@) =~= before.push((name@, tensor_view(*t))));
                },
                Err(m) => {
                    let mut x = chars_of("refuse:classify-journey: export-repair tensor ");
                    extend_str(&mut x, name.as_str());
                    extend_str(&mut x, " in ");
                    extend_str(&mut x, path);
                    extend_str(&mut x, " has a bad header: ");
                    extend_str(&mut x, m.as_str());
                    proof {
                        assert(t1.last() == (name@, Err::<TensorV, Seq<char>>(m@)));
                        assert(name@ != "__metadata__"@);
                        assert(header_tensors(t1, path@) == Err::<Seq<(Seq<char>, TensorV)>, Seq<char>>(x@));
                        lemma_header_prefix(ev, path@, i + 1);
                        assert(header_tensors(ev, path@) == Err::<Seq<(Seq<char>, TensorV)>, Seq<char>>(x@));
                    }
                    return Err(string_of(&x));
                },
            }
        }
    }
    assert(ev.take(ev.len() as int) =~= ev);
    Ok((n, out))
}

// ---------------------------------------------------------------- JSON

/// A JSON value as the repair and the decision hint read it: null, an
/// unsigned integer, a boolean, a string, or anything else.
#[derive(Clone, Debug, PartialEq, Eq)]
pub enum JsonLeaf {
    Null,
    Unsigned(u64),
    Flag(bool),
    Text(String),
    Other,
}

pub enum LeafV {
    Null,
    Unsigned(u64),
    Flag(bool),
    Text(Seq<char>),
    Other,
}

pub open spec fn leaf_view(l: JsonLeaf) -> LeafV {
    match l {
        JsonLeaf::Null => LeafV::Null,
        JsonLeaf::Unsigned(n) => LeafV::Unsigned(n),
        JsonLeaf::Flag(b) => LeafV::Flag(b),
        JsonLeaf::Text(s) => LeafV::Text(s@),
        JsonLeaf::Other => LeafV::Other,
    }
}

/// One member of a JSON object: its key, its value as a leaf, and the
/// value's compact JSON text (what is read again when the value is itself
/// an object).
pub type Member = (String, JsonLeaf, String);

pub type FieldV = (Seq<char>, LeafV, Seq<char>);

pub open spec fn field_view(f: Member) -> FieldV {
    (f.0@, leaf_view(f.1), f.2@)
}

pub open spec fn fields_view(fs: Seq<Member>) -> Seq<FieldV> {
    fs.map_values(|f: Member| field_view(f))
}

pub open spec fn doc_view(d: Option<Vec<Member>>) -> Option<Seq<FieldV>> {
    match d {
        Some(fs) => Some(fields_view(fs@)),
        None => None,
    }
}

/// What `serde_json` makes of a JSON text: the parser's message, or the
/// members of the object it holds (`None` when the value is not an
/// object), in key order.
pub uninterp spec fn json_document(text: Seq<char>) -> Result<Option<Seq<FieldV>>, Seq<char>>;

/// `serde_json::from_str` into a JSON value, then each member of the
/// object with its leaf and compact text. The contract claims only that
/// the outcome is a function of the text, named `json_document`.
#[verifier::external_body]
fn parse_json_document(text: &str) -> (r: Result<Option<Vec<Member>>, String>)
    ensures
        match r {
            Ok(d) => json_document(text@) == Ok::<Option<Seq<FieldV>>, Seq<char>>(doc_view(d)),
            Err(m) => json_document(text@) == Err::<Option<Seq<FieldV>>, Seq<char>>(m@),
        },
{
    let value: Value = serde_json::from_str(text).map_err(|e| e.to_string())?;
    let leaf = |v: &Value| match v {
        Value::Null => JsonLeaf::Null,
        Value::Bool(b) => JsonLeaf::Flag(*b),
        Value::String(s) => JsonLeaf::Text(s.clone()),
        Value::Number(n) => n.as_u64().map_or(JsonLeaf::Other, JsonLeaf::Unsigned),
        _ => JsonLeaf::Other,
    };
    Ok(value.as_object().map(|o| o.iter().map(|(k, v)| (k.clone(), leaf(v), v.to_string())).collect()))
}

/// The members of the object a JSON text holds; none when the text is not
/// JSON or not an object.
pub open spec fn object_of(text: Seq<char>) -> Option<Seq<FieldV>> {
    match json_document(text) {
        Ok(Some(fs)) => Some(fs),
        _ => None,
    }
}

fn object_members(text: &str) -> (r: Option<Vec<Member>>)
    ensures
        doc_view(r) == object_of(text@),
{
    match parse_json_document(text) {
        Ok(Some(fs)) => Some(fs),
        _ => None,
    }
}

/// The first member named `key`.
pub open spec fn lookup(es: Seq<FieldV>, key: Seq<char>) -> Option<FieldV>
    decreases es.len(),
{
    if es.len() == 0 {
        None
    } else if es[0].0 == key {
        Some(es[0])
    } else {
        lookup(es.drop_first(), key)
    }
}

fn find_member(es: &Vec<Member>, key: &str) -> (r: Option<usize>)
    ensures
        match r {
            Some(i) => i < es@.len() && lookup(fields_view(es@), key@) == Some(field_view(es@[i as int])),
            None => lookup(fields_view(es@), key@) is None,
        },
{
    let ghost v = fields_view(es@);
    assert(v.skip(0) =~= v);
    for i in 0..es.len()
        invariant
            v == fields_view(es@),
            lookup(v, key@) == lookup(v.skip(i as int), key@),
    {
        proof {
            let t = v.skip(i as int);
            assert(t.drop_first() =~= v.skip(i + 1));
            assert(t[0] == field_view(es@[i as int]));
        }
        if equals_str(&chars_of(es[i].0.as_str()), key) {
            return Some(i);
        }
    }
    proof {
        assert(v.skip(es@.len() as int) =~= Seq::<FieldV>::empty());
    }
    None
}

pub open spec fn as_count(l: LeafV) -> Option<u64> {
    match l {
        LeafV::Unsigned(n) => Some(n),
        _ => None,
    }
}

pub open spec fn as_flag(l: LeafV) -> Option<bool> {
    match l {
        LeafV::Flag(b) => Some(b),
        _ => None,
    }
}

/// The value of the member named `key`.
pub open spec fn entry_leaf(d: Seq<FieldV>, key: Seq<char>) -> Option<LeafV> {
    match lookup(d, key) {
        Some(e) => Some(e.1),
        None => None,
    }
}

/// The members of the member named `key`, when its value is an object.
pub open spec fn member_object(d: Seq<FieldV>, key: Seq<char>) -> Option<Seq<FieldV>> {
    match lookup(d, key) {
        Some(e) => object_of(e.2),
        None => None,
    }
}

/// The value of the member named `key`, when there are members.
pub open spec fn opt_entry_leaf(fs: Option<Seq<FieldV>>, key: Seq<char>) -> Option<LeafV> {
    match fs {
        Some(x) => entry_leaf(x, key),
        None => None,
    }
}

/// The value of `key` inside the object-valued member `outer`.
pub open spec fn nested_leaf(d: Seq<FieldV>, outer: Seq<char>, key: Seq<char>) -> Option<LeafV> {
    opt_entry_leaf(member_object(d, outer), key)
}

pub open spec fn opt_count(l: Option<LeafV>) -> Option<u64> {
    match l {
        Some(x) => as_count(x),
        None => None,
    }
}

pub open spec fn opt_flag(l: Option<LeafV>) -> Option<bool> {
    match l {
        Some(x) => as_flag(x),
        None => None,
    }
}

/// What `config.json` declares, read from its parsed members: top-level
/// values, and the values inside `text_config` when that member exists.
pub open spec fn config_of(doc: Option<Seq<FieldV>>) -> ConfigFacts {
    match doc {
        None => ConfigFacts {
            text_config: false,
            text_layers: None,
            text_mtp: None,
            text_tie: None,
            root_layers: None,
            root_mtp: None,
            root_tie: None,
        },
        Some(d) => ConfigFacts {
            text_config: lookup(d, "text_config"@) is Some,
            text_layers: opt_count(nested_leaf(d, "text_config"@, "num_hidden_layers"@)),
            text_mtp: opt_count(nested_leaf(d, "text_config"@, "mtp_num_hidden_layers"@)),
            text_tie: opt_flag(nested_leaf(d, "text_config"@, "tie_word_embeddings"@)),
            root_layers: opt_count(entry_leaf(d, "num_hidden_layers"@)),
            root_mtp: opt_count(entry_leaf(d, "mtp_num_hidden_layers"@)),
            root_tie: opt_flag(entry_leaf(d, "tie_word_embeddings"@)),
        },
    }
}

fn copy_leaf(l: &JsonLeaf) -> (r: JsonLeaf)
    ensures
        leaf_view(r) == leaf_view(*l),
{
    match l {
        JsonLeaf::Null => JsonLeaf::Null,
        JsonLeaf::Unsigned(n) => JsonLeaf::Unsigned(*n),
        JsonLeaf::Flag(b) => JsonLeaf::Flag(*b),
        JsonLeaf::Text(t) => JsonLeaf::Text(t.clone()),
        JsonLeaf::Other => JsonLeaf::Other,
    }
}

fn leaf_count(l: &Option<JsonLeaf>) -> (r: Option<u64>)
    ensures
        r == opt_count(
            match l {
                Some(x) => Some(leaf_view(*x)),
                None => None,
            },
        ),
{
    match l {
        Some(JsonLeaf::Unsigned(n)) => Some(*n),
        _ => None,
    }
}

fn leaf_flag(l: &Option<JsonLeaf>) -> (r: Option<bool>)
    ensures
        r == opt_flag(
            match l {
                Some(x) => Some(leaf_view(*x)),
                None => None,
            },
        ),
{
    match l {
        Some(JsonLeaf::Flag(b)) => Some(*b),
        _ => None,
    }
}

fn top_leaf(d: &Vec<Member>, key: &str) -> (r: Option<JsonLeaf>)
    ensures
        match r {
            Some(l) => entry_leaf(fields_view(d@), key@) == Some(leaf_view(l)),
            None => entry_leaf(fields_view(d@), key@) is None,
        },
{
    match find_member(d, key) {
        Some(i) => Some(copy_leaf(&d[i].1)),
        None => None,
    }
}

fn inner_object(d: &Vec<Member>, key: &str) -> (r: Option<Vec<Member>>)
    ensures
        doc_view(r) == member_object(fields_view(d@), key@),
{
    match find_member(d, key) {
        Some(i) => object_members(d[i].2.as_str()),
        None => None,
    }
}

fn inner_leaf(inner: &Option<Vec<Member>>, key: &str) -> (r: Option<JsonLeaf>)
    ensures
        match r {
            Some(l) => opt_entry_leaf(doc_view(*inner), key@) == Some(leaf_view(l)),
            None => opt_entry_leaf(doc_view(*inner), key@) is None,
        },
{
    match inner {
        Some(fs) => top_leaf(fs, key),
        None => None,
    }
}

/// The facts `config.json` declares, or the parser's message when the
/// text is not JSON. A JSON value that is not an object declares nothing.
pub fn config_facts_from_text(text: &str) -> (r: Result<ConfigFacts, String>)
    ensures
        match r {
            Ok(c) => json_document(text@) matches Ok(d) && c == config_of(d),
            Err(m) => json_document(text@) == Err::<Option<Seq<FieldV>>, Seq<char>>(m@),
        },
{
    let doc = match parse_json_document(text) {
        Err(m) => {
            return Err(m);
        },
        Ok(d) => d,
    };
    match doc {
        None => Ok(
            ConfigFacts {
                text_config: false,
                text_layers: None,
                text_mtp: None,
                text_tie: None,
                root_layers: None,
                root_mtp: None,
                root_tie: None,
            },
        ),
        Some(d) => {
            let inner = inner_object(&d, "text_config");
            let text_layers = leaf_count(&inner_leaf(&inner, "num_hidden_layers"));
            let text_mtp = leaf_count(&inner_leaf(&inner, "mtp_num_hidden_layers"));
            let text_tie = leaf_flag(&inner_leaf(&inner, "tie_word_embeddings"));
            let root_layers = leaf_count(&top_leaf(&d, "num_hidden_layers"));
            let root_mtp = leaf_count(&top_leaf(&d, "mtp_num_hidden_layers"));
            let root_tie = leaf_flag(&top_leaf(&d, "tie_word_embeddings"));
            let has_text = find_member(&d, "text_config").is_some();
            Ok(
                ConfigFacts {
                    text_config: has_text,
                    text_layers,
                    text_mtp,
                    text_tie,
                    root_layers,
                    root_mtp,
                    root_tie,
                },
            )
        },
    }
}

// ---------------------------------------------------------------- decision-select.json

/// How a member of the parsed document reads as a field of the selector
/// hint: absent, null, a string, or any other value.
pub open spec fn field_matches(f: JsonField, l: Option<LeafV>) -> bool {
    match l {
        None => f is Missing,
        Some(LeafV::Null) => f is Null,
        Some(LeafV::Text(s)) => f matches JsonField::Text(t) && t@ == s,
        Some(_) => f is Other,
    }
}

/// A top-level member of the document; a document that is not an object
/// has none.
pub open spec fn doc_leaf(doc: Option<Seq<FieldV>>, key: Seq<char>) -> Option<LeafV> {
    match doc {
        Some(d) => entry_leaf(d, key),
        None => None,
    }
}

fn field_of(l: Option<JsonLeaf>) -> (f: JsonField)
    ensures
        field_matches(
            f,
            match l {
                Some(x) => Some(leaf_view(x)),
                None => None,
            },
        ),
{
    match l {
        None => JsonField::Missing,
        Some(JsonLeaf::Null) => JsonField::Null,
        Some(JsonLeaf::Text(t)) => JsonField::Text(t),
        Some(_) => JsonField::Other,
    }
}

fn doc_field(doc: &Option<Vec<Member>>, key: &str) -> (f: JsonField)
    ensures
        field_matches(f, doc_leaf(doc_view(*doc), key@)),
{
    match doc {
        None => JsonField::Missing,
        Some(d) => field_of(top_leaf(d, key)),
    }
}

/// Reads the selector hint of `decision-select.json` (at `path`) from its
/// text: a text that is not JSON is refused, naming the file;
/// otherwise its `schema`, `select` and `digest` members decide, as
/// `select_hint_from_fields` does.
pub fn select_hint_from_json(text: &str, path: &str) -> (r: Result<SelectHint, String>)
    ensures
        match json_document(text@) {
            Err(_) => r matches Err(e) && e@ == "refuse:decision-select: parse "@ + path@,
            Ok(doc) => exists|a: JsonField, b: JsonField, c: JsonField|
                field_matches(a, doc_leaf(doc, "schema"@)) && field_matches(
                    b,
                    doc_leaf(doc, "select"@),
                ) && field_matches(c, doc_leaf(doc, "digest"@)) && match r {
                    Ok(h) => hint_from_fields(a, b, c) == Ok::<
                        (Option<Seq<char>>, Option<Seq<char>>),
                        Seq<char>,
                    >((ov(h.select), ov(h.digest))),
                    Err(e) => hint_from_fields(a, b, c) == Err::<
                        (Option<Seq<char>>, Option<Seq<char>>),
                        Seq<char>,
                    >(e@),
                },
        },
{
    let doc = match parse_json_document(text) {
        Err(_) => {
            let mut t = chars_of("refuse:decision-select: parse ");
            extend_str(&mut t, path);
            return Err(string_of(&t));
        },
        Ok(d) => d,
    };
    let a = doc_field(&doc, "schema");
    let b = doc_field(&doc, "select");
    let c = doc_field(&doc, "digest");
    select_hint_from_fields(&a, &b, &c)
}

// ---------------------------------------------------------------- the redaction report

/// The redaction report a pack import wrote, read from its text: its
/// `redacted` and `raw_secrets_found` members when they are unsigned
/// integers (a report that is not an object has neither), or the refusal
/// when the text is not JSON.
pub open spec fn redaction_of(text: Seq<char>, path: Seq<char>) -> Result<RedactionRead, Seq<char>> {
    match json_document(text) {
        Err(_) => Err("parse redaction "@ + path),
        Ok(doc) => Ok(
            RedactionRead::Counts {
                redacted: opt_count(doc_leaf(doc, "redacted"@)),
                raw_secrets_found: opt_count(doc_leaf(doc, "raw_secrets_found"@)),
            },
        ),
    }
}

fn doc_count(doc: &Option<Vec<Member>>, key: &str) -> (r: Option<u64>)
    ensures
        r == opt_count(doc_leaf(doc_view(*doc), key@)),
{
    match doc {
        None => None,
        Some(d) => leaf_count(&top_leaf(d, key)),
    }
}

/// Reads the redaction report at `path` from its text, for the import
/// check: the two counts it declares, or the refusal when it is not JSON.
pub fn redaction_from_text(text: &str, path: &str) -> (r: Result<RedactionRead, String>)
    ensures
        match r {
            Ok(x) => redaction_of(text@, path@) == Ok::<RedactionRead, Seq<char>>(x),
            Err(e) => redaction_of(text@, path@) == Err::<RedactionRead, Seq<char>>(e@),
        },
{
    let doc = match parse_json_document(text) {
        Err(_) => {
            let mut t = chars_of("parse redaction ");
            extend_str(&mut t, path);
            return Err(string_of(&t));
        },
        Ok(d) => d,
    };
    let redacted = doc_count(&doc, "redacted");
    let raw_secrets_found = doc_count(&doc, "raw_secrets_found");
    Ok(RedactionRead::Counts { redacted, raw_secrets_found })
}

// ---------------------------------------------------------------- the weight-map index

/// The string values among the members of a JSON object, in key order.
pub open spec fn text_values(fs: Seq<FieldV>) -> Seq<Seq<char>>
    decreases fs.len(),
{
    if fs.len() == 0 {
        Seq::empty()
    } else {
        let rest = text_values(fs.drop_last());
        match fs.last().1 {
            LeafV::Text(s) => rest.push(s),
            _ => rest,
        }
    }
}

/// The members of the document's member `key` when that is an object.
pub open spec fn object_member(doc: Option<Seq<FieldV>>, key: Seq<char>) -> Option<Seq<FieldV>> {
    match doc {
        Some(d) => member_object(d, key),
        None => None,
    }
}

/// The shard files an index text names in its `weight_map`, or the
/// refusal: the text is not JSON, or has no `weight_map` object.
pub open spec fn index_files_of(text: Seq<char>, index_path: Seq<char>) -> Result<
    Seq<Seq<char>>,
    Seq<char>,
> {
    let pre = "refuse:classify-journey: export-repair "@;
    match json_document(text) {
        Err(m) => Err(pre + index_path + " is not JSON: "@ + m),
        Ok(doc) => match object_member(doc, "weight_map"@) {
            Some(fs) => Ok(text_values(fs)),
            None => Err(pre + index_path + " has no weight_map"@),
        },
    }
}

fn field_texts(fs: &Vec<(String, JsonLeaf, String)>) -> (out: Vec<String>)
    ensures
        sv(out@) == text_values(fields_view(fs@)),
{
    let ghost v = fields_view(fs@);
    let mut out: Vec<String> = Vec::new();
    assert(v.take(0) =~= Seq::<FieldV>::empty());
    assert(sv(out@) =~= Seq::<Seq<char>>::empty());
    for i in 0..fs.len()
        invariant
            v == fields_view(fs@),
            sv(out@) == text_values(v.take(i as int)),
    {
        proof {
            let t = v.take(i + 1);
            assert(t.drop_last() =~= v.take(i as int));
            assert(t.last() == field_view(fs@[i as int]));
        }
        match &fs[i].1 {
            JsonLeaf::Text(s) => {
                let ghost before = sv(out@);
                out.push(s.clone());
                assert(sv(out@) =~= before.push(s@));
            },
            _ => {},
        }
    }
    assert(v.take(fs@.len() as int) =~= v);
    out
}

fn member_fields(doc: &Option<Vec<Member>>, key: &str) -> (r: Option<Vec<Member>>)
    ensures
        doc_view(r) == object_member(doc_view(*doc), key@),
{
    match doc {
        None => None,
        Some(d) => inner_object(d, key),
    }
}

/// The shard files that an index's text names, sorted and each once, or
/// the refusal when the text is not JSON or has no `weight_map` object.
pub fn index_shard_files(text: &str, index_path: &str) -> (r: Result<Vec<String>, String>)
    ensures
        match r {
            Ok(out) => index_files_of(text@, index_path@) matches Ok(fs) && strictly_sorted(sv(out@))
                && forall|x: Seq<char>|
                #![trigger sv(out@).contains(x)]
                #![trigger fs.contains(x)]
                sv(out@).contains(x) <==> fs.contains(x),
            Err(e) => index_files_of(text@, index_path@) == Err::<Seq<Seq<char>>, Seq<char>>(e@),
        },
{
    let doc = match parse_json_document(text) {
        Err(m) => {
            let mut t = chars_of("refuse:classify-journey: export-repair ");
            extend_str(&mut t, index_path);
            extend_str(&mut t, " is not JSON: ");
            extend_str(&mut t, m.as_str());
            return Err(string_of(&t));
        },
        Ok(d) => d,
    };
    match member_fields(&doc, "weight_map") {
        Some(fs) => {
            let files = field_texts(&fs);
            Ok(index_shard_names(&files))
        },
        None => {
            let mut t = chars_of("refuse:classify-journey: export-repair ");
            extend_str(&mut t, index_path);
            extend_str(&mut t, " has no weight_map");
            Err(string_of(&t))
        },
    }
}

pub type PairsV = Seq<(Seq<char>, Seq<char>)>;

pub open spec fn pairs_view(ps: Seq<(String, String)>) -> PairsV {
    ps.map_values(|p: (String, String)| (p.0@, p.1@))
}

pub open spec fn weights_view(es: Seq<WeightEntry>) -> PairsV {
    es.map_values(|e: WeightEntry| (e.tensor@, e.file@))
}

/// Each member's key with its compact JSON text.
pub open spec fn member_texts(fs: Seq<FieldV>) -> PairsV {
    fs.map_values(|f: FieldV| (f.0, f.2))
}

/// Each member's key with its string value, or the empty text when the
/// value is not a string.
pub open spec fn member_files(fs: Seq<FieldV>) -> PairsV {
    fs.map_values(
        |f: FieldV|
            (
                f.0,
                match f.1 {
                    LeafV::Text(s) => s,
                    _ => Seq::empty(),
                },
            ),
    )
}

pub open spec fn or_none(fs: Option<Seq<FieldV>>) -> Seq<FieldV> {
    match fs {
        Some(x) => x,
        None => Seq::empty(),
    }
}

/// What an existing index holds for the rewrite: the members of its
/// `metadata` object (key and JSON text) and the entries of its
/// `weight_map` object; a member that is absent or not an object gives
/// none. A text that is not JSON gives the parser's message.
pub open spec fn index_parts(text: Seq<char>) -> Result<(PairsV, PairsV), Seq<char>> {
    match json_document(text) {
        Err(m) => Err(m),
        Ok(doc) => Ok(
            (
                member_texts(or_none(object_member(doc, "metadata"@))),
                member_files(or_none(object_member(doc, "weight_map"@))),
            ),
        ),
    }
}

fn texts_of(fs: &Vec<(String, JsonLeaf, String)>) -> (out: Vec<(String, String)>)
    ensures
        pairs_view(out@) == member_texts(fields_view(fs@)),
{
    let mut out: Vec<(String, String)> = Vec::new();
    for i in 0..fs.len()
        invariant
            pairs_view(out@) == member_texts(fields_view(fs@.take(i as int))),
    {
        let ghost before = pairs_view(out@);
        out.push((fs[i].0.clone(), fs[i].2.clone()));
        proof {
            let f = field_view(fs@[i as int]);
            assert(pairs_view(out@) =~= before.push((f.0, f.2)));
            assert(fields_view(fs@.take(i + 1)) =~= fields_view(fs@.take(i as int)).push(f));
            assert(member_texts(fields_view(fs@.take(i + 1))) =~= member_texts(
                fields_view(fs@.take(i as int)),
            ).push((f.0, f.2)));
        }
    }
    assert(fs@.take(fs@.len() as int) =~= fs@);
    out
}

fn files_of(fs: &Vec<(String, JsonLeaf, String)>) -> (out: Vec<WeightEntry>)
    ensures
        weights_view(out@) == member_files(fields_view(fs@)),
{
    let mut out: Vec<WeightEntry> = Vec::new();
    for i in 0..fs.len()
        invariant
            weights_view(out@) == member_files(fields_view(fs@.take(i as int))),
    {
        let file = match &fs[i].1 {
            JsonLeaf::Text(s) => s.clone(),
            _ => String::new(),
        };
        let ghost before = weights_view(out@);
        let ghost fv = file@;
        out.push(WeightEntry { tensor: fs[i].0.clone(), file });
        proof {
            let f = field_view(fs@[i as int]);
            assert(weights_view(out@) =~= before.push((f.0, fv)));
            assert(fields_view(fs@.take(i + 1)) =~= fields_view(fs@.take(i as int)).push(f));
            assert(member_files(fields_view(fs@.take(i + 1))) =~= member_files(
                fields_view(fs@.take(i as int)),
            ).push((f.0, fv)));
        }
    }
    assert(fs@.take(fs@.len() as int) =~= fs@);
    out
}

/// Reads an existing index for the rewrite: its metadata members and its
/// weight-map entries, or the parser's message.
pub fn index_from_text(text: &str) -> (r: Result<(Vec<(String, String)>, Vec<WeightEntry>), String>)
    ensures
        match r {
            Ok((meta, map)) => index_parts(text@) == Ok::<(PairsV, PairsV), Seq<char>>(
                (pairs_view(meta@), weights_view(map@)),
            ),
            Err(m) => index_parts(text@) == Err::<(PairsV, PairsV), Seq<char>>(m@),
        },
{
    let doc = match parse_json_document(text) {
        Err(m) => {
            return Err(m);
        },
        Ok(d) => d,
    };
    let meta = match member_fields(&doc, "metadata") {
        Some(fs) => texts_of(&fs),
        None => {
            let e: Vec<(String, String)> = Vec::new();
            assert(pairs_view(e@) =~= member_texts(Seq::<FieldV>::empty()));
            e
        },
    };
    let map = match member_fields(&doc, "weight_map") {
        Some(fs) => files_of(&fs),
        None => {
            let e: Vec<WeightEntry> = Vec::new();
            assert(weights_view(e@) =~= member_files(Seq::<FieldV>::empty()));
            e
        },
    };
    Ok((meta, map))
}

/// A member's value to print: JSON text as it stands, or a string that
/// the printer quotes.
#[derive(Clone, Debug, PartialEq, Eq)]
pub enum JsonOut {
    Raw(String),
    Text(String),
}

/// A printed value as (is JSON text, the text).
pub open spec fn out_view(v: JsonOut) -> (bool, Seq<char>) {
    match v {
        JsonOut::Raw(t) => (true, t@),
        JsonOut::Text(t) => (false, t@),
    }
}

pub type ObjectV = Seq<(Seq<char>, Seq<(Seq<char>, (bool, Seq<char>))>)>;

pub open spec fn object_view(obj: Seq<(String, Vec<(String, JsonOut)>)>) -> ObjectV {
    obj.map_values(
        |s: (String, Vec<(String, JsonOut)>)|
            (s.0@, s.1@.map_values(|m: (String, JsonOut)| (m.0@, out_view(m.1)))),
    )
}

/// What `serde_json::to_string_pretty` prints for an object whose members
/// are objects of the given values, or its message.
pub uninterp spec fn pretty_json_text(obj: ObjectV) -> Result<Seq<char>, Seq<char>>;

/// `serde_json::to_string_pretty` of an object of objects, each raw value
/// read with `serde_json::from_str` and each string quoted. The contract
/// claims only that the outcome is a function of the members, named
/// `pretty_json_text`.
#[verifier::external_body]
fn pretty_json(obj: &Vec<(String, Vec<(String, JsonOut)>)>) -> (r: Result<String, String>)
    ensures
        match r {
            Ok(t) => pretty_json_text(object_view(obj@)) == Ok::<Seq<char>, Seq<char>>(t@),
            Err(m) => pretty_json_text(object_view(obj@)) == Err::<Seq<char>, Seq<char>>(m@),
        },
{
    let mut top = serde_json::Map::new();
    for (key, members) in obj {
        let mut inner = serde_json::Map::new();
        for (k, v) in members {
            let value = match v {
                JsonOut::Raw(t) => serde_json::from_str(t).map_err(|e: serde_json::Error| e.to_string())?,
                JsonOut::Text(t) => serde_json::Value::String(t.clone()),
            };
            inner.insert(k.clone(), value);
        }
        top.insert(key.clone(), serde_json::Value::Object(inner));
    }
    serde_json::to_string_pretty(&top).map_err(|e| e.to_string())
}

/// `ps` without the members named `key`.
pub open spec fn drop_key(ps: PairsV, key: Seq<char>) -> PairsV
    decreases ps.len(),
{
    if ps.len() == 0 {
        Seq::empty()
    } else if ps.last().0 == key {
        drop_key(ps.drop_last(), key)
    } else {
        drop_key(ps.drop_last(), key).push(ps.last())
    }
}

/// The index metadata with `total_size` set to `total`.
pub open spec fn with_total(meta: PairsV, total: nat) -> PairsV {
    drop_key(meta, "total_size"@).push(("total_size"@, decimal(total)))
}

pub open spec fn raw_members(ps: PairsV) -> Seq<(Seq<char>, (bool, Seq<char>))> {
    ps.map_values(|p: (Seq<char>, Seq<char>)| (p.0, (true, p.1)))
}

pub open spec fn text_members(ps: PairsV) -> Seq<(Seq<char>, (bool, Seq<char>))> {
    ps.map_values(|p: (Seq<char>, Seq<char>)| (p.0, (false, p.1)))
}

/// The index text: an object with the metadata (its `total_size` set) and
/// the weight map, pretty-printed, and a final newline.
pub open spec fn rendered_index(meta: PairsV, map: PairsV, total: nat) -> Result<Seq<char>, Seq<char>> {
    let obj = seq![
        ("metadata"@, raw_members(with_total(meta, total))),
        ("weight_map"@, text_members(map)),
    ];
    match pretty_json_text(obj) {
        Ok(t) => Ok(t + "\n"@),
        Err(m) => Err(m),
    }
}

fn metadata_members(meta: &Vec<(String, String)>, total: u64) -> (out: Vec<(String, JsonOut)>)
    ensures
        out@.map_values(|m: (String, JsonOut)| (m.0@, out_view(m.1))) == raw_members(
            with_total(pairs_view(meta@), total as nat),
        ),
{
    let mut out: Vec<(String, JsonOut)> = Vec::new();
    let ghost mv = pairs_view(meta@);
    for i in 0..meta.len()
        invariant
            mv == pairs_view(meta@),
            out@.map_values(|m: (String, JsonOut)| (m.0@, out_view(m.1))) == raw_members(
                drop_key(mv.take(i as int), "total_size"@),
            ),
    {
        let ghost before = out@.map_values(|m: (String, JsonOut)| (m.0@, out_view(m.1)));
        proof {
            let t = mv.take(i + 1);
            assert(t.drop_last() =~= mv.take(i as int));
            assert(t.last() == (meta@[i as int].0@, meta@[i as int].1@));
        }
        if !equals_str(&chars_of(meta[i].0.as_str()), "total_size") {
            out.push((meta[i].0.clone(), JsonOut::Raw(meta[i].1.clone())));
            proof {
                let p = (meta@[i as int].0@, meta@[i as int].1@);
                assert(out@.map_values(|m: (String, JsonOut)| (m.0@, out_view(m.1))) =~= before.push(
                    (p.0, (true, p.1)),
                ));
                assert(raw_members(drop_key(mv.take(i + 1), "total_size"@)) =~= raw_members(
                    drop_key(mv.take(i as int), "total_size"@),
                ).push((p.0, (true, p.1))));
            }
        }
    }
    assert(mv.take(meta@.len() as int) =~= mv);
    let ghost before = out@.map_values(|m: (String, JsonOut)| (m.0@, out_view(m.1)));
    let mut n = Vec::new();
    push_decimal(&mut n, total);
    out.push((string_of(&chars_of("total_size")), JsonOut::Raw(string_of(&n))));
    proof {
        assert(out@.map_values(|m: (String, JsonOut)| (m.0@, out_view(m.1))) =~= before.push(
            ("total_size"@, (true, decimal(total as nat))),
        ));
        assert(raw_members(with_total(mv, total as nat)) =~= raw_members(
            drop_key(mv, "total_size"@),
        ).push(("total_size"@, (true, decimal(total as nat)))));
    }
    out
}

fn weight_members(map: &Vec<WeightEntry>) -> (out: Vec<(String, JsonOut)>)
    ensures
        out@.map_values(|m: (String, JsonOut)| (m.0@, out_view(m.1))) == text_members(
            weights_view(map@),
        ),
{
    let mut out: Vec<(String, JsonOut)> = Vec::new();
    for i in 0..map.len()
        invariant
            out@.map_values(|m: (String, JsonOut)| (m.0@, out_view(m.1))) == text_members(
                weights_view(map@.take(i as int)),
            ),
    {
        let ghost before = out@.map_values(|m: (String, JsonOut)| (m.0@, out_view(m.1)));
        out.push((map[i].tensor.clone(), JsonOut::Text(map[i].file.clone())));
        proof {
            let p = (map@[i as int].tensor@, map@[i as int].file@);
            assert(out@.map_values(|m: (String, JsonOut)| (m.0@, out_view(m.1))) =~= before.push(
                (p.0, (false, p.1)),
            ));
            assert(weights_view(map@.take(i + 1)) =~= weights_view(map@.take(i as int)).push(p));
            assert(text_members(weights_view(map@.take(i + 1))) =~= text_members(
                weights_view(map@.take(i as int)),
            ).push((p.0, (false, p.1))));
        }
    }
    assert(map@.take(map@.len() as int) =~= map@);
    out
}

/// The text of the rewritten weight-map index: the metadata members (JSON
/// texts) with `total_size` set to `total`, and the weight map, printed by
/// `serde_json` with a final newline; or the printer's message.
pub fn render_index(meta: &Vec<(String, String)>, map: &Vec<WeightEntry>, total: u64) -> (r: Result<
    String,
    String,
>)
    ensures
        match r {
            Ok(t) => rendered_index(pairs_view(meta@), weights_view(map@), total as nat) == Ok::<
                Seq<char>,
                Seq<char>,
            >(t@),
            Err(m) => rendered_index(pairs_view(meta@), weights_view(map@), total as nat) == Err::<
                Seq<char>,
                Seq<char>,
            >(m@),
        },
{
    let m = metadata_members(meta, total);
    let w = weight_members(map);
    let mut obj: Vec<(String, Vec<(String, JsonOut)>)> = Vec::new();
    obj.push((string_of(&chars_of("metadata")), m));
    obj.push((string_of(&chars_of("weight_map")), w));
    let ghost expect = seq![
        ("metadata"@, raw_members(with_total(pairs_view(meta@), total as nat))),
        ("weight_map"@, text_members(weights_view(map@))),
    ];
    assert(object_view(obj@) =~= expect);
    match pretty_json(&obj) {
        Ok(t) => {
            let mut cs = chars_of(t.as_str());
            cs.push('\n');
            proof {
                reveal_strlit("\n");
                assert(cs@ =~= t@ + "\n"@);
            }
            Ok(string_of(&cs))
        },
        Err(e) => Err(e),
    }
}

// ---------------------------------------------------------------- the repair shard

/// A tensor to write into a shard: its name, its dtype's name as a shard
/// header spells it, its shape and its bytes.
#[derive(Clone, Debug, PartialEq, Eq)]
pub struct ShardTensor {
    pub name: String,
    pub dtype: String,
    pub shape: Vec<usize>,
    pub data: Vec<u8>,
}

pub type ShardV = (Seq<char>, Seq<char>, Seq<usize>, Seq<u8>);

pub open spec fn shard_tensors_view(ts: Seq<ShardTensor>) -> Seq<ShardV> {
    ts.map_values(|t: ShardTensor| (t.name@, t.dtype@, t.shape@, t.data@))
}

/// Why a shard could not be written: a tensor that cannot be viewed (its
/// name and the message), or the writer's message.
#[derive(Clone, Debug, PartialEq, Eq)]
pub enum ShardError {
    View(String, String),
    Write(String),
}

pub open spec fn shard_error_view(e: ShardError) -> (Option<Seq<char>>, Seq<char>) {
    match e {
        ShardError::View(n, m) => (Some(n@), m@),
        ShardError::Write(m) => (None, m@),
    }
}

/// The number of elements of a shape.
pub open spec fn shape_product(s: Seq<usize>) -> nat
    decreases s.len(),
{
    if s.len() == 0 {
        1
    } else {
        shape_product(s.drop_last()) * (s.last() as nat)
    }
}

/// Every running product of the shape, times eight bytes (the widest
/// dtype), fits in `usize`.
pub open spec fn shape_fits(s: Seq<usize>) -> bool
    decreases s.len(),
{
    if s.len() == 0 {
        true
    } else {
        shape_fits(s.drop_last()) && shape_product(s) * 8 <= usize::MAX
    }
}

/// No two tensors share a name.
pub open spec fn distinct_names(ts: Seq<ShardTensor>) -> bool {
    forall|i: int, j: int| 0 <= i < j < ts.len() ==> ts[i].name@ != ts[j].name@
}

/// What `safetensors::serialize` makes of the tensors, or why it could not.
pub uninterp spec fn safetensors_bytes(ts: Seq<ShardV>) -> Result<Seq<u8>, (Option<Seq<char>>, Seq<char>)>;

/// Each tensor's dtype read back with `serde_json::from_value`, each viewed
/// with `safetensors::tensor::TensorView::new`, then all written with
/// `safetensors::serialize` and no metadata. `TensorView::new` multiplies
/// the shape out unchecked, so every shape must fit; the header
/// `serialize` writes keeps one entry per name and indexes it by tensor,
/// which panics when two tensors share a name. The contract claims
/// only that the outcome is a function of the tensors, named
/// `safetensors_bytes`.
#[verifier::external_body]
fn serialize_shard(ts: &Vec<ShardTensor>) -> (r: Result<Vec<u8>, ShardError>)
    requires
        forall|i: int| 0 <= i < ts@.len() ==> shape_fits(#[trigger] ts@[i].shape@),
        distinct_names(ts@),
    ensures
        match r {
            Ok(b) => safetensors_bytes(shard_tensors_view(ts@)) == Ok::<Seq<u8>, (Option<Seq<char>>, Seq<char>)>(b@),
            Err(e) => safetensors_bytes(shard_tensors_view(ts@)) == Err::<Seq<u8>, (Option<Seq<char>>, Seq<char>)>(shard_error_view(e)),
        },
{
    let mut views = Vec::new();
    for t in ts {
        let view_err = |e: String| ShardError::View(t.name.clone(), e);
        let value = serde_json::Value::String(t.dtype.clone());
        let dtype = serde_json::from_value(value).map_err(|e| view_err(e.to_string()))?;
        let view = safetensors::tensor::TensorView::new(dtype, t.shape.clone(), &t.data)
            .map_err(|e| view_err(e.to_string()))?;
        views.push((t.name.clone(), view));
    }
    safetensors::serialize(views, &None).map_err(|e| ShardError::Write(e.to_string()))
}

/// The name of the first tensor whose shape does not fit.
pub open spec fn first_unfit(ts: Seq<ShardV>) -> Option<Seq<char>>
    decreases ts.len(),
{
    if ts.len() == 0 {
        None
    } else {
        match first_unfit(ts.drop_last()) {
            Some(n) => Some(n),
            None => if shape_fits(ts.last().2) {
                None
            } else {
                Some(ts.last().0)
            },
        }
    }
}

/// The repair shard's bytes, or the refusal.
pub open spec fn repair_shard_result(ts: Seq<ShardV>) -> Result<Seq<u8>, Seq<char>> {
    let pre = "refuse:classify-journey: export-repair "@;
    match first_unfit(ts) {
        Some(n) => Err(pre + "cannot view tensor "@ + n + ": shape overflows usize"@),
        None => match safetensors_bytes(ts) {
            Ok(b) => Ok(b),
            Err((Some(n), m)) => Err(pre + "cannot view tensor "@ + n + ": "@ + m),
            Err((None, m)) => Err(pre + "cannot write shard: "@ + m),
        },
    }
}

fn shape_fits_exec(s: &Vec<usize>) -> (r: bool)
    ensures
        r == shape_fits(s@),
{
    let mut acc: usize = 8;
    for i in 0..s.len()
        invariant
            shape_fits(s@.take(i as int)),
            acc as nat == shape_product(s@.take(i as int)) * 8,
    {
        let ghost t = s@.take(i + 1);
        proof {
            assert(t.drop_last() =~= s@.take(i as int));
            assert(t.last() == s@[i as int]);
        }
        let ghost p = shape_product(s@.take(i as int));
        let d = s[i];
        assert(shape_product(t) * 8 == acc as nat * d) by {
            assert(shape_product(t) == p * d);
            assert(p * d * 8 == p * 8 * d) by (nonlinear_arith);
        }
        match acc.checked_mul(d) {
            Some(a) => {
                acc = a;
            },
            None => {
                proof {
                    lemma_unfit_extends(s@, i + 1);
                }
                return false;
            },
        }
    }
    assert(s@.take(s@.len() as int) =~= s@);
    true
}

proof fn lemma_unfit_extends(s: Seq<usize>, k: int)
    requires
        0 <= k <= s.len(),
        !shape_fits(s.take(k)),
    ensures
        !shape_fits(s),
    decreases s.len(),
{
    if k == s.len() {
        assert(s.take(k) =~= s);
    } else {
        assert(s.drop_last().take(k) =~= s.take(k));
        lemma_unfit_extends(s.drop_last(), k);
    }
}

/// The bytes of the shard that carries the copied tensors, or the
/// refusal: a tensor whose shape overflows, one that cannot be viewed
/// (its bytes do not match its shape and dtype), or a failed write. The
/// tensors are the distinct names a repair found missing.
pub fn repair_shard_bytes(ts: &Vec<ShardTensor>) -> (r: Result<Vec<u8>, String>)
    requires
        distinct_names(ts@),
    ensures
        match r {
            Ok(b) => repair_shard_result(shard_tensors_view(ts@)) == Ok::<Seq<u8>, Seq<char>>(b@),
            Err(e) => repair_shard_result(shard_tensors_view(ts@)) == Err::<Seq<u8>, Seq<char>>(e@),
        },
{
    let ghost v = shard_tensors_view(ts@);
    let pre = "refuse:classify-journey: export-repair ";
    for i in 0..ts.len()
        invariant
            v == shard_tensors_view(ts@),
            first_unfit(v.take(i as int)) is None,
            forall|j: int| 0 <= j < i ==> shape_fits(#[trigger] ts@[j].shape@),
    {
        let ghost t = v.take(i + 1);
        proof {
            assert(t.drop_last() =~= v.take(i as int));
            assert(t.last().2 == ts@[i as int].shape@);
        }
        if !shape_fits_exec(&ts[i].shape) {
            let mut x = chars_of("refuse:classify-journey: export-repair ");
            extend_str(&mut x, "cannot view tensor ");
            extend_str(&mut x, ts[i].name.as_str());
            extend_str(&mut x, ": shape overflows usize");
            proof {
                assert(t.last().0 == ts@[i as int].name@);
                assert(first_unfit(t) == Some(ts@[i as int].name@));
                lemma_unfit_prefix(v, i + 1);
            }
            return Err(string_of(&x));
        }
    }
    assert(v.take(v.len() as int) =~= v);
    match serialize_shard(ts) {
        Ok(b) => Ok(b),
        Err(ShardError::View(n, m)) => {
            let mut x = chars_of(pre);
            extend_str(&mut x, "cannot view tensor ");
            extend_str(&mut x, n.as_str());
            extend_str(&mut x, ": ");
            extend_str(&mut x, m.as_str());
            Err(string_of(&x))
        },
        Err(ShardError::Write(m)) => {
            let mut x = chars_of(pre);
            extend_str(&mut x, "cannot write shard: ");
            extend_str(&mut x, m.as_str());
            Err(string_of(&x))
        },
    }
}

proof fn lemma_unfit_prefix(ts: Seq<ShardV>, k: int)
    requires
        0 <= k <= ts.len(),
        first_unfit(ts.take(k)) is Some,
    ensures
        first_unfit(ts) == first_unfit(ts.take(k)),
    decreases ts.len(),
{
    if k == ts.len() {
        assert(ts.take(k) =~= ts);
    } else {
        assert(ts.drop_last().take(k) =~= ts.take(k));
        lemma_unfit_prefix(ts.drop_last(), k);
    }
}

// ---------------------------------------------------------------- canonical JSON

/// The keys of the members, in order.
pub open spec fn keys_of(ps: PairsV) -> Seq<Seq<char>> {
    ps.map_values(|p: (Seq<char>, Seq<char>)| p.0)
}

/// The value text of the first member named `k`.
pub open spec fn value_at(ps: PairsV, k: Seq<char>) -> Seq<char>
    decreases ps.len(),
{
    if ps.len() == 0 {
        Seq::empty()
    } else if ps[0].0 == k {
        ps[0].1
    } else {
        value_at(ps.drop_first(), k)
    }
}

/// The members with their keys sorted, each key once.
pub open spec fn sorted_members(ps: PairsV) -> PairsV {
    sorted_set(keys_of(ps)).map_values(|k: Seq<char>| (k, value_at(ps, k)))
}

/// What `serde_json::to_string` prints for an object of the given members
/// (each value given as JSON text), or its message.
pub uninterp spec fn compact_json_text(members: PairsV) -> Result<Seq<char>, Seq<char>>;

/// `serde_json::to_string` of an object whose members' values are read
/// with `serde_json::from_str`. The contract claims only that the outcome
/// is a function of the members, named `compact_json_text`.
#[verifier::external_body]
fn compact_object(members: &Vec<(String, String)>) -> (r: Result<String, String>)
    ensures
        match r {
            Ok(t) => compact_json_text(pairs_view(members@)) == Ok::<Seq<char>, Seq<char>>(t@),
            Err(m) => compact_json_text(pairs_view(members@)) == Err::<Seq<char>, Seq<char>>(m@),
        },
{
    let mut map = serde_json::Map::new();
    for (k, v) in members {
        map.insert(k.clone(), serde_json::from_str(v).map_err(|e: serde_json::Error| e.to_string())?);
    }
    serde_json::to_string(&Value::Object(map)).map_err(|e| e.to_string())
}

/// The canonical text of an object's members: its keys sorted, so that the
/// order in which the members were written is not a difference.
pub open spec fn canonical_text(ps: PairsV) -> Seq<char> {
    match compact_json_text(sorted_members(ps)) {
        Ok(t) => t,
        Err(m) => "\"unserializable:"@ + m + "\""@,
    }
}

fn value_of(ps: &Vec<(String, String)>, k: &Vec<char>) -> (r: String)
    ensures
        r@ == value_at(pairs_view(ps@), k@),
{
    let ghost v = pairs_view(ps@);
    assert(v.skip(0) =~= v);
    for i in 0..ps.len()
        invariant
            v == pairs_view(ps@),
            value_at(v, k@) == value_at(v.skip(i as int), k@),
    {
        proof {
            let t = v.skip(i as int);
            assert(t.drop_first() =~= v.skip(i + 1));
            assert(t[0] == (ps@[i as int].0@, ps@[i as int].1@));
        }
        if equals_vec(&chars_of(ps[i].0.as_str()), k) {
            return ps[i].1.clone();
        }
    }
    assert(v.skip(ps@.len() as int) =~= Seq::<(Seq<char>, Seq<char>)>::empty());
    String::new()
}

/// Canonical JSON of an object given as its members (key, value as JSON
/// text): the members sorted by key, each key once, printed compactly.
pub fn canonical_json(params: &Vec<(String, String)>) -> (out: String)
    ensures
        out@ == canonical_text(pairs_view(params@)),
{
    let ghost pv = pairs_view(params@);
    let mut keys: Vec<Vec<char>> = Vec::new();
    for i in 0..params.len()
        invariant
            pv == pairs_view(params@),
            views(keys@) == keys_of(pv).take(i as int),
    {
        let ghost before = views(keys@);
        keys.push(chars_of(params[i].0.as_str()));
        proof {
            assert(views(keys@) =~= before.push(params@[i as int].0@));
            assert(keys_of(pv)[i as int] == params@[i as int].0@);
            assert(keys_of(pv).take(i + 1) =~= keys_of(pv).take(i as int).push(keys_of(pv)[i as int]));
        }
    }
    assert(keys_of(pv).take(params@.len() as int) =~= keys_of(pv));
    let sorted = sorted_unique(&keys);
    proof {
        lemma_is_sorted_set(views(sorted@), keys_of(pv));
    }
    let mut members: Vec<(String, String)> = Vec::new();
    for j in 0..sorted.len()
        invariant
            pv == pairs_view(params@),
            views(sorted@) == sorted_set(keys_of(pv)),
            pairs_view(members@) == sorted_members(pv).take(j as int),
    {
        let value = value_of(params, &sorted[j]);
        let key = string_of(&sorted[j]);
        let ghost before = pairs_view(members@);
        let ghost kv = key@;
        let ghost vv = value@;
        members.push((key, value));
        proof {
            let sm = sorted_members(pv);
            assert(pairs_view(members@) =~= before.push((kv, vv)));
            assert(kv == views(sorted@)[j as int]);
            assert(sm[j as int] == (kv, vv));
            assert(sm.take(j + 1) =~= sm.take(j as int).push(sm[j as int]));
        }
    }
    assert(sorted_members(pv).take(sorted@.len() as int) =~= sorted_members(pv));
    match compact_object(&members) {
        Ok(t) => t,
        Err(m) => {
            let mut x = chars_of("\"unserializable:");
            extend_str(&mut x, m.as_str());
            extend_str(&mut x, "\"");
            string_of(&x)
        },
    }
}

/// The digest of a binding whose parameters are an object: its id, class
/// and driver, and the parameters' canonical JSON.
pub fn binding_params_digest(id: &str, class: &str, driver: &str, params: &Vec<(String, String)>) -> (out: String)
    ensures
        out@ == hex_lower(
            sha256(encode_utf8(binding_material(id@, class@, driver@, canonical_text(pairs_view(params@))))),
        ),
        out@.len() == 64,
{
    let c = canonical_json(params);
    binding_digest(id, class, driver, c.as_str())
}

/// No two members share a key.
pub open spec fn distinct_keys(ps: PairsV) -> bool {
    forall|i: int, j: int| 0 <= i < j < ps.len() ==> ps[i].0 != ps[j].0
}

/// `x` placed into the sorted `t` before the first text above it.
pub open spec fn insert_sorted(t: Seq<Seq<char>>, x: Seq<char>) -> Seq<Seq<char>>
    decreases t.len(),
{
    if t.len() == 0 {
        seq![x]
    } else if lex_lt(x, t[0]) {
        seq![x] + t
    } else {
        seq![t[0]] + insert_sorted(t.drop_first(), x)
    }
}

proof fn lemma_insert_sorted(t: Seq<Seq<char>>, x: Seq<char>)
    requires
        strictly_sorted(t),
        !t.contains(x),
    ensures
        strictly_sorted(insert_sorted(t, x)),
        forall|y: Seq<char>| #[trigger] insert_sorted(t, x).contains(y) <==> (t.contains(y) || y == x),
    decreases t.len(),
{
    let r = insert_sorted(t, x);
    if t.len() == 0 {
        assert forall|y: Seq<char>| #[trigger] r.contains(y) <==> (t.contains(y) || y == x) by {
            if r.contains(y) {
                assert(r[0] == x);
            }
            if y == x {
                assert(r[0] == y);
            }
        }
    } else if lex_lt(x, t[0]) {
        assert forall|i: int, j: int| 0 <= i < j < r.len() implies lex_lt(r[i], r[j]) by {
            if i == 0 {
                if j > 1 {
                    lemma_lex_transitive(x, t[0], t[j - 1]);
                }
            } else {
                assert(r[i] == t[i - 1] && r[j] == t[j - 1]);
            }
        }
        assert forall|y: Seq<char>| #[trigger] r.contains(y) <==> (t.contains(y) || y == x) by {
            if r.contains(y) {
                let k = choose|k: int| 0 <= k < r.len() && r[k] == y;
                if k > 0 {
                    assert(t[k - 1] == y);
                }
            }
            if t.contains(y) {
                let k = choose|k: int| 0 <= k < t.len() && t[k] == y;
                assert(r[k + 1] == y);
            }
            if y == x {
                assert(r[0] == y);
            }
        }
    } else {
        let t1 = t.drop_first();
        assert forall|i: int, j: int| 0 <= i < j < t1.len() implies lex_lt(t1[i], t1[j]) by {
            assert(t1[i] == t[i + 1] && t1[j] == t[j + 1]);
        }
        assert(!t1.contains(x)) by {
            if t1.contains(x) {
                let k = choose|k: int| 0 <= k < t1.len() && t1[k] == x;
                assert(t[k + 1] == x);
            }
        }
        lemma_insert_sorted(t1, x);
        let r1 = insert_sorted(t1, x);
        assert(x != t[0]) by {
            assert(t.contains(t[0]));
        }
        lemma_lex_total(x, t[0]);
        assert forall|i: int, j: int| 0 <= i < j < r.len() implies lex_lt(r[i], r[j]) by {
            if i == 0 {
                assert(r1.contains(r[j])) by {
                    assert(r1[j - 1] == r[j]);
                }
                if r[j] != x {
                    assert(t1.contains(r[j]));
                    let k = choose|k: int| 0 <= k < t1.len() && t1[k] == r[j];
                    assert(t[k + 1] == r[j]);
                }
            } else {
                assert(r[i] == r1[i - 1] && r[j] == r1[j - 1]);
            }
        }
        assert forall|y: Seq<char>| #[trigger] r.contains(y) <==> (t.contains(y) || y == x) by {
            if r.contains(y) {
                let k = choose|k: int| 0 <= k < r.len() && r[k] == y;
                if k > 0 {
                    assert(r1[k - 1] == y);
                    assert(r1.contains(y));
                    if t1.contains(y) {
                        let m = choose|m: int| 0 <= m < t1.len() && t1[m] == y;
                        assert(t[m + 1] == y);
                    }
                } else {
                    assert(t[0] == y);
                }
            }
            if t.contains(y) {
                let k = choose|k: int| 0 <= k < t.len() && t[k] == y;
                if k == 0 {
                    assert(r[0] == y);
                } else {
                    assert(t1[k - 1] == y);
                    assert(t1.contains(y));
                    assert(r1.contains(y));
                    let m = choose|m: int| 0 <= m < r1.len() && r1[m] == y;
                    assert(r[m + 1] == y);
                }
            }
            if y == x {
                assert(r1.contains(x));
                let m = choose|m: int| 0 <= m < r1.len() && r1[m] == x;
                assert(r[m + 1] == y);
            }
        }
    }
}

/// Every sequence of texts has a strictly sorted one with the same texts.
proof fn lemma_sorted_set_exists(s: Seq<Seq<char>>)
    ensures
        strictly_sorted(sorted_set(s)),
        forall|x: Seq<char>|
            #![trigger sorted_set(s).contains(x)]
            #![trigger s.contains(x)]
            sorted_set(s).contains(x) <==> s.contains(x),
{
    let w = sorted_witness(s);
    assert(strictly_sorted(w) && forall|x: Seq<char>| #![trigger w.contains(x)] #![trigger s.contains(x)] w.contains(x) <==> s.contains(x));
}

proof fn sorted_witness(s: Seq<Seq<char>>) -> (t: Seq<Seq<char>>)
    ensures
        strictly_sorted(t),
        forall|x: Seq<char>| #![trigger t.contains(x)] #![trigger s.contains(x)] t.contains(x) <==> s.contains(x),
    decreases s.len(),
{
    if s.len() == 0 {
        Seq::empty()
    } else {
        let s0 = s.drop_last();
        let x = s.last();
        let t0 = sorted_witness(s0);
        assert forall|y: Seq<char>| s.contains(y) <==> (s0.contains(y) || y == x) by {
            if s.contains(y) {
                let k = choose|k: int| 0 <= k < s.len() && s[k] == y;
                if k < s.len() - 1 {
                    assert(s0[k] == y);
                }
            }
            if s0.contains(y) {
                let k = choose|k: int| 0 <= k < s0.len() && s0[k] == y;
                assert(s[k] == y);
            }
            if y == x {
                assert(s[s.len() - 1] == y);
            }
        }
        if t0.contains(x) {
            t0
        } else {
            lemma_insert_sorted(t0, x);
            insert_sorted(t0, x)
        }
    }
}

proof fn lemma_value_at_member(ps: PairsV, k: Seq<char>, v: Seq<char>)
    requires
        distinct_keys(ps),
        ps.contains((k, v)),
    ensures
        value_at(ps, k) == v,
    decreases ps.len(),
{
    let i = choose|i: int| 0 <= i < ps.len() && ps[i] == (k, v);
    if i > 0 {
        assert(ps[0].0 != ps[i].0);
        let rest = ps.drop_first();
        assert(rest[i - 1] == (k, v));
        assert forall|a: int, b: int| 0 <= a < b < rest.len() implies rest[a].0 != rest[b].0 by {
            assert(rest[a] == ps[a + 1] && rest[b] == ps[b + 1]);
        }
        lemma_value_at_member(rest, k, v);
    }
}

/// Key order is not a difference: two objects with the same members, each
/// key written once, have the same canonical text, and so a binding's
/// digest does not change when its parameters are written in another
/// order.
pub proof fn lemma_key_order_is_not_drift(a: PairsV, b: PairsV)
    requires
        distinct_keys(a),
        distinct_keys(b),
        forall|p: (Seq<char>, Seq<char>)| #[trigger] a.contains(p) <==> b.contains(p),
    ensures
        canonical_text(a) == canonical_text(b),
        forall|id: Seq<char>, class: Seq<char>, driver: Seq<char>|
            #[trigger] binding_material(id, class, driver, canonical_text(a)) == binding_material(
                id,
                class,
                driver,
                canonical_text(b),
            ),
{
    let ka = keys_of(a);
    let kb = keys_of(b);
    assert forall|x: Seq<char>| #![trigger ka.contains(x)] #![trigger kb.contains(x)] ka.contains(x) <==> kb.contains(x) by {
        if ka.contains(x) {
            let i = choose|i: int| 0 <= i < ka.len() && ka[i] == x;
            assert(a.contains(a[i]));
            let j = choose|j: int| 0 <= j < b.len() && b[j] == a[i];
            assert(kb[j] == x);
        }
        if kb.contains(x) {
            let i = choose|i: int| 0 <= i < kb.len() && kb[i] == x;
            assert(b.contains(b[i]));
            assert(a.contains(b[i]));
            let j = choose|j: int| 0 <= j < a.len() && a[j] == b[i];
            assert(ka[j] == x);
        }
    }
    lemma_sorted_set_exists(ka);
    lemma_sorted_set_exists(kb);
    let sa = sorted_set(ka);
    let sb = sorted_set(kb);
    lemma_sorted_same_set_equal(sa, sb);
    assert forall|i: int| 0 <= i < sa.len() implies value_at(a, #[trigger] sa[i]) == value_at(b, sa[i]) by {
        let k = sa[i];
        assert(sa.contains(k));
        assert(ka.contains(k));
        let m = choose|m: int| 0 <= m < ka.len() && ka[m] == k;
        let p = a[m];
        assert(a.contains(p));
        assert(b.contains(p));
        lemma_value_at_member(a, k, p.1);
        lemma_value_at_member(b, k, p.1);
    }
    assert(sorted_members(a) =~= sorted_members(b));
}

} // verus!
