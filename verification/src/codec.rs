//! The textual side of documents: reading them from bytes, writing them, and
//! the replies that callers get.

use vstd::prelude::*;
use vstd::string::*;
use vstd::utf8::encode_utf8;

use crate::error::{outcome, OpError};
use crate::json::{items_view, members_map, members_view, number_model, Json, JsonV, NumV};
use crate::text::{chars_of, concat, is_white, trim_start, trimmed_start};

verus! {

/// A document as `serde_json` holds it.
#[verifier::external_type_specification]
#[verifier::external_body]
pub struct ExValue(serde_json::Value);

/// The members of an object as `serde_json` holds them.
#[verifier::external_type_specification]
#[verifier::external_body]
#[verifier::reject_recursive_types(K)]
#[verifier::reject_recursive_types(V)]
pub struct ExMap<K, V>(serde_json::Map<K, V>);

/// What a `serde_json` document holds.
pub uninterp spec fn value_model(v: serde_json::Value) -> JsonV;

/// What the members of a `serde_json` object are.
pub uninterp spec fn map_model(m: serde_json::Map<String, serde_json::Value>) -> Map<
    Seq<char>,
    JsonV,
>;

/// A `serde_json` document taken apart by one level.
pub enum Node {
    Null,
    Bool(bool),
    Number(serde_json::Number),
    Text(String),
    Array(Vec<serde_json::Value>),
    Object(serde_json::Map<String, serde_json::Value>),
}

/// The models of a list of `serde_json` documents.
pub open spec fn values_model(items: Seq<serde_json::Value>) -> Seq<JsonV> {
    Seq::new(items.len(), |i: int| value_model(items[i]))
}

/// The models of a list of named `serde_json` documents.
pub open spec fn pairs_model(members: Seq<(String, serde_json::Value)>) -> Seq<(Seq<char>, JsonV)> {
    Seq::new(members.len(), |i: int| (members[i].0@, value_model(members[i].1)))
}

/// The model of a document of which one level is taken apart.
pub open spec fn node_model(n: Node) -> JsonV {
    match n {
        Node::Null => JsonV::Null,
        Node::Bool(b) => JsonV::Bool(b),
        Node::Number(x) => JsonV::Number(number_model(x)),
        Node::Text(s) => JsonV::Text(s@),
        Node::Array(items) => JsonV::Array(values_model(items@)),
        Node::Object(m) => JsonV::Object(map_model(m)),
    }
}

/// Tells the variants of `serde_json::Value` apart and hands out the fields.
#[verifier::external_body]
fn unfold(v: serde_json::Value) -> (r: Node)
    ensures
        node_model(r) == value_model(v),
{
    match v {
        serde_json::Value::Null => Node::Null,
        serde_json::Value::Bool(b) => Node::Bool(b),
        serde_json::Value::Number(n) => Node::Number(n),
        serde_json::Value::String(s) => Node::Text(s),
        serde_json::Value::Array(a) => Node::Array(a),
        serde_json::Value::Object(m) => Node::Object(m),
    }
}

/// Makes the variant of `serde_json::Value` that holds the given fields.
#[verifier::external_body]
fn fold(n: Node) -> (r: serde_json::Value)
    ensures
        value_model(r) == node_model(n),
{
    match n {
        Node::Null => serde_json::Value::Null,
        Node::Bool(b) => serde_json::Value::Bool(b),
        Node::Number(x) => serde_json::Value::Number(x),
        Node::Text(s) => serde_json::Value::String(s),
        Node::Array(a) => serde_json::Value::Array(a),
        Node::Object(m) => serde_json::Value::Object(m),
    }
}

/// Calls `IntoIterator::into_iter` of `serde_json::Map` and gathers what it hands
/// out: each member once, under its name.
#[verifier::external_body]
fn members_of(m: serde_json::Map<String, serde_json::Value>) -> (r: Vec<(String, serde_json::Value)>)
    ensures
        members_map(pairs_model(r@)) == map_model(m),
        forall|i: int, j: int|
            0 <= i < j < r@.len() ==> (#[trigger] r@[i]).0@ != (#[trigger] r@[j]).0@,
{
    m.into_iter().collect()
}

/// Calls `FromIterator::from_iter` of `serde_json::Map`: the map holds the members,
/// the later of two under one name.
#[verifier::external_body]
fn map_of(members: Vec<(String, serde_json::Value)>) -> (r: serde_json::Map<
    String,
    serde_json::Value,
>)
    ensures
        map_model(r) == members_map(pairs_model(members@)),
{
    serde_json::Map::from_iter(members)
}

/// What `serde_json::from_slice` reads from bytes; nothing where it fails.
pub uninterp spec fn json_of_bytes(bytes: Seq<u8>) -> Option<JsonV>;

/// Calls `serde_json::from_slice`: what it reads depends on the bytes alone, and from
/// no bytes it reads nothing.
#[verifier::external_body]
fn parse_bytes(bytes: &[u8]) -> (r: Option<serde_json::Value>)
    ensures
        match r {
            Some(v) => json_of_bytes(bytes@) == Some(value_model(v)),
            None => json_of_bytes(bytes@) is None,
        },
        bytes@.len() == 0 ==> r is None,
{
    serde_json::from_slice::<serde_json::Value>(bytes).ok()
}

/// What `serde_json::from_str` reads from a text, or what its error says.
pub uninterp spec fn json_of_text(text: Seq<char>) -> Result<JsonV, Seq<char>>;

/// Calls `serde_json::from_str`: what it reads, and what its error says, depends on
/// the text alone.
#[verifier::external_body]
fn parse_json_text(text: &str) -> (r: Result<serde_json::Value, String>)
    ensures
        parsed(r) == json_of_text(text@),
{
    serde_json::from_str::<serde_json::Value>(text).map_err(|e| e.to_string())
}

/// What `serde_yaml::from_str` reads from a text, or what its error says.
pub uninterp spec fn yaml_of_text(text: Seq<char>) -> Result<JsonV, Seq<char>>;

/// Calls `serde_yaml::from_str`: what it reads, and what its error says, depends on
/// the text alone.
#[verifier::external_body]
fn parse_yaml_text(text: &str) -> (r: Result<serde_json::Value, String>)
    ensures
        parsed(r) == yaml_of_text(text@),
{
    serde_yaml::from_str::<serde_json::Value>(text).map_err(|e| e.to_string())
}

/// What reading a text gave.
pub open spec fn parsed(r: Result<serde_json::Value, String>) -> Result<JsonV, Seq<char>> {
    match r {
        Ok(v) => Ok(value_model(v)),
        Err(e) => Err(e@),
    }
}

/// The document that kube's `DynamicObject` makes of a document: what
/// `serde_json::from_value` reads of it, written again; or what the error says.
pub uninterp spec fn object_form_of(doc: JsonV) -> Result<JsonV, Seq<char>>;

/// Calls `serde_json::from_value` for the `DynamicObject` of kube, and
/// `serde_json::to_value` on what it reads: the form of the object that the document
/// describes, and what the error says, depend on the document alone.
#[verifier::external_body]
fn read_object(v: serde_json::Value) -> (r: Result<serde_json::Value, String>)
    ensures
        parsed(r) == object_form_of(value_model(v)),
{
    let object = serde_json::from_value::<kube::core::DynamicObject>(v);
    object.and_then(serde_json::to_value).map_err(|e| e.to_string())
}

/// The text that `serde_json::to_string` writes for the `DynamicObject` of kube that
/// `serde_json::from_value` reads from a document, or what the error says.
pub uninterp spec fn object_text(doc: JsonV) -> Result<Seq<char>, Seq<char>>;

/// What writing an object gave.
pub open spec fn written_object(r: Result<String, String>) -> Result<Seq<char>, Seq<char>> {
    match r {
        Ok(s) => Ok(s@),
        Err(e) => Err(e@),
    }
}

/// Calls `serde_json::from_value` for the `DynamicObject` of kube, and
/// `serde_json::to_string` on what it reads: the text has the members in the order that
/// the object gives them. It, and what the error says, depend on the document alone;
/// control characters stand in it only as escapes, and `serde_json::from_slice` reads the
/// form of the object back from it, where that is a document of integers up to the depth
/// at which it gives up.
#[verifier::external_body]
fn print_object(v: serde_json::Value) -> (r: Result<String, String>)
    ensures
        written_object(r) == object_text(value_model(v)),
        r matches Ok(s) ==> forall|i: int| 0 <= i < s@.len() ==> ' ' <= #[trigger] s@[i],
        r matches Ok(s) ==> (object_form_of(value_model(v)) matches Ok(form) ==> is_plain(form, 127)
            ==> json_of_bytes(encode_utf8(s@)) == Some(form)),
{
    let object = serde_json::from_value::<kube::core::DynamicObject>(v);
    object.and_then(|o| serde_json::to_string(&o)).map_err(|e| e.to_string())
}

/// Whether a document is nested no deeper than `depth` and its numbers are integers of
/// 64 bits, with a sign or without.
pub open spec fn is_plain(j: JsonV, depth: nat) -> bool
    decreases depth,
{
    match j {
        JsonV::Number(n) => n matches NumV::Int(i) && i64::MIN <= i <= u64::MAX,
        JsonV::Array(items) => depth > 0 && forall|i: int|
            0 <= i < items.len() ==> is_plain(#[trigger] items[i], (depth - 1) as nat),
        JsonV::Object(m) => depth > 0 && forall|name: Seq<char>|
            m.contains_key(name) ==> is_plain(#[trigger] m[name], (depth - 1) as nat),
        _ => true,
    }
}

/// What `serde_json::to_string` writes for a document.
pub uninterp spec fn json_text(j: JsonV) -> Seq<char>;

/// Calls `serde_json::to_string`: a `serde_json` document, whose names are all texts, can
/// always be written, the text depends on what the document holds alone, control
/// characters stand in it only as escapes, and `serde_json::from_slice` reads
/// a document of integers back from it, up to the depth at which it gives up. Nothing
/// is said of fractions, which may come back as a neighbouring one.
#[verifier::external_body]
fn print(v: &serde_json::Value) -> (r: Result<String, String>)
    ensures
        r is Ok,
        r matches Ok(s) ==> s@ == json_text(value_model(*v)),
        r matches Ok(s) ==> forall|i: int| 0 <= i < s@.len() ==> ' ' <= #[trigger] s@[i],
        r matches Ok(s) ==> is_plain(value_model(*v), 127) ==> json_of_bytes(encode_utf8(s@))
            == Some(value_model(*v)),
{
    serde_json::to_string(v).map_err(|e| e.to_string())
}

proof fn lemma_members_map_finite(members: Seq<(Seq<char>, JsonV)>)
    ensures
        members_map(members).dom().finite(),
    decreases members.len(),
{
    if members.len() > 0 {
        lemma_members_map_finite(members.drop_last());
    }
}

/// Under distinct names each member is in the map.
proof fn lemma_members_map_has(members: Seq<(Seq<char>, JsonV)>, k: int)
    requires
        0 <= k < members.len(),
        forall|i: int, j: int|
            0 <= i < j < members.len() ==> (#[trigger] members[i]).0 != (#[trigger] members[j]).0,
    ensures
        members_map(members).contains_key(members[k].0),
        members_map(members)[members[k].0] == members[k].1,
    decreases members.len(),
{
    if k < members.len() - 1 {
        lemma_members_map_has(members.drop_last(), k);
        assert(members[k].0 != members[members.len() - 1].0);
    }
}

/// The library's document for one of `serde_json`.
pub fn import(v: serde_json::Value) -> (r: Json)
    ensures
        r@ == value_model(v),
    decreases value_model(v),
{
    let ghost whole = value_model(v);
    match unfold(v) {
        Node::Null => Json::Null,
        Node::Bool(b) => Json::Bool(b),
        Node::Number(n) => Json::Number(n),
        Node::Text(s) => Json::Text(s),
        Node::Array(mut items) => {
            let ghost all = items@;
            let mut out: Vec<Json> = Vec::new();
            assert(whole == JsonV::Array(values_model(all)));
            while items.len() > 0
                invariant
                    items@ == all.take(items@.len() as int),
                    items@.len() + out@.len() == all.len(),
                    whole == JsonV::Array(values_model(all)),
                    whole == value_model(v),
                    forall|k: int|
                        0 <= k < out@.len() ==> (#[trigger] out@[k])@ == value_model(
                            all[all.len() - 1 - k],
                        ),
                decreases items@.len(),
            {
                let ghost at = items@.len() - 1;
                let item = items.pop().unwrap();
                assert(item == all[at]);
                assert(decreases_to!(whole => whole->Array_0));
                assert(decreases_to!(whole->Array_0 => whole->Array_0[at]));
                out.push(import(item));
            }
            let back = reversed(out);
            assert(items_view(back@) =~= values_model(all));
            Json::Array(back)
        },
        Node::Object(m) => {
            let mut members = members_of(m);
            let ghost all = members@;
            let mut out: Vec<(String, Json)> = Vec::new();
            assert(whole == JsonV::Object(members_map(pairs_model(all))));
            while members.len() > 0
                invariant
                    members@ == all.take(members@.len() as int),
                    members@.len() + out@.len() == all.len(),
                    whole == JsonV::Object(members_map(pairs_model(all))),
                    whole == value_model(v),
                    forall|i: int, j: int|
                        0 <= i < j < all.len() ==> (#[trigger] all[i]).0@ != (#[trigger] all[j]).0@,
                    forall|k: int|
                        0 <= k < out@.len() ==> (#[trigger] out@[k]).0@ == all[all.len() - 1 - k].0@
                            && out@[k].1@ == value_model(all[all.len() - 1 - k].1),
                decreases members@.len(),
            {
                let ghost at = members@.len() - 1;
                let (name, item) = members.pop().unwrap();
                assert((name, item) == all[at]);
                proof {
                    let pairs = pairs_model(all);
                    lemma_members_map_finite(pairs);
                    lemma_members_map_has(pairs, at);
                    assert(decreases_to!(whole => whole->Object_0));
                    vstd::map::axiom_map_index_decreases_finite(whole->Object_0, pairs[at].0);
                }
                out.push((name, import(item)));
            }
            let back = reversed(out);
            assert(members_view(back@) =~= pairs_model(all));
            Json::Object(back)
        },
    }
}

/// A list from its last item to its first.
fn reversed<T>(v: Vec<T>) -> (r: Vec<T>)
    ensures
        r@ == v@.reverse(),
{
    let mut v = v;
    let mut out: Vec<T> = Vec::new();
    let ghost all = v@;
    while v.len() > 0
        invariant
            v@ == all.take(v@.len() as int),
            out@.len() + v@.len() == all.len(),
            forall|k: int| 0 <= k < out@.len() ==> #[trigger] out@[k] == all[all.len() - 1 - k],
        decreases v@.len(),
    {
        let item = v.pop().unwrap();
        out.push(item);
    }
    assert(out@ =~= all.reverse());
    out
}

/// The `serde_json` document for one of the library.
pub fn export(j: &Json) -> (r: serde_json::Value)
    ensures
        value_model(r) == j@,
    decreases *j,
{
    match j {
        Json::Null => fold(Node::Null),
        Json::Bool(b) => fold(Node::Bool(*b)),
        Json::Number(n) => fold(Node::Number(n.clone())),
        Json::Text(s) => fold(Node::Text(s.clone())),
        Json::Array(items) => {
            let mut out: Vec<serde_json::Value> = Vec::new();
            let mut i: usize = 0;
            while i < items.len()
                invariant
                    i <= items@.len(),
                    out@.len() == i,
                    *j == Json::Array(*items),
                    forall|k: int| 0 <= k < i ==> value_model(#[trigger] out@[k]) == items@[k]@,
                decreases items@.len() - i,
            {
                assert(decreases_to!(*j => j->Array_0));
                assert(decreases_to!(*items => items@[i as int]));
                out.push(export(&items[i]));
                i += 1;
            }
            assert(values_model(out@) =~= items_view(items@));
            fold(Node::Array(out))
        },
        Json::Object(members) => {
            let mut out: Vec<(String, serde_json::Value)> = Vec::new();
            let mut i: usize = 0;
            while i < members.len()
                invariant
                    i <= members@.len(),
                    out@.len() == i,
                    *j == Json::Object(*members),
                    forall|k: int|
                        0 <= k < i ==> (#[trigger] out@[k]).0@ == members@[k].0@ && value_model(
                            out@[k].1,
                        ) == members@[k].1@,
                decreases members@.len() - i,
            {
                assert(decreases_to!(*j => j->Object_0));
                assert(decreases_to!(*members => members@[i as int]));
                assert(decreases_to!(members@[i as int] => members@[i as int].1));
                out.push((members[i].0.clone(), export(&members[i].1)));
                i += 1;
            }
            assert(pairs_model(out@) =~= members_view(members@));
            fold(Node::Object(map_of(out)))
        },
    }
}

/// What the bytes of a call hold: `null` where there are none or they are no JSON.
pub open spec fn call_args(args: Option<Seq<u8>>) -> JsonV {
    match args {
        Some(bytes) => match json_of_bytes(bytes) {
            Some(j) => j,
            None => JsonV::Null,
        },
        None => JsonV::Null,
    }
}

/// The bytes of a call, where there are any.
pub open spec fn opt_bytes(args: Option<&[u8]>) -> Option<Seq<u8>> {
    match args {
        Some(b) => Some(b@),
        None => None,
    }
}

/// The document that a call is given. No bytes are as good as no arguments.
pub fn decode_args(args: Option<&[u8]>) -> (r: Json)
    ensures
        r@ == call_args(opt_bytes(args)),
        args matches Some(b) && b@.len() == 0 ==> r@ == JsonV::Null,
{
    match args {
        Some(bytes) => match parse_bytes(bytes) {
            Some(v) => import(v),
            None => Json::Null,
        },
        None => Json::Null,
    }
}

/// The document that a reply carries: the answer, or the error under `error`.
pub open spec fn reply_document(r: Result<JsonV, Seq<char>>) -> JsonV {
    match r {
        Ok(j) => j,
        Err(message) => JsonV::blank().with("error"@, JsonV::Text(message)),
    }
}

/// The text of a reply.
pub open spec fn reply(r: Result<JsonV, Seq<char>>) -> Seq<char> {
    json_text(reply_document(r))
}

/// Whether a text can stand in a C string.
pub open spec fn has_no_nul(s: Seq<char>) -> bool {
    forall|i: int| 0 <= i < s.len() ==> #[trigger] s[i] != '\0'
}

/// Whether a text is the reply that carries the given outcome. It can always stand in a C
/// string, and where its document is one of integers that is not too deep, a call that is
/// given the reply gets the document.
pub open spec fn replies(s: Seq<char>, r: Result<JsonV, Seq<char>>) -> bool {
    &&& s == reply(r)
    &&& has_no_nul(s)
    &&& is_plain(reply_document(r), 127) ==> call_args(Some(encode_utf8(s))) == reply_document(r)
}

/// Writes a reply.
pub fn encode_reply(result: Result<Json, OpError>) -> (r: String)
    ensures
        replies(r@, outcome(result)),
{
    let document = match result {
        Ok(j) => j,
        Err(e) => Json::blank().with("error", Json::Text(e.message)),
    };
    match print(&export(&document)) {
        Ok(s) => s,
        Err(_) => "{\"error\":\"serialize\"}".to_owned(),
    }
}

/// The reply to a call whose handling broke off.
pub fn panic_reply() -> (r: String)
    ensures
        replies(r@, Err("stryke-k8s handler panicked"@)),
        call_args(Some(encode_utf8(r@))) == reply_document(Err("stryke-k8s handler panicked"@)),
{
    proof {
        law_error_document_is_plain("stryke-k8s handler panicked"@);
    }
    encode_reply(Err(OpError::new("stryke-k8s handler panicked")))
}

/// Whether a text is taken for JSON: its first character that is not white space
/// opens an object or an array.
pub open spec fn looks_like_json(text: Seq<char>) -> bool {
    let t = trim_start(text);
    t.len() > 0 && (t[0] == '{' || t[0] == '[')
}

/// What a text holds as JSON or YAML, or why it could not be read.
pub open spec fn document_of(text: Seq<char>) -> Result<JsonV, Seq<char>> {
    if looks_like_json(text) {
        match json_of_text(text) {
            Ok(j) => Ok(j),
            Err(e) => Err("parsing JSON document: "@ + e),
        }
    } else {
        match yaml_of_text(text) {
            Ok(j) => Ok(j),
            Err(e) => Err("parsing YAML document: "@ + e),
        }
    }
}

/// Reads a document written in JSON or YAML.
pub fn read_doc(text: &str) -> (r: Result<Json, OpError>)
    ensures
        outcome(r) == document_of(text@),
{
    if opens_json(text) {
        read_json(parse_json_text(text), "parsing JSON document: ")
    } else {
        read_json(parse_yaml_text(text), "parsing YAML document: ")
    }
}

/// Whether a text is taken for JSON.
pub fn opens_json(text: &str) -> (r: bool)
    ensures
        r == looks_like_json(text@),
{
    let t = chars_of(trimmed_start(text).as_str());
    t.len() > 0 && (t[0] == '{' || t[0] == '[')
}

/// The document that was read, or the error with what was being done before it.
pub fn read_json(read: Result<serde_json::Value, String>, doing: &str) -> (r: Result<Json, OpError>)
    ensures
        outcome(r) == (match parsed(read) {
            Ok(j) => Ok(j),
            Err(e) => Err(doing@ + e),
        }),
{
    match read {
        Ok(v) => Ok(import(v)),
        Err(e) => Err(OpError { message: concat(doing, e.as_str()) }),
    }
}

/// The form of the object that a document describes, or why it describes none.
pub fn object_form(doc: &Json) -> (r: Result<Json, OpError>)
    ensures
        outcome(r) == object_form_of(doc@),
{
    match read_object(export(doc)) {
        Ok(v) => Ok(import(v)),
        Err(e) => Err(OpError { message: e }),
    }
}

/// Writes a document.
pub fn write_document(j: &Json) -> (r: String)
    ensures
        r@ == json_text(j@),
{
    match print(&export(j)) {
        Ok(s) => s,
        Err(e) => e,
    }
}

/// A document on a line of its own.
pub open spec fn line(j: JsonV) -> Seq<char> {
    json_text(j).push('\n')
}

/// Whether a text ends with a line break and holds no other.
pub open spec fn is_single_line(s: Seq<char>) -> bool {
    &&& s.len() > 0
    &&& s.last() == '\n'
    &&& forall|i: int| 0 <= i < s.len() - 1 ==> #[trigger] s[i] != '\n'
}

/// Writes a document on a line of its own.
pub fn write_line(j: &Json) -> (r: Result<String, OpError>)
    ensures
        r matches Ok(s) && s@ == line(j@) && is_single_line(s@),
{
    match print(&export(j)) {
        Ok(s) => {
            let mut out = s;
            out.push('\n');
            Ok(out)
        },
        Err(e) => Err(OpError { message: e }),
    }
}

/// A document on a line of its own, as the object that it describes is written: `text` is
/// that of the object. A document that describes none is written as it is.
pub open spec fn line_with(doc: JsonV, text: Result<Seq<char>, Seq<char>>) -> Seq<char> {
    match text {
        Ok(s) => s.push('\n'),
        Err(_) => line(doc),
    }
}

/// The line of an object: what it is, then its metadata, then the rest.
pub open spec fn object_line(doc: JsonV) -> Seq<char> {
    line_with(doc, object_text(doc))
}

/// Writes a document on a line of its own: `text` is that of the object that it describes,
/// or why it describes none.
pub fn write_line_with(doc: &Json, text: Result<String, String>) -> (r: String)
    ensures
        r@ == line_with(doc@, written_object(text)),
{
    let mut out = match text {
        Ok(s) => s,
        Err(_) => write_document(doc),
    };
    out.push('\n');
    out
}

/// Writes an object on a line of its own. Where its form is a document of integers that is
/// not too deep, the form is what is read from the line.
pub fn write_object_line(doc: &Json) -> (r: String)
    ensures
        r@ == object_line(doc@),
        is_single_line(r@),
        object_text(doc@) is Ok ==> (object_form_of(doc@) matches Ok(form) ==> is_plain(form, 127)
            ==> json_of_bytes(encode_utf8(r@.drop_last())) == Some(form)),
{
    let text = print_object(export(doc));
    match text {
        Ok(s) => {
            let ghost written = s@;
            let r = write_line_with(doc, Ok(s));
            assert(r@.drop_last() =~= written);
            r
        },
        Err(_) => match write_line(doc) {
            Ok(s) => s,
            Err(e) => e.message,
        },
    }
}

/// Appends a document on a line of its own.
pub fn emit_ndjson(out: &mut String, j: &Json) -> (r: Result<(), OpError>)
    ensures
        r is Ok,
        is_single_line(line(j@)),
        final(out)@ == old(out)@ + line(j@),
{
    match write_line(j) {
        Ok(s) => {
            out.append(s.as_str());
            Ok(())
        },
        Err(e) => Err(e),
    }
}

/// The document of an error is plain, so that its reply is read back.
pub proof fn law_error_document_is_plain(message: Seq<char>)
    ensures
        is_plain(reply_document(Err(message)), 127),
{
    let m = reply_document(Err(message))->Object_0;
    assert forall|name: Seq<char>| m.contains_key(name) implies is_plain(
        #[trigger] m[name],
        126,
    ) by {
        assert(m[name] == JsonV::Text(message));
    }
}

/// White space before a document makes no difference to what it is taken for.
pub proof fn law_leading_white_space(white: Seq<char>, text: Seq<char>)
    requires
        forall|i: int| 0 <= i < white.len() ==> is_white(#[trigger] white[i]),
    ensures
        looks_like_json(white + text) == looks_like_json(text),
    decreases white.len(),
{
    if white.len() == 0 {
        assert(white + text =~= text);
    } else {
        let rest = white.drop_first();
        assert((white + text).drop_first() =~= rest + text);
        assert((white + text).first() == white[0]);
        assert forall|i: int| 0 <= i < rest.len() implies is_white(#[trigger] rest[i]) by {
            assert(rest[i] == white[i + 1]);
        }
        law_leading_white_space(rest, text);
    }
}

} // verus!
