//! Label selectors: their requirements, how they are written, and which
//! label maps they select.

use vstd::prelude::*;
use vstd::string::*;

use crate::error::{outcome, OpError};
use crate::json::{items_view, text_array, Json, JsonV};
use crate::text::{
    chars_of, cut_all, cut_once, join, joined, pieces, same_text, split, split_once, text_of, texts,
    trim, trimmed,
};

verus! {

/// One condition of a label selector.
#[derive(Debug)]
pub enum Requirement {
    Equal { key: String, value: String },
    NotEqual { key: String, value: String },
    In { key: String, values: Vec<String> },
    NotIn { key: String, values: Vec<String> },
    Exists { key: String },
    DoesNotExist { key: String },
}

/// What a requirement is, in texts.
pub enum RequirementV {
    Equal { key: Seq<char>, value: Seq<char> },
    NotEqual { key: Seq<char>, value: Seq<char> },
    In { key: Seq<char>, values: Seq<Seq<char>> },
    NotIn { key: Seq<char>, values: Seq<Seq<char>> },
    Exists { key: Seq<char> },
    DoesNotExist { key: Seq<char> },
}

impl View for Requirement {
    type V = RequirementV;

    open spec fn view(&self) -> RequirementV {
        match *self {
            Requirement::Equal { key, value } => RequirementV::Equal { key: key@, value: value@ },
            Requirement::NotEqual { key, value } => RequirementV::NotEqual {
                key: key@,
                value: value@,
            },
            Requirement::In { key, values } => RequirementV::In {
                key: key@,
                values: texts(values@),
            },
            Requirement::NotIn { key, values } => RequirementV::NotIn {
                key: key@,
                values: texts(values@),
            },
            Requirement::Exists { key } => RequirementV::Exists { key: key@ },
            Requirement::DoesNotExist { key } => RequirementV::DoesNotExist { key: key@ },
        }
    }
}

/// The models of a list of requirements.
pub open spec fn requirement_views(reqs: Seq<Requirement>) -> Seq<RequirementV> {
    Seq::new(reqs.len(), |i: int| reqs[i]@)
}

/// How many parentheses a text opens more than it closes.
pub open spec fn depth(s: Seq<char>) -> int
    decreases s.len(),
{
    if s.len() == 0 {
        0
    } else if s.last() == '(' {
        depth(s.drop_last()) + 1
    } else if s.last() == ')' {
        depth(s.drop_last()) - 1
    } else {
        depth(s.drop_last())
    }
}

/// The cut at every comma outside parentheses.
pub open spec fn at_top_comma() -> spec_fn(Seq<char>) -> bool {
    |p: Seq<char>| p.last() == ',' && depth(p.drop_last()) == 0
}

/// The given texts trimmed, without those that are then empty.
pub open spec fn kept(parts: Seq<Seq<char>>) -> Seq<Seq<char>>
    decreases parts.len(),
{
    if parts.len() == 0 {
        Seq::empty()
    } else {
        let before = kept(parts.drop_last());
        let last = trim(parts.last());
        if last.len() == 0 {
            before
        } else {
            before.push(last)
        }
    }
}

/// The requirements of a selector as they are written: what stands between the
/// commas outside parentheses, trimmed, the empty ones left out.
pub open spec fn raw_requirements(s: Seq<char>) -> Seq<Seq<char>> {
    kept(pieces(s, at_top_comma()))
}

/// The text without any `c` at its start.
pub open spec fn strip_start(s: Seq<char>, c: char) -> Seq<char>
    decreases s.len(),
{
    if s.len() > 0 && s.first() == c {
        strip_start(s.drop_first(), c)
    } else {
        s
    }
}

/// The text without any `c` at its end.
pub open spec fn strip_end(s: Seq<char>, c: char) -> Seq<char>
    decreases s.len(),
{
    if s.len() > 0 && s.last() == c {
        strip_end(s.drop_last(), c)
    } else {
        s
    }
}

/// The values of a set as it is written: parentheses around it are dropped, and
/// commas part the values.
pub open spec fn set_members(s: Seq<char>) -> Seq<Seq<char>> {
    kept(split(strip_end(strip_start(trim(s), '('), ')'), ','))
}

/// The requirement that a text states.
pub open spec fn requirement_of(raw: Seq<char>) -> RequirementV {
    match split_once(raw, " notin "@) {
        Some((k, rest)) => RequirementV::NotIn { key: trim(k), values: set_members(rest) },
        None => match split_once(raw, " in "@) {
            Some((k, rest)) => RequirementV::In { key: trim(k), values: set_members(rest) },
            None => match split_once(raw, "!="@) {
                Some((k, v)) => RequirementV::NotEqual { key: trim(k), value: trim(v) },
                None => match split_once(raw, "=="@) {
                    Some((k, v)) => RequirementV::Equal { key: trim(k), value: trim(v) },
                    None => match split_once(raw, "="@) {
                        Some((k, v)) => RequirementV::Equal { key: trim(k), value: trim(v) },
                        None => if raw.len() > 0 && raw[0] == '!' {
                            RequirementV::DoesNotExist { key: trim(raw.skip(1)) }
                        } else {
                            RequirementV::Exists { key: trim(raw) }
                        },
                    },
                },
            },
        },
    }
}

/// The requirements that a selector states.
pub open spec fn requirements_of(sel: Seq<char>) -> Seq<RequirementV> {
    let raw = raw_requirements(sel);
    Seq::new(raw.len(), |i: int| requirement_of(raw[i]))
}

/// How a requirement is written.
pub open spec fn written(r: RequirementV) -> Seq<char> {
    match r {
        RequirementV::Equal { key, value } => key + "="@ + value,
        RequirementV::NotEqual { key, value } => key + "!="@ + value,
        RequirementV::In { key, values } => key + " in ("@ + join(values, ","@) + ")"@,
        RequirementV::NotIn { key, values } => key + " notin ("@ + join(values, ","@) + ")"@,
        RequirementV::Exists { key } => key,
        RequirementV::DoesNotExist { key } => "!"@ + key,
    }
}

/// How a list of requirements is written.
pub open spec fn selector_text(reqs: Seq<RequirementV>) -> Seq<char> {
    join(Seq::new(reqs.len(), |i: int| written(reqs[i])), ","@)
}

/// A requirement as a document.
pub open spec fn requirement_json(r: RequirementV) -> JsonV {
    match r {
        RequirementV::Equal { key, value } => JsonV::blank()
            .with("key"@, JsonV::Text(key))
            .with("op"@, JsonV::Text("Equal"@))
            .with("value"@, JsonV::Text(value)),
        RequirementV::NotEqual { key, value } => JsonV::blank()
            .with("key"@, JsonV::Text(key))
            .with("op"@, JsonV::Text("NotEqual"@))
            .with("value"@, JsonV::Text(value)),
        RequirementV::In { key, values } => JsonV::blank()
            .with("key"@, JsonV::Text(key))
            .with("op"@, JsonV::Text("In"@))
            .with("values"@, text_array(values)),
        RequirementV::NotIn { key, values } => JsonV::blank()
            .with("key"@, JsonV::Text(key))
            .with("op"@, JsonV::Text("NotIn"@))
            .with("values"@, text_array(values)),
        RequirementV::Exists { key } => JsonV::blank()
            .with("key"@, JsonV::Text(key))
            .with("op"@, JsonV::Text("Exists"@)),
        RequirementV::DoesNotExist { key } => JsonV::blank()
            .with("key"@, JsonV::Text(key))
            .with("op"@, JsonV::Text("DoesNotExist"@)),
    }
}

/// A list of requirements as a document.
pub open spec fn requirements_json(reqs: Seq<RequirementV>) -> JsonV {
    JsonV::Array(Seq::new(reqs.len(), |i: int| requirement_json(reqs[i])))
}

/// The labels that a document holds; one that is no object holds none.
pub open spec fn labels_of(j: JsonV) -> Map<Seq<char>, JsonV> {
    match j {
        JsonV::Object(m) => m,
        _ => Map::empty(),
    }
}

/// The text value of a label.
pub open spec fn label_value(labels: Map<Seq<char>, JsonV>, key: Seq<char>) -> Option<Seq<char>> {
    if labels.contains_key(key) {
        labels[key].text()
    } else {
        None
    }
}

/// Whether a label map meets a requirement. A label that is absent, or whose
/// value is no text, is in no set and equal to no value.
pub open spec fn satisfies(labels: Map<Seq<char>, JsonV>, r: RequirementV) -> bool {
    match r {
        RequirementV::Equal { key, value } => label_value(labels, key) == Some(value),
        RequirementV::NotEqual { key, value } => label_value(labels, key) != Some(value),
        RequirementV::In { key, values } => match label_value(labels, key) {
            Some(v) => values.contains(v),
            None => false,
        },
        RequirementV::NotIn { key, values } => match label_value(labels, key) {
            Some(v) => !values.contains(v),
            None => true,
        },
        RequirementV::Exists { key } => labels.contains_key(key),
        RequirementV::DoesNotExist { key } => !labels.contains_key(key),
    }
}

/// Whether a label map meets every requirement.
pub open spec fn satisfies_all(labels: Map<Seq<char>, JsonV>, reqs: Seq<RequirementV>) -> bool {
    forall|i: int| 0 <= i < reqs.len() ==> satisfies(labels, #[trigger] reqs[i])
}

/// Splits a label selector on its commas, but not on those inside the
/// parentheses of a set; the pieces are trimmed and the empty ones dropped.
pub fn split_requirements(s: &str) -> (r: Vec<String>)
    ensures
        texts(r@) == raw_requirements(s@),
{
    let v = chars_of(s);
    let mut out: Vec<String> = Vec::new();
    let mut level: i128 = 0;
    let mut cur = String::new();
    let mut i: usize = 0;
    let ghost cut = at_top_comma();
    let ghost mut done: Seq<Seq<char>> = Seq::empty();
    assert(v@.take(0) =~= Seq::empty());
    assert(done.push(cur@) =~= seq![Seq::<char>::empty()]);
    assert(texts(out@) =~= kept(done));
    while i < v.len()
        invariant
            i <= v@.len(),
            v@ == s@,
            cut == at_top_comma(),
            done.push(cur@) == pieces(s@.take(i as int), cut),
            texts(out@) == kept(done),
            level == depth(s@.take(i as int)),
            -(i as int) <= level <= i,
        decreases v@.len() - i,
    {
        let c = v[i];
        let ghost prefix = s@.take(i as int + 1);
        let ghost before = done.push(cur@);
        assert(prefix.drop_last() =~= s@.take(i as int));
        assert(before.drop_last() =~= done);
        if c == ',' && level == 0 {
            push_kept(&mut out, cur.as_str(), Ghost(done));
            proof {
                done = before;
            }
            cur = String::new();
        } else {
            if c == '(' {
                level += 1;
            } else if c == ')' {
                level -= 1;
            }
            cur.push(c);
        }
        i += 1;
    }
    assert(s@.take(s@.len() as int) =~= s@);
    push_kept(&mut out, cur.as_str(), Ghost(done));
    out
}

/// Adds a text, trimmed, unless it is then empty.
fn push_kept(out: &mut Vec<String>, part: &str, Ghost(done): Ghost<Seq<Seq<char>>>)
    requires
        texts(old(out)@) == kept(done),
    ensures
        texts(final(out)@) == kept(done.push(part@)),
{
    let t = trimmed(part);
    assert(done.push(part@).drop_last() =~= done);
    if !t.as_str().is_empty() {
        let ghost before = out@;
        out.push(t);
        assert(texts(out@) =~= texts(before).push(t@));
    }
}

/// The values of a set as it is written in a selector.
pub fn set_values(s: &str) -> (r: Vec<String>)
    ensures
        texts(r@) == set_members(s@),
{
    let t = trimmed(s);
    let v = chars_of(t.as_str());
    let mut a: usize = 0;
    assert(v@.skip(0) =~= v@);
    while a < v.len() && v[a] == '('
        invariant
            a <= v@.len(),
            strip_start(v@.skip(a as int), '(') == strip_start(v@, '('),
        decreases v@.len() - a,
    {
        assert(v@.skip(a as int).drop_first() =~= v@.skip(a as int + 1));
        a += 1;
    }
    let mut b: usize = v.len();
    assert(v@.subrange(a as int, b as int) =~= v@.skip(a as int));
    while a < b && v[b - 1] == ')'
        invariant
            a <= b <= v@.len(),
            strip_end(v@.subrange(a as int, b as int), ')') == strip_end(strip_start(v@, '('), ')'),
        decreases b,
    {
        assert(v@.subrange(a as int, b as int).drop_last() =~= v@.subrange(a as int, b - 1));
        b -= 1;
    }
    let inner = text_of(&v, a, b);
    let parts = cut_all(inner.as_str(), ',');
    let mut out: Vec<String> = Vec::new();
    let mut i: usize = 0;
    assert(texts(parts@).take(0) =~= Seq::empty());
    assert(texts(out@) =~= kept(texts(parts@).take(0)));
    while i < parts.len()
        invariant
            i <= parts@.len(),
            texts(out@) == kept(texts(parts@).take(i as int)),
        decreases parts@.len() - i,
    {
        push_kept(&mut out, parts[i].as_str(), Ghost(texts(parts@).take(i as int)));
        assert(texts(parts@).take(i as int + 1) =~= texts(parts@).take(i as int).push(parts@[i as int]@));
        i += 1;
    }
    assert(texts(parts@).take(parts@.len() as int) =~= texts(parts@));
    out
}

/// The requirement that one text of a selector states.
fn parse_requirement(raw: &str) -> (r: Requirement)
    ensures
        r@ == requirement_of(raw@),
{
    if let Some((k, rest)) = cut_once(raw, " notin ") {
        return Requirement::NotIn { key: trimmed(k.as_str()), values: set_values(rest.as_str()) };
    }
    if let Some((k, rest)) = cut_once(raw, " in ") {
        return Requirement::In { key: trimmed(k.as_str()), values: set_values(rest.as_str()) };
    }
    if let Some((k, v)) = cut_once(raw, "!=") {
        return Requirement::NotEqual { key: trimmed(k.as_str()), value: trimmed(v.as_str()) };
    }
    if let Some((k, v)) = cut_once(raw, "==") {
        return Requirement::Equal { key: trimmed(k.as_str()), value: trimmed(v.as_str()) };
    }
    if let Some((k, v)) = cut_once(raw, "=") {
        return Requirement::Equal { key: trimmed(k.as_str()), value: trimmed(v.as_str()) };
    }
    let v = chars_of(raw);
    if v.len() > 0 && v[0] == '!' {
        let rest = text_of(&v, 1, v.len());
        assert(rest@ =~= raw@.skip(1));
        Requirement::DoesNotExist { key: trimmed(rest.as_str()) }
    } else {
        Requirement::Exists { key: trimmed(raw) }
    }
}

/// The requirements that a label selector states: equality (`k=v`, `k==v`,
/// `k!=v`), sets (`k in (a,b)`, `k notin (a,b)`) and existence (`k`, `!k`).
pub fn parse_selector_reqs(sel: &str) -> (r: Vec<Requirement>)
    ensures
        requirement_views(r@) == requirements_of(sel@),
{
    let raw = split_requirements(sel);
    let mut out: Vec<Requirement> = Vec::new();
    let mut i: usize = 0;
    while i < raw.len()
        invariant
            i <= raw@.len(),
            texts(raw@) == raw_requirements(sel@),
            out@.len() == i,
            forall|k: int| 0 <= k < i ==> (#[trigger] out@[k])@ == requirement_of(raw@[k]@),
        decreases raw@.len() - i,
    {
        out.push(parse_requirement(raw[i].as_str()));
        i += 1;
    }
    assert(requirement_views(out@) =~= requirements_of(sel@)) by {
        assert forall|k: int| 0 <= k < raw@.len() implies raw@[k]@ == raw_requirements(sel@)[k] by {
            assert(texts(raw@)[k] == raw@[k]@);
        }
        assert(texts(raw@).len() == raw@.len());
    }
    out
}

/// A list of requirements as a document.
fn requirements_document(reqs: &Vec<Requirement>) -> (r: Json)
    ensures
        r@ == requirements_json(requirement_views(reqs@)),
{
    let mut out: Vec<Json> = Vec::new();
    let mut i: usize = 0;
    while i < reqs.len()
        invariant
            i <= reqs@.len(),
            out@.len() == i,
            forall|k: int| 0 <= k < i ==> (#[trigger] out@[k])@ == requirement_json(reqs@[k]@),
        decreases reqs@.len() - i,
    {
        out.push(reqs[i].document());
        i += 1;
    }
    assert(items_view(out@) =~= requirements_json(requirement_views(reqs@))->Array_0);
    Json::Array(out)
}

impl Requirement {
    /// The requirement as a document: its key, its operator, and its value or
    /// values where it has them.
    pub fn document(&self) -> (r: Json)
        ensures
            r@ == requirement_json(self@),
    {
        match self {
            Requirement::Equal { key, value } => Json::blank().with(
                "key",
                Json::of_text(key.as_str()),
            ).with("op", Json::of_text("Equal")).with("value", Json::of_text(value.as_str())),
            Requirement::NotEqual { key, value } => Json::blank().with(
                "key",
                Json::of_text(key.as_str()),
            ).with("op", Json::of_text("NotEqual")).with(
                "value",
                Json::of_text(value.as_str()),
            ),
            Requirement::In { key, values } => Json::blank().with(
                "key",
                Json::of_text(key.as_str()),
            ).with("op", Json::of_text("In")).with("values", Json::of_texts(values)),
            Requirement::NotIn { key, values } => Json::blank().with(
                "key",
                Json::of_text(key.as_str()),
            ).with("op", Json::of_text("NotIn")).with("values", Json::of_texts(values)),
            Requirement::Exists { key } => Json::blank().with(
                "key",
                Json::of_text(key.as_str()),
            ).with("op", Json::of_text("Exists")),
            Requirement::DoesNotExist { key } => Json::blank().with(
                "key",
                Json::of_text(key.as_str()),
            ).with("op", Json::of_text("DoesNotExist")),
        }
    }

    /// The requirement as it is written in a selector.
    pub fn write(&self) -> (r: String)
        ensures
            r@ == written(self@),
    {
        match self {
            Requirement::Equal { key, value } => {
                let mut out = key.clone();
                out.append("=");
                out.append(value.as_str());
                out
            },
            Requirement::NotEqual { key, value } => {
                let mut out = key.clone();
                out.append("!=");
                out.append(value.as_str());
                out
            },
            Requirement::In { key, values } => {
                let mut out = key.clone();
                out.append(" in (");
                out.append(joined(values, ",").as_str());
                out.append(")");
                out
            },
            Requirement::NotIn { key, values } => {
                let mut out = key.clone();
                out.append(" notin (");
                out.append(joined(values, ",").as_str());
                out.append(")");
                out
            },
            Requirement::Exists { key } => key.clone(),
            Requirement::DoesNotExist { key } => {
                let mut out = "!".to_owned();
                out.append(key.as_str());
                out
            },
        }
    }

    /// Whether a label map meets the requirement. A document that is no object
    /// has no labels.
    pub fn met_by(&self, labels: &Json) -> (r: bool)
        ensures
            r == satisfies(labels_of(labels@), self@),
    {
        match self {
            Requirement::Equal { key, value } => match labels.text_at(key.as_str()) {
                Some(v) => same_text(v.as_str(), value.as_str()),
                None => false,
            },
            Requirement::NotEqual { key, value } => match labels.text_at(key.as_str()) {
                Some(v) => !same_text(v.as_str(), value.as_str()),
                None => true,
            },
            Requirement::In { key, values } => match labels.text_at(key.as_str()) {
                Some(v) => among(v.as_str(), values),
                None => false,
            },
            Requirement::NotIn { key, values } => match labels.text_at(key.as_str()) {
                Some(v) => !among(v.as_str(), values),
                None => true,
            },
            Requirement::Exists { key } => labels.get(key.as_str()).is_some(),
            Requirement::DoesNotExist { key } => labels.get(key.as_str()).is_none(),
        }
    }
}

/// Whether a text is one of a list.
fn among(s: &str, list: &Vec<String>) -> (r: bool)
    ensures
        r == texts(list@).contains(s@),
{
    let mut i: usize = 0;
    while i < list.len()
        invariant
            i <= list@.len(),
            forall|k: int| 0 <= k < i ==> (#[trigger] list@[k])@ != s@,
        decreases list@.len() - i,
    {
        if same_text(list[i].as_str(), s) {
            assert(texts(list@)[i as int] == s@);
            return true;
        }
        i += 1;
    }
    assert(forall|k: int| 0 <= k < list@.len() ==> (#[trigger] texts(list@)[k]) == list@[k]@);
    false
}

/// What parsing a selector answers.
pub open spec fn parse_selector_outcome(opts: JsonV) -> Result<JsonV, Seq<char>> {
    match opts.field("selector"@).text() {
        Some(sel) => Ok(
            JsonV::blank().with("requirements"@, requirements_json(requirements_of(sel))),
        ),
        None => Err("missing selector"@),
    }
}

/// Parses the label selector `selector` into its requirements.
pub fn op_parse_selector(opts: &Json) -> (r: Result<Json, OpError>)
    ensures
        outcome(r) == parse_selector_outcome(opts@),
{
    let sel = match opts.text_at("selector") {
        Some(s) => s,
        None => return Err(OpError::new("missing selector")),
    };
    let reqs = parse_selector_reqs(sel.as_str());
    Ok(Json::blank().with("requirements", requirements_document(&reqs)))
}

/// What matching labels against a selector answers.
pub open spec fn selector_matches_outcome(opts: JsonV) -> Result<JsonV, Seq<char>> {
    match opts.field("labels"@) {
        JsonV::Object(labels) => match opts.field("selector"@).text() {
            Some(sel) => Ok(
                JsonV::blank()
                    .with("matches"@, JsonV::Bool(satisfies_all(labels, requirements_of(sel))))
                    .with("requirements"@, requirements_json(requirements_of(sel))),
            ),
            None => Err("missing selector"@),
        },
        _ => Err("missing labels (object)"@),
    }
}

/// Tells whether the label map `labels` meets every requirement of the label
/// selector `selector`.
pub fn op_selector_matches(opts: &Json) -> (r: Result<Json, OpError>)
    ensures
        outcome(r) == selector_matches_outcome(opts@),
{
    let labels = match opts.get("labels") {
        Some(j) => j,
        None => return Err(OpError::new("missing labels (object)")),
    };
    match labels {
        Json::Object(_) => {},
        _ => return Err(OpError::new("missing labels (object)")),
    }
    let sel = match opts.text_at("selector") {
        Some(s) => s,
        None => return Err(OpError::new("missing selector")),
    };
    let reqs = parse_selector_reqs(sel.as_str());
    let ghost map = labels@->Object_0;
    let ghost wanted = requirements_of(sel@);
    let mut matches: bool = true;
    let mut i: usize = 0;
    while i < reqs.len() && matches
        invariant
            i <= reqs@.len(),
            labels@ == JsonV::Object(map),
            wanted == requirement_views(reqs@),
            matches ==> forall|k: int| 0 <= k < i ==> satisfies(map, #[trigger] wanted[k]),
            !matches ==> !satisfies_all(map, wanted),
        decreases reqs@.len() - i,
    {
        if !reqs[i].met_by(labels) {
            assert(!satisfies(map, wanted[i as int]));
            matches = false;
        }
        i += 1;
    }
    assert(matches == satisfies_all(map, wanted));
    Ok(
        Json::blank().with("matches", Json::Bool(matches)).with(
            "requirements",
            requirements_document(&reqs),
        ),
    )
}

/// The texts of a list of documents; a document that is no text counts as empty.
pub open spec fn texts_of(items: Seq<JsonV>) -> Seq<Seq<char>> {
    Seq::new(
        items.len(),
        |i: int|
            match items[i].text() {
                Some(s) => s,
                None => Seq::empty(),
            },
    )
}

/// The requirement that a document describes.
pub open spec fn described(r: JsonV) -> Result<RequirementV, Seq<char>> {
    match r.field("key"@).text() {
        None => Err("requirement missing key"@),
        Some(key) => {
            let op = match r.field("op"@).text() {
                Some(s) => s,
                None => "Equal"@,
            };
            let value = match r.field("value"@).text() {
                Some(s) => s,
                None => Seq::empty(),
            };
            if op == "Equal"@ {
                Ok(RequirementV::Equal { key, value })
            } else if op == "NotEqual"@ {
                Ok(RequirementV::NotEqual { key, value })
            } else if op == "In"@ {
                match r.field("values"@).items() {
                    Some(items) => Ok(RequirementV::In { key, values: texts_of(items) }),
                    None => Err("set-based op needs `values` array"@),
                }
            } else if op == "NotIn"@ {
                match r.field("values"@).items() {
                    Some(items) => Ok(RequirementV::NotIn { key, values: texts_of(items) }),
                    None => Err("set-based op needs `values` array"@),
                }
            } else if op == "Exists"@ {
                Ok(RequirementV::Exists { key })
            } else if op == "DoesNotExist"@ {
                Ok(RequirementV::DoesNotExist { key })
            } else {
                Err("unknown selector op `"@ + op + "`"@)
            }
        },
    }
}

/// The requirements that a list of documents describes, or what is wrong with
/// the first that describes none.
pub open spec fn all_described(items: Seq<JsonV>) -> Result<Seq<RequirementV>, Seq<char>>
    decreases items.len(),
{
    if items.len() == 0 {
        Ok(Seq::empty())
    } else {
        match all_described(items.drop_last()) {
            Err(e) => Err(e),
            Ok(before) => match described(items.last()) {
                Err(e) => Err(e),
                Ok(r) => Ok(before.push(r)),
            },
        }
    }
}

/// What building a selector answers.
pub open spec fn build_selector_outcome(opts: JsonV) -> Result<JsonV, Seq<char>> {
    match opts.field("requirements"@).items() {
        None => Err("missing requirements (array)"@),
        Some(items) => match all_described(items) {
            Err(e) => Err(e),
            Ok(reqs) => Ok(JsonV::blank().with("selector"@, JsonV::Text(selector_text(reqs)))),
        },
    }
}

/// The result of reading a requirement from a document.
pub open spec fn reading(r: Result<Requirement, OpError>) -> Result<RequirementV, Seq<char>> {
    match r {
        Ok(q) => Ok(q@),
        Err(e) => Err(e@),
    }
}

/// The texts of an array document.
fn item_texts(j: Option<&Json>) -> (r: Option<Vec<String>>)
    ensures
        match r {
            Some(v) => j matches Some(d) && d@ matches JsonV::Array(items) && texts(v@) == texts_of(items),
            None => !(j matches Some(d) && d@ is Array),
        },
{
    match j {
        Some(Json::Array(items)) => {
            let mut out: Vec<String> = Vec::new();
            let mut i: usize = 0;
            while i < items.len()
                invariant
                    i <= items@.len(),
                    out@.len() == i,
                    forall|k: int|
                        0 <= k < i ==> (#[trigger] out@[k])@ == texts_of(items_view(items@))[k],
                decreases items@.len() - i,
            {
                match items[i].text() {
                    Some(s) => {
                        out.push(s);
                    },
                    None => {
                        out.push(String::new());
                    },
                }
                i += 1;
            }
            assert(texts(out@) =~= texts_of(items_view(items@)));
            Some(out)
        },
        _ => None,
    }
}

/// Reads a requirement from a document.
pub fn read_requirement(j: &Json) -> (r: Result<Requirement, OpError>)
    ensures
        reading(r) == described(j@),
{
    let key = match j.text_at("key") {
        Some(s) => s,
        None => return Err(OpError::new("requirement missing key")),
    };
    let op = match j.text_at("op") {
        Some(s) => s,
        None => "Equal".to_owned(),
    };
    let value = match j.text_at("value") {
        Some(s) => s,
        None => String::new(),
    };
    if same_text(op.as_str(), "Equal") {
        Ok(Requirement::Equal { key, value })
    } else if same_text(op.as_str(), "NotEqual") {
        Ok(Requirement::NotEqual { key, value })
    } else if same_text(op.as_str(), "In") {
        match item_texts(j.get("values")) {
            Some(values) => Ok(Requirement::In { key, values }),
            None => Err(OpError::new("set-based op needs `values` array")),
        }
    } else if same_text(op.as_str(), "NotIn") {
        match item_texts(j.get("values")) {
            Some(values) => Ok(Requirement::NotIn { key, values }),
            None => Err(OpError::new("set-based op needs `values` array")),
        }
    } else if same_text(op.as_str(), "Exists") {
        Ok(Requirement::Exists { key })
    } else if same_text(op.as_str(), "DoesNotExist") {
        Ok(Requirement::DoesNotExist { key })
    } else {
        let mut message = "unknown selector op `".to_owned();
        message.append(op.as_str());
        message.append("`");
        Err(OpError { message })
    }
}

/// If a prefix holds a document that describes no requirement, so does the list.
proof fn lemma_first_error(items: Seq<JsonV>, n: int)
    requires
        0 <= n <= items.len(),
        all_described(items.take(n)) is Err,
    ensures
        all_described(items) == all_described(items.take(n)),
    decreases items.len() - n,
{
    if n < items.len() {
        assert(items.take(n + 1).drop_last() =~= items.take(n));
        lemma_first_error(items, n + 1);
    } else {
        assert(items.take(n) =~= items);
    }
}

/// Builds the text of a label selector from the list `requirements`.
pub fn op_build_selector(opts: &Json) -> (r: Result<Json, OpError>)
    ensures
        outcome(r) == build_selector_outcome(opts@),
{
    let items = match opts.get("requirements") {
        Some(Json::Array(items)) => items,
        _ => return Err(OpError::new("missing requirements (array)")),
    };
    let ghost docs = items_view(items@);
    let mut parts: Vec<String> = Vec::new();
    let ghost mut reqs: Seq<RequirementV> = Seq::empty();
    let mut i: usize = 0;
    assert(docs.take(0) =~= Seq::empty());
    while i < items.len()
        invariant
            i <= items@.len(),
            docs == items_view(items@),
            opts@.field("requirements"@) == JsonV::Array(docs),
            all_described(docs.take(i as int)) == Ok::<Seq<RequirementV>, Seq<char>>(reqs),
            reqs.len() == i,
            parts@.len() == i,
            forall|k: int| 0 <= k < i ==> (#[trigger] parts@[k])@ == written(reqs[k]),
        decreases items@.len() - i,
    {
        assert(docs.take(i as int + 1).drop_last() =~= docs.take(i as int));
        match read_requirement(&items[i]) {
            Ok(q) => {
                parts.push(q.write());
                proof {
                    reqs = reqs.push(q@);
                }
            },
            Err(e) => {
                proof {
                    lemma_first_error(docs, i as int + 1);
                }
                return Err(e);
            },
        }
        i += 1;
    }
    assert(docs.take(docs.len() as int) =~= docs);
    assert(texts(parts@) =~= Seq::new(reqs.len(), |k: int| written(reqs[k])));
    Ok(Json::blank().with("selector", Json::Text(joined(&parts, ","))))
}

} // verus!
