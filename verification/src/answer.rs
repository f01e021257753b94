//! What the library makes of a cluster's answers.

use vstd::prelude::*;
use vstd::string::*;

use crate::cluster::{
    findings, ContextEntryV, Contexts, ContextsV, EventRecord, EventRecordV, Found, FoundV, Scope,
};
use crate::decimal::{parse_i64, parsed_i64};
use crate::json::{int_json, items_view, text_array, text_or_null, Json, JsonV};
use crate::text::{equal_ignoring_case, opt_text, same_ignoring_case, same_text};

verus! {

// ---- conditions ----

/// Whether a document is a condition of the given type that holds.
pub open spec fn is_met_condition(c: JsonV, cond: Seq<char>) -> bool {
    &&& c.field("type"@).text() matches Some(t) && same_ignoring_case(t, cond)
    &&& c.field("status"@).text() == Some("True"@)
}

/// Whether an object's status has a condition of the given type that holds.
pub open spec fn condition_holds(obj: JsonV, cond: Seq<char>) -> bool {
    match obj.field("status"@).field("conditions"@).items() {
        Some(items) => has_met_condition(items, cond),
        None => false,
    }
}

/// Whether one of the conditions is of the given type and holds.
pub open spec fn has_met_condition(conditions: Seq<JsonV>, cond: Seq<char>) -> bool {
    exists|i: int| 0 <= i < conditions.len() && is_met_condition(#[trigger] conditions[i], cond)
}

/// Whether an object's status has a condition of the given type that reads `True`.
pub fn condition_is_true(obj: &Json, cond: &str) -> (r: bool)
    ensures
        r == condition_holds(obj@, cond@),
{
    let status = match obj.get("status") {
        Some(s) => s,
        None => return false,
    };
    let items = match status.get("conditions") {
        Some(Json::Array(items)) => items,
        _ => return false,
    };
    let ghost docs = items_view(items@);
    let mut i: usize = 0;
    while i < items.len()
        invariant
            i <= items@.len(),
            docs == items_view(items@),
            obj@.field("status"@).field("conditions"@) == JsonV::Array(docs),
            forall|k: int| 0 <= k < i ==> !is_met_condition(#[trigger] docs[k], cond@),
        decreases items@.len() - i,
    {
        let of_type = match items[i].text_at("type") {
            Some(t) => equal_ignoring_case(t.as_str(), cond),
            None => false,
        };
        let is_true = match items[i].text_at("status") {
            Some(s) => same_text(s.as_str(), "True"),
            None => false,
        };
        if of_type && is_true {
            assert(docs.len() == items@.len());
            assert(is_met_condition(docs[i as int], cond@));
            return true;
        }
        i += 1;
    }
    false
}

// ---- rollout history ----

/// Whether an owner reference names the Deployment.
pub open spec fn names_deployment(r: JsonV, name: Seq<char>) -> bool {
    r.field("kind"@) == JsonV::Text("Deployment"@) && r.field("name"@) == JsonV::Text(name)
}

/// Whether an object is owned by the Deployment.
pub open spec fn is_owned(obj: JsonV, name: Seq<char>) -> bool {
    match obj.field("metadata"@).field("ownerReferences"@).items() {
        Some(refs) => one_names_deployment(refs, name),
        None => false,
    }
}

/// Whether one of the owner references names the Deployment.
pub open spec fn one_names_deployment(refs: Seq<JsonV>, name: Seq<char>) -> bool {
    exists|i: int| 0 <= i < refs.len() && names_deployment(#[trigger] refs[i], name)
}

/// What the history says of a ReplicaSet.
pub open spec fn revision_document(obj: JsonV) -> JsonV {
    let meta = obj.field("metadata"@);
    JsonV::blank().with("name"@, meta.field("name"@)).with(
        "revision"@,
        meta.field("annotations"@).field("deployment.kubernetes.io/revision"@),
    ).with("created"@, meta.field("creationTimestamp"@)).with(
        "replicas"@,
        obj.field("spec"@).field("replicas"@),
    )
}

/// The number of a revision: zero where it has none that can be read.
pub open spec fn revision_number(doc: JsonV) -> int {
    match doc.field("revision"@).text() {
        Some(s) => match parsed_i64(s) {
            Some(n) => n as int,
            None => 0,
        },
        None => 0,
    }
}

/// The documents of the objects that the Deployment owns, in their order.
pub open spec fn owned_revisions(objects: Seq<JsonV>, name: Seq<char>) -> Seq<JsonV>
    decreases objects.len(),
{
    if objects.len() == 0 {
        Seq::empty()
    } else {
        let before = owned_revisions(objects.drop_last(), name);
        if is_owned(objects.last(), name) {
            before.push(revision_document(objects.last()))
        } else {
            before
        }
    }
}

/// The list with `doc` put behind the last revision that is not lower.
pub open spec fn placed(list: Seq<JsonV>, doc: JsonV) -> Seq<JsonV>
    decreases list.len(),
{
    if list.len() == 0 || revision_number(list.last()) >= revision_number(doc) {
        list.push(doc)
    } else {
        placed(list.drop_last(), doc).push(list.last())
    }
}

/// The revisions from the highest to the lowest; those of one number keep their order.
pub open spec fn newest_first(docs: Seq<JsonV>) -> Seq<JsonV>
    decreases docs.len(),
{
    if docs.len() == 0 {
        Seq::empty()
    } else {
        placed(newest_first(docs.drop_last()), docs.last())
    }
}

/// The rollout history of a Deployment: the revisions that it owns, newest first.
pub open spec fn history(objects: Seq<JsonV>, name: Seq<char>) -> JsonV {
    JsonV::blank().with("name"@, JsonV::Text(name)).with(
        "revisions"@,
        JsonV::Array(newest_first(owned_revisions(objects, name))),
    )
}

/// Whether an object is owned by the Deployment.
fn owned(obj: &Json, name: &str) -> (r: bool)
    ensures
        r == is_owned(obj@, name@),
{
    let meta = match obj.get("metadata") {
        Some(m) => m,
        None => return false,
    };
    let refs = match meta.get("ownerReferences") {
        Some(Json::Array(items)) => items,
        _ => return false,
    };
    let ghost docs = items_view(refs@);
    let mut i: usize = 0;
    while i < refs.len()
        invariant
            i <= refs@.len(),
            docs == items_view(refs@),
            obj@.field("metadata"@).field("ownerReferences"@) == JsonV::Array(docs),
            forall|k: int| 0 <= k < i ==> !names_deployment(#[trigger] docs[k], name@),
        decreases refs@.len() - i,
    {
        let kind_fits = match refs[i].text_at("kind") {
            Some(s) => same_text(s.as_str(), "Deployment"),
            None => false,
        };
        let name_fits = match refs[i].text_at("name") {
            Some(s) => same_text(s.as_str(), name),
            None => false,
        };
        if kind_fits && name_fits {
            assert(docs.len() == refs@.len());
            assert(names_deployment(docs[i as int], name@));
            return true;
        }
        i += 1;
    }
    false
}

/// What the history says of a ReplicaSet.
fn revision_of(obj: &Json) -> (r: Json)
    ensures
        r@ == revision_document(obj@),
{
    let meta = obj.copy_at("metadata");
    let spec_part = obj.copy_at("spec");
    Json::blank().with("name", meta.copy_at("name")).with(
        "revision",
        meta.copy_at("annotations").copy_at("deployment.kubernetes.io/revision"),
    ).with("created", meta.copy_at("creationTimestamp")).with(
        "replicas",
        spec_part.copy_at("replicas"),
    )
}

/// The number of a revision.
fn number_of_revision(doc: &Json) -> (r: i64)
    ensures
        r == revision_number(doc@),
{
    match doc.text_at("revision") {
        Some(s) => match parse_i64(s.as_str()) {
            Some(n) => n,
            None => 0,
        },
        None => 0,
    }
}

/// Puts a document into the list behind the last revision that is not lower.
fn place(list: &mut Vec<Json>, doc: Json)
    ensures
        items_view(final(list)@) == placed(items_view(old(list)@), doc@),
{
    let number = number_of_revision(&doc);
    let ghost before = items_view(list@);
    let ghost start = list@;
    let mut i: usize = list.len();
    assert(before.take(before.len() as int) =~= before);
    assert(placed(before, doc@) =~= placed(before.take(i as int), doc@) + before.skip(i as int));
    while i > 0 && number_of_revision(&list[i - 1]) < number
        invariant
            i <= list@.len(),
            list@ == start,
            before == items_view(list@),
            number == revision_number(doc@),
            placed(before, doc@) == placed(before.take(i as int), doc@) + before.skip(i as int),
        decreases i,
    {
        assert(before.take(i as int).drop_last() =~= before.take(i - 1));
        assert(placed(before.take(i as int), doc@) + before.skip(i as int) =~= placed(
            before.take(i - 1),
            doc@,
        ) + before.skip(i - 1));
        i -= 1;
    }
    if i > 0 {
        assert(before.take(i as int).last() == list@[i - 1]@);
    }
    list.insert(i, doc);
    assert(items_view(list@) =~= placed(before.take(i as int), doc@) + before.skip(i as int));
}

/// The rollout history of a Deployment: the revisions that it owns, newest first.
pub fn rollout_history(objects: &Vec<Json>, name: &str) -> (r: Json)
    ensures
        r@ == history(items_view(objects@), name@),
{
    let ghost all = items_view(objects@);
    let mut out: Vec<Json> = Vec::new();
    let mut i: usize = 0;
    assert(all.take(0) =~= Seq::empty());
    assert(items_view(out@) =~= Seq::empty());
    while i < objects.len()
        invariant
            i <= objects@.len(),
            all == items_view(objects@),
            items_view(out@) == newest_first(owned_revisions(all.take(i as int), name@)),
        decreases objects@.len() - i,
    {
        let ghost sofar = owned_revisions(all.take(i as int), name@);
        assert(all.take(i as int + 1).drop_last() =~= all.take(i as int));
        if owned(&objects[i], name) {
            let doc = revision_of(&objects[i]);
            assert(sofar.push(doc@).drop_last() =~= sofar);
            place(&mut out, doc);
        }
        i += 1;
    }
    assert(all.take(all.len() as int) =~= all);
    Json::blank().with("name", Json::of_text(name)).with("revisions", Json::Array(out))
}

/// Whether each revision is at least as high as those behind it.
pub open spec fn descending(docs: Seq<JsonV>) -> bool {
    forall|i: int, j: int|
        0 <= i < j < docs.len() ==> revision_number(#[trigger] docs[i]) >= revision_number(
            #[trigger] docs[j],
        )
}

/// The revisions with the given number, in their order.
pub open spec fn of_number(docs: Seq<JsonV>, n: int) -> Seq<JsonV>
    decreases docs.len(),
{
    if docs.len() == 0 {
        Seq::empty()
    } else if revision_number(docs.last()) == n {
        of_number(docs.drop_last(), n).push(docs.last())
    } else {
        of_number(docs.drop_last(), n)
    }
}

proof fn lemma_placed(list: Seq<JsonV>, doc: JsonV, n: int)
    requires
        descending(list),
    ensures
        descending(placed(list, doc)),
        placed(list, doc).len() == list.len() + 1,
        forall|i: int|
            0 <= i < placed(list, doc).len() ==> list.contains(#[trigger] placed(list, doc)[i])
                || placed(list, doc)[i] == doc,
        of_number(placed(list, doc), n) == of_number(list.push(doc), n),
    decreases list.len(),
{
    assert(list.push(doc).drop_last() =~= list);
    if list.len() == 0 || revision_number(list.last()) >= revision_number(doc) {
    } else {
        let front = list.drop_last();
        lemma_placed(front, doc, n);
        let inner = placed(front, doc);
        let all = inner.push(list.last());
        assert(all.drop_last() =~= inner);
        assert forall|i: int| 0 <= i < inner.len() implies revision_number(#[trigger] inner[i])
            >= revision_number(list.last()) by {
            if front.contains(inner[i]) {
                let k = choose|k: int| 0 <= k < front.len() && front[k] == inner[i];
                assert(list[k] == inner[i]);
                assert(list[list.len() - 1] == list.last());
            }
        }
        assert(descending(all));
        assert forall|i: int| 0 <= i < all.len() implies list.contains(#[trigger] all[i]) || all[i]
            == doc by {
            if i < inner.len() {
                assert(all[i] == inner[i]);
                if front.contains(inner[i]) {
                    let k = choose|k: int| 0 <= k < front.len() && front[k] == inner[i];
                    assert(list[k] == inner[i]);
                }
            } else {
                assert(list[list.len() - 1] == all[i]);
            }
        }
        assert(front.push(doc).drop_last() =~= front);
        assert(front.push(doc).last() == doc);
        assert(list.push(doc).last() == doc);
        assert(all.last() == list.last());
        if revision_number(list.last()) == n {
            assert(of_number(list, n) == of_number(front, n).push(list.last()));
            assert(of_number(front.push(doc), n) == of_number(front, n));
        } else {
            assert(of_number(list, n) == of_number(front, n));
        }
    }
}

/// The history is in descending order of revisions, and holds of each revision number
/// the same documents in the same order as the list that it was made from: nothing
/// is lost, added or, among equals, moved.
pub proof fn law_newest_first(docs: Seq<JsonV>, n: int)
    ensures
        descending(newest_first(docs)),
        newest_first(docs).len() == docs.len(),
        of_number(newest_first(docs), n) == of_number(docs, n),
    decreases docs.len(),
{
    if docs.len() > 0 {
        let front = docs.drop_last();
        law_newest_first(front, n);
        let sorted = newest_first(front);
        lemma_placed(sorted, docs.last(), n);
        assert(sorted.push(docs.last()).drop_last() =~= sorted);
    }
}

/// The history holds nothing but what it says of objects that the Deployment owns.
pub proof fn law_history_is_of_owned(objects: Seq<JsonV>, name: Seq<char>, i: int) -> (k: int)
    requires
        0 <= i < owned_revisions(objects, name).len(),
    ensures
        0 <= k < objects.len(),
        is_owned(objects[k], name),
        owned_revisions(objects, name)[i] == revision_document(objects[k]),
    decreases objects.len(),
{
    let front = objects.drop_last();
    if is_owned(objects.last(), name) && i == owned_revisions(front, name).len() {
        objects.len() - 1
    } else {
        law_history_is_of_owned(front, name, i)
    }
}

// ---- taints ----

/// Whether a taint has the given key.
pub open spec fn has_key(t: JsonV, key: Seq<char>) -> bool {
    t.field("key"@).text() == Some(key)
}

/// The taints without those of the given key.
pub open spec fn without_key(taints: Seq<JsonV>, key: Seq<char>) -> Seq<JsonV>
    decreases taints.len(),
{
    if taints.len() == 0 {
        Seq::empty()
    } else if has_key(taints.last(), key) {
        without_key(taints.drop_last(), key)
    } else {
        without_key(taints.drop_last(), key).push(taints.last())
    }
}

/// The taints of a node; none where it has no list of them.
pub open spec fn taints_of(node: JsonV) -> Seq<JsonV> {
    match node.field("spec"@).field("taints"@).items() {
        Some(items) => items,
        None => Seq::empty(),
    }
}

/// A taint with a key, an effect and, where one is given, a value.
pub open spec fn taint_document(
    key: Seq<char>,
    effect: Seq<char>,
    value: Option<Seq<char>>,
) -> JsonV {
    let base = JsonV::blank().with("key"@, JsonV::Text(key)).with("effect"@, JsonV::Text(effect));
    match value {
        Some(v) => base.with("value"@, JsonV::Text(v)),
        None => base,
    }
}

/// The taints after a key is tainted anew, or its taints are removed.
pub open spec fn retainted(
    taints: Seq<JsonV>,
    key: Seq<char>,
    remove: bool,
    effect: Seq<char>,
    value: Option<Seq<char>>,
) -> Seq<JsonV> {
    if remove {
        without_key(taints, key)
    } else {
        without_key(taints, key).push(taint_document(key, effect, value))
    }
}

/// The taints of a node after a key is tainted anew, or its taints are removed.
pub fn retaint(node: &Json, key: &str, remove: bool, effect: &str, value: Option<String>) -> (r: Json)
    ensures
        r@ == JsonV::Array(retainted(taints_of(node@), key@, remove, effect@, opt_text(value))),
{
    let spec_part = node.copy_at("spec");
    let taints = match spec_part.copy_at("taints") {
        Json::Array(items) => items,
        _ => Vec::new(),
    };
    let ghost all = items_view(taints@);
    assert(all =~= taints_of(node@));
    let mut out: Vec<Json> = Vec::new();
    let mut i: usize = 0;
    assert(all.take(0) =~= Seq::empty());
    assert(items_view(out@) =~= Seq::empty());
    while i < taints.len()
        invariant
            i <= taints@.len(),
            all == items_view(taints@),
            items_view(out@) == without_key(all.take(i as int), key@),
        decreases taints@.len() - i,
    {
        assert(all.take(i as int + 1).drop_last() =~= all.take(i as int));
        let same = match taints[i].text_at("key") {
            Some(k) => same_text(k.as_str(), key),
            None => false,
        };
        if !same {
            let ghost before = out@;
            let t = taints[i].copy();
            out.push(t);
            assert(items_view(out@) =~= items_view(before).push(t@));
        }
        i += 1;
    }
    assert(all.take(all.len() as int) =~= all);
    if !remove {
        let mut taint = Json::blank().with("key", Json::of_text(key)).with(
            "effect",
            Json::of_text(effect),
        );
        if let Some(v) = value {
            taint = taint.with("value", Json::Text(v));
        }
        let ghost before = out@;
        out.push(taint);
        assert(items_view(out@) =~= items_view(before).push(taint@));
    }
    Json::Array(out)
}

/// The taints of the given key, in their order.
pub open spec fn with_key(taints: Seq<JsonV>, key: Seq<char>) -> Seq<JsonV>
    decreases taints.len(),
{
    if taints.len() == 0 {
        Seq::empty()
    } else if has_key(taints.last(), key) {
        with_key(taints.drop_last(), key).push(taints.last())
    } else {
        with_key(taints.drop_last(), key)
    }
}

proof fn lemma_without_key(taints: Seq<JsonV>, key: Seq<char>, other: Seq<char>)
    ensures
        with_key(without_key(taints, key), key) == Seq::<JsonV>::empty(),
        with_key(taints, key) == Seq::<JsonV>::empty() ==> without_key(taints, key) == taints,
        other != key ==> with_key(without_key(taints, key), other) == with_key(taints, other),
    decreases taints.len(),
{
    if taints.len() > 0 {
        let front = taints.drop_last();
        lemma_without_key(front, key, other);
        if has_key(taints.last(), key) {
            assert(with_key(taints, key).len() > 0);
        } else {
            assert(without_key(taints, key).drop_last() =~= without_key(front, key));
            assert(front.push(taints.last()) =~= taints);
        }
    } else {
        assert(without_key(taints, key) =~= taints);
    }
}

/// After a key is tainted it has that one taint; after its taints are removed it has
/// none. Every other key keeps its taints, in their order.
pub proof fn law_taint(
    taints: Seq<JsonV>,
    key: Seq<char>,
    effect: Seq<char>,
    value: Option<Seq<char>>,
    other: Seq<char>,
)
    ensures
        with_key(retainted(taints, key, false, effect, value), key) == seq![
            taint_document(key, effect, value),
        ],
        with_key(retainted(taints, key, true, effect, value), key) == Seq::<JsonV>::empty(),
        other != key ==> {
            &&& with_key(retainted(taints, key, false, effect, value), other) == with_key(
                taints,
                other,
            )
            &&& with_key(retainted(taints, key, true, effect, value), other) == with_key(
                taints,
                other,
            )
        },
{
    lemma_without_key(taints, key, other);
    reveal_strlit("key");
    reveal_strlit("effect");
    reveal_strlit("value");
    assert("key"@.len() != "effect"@.len());
    assert("key"@.len() != "value"@.len());
    let added = retainted(taints, key, false, effect, value);
    assert(added.drop_last() =~= without_key(taints, key));
    assert(has_key(added.last(), key));
}

/// Tainting is idempotent, and removing a key's taints undoes tainting a key that no
/// taint had.
pub proof fn law_untaint_undoes_taint(
    taints: Seq<JsonV>,
    key: Seq<char>,
    effect: Seq<char>,
    value: Option<Seq<char>>,
)
    ensures
        ({
            let once = retainted(taints, key, false, effect, value);
            retainted(once, key, false, effect, value) == once
        }),
        with_key(taints, key) == Seq::<JsonV>::empty() ==> ({
            let once = retainted(taints, key, false, effect, value);
            retainted(once, key, true, effect, value) == taints
        }),
{
    let once = retainted(taints, key, false, effect, value);
    law_taint(taints, key, effect, value, key);
    lemma_without_key(taints, key, key);
    lemma_without_key(without_key(taints, key), key, key);
    assert(once.drop_last() =~= without_key(taints, key));
    assert(has_key(once.last(), key)) by {
        if !has_key(once.last(), key) {
            assert(with_key(once, key) == with_key(without_key(taints, key), key));
        }
    }
}

// ---- lists ----

/// What a listing says of a context.
pub open spec fn context_document(c: ContextEntryV, current: Option<Seq<char>>) -> JsonV {
    JsonV::blank().with("name"@, JsonV::Text(c.name)).with("cluster"@, text_or_null(c.cluster)).with(
        "user"@,
        text_or_null(c.user),
    ).with("namespace"@, text_or_null(c.namespace)).with(
        "current"@,
        JsonV::Bool(
            c.name == (match current {
                Some(s) => s,
                None => Seq::empty(),
            }),
        ),
    )
}

/// What a listing says of the contexts.
pub open spec fn context_documents(c: ContextsV) -> Seq<JsonV> {
    Seq::new(c.entries.len(), |i: int| context_document(c.entries[i], c.current))
}

/// Lists the contexts of a kubeconfig.
pub fn list_contexts(c: &Contexts) -> (r: Vec<Json>)
    ensures
        items_view(r@) == context_documents(c@),
{
    let current = match &c.current {
        Some(s) => s.clone(),
        None => String::new(),
    };
    let mut out: Vec<Json> = Vec::new();
    let mut i: usize = 0;
    while i < c.entries.len()
        invariant
            i <= c.entries@.len(),
            out@.len() == i,
            current@ == (match c@.current {
                Some(s) => s,
                None => Seq::empty(),
            }),
            forall|k: int| 0 <= k < i ==> (#[trigger] out@[k])@ == context_documents(c@)[k],
        decreases c.entries@.len() - i,
    {
        let e = &c.entries[i];
        let is_current = same_text(e.name.as_str(), current.as_str());
        out.push(
            Json::blank().with("name", Json::of_text(e.name.as_str())).with(
                "cluster",
                Json::of_option(crate::cluster::copy_option(&e.cluster)),
            ).with("user", Json::of_option(crate::cluster::copy_option(&e.user))).with(
                "namespace",
                Json::of_option(crate::cluster::copy_option(&e.namespace)),
            ).with("current", Json::Bool(is_current)),
        );
        i += 1;
    }
    assert(items_view(out@) =~= context_documents(c@));
    out
}

/// What a listing says of a resource.
pub open spec fn resource_document(f: FoundV) -> JsonV {
    JsonV::blank().with("group"@, JsonV::Text(f.resource.group)).with(
        "version"@,
        JsonV::Text(f.resource.version),
    ).with("kind"@, JsonV::Text(f.resource.kind)).with("plural"@, JsonV::Text(f.resource.plural)).with(
        "namespaced"@,
        JsonV::Bool(f.scope == Scope::Namespaced),
    ).with("verbs"@, text_array(f.verbs))
}

/// What a listing says of the resources.
pub open spec fn resource_documents(found: Seq<FoundV>) -> Seq<JsonV> {
    Seq::new(found.len(), |i: int| resource_document(found[i]))
}

/// Lists the resources that a cluster recommends.
pub fn list_resources(found: &Vec<Found>) -> (r: Vec<Json>)
    ensures
        items_view(r@) == resource_documents(findings(found@)),
{
    let mut out: Vec<Json> = Vec::new();
    let mut i: usize = 0;
    while i < found.len()
        invariant
            i <= found@.len(),
            out@.len() == i,
            forall|k: int| 0 <= k < i ==> (#[trigger] out@[k])@ == resource_document(found@[k]@),
        decreases found@.len() - i,
    {
        let f = &found[i];
        let namespaced = match f.scope {
            Scope::Namespaced => true,
            Scope::Cluster => false,
        };
        out.push(
            Json::blank().with("group", Json::of_text(f.resource.group.as_str())).with(
                "version",
                Json::of_text(f.resource.version.as_str()),
            ).with("kind", Json::of_text(f.resource.kind.as_str())).with(
                "plural",
                Json::of_text(f.resource.plural.as_str()),
            ).with("namespaced", Json::Bool(namespaced)).with("verbs", Json::of_texts(&f.verbs)),
        );
        i += 1;
    }
    assert(items_view(out@) =~= resource_documents(findings(found@)));
    out
}

/// What a listing says of a namespace with the given name.
pub open spec fn namespace_document(name: Seq<char>, ns: JsonV) -> JsonV {
    let labels = ns.field("metadata"@).field("labels"@);
    JsonV::blank().with("name"@, JsonV::Text(name)).with(
        "status"@,
        JsonV::Text(
            match ns.field("status"@).field("phase"@).text() {
                Some(s) => s,
                None => Seq::empty(),
            },
        ),
    ).with(
        "labels"@,
        if labels is Object {
            labels
        } else {
            JsonV::blank()
        },
    )
}

/// What a listing says of a namespace with the given name.
fn describe_namespace(name: &str, ns: &Json) -> (r: Json)
    ensures
        r@ == namespace_document(name@, ns@),
{
    let status = match ns.copy_at("status").text_at("phase") {
        Some(s) => s,
        None => String::new(),
    };
    let labels = match ns.copy_at("metadata").copy_at("labels") {
        Json::Object(members) => Json::Object(members),
        _ => Json::blank(),
    };
    Json::blank().with("name", Json::of_text(name)).with("status", Json::Text(status)).with(
        "labels",
        labels,
    )
}

/// What a listing says of the namespaces that have a name.
pub open spec fn named_namespaces(items: Seq<JsonV>) -> Seq<JsonV>
    decreases items.len(),
{
    if items.len() == 0 {
        Seq::empty()
    } else {
        let before = named_namespaces(items.drop_last());
        match items.last().field("metadata"@).field("name"@).text() {
            Some(name) => before.push(namespace_document(name, items.last())),
            None => before,
        }
    }
}

/// Lists the namespaces that have a name.
pub fn list_named_namespaces(items: &Vec<Json>) -> (r: Vec<Json>)
    ensures
        items_view(r@) == named_namespaces(items_view(items@)),
{
    let ghost all = items_view(items@);
    let mut out: Vec<Json> = Vec::new();
    let mut i: usize = 0;
    assert(all.take(0) =~= Seq::empty());
    assert(items_view(out@) =~= Seq::empty());
    while i < items.len()
        invariant
            i <= items@.len(),
            all == items_view(items@),
            items_view(out@) == named_namespaces(all.take(i as int)),
        decreases items@.len() - i,
    {
        assert(all.take(i as int + 1).drop_last() =~= all.take(i as int));
        if let Some(name) = items[i].copy_at("metadata").text_at("name") {
            let ghost before = out@;
            let doc = describe_namespace(name.as_str(), &items[i]);
            out.push(doc);
            assert(items_view(out@) =~= items_view(before).push(doc@));
        }
        i += 1;
    }
    assert(all.take(all.len() as int) =~= all);
    out
}

/// The name of an object: the one it has, else the prefix from which one is made, else
/// nothing.
pub open spec fn any_name(obj: JsonV) -> Seq<char> {
    let meta = obj.field("metadata"@);
    match meta.field("name"@).text() {
        Some(s) => s,
        None => match meta.field("generateName"@).text() {
            Some(s) => s,
            None => Seq::empty(),
        },
    }
}

/// What a listing says of all namespaces.
pub open spec fn namespace_documents(items: Seq<JsonV>) -> Seq<JsonV> {
    Seq::new(items.len(), |i: int| namespace_document(any_name(items[i]), items[i]))
}

/// Lists all namespaces.
pub fn list_namespaces(items: &Vec<Json>) -> (r: Vec<Json>)
    ensures
        items_view(r@) == namespace_documents(items_view(items@)),
{
    let mut out: Vec<Json> = Vec::new();
    let mut i: usize = 0;
    while i < items.len()
        invariant
            i <= items@.len(),
            out@.len() == i,
            forall|k: int|
                0 <= k < i ==> (#[trigger] out@[k])@ == namespace_document(
                    any_name(items@[k]@),
                    items@[k]@,
                ),
        decreases items@.len() - i,
    {
        let meta = items[i].copy_at("metadata");
        let name = match meta.text_at("name") {
            Some(s) => s,
            None => match meta.text_at("generateName") {
                Some(s) => s,
                None => String::new(),
            },
        };
        out.push(describe_namespace(name.as_str(), &items[i]));
        i += 1;
    }
    assert(items_view(out@) =~= namespace_documents(items_view(items@)));
    out
}

/// What a listing says of a cluster event.
pub open spec fn event_document(e: EventRecordV) -> JsonV {
    JsonV::blank().with("type"@, text_or_null(e.event_type)).with(
        "reason"@,
        text_or_null(e.reason),
    ).with("message"@, text_or_null(e.message)).with(
        "count"@,
        match e.count {
            Some(n) => int_json(n as int),
            None => JsonV::Null,
        },
    ).with("object"@, text_or_null(e.object)).with("kind"@, text_or_null(e.kind)).with(
        "last_timestamp"@,
        text_or_null(e.last_timestamp),
    )
}

/// What a listing says of cluster events.
pub open spec fn event_documents(records: Seq<EventRecordV>) -> Seq<JsonV> {
    Seq::new(records.len(), |i: int| event_document(records[i]))
}

/// Lists cluster events.
pub fn list_events(records: &Vec<EventRecord>) -> (r: Vec<Json>)
    ensures
        items_view(r@) == event_documents(Seq::new(records@.len(), |i: int| records@[i]@)),
{
    let mut out: Vec<Json> = Vec::new();
    let mut i: usize = 0;
    while i < records.len()
        invariant
            i <= records@.len(),
            out@.len() == i,
            forall|k: int| 0 <= k < i ==> (#[trigger] out@[k])@ == event_document(records@[k]@),
        decreases records@.len() - i,
    {
        let e = &records[i];
        let count = match e.count {
            Some(n) => Json::of_int(n as i64),
            None => Json::Null,
        };
        out.push(
            Json::blank().with(
                "type",
                Json::of_option(crate::cluster::copy_option(&e.event_type)),
            ).with("reason", Json::of_option(crate::cluster::copy_option(&e.reason))).with(
                "message",
                Json::of_option(crate::cluster::copy_option(&e.message)),
            ).with("count", count).with(
                "object",
                Json::of_option(crate::cluster::copy_option(&e.object)),
            ).with("kind", Json::of_option(crate::cluster::copy_option(&e.kind))).with(
                "last_timestamp",
                Json::of_option(crate::cluster::copy_option(&e.last_timestamp)),
            ),
        );
        i += 1;
    }
    assert(items_view(out@) =~= event_documents(Seq::new(records@.len(), |i: int| records@[i]@)));
    out
}

} // verus!
