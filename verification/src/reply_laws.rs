//! What each operation answers, from what a cluster said to the reply.

use vstd::prelude::*;

use crate::answer::{
    descending, law_newest_first, named_namespaces, newest_first, of_number, owned_revisions,
    placed, revision_number, without_key,
};
use crate::cluster::{
    CallV, ContextsV, EventRecordV, EventV, FoundV, MergeV, PlaceV, RequestV, Scope, SubjectV,
};
use crate::decimal::{decimal, parsed_i64};
use crate::json::{JsonV, NumV};
use crate::operation_laws::{
    holds, lemma_text, lemma_unsigned, object_of, place_in, text_is, unsigned_is,
};
use crate::plan::Op;
use crate::session::{ActionV, SessionV, Stage, StepV};
use crate::text::same_ignoring_case;
use crate::text_laws::{alike, law_ignoring_case, law_numbers_are_read};

verus! {

/// Whether a step ends its operation with a reply.
pub open spec fn replies_with(step: StepV, reply: JsonV) -> bool {
    step.action == ActionV::Finish(Ok(reply)) && step.session.stage == Stage::Nothing
}

/// The text where there is one, and null where there is none.
pub open spec fn said(text: Option<Seq<char>>) -> JsonV {
    if text is Some {
        JsonV::Text(text->0)
    } else {
        JsonV::Null
    }
}

// ---- plain replies ----

/// An operation that changes one object answers with the object as the cluster gave it.
pub proof fn law_changed_object_is_answered(s: SessionV, object: JsonV)
    requires
        s.stage == Stage::Answer,
        s.op == Op::Create || s.op == Op::Replace || s.op == Op::Apply || s.op == Op::Patch
            || s.op == Op::Scale || s.op == Op::Label || s.op == Op::Annotate || s.op == Op::Cordon
            || s.op == Op::Uncordon || s.op == Op::SetImage || s.op == Op::RolloutRestart || s.op
            == Op::Autoscale,
    ensures
        replies_with(s.next(EventV::Document(object)), object),
{
}

/// What is read is answered as it was read: the items of a list, an object or null where
/// there is none, a log, and the status of a rollout.
pub proof fn law_what_is_read_is_answered(
    s: SessionV,
    items: Seq<JsonV>,
    object: JsonV,
    log: Seq<char>,
)
    requires
        s.stage == Stage::Answer,
    ensures
        s.op == Op::Get ==> replies_with(
            s.next(EventV::Listed(items)),
            object_of("items"@, JsonV::Array(items)),
        ),
        s.op == Op::GetOne ==> replies_with(s.next(EventV::Perhaps(Some(object))), object),
        s.op == Op::GetOne ==> replies_with(s.next(EventV::Perhaps(None)), JsonV::Null),
        s.op == Op::Logs ==> replies_with(
            s.next(EventV::Text(log)),
            object_of("logs"@, JsonV::Text(log)),
        ),
        s.op == Op::RolloutStatus ==> replies_with(
            s.next(EventV::Document(object)),
            object_of("status"@, object.field("status"@)),
        ),
{
}

/// A deletion answers with the object where it is still being deleted, and with the status
/// where it is gone.
pub proof fn law_deletion_is_answered(s: SessionV, said: JsonV)
    requires
        s.stage == Stage::Answer,
        s.op == Op::Delete,
    ensures
        replies_with(s.next(EventV::Deleting(said)), object_of("deleted"@, said)),
        replies_with(s.next(EventV::Gone(said)), object_of("status"@, said)),
{
}

/// An eviction names the pod, whatever came back from the post.
pub proof fn law_eviction_is_answered(
    s: SessionV,
    name: Seq<char>,
    receipt: JsonV,
    message: Seq<char>,
)
    requires
        s.stage == Stage::Receipt,
        holds(s.opts, "name"@, JsonV::Text(name)),
    ensures
        ({
            let reply = object_of("ok"@, JsonV::Bool(true)).with("evicted"@, JsonV::Text(name));
            &&& replies_with(s.next(EventV::Document(receipt)), reply)
            &&& replies_with(s.next(EventV::Failed(message)), reply)
        }),
{
}

/// Metrics are answered by their items, and the version of the server as it is; a ping
/// answers that the server is there, and its version.
pub proof fn law_metrics_and_version_are_answered(s: SessionV, doc: JsonV)
    ensures
        s.stage == Stage::Body ==> replies_with(
            s.next(EventV::Document(doc)),
            object_of("items"@, doc.field("items"@)),
        ),
        s.stage == Stage::Version && s.op == Op::Version ==> replies_with(
            s.next(EventV::Document(doc)),
            doc,
        ),
        s.stage == Stage::Version && s.op == Op::Ping ==> replies_with(
            s.next(EventV::Document(doc)),
            object_of("ok"@, JsonV::Bool(true)).with("version"@, doc.field("gitVersion"@)),
        ),
{
}

// ---- listings ----

/// A listing of contexts tells of every context in its order, and marks the current one.
pub proof fn law_contexts_are_told(s: SessionV, c: ContextsV)
    requires
        s.stage == Stage::Contexts,
    ensures
        s.op == Op::CurrentContext ==> replies_with(
            s.next(EventV::Contexts(c)),
            object_of("context"@, said(c.current)),
        ),
        s.op == Op::Contexts ==> {
            let told = Seq::new(
                c.entries.len(),
                |i: int|
                    object_of("name"@, JsonV::Text(c.entries[i].name)).with(
                        "cluster"@,
                        said(c.entries[i].cluster),
                    ).with("user"@, said(c.entries[i].user)).with(
                        "namespace"@,
                        said(c.entries[i].namespace),
                    ).with(
                        "current"@,
                        JsonV::Bool(
                            c.current == Some(c.entries[i].name) || c.current is None
                                && c.entries[i].name.len() == 0,
                        ),
                    ),
            );
            replies_with(
                s.next(EventV::Contexts(c)),
                object_of("contexts"@, JsonV::Array(told)),
            )
        },
{
    let told = Seq::new(
        c.entries.len(),
        |i: int|
            object_of("name"@, JsonV::Text(c.entries[i].name)).with(
                "cluster"@,
                said(c.entries[i].cluster),
            ).with("user"@, said(c.entries[i].user)).with(
                "namespace"@,
                said(c.entries[i].namespace),
            ).with(
                "current"@,
                JsonV::Bool(
                    c.current == Some(c.entries[i].name) || c.current is None
                        && c.entries[i].name.len() == 0,
                ),
            ),
    );
    let docs = crate::answer::context_documents(c);
    assert forall|i: int| 0 <= i < c.entries.len() implies told[i] == docs[i] by {
        if c.current is None && c.entries[i].name.len() == 0 {
            assert(c.entries[i].name =~= Seq::empty());
        }
    }
    assert(told =~= docs);
}

/// A listing of resources tells of everything that is served, in its order.
pub proof fn law_resources_are_told(s: SessionV, d: crate::cluster::DiscoveredV)
    requires
        s.stage == Stage::Discovery,
        s.op == Op::ApiResources,
    ensures
        ({
            let told = Seq::new(d.recommended.len(), |i: int| resource_told(d.recommended[i]));
            replies_with(
                s.next(EventV::Discovered(d)),
                object_of("resources"@, JsonV::Array(told)),
            )
        }),
{
    let told = Seq::new(d.recommended.len(), |i: int| resource_told(d.recommended[i]));
    let docs = crate::answer::resource_documents(d.recommended);
    assert forall|i: int| 0 <= i < docs.len() implies told[i] == docs[i] by {
        let f = d.recommended[i];
        assert(crate::json::text_array(f.verbs) == JsonV::Array(
            Seq::new(f.verbs.len(), |k: int| JsonV::Text(f.verbs[k])),
        ));
    }
    assert(told =~= docs);
}

/// What is told of a resource that is served.
pub open spec fn resource_told(f: FoundV) -> JsonV {
    object_of("group"@, JsonV::Text(f.resource.group)).with(
        "version"@,
        JsonV::Text(f.resource.version),
    ).with("kind"@, JsonV::Text(f.resource.kind)).with("plural"@, JsonV::Text(f.resource.plural)).with(
        "namespaced"@,
        JsonV::Bool(f.scope != Scope::Cluster),
    ).with("verbs"@, JsonV::Array(Seq::new(f.verbs.len(), |k: int| JsonV::Text(f.verbs[k]))))
}

/// What is told of an event.
pub open spec fn event_told(e: EventRecordV) -> JsonV {
    object_of("type"@, said(e.event_type)).with("reason"@, said(e.reason)).with(
        "message"@,
        said(e.message),
    ).with(
        "count"@,
        if e.count is Some {
            JsonV::Number(NumV::Int(e.count->0 as int))
        } else {
            JsonV::Null
        },
    ).with("object"@, said(e.object)).with("kind"@, said(e.kind)).with(
        "last_timestamp"@,
        said(e.last_timestamp),
    )
}

/// A listing of events tells of every event in its order.
pub proof fn law_events_are_told(s: SessionV, records: Seq<EventRecordV>)
    requires
        s.stage == Stage::Answer,
        s.op == Op::Events,
    ensures
        replies_with(
            s.next(EventV::Records(records)),
            object_of(
                "events"@,
                JsonV::Array(Seq::new(records.len(), |i: int| event_told(records[i]))),
            ),
        ),
{
    assert(crate::answer::event_documents(records) =~= Seq::new(
        records.len(),
        |i: int| event_told(records[i]),
    ));
}

/// Whether an object has a name.
pub open spec fn is_named(object: JsonV) -> bool {
    object.field("metadata"@).field("name"@) is Text
}

/// What is told of a namespace: its name, its phase or an empty text, and its labels or
/// an empty object.
pub open spec fn namespace_told(ns: JsonV) -> JsonV {
    let phase = ns.field("status"@).field("phase"@);
    let labels = ns.field("metadata"@).field("labels"@);
    object_of("name"@, ns.field("metadata"@).field("name"@)).with(
        "status"@,
        if phase is Text {
            phase
        } else {
            JsonV::Text(Seq::empty())
        },
    ).with(
        "labels"@,
        if labels is Object {
            labels
        } else {
            JsonV::Object(Map::empty())
        },
    )
}

proof fn lemma_namespaces(items: Seq<JsonV>)
    ensures
        named_namespaces(items) == items.filter(|o: JsonV| is_named(o)).map_values(
            |o: JsonV| namespace_told(o),
        ),
    decreases items.len(),
{
    reveal(Seq::filter);
    let told = items.filter(|o: JsonV| is_named(o)).map_values(|o: JsonV| namespace_told(o));
    if items.len() > 0 {
        lemma_namespaces(items.drop_last());
    }
    assert(named_namespaces(items) =~= told);
}

/// A listing of namespaces tells of every namespace that has a name, in its order.
pub proof fn law_namespaces_are_told(s: SessionV, items: Seq<JsonV>)
    requires
        s.stage == Stage::Answer,
        s.op == Op::Namespaces,
    ensures
        replies_with(
            s.next(EventV::Listed(items)),
            object_of(
                "namespaces"@,
                JsonV::Array(
                    items.filter(|o: JsonV| is_named(o)).map_values(|o: JsonV| namespace_told(o)),
                ),
            ),
        ),
{
    lemma_namespaces(items);
}

// ---- waiting ----

/// Whether a condition is of a type, in any case, and is met.
pub open spec fn is_met(condition: JsonV, wanted: Seq<char>) -> bool {
    &&& condition.field("type"@) matches JsonV::Text(t) && alike(t, wanted)
    &&& condition.field("status"@) == JsonV::Text("True"@)
}

/// Whether one of an object's conditions is of a type, in any case, and is met.
pub open spec fn meets(object: JsonV, wanted: Seq<char>) -> bool {
    exists|conditions: Seq<JsonV>, i: int|
        object.field("status"@).field("conditions"@) == JsonV::Array(conditions) && 0 <= i
            < conditions.len() && is_met(#[trigger] conditions[i], wanted)
}

proof fn lemma_meets(object: JsonV, wanted: Seq<char>)
    ensures
        crate::answer::condition_holds(object, wanted) <==> meets(object, wanted),
{
    assert forall|c: JsonV| crate::answer::is_met_condition(c, wanted) <==> #[trigger] is_met(
        c,
        wanted,
    ) by {
        if let JsonV::Text(t) = c.field("type"@) {
            law_ignoring_case(t, wanted);
        }
    }
    if let Some(items) = object.field("status"@).field("conditions"@).items() {
        if crate::answer::has_met_condition(items, wanted) {
            let i = choose|i: int|
                0 <= i < items.len() && crate::answer::is_met_condition(
                    #[trigger] items[i],
                    wanted,
                );
            assert(is_met(items[i], wanted));
        }
        if meets(object, wanted) {
            let (conditions, i) = choose|conditions: Seq<JsonV>, i: int|
                object.field("status"@).field("conditions"@) == JsonV::Array(conditions) && 0 <= i
                    < conditions.len() && is_met(#[trigger] conditions[i], wanted);
            assert(conditions == items);
            assert(crate::answer::is_met_condition(items[i], wanted));
        }
    }
}

/// A wait for a condition, by default `Ready`, is over at an object exactly if one of the
/// object's conditions is of that type, in any case, and is met; without that, and where
/// there is no object, the time is looked at.
pub proof fn law_wait_for_condition(
    s: SessionV,
    object: Option<JsonV>,
    condition: Option<Seq<char>>,
)
    requires
        s.stage == Stage::Answer,
        s.op == Op::Wait,
        text_is(s.opts, "condition"@, condition),
        condition is Some ==> !alike(condition->0, "delete"@),
    ensures
        ({
            let wanted = if condition is Some {
                condition->0
            } else {
                "Ready"@
            };
            let step = s.next(EventV::Perhaps(object));
            if object is Some && meets(object->0, wanted) {
                replies_with(
                    step,
                    object_of("ok"@, JsonV::Bool(true)).with("condition"@, JsonV::Text(wanted)),
                )
            } else {
                step.action == ActionV::CheckDeadline && step.session.stage == Stage::Check
            }
        }),
{
    lemma_text(s.opts, "condition"@, condition);
    let wanted = if condition is Some {
        condition->0
    } else {
        "Ready"@
    };
    reveal_strlit("Ready");
    reveal_strlit("delete");
    law_ignoring_case(wanted, "delete"@);
    assert("Ready"@.len() != "delete"@.len());
    assert(!same_ignoring_case(wanted, "delete"@));
    if object is Some {
        lemma_meets(object->0, wanted);
    }
}

/// A wait for a deletion is over exactly if there is no object.
pub proof fn law_wait_for_deletion(s: SessionV, object: JsonV, condition: Seq<char>)
    requires
        s.stage == Stage::Answer,
        s.op == Op::Wait,
        holds(s.opts, "condition"@, JsonV::Text(condition)),
        alike(condition, "delete"@),
    ensures
        replies_with(
            s.next(EventV::Perhaps(None)),
            object_of("ok"@, JsonV::Bool(true)).with("condition"@, JsonV::Text("delete"@)),
        ),
        s.next(EventV::Perhaps(Some(object))).action == ActionV::CheckDeadline,
        s.next(EventV::Perhaps(Some(object))).session.stage == Stage::Check,
{
    law_ignoring_case(condition, "delete"@);
}

/// A wait that has taken too long ends with an error that says how long, for what and for
/// which condition; one that has not rests for two seconds and looks again.
pub proof fn law_wait_times_out(
    s: SessionV,
    kind: Seq<char>,
    name: Seq<char>,
    timeout: Option<u64>,
    condition: Option<Seq<char>>,
)
    requires
        s.stage == Stage::Check,
        s.op == Op::Wait,
        holds(s.opts, "kind"@, JsonV::Text(kind)),
        holds(s.opts, "name"@, JsonV::Text(name)),
        unsigned_is(s.opts, "timeout"@, timeout),
        text_is(s.opts, "condition"@, condition),
    ensures
        s.next(EventV::Overdue(true)).action == ActionV::Finish(
            Err(
                "wait: timed out after "@ + decimal(
                    if timeout is Some {
                        timeout->0 as nat
                    } else {
                        300
                    },
                ) + "s waiting for "@ + kind + "/"@ + name + " condition "@ + (
                if condition is Some {
                    condition->0
                } else {
                    "Ready"@
                }),
            ),
        ),
        s.next(EventV::Overdue(false)).action == ActionV::Pause(2),
        s.next(EventV::Overdue(false)).session.stage == Stage::Rest,
        s.next(EventV::Overdue(false)).session.target == s.target,
{
    lemma_text(s.opts, "condition"@, condition);
    lemma_unsigned(s.opts, "timeout"@, timeout);
}

// ---- histories ----

/// Whether one of an object's owners is the Deployment of a name.
pub open spec fn belongs_to(object: JsonV, name: Seq<char>) -> bool {
    exists|owners: Seq<JsonV>, i: int|
        object.field("metadata"@).field("ownerReferences"@) == JsonV::Array(owners) && 0 <= i
            < owners.len() && is_deployment(#[trigger] owners[i], name)
}

/// Whether a reference is to the Deployment of a name.
pub open spec fn is_deployment(owner: JsonV, name: Seq<char>) -> bool {
    owner.field("kind"@) == JsonV::Text("Deployment"@) && owner.field("name"@) == JsonV::Text(name)
}

/// What a history tells of a ReplicaSet.
pub open spec fn revision_told(object: JsonV) -> JsonV {
    object_of("name"@, object.field("metadata"@).field("name"@)).with(
        "revision"@,
        object.field("metadata"@).field("annotations"@).field("deployment.kubernetes.io/revision"@),
    ).with("created"@, object.field("metadata"@).field("creationTimestamp"@)).with(
        "replicas"@,
        object.field("spec"@).field("replicas"@),
    )
}

/// What a history tells of the ReplicaSets that belong to a Deployment, in their order.
pub open spec fn revisions_told(objects: Seq<JsonV>, name: Seq<char>) -> Seq<JsonV> {
    objects.filter(|o: JsonV| belongs_to(o, name)).map_values(|o: JsonV| revision_told(o))
}

proof fn lemma_belongs(object: JsonV, name: Seq<char>)
    ensures
        crate::answer::is_owned(object, name) <==> belongs_to(object, name),
{
    if let Some(refs) = object.field("metadata"@).field("ownerReferences"@).items() {
        if crate::answer::one_names_deployment(refs, name) {
            let i = choose|i: int|
                0 <= i < refs.len() && crate::answer::names_deployment(#[trigger] refs[i], name);
            assert(is_deployment(refs[i], name));
        }
        if belongs_to(object, name) {
            let (owners, i) = choose|owners: Seq<JsonV>, i: int|
                object.field("metadata"@).field("ownerReferences"@) == JsonV::Array(owners) && 0
                    <= i < owners.len() && is_deployment(#[trigger] owners[i], name);
            assert(owners == refs);
            assert(crate::answer::names_deployment(refs[i], name));
        }
    }
}

proof fn lemma_revisions(objects: Seq<JsonV>, name: Seq<char>)
    ensures
        owned_revisions(objects, name) == revisions_told(objects, name),
    decreases objects.len(),
{
    reveal(Seq::filter);
    if objects.len() > 0 {
        lemma_revisions(objects.drop_last(), name);
        lemma_belongs(objects.last(), name);
    }
    assert(owned_revisions(objects, name) =~= revisions_told(objects, name));
}

proof fn lemma_placed_keeps(list: Seq<JsonV>, doc: JsonV)
    ensures
        placed(list, doc).to_multiset() == list.to_multiset().insert(doc),
    decreases list.len(),
{
    broadcast use vstd::seq_lib::group_to_multiset_ensures;

    if list.len() == 0 || revision_number(list.last()) >= revision_number(doc) {
    } else {
        let front = list.drop_last();
        lemma_placed_keeps(front, doc);
        assert(list =~= front.push(list.last()));
        assert(placed(list, doc).to_multiset() =~= list.to_multiset().insert(doc));
    }
}

proof fn lemma_sorting_keeps(docs: Seq<JsonV>)
    ensures
        newest_first(docs).to_multiset() == docs.to_multiset(),
    decreases docs.len(),
{
    broadcast use vstd::seq_lib::group_to_multiset_ensures;

    if docs.len() == 0 {
        assert(docs =~= Seq::empty());
    } else {
        lemma_sorting_keeps(docs.drop_last());
        lemma_placed_keeps(newest_first(docs.drop_last()), docs.last());
        assert(docs =~= docs.drop_last().push(docs.last()));
    }
}

/// A history tells of every ReplicaSet that belongs to the Deployment and of no other, each
/// as often as it was listed, and names the Deployment.
pub proof fn law_history_is_complete(s: SessionV, objects: Seq<JsonV>, name: Seq<char>) -> (told:
    Seq<JsonV>)
    requires
        s.stage == Stage::Answer,
        s.op == Op::RolloutHistory,
        holds(s.opts, "name"@, JsonV::Text(name)),
    ensures
        replies_with(
            s.next(EventV::Listed(objects)),
            object_of("name"@, JsonV::Text(name)).with("revisions"@, JsonV::Array(told)),
        ),
        told.len() == objects.filter(|o: JsonV| belongs_to(o, name)).len(),
        told.to_multiset() == revisions_told(objects, name).to_multiset(),
        forall|k: int|
            0 <= k < objects.len() && belongs_to(#[trigger] objects[k], name) ==> told.contains(
                revision_told(objects[k]),
            ),
{
    broadcast use vstd::seq_lib::group_to_multiset_ensures;

    let told = newest_first(owned_revisions(objects, name));
    lemma_revisions(objects, name);
    lemma_sorting_keeps(owned_revisions(objects, name));
    law_newest_first(owned_revisions(objects, name), 0);
    let pred = |o: JsonV| belongs_to(o, name);
    let kept = objects.filter(pred);
    assert forall|k: int|
        0 <= k < objects.len() && belongs_to(#[trigger] objects[k], name) implies told.contains(
        revision_told(objects[k]),
    ) by {
        objects.lemma_filter_contains(pred, k);
        let j = choose|j: int| 0 <= j < kept.len() && kept[j] == objects[k];
        let all = revisions_told(objects, name);
        assert(all[j] == revision_told(objects[k]));
        assert(all.contains(revision_told(objects[k])));
        assert(all.to_multiset().count(revision_told(objects[k])) > 0);
    }
    told
}

/// The number of a revision that is told of; what has no number counts as zero.
pub open spec fn number_told(told: JsonV) -> int {
    let revision = told.field("revision"@);
    if revision is Text && parsed_i64(revision->Text_0) is Some {
        parsed_i64(revision->Text_0)->0 as int
    } else {
        0
    }
}

proof fn lemma_of_number(docs: Seq<JsonV>, n: int)
    ensures
        of_number(docs, n) == docs.filter(|t: JsonV| number_told(t) == n),
    decreases docs.len(),
{
    reveal(Seq::filter);
    if docs.len() > 0 {
        lemma_of_number(docs.drop_last(), n);
        assert(revision_number(docs.last()) == number_told(docs.last()));
    }
    assert(of_number(docs, n) =~= docs.filter(|t: JsonV| number_told(t) == n));
}

/// A history begins with the newest revision: a greater number comes before a smaller one,
/// and revisions of one number come in the order in which they were listed.
pub proof fn law_history_is_newest_first(
    s: SessionV,
    objects: Seq<JsonV>,
    name: Seq<char>,
    told: Seq<JsonV>,
    n: int,
)
    requires
        s.stage == Stage::Answer,
        s.op == Op::RolloutHistory,
        holds(s.opts, "name"@, JsonV::Text(name)),
        s.next(EventV::Listed(objects)).action matches ActionV::Finish(Ok(r)) && r.field(
            "revisions"@,
        ) == JsonV::Array(told),
    ensures
        forall|i: int, j: int|
            0 <= i < j < told.len() ==> number_told(#[trigger] told[i]) >= number_told(
                #[trigger] told[j],
            ),
        told.filter(|t: JsonV| number_told(t) == n) == revisions_told(objects, name).filter(
            |t: JsonV| number_told(t) == n,
        ),
{
    let all = newest_first(owned_revisions(objects, name));
    law_newest_first(owned_revisions(objects, name), n);
    assert(told == all);
    lemma_revisions(objects, name);
    lemma_of_number(told, n);
    lemma_of_number(owned_revisions(objects, name), n);
    assert forall|i: int, j: int| 0 <= i < j < told.len() implies number_told(#[trigger] told[i])
        >= number_told(#[trigger] told[j]) by {
        assert(revision_number(told[i]) == number_told(told[i]));
        assert(revision_number(told[j]) == number_told(told[j]));
        assert(descending(told));
    }
}

/// The number of a revision is the one that its text writes in decimal.
pub proof fn law_revision_numbers(told: JsonV, n: nat)
    requires
        n <= i64::MAX,
        told.field("revision"@) == JsonV::Text(decimal(n)),
    ensures
        number_told(told) == n,
{
    law_numbers_are_read(n, Seq::empty());
}

// ---- taints ----

/// The taints of a node.
pub open spec fn tainted_with(node: JsonV, taints: Seq<JsonV>) -> bool {
    let held = node.field("spec"@).field("taints"@);
    held == JsonV::Array(taints) || !(held is Array) && taints.len() == 0
}

proof fn lemma_without(taints: Seq<JsonV>, key: Seq<char>)
    ensures
        without_key(taints, key) == taints.filter(
            |t: JsonV| t.field("key"@) != JsonV::Text(key),
        ),
    decreases taints.len(),
{
    reveal(Seq::filter);
    if taints.len() > 0 {
        lemma_without(taints.drop_last(), key);
    }
    assert(without_key(taints, key) =~= taints.filter(
        |t: JsonV| t.field("key"@) != JsonV::Text(key),
    ));
}

/// A taint replaces the taints of its node: those of its key go, all others stay in their
/// order, and unless it is to be removed the new one comes last, with its effect, by
/// default `NoSchedule`, and its value where it has one.
pub proof fn law_taint_replaces(
    s: SessionV,
    node: JsonV,
    taints: Seq<JsonV>,
    name: Seq<char>,
    key: Seq<char>,
    effect: Option<Seq<char>>,
    value: Option<Seq<char>>,
)
    requires
        s.stage == Stage::Answer,
        s.op == Op::Taint,
        holds(s.opts, "name"@, JsonV::Text(name)),
        holds(s.opts, "key"@, JsonV::Text(key)),
        text_is(s.opts, "effect"@, effect),
        text_is(s.opts, "value"@, value),
        tainted_with(node, taints),
    ensures
        ({
            let others = taints.filter(|t: JsonV| t.field("key"@) != JsonV::Text(key));
            let bare = object_of("key"@, JsonV::Text(key)).with(
                "effect"@,
                JsonV::Text(
                    if effect is Some {
                        effect->0
                    } else {
                        "NoSchedule"@
                    },
                ),
            );
            let added = if value is Some {
                bare.with("value"@, JsonV::Text(value->0))
            } else {
                bare
            };
            let left = if holds(s.opts, "remove"@, JsonV::Bool(true)) {
                others
            } else {
                others.push(added)
            };
            let step = s.next(EventV::Document(node));
            &&& step.session.stage == Stage::SecondAnswer
            &&& step.action == ActionV::Perform(
                RequestV {
                    subject: SubjectV::Nodes,
                    place: PlaceV::Everywhere,
                    call: CallV::Patch {
                        name,
                        merge: MergeV::Json,
                        doc: object_of("spec"@, object_of("taints"@, JsonV::Array(left))),
                    },
                },
            )
        }),
{
    lemma_text(s.opts, "effect"@, effect);
    lemma_text(s.opts, "value"@, value);
    lemma_without(taints, key);
    assert(crate::answer::taints_of(node) =~= taints);
}

/// The node is answered as it is once its taints were replaced.
pub proof fn law_tainted_node_is_answered(s: SessionV, node: JsonV)
    requires
        s.stage == Stage::SecondAnswer,
    ensures
        replies_with(s.next(EventV::Document(node)), node),
{
}

// ---- looking again, and answers that do not fit ----

/// A wait looks at its object once the deadline is noted, and again after each rest: always
/// at the object of its kind, namespace and name.
pub proof fn law_wait_looks(
    s: SessionV,
    f: FoundV,
    kind: Seq<char>,
    name: Seq<char>,
    namespace: Option<Seq<char>>,
)
    requires
        s.stage == Stage::Deadline || s.stage == Stage::Rest,
        s.op == Op::Wait,
        s.target == Some(f),
        holds(s.opts, "kind"@, JsonV::Text(kind)),
        holds(s.opts, "name"@, JsonV::Text(name)),
        text_is(s.opts, "namespace"@, namespace),
    ensures
        s.next(EventV::Ready).session == (SessionV { stage: Stage::Answer, ..s }),
        s.next(EventV::Ready).action == ActionV::Perform(
            RequestV {
                subject: SubjectV::Resource(f.resource),
                place: place_in(f.scope, namespace),
                call: CallV::GetIfAny(name),
            },
        ),
{
    lemma_text(s.opts, "namespace"@, namespace);
}

/// Whether an answer is one that an operation waits for once its call is made.
pub open spec fn fits(op: Op, e: EventV) -> bool {
    match op {
        Op::Get | Op::Namespaces | Op::RolloutHistory => e is Listed,
        Op::GetOne | Op::Wait => e is Perhaps,
        Op::Delete => e is Deleting || e is Gone,
        Op::Logs => e is Text,
        Op::Events => e is Records,
        _ => e is Document,
    }
}

/// An answer that an operation does not wait for ends it with an error.
pub proof fn law_unexpected_answers(s: SessionV, e: EventV)
    requires
        !(e is Failed) && !(e is Unsent),
        s.stage == Stage::Answer && !fits(s.op, e) || s.stage == Stage::Nothing || s.stage
            == Stage::Contexts && !(e is Contexts) || s.stage == Stage::Connection
            && !(e is Connected) || s.stage == Stage::Discovery && !(e is Discovered) || s.stage
            == Stage::Clock && !(e is Clock) || s.stage == Stage::Check && !(e is Overdue)
            || (s.stage == Stage::Deadline || s.stage == Stage::Rest) && !(e is Ready) || (s.stage
            == Stage::Version || s.stage == Stage::Body || s.stage == Stage::Receipt || s.stage
            == Stage::SecondAnswer) && !(e is Document),
    ensures
        s.next(e).action == ActionV::Finish(Err("unexpected answer"@)),
        s.next(e).session.stage == Stage::Nothing,
{
}

} // verus!
