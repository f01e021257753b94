//! What each operation asks of a cluster, from the members of its arguments to the request
//! that is made.

use vstd::prelude::*;

use crate::cluster::{
    CallV, DiscoveredV, EventV, FoundV, LogOptionsV, MergeV, PlaceV, RequestV, Scope, SelectionV,
    SubjectV,
};
use crate::codec::{json_text, object_form_of};
use crate::decimal::decimal;
use crate::json::{JsonV, NumV};
use crate::plan::Op;
use crate::resource::{kind_found, strict_kind};
use crate::session::{
    connection_key, connection_of, kept_too, stands_first, started, ActionV, ConnectionV, SessionV,
    Stage, StepV,
};

verus! {

// ---- reading arguments ----

/// Whether a document is an object with the given member.
pub open spec fn holds(doc: JsonV, name: Seq<char>, value: JsonV) -> bool {
    doc matches JsonV::Object(m) && m.contains_key(name) && m[name] == value
}

/// Whether a document has the given text as a member, or no text there.
pub open spec fn text_is(doc: JsonV, name: Seq<char>, text: Option<Seq<char>>) -> bool {
    match text {
        Some(s) => holds(doc, name, JsonV::Text(s)),
        None => forall|s: Seq<char>| !#[trigger] holds(doc, name, JsonV::Text(s)),
    }
}

/// Whether a document has the given integer as a member, or no integer of 64 bits there.
pub open spec fn integer_is(doc: JsonV, name: Seq<char>, integer: Option<i64>) -> bool {
    match integer {
        Some(i) => holds(doc, name, JsonV::Number(NumV::Int(i as int))),
        None => forall|i: i64| !#[trigger] holds(doc, name, JsonV::Number(NumV::Int(i as int))),
    }
}

/// Whether a document has the given integer from zero up as a member, or none there.
pub open spec fn unsigned_is(doc: JsonV, name: Seq<char>, integer: Option<u64>) -> bool {
    match integer {
        Some(i) => holds(doc, name, JsonV::Number(NumV::Int(i as int))),
        None => forall|i: u64| !#[trigger] holds(doc, name, JsonV::Number(NumV::Int(i as int))),
    }
}

/// Whether the metadata of a document have the given text as a member, or no text there.
pub open spec fn metadata_is(doc: JsonV, name: Seq<char>, text: Option<Seq<char>>) -> bool {
    match text {
        Some(s) => exists|meta: JsonV| #[trigger]
            holds(doc, "metadata"@, meta) && holds(meta, name, JsonV::Text(s)),
        None => forall|meta: JsonV, s: Seq<char>|
            !(#[trigger] holds(doc, "metadata"@, meta) && #[trigger] holds(
                meta,
                name,
                JsonV::Text(s),
            )),
    }
}

pub(crate) proof fn lemma_text(doc: JsonV, name: Seq<char>, text: Option<Seq<char>>)
    requires
        text_is(doc, name, text),
    ensures
        doc.field(name).text() == text,
{
    if doc.field(name).text() is Some {
        assert(holds(doc, name, JsonV::Text(doc.field(name).text()->0)));
    }
}

pub(crate) proof fn lemma_integer(doc: JsonV, name: Seq<char>, integer: Option<i64>)
    requires
        integer_is(doc, name, integer),
    ensures
        doc.field(name).integer() == integer,
{
    if doc.field(name).integer() is Some {
        assert(holds(doc, name, JsonV::Number(NumV::Int(doc.field(name).integer()->0 as int))));
    }
}

pub(crate) proof fn lemma_unsigned(doc: JsonV, name: Seq<char>, integer: Option<u64>)
    requires
        unsigned_is(doc, name, integer),
    ensures
        doc.field(name).unsigned() == integer,
{
    if doc.field(name).unsigned() is Some {
        assert(holds(doc, name, JsonV::Number(NumV::Int(doc.field(name).unsigned()->0 as int))));
    }
}

pub(crate) proof fn lemma_metadata(doc: JsonV, name: Seq<char>, text: Option<Seq<char>>)
    requires
        metadata_is(doc, name, text),
    ensures
        doc.field("metadata"@).field(name).text() == text,
{
    let meta = doc.field("metadata"@);
    if meta.field(name).text() is Some {
        assert(holds(doc, "metadata"@, meta));
        assert(holds(meta, name, JsonV::Text(meta.field(name).text()->0)));
    }
}

/// What the members of an object say is what is read from them.
pub proof fn law_members_are_read(
    doc: JsonV,
    name: Seq<char>,
    value: JsonV,
    s: Seq<char>,
    b: bool,
    v: Seq<JsonV>,
    i: int,
)
    ensures
        holds(doc, name, value) ==> doc.field(name) == value,
        (forall|v: JsonV| !#[trigger] holds(doc, name, v)) ==> doc.field(name) == JsonV::Null,
        JsonV::Text(s).text() == Some(s),
        JsonV::Bool(b).boolean() == Some(b),
        JsonV::Array(v).items() == Some(v),
        !(value is Text) ==> value.text() is None,
        !(value is Bool) ==> value.boolean() is None,
        !(value is Array) ==> value.items() is None,
        !(value is Number) ==> value.integer() is None && value.unsigned() is None,
        i64::MIN <= i <= i64::MAX ==> JsonV::Number(NumV::Int(i)).integer() == Some(i as i64),
        !(i64::MIN <= i <= i64::MAX) ==> JsonV::Number(NumV::Int(i)).integer() is None,
        0 <= i <= u64::MAX ==> JsonV::Number(NumV::Int(i)).unsigned() == Some(i as u64),
        !(0 <= i <= u64::MAX) ==> JsonV::Number(NumV::Int(i)).unsigned() is None,
{
    if forall|v: JsonV| !#[trigger] holds(doc, name, v) {
        assert(!holds(doc, name, doc.field(name)));
    }
}

// ---- steps ----

/// The step after the connection stands; its own namespace is `own`.
pub open spec fn connected(op: Op, opts: JsonV, own: Seq<char>) -> StepV {
    started(op, opts).session.next(EventV::Connected { namespace: own })
}

/// The step after discovery found `d`.
pub open spec fn reached(op: Op, opts: JsonV, own: Seq<char>, d: DiscoveredV) -> StepV {
    connected(op, opts, own).session.next(EventV::Discovered(d))
}

/// Where a call on a kind goes: outside namespaces for a kind that has none, else to the
/// given namespace, and where none is given to the one of the connection.
pub open spec fn place_in(scope: Scope, namespace: Option<Seq<char>>) -> PlaceV {
    if scope == Scope::Cluster {
        PlaceV::Everywhere
    } else if namespace is Some {
        PlaceV::Namespace(namespace->0)
    } else {
        PlaceV::DefaultNamespace
    }
}

/// Whether an operation connects, looks its kind up, and then makes one call on the kind
/// that was found, in the given namespace.
pub open spec fn calls(
    op: Op,
    opts: JsonV,
    own: Seq<char>,
    d: DiscoveredV,
    f: FoundV,
    kind: Seq<char>,
    namespace: Option<Seq<char>>,
    call: CallV,
) -> bool {
    &&& started(op, opts).action is Connect
    &&& connected(op, opts, own).action == ActionV::Discover(strict_kind(kind))
    &&& reached(op, opts, own, d).action == ActionV::Perform(
        RequestV {
            subject: SubjectV::Resource(f.resource),
            place: place_in(f.scope, namespace),
            call,
        },
    )
    &&& reached(op, opts, own, d).session == (SessionV {
        op,
        opts,
        stage: Stage::Answer,
        target: Some(f),
    })
}

/// Whether an operation connects and then makes one call that needs no discovery.
pub open spec fn calls_directly(
    op: Op,
    opts: JsonV,
    own: Seq<char>,
    subject: SubjectV,
    place: PlaceV,
    call: CallV,
) -> bool {
    &&& started(op, opts).action is Connect
    &&& connected(op, opts, own).action == ActionV::Perform(RequestV { subject, place, call })
    &&& connected(op, opts, own).session == (SessionV {
        op,
        opts,
        stage: Stage::Answer,
        target: None,
    })
}

/// Whether an operation is refused before it connects.
pub open spec fn refused_at_once(op: Op, opts: JsonV, message: Seq<char>) -> bool {
    started(op, opts).action == ActionV::Finish(Err(message))
}

/// Whether an operation is refused once it is connected, and before anything is asked.
pub open spec fn refused(op: Op, opts: JsonV, own: Seq<char>, message: Seq<char>) -> bool {
    &&& started(op, opts).action is Connect
    &&& connected(op, opts, own).action == ActionV::Finish(Err(message))
}

/// Whether an operation is refused after its kind was found, and nothing is sent.
pub open spec fn refused_late(
    op: Op,
    opts: JsonV,
    own: Seq<char>,
    d: DiscoveredV,
    message: Seq<char>,
) -> bool {
    &&& started(op, opts).action is Connect
    &&& connected(op, opts, own).action is Discover
    &&& reached(op, opts, own, d).action == ActionV::Finish(Err(message))
}

// ---- connections ----

/// An operation connects with the context that its arguments name, and with the default
/// one where they name none or `_default`.
pub proof fn law_connection(op: Op, opts: JsonV, context: Option<Seq<char>>)
    requires
        text_is(opts, "context"@, context),
        started(op, opts).action is Connect,
    ensures
        started(op, opts).action == ActionV::Connect(
            if context is None || context == Some("_default"@) {
                ConnectionV::Default
            } else {
                ConnectionV::Named(context->0)
            },
        ),
{
    lemma_text(opts, "context"@, context);
}

/// The context that arguments name, where they name another than the default one.
pub open spec fn context_meant(context: Option<Seq<char>>) -> Option<Seq<char>> {
    if context == Some("_default"@) {
        None
    } else {
        context
    }
}

/// Two calls share a connection exactly if they mean the same context.
pub proof fn law_connections_are_shared(
    a: JsonV,
    b: JsonV,
    x: Option<Seq<char>>,
    y: Option<Seq<char>>,
)
    requires
        text_is(a, "context"@, x),
        text_is(b, "context"@, y),
    ensures
        connection_key(connection_of(a)) == connection_key(connection_of(b)) <==> context_meant(x)
            == context_meant(y),
{
    lemma_text(a, "context"@, x);
    lemma_text(b, "context"@, y);
}

/// To keep a connection adds it and nothing else, and only where it was not kept yet. It
/// then stands at one place, and nothing else stands there.
pub proof fn law_one_connection_is_kept(keys: Seq<Seq<char>>, key: Seq<char>, i: int, j: int)
    requires
        keys.no_duplicates(),
    ensures
        keys.contains(key) ==> kept_too(keys, key) == keys,
        !keys.contains(key) ==> kept_too(keys, key) == keys + seq![key],
        stands_first(keys, key, i) <==> 0 <= i < keys.len() && keys[i] == key,
        stands_first(keys, key, i) && stands_first(keys, key, j) ==> i == j,
{
    assert(keys.push(key) =~= keys + seq![key]);
}

// ---- reading ----

/// `get` lists the objects of its kind in its namespace that its selectors select, up to
/// its limit.
pub proof fn law_get(
    opts: JsonV,
    own: Seq<char>,
    d: DiscoveredV,
    f: FoundV,
    kind: Option<Seq<char>>,
    namespace: Option<Seq<char>>,
    labels: Option<Seq<char>>,
    fields: Option<Seq<char>>,
    limit: Option<u64>,
)
    requires
        text_is(opts, "kind"@, kind),
        text_is(opts, "namespace"@, namespace),
        text_is(opts, "label_selector"@, labels),
        text_is(opts, "field_selector"@, fields),
        unsigned_is(opts, "limit"@, limit),
        kind is Some ==> kind_found(d, kind->0) == Some(f),
    ensures
        kind is None ==> refused(Op::Get, opts, own, "missing kind"@),
        kind is Some ==> calls(
            Op::Get,
            opts,
            own,
            d,
            f,
            kind->0,
            namespace,
            CallV::List(
                SelectionV {
                    label_selector: labels,
                    field_selector: fields,
                    limit: match limit {
                        Some(n) => Some((n % 0x1_0000_0000) as u32),
                        None => None,
                    },
                },
            ),
        ),
{
    lemma_text(opts, "kind"@, kind);
    lemma_text(opts, "namespace"@, namespace);
    lemma_text(opts, "label_selector"@, labels);
    lemma_text(opts, "field_selector"@, fields);
    lemma_unsigned(opts, "limit"@, limit);
}

/// `get_one` reads the object of its kind, namespace and name, if there is one.
pub proof fn law_get_one(
    opts: JsonV,
    own: Seq<char>,
    d: DiscoveredV,
    f: FoundV,
    kind: Option<Seq<char>>,
    name: Option<Seq<char>>,
    namespace: Option<Seq<char>>,
)
    requires
        text_is(opts, "kind"@, kind),
        text_is(opts, "name"@, name),
        text_is(opts, "namespace"@, namespace),
        kind is Some ==> kind_found(d, kind->0) == Some(f),
    ensures
        kind is None ==> refused(Op::GetOne, opts, own, "missing kind"@),
        kind is Some && name is None ==> refused(Op::GetOne, opts, own, "missing name"@),
        kind is Some && name is Some ==> calls(
            Op::GetOne,
            opts,
            own,
            d,
            f,
            kind->0,
            namespace,
            CallV::GetIfAny(name->0),
        ),
{
    lemma_text(opts, "kind"@, kind);
    lemma_text(opts, "name"@, name);
    lemma_text(opts, "namespace"@, namespace);
}

/// `logs` reads the log of its pod in its namespace: of its container, and the last lines
/// where it says how many.
pub proof fn law_logs(
    opts: JsonV,
    own: Seq<char>,
    pod: Option<Seq<char>>,
    namespace: Option<Seq<char>>,
    container: Option<Seq<char>>,
    tail: Option<i64>,
)
    requires
        text_is(opts, "pod"@, pod),
        text_is(opts, "namespace"@, namespace),
        text_is(opts, "container"@, container),
        integer_is(opts, "tail"@, tail),
    ensures
        pod is None ==> refused(Op::Logs, opts, own, "missing pod"@),
        pod is Some && namespace is None ==> refused(Op::Logs, opts, own, "missing namespace"@),
        pod is Some && namespace is Some ==> calls_directly(
            Op::Logs,
            opts,
            own,
            SubjectV::Pods,
            PlaceV::Namespace(namespace->0),
            CallV::Logs {
                name: pod->0,
                options: LogOptionsV {
                    container,
                    tail,
                    since_seconds: None,
                    previous: false,
                    follow: false,
                    timestamps: false,
                },
            },
        ),
{
    lemma_text(opts, "pod"@, pod);
    lemma_text(opts, "namespace"@, namespace);
    lemma_text(opts, "container"@, container);
    lemma_integer(opts, "tail"@, tail);
}

/// `events` lists the events of its namespace, or of all, and of the object that it names
/// where it names one.
pub proof fn law_events(
    opts: JsonV,
    own: Seq<char>,
    namespace: Option<Seq<char>>,
    name: Option<Seq<char>>,
    limit: Option<u64>,
)
    requires
        text_is(opts, "namespace"@, namespace),
        text_is(opts, "name"@, name),
        unsigned_is(opts, "limit"@, limit),
    ensures
        calls_directly(
            Op::Events,
            opts,
            own,
            SubjectV::Events,
            if namespace is Some {
                PlaceV::Namespace(namespace->0)
            } else {
                PlaceV::Everywhere
            },
            CallV::List(
                SelectionV {
                    label_selector: None,
                    field_selector: match name {
                        Some(n) => Some("involvedObject.name="@ + n),
                        None => None,
                    },
                    limit: match limit {
                        Some(n) => Some((n % 0x1_0000_0000) as u32),
                        None => None,
                    },
                },
            ),
        ),
{
    lemma_text(opts, "namespace"@, namespace);
    lemma_text(opts, "name"@, name);
    lemma_unsigned(opts, "limit"@, limit);
}

/// `top_pods` fetches the metrics of the pods of its namespace, or of all; `top_nodes`
/// those of the nodes.
pub proof fn law_top(opts: JsonV, own: Seq<char>, namespace: Option<Seq<char>>)
    requires
        text_is(opts, "namespace"@, namespace),
    ensures
        started(Op::TopPods, opts).action is Connect,
        started(Op::TopNodes, opts).action is Connect,
        connected(Op::TopPods, opts, own).action == ActionV::Fetch(
            match namespace {
                Some(ns) => "/apis/metrics.k8s.io/v1beta1/namespaces/"@ + ns + "/pods"@,
                None => "/apis/metrics.k8s.io/v1beta1/pods"@,
            },
        ),
        connected(Op::TopNodes, opts, own).action == ActionV::Fetch(
            "/apis/metrics.k8s.io/v1beta1/nodes"@,
        ),
        connected(Op::TopPods, opts, own).session.stage == Stage::Body,
        connected(Op::TopNodes, opts, own).session.stage == Stage::Body,
{
    lemma_text(opts, "namespace"@, namespace);
}

/// `rollout_status` reads the object of its name and kind, by default a Deployment.
pub proof fn law_rollout_status(
    opts: JsonV,
    own: Seq<char>,
    d: DiscoveredV,
    f: FoundV,
    kind: Option<Seq<char>>,
    name: Option<Seq<char>>,
    namespace: Option<Seq<char>>,
)
    requires
        text_is(opts, "kind"@, kind),
        text_is(opts, "name"@, name),
        text_is(opts, "namespace"@, namespace),
        kind_found(d, kind_or_deployment(kind)) == Some(f),
    ensures
        name is None ==> refused_at_once(Op::RolloutStatus, opts, "missing name"@),
        name is Some ==> calls(
            Op::RolloutStatus,
            opts,
            own,
            d,
            f,
            kind_or_deployment(kind),
            namespace,
            CallV::Get(name->0),
        ),
{
    lemma_text(opts, "kind"@, kind);
    lemma_text(opts, "name"@, name);
    lemma_text(opts, "namespace"@, namespace);
}

/// The kind that is given, or a Deployment.
pub open spec fn kind_or_deployment(kind: Option<Seq<char>>) -> Seq<char> {
    if kind is Some {
        kind->0
    } else {
        "Deployment"@
    }
}

/// `rollout_history` lists all ReplicaSets of its namespace.
pub proof fn law_rollout_history_asks(
    opts: JsonV,
    own: Seq<char>,
    d: DiscoveredV,
    f: FoundV,
    name: Option<Seq<char>>,
    namespace: Option<Seq<char>>,
)
    requires
        text_is(opts, "name"@, name),
        text_is(opts, "namespace"@, namespace),
        kind_found(d, "ReplicaSet"@) == Some(f),
    ensures
        name is None ==> refused_at_once(Op::RolloutHistory, opts, "missing name"@),
        name is Some ==> calls(
            Op::RolloutHistory,
            opts,
            own,
            d,
            f,
            "ReplicaSet"@,
            namespace,
            CallV::List(
                SelectionV { label_selector: None, field_selector: None, limit: None },
            ),
        ),
{
    lemma_text(opts, "name"@, name);
    lemma_text(opts, "namespace"@, namespace);
}

/// `namespaces` lists all namespaces, `api_resources` asks for all that is served, `ping`
/// and `version` ask for the version of the server, and the two on contexts read the
/// kubeconfig without any connection. None of them refuses any arguments.
pub proof fn law_operations_without_arguments(opts: JsonV, own: Seq<char>)
    ensures
        calls_directly(
            Op::Namespaces,
            opts,
            own,
            SubjectV::Namespaces,
            PlaceV::Everywhere,
            CallV::List(
                SelectionV { label_selector: None, field_selector: None, limit: None },
            ),
        ),
        started(Op::ApiResources, opts).action is Connect,
        connected(Op::ApiResources, opts, own).action == ActionV::Discover(None),
        started(Op::Ping, opts).action is Connect,
        connected(Op::Ping, opts, own).action == ActionV::ServerVersion,
        started(Op::Version, opts).action is Connect,
        connected(Op::Version, opts, own).action == ActionV::ServerVersion,
        started(Op::Contexts, opts).action == ActionV::ReadContexts,
        started(Op::CurrentContext, opts).action == ActionV::ReadContexts,
{
}

// ---- documents ----

/// `create` sends the form of the object that its document describes to the namespace that
/// the document states.
pub proof fn law_create(
    opts: JsonV,
    own: Seq<char>,
    d: DiscoveredV,
    f: FoundV,
    doc: JsonV,
    kind: Option<Seq<char>>,
    namespace: Option<Seq<char>>,
)
    requires
        holds(opts, "doc"@, doc),
        text_is(doc, "kind"@, kind),
        metadata_is(doc, "namespace"@, namespace),
        kind is Some ==> kind_found(d, kind->0) == Some(f),
    ensures
        kind is None ==> refused(Op::Create, opts, own, "doc.kind missing"@),
        kind is Some ==> match object_form_of(doc) {
            Ok(object) => calls(
                Op::Create,
                opts,
                own,
                d,
                f,
                kind->0,
                namespace,
                CallV::Create(object),
            ),
            Err(e) => refused_late(Op::Create, opts, own, d, e),
        },
{
    lemma_text(doc, "kind"@, kind);
    lemma_metadata(doc, "namespace"@, namespace);
}

/// `replace` sends the form of the object that its document describes in place of the
/// object of that name, in the namespace that the document states.
pub proof fn law_replace(
    opts: JsonV,
    own: Seq<char>,
    d: DiscoveredV,
    f: FoundV,
    doc: JsonV,
    kind: Option<Seq<char>>,
    name: Option<Seq<char>>,
    namespace: Option<Seq<char>>,
)
    requires
        holds(opts, "doc"@, doc),
        text_is(doc, "kind"@, kind),
        metadata_is(doc, "name"@, name),
        metadata_is(doc, "namespace"@, namespace),
        kind is Some ==> kind_found(d, kind->0) == Some(f),
    ensures
        kind is None ==> refused(Op::Replace, opts, own, "doc.kind missing"@),
        kind is Some && name is None ==> refused(
            Op::Replace,
            opts,
            own,
            "doc.metadata.name missing"@,
        ),
        kind is Some && name is Some ==> match object_form_of(doc) {
            Ok(object) => calls(
                Op::Replace,
                opts,
                own,
                d,
                f,
                kind->0,
                namespace,
                CallV::Replace { name: name->0, doc: object },
            ),
            Err(e) => refused_late(Op::Replace, opts, own, d, e),
        },
{
    lemma_text(doc, "kind"@, kind);
    lemma_metadata(doc, "name"@, name);
    lemma_metadata(doc, "namespace"@, namespace);
}

/// `apply` sends its document as it is, as a forced server-side apply of `stryke-k8s`, to
/// the object of the name and namespace that the document states.
pub proof fn law_apply(
    opts: JsonV,
    own: Seq<char>,
    d: DiscoveredV,
    f: FoundV,
    doc: JsonV,
    kind: Option<Seq<char>>,
    name: Option<Seq<char>>,
    namespace: Option<Seq<char>>,
)
    requires
        holds(opts, "doc"@, doc),
        text_is(doc, "kind"@, kind),
        metadata_is(doc, "name"@, name),
        metadata_is(doc, "namespace"@, namespace),
        kind is Some ==> kind_found(d, kind->0) == Some(f),
    ensures
        kind is None ==> refused(Op::Apply, opts, own, "doc.kind missing"@),
        kind is Some && name is None ==> refused(
            Op::Apply,
            opts,
            own,
            "doc.metadata.name missing"@,
        ),
        kind is Some && name is Some ==> calls(
            Op::Apply,
            opts,
            own,
            d,
            f,
            kind->0,
            namespace,
            CallV::Patch {
                name: name->0,
                merge: MergeV::Apply { manager: "stryke-k8s"@, force: true },
                doc,
            },
        ),
{
    lemma_text(doc, "kind"@, kind);
    lemma_metadata(doc, "name"@, name);
    lemma_metadata(doc, "namespace"@, namespace);
}

/// Without a document there is nothing to create, replace or apply.
pub proof fn law_no_document(opts: JsonV, own: Seq<char>)
    requires
        forall|doc: JsonV| !#[trigger] holds(opts, "doc"@, doc),
    ensures
        refused(Op::Create, opts, own, "doc.kind missing"@),
        refused(Op::Replace, opts, own, "doc.kind missing"@),
        refused(Op::Apply, opts, own, "doc.kind missing"@),
{
    assert(!holds(opts, "doc"@, opts.field("doc"@)));
}

// ---- changing ----

/// `patch` sends its document to the object of its kind, namespace and name: as a JSON
/// merge, or as a strategic one where it says so, and as nothing else. What is missing is
/// said before there is any connection.
pub proof fn law_patch(
    opts: JsonV,
    own: Seq<char>,
    d: DiscoveredV,
    f: FoundV,
    kind: Option<Seq<char>>,
    name: Option<Seq<char>>,
    namespace: Option<Seq<char>>,
    how: Option<Seq<char>>,
    doc: JsonV,
)
    requires
        text_is(opts, "kind"@, kind),
        text_is(opts, "name"@, name),
        text_is(opts, "namespace"@, namespace),
        text_is(opts, "type"@, how),
        doc == JsonV::Null || holds(opts, "patch"@, doc),
        doc == JsonV::Null ==> forall|v: JsonV|
            #[trigger] holds(opts, "patch"@, v) ==> v == JsonV::Null,
        kind is Some ==> kind_found(d, kind->0) == Some(f),
    ensures
        kind is None ==> refused_at_once(Op::Patch, opts, "missing kind"@),
        kind is Some && name is None ==> refused_at_once(Op::Patch, opts, "missing name"@),
        kind is Some && name is Some ==> {
            if doc == JsonV::Null {
                refused_at_once(Op::Patch, opts, "missing patch (the patch document)"@)
            } else if how is None || how == Some("merge"@) {
                calls(
                    Op::Patch,
                    opts,
                    own,
                    d,
                    f,
                    kind->0,
                    namespace,
                    CallV::Patch { name: name->0, merge: MergeV::Json, doc },
                )
            } else if how == Some("strategic"@) {
                calls(
                    Op::Patch,
                    opts,
                    own,
                    d,
                    f,
                    kind->0,
                    namespace,
                    CallV::Patch { name: name->0, merge: MergeV::Strategic, doc },
                )
            } else {
                refused_at_once(
                    Op::Patch,
                    opts,
                    "unknown patch type `"@ + how->0 + "` (want merge|strategic)"@,
                )
            }
        },
{
    lemma_text(opts, "kind"@, kind);
    lemma_text(opts, "name"@, name);
    lemma_text(opts, "namespace"@, namespace);
    lemma_text(opts, "type"@, how);
    reveal_strlit("merge");
    reveal_strlit("strategic");
    assert("merge"@.len() != "strategic"@.len());
    if opts.field("patch"@) != JsonV::Null {
        assert(holds(opts, "patch"@, opts.field("patch"@)));
    }
}

/// `delete` deletes the object of its kind, namespace and name, with the grace period that
/// the object has.
pub proof fn law_delete(
    opts: JsonV,
    own: Seq<char>,
    d: DiscoveredV,
    f: FoundV,
    kind: Option<Seq<char>>,
    name: Option<Seq<char>>,
    namespace: Option<Seq<char>>,
)
    requires
        text_is(opts, "kind"@, kind),
        text_is(opts, "name"@, name),
        text_is(opts, "namespace"@, namespace),
        kind is Some ==> kind_found(d, kind->0) == Some(f),
    ensures
        kind is None ==> refused(Op::Delete, opts, own, "missing kind"@),
        kind is Some && name is None ==> refused(Op::Delete, opts, own, "missing name"@),
        kind is Some && name is Some ==> calls(
            Op::Delete,
            opts,
            own,
            d,
            f,
            kind->0,
            namespace,
            CallV::Delete { name: name->0, grace_period: None },
        ),
{
    lemma_text(opts, "kind"@, kind);
    lemma_text(opts, "name"@, name);
    lemma_text(opts, "namespace"@, namespace);
}

/// An object with one member.
pub open spec fn object_of(name: Seq<char>, value: JsonV) -> JsonV {
    JsonV::Object(Map::empty().insert(name, value))
}

/// `scale` sets `spec.replicas` of the object of its kind, namespace and name to its number,
/// through the scale of the object.
pub proof fn law_scale(
    opts: JsonV,
    own: Seq<char>,
    d: DiscoveredV,
    f: FoundV,
    kind: Option<Seq<char>>,
    name: Option<Seq<char>>,
    namespace: Option<Seq<char>>,
    replicas: Option<i64>,
)
    requires
        text_is(opts, "kind"@, kind),
        text_is(opts, "name"@, name),
        text_is(opts, "namespace"@, namespace),
        integer_is(opts, "replicas"@, replicas),
        kind is Some ==> kind_found(d, kind->0) == Some(f),
    ensures
        kind is None ==> refused(Op::Scale, opts, own, "missing kind"@),
        kind is Some && name is None ==> refused(Op::Scale, opts, own, "missing name"@),
        kind is Some && name is Some && replicas is None ==> refused(
            Op::Scale,
            opts,
            own,
            "missing replicas"@,
        ),
        kind is Some && name is Some && replicas is Some ==> calls(
            Op::Scale,
            opts,
            own,
            d,
            f,
            kind->0,
            namespace,
            CallV::PatchScale {
                name: name->0,
                doc: object_of(
                    "spec"@,
                    object_of("replicas"@, JsonV::Number(NumV::Int(replicas->0 as int))),
                ),
            },
        ),
{
    lemma_text(opts, "kind"@, kind);
    lemma_text(opts, "name"@, name);
    lemma_text(opts, "namespace"@, namespace);
    lemma_integer(opts, "replicas"@, replicas);
}

/// `label` merges its map into the labels of the object of its kind, namespace and name.
pub proof fn law_label(
    opts: JsonV,
    own: Seq<char>,
    d: DiscoveredV,
    f: FoundV,
    kind: Option<Seq<char>>,
    name: Option<Seq<char>>,
    namespace: Option<Seq<char>>,
    map: JsonV,
)
    requires
        text_is(opts, "kind"@, kind),
        text_is(opts, "name"@, name),
        text_is(opts, "namespace"@, namespace),
        kind is Some ==> kind_found(d, kind->0) == Some(f),
        map is Object ==> holds(opts, "labels"@, map),
        !(map is Object) ==> forall|v: JsonV|
            #[trigger] holds(opts, "labels"@, v) ==> !(v is Object),
    ensures
        kind is None ==> refused_at_once(Op::Label, opts, "missing kind"@),
        kind is Some && name is None ==> refused_at_once(Op::Label, opts, "missing name"@),
        kind is Some && name is Some && !(map is Object) ==> refused_at_once(
            Op::Label,
            opts,
            "missing "@ + "labels"@ + " (an object of key => value)"@,
        ),
        kind is Some && name is Some && map is Object ==> calls(
            Op::Label,
            opts,
            own,
            d,
            f,
            kind->0,
            namespace,
            CallV::Patch {
                name: name->0,
                merge: MergeV::Json,
                doc: object_of("metadata"@, object_of("labels"@, map)),
            },
        ),
{
    lemma_text(opts, "kind"@, kind);
    lemma_text(opts, "name"@, name);
    lemma_text(opts, "namespace"@, namespace);
    if opts.field("labels"@) is Object {
        assert(holds(opts, "labels"@, opts.field("labels"@)));
    }
}

/// `annotate` merges its map into the annotations of the object of its kind, namespace and name.
pub proof fn law_annotate(
    opts: JsonV,
    own: Seq<char>,
    d: DiscoveredV,
    f: FoundV,
    kind: Option<Seq<char>>,
    name: Option<Seq<char>>,
    namespace: Option<Seq<char>>,
    map: JsonV,
)
    requires
        text_is(opts, "kind"@, kind),
        text_is(opts, "name"@, name),
        text_is(opts, "namespace"@, namespace),
        kind is Some ==> kind_found(d, kind->0) == Some(f),
        map is Object ==> holds(opts, "annotations"@, map),
        !(map is Object) ==> forall|v: JsonV|
            #[trigger] holds(opts, "annotations"@, v) ==> !(v is Object),
    ensures
        kind is None ==> refused_at_once(Op::Annotate, opts, "missing kind"@),
        kind is Some && name is None ==> refused_at_once(Op::Annotate, opts, "missing name"@),
        kind is Some && name is Some && !(map is Object) ==> refused_at_once(
            Op::Annotate,
            opts,
            "missing "@ + "annotations"@ + " (an object of key => value)"@,
        ),
        kind is Some && name is Some && map is Object ==> calls(
            Op::Annotate,
            opts,
            own,
            d,
            f,
            kind->0,
            namespace,
            CallV::Patch {
                name: name->0,
                merge: MergeV::Json,
                doc: object_of("metadata"@, object_of("annotations"@, map)),
            },
        ),
{
    lemma_text(opts, "kind"@, kind);
    lemma_text(opts, "name"@, name);
    lemma_text(opts, "namespace"@, namespace);
    if opts.field("annotations"@) is Object {
        assert(holds(opts, "annotations"@, opts.field("annotations"@)));
    }
}

/// `cordon` and `uncordon` set `spec.unschedulable` of their node, `cordon` to true and
/// `uncordon` to false.
pub proof fn law_cordon(opts: JsonV, own: Seq<char>, cordon: bool, name: Option<Seq<char>>)
    requires
        text_is(opts, "name"@, name),
    ensures
        ({
            let op = if cordon {
                Op::Cordon
            } else {
                Op::Uncordon
            };
            &&& name is None ==> refused_at_once(op, opts, "missing name (node)"@)
            &&& name is Some ==> calls_directly(
                op,
                opts,
                own,
                SubjectV::Nodes,
                PlaceV::Everywhere,
                CallV::Patch {
                    name: name->0,
                    merge: MergeV::Json,
                    doc: object_of("spec"@, object_of("unschedulable"@, JsonV::Bool(cordon))),
                },
            )
        }),
{
    lemma_text(opts, "name"@, name);
}

/// `set_image` sets the image of one container, found by its name, in the pod template of
/// the object of its name and kind, by default a Deployment. The merge is strategic, so
/// that the other containers stay.
pub proof fn law_set_image(
    opts: JsonV,
    own: Seq<char>,
    d: DiscoveredV,
    f: FoundV,
    kind: Option<Seq<char>>,
    name: Option<Seq<char>>,
    namespace: Option<Seq<char>>,
    container: Option<Seq<char>>,
    image: Option<Seq<char>>,
)
    requires
        text_is(opts, "kind"@, kind),
        text_is(opts, "name"@, name),
        text_is(opts, "namespace"@, namespace),
        text_is(opts, "container"@, container),
        text_is(opts, "image"@, image),
        kind_found(d, kind_or_deployment(kind)) == Some(f),
    ensures
        name is None ==> refused_at_once(Op::SetImage, opts, "missing name"@),
        name is Some && container is None ==> refused_at_once(
            Op::SetImage,
            opts,
            "missing container"@,
        ),
        name is Some && container is Some && image is None ==> refused_at_once(
            Op::SetImage,
            opts,
            "missing image"@,
        ),
        name is Some && container is Some && image is Some ==> calls(
            Op::SetImage,
            opts,
            own,
            d,
            f,
            kind_or_deployment(kind),
            namespace,
            CallV::Patch {
                name: name->0,
                merge: MergeV::Strategic,
                doc: object_of(
                    "spec"@,
                    object_of(
                        "template"@,
                        object_of(
                            "spec"@,
                            object_of(
                                "containers"@,
                                JsonV::Array(
                                    seq![
                                        object_of("name"@, JsonV::Text(container->0)).with(
                                            "image"@,
                                            JsonV::Text(image->0),
                                        ),
                                    ],
                                ),
                            ),
                        ),
                    ),
                ),
            },
        ),
{
    lemma_text(opts, "kind"@, kind);
    lemma_text(opts, "name"@, name);
    lemma_text(opts, "namespace"@, namespace);
    lemma_text(opts, "container"@, container);
    lemma_text(opts, "image"@, image);
}

/// `rollout_restart` stamps the pod template of the object of its name and kind, by default
/// a Deployment, with the time in nanoseconds, so that its pods are made anew. The merge is
/// strategic, so that the rest of the template stays.
pub proof fn law_rollout_restart(
    opts: JsonV,
    own: Seq<char>,
    d: DiscoveredV,
    f: FoundV,
    kind: Option<Seq<char>>,
    name: Option<Seq<char>>,
    namespace: Option<Seq<char>>,
    clock: Option<u128>,
)
    requires
        text_is(opts, "kind"@, kind),
        text_is(opts, "name"@, name),
        text_is(opts, "namespace"@, namespace),
        kind_found(d, kind_or_deployment(kind)) == Some(f),
    ensures
        name is None ==> refused_at_once(Op::RolloutRestart, opts, "missing name"@),
        name is Some ==> {
            let found = reached(Op::RolloutRestart, opts, own, d);
            let timed = found.session.next(EventV::Clock(clock));
            &&& started(Op::RolloutRestart, opts).action is Connect
            &&& connected(Op::RolloutRestart, opts, own).action == ActionV::Discover(
                strict_kind(kind_or_deployment(kind)),
            )
            &&& found.action == ActionV::ReadClock
            &&& timed.session.stage == Stage::Answer
            &&& timed.action == ActionV::Perform(
                RequestV {
                    subject: SubjectV::Resource(f.resource),
                    place: place_in(f.scope, namespace),
                    call: CallV::Patch {
                        name: name->0,
                        merge: MergeV::Strategic,
                        doc: object_of(
                            "spec"@,
                            object_of(
                                "template"@,
                                object_of(
                                    "metadata"@,
                                    object_of(
                                        "annotations"@,
                                        object_of(
                                            "kubectl.kubernetes.io/restartedAt"@,
                                            JsonV::Text(
                                                if clock is Some {
                                                    decimal(clock->0 as nat)
                                                } else {
                                                    "0"@
                                                },
                                            ),
                                        ),
                                    ),
                                ),
                            ),
                        ),
                    },
                },
            )
        },
{
    lemma_text(opts, "kind"@, kind);
    lemma_text(opts, "name"@, name);
    lemma_text(opts, "namespace"@, namespace);
}

/// `evict` posts the eviction of its pod in its namespace.
pub proof fn law_evict(
    opts: JsonV,
    own: Seq<char>,
    name: Option<Seq<char>>,
    namespace: Option<Seq<char>>,
)
    requires
        text_is(opts, "name"@, name),
        text_is(opts, "namespace"@, namespace),
    ensures
        name is None ==> refused_at_once(Op::Evict, opts, "missing name (pod)"@),
        name is Some && namespace is None ==> refused_at_once(
            Op::Evict,
            opts,
            "missing namespace"@,
        ),
        name is Some && namespace is Some ==> {
            &&& started(Op::Evict, opts).action is Connect
            &&& connected(Op::Evict, opts, own).session.stage == Stage::Receipt
            &&& connected(Op::Evict, opts, own).action == (ActionV::Post {
                path: "/api/v1/namespaces/"@ + namespace->0 + "/pods/"@ + name->0 + "/eviction"@,
                body: json_text(
                    object_of("apiVersion"@, JsonV::Text("policy/v1"@)).with(
                        "kind"@,
                        JsonV::Text("Eviction"@),
                    ).with(
                        "metadata"@,
                        object_of("name"@, JsonV::Text(name->0)).with(
                            "namespace"@,
                            JsonV::Text(namespace->0),
                        ),
                    ),
                ),
            })
        },
{
    lemma_text(opts, "name"@, name);
    lemma_text(opts, "namespace"@, namespace);
}

/// `wait` looks its kind up, notes how long it may take, by default 300 seconds, and then
/// looks at the object of its kind, namespace and name.
pub proof fn law_wait_asks(
    opts: JsonV,
    own: Seq<char>,
    d: DiscoveredV,
    f: FoundV,
    kind: Option<Seq<char>>,
    name: Option<Seq<char>>,
    namespace: Option<Seq<char>>,
    timeout: Option<u64>,
)
    requires
        text_is(opts, "kind"@, kind),
        text_is(opts, "name"@, name),
        text_is(opts, "namespace"@, namespace),
        unsigned_is(opts, "timeout"@, timeout),
        kind is Some ==> kind_found(d, kind->0) == Some(f),
    ensures
        kind is None ==> refused_at_once(Op::Wait, opts, "missing kind"@),
        kind is Some && name is None ==> refused_at_once(Op::Wait, opts, "missing name"@),
        kind is Some && name is Some ==> {
            let found = reached(Op::Wait, opts, own, d);
            let looking = found.session.next(EventV::Ready);
            &&& started(Op::Wait, opts).action is Connect
            &&& connected(Op::Wait, opts, own).action == ActionV::Discover(strict_kind(kind->0))
            &&& found.action == ActionV::SetDeadline(
                if timeout is Some {
                    timeout->0
                } else {
                    300
                },
            )
            &&& looking.session.stage == Stage::Answer
            &&& looking.session.target == Some(f)
            &&& looking.action == ActionV::Perform(
                RequestV {
                    subject: SubjectV::Resource(f.resource),
                    place: place_in(f.scope, namespace),
                    call: CallV::GetIfAny(name->0),
                },
            )
        },
{
    lemma_text(opts, "kind"@, kind);
    lemma_text(opts, "name"@, name);
    lemma_text(opts, "namespace"@, namespace);
    lemma_unsigned(opts, "timeout"@, timeout);
}

/// `autoscale` creates an autoscaler in its namespace: of its own name or that of its
/// target, for a target that is by default a Deployment, between its least number of
/// replicas, by default 1, and its most, at its use of the CPU, by default 80 percent.
pub proof fn law_autoscale(
    opts: JsonV,
    own: Seq<char>,
    d: DiscoveredV,
    f: FoundV,
    target: Option<Seq<char>>,
    target_kind: Option<Seq<char>>,
    name: Option<Seq<char>>,
    namespace: Option<Seq<char>>,
    min: Option<i64>,
    max: Option<i64>,
    cpu: Option<i64>,
)
    requires
        text_is(opts, "target_name"@, target),
        text_is(opts, "target_kind"@, target_kind),
        text_is(opts, "name"@, name),
        text_is(opts, "namespace"@, namespace),
        integer_is(opts, "min"@, min),
        integer_is(opts, "max"@, max),
        integer_is(opts, "cpu_percent"@, cpu),
        kind_found(d, "HorizontalPodAutoscaler"@) == Some(f),
    ensures
        target is None ==> refused_at_once(Op::Autoscale, opts, "missing target_name"@),
        target is Some && max is None ==> refused_at_once(
            Op::Autoscale,
            opts,
            "missing max (maxReplicas)"@,
        ),
        target is Some && max is Some ==> {
            let named = object_of(
                "name"@,
                JsonV::Text(
                    if name is Some {
                        name->0
                    } else {
                        target->0
                    },
                ),
            );
            let metric = object_of("type"@, JsonV::Text("Resource"@)).with(
                "resource"@,
                object_of("name"@, JsonV::Text("cpu"@)).with(
                    "target"@,
                    object_of("type"@, JsonV::Text("Utilization"@)).with(
                        "averageUtilization"@,
                        JsonV::Number(
                            NumV::Int(
                                if cpu is Some {
                                    cpu->0 as int
                                } else {
                                    80
                                },
                            ),
                        ),
                    ),
                ),
            );
            let doc = object_of("apiVersion"@, JsonV::Text("autoscaling/v2"@)).with(
                "kind"@,
                JsonV::Text("HorizontalPodAutoscaler"@),
            ).with(
                "metadata"@,
                if namespace is Some {
                    named.with("namespace"@, JsonV::Text(namespace->0))
                } else {
                    named
                },
            ).with(
                "spec"@,
                object_of(
                    "scaleTargetRef"@,
                    object_of("apiVersion"@, JsonV::Text("apps/v1"@)).with(
                        "kind"@,
                        JsonV::Text(kind_or_deployment(target_kind)),
                    ).with("name"@, JsonV::Text(target->0)),
                ).with(
                    "minReplicas"@,
                    JsonV::Number(
                        NumV::Int(
                            if min is Some {
                                min->0 as int
                            } else {
                                1
                            },
                        ),
                    ),
                ).with("maxReplicas"@, JsonV::Number(NumV::Int(max->0 as int))).with(
                    "metrics"@,
                    JsonV::Array(seq![metric]),
                ),
            );
            match object_form_of(doc) {
                Ok(object) => calls(
                    Op::Autoscale,
                    opts,
                    own,
                    d,
                    f,
                    "HorizontalPodAutoscaler"@,
                    namespace,
                    CallV::Create(object),
                ),
                Err(e) => refused_late(Op::Autoscale, opts, own, d, e),
            }
        },
{
    lemma_text(opts, "target_name"@, target);
    lemma_text(opts, "target_kind"@, target_kind);
    lemma_text(opts, "name"@, name);
    lemma_text(opts, "namespace"@, namespace);
    lemma_integer(opts, "min"@, min);
    lemma_integer(opts, "max"@, max);
    lemma_integer(opts, "cpu_percent"@, cpu);
}

/// `taint` reads its node first.
pub proof fn law_taint_asks(
    opts: JsonV,
    own: Seq<char>,
    name: Option<Seq<char>>,
    key: Option<Seq<char>>,
)
    requires
        text_is(opts, "name"@, name),
        text_is(opts, "key"@, key),
    ensures
        name is None ==> refused_at_once(Op::Taint, opts, "missing name (node)"@),
        name is Some && key is None ==> refused_at_once(Op::Taint, opts, "missing key"@),
        name is Some && key is Some ==> calls_directly(
            Op::Taint,
            opts,
            own,
            SubjectV::Nodes,
            PlaceV::Everywhere,
            CallV::Get(name->0),
        ),
{
    lemma_text(opts, "name"@, name);
    lemma_text(opts, "key"@, key);
}

// ---- kinds that are not there ----

/// An operation on a kind that was not found says so, and asks nothing.
pub proof fn law_kind_is_not_there(
    op: Op,
    opts: JsonV,
    own: Seq<char>,
    d: DiscoveredV,
    kind: Seq<char>,
    name: Seq<char>,
)
    requires
        op == Op::Get || op == Op::GetOne || op == Op::Delete || op == Op::Wait || op
            == Op::RolloutStatus || op == Op::RolloutRestart,
        holds(opts, "kind"@, JsonV::Text(kind)),
        holds(opts, "name"@, JsonV::Text(name)),
        kind_found(d, kind) is None,
    ensures
        refused_late(op, opts, own, d, "unknown kind: "@ + kind),
{
}

/// A document of a kind that was not found is not sent.
pub proof fn law_kind_of_document_is_not_there(
    op: Op,
    opts: JsonV,
    own: Seq<char>,
    d: DiscoveredV,
    doc: JsonV,
    kind: Seq<char>,
    name: Seq<char>,
)
    requires
        op == Op::Create || op == Op::Replace || op == Op::Apply,
        holds(opts, "doc"@, doc),
        holds(doc, "kind"@, JsonV::Text(kind)),
        metadata_is(doc, "name"@, Some(name)),
        kind_found(d, kind) is None,
    ensures
        refused_late(op, opts, own, d, "unknown kind: "@ + kind),
{
    lemma_metadata(doc, "name"@, Some(name));
}

} // verus!
