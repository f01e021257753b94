//! What each operation asks of a cluster, as its arguments say.

use vstd::prelude::*;
use vstd::string::*;

use crate::cluster::{
    Call, CallV, LogOptions, LogOptionsV, Merge, MergeV, Place, PlaceV, Selection, SelectionV,
    Subject, SubjectV,
};
use crate::error::OpError;
use crate::json::{int_json, Json, JsonV};
use crate::text::{concat, opt_text, same_text};

verus! {

/// The operations that need a cluster or a kubeconfig.
#[derive(Clone, Copy, PartialEq, Eq, Structural)]
pub enum Op {
    Ping,
    Version,
    Contexts,
    CurrentContext,
    Namespaces,
    ApiResources,
    Get,
    GetOne,
    Create,
    Replace,
    Apply,
    Patch,
    Delete,
    Scale,
    Logs,
    Label,
    Annotate,
    Cordon,
    Uncordon,
    SetImage,
    RolloutRestart,
    RolloutStatus,
    Events,
    TopPods,
    TopNodes,
    Evict,
    Wait,
    RolloutHistory,
    Autoscale,
    Taint,
}

/// What a call is about: a kind by the word that the caller uses for it, to be looked
/// up, or a core kind at a known place.
pub enum Aim {
    Kind { kind: String, namespace: Option<String> },
    Fixed { subject: Subject, place: Place },
}

/// What an `Aim` is.
#[verifier::ext_equal]
pub enum AimV {
    Kind { kind: Seq<char>, namespace: Option<Seq<char>> },
    Fixed { subject: SubjectV, place: PlaceV },
}

impl View for Aim {
    type V = AimV;

    open spec fn view(&self) -> AimV {
        match *self {
            Aim::Kind { kind, namespace } => AimV::Kind {
                kind: kind@,
                namespace: opt_text(namespace),
            },
            Aim::Fixed { subject, place } => AimV::Fixed { subject: subject@, place: place@ },
        }
    }
}

/// What an operation asks for.
pub enum Plan {
    /// The contexts of the kubeconfig.
    Contexts,
    /// The version of the server.
    Version,
    /// The resources that the cluster recommends.
    Resources,
    /// One call.
    Call { aim: Aim, call: Call },
    /// A patch that carries the time at which it is made.
    Restart { kind: String, namespace: Option<String>, name: String },
    /// What the server holds under a path.
    Fetch(String),
    /// A document sent to a path of the server.
    Post { path: String, body: Json },
}

/// What a `Plan` is.
#[verifier::ext_equal]
pub enum PlanV {
    Contexts,
    Version,
    Resources,
    Call { aim: AimV, call: CallV },
    Restart { kind: Seq<char>, namespace: Option<Seq<char>>, name: Seq<char> },
    Fetch(Seq<char>),
    Post { path: Seq<char>, body: JsonV },
}

impl View for Plan {
    type V = PlanV;

    open spec fn view(&self) -> PlanV {
        match *self {
            Plan::Contexts => PlanV::Contexts,
            Plan::Version => PlanV::Version,
            Plan::Resources => PlanV::Resources,
            Plan::Call { aim, call } => PlanV::Call { aim: aim@, call: call@ },
            Plan::Restart { kind, namespace, name } => PlanV::Restart {
                kind: kind@,
                namespace: opt_text(namespace),
                name: name@,
            },
            Plan::Fetch(path) => PlanV::Fetch(path@),
            Plan::Post { path, body } => PlanV::Post { path: path@, body: body@ },
        }
    }
}

/// What planning gave.
pub open spec fn plan_outcome(r: Result<Plan, OpError>) -> Result<PlanV, Seq<char>> {
    match r {
        Ok(p) => Ok(p@),
        Err(e) => Err(e@),
    }
}

// ---- arguments ----

/// The text of a member, or the default.
pub open spec fn text_or(opts: JsonV, name: Seq<char>, default: Seq<char>) -> Seq<char> {
    match opts.field(name).text() {
        Some(s) => s,
        None => default,
    }
}

/// The integer of a member, or the default.
pub open spec fn integer_or(opts: JsonV, name: Seq<char>, default: i64) -> i64 {
    match opts.field(name).integer() {
        Some(i) => i,
        None => default,
    }
}

/// The text of a member, or the default.
pub fn read_text_or(opts: &Json, name: &str, default: &str) -> (r: String)
    ensures
        r@ == text_or(opts@, name@, default@),
{
    match opts.text_at(name) {
        Some(s) => s,
        None => default.to_owned(),
    }
}

/// The integer of a member, or the default.
pub fn read_integer_or(opts: &Json, name: &str, default: i64) -> (r: i64)
    ensures
        r == integer_or(opts@, name@, default),
{
    match opts.integer_at(name) {
        Some(i) => i,
        None => default,
    }
}

/// The namespace of the arguments.
pub open spec fn namespace_of(opts: JsonV) -> Option<Seq<char>> {
    opts.field("namespace"@).text()
}

/// A limit as the server takes it: its lower 32 bits.
pub open spec fn limit_of(opts: JsonV) -> Option<u32> {
    match opts.field("limit"@).unsigned() {
        Some(n) => Some((n % 0x1_0000_0000) as u32),
        None => None,
    }
}

/// The limit of the arguments.
fn read_limit(opts: &Json) -> (r: Option<u32>)
    ensures
        r == limit_of(opts@),
{
    match opts.unsigned_at("limit") {
        Some(n) => Some((n % 0x1_0000_0000) as u32),
        None => None,
    }
}

/// The list of everything.
pub open spec fn everything() -> SelectionV {
    SelectionV { label_selector: None, field_selector: None, limit: None }
}

// ---- plans ----

/// What listing a kind asks for.
pub open spec fn get_plan(opts: JsonV) -> Result<PlanV, Seq<char>> {
    match opts.field("kind"@).text() {
        None => Err("missing kind"@),
        Some(kind) => Ok(
            PlanV::Call {
                aim: AimV::Kind { kind, namespace: namespace_of(opts) },
                call: CallV::List(
                    SelectionV {
                        label_selector: opts.field("label_selector"@).text(),
                        field_selector: opts.field("field_selector"@).text(),
                        limit: limit_of(opts),
                    },
                ),
            },
        ),
    }
}

/// Plans the listing of the objects of a kind that the selectors select.
pub fn op_get(opts: &Json) -> (r: Result<Plan, OpError>)
    ensures
        plan_outcome(r) == get_plan(opts@),
{
    let kind = match opts.text_at("kind") {
        Some(s) => s,
        None => return Err(OpError::new("missing kind")),
    };
    Ok(
        Plan::Call {
            aim: Aim::Kind { kind, namespace: opts.text_at("namespace") },
            call: Call::List(
                Selection {
                    label_selector: opts.text_at("label_selector"),
                    field_selector: opts.text_at("field_selector"),
                    limit: read_limit(opts),
                },
            ),
        },
    )
}

/// What reading one object asks for.
pub open spec fn get_one_plan(opts: JsonV) -> Result<PlanV, Seq<char>> {
    match opts.field("kind"@).text() {
        None => Err("missing kind"@),
        Some(kind) => match opts.field("name"@).text() {
            None => Err("missing name"@),
            Some(name) => Ok(
                PlanV::Call {
                    aim: AimV::Kind { kind, namespace: namespace_of(opts) },
                    call: CallV::GetIfAny(name),
                },
            ),
        },
    }
}

/// Plans the reading of one object.
pub fn op_get_one(opts: &Json) -> (r: Result<Plan, OpError>)
    ensures
        plan_outcome(r) == get_one_plan(opts@),
{
    let kind = match opts.text_at("kind") {
        Some(s) => s,
        None => return Err(OpError::new("missing kind")),
    };
    let name = match opts.text_at("name") {
        Some(s) => s,
        None => return Err(OpError::new("missing name")),
    };
    Ok(
        Plan::Call {
            aim: Aim::Kind { kind, namespace: opts.text_at("namespace") },
            call: Call::GetIfAny(name),
        },
    )
}

/// The namespace that a document states for its object.
pub open spec fn doc_namespace(doc: JsonV) -> Option<Seq<char>> {
    doc.field("metadata"@).field("namespace"@).text()
}

/// The name that a document states for its object.
pub open spec fn doc_name(doc: JsonV) -> Option<Seq<char>> {
    doc.field("metadata"@).field("name"@).text()
}

/// The text of a member of a document's metadata.
pub fn read_metadata(doc: &Json, name: &str) -> (r: Option<String>)
    ensures
        opt_text(r) == doc@.field("metadata"@).field(name@).text(),
{
    match doc.get("metadata") {
        Some(m) => m.text_at(name),
        None => None,
    }
}

/// What creating an object asks for.
pub open spec fn create_plan(opts: JsonV) -> Result<PlanV, Seq<char>> {
    let doc = opts.field("doc"@);
    match doc.field("kind"@).text() {
        None => Err("doc.kind missing"@),
        Some(kind) => Ok(
            PlanV::Call {
                aim: AimV::Kind { kind, namespace: doc_namespace(doc) },
                call: CallV::Create(doc),
            },
        ),
    }
}

/// Plans the creation of the object that `doc` describes.
pub fn op_create(opts: &Json) -> (r: Result<Plan, OpError>)
    ensures
        plan_outcome(r) == create_plan(opts@),
{
    let doc = opts.copy_at("doc");
    let kind = match doc.text_at("kind") {
        Some(s) => s,
        None => return Err(OpError::new("doc.kind missing")),
    };
    let namespace = read_metadata(&doc, "namespace");
    Ok(Plan::Call { aim: Aim::Kind { kind, namespace }, call: Call::Create(doc) })
}

/// What replacing an object asks for.
pub open spec fn replace_plan(opts: JsonV) -> Result<PlanV, Seq<char>> {
    let doc = opts.field("doc"@);
    match doc.field("kind"@).text() {
        None => Err("doc.kind missing"@),
        Some(kind) => match doc_name(doc) {
            None => Err("doc.metadata.name missing"@),
            Some(name) => Ok(
                PlanV::Call {
                    aim: AimV::Kind { kind, namespace: doc_namespace(doc) },
                    call: CallV::Replace { name, doc },
                },
            ),
        },
    }
}

/// Plans the replacement of the object that `doc` describes.
pub fn op_replace(opts: &Json) -> (r: Result<Plan, OpError>)
    ensures
        plan_outcome(r) == replace_plan(opts@),
{
    let doc = opts.copy_at("doc");
    let kind = match doc.text_at("kind") {
        Some(s) => s,
        None => return Err(OpError::new("doc.kind missing")),
    };
    let name = match read_metadata(&doc, "name") {
        Some(s) => s,
        None => return Err(OpError::new("doc.metadata.name missing")),
    };
    let namespace = read_metadata(&doc, "namespace");
    Ok(Plan::Call { aim: Aim::Kind { kind, namespace }, call: Call::Replace { name, doc } })
}

/// What a server-side apply asks for: it is made as `stryke-k8s`, and forced.
pub open spec fn apply_plan(opts: JsonV) -> Result<PlanV, Seq<char>> {
    let doc = opts.field("doc"@);
    match doc.field("kind"@).text() {
        None => Err("doc.kind missing"@),
        Some(kind) => match doc_name(doc) {
            None => Err("doc.metadata.name missing"@),
            Some(name) => Ok(
                PlanV::Call {
                    aim: AimV::Kind { kind, namespace: doc_namespace(doc) },
                    call: CallV::Patch {
                        name,
                        merge: MergeV::Apply { manager: "stryke-k8s"@, force: true },
                        doc,
                    },
                },
            ),
        },
    }
}

/// Plans the server-side apply of `doc`.
pub fn op_apply(opts: &Json) -> (r: Result<Plan, OpError>)
    ensures
        plan_outcome(r) == apply_plan(opts@),
{
    let doc = opts.copy_at("doc");
    let kind = match doc.text_at("kind") {
        Some(s) => s,
        None => return Err(OpError::new("doc.kind missing")),
    };
    let name = match read_metadata(&doc, "name") {
        Some(s) => s,
        None => return Err(OpError::new("doc.metadata.name missing")),
    };
    let namespace = read_metadata(&doc, "namespace");
    let merge = Merge::Apply { manager: "stryke-k8s".to_owned(), force: true };
    Ok(Plan::Call { aim: Aim::Kind { kind, namespace }, call: Call::Patch { name, merge, doc } })
}

/// What a patch asks for.
pub open spec fn patch_plan(opts: JsonV) -> Result<PlanV, Seq<char>> {
    match opts.field("kind"@).text() {
        None => Err("missing kind"@),
        Some(kind) => match opts.field("name"@).text() {
            None => Err("missing name"@),
            Some(name) => {
                let how = text_or(opts, "type"@, "merge"@);
                let aim = AimV::Kind { kind, namespace: namespace_of(opts) };
                let doc = opts.field("patch"@);
                if doc == JsonV::Null {
                    Err("missing patch (the patch document)"@)
                } else if how == "merge"@ {
                    Ok(PlanV::Call { aim, call: CallV::Patch { name, merge: MergeV::Json, doc } })
                } else if how == "strategic"@ {
                    Ok(
                        PlanV::Call {
                            aim,
                            call: CallV::Patch { name, merge: MergeV::Strategic, doc },
                        },
                    )
                } else {
                    Err("unknown patch type `"@ + how + "` (want merge|strategic)"@)
                }
            },
        },
    }
}

/// Plans a patch: a JSON merge, or a strategic merge where `type` is `strategic`.
pub fn op_patch(opts: &Json) -> (r: Result<Plan, OpError>)
    ensures
        plan_outcome(r) == patch_plan(opts@),
{
    let kind = match opts.text_at("kind") {
        Some(s) => s,
        None => return Err(OpError::new("missing kind")),
    };
    let name = match opts.text_at("name") {
        Some(s) => s,
        None => return Err(OpError::new("missing name")),
    };
    let doc = opts.copy_at("patch");
    if let Json::Null = doc {
        return Err(OpError::new("missing patch (the patch document)"));
    }
    let how = read_text_or(opts, "type", "merge");
    let merge = if same_text(how.as_str(), "merge") {
        Merge::Json
    } else if same_text(how.as_str(), "strategic") {
        Merge::Strategic
    } else {
        let mut message = "unknown patch type `".to_owned();
        message.append(how.as_str());
        message.append("` (want merge|strategic)");
        return Err(OpError { message });
    };
    Ok(
        Plan::Call {
            aim: Aim::Kind { kind, namespace: opts.text_at("namespace") },
            call: Call::Patch { name, merge, doc },
        },
    )
}

/// What deleting an object asks for.
pub open spec fn delete_plan(opts: JsonV) -> Result<PlanV, Seq<char>> {
    match opts.field("kind"@).text() {
        None => Err("missing kind"@),
        Some(kind) => match opts.field("name"@).text() {
            None => Err("missing name"@),
            Some(name) => Ok(
                PlanV::Call {
                    aim: AimV::Kind { kind, namespace: namespace_of(opts) },
                    call: CallV::Delete { name, grace_period: None },
                },
            ),
        },
    }
}

/// Plans the deletion of an object.
pub fn op_delete(opts: &Json) -> (r: Result<Plan, OpError>)
    ensures
        plan_outcome(r) == delete_plan(opts@),
{
    let kind = match opts.text_at("kind") {
        Some(s) => s,
        None => return Err(OpError::new("missing kind")),
    };
    let name = match opts.text_at("name") {
        Some(s) => s,
        None => return Err(OpError::new("missing name")),
    };
    Ok(
        Plan::Call {
            aim: Aim::Kind { kind, namespace: opts.text_at("namespace") },
            call: Call::Delete { name, grace_period: None },
        },
    )
}

/// The patch that sets the number of replicas.
pub open spec fn replicas_patch(replicas: int) -> JsonV {
    JsonV::blank().with("spec"@, JsonV::blank().with("replicas"@, int_json(replicas)))
}

/// The patch that sets the number of replicas.
pub fn write_replicas_patch(replicas: i64) -> (r: Json)
    ensures
        r@ == replicas_patch(replicas as int),
{
    Json::blank().with("spec", Json::blank().with("replicas", Json::of_int(replicas)))
}

/// What scaling asks for.
pub open spec fn scale_plan(opts: JsonV) -> Result<PlanV, Seq<char>> {
    match opts.field("kind"@).text() {
        None => Err("missing kind"@),
        Some(kind) => match opts.field("name"@).text() {
            None => Err("missing name"@),
            Some(name) => match opts.field("replicas"@).integer() {
                None => Err("missing replicas"@),
                Some(n) => Ok(
                    PlanV::Call {
                        aim: AimV::Kind { kind, namespace: namespace_of(opts) },
                        call: CallV::PatchScale { name, doc: replicas_patch(n as int) },
                    },
                ),
            },
        },
    }
}

/// Plans the scaling of an object to `replicas`.
pub fn op_scale(opts: &Json) -> (r: Result<Plan, OpError>)
    ensures
        plan_outcome(r) == scale_plan(opts@),
{
    let kind = match opts.text_at("kind") {
        Some(s) => s,
        None => return Err(OpError::new("missing kind")),
    };
    let name = match opts.text_at("name") {
        Some(s) => s,
        None => return Err(OpError::new("missing name")),
    };
    let replicas = match opts.integer_at("replicas") {
        Some(n) => n,
        None => return Err(OpError::new("missing replicas")),
    };
    Ok(
        Plan::Call {
            aim: Aim::Kind { kind, namespace: opts.text_at("namespace") },
            call: Call::PatchScale { name, doc: write_replicas_patch(replicas) },
        },
    )
}

/// What reading a log asks for.
pub open spec fn logs_plan(opts: JsonV) -> Result<PlanV, Seq<char>> {
    match opts.field("pod"@).text() {
        None => Err("missing pod"@),
        Some(pod) => match namespace_of(opts) {
            None => Err("missing namespace"@),
            Some(ns) => Ok(
                PlanV::Call {
                    aim: AimV::Fixed { subject: SubjectV::Pods, place: PlaceV::Namespace(ns) },
                    call: CallV::Logs {
                        name: pod,
                        options: LogOptionsV {
                            container: opts.field("container"@).text(),
                            tail: opts.field("tail"@).integer(),
                            since_seconds: None,
                            previous: false,
                            follow: false,
                            timestamps: false,
                        },
                    },
                },
            ),
        },
    }
}

/// Plans the reading of a pod's log.
pub fn op_logs(opts: &Json) -> (r: Result<Plan, OpError>)
    ensures
        plan_outcome(r) == logs_plan(opts@),
{
    let pod = match opts.text_at("pod") {
        Some(s) => s,
        None => return Err(OpError::new("missing pod")),
    };
    let ns = match opts.text_at("namespace") {
        Some(s) => s,
        None => return Err(OpError::new("missing namespace")),
    };
    let options = LogOptions {
        container: opts.text_at("container"),
        tail: opts.integer_at("tail"),
        since_seconds: None,
        previous: false,
        follow: false,
        timestamps: false,
    };
    Ok(
        Plan::Call {
            aim: Aim::Fixed { subject: Subject::Pods, place: Place::Namespace(ns) },
            call: Call::Logs { name: pod, options },
        },
    )
}

/// What merging a member into an object's metadata asks for. A `null` in the map
/// removes its key.
pub open spec fn metadata_plan(opts: JsonV, field: Seq<char>) -> Result<PlanV, Seq<char>> {
    match opts.field("kind"@).text() {
        None => Err("missing kind"@),
        Some(kind) => match opts.field("name"@).text() {
            None => Err("missing name"@),
            Some(name) => if opts.field(field) is Object {
                Ok(
                    PlanV::Call {
                        aim: AimV::Kind { kind, namespace: namespace_of(opts) },
                        call: CallV::Patch {
                            name,
                            merge: MergeV::Json,
                            doc: JsonV::blank().with(
                                "metadata"@,
                                JsonV::blank().with(field, opts.field(field)),
                            ),
                        },
                    },
                )
            } else {
                Err("missing "@ + field + " (an object of key => value)"@)
            },
        },
    }
}

/// Plans the merge of the map `field` into an object's metadata.
pub fn metadata_merge(opts: &Json, field: &str) -> (r: Result<Plan, OpError>)
    ensures
        plan_outcome(r) == metadata_plan(opts@, field@),
{
    let kind = match opts.text_at("kind") {
        Some(s) => s,
        None => return Err(OpError::new("missing kind")),
    };
    let name = match opts.text_at("name") {
        Some(s) => s,
        None => return Err(OpError::new("missing name")),
    };
    let map = match opts.get(field) {
        Some(Json::Object(_)) => opts.copy_at(field),
        _ => {
            let mut message = "missing ".to_owned();
            message.append(field);
            message.append(" (an object of key => value)");
            return Err(OpError { message });
        },
    };
    Ok(
        Plan::Call {
            aim: Aim::Kind { kind, namespace: opts.text_at("namespace") },
            call: Call::Patch {
                name,
                merge: Merge::Json,
                doc: Json::blank().with("metadata", Json::blank().with(field, map)),
            },
        },
    )
}

/// Plans the merge of `labels` into an object's labels.
pub fn op_label(opts: &Json) -> (r: Result<Plan, OpError>)
    ensures
        plan_outcome(r) == metadata_plan(opts@, "labels"@),
{
    metadata_merge(opts, "labels")
}

/// Plans the merge of `annotations` into an object's annotations.
pub fn op_annotate(opts: &Json) -> (r: Result<Plan, OpError>)
    ensures
        plan_outcome(r) == metadata_plan(opts@, "annotations"@),
{
    metadata_merge(opts, "annotations")
}

/// What marking a node asks for.
pub open spec fn schedulable_plan(opts: JsonV, unschedulable: bool) -> Result<PlanV, Seq<char>> {
    match opts.field("name"@).text() {
        None => Err("missing name (node)"@),
        Some(name) => Ok(
            PlanV::Call {
                aim: AimV::Fixed { subject: SubjectV::Nodes, place: PlaceV::Everywhere },
                call: CallV::Patch {
                    name,
                    merge: MergeV::Json,
                    doc: JsonV::blank().with(
                        "spec"@,
                        JsonV::blank().with("unschedulable"@, JsonV::Bool(unschedulable)),
                    ),
                },
            },
        ),
    }
}

/// Plans the marking of a node as one to schedule on or not.
pub fn node_schedulable(opts: &Json, unschedulable: bool) -> (r: Result<Plan, OpError>)
    ensures
        plan_outcome(r) == schedulable_plan(opts@, unschedulable),
{
    let name = match opts.text_at("name") {
        Some(s) => s,
        None => return Err(OpError::new("missing name (node)")),
    };
    Ok(
        Plan::Call {
            aim: Aim::Fixed { subject: Subject::Nodes, place: Place::Everywhere },
            call: Call::Patch {
                name,
                merge: Merge::Json,
                doc: Json::blank().with(
                    "spec",
                    Json::blank().with("unschedulable", Json::Bool(unschedulable)),
                ),
            },
        },
    )
}

/// Plans that nothing new is scheduled on a node.
pub fn op_cordon(opts: &Json) -> (r: Result<Plan, OpError>)
    ensures
        plan_outcome(r) == schedulable_plan(opts@, true),
{
    node_schedulable(opts, true)
}

/// Plans that a node is scheduled on again.
pub fn op_uncordon(opts: &Json) -> (r: Result<Plan, OpError>)
    ensures
        plan_outcome(r) == schedulable_plan(opts@, false),
{
    node_schedulable(opts, false)
}

/// The patch that sets the image of one container of a pod template.
pub open spec fn image_patch(container: Seq<char>, image: Seq<char>) -> JsonV {
    JsonV::blank().with(
        "spec"@,
        JsonV::blank().with(
            "template"@,
            JsonV::blank().with(
                "spec"@,
                JsonV::blank().with(
                    "containers"@,
                    JsonV::Array(
                        seq![
                            JsonV::blank().with("name"@, JsonV::Text(container)).with(
                                "image"@,
                                JsonV::Text(image),
                            ),
                        ],
                    ),
                ),
            ),
        ),
    )
}

/// What setting an image asks for.
pub open spec fn set_image_plan(opts: JsonV) -> Result<PlanV, Seq<char>> {
    match opts.field("name"@).text() {
        None => Err("missing name"@),
        Some(name) => match opts.field("container"@).text() {
            None => Err("missing container"@),
            Some(container) => match opts.field("image"@).text() {
                None => Err("missing image"@),
                Some(image) => Ok(
                    PlanV::Call {
                        aim: AimV::Kind {
                            kind: text_or(opts, "kind"@, "Deployment"@),
                            namespace: namespace_of(opts),
                        },
                        call: CallV::Patch {
                            name,
                            merge: MergeV::Strategic,
                            doc: image_patch(container, image),
                        },
                    },
                ),
            },
        },
    }
}

/// Plans the setting of a container's image. The merge is strategic, so that the other
/// containers stay as they are.
pub fn op_set_image(opts: &Json) -> (r: Result<Plan, OpError>)
    ensures
        plan_outcome(r) == set_image_plan(opts@),
{
    let kind = read_text_or(opts, "kind", "Deployment");
    let name = match opts.text_at("name") {
        Some(s) => s,
        None => return Err(OpError::new("missing name")),
    };
    let container = match opts.text_at("container") {
        Some(s) => s,
        None => return Err(OpError::new("missing container")),
    };
    let image = match opts.text_at("image") {
        Some(s) => s,
        None => return Err(OpError::new("missing image")),
    };
    let entry = Json::blank().with("name", Json::Text(container)).with("image", Json::Text(image));
    let mut containers: Vec<Json> = Vec::new();
    containers.push(entry);
    assert(crate::json::items_view(containers@) =~= seq![entry@]);
    let doc = Json::blank().with(
        "spec",
        Json::blank().with(
            "template",
            Json::blank().with("spec", Json::blank().with("containers", Json::Array(containers))),
        ),
    );
    Ok(
        Plan::Call {
            aim: Aim::Kind { kind, namespace: opts.text_at("namespace") },
            call: Call::Patch { name, merge: Merge::Strategic, doc },
        },
    )
}

/// What a restart asks for.
pub open spec fn restart_plan(opts: JsonV) -> Result<PlanV, Seq<char>> {
    match opts.field("name"@).text() {
        None => Err("missing name"@),
        Some(name) => Ok(
            PlanV::Restart {
                kind: text_or(opts, "kind"@, "Deployment"@),
                namespace: namespace_of(opts),
                name,
            },
        ),
    }
}

/// Plans the rolling restart of a workload.
pub fn op_rollout_restart(opts: &Json) -> (r: Result<Plan, OpError>)
    ensures
        plan_outcome(r) == restart_plan(opts@),
{
    let kind = read_text_or(opts, "kind", "Deployment");
    let name = match opts.text_at("name") {
        Some(s) => s,
        None => return Err(OpError::new("missing name")),
    };
    Ok(Plan::Restart { kind, namespace: opts.text_at("namespace"), name })
}

/// The patch that stamps a pod template, so that its pods are made anew.
pub open spec fn stamp_patch(stamp: Seq<char>) -> JsonV {
    JsonV::blank().with(
        "spec"@,
        JsonV::blank().with(
            "template"@,
            JsonV::blank().with(
                "metadata"@,
                JsonV::blank().with(
                    "annotations"@,
                    JsonV::blank().with(
                        "kubectl.kubernetes.io/restartedAt"@,
                        JsonV::Text(stamp),
                    ),
                ),
            ),
        ),
    )
}

/// The patch that stamps a pod template.
pub fn write_stamp_patch(stamp: &str) -> (r: Json)
    ensures
        r@ == stamp_patch(stamp@),
{
    Json::blank().with(
        "spec",
        Json::blank().with(
            "template",
            Json::blank().with(
                "metadata",
                Json::blank().with(
                    "annotations",
                    Json::blank().with("kubectl.kubernetes.io/restartedAt", Json::of_text(stamp)),
                ),
            ),
        ),
    )
}

/// What reading the status of a rollout asks for.
pub open spec fn status_plan(opts: JsonV) -> Result<PlanV, Seq<char>> {
    match opts.field("name"@).text() {
        None => Err("missing name"@),
        Some(name) => Ok(
            PlanV::Call {
                aim: AimV::Kind {
                    kind: text_or(opts, "kind"@, "Deployment"@),
                    namespace: namespace_of(opts),
                },
                call: CallV::Get(name),
            },
        ),
    }
}

/// Plans the reading of the status of a rollout.
pub fn op_rollout_status(opts: &Json) -> (r: Result<Plan, OpError>)
    ensures
        plan_outcome(r) == status_plan(opts@),
{
    let kind = read_text_or(opts, "kind", "Deployment");
    let name = match opts.text_at("name") {
        Some(s) => s,
        None => return Err(OpError::new("missing name")),
    };
    Ok(
        Plan::Call {
            aim: Aim::Kind { kind, namespace: opts.text_at("namespace") },
            call: Call::Get(name),
        },
    )
}

/// What listing cluster events asks for.
pub open spec fn events_plan(opts: JsonV) -> Result<PlanV, Seq<char>> {
    Ok(
        PlanV::Call {
            aim: AimV::Fixed {
                subject: SubjectV::Events,
                place: match namespace_of(opts) {
                    Some(ns) => PlaceV::Namespace(ns),
                    None => PlaceV::Everywhere,
                },
            },
            call: CallV::List(
                SelectionV {
                    label_selector: None,
                    field_selector: match opts.field("name"@).text() {
                        Some(name) => Some("involvedObject.name="@ + name),
                        None => None,
                    },
                    limit: limit_of(opts),
                },
            ),
        },
    )
}

/// Plans the listing of cluster events, of one object where `name` is given.
pub fn op_events(opts: &Json) -> (r: Result<Plan, OpError>)
    ensures
        plan_outcome(r) == events_plan(opts@),
{
    let place = match opts.text_at("namespace") {
        Some(ns) => Place::Namespace(ns),
        None => Place::Everywhere,
    };
    let field_selector = match opts.text_at("name") {
        Some(name) => Some(concat("involvedObject.name=", name.as_str())),
        None => None,
    };
    Ok(
        Plan::Call {
            aim: Aim::Fixed { subject: Subject::Events, place },
            call: Call::List(
                Selection { label_selector: None, field_selector, limit: read_limit(opts) },
            ),
        },
    )
}

/// Where the metrics of pods are served.
pub open spec fn pod_metrics_path(namespace: Option<Seq<char>>) -> Seq<char> {
    match namespace {
        Some(ns) => "/apis/metrics.k8s.io/v1beta1/namespaces/"@ + ns + "/pods"@,
        None => "/apis/metrics.k8s.io/v1beta1/pods"@,
    }
}

/// Plans the reading of the metrics of pods.
pub fn op_top_pods(opts: &Json) -> (r: Result<Plan, OpError>)
    ensures
        plan_outcome(r) == Ok::<PlanV, Seq<char>>(
            PlanV::Fetch(pod_metrics_path(namespace_of(opts@))),
        ),
{
    match opts.text_at("namespace") {
        Some(ns) => {
            let mut path = "/apis/metrics.k8s.io/v1beta1/namespaces/".to_owned();
            path.append(ns.as_str());
            path.append("/pods");
            Ok(Plan::Fetch(path))
        },
        None => Ok(Plan::Fetch("/apis/metrics.k8s.io/v1beta1/pods".to_owned())),
    }
}

/// Plans the reading of the metrics of nodes.
pub fn op_top_nodes() -> (r: Result<Plan, OpError>)
    ensures
        plan_outcome(r) == Ok::<PlanV, Seq<char>>(
            PlanV::Fetch("/apis/metrics.k8s.io/v1beta1/nodes"@),
        ),
{
    Ok(Plan::Fetch("/apis/metrics.k8s.io/v1beta1/nodes".to_owned()))
}

/// What evicting a pod asks for.
pub open spec fn evict_plan(opts: JsonV) -> Result<PlanV, Seq<char>> {
    match opts.field("name"@).text() {
        None => Err("missing name (pod)"@),
        Some(name) => match namespace_of(opts) {
            None => Err("missing namespace"@),
            Some(ns) => Ok(
                PlanV::Post {
                    path: "/api/v1/namespaces/"@ + ns + "/pods/"@ + name + "/eviction"@,
                    body: JsonV::blank().with("apiVersion"@, JsonV::Text("policy/v1"@)).with(
                        "kind"@,
                        JsonV::Text("Eviction"@),
                    ).with(
                        "metadata"@,
                        JsonV::blank().with("name"@, JsonV::Text(name)).with(
                            "namespace"@,
                            JsonV::Text(ns),
                        ),
                    ),
                },
            ),
        },
    }
}

/// Plans the eviction of a pod.
pub fn op_evict(opts: &Json) -> (r: Result<Plan, OpError>)
    ensures
        plan_outcome(r) == evict_plan(opts@),
{
    let name = match opts.text_at("name") {
        Some(s) => s,
        None => return Err(OpError::new("missing name (pod)")),
    };
    let ns = match opts.text_at("namespace") {
        Some(s) => s,
        None => return Err(OpError::new("missing namespace")),
    };
    let mut path = "/api/v1/namespaces/".to_owned();
    path.append(ns.as_str());
    path.append("/pods/");
    path.append(name.as_str());
    path.append("/eviction");
    let body = Json::blank().with("apiVersion", Json::of_text("policy/v1")).with(
        "kind",
        Json::of_text("Eviction"),
    ).with(
        "metadata",
        Json::blank().with("name", Json::Text(name)).with("namespace", Json::Text(ns)),
    );
    Ok(Plan::Post { path, body })
}

/// What waiting for an object asks for, each time it looks.
pub open spec fn wait_plan(opts: JsonV) -> Result<PlanV, Seq<char>> {
    get_one_plan(opts)
}

/// Plans one look at the object that is waited for.
pub fn op_wait(opts: &Json) -> (r: Result<Plan, OpError>)
    ensures
        plan_outcome(r) == wait_plan(opts@),
{
    op_get_one(opts)
}

/// What reading the history of a rollout asks for.
pub open spec fn history_plan(opts: JsonV) -> Result<PlanV, Seq<char>> {
    match opts.field("name"@).text() {
        None => Err("missing name"@),
        Some(_) => Ok(
            PlanV::Call {
                aim: AimV::Kind { kind: "ReplicaSet"@, namespace: namespace_of(opts) },
                call: CallV::List(everything()),
            },
        ),
    }
}

/// Plans the reading of the history of a rollout: each of its revisions is a ReplicaSet.
pub fn op_rollout_history(opts: &Json) -> (r: Result<Plan, OpError>)
    ensures
        plan_outcome(r) == history_plan(opts@),
{
    match opts.text_at("name") {
        Some(_) => Ok(
            Plan::Call {
                aim: Aim::Kind {
                    kind: "ReplicaSet".to_owned(),
                    namespace: opts.text_at("namespace"),
                },
                call: Call::List(
                    Selection { label_selector: None, field_selector: None, limit: None },
                ),
            },
        ),
        None => Err(OpError::new("missing name")),
    }
}

/// The metadata of an autoscaler.
pub open spec fn autoscaler_metadata(name: Seq<char>, namespace: Option<Seq<char>>) -> JsonV {
    let base = JsonV::blank().with("name"@, JsonV::Text(name));
    match namespace {
        Some(ns) => base.with("namespace"@, JsonV::Text(ns)),
        None => base,
    }
}

/// The document of an autoscaler that keeps the CPU use of a workload at a level.
pub open spec fn autoscaler(
    name: Seq<char>,
    namespace: Option<Seq<char>>,
    target_kind: Seq<char>,
    target_name: Seq<char>,
    min: int,
    max: int,
    cpu: int,
) -> JsonV {
    JsonV::blank().with("apiVersion"@, JsonV::Text("autoscaling/v2"@)).with(
        "kind"@,
        JsonV::Text("HorizontalPodAutoscaler"@),
    ).with("metadata"@, autoscaler_metadata(name, namespace)).with(
        "spec"@,
        JsonV::blank().with(
            "scaleTargetRef"@,
            JsonV::blank().with("apiVersion"@, JsonV::Text("apps/v1"@)).with(
                "kind"@,
                JsonV::Text(target_kind),
            ).with("name"@, JsonV::Text(target_name)),
        ).with("minReplicas"@, int_json(min)).with("maxReplicas"@, int_json(max)).with(
            "metrics"@,
            JsonV::Array(
                seq![
                    JsonV::blank().with("type"@, JsonV::Text("Resource"@)).with(
                        "resource"@,
                        JsonV::blank().with("name"@, JsonV::Text("cpu"@)).with(
                            "target"@,
                            JsonV::blank().with("type"@, JsonV::Text("Utilization"@)).with(
                                "averageUtilization"@,
                                int_json(cpu),
                            ),
                        ),
                    ),
                ],
            ),
        ),
    )
}

/// What making an autoscaler asks for.
pub open spec fn autoscale_plan(opts: JsonV) -> Result<PlanV, Seq<char>> {
    match opts.field("target_name"@).text() {
        None => Err("missing target_name"@),
        Some(target_name) => match opts.field("max"@).integer() {
            None => Err("missing max (maxReplicas)"@),
            Some(max) => Ok(
                PlanV::Call {
                    aim: AimV::Kind {
                        kind: "HorizontalPodAutoscaler"@,
                        namespace: namespace_of(opts),
                    },
                    call: CallV::Create(
                        autoscaler(
                            text_or(opts, "name"@, target_name),
                            namespace_of(opts),
                            text_or(opts, "target_kind"@, "Deployment"@),
                            target_name,
                            integer_or(opts, "min"@, 1) as int,
                            max as int,
                            integer_or(opts, "cpu_percent"@, 80) as int,
                        ),
                    ),
                },
            ),
        },
    }
}

/// Plans the making of an autoscaler for a workload.
pub fn op_autoscale(opts: &Json) -> (r: Result<Plan, OpError>)
    ensures
        plan_outcome(r) == autoscale_plan(opts@),
{
    let target_kind = read_text_or(opts, "target_kind", "Deployment");
    let target_name = match opts.text_at("target_name") {
        Some(s) => s,
        None => return Err(OpError::new("missing target_name")),
    };
    let name = read_text_or(opts, "name", target_name.as_str());
    let min = read_integer_or(opts, "min", 1);
    let max = match opts.integer_at("max") {
        Some(n) => n,
        None => return Err(OpError::new("missing max (maxReplicas)")),
    };
    let cpu = read_integer_or(opts, "cpu_percent", 80);
    let mut metadata = Json::blank().with("name", Json::Text(name));
    if let Some(ns) = opts.text_at("namespace") {
        metadata = metadata.with("namespace", Json::Text(ns));
    }
    let metric = Json::blank().with("type", Json::of_text("Resource")).with(
        "resource",
        Json::blank().with("name", Json::of_text("cpu")).with(
            "target",
            Json::blank().with("type", Json::of_text("Utilization")).with(
                "averageUtilization",
                Json::of_int(cpu),
            ),
        ),
    );
    let mut metrics: Vec<Json> = Vec::new();
    metrics.push(metric);
    assert(crate::json::items_view(metrics@) =~= seq![metric@]);
    let target = Json::blank().with("apiVersion", Json::of_text("apps/v1")).with(
        "kind",
        Json::Text(target_kind),
    ).with("name", Json::Text(target_name));
    let doc = Json::blank().with("apiVersion", Json::of_text("autoscaling/v2")).with(
        "kind",
        Json::of_text("HorizontalPodAutoscaler"),
    ).with("metadata", metadata).with(
        "spec",
        Json::blank().with("scaleTargetRef", target).with("minReplicas", Json::of_int(min)).with(
            "maxReplicas",
            Json::of_int(max),
        ).with("metrics", Json::Array(metrics)),
    );
    Ok(
        Plan::Call {
            aim: Aim::Kind {
                kind: "HorizontalPodAutoscaler".to_owned(),
                namespace: opts.text_at("namespace"),
            },
            call: Call::Create(doc),
        },
    )
}

/// What tainting a node asks for first: the node as it is.
pub open spec fn taint_plan(opts: JsonV) -> Result<PlanV, Seq<char>> {
    match opts.field("name"@).text() {
        None => Err("missing name (node)"@),
        Some(name) => match opts.field("key"@).text() {
            None => Err("missing key"@),
            Some(_) => Ok(
                PlanV::Call {
                    aim: AimV::Fixed { subject: SubjectV::Nodes, place: PlaceV::Everywhere },
                    call: CallV::Get(name),
                },
            ),
        },
    }
}

/// Plans the reading of the node that is to be tainted.
pub fn op_taint(opts: &Json) -> (r: Result<Plan, OpError>)
    ensures
        plan_outcome(r) == taint_plan(opts@),
{
    let name = match opts.text_at("name") {
        Some(s) => s,
        None => return Err(OpError::new("missing name (node)")),
    };
    match opts.text_at("key") {
        Some(_) => Ok(
            Plan::Call {
                aim: Aim::Fixed { subject: Subject::Nodes, place: Place::Everywhere },
                call: Call::Get(name),
            },
        ),
        None => Err(OpError::new("missing key")),
    }
}

/// What listing the namespaces asks for.
pub open spec fn namespaces_plan() -> PlanV {
    PlanV::Call {
        aim: AimV::Fixed { subject: SubjectV::Namespaces, place: PlaceV::Everywhere },
        call: CallV::List(everything()),
    }
}

/// Plans the listing of the namespaces.
pub fn op_namespaces() -> (r: Result<Plan, OpError>)
    ensures
        plan_outcome(r) == Ok::<PlanV, Seq<char>>(namespaces_plan()),
{
    Ok(
        Plan::Call {
            aim: Aim::Fixed { subject: Subject::Namespaces, place: Place::Everywhere },
            call: Call::List(
                Selection { label_selector: None, field_selector: None, limit: None },
            ),
        },
    )
}

/// What an operation asks for, or what is wrong with its arguments.
pub open spec fn planned(op: Op, opts: JsonV) -> Result<PlanV, Seq<char>> {
    match op {
        Op::Ping => Ok(PlanV::Version),
        Op::Version => Ok(PlanV::Version),
        Op::Contexts => Ok(PlanV::Contexts),
        Op::CurrentContext => Ok(PlanV::Contexts),
        Op::Namespaces => Ok(namespaces_plan()),
        Op::ApiResources => Ok(PlanV::Resources),
        Op::Get => get_plan(opts),
        Op::GetOne => get_one_plan(opts),
        Op::Create => create_plan(opts),
        Op::Replace => replace_plan(opts),
        Op::Apply => apply_plan(opts),
        Op::Patch => patch_plan(opts),
        Op::Delete => delete_plan(opts),
        Op::Scale => scale_plan(opts),
        Op::Logs => logs_plan(opts),
        Op::Label => metadata_plan(opts, "labels"@),
        Op::Annotate => metadata_plan(opts, "annotations"@),
        Op::Cordon => schedulable_plan(opts, true),
        Op::Uncordon => schedulable_plan(opts, false),
        Op::SetImage => set_image_plan(opts),
        Op::RolloutRestart => restart_plan(opts),
        Op::RolloutStatus => status_plan(opts),
        Op::Events => events_plan(opts),
        Op::TopPods => Ok(PlanV::Fetch(pod_metrics_path(namespace_of(opts)))),
        Op::TopNodes => Ok(PlanV::Fetch("/apis/metrics.k8s.io/v1beta1/nodes"@)),
        Op::Evict => evict_plan(opts),
        Op::Wait => wait_plan(opts),
        Op::RolloutHistory => history_plan(opts),
        Op::Autoscale => autoscale_plan(opts),
        Op::Taint => taint_plan(opts),
    }
}

/// Plans an operation.
pub fn plan(op: Op, opts: &Json) -> (r: Result<Plan, OpError>)
    ensures
        plan_outcome(r) == planned(op, opts@),
{
    match op {
        Op::Ping => Ok(Plan::Version),
        Op::Version => Ok(Plan::Version),
        Op::Contexts => Ok(Plan::Contexts),
        Op::CurrentContext => Ok(Plan::Contexts),
        Op::Namespaces => op_namespaces(),
        Op::ApiResources => Ok(Plan::Resources),
        Op::Get => op_get(opts),
        Op::GetOne => op_get_one(opts),
        Op::Create => op_create(opts),
        Op::Replace => op_replace(opts),
        Op::Apply => op_apply(opts),
        Op::Patch => op_patch(opts),
        Op::Delete => op_delete(opts),
        Op::Scale => op_scale(opts),
        Op::Logs => op_logs(opts),
        Op::Label => op_label(opts),
        Op::Annotate => op_annotate(opts),
        Op::Cordon => op_cordon(opts),
        Op::Uncordon => op_uncordon(opts),
        Op::SetImage => op_set_image(opts),
        Op::RolloutRestart => op_rollout_restart(opts),
        Op::RolloutStatus => op_rollout_status(opts),
        Op::Events => op_events(opts),
        Op::TopPods => op_top_pods(opts),
        Op::TopNodes => op_top_nodes(),
        Op::Evict => op_evict(opts),
        Op::Wait => op_wait(opts),
        Op::RolloutHistory => op_rollout_history(opts),
        Op::Autoscale => op_autoscale(opts),
        Op::Taint => op_taint(opts),
    }
}

/// Whether an operation looks at its arguments before it connects.
pub open spec fn looks_first(op: Op) -> bool {
    match op {
        Op::Patch | Op::Label | Op::Annotate | Op::Cordon | Op::Uncordon | Op::SetImage
        | Op::RolloutRestart | Op::RolloutStatus | Op::Evict | Op::Wait | Op::RolloutHistory
        | Op::Autoscale | Op::Taint => true,
        _ => false,
    }
}

/// Whether an operation looks at its arguments before it connects.
pub fn checks_first(op: Op) -> (r: bool)
    ensures
        r == looks_first(op),
{
    match op {
        Op::Patch | Op::Label | Op::Annotate | Op::Cordon | Op::Uncordon | Op::SetImage
        | Op::RolloutRestart | Op::RolloutStatus | Op::Evict | Op::Wait | Op::RolloutHistory
        | Op::Autoscale | Op::Taint => true,
        _ => false,
    }
}

} // verus!
