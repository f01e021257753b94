//! What is said to a cluster and what it says back: resources, places, calls
//! and answers, each with its model.

use vstd::prelude::*;
use vstd::string::*;

use crate::json::{items_view, Json, JsonV};
use crate::text::{opt_text, texts};

verus! {

/// A second text that may be absent.
pub fn copy_option(o: &Option<String>) -> (r: Option<String>)
    ensures
        opt_text(r) == opt_text(*o),
{
    match o {
        Some(s) => Some(s.clone()),
        None => None,
    }
}

/// A second list of texts.
pub fn copy_texts(v: &Vec<String>) -> (r: Vec<String>)
    ensures
        texts(r@) == texts(v@),
{
    let mut out: Vec<String> = Vec::new();
    let mut i: usize = 0;
    while i < v.len()
        invariant
            i <= v@.len(),
            out@.len() == i,
            forall|k: int| 0 <= k < i ==> (#[trigger] out@[k])@ == v@[k]@,
        decreases v@.len() - i,
    {
        out.push(v[i].clone());
        i += 1;
    }
    assert(texts(out@) =~= texts(v@));
    out
}

/// A kind of object that a cluster serves.
#[derive(Debug)]
pub struct ApiResource {
    pub group: String,
    pub version: String,
    pub api_version: String,
    pub kind: String,
    pub plural: String,
}

/// What an `ApiResource` is.
#[verifier::ext_equal]
pub struct ApiResourceV {
    pub group: Seq<char>,
    pub version: Seq<char>,
    pub api_version: Seq<char>,
    pub kind: Seq<char>,
    pub plural: Seq<char>,
}

impl View for ApiResource {
    type V = ApiResourceV;

    open spec fn view(&self) -> ApiResourceV {
        ApiResourceV {
            group: self.group@,
            version: self.version@,
            api_version: self.api_version@,
            kind: self.kind@,
            plural: self.plural@,
        }
    }
}

impl ApiResource {
    /// A second resource with the same contents.
    pub fn copy(&self) -> (r: ApiResource)
        ensures
            r@ == self@,
    {
        ApiResource {
            group: self.group.clone(),
            version: self.version.clone(),
            api_version: self.api_version.clone(),
            kind: self.kind.clone(),
            plural: self.plural.clone(),
        }
    }
}

/// Whether the objects of a kind belong to a namespace.
#[derive(Clone, Copy, Debug, PartialEq, Eq, Structural)]
pub enum Scope {
    Cluster,
    Namespaced,
}

/// A resource as discovery found it.
#[derive(Debug)]
pub struct Found {
    pub resource: ApiResource,
    pub scope: Scope,
    pub verbs: Vec<String>,
}

/// What a `Found` is.
#[verifier::ext_equal]
pub struct FoundV {
    pub resource: ApiResourceV,
    pub scope: Scope,
    pub verbs: Seq<Seq<char>>,
}

impl View for Found {
    type V = FoundV;

    open spec fn view(&self) -> FoundV {
        FoundV { resource: self.resource@, scope: self.scope, verbs: texts(self.verbs@) }
    }
}

impl Found {
    /// A second finding with the same contents.
    pub fn copy(&self) -> (r: Found)
        ensures
            r@ == self@,
    {
        Found {
            resource: self.resource.copy(),
            scope: self.scope,
            verbs: copy_texts(&self.verbs),
        }
    }
}

/// A kind with its group and version.
#[derive(Debug)]
pub struct Gvk {
    pub group: String,
    pub version: String,
    pub kind: String,
}

/// What a `Gvk` is.
#[verifier::ext_equal]
pub struct GvkV {
    pub group: Seq<char>,
    pub version: Seq<char>,
    pub kind: Seq<char>,
}

impl View for Gvk {
    type V = GvkV;

    open spec fn view(&self) -> GvkV {
        GvkV { group: self.group@, version: self.version@, kind: self.kind@ }
    }
}

/// What a value that may be absent is.
pub open spec fn opt_gvk(o: Option<Gvk>) -> Option<GvkV> {
    match o {
        Some(g) => Some(g@),
        None => None,
    }
}

/// What discovery found: the resource of the group, version and kind that was asked
/// for, and the recommended resources of each group, in the order in which they came.
pub struct Discovered {
    pub exact: Option<Found>,
    pub recommended: Vec<Found>,
}

/// What a `Discovered` is.
#[verifier::ext_equal]
pub struct DiscoveredV {
    pub exact: Option<FoundV>,
    pub recommended: Seq<FoundV>,
}

/// The models of a list of findings.
pub open spec fn findings(v: Seq<Found>) -> Seq<FoundV> {
    Seq::new(v.len(), |i: int| v[i]@)
}

/// What a finding that may be absent is.
pub open spec fn opt_found(o: Option<Found>) -> Option<FoundV> {
    match o {
        Some(f) => Some(f@),
        None => None,
    }
}

impl View for Discovered {
    type V = DiscoveredV;

    open spec fn view(&self) -> DiscoveredV {
        DiscoveredV { exact: opt_found(self.exact), recommended: findings(self.recommended@) }
    }
}

/// Which objects of a kind a call is about: those outside namespaces or in all of
/// them, those of one namespace, or those of the connection's own namespace.
pub enum Place {
    Everywhere,
    Namespace(String),
    DefaultNamespace,
}

/// What a `Place` is.
#[verifier::ext_equal]
pub enum PlaceV {
    Everywhere,
    Namespace(Seq<char>),
    DefaultNamespace,
}

impl View for Place {
    type V = PlaceV;

    open spec fn view(&self) -> PlaceV {
        match *self {
            Place::Everywhere => PlaceV::Everywhere,
            Place::Namespace(ns) => PlaceV::Namespace(ns@),
            Place::DefaultNamespace => PlaceV::DefaultNamespace,
        }
    }
}

/// The kind of object that a call is about: a discovered one, or one of the core
/// kinds that need no discovery.
pub enum Subject {
    Resource(ApiResource),
    Namespaces,
    Pods,
    Nodes,
    Events,
}

/// What a `Subject` is.
#[verifier::ext_equal]
pub enum SubjectV {
    Resource(ApiResourceV),
    Namespaces,
    Pods,
    Nodes,
    Events,
}

impl View for Subject {
    type V = SubjectV;

    open spec fn view(&self) -> SubjectV {
        match *self {
            Subject::Resource(r) => SubjectV::Resource(r@),
            Subject::Namespaces => SubjectV::Namespaces,
            Subject::Pods => SubjectV::Pods,
            Subject::Nodes => SubjectV::Nodes,
            Subject::Events => SubjectV::Events,
        }
    }
}

/// Which objects a list holds.
pub struct Selection {
    pub label_selector: Option<String>,
    pub field_selector: Option<String>,
    pub limit: Option<u32>,
}

/// What a `Selection` is.
#[verifier::ext_equal]
pub struct SelectionV {
    pub label_selector: Option<Seq<char>>,
    pub field_selector: Option<Seq<char>>,
    pub limit: Option<u32>,
}

impl View for Selection {
    type V = SelectionV;

    open spec fn view(&self) -> SelectionV {
        SelectionV {
            label_selector: opt_text(self.label_selector),
            field_selector: opt_text(self.field_selector),
            limit: self.limit,
        }
    }
}

/// Which lines of a container's log are read, and how.
pub struct LogOptions {
    pub container: Option<String>,
    pub tail: Option<i64>,
    pub since_seconds: Option<i64>,
    pub previous: bool,
    pub follow: bool,
    pub timestamps: bool,
}

/// What `LogOptions` are.
#[verifier::ext_equal]
pub struct LogOptionsV {
    pub container: Option<Seq<char>>,
    pub tail: Option<i64>,
    pub since_seconds: Option<i64>,
    pub previous: bool,
    pub follow: bool,
    pub timestamps: bool,
}

impl View for LogOptions {
    type V = LogOptionsV;

    open spec fn view(&self) -> LogOptionsV {
        LogOptionsV {
            container: opt_text(self.container),
            tail: self.tail,
            since_seconds: self.since_seconds,
            previous: self.previous,
            follow: self.follow,
            timestamps: self.timestamps,
        }
    }
}

/// How a patch is merged. A server-side apply is made in the name of a field
/// manager, and may be forced.
pub enum Merge {
    Json,
    Strategic,
    Apply { manager: String, force: bool },
}

/// What a `Merge` is.
#[verifier::ext_equal]
pub enum MergeV {
    Json,
    Strategic,
    Apply { manager: Seq<char>, force: bool },
}

impl View for Merge {
    type V = MergeV;

    open spec fn view(&self) -> MergeV {
        match *self {
            Merge::Json => MergeV::Json,
            Merge::Strategic => MergeV::Strategic,
            Merge::Apply { manager, force } => MergeV::Apply { manager: manager@, force },
        }
    }
}

/// One call on objects of a kind.
pub enum Call {
    List(Selection),
    Get(String),
    GetIfAny(String),
    Create(Json),
    Replace { name: String, doc: Json },
    Patch { name: String, merge: Merge, doc: Json },
    PatchScale { name: String, doc: Json },
    Delete { name: String, grace_period: Option<u32> },
    Logs { name: String, options: LogOptions },
    Watch(Selection),
    Exec { name: String, container: Option<String>, command: Vec<String> },
}

/// What a `Call` is.
#[verifier::ext_equal]
pub enum CallV {
    List(SelectionV),
    Get(Seq<char>),
    GetIfAny(Seq<char>),
    Create(JsonV),
    Replace { name: Seq<char>, doc: JsonV },
    Patch { name: Seq<char>, merge: MergeV, doc: JsonV },
    PatchScale { name: Seq<char>, doc: JsonV },
    Delete { name: Seq<char>, grace_period: Option<u32> },
    Logs { name: Seq<char>, options: LogOptionsV },
    Watch(SelectionV),
    Exec { name: Seq<char>, container: Option<Seq<char>>, command: Seq<Seq<char>> },
}

impl View for Call {
    type V = CallV;

    open spec fn view(&self) -> CallV {
        match *self {
            Call::List(s) => CallV::List(s@),
            Call::Get(name) => CallV::Get(name@),
            Call::GetIfAny(name) => CallV::GetIfAny(name@),
            Call::Create(doc) => CallV::Create(doc@),
            Call::Replace { name, doc } => CallV::Replace { name: name@, doc: doc@ },
            Call::Patch { name, merge, doc } => CallV::Patch {
                name: name@,
                merge: merge@,
                doc: doc@,
            },
            Call::PatchScale { name, doc } => CallV::PatchScale { name: name@, doc: doc@ },
            Call::Delete { name, grace_period } => CallV::Delete { name: name@, grace_period },
            Call::Logs { name, options } => CallV::Logs { name: name@, options: options@ },
            Call::Watch(s) => CallV::Watch(s@),
            Call::Exec { name, container, command } => CallV::Exec {
                name: name@,
                container: opt_text(container),
                command: texts(command@),
            },
        }
    }
}

/// A call with its subject and place.
pub struct Request {
    pub subject: Subject,
    pub place: Place,
    pub call: Call,
}

/// What a `Request` is.
#[verifier::ext_equal]
pub struct RequestV {
    pub subject: SubjectV,
    pub place: PlaceV,
    pub call: CallV,
}

impl View for Request {
    type V = RequestV;

    open spec fn view(&self) -> RequestV {
        RequestV { subject: self.subject@, place: self.place@, call: self.call@ }
    }
}

/// A context of a kubeconfig.
pub struct ContextEntry {
    pub name: String,
    pub cluster: Option<String>,
    pub user: Option<String>,
    pub namespace: Option<String>,
}

/// What a `ContextEntry` is.
#[verifier::ext_equal]
pub struct ContextEntryV {
    pub name: Seq<char>,
    pub cluster: Option<Seq<char>>,
    pub user: Option<Seq<char>>,
    pub namespace: Option<Seq<char>>,
}

impl View for ContextEntry {
    type V = ContextEntryV;

    open spec fn view(&self) -> ContextEntryV {
        ContextEntryV {
            name: self.name@,
            cluster: opt_text(self.cluster),
            user: opt_text(self.user),
            namespace: opt_text(self.namespace),
        }
    }
}

/// The contexts of a kubeconfig and which of them is current.
pub struct Contexts {
    pub entries: Vec<ContextEntry>,
    pub current: Option<String>,
}

/// What `Contexts` are.
#[verifier::ext_equal]
pub struct ContextsV {
    pub entries: Seq<ContextEntryV>,
    pub current: Option<Seq<char>>,
}

impl View for Contexts {
    type V = ContextsV;

    open spec fn view(&self) -> ContextsV {
        ContextsV {
            entries: Seq::new(self.entries@.len(), |i: int| self.entries@[i]@),
            current: opt_text(self.current),
        }
    }
}

/// A cluster event about an object.
pub struct EventRecord {
    pub event_type: Option<String>,
    pub reason: Option<String>,
    pub message: Option<String>,
    pub count: Option<i32>,
    pub object: Option<String>,
    pub kind: Option<String>,
    pub last_timestamp: Option<String>,
}

/// What an `EventRecord` is.
#[verifier::ext_equal]
pub struct EventRecordV {
    pub event_type: Option<Seq<char>>,
    pub reason: Option<Seq<char>>,
    pub message: Option<Seq<char>>,
    pub count: Option<i32>,
    pub object: Option<Seq<char>>,
    pub kind: Option<Seq<char>>,
    pub last_timestamp: Option<Seq<char>>,
}

impl View for EventRecord {
    type V = EventRecordV;

    open spec fn view(&self) -> EventRecordV {
        EventRecordV {
            event_type: opt_text(self.event_type),
            reason: opt_text(self.reason),
            message: opt_text(self.message),
            count: self.count,
            object: opt_text(self.object),
            kind: opt_text(self.kind),
            last_timestamp: opt_text(self.last_timestamp),
        }
    }
}

/// A change that a watch reports.
pub enum Change {
    Apply(Json),
    Delete(Json),
    Init,
    InitApply(Json),
    InitDone,
}

/// What a `Change` is.
#[verifier::ext_equal]
pub enum ChangeV {
    Apply(JsonV),
    Delete(JsonV),
    Init,
    InitApply(JsonV),
    InitDone,
}

impl View for Change {
    type V = ChangeV;

    open spec fn view(&self) -> ChangeV {
        match *self {
            Change::Apply(j) => ChangeV::Apply(j@),
            Change::Delete(j) => ChangeV::Delete(j@),
            Change::Init => ChangeV::Init,
            Change::InitApply(j) => ChangeV::InitApply(j@),
            Change::InitDone => ChangeV::InitDone,
        }
    }
}

/// What came back from the outside.
pub enum Event {
    /// The connection stands; its own namespace is given.
    Connected { namespace: String },
    Contexts(Contexts),
    Discovered(Discovered),
    Listed(Vec<Json>),
    Records(Vec<EventRecord>),
    Document(Json),
    Perhaps(Option<Json>),
    /// The object is being deleted.
    Deleting(Json),
    /// The object is gone; the status is given.
    Gone(Json),
    Text(String),
    /// The nanoseconds since the epoch, where the clock stands after it.
    Clock(Option<u128>),
    Ready,
    /// Whether the deadline has passed.
    Overdue(bool),
    /// A request could not be formed.
    Unsent(String),
    /// What was asked for failed.
    Failed(String),
    /// What the standard input held.
    Input(String),
    /// A command runs; whether its output can be read is given.
    Attached { stdout: bool },
    Change(Change),
    /// What a command wrote; nothing where that stream is at its end.
    Chunk { stderr: bool, bytes: Vec<u8> },
    /// An output of a command could not be read.
    Broken { stderr: bool, message: String },
    /// A stream has ended.
    Ended,
}

/// What an `Event` is.
#[verifier::ext_equal]
pub enum EventV {
    Connected { namespace: Seq<char> },
    Contexts(ContextsV),
    Discovered(DiscoveredV),
    Listed(Seq<JsonV>),
    Records(Seq<EventRecordV>),
    Document(JsonV),
    Perhaps(Option<JsonV>),
    Deleting(JsonV),
    Gone(JsonV),
    Text(Seq<char>),
    Clock(Option<u128>),
    Ready,
    Overdue(bool),
    Unsent(Seq<char>),
    Failed(Seq<char>),
    Input(Seq<char>),
    Attached { stdout: bool },
    Change(ChangeV),
    Chunk { stderr: bool, bytes: Seq<u8> },
    Broken { stderr: bool, message: Seq<char> },
    Ended,
}

impl View for Event {
    type V = EventV;

    open spec fn view(&self) -> EventV {
        match *self {
            Event::Connected { namespace } => EventV::Connected { namespace: namespace@ },
            Event::Contexts(c) => EventV::Contexts(c@),
            Event::Discovered(d) => EventV::Discovered(d@),
            Event::Listed(items) => EventV::Listed(items_view(items@)),
            Event::Records(v) => EventV::Records(Seq::new(v@.len(), |i: int| v@[i]@)),
            Event::Document(j) => EventV::Document(j@),
            Event::Perhaps(o) => EventV::Perhaps(
                match o {
                    Some(j) => Some(j@),
                    None => None,
                },
            ),
            Event::Deleting(j) => EventV::Deleting(j@),
            Event::Gone(j) => EventV::Gone(j@),
            Event::Text(s) => EventV::Text(s@),
            Event::Clock(o) => EventV::Clock(o),
            Event::Ready => EventV::Ready,
            Event::Overdue(b) => EventV::Overdue(b),
            Event::Unsent(s) => EventV::Unsent(s@),
            Event::Failed(s) => EventV::Failed(s@),
            Event::Input(s) => EventV::Input(s@),
            Event::Attached { stdout } => EventV::Attached { stdout },
            Event::Change(c) => EventV::Change(c@),
            Event::Chunk { stderr, bytes } => EventV::Chunk { stderr, bytes: bytes@ },
            Event::Broken { stderr, message } => EventV::Broken { stderr, message: message@ },
            Event::Ended => EventV::Ended,
        }
    }
}

} // verus!
