//! An operation from its arguments to its answer: which steps it asks for, and
//! what it makes of their outcomes.

use vstd::prelude::*;
use vstd::string::*;

use crate::answer::{
    condition_holds, condition_is_true, context_documents, event_documents, history, list_contexts,
    list_events, list_named_namespaces, list_resources, named_namespaces, resource_documents,
    retaint, retainted, rollout_history, taints_of,
};
use crate::cluster::{
    opt_found, opt_gvk, Call, CallV, Contexts, ContextsV, Discovered, DiscoveredV, Event, EventV,
    Found, FoundV, Gvk, GvkV, Merge, MergeV, Place, PlaceV, Request, RequestV, Subject, SubjectV,
};
use crate::codec::{
    call_args, decode_args, json_text, object_form, object_form_of, opt_bytes, write_document,
};
use crate::command::call_outcome;
use crate::decimal::{decimal, write_decimal};
use crate::error::{outcome, OpError};
use crate::json::{text_or_null, Json, JsonV};
use crate::plan::{
    checks_first, looks_first, plan, planned, read_text_or, stamp_patch, text_or, write_stamp_patch,
    Aim, AimV, Op, Plan, PlanV,
};
use crate::resource::{discover_kind, dyn_api, gvk_of_kind, kind_found, place_of, strict_kind};
use crate::text::{concat, equal_ignoring_case, opt_text, same_ignoring_case, same_text, texts};

verus! {

/// Which connection an operation uses: the default one, or that of a context.
pub enum Connection {
    Default,
    Named(String),
}

/// What a `Connection` is.
#[verifier::ext_equal]
pub enum ConnectionV {
    Default,
    Named(Seq<char>),
}

impl View for Connection {
    type V = ConnectionV;

    open spec fn view(&self) -> ConnectionV {
        match *self {
            Connection::Default => ConnectionV::Default,
            Connection::Named(s) => ConnectionV::Named(s@),
        }
    }
}

/// The connection that the arguments ask for.
pub open spec fn connection_of(opts: JsonV) -> ConnectionV {
    match opts.field("context"@).text() {
        None => ConnectionV::Default,
        Some(context) => if context == "_default"@ {
            ConnectionV::Default
        } else {
            ConnectionV::Named(context)
        },
    }
}

/// The key under which a connection is kept for later calls.
pub open spec fn connection_key(c: ConnectionV) -> Seq<char> {
    match c {
        ConnectionV::Default => "_default"@,
        ConnectionV::Named(context) => context,
    }
}

/// The connection that the arguments ask for.
pub fn choose_connection(opts: &Json) -> (r: Connection)
    ensures
        r@ == connection_of(opts@),
{
    match opts.text_at("context") {
        None => Connection::Default,
        Some(context) => if same_text(context.as_str(), "_default") {
            Connection::Default
        } else {
            Connection::Named(context)
        },
    }
}

impl Connection {
    /// The key under which the connection is kept for later calls.
    pub fn key(&self) -> (r: String)
        ensures
            r@ == connection_key(self@),
    {
        match self {
            Connection::Default => "_default".to_owned(),
            Connection::Named(context) => context.clone(),
        }
    }
}

/// Two operations share a connection exactly if they ask for the same one.
pub proof fn law_connections_kept_apart(a: JsonV, b: JsonV)
    ensures
        connection_key(connection_of(a)) == connection_key(connection_of(b)) <==> connection_of(a)
            == connection_of(b),
{
}

/// The connections that are kept for later calls, each at its place.
pub struct Kept {
    keys: Vec<String>,
}

impl View for Kept {
    type V = Seq<Seq<char>>;

    closed spec fn view(&self) -> Seq<Seq<char>> {
        texts(self.keys@)
    }
}

/// The keys of the connections that are kept once one is kept as well.
pub open spec fn kept_too(keys: Seq<Seq<char>>, key: Seq<char>) -> Seq<Seq<char>> {
    if keys.contains(key) {
        keys
    } else {
        keys.push(key)
    }
}

/// Whether a key stands at a place, and at none before it.
pub open spec fn stands_first(keys: Seq<Seq<char>>, key: Seq<char>, i: int) -> bool {
    &&& 0 <= i < keys.len()
    &&& keys[i] == key
    &&& forall|j: int| 0 <= j < i ==> #[trigger] keys[j] != key
}

impl Kept {
    /// No connections.
    pub fn new() -> (r: Kept)
        ensures
            r@ == Seq::<Seq<char>>::empty(),
    {
        let r = Kept { keys: Vec::new() };
        assert(r@ =~= Seq::empty());
        r
    }

    /// Where a connection is kept, if it is.
    pub fn place(&self, c: &Connection) -> (r: Option<usize>)
        ensures
            match r {
                Some(i) => stands_first(self@, connection_key(c@), i as int),
                None => !self@.contains(connection_key(c@)),
            },
    {
        let key = c.key();
        let mut i: usize = 0;
        while i < self.keys.len()
            invariant
                i <= self.keys@.len(),
                key@ == connection_key(c@),
                forall|j: int| 0 <= j < i ==> #[trigger] self@[j] != key@,
            decreases self.keys@.len() - i,
        {
            if same_text(self.keys[i].as_str(), key.as_str()) {
                return Some(i);
            }
            i += 1;
        }
        None
    }

    /// Keeps a connection, at the place that it has or else at the end, and says where.
    pub fn keep(&mut self, c: &Connection) -> (r: usize)
        ensures
            final(self)@ == kept_too(old(self)@, connection_key(c@)),
            stands_first(final(self)@, connection_key(c@), r as int),
    {
        match self.place(c) {
            Some(i) => i,
            None => {
                let ghost before = self@;
                let i = self.keys.len();
                self.keys.push(c.key());
                assert(self@ =~= before.push(connection_key(c@)));
                assert forall|j: int| 0 <= j < i implies #[trigger] self@[j] != connection_key(
                    c@,
                ) by {
                    assert(before[j] == self@[j]);
                }
                i
            },
        }
    }
}

/// A connection that is kept is found again, each is kept at one place, and the others
/// stay at theirs.
pub proof fn law_kept_once(keys: Seq<Seq<char>>, key: Seq<char>)
    requires
        keys.no_duplicates(),
    ensures
        kept_too(keys, key).contains(key),
        kept_too(keys, key).no_duplicates(),
        forall|i: int| 0 <= i < keys.len() ==> #[trigger] kept_too(keys, key)[i] == keys[i],
        kept_too(kept_too(keys, key), key) == kept_too(keys, key),
{
    if !keys.contains(key) {
        assert(keys.push(key).last() == key);
        assert(keys.push(key)[keys.len() as int] == key);
    }
}

/// What an operation asks for next.
pub enum Action {
    Connect(Connection),
    ReadContexts,
    ServerVersion,
    /// Find out what the cluster serves, and whether it serves the given kind.
    Discover(Option<Gvk>),
    ReadClock,
    Perform(Request),
    Fetch(String),
    /// Send the text of a document to a path.
    Post { path: String, body: String },
    /// Remember a deadline this many seconds from now.
    SetDeadline(u64),
    CheckDeadline,
    /// Rest for this many seconds.
    Pause(u64),
    Finish(Result<Json, OpError>),
}

/// What an `Action` is.
#[verifier::ext_equal]
pub enum ActionV {
    Connect(ConnectionV),
    ReadContexts,
    ServerVersion,
    Discover(Option<GvkV>),
    ReadClock,
    Perform(RequestV),
    Fetch(Seq<char>),
    Post { path: Seq<char>, body: Seq<char> },
    SetDeadline(u64),
    CheckDeadline,
    Pause(u64),
    Finish(Result<JsonV, Seq<char>>),
}

impl View for Action {
    type V = ActionV;

    open spec fn view(&self) -> ActionV {
        match *self {
            Action::Connect(c) => ActionV::Connect(c@),
            Action::ReadContexts => ActionV::ReadContexts,
            Action::ServerVersion => ActionV::ServerVersion,
            Action::Discover(g) => ActionV::Discover(opt_gvk(g)),
            Action::ReadClock => ActionV::ReadClock,
            Action::Perform(r) => ActionV::Perform(r@),
            Action::Fetch(path) => ActionV::Fetch(path@),
            Action::Post { path, body } => ActionV::Post { path: path@, body: body@ },
            Action::SetDeadline(s) => ActionV::SetDeadline(s),
            Action::CheckDeadline => ActionV::CheckDeadline,
            Action::Pause(s) => ActionV::Pause(s),
            Action::Finish(r) => ActionV::Finish(outcome(r)),
        }
    }
}

/// What an operation waits for.
#[derive(Clone, Copy, PartialEq, Eq, Structural)]
pub enum Stage {
    Contexts,
    Connection,
    Version,
    Discovery,
    Clock,
    Body,
    Receipt,
    Answer,
    SecondAnswer,
    Deadline,
    Check,
    Rest,
    Nothing,
}

/// An operation under way.
pub struct Session {
    op: Op,
    opts: Json,
    stage: Stage,
    target: Option<Found>,
}

/// What a `Session` is.
#[verifier::ext_equal]
pub struct SessionV {
    pub op: Op,
    pub opts: JsonV,
    pub stage: Stage,
    pub target: Option<FoundV>,
}

impl View for Session {
    type V = SessionV;

    closed spec fn view(&self) -> SessionV {
        SessionV {
            op: self.op,
            opts: self.opts@,
            stage: self.stage,
            target: opt_found(self.target),
        }
    }
}

/// An operation under way and what it asks for next.
pub struct Step {
    pub session: Session,
    pub action: Action,
}

/// What a `Step` is.
#[verifier::ext_equal]
pub struct StepV {
    pub session: SessionV,
    pub action: ActionV,
}

impl View for Step {
    type V = StepV;

    open spec fn view(&self) -> StepV {
        StepV { session: self.session@, action: self.action@ }
    }
}

impl SessionV {
    /// The session at another stage, with what it asks for there.
    pub open spec fn at(self, stage: Stage, action: ActionV) -> StepV {
        StepV { session: SessionV { stage, ..self }, action }
    }

    /// The session at another stage, with a target, and what it asks for there.
    pub open spec fn on(self, target: FoundV, stage: Stage, action: ActionV) -> StepV {
        StepV { session: SessionV { stage, target: Some(target), ..self }, action }
    }

    /// The session at its end.
    pub open spec fn finish(self, r: Result<JsonV, Seq<char>>) -> StepV {
        self.at(Stage::Nothing, ActionV::Finish(r))
    }

    /// The session at its end because of an answer that it did not wait for.
    pub open spec fn out_of_turn(self) -> StepV {
        self.finish(Err("unexpected answer"@))
    }
}

impl Session {
    /// The session at another stage, with what it asks for there.
    fn at(self, stage: Stage, action: Action) -> (r: Step)
        ensures
            r@ == self@.at(stage, action@),
    {
        Step { session: Session { op: self.op, opts: self.opts, stage, target: self.target }, action }
    }

    /// The session at another stage, with a target, and what it asks for there.
    fn on(self, target: Found, stage: Stage, action: Action) -> (r: Step)
        ensures
            r@ == self@.on(target@, stage, action@),
    {
        Step {
            session: Session { op: self.op, opts: self.opts, stage, target: Some(target) },
            action,
        }
    }

    /// The session at its end.
    fn finish(self, result: Result<Json, OpError>) -> (r: Step)
        ensures
            r@ == self@.finish(outcome(result)),
    {
        self.at(Stage::Nothing, Action::Finish(result))
    }

    /// The session at its end because of an answer that it did not wait for.
    fn out_of_turn(self) -> (r: Step)
        ensures
            r@ == self@.out_of_turn(),
    {
        self.finish(Err(OpError::new("unexpected answer")))
    }
}

/// The first step of an operation.
pub open spec fn started(op: Op, opts: JsonV) -> StepV {
    let s = SessionV { op, opts, stage: Stage::Nothing, target: None };
    if op == Op::Contexts || op == Op::CurrentContext {
        s.at(Stage::Contexts, ActionV::ReadContexts)
    } else if looks_first(op) && planned(op, opts) is Err {
        s.finish(Err(planned(op, opts)->Err_0))
    } else {
        s.at(Stage::Connection, ActionV::Connect(connection_of(opts)))
    }
}

/// Starts an operation on the bytes that the caller passed.
pub fn begin(op: Op, args: Option<&[u8]>) -> (r: Step)
    ensures
        r@ == started(op, call_args(opt_bytes(args))),
{
    start(op, decode_args(args))
}

/// Starts an operation on its arguments.
pub fn start(op: Op, opts: Json) -> (r: Step)
    ensures
        r@ == started(op, opts@),
{
    let session = Session { op, opts, stage: Stage::Nothing, target: None };
    match op {
        Op::Contexts | Op::CurrentContext => {
            return session.at(Stage::Contexts, Action::ReadContexts);
        },
        _ => {},
    }
    if checks_first(op) {
        if let Err(e) = plan(op, &session.opts) {
            return session.finish(Err(e));
        }
    }
    let connection = choose_connection(&session.opts);
    session.at(Stage::Connection, Action::Connect(connection))
}

/// What the contexts of the kubeconfig answer.
pub open spec fn contexts_reply(op: Op, c: ContextsV) -> JsonV {
    if op == Op::Contexts {
        JsonV::blank().with("contexts"@, JsonV::Array(context_documents(c)))
    } else {
        JsonV::blank().with("context"@, text_or_null(c.current))
    }
}

/// What the version of the server answers.
pub open spec fn version_reply(op: Op, version: JsonV) -> JsonV {
    if op == Op::Ping {
        JsonV::blank().with("ok"@, JsonV::Bool(true)).with("version"@, version.field("gitVersion"@))
    } else {
        version
    }
}

/// What an eviction answers.
pub open spec fn evicted(opts: JsonV) -> JsonV {
    JsonV::blank().with("ok"@, JsonV::Bool(true)).with(
        "evicted"@,
        JsonV::Text(text_or(opts, "name"@, ""@)),
    )
}

/// A call with the form of the object that its document describes in place of the
/// document, where it is one that sends an object.
pub open spec fn call_in(call: CallV, form: Result<JsonV, Seq<char>>) -> Result<CallV, Seq<char>> {
    match (call, form) {
        (CallV::Create(_), Ok(object)) => Ok(CallV::Create(object)),
        (CallV::Create(_), Err(e)) => Err(e),
        (CallV::Replace { name, .. }, Ok(object)) => Ok(CallV::Replace { name, doc: object }),
        (CallV::Replace { .. }, Err(e)) => Err(e),
        _ => Ok(call),
    }
}

/// A call as it is sent: an object is created and replaced in the form that its document
/// describes, and a document that describes none is refused.
pub open spec fn call_sent(call: CallV) -> Result<CallV, Seq<char>> {
    match call {
        CallV::Create(doc) => call_in(call, object_form_of(doc)),
        CallV::Replace { doc, .. } => call_in(call, object_form_of(doc)),
        _ => Ok(call),
    }
}

/// The call on a found kind.
pub open spec fn request_on(f: FoundV, namespace: Option<Seq<char>>, call: CallV) -> RequestV {
    RequestV {
        subject: SubjectV::Resource(f.resource),
        place: place_of(f.scope, namespace),
        call,
    }
}

/// How long a wait lasts, in seconds.
pub open spec fn timeout_of(opts: JsonV) -> u64 {
    match opts.field("timeout"@).unsigned() {
        Some(n) => n,
        None => 300,
    }
}

/// The condition that is waited for.
pub open spec fn awaited(opts: JsonV) -> Seq<char> {
    text_or(opts, "condition"@, "Ready"@)
}

/// Whether what is waited for is that the object is gone.
pub open spec fn awaits_deletion(opts: JsonV) -> bool {
    same_ignoring_case(awaited(opts), "delete"@)
}

/// Whether a wait is over, as the object now is.
pub open spec fn wait_is_over(opts: JsonV, obj: Option<JsonV>) -> bool {
    if awaits_deletion(opts) {
        obj is None
    } else {
        obj matches Some(o) && condition_holds(o, awaited(opts))
    }
}

/// What a wait answers at its end.
pub open spec fn wait_reply(opts: JsonV) -> JsonV {
    JsonV::blank().with("ok"@, JsonV::Bool(true)).with(
        "condition"@,
        JsonV::Text(
            if awaits_deletion(opts) {
                "delete"@
            } else {
                awaited(opts)
            },
        ),
    )
}

/// What a wait answers when its time is over.
pub open spec fn wait_timeout(opts: JsonV) -> Seq<char> {
    "wait: timed out after "@ + decimal(timeout_of(opts) as nat) + "s waiting for "@ + text_or(
        opts,
        "kind"@,
        ""@,
    ) + "/"@ + text_or(opts, "name"@, ""@) + " condition "@ + awaited(opts)
}

/// The patch that sets a node's taints.
pub open spec fn taint_patch(opts: JsonV, node: JsonV) -> JsonV {
    JsonV::blank().with(
        "spec"@,
        JsonV::blank().with(
            "taints"@,
            JsonV::Array(
                retainted(
                    taints_of(node),
                    text_or(opts, "key"@, ""@),
                    opts.field("remove"@).boolean() == Some(true),
                    text_or(opts, "effect"@, "NoSchedule"@),
                    opts.field("value"@).text(),
                ),
            ),
        ),
    )
}

/// The second call of a taint.
pub open spec fn taint_request(opts: JsonV, node: JsonV) -> RequestV {
    RequestV {
        subject: SubjectV::Nodes,
        place: PlaceV::Everywhere,
        call: CallV::Patch {
            name: text_or(opts, "name"@, ""@),
            merge: MergeV::Json,
            doc: taint_patch(opts, node),
        },
    }
}

/// The text of the time at which a restart is made.
pub open spec fn stamp_of(clock: Option<u128>) -> Seq<char> {
    match clock {
        Some(n) => decimal(n as nat),
        None => "0"@,
    }
}

impl SessionV {
    /// The step after the connection stands.
    pub open spec fn connected(self) -> StepV {
        match planned(self.op, self.opts) {
            Err(e) => self.finish(Err(e)),
            Ok(p) => match p {
                PlanV::Contexts => self.out_of_turn(),
                PlanV::Version => self.at(Stage::Version, ActionV::ServerVersion),
                PlanV::Resources => self.at(Stage::Discovery, ActionV::Discover(None)),
                PlanV::Call { aim: AimV::Kind { kind, .. }, .. } => self.at(
                    Stage::Discovery,
                    ActionV::Discover(strict_kind(kind)),
                ),
                PlanV::Call { aim: AimV::Fixed { subject, place }, call } => self.at(
                    Stage::Answer,
                    ActionV::Perform(RequestV { subject, place, call }),
                ),
                PlanV::Restart { kind, .. } => self.at(
                    Stage::Discovery,
                    ActionV::Discover(strict_kind(kind)),
                ),
                PlanV::Fetch(path) => self.at(Stage::Body, ActionV::Fetch(path)),
                PlanV::Post { path, body } => self.at(
                    Stage::Receipt,
                    ActionV::Post { path, body: json_text(body) },
                ),
            },
        }
    }

    /// The step after discovery.
    pub open spec fn discovered(self, d: DiscoveredV) -> StepV {
        match planned(self.op, self.opts) {
            Ok(PlanV::Resources) => self.finish(
                Ok(
                    JsonV::blank().with(
                        "resources"@,
                        JsonV::Array(resource_documents(d.recommended)),
                    ),
                ),
            ),
            Ok(PlanV::Call { aim: AimV::Kind { kind, namespace }, call }) => match kind_found(
                d,
                kind,
            ) {
                None => self.finish(Err("unknown kind: "@ + kind)),
                Some(f) => if self.op == Op::Wait {
                    self.on(f, Stage::Deadline, ActionV::SetDeadline(timeout_of(self.opts)))
                } else {
                    match call_sent(call) {
                        Err(e) => self.finish(Err(e)),
                        Ok(sent) => self.on(
                            f,
                            Stage::Answer,
                            ActionV::Perform(request_on(f, namespace, sent)),
                        ),
                    }
                },
            },
            Ok(PlanV::Restart { kind, .. }) => match kind_found(d, kind) {
                None => self.finish(Err("unknown kind: "@ + kind)),
                Some(f) => self.on(f, Stage::Clock, ActionV::ReadClock),
            },
            _ => self.out_of_turn(),
        }
    }

    /// The step after the clock was read.
    pub open spec fn timed(self, clock: Option<u128>) -> StepV {
        match (planned(self.op, self.opts), self.target) {
            (Ok(PlanV::Restart { namespace, name, .. }), Some(f)) => self.at(
                Stage::Answer,
                ActionV::Perform(
                    request_on(
                        f,
                        namespace,
                        CallV::Patch {
                            name,
                            merge: MergeV::Strategic,
                            doc: stamp_patch(stamp_of(clock)),
                        },
                    ),
                ),
            ),
            _ => self.out_of_turn(),
        }
    }

    /// The next look at an object that is waited for.
    pub open spec fn look(self) -> StepV {
        match (planned(self.op, self.opts), self.target) {
            (Ok(PlanV::Call { aim: AimV::Kind { namespace, .. }, call }), Some(f)) => self.at(
                Stage::Answer,
                ActionV::Perform(request_on(f, namespace, call)),
            ),
            _ => self.out_of_turn(),
        }
    }

    /// The step after a call was answered.
    pub open spec fn answered(self, e: EventV) -> StepV {
        match (self.op, e) {
            (Op::Get, EventV::Listed(items)) => self.finish(
                Ok(JsonV::blank().with("items"@, JsonV::Array(items))),
            ),
            (Op::GetOne, EventV::Perhaps(o)) => self.finish(
                Ok(
                    match o {
                        Some(j) => j,
                        None => JsonV::Null,
                    },
                ),
            ),
            (Op::Delete, EventV::Deleting(j)) => self.finish(
                Ok(JsonV::blank().with("deleted"@, j)),
            ),
            (Op::Delete, EventV::Gone(j)) => self.finish(Ok(JsonV::blank().with("status"@, j))),
            (Op::Logs, EventV::Text(s)) => self.finish(
                Ok(JsonV::blank().with("logs"@, JsonV::Text(s))),
            ),
            (Op::Namespaces, EventV::Listed(items)) => self.finish(
                Ok(JsonV::blank().with("namespaces"@, JsonV::Array(named_namespaces(items)))),
            ),
            (Op::Events, EventV::Records(records)) => self.finish(
                Ok(JsonV::blank().with("events"@, JsonV::Array(event_documents(records)))),
            ),
            (Op::RolloutHistory, EventV::Listed(items)) => self.finish(
                Ok(history(items, text_or(self.opts, "name"@, ""@))),
            ),
            (Op::RolloutStatus, EventV::Document(j)) => self.finish(
                Ok(JsonV::blank().with("status"@, j.field("status"@))),
            ),
            (Op::Wait, EventV::Perhaps(o)) => if wait_is_over(self.opts, o) {
                self.finish(Ok(wait_reply(self.opts)))
            } else {
                self.at(Stage::Check, ActionV::CheckDeadline)
            },
            (Op::Taint, EventV::Document(node)) => self.at(
                Stage::SecondAnswer,
                ActionV::Perform(taint_request(self.opts, node)),
            ),
            (Op::Create, EventV::Document(j)) => self.finish(Ok(j)),
            (Op::Replace, EventV::Document(j)) => self.finish(Ok(j)),
            (Op::Apply, EventV::Document(j)) => self.finish(Ok(j)),
            (Op::Patch, EventV::Document(j)) => self.finish(Ok(j)),
            (Op::Scale, EventV::Document(j)) => self.finish(Ok(j)),
            (Op::Label, EventV::Document(j)) => self.finish(Ok(j)),
            (Op::Annotate, EventV::Document(j)) => self.finish(Ok(j)),
            (Op::Cordon, EventV::Document(j)) => self.finish(Ok(j)),
            (Op::Uncordon, EventV::Document(j)) => self.finish(Ok(j)),
            (Op::SetImage, EventV::Document(j)) => self.finish(Ok(j)),
            (Op::RolloutRestart, EventV::Document(j)) => self.finish(Ok(j)),
            (Op::Autoscale, EventV::Document(j)) => self.finish(Ok(j)),
            _ => self.out_of_turn(),
        }
    }

    /// The step after an event. A failure ends the operation with what it says, but
    /// an eviction that was sent counts as made.
    pub open spec fn next(self, e: EventV) -> StepV {
        match (self.stage, e) {
            (Stage::Receipt, EventV::Failed(_)) => self.finish(Ok(evicted(self.opts))),
            (_, EventV::Failed(message)) => self.finish(Err(message)),
            (_, EventV::Unsent(message)) => self.finish(Err(message)),
            (Stage::Contexts, EventV::Contexts(c)) => self.finish(Ok(contexts_reply(self.op, c))),
            (Stage::Connection, EventV::Connected { .. }) => self.connected(),
            (Stage::Version, EventV::Document(j)) => self.finish(Ok(version_reply(self.op, j))),
            (Stage::Discovery, EventV::Discovered(d)) => self.discovered(d),
            (Stage::Clock, EventV::Clock(clock)) => self.timed(clock),
            (Stage::Body, EventV::Document(j)) => self.finish(
                Ok(JsonV::blank().with("items"@, j.field("items"@))),
            ),
            (Stage::Receipt, EventV::Document(_)) => self.finish(Ok(evicted(self.opts))),
            (Stage::Answer, answer) => self.answered(answer),
            (Stage::SecondAnswer, EventV::Document(j)) => self.finish(Ok(j)),
            (Stage::Deadline, EventV::Ready) => self.look(),
            (Stage::Check, EventV::Overdue(overdue)) => if overdue {
                self.finish(Err(wait_timeout(self.opts)))
            } else {
                self.at(Stage::Rest, ActionV::Pause(2))
            },
            (Stage::Rest, EventV::Ready) => self.look(),
            _ => self.out_of_turn(),
        }
    }
}

/// The call on a found kind.
fn request(f: &Found, namespace: Option<String>, call: Call) -> (r: Request)
    ensures
        r@ == request_on(f@, opt_text(namespace), call@),
{
    Request {
        subject: Subject::Resource(f.resource.copy()),
        place: dyn_api(f.scope, namespace),
        call,
    }
}

/// Puts the form of an object in place of the document of a call that sends one.
pub fn call_in_form(call: Call, form: Result<Json, OpError>) -> (r: Result<Call, OpError>)
    ensures
        call_outcome(r) == call_in(call@, outcome(form)),
{
    match call {
        Call::Create(_) => match form {
            Ok(object) => Ok(Call::Create(object)),
            Err(e) => Err(e),
        },
        Call::Replace { name, doc: _ } => match form {
            Ok(object) => Ok(Call::Replace { name, doc: object }),
            Err(e) => Err(e),
        },
        call => Ok(call),
    }
}

/// A call as it is sent.
fn in_object_form(call: Call) -> (r: Result<Call, OpError>)
    ensures
        call_outcome(r) == call_sent(call@),
{
    match &call {
        Call::Create(doc) => {
            let form = object_form(doc);
            call_in_form(call, form)
        },
        Call::Replace { name: _, doc } => {
            let form = object_form(doc);
            call_in_form(call, form)
        },
        _ => Ok(call),
    }
}

/// What an eviction answers.
fn evicted_reply(opts: &Json) -> (r: Json)
    ensures
        r@ == evicted(opts@),
{
    Json::blank().with("ok", Json::Bool(true)).with(
        "evicted",
        Json::Text(read_text_or(opts, "name", "")),
    )
}

impl Session {
    /// The step after an event.
    pub fn advance(self, event: Event) -> (r: Step)
        ensures
            r@ == self@.next(event@),
    {
        match (self.stage, event) {
            (Stage::Receipt, Event::Failed(_)) => {
                let reply = evicted_reply(&self.opts);
                self.finish(Ok(reply))
            },
            (_, Event::Failed(message)) => self.finish(Err(OpError { message })),
            (_, Event::Unsent(message)) => self.finish(Err(OpError { message })),
            (Stage::Contexts, Event::Contexts(c)) => {
                let reply = match self.op {
                    Op::Contexts => {
                        let list = list_contexts(&c);
                        Json::blank().with("contexts", Json::Array(list))
                    },
                    _ => Json::blank().with("context", Json::of_option(c.current)),
                };
                self.finish(Ok(reply))
            },
            (Stage::Connection, Event::Connected { namespace: _ }) => self.connected(),
            (Stage::Version, Event::Document(j)) => {
                let reply = match self.op {
                    Op::Ping => Json::blank().with("ok", Json::Bool(true)).with(
                        "version",
                        j.copy_at("gitVersion"),
                    ),
                    _ => j,
                };
                self.finish(Ok(reply))
            },
            (Stage::Discovery, Event::Discovered(d)) => self.discovered(d),
            (Stage::Clock, Event::Clock(clock)) => self.timed(clock),
            (Stage::Body, Event::Document(j)) => self.finish(
                Ok(Json::blank().with("items", j.copy_at("items"))),
            ),
            (Stage::Receipt, Event::Document(_)) => {
                let reply = evicted_reply(&self.opts);
                self.finish(Ok(reply))
            },
            (Stage::Answer, answer) => self.answered(answer),
            (Stage::SecondAnswer, Event::Document(j)) => self.finish(Ok(j)),
            (Stage::Deadline, Event::Ready) => self.look(),
            (Stage::Check, Event::Overdue(overdue)) => if overdue {
                let message = self.timeout_message();
                self.finish(Err(OpError { message }))
            } else {
                self.at(Stage::Rest, Action::Pause(2))
            },
            (Stage::Rest, Event::Ready) => self.look(),
            _ => self.out_of_turn(),
        }
    }

    /// The step after the connection stands.
    fn connected(self) -> (r: Step)
        ensures
            r@ == self@.connected(),
    {
        match plan(self.op, &self.opts) {
            Err(e) => self.finish(Err(e)),
            Ok(p) => match p {
                Plan::Contexts => self.out_of_turn(),
                Plan::Version => self.at(Stage::Version, Action::ServerVersion),
                Plan::Resources => self.at(Stage::Discovery, Action::Discover(None)),
                Plan::Call { aim: Aim::Kind { kind, namespace: _ }, call: _ } => {
                    let gvk = gvk_of_kind(kind.as_str());
                    self.at(Stage::Discovery, Action::Discover(gvk))
                },
                Plan::Call { aim: Aim::Fixed { subject, place }, call } => self.at(
                    Stage::Answer,
                    Action::Perform(Request { subject, place, call }),
                ),
                Plan::Restart { kind, namespace: _, name: _ } => {
                    let gvk = gvk_of_kind(kind.as_str());
                    self.at(Stage::Discovery, Action::Discover(gvk))
                },
                Plan::Fetch(path) => self.at(Stage::Body, Action::Fetch(path)),
                Plan::Post { path, body } => {
                    let body = write_document(&body);
                    self.at(Stage::Receipt, Action::Post { path, body })
                },
            },
        }
    }

    /// The step after discovery.
    fn discovered(self, d: Discovered) -> (r: Step)
        ensures
            r@ == self@.discovered(d@),
    {
        match plan(self.op, &self.opts) {
            Ok(Plan::Resources) => {
                let list = list_resources(&d.recommended);
                self.finish(Ok(Json::blank().with("resources", Json::Array(list))))
            },
            Ok(Plan::Call { aim: Aim::Kind { kind, namespace }, call }) => match discover_kind(
                &d,
                kind.as_str(),
            ) {
                None => self.finish(
                    Err(OpError { message: concat("unknown kind: ", kind.as_str()) }),
                ),
                Some(f) => match self.op {
                    Op::Wait => {
                        let timeout = self.timeout();
                        self.on(f, Stage::Deadline, Action::SetDeadline(timeout))
                    },
                    _ => match in_object_form(call) {
                        Err(e) => self.finish(Err(e)),
                        Ok(sent) => {
                            let req = request(&f, namespace, sent);
                            self.on(f, Stage::Answer, Action::Perform(req))
                        },
                    },
                },
            },
            Ok(Plan::Restart { kind, namespace: _, name: _ }) => match discover_kind(
                &d,
                kind.as_str(),
            ) {
                None => self.finish(
                    Err(OpError { message: concat("unknown kind: ", kind.as_str()) }),
                ),
                Some(f) => self.on(f, Stage::Clock, Action::ReadClock),
            },
            _ => self.out_of_turn(),
        }
    }

    /// The step after the clock was read.
    fn timed(self, clock: Option<u128>) -> (r: Step)
        ensures
            r@ == self@.timed(clock),
    {
        let stamp = match clock {
            Some(n) => write_decimal(n),
            None => "0".to_owned(),
        };
        match (plan(self.op, &self.opts), &self.target) {
            (Ok(Plan::Restart { kind: _, namespace, name }), Some(f)) => {
                let doc = write_stamp_patch(stamp.as_str());
                let req = request(
                    f,
                    namespace,
                    Call::Patch { name, merge: Merge::Strategic, doc },
                );
                self.at(Stage::Answer, Action::Perform(req))
            },
            _ => self.out_of_turn(),
        }
    }

    /// The next look at an object that is waited for.
    fn look(self) -> (r: Step)
        ensures
            r@ == self@.look(),
    {
        match (plan(self.op, &self.opts), &self.target) {
            (Ok(Plan::Call { aim: Aim::Kind { kind: _, namespace }, call }), Some(f)) => {
                let req = request(f, namespace, call);
                self.at(Stage::Answer, Action::Perform(req))
            },
            _ => self.out_of_turn(),
        }
    }

    /// How long a wait lasts, in seconds.
    fn timeout(&self) -> (r: u64)
        ensures
            r == timeout_of(self@.opts),
    {
        match self.opts.unsigned_at("timeout") {
            Some(n) => n,
            None => 300,
        }
    }

    /// What a wait answers when its time is over.
    fn timeout_message(&self) -> (r: String)
        ensures
            r@ == wait_timeout(self@.opts),
    {
        let mut out = "wait: timed out after ".to_owned();
        out.append(write_decimal(self.timeout() as u128).as_str());
        out.append("s waiting for ");
        out.append(read_text_or(&self.opts, "kind", "").as_str());
        out.append("/");
        out.append(read_text_or(&self.opts, "name", "").as_str());
        out.append(" condition ");
        out.append(read_text_or(&self.opts, "condition", "Ready").as_str());
        out
    }

    /// The step after a look at an object that is waited for.
    fn looked(self, obj: Option<Json>) -> (r: Step)
        requires
            self@.op == Op::Wait,
        ensures
            r@ == self@.answered(Event::Perhaps(obj)@),
    {
        let condition = read_text_or(&self.opts, "condition", "Ready");
        let deletion = equal_ignoring_case(condition.as_str(), "delete");
        let over = if deletion {
            obj.is_none()
        } else {
            match &obj {
                Some(o) => condition_is_true(o, condition.as_str()),
                None => false,
            }
        };
        if over {
            let shown = if deletion {
                "delete".to_owned()
            } else {
                condition
            };
            self.finish(
                Ok(Json::blank().with("ok", Json::Bool(true)).with("condition", Json::Text(shown))),
            )
        } else {
            self.at(Stage::Check, Action::CheckDeadline)
        }
    }

    /// The second call of a taint.
    fn taint(&self, node: &Json) -> (r: Request)
        ensures
            r@ == taint_request(self@.opts, node@),
    {
        let remove = match self.opts.boolean_at("remove") {
            Some(b) => b,
            None => false,
        };
        let key = read_text_or(&self.opts, "key", "");
        let effect = read_text_or(&self.opts, "effect", "NoSchedule");
        let taints = retaint(
            node,
            key.as_str(),
            remove,
            effect.as_str(),
            self.opts.text_at("value"),
        );
        Request {
            subject: Subject::Nodes,
            place: Place::Everywhere,
            call: Call::Patch {
                name: read_text_or(&self.opts, "name", ""),
                merge: Merge::Json,
                doc: Json::blank().with("spec", Json::blank().with("taints", taints)),
            },
        }
    }

    /// The step after a call was answered.
    fn answered(self, event: Event) -> (r: Step)
        ensures
            r@ == self@.answered(event@),
    {
        match (self.op, event) {
            (Op::Get, Event::Listed(items)) => self.finish(
                Ok(Json::blank().with("items", Json::Array(items))),
            ),
            (Op::GetOne, Event::Perhaps(o)) => self.finish(
                Ok(
                    match o {
                        Some(j) => j,
                        None => Json::Null,
                    },
                ),
            ),
            (Op::Delete, Event::Deleting(j)) => self.finish(Ok(Json::blank().with("deleted", j))),
            (Op::Delete, Event::Gone(j)) => self.finish(Ok(Json::blank().with("status", j))),
            (Op::Logs, Event::Text(s)) => self.finish(
                Ok(Json::blank().with("logs", Json::Text(s))),
            ),
            (Op::Namespaces, Event::Listed(items)) => {
                let list = list_named_namespaces(&items);
                self.finish(Ok(Json::blank().with("namespaces", Json::Array(list))))
            },
            (Op::Events, Event::Records(records)) => {
                let list = list_events(&records);
                self.finish(Ok(Json::blank().with("events", Json::Array(list))))
            },
            (Op::RolloutHistory, Event::Listed(items)) => {
                let name = read_text_or(&self.opts, "name", "");
                self.finish(Ok(rollout_history(&items, name.as_str())))
            },
            (Op::RolloutStatus, Event::Document(j)) => self.finish(
                Ok(Json::blank().with("status", j.copy_at("status"))),
            ),
            (Op::Wait, Event::Perhaps(o)) => self.looked(o),
            (Op::Taint, Event::Document(node)) => {
                let req = self.taint(&node);
                self.at(Stage::SecondAnswer, Action::Perform(req))
            },
            (Op::Create, Event::Document(j)) => self.finish(Ok(j)),
            (Op::Replace, Event::Document(j)) => self.finish(Ok(j)),
            (Op::Apply, Event::Document(j)) => self.finish(Ok(j)),
            (Op::Patch, Event::Document(j)) => self.finish(Ok(j)),
            (Op::Scale, Event::Document(j)) => self.finish(Ok(j)),
            (Op::Label, Event::Document(j)) => self.finish(Ok(j)),
            (Op::Annotate, Event::Document(j)) => self.finish(Ok(j)),
            (Op::Cordon, Event::Document(j)) => self.finish(Ok(j)),
            (Op::Uncordon, Event::Document(j)) => self.finish(Ok(j)),
            (Op::SetImage, Event::Document(j)) => self.finish(Ok(j)),
            (Op::RolloutRestart, Event::Document(j)) => self.finish(Ok(j)),
            (Op::Autoscale, Event::Document(j)) => self.finish(Ok(j)),
            _ => self.out_of_turn(),
        }
    }
}

} // verus!
