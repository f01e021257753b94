//! A command from the command line to its output: which steps it asks for, and
//! what it prints.

use vstd::prelude::*;
use vstd::string::*;
use vstd::utf8::{decode_utf8, valid_utf8};

use crate::answer::{
    context_documents, list_contexts, list_namespaces, list_resources, namespace_documents,
    resource_documents,
};
use crate::cluster::{
    copy_option, opt_gvk, Change, ChangeV, Contexts, ContextsV, Discovered, DiscoveredV, Event,
    EventV, Gvk, GvkV, Place, PlaceV, Request, RequestV, Subject, SubjectV,
};
use crate::codec::{
    document_of, emit_ndjson, is_single_line, line, object_form_of, object_line, read_doc,
    write_line, write_object_line,
};
use crate::command::{
    api, call_of, call_on_document, choose_document_namespace, choose_namespace, command_call,
    command_kind, command_place, document_call, document_namespace, everywhere, is_everywhere,
    kind_of, namespace_for, not_served, write_not_served, Command, CommandV, Use,
};
use crate::error::OpError;
use crate::json::{items_view, text_or_null, Json, JsonV};
use crate::kubeconfig::{contexts_read_from, kubeconfig_of_text, parse_kubeconfig};
use crate::resource::{
    api_version_of, extract_gvk, gvk_of_kind, resolve_kind, resolved, stated_gvk, strict_kind,
    written_api_version,
};
use crate::text::{chars_of, concat, opt_text};

verus! {

/// The text that `String::from_utf8_lossy` gives for bytes that are no UTF-8, with
/// replacement characters.
pub uninterp spec fn patched_text(bytes: Seq<u8>) -> Seq<char>;

/// The text of bytes: what they encode where they are UTF-8, else a text with
/// replacement characters.
pub open spec fn lossy_text(bytes: Seq<u8>) -> Seq<char> {
    if valid_utf8(bytes) {
        decode_utf8(bytes)
    } else {
        patched_text(bytes)
    }
}

/// Calls `String::from_utf8_lossy`: the text depends on the bytes alone, and is what
/// they encode where they are UTF-8.
#[verifier::external_body]
fn decode_lossy(bytes: &[u8]) -> (r: String)
    ensures
        r@ == (if valid_utf8(bytes@) {
            decode_utf8(bytes@)
        } else {
            patched_text(bytes@)
        }),
{
    String::from_utf8_lossy(bytes).into_owned()
}

/// Where the configuration of a connection comes from.
pub enum Source {
    /// The kubeconfig with the given text; the given context of it, else its current one.
    Text { text: String, context: Option<String> },
    /// The kubeconfig that stands in the usual places; the given context of it, else its
    /// current one.
    UsualPlaces { context: Option<String> },
    /// The service account of the pod that the program runs in.
    InCluster,
}

/// What a `Source` is.
#[verifier::ext_equal]
pub enum SourceV {
    Text { text: Seq<char>, context: Option<Seq<char>> },
    UsualPlaces { context: Option<Seq<char>> },
    InCluster,
}

impl View for Source {
    type V = SourceV;

    open spec fn view(&self) -> SourceV {
        match *self {
            Source::Text { text, context } => SourceV::Text {
                text: text@,
                context: opt_text(context),
            },
            Source::UsualPlaces { context } => SourceV::UsualPlaces { context: opt_text(context) },
            Source::InCluster => SourceV::InCluster,
        }
    }
}

/// What a command asks for next.
pub enum Move {
    /// Read the file with the given path.
    ReadFile(String),
    /// Read the kubeconfig in the usual places, and say which contexts it has.
    ReadContexts,
    /// Make a configuration for a connection.
    Configure(Source),
    /// Connect as configured.
    Connect,
    ReadInput,
    /// Find out what the cluster serves, and whether it serves the given kind.
    Discover(Option<Gvk>),
    ServerVersion,
    Perform(Request),
    /// Print what is given and hand in the next piece of the stream.
    Next(Option<String>),
    /// Wait for a command in a container to end.
    Join,
    /// Print the output; a fault ends the program with a failure.
    Finish { output: String, fault: Option<OpError> },
}

/// What a `Move` is.
#[verifier::ext_equal]
pub enum MoveV {
    ReadFile(Seq<char>),
    ReadContexts,
    Configure(SourceV),
    Connect,
    ReadInput,
    Discover(Option<GvkV>),
    ServerVersion,
    Perform(RequestV),
    Next(Option<Seq<char>>),
    Join,
    Finish { output: Seq<char>, fault: Option<Seq<char>> },
}

/// What a fault says, where there is one.
pub open spec fn opt_fault(fault: Option<OpError>) -> Option<Seq<char>> {
    match fault {
        Some(e) => Some(e@),
        None => None,
    }
}

impl View for Move {
    type V = MoveV;

    open spec fn view(&self) -> MoveV {
        match *self {
            Move::ReadFile(path) => MoveV::ReadFile(path@),
            Move::ReadContexts => MoveV::ReadContexts,
            Move::Configure(source) => MoveV::Configure(source@),
            Move::Connect => MoveV::Connect,
            Move::ReadInput => MoveV::ReadInput,
            Move::Discover(g) => MoveV::Discover(opt_gvk(g)),
            Move::ServerVersion => MoveV::ServerVersion,
            Move::Perform(r) => MoveV::Perform(r@),
            Move::Next(s) => MoveV::Next(opt_text(s)),
            Move::Join => MoveV::Join,
            Move::Finish { output, fault } => MoveV::Finish {
                output: output@,
                fault: opt_fault(fault),
            },
        }
    }
}

/// What a command waits for.
#[derive(Clone, Copy, PartialEq, Eq, Structural)]
pub enum Phase {
    File,
    Contexts,
    CustomConfig,
    UsualConfig,
    InClusterConfig,
    Connection,
    Input,
    Discovery,
    Version,
    Answer,
    Stream,
    End,
    Nothing,
}

/// A command under way.
pub struct Run {
    command: Command,
    kubeconfig: Option<String>,
    context: Option<String>,
    default_namespace: Option<String>,
    namespace: String,
    body: Json,
    phase: Phase,
}

/// What a `Run` is.
#[verifier::ext_equal]
pub struct RunV {
    pub command: CommandV,
    pub kubeconfig: Option<Seq<char>>,
    pub context: Option<Seq<char>>,
    pub default_namespace: Option<Seq<char>>,
    pub namespace: Seq<char>,
    pub body: JsonV,
    pub phase: Phase,
}

impl View for Run {
    type V = RunV;

    closed spec fn view(&self) -> RunV {
        RunV {
            command: self.command@,
            kubeconfig: opt_text(self.kubeconfig),
            context: opt_text(self.context),
            default_namespace: opt_text(self.default_namespace),
            namespace: self.namespace@,
            body: self.body@,
            phase: self.phase,
        }
    }
}

/// A command under way and what it asks for next.
pub struct Turn {
    pub run: Run,
    pub next: Move,
}

/// What a `Turn` is.
#[verifier::ext_equal]
pub struct TurnV {
    pub run: RunV,
    pub next: MoveV,
}

impl View for Turn {
    type V = TurnV;

    open spec fn view(&self) -> TurnV {
        TurnV { run: self.run@, next: self.next@ }
    }
}

/// The lines of a list of documents.
pub open spec fn lines(items: Seq<JsonV>) -> Seq<char>
    decreases items.len(),
{
    if items.len() == 0 {
        Seq::empty()
    } else {
        lines(items.drop_last()) + line(items.last())
    }
}

/// The lines of a list of objects.
pub open spec fn object_lines(items: Seq<JsonV>) -> Seq<char>
    decreases items.len(),
{
    if items.len() == 0 {
        Seq::empty()
    } else {
        object_lines(items.drop_last()) + object_line(items.last())
    }
}

/// A text that ends with a line break: the text, with one added where there is none.
pub open spec fn ended_line(s: Seq<char>) -> Seq<char> {
    if s.len() > 0 && s.last() == '\n' {
        s
    } else {
        s.push('\n')
    }
}

/// What is printed for a change.
pub open spec fn change_document(c: ChangeV) -> JsonV {
    match c {
        ChangeV::Apply(obj) => JsonV::blank().with("type"@, JsonV::Text("APPLY"@)).with(
            "object"@,
            obj,
        ),
        ChangeV::Delete(obj) => JsonV::blank().with("type"@, JsonV::Text("DELETE"@)).with(
            "object"@,
            obj,
        ),
        ChangeV::Init => JsonV::blank().with("type"@, JsonV::Text("INIT"@)),
        ChangeV::InitApply(obj) => JsonV::blank().with("type"@, JsonV::Text("INIT_APPLY"@)).with(
            "object"@,
            obj,
        ),
        ChangeV::InitDone => JsonV::blank().with("type"@, JsonV::Text("INIT_DONE"@)),
    }
}

/// What is printed for what a command wrote.
pub open spec fn chunk_document(stderr: bool, bytes: Seq<u8>) -> JsonV {
    JsonV::blank().with(
        "stream"@,
        JsonV::Text(
            if stderr {
                "stderr"@
            } else {
                "stdout"@
            },
        ),
    ).with("data"@, JsonV::Text(lossy_text(bytes)))
}

/// What was being done when a call of a command failed.
pub open spec fn doing(c: CommandV) -> Seq<char> {
    match c {
        CommandV::Get { .. } => "list: "@,
        CommandV::GetOne { .. } => "get: "@,
        CommandV::Document { purpose, .. } => match purpose {
            Use::Apply => "apply: "@,
            Use::Create => "create: "@,
            Use::Replace => "replace: "@,
        },
        CommandV::Delete { .. } => "delete: "@,
        CommandV::Logs { options, .. } => if options.follow {
            "log_stream: "@
        } else {
            "logs: "@
        },
        CommandV::Scale { .. } => "patch_scale: "@,
        CommandV::Watch { .. } => "watcher: "@,
        CommandV::Exec { .. } => "exec: "@,
        CommandV::Namespaces => "list ns: "@,
        _ => ""@,
    }
}

/// What was being done when a kubeconfig could not be read.
pub open spec fn reading(kubeconfig: Option<Seq<char>>) -> Seq<char> {
    match kubeconfig {
        Some(path) => "reading kubeconfig "@ + path + ": "@,
        None => ""@,
    }
}

/// What was being done when a stream of a command failed.
pub open spec fn streaming(c: CommandV) -> Seq<char> {
    match c {
        CommandV::Logs { .. } => "log line: "@,
        CommandV::Watch { .. } => "watcher: "@,
        _ => ""@,
    }
}

impl RunV {
    /// The run in another phase, with what it asks for there.
    pub open spec fn at(self, phase: Phase, next: MoveV) -> TurnV {
        TurnV { run: RunV { phase, ..self }, next }
    }

    /// The run at its end, with its output.
    pub open spec fn print(self, output: Seq<char>) -> TurnV {
        self.at(Phase::Nothing, MoveV::Finish { output, fault: None })
    }

    /// The run at its end, with a fault.
    pub open spec fn fail(self, fault: Seq<char>) -> TurnV {
        self.at(Phase::Nothing, MoveV::Finish { output: Seq::empty(), fault: Some(fault) })
    }

    /// The run at its end, with a document printed.
    pub open spec fn print_document(self, j: JsonV) -> TurnV {
        self.print(line(j))
    }

    /// The run at its end, with a list of documents printed.
    pub open spec fn print_documents(self, items: Seq<JsonV>) -> TurnV {
        self.print(lines(items))
    }

    /// The run on its stream, with a document printed.
    pub open spec fn stream_document(self, j: JsonV) -> TurnV {
        self.at(Phase::Stream, MoveV::Next(Some(line(j))))
    }

    /// The run at its end because of an answer that it did not wait for.
    pub open spec fn out_of_turn(self) -> TurnV {
        self.fail("unexpected answer"@)
    }

    /// The turn after a document was read.
    pub open spec fn opened(self, text: Seq<char>) -> TurnV {
        match document_of(text) {
            Err(e) => self.fail(e),
            Ok(doc) => match stated_gvk(doc) {
                Err(e) => self.fail(e),
                Ok(gvk) => RunV { body: doc, ..self }.at(
                    Phase::Discovery,
                    MoveV::Discover(Some(gvk)),
                ),
            },
        }
    }

    /// The turn after the connection stands.
    pub open spec fn connected(self, connection: Seq<char>) -> TurnV {
        let ns = namespace_for(self.command, self.default_namespace, connection);
        let run = RunV { namespace: ns, ..self };
        match self.command {
            CommandV::Document { doc: Some(text), .. } => run.opened(text),
            CommandV::Document { doc: None, .. } => run.at(Phase::Input, MoveV::ReadInput),
            CommandV::Logs { .. } | CommandV::Exec { .. } => run.at(
                Phase::Answer,
                MoveV::Perform(
                    RequestV {
                        subject: SubjectV::Pods,
                        place: PlaceV::Namespace(ns),
                        call: command_call(self.command)->0,
                    },
                ),
            ),
            CommandV::Namespaces => run.at(
                Phase::Answer,
                MoveV::Perform(
                    RequestV {
                        subject: SubjectV::Namespaces,
                        place: PlaceV::Everywhere,
                        call: command_call(self.command)->0,
                    },
                ),
            ),
            CommandV::ApiResources => run.at(Phase::Discovery, MoveV::Discover(None)),
            CommandV::Version | CommandV::Ping => run.at(Phase::Version, MoveV::ServerVersion),
            CommandV::Contexts | CommandV::CurrentContext => run.out_of_turn(),
            CommandV::Get { kind, .. } | CommandV::GetOne { kind, .. } | CommandV::Delete {
                kind,
                ..
            } | CommandV::Scale { kind, .. } | CommandV::Watch { kind, .. } => run.at(
                Phase::Discovery,
                MoveV::Discover(strict_kind(kind)),
            ),
        }
    }

    /// The turn of a command on a document after discovery.
    pub open spec fn document_discovered(
        self,
        d: DiscoveredV,
        purpose: Use,
        manager: Seq<char>,
        force: bool,
    ) -> TurnV {
        match (d.exact, stated_gvk(self.body)) {
            (_, Err(e)) => self.fail(e),
            (None, Ok(gvk)) => self.fail(
                not_served(purpose, api_version_of(gvk.group, gvk.version), gvk.kind),
            ),
            (Some(f), Ok(_)) => match document_call(
                purpose,
                self.body,
                object_form_of(self.body),
                manager,
                force,
            ) {
                Err(e) => self.fail(e),
                Ok(call) => self.at(
                    Phase::Answer,
                    MoveV::Perform(
                        RequestV {
                            subject: SubjectV::Resource(f.resource),
                            place: command_place(
                                f.scope,
                                document_namespace(self.body, self.namespace),
                                false,
                            ),
                            call,
                        },
                    ),
                ),
            },
        }
    }

    /// The turn after discovery.
    pub open spec fn discovered(self, d: DiscoveredV) -> TurnV {
        match self.command {
            CommandV::ApiResources => self.print_documents(resource_documents(d.recommended)),
            CommandV::Document { purpose, field_manager, force, .. } => self.document_discovered(
                d,
                purpose,
                field_manager,
                force,
            ),
            _ => match (command_kind(self.command), command_call(self.command)) {
                (Some(kind), Some(call)) => match resolved(d, kind) {
                    Err(e) => self.fail(e),
                    Ok((resource, scope)) => self.at(
                        Phase::Answer,
                        MoveV::Perform(
                            RequestV {
                                subject: SubjectV::Resource(resource),
                                place: command_place(
                                    scope,
                                    self.namespace,
                                    is_everywhere(self.command),
                                ),
                                call,
                            },
                        ),
                    ),
                },
                _ => self.out_of_turn(),
            },
        }
    }

    /// The turn after a call was answered.
    pub open spec fn answered(self, e: EventV) -> TurnV {
        match (self.command, e) {
            (CommandV::Get { .. }, EventV::Listed(items)) => self.print(object_lines(items)),
            (CommandV::GetOne { .. }, EventV::Perhaps(o)) => match o {
                Some(j) => self.print(object_line(j)),
                None => self.print_document(JsonV::Null),
            },
            (CommandV::Document { .. }, EventV::Document(j)) => self.print(object_line(j)),
            (CommandV::Scale { .. }, EventV::Document(j)) => self.print_document(j),
            (CommandV::Delete { .. }, EventV::Deleting(j)) => self.print_document(
                JsonV::blank().with("status"@, JsonV::Text("Deleting"@)).with("object"@, j),
            ),
            (CommandV::Delete { .. }, EventV::Gone(j)) => self.print_document(
                JsonV::blank().with("status"@, JsonV::Text("Done"@)).with("details"@, j),
            ),
            (CommandV::Logs { .. }, EventV::Text(s)) => self.print(ended_line(s)),
            (CommandV::Logs { .. }, EventV::Ready) => self.at(Phase::Stream, MoveV::Next(None)),
            (CommandV::Watch { .. }, EventV::Ready) => self.at(Phase::Stream, MoveV::Next(None)),
            (CommandV::Exec { .. }, EventV::Attached { stdout }) => if stdout {
                self.at(Phase::Stream, MoveV::Next(None))
            } else {
                self.fail("no stdout on exec"@)
            },
            (CommandV::Namespaces, EventV::Listed(items)) => self.print_documents(
                namespace_documents(items),
            ),
            _ => self.out_of_turn(),
        }
    }

    /// The turn after a piece of a stream. A command in a container is over when its
    /// standard output is; an end of its standard error alone is passed over.
    pub open spec fn streamed(self, e: EventV) -> TurnV {
        match (self.command, e) {
            (CommandV::Logs { .. }, EventV::Text(s)) => self.stream_document(
                JsonV::blank().with("line"@, JsonV::Text(s)),
            ),
            (CommandV::Logs { .. }, EventV::Ended) => self.print(Seq::empty()),
            (CommandV::Watch { .. }, EventV::Change(c)) => self.stream_document(
                change_document(c),
            ),
            (CommandV::Watch { .. }, EventV::Ended) => self.print(Seq::empty()),
            (CommandV::Exec { .. }, EventV::Chunk { stderr, bytes }) => if bytes.len() > 0 {
                self.stream_document(chunk_document(stderr, bytes))
            } else if stderr {
                self.at(Phase::Stream, MoveV::Next(None))
            } else {
                self.at(Phase::End, MoveV::Join)
            },
            (CommandV::Exec { .. }, EventV::Broken { stderr, message }) => self.fail(
                (if stderr {
                    "exec stderr: "@
                } else {
                    "exec stdout: "@
                }) + message,
            ),
            _ => self.out_of_turn(),
        }
    }

    /// The turn after the contexts were read.
    pub open spec fn contexts_read(self, c: ContextsV) -> TurnV {
        if self.command == CommandV::Contexts {
            self.print_documents(context_documents(c))
        } else if self.command == CommandV::CurrentContext {
            self.print_document(JsonV::blank().with("current_context"@, text_or_null(c.current)))
        } else {
            self.out_of_turn()
        }
    }

    /// The turn after the explicit kubeconfig was read: a command on contexts prints what
    /// it has, any other connects with it.
    pub open spec fn kubeconfig_read(
        self,
        text: Seq<char>,
        read: Result<ContextsV, Seq<char>>,
    ) -> TurnV {
        match read {
            Err(e) => self.fail("parsing kubeconfig: "@ + e),
            Ok(c) => if self.command == CommandV::Contexts || self.command
                == CommandV::CurrentContext {
                self.contexts_read(c)
            } else {
                self.at(
                    Phase::CustomConfig,
                    MoveV::Configure(SourceV::Text { text, context: self.context }),
                )
            },
        }
    }

    /// The turn after a failure. Where no kubeconfig stands in the usual places, the
    /// program may still run in a pod.
    pub open spec fn failed(self, message: Seq<char>) -> TurnV {
        match self.phase {
            Phase::File => self.fail(reading(self.kubeconfig) + message),
            Phase::Contexts => self.fail(
                "reading kubeconfig from default search path: "@ + message,
            ),
            Phase::CustomConfig => self.fail(
                "building config from custom kubeconfig: "@ + message,
            ),
            Phase::UsualConfig => self.at(
                Phase::InClusterConfig,
                MoveV::Configure(SourceV::InCluster),
            ),
            Phase::InClusterConfig => self.fail("no kubeconfig and not in-cluster: "@ + message),
            Phase::Connection => self.fail("creating kube client: "@ + message),
            Phase::Version => if self.command == CommandV::Ping {
                self.print_document(JsonV::blank().with("ok"@, JsonV::Bool(false)))
            } else {
                self.fail("apiserver_version: "@ + message)
            },
            Phase::Answer => self.fail(doing(self.command) + message),
            Phase::Stream => self.fail(streaming(self.command) + message),
            Phase::End => self.fail("exec join: "@ + message),
            _ => self.fail(message),
        }
    }

    /// The turn after an event.
    pub open spec fn next(self, e: EventV) -> TurnV {
        match (self.phase, e) {
            (_, EventV::Failed(message)) => self.failed(message),
            (_, EventV::Unsent(message)) => self.fail("doc \u{2192} DynamicObject: "@ + message),
            (Phase::File, EventV::Input(text)) => self.kubeconfig_read(
                text,
                kubeconfig_of_text(text),
            ),
            (Phase::Contexts, EventV::Contexts(c)) => self.contexts_read(c),
            (Phase::CustomConfig, EventV::Ready) => self.at(Phase::Connection, MoveV::Connect),
            (Phase::UsualConfig, EventV::Ready) => self.at(Phase::Connection, MoveV::Connect),
            (Phase::InClusterConfig, EventV::Ready) => self.at(Phase::Connection, MoveV::Connect),
            (Phase::Connection, EventV::Connected { namespace }) => self.connected(namespace),
            (Phase::Input, EventV::Input(text)) => self.opened(text),
            (Phase::Discovery, EventV::Discovered(d)) => self.discovered(d),
            (Phase::Version, EventV::Document(j)) => self.print_document(
                if self.command == CommandV::Ping {
                    JsonV::blank().with("ok"@, JsonV::Bool(true))
                } else {
                    j
                },
            ),
            (Phase::Answer, answer) => self.answered(answer),
            (Phase::Stream, piece) => self.streamed(piece),
            (Phase::End, EventV::Ready) => self.print(Seq::empty()),
            _ => self.out_of_turn(),
        }
    }
}

/// The first turn of a command: an explicit kubeconfig is read first; without one the
/// contexts are read, or a connection is configured, from the usual places.
pub open spec fn begun(
    command: CommandV,
    kubeconfig: Option<Seq<char>>,
    context: Option<Seq<char>>,
    default_namespace: Option<Seq<char>>,
) -> TurnV {
    let run = RunV {
        command,
        kubeconfig,
        context,
        default_namespace,
        namespace: Seq::empty(),
        body: JsonV::Null,
        phase: Phase::Nothing,
    };
    match kubeconfig {
        Some(path) => run.at(Phase::File, MoveV::ReadFile(path)),
        None => if command == CommandV::Contexts || command == CommandV::CurrentContext {
            run.at(Phase::Contexts, MoveV::ReadContexts)
        } else {
            run.at(Phase::UsualConfig, MoveV::Configure(SourceV::UsualPlaces { context }))
        },
    }
}

/// Starts a command.
pub fn run(
    command: Command,
    kubeconfig: Option<String>,
    context: Option<String>,
    default_namespace: Option<String>,
) -> (r: Turn)
    ensures
        r@ == begun(
            command@,
            opt_text(kubeconfig),
            opt_text(context),
            opt_text(default_namespace),
        ),
{
    let only_contexts = match &command {
        Command::Contexts | Command::CurrentContext => true,
        _ => false,
    };
    let path = copy_option(&kubeconfig);
    let chosen = copy_option(&context);
    let run = Run {
        command,
        kubeconfig,
        context,
        default_namespace,
        namespace: String::new(),
        body: Json::Null,
        phase: Phase::Nothing,
    };
    match path {
        Some(path) => run.at(Phase::File, Move::ReadFile(path)),
        None => if only_contexts {
            run.at(Phase::Contexts, Move::ReadContexts)
        } else {
            run.at(
                Phase::UsualConfig,
                Move::Configure(Source::UsualPlaces { context: chosen }),
            )
        },
    }
}

/// Writes the lines of a list of documents.
fn write_lines(items: &Vec<Json>) -> (r: String)
    ensures
        r@ == lines(items_view(items@)),
{
    let ghost all = items_view(items@);
    let mut out = String::new();
    let mut i: usize = 0;
    assert(all.take(0) =~= Seq::empty());
    while i < items.len()
        invariant
            i <= items@.len(),
            all == items_view(items@),
            lines(all.take(i as int)) == out@,
        decreases items@.len() - i,
    {
        assert(all.take(i as int + 1).drop_last() =~= all.take(i as int));
        let _ = emit_ndjson(&mut out, &items[i]);
        i += 1;
    }
    assert(all.take(all.len() as int) =~= all);
    out
}

/// Writes the lines of a list of objects.
fn write_object_lines(items: &Vec<Json>) -> (r: String)
    ensures
        r@ == object_lines(items_view(items@)),
{
    let ghost all = items_view(items@);
    let mut out = String::new();
    let mut i: usize = 0;
    assert(all.take(0) =~= Seq::empty());
    while i < items.len()
        invariant
            i <= items@.len(),
            all == items_view(items@),
            object_lines(all.take(i as int)) == out@,
        decreases items@.len() - i,
    {
        assert(all.take(i as int + 1).drop_last() =~= all.take(i as int));
        out.append(write_object_line(&items[i]).as_str());
        i += 1;
    }
    assert(all.take(all.len() as int) =~= all);
    out
}

/// What is printed for a change.
fn describe_change(c: Change) -> (r: Json)
    ensures
        r@ == change_document(c@),
{
    match c {
        Change::Apply(obj) => Json::blank().with("type", Json::of_text("APPLY")).with("object", obj),
        Change::Delete(obj) => Json::blank().with("type", Json::of_text("DELETE")).with(
            "object",
            obj,
        ),
        Change::Init => Json::blank().with("type", Json::of_text("INIT")),
        Change::InitApply(obj) => Json::blank().with("type", Json::of_text("INIT_APPLY")).with(
            "object",
            obj,
        ),
        Change::InitDone => Json::blank().with("type", Json::of_text("INIT_DONE")),
    }
}

impl Run {
    /// The run in another phase, with what it asks for there.
    fn at(self, phase: Phase, next: Move) -> (r: Turn)
        ensures
            r@ == self@.at(phase, next@),
    {
        let mut run = self;
        run.phase = phase;
        Turn { run, next }
    }

    /// The run at its end, with its output.
    fn print(self, output: String) -> (r: Turn)
        ensures
            r@ == self@.print(output@),
    {
        self.at(Phase::Nothing, Move::Finish { output, fault: None })
    }

    /// The run at its end, with a fault.
    fn fail(self, fault: OpError) -> (r: Turn)
        ensures
            r@ == self@.fail(fault@),
    {
        self.at(Phase::Nothing, Move::Finish { output: String::new(), fault: Some(fault) })
    }

    /// The run at its end, with a fault and what was being done before it.
    fn fail_in(self, doing: &str, message: &str) -> (r: Turn)
        ensures
            r@ == self@.fail(doing@ + message@),
    {
        self.fail(OpError { message: concat(doing, message) })
    }

    /// The run at its end, with a document printed.
    fn print_document(self, j: &Json) -> (r: Turn)
        ensures
            r@ == self@.print_document(j@),
    {
        match write_line(j) {
            Ok(s) => self.print(s),
            Err(e) => self.fail(e),
        }
    }

    /// The run at its end, with a list of documents printed.
    fn print_documents(self, items: &Vec<Json>) -> (r: Turn)
        ensures
            r@ == self@.print_documents(items_view(items@)),
    {
        let output = write_lines(items);
        self.print(output)
    }

    /// The run on its stream, with a document printed.
    fn stream_document(self, j: &Json) -> (r: Turn)
        ensures
            r@ == self@.stream_document(j@),
            is_single_line(line(j@)),
    {
        match write_line(j) {
            Ok(s) => self.at(Phase::Stream, Move::Next(Some(s))),
            Err(e) => self.fail(e),
        }
    }

    /// The run at its end because of an answer that it did not wait for.
    fn out_of_turn(self) -> (r: Turn)
        ensures
            r@ == self@.out_of_turn(),
    {
        self.fail(OpError::new("unexpected answer"))
    }

    /// The turn after a document was read.
    fn opened(self, text: &str) -> (r: Turn)
        ensures
            r@ == self@.opened(text@),
    {
        let doc = match read_doc(text) {
            Ok(j) => j,
            Err(e) => return self.fail(e),
        };
        match extract_gvk(&doc) {
            Err(e) => self.fail(e),
            Ok(gvk) => {
                let mut run = self;
                run.body = doc;
                run.at(Phase::Discovery, Move::Discover(Some(gvk)))
            },
        }
    }

    /// The turn after the connection stands.
    fn connected(self, connection: String) -> (r: Turn)
        ensures
            r@ == self@.connected(connection@),
    {
        let ns = choose_namespace(&self.command, &self.default_namespace, connection.as_str());
        let mut run = self;
        run.namespace = ns.clone();
        let call = call_of(&run.command);
        let kind = kind_of(&run.command);
        match &run.command {
            Command::Document { doc: Some(text), .. } => {
                let text = text.clone();
                run.opened(text.as_str())
            },
            Command::Document { doc: None, .. } => run.at(Phase::Input, Move::ReadInput),
            Command::Logs { .. } | Command::Exec { .. } => run.at(
                Phase::Answer,
                Move::Perform(
                    Request {
                        subject: Subject::Pods,
                        place: Place::Namespace(ns),
                        call: call.unwrap(),
                    },
                ),
            ),
            Command::Namespaces => run.at(
                Phase::Answer,
                Move::Perform(
                    Request {
                        subject: Subject::Namespaces,
                        place: Place::Everywhere,
                        call: call.unwrap(),
                    },
                ),
            ),
            Command::ApiResources => run.at(Phase::Discovery, Move::Discover(None)),
            Command::Version | Command::Ping => run.at(Phase::Version, Move::ServerVersion),
            Command::Contexts | Command::CurrentContext => run.out_of_turn(),
            Command::Get { .. } | Command::GetOne { .. } | Command::Delete { .. } | Command::Scale {
                ..
            } | Command::Watch { .. } => {
                let gvk = gvk_of_kind(kind.unwrap().as_str());
                run.at(Phase::Discovery, Move::Discover(gvk))
            },
        }
    }

    /// The turn of a command on a document after discovery.
    fn document_discovered(self, d: Discovered, purpose: Use, manager: &str, force: bool) -> (r: Turn)
        ensures
            r@ == self@.document_discovered(d@, purpose, manager@, force),
    {
        let gvk = match extract_gvk(&self.body) {
            Ok(gvk) => gvk,
            Err(e) => return self.fail(e),
        };
        let found = match d.exact {
            Some(f) => f,
            None => {
                let version = written_api_version(&gvk);
                let message = write_not_served(purpose, version.as_str(), gvk.kind.as_str());
                return self.fail(OpError { message });
            },
        };
        let ns = choose_document_namespace(&self.body, self.namespace.as_str());
        match call_on_document(purpose, &self.body, manager, force) {
            Err(e) => self.fail(e),
            Ok(call) => {
                let place = api(found.scope, ns.as_str(), false);
                self.at(
                    Phase::Answer,
                    Move::Perform(
                        Request { subject: Subject::Resource(found.resource), place, call },
                    ),
                )
            },
        }
    }

    /// The turn after discovery.
    fn discovered(self, d: Discovered) -> (r: Turn)
        ensures
            r@ == self@.discovered(d@),
    {
        match &self.command {
            Command::ApiResources => {
                let list = list_resources(&d.recommended);
                self.print_documents(&list)
            },
            Command::Document { purpose, field_manager, force, .. } => {
                let (p, f) = (*purpose, *force);
                let manager = field_manager.clone();
                self.document_discovered(d, p, manager.as_str(), f)
            },
            _ => match (kind_of(&self.command), call_of(&self.command)) {
                (Some(kind), Some(call)) => match resolve_kind(&d, kind.as_str()) {
                    Err(e) => self.fail(e),
                    Ok((resource, scope)) => {
                        let all = everywhere(&self.command);
                        let place = api(scope, self.namespace.as_str(), all);
                        self.at(
                            Phase::Answer,
                            Move::Perform(
                                Request { subject: Subject::Resource(resource), place, call },
                            ),
                        )
                    },
                },
                _ => self.out_of_turn(),
            },
        }
    }

    /// The turn after a call was answered.
    fn answered(self, event: Event) -> (r: Turn)
        ensures
            r@ == self@.answered(event@),
    {
        match (&self.command, event) {
            (Command::Get { .. }, Event::Listed(items)) => {
                let output = write_object_lines(&items);
                self.print(output)
            },
            (Command::GetOne { .. }, Event::Perhaps(o)) => match o {
                Some(j) => self.print(write_object_line(&j)),
                None => self.print_document(&Json::Null),
            },
            (Command::Document { .. }, Event::Document(j)) => self.print(write_object_line(&j)),
            (Command::Scale { .. }, Event::Document(j)) => self.print_document(&j),
            (Command::Delete { .. }, Event::Deleting(j)) => self.print_document(
                &Json::blank().with("status", Json::of_text("Deleting")).with("object", j),
            ),
            (Command::Delete { .. }, Event::Gone(j)) => self.print_document(
                &Json::blank().with("status", Json::of_text("Done")).with("details", j),
            ),
            (Command::Logs { .. }, Event::Text(s)) => {
                let v = chars_of(s.as_str());
                let mut output = s;
                if v.len() == 0 || v[v.len() - 1] != '\n' {
                    output.push('\n');
                }
                self.print(output)
            },
            (Command::Logs { .. }, Event::Ready) => self.at(Phase::Stream, Move::Next(None)),
            (Command::Watch { .. }, Event::Ready) => self.at(Phase::Stream, Move::Next(None)),
            (Command::Exec { .. }, Event::Attached { stdout }) => if stdout {
                self.at(Phase::Stream, Move::Next(None))
            } else {
                self.fail(OpError::new("no stdout on exec"))
            },
            (Command::Namespaces, Event::Listed(items)) => {
                let list = list_namespaces(&items);
                self.print_documents(&list)
            },
            _ => self.out_of_turn(),
        }
    }

    /// The turn after a piece of a stream.
    fn streamed(self, event: Event) -> (r: Turn)
        ensures
            r@ == self@.streamed(event@),
            r@.next matches MoveV::Next(Some(s)) ==> is_single_line(s),
    {
        match (&self.command, event) {
            (Command::Logs { .. }, Event::Text(s)) => self.stream_document(
                &Json::blank().with("line", Json::Text(s)),
            ),
            (Command::Logs { .. }, Event::Ended) => self.print(String::new()),
            (Command::Watch { .. }, Event::Change(c)) => self.stream_document(
                &describe_change(c),
            ),
            (Command::Watch { .. }, Event::Ended) => self.print(String::new()),
            (Command::Exec { .. }, Event::Chunk { stderr, bytes }) => if bytes.len() > 0 {
                let stream = if stderr {
                    "stderr"
                } else {
                    "stdout"
                };
                let data = decode_lossy(bytes.as_slice());
                self.stream_document(
                    &Json::blank().with("stream", Json::of_text(stream)).with(
                        "data",
                        Json::Text(data),
                    ),
                )
            } else if stderr {
                self.at(Phase::Stream, Move::Next(None))
            } else {
                self.at(Phase::End, Move::Join)
            },
            (Command::Exec { .. }, Event::Broken { stderr, message }) => if stderr {
                self.fail_in("exec stderr: ", message.as_str())
            } else {
                self.fail_in("exec stdout: ", message.as_str())
            },
            _ => self.out_of_turn(),
        }
    }

    /// The turn after the contexts were read.
    fn contexts_read(self, c: Contexts) -> (r: Turn)
        ensures
            r@ == self@.contexts_read(c@),
    {
        match &self.command {
            Command::Contexts => {
                let list = list_contexts(&c);
                self.print_documents(&list)
            },
            Command::CurrentContext => self.print_document(
                &Json::blank().with("current_context", Json::of_option(c.current)),
            ),
            _ => self.out_of_turn(),
        }
    }

    /// The turn after the explicit kubeconfig was read: `read` says what its text holds.
    pub fn kubeconfig_read(self, text: String, read: Result<Contexts, String>) -> (r: Turn)
        ensures
            r@ == self@.kubeconfig_read(text@, contexts_read_from(read)),
    {
        let contexts = match read {
            Ok(c) => c,
            Err(e) => return self.fail_in("parsing kubeconfig: ", e.as_str()),
        };
        match &self.command {
            Command::Contexts | Command::CurrentContext => self.contexts_read(contexts),
            _ => {
                let context = copy_option(&self.context);
                self.at(
                    Phase::CustomConfig,
                    Move::Configure(Source::Text { text, context }),
                )
            },
        }
    }

    /// The turn after a failure.
    fn failed(self, message: &str) -> (r: Turn)
        ensures
            r@ == self@.failed(message@),
    {
        match self.phase {
            Phase::File => {
                let doing = match &self.kubeconfig {
                    Some(path) => {
                        let mut doing = concat("reading kubeconfig ", path.as_str());
                        doing.append(": ");
                        doing
                    },
                    None => "".to_owned(),
                };
                self.fail_in(doing.as_str(), message)
            },
            Phase::Contexts => self.fail_in(
                "reading kubeconfig from default search path: ",
                message,
            ),
            Phase::CustomConfig => self.fail_in(
                "building config from custom kubeconfig: ",
                message,
            ),
            Phase::UsualConfig => self.at(
                Phase::InClusterConfig,
                Move::Configure(Source::InCluster),
            ),
            Phase::InClusterConfig => self.fail_in("no kubeconfig and not in-cluster: ", message),
            Phase::Connection => self.fail_in("creating kube client: ", message),
            Phase::Version => match &self.command {
                Command::Ping => self.print_document(&Json::blank().with("ok", Json::Bool(false))),
                _ => self.fail_in("apiserver_version: ", message),
            },
            Phase::Answer => {
                let doing = doing_now(&self.command);
                self.fail_in(doing, message)
            },
            Phase::Stream => {
                let doing = match &self.command {
                    Command::Logs { .. } => "log line: ",
                    Command::Watch { .. } => "watcher: ",
                    _ => "",
                };
                self.fail_in(doing, message)
            },
            Phase::End => self.fail_in("exec join: ", message),
            _ => self.fail(OpError::new(message)),
        }
    }

    /// The turn after an event. What is printed of a stream is one line at a time.
    pub fn advance(self, event: Event) -> (r: Turn)
        ensures
            r@ == self@.next(event@),
            r@.next matches MoveV::Next(Some(s)) ==> is_single_line(s),
    {
        match (self.phase, event) {
            (_, Event::Failed(message)) => self.failed(message.as_str()),
            (_, Event::Unsent(message)) => self.fail_in(
                "doc \u{2192} DynamicObject: ",
                message.as_str(),
            ),
            (Phase::File, Event::Input(text)) => {
                let read = parse_kubeconfig(text.as_str());
                self.kubeconfig_read(text, read)
            },
            (Phase::Contexts, Event::Contexts(c)) => self.contexts_read(c),
            (Phase::CustomConfig, Event::Ready) => self.at(Phase::Connection, Move::Connect),
            (Phase::UsualConfig, Event::Ready) => self.at(Phase::Connection, Move::Connect),
            (Phase::InClusterConfig, Event::Ready) => self.at(Phase::Connection, Move::Connect),
            (Phase::Connection, Event::Connected { namespace }) => self.connected(namespace),
            (Phase::Input, Event::Input(text)) => self.opened(text.as_str()),
            (Phase::Discovery, Event::Discovered(d)) => self.discovered(d),
            (Phase::Version, Event::Document(j)) => match &self.command {
                Command::Ping => self.print_document(&Json::blank().with("ok", Json::Bool(true))),
                _ => self.print_document(&j),
            },
            (Phase::Answer, answer) => self.answered(answer),
            (Phase::Stream, piece) => self.streamed(piece),
            (Phase::End, Event::Ready) => self.print(String::new()),
            _ => self.out_of_turn(),
        }
    }
}

/// What was being done when a call of a command failed.
fn doing_now(c: &Command) -> (r: &'static str)
    ensures
        r@ == doing(c@),
{
    match c {
        Command::Get { .. } => "list: ",
        Command::GetOne { .. } => "get: ",
        Command::Document { purpose, .. } => match purpose {
            Use::Apply => "apply: ",
            Use::Create => "create: ",
            Use::Replace => "replace: ",
        },
        Command::Delete { .. } => "delete: ",
        Command::Logs { options, .. } => if options.follow {
            "log_stream: "
        } else {
            "logs: "
        },
        Command::Scale { .. } => "patch_scale: ",
        Command::Watch { .. } => "watcher: ",
        Command::Exec { .. } => "exec: ",
        Command::Namespaces => "list ns: ",
        _ => "",
    }
}

/// The line that a program prints when it ends with a fault.
pub fn fault_line(fault: &OpError) -> (r: String)
    ensures
        r@ == "stryke-k8s-helper: "@ + fault@,
{
    concat("stryke-k8s-helper: ", fault.message.as_str())
}

} // verus!
