//! What each command of the command line asks of a cluster and what it prints.

use vstd::prelude::*;

use crate::cluster::{
    CallV, ChangeV, DiscoveredV, EventV, FoundV, GvkV, LogOptionsV, MergeV, PlaceV, RequestV, Scope,
    SelectionV, SubjectV,
};
use crate::codec::{
    call_args, document_of, json_of_bytes, json_of_text, json_text, line, object_form_of,
    object_line, object_text, reply, reply_document, yaml_of_text,
};
use crate::command::{CommandV, Use};
use crate::helper::{begun, lines, lossy_text, object_lines, MoveV, Phase, RunV, TurnV};
use crate::json::{JsonV, NumV};
use crate::operation_laws::{lemma_metadata, metadata_is, object_of};
use crate::reply_laws::resource_told;
use crate::resource::{resolved, stated_gvk, strict_kind};
use crate::text::{is_white, trim_start};
use crate::text_laws::all_white;

verus! {

// ---- texts in and out ----

proof fn lemma_behind_white(white: Seq<char>, rest: Seq<char>)
    requires
        all_white(white),
        rest.len() > 0 ==> !is_white(rest.first()),
    ensures
        trim_start(white + rest) == rest,
    decreases white.len(),
{
    let s = white + rest;
    if white.len() == 0 {
        assert(s =~= rest);
    } else {
        let fewer = white.drop_first();
        assert(is_white(white[0]));
        assert forall|i: int| 0 <= i < fewer.len() implies is_white(#[trigger] fewer[i]) by {
            assert(is_white(white[i + 1]));
        }
        assert(s.first() == white[0]);
        assert(s.drop_first() =~= fewer + rest);
        lemma_behind_white(fewer, rest);
    }
}

/// A document that begins with a brace or a bracket, white space aside, is read as JSON,
/// and any other as YAML; the fault says which.
pub proof fn law_documents_are_read(white: Seq<char>, rest: Seq<char>)
    requires
        all_white(white),
        rest.len() > 0 ==> !is_white(rest.first()),
    ensures
        ({
            let text = white + rest;
            if rest.len() > 0 && (rest.first() == '{' || rest.first() == '[') {
                document_of(text) == (match json_of_text(text) {
                    Ok(doc) => Ok(doc),
                    Err(e) => Err("parsing JSON document: "@ + e),
                })
            } else {
                document_of(text) == (match yaml_of_text(text) {
                    Ok(doc) => Ok(doc),
                    Err(e) => Err("parsing YAML document: "@ + e),
                })
            }
        }),
{
    lemma_behind_white(white, rest);
}

/// Arguments that cannot be read, and no arguments, are null. A reply is what came out, or
/// an object with the error.
pub proof fn law_arguments_and_replies(bytes: Seq<u8>, value: JsonV, message: Seq<char>)
    ensures
        call_args(None) == JsonV::Null,
        json_of_bytes(bytes) is None ==> call_args(Some(bytes)) == JsonV::Null,
        json_of_bytes(bytes) == Some(value) ==> call_args(Some(bytes)) == value,
        reply_document(Ok(value)) == value,
        reply_document(Err(message)) == object_of("error"@, JsonV::Text(message)),
        reply(Ok(value)) == json_text(value),
        reply(Err(message)) == json_text(object_of("error"@, JsonV::Text(message))),
{
}

/// A document is printed on a line of its own. An object of the cluster has its members in
/// their usual order, where it can be written so.
pub proof fn law_lines_are_printed(doc: JsonV, text: Seq<char>, message: Seq<char>)
    ensures
        line(doc) == json_text(doc).push('\n'),
        object_text(doc) == Ok::<_, Seq<char>>(text) ==> object_line(doc) == text.push('\n'),
        object_text(doc) == Err::<Seq<char>, _>(message) ==> object_line(doc) == json_text(
            doc,
        ).push('\n'),
        lines(Seq::empty()) == Seq::<char>::empty(),
        lines(seq![doc]) == json_text(doc).push('\n'),
        object_lines(Seq::empty()) == Seq::<char>::empty(),
        object_lines(seq![doc]) == object_line(doc),
{
    reveal_with_fuel(lines, 2);
    reveal_with_fuel(object_lines, 2);
    assert(seq![doc].drop_last() =~= Seq::<JsonV>::empty());
    assert(lines(seq![doc]) =~= json_text(doc).push('\n'));
    assert(object_lines(seq![doc]) =~= object_line(doc));
}

// ---- turns ----

/// The turn after the connection stands; its own namespace is `own`.
pub open spec fn linked(run: RunV, own: Seq<char>) -> TurnV {
    run.next(EventV::Connected { namespace: own })
}

/// The turn after discovery found `d`.
pub open spec fn learned(run: RunV, own: Seq<char>, d: DiscoveredV) -> TurnV {
    linked(run, own).run.next(EventV::Discovered(d))
}

/// Whether a turn ends the program with an output.
pub open spec fn prints(turn: TurnV, output: Seq<char>) -> bool {
    turn.next == (MoveV::Finish { output, fault: None }) && turn.run.phase == Phase::Nothing
}

/// Whether a turn ends the program with a fault and without any output.
pub open spec fn fails(turn: TurnV, fault: Seq<char>) -> bool {
    &&& turn.next == (MoveV::Finish { output: Seq::empty(), fault: Some(fault) })
    &&& turn.run.phase == Phase::Nothing
}

/// Whether a turn prints a line of a stream and asks for the next piece.
pub open spec fn streams(turn: TurnV, doc: JsonV) -> bool {
    &&& turn.next == MoveV::Next(Some(json_text(doc).push('\n')))
    &&& turn.run.phase == Phase::Stream
}

/// The namespace of a command: the one that it states, else the one for all commands, else
/// that of the connection.
pub open spec fn preferred(
    stated: Option<Seq<char>>,
    default: Option<Seq<char>>,
    own: Seq<char>,
) -> Seq<char> {
    if stated is Some {
        stated->0
    } else if default is Some {
        default->0
    } else {
        own
    }
}

/// Where a command goes: outside namespaces for a kind that has none, else to its
/// namespace.
pub open spec fn place_at(scope: Scope, namespace: Seq<char>) -> PlaceV {
    if scope == Scope::Cluster {
        PlaceV::Everywhere
    } else {
        PlaceV::Namespace(namespace)
    }
}

/// Whether a command looks its kind up and then makes one call on what the kind resolves
/// to, or fails with the fault of resolving it.
pub open spec fn runs(
    run: RunV,
    own: Seq<char>,
    d: DiscoveredV,
    kind: Seq<char>,
    place: PlaceV,
    call: CallV,
) -> bool {
    &&& linked(run, own).next == MoveV::Discover(strict_kind(kind))
    &&& match resolved(d, kind) {
        Ok((resource, _)) => {
            &&& learned(run, own, d).next == MoveV::Perform(
                RequestV { subject: SubjectV::Resource(resource), place, call },
            )
            &&& learned(run, own, d).run.phase == Phase::Answer
            &&& learned(run, own, d).run.command == run.command
        },
        Err(e) => fails(learned(run, own, d), e),
    }
}

/// Where the kind of a command is, by what it resolves to.
pub open spec fn place_found(d: DiscoveredV, kind: Seq<char>, namespace: Seq<char>) -> PlaceV {
    place_at(resolved(d, kind)->Ok_0.1, namespace)
}

/// A command that needs a connection has its own words, and nothing else, when it comes to
/// connect.
pub proof fn law_comes_to_connect(
    command: CommandV,
    context: Option<Seq<char>>,
    default: Option<Seq<char>>,
    message: Seq<char>,
)
    requires
        command != CommandV::Contexts && command != CommandV::CurrentContext,
    ensures
        ({
            let first = begun(command, None, context, default).run;
            let usual = first.next(EventV::Ready).run;
            let pod = first.next(EventV::Failed(message)).run.next(EventV::Ready).run;
            &&& usual.phase == Phase::Connection && pod.phase == Phase::Connection
            &&& usual.command == command && pod.command == command
            &&& usual.default_namespace == default && pod.default_namespace == default
            &&& usual.context == context && pod.context == context
        }),
{
}

/// `get` lists the objects of its kind that its selectors select, up to its limit, in all
/// namespaces where that is asked for.
pub proof fn law_get_command(
    run: RunV,
    own: Seq<char>,
    d: DiscoveredV,
    kind: Seq<char>,
    namespace: Option<Seq<char>>,
    all_namespaces: bool,
    label_selector: Option<Seq<char>>,
    field_selector: Option<Seq<char>>,
    limit: Option<u32>,
)
    requires
        run.phase == Phase::Connection,
        run.command == (CommandV::Get {
            kind,
            namespace,
            all_namespaces,
            label_selector,
            field_selector,
            limit,
        }),
    ensures
        runs(
            run,
            own,
            d,
            kind,
            if all_namespaces {
                PlaceV::Everywhere
            } else {
                place_found(d, kind, preferred(namespace, run.default_namespace, own))
            },
            CallV::List(SelectionV { label_selector, field_selector, limit }),
        ),
{
}

/// `get_one` reads the object of its kind and name, if there is one.
pub proof fn law_get_one_command(
    run: RunV,
    own: Seq<char>,
    d: DiscoveredV,
    kind: Seq<char>,
    name: Seq<char>,
    namespace: Option<Seq<char>>,
)
    requires
        run.phase == Phase::Connection,
        run.command == (CommandV::GetOne { kind, name, namespace }),
    ensures
        runs(
            run,
            own,
            d,
            kind,
            place_found(d, kind, preferred(namespace, run.default_namespace, own)),
            CallV::GetIfAny(name),
        ),
{
}

/// `delete` deletes the object of its kind and name: at once where it is forced, else with
/// its grace period where it has one.
pub proof fn law_delete_command(
    run: RunV,
    own: Seq<char>,
    d: DiscoveredV,
    kind: Seq<char>,
    name: Seq<char>,
    namespace: Option<Seq<char>>,
    grace_period: Option<i64>,
    force: bool,
)
    requires
        run.phase == Phase::Connection,
        run.command == (CommandV::Delete { kind, name, namespace, grace_period, force }),
    ensures
        runs(
            run,
            own,
            d,
            kind,
            place_found(d, kind, preferred(namespace, run.default_namespace, own)),
            CallV::Delete {
                name,
                grace_period: if force {
                    Some(0u32)
                } else if grace_period is Some {
                    Some((grace_period->0 as int % 0x1_0000_0000) as u32)
                } else {
                    None
                },
            },
        ),
{
}

/// `scale` sets `spec.replicas` of the object of its kind and name through its scale.
pub proof fn law_scale_command(
    run: RunV,
    own: Seq<char>,
    d: DiscoveredV,
    kind: Seq<char>,
    name: Seq<char>,
    replicas: i32,
    namespace: Option<Seq<char>>,
)
    requires
        run.phase == Phase::Connection,
        run.command == (CommandV::Scale { kind, name, replicas, namespace }),
    ensures
        runs(
            run,
            own,
            d,
            kind,
            place_found(d, kind, preferred(namespace, run.default_namespace, own)),
            CallV::PatchScale {
                name,
                doc: object_of(
                    "spec"@,
                    object_of("replicas"@, JsonV::Number(NumV::Int(replicas as int))),
                ),
            },
        ),
{
}

/// `watch` watches the objects of its kind that its selectors select.
pub proof fn law_watch_command(
    run: RunV,
    own: Seq<char>,
    d: DiscoveredV,
    kind: Seq<char>,
    namespace: Option<Seq<char>>,
    label_selector: Option<Seq<char>>,
    field_selector: Option<Seq<char>>,
)
    requires
        run.phase == Phase::Connection,
        run.command == (CommandV::Watch { kind, namespace, label_selector, field_selector }),
    ensures
        runs(
            run,
            own,
            d,
            kind,
            place_found(d, kind, preferred(namespace, run.default_namespace, own)),
            CallV::Watch(SelectionV { label_selector, field_selector, limit: None }),
        ),
{
}

/// `logs` reads the log of its pod with its options, and `exec` runs its command in its pod
/// and container, both in their namespace.
pub proof fn law_pod_commands(
    run: RunV,
    own: Seq<char>,
    pod: Seq<char>,
    namespace: Option<Seq<char>>,
    options: LogOptionsV,
    container: Option<Seq<char>>,
    command: Seq<Seq<char>>,
)
    requires
        run.phase == Phase::Connection,
    ensures
        ({
            let place = PlaceV::Namespace(preferred(namespace, run.default_namespace, own));
            let turn = linked(run, own);
            &&& run.command == (CommandV::Logs { pod, namespace, options }) ==> turn.run.phase
                == Phase::Answer && turn.next == MoveV::Perform(
                RequestV {
                    subject: SubjectV::Pods,
                    place,
                    call: CallV::Logs { name: pod, options },
                },
            )
            &&& run.command == (CommandV::Exec { pod, namespace, container, command })
                ==> turn.run.phase == Phase::Answer && turn.next == MoveV::Perform(
                RequestV {
                    subject: SubjectV::Pods,
                    place,
                    call: CallV::Exec { name: pod, container, command },
                },
            )
        }),
{
}

/// The commands without words of their own: all namespaces are listed, all that is served is
/// asked for, and so is the version.
pub proof fn law_plain_commands(run: RunV, own: Seq<char>)
    requires
        run.phase == Phase::Connection,
    ensures
        run.command == CommandV::Namespaces ==> linked(run, own).run.phase == Phase::Answer
            && linked(run, own).next == MoveV::Perform(
            RequestV {
                subject: SubjectV::Namespaces,
                place: PlaceV::Everywhere,
                call: CallV::List(
                    SelectionV { label_selector: None, field_selector: None, limit: None },
                ),
            },
        ),
        run.command == CommandV::ApiResources ==> linked(run, own).next == MoveV::Discover(None),
        run.command == CommandV::Version ==> linked(run, own).next == MoveV::ServerVersion,
        run.command == CommandV::Ping ==> linked(run, own).next == MoveV::ServerVersion,
{
}

// ---- documents ----

/// A command on a document takes the document of the command line, or reads it; what it
/// asks for is the kind that the document states exactly.
pub proof fn law_document_is_opened(
    run: RunV,
    own: Seq<char>,
    purpose: Use,
    inline: Option<Seq<char>>,
    field_manager: Seq<char>,
    force: bool,
    namespace: Option<Seq<char>>,
    text: Seq<char>,
)
    requires
        run.phase == Phase::Connection,
        run.command == (CommandV::Document {
            purpose,
            doc: inline,
            field_manager,
            force,
            namespace,
        }),
        inline is Some ==> inline == Some(text),
    ensures
        ({
            let first = linked(run, own);
            let turn = if inline is Some {
                first
            } else {
                first.run.next(EventV::Input(text))
            };
            &&& inline is None ==> first.next == MoveV::ReadInput
            &&& match document_of(text) {
                Err(e) => fails(turn, e),
                Ok(doc) => match stated_gvk(doc) {
                    Err(e) => fails(turn, e),
                    Ok(gvk) => {
                        &&& turn.next == MoveV::Discover(Some(gvk))
                        &&& turn.run.phase == Phase::Discovery
                        &&& turn.run.command == run.command
                        &&& turn.run.body == doc
                        &&& turn.run.namespace == preferred(namespace, run.default_namespace, own)
                    },
                },
            }
        }),
{
}

/// A command on a document sends the form of the object that the document describes to the
/// namespace that the document states, or else to that of the command: it is created, or
/// replaces the object of its name, or is applied to it for the field manager, by force
/// where that is asked for. What is missing is said, and nothing is sent.
pub proof fn law_document_is_sent(
    run: RunV,
    d: DiscoveredV,
    purpose: Use,
    inline: Option<Seq<char>>,
    field_manager: Seq<char>,
    force: bool,
    stated: Option<Seq<char>>,
    name: Option<Seq<char>>,
    namespace: Option<Seq<char>>,
    gvk: GvkV,
)
    requires
        run.phase == Phase::Discovery,
        run.command == (CommandV::Document {
            purpose,
            doc: inline,
            field_manager,
            force,
            namespace: stated,
        }),
        stated_gvk(run.body) == Ok::<_, Seq<char>>(gvk),
        metadata_is(run.body, "name"@, name),
        metadata_is(run.body, "namespace"@, namespace),
    ensures
        ({
            let turn = run.next(EventV::Discovered(d));
            let form = object_form_of(run.body);
            let api_version = if gvk.group.len() == 0 {
                gvk.version
            } else {
                gvk.group + "/"@ + gvk.version
            };
            if d.exact is None {
                if purpose == Use::Apply {
                    fails(
                        turn,
                        "apiVersion/kind `"@ + api_version + "/"@ + gvk.kind
                            + "` not found in cluster"@,
                    )
                } else {
                    fails(turn, "apiVersion/kind not found in cluster"@)
                }
            } else if purpose == Use::Apply && name is None {
                fails(turn, "doc.metadata.name is required for apply"@)
            } else if purpose == Use::Replace && name is None {
                fails(turn, "doc.metadata.name is required for replace"@)
            } else if form is Err {
                fails(turn, "doc \u{2192} DynamicObject: "@ + form->Err_0)
            } else {
                &&& turn.run.phase == Phase::Answer
                &&& turn.next == MoveV::Perform(
                    RequestV {
                        subject: SubjectV::Resource(d.exact->0.resource),
                        place: place_at(
                            d.exact->0.scope,
                            if namespace is Some {
                                namespace->0
                            } else {
                                run.namespace
                            },
                        ),
                        call: match purpose {
                            Use::Create => CallV::Create(form->Ok_0),
                            Use::Replace => CallV::Replace { name: name->0, doc: form->Ok_0 },
                            Use::Apply => CallV::Patch {
                                name: name->0,
                                merge: MergeV::Apply { manager: field_manager, force },
                                doc: form->Ok_0,
                            },
                        },
                    },
                )
            }
        }),
{
    lemma_metadata(run.body, "name"@, name);
    lemma_metadata(run.body, "namespace"@, namespace);
}

// ---- printing ----

/// What was read or changed is printed: objects line by line in their order, null where
/// there is none, a scale, and a log with a line end.
pub proof fn law_answers_are_printed(
    run: RunV,
    items: Seq<JsonV>,
    object: JsonV,
    log: Seq<char>,
)
    requires
        run.phase == Phase::Answer,
    ensures
        run.command is Get ==> prints(run.next(EventV::Listed(items)), object_lines(items)),
        run.command is GetOne ==> prints(
            run.next(EventV::Perhaps(Some(object))),
            object_line(object),
        ),
        run.command is GetOne ==> prints(
            run.next(EventV::Perhaps(None)),
            json_text(JsonV::Null).push('\n'),
        ),
        run.command is Document ==> prints(
            run.next(EventV::Document(object)),
            object_line(object),
        ),
        run.command is Scale ==> prints(
            run.next(EventV::Document(object)),
            json_text(object).push('\n'),
        ),
        run.command is Delete ==> prints(
            run.next(EventV::Deleting(object)),
            json_text(
                object_of("status"@, JsonV::Text("Deleting"@)).with("object"@, object),
            ).push('\n'),
        ),
        run.command is Delete ==> prints(
            run.next(EventV::Gone(object)),
            json_text(object_of("status"@, JsonV::Text("Done"@)).with("details"@, object)).push(
                '\n',
            ),
        ),
        run.command is Logs && log.len() > 0 && log.last() == '\n' ==> prints(
            run.next(EventV::Text(log)),
            log,
        ),
        run.command is Logs && !(log.len() > 0 && log.last() == '\n') ==> prints(
            run.next(EventV::Text(log)),
            log.push('\n'),
        ),
{
}

/// What is told of a namespace on the command line: its name, or the name that one is to be
/// made from, or an empty text; its phase or an empty text, and its labels or an empty
/// object.
pub open spec fn namespace_listed(ns: JsonV) -> JsonV {
    let meta = ns.field("metadata"@);
    let phase = ns.field("status"@).field("phase"@);
    object_of(
        "name"@,
        if meta.field("name"@) is Text {
            meta.field("name"@)
        } else if meta.field("generateName"@) is Text {
            meta.field("generateName"@)
        } else {
            JsonV::Text(Seq::empty())
        },
    ).with(
        "status"@,
        if phase is Text {
            phase
        } else {
            JsonV::Text(Seq::empty())
        },
    ).with(
        "labels"@,
        if meta.field("labels"@) is Object {
            meta.field("labels"@)
        } else {
            JsonV::Object(Map::empty())
        },
    )
}

proof fn lemma_namespaces_listed(items: Seq<JsonV>)
    ensures
        crate::answer::namespace_documents(items) == items.map_values(
            |o: JsonV| namespace_listed(o),
        ),
{
    let docs = crate::answer::namespace_documents(items);
    assert forall|i: int| 0 <= i < items.len() implies docs[i] == namespace_listed(items[i]) by {}
    assert(docs =~= items.map_values(|o: JsonV| namespace_listed(o)));
}

proof fn lemma_resources_told(found: Seq<FoundV>)
    ensures
        crate::answer::resource_documents(found) == found.map_values(
            |f: FoundV| resource_told(f),
        ),
{
    let docs = crate::answer::resource_documents(found);
    assert forall|i: int| 0 <= i < found.len() implies docs[i] == resource_told(found[i]) by {
        let f = found[i];
        assert(crate::json::text_array(f.verbs) == JsonV::Array(
            Seq::new(f.verbs.len(), |k: int| JsonV::Text(f.verbs[k])),
        ));
    }
    assert(docs =~= found.map_values(|f: FoundV| resource_told(f)));
}

/// Every namespace is printed, in its order.
pub proof fn law_namespaces_are_printed(run: RunV, items: Seq<JsonV>)
    requires
        run.phase == Phase::Answer,
        run.command == CommandV::Namespaces,
    ensures
        prints(
            run.next(EventV::Listed(items)),
            lines(items.map_values(|o: JsonV| namespace_listed(o))),
        ),
{
    lemma_namespaces_listed(items);
}

/// Every resource that is served is printed, in its order.
pub proof fn law_resources_are_printed(run: RunV, d: DiscoveredV)
    requires
        run.phase == Phase::Discovery,
        run.command == CommandV::ApiResources,
    ensures
        prints(
            run.next(EventV::Discovered(d)),
            lines(d.recommended.map_values(|f: FoundV| resource_told(f))),
        ),
{
    lemma_resources_told(d.recommended);
}

/// The version of the server is printed as it is, and of a ping that the server is there.
pub proof fn law_version_is_printed(run: RunV, doc: JsonV)
    requires
        run.phase == Phase::Version,
    ensures
        run.command == CommandV::Version ==> prints(
            run.next(EventV::Document(doc)),
            json_text(doc).push('\n'),
        ),
        run.command == CommandV::Ping ==> prints(
            run.next(EventV::Document(doc)),
            json_text(object_of("ok"@, JsonV::Bool(true))).push('\n'),
        ),
{
}

// ---- streams ----

/// The lines of a log that is followed are printed as they come, and so is each change that
/// is watched, with what kind of change it is and its object.
pub proof fn law_streams_are_printed(run: RunV, text: Seq<char>, object: JsonV)
    requires
        run.phase == Phase::Stream,
    ensures
        run.command is Logs ==> streams(
            run.next(EventV::Text(text)),
            object_of("line"@, JsonV::Text(text)),
        ),
        run.command is Watch ==> {
            &&& streams(
                run.next(EventV::Change(ChangeV::Apply(object))),
                object_of("type"@, JsonV::Text("APPLY"@)).with("object"@, object),
            )
            &&& streams(
                run.next(EventV::Change(ChangeV::Delete(object))),
                object_of("type"@, JsonV::Text("DELETE"@)).with("object"@, object),
            )
            &&& streams(
                run.next(EventV::Change(ChangeV::Init)),
                object_of("type"@, JsonV::Text("INIT"@)),
            )
            &&& streams(
                run.next(EventV::Change(ChangeV::InitApply(object))),
                object_of("type"@, JsonV::Text("INIT_APPLY"@)).with("object"@, object),
            )
            &&& streams(
                run.next(EventV::Change(ChangeV::InitDone)),
                object_of("type"@, JsonV::Text("INIT_DONE"@)),
            )
        },
        run.command is Logs || run.command is Watch ==> prints(
            run.next(EventV::Ended),
            Seq::empty(),
        ),
{
}

/// What a command in a container writes is printed as it comes, with the stream that it
/// was written to. The end of the standard output is the end of the command, whose own
/// outcome is then waited for; the end of the standard error is passed over.
pub proof fn law_exec_is_printed(
    run: RunV,
    stderr: bool,
    bytes: Seq<u8>,
    message: Seq<char>,
)
    requires
        run.command is Exec,
    ensures
        run.phase == Phase::Answer ==> {
            &&& run.next(EventV::Attached { stdout: true }).next == MoveV::Next(None)
            &&& run.next(EventV::Attached { stdout: true }).run.phase == Phase::Stream
            &&& fails(run.next(EventV::Attached { stdout: false }), "no stdout on exec"@)
        },
        run.phase == Phase::Stream ==> {
            &&& bytes.len() > 0 ==> streams(
                run.next(EventV::Chunk { stderr, bytes }),
                object_of(
                    "stream"@,
                    JsonV::Text(
                        if stderr {
                            "stderr"@
                        } else {
                            "stdout"@
                        },
                    ),
                ).with("data"@, JsonV::Text(lossy_text(bytes))),
            )
            &&& run.next(EventV::Chunk { stderr: true, bytes: Seq::empty() }).next == MoveV::Next(
                None,
            )
            &&& run.next(EventV::Chunk { stderr: true, bytes: Seq::empty() }).run.phase
                == Phase::Stream
            &&& run.next(EventV::Chunk { stderr: false, bytes: Seq::empty() }).next == MoveV::Join
            &&& run.next(EventV::Chunk { stderr: false, bytes: Seq::empty() }).run.phase
                == Phase::End
            &&& fails(
                run.next(EventV::Broken { stderr: true, message }),
                "exec stderr: "@ + message,
            )
            &&& fails(
                run.next(EventV::Broken { stderr: false, message }),
                "exec stdout: "@ + message,
            )
        },
        run.phase == Phase::End ==> prints(run.next(EventV::Ready), Seq::empty()),
{
}

// ---- faults ----

/// Each fault says what was being done.
pub proof fn law_faults_say_what_was_done(run: RunV, message: Seq<char>)
    ensures
        ({
            let turn = run.next(EventV::Failed(message));
            &&& run.phase == Phase::File && run.kubeconfig is Some ==> fails(
                turn,
                "reading kubeconfig "@ + run.kubeconfig->0 + ": "@ + message,
            )
            &&& run.phase == Phase::Contexts ==> fails(
                turn,
                "reading kubeconfig from default search path: "@ + message,
            )
            &&& run.phase == Phase::CustomConfig ==> fails(
                turn,
                "building config from custom kubeconfig: "@ + message,
            )
            &&& run.phase == Phase::InClusterConfig ==> fails(
                turn,
                "no kubeconfig and not in-cluster: "@ + message,
            )
            &&& run.phase == Phase::Connection ==> fails(
                turn,
                "creating kube client: "@ + message,
            )
            &&& run.phase == Phase::Version && run.command != CommandV::Ping ==> fails(
                turn,
                "apiserver_version: "@ + message,
            )
            &&& run.phase == Phase::End ==> fails(turn, "exec join: "@ + message)
            &&& run.phase == Phase::Input || run.phase == Phase::Discovery ==> fails(
                turn,
                message,
            )
        }),
{
}

/// Each fault of a call says which call it was.
pub proof fn law_faults_say_which_call(run: RunV, message: Seq<char>)
    ensures
        ({
            let turn = run.next(EventV::Failed(message));
            &&& run.phase == Phase::Answer ==> {
                &&& run.command is Get ==> fails(turn, "list: "@ + message)
                &&& run.command is GetOne ==> fails(turn, "get: "@ + message)
                &&& run.command is Delete ==> fails(turn, "delete: "@ + message)
                &&& run.command is Scale ==> fails(turn, "patch_scale: "@ + message)
                &&& run.command is Watch ==> fails(turn, "watcher: "@ + message)
                &&& run.command is Exec ==> fails(turn, "exec: "@ + message)
                &&& run.command == CommandV::Namespaces ==> fails(turn, "list ns: "@ + message)
                &&& run.command matches CommandV::Document { purpose, .. } ==> fails(
                    turn,
                    (match purpose {
                        Use::Apply => "apply: "@,
                        Use::Create => "create: "@,
                        Use::Replace => "replace: "@,
                    }) + message,
                )
                &&& run.command matches CommandV::Logs { options, .. } ==> fails(
                    turn,
                    (if options.follow {
                        "log_stream: "@
                    } else {
                        "logs: "@
                    }) + message,
                )
            }
            &&& run.phase == Phase::Stream && run.command is Logs ==> fails(
                turn,
                "log line: "@ + message,
            )
            &&& run.phase == Phase::Stream && run.command is Watch ==> fails(
                turn,
                "watcher: "@ + message,
            )
            &&& fails(
                run.next(EventV::Unsent(message)),
                "doc \u{2192} DynamicObject: "@ + message,
            )
        }),
{
}

/// What was written in UTF-8 is printed as it was written.
pub proof fn law_text_is_printed(text: Seq<char>)
    ensures
        lossy_text(vstd::utf8::encode_utf8(text)) == text,
{
    vstd::utf8::encode_utf8_valid_utf8(text);
    vstd::utf8::encode_utf8_decode_utf8(text);
}

/// An answer that a command does not wait for ends it with a fault.
pub proof fn law_unexpected_turns(run: RunV, e: EventV)
    requires
        !(e is Failed) && !(e is Unsent),
        run.phase == Phase::Nothing || run.phase == Phase::File && !(e is Input) || run.phase
            == Phase::Contexts && !(e is Contexts) || (run.phase == Phase::CustomConfig || run.phase
            == Phase::UsualConfig || run.phase == Phase::InClusterConfig || run.phase == Phase::End)
            && !(e is Ready) || run.phase == Phase::Connection && !(e is Connected) || run.phase
            == Phase::Input && !(e is Input) || run.phase == Phase::Discovery
            && !(e is Discovered) || run.phase == Phase::Version && !(e is Document),
    ensures
        fails(run.next(e), "unexpected answer"@),
{
}

} // verus!
