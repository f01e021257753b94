//! The commands of the command line and what each asks of a cluster.

use vstd::prelude::*;
use vstd::string::*;

use crate::cluster::{
    copy_option, copy_texts, Call, CallV, LogOptions, LogOptionsV, Merge, MergeV, Place, PlaceV,
    Scope, Selection, SelectionV,
};
use crate::codec::{object_form, object_form_of};
use crate::error::{outcome, OpError};
use crate::json::{Json, JsonV};
use crate::plan::{
    doc_name, doc_namespace, everything, read_metadata, replicas_patch, write_replicas_patch,
};
use crate::text::{concat, opt_text, texts};

verus! {

/// What is done with a document.
#[derive(Clone, Copy, PartialEq, Eq, Structural)]
pub enum Use {
    Apply,
    Create,
    Replace,
}

/// A command. Where no namespace is given, the default one counts.
pub enum Command {
    Get {
        kind: String,
        namespace: Option<String>,
        all_namespaces: bool,
        label_selector: Option<String>,
        field_selector: Option<String>,
        limit: Option<u32>,
    },
    GetOne { kind: String, name: String, namespace: Option<String> },
    /// Use a document. It is read from the standard input where none is given. The
    /// field manager and the force are those of a server-side apply.
    Document {
        purpose: Use,
        doc: Option<String>,
        field_manager: String,
        force: bool,
        namespace: Option<String>,
    },
    Delete {
        kind: String,
        name: String,
        namespace: Option<String>,
        grace_period: Option<i64>,
        force: bool,
    },
    Logs { pod: String, namespace: Option<String>, options: LogOptions },
    Scale { kind: String, name: String, replicas: i32, namespace: Option<String> },
    Watch {
        kind: String,
        namespace: Option<String>,
        label_selector: Option<String>,
        field_selector: Option<String>,
    },
    Exec { pod: String, namespace: Option<String>, container: Option<String>, command: Vec<String> },
    Version,
    Ping,
    Contexts,
    CurrentContext,
    ApiResources,
    Namespaces,
}

/// What a `Command` is.
#[verifier::ext_equal]
pub enum CommandV {
    Get {
        kind: Seq<char>,
        namespace: Option<Seq<char>>,
        all_namespaces: bool,
        label_selector: Option<Seq<char>>,
        field_selector: Option<Seq<char>>,
        limit: Option<u32>,
    },
    GetOne { kind: Seq<char>, name: Seq<char>, namespace: Option<Seq<char>> },
    Document {
        purpose: Use,
        doc: Option<Seq<char>>,
        field_manager: Seq<char>,
        force: bool,
        namespace: Option<Seq<char>>,
    },
    Delete {
        kind: Seq<char>,
        name: Seq<char>,
        namespace: Option<Seq<char>>,
        grace_period: Option<i64>,
        force: bool,
    },
    Logs { pod: Seq<char>, namespace: Option<Seq<char>>, options: LogOptionsV },
    Scale { kind: Seq<char>, name: Seq<char>, replicas: i32, namespace: Option<Seq<char>> },
    Watch {
        kind: Seq<char>,
        namespace: Option<Seq<char>>,
        label_selector: Option<Seq<char>>,
        field_selector: Option<Seq<char>>,
    },
    Exec {
        pod: Seq<char>,
        namespace: Option<Seq<char>>,
        container: Option<Seq<char>>,
        command: Seq<Seq<char>>,
    },
    Version,
    Ping,
    Contexts,
    CurrentContext,
    ApiResources,
    Namespaces,
}

impl View for Command {
    type V = CommandV;

    open spec fn view(&self) -> CommandV {
        match *self {
            Command::Get {
                kind,
                namespace,
                all_namespaces,
                label_selector,
                field_selector,
                limit,
            } => CommandV::Get {
                kind: kind@,
                namespace: opt_text(namespace),
                all_namespaces,
                label_selector: opt_text(label_selector),
                field_selector: opt_text(field_selector),
                limit,
            },
            Command::GetOne { kind, name, namespace } => CommandV::GetOne {
                kind: kind@,
                name: name@,
                namespace: opt_text(namespace),
            },
            Command::Document { purpose, doc, field_manager, force, namespace } => CommandV::Document {
                purpose,
                doc: opt_text(doc),
                field_manager: field_manager@,
                force,
                namespace: opt_text(namespace),
            },
            Command::Delete { kind, name, namespace, grace_period, force } => CommandV::Delete {
                kind: kind@,
                name: name@,
                namespace: opt_text(namespace),
                grace_period,
                force,
            },
            Command::Logs { pod, namespace, options } => CommandV::Logs {
                pod: pod@,
                namespace: opt_text(namespace),
                options: options@,
            },
            Command::Scale { kind, name, replicas, namespace } => CommandV::Scale {
                kind: kind@,
                name: name@,
                replicas,
                namespace: opt_text(namespace),
            },
            Command::Watch { kind, namespace, label_selector, field_selector } => CommandV::Watch {
                kind: kind@,
                namespace: opt_text(namespace),
                label_selector: opt_text(label_selector),
                field_selector: opt_text(field_selector),
            },
            Command::Exec { pod, namespace, container, command } => CommandV::Exec {
                pod: pod@,
                namespace: opt_text(namespace),
                container: opt_text(container),
                command: texts(command@),
            },
            Command::Version => CommandV::Version,
            Command::Ping => CommandV::Ping,
            Command::Contexts => CommandV::Contexts,
            Command::CurrentContext => CommandV::CurrentContext,
            Command::ApiResources => CommandV::ApiResources,
            Command::Namespaces => CommandV::Namespaces,
        }
    }
}

/// The namespace that a command states.
pub open spec fn stated_namespace(c: CommandV) -> Option<Seq<char>> {
    match c {
        CommandV::Get { namespace, .. } => namespace,
        CommandV::GetOne { namespace, .. } => namespace,
        CommandV::Document { namespace, .. } => namespace,
        CommandV::Delete { namespace, .. } => namespace,
        CommandV::Logs { namespace, .. } => namespace,
        CommandV::Scale { namespace, .. } => namespace,
        CommandV::Watch { namespace, .. } => namespace,
        CommandV::Exec { namespace, .. } => namespace,
        _ => None,
    }
}

/// The namespace of a command: the one it states, else the default of the command
/// line, else that of the connection.
pub open spec fn namespace_for(
    c: CommandV,
    default: Option<Seq<char>>,
    connection: Seq<char>,
) -> Seq<char> {
    match stated_namespace(c) {
        Some(ns) => ns,
        None => match default {
            Some(ns) => ns,
            None => connection,
        },
    }
}

/// The namespace of a command.
pub fn choose_namespace(c: &Command, default: &Option<String>, connection: &str) -> (r: String)
    ensures
        r@ == namespace_for(c@, opt_text(*default), connection@),
{
    let stated = match c {
        Command::Get { namespace, .. } => copy_option(namespace),
        Command::GetOne { namespace, .. } => copy_option(namespace),
        Command::Document { namespace, .. } => copy_option(namespace),
        Command::Delete { namespace, .. } => copy_option(namespace),
        Command::Logs { namespace, .. } => copy_option(namespace),
        Command::Scale { namespace, .. } => copy_option(namespace),
        Command::Watch { namespace, .. } => copy_option(namespace),
        Command::Exec { namespace, .. } => copy_option(namespace),
        _ => None,
    };
    match stated {
        Some(ns) => ns,
        None => match default {
            Some(ns) => ns.clone(),
            None => connection.to_owned(),
        },
    }
}

/// Where a command goes: outside namespaces for a kind that has none, and to all of
/// them where that is asked for; else to one.
pub open spec fn command_place(scope: Scope, namespace: Seq<char>, all: bool) -> PlaceV {
    if scope == Scope::Cluster || all {
        PlaceV::Everywhere
    } else {
        PlaceV::Namespace(namespace)
    }
}

/// Where a command goes.
pub fn api(scope: Scope, namespace: &str, all: bool) -> (r: Place)
    ensures
        r@ == command_place(scope, namespace@, all),
{
    match scope {
        Scope::Cluster => Place::Everywhere,
        Scope::Namespaced => if all {
            Place::Everywhere
        } else {
            Place::Namespace(namespace.to_owned())
        },
    }
}

/// A grace period as the server takes it: the lower 32 bits, and none where the
/// deletion is forced.
pub open spec fn grace_of(grace_period: Option<i64>, force: bool) -> Option<u32> {
    if force {
        Some(0)
    } else {
        match grace_period {
            Some(g) => Some((g as int % 0x1_0000_0000) as u32),
            None => None,
        }
    }
}

/// A grace period as the server takes it.
pub fn grace(grace_period: Option<i64>, force: bool) -> (r: Option<u32>)
    ensures
        r == grace_of(grace_period, force),
{
    if force {
        return Some(0);
    }
    match grace_period {
        Some(g) => {
            let m: i128 = 0x1_0000_0000;
            let w: i128 = g as i128;
            let low: i128 = if w >= 0 {
                w % m
            } else {
                m - 1 - ((-w - 1) % m)
            };
            Some(low as u32)
        },
        None => None,
    }
}

/// The word for the kind that a command is about, where it is to be looked up.
pub open spec fn command_kind(c: CommandV) -> Option<Seq<char>> {
    match c {
        CommandV::Get { kind, .. } => Some(kind),
        CommandV::GetOne { kind, .. } => Some(kind),
        CommandV::Delete { kind, .. } => Some(kind),
        CommandV::Scale { kind, .. } => Some(kind),
        CommandV::Watch { kind, .. } => Some(kind),
        _ => None,
    }
}

/// The word for the kind that a command is about.
pub fn kind_of(c: &Command) -> (r: Option<String>)
    ensures
        opt_text(r) == command_kind(c@),
{
    match c {
        Command::Get { kind, .. } => Some(kind.clone()),
        Command::GetOne { kind, .. } => Some(kind.clone()),
        Command::Delete { kind, .. } => Some(kind.clone()),
        Command::Scale { kind, .. } => Some(kind.clone()),
        Command::Watch { kind, .. } => Some(kind.clone()),
        _ => None,
    }
}

/// Whether a command is about all namespaces.
pub open spec fn is_everywhere(c: CommandV) -> bool {
    c matches CommandV::Get { all_namespaces, .. } && all_namespaces
}

/// Whether a command is about all namespaces.
pub fn everywhere(c: &Command) -> (r: bool)
    ensures
        r == is_everywhere(c@),
{
    match c {
        Command::Get { all_namespaces, .. } => *all_namespaces,
        _ => false,
    }
}

/// The call that a command makes, where its arguments alone say which.
pub open spec fn command_call(c: CommandV) -> Option<CallV> {
    match c {
        CommandV::Get { label_selector, field_selector, limit, .. } => Some(
            CallV::List(SelectionV { label_selector, field_selector, limit }),
        ),
        CommandV::GetOne { name, .. } => Some(CallV::GetIfAny(name)),
        CommandV::Delete { name, grace_period, force, .. } => Some(
            CallV::Delete { name, grace_period: grace_of(grace_period, force) },
        ),
        CommandV::Scale { name, replicas, .. } => Some(
            CallV::PatchScale { name, doc: replicas_patch(replicas as int) },
        ),
        CommandV::Watch { label_selector, field_selector, .. } => Some(
            CallV::Watch(SelectionV { label_selector, field_selector, limit: None }),
        ),
        CommandV::Logs { pod, options, .. } => Some(CallV::Logs { name: pod, options }),
        CommandV::Exec { pod, container, command, .. } => Some(
            CallV::Exec { name: pod, container, command },
        ),
        CommandV::Namespaces => Some(CallV::List(everything())),
        _ => None,
    }
}

/// The call that a command makes.
pub fn call_of(c: &Command) -> (r: Option<Call>)
    ensures
        match r {
            Some(call) => command_call(c@) == Some(call@),
            None => command_call(c@) is None,
        },
{
    match c {
        Command::Get { label_selector, field_selector, limit, .. } => Some(
            Call::List(
                Selection {
                    label_selector: copy_option(label_selector),
                    field_selector: copy_option(field_selector),
                    limit: *limit,
                },
            ),
        ),
        Command::GetOne { name, .. } => Some(Call::GetIfAny(name.clone())),
        Command::Delete { name, grace_period, force, .. } => Some(
            Call::Delete { name: name.clone(), grace_period: grace(*grace_period, *force) },
        ),
        Command::Scale { name, replicas, .. } => Some(
            Call::PatchScale { name: name.clone(), doc: write_replicas_patch(*replicas as i64) },
        ),
        Command::Watch { label_selector, field_selector, .. } => Some(
            Call::Watch(
                Selection {
                    label_selector: copy_option(label_selector),
                    field_selector: copy_option(field_selector),
                    limit: None,
                },
            ),
        ),
        Command::Logs { pod, options, .. } => Some(
            Call::Logs {
                name: pod.clone(),
                options: LogOptions {
                    container: copy_option(&options.container),
                    tail: options.tail,
                    since_seconds: options.since_seconds,
                    previous: options.previous,
                    follow: options.follow,
                    timestamps: options.timestamps,
                },
            },
        ),
        Command::Exec { pod, container, command, .. } => Some(
            Call::Exec {
                name: pod.clone(),
                container: copy_option(container),
                command: copy_texts(command),
            },
        ),
        Command::Namespaces => Some(
            Call::List(Selection { label_selector: None, field_selector: None, limit: None }),
        ),
        _ => None,
    }
}

/// The call that uses a document, or what the document lacks for it. What is sent is the
/// form of the object that the document describes.
pub open spec fn document_call(
    purpose: Use,
    doc: JsonV,
    form: Result<JsonV, Seq<char>>,
    manager: Seq<char>,
    force: bool,
) -> Result<CallV, Seq<char>> {
    match (purpose, doc_name(doc), form) {
        (Use::Replace, None, _) => Err("doc.metadata.name is required for replace"@),
        (Use::Apply, None, _) => Err("doc.metadata.name is required for apply"@),
        (_, _, Err(e)) => Err("doc \u{2192} DynamicObject: "@ + e),
        (Use::Create, _, Ok(object)) => Ok(CallV::Create(object)),
        (Use::Replace, Some(name), Ok(object)) => Ok(CallV::Replace { name, doc: object }),
        (Use::Apply, Some(name), Ok(object)) => Ok(
            CallV::Patch { name, merge: MergeV::Apply { manager, force }, doc: object },
        ),
    }
}

/// The outcome of looking for a call.
pub open spec fn call_outcome(r: Result<Call, OpError>) -> Result<CallV, Seq<char>> {
    match r {
        Ok(call) => Ok(call@),
        Err(e) => Err(e@),
    }
}

/// The call that uses a document: `form` is that of the object that it describes, or why
/// it describes none.
pub fn call_with_form(
    purpose: Use,
    doc: &Json,
    form: Result<Json, OpError>,
    manager: &str,
    force: bool,
) -> (r: Result<Call, OpError>)
    ensures
        call_outcome(r) == document_call(purpose, doc@, outcome(form), manager@, force),
{
    let name = match (purpose, read_metadata(doc, "name")) {
        (Use::Create, _) => String::new(),
        (_, Some(name)) => name,
        (Use::Replace, None) => {
            return Err(OpError::new("doc.metadata.name is required for replace"));
        },
        (Use::Apply, None) => {
            return Err(OpError::new("doc.metadata.name is required for apply"));
        },
    };
    let object = match form {
        Ok(object) => object,
        Err(e) => {
            let message = concat("doc \u{2192} DynamicObject: ", e.message.as_str());
            return Err(OpError { message });
        },
    };
    Ok(
        match purpose {
            Use::Create => Call::Create(object),
            Use::Replace => Call::Replace { name, doc: object },
            Use::Apply => Call::Patch {
                name,
                merge: Merge::Apply { manager: manager.to_owned(), force },
                doc: object,
            },
        },
    )
}

/// The call that uses a document.
pub fn call_on_document(purpose: Use, doc: &Json, manager: &str, force: bool) -> (r: Result<
    Call,
    OpError,
>)
    ensures
        call_outcome(r) == document_call(purpose, doc@, object_form_of(doc@), manager@, force),
{
    call_with_form(purpose, doc, object_form(doc), manager, force)
}

/// The namespace of the object that a document describes: the one it states, else the
/// command's.
pub open spec fn document_namespace(doc: JsonV, namespace: Seq<char>) -> Seq<char> {
    match doc_namespace(doc) {
        Some(ns) => ns,
        None => namespace,
    }
}

/// The namespace of the object that a document describes.
pub fn choose_document_namespace(doc: &Json, namespace: &str) -> (r: String)
    ensures
        r@ == document_namespace(doc@, namespace@),
{
    match read_metadata(doc, "namespace") {
        Some(ns) => ns,
        None => namespace.to_owned(),
    }
}

/// The answer where no served kind is the document's.
pub open spec fn not_served(purpose: Use, api_version: Seq<char>, kind: Seq<char>) -> Seq<char> {
    if purpose == Use::Apply {
        "apiVersion/kind `"@ + api_version + "/"@ + kind + "` not found in cluster"@
    } else {
        "apiVersion/kind not found in cluster"@
    }
}

/// The answer where no served kind is the document's.
pub fn write_not_served(purpose: Use, api_version: &str, kind: &str) -> (r: String)
    ensures
        r@ == not_served(purpose, api_version@, kind@),
{
    match purpose {
        Use::Apply => {
            let mut out = "apiVersion/kind `".to_owned();
            out.append(api_version);
            out.append("/");
            out.append(kind);
            out.append("` not found in cluster");
            out
        },
        _ => "apiVersion/kind not found in cluster".to_owned(),
    }
}

} // verus!
