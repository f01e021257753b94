use serde_json::Value;
use stryke_k8s::cluster::{
    ApiResource, Call, Change, ContextEntry, Contexts, Discovered, Event, Found, LogOptions, Merge,
    Place, Request, Scope, Subject,
};
use stryke_k8s::codec::{export, import, write_line_with, write_object_line};
use stryke_k8s::command::{call_on_document, call_with_form, grace, Command, Use};
use stryke_k8s::resource::resolve_kind;
use stryke_k8s::error::OpError;
use stryke_k8s::helper::{fault_line, run, Move, Run, Source, Turn};
use stryke_k8s::json::Json;

fn value(text: &str) -> Value {
    serde_json::from_str(text).unwrap()
}

fn json(text: &str) -> Json {
    import(value(text))
}

fn found(group: &str, kind: &str, plural: &str, scope: Scope) -> Found {
    Found {
        resource: ApiResource {
            group: group.into(),
            version: "v1".into(),
            api_version: if group.is_empty() { "v1".into() } else { format!("{group}/v1") },
            kind: kind.into(),
            plural: plural.into(),
        },
        scope,
        verbs: vec!["list".to_string()],
    }
}

fn served(exact: Option<Found>) -> Event {
    Event::Discovered(Discovered {
        exact,
        recommended: vec![
            found("", "Node", "nodes", Scope::Cluster),
            found("", "Pod", "pods", Scope::Namespaced),
            found("apps", "Deployment", "deployments", Scope::Namespaced),
        ],
    })
}

fn connected() -> Event {
    Event::Connected { namespace: "own".to_string() }
}

fn opt(s: &str) -> Option<String> {
    Some(s.to_string())
}

fn get(kind: &str, namespace: Option<String>, all: bool) -> Command {
    Command::Get {
        kind: kind.into(),
        namespace,
        all_namespaces: all,
        label_selector: opt("app=web"),
        field_selector: None,
        limit: Some(9),
    }
}

/// A command that is about to connect.
fn connecting(command: Command, default: Option<String>) -> Run {
    let first = run(command, None, None, default);
    assert!(matches!(first.next, Move::Configure(Source::UsualPlaces { context: None })));
    let second = first.run.advance(Event::Ready);
    assert!(matches!(second.next, Move::Connect));
    second.run
}

/// The request that a command makes on a discovered kind.
fn requested(command: Command, default: Option<String>, exact: Option<Found>) -> (Run, Request) {
    let second = connecting(command, default).advance(connected());
    assert!(matches!(second.next, Move::Discover(_)));
    let third = second.run.advance(served(exact));
    match third.next {
        Move::Perform(r) => (third.run, r),
        _ => panic!("expected a request"),
    }
}

/// The request that a command makes without discovery.
fn direct(command: Command) -> (Run, Request) {
    let second = connecting(command, None).advance(connected());
    match second.next {
        Move::Perform(r) => (second.run, r),
        _ => panic!("expected a request"),
    }
}

fn end(turn: Turn) -> (String, Option<String>) {
    match turn.next {
        Move::Finish { output, fault } => (output, fault.map(|e| e.message)),
        _ => panic!("expected an end"),
    }
}

fn printed(turn: Turn) -> String {
    let (output, fault) = end(turn);
    assert_eq!(fault, None);
    output
}

fn fault(turn: Turn) -> String {
    let (output, fault) = end(turn);
    assert_eq!(output, "");
    fault.unwrap()
}

fn place_of(r: &Request) -> String {
    match &r.place {
        Place::Everywhere => "everywhere".to_string(),
        Place::Namespace(ns) => format!("in {ns}"),
        Place::DefaultNamespace => "default".to_string(),
    }
}

fn plural_of(r: &Request) -> &str {
    match &r.subject {
        Subject::Resource(a) => &a.plural,
        _ => panic!("expected a discovered kind"),
    }
}

#[test]
fn the_namespace_is_the_stated_one_or_a_default() {
    let place = |ns, all, default| place_of(&requested(get("po", ns, all), default, None).1);
    assert_eq!(place(opt("a"), false, opt("b")), "in a");
    assert_eq!(place(None, false, opt("b")), "in b");
    assert_eq!(place(None, false, None), "in own");
    assert_eq!(place(opt("a"), true, None), "everywhere");
    assert_eq!(place_of(&requested(get("nodes", opt("a"), false), None, None).1), "everywhere");
}

#[test]
fn kinds_resolve_by_name_short_name_and_in_full() {
    for word in ["pod", "pods", "po", "Pods", "PO"] {
        assert_eq!(plural_of(&requested(get(word, None, false), None, None).1), "pods", "{word}");
    }
    let exact = || Some(found("", "Pod", "pods", Scope::Namespaced));
    assert_eq!(plural_of(&requested(get("v1/Pod", None, false), None, exact()).1), "pods");
    assert_eq!(plural_of(&requested(get("/v1/Pod", None, false), None, exact()).1), "pods");
    let second = connecting(get("gizmo", None, false), None).advance(connected());
    assert_eq!(
        fault(second.run.advance(served(None))),
        "could not resolve kind `gizmo` against cluster api-resources"
    );
}

#[test]
fn a_kind_that_is_not_served_is_made_up_from_its_full_name() {
    let cases = [
        ("example.com/v1/Widget", "example.com", "Widget", "widgets", "example.com/v1"),
        ("v1/Policy", "", "Policy", "policies", "v1"),
        ("a/v1/Y", "a", "Y", "ys", "a/v1"),
        ("a/v1/b/C", "a", "b/C", "b/cs", "a/v1"),
    ];
    for (word, group, kind, plural, api_version) in cases {
        let (_, r) = requested(get(word, None, false), None, None);
        assert_eq!(place_of(&r), "in own", "{word}");
        match r.subject {
            Subject::Resource(a) => {
                assert_eq!(a.group, group, "{word}");
                assert_eq!(a.version, "v1", "{word}");
                assert_eq!(a.kind, kind, "{word}");
                assert_eq!(a.plural, plural, "{word}");
                assert_eq!(a.api_version, api_version, "{word}");
            }
            _ => panic!("expected a resource"),
        }
    }
}

/// An object as it is printed: what it is, its metadata, then the rest.
const CONFIG_MAP: &str = r#"{"apiVersion":"v1","kind":"ConfigMap","metadata":{"labels":{"a":"b"},"name":"cm"},"binaryData":{},"data":{"k":"v"},"immutable":true}"#;

#[test]
fn objects_are_printed_in_their_own_order() {
    let shuffled = r#"{"data":{"k":"v"},"immutable":true,"kind":"ConfigMap","binaryData":{},"metadata":{"name":"cm","labels":{"a":"b"}},"apiVersion":"v1"}"#;
    assert_eq!(write_object_line(&json(shuffled)), format!("{CONFIG_MAP}\n"));
    assert_eq!(write_line_with(&json("[2]"), Ok("{}".to_string())), "{}\n");
    assert_eq!(write_line_with(&json("[2]"), Err("no object".to_string())), "[2]\n");
    let one = || Command::GetOne { kind: "cm".into(), name: "cm".into(), namespace: None };
    let second = connecting(one(), None).advance(connected()).run;
    let served = Event::Discovered(Discovered {
        exact: None,
        recommended: vec![found("", "ConfigMap", "configmaps", Scope::Namespaced)],
    });
    let third = second.advance(served).run;
    assert_eq!(printed(third.advance(Event::Perhaps(Some(json(shuffled))))), format!("{CONFIG_MAP}\n"));
    let (state, _) = requested(document(Use::Create, Some(CM)), None, deployment());
    assert_eq!(printed(state.advance(Event::Document(json(shuffled)))), format!("{CONFIG_MAP}\n"));
    // Inside another document an object is a document like any other.
    let delete = Command::Delete {
        kind: "po".into(),
        name: "p".into(),
        namespace: None,
        grace_period: None,
        force: false,
    };
    let (state, _) = requested(delete, None, None);
    let line = printed(state.advance(Event::Deleting(json(r#"{"metadata":{},"data":{}}"#))));
    assert_eq!(line, "{\"object\":{\"data\":{},\"metadata\":{}},\"status\":\"Deleting\"}\n");
}

#[test]
fn get_prints_a_line_for_each_object() {
    let (state, r) = requested(get("po", None, false), None, None);
    match r.call {
        Call::List(s) => {
            assert_eq!(s.label_selector.as_deref(), Some("app=web"));
            assert_eq!(s.field_selector, None);
            assert_eq!(s.limit, Some(9));
        }
        _ => panic!("expected a list"),
    }
    let items = vec![json(r#"{"b":1,"a":"x\ny"}"#), json("null"), json(CONFIG_MAP)];
    assert_eq!(
        printed(state.advance(Event::Listed(items))),
        format!("{{\"metadata\":{{}},\"a\":\"x\\ny\",\"b\":1}}\nnull\n{CONFIG_MAP}\n")
    );
    let (state, _) = requested(get("po", None, false), None, None);
    assert_eq!(fault(state.advance(Event::Failed("forbidden".into()))), "list: forbidden");
}

#[test]
fn get_one_prints_null_for_an_absent_object() {
    let command = || Command::GetOne { kind: "po".into(), name: "p".into(), namespace: None };
    let (state, r) = requested(command(), None, None);
    assert!(matches!(&r.call, Call::GetIfAny(n) if n == "p"));
    assert_eq!(printed(state.advance(Event::Perhaps(None))), "null\n");
    let (state, _) = requested(command(), None, None);
    assert_eq!(printed(state.advance(Event::Perhaps(Some(json("{}"))))), "{\"metadata\":{}}\n");
    let (state, _) = requested(command(), None, None);
    assert_eq!(fault(state.advance(Event::Failed("x".into()))), "get: x");
}

fn document(purpose: Use, doc: Option<&str>) -> Command {
    Command::Document {
        purpose,
        doc: doc.map(String::from),
        field_manager: "me".into(),
        force: true,
        namespace: None,
    }
}

const CM: &str = r#"{"apiVersion":"apps/v1","kind":"Deployment","metadata":{"name":"web","namespace":"ci"}}"#;

fn deployment() -> Option<Found> {
    Some(found("apps", "Deployment", "deployments", Scope::Namespaced))
}

#[test]
fn documents_are_applied_created_and_replaced() {
    let (state, r) = requested(document(Use::Apply, Some(CM)), None, deployment());
    assert_eq!(place_of(&r), "in ci");
    match r.call {
        Call::Patch { name, merge: Merge::Apply { manager, force }, doc } => {
            assert_eq!(name, "web");
            assert_eq!(manager, "me");
            assert!(force);
            assert_eq!(export(&doc), value(CM));
        }
        _ => panic!("expected a server-side apply"),
    }
    assert_eq!(printed(state.advance(Event::Document(json("1")))), "1\n");
    let (state, r) = requested(document(Use::Create, Some(CM)), None, deployment());
    assert!(matches!(r.call, Call::Create(_)));
    assert_eq!(fault(state.advance(Event::Failed("conflict".into()))), "create: conflict");
    let (state, r) = requested(document(Use::Replace, Some(CM)), None, deployment());
    assert!(matches!(&r.call, Call::Replace { name, .. } if name == "web"));
    assert_eq!(
        fault(state.advance(Event::Unsent("missing field".into()))),
        "doc → DynamicObject: missing field"
    );
    let (state, _) = requested(document(Use::Replace, Some(CM)), None, deployment());
    assert_eq!(fault(state.advance(Event::Failed("x".into()))), "replace: x");
    let (state, _) = requested(document(Use::Apply, Some(CM)), None, deployment());
    assert_eq!(fault(state.advance(Event::Failed("x".into()))), "apply: x");
}

#[test]
fn a_document_is_sent_in_the_form_of_its_object() {
    let doc = r#"{"apiVersion":"apps/v1","kind":"Deployment","metadata":{"name":"web","labels":null,"other":1},"spec":{"x":null}}"#;
    let sent = |call: Call| match call {
        Call::Create(doc) => ("create".to_string(), export(&doc)),
        Call::Replace { name, doc } => (format!("replace {name}"), export(&doc)),
        Call::Patch { name, merge: Merge::Apply { .. }, doc } => (format!("apply {name}"), export(&doc)),
        _ => panic!("expected a document to be sent"),
    };
    for (purpose, what) in [(Use::Create, "create"), (Use::Replace, "replace web"), (Use::Apply, "apply web")] {
        let (_, r) = requested(document(purpose, Some(doc)), None, deployment());
        let form = r#"{"apiVersion":"apps/v1","kind":"Deployment","metadata":{"name":"web"},"spec":{"x":null}}"#;
        assert_eq!(sent(r.call), (what.to_string(), value(form)));
        let with = |form| call_with_form(purpose, &json(CM), form, "me", false);
        assert_eq!(sent(with(Ok(json("[1]"))).ok().unwrap()), (what.to_string(), value("[1]")));
        let said = with(Err(OpError::new("no object"))).err().unwrap().message;
        assert_eq!(said, "doc → DynamicObject: no object");
        // A document whose metadata are no metadata describes no object.
        let bad = r#"{"apiVersion":"apps/v1","kind":"Deployment","metadata":{"name":"web","labels":7}}"#;
        let said = call_on_document(purpose, &json(bad), "me", true).err().unwrap().message;
        assert!(said.starts_with("doc → DynamicObject: invalid type"), "{said}");
    }
    let nameless = |purpose| {
        let form = Err(OpError::new("no object"));
        call_with_form(purpose, &json("{}"), form, "me", false).err().unwrap().message
    };
    assert_eq!(nameless(Use::Apply), "doc.metadata.name is required for apply");
    assert_eq!(nameless(Use::Replace), "doc.metadata.name is required for replace");
    assert_eq!(nameless(Use::Create), "doc → DynamicObject: no object");
}

#[test]
fn a_document_is_read_from_the_standard_input() {
    let second = connecting(document(Use::Create, None), opt("dflt")).advance(connected());
    assert!(matches!(second.next, Move::ReadInput));
    let yaml = "apiVersion: apps/v1\nkind: Deployment\nmetadata:\n  name: web\n";
    let third = second.run.advance(Event::Input(yaml.into()));
    match &third.next {
        Move::Discover(Some(g)) => {
            assert_eq!((g.group.as_str(), g.version.as_str(), g.kind.as_str()), ("apps", "v1", "Deployment"))
        }
        _ => panic!("expected discovery"),
    }
    match third.run.advance(served(deployment())).next {
        Move::Perform(r) => assert_eq!(place_of(&r), "in dflt"),
        _ => panic!("expected a request"),
    }
}

#[test]
fn bad_documents_are_refused() {
    let after = |purpose, doc| connecting(document(purpose, Some(doc)), None).advance(connected());
    assert!(fault(after(Use::Create, "{")).starts_with("parsing JSON document: "));
    assert!(fault(after(Use::Create, "a: b: c")).starts_with("parsing YAML document: "));
    assert_eq!(fault(after(Use::Create, r#"{"kind":"x"}"#)), "doc missing `apiVersion`");
    assert_eq!(fault(after(Use::Create, r#"{"apiVersion":"v1"}"#)), "doc missing `kind`");
    assert_eq!(
        fault(after(Use::Apply, CM).run.advance(served(None))),
        "apiVersion/kind `apps/v1/Deployment` not found in cluster"
    );
    assert_eq!(
        fault(after(Use::Apply, r#"{"apiVersion":"v1","kind":"Pod"}"#).run.advance(served(None))),
        "apiVersion/kind `v1/Pod` not found in cluster"
    );
    assert_eq!(
        fault(after(Use::Replace, CM).run.advance(served(None))),
        "apiVersion/kind not found in cluster"
    );
    let nameless = r#"{"apiVersion":"apps/v1","kind":"Deployment"}"#;
    assert_eq!(
        fault(after(Use::Apply, nameless).run.advance(served(deployment()))),
        "doc.metadata.name is required for apply"
    );
    assert_eq!(
        fault(after(Use::Replace, nameless).run.advance(served(deployment()))),
        "doc.metadata.name is required for replace"
    );
}

#[test]
fn a_deletion_takes_its_grace() {
    assert_eq!(grace(None, false), None);
    assert_eq!(grace(Some(30), false), Some(30));
    assert_eq!(grace(Some(30), true), Some(0));
    assert_eq!(grace(None, true), Some(0));
    for g in [0i64, -1, -2, i64::MIN, i64::MAX, 4294967296, 4294967297, -4294967296, -4294967297] {
        assert_eq!(grace(Some(g), false), Some(g as u32), "{g}");
    }
    let command = || Command::Delete {
        kind: "po".into(),
        name: "p".into(),
        namespace: None,
        grace_period: Some(5),
        force: false,
    };
    let (state, r) = requested(command(), None, None);
    assert!(matches!(r.call, Call::Delete { grace_period: Some(5), .. }));
    assert_eq!(
        printed(state.advance(Event::Deleting(json("1")))),
        "{\"object\":1,\"status\":\"Deleting\"}\n"
    );
    let (state, _) = requested(command(), None, None);
    assert_eq!(
        printed(state.advance(Event::Gone(json("2")))),
        "{\"details\":2,\"status\":\"Done\"}\n"
    );
    let (state, _) = requested(command(), None, None);
    assert_eq!(fault(state.advance(Event::Failed("x".into()))), "delete: x");
}

#[test]
fn a_scale_patches_the_replicas() {
    let command = Command::Scale {
        kind: "deploy".into(),
        name: "w".into(),
        replicas: -3,
        namespace: None,
    };
    let (state, r) = requested(command, None, None);
    match r.call {
        Call::PatchScale { name, doc } => {
            assert_eq!(name, "w");
            assert_eq!(export(&doc), value(r#"{"spec":{"replicas":-3}}"#));
        }
        _ => panic!("expected a scale"),
    }
    assert_eq!(fault(state.advance(Event::Failed("x".into()))), "patch_scale: x");
}

fn logs(follow: bool) -> Command {
    Command::Logs {
        pod: "p".into(),
        namespace: opt("ci"),
        options: LogOptions {
            container: opt("c"),
            tail: Some(1),
            since_seconds: Some(2),
            previous: true,
            follow,
            timestamps: true,
        },
    }
}

#[test]
fn logs_end_with_a_line_break() {
    let (state, r) = direct(logs(false));
    assert!(matches!(r.subject, Subject::Pods));
    assert_eq!(place_of(&r), "in ci");
    match r.call {
        Call::Logs { name, options } => {
            assert_eq!(name, "p");
            assert_eq!(options.container.as_deref(), Some("c"));
            assert_eq!((options.tail, options.since_seconds), (Some(1), Some(2)));
            assert!(options.previous && options.timestamps && !options.follow);
        }
        _ => panic!("expected a log"),
    }
    assert_eq!(printed(state.advance(Event::Text("a\nb".into()))), "a\nb\n");
    assert_eq!(printed(direct(logs(false)).0.advance(Event::Text("a\n".into()))), "a\n");
    assert_eq!(printed(direct(logs(false)).0.advance(Event::Text(String::new()))), "\n");
    assert_eq!(fault(direct(logs(false)).0.advance(Event::Failed("x".into()))), "logs: x");
}

/// A stream that has just been opened.
fn streaming(command: Command, opened: Event) -> Run {
    let turn = direct(command).0.advance(opened);
    assert!(matches!(turn.next, Move::Next(None)));
    turn.run
}

#[test]
fn followed_logs_are_printed_line_by_line() {
    let turn = streaming(logs(true), Event::Ready).advance(Event::Text("hi \"x\"".into()));
    match &turn.next {
        Move::Next(Some(s)) => assert_eq!(s, "{\"line\":\"hi \\\"x\\\"\"}\n"),
        _ => panic!("expected a line"),
    }
    assert_eq!(printed(turn.run.advance(Event::Ended)), "");
    let state = streaming(logs(true), Event::Ready);
    assert_eq!(fault(state.advance(Event::Failed("x".into()))), "log line: x");
    assert_eq!(fault(direct(logs(true)).0.advance(Event::Failed("x".into()))), "log_stream: x");
}

#[test]
fn changes_are_printed_as_they_come() {
    let command = Command::Watch {
        kind: "po".into(),
        namespace: None,
        label_selector: None,
        field_selector: opt("f"),
    };
    let (state, r) = requested(command, None, None);
    assert!(matches!(&r.call, Call::Watch(s) if s.field_selector.as_deref() == Some("f") && s.limit.is_none()));
    let mut turn = state.advance(Event::Ready);
    let changes = vec![
        (Change::Init, "{\"type\":\"INIT\"}\n"),
        (Change::InitApply(json("1")), "{\"object\":1,\"type\":\"INIT_APPLY\"}\n"),
        (Change::InitDone, "{\"type\":\"INIT_DONE\"}\n"),
        (Change::Apply(json("2")), "{\"object\":2,\"type\":\"APPLY\"}\n"),
        (Change::Delete(json("3")), "{\"object\":3,\"type\":\"DELETE\"}\n"),
    ];
    for (change, want) in changes {
        turn = turn.run.advance(Event::Change(change));
        match &turn.next {
            Move::Next(Some(s)) => assert_eq!(s, want),
            _ => panic!("expected a line"),
        }
    }
    assert_eq!(fault(turn.run.advance(Event::Failed("gone".into()))), "watcher: gone");
}

fn exec() -> Command {
    Command::Exec {
        pod: "p".into(),
        namespace: None,
        container: opt("c"),
        command: vec!["sh".into(), "-c".into()],
    }
}

#[test]
fn a_command_runs_until_its_output_ends() {
    let (_, r) = direct(exec());
    match r.call {
        Call::Exec { name, container, command } => {
            assert_eq!(name, "p");
            assert_eq!(container.as_deref(), Some("c"));
            assert_eq!(command, ["sh", "-c"]);
        }
        _ => panic!("expected a command"),
    }
    let chunk = |stderr, bytes: &[u8]| Event::Chunk { stderr, bytes: bytes.to_vec() };
    let turn = streaming(exec(), Event::Attached { stdout: true }).advance(chunk(false, b"a\xffb"));
    match &turn.next {
        Move::Next(Some(s)) => assert_eq!(s, "{\"data\":\"a\u{fffd}b\",\"stream\":\"stdout\"}\n"),
        _ => panic!("expected a line"),
    }
    let turn = turn.run.advance(chunk(true, "é".as_bytes()));
    match &turn.next {
        Move::Next(Some(s)) => assert_eq!(s, "{\"data\":\"é\",\"stream\":\"stderr\"}\n"),
        _ => panic!("expected a line"),
    }
    let turn = turn.run.advance(chunk(true, b""));
    assert!(matches!(turn.next, Move::Next(None)));
    let turn = turn.run.advance(chunk(false, b""));
    assert!(matches!(turn.next, Move::Join));
    assert_eq!(printed(turn.run.advance(Event::Ready)), "");
}

#[test]
fn a_command_that_cannot_be_read_fails() {
    assert_eq!(fault(direct(exec()).0.advance(Event::Failed("x".into()))), "exec: x");
    let deaf = direct(exec()).0.advance(Event::Attached { stdout: false });
    assert_eq!(fault(deaf), "no stdout on exec");
    for (stderr, want) in [(false, "exec stdout: x"), (true, "exec stderr: x")] {
        let state = streaming(exec(), Event::Attached { stdout: true });
        assert_eq!(fault(state.advance(Event::Broken { stderr, message: "x".into() })), want);
    }
    let state = streaming(exec(), Event::Attached { stdout: true });
    let turn = state.advance(Event::Chunk { stderr: false, bytes: vec![] });
    assert_eq!(fault(turn.run.advance(Event::Failed("x".into()))), "exec join: x");
}

#[test]
fn a_ping_answers_whether_the_server_did() {
    let version = |command| {
        let turn = connecting(command, None).advance(connected());
        assert!(matches!(turn.next, Move::ServerVersion));
        turn.run
    };
    assert_eq!(printed(version(Command::Ping).advance(Event::Document(json("1")))), "{\"ok\":true}\n");
    assert_eq!(printed(version(Command::Ping).advance(Event::Failed("x".into()))), "{\"ok\":false}\n");
    assert_eq!(printed(version(Command::Version).advance(Event::Document(json("1")))), "1\n");
    assert_eq!(fault(version(Command::Version).advance(Event::Failed("x".into()))), "apiserver_version: x");
    let refused = connecting(Command::Ping, None).advance(Event::Failed("bad url".into()));
    assert_eq!(fault(refused), "creating kube client: bad url");
}

#[test]
fn contexts_resources_and_namespaces_are_printed_as_lines() {
    let contexts = || {
        Event::Contexts(Contexts {
            entries: vec![ContextEntry {
                name: "dev".into(),
                cluster: opt("c"),
                user: opt("u"),
                namespace: None,
            }],
            current: opt("dev"),
        })
    };
    let first = run(Command::Contexts, None, None, None);
    assert!(matches!(first.next, Move::ReadContexts));
    assert_eq!(
        printed(first.run.advance(contexts())),
        "{\"cluster\":\"c\",\"current\":true,\"name\":\"dev\",\"namespace\":null,\"user\":\"u\"}\n"
    );
    assert_eq!(
        printed(run(Command::CurrentContext, None, None, None).run.advance(contexts())),
        "{\"current_context\":\"dev\"}\n"
    );
    let turn = connecting(Command::ApiResources, None).advance(connected());
    let event = Event::Discovered(Discovered {
        exact: None,
        recommended: vec![found("", "Node", "nodes", Scope::Cluster)],
    });
    assert_eq!(
        printed(turn.run.advance(event)),
        "{\"group\":\"\",\"kind\":\"Node\",\"namespaced\":false,\"plural\":\"nodes\",\"verbs\":[\"list\"],\"version\":\"v1\"}\n"
    );
    let (state, r) = direct(Command::Namespaces);
    assert!(matches!(r.subject, Subject::Namespaces));
    let items = vec![
        json(r#"{"metadata":{"name":"a"},"status":{"phase":"Active"}}"#),
        json(r#"{"metadata":{"generateName":"g-","labels":{"k":"v"}}}"#),
        json("{}"),
    ];
    assert_eq!(
        printed(state.advance(Event::Listed(items))),
        "{\"labels\":{},\"name\":\"a\",\"status\":\"Active\"}\n\
         {\"labels\":{\"k\":\"v\"},\"name\":\"g-\",\"status\":\"\"}\n\
         {\"labels\":{},\"name\":\"\",\"status\":\"\"}\n"
    );
    assert_eq!(fault(direct(Command::Namespaces).0.advance(Event::Failed("x".into()))), "list ns: x");
}

#[test]
fn a_fault_is_printed_with_the_name_of_the_program() {
    assert_eq!(fault_line(&OpError::new("list: x")), "stryke-k8s-helper: list: x");
    let out_of_turn = run(Command::Version, None, None, None).run.advance(Event::Ended);
    assert_eq!(fault(out_of_turn), "unexpected answer");
}

#[test]
fn a_connection_uses_the_context_of_the_command_line() {
    let usual = run(Command::Version, None, opt("prod"), None);
    assert!(matches!(
        &usual.next,
        Move::Configure(Source::UsualPlaces { context: Some(c) }) if c == "prod"
    ));
    let explicit = run(Command::Version, opt("kc"), opt("prod"), None).run;
    assert!(matches!(
        &explicit.advance(Event::Input(KUBECONFIG.into())).next,
        Move::Configure(Source::Text { text, context: Some(c) }) if c == "prod" && text == KUBECONFIG
    ));
}

#[test]
fn a_connection_falls_back_to_the_pod() {
    let first = run(Command::Version, None, None, None);
    let second = first.run.advance(Event::Failed("no file".into()));
    assert!(matches!(second.next, Move::Configure(Source::InCluster)));
    assert_eq!(
        fault(second.run.advance(Event::Failed("no account".into()))),
        "no kubeconfig and not in-cluster: no account"
    );
    let first = run(Command::Version, None, None, None);
    let second = first.run.advance(Event::Failed("no file".into()));
    assert!(matches!(second.run.advance(Event::Ready).next, Move::Connect));
}

const KUBECONFIG: &str = "apiVersion: v1
kind: Config
current-context: prod
clusters: []
users: []
contexts:
- name: dev
  context:
    cluster: c1
    user: u1
    namespace: team
- name: prod
  context:
    cluster: c2
- name: bare
";

#[test]
fn a_text_that_is_no_kubeconfig_is_a_fault() {
    for command in [Command::Ping, Command::Contexts, Command::CurrentContext] {
        let second = run(command, opt("kc"), None, None).run.advance(Event::Input("contexts: 7".into()));
        let said = fault(second);
        assert!(said.starts_with("parsing kubeconfig: contexts: invalid type"), "{said}");
    }
    let file = || run(Command::CurrentContext, opt("kc"), None, None).run;
    let said = fault(file().kubeconfig_read("x".into(), Err("bad".into())));
    assert_eq!(said, "parsing kubeconfig: bad");
    let held = Contexts { entries: vec![], current: opt("x") };
    assert_eq!(printed(file().kubeconfig_read("x".into(), Ok(held))), "{\"current_context\":\"x\"}\n");
    let held = Contexts { entries: vec![], current: None };
    let next = run(Command::Version, opt("kc"), None, None).run.kubeconfig_read("raw".into(), Ok(held)).next;
    assert!(matches!(&next, Move::Configure(Source::Text { text, context: None }) if text == "raw"));
}

#[test]
fn an_explicit_kubeconfig_is_read_and_taken() {
    let start = |command| {
        let first = run(command, opt("/tmp/kc"), None, None);
        assert!(matches!(&first.next, Move::ReadFile(p) if p == "/tmp/kc"));
        first.run
    };
    let read = |command| start(command).advance(Event::Input(KUBECONFIG.into()));
    assert_eq!(fault(start(Command::Ping).advance(Event::Failed("gone".into()))), "reading kubeconfig /tmp/kc: gone");
    assert_eq!(printed(read(Command::CurrentContext)), "{\"current_context\":\"prod\"}\n");
    assert_eq!(
        printed(read(Command::Contexts)),
        "{\"cluster\":\"c1\",\"current\":false,\"name\":\"dev\",\"namespace\":\"team\",\"user\":\"u1\"}\n\
         {\"cluster\":\"c2\",\"current\":true,\"name\":\"prod\",\"namespace\":null,\"user\":null}\n\
         {\"cluster\":null,\"current\":false,\"name\":\"bare\",\"namespace\":null,\"user\":null}\n"
    );
    let second = read(Command::Ping);
    assert!(matches!(&second.next, Move::Configure(Source::Text { text, context: None }) if text == KUBECONFIG));
    assert!(matches!(second.run.advance(Event::Ready).next, Move::Connect));
    assert_eq!(
        fault(read(Command::Ping).run.advance(Event::Failed("no context".into()))),
        "building config from custom kubeconfig: no context"
    );
    assert_eq!(
        fault(run(Command::Contexts, None, None, None).run.advance(Event::Failed("none".into()))),
        "reading kubeconfig from default search path: none"
    );
}

#[test]
fn every_word_for_pods_resolves_alike() {
    let pods = || found("", "Pod", "pods", Scope::Namespaced);
    let d = Discovered {
        exact: Some(pods()),
        recommended: vec![
            found("", "Node", "nodes", Scope::Cluster),
            pods(),
            found("metrics.k8s.io", "PodMetrics", "podmetrics", Scope::Namespaced),
        ],
    };
    for word in ["pod", "pods", "po", "v1/Pod", "/v1/Pod", "POD", "Po"] {
        let (r, scope) = resolve_kind(&d, word).unwrap();
        assert_eq!((r.group.as_str(), r.version.as_str()), ("", "v1"), "{word}");
        assert_eq!((r.kind.as_str(), r.plural.as_str()), ("Pod", "pods"), "{word}");
        assert!(matches!(scope, Scope::Namespaced));
    }
}
