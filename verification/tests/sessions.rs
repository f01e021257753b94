use serde_json::Value;
use stryke_k8s::cluster::{
    ApiResource, Call, ContextEntry, Contexts, Discovered, Event, EventRecord, Found, Merge, Place,
    Request, Scope, Subject,
};
use stryke_k8s::codec::{export, import};
use stryke_k8s::error::OpError;
use stryke_k8s::exports;
use stryke_k8s::json::Json;
use stryke_k8s::session::{call_in_form, Action, Connection, Session, Step};

fn value(text: &str) -> Value {
    serde_json::from_str(text).unwrap()
}

fn json(text: &str) -> Json {
    import(value(text))
}

fn found(group: &str, version: &str, kind: &str, plural: &str, scope: Scope) -> Found {
    Found {
        resource: ApiResource {
            group: group.into(),
            version: version.into(),
            api_version: if group.is_empty() { version.into() } else { format!("{group}/{version}") },
            kind: kind.into(),
            plural: plural.into(),
        },
        scope,
        verbs: vec!["get".to_string(), "list".to_string()],
    }
}

fn pod() -> Found {
    found("", "v1", "Pod", "pods", Scope::Namespaced)
}

fn served(exact: Option<Found>) -> Event {
    Event::Discovered(Discovered {
        exact,
        recommended: vec![
            found("", "v1", "Node", "nodes", Scope::Cluster),
            pod(),
            found("apps", "v1", "Deployment", "deployments", Scope::Namespaced),
            found("apps", "v1", "ReplicaSet", "replicasets", Scope::Namespaced),
            found("autoscaling", "v2", "HorizontalPodAutoscaler", "horizontalpodautoscalers", Scope::Namespaced),
        ],
    })
}

fn on(session: Session, event: Event) -> Step {
    session.advance(event)
}

fn connected() -> Event {
    Event::Connected { namespace: "team".to_string() }
}

/// The request that an operation makes on a discovered kind.
fn requested(begin: fn(Option<&[u8]>) -> Step, args: &str) -> (Session, Request) {
    let first = begin(Some(args.as_bytes()));
    assert!(matches!(first.action, Action::Connect(_)));
    let second = on(first.session, connected());
    assert!(matches!(second.action, Action::Discover(_)));
    let third = on(second.session, served(None));
    match third.action {
        Action::Perform(r) => (third.session, r),
        _ => panic!("expected a request"),
    }
}

/// The request that an operation makes without discovery.
fn direct(begin: fn(Option<&[u8]>) -> Step, args: &str) -> (Session, Request) {
    let first = begin(Some(args.as_bytes()));
    assert!(matches!(first.action, Action::Connect(_)));
    let second = on(first.session, connected());
    match second.action {
        Action::Perform(r) => (second.session, r),
        _ => panic!("expected a request"),
    }
}

fn end(step: Step) -> Result<Value, String> {
    match step.action {
        Action::Finish(Ok(j)) => Ok(export(&j)),
        Action::Finish(Err(e)) => Err(e.message),
        _ => panic!("expected an end"),
    }
}

fn kind_of(r: &Request) -> &str {
    match &r.subject {
        Subject::Resource(a) => &a.kind,
        _ => panic!("expected a discovered kind"),
    }
}

fn place_of(r: &Request) -> String {
    match &r.place {
        Place::Everywhere => "everywhere".to_string(),
        Place::Namespace(ns) => format!("in {ns}"),
        Place::DefaultNamespace => "default".to_string(),
    }
}

#[test]
fn bad_arguments_are_answered_before_any_connection() {
    let cases: [(fn(Option<&[u8]>) -> Step, &str, &str); 16] = [
        (exports::k8s__label, r#"{"name":"x"}"#, "missing kind"),
        (exports::k8s__label, r#"{"kind":"pod"}"#, "missing name"),
        (exports::k8s__label, r#"{"kind":"pod","name":"x","labels":[]}"#, "missing labels (an object of key => value)"),
        (exports::k8s__annotate, r#"{"kind":"pod","name":"x"}"#, "missing annotations (an object of key => value)"),
        (exports::k8s__cordon, "{}", "missing name (node)"),
        (exports::k8s__uncordon, "{}", "missing name (node)"),
        (exports::k8s__set_image, r#"{"name":"w"}"#, "missing container"),
        (exports::k8s__set_image, r#"{"name":"w","container":"c"}"#, "missing image"),
        (exports::k8s__rollout_restart, "{}", "missing name"),
        (exports::k8s__rollout_status, "{}", "missing name"),
        (exports::k8s__rollout_history, "{}", "missing name"),
        (exports::k8s__evict, r#"{"namespace":"n"}"#, "missing name (pod)"),
        (exports::k8s__evict, r#"{"name":"p"}"#, "missing namespace"),
        (exports::k8s__autoscale, r#"{"max":3}"#, "missing target_name"),
        (exports::k8s__autoscale, r#"{"target_name":"w"}"#, "missing max (maxReplicas)"),
        (exports::k8s__taint, r#"{"name":"n"}"#, "missing key"),
    ];
    for (begin, args, want) in cases {
        assert_eq!(end(begin(Some(args.as_bytes()))), Err(want.to_string()), "{args}");
    }
    assert_eq!(
        end(exports::k8s__patch(Some(br#"{"kind":"deploy","name":"web","patch":1,"type":"json"}"#))),
        Err("unknown patch type `json` (want merge|strategic)".to_string())
    );
    assert_eq!(end(exports::k8s__wait(Some(b"not json"))), Err("missing kind".to_string()));
    assert_eq!(end(exports::k8s__wait(None)), Err("missing kind".to_string()));
}

#[test]
fn bad_arguments_of_the_other_operations_are_answered_after_the_connection() {
    let cases: [(fn(Option<&[u8]>) -> Step, &str, &str); 12] = [
        (exports::k8s__get, "{}", "missing kind"),
        (exports::k8s__get_one, r#"{"kind":"pod"}"#, "missing name"),
        (exports::k8s__create, "{}", "doc.kind missing"),
        (exports::k8s__replace, r#"{"doc":{"metadata":{"name":"x"}}}"#, "doc.kind missing"),
        (exports::k8s__replace, r#"{"doc":{"kind":"Pod"}}"#, "doc.metadata.name missing"),
        (exports::k8s__apply, r#"{"doc":{"kind":"Pod","metadata":{}}}"#, "doc.metadata.name missing"),
        (exports::k8s__apply, r#"{"doc":{}}"#, "doc.kind missing"),
        (exports::k8s__delete, r#"{"kind":"pod"}"#, "missing name"),
        (exports::k8s__scale, r#"{"kind":"deploy","name":"w"}"#, "missing replicas"),
        (exports::k8s__scale, r#"{"kind":"deploy","name":"w","replicas":2.0}"#, "missing replicas"),
        (exports::k8s__logs, "{}", "missing pod"),
        (exports::k8s__logs, r#"{"pod":"p"}"#, "missing namespace"),
    ];
    for (begin, args, want) in cases {
        let first = begin(Some(args.as_bytes()));
        assert!(matches!(first.action, Action::Connect(_)), "{args}");
        assert_eq!(end(on(first.session, connected())), Err(want.to_string()), "{args}");
    }
}

#[test]
fn a_context_is_asked_for_by_name() {
    match exports::k8s__ping(Some(br#"{"context":"prod"}"#)).action {
        Action::Connect(Connection::Named(c)) => assert_eq!(c, "prod"),
        _ => panic!("expected a named connection"),
    }
    assert!(matches!(
        exports::k8s__ping(Some(br#"{"context":"_default"}"#)).action,
        Action::Connect(Connection::Default)
    ));
    assert!(matches!(exports::k8s__ping(None).action, Action::Connect(Connection::Default)));
}

#[test]
fn every_word_for_a_kind_works() {
    for word in ["pod", "pods", "po", "Pod", "PODS", "PO", "v1/Pod", "/v1/Pod"] {
        let args = format!("{{\"kind\":\"{word}\"}}");
        let first = exports::k8s__get(Some(args.as_bytes()));
        let second = on(first.session, connected());
        let exact = match second.action {
            Action::Discover(Some(g)) => {
                assert_eq!((g.group.as_str(), g.version.as_str(), g.kind.as_str()), ("", "v1", "Pod"));
                Some(pod())
            }
            Action::Discover(None) => None,
            _ => panic!("expected discovery"),
        };
        match on(second.session, served(exact)).action {
            Action::Perform(r) => assert_eq!(kind_of(&r), "Pod", "{word}"),
            _ => panic!("expected a request for {word}"),
        }
    }
}

#[test]
fn an_unknown_kind_is_answered_as_such() {
    for word in ["gizmo", "example.com/v1/Gizmo"] {
        let args = format!("{{\"kind\":\"{word}\"}}");
        let first = exports::k8s__get(Some(args.as_bytes()));
        let second = on(first.session, connected());
        assert_eq!(end(on(second.session, served(None))), Err(format!("unknown kind: {word}")));
    }
}

#[test]
fn a_strict_kind_is_asked_for_in_full() {
    let first = exports::k8s__get(Some(br#"{"kind":"apps/v1/Deployment"}"#));
    match on(first.session, connected()).action {
        Action::Discover(Some(g)) => {
            assert_eq!(g.group, "apps");
            assert_eq!(g.version, "v1");
            assert_eq!(g.kind, "Deployment");
        }
        _ => panic!("expected discovery of a kind"),
    }
}

#[test]
fn get_lists_with_selectors_and_a_cut_limit() {
    let (session, r) = requested(
        exports::k8s__get,
        r#"{"kind":"pods","namespace":"ci","label_selector":"app=web","field_selector":"status.phase=Running","limit":4294967301}"#,
    );
    assert_eq!(place_of(&r), "in ci");
    match r.call {
        Call::List(s) => {
            assert_eq!(s.label_selector.as_deref(), Some("app=web"));
            assert_eq!(s.field_selector.as_deref(), Some("status.phase=Running"));
            assert_eq!(s.limit, Some(5));
        }
        _ => panic!("expected a list"),
    }
    let items = vec![json(r#"{"a":1}"#), json("[2]")];
    assert_eq!(end(on(session, Event::Listed(items))), Ok(value(r#"{"items":[{"a":1},[2]]}"#)));
}

#[test]
fn places_follow_the_scope_of_the_kind() {
    assert_eq!(place_of(&requested(exports::k8s__get, r#"{"kind":"no","namespace":"x"}"#).1), "everywhere");
    assert_eq!(place_of(&requested(exports::k8s__get, r#"{"kind":"po","namespace":"x"}"#).1), "in x");
    assert_eq!(place_of(&requested(exports::k8s__get, r#"{"kind":"po"}"#).1), "default");
}

#[test]
fn get_one_answers_null_for_an_absent_object() {
    let args = r#"{"kind":"pod","name":"p"}"#;
    let (session, r) = requested(exports::k8s__get_one, args);
    assert!(matches!(&r.call, Call::GetIfAny(n) if n == "p"));
    assert_eq!(end(on(session, Event::Perhaps(None))), Ok(Value::Null));
    let (session, _) = requested(exports::k8s__get_one, args);
    assert_eq!(end(on(session, Event::Perhaps(Some(json("{}"))))), Ok(value("{}")));
}

#[test]
fn documents_go_where_they_say() {
    let doc = r#"{"doc":{"apiVersion":"apps/v1","kind":"Deployment","metadata":{"name":"web","namespace":"ci"},"n":1}}"#;
    let (_, r) = requested(exports::k8s__create, doc);
    assert_eq!(place_of(&r), "in ci");
    match r.call {
        Call::Create(d) => assert_eq!(export(&d), value(doc)["doc"]),
        _ => panic!("expected a creation"),
    }
    let (_, r) = requested(exports::k8s__replace, doc);
    match r.call {
        Call::Replace { name, doc: d } => {
            assert_eq!(name, "web");
            assert_eq!(export(&d), value(doc)["doc"]);
        }
        _ => panic!("expected a replacement"),
    }
    let (session, r) = requested(exports::k8s__apply, doc);
    match r.call {
        Call::Patch { name, merge: Merge::Apply { manager, force }, doc: d } => {
            assert_eq!(name, "web");
            assert_eq!(manager, "stryke-k8s");
            assert!(force);
            assert_eq!(export(&d), value(doc)["doc"]);
        }
        _ => panic!("expected a server-side apply"),
    }
    assert_eq!(end(on(session, Event::Document(json("[1]")))), Ok(value("[1]")));
}

#[test]
fn patches_are_merged_as_asked() {
    let (_, r) = requested(exports::k8s__patch, r#"{"kind":"deploy","name":"w","patch":{"a":null}}"#);
    match r.call {
        Call::Patch { name, merge, doc } => {
            assert_eq!(name, "w");
            assert!(matches!(merge, Merge::Json));
            assert_eq!(export(&doc), value(r#"{"a":null}"#));
        }
        _ => panic!("expected a patch"),
    }
    let (_, r) = requested(
        exports::k8s__patch,
        r#"{"kind":"deploy","name":"w","patch":{},"type":"strategic"}"#,
    );
    assert!(matches!(r.call, Call::Patch { merge: Merge::Strategic, .. }));
}

fn patch_of(r: Request) -> (String, bool, Value) {
    match r.call {
        Call::Patch { name, merge, doc } => (name, matches!(merge, Merge::Strategic), export(&doc)),
        Call::PatchScale { name, doc } => (name, false, export(&doc)),
        _ => panic!("expected a patch"),
    }
}

#[test]
fn scaling_labelling_and_marking_patch_what_they_say() {
    let (_, r) = requested(exports::k8s__scale, r#"{"kind":"deploy","name":"w","replicas":-1}"#);
    assert!(matches!(r.call, Call::PatchScale { .. }));
    assert_eq!(patch_of(r), ("w".to_string(), false, value(r#"{"spec":{"replicas":-1}}"#)));
    let (_, r) = requested(exports::k8s__label, r#"{"kind":"po","name":"p","labels":{"a":"b","c":null}}"#);
    assert_eq!(
        patch_of(r),
        ("p".to_string(), false, value(r#"{"metadata":{"labels":{"a":"b","c":null}}}"#))
    );
    let (_, r) = requested(exports::k8s__annotate, r#"{"kind":"po","name":"p","annotations":{}}"#);
    assert_eq!(patch_of(r), ("p".to_string(), false, value(r#"{"metadata":{"annotations":{}}}"#)));
    let (_, r) = direct(exports::k8s__cordon, r#"{"name":"n"}"#);
    assert!(matches!(r.subject, Subject::Nodes));
    assert_eq!(patch_of(r), ("n".to_string(), false, value(r#"{"spec":{"unschedulable":true}}"#)));
    let (_, r) = direct(exports::k8s__uncordon, r#"{"name":"n"}"#);
    assert_eq!(patch_of(r), ("n".to_string(), false, value(r#"{"spec":{"unschedulable":false}}"#)));
    let (_, r) = requested(exports::k8s__set_image, r#"{"name":"w","container":"c","image":"i:1"}"#);
    assert_eq!(kind_of(&r), "Deployment");
    assert_eq!(
        patch_of(r),
        (
            "w".to_string(),
            true,
            value(r#"{"spec":{"template":{"spec":{"containers":[{"name":"c","image":"i:1"}]}}}}"#)
        )
    );
}

#[test]
fn a_restart_carries_its_time() {
    for (clock, stamp) in [(Some(1700000000123456789u128), "1700000000123456789"), (None, "0"), (Some(0), "0")] {
        let first = exports::k8s__rollout_restart(Some(br#"{"name":"w","namespace":"ci"}"#));
        let second = on(first.session, connected());
        let third = on(second.session, served(None));
        assert!(matches!(third.action, Action::ReadClock));
        match on(third.session, Event::Clock(clock)).action {
            Action::Perform(r) => {
                assert_eq!(place_of(&r), "in ci");
                let want = format!(
                    "{{\"spec\":{{\"template\":{{\"metadata\":{{\"annotations\":{{\"kubectl.kubernetes.io/restartedAt\":\"{stamp}\"}}}}}}}}}}"
                );
                assert_eq!(patch_of(r), ("w".to_string(), true, value(&want)));
            }
            _ => panic!("expected a patch"),
        }
    }
}

#[test]
fn deletions_and_statuses_are_answered_in_their_shapes() {
    let args = r#"{"kind":"po","name":"p"}"#;
    let (session, r) = requested(exports::k8s__delete, args);
    assert!(matches!(r.call, Call::Delete { grace_period: None, .. }));
    assert_eq!(end(on(session, Event::Deleting(json("1")))), Ok(value(r#"{"deleted":1}"#)));
    let (session, _) = requested(exports::k8s__delete, args);
    assert_eq!(end(on(session, Event::Gone(json("2")))), Ok(value(r#"{"status":2}"#)));
    let (session, _) = requested(exports::k8s__rollout_status, r#"{"name":"w"}"#);
    assert_eq!(
        end(on(session, Event::Document(json(r#"{"status":{"replicas":3}}"#)))),
        Ok(value(r#"{"status":{"replicas":3}}"#))
    );
    let (session, _) = requested(exports::k8s__rollout_status, r#"{"name":"w"}"#);
    assert_eq!(end(on(session, Event::Document(json("{}")))), Ok(value(r#"{"status":null}"#)));
}

#[test]
fn logs_are_read_with_their_options() {
    let (session, r) = direct(
        exports::k8s__logs,
        r#"{"pod":"p","namespace":"ci","container":"c","tail":100}"#,
    );
    assert!(matches!(r.subject, Subject::Pods));
    assert_eq!(place_of(&r), "in ci");
    match r.call {
        Call::Logs { name, options } => {
            assert_eq!(name, "p");
            assert_eq!(options.container.as_deref(), Some("c"));
            assert_eq!(options.tail, Some(100));
            assert!(!options.follow && !options.previous && !options.timestamps);
        }
        _ => panic!("expected a log"),
    }
    assert_eq!(end(on(session, Event::Text("a\nb".into()))), Ok(value(r#"{"logs":"a\nb"}"#)));
}

#[test]
fn events_are_listed_for_one_object() {
    let (session, r) = direct(exports::k8s__events, r#"{"name":"p","limit":3}"#);
    assert_eq!(place_of(&r), "everywhere");
    match r.call {
        Call::List(s) => {
            assert_eq!(s.field_selector.as_deref(), Some("involvedObject.name=p"));
            assert_eq!(s.limit, Some(3));
        }
        _ => panic!("expected a list"),
    }
    let records = vec![EventRecord {
        event_type: Some("Warning".into()),
        reason: None,
        message: Some("m".into()),
        count: Some(-2),
        object: Some("p".into()),
        kind: Some("Pod".into()),
        last_timestamp: Some("2024-01-01T00:00:00+00:00".into()),
    }];
    assert_eq!(
        end(on(session, Event::Records(records))),
        Ok(value(
            r#"{"events":[{"type":"Warning","reason":null,"message":"m","count":-2,"object":"p",
                "kind":"Pod","last_timestamp":"2024-01-01T00:00:00+00:00"}]}"#
        ))
    );
    assert_eq!(place_of(&direct(exports::k8s__events, r#"{"namespace":"ci"}"#).1), "in ci");
}

#[test]
fn metrics_are_fetched_from_their_paths() {
    let path = |begin: fn(Option<&[u8]>) -> Step, args: &str| {
        let first = begin(Some(args.as_bytes()));
        match on(first.session, connected()).action {
            Action::Fetch(p) => p,
            _ => panic!("expected a fetch"),
        }
    };
    assert_eq!(path(exports::k8s__top_pods, "{}"), "/apis/metrics.k8s.io/v1beta1/pods");
    assert_eq!(
        path(exports::k8s__top_pods, r#"{"namespace":"ci"}"#),
        "/apis/metrics.k8s.io/v1beta1/namespaces/ci/pods"
    );
    assert_eq!(path(exports::k8s__top_nodes, "{}"), "/apis/metrics.k8s.io/v1beta1/nodes");
    let first = exports::k8s__top_nodes(None);
    let second = on(first.session, connected());
    assert_eq!(
        end(on(second.session, Event::Document(json(r#"{"items":[1]}"#)))),
        Ok(value(r#"{"items":[1]}"#))
    );
    let first = exports::k8s__top_nodes(None);
    let second = on(first.session, connected());
    assert_eq!(end(on(second.session, Event::Document(json("{}")))), Ok(value(r#"{"items":null}"#)));
}

fn evicting() -> (Session, String, Value) {
    let first = exports::k8s__evict(Some(br#"{"name":"p","namespace":"ci"}"#));
    let second = on(first.session, connected());
    match second.action {
        Action::Post { path, body } => (second.session, path, value(&body)),
        _ => panic!("expected a post"),
    }
}

#[test]
fn an_eviction_counts_as_made_once_it_is_sent() {
    let (session, path, body) = evicting();
    assert_eq!(path, "/api/v1/namespaces/ci/pods/p/eviction");
    assert_eq!(
        body,
        value(
            r#"{"apiVersion":"policy/v1","kind":"Eviction","metadata":{"name":"p","namespace":"ci"}}"#
        )
    );
    let done = Ok(value(r#"{"ok":true,"evicted":"p"}"#));
    assert_eq!(end(on(session, Event::Document(json("{}")))), done);
    assert_eq!(end(on(evicting().0, Event::Failed("too many requests".into()))), done);
    assert_eq!(end(on(evicting().0, Event::Unsent("bad uri".into()))), Err("bad uri".to_string()));
}

fn waiting(args: &str) -> Session {
    let first = exports::k8s__wait(Some(args.as_bytes()));
    let second = on(first.session, connected());
    let third = on(second.session, served(None));
    assert!(matches!(third.action, Action::SetDeadline(_)));
    let fourth = on(third.session, Event::Ready);
    assert!(matches!(&fourth.action, Action::Perform(r) if matches!(r.call, Call::GetIfAny(_))));
    fourth.session
}

const READY: &str = r#"{"status":{"conditions":[{"type":"Ready","status":"True"}]}}"#;

#[test]
fn a_wait_ends_when_its_condition_holds() {
    let args = r#"{"kind":"pod","name":"p"}"#;
    assert_eq!(
        end(on(waiting(args), Event::Perhaps(Some(json(READY))))),
        Ok(value(r#"{"ok":true,"condition":"Ready"}"#))
    );
    let unmet = on(waiting(args), Event::Perhaps(None));
    assert!(matches!(unmet.action, Action::CheckDeadline));
    let rest = on(unmet.session, Event::Overdue(false));
    assert!(matches!(rest.action, Action::Pause(2)));
    let again = on(rest.session, Event::Ready);
    assert!(matches!(&again.action, Action::Perform(r) if matches!(&r.call, Call::GetIfAny(n) if n == "p")));
    let unmet = on(again.session, Event::Perhaps(Some(json("{}"))));
    assert_eq!(
        end(on(unmet.session, Event::Overdue(true))),
        Err("wait: timed out after 300s waiting for pod/p condition Ready".to_string())
    );
}

#[test]
fn a_wait_for_deletion_ends_when_the_object_is_gone() {
    let args = r#"{"kind":"pod","name":"p","condition":"Delete","timeout":7}"#;
    assert_eq!(
        end(on(waiting(args), Event::Perhaps(None))),
        Ok(value(r#"{"ok":true,"condition":"delete"}"#))
    );
    let unmet = on(waiting(args), Event::Perhaps(Some(json(READY))));
    assert_eq!(
        end(on(unmet.session, Event::Overdue(true))),
        Err("wait: timed out after 7s waiting for pod/p condition Delete".to_string())
    );
}

#[test]
fn the_history_is_newest_first_and_stable() {
    let (session, r) = requested(exports::k8s__rollout_history, r#"{"name":"web"}"#);
    assert_eq!(kind_of(&r), "ReplicaSet");
    let rs = |name: &str, owner: &str, revision: &str| {
        json(&format!(
            "{{\"metadata\":{{\"name\":\"{name}\",\"creationTimestamp\":\"t\",
                \"annotations\":{{\"deployment.kubernetes.io/revision\":\"{revision}\"}},
                \"ownerReferences\":[{{\"kind\":\"Deployment\",\"name\":\"{owner}\"}}]}},
              \"spec\":{{\"replicas\":1}}}}"
        ))
    };
    let items = vec![
        rs("a", "web", "2"),
        rs("b", "other", "9"),
        rs("c", "web", "10"),
        rs("d", "web", "oops"),
        rs("e", "web", "2"),
        json("{}"),
        rs("f", "web", "-1"),
    ];
    let reply = end(on(session, Event::Listed(items))).unwrap();
    assert_eq!(reply["name"], Value::String("web".into()));
    let names: Vec<&str> = reply["revisions"]
        .as_array()
        .unwrap()
        .iter()
        .map(|r| r["name"].as_str().unwrap())
        .collect();
    assert_eq!(names, ["c", "a", "e", "d", "f"]);
    assert_eq!(
        reply["revisions"][0],
        value(r#"{"name":"c","revision":"10","created":"t","replicas":1}"#)
    );
}

#[test]
fn objects_are_created_and_replaced_in_their_form() {
    let doc = r#"{"doc":{"apiVersion":"apps/v1","kind":"Deployment","metadata":{"name":"web","other":1},"n":null}}"#;
    let form = value(r#"{"apiVersion":"apps/v1","kind":"Deployment","metadata":{"name":"web"},"n":null}"#);
    match requested(exports::k8s__create, doc).1.call {
        Call::Create(d) => assert_eq!(export(&d), form),
        _ => panic!("expected a creation"),
    }
    match requested(exports::k8s__replace, doc).1.call {
        Call::Replace { name, doc: d } => assert_eq!((name.as_str(), export(&d)), ("web", form)),
        _ => panic!("expected a replacement"),
    }
    // An apply sends the document itself.
    match requested(exports::k8s__apply, doc).1.call {
        Call::Patch { doc: d, .. } => assert_eq!(export(&d), value(doc)["doc"]),
        _ => panic!("expected a server-side apply"),
    }
    match call_in_form(Call::Create(json("1")), Ok(json("2"))) {
        Ok(Call::Create(d)) => assert_eq!(export(&d), value("2")),
        _ => panic!("expected a creation"),
    }
    let refused = call_in_form(Call::Create(json("1")), Err(OpError::new("no object")));
    assert_eq!(refused.err().unwrap().message, "no object");
    let other = call_in_form(Call::Get("a".into()), Err(OpError::new("no object")));
    assert!(matches!(other, Ok(Call::Get(n)) if n == "a"));
}

#[test]
fn a_document_that_describes_no_object_is_refused() {
    let doc = br#"{"doc":{"apiVersion":"apps/v1","kind":"Deployment","metadata":{"name":"web","labels":7}}}"#;
    for begin in [exports::k8s__create, exports::k8s__replace] {
        let second = on(begin(Some(doc)).session, connected());
        let said = end(on(second.session, served(None))).unwrap_err();
        assert!(said.starts_with("invalid type: integer `7`"), "{said}");
    }
}

#[test]
fn an_autoscaler_is_described_in_full() {
    let (_, r) = requested(
        exports::k8s__autoscale,
        r#"{"target_name":"web","max":5,"namespace":"ci","cpu_percent":60}"#,
    );
    assert_eq!(place_of(&r), "in ci");
    match r.call {
        Call::Create(doc) => assert_eq!(
            export(&doc),
            value(
                r#"{"apiVersion":"autoscaling/v2","kind":"HorizontalPodAutoscaler",
                    "metadata":{"name":"web","namespace":"ci"},
                    "spec":{"scaleTargetRef":{"apiVersion":"apps/v1","kind":"Deployment","name":"web"},
                        "minReplicas":1,"maxReplicas":5,
                        "metrics":[{"type":"Resource","resource":{"name":"cpu",
                            "target":{"type":"Utilization","averageUtilization":60}}}]}}"#
            )
        ),
        _ => panic!("expected a creation"),
    }
    let (_, r) = requested(exports::k8s__autoscale, r#"{"target_name":"web","max":5,"name":"h","min":2}"#);
    match r.call {
        Call::Create(doc) => {
            let d = export(&doc);
            assert_eq!(d["metadata"], value(r#"{"name":"h"}"#));
            assert_eq!(d["spec"]["minReplicas"], value("2"));
            assert_eq!(
                d["spec"]["metrics"][0]["resource"]["target"]["averageUtilization"],
                value("80")
            );
        }
        _ => panic!("expected a creation"),
    }
}

fn tainting(args: &str, node: &str) -> (Session, Value) {
    let (session, r) = direct(exports::k8s__taint, args);
    assert!(matches!(&r.call, Call::Get(n) if n == "n"));
    let second = on(session, Event::Document(json(node)));
    match second.action {
        Action::Perform(r) => {
            let (name, strategic, doc) = patch_of(r);
            assert_eq!(name, "n");
            assert!(!strategic);
            (second.session, doc)
        }
        _ => panic!("expected a patch"),
    }
}

#[test]
fn a_taint_replaces_those_of_its_key() {
    let node = r#"{"spec":{"taints":[{"key":"a","effect":"NoExecute"},{"key":"b"},{"key":"a"},7]}}"#;
    let (session, doc) = tainting(r#"{"name":"n","key":"a","value":"v"}"#, node);
    assert_eq!(
        doc,
        value(r#"{"spec":{"taints":[{"key":"b"},7,{"key":"a","effect":"NoSchedule","value":"v"}]}}"#)
    );
    assert_eq!(end(on(session, Event::Document(json("3")))), Ok(value("3")));
    let (_, doc) = tainting(r#"{"name":"n","key":"a","remove":true}"#, node);
    assert_eq!(doc, value(r#"{"spec":{"taints":[{"key":"b"},7]}}"#));
    let (_, doc) = tainting(r#"{"name":"n","key":"a","effect":"E"}"#, "{}");
    assert_eq!(doc, value(r#"{"spec":{"taints":[{"key":"a","effect":"E"}]}}"#));
    let (_, doc) = tainting(r#"{"name":"n","key":"a","remove":true}"#, "{}");
    assert_eq!(doc, value(r#"{"spec":{"taints":[]}}"#));
}

#[test]
fn contexts_are_listed_without_a_connection() {
    let contexts = || {
        Event::Contexts(Contexts {
            entries: vec![
                ContextEntry {
                    name: "dev".into(),
                    cluster: Some("c".into()),
                    user: None,
                    namespace: Some("ns".into()),
                },
                ContextEntry { name: "prod".into(), cluster: None, user: None, namespace: None },
            ],
            current: Some("prod".into()),
        })
    };
    let first = exports::k8s__contexts(None);
    assert!(matches!(first.action, Action::ReadContexts));
    assert_eq!(
        end(on(first.session, contexts())),
        Ok(value(
            r#"{"contexts":[
                {"name":"dev","cluster":"c","user":null,"namespace":"ns","current":false},
                {"name":"prod","cluster":null,"user":null,"namespace":null,"current":true}]}"#
        ))
    );
    let first = exports::k8s__current_context(None);
    assert_eq!(end(on(first.session, contexts())), Ok(value(r#"{"context":"prod"}"#)));
    let first = exports::k8s__current_context(None);
    let none = Event::Contexts(Contexts { entries: vec![], current: None });
    assert_eq!(end(on(first.session, none)), Ok(value(r#"{"context":null}"#)));
}

#[test]
fn versions_resources_and_namespaces_are_answered_in_their_shapes() {
    let version = || Event::Document(json(r#"{"gitVersion":"v1.32.0","platform":"p"}"#));
    let step = on(exports::k8s__version(None).session, connected());
    assert!(matches!(step.action, Action::ServerVersion));
    assert_eq!(
        end(on(step.session, version())),
        Ok(value(r#"{"gitVersion":"v1.32.0","platform":"p"}"#))
    );
    let step = on(exports::k8s__ping(None).session, connected());
    assert_eq!(end(on(step.session, version())), Ok(value(r#"{"ok":true,"version":"v1.32.0"}"#)));
    let step = on(exports::k8s__api_resources(None).session, connected());
    assert!(matches!(step.action, Action::Discover(None)));
    let event = Event::Discovered(Discovered {
        exact: None,
        recommended: vec![found("", "v1", "Node", "nodes", Scope::Cluster), pod()],
    });
    assert_eq!(
        end(on(step.session, event)),
        Ok(value(
            r#"{"resources":[
                {"group":"","version":"v1","kind":"Node","plural":"nodes","namespaced":false,"verbs":["get","list"]},
                {"group":"","version":"v1","kind":"Pod","plural":"pods","namespaced":true,"verbs":["get","list"]}]}"#
        ))
    );
    let (session, r) = direct(exports::k8s__namespaces, "{}");
    assert!(matches!(r.subject, Subject::Namespaces));
    let items = vec![
        json(r#"{"metadata":{"name":"a","labels":{"x":"y"}},"status":{"phase":"Active"}}"#),
        json(r#"{"metadata":{}}"#),
        json(r#"{"metadata":{"name":"b"}}"#),
    ];
    assert_eq!(
        end(on(session, Event::Listed(items))),
        Ok(value(
            r#"{"namespaces":[{"name":"a","status":"Active","labels":{"x":"y"}},{"name":"b","status":"","labels":{}}]}"#
        ))
    );
}

#[test]
fn a_failure_is_the_answer() {
    let first = exports::k8s__get(Some(br#"{"kind":"po"}"#));
    assert_eq!(end(on(first.session, Event::Failed("no route".into()))), Err("no route".to_string()));
    let (session, _) = requested(exports::k8s__get, r#"{"kind":"po"}"#);
    assert_eq!(end(on(session, Event::Failed("403".into()))), Err("403".to_string()));
    let first = exports::k8s__get(Some(br#"{"kind":"po"}"#));
    let ended = on(first.session, Event::Ready);
    assert_eq!(end(ended), Err("unexpected answer".to_string()));
}
