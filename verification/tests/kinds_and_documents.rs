use serde_json::Value;
use stryke_k8s::cluster::ApiResource;
use stryke_k8s::codec::{emit_ndjson, export, import, read_doc};
use stryke_k8s::json::Json;
use stryke_k8s::resource::{expand_shortname, extract_gvk, resource_matches};

fn value(text: &str) -> Value {
    serde_json::from_str(text).unwrap()
}

fn json(text: &str) -> Json {
    import(value(text))
}

fn read(text: &str) -> Value {
    export(&read_doc(text).unwrap())
}

#[test]
fn expand_shortname_common_kubectl_aliases() {
    assert_eq!(expand_shortname("po"), Some("pods"));
    assert_eq!(expand_shortname("svc"), Some("services"));
    assert_eq!(expand_shortname("deploy"), Some("deployments"));
    assert_eq!(expand_shortname("rs"), Some("replicasets"));
    assert_eq!(expand_shortname("ds"), Some("daemonsets"));
    assert_eq!(expand_shortname("sts"), Some("statefulsets"));
    assert_eq!(expand_shortname("cm"), Some("configmaps"));
    assert_eq!(expand_shortname("ns"), Some("namespaces"));
    assert_eq!(expand_shortname("no"), Some("nodes"));
    assert_eq!(expand_shortname("pvc"), Some("persistentvolumeclaims"));
    assert_eq!(expand_shortname("pv"), Some("persistentvolumes"));
    assert_eq!(expand_shortname("sa"), Some("serviceaccounts"));
    assert_eq!(expand_shortname("crd"), Some("customresourcedefinitions"));
    assert_eq!(expand_shortname("cj"), Some("cronjobs"));
}

#[test]
fn expand_shortname_unknown_returns_none() {
    assert_eq!(expand_shortname("pods"), None); // already canonical
    assert_eq!(expand_shortname("Pod"), None); // case-sensitive
    assert_eq!(expand_shortname(""), None);
    assert_eq!(expand_shortname("xyz"), None);
}

#[test]
fn expand_shortname_case_sensitive() {
    // kubectl shortnames are lowercase-only; mixed case must not match.
    assert_eq!(expand_shortname("PO"), None);
    assert_eq!(expand_shortname("Po"), None);
    assert_eq!(expand_shortname("PVC"), None);
}

fn ar(group: &str, version: &str, kind: &str, plural: &str) -> ApiResource {
    ApiResource {
        group: group.into(),
        version: version.into(),
        api_version: if group.is_empty() {
            version.into()
        } else {
            format!("{group}/{version}")
        },
        kind: kind.into(),
        plural: plural.into(),
    }
}

#[test]
fn matches_on_kind_lowercase() {
    let r = ar("", "v1", "Pod", "pods");
    assert!(resource_matches(&r, "pod"));
}

#[test]
fn matches_on_plural() {
    let r = ar("", "v1", "Pod", "pods");
    assert!(resource_matches(&r, "pods"));
}

#[test]
fn matches_kind_plus_s_singular_alias() {
    // The fallback rule: if user asks for "configmaps" and the kind is
    // "ConfigMap" but plural is unknown, we still match. Pin the rule.
    let r = ar("", "v1", "Service", "services");
    // services is plural; "service" matches via kind-lowercase rule.
    assert!(resource_matches(&r, "service"));
}

#[test]
fn matches_rejects_unrelated_string() {
    let r = ar("", "v1", "Pod", "pods");
    assert!(!resource_matches(&r, "podx"));
    assert!(!resource_matches(&r, ""));
    assert!(!resource_matches(&r, "node"));
}

#[test]
fn read_doc_json_object() {
    let v = read(r#"{"apiVersion":"v1","kind":"Pod"}"#);
    assert_eq!(v["apiVersion"], value("\"v1\""));
    assert_eq!(v["kind"], value("\"Pod\""));
}

#[test]
fn read_doc_json_array() {
    let v = read("[1,2,3]");
    assert!(v.is_array());
    assert_eq!(v.as_array().unwrap().len(), 3);
}

#[test]
fn read_doc_yaml_when_not_starting_with_brace_or_bracket() {
    let yaml = "apiVersion: v1\nkind: Pod\nmetadata:\n  name: foo\n";
    let v = read(yaml);
    assert_eq!(v["apiVersion"], value("\"v1\""));
    assert_eq!(v["kind"], value("\"Pod\""));
    assert_eq!(v["metadata"]["name"], value("\"foo\""));
}

#[test]
fn read_doc_json_with_leading_whitespace() {
    // trim_start checks the first non-ws char, so leading newline/spaces
    // before '{' still routes to the JSON path.
    let v = read("\n  \n{\"k\":1}");
    assert_eq!(v["k"], value("1"));
}

#[test]
fn read_doc_invalid_input_errors() {
    let err = read_doc("{not json").unwrap_err();
    assert!(err.message.to_lowercase().contains("parsing"));
}

#[test]
fn extract_gvk_core_v1() {
    let doc = json(r#"{"apiVersion":"v1","kind":"Pod"}"#);
    let g = extract_gvk(&doc).unwrap();
    assert_eq!(g.group, "");
    assert_eq!(g.version, "v1");
    assert_eq!(g.kind, "Pod");
}

#[test]
fn extract_gvk_apps_v1() {
    let doc = json(r#"{"apiVersion":"apps/v1","kind":"Deployment"}"#);
    let g = extract_gvk(&doc).unwrap();
    assert_eq!(g.group, "apps");
    assert_eq!(g.version, "v1");
    assert_eq!(g.kind, "Deployment");
}

#[test]
fn extract_gvk_missing_apiversion_errors() {
    let doc = json(r#"{"kind":"Pod"}"#);
    let err = extract_gvk(&doc).unwrap_err();
    assert!(err.message.contains("apiVersion"));
}

#[test]
fn extract_gvk_missing_kind_errors() {
    let doc = json(r#"{"apiVersion":"v1"}"#);
    let err = extract_gvk(&doc).unwrap_err();
    assert!(err.message.contains("kind"));
}

#[test]
fn extract_gvk_apiversion_not_string_errors() {
    let doc = json(r#"{"apiVersion":123,"kind":"Pod"}"#);
    let err = extract_gvk(&doc).unwrap_err();
    // as_str returns None for non-string → same "missing" message.
    assert!(err.message.contains("apiVersion"));
}

#[test]
fn emit_ndjson_appends_newline() {
    let mut buf = String::new();
    emit_ndjson(&mut buf, &json(r#"{"k": 1}"#)).unwrap();
    assert_eq!(buf, "{\"k\":1}\n");
}

#[test]
fn emit_ndjson_multi_call_line_count() {
    let mut buf = String::new();
    for i in 0..3 {
        emit_ndjson(&mut buf, &json(&format!("{{\"i\": {i}}}"))).unwrap();
    }
    let s = buf;
    assert_eq!(s.lines().count(), 3);
}

#[test]
fn expand_shortname_ingress_and_endpoints() {
    assert_eq!(expand_shortname("ing"), Some("ingresses"));
    assert_eq!(expand_shortname("ep"), Some("endpoints"));
}

#[test]
fn expand_shortname_hpa_and_cronjob() {
    assert_eq!(expand_shortname("hpa"), Some("horizontalpodautoscalers"));
    assert_eq!(expand_shortname("cj"), Some("cronjobs"));
}

#[test]
fn matches_on_api_version_group_form() {
    let r = ar("apps", "v1", "Deployment", "deployments");
    assert!(resource_matches(&r, "deployments"));
    assert!(resource_matches(&r, "deployment"));
}

#[test]
fn matches_rejects_wrong_kind() {
    let r = ar("batch", "v1", "Job", "jobs");
    assert!(!resource_matches(&r, "cronjob"));
}

#[test]
fn extract_gvk_beta_api_version() {
    let doc = json(r#"{"apiVersion":"batch/v1beta1","kind":"CronJob"}"#);
    let g = extract_gvk(&doc).unwrap();
    assert_eq!(g.group, "batch");
    assert_eq!(g.version, "v1beta1");
    assert_eq!(g.kind, "CronJob");
}

#[test]
fn read_doc_yaml_list_still_parses() {
    let yaml = "- item: 1\n";
    let v = read(yaml);
    assert!(v.is_array());
}

#[test]
fn extract_gvk_empty_kind_string_accepted() {
    // Present but empty — not treated as missing; pins liberal behavior.
    let doc = json(r#"{"apiVersion":"v1","kind":""}"#);
    let g = extract_gvk(&doc).unwrap();
    assert_eq!(g.kind, "");
}

#[test]
fn expand_shortname_netpol_and_sc() {
    assert_eq!(expand_shortname("netpol"), Some("networkpolicies"));
    assert_eq!(expand_shortname("sc"), Some("storageclasses"));
}

#[test]
fn expand_shortname_limits_and_quota() {
    assert_eq!(expand_shortname("limits"), Some("limitranges"));
    assert_eq!(expand_shortname("quota"), Some("resourcequotas"));
}

#[test]
fn matches_singular_alias_adds_s_to_kind() {
    let r = ar("", "v1", "Pod", "pods");
    assert!(resource_matches(&r, "pods"));
    assert!(resource_matches(&r, "pod"));
}

#[test]
fn matches_kind_case_insensitive() {
    let r = ar("", "v1", "ConfigMap", "configmaps");
    assert!(resource_matches(&r, "configmap"));
}

#[test]
fn extract_gvk_core_group_empty() {
    let doc = json(r#"{"apiVersion":"v1","kind":"Service"}"#);
    let g = extract_gvk(&doc).unwrap();
    assert_eq!(g.group, "");
    assert_eq!(g.version, "v1");
    assert_eq!(g.kind, "Service");
}

#[test]
fn read_doc_json_array_root() {
    let v = read("[{\"a\":1}]");
    assert!(v.is_array());
}

#[test]
fn matches_rejects_plural_with_extra_suffix() {
    let r = ar("", "v1", "Pod", "pods");
    assert!(!resource_matches(&r, "podss"));
}

#[test]
fn expand_shortname_pdb() {
    assert_eq!(expand_shortname("pdb"), Some("poddisruptionbudgets"));
}

#[test]
fn expand_shortname_ev_and_cs() {
    assert_eq!(expand_shortname("ev"), Some("events"));
    assert_eq!(expand_shortname("cs"), Some("componentstatuses"));
}

#[test]
fn expand_shortname_pc_priorityclass() {
    assert_eq!(expand_shortname("pc"), Some("priorityclasses"));
}

#[test]
fn matches_on_plural_exact() {
    let r = ar("apps", "v1", "Deployment", "deployments");
    assert!(resource_matches(&r, "deployments"));
}

#[test]
fn extract_gvk_apiextensions_group() {
    let doc = json(r#"{"apiVersion":"apiextensions.k8s.io/v1","kind":"CustomResourceDefinition"}"#);
    let g = extract_gvk(&doc).unwrap();
    assert_eq!(g.group, "apiextensions.k8s.io");
    assert_eq!(g.kind, "CustomResourceDefinition");
}

#[test]
fn read_doc_yaml_mapping() {
    let yaml = "apiVersion: v1\nkind: ConfigMap\nmetadata:\n  name: cfg\n";
    let v = read(yaml);
    assert_eq!(v["kind"], value("\"ConfigMap\""));
    assert_eq!(v["metadata"]["name"], value("\"cfg\""));
}

#[test]
fn matches_kind_exact_case_folded() {
    let r = ar("", "v1", "ServiceAccount", "serviceaccounts");
    assert!(resource_matches(&r, "serviceaccount"));
}

#[test]
fn extract_gvk_unversioned_string_becomes_core_group() {
    // kube GroupVersion treats a lone segment as core API version (no group).
    let doc = json(r#"{"apiVersion":"not-valid","kind":"Pod"}"#);
    let g = extract_gvk(&doc).unwrap();
    assert_eq!(g.group, "");
    assert_eq!(g.version, "not-valid");
    assert_eq!(g.kind, "Pod");
}

#[test]
fn extract_gvk_networking_group() {
    let doc = json(r#"{"apiVersion":"networking.k8s.io/v1","kind":"Ingress"}"#);
    let g = extract_gvk(&doc).unwrap();
    assert_eq!(g.group, "networking.k8s.io");
    assert_eq!(g.kind, "Ingress");
}

#[test]
fn read_doc_json_null_literal() {
    let v = read("null");
    assert!(v.is_null());
}

#[test]
fn matches_job_plural_and_singular() {
    let r = ar("batch", "v1", "Job", "jobs");
    assert!(resource_matches(&r, "jobs"));
    assert!(resource_matches(&r, "job"));
}

#[test]
fn extract_gvk_kind_missing_errors() {
    let doc = json(r#"{"apiVersion":"v1"}"#);
    assert!(extract_gvk(&doc).is_err());
}

#[test]
fn matches_rejects_empty_selector() {
    let r = ar("", "v1", "Pod", "pods");
    assert!(!resource_matches(&r, ""));
}

#[test]
fn extract_gvk_alpha_version_segment() {
    let doc =
        json(r#"{"apiVersion":"certificates.k8s.io/v1alpha1","kind":"CertificateSigningRequest"}"#);
    let g = extract_gvk(&doc).unwrap();
    assert_eq!(g.version, "v1alpha1");
}

#[test]
fn emit_ndjson_preserves_unicode_key() {
    let mut buf = String::new();
    emit_ndjson(&mut buf, &json(r#"{"名前": "値"}"#)).unwrap();
    let s = buf;
    assert!(s.contains("名前") || s.contains("\\u"));
}

#[test]
fn expand_shortname_pv_only() {
    assert_eq!(expand_shortname("pv"), Some("persistentvolumes"));
}

#[test]
fn expand_shortname_sa_serviceaccount() {
    assert_eq!(expand_shortname("sa"), Some("serviceaccounts"));
}

#[test]
fn expand_shortname_crd() {
    assert_eq!(expand_shortname("crd"), Some("customresourcedefinitions"));
}

#[test]
fn matches_statefulset_plural() {
    let r = ar("apps", "v1", "StatefulSet", "statefulsets");
    assert!(resource_matches(&r, "statefulset"));
}

#[test]
fn extract_gvk_storage_group() {
    let doc = json(r#"{"apiVersion":"storage.k8s.io/v1","kind":"StorageClass"}"#);
    let g = extract_gvk(&doc).unwrap();
    assert_eq!(g.group, "storage.k8s.io");
    assert_eq!(g.kind, "StorageClass");
}

#[test]
fn read_doc_json_number_root() {
    let v = read("42");
    assert_eq!(v, value("42"));
}

#[test]
fn matches_cronjob_kind_alias() {
    let r = ar("batch", "v1", "CronJob", "cronjobs");
    assert!(resource_matches(&r, "cronjob"));
}

#[test]
fn emit_ndjson_scalar_string() {
    let mut buf = String::new();
    emit_ndjson(&mut buf, &json("\"line\"")).unwrap();
    assert_eq!(buf, "\"line\"\n");
}

#[test]
fn extract_gvk_kind_non_string_errors() {
    let doc = json(r#"{"apiVersion":"v1","kind":123}"#);
    assert!(extract_gvk(&doc).is_err());
}

#[test]
fn expand_shortname_ing_ingress() {
    assert_eq!(expand_shortname("ing"), Some("ingresses"));
}

#[test]
fn expand_shortname_hpa() {
    assert_eq!(expand_shortname("hpa"), Some("horizontalpodautoscalers"));
}

#[test]
fn matches_service_plural() {
    let r = ar("", "v1", "Service", "services");
    assert!(resource_matches(&r, "services"));
}

#[test]
fn extract_gvk_autoscaling_group() {
    let doc = json(r#"{"apiVersion":"autoscaling/v2","kind":"HorizontalPodAutoscaler"}"#);
    let g = extract_gvk(&doc).unwrap();
    assert_eq!(g.group, "autoscaling");
}

#[test]
fn read_doc_json_bool_root() {
    assert!(read("true").is_boolean());
}

#[test]
fn matches_rejects_unrelated_kind() {
    let r = ar("", "v1", "Pod", "pods");
    assert!(!resource_matches(&r, "service"));
}

#[test]
fn emit_ndjson_number_scalar() {
    let mut buf = String::new();
    emit_ndjson(&mut buf, &json("99")).unwrap();
    assert_eq!(buf, "99\n");
}

#[test]
fn extract_gvk_coordination_lease() {
    let doc = json(r#"{"apiVersion":"coordination.k8s.io/v1","kind":"Lease"}"#);
    let g = extract_gvk(&doc).unwrap();
    assert_eq!(g.kind, "Lease");
}

#[test]
fn expand_shortname_cj_cronjobs() {
    assert_eq!(expand_shortname("cj"), Some("cronjobs"));
}

#[test]
fn expand_shortname_netpol() {
    assert_eq!(expand_shortname("netpol"), Some("networkpolicies"));
}

#[test]
fn expand_shortname_sc_storageclass() {
    assert_eq!(expand_shortname("sc"), Some("storageclasses"));
}

#[test]
fn read_doc_yaml_list_root() {
    let v = read("- a\n- b\n");
    assert!(v.is_array());
}

#[test]
fn extract_gvk_batch_cronjob() {
    let doc = json(r#"{"apiVersion":"batch/v1","kind":"CronJob"}"#);
    let g = extract_gvk(&doc).unwrap();
    assert_eq!(g.group, "batch");
}

#[test]
fn emit_ndjson_object_line() {
    let mut buf = String::new();
    emit_ndjson(&mut buf, &json(r#"{"k": 1}"#)).unwrap();
    assert_eq!(buf, "{\"k\":1}\n");
}

#[test]
fn expand_shortname_ep_endpoints() {
    assert_eq!(expand_shortname("ep"), Some("endpoints"));
}

#[test]
fn expand_shortname_all_25_kubectl_aliases_round_trip() {
    let expected: &[(&str, &str)] = &[
        ("po", "pods"),
        ("svc", "services"),
        ("deploy", "deployments"),
        ("rs", "replicasets"),
        ("ds", "daemonsets"),
        ("sts", "statefulsets"),
        ("cm", "configmaps"),
        ("ns", "namespaces"),
        ("no", "nodes"),
        ("ing", "ingresses"),
        ("ep", "endpoints"),
        ("ev", "events"),
        ("pv", "persistentvolumes"),
        ("pvc", "persistentvolumeclaims"),
        ("sa", "serviceaccounts"),
        ("pdb", "poddisruptionbudgets"),
        ("hpa", "horizontalpodautoscalers"),
        ("crd", "customresourcedefinitions"),
        ("cs", "componentstatuses"),
        ("limits", "limitranges"),
        ("quota", "resourcequotas"),
        ("netpol", "networkpolicies"),
        ("pc", "priorityclasses"),
        ("sc", "storageclasses"),
        ("cj", "cronjobs"),
    ];
    for (short, long) in expected {
        assert_eq!(
            expand_shortname(short),
            Some(*long),
            "shortname `{short}` should expand to `{long}`"
        );
    }
}

#[test]
fn expand_shortname_full_names_pass_through_as_none() {
    // The function only expands aliases — passing the canonical
    // long form must return None so the caller falls through to
    // the unmodified `&lower`.
    assert!(expand_shortname("pods").is_none());
    assert!(expand_shortname("services").is_none());
    assert!(expand_shortname("deployments").is_none());
}
