use serde_json::Value;
use stryke_k8s::answer::condition_is_true;
use stryke_k8s::codec::{encode_reply, export, import, panic_reply};
use stryke_k8s::error::OpError;
use stryke_k8s::exports::{k8s__patch, k8s__pkg_version};
use stryke_k8s::json::Json;
use stryke_k8s::names::{op_valid_label_value, op_valid_name};
use stryke_k8s::quantity::{
    format_reply, op_format_quantity, op_parse_quantity, Scale,
};
use stryke_k8s::resource::op_parse_resource_ref;
use stryke_k8s::selector::{op_build_selector, op_parse_selector, op_selector_matches};
use stryke_k8s::session::{choose_connection, Action};

const VERSION: &str = "0.2.1";

fn value(text: &str) -> Value {
    serde_json::from_str(text).unwrap()
}

fn json(text: &str) -> Json {
    import(value(text))
}

fn text(s: &str) -> Value {
    Value::String(s.to_string())
}

/// An object with one text member.
fn with(name: &str, s: &str) -> Json {
    Json::blank().with(name, Json::of_text(s))
}

fn answer(r: Result<Json, OpError>) -> Result<Value, String> {
    match r {
        Ok(j) => Ok(export(&j)),
        Err(e) => Err(e.message),
    }
}

fn extract_kind_and_ns(opts: &Json) -> (Option<String>, Option<String>) {
    (opts.text_at("kind"), opts.text_at("namespace"))
}

#[test]
fn opts_kind_extracted_when_present() {
    let opts = json(r#"{"kind": "Pod", "namespace": "kube-system"}"#);
    assert_eq!(
        extract_kind_and_ns(&opts),
        (Some("Pod".to_string()), Some("kube-system".to_string()))
    );
}

#[test]
fn opts_kind_absent_when_missing() {
    let opts = json(r#"{"name": "foo"}"#);
    assert_eq!(extract_kind_and_ns(&opts), (None, None));
}

#[test]
fn opts_kind_absent_when_non_string() {
    let opts = json(r#"{"kind": 42, "namespace": null}"#);
    assert_eq!(extract_kind_and_ns(&opts), (None, None));
}

#[test]
fn opts_kind_only_namespace_missing() {
    let opts = json(r#"{"kind": "Node"}"#);
    assert_eq!(extract_kind_and_ns(&opts), (Some("Node".to_string()), None));
}

#[test]
fn opts_kind_empty_string_is_some() {
    let opts = json(r#"{"kind": ""}"#);
    assert_eq!(extract_kind_and_ns(&opts), (Some(String::new()), None));
}

fn resolve_context(opts: &str) -> String {
    choose_connection(&json(opts)).key()
}

#[test]
fn resolve_context_missing_is_default_sentinel() {
    assert_eq!(resolve_context("{}"), "_default");
    assert_eq!(resolve_context(r#"{"namespace": "kube-system"}"#), "_default");
}

#[test]
fn resolve_context_non_string_falls_back_to_default() {
    assert_eq!(resolve_context(r#"{"context": 42}"#), "_default");
    assert_eq!(resolve_context(r#"{"context": true}"#), "_default");
    assert_eq!(resolve_context(r#"{"context": null}"#), "_default");
    assert_eq!(resolve_context(r#"{"context": {"name": "x"}}"#), "_default");
}

#[test]
fn resolve_context_empty_string_is_not_default_sentinel() {
    let r = resolve_context(r#"{"context": ""}"#);
    assert_eq!(r, "");
    assert_ne!(
        r, "_default",
        "empty context must not collapse to the default sentinel"
    );
}

#[test]
fn resolve_context_named_context_passthrough() {
    assert_eq!(resolve_context(r#"{"context": "prod-us-east"}"#), "prod-us-east");
    assert_eq!(resolve_context(r#"{"context": "prod_default"}"#), "prod_default");
}

fn extract_replicas(opts: &str) -> Option<i64> {
    json(opts).integer_at("replicas")
}

#[test]
fn extract_replicas_rejects_float_and_string() {
    assert_eq!(extract_replicas(r#"{"replicas": 3}"#), Some(3));
    assert_eq!(
        extract_replicas(r#"{"replicas": 3.0}"#),
        None,
        "integral-valued float must NOT coerce to i64 — strict integer only"
    );
    assert_eq!(
        extract_replicas(r#"{"replicas": "3"}"#),
        None,
        "numeric string is not an i64"
    );
    assert_eq!(extract_replicas("{}"), None, "missing replicas is None");
}

#[test]
fn extract_replicas_passes_zero_and_negative_through() {
    assert_eq!(extract_replicas(r#"{"replicas": 0}"#), Some(0));
    assert_eq!(
        extract_replicas(r#"{"replicas": -1}"#),
        Some(-1),
        "negative replicas are forwarded verbatim; the server validates the range"
    );
}

#[test]
fn pkg_version_ffi_roundtrip_with_null_args() {
    let v = value(&k8s__pkg_version(None, VERSION));
    assert_eq!(v["version"], text(VERSION));
    assert!(v.get("error").is_none(), "success path must not carry an `error` field, got: {v}");
}

#[test]
fn ffi_call_async_traps_handler_panic() {
    let v = value(&panic_reply());
    assert_eq!(v["error"], text("stryke-k8s handler panicked"));
}

#[test]
fn ffi_call_async_malformed_json_args_falls_back_to_null() {
    let bad = br#"{"context": "kube-system",}"#;
    let v = value(&k8s__pkg_version(Some(&bad[..]), VERSION));
    assert_eq!(v["version"], text(VERSION));
    assert!(v.get("error").is_none(), "malformed JSON args must not poison the success path; got: {v}");
}

#[test]
fn ffi_call_async_non_utf8_args_falls_back_to_null() {
    let bytes = vec![0xFFu8, b'{', b'}'];
    let v = value(&k8s__pkg_version(Some(&bytes), VERSION));
    assert_eq!(v["version"], text(VERSION));
}

#[test]
fn ffi_call_async_handler_err_produces_error_envelope() {
    let v = value(&encode_reply(Err(OpError::new("missing kind"))));
    assert_eq!(v["error"], text("missing kind"));
    assert!(v.get("version").is_none() && v.get("Err").is_none());
}

#[test]
fn ffi_call_async_empty_cstring_args_falls_back_to_null() {
    let v = value(&k8s__pkg_version(Some(&[]), VERSION));
    assert_eq!(v["version"], text(VERSION));
    assert!(v.get("error").is_none());
}

#[test]
fn ffi_call_async_unicode_roundtrips_through_cstring_boundary() {
    let payload = "한국어 + 😀 + 👨\u{200D}💻";
    let reply = encode_reply(Ok(
        Json::blank()
            .with("text", Json::of_text(payload))
            .with("embedded_nul_test", Json::of_text("a\u{0}b")),
    ));
    assert!(!reply.contains('\u{0}'));
    let v = value(&reply);
    assert_eq!(v["text"], text(payload));
    assert_eq!(v["embedded_nul_test"], text("a\u{0}b"));
}

#[test]
fn ffi_call_async_singleton_runtime_handles_repeated_calls() {
    for i in 0..10 {
        let v = value(&k8s__pkg_version(None, VERSION));
        assert_eq!(v["version"], text(VERSION), "iteration {i}");
        assert!(v.get("error").is_none(), "iteration {i}");
    }
}

#[test]
fn condition_is_true_matches_type_and_exact_true_status() {
    let obj = json(
        r#"{"status": {"conditions": [
            {"type": "Progressing", "status": "True"},
            {"type": "Available", "status": "False"},
            {"type": "Ready", "status": "True"}
        ]}}"#,
    );
    assert!(condition_is_true(&obj, "Ready"));
    assert!(condition_is_true(&obj, "ready"), "type match is case-insensitive");
    assert!(!condition_is_true(&obj, "Available"), "status False must not pass");
    assert!(!condition_is_true(&obj, "Nonexistent"));
}

#[test]
fn condition_is_true_false_when_no_conditions() {
    assert!(!condition_is_true(&json("{}"), "Ready"));
    assert!(!condition_is_true(&json(r#"{"status": {}}"#), "Ready"));
    // A lowercase "true" status is not the sentinel and must fail.
    let obj = json(r#"{"status": {"conditions": [{"type": "Ready", "status": "true"}]}}"#);
    assert!(!condition_is_true(&obj, "Ready"), "only exact \"True\" counts");
}

#[test]
fn patch_validates_args_before_connecting() {
    let cases = [
        (r#"{}"#, "missing kind"),
        (r#"{"kind":"deploy"}"#, "missing name"),
        (r#"{"kind":"deploy","name":"web"}"#, "missing patch"),
        (
            r#"{"kind":"deploy","name":"web","patch":{"x":1},"type":"json"}"#,
            "unknown patch type",
        ),
    ];
    for (arg, want) in cases {
        let err = match k8s__patch(Some(arg.as_bytes())).action {
            Action::Finish(Err(e)) => e.message,
            _ => panic!("expected an end for {arg}"),
        };
        assert!(err.contains(want), "expected `{want}` for {arg}; got: {err}");
    }
}

#[test]
fn valid_name_subdomain_and_label_modes() {
    let check = |opts: Json| answer(op_valid_name(&opts)).unwrap();
    assert_eq!(check(with("name", "my-app.v2"))["valid"], Value::Bool(true));
    // Dots are illegal in label mode.
    let lbl = check(json(r#"{"name": "my.app", "mode": "label"}"#));
    assert_eq!(lbl["valid"], Value::Bool(false));
    assert!(lbl["reason"].as_str().unwrap().contains("'-'"));
    // Uppercase, leading dash, and over-length all fail.
    assert_eq!(check(with("name", "MyApp"))["valid"], Value::Bool(false));
    assert_eq!(check(with("name", "-bad"))["valid"], Value::Bool(false));
    let long = check(with("name", &"a".repeat(64)).with("mode", Json::of_text("label")));
    assert_eq!(long["valid"], Value::Bool(false));
    assert!(long["reason"].as_str().unwrap().contains("63"));
}

#[test]
fn valid_label_value_follows_apimachinery_rules() {
    let check = |v: &str| answer(op_valid_label_value(&with("value", v))).unwrap();
    let ok = |v: &str| check(v)["valid"].as_bool().unwrap();
    // Empty is valid; uppercase / underscore / dot are allowed (unlike names).
    assert!(ok(""), "empty label value is valid");
    assert!(ok("Production"), "uppercase allowed");
    assert!(ok("v1.2.3"));
    assert!(ok("my_value-1"));
    assert!(ok("a"), "single alphanumeric");
    // Must start/end alphanumeric; only the allowed punctuation; at most 63 chars.
    for (v, want) in [
        ("-bad", "begin and end"),
        ("bad-", "begin and end"),
        (".dotstart", "begin and end"),
        ("has space", "alphanumerics"),
        ("a/b", "alphanumerics"),
    ] {
        let r = check(v);
        assert_eq!(r["valid"], Value::Bool(false), "{v} should be invalid");
        assert!(
            r["reason"].as_str().unwrap().contains(want),
            "{v}: reason `{}` should mention `{want}`",
            r["reason"]
        );
    }
    // 63 is the max; 64 fails.
    assert!(ok(&"a".repeat(63)));
    let long = check(&"a".repeat(64));
    assert_eq!(long["valid"], Value::Bool(false));
    assert!(long["reason"].as_str().unwrap().contains("63"));
}

#[test]
fn parse_selector_equality_and_existence() {
    let v = answer(op_parse_selector(&with(
        "selector",
        "app=nginx,tier!=frontend,!canary,ready",
    )))
    .unwrap();
    let reqs = v["requirements"].as_array().unwrap();
    assert_eq!(reqs.len(), 4);
    assert_eq!(reqs[0], value(r#"{"key": "app", "op": "Equal", "value": "nginx"}"#));
    assert_eq!(reqs[1], value(r#"{"key": "tier", "op": "NotEqual", "value": "frontend"}"#));
    assert_eq!(reqs[2], value(r#"{"key": "canary", "op": "DoesNotExist"}"#));
    assert_eq!(reqs[3], value(r#"{"key": "ready", "op": "Exists"}"#));
}

#[test]
fn parse_selector_set_based_keeps_paren_commas_together() {
    // The comma inside (prod,staging) must NOT split the requirement.
    let v = answer(op_parse_selector(&with(
        "selector",
        "env in (prod,staging),tier notin (db)",
    )))
    .unwrap();
    let reqs = v["requirements"].as_array().unwrap();
    assert_eq!(reqs.len(), 2, "set-based commas stay inside their requirement");
    assert_eq!(reqs[0]["op"], text("In"));
    assert_eq!(reqs[0]["values"], value(r#"["prod", "staging"]"#));
    assert_eq!(reqs[1]["op"], text("NotIn"));
    assert_eq!(reqs[1]["values"], value(r#"["db"]"#));
}

#[test]
fn build_selector_inverts_parse_selector() {
    // Every operator form round-trips: equality, inequality, set-based, existence.
    let reqs = json(
        r#"{"requirements": [
            {"key": "app", "op": "Equal", "value": "nginx"},
            {"key": "tier", "op": "NotEqual", "value": "frontend"},
            {"key": "env", "op": "In", "values": ["prod", "staging"]},
            {"key": "zone", "op": "NotIn", "values": ["db"]},
            {"key": "canary", "op": "Exists"},
            {"key": "legacy", "op": "DoesNotExist"}
        ]}"#,
    );
    let built = answer(op_build_selector(&reqs)).unwrap();
    let sel = built["selector"].as_str().unwrap().to_string();
    assert_eq!(
        sel,
        "app=nginx,tier!=frontend,env in (prod,staging),zone notin (db),canary,!legacy"
    );
    // Round-trip back through parse_selector reproduces the requirement set.
    let back = answer(op_parse_selector(&with("selector", &sel))).unwrap();
    let rs = back["requirements"].as_array().unwrap();
    assert_eq!(rs.len(), 6);
    assert_eq!(rs[0]["op"], text("Equal"));
    assert_eq!(rs[2]["values"], value(r#"["prod", "staging"]"#));
    assert_eq!(rs[5]["op"], text("DoesNotExist"));
    assert_eq!(back, export(&reqs));
    // Unknown op and missing values are rejected.
    assert!(op_build_selector(&json(r#"{"requirements": [{"key": "x", "op": "Bogus"}]}"#)).is_err());
    assert!(op_build_selector(&json(r#"{"requirements": [{"key": "x", "op": "In"}]}"#)).is_err());
}

#[test]
fn selector_matches_follows_apimachinery_semantics() {
    let m = |sel: &str| {
        let opts = json(r#"{"labels": {"app": "nginx", "tier": "frontend", "env": "prod"}}"#)
            .with("selector", Json::of_text(sel));
        answer(op_selector_matches(&opts)).unwrap()["matches"].as_bool().unwrap()
    };
    // Equality / inequality.
    assert!(m("app=nginx"), "Equal: matching value");
    assert!(!m("app=apache"), "Equal: wrong value");
    assert!(m("tier!=backend"), "NotEqual: present, different value");
    assert!(!m("tier!=frontend"), "NotEqual: present, same value");
    // Set-based.
    assert!(m("env in (prod,staging)"), "In: value in set");
    assert!(!m("env in (dev)"), "In: value not in set");
    assert!(m("env notin (dev,test)"), "NotIn: value outside set");
    assert!(!m("env notin (prod)"), "NotIn: value in set");
    // Existence.
    assert!(m("app"), "Exists: key present");
    assert!(!m("missing"), "Exists: key absent");
    assert!(m("!missing"), "DoesNotExist: key absent");
    assert!(!m("!app"), "DoesNotExist: key present");
    // Absent-key rule: NotIn / NotEqual MATCH when the key is missing.
    assert!(m("missing!=x"), "NotEqual matches an absent key");
    assert!(m("missing notin (a,b)"), "NotIn matches an absent key");
    assert!(!m("missing in (a,b)"), "In does not match an absent key");
    // Requirements are ANDed; an empty selector matches everything.
    assert!(m("app=nginx,env in (prod)"), "all requirements satisfied");
    assert!(!m("app=nginx,env=dev"), "one failing requirement fails the whole selector");
    assert!(m(""), "empty selector selects all");
}

#[test]
fn parse_resource_ref_kind_and_name() {
    let v = answer(op_parse_resource_ref(&with("ref", "deployment/web"))).unwrap();
    assert_eq!(v["kind"], text("deployment"));
    assert_eq!(v["name"], text("web"));
    let bare = answer(op_parse_resource_ref(&with("ref", "pods"))).unwrap();
    assert_eq!(bare["kind"], text("pods"));
    assert_eq!(bare["name"], Value::Null);
    assert!(op_parse_resource_ref(&with("ref", "a/b/c")).is_err());
}

/// The factor of a scale, in floating point.
fn factor(scale: Scale) -> f64 {
    match scale {
        Scale::Binary(p) => 2f64.powi(p as i32),
        Scale::Decimal(-9) => 1e-9,
        Scale::Decimal(-6) => 1e-6,
        Scale::Decimal(-3) => 1e-3,
        Scale::Decimal(p) => 10f64.powi(p as i32),
    }
}

fn number(x: f64) -> Json {
    match serde_json::Number::from_f64(x) {
        Some(n) => Json::Number(n),
        None => Json::Null,
    }
}

fn parse_quantity(opts: &Json) -> Result<Value, String> {
    let q = op_parse_quantity(opts).map_err(|e| e.message)?;
    let n: f64 = match q.number.parse() {
        Ok(n) => n,
        Err(_) => return Err(q.invalid_number().message),
    };
    let v = n * factor(q.scale);
    Ok(export(&q.reply(number(n), number(v))))
}

fn format_quantity(opts: &Json) -> Result<Value, String> {
    let req = op_format_quantity(opts).map_err(|e| e.message)?;
    let v = req.value.as_f64().unwrap();
    let (suffix, scale) = req.choose_suffix(v.to_bits()).map_err(|e| e.message)?;
    let n = v / factor(scale);
    let digits = if n == 0.0 { "0".to_string() } else { format!("{n}") };
    Ok(export(&format_reply(&digits, &suffix, number(n), number(v))))
}

#[test]
fn parse_quantity_binary_decimal_and_milli() {
    let value_of = |q: &str| parse_quantity(&with("quantity", q)).unwrap()["value"].as_f64().unwrap();
    // Binary memory suffix to bytes (power of 1024).
    let mem = parse_quantity(&with("quantity", "100Mi")).unwrap();
    assert_eq!(mem["value"], value("104857600.0"), "100Mi = 100 * 1024^2 bytes");
    assert_eq!(mem["suffix"], text("Mi"));
    assert_eq!(value_of("2Gi"), 2147483648.0);
    // Milli-CPU to fractional cores.
    assert_eq!(value_of("500m"), 0.5, "500m = 0.5 cores");
    // Decimal SI and bare/exponent numbers.
    assert_eq!(value_of("1k"), 1000.0);
    assert_eq!(value_of("1.5"), 1.5);
    assert_eq!(value_of("1e3"), 1000.0);
    // Unknown suffix and garbage number error.
    assert!(parse_quantity(&with("quantity", "5Xi")).is_err());
    assert!(parse_quantity(&with("quantity", "abc")).is_err());
}

#[test]
fn format_quantity_inverts_parse_quantity() {
    let quantity = |opts: &str| format_quantity(&json(opts)).unwrap()["quantity"].clone();
    // Explicit suffix: value / multiplier.
    assert_eq!(quantity(r#"{"value": 104857600, "suffix": "Mi"}"#), text("100Mi"));
    assert_eq!(quantity(r#"{"value": 0.5, "suffix": "m"}"#), text("500m"));
    // Auto-suffix: pick the largest binary unit that divides exactly.
    assert_eq!(quantity(r#"{"value": 104857600}"#), text("100Mi"));
    assert_eq!(quantity(r#"{"value": 2147483648}"#), text("2Gi"));
    // A plain number that no binary suffix divides stays bare.
    assert_eq!(quantity(r#"{"value": 100}"#), text("100"));
    // Round-trip: parse(format(v)) == v across binary, decimal, and bare.
    for v in [104857600.0, 2147483648.0, 0.5, 100.0, 1500.0] {
        let q = format_quantity(&Json::blank().with("value", number(v))).unwrap()["quantity"]
            .as_str()
            .unwrap()
            .to_string();
        let back = parse_quantity(&with("quantity", &q)).unwrap();
        assert_eq!(back["value"].as_f64().unwrap(), v, "round-trips {v}");
    }
    assert!(format_quantity(&json(r#"{"value": 1, "suffix": "Xi"}"#)).is_err());
    assert!(format_quantity(&json("{}")).is_err());
}

#[test]
fn large_quantities_are_written_in_full() {
    for (opts, want) in [
        (r#"{"value": 1e19, "suffix": ""}"#, "10000000000000000000"),
        (r#"{"value": 1e19}"#, "9765625000000000Ki"),
        (r#"{"value": 0, "suffix": "Mi"}"#, "0Mi"),
        (r#"{"value": -2048}"#, "-2Ki"),
    ] {
        let reply = format_quantity(&json(opts)).unwrap();
        assert_eq!(reply["quantity"], text(want));
        let back = parse_quantity(&with("quantity", want)).unwrap();
        assert_eq!(back["value"], reply["value"]);
    }
}
