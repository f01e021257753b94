use serde_json::Value;
use stryke_k8s::codec::{decode_args, encode_reply, export, import, opens_json, panic_reply};
use stryke_k8s::decimal::{parse_i64, write_decimal};
use stryke_k8s::error::OpError;
use stryke_k8s::exports;
use stryke_k8s::json::Json;
use stryke_k8s::names::{op_valid_label_value, op_valid_name};
use stryke_k8s::quantity::{op_parse_quantity, pick_suffix, quantity_multiplier, Scale};
use stryke_k8s::resource::{expand_shortname, op_parse_resource_ref};
use stryke_k8s::selector::{
    op_build_selector, op_parse_selector, op_selector_matches, parse_selector_reqs, set_values,
    split_requirements,
};
use stryke_k8s::session::{Connection, Kept};
use stryke_k8s::text::{
    cut_all, cut_once, equal_ignoring_case, joined, trimmed, trimmed_start, white,
};

fn value(text: &str) -> Value {
    serde_json::from_str(text).unwrap()
}

fn json(text: &str) -> Json {
    import(value(text))
}

fn with(name: &str, s: &str) -> Json {
    Json::blank().with(name, Json::of_text(s))
}

fn message<T>(r: Result<T, OpError>) -> String {
    match r {
        Ok(_) => panic!("expected an error"),
        Err(e) => e.message,
    }
}

fn strings(v: &[&str]) -> Vec<String> {
    v.iter().map(|s| s.to_string()).collect()
}

#[test]
fn white_space_is_that_of_unicode() {
    for n in 0..=0x10FFFFu32 {
        if let Some(c) = char::from_u32(n) {
            assert_eq!(white(c), c.is_whitespace(), "{n:x}");
        }
    }
}

#[test]
fn texts_are_trimmed_and_cut() {
    for s in ["", " ", "a", " a ", "\u{2003}a b\u{3000}\n", "\ta\u{200b} ", "  x y  "] {
        assert_eq!(trimmed(s), s.trim());
        assert_eq!(trimmed_start(s), s.trim_start());
    }
    for (s, p) in [("a=b=c", "="), ("abc", "="), ("", "="), ("x notin y notin z", " notin "), ("aab", "ab"), ("é=ü", "=")] {
        let want = s.split_once(p).map(|(a, b)| (a.to_string(), b.to_string()));
        assert_eq!(cut_once(s, p), want);
    }
    for s in ["", "a", "a/b", "/", "//x", "x/"] {
        let want: Vec<String> = s.split('/').map(String::from).collect();
        assert_eq!(cut_all(s, '/'), want);
        assert_eq!(joined(&want, "/"), s);
    }
    for (a, b) in [("Pod", "pOD"), ("é", "É"), ("a", "ab"), ("", ""), ("@", "`"), ("Z[", "z[")] {
        assert_eq!(equal_ignoring_case(a, b), a.eq_ignore_ascii_case(b), "{a} {b}");
    }
}

#[test]
fn numbers_are_written_and_read() {
    for n in [0u128, 9, 10, 99, 100, 300, u64::MAX as u128, u128::MAX] {
        assert_eq!(write_decimal(n), n.to_string());
    }
    let cases = [
        "", "0", "-0", "+7", "-", "+", "--1", "007", "12a", " 1", "9223372036854775807",
        "9223372036854775808", "-9223372036854775808", "-9223372036854775809",
        "99999999999999999999999999999999999999999999999", "1_0", "\u{0661}",
    ];
    for s in cases {
        assert_eq!(parse_i64(s), s.parse::<i64>().ok(), "{s}");
    }
    assert_eq!(parse_i64(&write_decimal(77)), Some(77));
}

#[test]
fn requirements_are_split_outside_parentheses() {
    assert_eq!(split_requirements("a=b,c in (x,y),,  d "), strings(&["a=b", "c in (x,y)", "d"]));
    assert_eq!(split_requirements(""), Vec::<String>::new());
    assert_eq!(split_requirements(" , "), Vec::<String>::new());
    assert_eq!(split_requirements("a),b,(c"), strings(&["a),b,(c"]));
    assert_eq!(split_requirements("a(,b"), strings(&["a(,b"]));
    assert_eq!(set_values("(a, b ,,c)"), strings(&["a", "b", "c"]));
    assert_eq!(set_values(" ((a)) "), strings(&["a"]));
    assert_eq!(set_values("a,b"), strings(&["a", "b"]));
    assert_eq!(set_values("()"), Vec::<String>::new());
}

fn parsed(selector: &str) -> Value {
    export(&op_parse_selector(&with("selector", selector)).unwrap())["requirements"].clone()
}

#[test]
fn selectors_are_read_in_every_notation() {
    assert_eq!(parsed("a == b"), value(r#"[{"key":"a","op":"Equal","value":"b"}]"#));
    assert_eq!(parsed("a=b=c"), value(r#"[{"key":"a","op":"Equal","value":"b=c"}]"#));
    assert_eq!(parsed("a!=b=c"), value(r#"[{"key":"a","op":"NotEqual","value":"b=c"}]"#));
    assert_eq!(parsed("a=b!=c"), value(r#"[{"key":"a=b","op":"NotEqual","value":"c"}]"#));
    assert_eq!(parsed("a="), value(r#"[{"key":"a","op":"Equal","value":""}]"#));
    assert_eq!(parsed("a notin b"), value(r#"[{"key":"a","op":"NotIn","values":["b"]}]"#));
    assert_eq!(parsed("a in ( x , y )"), value(r#"[{"key":"a","op":"In","values":["x","y"]}]"#));
    assert_eq!(parsed("! a"), value(r#"[{"key":"a","op":"DoesNotExist"}]"#));
    assert_eq!(parsed(" a , b "), value(r#"[{"key":"a","op":"Exists"},{"key":"b","op":"Exists"}]"#));
    assert_eq!(message(op_parse_selector(&json("{}"))), "missing selector");
    assert_eq!(message(op_parse_selector(&json(r#"{"selector":1}"#))), "missing selector");
}

#[test]
fn a_comma_conjoins_selectors() {
    let (a, b) = ("x in (1,2)", "y!=3,z");
    let mut both = parsed(a).as_array().unwrap().clone();
    both.extend(parsed(b).as_array().unwrap().clone());
    assert_eq!(parsed(&format!("{a},{b}")), Value::Array(both));
}

fn built(requirements: &str) -> Result<Json, OpError> {
    op_build_selector(&Json::blank().with("requirements", json(requirements)))
}

#[test]
fn building_and_parsing_undo_each_other() {
    for reqs in [
        "[]",
        r#"[{"key":"","op":"Equal","value":""}]"#,
        r#"[{"key":"a/b","op":"Equal","value":"x=y"},{"key":"c=d","op":"NotEqual","value":"e!=f"}]"#,
        r#"[{"key":"k","op":"In","values":[]},{"key":"k","op":"NotIn","values":["a b","c"]}]"#,
        r#"[{"key":"k(","op":"Exists"}]"#,
        r#"[{"key":"","op":"DoesNotExist"},{"key":"z","op":"Exists"}]"#,
    ] {
        let selector = export(&built(reqs).unwrap());
        assert_eq!(parsed(selector["selector"].as_str().unwrap()), value(reqs), "{reqs}");
    }
    // What the notation takes for something else does not come back.
    for reqs in [
        r#"[{"key":"a","op":"Equal","value":"b,c"}]"#,
        r#"[{"key":"a","op":"In","values":["(x)"]}]"#,
        r#"[{"key":" a","op":"Exists"}]"#,
        r#"[{"key":"a(","op":"Exists"},{"key":"b","op":"Exists"}]"#,
    ] {
        let selector = export(&built(reqs).unwrap());
        assert_ne!(parsed(selector["selector"].as_str().unwrap()), value(reqs), "{reqs}");
    }
}

#[test]
fn requirements_that_describe_nothing_are_refused() {
    assert_eq!(message(op_build_selector(&json("{}"))), "missing requirements (array)");
    assert_eq!(message(built(r#"[{"op":"Exists"}]"#)), "requirement missing key");
    assert_eq!(message(built("[7]")), "requirement missing key");
    assert_eq!(message(built(r#"[{"key":"a","op":"NotIn","values":"x"}]"#)), "set-based op needs `values` array");
    assert_eq!(message(built(r#"[{"key":"a","op":"equal"}]"#)), "unknown selector op `equal`");
    assert_eq!(
        message(built(r#"[{"key":"a"},{"key":"b","op":"X"},{"op":"Y"}]"#)),
        "unknown selector op `X`"
    );
    // The operator defaults to equality, and what is no text counts as empty.
    let doc = export(&built(r#"[{"key":"a","value":3},{"key":"b","op":"In","values":[1,"x"]}]"#).unwrap());
    assert_eq!(doc["selector"], Value::String("a=,b in (,x)".into()));
}

#[test]
fn labels_that_are_no_text_are_present_but_equal_nothing() {
    let m = |sel: &str| {
        let opts = json(r#"{"labels":{"n":5,"t":"x"}}"#).with("selector", Json::of_text(sel));
        export(&op_selector_matches(&opts).unwrap())["matches"].as_bool().unwrap()
    };
    assert!(m("n"));
    assert!(!m("!n"));
    assert!(!m("n=5"));
    assert!(m("n!=5"));
    assert!(!m("n in (5)"));
    assert!(m("n notin (5)"));
    for (yes, no) in [("t=x", "t!=x"), ("t in (x,y)", "t notin (x,y)"), ("t", "!t")] {
        assert!(m(yes) && !m(no));
    }
    assert_eq!(message(op_selector_matches(&json(r#"{"selector":""}"#))), "missing labels (object)");
    assert_eq!(message(op_selector_matches(&json(r#"{"labels":[],"selector":""}"#))), "missing labels (object)");
    assert_eq!(message(op_selector_matches(&json(r#"{"labels":{}}"#))), "missing selector");
    let r = &parse_selector_reqs("a=b")[0];
    assert!(!r.met_by(&Json::Null));
    assert_eq!(r.write(), "a=b");
}

fn name_reason(name: &str, mode: &str) -> Value {
    let opts = with("name", name).with("mode", Json::of_text(mode));
    export(&op_valid_name(&opts).unwrap())["reason"].clone()
}

#[test]
fn names_break_the_first_rule_that_they_break() {
    let reason = |name: &str, mode: &str| name_reason(name, mode).as_str().map(String::from);
    assert_eq!(reason("a.b-c.9", "subdomain"), None);
    assert_eq!(reason("", "label").unwrap(), "must not be empty");
    assert_eq!(reason(&"a".repeat(253), "x"), None);
    assert_eq!(reason(&"a".repeat(254), "x").unwrap(), "must be at most 253 characters");
    assert_eq!(reason(&"-".repeat(64), "label").unwrap(), "must be at most 63 characters");
    assert_eq!(reason("a_b", "x").unwrap(), "only lowercase alphanumerics, '-' and '.'");
    assert_eq!(reason("a.b", "label").unwrap(), "only lowercase alphanumerics and '-'");
    assert_eq!(reason("é", "x").unwrap(), "only lowercase alphanumerics, '-' and '.'");
    assert_eq!(reason("a.", "x").unwrap(), "must start and end with an alphanumeric character");
    assert_eq!(message(op_valid_name(&json("{}"))), "missing name");
    assert_eq!(message(op_valid_label_value(&json(r#"{"value":1}"#))), "missing value");
    assert_eq!(
        export(&op_valid_name(&with("name", "x")).unwrap()),
        value(r#"{"name":"x","mode":"subdomain","valid":true,"reason":null}"#)
    );
    let reason = |v: &str| {
        export(&op_valid_label_value(&with("value", v)).unwrap())["reason"].as_str().map(String::from)
    };
    assert_eq!(reason("A_b.c-9"), None);
    assert_eq!(reason("é").unwrap(), "only alphanumerics, '-', '_', and '.'");
    assert_eq!(reason("_a").unwrap(), "must begin and end with an alphanumeric character");
}

#[test]
fn references_without_a_kind_are_refused() {
    let parse = |r: &str| op_parse_resource_ref(&with("ref", r));
    assert_eq!(message(op_parse_resource_ref(&json("{}"))), "missing ref");
    assert_eq!(message(parse("a/b/c")), "invalid resource ref `a/b/c` (want kind/name)");
    assert_eq!(message(parse("/x")), "resource ref missing kind: /x");
    assert_eq!(message(parse("")), "resource ref missing kind: ");
    assert_eq!(export(&parse("pod/").unwrap()), value(r#"{"kind":"pod","name":""}"#));
}

#[test]
fn long_names_of_kinds_are_not_short_ones() {
    for s in ["po", "svc", "no", "ev", "quota", "limits", "netpol", "deploy", "cj"] {
        assert_eq!(expand_shortname(expand_shortname(s).unwrap()), None, "{s}");
    }
}

#[test]
fn quantities_are_cut_into_number_and_suffix() {
    let cut = |q: &str| {
        let t = op_parse_quantity(&with("quantity", q)).unwrap();
        (t.quantity, t.number, t.suffix, t.scale)
    };
    let want = |q: &str, n: &str, s: &str, scale| (q.to_string(), n.to_string(), s.to_string(), scale);
    assert_eq!(cut(" 100Mi "), want("100Mi", "100", "Mi", Scale::Binary(20)));
    assert_eq!(cut("1e3"), want("1e3", "1e3", "", Scale::Decimal(0)));
    assert_eq!(cut("5E"), want("5E", "5", "E", Scale::Decimal(18)));
    assert_eq!(cut("m"), want("m", "", "m", Scale::Decimal(-3)));
    let fault = |q: &str| message(op_parse_quantity(&with("quantity", q)));
    assert_eq!(fault("5Xi"), "unknown quantity suffix `Xi`");
    assert_eq!(fault("5 ki"), "unknown quantity suffix `ki`");
    assert_eq!(message(op_parse_quantity(&json("{}"))), "missing quantity");
    let t = op_parse_quantity(&with("quantity", "a1Mi")).unwrap();
    assert_eq!(t.invalid_number().message, "invalid quantity number `a1`");
    for (s, scale) in [
        ("n", Scale::Decimal(-9)), ("u", Scale::Decimal(-6)), ("k", Scale::Decimal(3)),
        ("M", Scale::Decimal(6)), ("G", Scale::Decimal(9)), ("T", Scale::Decimal(12)),
        ("P", Scale::Decimal(15)), ("Ki", Scale::Binary(10)), ("Gi", Scale::Binary(30)),
        ("Ti", Scale::Binary(40)), ("Pi", Scale::Binary(50)), ("Ei", Scale::Binary(60)),
    ] {
        assert_eq!(quantity_multiplier(s), Some(scale));
    }
    assert_eq!(quantity_multiplier("K"), None);
}

/// The largest binary suffix that divides a value exactly, in floating point.
fn float_suffix(v: f64) -> &'static str {
    for (name, pow) in [("Ei", 60), ("Pi", 50), ("Ti", 40), ("Gi", 30), ("Mi", 20), ("Ki", 10)] {
        let mult = 2f64.powi(pow);
        if v.abs() >= mult && (v / mult).fract() == 0.0 {
            return name;
        }
    }
    ""
}

#[test]
fn the_chosen_suffix_divides_exactly() {
    let mut values = vec![
        0.0, -0.0, 1.0, 0.5, 100.0, 1023.0, 1024.0, 1025.0, 1536.0, -2048.0, 104857600.0, 1e300,
        f64::MAX, f64::MIN_POSITIVE, 5e-324, f64::INFINITY, f64::NEG_INFINITY, f64::NAN,
        1.5 * 1048576.0, 3.0 * 1152921504606846976.0, 1024.5, 1e15, 1e18,
    ];
    for p in 0..70 {
        for m in [1.0, 3.0, 5.0, 1025.0, 0.75] {
            values.push(m * 2f64.powi(p));
            values.push(-m * 2f64.powi(p));
        }
    }
    for v in values {
        assert_eq!(pick_suffix(v.to_bits()), float_suffix(v), "{v}");
    }
}

#[test]
fn arguments_that_cannot_be_read_are_null() {
    let read = |args: Option<&[u8]>| export(&decode_args(args));
    assert_eq!(read(None), Value::Null);
    assert_eq!(read(Some(b"")), Value::Null);
    assert_eq!(read(Some(b"\xff{}")), Value::Null);
    assert_eq!(read(Some(b"{\"a\":1,}")), Value::Null);
    assert_eq!(read(Some(b" {\"a\":[1,{\"b\":null}],\"a\":2.5} ")), value("{\"a\":2.5}"));
    assert_eq!(read(Some(b"18446744073709551615")), value("18446744073709551615"));
    assert!(opens_json(" \n[1]") && opens_json("{") && !opens_json("a: 1") && !opens_json(""));
}

#[test]
fn a_reply_is_read_back() {
    let doc = json(r#"{"a":[-9223372036854775808,18446744073709551615,{"b":"\u0000\n\"\\é😀"}],"c":true}"#);
    let reply = encode_reply(Ok(doc.copy()));
    assert!(reply.chars().all(|c| c >= ' '));
    assert_eq!(export(&decode_args(Some(reply.as_bytes()))), export(&doc));
    assert_eq!(encode_reply(Err(OpError::new("x"))), "{\"error\":\"x\"}");
    // 127 levels are read back.
    let mut deep = Json::Null;
    for _ in 0..127 {
        deep = Json::blank().with("d", deep);
    }
    let text = encode_reply(Ok(deep.copy()));
    assert_eq!(export(&decode_args(Some(text.as_bytes()))), export(&deep));
}

#[test]
fn calls_answer_the_bytes_that_they_are_given() {
    let answer = |s: String| value(&s);
    assert_eq!(
        answer(exports::k8s__valid_name(Some(br#"{"name":"x","mode":"label"}"#))),
        value(r#"{"name":"x","mode":"label","valid":true,"reason":null}"#)
    );
    assert_eq!(
        answer(exports::k8s__valid_label_value(Some(br#"{"value":""}"#))),
        value(r#"{"value":"","valid":true,"reason":null}"#)
    );
    assert_eq!(
        answer(exports::k8s__parse_selector(Some(br#"{"selector":"!a"}"#))),
        value(r#"{"requirements":[{"key":"a","op":"DoesNotExist"}]}"#)
    );
    let built = exports::k8s__build_selector(Some(br#"{"requirements":[{"key":"a","op":"In","values":["x","y"]}]}"#));
    assert_eq!(answer(built.clone()), value(r#"{"selector":"a in (x,y)"}"#));
    assert_eq!(
        answer(exports::k8s__parse_selector(Some(built.as_bytes()))),
        value(r#"{"requirements":[{"key":"a","op":"In","values":["x","y"]}]}"#)
    );
    assert_eq!(
        answer(exports::k8s__selector_matches(Some(br#"{"labels":{"a":"x"},"selector":"a"}"#))),
        value(r#"{"matches":true,"requirements":[{"key":"a","op":"Exists"}]}"#)
    );
    assert_eq!(
        answer(exports::k8s__parse_resource_ref(Some(br#"{"ref":"po/x"}"#))),
        value(r#"{"kind":"po","name":"x"}"#)
    );
    assert_eq!(answer(exports::k8s__parse_selector(None)), value(r#"{"error":"missing selector"}"#));
    assert_eq!(
        answer(exports::k8s__parse_quantity(Some(br#"{"quantity":"5Xi"}"#)).unwrap_err()),
        value(r#"{"error":"unknown quantity suffix `Xi`"}"#)
    );
    assert_eq!(
        answer(exports::k8s__format_quantity(Some(br#"{"value":"1"}"#)).unwrap_err()),
        value(r#"{"error":"missing value"}"#)
    );
    assert_eq!(exports::k8s__parse_quantity(Some(br#"{"quantity":"2Gi"}"#)).unwrap().number, "2");
    let request = exports::k8s__format_quantity(Some(br#"{"value":1,"suffix":"Xi"}"#)).unwrap();
    assert_eq!(message(request.choose_suffix(0)), "unknown quantity suffix `Xi`");
}

#[test]
fn cutting_a_selector_again_changes_nothing() {
    for s in ["", " a , ,b in (x, y),, !c ", "a(,b", "a),b),c", "x in (1,2),y!=3 , z(", ",,"] {
        let pieces = split_requirements(s);
        assert_eq!(split_requirements(&pieces.join(",")), pieces, "{s}");
        for p in &pieces {
            assert_eq!(split_requirements(p), strings(&[p]));
        }
    }
}

#[test]
fn short_names_differ_and_are_lower_case() {
    let mut plurals: Vec<&str> = Vec::new();
    let letters: Vec<char> = ('a'..='z').collect();
    let mut words: Vec<String> = vec![String::new()];
    for _ in 0..3 {
        let longer: Vec<String> =
            words.iter().flat_map(|w| letters.iter().map(move |c| format!("{w}{c}"))).collect();
        for w in &longer {
            if let Some(long) = expand_shortname(w) {
                assert!(!plurals.contains(&long));
                assert!(expand_shortname(long).is_none());
                assert!(expand_shortname(&w.to_uppercase()).is_none());
                plurals.push(long);
            }
        }
        words = longer;
    }
    for w in ["deploy", "limits", "quota", "netpol"] {
        plurals.push(expand_shortname(w).unwrap());
    }
    assert_eq!(plurals.len(), 25);
}

#[test]
fn connections_are_kept_at_their_places() {
    let named = |s: &str| Connection::Named(s.to_string());
    let mut kept = Kept::new();
    assert_eq!(kept.place(&Connection::Default), None);
    assert_eq!(kept.keep(&named("dev")), 0);
    assert_eq!(kept.keep(&Connection::Default), 1);
    assert_eq!(kept.keep(&named("dev")), 0);
    assert_eq!(kept.place(&named("dev")), Some(0));
    assert_eq!(kept.place(&Connection::Default), Some(1));
    assert_eq!(kept.place(&named("prod")), None);
}

#[test]
fn replies_are_read_back() {
    let reply = exports::k8s__parse_selector(Some(br#"{"selector":"a in (x,y),!b"}"#));
    let read = decode_args(Some(reply.as_bytes()));
    assert_eq!(export(&read), value(&reply));
    let panicked = panic_reply();
    assert_eq!(
        decode_args(Some(panicked.as_bytes())).text_at("error"),
        Some("stryke-k8s handler panicked".to_string())
    );
}
