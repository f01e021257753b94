//! From the word that a caller uses for a kind to the resource that a cluster
//! serves.

use vstd::prelude::*;
use vstd::string::*;

use crate::cluster::{
    findings, opt_found, opt_gvk, ApiResource, ApiResourceV, Discovered, DiscoveredV, Found, FoundV,
    Gvk, GvkV, Place, PlaceV, Scope,
};
use crate::error::{outcome, OpError};
use crate::json::{Json, JsonV};
use crate::text::{
    ascii_lowercase, concat, cut_all, cut_once, equal_ignoring_case, lowercase, same_ignoring_case,
    same_text, split, split_once, texts,
};

verus! {

/// The plural that a short name stands for.
pub open spec fn shortname(s: Seq<char>) -> Option<Seq<char>> {
    if s == "po"@ {
        Some("pods"@)
    } else if s == "svc"@ {
        Some("services"@)
    } else if s == "deploy"@ {
        Some("deployments"@)
    } else if s == "rs"@ {
        Some("replicasets"@)
    } else if s == "ds"@ {
        Some("daemonsets"@)
    } else if s == "sts"@ {
        Some("statefulsets"@)
    } else if s == "cm"@ {
        Some("configmaps"@)
    } else if s == "ns"@ {
        Some("namespaces"@)
    } else if s == "no"@ {
        Some("nodes"@)
    } else if s == "ing"@ {
        Some("ingresses"@)
    } else if s == "ep"@ {
        Some("endpoints"@)
    } else if s == "ev"@ {
        Some("events"@)
    } else if s == "pv"@ {
        Some("persistentvolumes"@)
    } else if s == "pvc"@ {
        Some("persistentvolumeclaims"@)
    } else if s == "sa"@ {
        Some("serviceaccounts"@)
    } else if s == "pdb"@ {
        Some("poddisruptionbudgets"@)
    } else if s == "hpa"@ {
        Some("horizontalpodautoscalers"@)
    } else if s == "crd"@ {
        Some("customresourcedefinitions"@)
    } else if s == "cs"@ {
        Some("componentstatuses"@)
    } else if s == "limits"@ {
        Some("limitranges"@)
    } else if s == "quota"@ {
        Some("resourcequotas"@)
    } else if s == "netpol"@ {
        Some("networkpolicies"@)
    } else if s == "pc"@ {
        Some("priorityclasses"@)
    } else if s == "sc"@ {
        Some("storageclasses"@)
    } else if s == "cj"@ {
        Some("cronjobs"@)
    } else {
        None
    }
}

/// The plural that a short name of kubectl stands for. Short names are in lower case.
pub fn expand_shortname(s: &str) -> (r: Option<&'static str>)
    ensures
        match r {
            Some(long) => shortname(s@) == Some(long@),
            None => shortname(s@) is None,
        },
{
    if same_text(s, "po") {
        Some("pods")
    } else if same_text(s, "svc") {
        Some("services")
    } else if same_text(s, "deploy") {
        Some("deployments")
    } else if same_text(s, "rs") {
        Some("replicasets")
    } else if same_text(s, "ds") {
        Some("daemonsets")
    } else if same_text(s, "sts") {
        Some("statefulsets")
    } else if same_text(s, "cm") {
        Some("configmaps")
    } else if same_text(s, "ns") {
        Some("namespaces")
    } else if same_text(s, "no") {
        Some("nodes")
    } else if same_text(s, "ing") {
        Some("ingresses")
    } else if same_text(s, "ep") {
        Some("endpoints")
    } else if same_text(s, "ev") {
        Some("events")
    } else if same_text(s, "pv") {
        Some("persistentvolumes")
    } else if same_text(s, "pvc") {
        Some("persistentvolumeclaims")
    } else if same_text(s, "sa") {
        Some("serviceaccounts")
    } else if same_text(s, "pdb") {
        Some("poddisruptionbudgets")
    } else if same_text(s, "hpa") {
        Some("horizontalpodautoscalers")
    } else if same_text(s, "crd") {
        Some("customresourcedefinitions")
    } else if same_text(s, "cs") {
        Some("componentstatuses")
    } else if same_text(s, "limits") {
        Some("limitranges")
    } else if same_text(s, "quota") {
        Some("resourcequotas")
    } else if same_text(s, "netpol") {
        Some("networkpolicies")
    } else if same_text(s, "pc") {
        Some("priorityclasses")
    } else if same_text(s, "sc") {
        Some("storageclasses")
    } else if same_text(s, "cj") {
        Some("cronjobs")
    } else {
        None
    }
}

/// Whether a resource answers to a word in lower case: its kind, its plural, or its
/// kind with an `s`.
pub open spec fn answers_to(r: ApiResourceV, lower: Seq<char>) -> bool {
    ||| lowercase(r.kind) == lower
    ||| lowercase(r.plural) == lower
    ||| lowercase(r.kind) + "s"@ == lower
}

/// Whether a resource answers to a word in lower case.
pub fn resource_matches(r: &ApiResource, lower: &str) -> (b: bool)
    ensures
        b == answers_to(r@, lower@),
{
    let kind = r.kind.as_str().to_lowercase();
    if same_text(kind.as_str(), lower) {
        return true;
    }
    let plural = r.plural.as_str().to_lowercase();
    if same_text(plural.as_str(), lower) {
        return true;
    }
    same_text(concat(kind.as_str(), "s").as_str(), lower)
}

/// The first finding of which `p` holds.
pub open spec fn first_where(found: Seq<FoundV>, p: spec_fn(FoundV) -> bool) -> Option<FoundV>
    decreases found.len(),
{
    if found.len() == 0 {
        None
    } else if p(found.first()) {
        Some(found.first())
    } else {
        first_where(found.drop_first(), p)
    }
}

/// The kind in a word of the form `version/Kind` or `group/version/Kind`.
pub open spec fn strict_kind(word: Seq<char>) -> Option<GvkV> {
    match split_once(word, "/"@) {
        None => None,
        Some((a, rest)) => Some(
            match split_once(rest, "/"@) {
                None => GvkV { group: Seq::empty(), version: a, kind: rest },
                Some((version, kind)) => GvkV { group: a, version, kind },
            },
        ),
    }
}

/// The kind in a word of the form `version/Kind` or `group/version/Kind`.
pub fn gvk_of_kind(word: &str) -> (r: Option<Gvk>)
    ensures
        opt_gvk(r) == strict_kind(word@),
{
    match cut_once(word, "/") {
        None => None,
        Some((a, rest)) => Some(
            match cut_once(rest.as_str(), "/") {
                None => Gvk { group: String::new(), version: a, kind: rest },
                Some((version, kind)) => Gvk { group: a, version, kind },
            },
        ),
    }
}

/// Whether a finding has the given kind or plural, whatever the case of its letters.
pub open spec fn is_named(name: Seq<char>) -> spec_fn(FoundV) -> bool {
    |f: FoundV|
        same_ignoring_case(f.resource.kind, name) || same_ignoring_case(f.resource.plural, name)
}

/// The finding that a word for a kind stands for: the first of that kind or plural;
/// else, for a word with its group and version, the one that was asked for, and for
/// a short name the first of the plural that it stands for.
pub open spec fn kind_found(d: DiscoveredV, word: Seq<char>) -> Option<FoundV> {
    match first_where(d.recommended, is_named(word)) {
        Some(f) => Some(f),
        None => if strict_kind(word) is Some {
            d.exact
        } else {
            match shortname(lowercase(word)) {
                Some(long) => first_where(d.recommended, is_named(long)),
                None => None,
            }
        },
    }
}

/// The first finding of the given kind or plural.
fn first_named(found: &Vec<Found>, name: &str) -> (r: Option<Found>)
    ensures
        opt_found(r) == first_where(findings(found@), is_named(name@)),
{
    let mut i: usize = 0;
    let ghost all = findings(found@);
    assert(all.skip(0) =~= all);
    while i < found.len()
        invariant
            i <= found@.len(),
            all == findings(found@),
            first_where(all, is_named(name@)) == first_where(all.skip(i as int), is_named(name@)),
        decreases found@.len() - i,
    {
        assert(all.skip(i as int).first() == found@[i as int]@);
        assert(all.skip(i as int).drop_first() =~= all.skip(i as int + 1));
        let f = &found[i];
        if equal_ignoring_case(f.resource.kind.as_str(), name) || equal_ignoring_case(
            f.resource.plural.as_str(),
            name,
        ) {
            return Some(f.copy());
        }
        i += 1;
    }
    None
}

/// The finding that a word for a kind stands for.
pub fn discover_kind(d: &Discovered, word: &str) -> (r: Option<Found>)
    ensures
        opt_found(r) == kind_found(d@, word@),
{
    if let Some(f) = first_named(&d.recommended, word) {
        return Some(f);
    }
    if gvk_of_kind(word).is_some() {
        return match &d.exact {
            Some(f) => Some(f.copy()),
            None => None,
        };
    }
    match expand_shortname(word.to_lowercase().as_str()) {
        Some(long) => first_named(&d.recommended, long),
        None => None,
    }
}

/// Where a call on a found kind goes: outside namespaces for a kind that has none,
/// else to the given namespace or the connection's own.
pub open spec fn place_of(scope: Scope, namespace: Option<Seq<char>>) -> PlaceV {
    match scope {
        Scope::Cluster => PlaceV::Everywhere,
        Scope::Namespaced => match namespace {
            Some(ns) => PlaceV::Namespace(ns),
            None => PlaceV::DefaultNamespace,
        },
    }
}

/// Where a call on a found kind goes.
pub fn dyn_api(scope: Scope, namespace: Option<String>) -> (r: Place)
    ensures
        r@ == place_of(scope, crate::text::opt_text(namespace)),
{
    match scope {
        Scope::Cluster => Place::Everywhere,
        Scope::Namespaced => match namespace {
            Some(ns) => Place::Namespace(ns),
            None => Place::DefaultNamespace,
        },
    }
}

/// How the group and version of a kind are written in a document.
pub open spec fn api_version_of(group: Seq<char>, version: Seq<char>) -> Seq<char> {
    if group.len() == 0 {
        version
    } else {
        group + "/"@ + version
    }
}

/// Calls `GroupVersionKind::api_version` of kube: the version alone for the core
/// group, else the group, a slash and the version.
#[verifier::external_body]
pub(crate) fn written_api_version(gvk: &Gvk) -> (r: String)
    ensures
        r@ == api_version_of(gvk@.group, gvk@.version),
{
    kube::core::GroupVersionKind::gvk(&gvk.group, &gvk.version, &gvk.kind).api_version()
}

/// The plural that kube guesses for a kind.
pub uninterp spec fn guessed_plural(kind: Seq<char>) -> Seq<char>;

/// Calls `ApiResource::from_gvk` of kube: the resource has the given group, version
/// and kind, and a plural that is guessed from the kind alone. The guess looks at
/// the last letter but one of a kind that ends in `y`, so a kind of that one letter
/// is left out.
#[verifier::external_body]
fn guess_resource(gvk: &Gvk) -> (r: ApiResource)
    requires
        ascii_lowercase(gvk@.kind) != "y"@,
    ensures
        r@ == (ApiResourceV {
            group: gvk@.group,
            version: gvk@.version,
            api_version: api_version_of(gvk@.group, gvk@.version),
            kind: gvk@.kind,
            plural: guessed_plural(gvk@.kind),
        }),
{
    let gvk = kube::core::GroupVersionKind::gvk(&gvk.group, &gvk.version, &gvk.kind);
    let r = kube::core::ApiResource::from_gvk(&gvk);
    ApiResource {
        group: r.group,
        version: r.version,
        api_version: r.api_version,
        kind: r.kind,
        plural: r.plural,
    }
}

/// The resource that is made up for a kind that discovery does not know.
pub open spec fn made_up(gvk: GvkV) -> ApiResourceV {
    ApiResourceV {
        group: gvk.group,
        version: gvk.version,
        api_version: api_version_of(gvk.group, gvk.version),
        kind: gvk.kind,
        plural: if ascii_lowercase(gvk.kind) == "y"@ {
            "ys"@
        } else {
            guessed_plural(gvk.kind)
        },
    }
}

/// Makes up the resource of a kind that discovery does not know.
pub fn make_up(gvk: &Gvk) -> (r: ApiResource)
    ensures
        r@ == made_up(gvk@),
{
    if equal_ignoring_case(gvk.kind.as_str(), "y") {
        proof {
            reveal_strlit("y");
            assert(ascii_lowercase("y"@) =~= "y"@);
        }
        ApiResource {
            group: gvk.group.clone(),
            version: gvk.version.clone(),
            api_version: written_api_version(gvk),
            kind: gvk.kind.clone(),
            plural: "ys".to_owned(),
        }
    } else {
        proof {
            reveal_strlit("y");
            assert(ascii_lowercase("y"@) =~= "y"@);
        }
        guess_resource(gvk)
    }
}

/// What resolving a word for a kind gives the command line: for a word with its
/// group and version what discovery found or, failing that, a made-up resource; for
/// any other word the first resource that answers to it or to what it is short for.
pub open spec fn resolved(d: DiscoveredV, word: Seq<char>) -> Result<(ApiResourceV, Scope), Seq<char>> {
    match strict_kind(word) {
        Some(gvk) => match d.exact {
            Some(f) => Ok((f.resource, f.scope)),
            None => Ok((made_up(gvk), Scope::Namespaced)),
        },
        None => {
            let lower = lowercase(word);
            let name = match shortname(lower) {
                Some(long) => long,
                None => lower,
            };
            match first_where(d.recommended, |f: FoundV| answers_to(f.resource, name)) {
                Some(f) => Ok((f.resource, f.scope)),
                None => Err(
                    "could not resolve kind `"@ + word + "` against cluster api-resources"@,
                ),
            }
        },
    }
}

/// Resolves a word for a kind.
pub fn resolve_kind(d: &Discovered, word: &str) -> (r: Result<(ApiResource, Scope), OpError>)
    ensures
        match r {
            Ok(p) => resolved(d@, word@) == Ok::<(ApiResourceV, Scope), Seq<char>>((p.0@, p.1)),
            Err(e) => resolved(d@, word@) == Err::<(ApiResourceV, Scope), Seq<char>>(e@),
        },
{
    if let Some(gvk) = gvk_of_kind(word) {
        return match &d.exact {
            Some(f) => Ok((f.resource.copy(), f.scope)),
            None => Ok((make_up(&gvk), Scope::Namespaced)),
        };
    }
    let lower = word.to_lowercase();
    let name = match expand_shortname(lower.as_str()) {
        Some(long) => long.to_owned(),
        None => lower,
    };
    let ghost all = findings(d.recommended@);
    let ghost p = |f: FoundV| answers_to(f.resource, name@);
    let mut i: usize = 0;
    assert(all.skip(0) =~= all);
    while i < d.recommended.len()
        invariant
            i <= d.recommended@.len(),
            strict_kind(word@) is None,
            all == findings(d.recommended@),
            p == (|f: FoundV| answers_to(f.resource, name@)),
            name@ == (match shortname(lowercase(word@)) {
                Some(long) => long,
                None => lowercase(word@),
            }),
            first_where(all, p) == first_where(all.skip(i as int), p),
        decreases d.recommended@.len() - i,
    {
        assert(all.skip(i as int).first() == d.recommended@[i as int]@);
        assert(all.skip(i as int).drop_first() =~= all.skip(i as int + 1));
        let f = &d.recommended[i];
        if resource_matches(&f.resource, name.as_str()) {
            return Ok((f.resource.copy(), f.scope));
        }
        i += 1;
    }
    let mut message = "could not resolve kind `".to_owned();
    message.append(word);
    message.append("` against cluster api-resources");
    Err(OpError { message })
}

/// What an `apiVersion` says: the group before the first slash and the version after
/// it; without a slash the version alone, of the core group.
pub open spec fn group_version(api_version: Seq<char>) -> (Seq<char>, Seq<char>) {
    match split_once(api_version, "/"@) {
        Some(p) => p,
        None => (Seq::empty(), api_version),
    }
}

/// Calls `GroupVersion::from_str` of kube, which cuts the text at its first slash,
/// and never fails.
#[verifier::external_body]
fn parse_api_version(api_version: &str) -> (r: Option<(String, String)>)
    ensures
        r is Some,
        r matches Some(p) ==> group_version(api_version@) == (p.0@, p.1@),
{
    let gv = api_version.parse::<kube::core::GroupVersion>().ok();
    gv.map(|g| (g.group, g.version))
}

/// The group, version and kind that a document states.
pub open spec fn stated_gvk(doc: JsonV) -> Result<GvkV, Seq<char>> {
    match doc.field("apiVersion"@).text() {
        None => Err("doc missing `apiVersion`"@),
        Some(api_version) => match doc.field("kind"@).text() {
            None => Err("doc missing `kind`"@),
            Some(kind) => {
                let gv = group_version(api_version);
                Ok(GvkV { group: gv.0, version: gv.1, kind })
            },
        },
    }
}

/// Reads the group, version and kind that a document states.
pub fn extract_gvk(doc: &Json) -> (r: Result<Gvk, OpError>)
    ensures
        match r {
            Ok(g) => stated_gvk(doc@) == Ok::<GvkV, Seq<char>>(g@),
            Err(e) => stated_gvk(doc@) == Err::<GvkV, Seq<char>>(e@),
        },
{
    let api_version = match doc.text_at("apiVersion") {
        Some(s) => s,
        None => return Err(OpError::new("doc missing `apiVersion`")),
    };
    let kind = match doc.text_at("kind") {
        Some(s) => s,
        None => return Err(OpError::new("doc missing `kind`")),
    };
    match parse_api_version(api_version.as_str()) {
        Some((group, version)) => Ok(Gvk { group, version, kind }),
        None => {
            let mut message = "invalid apiVersion `".to_owned();
            message.append(api_version.as_str());
            message.append("`");
            Err(OpError { message })
        },
    }
}

/// What parsing a resource reference answers.
pub open spec fn resource_ref_outcome(opts: JsonV) -> Result<JsonV, Seq<char>> {
    match opts.field("ref"@).text() {
        None => Err("missing ref"@),
        Some(r) => {
            let parts = split(r, '/');
            if parts.len() > 2 {
                Err("invalid resource ref `"@ + r + "` (want kind/name)"@)
            } else if parts[0].len() == 0 {
                Err("resource ref missing kind: "@ + r)
            } else {
                Ok(
                    JsonV::blank().with("kind"@, JsonV::Text(parts[0])).with(
                        "name"@,
                        if parts.len() == 2 {
                            JsonV::Text(parts[1])
                        } else {
                            JsonV::Null
                        },
                    ),
                )
            }
        },
    }
}

/// Parses the resource reference `ref`, written `kind/name` or `kind`.
pub fn op_parse_resource_ref(opts: &Json) -> (r: Result<Json, OpError>)
    ensures
        outcome(r) == resource_ref_outcome(opts@),
{
    let text = match opts.text_at("ref") {
        Some(s) => s,
        None => return Err(OpError::new("missing ref")),
    };
    let parts = cut_all(text.as_str(), '/');
    assert(texts(parts@).len() == parts@.len());
    proof {
        crate::text::lemma_pieces_some(text@, crate::text::at_char('/'));
    }
    assert(forall|i: int| 0 <= i < parts@.len() ==> (#[trigger] texts(parts@)[i]) == parts@[i]@);
    if parts.len() > 2 {
        let mut message = "invalid resource ref `".to_owned();
        message.append(text.as_str());
        message.append("` (want kind/name)");
        return Err(OpError { message });
    }
    assert(texts(parts@)[0] == parts@[0]@);
    if parts[0].as_str().is_empty() {
        return Err(OpError { message: concat("resource ref missing kind: ", text.as_str()) });
    }
    let name = if parts.len() == 2 {
        assert(texts(parts@)[1] == parts@[1]@);
        Json::of_text(parts[1].as_str())
    } else {
        Json::Null
    };
    Ok(Json::blank().with("kind", Json::of_text(parts[0].as_str())).with("name", name))
}

} // verus!
