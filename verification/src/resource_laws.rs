//! What holds of the words for kinds: the short names, and that every word for a kind
//! leads to the same resource.

use vstd::prelude::*;

use crate::cluster::{ApiResourceV, DiscoveredV, FoundV, GvkV, Scope};
use crate::resource::{
    answers_to, first_where, is_named, kind_found, resolved, shortname, strict_kind,
};
use crate::text::{ascii_lowercase, find_from, is_ascii_text, lowercase, occurs_at};

verus! {

// ---- short names ----

/// How each short name is spelled.
pub(crate) proof fn lemma_spelling()
    ensures
        "po"@.len() == 2 && "po"@[0] == 'p' && "po"@[1] == 'o',
        "svc"@.len() == 3 && "svc"@[0] == 's' && "svc"@[1] == 'v' && "svc"@[2] == 'c',
        "deploy"@.len() == 6 && "deploy"@[0] == 'd' && "deploy"@[1] == 'e'
            && "deploy"@[2] == 'p' && "deploy"@[3] == 'l' && "deploy"@[4] == 'o'
            && "deploy"@[5] == 'y',
        "rs"@.len() == 2 && "rs"@[0] == 'r' && "rs"@[1] == 's',
        "ds"@.len() == 2 && "ds"@[0] == 'd' && "ds"@[1] == 's',
        "sts"@.len() == 3 && "sts"@[0] == 's' && "sts"@[1] == 't' && "sts"@[2] == 's',
        "cm"@.len() == 2 && "cm"@[0] == 'c' && "cm"@[1] == 'm',
        "ns"@.len() == 2 && "ns"@[0] == 'n' && "ns"@[1] == 's',
        "no"@.len() == 2 && "no"@[0] == 'n' && "no"@[1] == 'o',
        "ing"@.len() == 3 && "ing"@[0] == 'i' && "ing"@[1] == 'n' && "ing"@[2] == 'g',
        "ep"@.len() == 2 && "ep"@[0] == 'e' && "ep"@[1] == 'p',
        "ev"@.len() == 2 && "ev"@[0] == 'e' && "ev"@[1] == 'v',
        "pv"@.len() == 2 && "pv"@[0] == 'p' && "pv"@[1] == 'v',
        "pvc"@.len() == 3 && "pvc"@[0] == 'p' && "pvc"@[1] == 'v' && "pvc"@[2] == 'c',
        "sa"@.len() == 2 && "sa"@[0] == 's' && "sa"@[1] == 'a',
        "pdb"@.len() == 3 && "pdb"@[0] == 'p' && "pdb"@[1] == 'd' && "pdb"@[2] == 'b',
        "hpa"@.len() == 3 && "hpa"@[0] == 'h' && "hpa"@[1] == 'p' && "hpa"@[2] == 'a',
        "crd"@.len() == 3 && "crd"@[0] == 'c' && "crd"@[1] == 'r' && "crd"@[2] == 'd',
        "cs"@.len() == 2 && "cs"@[0] == 'c' && "cs"@[1] == 's',
        "limits"@.len() == 6 && "limits"@[0] == 'l' && "limits"@[1] == 'i'
            && "limits"@[2] == 'm' && "limits"@[3] == 'i' && "limits"@[4] == 't'
            && "limits"@[5] == 's',
        "quota"@.len() == 5 && "quota"@[0] == 'q' && "quota"@[1] == 'u' && "quota"@[2] == 'o'
            && "quota"@[3] == 't' && "quota"@[4] == 'a',
        "netpol"@.len() == 6 && "netpol"@[0] == 'n' && "netpol"@[1] == 'e'
            && "netpol"@[2] == 't' && "netpol"@[3] == 'p' && "netpol"@[4] == 'o'
            && "netpol"@[5] == 'l',
        "pc"@.len() == 2 && "pc"@[0] == 'p' && "pc"@[1] == 'c',
        "sc"@.len() == 2 && "sc"@[0] == 's' && "sc"@[1] == 'c',
        "cj"@.len() == 2 && "cj"@[0] == 'c' && "cj"@[1] == 'j',
{
    reveal_strlit("po");
    reveal_strlit("svc");
    reveal_strlit("deploy");
    reveal_strlit("rs");
    reveal_strlit("ds");
    reveal_strlit("sts");
    reveal_strlit("cm");
    reveal_strlit("ns");
    reveal_strlit("no");
    reveal_strlit("ing");
    reveal_strlit("ep");
    reveal_strlit("ev");
    reveal_strlit("pv");
    reveal_strlit("pvc");
    reveal_strlit("sa");
    reveal_strlit("pdb");
    reveal_strlit("hpa");
    reveal_strlit("crd");
    reveal_strlit("cs");
    reveal_strlit("limits");
    reveal_strlit("quota");
    reveal_strlit("netpol");
    reveal_strlit("pc");
    reveal_strlit("sc");
    reveal_strlit("cj");
}

/// How each plural begins, and how long it is.
proof fn lemma_plurals()
    ensures
        "pods"@.len() == 4 && "pods"@[0] == 'p',
        "services"@.len() == 8 && "services"@[0] == 's',
        "deployments"@.len() == 11 && "deployments"@[0] == 'd',
        "replicasets"@.len() == 11 && "replicasets"@[0] == 'r',
        "daemonsets"@.len() == 10 && "daemonsets"@[0] == 'd',
        "statefulsets"@.len() == 12 && "statefulsets"@[0] == 's',
        "configmaps"@.len() == 10 && "configmaps"@[0] == 'c',
        "namespaces"@.len() == 10 && "namespaces"@[0] == 'n',
        "nodes"@.len() == 5 && "nodes"@[0] == 'n',
        "ingresses"@.len() == 9 && "ingresses"@[0] == 'i',
        "endpoints"@.len() == 9 && "endpoints"@[0] == 'e',
        "events"@.len() == 6 && "events"@[0] == 'e',
        "persistentvolumes"@.len() == 17 && "persistentvolumes"@[0] == 'p',
        "persistentvolumeclaims"@.len() == 22 && "persistentvolumeclaims"@[0] == 'p',
        "serviceaccounts"@.len() == 15 && "serviceaccounts"@[0] == 's',
        "poddisruptionbudgets"@.len() == 20 && "poddisruptionbudgets"@[0] == 'p',
        "horizontalpodautoscalers"@.len() == 24 && "horizontalpodautoscalers"@[0] == 'h',
        "customresourcedefinitions"@.len() == 25 && "customresourcedefinitions"@[0] == 'c',
        "componentstatuses"@.len() == 17 && "componentstatuses"@[0] == 'c',
        "limitranges"@.len() == 11 && "limitranges"@[0] == 'l',
        "resourcequotas"@.len() == 14 && "resourcequotas"@[0] == 'r',
        "networkpolicies"@.len() == 15 && "networkpolicies"@[0] == 'n',
        "priorityclasses"@.len() == 15 && "priorityclasses"@[0] == 'p',
        "storageclasses"@.len() == 14 && "storageclasses"@[0] == 's',
        "cronjobs"@.len() == 8 && "cronjobs"@[0] == 'c',
{
    reveal_strlit("pods");
    reveal_strlit("services");
    reveal_strlit("deployments");
    reveal_strlit("replicasets");
    reveal_strlit("daemonsets");
    reveal_strlit("statefulsets");
    reveal_strlit("configmaps");
    reveal_strlit("namespaces");
    reveal_strlit("nodes");
    reveal_strlit("ingresses");
    reveal_strlit("endpoints");
    reveal_strlit("events");
    reveal_strlit("persistentvolumes");
    reveal_strlit("persistentvolumeclaims");
    reveal_strlit("serviceaccounts");
    reveal_strlit("poddisruptionbudgets");
    reveal_strlit("horizontalpodautoscalers");
    reveal_strlit("customresourcedefinitions");
    reveal_strlit("componentstatuses");
    reveal_strlit("limitranges");
    reveal_strlit("resourcequotas");
    reveal_strlit("networkpolicies");
    reveal_strlit("priorityclasses");
    reveal_strlit("storageclasses");
    reveal_strlit("cronjobs");
}

/// The length and the first letter of a plural say which short name it has.
proof fn lemma_short_of(s: Seq<char>)
    requires
        shortname(s) is Some,
    ensures
        ({
            let long = shortname(s)->0;
            &&& long.len() > 0
            &&& long.len() == 4 && long[0] == 'p' ==> s == "po"@
            &&& long.len() == 8 && long[0] == 's' ==> s == "svc"@
            &&& long.len() == 11 && long[0] == 'd' ==> s == "deploy"@
            &&& long.len() == 11 && long[0] == 'r' ==> s == "rs"@
            &&& long.len() == 10 && long[0] == 'd' ==> s == "ds"@
            &&& long.len() == 12 && long[0] == 's' ==> s == "sts"@
            &&& long.len() == 10 && long[0] == 'c' ==> s == "cm"@
            &&& long.len() == 10 && long[0] == 'n' ==> s == "ns"@
            &&& long.len() == 5 && long[0] == 'n' ==> s == "no"@
            &&& long.len() == 9 && long[0] == 'i' ==> s == "ing"@
            &&& long.len() == 9 && long[0] == 'e' ==> s == "ep"@
            &&& long.len() == 6 && long[0] == 'e' ==> s == "ev"@
            &&& long.len() == 17 && long[0] == 'p' ==> s == "pv"@
            &&& long.len() == 22 && long[0] == 'p' ==> s == "pvc"@
            &&& long.len() == 15 && long[0] == 's' ==> s == "sa"@
            &&& long.len() == 20 && long[0] == 'p' ==> s == "pdb"@
            &&& long.len() == 24 && long[0] == 'h' ==> s == "hpa"@
            &&& long.len() == 25 && long[0] == 'c' ==> s == "crd"@
            &&& long.len() == 17 && long[0] == 'c' ==> s == "cs"@
            &&& long.len() == 11 && long[0] == 'l' ==> s == "limits"@
            &&& long.len() == 14 && long[0] == 'r' ==> s == "quota"@
            &&& long.len() == 15 && long[0] == 'n' ==> s == "netpol"@
            &&& long.len() == 15 && long[0] == 'p' ==> s == "pc"@
            &&& long.len() == 14 && long[0] == 's' ==> s == "sc"@
            &&& long.len() == 8 && long[0] == 'c' ==> s == "cj"@
        }),
{
    lemma_plurals();
}

/// What a short name stands for is no short name: expanding twice is expanding once.
pub proof fn law_long_names_stay(s: Seq<char>)
    requires
        shortname(s) is Some,
    ensures
        shortname(shortname(s)->0) is None,
{
    lemma_spelling();
    lemma_plurals();
    let long = shortname(s)->0;
    assert(long.len() >= 4);
    assert(long.len() == 5 ==> long[0] == 'n');
    assert(long.len() == 6 ==> long[0] == 'e');
}

/// No two short names stand for the same plural.
pub proof fn law_plurals_differ(s: Seq<char>, t: Seq<char>)
    requires
        shortname(s) is Some,
        shortname(s) == shortname(t),
    ensures
        s == t,
{
    lemma_short_of(s);
    lemma_short_of(t);
    lemma_plurals();
}

/// Short names are written in small letters, so that turning a word into lower case keeps
/// them.
pub proof fn law_short_names_are_lower_case(s: Seq<char>)
    requires
        shortname(s) is Some,
    ensures
        forall|i: int| 0 <= i < s.len() ==> 'a' <= #[trigger] s[i] <= 'z',
        lowercase(s) == s,
{
    lemma_spelling();
    assert forall|i: int| 0 <= i < s.len() implies 'a' <= #[trigger] s[i] <= 'z' by {
        assert(s.len() <= 6);
        assert(i == 0 || i == 1 || i == 2 || i == 3 || i == 4 || i == 5);
    }
    assert(is_ascii_text(s));
    assert(ascii_lowercase(s) =~= s);
}

/// There are 25 short names.
pub proof fn law_short_names_are_counted()
    ensures
        Set::new(|s: Seq<char>| shortname(s) is Some).finite(),
        Set::new(|s: Seq<char>| shortname(s) is Some).len() == 25,
{
    lemma_spelling();
    let all = Set::new(|s: Seq<char>| shortname(s) is Some);
    let s0 = Set::<Seq<char>>::empty();
    let s1 = s0.insert("po"@);
    assert(s1.len() == 1);
    let s2 = s1.insert("svc"@);
    assert(s2.len() == 2);
    let s3 = s2.insert("deploy"@);
    assert(s3.len() == 3);
    let s4 = s3.insert("rs"@);
    assert(s4.len() == 4);
    let s5 = s4.insert("ds"@);
    assert(s5.len() == 5);
    let s6 = s5.insert("sts"@);
    assert(s6.len() == 6);
    let s7 = s6.insert("cm"@);
    assert(s7.len() == 7);
    let s8 = s7.insert("ns"@);
    assert(s8.len() == 8);
    let s9 = s8.insert("no"@);
    assert(s9.len() == 9);
    let s10 = s9.insert("ing"@);
    assert(s10.len() == 10);
    let s11 = s10.insert("ep"@);
    assert(s11.len() == 11);
    let s12 = s11.insert("ev"@);
    assert(s12.len() == 12);
    let s13 = s12.insert("pv"@);
    assert(s13.len() == 13);
    let s14 = s13.insert("pvc"@);
    assert(s14.len() == 14);
    let s15 = s14.insert("sa"@);
    assert(s15.len() == 15);
    let s16 = s15.insert("pdb"@);
    assert(s16.len() == 16);
    let s17 = s16.insert("hpa"@);
    assert(s17.len() == 17);
    let s18 = s17.insert("crd"@);
    assert(s18.len() == 18);
    let s19 = s18.insert("cs"@);
    assert(s19.len() == 19);
    let s20 = s19.insert("limits"@);
    assert(s20.len() == 20);
    let s21 = s20.insert("quota"@);
    assert(s21.len() == 21);
    let s22 = s21.insert("netpol"@);
    assert(s22.len() == 22);
    let s23 = s22.insert("pc"@);
    assert(s23.len() == 23);
    let s24 = s23.insert("sc"@);
    assert(s24.len() == 24);
    let s25 = s24.insert("cj"@);
    assert(s25.len() == 25);
    assert(all =~= s25);
}

// ---- words for a kind ----

/// What the command line looks for when it is given a word without a slash: the plural
/// that the word is short for, or the word itself, in lower case.
pub open spec fn looked_for(word: Seq<char>) -> Seq<char> {
    match shortname(lowercase(word)) {
        Some(long) => long,
        None => lowercase(word),
    }
}

/// The group, version and kind of a resource.
pub open spec fn gvk_of(r: ApiResourceV) -> GvkV {
    GvkV { group: r.group, version: r.version, kind: r.kind }
}

/// Where only one finding can be meant, it is the first that is.
pub(crate) proof fn lemma_only_where(found: Seq<FoundV>, p: spec_fn(FoundV) -> bool, f: FoundV)
    requires
        forall|i: int| 0 <= i < found.len() && p(#[trigger] found[i]) ==> found[i] == f,
    ensures
        found.contains(f) && p(f) ==> first_where(found, p) == Some(f),
        first_where(found, p) is None || first_where(found, p) == Some(f),
    decreases found.len(),
{
    if found.len() > 0 {
        assert(found[0] == found.first());
        let rest = found.drop_first();
        assert forall|i: int| 0 <= i < rest.len() && p(#[trigger] rest[i]) implies rest[i] == f by {
            assert(found[i + 1] == rest[i]);
        }
        lemma_only_where(rest, p, f);
        if found.contains(f) && !p(found.first()) && p(f) {
            let k = choose|k: int| 0 <= k < found.len() && found[k] == f;
            assert(rest[k - 1] == f);
        }
    }
}

/// On the command line every word for a kind that is served leads to the one resource
/// that it can mean: a word with its version and group to what discovery found of that
/// kind, any other, be it the kind, the plural or a short name, to the one that answers
/// to it.
pub proof fn law_words_resolve_alike(d: DiscoveredV, f: FoundV, word: Seq<char>)
    requires
        strict_kind(word) is Some ==> d.exact == Some(f),
        strict_kind(word) is None ==> {
            &&& d.recommended.contains(f)
            &&& answers_to(f.resource, looked_for(word))
            &&& forall|i: int|
                0 <= i < d.recommended.len() && answers_to(
                    (#[trigger] d.recommended[i]).resource,
                    looked_for(word),
                ) ==> d.recommended[i] == f
        },
    ensures
        resolved(d, word) == Ok::<(ApiResourceV, Scope), Seq<char>>((f.resource, f.scope)),
{
    if strict_kind(word) is None {
        let name = looked_for(word);
        lemma_only_where(d.recommended, |g: FoundV| answers_to(g.resource, name), f);
    }
}

/// Whether a word, or what it is short for, is the kind or the plural of a finding.
pub open spec fn may_mean(word: Seq<char>, f: FoundV) -> bool {
    ||| is_named(word)(f)
    ||| shortname(lowercase(word)) is Some && is_named(shortname(lowercase(word))->0)(f)
}

/// An operation, too, finds by every word for a kind the one resource that the word can
/// mean.
pub proof fn law_words_are_found_alike(d: DiscoveredV, f: FoundV, word: Seq<char>)
    requires
        strict_kind(word) is Some ==> d.exact == Some(f),
        strict_kind(word) is None ==> d.recommended.contains(f) && may_mean(word, f),
        forall|i: int|
            0 <= i < d.recommended.len() && may_mean(word, #[trigger] d.recommended[i])
                ==> d.recommended[i] == f,
    ensures
        kind_found(d, word) == Some(f),
{
    assert forall|i: int| 0 <= i < d.recommended.len() && is_named(word)(
        #[trigger] d.recommended[i],
    ) implies d.recommended[i] == f by {
        assert(may_mean(word, d.recommended[i]));
    }
    lemma_only_where(d.recommended, is_named(word), f);
    if shortname(lowercase(word)) is Some {
        let long = shortname(lowercase(word))->0;
        assert forall|i: int| 0 <= i < d.recommended.len() && is_named(long)(
            #[trigger] d.recommended[i],
        ) implies d.recommended[i] == f by {
            assert(may_mean(word, d.recommended[i]));
        }
        lemma_only_where(d.recommended, is_named(long), f);
    }
}

/// Where a word is cut at its slashes.
proof fn lemma_pod_words()
    ensures
        strict_kind("pod"@) is None,
        strict_kind("pods"@) is None,
        strict_kind("po"@) is None,
        strict_kind("v1/Pod"@) == Some(GvkV { group: Seq::empty(), version: "v1"@, kind: "Pod"@ }),
        strict_kind("/v1/Pod"@) == Some(GvkV { group: Seq::empty(), version: "v1"@, kind: "Pod"@ }),
        looked_for("pod"@) == "pod"@,
        looked_for("pods"@) == "pods"@,
        looked_for("po"@) == "pods"@,
        lowercase("Pod"@) == "pod"@,
        lowercase("pods"@) == "pods"@,
{
    reveal_strlit("/");
    reveal_strlit("pod");
    reveal_strlit("pods");
    reveal_strlit("po");
    reveal_strlit("Pod");
    reveal_strlit("v1");
    reveal_strlit("v1/Pod");
    reveal_strlit("/v1/Pod");
    lemma_spelling();
    reveal_with_fuel(find_from, 6);
    lemma_slash("pod"@);
    lemma_slash("pods"@);
    lemma_slash("po"@);
    lemma_slash("v1/Pod"@);
    lemma_slash("/v1/Pod"@);
    lemma_slash("Pod"@);
    assert("v1/Pod"@.take(2) =~= "v1"@);
    assert("v1/Pod"@.skip(3) =~= "Pod"@);
    assert("/v1/Pod"@.take(0) =~= Seq::empty());
    assert("/v1/Pod"@.skip(1) =~= "v1/Pod"@);
    assert(ascii_lowercase("pod"@) =~= "pod"@);
    assert(ascii_lowercase("pods"@) =~= "pods"@);
    assert(ascii_lowercase("po"@) =~= "po"@);
    assert(ascii_lowercase("Pod"@) =~= "pod"@);
    assert("pod"@[0] == 'p' && "pod"@[1] == 'o' && "pod"@[2] == 'd' && "pod"@.len() == 3);
    assert("pods"@.len() == 4);
}

/// A slash occurs where the character is one.
pub(crate) proof fn lemma_slash(s: Seq<char>)
    ensures
        forall|i: int| #[trigger] occurs_at(s, "/"@, i) <==> 0 <= i < s.len() && s[i] == '/',
{
    reveal_strlit("/");
    assert forall|i: int| #[trigger] occurs_at(s, "/"@, i) <==> 0 <= i < s.len() && s[i]
        == '/' by {
        if 0 <= i < s.len() {
            assert(s.subrange(i, i + 1).len() == 1);
            assert(s.subrange(i, i + 1)[0] == s[i]);
            if s[i] == '/' {
                assert(s.subrange(i, i + 1) =~= "/"@);
            }
        }
    }
}

/// On the command line `pod`, `pods`, `po`, `v1/Pod` and `/v1/Pod` all lead to the pods of
/// the core group, where nothing else that is served has that kind or plural. The last two
/// ask discovery for the same kind.
pub proof fn law_words_for_pods(d: DiscoveredV, pods: FoundV)
    requires
        d.recommended.contains(pods),
        pods.resource.group == Seq::<char>::empty(),
        pods.resource.version == "v1"@,
        pods.resource.kind == "Pod"@,
        pods.resource.plural == "pods"@,
        d.exact == Some(pods),
        forall|i: int|
            0 <= i < d.recommended.len() && (answers_to(
                (#[trigger] d.recommended[i]).resource,
                "pod"@,
            ) || answers_to(d.recommended[i].resource, "pods"@)) ==> d.recommended[i] == pods,
    ensures
        strict_kind("v1/Pod"@) == Some(gvk_of(pods.resource)),
        strict_kind("/v1/Pod"@) == Some(gvk_of(pods.resource)),
        forall|word: Seq<char>|
            word == "pod"@ || word == "pods"@ || word == "po"@ || word == "v1/Pod"@ || word
                == "/v1/Pod"@ ==> #[trigger] resolved(d, word) == Ok::<
                (ApiResourceV, Scope),
                Seq<char>,
            >((pods.resource, pods.scope)),
{
    lemma_pod_words();
    assert forall|word: Seq<char>|
        word == "pod"@ || word == "pods"@ || word == "po"@ || word == "v1/Pod"@ || word
            == "/v1/Pod"@ implies #[trigger] resolved(d, word) == Ok::<
        (ApiResourceV, Scope),
        Seq<char>,
    >((pods.resource, pods.scope)) by {
        if strict_kind(word) is None {
            law_words_resolve_alike(d, pods, word);
        }
    }
}

} // verus!
