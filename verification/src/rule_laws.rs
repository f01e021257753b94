//! What is a name, a quantity and a word for a kind, letter by letter.

use vstd::prelude::*;
use vstd::arithmetic::power2::{lemma_pow2_pos, pow2};
use vstd::arithmetic::div_mod::lemma_fundamental_div_mod_converse;
use vstd::utf8::encode_utf8;

use crate::cluster::{ApiResourceV, DiscoveredV, FoundV, GvkV, Scope};
use crate::json::JsonV;
use crate::names::{
    label_value_fault, name_fault, valid_label_value_outcome, valid_name_outcome,
};
use crate::operation_laws::{lemma_text, object_of, text_is};
use crate::quantity::{
    exact_suffix, magnitude, number_part, quantity_text, scale_of, suffix_for, suffix_part,
    QuantityTextV, Scale,
};
use crate::resource::{
    answers_to, first_where, group_version, guessed_plural, is_named, kind_found, resolved,
    resource_ref_outcome, shortname, stated_gvk, strict_kind,
};
use crate::resource_laws::{lemma_slash, lemma_spelling};
use crate::text::{ascii_lowercase, lowercase, split, split_once, trim};
use crate::text_laws::{alike, law_ignoring_case, law_join_and_split, law_split_once};

verus! {

// ---- names ----

/// Whether a character can stand in a name: small letters, digits, hyphens, and dots
/// where the name is not one label.
pub open spec fn fits_name(c: char, label: bool) -> bool {
    'a' <= c <= 'z' || '0' <= c <= '9' || c == '-' || (c == '.' && !label)
}

/// Whether a character can stand in the value of a label.
pub open spec fn fits_value(c: char) -> bool {
    'a' <= c <= 'z' || 'A' <= c <= 'Z' || '0' <= c <= '9' || c == '-' || c == '_' || c == '.'
}

/// Whether a text begins and ends with something else than a hyphen, a dot or an
/// underscore.
pub open spec fn ends_well(s: Seq<char>) -> bool {
    &&& s.first() != '-' && s.first() != '.' && s.first() != '_'
    &&& s.last() != '-' && s.last() != '.' && s.last() != '_'
}

/// What is wrong with a name, in the order in which it is looked at: that it is empty,
/// longer than 63 bytes for a label or 253 for a subdomain, holds a character that cannot
/// stand in it, or begins or ends badly.
pub proof fn law_name_faults(name: Seq<char>, label: bool)
    ensures
        ({
            let fits = forall|i: int| 0 <= i < name.len() ==> fits_name(#[trigger] name[i], label);
            let most: nat = if label {
                63
            } else {
                253
            };
            let long = encode_utf8(name).len() > most;
            &&& name.len() == 0 ==> name_fault(name, label) == Some("must not be empty"@)
            &&& name.len() > 0 && long && label ==> name_fault(name, label) == Some(
                "must be at most 63 characters"@,
            )
            &&& name.len() > 0 && long && !label ==> name_fault(name, label) == Some(
                "must be at most 253 characters"@,
            )
            &&& name.len() > 0 && !long && !fits && label ==> name_fault(name, label) == Some(
                "only lowercase alphanumerics and '-'"@,
            )
            &&& name.len() > 0 && !long && !fits && !label ==> name_fault(name, label) == Some(
                "only lowercase alphanumerics, '-' and '.'"@,
            )
            &&& name.len() > 0 && !long && fits && !ends_well(name) ==> name_fault(name, label)
                == Some("must start and end with an alphanumeric character"@)
            &&& name.len() > 0 && !long && fits && ends_well(name) ==> name_fault(
                name,
                label,
            ) is None
        }),
{
    assert forall|c: char| fits_name(c, label) == #[trigger] crate::names::is_name_char(
        c,
        label,
    ) by {}
    if name.len() > 0 {
        assert(name[0] == name.first());
        assert(name[name.len() - 1] == name.last());
        if forall|i: int| 0 <= i < name.len() ==> fits_name(#[trigger] name[i], label) {
            assert(fits_name(name[0], label) && fits_name(name[name.len() - 1], label));
            assert forall|i: int| 0 <= i < name.len() implies crate::names::is_name_char(
                #[trigger] name[i],
                label,
            ) by {
                assert(fits_name(name[i], label));
            }
        } else {
            let i = choose|i: int| 0 <= i < name.len() && !fits_name(#[trigger] name[i], label);
            assert(!crate::names::is_name_char(name[i], label));
        }
    }
}

/// What is wrong with the value of a label, in the order in which it is looked at; an empty
/// one is right.
pub proof fn law_label_value_faults(value: Seq<char>)
    ensures
        ({
            let fits = forall|i: int| 0 <= i < value.len() ==> fits_value(#[trigger] value[i]);
            let long = encode_utf8(value).len() > 63;
            &&& value.len() == 0 ==> label_value_fault(value) is None
            &&& value.len() > 0 && long ==> label_value_fault(value) == Some(
                "must be at most 63 characters"@,
            )
            &&& value.len() > 0 && !long && !fits ==> label_value_fault(value) == Some(
                "only alphanumerics, '-', '_', and '.'"@,
            )
            &&& value.len() > 0 && !long && fits && !ends_well(value) ==> label_value_fault(value)
                == Some("must begin and end with an alphanumeric character"@)
            &&& value.len() > 0 && !long && fits && ends_well(value) ==> label_value_fault(
                value,
            ) is None
        }),
{
    if value.len() > 0 {
        assert(value[0] == value.first());
        assert(value[value.len() - 1] == value.last());
        if forall|i: int| 0 <= i < value.len() ==> fits_value(#[trigger] value[i]) {
            assert(fits_value(value[0]) && fits_value(value[value.len() - 1]));
            assert forall|i: int| 0 <= i < value.len() implies crate::names::is_value_char(
                #[trigger] value[i],
            ) by {
                assert(fits_value(value[i]));
            }
        } else {
            let i = choose|i: int| 0 <= i < value.len() && !fits_value(#[trigger] value[i]);
            assert(!crate::names::is_value_char(value[i]));
        }
    }
}

/// A name is told with its mode, a label where that is asked for and a subdomain
/// otherwise, whether it is right, and what is wrong with it; so is the value of a label.
pub proof fn law_names_are_told(
    opts: JsonV,
    name: Option<Seq<char>>,
    mode: Option<Seq<char>>,
    value: Option<Seq<char>>,
)
    requires
        text_is(opts, "name"@, name),
        text_is(opts, "mode"@, mode),
        text_is(opts, "value"@, value),
    ensures
        name is None ==> valid_name_outcome(opts) == Err::<JsonV, _>("missing name"@),
        name is Some ==> {
            let label = mode == Some("label"@);
            let fault = name_fault(name->0, label);
            valid_name_outcome(opts) == Ok::<_, Seq<char>>(
                object_of("name"@, JsonV::Text(name->0)).with(
                    "mode"@,
                    JsonV::Text(
                        if label {
                            "label"@
                        } else {
                            "subdomain"@
                        },
                    ),
                ).with("valid"@, JsonV::Bool(fault is None)).with(
                    "reason"@,
                    crate::reply_laws::said(fault),
                ),
            )
        },
        value is None ==> valid_label_value_outcome(opts) == Err::<JsonV, _>("missing value"@),
        value is Some ==> valid_label_value_outcome(opts) == Ok::<_, Seq<char>>(
            object_of("value"@, JsonV::Text(value->0)).with(
                "valid"@,
                JsonV::Bool(label_value_fault(value->0) is None),
            ).with("reason"@, crate::reply_laws::said(label_value_fault(value->0))),
        ),
{
    lemma_text(opts, "name"@, name);
    lemma_text(opts, "mode"@, mode);
    lemma_text(opts, "value"@, value);
}

// ---- quantities ----

/// The suffixes of quantities: powers of ten and, with an `i`, powers of two.
pub proof fn law_suffixes(s: Seq<char>)
    ensures
        scale_of(""@) == Some(Scale::Decimal(0)),
        scale_of("n"@) == Some(Scale::Decimal((-9) as i8)),
        scale_of("u"@) == Some(Scale::Decimal((-6) as i8)),
        scale_of("m"@) == Some(Scale::Decimal((-3) as i8)),
        scale_of("k"@) == Some(Scale::Decimal(3)),
        scale_of("M"@) == Some(Scale::Decimal(6)),
        scale_of("G"@) == Some(Scale::Decimal(9)),
        scale_of("T"@) == Some(Scale::Decimal(12)),
        scale_of("P"@) == Some(Scale::Decimal(15)),
        scale_of("E"@) == Some(Scale::Decimal(18)),
        scale_of("Ki"@) == Some(Scale::Binary(10)),
        scale_of("Mi"@) == Some(Scale::Binary(20)),
        scale_of("Gi"@) == Some(Scale::Binary(30)),
        scale_of("Ti"@) == Some(Scale::Binary(40)),
        scale_of("Pi"@) == Some(Scale::Binary(50)),
        scale_of("Ei"@) == Some(Scale::Binary(60)),
        s != ""@ && s != "n"@ && s != "u"@ && s != "m"@ && s != "k"@ && s != "M"@ && s != "G"@ && s != "T"@ && s != "P"@ && s != "E"@ && s != "Ki"@ && s != "Mi"@ && s != "Gi"@ && s != "Ti"@ && s != "Pi"@ && s != "Ei"@
            ==> scale_of(s) is None,
{
    reveal_strlit("");
    reveal_strlit("n");
    reveal_strlit("u");
    reveal_strlit("m");
    reveal_strlit("k");
    reveal_strlit("M");
    reveal_strlit("G");
    reveal_strlit("T");
    reveal_strlit("P");
    reveal_strlit("E");
    reveal_strlit("Ki");
    reveal_strlit("Mi");
    reveal_strlit("Gi");
    reveal_strlit("Ti");
    reveal_strlit("Pi");
    reveal_strlit("Ei");
    assert(""@.len() == 0);
    assert("n"@.len() == 1 && "n"@[0] == 'n');
    assert("u"@.len() == 1 && "u"@[0] == 'u');
    assert("m"@.len() == 1 && "m"@[0] == 'm');
    assert("k"@.len() == 1 && "k"@[0] == 'k');
    assert("M"@.len() == 1 && "M"@[0] == 'M');
    assert("G"@.len() == 1 && "G"@[0] == 'G');
    assert("T"@.len() == 1 && "T"@[0] == 'T');
    assert("P"@.len() == 1 && "P"@[0] == 'P');
    assert("E"@.len() == 1 && "E"@[0] == 'E');
    assert("Ki"@.len() == 2 && "Ki"@[0] == 'K' && "Ki"@[1] == 'i');
    assert("Mi"@.len() == 2 && "Mi"@[0] == 'M' && "Mi"@[1] == 'i');
    assert("Gi"@.len() == 2 && "Gi"@[0] == 'G' && "Gi"@[1] == 'i');
    assert("Ti"@.len() == 2 && "Ti"@[0] == 'T' && "Ti"@[1] == 'i');
    assert("Pi"@.len() == 2 && "Pi"@[0] == 'P' && "Pi"@[1] == 'i');
    assert("Ei"@.len() == 2 && "Ei"@[0] == 'E' && "Ei"@[1] == 'i');
}

/// Whether a text is made of ASCII letters alone.
pub open spec fn all_letters(s: Seq<char>) -> bool {
    forall|i: int| 0 <= i < s.len() ==> 'a' <= #[trigger] s[i] <= 'z' || 'A' <= s[i] <= 'Z'
}

/// Whether a text ends with something else than an ASCII letter, or is empty.
pub open spec fn ends_in_number(s: Seq<char>) -> bool {
    s.len() > 0 ==> !('a' <= s.last() <= 'z') && !('A' <= s.last() <= 'Z')
}

proof fn lemma_cut_number(number: Seq<char>, suffix: Seq<char>)
    requires
        ends_in_number(number),
        all_letters(suffix),
    ensures
        number_part(number + suffix) == number,
        suffix_part(number + suffix) == suffix,
    decreases suffix.len(),
{
    let q = number + suffix;
    if suffix.len() == 0 {
        assert(q =~= number);
    } else {
        assert('a' <= suffix[suffix.len() - 1] <= 'z' || 'A' <= suffix[suffix.len() - 1] <= 'Z');
        assert(q.last() == suffix[suffix.len() - 1]);
        let front = suffix.drop_last();
        assert(all_letters(front)) by {
            assert forall|i: int| 0 <= i < front.len() implies 'a' <= #[trigger] front[i] <= 'z'
                || 'A' <= front[i] <= 'Z' by {
                assert(front[i] == suffix[i]);
            }
        }
        assert(q.drop_last() =~= number + front);
        lemma_cut_number(number, front);
    }
    assert(q.skip(number.len() as int) =~= suffix);
}

/// A quantity, without the white space at its ends, is a number and then the letters of its
/// suffix; a suffix that there is not is said.
pub proof fn law_quantity_is_read(
    opts: JsonV,
    text: Option<Seq<char>>,
    number: Seq<char>,
    suffix: Seq<char>,
)
    requires
        text_is(opts, "quantity"@, text),
        text is Some ==> trim(text->0) == number + suffix && ends_in_number(number)
            && all_letters(suffix),
    ensures
        text is None ==> quantity_text(opts) == Err::<QuantityTextV, _>("missing quantity"@),
        text is Some && scale_of(suffix) is None ==> quantity_text(opts) == Err::<
            QuantityTextV,
            _,
        >("unknown quantity suffix `"@ + suffix + "`"@),
        text is Some && scale_of(suffix) is Some ==> quantity_text(opts) == Ok::<_, Seq<char>>(
            QuantityTextV {
                quantity: number + suffix,
                number,
                suffix,
                scale: scale_of(suffix)->0,
            },
        ),
{
    lemma_text(opts, "quantity"@, text);
    if text is Some {
        lemma_cut_number(number, suffix);
    }
}

/// The suffix that is asked for is the one that is used; without one it is the largest of
/// the binary ones that leaves no rest. Units are counted in the smallest number of 64 bits,
/// which is one over the power of two to 1074.
pub proof fn law_suffix_is_chosen(asked: Seq<char>, bits: u64, units: nat)
    ensures
        suffix_for(Some(asked), bits) == asked,
        suffix_for(None, bits) == exact_suffix(magnitude(bits)),
        units == 0 ==> exact_suffix(units) == ""@,
        units > 0 && units % pow2(1134) == 0 ==> exact_suffix(units) == "Ei"@,
        units > 0 && units % pow2(1134) != 0 && units % pow2(1124) == 0 ==> exact_suffix(units)
            == "Pi"@,
        units > 0 && units % pow2(1134) != 0 && units % pow2(1124) != 0 && units % pow2(1114) == 0
            ==> exact_suffix(units) == "Ti"@,
        units > 0 && units % pow2(1134) != 0 && units % pow2(1124) != 0 && units % pow2(1114) != 0
            && units % pow2(1104) == 0 ==> exact_suffix(units) == "Gi"@,
        units > 0 && units % pow2(1134) != 0 && units % pow2(1124) != 0 && units % pow2(1114) != 0
            && units % pow2(1104) != 0 && units % pow2(1094) == 0 ==> exact_suffix(units) == "Mi"@,
        units > 0 && units % pow2(1134) != 0 && units % pow2(1124) != 0 && units % pow2(1114) != 0
            && units % pow2(1104) != 0 && units % pow2(1094) != 0 && units % pow2(1084) == 0
            ==> exact_suffix(units) == "Ki"@,
        units % pow2(1134) != 0 && units % pow2(1124) != 0 && units % pow2(1114) != 0 && units
            % pow2(1104) != 0 && units % pow2(1094) != 0 && units % pow2(1084) != 0
            ==> exact_suffix(units) == ""@,
{
}

/// The magnitude of a number is that of its fraction at its exponent, whatever its sign.
pub proof fn law_magnitude(bits: u64, sign: nat, exponent: nat, fraction: nat)
    requires
        sign <= 1,
        exponent < 2048,
        fraction < pow2(52),
        bits == (sign * 2048 + exponent) * pow2(52) + fraction,
    ensures
        exponent == 0 ==> magnitude(bits) == fraction,
        0 < exponent < 2047 ==> magnitude(bits) == (pow2(52) + fraction) * pow2(
            (exponent - 1) as nat,
        ),
        exponent == 2047 ==> magnitude(bits) == 0,
{
    lemma_pow2_pos(52);
    let high = sign * 2048 + exponent;
    lemma_fundamental_div_mod_converse(
        bits as int,
        pow2(52) as int,
        high as int,
        fraction as int,
    );
    assert(high % 2048 == exponent);
}

// ---- words for kinds ----

/// The short names and what they are short for.
pub proof fn law_short_names()
    ensures
        shortname("po"@) == Some("pods"@),
        shortname("svc"@) == Some("services"@),
        shortname("deploy"@) == Some("deployments"@),
        shortname("rs"@) == Some("replicasets"@),
        shortname("ds"@) == Some("daemonsets"@),
        shortname("sts"@) == Some("statefulsets"@),
        shortname("cm"@) == Some("configmaps"@),
        shortname("ns"@) == Some("namespaces"@),
        shortname("no"@) == Some("nodes"@),
        shortname("ing"@) == Some("ingresses"@),
        shortname("ep"@) == Some("endpoints"@),
        shortname("ev"@) == Some("events"@),
        shortname("pv"@) == Some("persistentvolumes"@),
        shortname("pvc"@) == Some("persistentvolumeclaims"@),
        shortname("sa"@) == Some("serviceaccounts"@),
        shortname("pdb"@) == Some("poddisruptionbudgets"@),
        shortname("hpa"@) == Some("horizontalpodautoscalers"@),
        shortname("crd"@) == Some("customresourcedefinitions"@),
        shortname("cs"@) == Some("componentstatuses"@),
        shortname("limits"@) == Some("limitranges"@),
        shortname("quota"@) == Some("resourcequotas"@),
        shortname("netpol"@) == Some("networkpolicies"@),
        shortname("pc"@) == Some("priorityclasses"@),
        shortname("sc"@) == Some("storageclasses"@),
        shortname("cj"@) == Some("cronjobs"@),
{
    lemma_spelling();
}

/// Whether a word is the kind or the plural of a resource, in any case.
pub open spec fn calls_it(word: Seq<char>, r: ApiResourceV) -> bool {
    alike(r.kind, word) || alike(r.plural, word)
}

/// Whether a finding is the first that a word calls.
pub open spec fn is_first(d: DiscoveredV, word: Seq<char>, i: int) -> bool {
    &&& 0 <= i < d.recommended.len()
    &&& calls_it(word, d.recommended[i].resource)
    &&& forall|k: int| 0 <= k < i ==> !calls_it(word, (#[trigger] d.recommended[k]).resource)
}

/// Whether a word calls none of the findings.
pub open spec fn calls_none(d: DiscoveredV, word: Seq<char>) -> bool {
    forall|k: int|
        0 <= k < d.recommended.len() ==> !calls_it(word, (#[trigger] d.recommended[k]).resource)
}

proof fn lemma_calls(word: Seq<char>, f: FoundV)
    ensures
        is_named(word)(f) <==> calls_it(word, f.resource),
{
    law_ignoring_case(f.resource.kind, word);
    law_ignoring_case(f.resource.plural, word);
}

proof fn lemma_first(found: Seq<FoundV>, p: spec_fn(FoundV) -> bool, i: int)
    requires
        0 <= i <= found.len(),
        forall|k: int| 0 <= k < i ==> !p(#[trigger] found[k]),
    ensures
        i < found.len() && p(found[i]) ==> first_where(found, p) == Some(found[i]),
        i == found.len() ==> first_where(found, p) is None,
    decreases found.len(),
{
    if found.len() > 0 && i > 0 {
        let rest = found.drop_first();
        assert(!p(found[0]));
        assert forall|k: int| 0 <= k < i - 1 implies !p(#[trigger] rest[k]) by {
            assert(rest[k] == found[k + 1]);
        }
        lemma_first(rest, p, i - 1);
    }
}

proof fn lemma_found(d: DiscoveredV, word: Seq<char>, i: int)
    ensures
        is_first(d, word, i) ==> first_where(d.recommended, is_named(word)) == Some(
            d.recommended[i],
        ),
        calls_none(d, word) ==> first_where(d.recommended, is_named(word)) is None,
{
    assert forall|k: int| 0 <= k < d.recommended.len() implies (is_named(word)(
        #[trigger] d.recommended[k],
    ) <==> calls_it(word, d.recommended[k].resource)) by {
        lemma_calls(word, d.recommended[k]);
    }
    if is_first(d, word, i) {
        lemma_first(d.recommended, is_named(word), i);
    }
    if calls_none(d, word) {
        lemma_first(d.recommended, is_named(word), d.recommended.len() as int);
    }
}

/// An operation finds the first resource that its word calls. A word with a slash that
/// calls none finds what was asked for exactly, and a short name the first resource that
/// the long name calls; any other word finds nothing.
pub proof fn law_first_is_found(d: DiscoveredV, word: Seq<char>, i: int)
    ensures
        is_first(d, word, i) ==> kind_found(d, word) == Some(d.recommended[i]),
        calls_none(d, word) && word.contains('/') ==> kind_found(d, word) == d.exact,
        calls_none(d, word) && !word.contains('/') && shortname(lowercase(word)) is Some
            && is_first(d, shortname(lowercase(word))->0, i) ==> kind_found(d, word) == Some(
            d.recommended[i],
        ),
        calls_none(d, word) && !word.contains('/') && (shortname(lowercase(word)) is None
            || calls_none(d, shortname(lowercase(word))->0)) ==> kind_found(d, word) is None,
{
    lemma_found(d, word, i);
    lemma_slashes(word);
    if shortname(lowercase(word)) is Some {
        lemma_found(d, shortname(lowercase(word))->0, i);
    }
}

proof fn lemma_slashes(word: Seq<char>)
    ensures
        split_once(word, "/"@) is Some <==> word.contains('/'),
{
    law_split_once(word, "/"@);
    lemma_slash(word);
    reveal_strlit("/");
    if word.contains('/') {
        let k = choose|k: int| 0 <= k < word.len() && word[k] == '/';
        assert(crate::text::occurs_at(word, "/"@, k));
    }
    if split_once(word, "/"@) is Some {
        let (a, b) = split_once(word, "/"@)->0;
        assert(word[a.len() as int] == '/');
    }
}

proof fn lemma_cut_slash(a: Seq<char>, b: Seq<char>)
    requires
        !a.contains('/'),
    ensures
        split_once(a + "/"@ + b, "/"@) == Some((a, b)),
{
    let s = a + "/"@ + b;
    lemma_slash(s);
    assert forall|j: int| 0 <= j < a.len() implies !#[trigger] crate::text::occurs_at(
        s,
        "/"@,
        j,
    ) by {
        assert(s[j] == a[j]);
    }
    crate::selector_laws::lemma_split_once(a, "/"@, b);
}

/// A word with one slash is a version and a kind of the core group, one with more is a
/// group, a version and a kind; a word without any states no kind exactly.
pub proof fn law_strict_words(group: Seq<char>, version: Seq<char>, kind: Seq<char>)
    requires
        !group.contains('/'),
        !version.contains('/'),
    ensures
        strict_kind(group + "/"@ + (version + "/"@ + kind)) == Some(
            GvkV { group, version, kind },
        ),
        !kind.contains('/') ==> strict_kind(version + "/"@ + kind) == Some(
            GvkV { group: Seq::empty(), version, kind },
        ),
        !kind.contains('/') ==> strict_kind(kind) is None,
{
    lemma_cut_slash(group, version + "/"@ + kind);
    lemma_cut_slash(version, kind);
    lemma_slashes(kind);
}

/// A document states its group and version with a slash between them, or a version of the
/// core group alone, and its kind.
pub proof fn law_stated_kinds(
    doc: JsonV,
    group: Seq<char>,
    version: Seq<char>,
    api_version: Option<Seq<char>>,
    kind: Option<Seq<char>>,
)
    requires
        text_is(doc, "apiVersion"@, api_version),
        text_is(doc, "kind"@, kind),
        !group.contains('/'),
    ensures
        api_version is None ==> stated_gvk(doc) == Err::<GvkV, _>("doc missing `apiVersion`"@),
        api_version is Some && kind is None ==> stated_gvk(doc) == Err::<GvkV, _>(
            "doc missing `kind`"@,
        ),
        api_version == Some(group + "/"@ + version) && kind is Some ==> stated_gvk(doc) == Ok::<
            _,
            Seq<char>,
        >(GvkV { group, version, kind: kind->0 }),
        api_version == Some(version) && !version.contains('/') && kind is Some ==> stated_gvk(doc)
            == Ok::<_, Seq<char>>(GvkV { group: Seq::empty(), version, kind: kind->0 }),
        group_version(group + "/"@ + version) == (group, version),
        !version.contains('/') ==> group_version(version) == (Seq::<char>::empty(), version),
{
    lemma_text(doc, "apiVersion"@, api_version);
    lemma_text(doc, "kind"@, kind);
    lemma_cut_slash(group, version);
    lemma_slashes(version);
}

/// Whether a resource answers to a word in small letters: its kind, its plural, or its kind
/// with an `s`.
pub open spec fn answers(r: ApiResourceV, lower: Seq<char>) -> bool {
    lowercase(r.kind) == lower || lowercase(r.plural) == lower || lowercase(r.kind) + "s"@ == lower
}

/// The command line resolves a word without a slash, in small letters and with a short name
/// made long, to the first resource that answers to it, or says that there is none. A word
/// with a slash resolves to what was asked for exactly, and where that is not served to a
/// resource of namespaces with the stated group, version and kind.
pub proof fn law_words_resolve(d: DiscoveredV, word: Seq<char>, i: int)
    requires
        0 <= i <= d.recommended.len(),
    ensures
        word.contains('/') && d.exact is Some ==> resolved(d, word) == Ok::<_, Seq<char>>(
            (d.exact->0.resource, d.exact->0.scope),
        ),
        word.contains('/') && d.exact is None ==> {
            let gvk = strict_kind(word)->0;
            resolved(d, word) matches Ok((r, scope)) && r.group == gvk.group && r.version
                == gvk.version && r.kind == gvk.kind && scope == Scope::Namespaced
                && r.api_version == (if gvk.group.len() == 0 {
                gvk.version
            } else {
                gvk.group + "/"@ + gvk.version
            }) && (ascii_lowercase(gvk.kind) != "y"@ ==> r.plural == guessed_plural(gvk.kind)) && (
            ascii_lowercase(gvk.kind) == "y"@ ==> r.plural == "ys"@)
        },
        !word.contains('/') ==> {
            let name = if shortname(lowercase(word)) is Some {
                shortname(lowercase(word))->0
            } else {
                lowercase(word)
            };
            (forall|k: int|
                0 <= k < i ==> !answers((#[trigger] d.recommended[k]).resource, name)) ==> {
                &&& i < d.recommended.len() && answers(d.recommended[i].resource, name)
                    ==> resolved(d, word) == Ok::<_, Seq<char>>(
                    (d.recommended[i].resource, d.recommended[i].scope),
                )
                &&& i == d.recommended.len() ==> resolved(d, word) == Err::<
                    (ApiResourceV, Scope),
                    _,
                >("could not resolve kind `"@ + word + "` against cluster api-resources"@)
            }
        },
{
    lemma_slashes(word);
    if !word.contains('/') {
        let name = if shortname(lowercase(word)) is Some {
            shortname(lowercase(word))->0
        } else {
            lowercase(word)
        };
        let p = |f: FoundV| answers_to(f.resource, name);
        if forall|k: int| 0 <= k < i ==> !answers((#[trigger] d.recommended[k]).resource, name) {
            assert forall|k: int| 0 <= k < i implies !p(#[trigger] d.recommended[k]) by {
                assert(!answers(d.recommended[k].resource, name));
            }
            lemma_first(d.recommended, p, i);
        }
    }
}

/// A reference is a kind, or a kind and a name with one slash between them. The kind must
/// be there; the name is null where there is no slash.
pub proof fn law_references_are_read(
    opts: JsonV,
    text: Option<Seq<char>>,
    kind: Seq<char>,
    name: Seq<char>,
)
    requires
        text_is(opts, "ref"@, text),
        !kind.contains('/'),
        !name.contains('/'),
    ensures
        text is None ==> resource_ref_outcome(opts) == Err::<JsonV, _>("missing ref"@),
        text == Some(kind) && kind.len() > 0 ==> resource_ref_outcome(opts) == Ok::<_, Seq<char>>(
            object_of("kind"@, JsonV::Text(kind)).with("name"@, JsonV::Null),
        ),
        text == Some(kind + seq!['/'] + name) && kind.len() > 0 ==> resource_ref_outcome(opts)
            == Ok::<_, Seq<char>>(
            object_of("kind"@, JsonV::Text(kind)).with("name"@, JsonV::Text(name)),
        ),
        text is Some && split(text->0, '/').len() > 2 ==> resource_ref_outcome(opts) == Err::<
            JsonV,
            _,
        >("invalid resource ref `"@ + text->0 + "` (want kind/name)"@),
        kind.len() == 0 && (text == Some(kind) || text == Some(kind + seq!['/'] + name))
            ==> resource_ref_outcome(opts) == Err::<JsonV, _>(
            "resource ref missing kind: "@ + text->0,
        ),
{
    lemma_text(opts, "ref"@, text);
    let sep = seq!['/'];
    let one = seq![kind];
    assert(!one[0].contains('/'));
    law_join_and_split(one, '/');
    assert(crate::text::join(one, sep) == kind);
    let two = one.push(name);
    assert forall|i: int| 0 <= i < two.len() implies !(#[trigger] two[i]).contains('/') by {
        if i == 0 {
            assert(two[0] == kind);
        }
    }
    law_join_and_split(two, '/');
    assert(two.drop_last() =~= one);
    assert(crate::text::join(two, sep) == kind + sep + name);
}

} // verus!
