//! How each notation of a selector is read, written, described and matched.

use vstd::prelude::*;

use crate::json::JsonV;
use crate::operation_laws::{holds, lemma_text, object_of, text_is};
use crate::selector::{
    all_described, at_top_comma, build_selector_outcome, depth, described, kept,
    parse_selector_outcome, raw_requirements, requirement_json, requirement_of, requirements_of,
    satisfies, satisfies_all, selector_matches_outcome, selector_text, set_members, strip_end,
    strip_start, texts_of, written, RequirementV,
};
use crate::selector_laws::{
    lemma_depth_append, lemma_no_equals, lemma_no_split, lemma_pieces_grow, lemma_split_once,
};
use crate::text::{is_trimmed, join, occurs, occurs_at, pieces, split, trim};

verus! {

// ---- reading one requirement ----

/// Whether the first `sep` of `key + sep + rest` stands right behind `key`.
pub open spec fn parts_at(key: Seq<char>, sep: Seq<char>, rest: Seq<char>) -> bool {
    forall|j: int| 0 <= j < key.len() ==> !#[trigger] occurs_at(key + sep + rest, sep, j)
}

/// A requirement is cut at the first of the separators that it holds: ` notin ` before
/// ` in `, before `!=`, before `==`, before `=`. What stands on the left is the key and what
/// stands on the right the value or the set, without white space at their ends.
pub proof fn law_requirement_is_read(key: Seq<char>, rest: Seq<char>)
    ensures
        parts_at(key, " notin "@, rest) ==> requirement_of(key + " notin "@ + rest) == (
        RequirementV::NotIn { key: trim(key), values: set_members(rest) }),
        parts_at(key, " in "@, rest) && !occurs(key + " in "@ + rest, " notin "@)
            ==> requirement_of(key + " in "@ + rest) == (RequirementV::In {
            key: trim(key),
            values: set_members(rest),
        }),
        parts_at(key, "!="@, rest) && !occurs(key + "!="@ + rest, " notin "@) && !occurs(
            key + "!="@ + rest,
            " in "@,
        ) ==> requirement_of(key + "!="@ + rest) == (RequirementV::NotEqual {
            key: trim(key),
            value: trim(rest),
        }),
        parts_at(key, "=="@, rest) && !occurs(key + "=="@ + rest, " notin "@) && !occurs(
            key + "=="@ + rest,
            " in "@,
        ) && !occurs(key + "=="@ + rest, "!="@) ==> requirement_of(key + "=="@ + rest) == (
        RequirementV::Equal { key: trim(key), value: trim(rest) }),
        parts_at(key, "="@, rest) && !occurs(key + "="@ + rest, " notin "@) && !occurs(
            key + "="@ + rest,
            " in "@,
        ) && !occurs(key + "="@ + rest, "!="@) && !occurs(key + "="@ + rest, "=="@)
            ==> requirement_of(key + "="@ + rest) == (RequirementV::Equal {
            key: trim(key),
            value: trim(rest),
        }),
{
    if parts_at(key, " notin "@, rest) {
        lemma_split_once(key, " notin "@, rest);
    }
    let s = key + " in "@ + rest;
    if parts_at(key, " in "@, rest) && !occurs(s, " notin "@) {
        lemma_no_split(s, " notin "@);
        lemma_split_once(key, " in "@, rest);
    }
    let s = key + "!="@ + rest;
    if parts_at(key, "!="@, rest) && !occurs(s, " notin "@) && !occurs(s, " in "@) {
        lemma_no_split(s, " notin "@);
        lemma_no_split(s, " in "@);
        lemma_split_once(key, "!="@, rest);
    }
    let s = key + "=="@ + rest;
    if parts_at(key, "=="@, rest) && !occurs(s, " notin "@) && !occurs(s, " in "@) && !occurs(
        s,
        "!="@,
    ) {
        lemma_no_split(s, " notin "@);
        lemma_no_split(s, " in "@);
        lemma_no_split(s, "!="@);
        lemma_split_once(key, "=="@, rest);
    }
    let s = key + "="@ + rest;
    if parts_at(key, "="@, rest) && !occurs(s, " notin "@) && !occurs(s, " in "@) && !occurs(
        s,
        "!="@,
    ) && !occurs(s, "=="@) {
        lemma_no_split(s, " notin "@);
        lemma_no_split(s, " in "@);
        lemma_no_split(s, "!="@);
        lemma_no_split(s, "=="@);
        lemma_split_once(key, "="@, rest);
    }
}

/// A text without any separator asks that its key exists, or with a `!` in front that it
/// does not.
pub proof fn law_bare_key_is_read(key: Seq<char>)
    requires
        !key.contains('='),
        !occurs(key, " notin "@),
        !occurs(key, " in "@),
    ensures
        key.len() == 0 || key[0] != '!' ==> requirement_of(key) == (RequirementV::Exists {
            key: trim(key),
        }),
        key.len() > 0 && key[0] == '!' ==> requirement_of(key) == (RequirementV::DoesNotExist {
            key: trim(key.skip(1)),
        }),
{
    reveal_strlit("!=");
    reveal_strlit("==");
    reveal_strlit("=");
    assert("!="@[1] == '=');
    assert("=="@[1] == '=');
    assert("="@[0] == '=');
    lemma_no_equals(key, "!="@);
    lemma_no_equals(key, "=="@);
    lemma_no_equals(key, "="@);
    lemma_no_split(key, " notin "@);
    lemma_no_split(key, " in "@);
    lemma_no_split(key, "!="@);
    lemma_no_split(key, "=="@);
    lemma_no_split(key, "="@);
}

/// A pattern that has no character of what stands between two texts occurs in neither of
/// them only if it does not occur in the whole.
proof fn lemma_between(a: Seq<char>, sep: Seq<char>, b: Seq<char>, pat: Seq<char>)
    requires
        sep.len() > 0,
        pat.len() > 0,
        forall|i: int| 0 <= i < sep.len() ==> !pat.contains(#[trigger] sep[i]),
        !occurs(a, pat),
        !occurs(b, pat),
    ensures
        !occurs(a + sep + b, pat),
{
    let s = a + sep + b;
    assert forall|i: int| !occurs_at(s, pat, i) by {
        if occurs_at(s, pat, i) {
            let part = s.subrange(i, i + pat.len());
            if i + pat.len() <= a.len() {
                assert(a.subrange(i, i + pat.len()) =~= part);
                assert(occurs_at(a, pat, i));
            } else if i >= a.len() + sep.len() {
                let k = i - a.len() - sep.len();
                assert(b.subrange(k, k + pat.len()) =~= part);
                assert(occurs_at(b, pat, k));
            } else {
                let k: int = if i <= a.len() {
                    a.len() as int
                } else {
                    i
                };
                assert(s[k] == sep[k - a.len()]);
                assert(part[k - i] == s[k]);
                assert(pat.contains(sep[k - a.len()]));
            }
        }
    }
}

/// Whether a text holds no separator of a requirement.
pub open spec fn no_separator(s: Seq<char>) -> bool {
    &&& !s.contains('=')
    &&& !s.contains('!')
    &&& !occurs(s, " in "@)
    &&& !occurs(s, " notin "@)
}

/// One and two equals signs mean the same: that the key has the value.
pub proof fn law_equals_signs(key: Seq<char>, value: Seq<char>)
    requires
        no_separator(key),
        no_separator(value),
    ensures
        requirement_of(key + "=="@ + value) == (RequirementV::Equal {
            key: trim(key),
            value: trim(value),
        }),
        requirement_of(key + "="@ + value) == (RequirementV::Equal {
            key: trim(key),
            value: trim(value),
        }),
        requirement_of(key + "!="@ + value) == (RequirementV::NotEqual {
            key: trim(key),
            value: trim(value),
        }),
        is_trimmed(key) && is_trimmed(value) ==> requirement_of(key + "=="@ + value) == (
        RequirementV::Equal { key, value }),
        is_trimmed(key) && is_trimmed(value) ==> requirement_of(key + "="@ + value) == (
        RequirementV::Equal { key, value }),
        is_trimmed(key) && is_trimmed(value) ==> requirement_of(key + "!="@ + value) == (
        RequirementV::NotEqual { key, value }),
{
    reveal_strlit("!=");
    reveal_strlit("==");
    reveal_strlit("=");
    reveal_strlit(" in ");
    reveal_strlit(" notin ");
    let double = key + "=="@ + value;
    let single = key + "="@ + value;
    let unequal = key + "!="@ + value;
    lemma_between(key, "=="@, value, " in "@);
    lemma_between(key, "=="@, value, " notin "@);
    lemma_between(key, "="@, value, " in "@);
    lemma_between(key, "="@, value, " notin "@);
    lemma_between(key, "!="@, value, " in "@);
    lemma_between(key, "!="@, value, " notin "@);
    assert forall|i: int| !occurs_at(double, "!="@, i) by {
        if occurs_at(double, "!="@, i) {
            assert(double.subrange(i, i + 2)[0] == double[i]);
            lemma_char_of(key, "=="@, value, '!', i);
        }
    }
    assert forall|i: int| !occurs_at(single, "!="@, i) by {
        if occurs_at(single, "!="@, i) {
            assert(single.subrange(i, i + 2)[0] == single[i]);
            lemma_char_of(key, "="@, value, '!', i);
        }
    }
    assert forall|i: int| !occurs_at(single, "=="@, i) by {
        if occurs_at(single, "=="@, i) {
            assert(single.subrange(i, i + 2)[0] == single[i]);
            assert(single.subrange(i, i + 2)[1] == single[i + 1]);
            if i < key.len() {
                assert(key[i] == '=');
            } else {
                assert(value[i - key.len()] == '=');
            }
        }
    }
    assert forall|j: int| 0 <= j < key.len() implies !#[trigger] occurs_at(double, "=="@, j) by {
        assert(double[j] == key[j]);
        if occurs_at(double, "=="@, j) {
            assert(double.subrange(j, j + 2)[0] == double[j]);
        }
    }
    assert forall|j: int| 0 <= j < key.len() implies !#[trigger] occurs_at(single, "="@, j) by {
        assert(single[j] == key[j]);
        if occurs_at(single, "="@, j) {
            assert(single.subrange(j, j + 1)[0] == single[j]);
        }
    }
    assert forall|j: int| 0 <= j < key.len() implies !#[trigger] occurs_at(unequal, "!="@, j) by {
        assert(unequal[j] == key[j]);
        if occurs_at(unequal, "!="@, j) {
            assert(unequal.subrange(j, j + 2)[0] == unequal[j]);
        }
    }
    law_requirement_is_read(key, value);
    lemma_trimmed(key);
    lemma_trimmed(value);
}

proof fn lemma_char_of(a: Seq<char>, sep: Seq<char>, b: Seq<char>, c: char, i: int)
    requires
        0 <= i < (a + sep + b).len(),
        (a + sep + b)[i] == c,
        !a.contains(c),
        !b.contains(c),
    ensures
        sep.contains(c),
{
    if i < a.len() {
        assert(a[i] == c);
    } else if i < a.len() + sep.len() {
        assert(sep[i - a.len()] == c);
    } else {
        assert(b[i - a.len() - sep.len()] == c);
    }
}

proof fn lemma_trimmed(s: Seq<char>)
    ensures
        is_trimmed(s) ==> trim(s) == s,
{
}

// ---- sets and lists ----

/// The parts that hold more than white space, without white space at their ends.
pub open spec fn tidied(parts: Seq<Seq<char>>) -> Seq<Seq<char>> {
    parts.map_values(|p: Seq<char>| trim(p)).filter(|p: Seq<char>| p.len() > 0)
}

proof fn lemma_tidied(parts: Seq<Seq<char>>)
    ensures
        kept(parts) == tidied(parts),
    decreases parts.len(),
{
    reveal(Seq::filter);
    let trimmed = parts.map_values(|p: Seq<char>| trim(p));
    if parts.len() > 0 {
        lemma_tidied(parts.drop_last());
        assert(trimmed.drop_last() =~= parts.drop_last().map_values(|p: Seq<char>| trim(p)));
    }
    assert(kept(parts) =~= tidied(parts));
}

/// Whether a text holds no parenthesis.
pub open spec fn no_parenthesis(s: Seq<char>) -> bool {
    !s.contains('(') && !s.contains(')')
}

/// The members of a set stand between commas. The parentheses round them may be missing,
/// and empty members count for nothing.
pub proof fn law_set_is_read(body: Seq<char>)
    requires
        no_parenthesis(body),
    ensures
        set_members("("@ + body + ")"@) == tidied(split(body, ',')),
        set_members(body) == tidied(split(trim(body), ',')),
{
    reveal_strlit("(");
    reveal_strlit(")");
    let s = "("@ + body + ")"@;
    assert(is_trimmed(s));
    assert(s.drop_first() =~= body + ")"@);
    let t = body + ")"@;
    assert(strip_start(t, '(') == t) by {
        if body.len() > 0 {
            assert(t.first() == body[0]);
            assert(body.contains(body[0]));
        }
    }
    assert(t.drop_last() =~= body);
    lemma_bare(body);
    assert(strip_end(t, ')') == body);
    lemma_tidied(split(body, ','));
    let ends = crate::text_laws::law_trim(body);
    let inner = trim(body);
    assert forall|i: int| 0 <= i < inner.len() implies body.contains(#[trigger] inner[i]) by {
        assert(body[ends.0.len() + i] == inner[i]);
    }
    lemma_bare(inner);
    lemma_tidied(split(inner, ','));
}

proof fn lemma_bare(s: Seq<char>)
    requires
        no_parenthesis(s),
    ensures
        strip_start(s, '(') == s,
        strip_end(s, ')') == s,
{
    if s.len() > 0 {
        assert(s.contains(s[0]));
        assert(s.contains(s[s.len() - 1]));
    }
}

proof fn lemma_flat(s: Seq<char>)
    requires
        no_parenthesis(s),
    ensures
        depth(s) == 0,
    decreases s.len(),
{
    if s.len() > 0 {
        assert(s.contains(s.last()));
        let front = s.drop_last();
        assert forall|c: char| front.contains(c) implies s.contains(c) by {
            let k = choose|k: int| 0 <= k < front.len() && front[k] == c;
            assert(s[k] == c);
        }
        lemma_flat(front);
    }
}

/// The commas inside a set do not part a selector.
pub proof fn law_commas_in_sets(before: Seq<char>, set: Seq<char>, after: Seq<char>)
    requires
        no_parenthesis(before) && !before.contains(','),
        no_parenthesis(set),
        no_parenthesis(after) && !after.contains(','),
    ensures
        ({
            let sel = before + "("@ + set + ")"@ + after;
            raw_requirements(sel) == seq![trim(sel)]
        }),
{
    reveal_strlit("(");
    reveal_strlit(")");
    let sel = before + "("@ + set + ")"@ + after;
    let cut = at_top_comma();
    let none = Seq::<char>::empty();
    assert forall|j: int| 0 <= j < sel.len() implies !cut(none + #[trigger] sel.take(j + 1)) by {
        let p = none + sel.take(j + 1);
        assert(p =~= sel.take(j + 1));
        assert(p.last() == sel[j]);
        if sel[j] == ',' {
            let k = j - before.len() - 1;
            if j < before.len() {
                assert(before[j] == ',');
            } else if k >= set.len() {
                if k > set.len() {
                    assert(after[k - set.len() - 1] == ',');
                }
            } else {
                let inner = set.take(k);
                assert forall|c: char| inner.contains(c) implies set.contains(c) by {
                    let n = choose|n: int| 0 <= n < inner.len() && inner[n] == c;
                    assert(set[n] == c);
                }
                lemma_flat(before);
                lemma_flat(inner);
                assert(p.drop_last() =~= before + "("@ + inner);
                lemma_depth_append(before + "("@, inner);
                lemma_depth_append(before, "("@);
                assert("("@.drop_last() =~= none);
                assert(depth(none) == 0);
                assert("("@.last() == '(');
                assert(depth("("@) == 1);
            }
        }
    }
    lemma_pieces_grow(none, sel, cut);
    assert(none + sel =~= sel);
    assert(pieces(none, cut) =~= seq![none]);
    let all = pieces(sel, cut);
    assert(all =~= seq![sel]);
    let ends = crate::text_laws::law_trim(sel);
    if trim(sel).len() == 0 {
        let at = before.len() as int;
        assert(sel[at] == '(');
        if at < ends.0.len() {
            assert(ends.0[at] == '(');
        } else {
            assert(ends.1[at - ends.0.len()] == '(');
        }
    }
    assert(all.drop_last() =~= Seq::<Seq<char>>::empty());
    assert(kept(all.drop_last()) =~= Seq::<Seq<char>>::empty());
    assert(raw_requirements(sel) =~= seq![trim(sel)]);
}

/// The requirements of a selector are those of its parts, in their order; empty parts count
/// for nothing.
pub proof fn law_parts_are_read(sel: Seq<char>)
    ensures
        requirements_of(sel) == tidied(pieces(sel, at_top_comma())).map_values(
            |p: Seq<char>| requirement_of(p),
        ),
{
    lemma_tidied(pieces(sel, at_top_comma()));
    assert(requirements_of(sel) =~= tidied(pieces(sel, at_top_comma())).map_values(
        |p: Seq<char>| requirement_of(p),
    ));
}

/// Without parentheses a selector is parted at every comma; empty parts count for nothing.
pub proof fn law_selector_is_parted(sel: Seq<char>)
    requires
        no_parenthesis(sel),
    ensures
        requirements_of(sel) == tidied(split(sel, ',')).map_values(
            |p: Seq<char>| requirement_of(p),
        ),
{
    lemma_commas(sel);
    lemma_tidied(split(sel, ','));
    assert(requirements_of(sel) =~= tidied(split(sel, ',')).map_values(
        |p: Seq<char>| requirement_of(p),
    ));
}

proof fn lemma_commas(sel: Seq<char>)
    requires
        no_parenthesis(sel),
    ensures
        pieces(sel, at_top_comma()) == split(sel, ','),
    decreases sel.len(),
{
    if sel.len() > 0 {
        let front = sel.drop_last();
        assert forall|c: char| front.contains(c) implies sel.contains(c) by {
            let k = choose|k: int| 0 <= k < front.len() && front[k] == c;
            assert(sel[k] == c);
        }
        lemma_commas(front);
        lemma_flat(front);
        assert(at_top_comma()(sel) == crate::text::at_char(',')(sel));
    }
}

// ---- matching ----

/// What each requirement asks of a label that is there with a text, is not there, or is
/// there with something else.
pub proof fn law_matching(
    labels: Map<Seq<char>, JsonV>,
    key: Seq<char>,
    text: Seq<char>,
    value: Seq<char>,
    values: Seq<Seq<char>>,
)
    ensures
        labels.contains_key(key) && labels[key] == JsonV::Text(text) ==> {
            &&& satisfies(labels, RequirementV::Equal { key, value }) <==> text == value
            &&& satisfies(labels, RequirementV::NotEqual { key, value }) <==> text != value
            &&& satisfies(labels, RequirementV::In { key, values }) <==> values.contains(text)
            &&& satisfies(labels, RequirementV::NotIn { key, values }) <==> !values.contains(text)
        },
        !labels.contains_key(key) || !(labels[key] is Text) ==> {
            &&& !satisfies(labels, RequirementV::Equal { key, value })
            &&& satisfies(labels, RequirementV::NotEqual { key, value })
            &&& !satisfies(labels, RequirementV::In { key, values })
            &&& satisfies(labels, RequirementV::NotIn { key, values })
        },
        satisfies(labels, RequirementV::Exists { key }) <==> labels.contains_key(key),
        satisfies(labels, RequirementV::DoesNotExist { key }) <==> !labels.contains_key(key),
{
}

/// The document of a requirement: its key, the word for what it asks, and its value or
/// values.
pub open spec fn requirement_told(r: RequirementV) -> JsonV {
    match r {
        RequirementV::Equal { key, value } => word_told(key, "Equal"@).with(
            "value"@,
            JsonV::Text(value),
        ),
        RequirementV::NotEqual { key, value } => word_told(key, "NotEqual"@).with(
            "value"@,
            JsonV::Text(value),
        ),
        RequirementV::In { key, values } => word_told(key, "In"@).with(
            "values"@,
            JsonV::Array(Seq::new(values.len(), |i: int| JsonV::Text(values[i]))),
        ),
        RequirementV::NotIn { key, values } => word_told(key, "NotIn"@).with(
            "values"@,
            JsonV::Array(Seq::new(values.len(), |i: int| JsonV::Text(values[i]))),
        ),
        RequirementV::Exists { key } => word_told(key, "Exists"@),
        RequirementV::DoesNotExist { key } => word_told(key, "DoesNotExist"@),
    }
}

/// The key of a requirement and the word for what it asks.
pub open spec fn word_told(key: Seq<char>, word: Seq<char>) -> JsonV {
    object_of("key"@, JsonV::Text(key)).with("op"@, JsonV::Text(word))
}

/// The documents of the requirements of a selector, in their order.
pub open spec fn selector_told(sel: Seq<char>) -> JsonV {
    JsonV::Array(
        Seq::new(
            requirements_of(sel).len(),
            |i: int| requirement_told(requirements_of(sel)[i]),
        ),
    )
}

proof fn lemma_told(sel: Seq<char>)
    ensures
        selector_told(sel) == crate::selector::requirements_json(requirements_of(sel)),
{
    let reqs = requirements_of(sel);
    let told = Seq::new(reqs.len(), |i: int| requirement_told(reqs[i]));
    let docs = Seq::new(reqs.len(), |i: int| requirement_json(reqs[i]));
    assert forall|i: int| 0 <= i < reqs.len() implies told[i] == docs[i] by {
        match reqs[i] {
            RequirementV::In { values, .. } => {
                assert(crate::json::text_array(values) == JsonV::Array(
                    Seq::new(values.len(), |k: int| JsonV::Text(values[k])),
                ));
            },
            RequirementV::NotIn { values, .. } => {
                assert(crate::json::text_array(values) == JsonV::Array(
                    Seq::new(values.len(), |k: int| JsonV::Text(values[k])),
                ));
            },
            _ => {},
        }
    }
    assert(told =~= docs);
}

/// To parse a selector tells of each of its requirements; to match it against labels says
/// as well whether the labels meet every one of them. What is missing is said.
pub proof fn law_selector_is_told(
    opts: JsonV,
    sel: Option<Seq<char>>,
    labels: Map<Seq<char>, JsonV>,
)
    requires
        text_is(opts, "selector"@, sel),
    ensures
        sel is None ==> parse_selector_outcome(opts) == Err::<JsonV, _>("missing selector"@),
        sel is Some ==> parse_selector_outcome(opts) == Ok::<_, Seq<char>>(
            object_of("requirements"@, selector_told(sel->0)),
        ),
        !(opts.field("labels"@) is Object) ==> selector_matches_outcome(opts) == Err::<JsonV, _>(
            "missing labels (object)"@,
        ),
        holds(opts, "labels"@, JsonV::Object(labels)) && sel is None ==> selector_matches_outcome(
            opts,
        ) == Err::<JsonV, _>("missing selector"@),
        holds(opts, "labels"@, JsonV::Object(labels)) && sel is Some ==> selector_matches_outcome(
            opts,
        ) == Ok::<_, Seq<char>>(
            object_of(
                "matches"@,
                JsonV::Bool(
                    forall|i: int|
                        0 <= i < requirements_of(sel->0).len() ==> satisfies(
                            labels,
                            #[trigger] requirements_of(sel->0)[i],
                        ),
                ),
            ).with("requirements"@, selector_told(sel->0)),
        ),
{
    lemma_text(opts, "selector"@, sel);
    if sel is Some {
        lemma_told(sel->0);
        assert(satisfies_all(labels, requirements_of(sel->0)) <==> forall|i: int|
            0 <= i < requirements_of(sel->0).len() ==> satisfies(
                labels,
                #[trigger] requirements_of(sel->0)[i],
            ));
    }
}

// ---- building ----

/// Each requirement is written in its own notation, and a selector has commas between its
/// requirements.
pub proof fn law_selector_is_written(
    key: Seq<char>,
    value: Seq<char>,
    values: Seq<Seq<char>>,
    reqs: Seq<RequirementV>,
)
    ensures
        written(RequirementV::Equal { key, value }) == key + "="@ + value,
        written(RequirementV::NotEqual { key, value }) == key + "!="@ + value,
        written(RequirementV::In { key, values }) == key + " in ("@ + join(values, ","@) + ")"@,
        written(RequirementV::NotIn { key, values }) == key + " notin ("@ + join(values, ","@)
            + ")"@,
        written(RequirementV::Exists { key }) == key,
        written(RequirementV::DoesNotExist { key }) == "!"@ + key,
        selector_text(reqs) == join(reqs.map_values(|r: RequirementV| written(r)), ","@),
{
    assert(Seq::new(reqs.len(), |i: int| written(reqs[i])) =~= reqs.map_values(
        |r: RequirementV| written(r),
    ));
}

/// A document describes a requirement by its key, the word for what it asks, which is
/// `Equal` where there is none, and its value, which is empty where there is none, or its
/// values, where what is no text counts as an empty one.
pub proof fn law_description_is_read(
    doc: JsonV,
    key: Option<Seq<char>>,
    word: Option<Seq<char>>,
    value: Option<Seq<char>>,
)
    requires
        text_is(doc, "key"@, key),
        text_is(doc, "op"@, word),
        text_is(doc, "value"@, value),
    ensures
        key is None ==> described(doc) == Err::<RequirementV, _>("requirement missing key"@),
        key is Some ==> {
            let k = key->0;
            let v = if value is Some {
                value->0
            } else {
                Seq::empty()
            };
            &&& word is None || word == Some("Equal"@) ==> described(doc) == Ok::<_, Seq<char>>(
                RequirementV::Equal { key: k, value: v },
            )
            &&& word == Some("NotEqual"@) ==> described(doc) == Ok::<_, Seq<char>>(
                RequirementV::NotEqual { key: k, value: v },
            )
            &&& word == Some("Exists"@) ==> described(doc) == Ok::<_, Seq<char>>(
                RequirementV::Exists { key: k },
            )
            &&& word == Some("DoesNotExist"@) ==> described(doc) == Ok::<_, Seq<char>>(
                RequirementV::DoesNotExist { key: k },
            )
            &&& (word == Some("In"@) || word == Some("NotIn"@)) && !(doc.field(
                "values"@,
            ) is Array) ==> described(doc) == Err::<RequirementV, _>(
                "set-based op needs `values` array"@,
            )
            &&& word == Some("In"@) && doc.field("values"@) is Array ==> described(doc) == Ok::<
                _,
                Seq<char>,
            >(RequirementV::In { key: k, values: members_told(doc.field("values"@)) })
            &&& word == Some("NotIn"@) && doc.field("values"@) is Array ==> described(doc) == Ok::<
                _,
                Seq<char>,
            >(RequirementV::NotIn { key: k, values: members_told(doc.field("values"@)) })
            &&& word is Some && word != Some("Equal"@) && word != Some("NotEqual"@) && word != Some(
                "In"@,
            ) && word != Some("NotIn"@) && word != Some("Exists"@) && word != Some(
                "DoesNotExist"@,
            ) ==> described(doc) == Err::<RequirementV, _>(
                "unknown selector op `"@ + word->0 + "`"@,
            )
        },
{
    lemma_text(doc, "key"@, key);
    lemma_text(doc, "op"@, word);
    lemma_text(doc, "value"@, value);
    reveal_strlit("Equal");
    reveal_strlit("NotEqual");
    reveal_strlit("In");
    reveal_strlit("NotIn");
    reveal_strlit("Exists");
    reveal_strlit("DoesNotExist");
    assert("Equal"@.len() == 5 && "NotIn"@.len() == 5 && "Equal"@[0] != "NotIn"@[0]);
    assert("NotEqual"@.len() == 8 && "In"@.len() == 2 && "Exists"@.len() == 6
        && "DoesNotExist"@.len() == 12);
    if let JsonV::Array(items) = doc.field("values"@) {
        assert(texts_of(items) =~= members_told(doc.field("values"@)));
    }
}

/// The texts of an array; what is no text counts as an empty one.
pub open spec fn members_told(values: JsonV) -> Seq<Seq<char>> {
    Seq::new(
        values->Array_0.len(),
        |i: int|
            if values->Array_0[i] is Text {
                values->Array_0[i]->Text_0
            } else {
                Seq::empty()
            },
    )
}

/// A selector is built from every description in its order, or the fault is that of the
/// first description that has one.
pub proof fn law_selector_is_built(opts: JsonV, items: Seq<JsonV>, first: int)
    ensures
        !(opts.field("requirements"@) is Array) ==> build_selector_outcome(opts) == Err::<
            JsonV,
            _,
        >("missing requirements (array)"@),
        opts.field("requirements"@) == JsonV::Array(items) && (forall|i: int|
            0 <= i < items.len() ==> #[trigger] described(items[i]) is Ok)
            ==> build_selector_outcome(opts) == Ok::<_, Seq<char>>(
            object_of(
                "selector"@,
                JsonV::Text(
                    join(
                        Seq::new(items.len(), |i: int| written(described(items[i])->Ok_0)),
                        ","@,
                    ),
                ),
            ),
        ),
        opts.field("requirements"@) == JsonV::Array(items) && 0 <= first < items.len()
            && described(items[first]) is Err && (forall|i: int|
            0 <= i < first ==> #[trigger] described(items[i]) is Ok) ==> build_selector_outcome(
            opts,
        ) == Err::<JsonV, _>(described(items[first])->Err_0),
{
    if opts.field("requirements"@) == JsonV::Array(items) {
        if forall|i: int| 0 <= i < items.len() ==> #[trigger] described(items[i]) is Ok {
            lemma_all_described(items);
            let reqs = all_described(items)->Ok_0;
            assert(Seq::new(reqs.len(), |i: int| written(reqs[i])) =~= Seq::new(
                items.len(),
                |i: int| written(described(items[i])->Ok_0),
            ));
        }
        if 0 <= first < items.len() && described(items[first]) is Err && (forall|i: int|
            0 <= i < first ==> #[trigger] described(items[i]) is Ok) {
            lemma_first_fault(items, first);
        }
    }
}

proof fn lemma_all_described(items: Seq<JsonV>)
    requires
        forall|i: int| 0 <= i < items.len() ==> #[trigger] described(items[i]) is Ok,
    ensures
        all_described(items) == Ok::<_, Seq<char>>(
            Seq::new(items.len(), |i: int| described(items[i])->Ok_0),
        ),
    decreases items.len(),
{
    if items.len() > 0 {
        let front = items.drop_last();
        assert forall|i: int| 0 <= i < front.len() implies #[trigger] described(front[i]) is Ok by {
            assert(described(items[i]) is Ok);
        }
        lemma_all_described(front);
        assert(described(items[items.len() - 1]) is Ok);
    }
    assert(all_described(items) is Ok);
    assert(all_described(items)->Ok_0 =~= Seq::new(
        items.len(),
        |i: int| described(items[i])->Ok_0,
    ));
}

proof fn lemma_first_fault(items: Seq<JsonV>, first: int)
    requires
        0 <= first < items.len(),
        described(items[first]) is Err,
        forall|i: int| 0 <= i < first ==> #[trigger] described(items[i]) is Ok,
    ensures
        all_described(items) == Err::<Seq<RequirementV>, _>(described(items[first])->Err_0),
    decreases items.len(),
{
    let front = items.drop_last();
    if first < items.len() - 1 {
        assert forall|i: int| 0 <= i < first implies #[trigger] described(front[i]) is Ok by {
            assert(described(items[i]) is Ok);
        }
        lemma_first_fault(front, first);
    } else {
        assert forall|i: int| 0 <= i < front.len() implies #[trigger] described(front[i]) is Ok by {
            assert(described(items[i]) is Ok);
        }
        lemma_all_described(front);
    }
}

// ---- parentheses ----

/// How deep a text is in parentheses: by how many more are opened than closed.
pub proof fn law_depth(s: Seq<char>)
    ensures
        depth(s) == s.filter(|c: char| c == '(').len() - s.filter(|c: char| c == ')').len(),
    decreases s.len(),
{
    reveal(Seq::filter);
    if s.len() > 0 {
        law_depth(s.drop_last());
    }
}

/// A comma parts a selector exactly where as many parentheses are opened as closed.
pub proof fn law_commas_part(before: Seq<char>)
    ensures
        ({
            let parts = pieces(before, at_top_comma());
            let all = pieces(before.push(','), at_top_comma());
            let opened = before.filter(|c: char| c == '(').len();
            let closed = before.filter(|c: char| c == ')').len();
            &&& parts.len() > 0
            &&& opened == closed ==> all == parts.push(Seq::empty())
            &&& opened != closed ==> all == parts.drop_last().push(parts.last().push(','))
        }),
{
    crate::text::lemma_pieces_some(before, at_top_comma());
    law_depth(before);
    assert(before.push(',').drop_last() =~= before);
    assert(before.push(',').last() == ',');
}

/// Every other character belongs to the part that it stands in.
pub proof fn law_others_do_not_part(before: Seq<char>, c: char)
    requires
        c != ',',
    ensures
        ({
            let parts = pieces(before, at_top_comma());
            &&& parts.len() > 0
            &&& pieces(before.push(c), at_top_comma()) == parts.drop_last().push(
                parts.last().push(c),
            )
        }),
{
    crate::text::lemma_pieces_some(before, at_top_comma());
    assert(before.push(c).drop_last() =~= before);
    assert(before.push(c).last() == c);
}

/// Whether a text is one character over and over.
pub open spec fn all_are(s: Seq<char>, c: char) -> bool {
    forall|i: int| 0 <= i < s.len() ==> #[trigger] s[i] == c
}

proof fn lemma_strip_start(opens: Seq<char>, rest: Seq<char>)
    requires
        all_are(opens, '('),
        rest.len() > 0 ==> rest.first() != '(',
    ensures
        strip_start(opens + rest, '(') == rest,
    decreases opens.len(),
{
    let s = opens + rest;
    if opens.len() == 0 {
        assert(s =~= rest);
    } else {
        assert(opens[0] == '(');
        assert(s.drop_first() =~= opens.drop_first() + rest);
        assert forall|i: int| 0 <= i < opens.drop_first().len() implies #[trigger] opens.drop_first()[i]
            == '(' by {
            assert(opens[i + 1] == '(');
        }
        lemma_strip_start(opens.drop_first(), rest);
    }
}

proof fn lemma_strip_end(rest: Seq<char>, closes: Seq<char>)
    requires
        all_are(closes, ')'),
        rest.len() > 0 ==> rest.last() != ')',
    ensures
        strip_end(rest + closes, ')') == rest,
    decreases closes.len(),
{
    let s = rest + closes;
    if closes.len() == 0 {
        assert(s =~= rest);
    } else {
        assert(closes[closes.len() - 1] == ')');
        assert(s.drop_last() =~= rest + closes.drop_last());
        lemma_strip_end(rest, closes.drop_last());
    }
}

/// The parentheses at the two ends of a set are taken off, however many there are, and
/// those inside stay.
pub proof fn law_parentheses_are_taken_off(
    white: Seq<char>,
    opens: Seq<char>,
    body: Seq<char>,
    closes: Seq<char>,
    more: Seq<char>,
)
    requires
        all_are(opens, '('),
        all_are(closes, ')'),
        body.len() > 0 && body.first() != '(' && body.last() != ')',
        trim(white + opens + body + closes + more) == opens + body + closes,
    ensures
        set_members(white + opens + body + closes + more) == tidied(split(body, ',')),
{
    assert(opens + body + closes =~= opens + (body + closes));
    lemma_strip_start(opens, body + closes);
    lemma_strip_end(body, closes);
    lemma_tidied(split(body, ','));
}

} // verus!
