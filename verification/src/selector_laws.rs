//! What holds of label selectors as a whole: how they compose, and that
//! writing and parsing undo each other.

use vstd::prelude::*;

use crate::json::JsonV;
use crate::selector::{
    all_described, at_top_comma, build_selector_outcome, depth, described, kept,
    parse_selector_outcome, raw_requirements, requirement_json, requirement_of, requirements_json,
    requirements_of, satisfies, satisfies_all, selector_text, set_members, strip_end, strip_start,
    written, RequirementV,
};
use crate::text::{
    at_char, find_from, is_trimmed, is_white, join, lemma_pieces_some, occurs, occurs_at, pieces,
    split, split_once, trim, trim_end, trim_start,
};

verus! {

// ---- searching ----

proof fn lemma_find_from(s: Seq<char>, pat: Seq<char>, i: int, at: int)
    requires
        0 <= i <= at,
        occurs_at(s, pat, at),
        forall|j: int| i <= j < at ==> !#[trigger] occurs_at(s, pat, j),
    ensures
        find_from(s, pat, i) == Some(at),
    decreases at - i,
{
    if i < at {
        lemma_find_from(s, pat, i + 1, at);
    }
}

proof fn lemma_find_none(s: Seq<char>, pat: Seq<char>, i: int)
    requires
        0 <= i,
        !occurs(s, pat),
    ensures
        find_from(s, pat, i) is None,
    decreases s.len() - i + 1,
{
    if i + pat.len() <= s.len() {
        assert(!occurs_at(s, pat, i));
        lemma_find_none(s, pat, i + 1);
    }
}

/// Where the first `pat` of `k + pat + rest` stands right after `k`, the text is cut there.
pub(crate) proof fn lemma_split_once(k: Seq<char>, pat: Seq<char>, rest: Seq<char>)
    requires
        forall|j: int| 0 <= j < k.len() ==> !#[trigger] occurs_at(k + pat + rest, pat, j),
    ensures
        split_once(k + pat + rest, pat) == Some((k, rest)),
{
    let s = k + pat + rest;
    let n = k.len() as int;
    assert(s.subrange(n, n + pat.len()) =~= pat);
    lemma_find_from(s, pat, 0, n);
    assert(s.take(n) =~= k);
    assert(s.skip(n + pat.len()) =~= rest);
}

pub(crate) proof fn lemma_no_split(s: Seq<char>, pat: Seq<char>)
    requires
        !occurs(s, pat),
    ensures
        split_once(s, pat) is None,
{
    lemma_find_none(s, pat, 0);
}

// ---- pieces ----

/// Characters that do not cut lengthen the last piece.
pub(crate) proof fn lemma_pieces_grow(a: Seq<char>, b: Seq<char>, cut: spec_fn(Seq<char>) -> bool)
    requires
        forall|j: int| 0 <= j < b.len() ==> !cut(a + #[trigger] b.take(j + 1)),
    ensures
        pieces(a + b, cut).len() == pieces(a, cut).len(),
        pieces(a, cut).len() > 0,
        pieces(a + b, cut) == pieces(a, cut).drop_last().push(pieces(a, cut).last() + b),
    decreases b.len(),
{
    lemma_pieces_some(a, cut);
    if b.len() == 0 {
        assert(a + b =~= a);
        let p = pieces(a, cut);
        assert(p.last() + b =~= p.last());
        assert(p.drop_last().push(p.last()) =~= p);
    } else {
        let c = b.drop_last();
        assert forall|j: int| 0 <= j < c.len() implies !cut(a + #[trigger] c.take(j + 1)) by {
            assert(c.take(j + 1) =~= b.take(j + 1));
        }
        lemma_pieces_grow(a, c, cut);
        assert((a + b).drop_last() =~= a + c);
        let n = b.len() - 1;
        assert(!cut(a + b.take(n + 1)));
        assert(b.take(n + 1) =~= b);
        let p = pieces(a, cut);
        let before = pieces(a + c, cut);
        assert(before.drop_last() =~= p.drop_last());
        assert(before.last() =~= p.last() + c);
        assert((p.last() + c).push(b.last()) =~= p.last() + b);
    }
}

/// Where `cut` cuts exactly at the commas between the parts, the pieces are the parts.
proof fn lemma_pieces_of_join(parts: Seq<Seq<char>>, cut: spec_fn(Seq<char>) -> bool)
    requires
        parts.len() > 0,
        forall|i: int|
            0 < i < parts.len() ==> cut(join(#[trigger] parts.take(i), seq![',']) + seq![',']),
        forall|i: int, j: int|
            0 <= i < parts.len() && 0 <= j < parts[i].len() ==> !cut(
                #[trigger] before_part(parts, i) + #[trigger] parts[i].take(j + 1),
            ),
    ensures
        pieces(join(parts, seq![',']), cut) == parts,
    decreases parts.len(),
{
    let sep = seq![','];
    let n = parts.len() as int;
    let last = parts.last();
    let head = before_part(parts, n - 1);
    if n == 1 {
        assert(head =~= Seq::empty());
        lemma_pieces_grow(head, last, cut);
        assert(head + last =~= parts[0]);
        assert(pieces(head, cut) =~= seq![Seq::<char>::empty()]);
        assert(Seq::<char>::empty() + last =~= last);
        assert(pieces(parts[0], cut) =~= parts);
    } else {
        let front = parts.drop_last();
        assert(front =~= parts.take(n - 1));
        assert forall|i: int| 0 < i < front.len() implies cut(
            join(#[trigger] front.take(i), sep) + sep,
        ) by {
            assert(front.take(i) =~= parts.take(i));
        }
        assert forall|i: int, j: int|
            0 <= i < front.len() && 0 <= j < front[i].len() implies !cut(
            #[trigger] before_part(front, i) + #[trigger] front[i].take(j + 1),
        ) by {
            assert(front.take(i) =~= parts.take(i));
            assert(front[i] == parts[i]);
            assert(!cut(before_part(parts, i) + parts[i].take(j + 1)));
        }
        lemma_pieces_of_join(front, cut);
        let whole = join(front, sep);
        assert(head == whole + sep);
        assert(cut(join(parts.take(n - 1), sep) + sep));
        assert(head.drop_last() =~= whole);
        assert(pieces(head, cut) == front.push(Seq::empty()));
        lemma_pieces_grow(head, last, cut);
        assert(front.push(Seq::empty()).drop_last() =~= front);
        assert(Seq::<char>::empty() + last =~= last);
        assert(front.push(last) =~= parts);
        assert(whole + sep + last =~= join(parts, sep));
    }
}

/// What stands before a part in the joined text.
spec fn before_part(parts: Seq<Seq<char>>, i: int) -> Seq<char> {
    if i == 0 {
        Seq::empty()
    } else {
        join(parts.take(i), seq![',']) + seq![',']
    }
}

/// Joining the pieces of a text with commas gives the text back, whatever
/// commas it was cut at.
proof fn lemma_join_pieces(s: Seq<char>, cut: spec_fn(Seq<char>) -> bool)
    requires
        forall|p: Seq<char>| p.len() > 0 && #[trigger] cut(p) ==> p.last() == ',',
    ensures
        join(pieces(s, cut), seq![',']) == s,
    decreases s.len(),
{
    let sep = seq![','];
    lemma_pieces_some(s, cut);
    if s.len() == 0 {
        assert(join(pieces(s, cut), sep) =~= s);
    } else {
        let before = pieces(s.drop_last(), cut);
        lemma_pieces_some(s.drop_last(), cut);
        lemma_join_pieces(s.drop_last(), cut);
        if cut(s) {
            let now = before.push(Seq::empty());
            assert(now.drop_last() =~= before);
            assert(join(now, sep) =~= join(before, sep) + sep);
            assert(s =~= s.drop_last() + sep);
        } else {
            let now = before.drop_last().push(before.last().push(s.last()));
            if before.len() == 1 {
                assert(join(now, sep) =~= before[0].push(s.last()));
            } else {
                assert(now.drop_last() =~= before.drop_last());
                assert(join(now, sep) =~= join(before, sep).push(s.last()));
            }
            assert(s =~= s.drop_last().push(s.last()));
        }
    }
}

// ---- depth ----

pub(crate) proof fn lemma_depth_append(a: Seq<char>, b: Seq<char>)
    ensures
        depth(a + b) == depth(a) + depth(b),
    decreases b.len(),
{
    if b.len() == 0 {
        assert(a + b =~= a);
    } else {
        assert((a + b).drop_last() =~= a + b.drop_last());
        lemma_depth_append(a, b.drop_last());
    }
}

proof fn lemma_depth_comma()
    ensures
        depth(seq![',']) == 0,
{
    reveal_with_fuel(depth, 2);
}

// ---- trimming ----

proof fn lemma_kept_all(parts: Seq<Seq<char>>)
    requires
        forall|i: int| 0 <= i < parts.len() ==> is_trimmed(#[trigger] parts[i]) && parts[i].len() > 0,
    ensures
        kept(parts) == parts,
    decreases parts.len(),
{
    if parts.len() > 0 {
        lemma_kept_all(parts.drop_last());
        assert(is_trimmed(parts.last()));
        assert(parts.drop_last().push(parts.last()) =~= parts);
    } else {
        assert(kept(parts) =~= parts);
    }
}

pub(crate) proof fn lemma_kept_append(a: Seq<Seq<char>>, b: Seq<Seq<char>>)
    ensures
        kept(a + b) == kept(a) + kept(b),
    decreases b.len(),
{
    if b.len() == 0 {
        assert(a + b =~= a);
        assert(kept(a) + kept(b) =~= kept(a));
    } else {
        assert((a + b).drop_last() =~= a + b.drop_last());
        lemma_kept_append(a, b.drop_last());
        assert(kept(a + b) =~= kept(a) + kept(b));
    }
}

proof fn lemma_trim_start(s: Seq<char>)
    ensures
        trim_start(s).len() > 0 ==> !is_white(trim_start(s).first()),
    decreases s.len(),
{
    if s.len() > 0 && is_white(s.first()) {
        lemma_trim_start(s.drop_first());
    }
}

pub(crate) proof fn lemma_trim_end(s: Seq<char>)
    ensures
        trim_end(s).len() > 0 ==> !is_white(trim_end(s).last()) && trim_end(s).first() == s.first(),
        trim_end(s).len() <= s.len(),
    decreases s.len(),
{
    if s.len() > 0 && is_white(s.last()) {
        lemma_trim_end(s.drop_last());
    }
}

pub(crate) proof fn lemma_trim(s: Seq<char>)
    ensures
        is_trimmed(trim(s)),
{
    lemma_trim_start(s);
    lemma_trim_end(trim_start(s));
}

pub(crate) proof fn lemma_kept_trimmed(parts: Seq<Seq<char>>)
    ensures
        forall|i: int|
            0 <= i < kept(parts).len() ==> is_trimmed(#[trigger] kept(parts)[i]) && kept(parts)[i].len()
                > 0,
    decreases parts.len(),
{
    if parts.len() > 0 {
        let before = kept(parts.drop_last());
        lemma_kept_trimmed(parts.drop_last());
        lemma_trim(parts.last());
        assert forall|i: int| 0 <= i < kept(parts).len() implies is_trimmed(
            #[trigger] kept(parts)[i],
        ) && kept(parts)[i].len() > 0 by {
            if i < before.len() {
                assert(kept(parts)[i] == before[i]);
            }
        }
    }
}

// ---- laws ----

/// Cutting a selector at its commas loses nothing: with the commas put back, the
/// pieces are the selector.
pub proof fn law_pieces_rejoin(sel: Seq<char>)
    ensures
        join(pieces(sel, at_top_comma()), seq![',']) == sel,
{
    lemma_join_pieces(sel, at_top_comma());
}

/// No requirement of a selector is empty or has white space at its ends.
pub proof fn law_requirements_trimmed(sel: Seq<char>, i: int)
    requires
        0 <= i < raw_requirements(sel).len(),
    ensures
        raw_requirements(sel)[i].len() > 0,
        is_trimmed(raw_requirements(sel)[i]),
{
    lemma_kept_trimmed(pieces(sel, at_top_comma()));
}

/// The empty selector matches every label map.
pub proof fn law_empty_selector(labels: Map<Seq<char>, JsonV>)
    ensures
        requirements_of(Seq::empty()) == Seq::<RequirementV>::empty(),
        satisfies_all(labels, requirements_of(Seq::empty())),
{
    let p = pieces(Seq::empty(), at_top_comma());
    assert(p =~= seq![Seq::<char>::empty()]);
    assert(p.drop_last() =~= Seq::empty());
    assert(kept(p.drop_last()) =~= Seq::empty());
    assert(kept(p) =~= Seq::empty());
    assert(requirements_of(Seq::empty()) =~= Seq::empty());
}

pub(crate) proof fn lemma_pieces_and(a: Seq<char>, b: Seq<char>)
    requires
        depth(a) == 0,
    ensures
        pieces(a + seq![','] + b, at_top_comma()) == pieces(a, at_top_comma()) + pieces(
            b,
            at_top_comma(),
        ),
    decreases b.len(),
{
    let cut = at_top_comma();
    let s = a + seq![','] + b;
    let pa = pieces(a, cut);
    if b.len() == 0 {
        assert(s.drop_last() =~= a);
        assert(pieces(s, cut) =~= pa + pieces(b, cut));
    } else {
        let c = b.drop_last();
        let t = a + seq![','] + c;
        assert(s.drop_last() =~= t);
        lemma_pieces_and(a, c);
        lemma_depth_append(a + seq![','], c);
        lemma_depth_append(a, seq![',']);
        lemma_depth_comma();
        assert(depth(t) == depth(c));
        assert(cut(s) == cut(b));
        lemma_pieces_some(c, cut);
        let pc = pieces(c, cut);
        if cut(s) {
            assert(pieces(s, cut) =~= pa + pieces(b, cut));
        } else {
            assert((pa + pc).drop_last() =~= pa + pc.drop_last());
            assert((pa + pc).last() == pc.last());
            assert(pieces(s, cut) =~= pa + pieces(b, cut));
        }
    }
}

/// A comma conjoins: after a selector whose parentheses balance, `a,b` has the
/// requirements of `a` and those of `b`, and matches exactly the label maps that
/// both match.
pub proof fn law_comma_conjoins(a: Seq<char>, b: Seq<char>, labels: Map<Seq<char>, JsonV>)
    requires
        depth(a) == 0,
    ensures
        requirements_of(a + seq![','] + b) == requirements_of(a) + requirements_of(b),
        satisfies_all(labels, requirements_of(a + seq![','] + b)) <==> satisfies_all(
            labels,
            requirements_of(a),
        ) && satisfies_all(labels, requirements_of(b)),
{
    lemma_pieces_and(a, b);
    lemma_kept_append(pieces(a, at_top_comma()), pieces(b, at_top_comma()));
    let ra = requirements_of(a);
    let rb = requirements_of(b);
    let both = requirements_of(a + seq![','] + b);
    assert(both =~= ra + rb);
    if satisfies_all(labels, both) {
        assert forall|i: int| 0 <= i < ra.len() implies satisfies(labels, #[trigger] ra[i]) by {
            assert(both[i] == ra[i]);
        }
        assert forall|i: int| 0 <= i < rb.len() implies satisfies(labels, #[trigger] rb[i]) by {
            assert(both[ra.len() + i] == rb[i]);
        }
    }
}

/// `!=`, `notin` and `!key` match exactly the label maps that `=`, `in` and `key` do not.
pub proof fn law_complements(
    labels: Map<Seq<char>, JsonV>,
    key: Seq<char>,
    value: Seq<char>,
    values: Seq<Seq<char>>,
)
    ensures
        satisfies(labels, RequirementV::NotEqual { key, value }) == !satisfies(
            labels,
            RequirementV::Equal { key, value },
        ),
        satisfies(labels, RequirementV::NotIn { key, values }) == !satisfies(
            labels,
            RequirementV::In { key, values },
        ),
        satisfies(labels, RequirementV::DoesNotExist { key }) == !satisfies(
            labels,
            RequirementV::Exists { key },
        ),
{
}

/// Whether `pat` stands in `s` at `i` and nowhere before.
pub open spec fn first_at(s: Seq<char>, pat: Seq<char>, i: int) -> bool {
    &&& occurs_at(s, pat, i)
    &&& forall|j: int| 0 <= j < i ==> !#[trigger] occurs_at(s, pat, j)
}

/// Whether no comma of a text stands outside parentheses.
pub open spec fn no_top_comma(s: Seq<char>) -> bool {
    forall|j: int| 0 <= j < s.len() && #[trigger] s[j] == ',' ==> depth(s.take(j)) != 0
}

/// Whether a text has neither of the words that announce a set.
pub open spec fn no_set_word(s: Seq<char>) -> bool {
    !occurs(s, " in "@) && !occurs(s, " notin "@)
}

/// Whether values can stand in a written set and be read back.
pub open spec fn plain_values(values: Seq<Seq<char>>) -> bool {
    let body = join(values, ","@);
    &&& forall|i: int|
        0 <= i < values.len() ==> is_trimmed(#[trigger] values[i]) && values[i].len() > 0
            && !values[i].contains(',')
    &&& body.len() > 0 ==> body.first() != '(' && body.last() != ')'
}

/// Whether a requirement can be written in a list and read back.
pub open spec fn writable(r: RequirementV) -> bool {
    no_top_comma(written(r)) && reads_back(r)
}

/// Whether the text of a requirement is read as the requirement: its own texts are
/// trimmed and hold nothing that the notation takes for something else.
pub open spec fn reads_back(r: RequirementV) -> bool {
    let w = written(r);
    match r {
        RequirementV::Equal { key, value } => {
            &&& is_trimmed(key)
            &&& is_trimmed(value)
            &&& !key.contains('=')
            &&& no_set_word(w)
            &&& !occurs(w, "!="@)
            &&& !occurs(w, "=="@)
        },
        RequirementV::NotEqual { key, value } => {
            &&& is_trimmed(key)
            &&& is_trimmed(value)
            &&& no_set_word(w)
            &&& first_at(w, "!="@, key.len() as int)
        },
        RequirementV::In { key, values } => {
            &&& is_trimmed(key)
            &&& key.len() > 0
            &&& !occurs(w, " notin "@)
            &&& first_at(w, " in "@, key.len() as int)
            &&& plain_values(values)
        },
        RequirementV::NotIn { key, values } => {
            &&& is_trimmed(key)
            &&& key.len() > 0
            &&& first_at(w, " notin "@, key.len() as int)
            &&& plain_values(values)
        },
        RequirementV::Exists { key } => {
            &&& is_trimmed(key)
            &&& key.len() > 0
            &&& key.first() != '!'
            &&& !key.contains('=')
            &&& no_set_word(key)
        },
        RequirementV::DoesNotExist { key } => {
            &&& is_trimmed(key)
            &&& !key.contains('=')
            &&& no_set_word(w)
        },
    }
}

pub(crate) proof fn lemma_comma()
    ensures
        ","@ == seq![','],
{
    reveal_strlit(",");
    assert(","@ =~= seq![',']);
}

/// A pattern with `=` in it does not occur in a text without `=`.
pub(crate) proof fn lemma_no_equals(s: Seq<char>, pat: Seq<char>)
    requires
        !s.contains('='),
        pat.contains('='),
    ensures
        !occurs(s, pat),
{
    assert forall|i: int| !occurs_at(s, pat, i) by {
        if occurs_at(s, pat, i) {
            let k = choose|k: int| 0 <= k < pat.len() && pat[k] == '=';
            assert(s.subrange(i, i + pat.len())[k] == s[i + k]);
            assert(s.contains('='));
        }
    }
}

/// The values of a written set are read back.
proof fn lemma_set_read_back(values: Seq<Seq<char>>)
    requires
        plain_values(values),
    ensures
        set_members("("@ + join(values, ","@) + ")"@) == values,
{
    lemma_comma();
    reveal_strlit("(");
    reveal_strlit(")");
    let body = join(values, seq![',']);
    let s = "("@ + body + ")"@;
    assert(is_trimmed(s));
    assert(s.drop_first() =~= body + ")"@);
    assert(strip_start(body + ")"@, '(') == body + ")"@);
    assert(strip_start(s, '(') == body + ")"@);
    assert((body + ")"@).drop_last() =~= body);
    assert(strip_end(body, ')') == body);
    assert(strip_end(body + ")"@, ')') == body);
    let cut = at_char(',');
    if values.len() == 0 {
        assert(body =~= Seq::empty());
        let p = pieces(body, cut);
        assert(p =~= seq![Seq::<char>::empty()]);
        assert(kept(p.drop_last()) =~= Seq::empty());
        assert(trim(p.last()) =~= Seq::empty());
        assert(kept(p) =~= values);
    } else {
        assert forall|i: int, j: int|
            0 <= i < values.len() && 0 <= j < values[i].len() implies !cut(
            #[trigger] before_part(values, i) + #[trigger] values[i].take(j + 1),
        ) by {
            let t = before_part(values, i) + values[i].take(j + 1);
            assert(t.last() == values[i][j]);
            assert(!values[i].contains(','));
        }
        lemma_pieces_of_join(values, cut);
        lemma_kept_all(values);
    }
}

/// A requirement whose text holds nothing else is read back from its text.
proof fn lemma_requirement_read_back(r: RequirementV)
    requires
        reads_back(r),
    ensures
        requirement_of(written(r)) == r,
        is_trimmed(written(r)),
        written(r).len() > 0,
{
    let w = written(r);
    reveal_strlit("=");
    reveal_strlit("==");
    reveal_strlit("!=");
    reveal_strlit("!");
    reveal_strlit("(");
    reveal_strlit(")");
    reveal_strlit(" in ");
    reveal_strlit(" notin ");
    reveal_strlit(" in (");
    reveal_strlit(" notin (");
    assert("="@[0] == '=');
    assert("=="@[0] == '=');
    assert("!="@[1] == '=');
    match r {
        RequirementV::Equal { key, value } => {
            lemma_no_split(w, " notin "@);
            lemma_no_split(w, " in "@);
            lemma_no_split(w, "!="@);
            lemma_no_split(w, "=="@);
            assert forall|j: int| 0 <= j < key.len() implies !#[trigger] occurs_at(
                key + "="@ + value,
                "="@,
                j,
            ) by {
                assert(w.subrange(j, j + 1)[0] == key[j]);
            }
            lemma_split_once(key, "="@, value);
        },
        RequirementV::NotEqual { key, value } => {
            lemma_no_split(w, " notin "@);
            lemma_no_split(w, " in "@);
            lemma_split_once(key, "!="@, value);
        },
        RequirementV::In { key, values } => {
            let rest = "("@ + join(values, ","@) + ")"@;
            lemma_no_split(w, " notin "@);
            assert(" in ("@ =~= " in "@ + "("@);
            assert(w =~= key + " in "@ + rest);
            lemma_split_once(key, " in "@, rest);
            lemma_set_read_back(values);
        },
        RequirementV::NotIn { key, values } => {
            let rest = "("@ + join(values, ","@) + ")"@;
            assert(" notin ("@ =~= " notin "@ + "("@);
            assert(w =~= key + " notin "@ + rest);
            lemma_split_once(key, " notin "@, rest);
            lemma_set_read_back(values);
        },
        RequirementV::Exists { key } => {
            lemma_no_split(w, " notin "@);
            lemma_no_split(w, " in "@);
            lemma_no_equals(w, "!="@);
            lemma_no_equals(w, "=="@);
            lemma_no_equals(w, "="@);
            lemma_no_split(w, "!="@);
            lemma_no_split(w, "=="@);
            lemma_no_split(w, "="@);
        },
        RequirementV::DoesNotExist { key } => {
            assert(!w.contains('=')) by {
                if w.contains('=') {
                    let k = choose|k: int| 0 <= k < w.len() && w[k] == '=';
                    assert(key[k - 1] == '=');
                }
            }
            lemma_no_split(w, " notin "@);
            lemma_no_split(w, " in "@);
            lemma_no_equals(w, "!="@);
            lemma_no_equals(w, "=="@);
            lemma_no_equals(w, "="@);
            lemma_no_split(w, "!="@);
            lemma_no_split(w, "=="@);
            lemma_no_split(w, "="@);
            assert(w.skip(1) =~= key);
        },
    }
}

proof fn lemma_depth_of_join(parts: Seq<Seq<char>>)
    requires
        forall|i: int| 0 <= i < parts.len() ==> depth(#[trigger] parts[i]) == 0,
    ensures
        depth(join(parts, seq![','])) == 0,
    decreases parts.len(),
{
    if parts.len() > 1 {
        let front = join(parts.drop_last(), seq![',']);
        lemma_depth_of_join(parts.drop_last());
        lemma_depth_append(front + seq![','], parts.last());
        lemma_depth_append(front, seq![',']);
        lemma_depth_comma();
    }
}

/// Texts with no comma outside parentheses, with the parentheses of each but the last in
/// balance, are what their selector is cut into.
pub(crate) proof fn lemma_raw_of_join(ws: Seq<Seq<char>>)
    requires
        forall|i: int|
            0 <= i < ws.len() ==> is_trimmed(#[trigger] ws[i]) && ws[i].len() > 0 && no_top_comma(
                ws[i],
            ),
        forall|i: int| 0 <= i < ws.len() - 1 ==> depth(#[trigger] ws[i]) == 0,
    ensures
        raw_requirements(join(ws, seq![','])) == ws,
{
    let cut = at_top_comma();
    let n = ws.len() as int;
    let sel = join(ws, seq![',']);
    if n == 0 {
        law_empty_selector(Map::empty());
        assert(sel =~= Seq::empty());
        assert(requirements_of(sel).len() == raw_requirements(sel).len());
        assert(raw_requirements(sel) =~= ws);
    } else {
        assert forall|i: int| 0 < i < n implies cut(
            join(#[trigger] ws.take(i), seq![',']) + seq![','],
        ) by {
            let t = ws.take(i);
            assert forall|k: int| 0 <= k < t.len() implies depth(#[trigger] t[k]) == 0 by {
                assert(t[k] == ws[k]);
            }
            lemma_depth_of_join(t);
            assert((join(t, seq![',']) + seq![',']).drop_last() =~= join(t, seq![',']));
        }
        assert forall|i: int, j: int| 0 <= i < n && 0 <= j < ws[i].len() implies !cut(
            #[trigger] before_part(ws, i) + #[trigger] ws[i].take(j + 1),
        ) by {
            let b = before_part(ws, i);
            let w = ws[i];
            let t = b + w.take(j + 1);
            assert(t.last() == w[j]);
            assert(t.drop_last() =~= b + w.take(j));
            lemma_depth_append(b, w.take(j));
            if i > 0 {
                let front = ws.take(i);
                assert forall|k: int| 0 <= k < front.len() implies depth(#[trigger] front[k])
                    == 0 by {
                    assert(front[k] == ws[k]);
                }
                lemma_depth_of_join(front);
                lemma_depth_append(join(front, seq![',']), seq![',']);
                lemma_depth_comma();
            }
            assert(depth(b) == 0);
        }
        lemma_pieces_of_join(ws, cut);
        lemma_kept_all(ws);
    }
}

/// Parsing undoes building: a list of requirements that can be written, with the
/// parentheses of each but the last in balance, is what its selector parses to.
pub proof fn law_parse_undoes_build(reqs: Seq<RequirementV>)
    requires
        forall|i: int| 0 <= i < reqs.len() ==> writable(#[trigger] reqs[i]),
        forall|i: int| 0 <= i < reqs.len() - 1 ==> depth(written(#[trigger] reqs[i])) == 0,
    ensures
        requirements_of(selector_text(reqs)) == reqs,
{
    lemma_comma();
    let ws = Seq::new(reqs.len(), |i: int| written(reqs[i]));
    assert forall|i: int| 0 <= i < ws.len() implies is_trimmed(#[trigger] ws[i]) && ws[i].len() > 0
        && no_top_comma(ws[i]) && requirement_of(ws[i]) == reqs[i] by {
        assert(writable(reqs[i]));
        lemma_requirement_read_back(reqs[i]);
    }
    assert forall|i: int| 0 <= i < ws.len() - 1 implies depth(#[trigger] ws[i]) == 0 by {
        assert(ws[i] == written(reqs[i]));
    }
    lemma_raw_of_join(ws);
    assert(requirements_of(join(ws, seq![','])) =~= reqs);
}

/// Building undoes parsing of what was built: a selector of requirements that can be
/// written is what its own requirements are written as.
pub proof fn law_build_undoes_parse(reqs: Seq<RequirementV>)
    requires
        forall|i: int| 0 <= i < reqs.len() ==> writable(#[trigger] reqs[i]),
        forall|i: int| 0 <= i < reqs.len() - 1 ==> depth(written(#[trigger] reqs[i])) == 0,
    ensures
        selector_text(requirements_of(selector_text(reqs))) == selector_text(reqs),
{
    law_parse_undoes_build(reqs);
}

/// A requirement's document describes the requirement.
pub proof fn law_document_describes(r: RequirementV)
    ensures
        described(requirement_json(r)) == Ok::<RequirementV, Seq<char>>(r),
{
    reveal_strlit("key");
    reveal_strlit("op");
    reveal_strlit("value");
    reveal_strlit("values");
    reveal_strlit("Equal");
    reveal_strlit("NotEqual");
    reveal_strlit("In");
    reveal_strlit("NotIn");
    reveal_strlit("Exists");
    reveal_strlit("DoesNotExist");
    assert("key"@[0] != "op"@[0]);
    assert("key"@[0] != "value"@[0]);
    assert("key"@[0] != "values"@[0]);
    assert("op"@[0] != "value"@[0]);
    assert("op"@[0] != "values"@[0]);
    assert("value"@.len() != "values"@.len());
    assert("Equal"@.len() != "NotEqual"@.len());
    assert("Equal"@[0] != "NotIn"@[0]);
    assert("Equal"@[1] != "Exists"@[1]);
    assert("NotEqual"@.len() != "DoesNotExist"@.len());
    match r {
        RequirementV::In { key, values } => {
            let doc = requirement_json(r);
            assert(crate::selector::texts_of(doc.field("values"@)->Array_0) =~= values);
        },
        RequirementV::NotIn { key, values } => {
            let doc = requirement_json(r);
            assert(crate::selector::texts_of(doc.field("values"@)->Array_0) =~= values);
        },
        _ => {},
    }
}

proof fn lemma_documents_describe(reqs: Seq<RequirementV>)
    ensures
        all_described(Seq::new(reqs.len(), |i: int| requirement_json(reqs[i]))) == Ok::<
            Seq<RequirementV>,
            Seq<char>,
        >(reqs),
    decreases reqs.len(),
{
    let docs = Seq::new(reqs.len(), |i: int| requirement_json(reqs[i]));
    if reqs.len() > 0 {
        let front = reqs.drop_last();
        lemma_documents_describe(front);
        assert(docs.drop_last() =~= Seq::new(front.len(), |i: int| requirement_json(front[i])));
        law_document_describes(reqs.last());
        assert(front.push(reqs.last()) =~= reqs);
    } else {
        assert(reqs =~= Seq::empty());
    }
}

/// Building a selector from the documents of requirements that can be written, and
/// parsing what was built, answers the same documents.
pub proof fn law_build_then_parse(reqs: Seq<RequirementV>)
    requires
        forall|i: int| 0 <= i < reqs.len() ==> writable(#[trigger] reqs[i]),
        forall|i: int| 0 <= i < reqs.len() - 1 ==> depth(written(#[trigger] reqs[i])) == 0,
    ensures
        build_selector_outcome(
            JsonV::blank().with("requirements"@, requirements_json(reqs)),
        ) matches Ok(built) && parse_selector_outcome(built) == Ok::<JsonV, Seq<char>>(
            JsonV::blank().with("requirements"@, requirements_json(reqs)),
        ),
{
    lemma_documents_describe(reqs);
    law_parse_undoes_build(reqs);
}

// ---- which requirements read back ----

pub(crate) proof fn lemma_trim_len(s: Seq<char>)
    ensures
        trim(s).len() <= s.len(),
        trim(s).len() == s.len() ==> trim(s) == s,
{
    lemma_trim_start_len(s);
    lemma_trim_end_len(trim_start(s));
}

proof fn lemma_trim_start_len(s: Seq<char>)
    ensures
        trim_start(s).len() <= s.len(),
        trim_start(s).len() == s.len() ==> trim_start(s) == s,
    decreases s.len(),
{
    if s.len() > 0 && is_white(s.first()) {
        lemma_trim_start_len(s.drop_first());
    }
}

proof fn lemma_trim_end_len(s: Seq<char>)
    ensures
        trim_end(s).len() <= s.len(),
        trim_end(s).len() == s.len() ==> trim_end(s) == s,
    decreases s.len(),
{
    if s.len() > 0 && is_white(s.last()) {
        lemma_trim_end_len(s.drop_last());
    }
}

proof fn lemma_found(s: Seq<char>, pat: Seq<char>, i: int)
    requires
        0 <= i,
    ensures
        find_from(s, pat, i) matches Some(at) ==> i <= at && occurs_at(s, pat, at) && forall|j: int|
            i <= j < at ==> !#[trigger] occurs_at(s, pat, j),
        find_from(s, pat, i) is None ==> forall|j: int| i <= j ==> !#[trigger] occurs_at(s, pat, j),
    decreases s.len() - i + 1,
{
    if i + pat.len() <= s.len() && !occurs_at(s, pat, i) {
        lemma_found(s, pat, i + 1);
    }
}

/// What a cut leaves, put together again, is the text, and the cut was the first.
pub(crate) proof fn lemma_cut(s: Seq<char>, pat: Seq<char>)
    ensures
        split_once(s, pat) matches Some(p) ==> {
            &&& s == p.0 + pat + p.1
            &&& first_at(s, pat, p.0.len() as int)
        },
        split_once(s, pat) is None ==> !occurs(s, pat),
{
    lemma_found(s, pat, 0);
    if split_once(s, pat) is Some {
        let p = split_once(s, pat)->0;
        let at = p.0.len() as int;
        assert(s.subrange(at, at + pat.len()) == pat);
        assert(s =~= p.0 + pat + p.1);
    }
}

pub(crate) proof fn lemma_strip_start(s: Seq<char>, c: char)
    ensures
        strip_start(s, c).len() <= s.len(),
        s.len() > 0 && s.first() == c ==> strip_start(s, c).len() < s.len(),
        s.len() > 0 && s.last() != c ==> {
            &&& strip_start(s, c).len() > 0
            &&& strip_start(s, c).last() == s.last()
        },
        s.len() > 1 && s[s.len() - 2] != c ==> {
            &&& strip_start(s, c).len() > 1
            &&& strip_start(s, c)[strip_start(s, c).len() - 2] == s[s.len() - 2]
        },
    decreases s.len(),
{
    if s.len() > 0 && s.first() == c {
        lemma_strip_start(s.drop_first(), c);
    }
}

proof fn lemma_strip_end(s: Seq<char>, c: char)
    ensures
        strip_end(s, c).len() <= s.len(),
        s.len() > 0 && s.last() == c ==> strip_end(s, c).len() < s.len(),
        s.len() > 1 && s.last() == c && s[s.len() - 2] == c ==> strip_end(s, c).len() < s.len() - 1,
    decreases s.len(),
{
    if s.len() > 0 && s.last() == c {
        lemma_strip_end(s.drop_last(), c);
    }
}

/// How many characters a list of texts has.
spec fn total(parts: Seq<Seq<char>>) -> nat
    decreases parts.len(),
{
    if parts.len() == 0 {
        0
    } else {
        total(parts.drop_last()) + parts.last().len()
    }
}

proof fn lemma_total_pieces(s: Seq<char>, cut: spec_fn(Seq<char>) -> bool)
    ensures
        total(pieces(s, cut)) + pieces(s, cut).len() == s.len() + 1,
    decreases s.len(),
{
    if s.len() == 0 {
        let p = pieces(s, cut);
        assert(p.drop_last() =~= Seq::empty());
        assert(total(p.drop_last()) == 0);
    } else {
        let before = pieces(s.drop_last(), cut);
        lemma_total_pieces(s.drop_last(), cut);
        lemma_pieces_some(s.drop_last(), cut);
        let now = pieces(s, cut);
        if cut(s) {
            assert(now.drop_last() =~= before);
        } else {
            assert(now.drop_last() =~= before.drop_last());
        }
    }
}

proof fn lemma_total_kept(parts: Seq<Seq<char>>)
    ensures
        total(kept(parts)) + kept(parts).len() <= total(parts) + parts.len(),
    decreases parts.len(),
{
    if parts.len() > 0 {
        lemma_total_kept(parts.drop_last());
        lemma_trim_len(parts.last());
        let before = kept(parts.drop_last());
        if trim(parts.last()).len() > 0 {
            assert(kept(parts).drop_last() =~= before);
        }
    }
}

proof fn lemma_total_join(parts: Seq<Seq<char>>)
    requires
        parts.len() > 0,
    ensures
        join(parts, seq![',']).len() + 1 == total(parts) + parts.len(),
    decreases parts.len(),
{
    if parts.len() == 1 {
        assert(parts.drop_last() =~= Seq::empty());
        assert(total(parts.drop_last()) == 0);
    } else {
        lemma_total_join(parts.drop_last());
    }
}

proof fn lemma_trim_keeps_out(s: Seq<char>, c: char)
    requires
        !s.contains(c),
    ensures
        !trim(s).contains(c),
{
    lemma_trim_start_keeps_out(s, c);
    lemma_trim_end_keeps_out(trim_start(s), c);
}

proof fn lemma_trim_start_keeps_out(s: Seq<char>, c: char)
    requires
        !s.contains(c),
    ensures
        !trim_start(s).contains(c),
    decreases s.len(),
{
    if s.len() > 0 && is_white(s.first()) {
        let rest = s.drop_first();
        assert forall|i: int| 0 <= i < rest.len() implies rest[i] != c by {
            assert(s[i + 1] == rest[i]);
        }
        lemma_trim_start_keeps_out(rest, c);
    }
}

proof fn lemma_trim_end_keeps_out(s: Seq<char>, c: char)
    requires
        !s.contains(c),
    ensures
        !trim_end(s).contains(c),
    decreases s.len(),
{
    if s.len() > 0 && is_white(s.last()) {
        let rest = s.drop_last();
        assert forall|i: int| 0 <= i < rest.len() implies rest[i] != c by {
            assert(s[i] == rest[i]);
        }
        lemma_trim_end_keeps_out(rest, c);
    }
}

pub(crate) proof fn lemma_split_keeps_out(s: Seq<char>, c: char)
    ensures
        forall|i: int| 0 <= i < split(s, c).len() ==> !(#[trigger] split(s, c)[i]).contains(c),
    decreases s.len(),
{
    let cut = at_char(c);
    lemma_pieces_some(s, cut);
    if s.len() > 0 {
        let before = split(s.drop_last(), c);
        let now = split(s, c);
        lemma_pieces_some(s.drop_last(), cut);
        lemma_split_keeps_out(s.drop_last(), c);
        assert forall|i: int| 0 <= i < now.len() implies !(#[trigger] now[i]).contains(c) by {
            if cut(s) {
                if i < before.len() {
                    assert(now[i] == before[i]);
                }
            } else if i < before.len() - 1 {
                assert(now[i] == before[i]);
            } else {
                let last = before[before.len() - 1];
                assert(!last.contains(c));
                assert(now[i] == last.push(s.last()));
                assert forall|k: int| 0 <= k < now[i].len() implies now[i][k] != c by {
                    if k < last.len() {
                        assert(last[k] == now[i][k]);
                    }
                }
            }
        }
    }
}

pub(crate) proof fn lemma_kept_keeps_out(parts: Seq<Seq<char>>, c: char)
    requires
        forall|i: int| 0 <= i < parts.len() ==> !(#[trigger] parts[i]).contains(c),
    ensures
        forall|i: int| 0 <= i < kept(parts).len() ==> !(#[trigger] kept(parts)[i]).contains(c),
    decreases parts.len(),
{
    if parts.len() > 0 {
        let front = parts.drop_last();
        assert forall|i: int| 0 <= i < front.len() implies !(#[trigger] front[i]).contains(c) by {
            assert(parts[i] == front[i]);
        }
        lemma_kept_keeps_out(front, c);
        assert(parts[parts.len() - 1] == parts.last());
        lemma_trim_keeps_out(parts.last(), c);
        assert forall|i: int| 0 <= i < kept(parts).len() implies !(#[trigger] kept(
            parts,
        )[i]).contains(c) by {
            if i < kept(front).len() {
                assert(kept(parts)[i] == kept(front)[i]);
            }
        }
    }
}

/// Only values that can stand in a written set are read back from one.
proof fn lemma_set_read_back_only(values: Seq<Seq<char>>)
    requires
        set_members("("@ + join(values, ","@) + ")"@) == values,
    ensures
        plain_values(values),
{
    lemma_comma();
    reveal_strlit("(");
    reveal_strlit(")");
    let body = join(values, seq![',']);
    let s = "("@ + body + ")"@;
    assert(is_trimmed(s));
    let tail = body + ")"@;
    assert(s.drop_first() =~= tail);
    let a = strip_start(s, '(');
    let b = strip_end(a, ')');
    let p = split(b, ',');
    assert(a == strip_start(tail, '('));
    assert(values == kept(p));
    lemma_kept_trimmed(p);
    lemma_split_keeps_out(b, ',');
    lemma_kept_keeps_out(p, ',');
    if body.len() > 0 {
        if values.len() == 0 {
            assert(body =~= Seq::empty());
        }
        lemma_total_pieces(b, at_char(','));
        lemma_total_kept(p);
        lemma_total_join(values);
        assert(body.len() <= b.len());
        lemma_strip_start(tail, '(');
        lemma_strip_end(a, ')');
        assert(tail.last() == ')');
        assert(a.last() == ')');
        assert(tail.first() == body.first());
        if body.last() == ')' {
            assert(tail[tail.len() - 2] == ')');
        }
    }
}

/// Which requirements are read back from their own text: exactly those whose texts are
/// trimmed and hold nothing that the notation takes for something else.
pub proof fn law_reads_back_exactly(r: RequirementV)
    ensures
        reads_back(r) <==> trim(written(r)).len() > 0 && requirement_of(trim(written(r))) == r,
{
    if reads_back(r) {
        lemma_requirement_read_back(r);
    }
    if trim(written(r)).len() > 0 && requirement_of(trim(written(r))) == r {
        lemma_reads_back_only(r);
    }
}

pub(crate) proof fn lemma_reads_back_only(r: RequirementV)
    requires
        trim(written(r)).len() > 0,
        requirement_of(trim(written(r))) == r,
    ensures
        reads_back(r),
{
    let w = written(r);
    let x = trim(w);
    reveal_strlit("=");
    reveal_strlit("==");
    reveal_strlit("!=");
    reveal_strlit("!");
    reveal_strlit("(");
    reveal_strlit(")");
    reveal_strlit(" in ");
    reveal_strlit(" notin ");
    reveal_strlit(" in (");
    reveal_strlit(" notin (");
    lemma_trim_len(w);
    lemma_trim(w);
    lemma_cut(x, " notin "@);
    lemma_cut(x, " in "@);
    lemma_cut(x, "!="@);
    lemma_cut(x, "=="@);
    lemma_cut(x, "="@);
    match r {
        RequirementV::Equal { key, value } => {
            let p = match split_once(x, "=="@) {
                Some(p) => p,
                None => split_once(x, "="@)->0,
            };
            lemma_trim_len(p.0);
            lemma_trim_len(p.1);
            lemma_trim(p.0);
            lemma_trim(p.1);
            assert(x == w);
            assert(p.0 == key);
            assert forall|j: int| 0 <= j < key.len() implies key[j] != '=' by {
                if key[j] == '=' {
                    assert(x.subrange(j, j + 1) =~= "="@);
                    assert(occurs_at(x, "="@, j));
                }
            }
        },
        RequirementV::NotEqual { key, value } => {
            let p = split_once(x, "!="@)->0;
            lemma_trim_len(p.0);
            lemma_trim_len(p.1);
            lemma_trim(p.0);
            lemma_trim(p.1);
            assert(x == w);
            assert(p.0 == key);
        },
        RequirementV::In { key, values } => {
            assert(" in ("@ =~= " in "@ + "("@);
            assert(w =~= key + " in "@ + ("("@ + join(values, ","@) + ")"@));
            lemma_set_requirement_only(key, values, " in "@);
        },
        RequirementV::NotIn { key, values } => {
            assert(" notin ("@ =~= " notin "@ + "("@);
            assert(w =~= key + " notin "@ + ("("@ + join(values, ","@) + ")"@));
            lemma_set_requirement_only(key, values, " notin "@);
        },
        RequirementV::Exists { key } => {
            lemma_trim(x);
            lemma_no_equals_back(x);
        },
        RequirementV::DoesNotExist { key } => {
            lemma_trim(x.skip(1));
            assert(is_trimmed(w));
            assert(x == w);
            lemma_no_equals_back(x);
            assert forall|j: int| 0 <= j < key.len() implies key[j] != '=' by {
                assert(w[j + 1] == key[j]);
            }
        },
    }
}

/// A text in which `=` does not occur does not contain it.
proof fn lemma_no_equals_back(s: Seq<char>)
    requires
        !occurs(s, "="@),
    ensures
        !s.contains('='),
{
    reveal_strlit("=");
    assert forall|j: int| 0 <= j < s.len() implies s[j] != '=' by {
        if s[j] == '=' {
            assert(s.subrange(j, j + 1) =~= "="@);
            assert(occurs_at(s, "="@, j));
        }
    }
}

/// What is read back from the text of a requirement on a set.
proof fn lemma_set_requirement_only(key: Seq<char>, values: Seq<Seq<char>>, word: Seq<char>)
    requires
        word.len() > 1,
        is_white(word[0]),
        !is_white(word[1]),
        ({
            let w = key + word + ("("@ + join(values, ","@) + ")"@);
            split_once(trim(w), word) matches Some(p) && trim(p.0) == key && set_members(p.1)
                == values
        }),
    ensures
        ({
            let w = key + word + ("("@ + join(values, ","@) + ")"@);
            &&& trim(w) == w
            &&& is_trimmed(key)
            &&& key.len() > 0
            &&& first_at(w, word, key.len() as int)
            &&& plain_values(values)
        }),
{
    reveal_strlit("(");
    reveal_strlit(")");
    let rest = "("@ + join(values, ","@) + ")"@;
    let w = key + word + rest;
    let x = trim(w);
    let p = split_once(x, word)->0;
    lemma_cut(x, word);
    lemma_trim(p.0);
    lemma_trim_len(p.0);
    assert(w.last() == ')');
    if key.len() == 0 {
        assert(w[0] == word[0]);
        assert(w.drop_first()[0] == word[1]);
        assert(trim_start(w.drop_first()) == w.drop_first());
        assert(trim_start(w) == w.drop_first());
        assert(x == w.drop_first());
        assert(x[0] == word[1]);
        if p.0.len() == 0 {
            assert(x.subrange(0, word.len() as int)[0] == x[0]);
            assert(false);
        } else {
            assert(p.0[0] == x[0]);
            assert(trim_start(p.0) == p.0);
            lemma_trim_end_first(p.0);
            assert(false);
        }
    }
    let n = key.len() as int;
    assert(w[0] == key[0]);
    assert(x == w);
    assert(w.subrange(n, n + word.len()) =~= word);
    assert(occurs_at(w, word, key.len() as int));
    assert(p.0.len() == key.len());
    assert(p.0 == key);
    assert(w.skip(n + word.len()) =~= rest);
    assert((p.0 + word + p.1).skip(n + word.len()) =~= p.1);
    lemma_set_read_back_only(values);
}

/// A text that begins with no white space keeps its first character.
proof fn lemma_trim_end_first(s: Seq<char>)
    requires
        s.len() > 0,
        !is_white(s.first()),
    ensures
        trim_end(s).len() > 0,
    decreases s.len(),
{
    if is_white(s.last()) {
        assert(s.len() > 1);
        assert(s.drop_last().first() == s.first());
        lemma_trim_end_first(s.drop_last());
    }
}

/// A label map without the key meets the negative requirements on it and none of the
/// positive ones.
pub proof fn law_absent_key(
    labels: Map<Seq<char>, JsonV>,
    key: Seq<char>,
    value: Seq<char>,
    values: Seq<Seq<char>>,
)
    requires
        !labels.contains_key(key),
    ensures
        satisfies(labels, RequirementV::NotEqual { key, value }),
        satisfies(labels, RequirementV::NotIn { key, values }),
        satisfies(labels, RequirementV::DoesNotExist { key }),
        !satisfies(labels, RequirementV::Equal { key, value }),
        !satisfies(labels, RequirementV::In { key, values }),
        !satisfies(labels, RequirementV::Exists { key }),
{
}

} // verus!
