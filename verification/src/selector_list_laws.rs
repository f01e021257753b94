//! How selectors are cut, and which lists of requirements are read back from the selector
//! they are written as.

use vstd::prelude::*;

use crate::selector::{
    at_top_comma, depth, kept, raw_requirements, requirement_of, requirements_of, selector_text,
    set_members, strip_end, strip_start, written, RequirementV,
};
use crate::selector_laws::{
    law_parse_undoes_build, lemma_comma, lemma_cut, lemma_depth_append, lemma_kept_append,
    lemma_kept_keeps_out, lemma_kept_trimmed, lemma_pieces_and, lemma_pieces_grow,
    lemma_raw_of_join, lemma_reads_back_only, lemma_split_keeps_out, lemma_strip_start, lemma_trim, lemma_trim_end,
    lemma_trim_len, no_top_comma, writable,
};
use crate::text::{
    at_char, is_trimmed, is_white, join, lemma_pieces_some, occurs_at, pieces, split, split_once,
    trim, trim_end, trim_start,
};

verus! {

// ---- counting a character ----

/// How often a character stands in a text.
spec fn tally(s: Seq<char>, c: char) -> nat
    decreases s.len(),
{
    if s.len() == 0 {
        0
    } else {
        tally(s.drop_last(), c) + if s.last() == c {
            1nat
        } else {
            0nat
        }
    }
}

/// How often a character stands in the texts of a list.
spec fn tally_all(parts: Seq<Seq<char>>, c: char) -> nat
    decreases parts.len(),
{
    if parts.len() == 0 {
        0
    } else {
        tally_all(parts.drop_last(), c) + tally(parts.last(), c)
    }
}

proof fn lemma_tally_append(a: Seq<char>, b: Seq<char>, c: char)
    ensures
        tally(a + b, c) == tally(a, c) + tally(b, c),
    decreases b.len(),
{
    if b.len() == 0 {
        assert(a + b =~= a);
    } else {
        assert((a + b).drop_last() =~= a + b.drop_last());
        lemma_tally_append(a, b.drop_last(), c);
    }
}

proof fn lemma_tally_three(a: Seq<char>, b: Seq<char>, d: Seq<char>, c: char)
    ensures
        tally(a + b + d, c) == tally(a, c) + tally(b, c) + tally(d, c),
{
    lemma_tally_append(a + b, d, c);
    lemma_tally_append(a, b, c);
}

proof fn lemma_tally_first(s: Seq<char>, c: char)
    requires
        s.len() > 0,
    ensures
        tally(s, c) == tally(s.drop_first(), c) + if s.first() == c {
            1nat
        } else {
            0nat
        },
{
    let f = seq![s.first()];
    assert(s =~= f + s.drop_first());
    lemma_tally_append(f, s.drop_first(), c);
    assert(f.drop_last() =~= Seq::empty());
    reveal_with_fuel(tally, 2);
}

proof fn lemma_tally_none(s: Seq<char>, c: char)
    requires
        !s.contains(c),
    ensures
        tally(s, c) == 0,
    decreases s.len(),
{
    if s.len() > 0 {
        assert(s[s.len() - 1] != c);
        assert forall|i: int| 0 <= i < s.len() - 1 implies s.drop_last()[i] != c by {
            assert(s[i] != c);
        }
        lemma_tally_none(s.drop_last(), c);
    }
}

proof fn lemma_tally_trim_start(s: Seq<char>, c: char)
    requires
        !is_white(c),
    ensures
        tally(trim_start(s), c) == tally(s, c),
    decreases s.len(),
{
    if s.len() > 0 && is_white(s.first()) {
        lemma_tally_first(s, c);
        lemma_tally_trim_start(s.drop_first(), c);
    }
}

proof fn lemma_tally_trim_end(s: Seq<char>, c: char)
    requires
        !is_white(c),
    ensures
        tally(trim_end(s), c) == tally(s, c),
    decreases s.len(),
{
    if s.len() > 0 && is_white(s.last()) {
        lemma_tally_trim_end(s.drop_last(), c);
    }
}

/// Trimming drops no character but white space.
proof fn lemma_tally_trim(s: Seq<char>, c: char)
    requires
        !is_white(c),
    ensures
        tally(trim(s), c) == tally(s, c),
{
    lemma_tally_trim_start(s, c);
    lemma_tally_trim_end(trim_start(s), c);
}

proof fn lemma_tally_strip_start(s: Seq<char>, d: char, c: char)
    requires
        c != d,
    ensures
        tally(strip_start(s, d), c) == tally(s, c),
    decreases s.len(),
{
    if s.len() > 0 && s.first() == d {
        lemma_tally_first(s, c);
        lemma_tally_strip_start(s.drop_first(), d, c);
    }
}

proof fn lemma_tally_strip_end(s: Seq<char>, d: char, c: char)
    requires
        c != d,
    ensures
        tally(strip_end(s, d), c) == tally(s, c),
    decreases s.len(),
{
    if s.len() > 0 && s.last() == d {
        lemma_tally_strip_end(s.drop_last(), d, c);
    }
}

/// What is stripped from the end stands behind the last other character.
proof fn lemma_tally_strip_end_of(u: Seq<char>, v: Seq<char>, c: char)
    requires
        u.len() > 0,
        u.last() != c,
    ensures
        tally(strip_end(u + v, c), c) >= tally(u, c),
    decreases v.len(),
{
    let s = u + v;
    if v.len() == 0 {
        assert(s =~= u);
    } else if s.last() == c {
        assert(s.drop_last() =~= u + v.drop_last());
        lemma_tally_strip_end_of(u, v.drop_last(), c);
    } else {
        lemma_tally_append(u, v, c);
    }
}

proof fn lemma_strip_start_of(u: Seq<char>, v: Seq<char>, c: char)
    requires
        strip_start(u, c).len() > 0,
    ensures
        strip_start(u + v, c) == strip_start(u, c) + v,
    decreases u.len(),
{
    if u.first() == c {
        assert((u + v).drop_first() =~= u.drop_first() + v);
        lemma_strip_start_of(u.drop_first(), v, c);
    }
}

/// The pieces between commas hold every other character of the text.
proof fn lemma_tally_split(s: Seq<char>, c: char)
    requires
        c != ',',
    ensures
        tally_all(split(s, ','), c) == tally(s, c),
    decreases s.len(),
{
    let cut = at_char(',');
    let now = pieces(s, cut);
    reveal_with_fuel(tally_all, 2);
    if s.len() == 0 {
        assert(now.drop_last() =~= Seq::empty());
    } else {
        let before = pieces(s.drop_last(), cut);
        lemma_pieces_some(s.drop_last(), cut);
        lemma_tally_split(s.drop_last(), c);
        if cut(s) {
            assert(now.drop_last() =~= before);
        } else {
            assert(now.drop_last() =~= before.drop_last());
            assert(before.last().push(s.last()).drop_last() =~= before.last());
        }
    }
}

/// There is one piece more than there are commas.
proof fn lemma_split_len(s: Seq<char>)
    ensures
        split(s, ',').len() == tally(s, ',') + 1,
    decreases s.len(),
{
    if s.len() > 0 {
        lemma_pieces_some(s.drop_last(), at_char(','));
        lemma_split_len(s.drop_last());
    }
}

proof fn lemma_tally_kept(parts: Seq<Seq<char>>, c: char)
    requires
        !is_white(c),
    ensures
        tally_all(kept(parts), c) == tally_all(parts, c),
        kept(parts).len() <= parts.len(),
    decreases parts.len(),
{
    if parts.len() > 0 {
        lemma_tally_kept(parts.drop_last(), c);
        lemma_tally_trim(parts.last(), c);
        let before = kept(parts.drop_last());
        let last = trim(parts.last());
        if last.len() > 0 {
            assert(before.push(last).drop_last() =~= before);
        }
    }
}

proof fn lemma_tally_join(parts: Seq<Seq<char>>, c: char)
    ensures
        tally(join(parts, seq![',']), c) == tally_all(parts, c) + if c == ',' && parts.len() > 0 {
            (parts.len() - 1) as nat
        } else {
            0nat
        },
    decreases parts.len(),
{
    let sep = seq![','];
    reveal_with_fuel(tally_all, 2);
    if parts.len() == 1 {
        assert(parts.drop_last() =~= Seq::empty());
        assert(parts[0] == parts.last());
    } else if parts.len() > 1 {
        let front = parts.drop_last();
        lemma_tally_join(front, c);
        lemma_tally_three(join(front, sep), sep, parts.last(), c);
        assert(sep.drop_last() =~= Seq::empty());
        reveal_with_fuel(tally, 2);
    }
}

proof fn lemma_tally_all_none(parts: Seq<Seq<char>>, c: char)
    requires
        forall|i: int| 0 <= i < parts.len() ==> !(#[trigger] parts[i]).contains(c),
    ensures
        tally_all(parts, c) == 0,
    decreases parts.len(),
{
    if parts.len() > 0 {
        let front = parts.drop_last();
        assert forall|i: int| 0 <= i < front.len() implies !(#[trigger] front[i]).contains(c) by {
            assert(parts[i] == front[i]);
        }
        lemma_tally_all_none(front, c);
        assert(parts[parts.len() - 1] == parts.last());
        lemma_tally_none(parts.last(), c);
    }
}

// ---- what a requirement keeps of its text ----

/// The commas of a requirement stand in the text that states it; only a set may have
/// lost some.
proof fn lemma_commas(x: Seq<char>)
    ensures
        tally(written(requirement_of(x)), ',') <= tally(x, ','),
        !(requirement_of(x) is In) && !(requirement_of(x) is NotIn) ==> tally(
            written(requirement_of(x)),
            ',',
        ) == tally(x, ','),
{
    let r = requirement_of(x);
    reveal_strlit("=");
    reveal_strlit("==");
    reveal_strlit("!=");
    reveal_strlit("!");
    reveal_strlit(")");
    reveal_strlit(" in ");
    reveal_strlit(" notin ");
    reveal_strlit(" in (");
    reveal_strlit(" notin (");
    lemma_tally_none("="@, ',');
    lemma_tally_none("=="@, ',');
    lemma_tally_none("!="@, ',');
    lemma_tally_none("!"@, ',');
    lemma_tally_none(")"@, ',');
    lemma_tally_none(" in "@, ',');
    lemma_tally_none(" notin "@, ',');
    lemma_tally_none(" in ("@, ',');
    lemma_tally_none(" notin ("@, ',');
    lemma_cut(x, " notin "@);
    lemma_cut(x, " in "@);
    lemma_cut(x, "!="@);
    lemma_cut(x, "=="@);
    lemma_cut(x, "="@);
    match r {
        RequirementV::Equal { key, value } => {
            let (pat, p) = match split_once(x, "=="@) {
                Some(p) => ("=="@, p),
                None => ("="@, split_once(x, "="@)->0),
            };
            lemma_tally_three(p.0, pat, p.1, ',');
            lemma_tally_three(key, "="@, value, ',');
            lemma_tally_trim(p.0, ',');
            lemma_tally_trim(p.1, ',');
        },
        RequirementV::NotEqual { key, value } => {
            let p = split_once(x, "!="@)->0;
            lemma_tally_three(p.0, "!="@, p.1, ',');
            lemma_tally_three(key, "!="@, value, ',');
            lemma_tally_trim(p.0, ',');
            lemma_tally_trim(p.1, ',');
        },
        RequirementV::In { key, values } => {
            let p = split_once(x, " in "@)->0;
            lemma_tally_three(p.0, " in "@, p.1, ',');
            lemma_tally_append(key + " in ("@ + join(values, ","@), ")"@, ',');
            lemma_tally_three(key, " in ("@, join(values, ","@), ',');
            lemma_tally_trim(p.0, ',');
            lemma_commas_of_set(p.1);
        },
        RequirementV::NotIn { key, values } => {
            let p = split_once(x, " notin "@)->0;
            lemma_tally_three(p.0, " notin "@, p.1, ',');
            lemma_tally_append(key + " notin ("@ + join(values, ","@), ")"@, ',');
            lemma_tally_three(key, " notin ("@, join(values, ","@), ',');
            lemma_tally_trim(p.0, ',');
            lemma_commas_of_set(p.1);
        },
        RequirementV::Exists { key } => {
            lemma_tally_trim(x, ',');
        },
        RequirementV::DoesNotExist { key } => {
            lemma_tally_append("!"@, key, ',');
            assert(x.skip(1) =~= x.drop_first());
            lemma_tally_first(x, ',');
            lemma_tally_trim(x.skip(1), ',');
        },
    }
}

/// The values of a set hold no comma.
proof fn lemma_values(s: Seq<char>)
    ensures
        forall|i: int|
            0 <= i < set_members(s).len() ==> !(#[trigger] set_members(s)[i]).contains(','),
{
    let b = strip_end(strip_start(trim(s), '('), ')');
    lemma_split_keeps_out(b, ',');
    lemma_kept_keeps_out(split(b, ','), ',');
}

proof fn lemma_commas_of_set(s: Seq<char>)
    ensures
        tally(join(set_members(s), ","@), ',') <= tally(s, ','),
{
    let a = strip_start(trim(s), '(');
    let b = strip_end(a, ')');
    let values = set_members(s);
    lemma_comma();
    lemma_values(s);
    lemma_tally_trim(s, ',');
    lemma_tally_strip_start(trim(s), '(', ',');
    lemma_tally_strip_end(a, ')', ',');
    lemma_split_len(b);
    lemma_tally_kept(split(b, ','), ',');
    lemma_tally_all_none(values, ',');
    lemma_tally_join(values, ',');
}

/// A requirement begins as the text that states it.
proof fn lemma_first_char(x: Seq<char>)
    requires
        x.len() > 0,
        is_trimmed(x),
    ensures
        written(requirement_of(x)).len() > 0,
        written(requirement_of(x))[0] == x[0],
{
    let r = requirement_of(x);
    reveal_strlit("=");
    reveal_strlit("==");
    reveal_strlit("!=");
    reveal_strlit("!");
    reveal_strlit(" in ");
    reveal_strlit(" notin ");
    lemma_cut(x, " notin "@);
    lemma_cut(x, " in "@);
    lemma_cut(x, "!="@);
    lemma_cut(x, "=="@);
    lemma_cut(x, "="@);
    match r {
        RequirementV::Equal { key, value } => {
            let p = match split_once(x, "=="@) {
                Some(p) => p,
                None => split_once(x, "="@)->0,
            };
            lemma_trim_first(p.0);
        },
        RequirementV::NotEqual { key, value } => {
            lemma_trim_first((split_once(x, "!="@)->0).0);
        },
        RequirementV::In { key, values } => {
            lemma_trim_first((split_once(x, " in "@)->0).0);
        },
        RequirementV::NotIn { key, values } => {
            lemma_trim_first((split_once(x, " notin "@)->0).0);
        },
        RequirementV::Exists { key } => {
            lemma_trim_first(x);
        },
        RequirementV::DoesNotExist { key } => {},
    }
}

/// A text that does not begin with white space keeps its beginning when it is trimmed,
/// up to any character that is no white space.
proof fn lemma_trim_prefix(s: Seq<char>, i: int)
    requires
        0 <= i < s.len(),
        !is_white(s[0]),
        !is_white(s[i]),
    ensures
        i < trim(s).len() <= s.len(),
        trim(s) == s.take(trim(s).len() as int),
    decreases s.len(),
{
    assert(trim_start(s) == s);
    if is_white(s.last()) {
        let t = s.drop_last();
        assert(i < t.len());
        lemma_trim_prefix(t, i);
        assert(trim(s) == trim(t));
        lemma_trim_len(t);
        assert(t.take(trim(t).len() as int) =~= s.take(trim(t).len() as int));
    } else {
        assert(s.take(s.len() as int) =~= s);
    }
}

proof fn lemma_trim_first(s: Seq<char>)
    ensures
        s.len() > 0 && !is_white(s[0]) ==> trim(s).len() > 0 && trim(s)[0] == s[0],
        s.len() == 0 ==> trim(s).len() == 0,
{
    if s.len() > 0 && !is_white(s[0]) {
        lemma_trim_prefix(s, 0);
    }
}

// ---- where a selector is cut ----

/// A text without a comma outside parentheses is one piece.
proof fn lemma_one_piece(s: Seq<char>)
    requires
        no_top_comma(s),
    ensures
        pieces(s, at_top_comma()) == seq![s],
{
    let cut = at_top_comma();
    let none = Seq::<char>::empty();
    assert forall|j: int| 0 <= j < s.len() implies !cut(none + #[trigger] s.take(j + 1)) by {
        let t = none + s.take(j + 1);
        assert(t.last() == s[j]);
        assert(t.drop_last() =~= s.take(j));
    }
    lemma_pieces_grow(none, s, cut);
    assert(none + s =~= s);
    assert(pieces(none, cut) =~= seq![none]);
    assert(pieces(s, cut) =~= seq![s]);
}

/// The first comma outside parentheses.
proof fn lemma_first_cut(s: Seq<char>) -> (c: int)
    requires
        !no_top_comma(s),
    ensures
        0 <= c < s.len(),
        s[c] == ',',
        depth(s.take(c)) == 0,
        no_top_comma(s.take(c)),
    decreases s.len(),
{
    let j = choose|j: int| 0 <= j < s.len() && #[trigger] s[j] == ',' && depth(s.take(j)) == 0;
    let t = s.take(j);
    if no_top_comma(t) {
        j
    } else {
        let c = lemma_first_cut(t);
        assert(t.take(c) =~= s.take(c));
        c
    }
}

/// The first requirement of a text that is cut at `c`, and those behind it.
proof fn lemma_cut_requirements(s: Seq<char>, c: int)
    requires
        0 <= c < s.len(),
        s[c] == ',',
        depth(s.take(c)) == 0,
        no_top_comma(s.take(c)),
    ensures
        raw_requirements(s) == kept(seq![s.take(c)]) + raw_requirements(s.skip(c + 1)),
{
    let a = s.take(c);
    let b = s.skip(c + 1);
    assert(s =~= a + seq![','] + b);
    lemma_pieces_and(a, b);
    lemma_one_piece(a);
    lemma_kept_append(pieces(a, at_top_comma()), pieces(b, at_top_comma()));
}

proof fn lemma_kept_one(s: Seq<char>)
    ensures
        trim(s).len() > 0 ==> kept(seq![s]) == seq![trim(s)],
        trim(s).len() == 0 ==> kept(seq![s]) == Seq::<Seq<char>>::empty(),
{
    let one = seq![s];
    assert(one.drop_last() =~= Seq::empty());
    assert(kept(one.drop_last()) =~= Seq::empty());
    if trim(s).len() > 0 {
        assert(kept(one) =~= seq![trim(s)]);
    }
}

/// Whether a text begins with a comma, white space aside.
spec fn comma_led(s: Seq<char>) -> bool {
    trim_start(s).len() > 0 && trim_start(s)[0] == ','
}

proof fn lemma_push_led(s: Seq<char>, c: char)
    requires
        !comma_led(s),
        c == ',' ==> depth(s) != 0,
    ensures
        !comma_led(s.push(c)),
    decreases s.len(),
{
    let t = s.push(c);
    if s.len() == 0 {
        reveal_with_fuel(trim_start, 2);
        assert(t.drop_first() =~= Seq::empty());
    } else {
        assert(t.first() == s.first());
        if is_white(s.first()) {
            let rest = s.drop_first();
            assert(t.drop_first() =~= rest.push(c));
            let f = seq![s.first()];
            assert(s =~= f + rest);
            lemma_depth_append(f, rest);
            assert(f.drop_last() =~= Seq::empty());
            reveal_with_fuel(depth, 2);
            assert(depth(rest) == depth(s));
            lemma_push_led(rest, c);
        }
    }
}

/// No piece begins with a comma, white space aside.
proof fn lemma_pieces_led(s: Seq<char>)
    ensures
        pieces(s, at_top_comma()).len() > 0,
        depth(pieces(s, at_top_comma()).last()) == depth(s),
        forall|i: int|
            0 <= i < pieces(s, at_top_comma()).len() ==> !comma_led(
                #[trigger] pieces(s, at_top_comma())[i],
            ),
    decreases s.len(),
{
    let cut = at_top_comma();
    lemma_pieces_some(s, cut);
    if s.len() > 0 {
        let t = s.drop_last();
        let before = pieces(t, cut);
        let now = pieces(s, cut);
        lemma_pieces_led(t);
        let last = before[before.len() - 1];
        if !cut(s) {
            lemma_push_led(last, s.last());
            assert(last.push(s.last()).drop_last() =~= last);
        }
        assert forall|i: int| 0 <= i < now.len() implies !comma_led(#[trigger] now[i]) by {
            if i < before.len() - 1 || (cut(s) && i < before.len()) {
                assert(now[i] == before[i]);
            }
        }
    }
}

proof fn lemma_kept_led(parts: Seq<Seq<char>>)
    requires
        forall|i: int| 0 <= i < parts.len() ==> !comma_led(#[trigger] parts[i]),
    ensures
        forall|i: int| 0 <= i < kept(parts).len() ==> (#[trigger] kept(parts)[i])[0] != ',',
    decreases parts.len(),
{
    if parts.len() > 0 {
        let front = parts.drop_last();
        assert forall|i: int| 0 <= i < front.len() implies !comma_led(#[trigger] front[i]) by {
            assert(parts[i] == front[i]);
        }
        lemma_kept_led(front);
        assert(!comma_led(parts[parts.len() - 1]));
        lemma_trim_end(trim_start(parts.last()));
        assert forall|i: int| 0 <= i < kept(parts).len() implies (#[trigger] kept(parts)[i])[0]
            != ',' by {
            if i < kept(front).len() {
                assert(kept(parts)[i] == kept(front)[i]);
            }
        }
    }
}

// ---- cutting again ----

/// Every piece has no comma outside parentheses, and the parentheses of each but the last
/// are in balance.
proof fn lemma_pieces_whole(s: Seq<char>)
    ensures
        ({
            let p = pieces(s, at_top_comma());
            &&& forall|i: int| 0 <= i < p.len() ==> no_top_comma(#[trigger] p[i])
            &&& forall|i: int| 0 <= i < p.len() - 1 ==> depth(#[trigger] p[i]) == 0
        }),
    decreases s.len(),
{
    let cut = at_top_comma();
    let now = pieces(s, cut);
    if s.len() > 0 {
        let t = s.drop_last();
        let before = pieces(t, cut);
        lemma_pieces_whole(t);
        lemma_pieces_led(t);
        let last = before[before.len() - 1];
        let more = last.push(s.last());
        assert forall|i: int| 0 <= i < now.len() implies no_top_comma(#[trigger] now[i]) by {
            if i < before.len() - 1 || (cut(s) && i < before.len()) {
                assert(now[i] == before[i]);
            } else if !cut(s) {
                assert(now[i] == more);
                assert forall|j: int| 0 <= j < more.len() && #[trigger] more[j] == ',' implies depth(
                    more.take(j),
                ) != 0 by {
                    if j < last.len() {
                        assert(last[j] == ',');
                        assert(more.take(j) =~= last.take(j));
                    } else {
                        assert(more.take(j) =~= last);
                    }
                }
            }
        }
        assert forall|i: int| 0 <= i < now.len() - 1 implies depth(#[trigger] now[i]) == 0 by {
            assert(now[i] == before[i]);
        }
    }
}

proof fn lemma_depth_white(s: Seq<char>)
    requires
        s.len() > 0,
        is_white(s.first()),
    ensures
        depth(s) == depth(s.drop_first()),
{
    let f = seq![s.first()];
    assert(s =~= f + s.drop_first());
    lemma_depth_append(f, s.drop_first());
    assert(f.drop_last() =~= Seq::empty());
    reveal_with_fuel(depth, 2);
}

proof fn lemma_trim_start_whole(s: Seq<char>)
    ensures
        depth(trim_start(s)) == depth(s),
        no_top_comma(s) ==> no_top_comma(trim_start(s)),
    decreases s.len(),
{
    if s.len() > 0 && is_white(s.first()) {
        let rest = s.drop_first();
        lemma_depth_white(s);
        if no_top_comma(s) {
            assert forall|j: int| 0 <= j < rest.len() && #[trigger] rest[j] == ',' implies depth(
                rest.take(j),
            ) != 0 by {
                assert(s[j + 1] == ',');
                let t = s.take(j + 1);
                lemma_depth_white(t);
                assert(t.drop_first() =~= rest.take(j));
            }
        }
        lemma_trim_start_whole(rest);
    }
}

proof fn lemma_trim_end_whole(s: Seq<char>)
    ensures
        depth(trim_end(s)) == depth(s),
        no_top_comma(s) ==> no_top_comma(trim_end(s)),
    decreases s.len(),
{
    if s.len() > 0 && is_white(s.last()) {
        let rest = s.drop_last();
        if no_top_comma(s) {
            assert forall|j: int| 0 <= j < rest.len() && #[trigger] rest[j] == ',' implies depth(
                rest.take(j),
            ) != 0 by {
                assert(s[j] == ',');
                assert(s.take(j) =~= rest.take(j));
            }
        }
        lemma_trim_end_whole(rest);
    }
}

proof fn lemma_kept_whole(parts: Seq<Seq<char>>)
    requires
        forall|i: int| 0 <= i < parts.len() ==> no_top_comma(#[trigger] parts[i]),
        forall|i: int| 0 <= i < parts.len() - 1 ==> depth(#[trigger] parts[i]) == 0,
    ensures
        forall|i: int| 0 <= i < kept(parts).len() ==> no_top_comma(#[trigger] kept(parts)[i]),
        forall|i: int| 0 <= i < kept(parts).len() - 1 ==> depth(#[trigger] kept(parts)[i]) == 0,
        parts.len() > 0 && depth(parts.last()) == 0 ==> forall|i: int|
            0 <= i < kept(parts).len() ==> depth(#[trigger] kept(parts)[i]) == 0,
    decreases parts.len(),
{
    if parts.len() > 0 {
        let front = parts.drop_last();
        assert forall|i: int| 0 <= i < front.len() implies no_top_comma(#[trigger] front[i])
            && depth(front[i]) == 0 by {
            assert(parts[i] == front[i]);
        }
        lemma_kept_whole(front);
        assert(no_top_comma(parts[parts.len() - 1]));
        lemma_trim_start_whole(parts.last());
        lemma_trim_end_whole(trim_start(parts.last()));
        let now = kept(parts);
        let before = kept(front);
        assert forall|i: int| 0 <= i < before.len() implies #[trigger] now[i] == before[i]
            && depth(now[i]) == 0 && no_top_comma(now[i]) by {
            assert(front.len() > 0);
            assert(depth(before[i]) == 0 && no_top_comma(before[i]));
        }
    }
}

/// Cutting a selector and putting its requirements together again changes nothing: the
/// selector of the pieces is cut into the same pieces, and each piece is one.
pub proof fn law_cut_again(sel: Seq<char>)
    ensures
        raw_requirements(join(raw_requirements(sel), seq![','])) == raw_requirements(sel),
        forall|i: int|
            0 <= i < raw_requirements(sel).len() ==> #[trigger] raw_requirements(
                raw_requirements(sel)[i],
            ) == seq![raw_requirements(sel)[i]],
{
    let raw = raw_requirements(sel);
    lemma_pieces_whole(sel);
    lemma_kept_whole(pieces(sel, at_top_comma()));
    lemma_kept_trimmed(pieces(sel, at_top_comma()));
    lemma_raw_of_join(raw);
    assert forall|i: int| 0 <= i < raw.len() implies #[trigger] raw_requirements(raw[i])
        == seq![raw[i]] by {
        assert(no_top_comma(raw[i]));
        let one = seq![raw[i]];
        lemma_raw_of_join(one);
        assert(join(one, seq![',']) == raw[i]);
    }
}

// ---- the first requirement of a list ----

/// The values of a set are not read from its text with a comma and more behind it.
proof fn lemma_set_extended(values: Seq<Seq<char>>, z: Seq<char>)
    requires
        z.len() > 0 ==> !is_white(z.last()),
    ensures
        set_members("("@ + join(values, ","@) + ")"@ + (seq![','] + z)) != values,
{
    lemma_comma();
    reveal_strlit("(");
    reveal_strlit(")");
    let c = ')';
    let body = join(values, seq![',']);
    let u = "("@ + body + ")"@ + seq![','];
    let s = "("@ + body + ")"@ + (seq![','] + z);
    assert(s =~= u + z);
    assert(is_trimmed(s));
    lemma_strip_start(u, '(');
    lemma_strip_start_of(u, z, '(');
    let a = strip_start(u, '(');
    let b = strip_end(a + z, c);
    lemma_tally_strip_start(u, '(', c);
    lemma_tally_strip_end_of(a, z, c);
    lemma_tally_append("("@ + body + ")"@, seq![','], c);
    lemma_tally_three("("@, body, ")"@, c);
    assert(")"@.drop_last() =~= Seq::empty());
    assert(tally(")"@, c) == 1) by {
        reveal_with_fuel(tally, 2);
    }
    lemma_tally_split(b, c);
    lemma_tally_kept(split(b, ','), c);
    lemma_tally_join(values, c);
}

/// A requirement is not read from its text with a comma and more behind it.
proof fn lemma_extended(r: RequirementV, z: Seq<char>)
    requires
        is_trimmed(written(r) + (seq![','] + z)),
    ensures
        requirement_of(written(r) + (seq![','] + z)) != r,
{
    let w = written(r);
    let more = seq![','] + z;
    let x = w + more;
    lemma_commas(x);
    lemma_tally_append(w, more, ',');
    lemma_tally_first(more, ',');
    match r {
        RequirementV::In { key, values } => {
            reveal_strlit(" in ");
            reveal_strlit("(");
            reveal_strlit(" in (");
            assert(" in ("@ =~= " in "@ + "("@);
            assert(w =~= key + " in "@ + ("("@ + join(values, ","@) + ")"@));
            if requirement_of(x) == r {
                lemma_set_requirement_extended(key, values, " in "@, z);
            }
        },
        RequirementV::NotIn { key, values } => {
            reveal_strlit(" notin ");
            reveal_strlit("(");
            reveal_strlit(" notin (");
            assert(" notin ("@ =~= " notin "@ + "("@);
            assert(w =~= key + " notin "@ + ("("@ + join(values, ","@) + ")"@));
            if requirement_of(x) == r {
                lemma_set_requirement_extended(key, values, " notin "@, z);
            }
        },
        _ => {},
    }
}

proof fn lemma_set_requirement_extended(
    key: Seq<char>,
    values: Seq<Seq<char>>,
    word: Seq<char>,
    z: Seq<char>,
)
    requires
        ({
            let x = key + word + ("("@ + join(values, ","@) + ")"@) + (seq![','] + z);
            &&& is_trimmed(x)
            &&& split_once(x, word) matches Some(p) && trim(p.0) == key
        }),
    ensures
        ({
            let x = key + word + ("("@ + join(values, ","@) + ")"@) + (seq![','] + z);
            set_members((split_once(x, word)->0).1) != values
        }),
{
    let rest = "("@ + join(values, ","@) + ")"@ + (seq![','] + z);
    let n = key.len() as int;
    let x = key + word + ("("@ + join(values, ","@) + ")"@) + (seq![','] + z);
    assert(x =~= key + word + rest);
    let p = split_once(x, word)->0;
    lemma_cut(x, word);
    lemma_trim_len(p.0);
    assert(x.subrange(n, n + word.len()) =~= word);
    assert(occurs_at(x, word, n));
    assert(p.0.len() == n);
    assert(x.skip(n + word.len()) =~= rest);
    assert((p.0 + word + p.1).skip(n + word.len()) =~= p.1);
    if z.len() > 0 {
        assert(z.last() == x.last());
    }
    lemma_set_extended(values, z);
}

/// Where a requirement comes first of what is read from its text, or from its text with
/// a comma and more behind it, the selector is cut right behind it.
proof fn lemma_head(r: RequirementV, s: Seq<char>)
    requires
        s == written(r) || exists|z: Seq<char>| s == #[trigger] (written(r) + seq![','] + z),
        raw_requirements(s).len() > 0,
        requirement_of(raw_requirements(s)[0]) == r,
    ensures
        no_top_comma(written(r)),
        s != written(r) ==> depth(written(r)) == 0,
{
    let w = written(r);
    let x = raw_requirements(s)[0];
    let n = w.len() as int;
    lemma_kept_trimmed(pieces(s, at_top_comma()));
    lemma_first_char(x);
    assert(w =~= s.take(n));
    if no_top_comma(s) {
        lemma_one_piece(s);
        lemma_kept_one(s);
        assert forall|j: int| 0 <= j < w.len() && #[trigger] w[j] == ',' implies depth(w.take(j))
            != 0 by {
            assert(s[j] == ',');
            assert(w.take(j) =~= s.take(j));
        }
        if s != w {
            lemma_head_extended(r, s);
        }
    } else {
        let c = lemma_first_cut(s);
        let p = s.take(c);
        lemma_cut_requirements(s, c);
        lemma_kept_one(p);
        if c < n {
            if trim(p).len() > 0 {
                assert(x == trim(p));
                lemma_commas(x);
                lemma_tally_trim(p, ',');
                assert(w =~= p + w.skip(c));
                lemma_tally_append(p, w.skip(c), ',');
                lemma_tally_first(w.skip(c), ',');
            } else {
                let rest = s.skip(c + 1);
                assert(x == raw_requirements(rest)[0]);
                lemma_pieces_led(rest);
                lemma_kept_led(pieces(rest, at_top_comma()));
                if c > 0 {
                    assert(p[0] == x[0]);
                    lemma_trim_first(p);
                }
            }
            assert(false);
        }
        assert forall|j: int| 0 <= j < w.len() && #[trigger] w[j] == ',' implies depth(w.take(j))
            != 0 by {
            assert(p[j] == ',');
            assert(w.take(j) =~= p.take(j));
        }
        if c > n {
            assert(p[n] == ',');
            let z = choose|z: Seq<char>| s == #[trigger] (w + seq![','] + z);
            assert(p =~= w + seq![','] + z.take(c - n - 1));
            assert(p[0] == x[0]);
            lemma_trim_prefix(p, n);
            lemma_head_extended(r, p);
        }
    }
}

/// A requirement is not the one that its text, with a comma and more behind it, states.
proof fn lemma_head_extended(r: RequirementV, s: Seq<char>)
    requires
        exists|z: Seq<char>| s == #[trigger] (written(r) + seq![','] + z),
        trim(s).len() > 0,
    ensures
        requirement_of(trim(s)) != r,
{
    let w = written(r);
    let n = w.len() as int;
    let z = choose|z: Seq<char>| s == #[trigger] (w + seq![','] + z);
    let x = trim(s);
    lemma_trim(s);
    lemma_first_char(x);
    if requirement_of(x) == r {
        assert(s[0] == w[0]);
        assert(s[n] == ',');
        lemma_trim_prefix(s, n);
        let y = x.skip(n + 1);
        assert(x =~= w + (seq![','] + y));
        lemma_extended(r, y);
    }
}

proof fn lemma_join_first(parts: Seq<Seq<char>>)
    requires
        parts.len() > 1,
    ensures
        join(parts, seq![',']) == parts[0] + seq![','] + join(parts.drop_first(), seq![',']),
    decreases parts.len(),
{
    let sep = seq![','];
    let rest = parts.drop_first();
    reveal_with_fuel(join, 2);
    if parts.len() == 2 {
        assert(join(parts, sep) =~= parts[0] + sep + join(rest, sep));
    } else {
        let front = parts.drop_last();
        lemma_join_first(front);
        assert(front.drop_first() =~= rest.drop_last());
        assert(join(parts, sep) =~= parts[0] + sep + join(rest, sep));
    }
}

/// Only requirements that can be written are read back from a selector.
proof fn lemma_list_read_back_only(reqs: Seq<RequirementV>)
    requires
        requirements_of(selector_text(reqs)) == reqs,
    ensures
        forall|i: int| 0 <= i < reqs.len() ==> writable(#[trigger] reqs[i]),
        forall|i: int| 0 <= i < reqs.len() - 1 ==> depth(written(#[trigger] reqs[i])) == 0,
    decreases reqs.len(),
{
    if reqs.len() > 0 {
        lemma_comma();
        let cut = at_top_comma();
        let ws = Seq::new(reqs.len(), |i: int| written(reqs[i]));
        let s = join(ws, seq![',']);
        let r = reqs[0];
        let w = written(r);
        let raw = raw_requirements(s);
        let after = reqs.drop_first();
        let later = Seq::new(after.len(), |i: int| written(after[i]));
        let t = join(later, seq![',']);
        assert(raw.len() == reqs.len());
        assert(requirements_of(s)[0] == r);
        if reqs.len() > 1 {
            lemma_join_first(ws);
            assert(ws.drop_first() =~= later);
            assert(s == w + seq![','] + t);
            assert(s.len() > w.len());
        } else {
            assert(s == w);
        }
        lemma_head(r, s);
        lemma_one_piece(w);
        lemma_kept_one(w);
        lemma_kept_trimmed(pieces(s, cut));
        lemma_first_char(raw[0]);
        lemma_trim_first(w);
        assert(kept(seq![w]) == seq![trim(w)]);
        if reqs.len() > 1 {
            lemma_pieces_and(w, t);
            lemma_kept_append(pieces(w, cut), pieces(t, cut));
            assert(raw == seq![trim(w)] + raw_requirements(t));
            let found = requirements_of(t);
            assert forall|i: int| 0 <= i < after.len() implies #[trigger] found[i] == after[i] by {
                assert(requirements_of(s)[i + 1] == reqs[i + 1]);
                assert(raw[i + 1] == raw_requirements(t)[i]);
            }
            assert(found =~= after);
            lemma_list_read_back_only(after);
        }
        assert(raw[0] == trim(w));
        lemma_reads_back_only(r);
        assert forall|i: int| 0 <= i < reqs.len() implies writable(#[trigger] reqs[i]) by {
            if i > 0 {
                assert(reqs[i] == after[i - 1]);
            }
        }
        assert forall|i: int| 0 <= i < reqs.len() - 1 implies depth(written(#[trigger] reqs[i]))
            == 0 by {
            if i > 0 {
                assert(reqs[i] == after[i - 1]);
            }
        }
    }
}

/// Which lists of requirements are read back from the selector they are written as:
/// exactly those whose requirements can all be written, with the parentheses of each but
/// the last in balance.
pub proof fn law_round_trip_exactly(reqs: Seq<RequirementV>)
    ensures
        requirements_of(selector_text(reqs)) == reqs <==> {
            &&& forall|i: int| 0 <= i < reqs.len() ==> writable(#[trigger] reqs[i])
            &&& forall|i: int| 0 <= i < reqs.len() - 1 ==> depth(written(#[trigger] reqs[i])) == 0
        },
{
    let all = forall|i: int| 0 <= i < reqs.len() ==> writable(#[trigger] reqs[i]);
    let even = forall|i: int| 0 <= i < reqs.len() - 1 ==> depth(written(#[trigger] reqs[i])) == 0;
    if requirements_of(selector_text(reqs)) == reqs {
        lemma_list_read_back_only(reqs);
    } else if all && even {
        law_parse_undoes_build(reqs);
    }
}

} // verus!
