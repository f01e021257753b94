//! What holds of every text that is trimmed, cut, joined, compared or read as a number.

use vstd::prelude::*;

use crate::decimal::{decimal, digits_value, is_digits, law_decimal_read_back, parsed_i64};
use crate::names::is_digit;
use crate::text::{
    ascii_lower, ascii_lowercase, at_char, find, find_from, is_trimmed, is_white, join,
    lemma_pieces_some, occurs_at, pieces, same_ignoring_case, split, split_once, trim, trim_end,
    trim_start,
};

verus! {

/// Whether two characters are the same, or one is the small form of the other in ASCII.
pub open spec fn same_letter(a: char, b: char) -> bool {
    ||| a == b
    ||| 'a' <= a <= 'z' && a as u32 == b as u32 + 32
    ||| 'a' <= b <= 'z' && b as u32 == a as u32 + 32
}

/// Whether two texts are the same but for the case of their ASCII letters.
pub open spec fn alike(a: Seq<char>, b: Seq<char>) -> bool {
    a.len() == b.len() && forall|i: int| 0 <= i < a.len() ==> #[trigger] same_letter(a[i], b[i])
}

/// Texts are compared without case letter by letter.
pub proof fn law_ignoring_case(a: Seq<char>, b: Seq<char>)
    ensures
        same_ignoring_case(a, b) <==> alike(a, b),
{
    let x = ascii_lowercase(a);
    let y = ascii_lowercase(b);
    if x == y {
        assert(a.len() == x.len() && b.len() == y.len());
        assert forall|i: int| 0 <= i < a.len() implies #[trigger] same_letter(a[i], b[i]) by {
            assert(x[i] == ascii_lower(a[i]) && y[i] == ascii_lower(b[i]));
            assert(x[i] == y[i]);
            assert(x[i] as u32 == y[i] as u32);
        }
    }
    if alike(a, b) {
        assert forall|i: int| 0 <= i < a.len() implies x[i] == y[i] by {
            assert(same_letter(a[i], b[i]));
        }
        assert(x =~= y);
    }
}

/// A lower-case text has `a` to `z` where the text has `A` to `Z`, and the rest stays.
pub proof fn law_ascii_lowercase(s: Seq<char>, i: int)
    requires
        0 <= i < s.len(),
    ensures
        ascii_lowercase(s).len() == s.len(),
        'A' <= s[i] <= 'Z' ==> ascii_lowercase(s)[i] as u32 == s[i] as u32 + 32,
        !('A' <= s[i] <= 'Z') ==> ascii_lowercase(s)[i] == s[i],
{
    assert(ascii_lowercase(s)[i] == ascii_lower(s[i]));
}

/// The white space of ASCII.
pub proof fn law_white(c: char)
    ensures
        c <= '\u{7f}' ==> (is_white(c) <==> c == ' ' || c == '\t' || c == '\n' || c == '\r' || c
            == '\u{b}' || c == '\u{c}'),
{
}

/// Whether a text is white space alone.
pub open spec fn all_white(s: Seq<char>) -> bool {
    forall|i: int| 0 <= i < s.len() ==> is_white(#[trigger] s[i])
}

proof fn lemma_trim_start(s: Seq<char>) -> (before: Seq<char>)
    ensures
        s == before + trim_start(s),
        all_white(before),
        trim_start(s).len() > 0 ==> !is_white(trim_start(s).first()),
    decreases s.len(),
{
    if s.len() > 0 && is_white(s.first()) {
        let rest = lemma_trim_start(s.drop_first());
        let before = seq![s.first()] + rest;
        assert(s =~= seq![s.first()] + s.drop_first());
        assert(trim_start(s) == trim_start(s.drop_first()));
        assert(s =~= before + trim_start(s));
        before
    } else {
        assert(s =~= Seq::<char>::empty() + s);
        Seq::empty()
    }
}

proof fn lemma_trim_end(s: Seq<char>) -> (after: Seq<char>)
    ensures
        s == trim_end(s) + after,
        all_white(after),
        trim_end(s).len() > 0 ==> !is_white(trim_end(s).last()),
    decreases s.len(),
{
    if s.len() > 0 && is_white(s.last()) {
        let rest = lemma_trim_end(s.drop_last());
        let after = rest.push(s.last());
        assert(s =~= s.drop_last().push(s.last()));
        assert(trim_end(s) == trim_end(s.drop_last()));
        assert(s =~= trim_end(s) + after);
        after
    } else {
        assert(s =~= s + Seq::<char>::empty());
        Seq::empty()
    }
}

/// To trim a text takes the white space off its two ends, all of it, and nothing else.
pub proof fn law_trim(s: Seq<char>) -> (ends: (Seq<char>, Seq<char>))
    ensures
        s == ends.0 + trim(s) + ends.1,
        all_white(ends.0),
        all_white(ends.1),
        is_trimmed(trim(s)),
{
    let before = lemma_trim_start(s);
    let inner = trim_start(s);
    let after = lemma_trim_end(inner);
    if trim(s).len() > 0 {
        assert(trim(s).first() == inner.first());
    }
    assert(s =~= before + trim(s) + after);
    (before, after)
}

proof fn lemma_find_first(s: Seq<char>, pat: Seq<char>, i: int)
    requires
        0 <= i,
    ensures
        match find_from(s, pat, i) {
            Some(k) => i <= k && occurs_at(s, pat, k) && forall|j: int|
                i <= j < k ==> !#[trigger] occurs_at(s, pat, j),
            None => forall|j: int| i <= j ==> !#[trigger] occurs_at(s, pat, j),
        },
    decreases s.len() - i + 1,
{
    if i + pat.len() <= s.len() && !occurs_at(s, pat, i) {
        lemma_find_first(s, pat, i + 1);
    }
}

/// A text is cut in two at the first place where the pattern stands: the two parts with
/// the pattern between them are the text. It stays whole only if the pattern is nowhere.
pub proof fn law_split_once(s: Seq<char>, pat: Seq<char>)
    ensures
        match split_once(s, pat) {
            Some((a, b)) => s == a + pat + b && forall|j: int|
                0 <= j < a.len() ==> !#[trigger] occurs_at(s, pat, j),
            None => forall|j: int| 0 <= j ==> !#[trigger] occurs_at(s, pat, j),
        },
{
    lemma_find_first(s, pat, 0);
    if let Some(i) = find(s, pat) {
        assert(s.subrange(i, i + pat.len()) == pat);
        assert(s =~= s.take(i) + pat + s.skip(i + pat.len()));
    }
}

/// The pieces of a text hold no separator, and with the separator between them they are
/// the text.
pub proof fn law_split_and_join(s: Seq<char>, c: char)
    ensures
        split(s, c).len() > 0,
        join(split(s, c), seq![c]) == s,
        forall|i: int| 0 <= i < split(s, c).len() ==> !(#[trigger] split(s, c)[i]).contains(c),
    decreases s.len(),
{
    let sep = seq![c];
    if s.len() == 0 {
        assert(split(s, c) =~= seq![Seq::<char>::empty()]);
        assert(s =~= Seq::empty());
    } else {
        let front = s.drop_last();
        law_split_and_join(front, c);
        let before = split(front, c);
        let all = split(s, c);
        assert(before == pieces(front, at_char(c)));
        assert(s =~= front.push(s.last()));
        if s.last() == c {
            assert(all =~= before.push(Seq::empty()));
            assert(all.drop_last() =~= before);
            assert(join(all, sep) =~= join(before, sep) + sep);
        } else {
            let last = before.last().push(s.last());
            assert(all =~= before.drop_last().push(last));
            assert(all.drop_last() =~= before.drop_last());
            assert forall|i: int| 0 <= i < all.len() implies !(#[trigger] all[i]).contains(c) by {
                if i < before.len() - 1 {
                    assert(all[i] == before[i]);
                } else {
                    assert(!before[before.len() - 1].contains(c));
                    if last.contains(c) {
                        let k = choose|k: int| 0 <= k < last.len() && last[k] == c;
                        assert(before.last()[k] == c);
                    }
                }
            }
            if before.len() == 1 {
                assert(join(all, sep) =~= last);
            } else {
                assert(join(all, sep) =~= join(before, sep).push(s.last()));
            }
        }
    }
}

/// Parts without the separator come back from the text that they are joined to.
pub proof fn law_join_and_split(parts: Seq<Seq<char>>, c: char)
    requires
        parts.len() > 0,
        forall|i: int| 0 <= i < parts.len() ==> !(#[trigger] parts[i]).contains(c),
    ensures
        split(join(parts, seq![c]), c) == parts,
    decreases parts.len(),
{
    let sep = seq![c];
    let last = parts.last();
    assert(!parts[parts.len() - 1].contains(c));
    if parts.len() == 1 {
        lemma_tail(Seq::empty(), last, c);
        assert(Seq::<char>::empty() + last =~= last);
        assert(split(Seq::empty(), c) =~= seq![Seq::<char>::empty()]);
        assert(split(last, c) =~= parts);
    } else {
        let front = parts.drop_last();
        assert forall|i: int| 0 <= i < front.len() implies !(#[trigger] front[i]).contains(c) by {
            assert(!parts[i].contains(c));
        }
        law_join_and_split(front, c);
        let head = join(front, sep);
        let cut = head + sep;
        assert(cut.drop_last() =~= head);
        lemma_pieces_some(head, at_char(c));
        assert(split(cut, c) =~= front.push(Seq::empty()));
        lemma_tail(cut, last, c);
        assert(Seq::<char>::empty() + last =~= last);
        assert(split(cut + last, c) =~= parts);
    }
}

proof fn lemma_tail(s: Seq<char>, tail: Seq<char>, c: char)
    requires
        !tail.contains(c),
    ensures
        split(s, c).len() > 0,
        split(s + tail, c) == split(s, c).drop_last().push(split(s, c).last() + tail),
    decreases tail.len(),
{
    lemma_pieces_some(s, at_char(c));
    let before = split(s, c);
    if tail.len() == 0 {
        assert(s + tail =~= s);
        assert(before.last() + tail =~= before.last());
        assert(before.drop_last().push(before.last()) =~= before);
    } else {
        let front = tail.drop_last();
        assert forall|k: int| 0 <= k < front.len() implies front[k] != c by {
            assert(tail.contains(tail[k]));
        }
        assert(tail.contains(tail.last()));
        lemma_tail(s, front, c);
        assert((s + tail).drop_last() =~= s + front);
        let inner = split(s + front, c);
        assert(inner.drop_last() =~= before.drop_last());
        assert((before.last() + front).push(tail.last()) =~= before.last() + tail);
        assert(split(s + tail, c) =~= inner.drop_last().push(inner.last().push(tail.last())));
    }
}

/// A number is written in decimal digits, the last one for what is left over tens.
pub proof fn law_decimal(n: nat, d: nat)
    requires
        d < 10,
    ensures
        decimal(d) == seq![(48 + d) as char],
        n > 0 ==> decimal(n * 10 + d) == decimal(n).push((48 + d) as char),
{
    if n > 0 {
        assert((n * 10 + d) / 10 == n);
        assert((n * 10 + d) % 10 == d);
    }
}

/// A decimal number is read for what it is, with a sign or without; nothing that holds
/// other characters is a number, and neither is what 64 bits cannot hold.
pub proof fn law_numbers_are_read(n: nat, s: Seq<char>)
    ensures
        n <= i64::MAX ==> parsed_i64(decimal(n)) == Some(n as i64),
        n <= i64::MAX ==> parsed_i64(seq!['+'] + decimal(n)) == Some(n as i64),
        -n >= i64::MIN ==> parsed_i64(seq!['-'] + decimal(n)) == Some((-n) as i64),
        n > i64::MAX ==> parsed_i64(decimal(n)) is None,
        n > i64::MAX ==> parsed_i64(seq!['+'] + decimal(n)) is None,
        -n < i64::MIN ==> parsed_i64(seq!['-'] + decimal(n)) is None,
        parsed_i64(Seq::empty()) is None,
        parsed_i64(seq!['+']) is None,
        parsed_i64(seq!['-']) is None,
        (exists|i: int| 0 < i < s.len() && !('0' <= #[trigger] s[i] <= '9')) ==> parsed_i64(
            s,
        ) is None,
        s.len() > 0 && s[0] != '+' && s[0] != '-' && !('0' <= s[0] <= '9') ==> parsed_i64(
            s,
        ) is None,
{
    law_decimal_read_back(n);
    let t = decimal(n);
    assert(seq!['+'].skip(1) =~= Seq::<char>::empty());
    assert(seq!['-'].skip(1) =~= Seq::<char>::empty());
    assert((seq!['+'] + t).skip(1) =~= t);
    assert((seq!['-'] + t).skip(1) =~= t);
    if t[0] == '+' || t[0] == '-' {
        assert(is_digit(t[0]));
    }
    if exists|i: int| 0 < i < s.len() && !('0' <= #[trigger] s[i] <= '9') {
        let i = choose|i: int| 0 < i < s.len() && !('0' <= #[trigger] s[i] <= '9');
        assert(!is_digit(s[i]));
        assert(s.skip(1)[i - 1] == s[i]);
        assert(!is_digits(s.skip(1)));
        assert(!is_digits(s));
    }
    if s.len() > 0 && !('0' <= s[0] <= '9') {
        assert(!is_digit(s[0]));
        assert(!is_digits(s));
    }
}

/// Zeros in front of a number change nothing.
pub proof fn law_leading_zeros(s: Seq<char>)
    ensures
        is_digits(s) ==> is_digits(seq!['0'] + s) && digits_value(seq!['0'] + s) == digits_value(
            s,
        ),
    decreases s.len(),
{
    if is_digits(s) {
        let t = seq!['0'] + s;
        assert(is_digit('0'));
        assert forall|i: int| 0 <= i < t.len() implies is_digit(
            #[trigger] t[i],
        ) by {
            if i > 0 {
                assert(is_digit(s[i - 1]));
            }
        }
        assert(t.drop_last() =~= seq!['0'] + s.drop_last());
        if s.len() == 1 {
            assert(s.drop_last() =~= Seq::empty());
            assert(t.drop_last() =~= seq!['0']);
            assert(seq!['0'].drop_last() =~= Seq::<char>::empty());
            assert(digits_value(Seq::<char>::empty()) == 0);
            assert(digits_value(seq!['0']) == 0);
        } else {
            assert forall|i: int| 0 <= i < s.drop_last().len() implies is_digit(
                #[trigger] s.drop_last()[i],
            ) by {
                assert(is_digit(s[i]));
            }
            law_leading_zeros(s.drop_last());
        }
    }
}

/// An ASCII text is turned into lower case letter by letter.
pub proof fn law_lowercase(s: Seq<char>)
    requires
        forall|i: int| 0 <= i < s.len() ==> (#[trigger] s[i]) as u32 <= 127,
    ensures
        crate::text::lowercase(s).len() == s.len(),
        forall|i: int|
            0 <= i < s.len() && 'A' <= s[i] <= 'Z' ==> (#[trigger] crate::text::lowercase(s)[i]) as u32
                == s[i] as u32 + 32,
        forall|i: int|
            0 <= i < s.len() && !('A' <= s[i] <= 'Z') ==> #[trigger] crate::text::lowercase(s)[i]
                == s[i],
{
    assert(crate::text::is_ascii_text(s));
    assert forall|i: int| 0 <= i < s.len() implies #[trigger] crate::text::lowercase(s)[i]
        == ascii_lower(s[i]) by {}
}

} // verus!
