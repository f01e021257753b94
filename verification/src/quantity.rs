//! Resource quantities: how their texts are cut and which suffix they get.

use vstd::arithmetic::div_mod::{lemma_mod_multiples_basic, lemma_small_mod, lemma_truncate_middle};
use vstd::arithmetic::power2::{
    lemma2_to64, lemma2_to64_rest, lemma_pow2_adds, lemma_pow2_pos, lemma_pow2_strictly_increases,
    lemma_pow2_unfold, pow2,
};
use vstd::prelude::*;
use vstd::string::*;

use crate::error::OpError;
use crate::json::{Json, JsonV};
use crate::text::{chars_of, concat, opt_text, same_text, text_of, trim, trimmed};

verus! {

/// What a suffix multiplies by: two or ten to the given power.
#[derive(Clone, Copy, Debug, PartialEq, Eq, Structural)]
pub enum Scale {
    Binary(u8),
    Decimal(i8),
}

/// What a suffix multiplies by.
pub open spec fn scale_of(suffix: Seq<char>) -> Option<Scale> {
    if suffix == ""@ {
        Some(Scale::Decimal(0))
    } else if suffix == "n"@ {
        Some(Scale::Decimal((-9) as i8))
    } else if suffix == "u"@ {
        Some(Scale::Decimal((-6) as i8))
    } else if suffix == "m"@ {
        Some(Scale::Decimal((-3) as i8))
    } else if suffix == "k"@ {
        Some(Scale::Decimal(3))
    } else if suffix == "M"@ {
        Some(Scale::Decimal(6))
    } else if suffix == "G"@ {
        Some(Scale::Decimal(9))
    } else if suffix == "T"@ {
        Some(Scale::Decimal(12))
    } else if suffix == "P"@ {
        Some(Scale::Decimal(15))
    } else if suffix == "E"@ {
        Some(Scale::Decimal(18))
    } else if suffix == "Ki"@ {
        Some(Scale::Binary(10))
    } else if suffix == "Mi"@ {
        Some(Scale::Binary(20))
    } else if suffix == "Gi"@ {
        Some(Scale::Binary(30))
    } else if suffix == "Ti"@ {
        Some(Scale::Binary(40))
    } else if suffix == "Pi"@ {
        Some(Scale::Binary(50))
    } else if suffix == "Ei"@ {
        Some(Scale::Binary(60))
    } else {
        None
    }
}

/// What a suffix multiplies by: binary suffixes by powers of 1024, decimal suffixes by
/// powers of 1000.
pub fn quantity_multiplier(suffix: &str) -> (r: Option<Scale>)
    ensures
        r == scale_of(suffix@),
{
    if same_text(suffix, "") {
        Some(Scale::Decimal(0))
    } else if same_text(suffix, "n") {
        Some(Scale::Decimal(-9))
    } else if same_text(suffix, "u") {
        Some(Scale::Decimal(-6))
    } else if same_text(suffix, "m") {
        Some(Scale::Decimal(-3))
    } else if same_text(suffix, "k") {
        Some(Scale::Decimal(3))
    } else if same_text(suffix, "M") {
        Some(Scale::Decimal(6))
    } else if same_text(suffix, "G") {
        Some(Scale::Decimal(9))
    } else if same_text(suffix, "T") {
        Some(Scale::Decimal(12))
    } else if same_text(suffix, "P") {
        Some(Scale::Decimal(15))
    } else if same_text(suffix, "E") {
        Some(Scale::Decimal(18))
    } else if same_text(suffix, "Ki") {
        Some(Scale::Binary(10))
    } else if same_text(suffix, "Mi") {
        Some(Scale::Binary(20))
    } else if same_text(suffix, "Gi") {
        Some(Scale::Binary(30))
    } else if same_text(suffix, "Ti") {
        Some(Scale::Binary(40))
    } else if same_text(suffix, "Pi") {
        Some(Scale::Binary(50))
    } else if same_text(suffix, "Ei") {
        Some(Scale::Binary(60))
    } else {
        None
    }
}

/// Whether a character is an ASCII letter.
pub open spec fn is_letter(c: char) -> bool {
    'a' <= c <= 'z' || 'A' <= c <= 'Z'
}

/// The text without the ASCII letters at its end.
pub open spec fn number_part(q: Seq<char>) -> Seq<char>
    decreases q.len(),
{
    if q.len() > 0 && is_letter(q.last()) {
        number_part(q.drop_last())
    } else {
        q
    }
}

/// The ASCII letters at the end of a text.
pub open spec fn suffix_part(q: Seq<char>) -> Seq<char> {
    q.skip(number_part(q).len() as int)
}

/// A quantity cut into its number and its suffix.
#[derive(Debug)]
pub struct QuantityText {
    pub quantity: String,
    pub number: String,
    pub suffix: String,
    pub scale: Scale,
}

/// What a `QuantityText` is.
#[verifier::ext_equal]
pub struct QuantityTextV {
    pub quantity: Seq<char>,
    pub number: Seq<char>,
    pub suffix: Seq<char>,
    pub scale: Scale,
}

impl View for QuantityText {
    type V = QuantityTextV;

    open spec fn view(&self) -> QuantityTextV {
        QuantityTextV {
            quantity: self.quantity@,
            number: self.number@,
            suffix: self.suffix@,
            scale: self.scale,
        }
    }
}

/// The fault of a suffix that is none.
pub open spec fn unknown_suffix(suffix: Seq<char>) -> Seq<char> {
    "unknown quantity suffix `"@ + suffix + "`"@
}

/// How the quantity of the arguments is cut, or what is wrong with it.
pub open spec fn quantity_text(opts: JsonV) -> Result<QuantityTextV, Seq<char>> {
    match opts.field("quantity"@).text() {
        None => Err("missing quantity"@),
        Some(text) => {
            let quantity = trim(text);
            let suffix = suffix_part(quantity);
            match scale_of(suffix) {
                None => Err(unknown_suffix(suffix)),
                Some(scale) => Ok(
                    QuantityTextV { quantity, number: number_part(quantity), suffix, scale },
                ),
            }
        },
    }
}

/// The fault of a suffix that is none.
fn suffix_error(suffix: &str) -> (r: OpError)
    ensures
        r@ == unknown_suffix(suffix@),
{
    let mut message = "unknown quantity suffix `".to_owned();
    message.append(suffix);
    message.append("`");
    OpError { message }
}

/// Where the suffix of a quantity begins.
fn suffix_start(v: &Vec<char>) -> (r: usize)
    ensures
        r <= v@.len(),
        v@.take(r as int) == number_part(v@),
{
    let mut i: usize = v.len();
    assert(v@.take(v@.len() as int) =~= v@);
    while i > 0 && (('a' <= v[i - 1] && v[i - 1] <= 'z') || ('A' <= v[i - 1] && v[i - 1] <= 'Z'))
        invariant
            i <= v@.len(),
            number_part(v@.take(i as int)) == number_part(v@),
        decreases i,
    {
        assert(v@.take(i as int).drop_last() =~= v@.take(i - 1));
        i -= 1;
    }
    i
}

/// Cuts the quantity of the arguments into its number and its suffix.
pub fn op_parse_quantity(opts: &Json) -> (r: Result<QuantityText, OpError>)
    ensures
        match r {
            Ok(q) => quantity_text(opts@) == Ok::<QuantityTextV, Seq<char>>(q@),
            Err(e) => quantity_text(opts@) == Err::<QuantityTextV, Seq<char>>(e@),
        },
{
    let text = match opts.text_at("quantity") {
        Some(s) => s,
        None => return Err(OpError::new("missing quantity")),
    };
    let quantity = trimmed(text.as_str());
    let v = chars_of(quantity.as_str());
    let n: usize = v.len();
    let at = suffix_start(&v);
    let number = text_of(&v, 0, at);
    let suffix = text_of(&v, at, n);
    assert(number@ =~= number_part(quantity@));
    assert(suffix@ =~= suffix_part(quantity@));
    match quantity_multiplier(suffix.as_str()) {
        None => Err(suffix_error(suffix.as_str())),
        Some(scale) => Ok(QuantityText { quantity, number, suffix, scale }),
    }
}

impl QuantityText {
    /// The fault of a number that cannot be read.
    pub fn invalid_number(&self) -> (r: OpError)
        ensures
            r@ == "invalid quantity number `"@ + self@.number + "`"@,
    {
        let mut message = "invalid quantity number `".to_owned();
        message.append(self.number.as_str());
        message.append("`");
        OpError { message }
    }

    /// The answer, once the number is read and multiplied.
    pub fn reply(self, number: Json, value: Json) -> (r: Json)
        ensures
            r@ == JsonV::blank().with("quantity"@, JsonV::Text(self@.quantity)).with(
                "number"@,
                number@,
            ).with("suffix"@, JsonV::Text(self@.suffix)).with("value"@, value@),
    {
        Json::blank().with("quantity", Json::Text(self.quantity)).with("number", number).with(
            "suffix",
            Json::Text(self.suffix),
        ).with("value", value)
    }
}

/// A quantity is its number followed by its suffix; the suffix is all letters and the
/// number does not end in one.
pub proof fn law_quantity_is_number_and_suffix(q: Seq<char>)
    ensures
        number_part(q) + suffix_part(q) == q,
        forall|i: int| 0 <= i < suffix_part(q).len() ==> is_letter(#[trigger] suffix_part(q)[i]),
        number_part(q).len() > 0 ==> !is_letter(number_part(q).last()),
    decreases q.len(),
{
    if q.len() > 0 && is_letter(q.last()) {
        let front = q.drop_last();
        law_quantity_is_number_and_suffix(front);
        lemma_number_part_len(front);
        assert(suffix_part(q) =~= suffix_part(front).push(q.last()));
        assert(number_part(q) + suffix_part(q) =~= (number_part(front) + suffix_part(front)).push(
            q.last(),
        ));
        assert(front.push(q.last()) =~= q);
    } else {
        assert(number_part(q) + suffix_part(q) =~= q);
    }
}

proof fn lemma_number_part_len(q: Seq<char>)
    ensures
        number_part(q).len() <= q.len(),
    decreases q.len(),
{
    if q.len() > 0 && is_letter(q.last()) {
        lemma_number_part_len(q.drop_last());
    }
}

/// A value that is to be written as a quantity.
#[derive(Debug)]
pub struct FormatRequest {
    pub value: serde_json::Number,
    pub suffix: Option<String>,
}

/// Reads the value that is to be written, and the suffix where one is asked for.
pub fn op_format_quantity(opts: &Json) -> (r: Result<FormatRequest, OpError>)
    ensures
        match r {
            Ok(f) => opts@.field("value"@) == JsonV::Number(crate::json::number_model(f.value))
                && opt_text(f.suffix) == opts@.field("suffix"@).text(),
            Err(e) => !(opts@.field("value"@) is Number) && e@ == "missing value"@,
        },
{
    match opts.get("value") {
        Some(Json::Number(n)) => Ok(
            FormatRequest { value: n.clone(), suffix: opts.text_at("suffix") },
        ),
        _ => Err(OpError::new("missing value")),
    }
}

/// The magnitude of a double-precision number with the given bits, in units of the
/// smallest positive one, which is two to the power of -1074; zero for bits that
/// stand for no finite number.
pub open spec fn magnitude(bits: u64) -> nat {
    let exponent = (bits as nat / pow2(52)) % 2048;
    let fraction = bits as nat % pow2(52);
    if exponent == 0 {
        fraction
    } else if exponent == 2047 {
        0
    } else {
        (fraction + pow2(52)) * pow2((exponent - 1) as nat)
    }
}

/// Whether a magnitude is a positive multiple of two to the given power.
pub open spec fn is_multiple_of_power(units: nat, power: nat) -> bool {
    units > 0 && units % pow2(power + 1074) == 0
}

/// The largest binary suffix that divides a magnitude exactly; none where no suffix
/// does.
pub open spec fn exact_suffix(units: nat) -> Seq<char> {
    if is_multiple_of_power(units, 60) {
        "Ei"@
    } else if is_multiple_of_power(units, 50) {
        "Pi"@
    } else if is_multiple_of_power(units, 40) {
        "Ti"@
    } else if is_multiple_of_power(units, 30) {
        "Gi"@
    } else if is_multiple_of_power(units, 20) {
        "Mi"@
    } else if is_multiple_of_power(units, 10) {
        "Ki"@
    } else {
        ""@
    }
}

/// Two to the given power.
fn power_of_two(d: u64) -> (r: u64)
    requires
        d <= 52,
    ensures
        r == pow2(d as nat),
{
    let mut r: u64 = 1;
    let mut i: u64 = 0;
    proof {
        lemma2_to64();
    }
    while i < d
        invariant
            i <= d <= 52,
            r == pow2(i as nat),
        decreases d - i,
    {
        proof {
            lemma_pow2_unfold(i as nat + 1);
            lemma2_to64_rest();
            lemma_pow2_strictly_increases(i as nat, 52);
        }
        r = r * 2;
        i += 1;
    }
    r
}

/// A product with a power of two is divided by a higher one exactly if its other factor
/// is divided by the difference.
proof fn lemma_multiple(m: nat, a: nat, power: nat)
    requires
        0 < m < pow2(53),
    ensures
        a >= power ==> (m * pow2(a)) % pow2(power) == 0,
        a < power ==> ((m * pow2(a)) % pow2(power) == 0 <==> m % pow2((power - a) as nat) == 0),
        power - a >= 53 ==> m % pow2((power - a) as nat) != 0,
{
    lemma_pow2_pos(power);
    lemma_pow2_pos(a);
    if a >= power {
        let d = (a - power) as nat;
        lemma_pow2_adds(d, power);
        assert(m * pow2(a) == (m * pow2(d)) * pow2(power)) by (nonlinear_arith)
            requires
                pow2(a) == pow2(d) * pow2(power),
        ;
        lemma_mod_multiples_basic((m * pow2(d)) as int, pow2(power) as int);
    } else {
        let d = (power - a) as nat;
        lemma_pow2_adds(a, d);
        lemma_pow2_pos(d);
        lemma_truncate_middle(m as int, pow2(a) as int, pow2(d) as int);
        assert(m * pow2(a) == pow2(a) * m) by (nonlinear_arith);
        let rest = (m % pow2(d)) as int;
        assert(pow2(a) * rest == 0 <==> rest == 0) by (nonlinear_arith)
            requires
                pow2(a) > 0,
        ;
        if d >= 53 {
            if d > 53 {
                lemma_pow2_strictly_increases(53, d);
            }
            lemma_small_mod(m, pow2(d));
        }
    }
}

/// Whether the number with the given bits is a multiple, other than zero, of two to the
/// given power.
fn divides(bits: u64, power: u64) -> (r: bool)
    requires
        power <= 60,
    ensures
        r == is_multiple_of_power(magnitude(bits), power as nat),
{
    let exponent: u64 = (bits / 0x10_0000_0000_0000) % 2048;
    let fraction: u64 = bits % 0x10_0000_0000_0000;
    proof {
        lemma2_to64_rest();
        lemma2_to64();
    }
    if exponent == 0 || exponent == 2047 {
        proof {
            if fraction > 0 {
                lemma_pow2_strictly_increases(52, power as nat + 1074);
                lemma_small_mod(fraction as nat, pow2(power as nat + 1074));
            }
        }
        return false;
    }
    let m: u64 = fraction + 0x10_0000_0000_0000;
    let a: u64 = exponent - 1;
    let p: u64 = power + 1074;
    proof {
        lemma_multiple(m as nat, a as nat, p as nat);
        lemma_pow2_pos(a as nat);
        assert(m * pow2(a as nat) > 0) by (nonlinear_arith)
            requires
                m > 0,
                pow2(a as nat) > 0,
        ;
    }
    if a >= p {
        true
    } else if p - a >= 53 {
        false
    } else {
        m % power_of_two(p - a) == 0
    }
}

/// The largest binary suffix that divides the number with the given bits exactly.
pub fn pick_suffix(bits: u64) -> (r: &'static str)
    ensures
        r@ == exact_suffix(magnitude(bits)),
{
    if divides(bits, 60) {
        "Ei"
    } else if divides(bits, 50) {
        "Pi"
    } else if divides(bits, 40) {
        "Ti"
    } else if divides(bits, 30) {
        "Gi"
    } else if divides(bits, 20) {
        "Mi"
    } else if divides(bits, 10) {
        "Ki"
    } else {
        ""
    }
}

/// The suffix with which a value is written, with what it multiplies by: the one that
/// was asked for, else the largest binary one that divides the value exactly.
pub open spec fn suffix_for(asked: Option<Seq<char>>, bits: u64) -> Seq<char> {
    match asked {
        Some(s) => s,
        None => exact_suffix(magnitude(bits)),
    }
}

impl FormatRequest {
    /// The suffix with which the value with the given bits is written, with what it
    /// multiplies by.
    pub fn choose_suffix(&self, bits: u64) -> (r: Result<(String, Scale), OpError>)
        ensures
            match r {
                Ok(p) => p.0@ == suffix_for(opt_text(self.suffix), bits) && scale_of(p.0@) == Some(
                    p.1,
                ),
                Err(e) => scale_of(suffix_for(opt_text(self.suffix), bits)) is None && e@
                    == unknown_suffix(suffix_for(opt_text(self.suffix), bits)),
            },
    {
        let suffix = match &self.suffix {
            Some(s) => s.clone(),
            None => pick_suffix(bits).to_owned(),
        };
        match quantity_multiplier(suffix.as_str()) {
            Some(scale) => Ok((suffix, scale)),
            None => Err(suffix_error(suffix.as_str())),
        }
    }
}

/// The answer of writing a quantity, once its number is written.
pub fn format_reply(digits: &str, suffix: &str, number: Json, value: Json) -> (r: Json)
    ensures
        r@ == JsonV::blank().with("quantity"@, JsonV::Text(digits@ + suffix@)).with(
            "number"@,
            number@,
        ).with("suffix"@, JsonV::Text(suffix@)).with("value"@, value@),
{
    Json::blank().with("quantity", Json::Text(concat(digits, suffix))).with("number", number).with(
        "suffix",
        Json::of_text(suffix),
    ).with("value", value)
}

/// The suffix that is chosen where none is asked for is a binary one or none, divides
/// the value exactly, and no larger binary suffix does.
pub proof fn law_chosen_suffix_is_largest(units: nat, power: nat)
    requires
        power == 10 || power == 20 || power == 30 || power == 40 || power == 50 || power == 60,
        is_multiple_of_power(units, power),
    ensures
        scale_of(exact_suffix(units)) matches Some(Scale::Binary(p)) && p >= power
            && is_multiple_of_power(units, p as nat),
{
    reveal_strlit("");
    reveal_strlit("n");
    reveal_strlit("u");
    reveal_strlit("m");
    reveal_strlit("k");
    reveal_strlit("M");
    reveal_strlit("G");
    reveal_strlit("T");
    reveal_strlit("P");
    reveal_strlit("E");
    reveal_strlit("Ki");
    reveal_strlit("Mi");
    reveal_strlit("Gi");
    reveal_strlit("Ti");
    reveal_strlit("Pi");
    reveal_strlit("Ei");
    assert(""@.len() == 0 && "n"@.len() == 1 && "u"@.len() == 1 && "m"@.len() == 1);
    assert("k"@.len() == 1 && "M"@.len() == 1 && "G"@.len() == 1 && "T"@.len() == 1);
    assert("P"@.len() == 1 && "E"@.len() == 1);
    assert("Ki"@.len() == 2 && "Ki"@[0] == 'K');
    assert("Mi"@.len() == 2 && "Mi"@[0] == 'M');
    assert("Gi"@.len() == 2 && "Gi"@[0] == 'G');
    assert("Ti"@.len() == 2 && "Ti"@[0] == 'T');
    assert("Pi"@.len() == 2 && "Pi"@[0] == 'P');
    assert("Ei"@.len() == 2 && "Ei"@[0] == 'E');
}

} // verus!
