//! The rules for object names and label values.

use vstd::prelude::*;
use vstd::string::*;
use vstd::utf8::{encode_utf8, is_ascii_chars, is_ascii_chars_encode_utf8};

use crate::error::{outcome, OpError};
use crate::json::{text_or_null, Json, JsonV};
use crate::text::{chars_of, same_text};

verus! {

/// Whether a character is one of `a` to `z`.
pub open spec fn is_lower(c: char) -> bool {
    'a' <= c <= 'z'
}

/// Whether a character is an ASCII digit.
pub open spec fn is_digit(c: char) -> bool {
    '0' <= c <= '9'
}

/// Whether a character is an ASCII letter or digit.
pub open spec fn is_alphanumeric(c: char) -> bool {
    is_lower(c) || 'A' <= c <= 'Z' || is_digit(c)
}

/// Whether a character may stand in an object name. A dot may only in a subdomain.
pub open spec fn is_name_char(c: char, label: bool) -> bool {
    is_lower(c) || is_digit(c) || c == '-' || (!label && c == '.')
}

/// Whether a character may stand in a label value.
pub open spec fn is_value_char(c: char) -> bool {
    is_alphanumeric(c) || c == '-' || c == '_' || c == '.'
}

/// The most bytes that an object name may have.
pub open spec fn max_name_len(label: bool) -> nat {
    if label {
        63
    } else {
        253
    }
}

/// Whether a text begins and ends with a letter or digit.
pub open spec fn ends_alphanumeric(s: Seq<char>) -> bool {
    s.len() > 0 && is_alphanumeric(s.first()) && is_alphanumeric(s.last())
}

/// What is wrong with an object name: the first of the rules that it breaks.
pub open spec fn name_fault(name: Seq<char>, label: bool) -> Option<Seq<char>> {
    if name.len() == 0 {
        Some("must not be empty"@)
    } else if encode_utf8(name).len() > max_name_len(label) {
        if label {
            Some("must be at most 63 characters"@)
        } else {
            Some("must be at most 253 characters"@)
        }
    } else if !(forall|i: int| 0 <= i < name.len() ==> is_name_char(#[trigger] name[i], label)) {
        if label {
            Some("only lowercase alphanumerics and '-'"@)
        } else {
            Some("only lowercase alphanumerics, '-' and '.'"@)
        }
    } else if !ends_alphanumeric(name) {
        Some("must start and end with an alphanumeric character"@)
    } else {
        None
    }
}

/// What is wrong with a label value: the first of the rules that it breaks.
pub open spec fn label_value_fault(value: Seq<char>) -> Option<Seq<char>> {
    if value.len() == 0 {
        None
    } else if encode_utf8(value).len() > 63 {
        Some("must be at most 63 characters"@)
    } else if !(forall|i: int| 0 <= i < value.len() ==> is_value_char(#[trigger] value[i])) {
        Some("only alphanumerics, '-', '_', and '.'"@)
    } else if !ends_alphanumeric(value) {
        Some("must begin and end with an alphanumeric character"@)
    } else {
        None
    }
}

/// Whether a character is an ASCII letter or digit.
fn alphanumeric(c: char) -> (r: bool)
    ensures
        r == is_alphanumeric(c),
{
    ('a' <= c && c <= 'z') || ('A' <= c && c <= 'Z') || ('0' <= c && c <= '9')
}

/// Whether a character may stand in an object name.
fn name_char(c: char, label: bool) -> (r: bool)
    ensures
        r == is_name_char(c, label),
{
    ('a' <= c && c <= 'z') || ('0' <= c && c <= '9') || c == '-' || (!label && c == '.')
}

/// Whether a character may stand in a label value.
fn value_char(c: char) -> (r: bool)
    ensures
        r == is_value_char(c),
{
    alphanumeric(c) || c == '-' || c == '_' || c == '.'
}

/// The fault of an object name.
fn fault_of_name(name: &str, label: bool) -> (r: Option<&'static str>)
    ensures
        match r {
            Some(s) => name_fault(name@, label) == Some(s@),
            None => name_fault(name@, label) is None,
        },
{
    let v = chars_of(name);
    let size: usize = name.as_bytes().len();
    if v.len() == 0 {
        return Some("must not be empty");
    }
    if label && size > 63 {
        return Some("must be at most 63 characters");
    }
    if !label && size > 253 {
        return Some("must be at most 253 characters");
    }
    let mut i: usize = 0;
    while i < v.len()
        invariant
            i <= v@.len(),
            v@ == name@,
            v@.len() > 0,
            encode_utf8(name@).len() <= max_name_len(label),
            forall|k: int| 0 <= k < i ==> is_name_char(#[trigger] v@[k], label),
        decreases v@.len() - i,
    {
        if !name_char(v[i], label) {
            return Some(
                if label {
                    "only lowercase alphanumerics and '-'"
                } else {
                    "only lowercase alphanumerics, '-' and '.'"
                },
            );
        }
        i += 1;
    }
    if !alphanumeric(v[0]) || !alphanumeric(v[v.len() - 1]) {
        return Some("must start and end with an alphanumeric character");
    }
    None
}

/// The fault of a label value.
fn fault_of_label_value(value: &str) -> (r: Option<&'static str>)
    ensures
        match r {
            Some(s) => label_value_fault(value@) == Some(s@),
            None => label_value_fault(value@) is None,
        },
{
    let v = chars_of(value);
    let size: usize = value.as_bytes().len();
    if v.len() == 0 {
        return None;
    }
    if size > 63 {
        return Some("must be at most 63 characters");
    }
    let mut i: usize = 0;
    while i < v.len()
        invariant
            i <= v@.len(),
            v@ == value@,
            v@.len() > 0,
            encode_utf8(value@).len() <= 63,
            forall|k: int| 0 <= k < i ==> is_value_char(#[trigger] v@[k]),
        decreases v@.len() - i,
    {
        if !value_char(v[i]) {
            return Some("only alphanumerics, '-', '_', and '.'");
        }
        i += 1;
    }
    if !alphanumeric(v[0]) || !alphanumeric(v[v.len() - 1]) {
        return Some("must begin and end with an alphanumeric character");
    }
    None
}

/// The reason as a document: `null` where there is none.
fn reason_document(reason: Option<&'static str>) -> (r: Json)
    ensures
        r@ == text_or_null(match reason {
            Some(s) => Some(s@),
            None => None,
        }),
{
    match reason {
        Some(s) => Json::of_text(s),
        None => Json::Null,
    }
}

/// What validating an object name answers.
pub open spec fn valid_name_outcome(opts: JsonV) -> Result<JsonV, Seq<char>> {
    match opts.field("name"@).text() {
        None => Err("missing name"@),
        Some(name) => {
            let label = opts.field("mode"@).text() == Some("label"@);
            let fault = name_fault(name, label);
            Ok(
                JsonV::blank().with("name"@, JsonV::Text(name)).with(
                    "mode"@,
                    JsonV::Text(
                        if label {
                            "label"@
                        } else {
                            "subdomain"@
                        },
                    ),
                ).with("valid"@, JsonV::Bool(fault is None)).with("reason"@, text_or_null(fault)),
            )
        },
    }
}

/// Validates the object name `name`: as a label where `mode` is `label`, else as a
/// subdomain.
pub fn op_valid_name(opts: &Json) -> (r: Result<Json, OpError>)
    ensures
        outcome(r) == valid_name_outcome(opts@),
{
    let name = match opts.text_at("name") {
        Some(s) => s,
        None => return Err(OpError::new("missing name")),
    };
    let label = match opts.text_at("mode") {
        Some(s) => same_text(s.as_str(), "label"),
        None => false,
    };
    let fault = fault_of_name(name.as_str(), label);
    let mode = if label {
        "label"
    } else {
        "subdomain"
    };
    Ok(
        Json::blank().with("name", Json::of_text(name.as_str())).with("mode", Json::of_text(mode)).with(
            "valid",
            Json::Bool(fault.is_none()),
        ).with("reason", reason_document(fault)),
    )
}

/// What validating a label value answers.
pub open spec fn valid_label_value_outcome(opts: JsonV) -> Result<JsonV, Seq<char>> {
    match opts.field("value"@).text() {
        None => Err("missing value"@),
        Some(value) => {
            let fault = label_value_fault(value);
            Ok(
                JsonV::blank().with("value"@, JsonV::Text(value)).with(
                    "valid"@,
                    JsonV::Bool(fault is None),
                ).with("reason"@, text_or_null(fault)),
            )
        },
    }
}

/// Validates the label value `value`.
pub fn op_valid_label_value(opts: &Json) -> (r: Result<Json, OpError>)
    ensures
        outcome(r) == valid_label_value_outcome(opts@),
{
    let value = match opts.text_at("value") {
        Some(s) => s,
        None => return Err(OpError::new("missing value")),
    };
    let fault = fault_of_label_value(value.as_str());
    Ok(
        Json::blank().with("value", Json::of_text(value.as_str())).with(
            "valid",
            Json::Bool(fault.is_none()),
        ).with("reason", reason_document(fault)),
    )
}

/// A name is valid exactly if it is not empty, has at most as many characters as its
/// mode allows, has only the characters that its mode allows, and begins and ends
/// with a letter or digit.
pub proof fn law_valid_name(name: Seq<char>, label: bool)
    ensures
        name_fault(name, label) is None <==> {
            &&& 0 < name.len() <= max_name_len(label)
            &&& forall|i: int| 0 <= i < name.len() ==> is_name_char(#[trigger] name[i], label)
            &&& ends_alphanumeric(name)
        },
{
    if forall|i: int| 0 <= i < name.len() ==> is_name_char(#[trigger] name[i], label) {
        assert(is_ascii_chars(name));
        is_ascii_chars_encode_utf8(name);
    }
}

/// A label value is valid exactly if it is empty, or has at most 63 characters, all of
/// them letters, digits, `-`, `_` or `.`, and begins and ends with a letter or digit.
pub proof fn law_valid_label_value(value: Seq<char>)
    ensures
        label_value_fault(value) is None <==> value.len() == 0 || {
            &&& value.len() <= 63
            &&& forall|i: int| 0 <= i < value.len() ==> is_value_char(#[trigger] value[i])
            &&& ends_alphanumeric(value)
        },
{
    if forall|i: int| 0 <= i < value.len() ==> is_value_char(#[trigger] value[i]) {
        assert(is_ascii_chars(value));
        is_ascii_chars_encode_utf8(value);
    }
}

/// Every valid label name is a valid subdomain name and a valid label value.
pub proof fn law_label_name_is_subdomain_and_value(name: Seq<char>)
    requires
        name_fault(name, true) is None,
    ensures
        name_fault(name, false) is None,
        label_value_fault(name) is None,
{
    law_valid_name(name, true);
    law_valid_name(name, false);
    law_valid_label_value(name);
}

} // verus!
