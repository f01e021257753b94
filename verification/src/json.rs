//! JSON documents as the library reads and builds them, with their
//! mathematical model.

use vstd::prelude::*;

use crate::text::same_text;

verus! {

/// A number of a JSON document.
#[verifier::external_type_specification]
#[verifier::external_body]
pub struct ExNumber(serde_json::Number);

/// The integer that a `serde_json` number holds, where it holds one.
pub uninterp spec fn number_int(n: serde_json::Number) -> Option<int>;

/// Contract for `Number::as_i64`: the integer, where the number holds one that fits.
pub assume_specification[ serde_json::Number::as_i64 ](n: &serde_json::Number) -> (r: Option<i64>)
    ensures
        r == (match number_int(*n) {
            Some(i) => if i64::MIN <= i <= i64::MAX {
                Some(i as i64)
            } else {
                None
            },
            None => None,
        }),
;

/// Contract for `Number::as_u64`: the integer, where the number holds one that fits.
pub assume_specification[ serde_json::Number::as_u64 ](n: &serde_json::Number) -> (r: Option<u64>)
    ensures
        r == (match number_int(*n) {
            Some(i) => if 0 <= i <= u64::MAX {
                Some(i as u64)
            } else {
                None
            },
            None => None,
        }),
;

/// Contract for `Clone::clone` of `serde_json::Number`: the copy is the same number.
pub assume_specification[ <serde_json::Number as Clone>::clone ](n: &serde_json::Number) -> (r:
    serde_json::Number)
    ensures
        r == *n,
;

/// Calls `From<i64>` of `serde_json::Number`: the number holds the integer.
#[verifier::external_body]
fn number_of(i: i64) -> (r: serde_json::Number)
    ensures
        number_int(r) == Some(i as int),
{
    serde_json::Number::from(i)
}

/// A JSON document. Where a name occurs twice in an object, the later member counts.
#[derive(Debug)]
pub enum Json {
    Null,
    Bool(bool),
    Number(serde_json::Number),
    Text(String),
    Array(Vec<Json>),
    Object(Vec<(String, Json)>),
}

/// What a number is: an integer, or a number that the library does not look into.
pub enum NumV {
    Int(int),
    Other(serde_json::Number),
}

/// What a JSON document is, with objects as finite maps.
pub enum JsonV {
    Null,
    Bool(bool),
    Number(NumV),
    Text(Seq<char>),
    Array(Seq<JsonV>),
    Object(Map<Seq<char>, JsonV>),
}

/// What a `serde_json` number is.
pub open spec fn number_model(n: serde_json::Number) -> NumV {
    match number_int(n) {
        Some(i) => NumV::Int(i),
        None => NumV::Other(n),
    }
}

/// The object that a list of members makes: a later member replaces an earlier
/// one of the same name.
pub open spec fn members_map(members: Seq<(Seq<char>, JsonV)>) -> Map<Seq<char>, JsonV>
    decreases members.len(),
{
    if members.len() == 0 {
        Map::empty()
    } else {
        members_map(members.drop_last()).insert(members.last().0, members.last().1)
    }
}

/// The document that holds an integer.
pub open spec fn int_json(i: int) -> JsonV {
    JsonV::Number(NumV::Int(i))
}

/// The array document of a list of texts.
pub open spec fn text_array(parts: Seq<Seq<char>>) -> JsonV {
    JsonV::Array(Seq::new(parts.len(), |i: int| JsonV::Text(parts[i])))
}

/// A text, or `null` where there is none.
pub open spec fn text_or_null(o: Option<Seq<char>>) -> JsonV {
    match o {
        Some(s) => JsonV::Text(s),
        None => JsonV::Null,
    }
}

/// The models of the items of an array.
pub open spec fn items_view(items: Seq<Json>) -> Seq<JsonV>
    decreases items,
{
    Seq::new(
        items.len(),
        |i: int|
            if 0 <= i < items.len() {
                json_model(items[i])
            } else {
                JsonV::Null
            },
    )
}

/// The members of an object, by name and model.
pub open spec fn members_view(members: Seq<(String, Json)>) -> Seq<(Seq<char>, JsonV)>
    decreases members,
{
    Seq::new(
        members.len(),
        |i: int|
            if 0 <= i < members.len() {
                (members[i].0@, json_model(members[i].1))
            } else {
                (Seq::empty(), JsonV::Null)
            },
    )
}

/// The model of a document.
pub open spec fn json_model(j: Json) -> JsonV
    decreases j,
{
    match j {
        Json::Null => JsonV::Null,
        Json::Bool(b) => JsonV::Bool(b),
        Json::Number(n) => JsonV::Number(number_model(n)),
        Json::Text(s) => JsonV::Text(s@),
        Json::Array(items) => JsonV::Array(items_view(items@)),
        Json::Object(members) => JsonV::Object(members_map(members_view(members@))),
    }
}

impl View for Json {
    type V = JsonV;

    open spec fn view(&self) -> JsonV {
        json_model(*self)
    }
}

impl JsonV {
    /// The object without members.
    pub open spec fn blank() -> JsonV {
        JsonV::Object(Map::empty())
    }

    /// An object with one more member, or with the member of that name replaced.
    /// A document that is no object stays as it is.
    pub open spec fn with(self, name: Seq<char>, value: JsonV) -> JsonV {
        match self {
            JsonV::Object(m) => JsonV::Object(m.insert(name, value)),
            _ => self,
        }
    }

    /// The member of an object with the given name; `null` where there is none.
    pub open spec fn field(self, name: Seq<char>) -> JsonV {
        match self {
            JsonV::Object(m) => if m.contains_key(name) {
                m[name]
            } else {
                JsonV::Null
            },
            _ => JsonV::Null,
        }
    }

    /// The text that a document holds.
    pub open spec fn text(self) -> Option<Seq<char>> {
        match self {
            JsonV::Text(s) => Some(s),
            _ => None,
        }
    }

    /// The integer that a document holds, where it fits in 64 bits with a sign.
    pub open spec fn integer(self) -> Option<i64> {
        match self {
            JsonV::Number(NumV::Int(i)) => if i64::MIN <= i <= i64::MAX {
                Some(i as i64)
            } else {
                None
            },
            _ => None,
        }
    }

    /// The integer that a document holds, where it fits in 64 bits without a sign.
    pub open spec fn unsigned(self) -> Option<u64> {
        match self {
            JsonV::Number(NumV::Int(i)) => if 0 <= i <= u64::MAX {
                Some(i as u64)
            } else {
                None
            },
            _ => None,
        }
    }

    /// The truth value that a document holds.
    pub open spec fn boolean(self) -> Option<bool> {
        match self {
            JsonV::Bool(b) => Some(b),
            _ => None,
        }
    }

    /// The items of an array.
    pub open spec fn items(self) -> Option<Seq<JsonV>> {
        match self {
            JsonV::Array(items) => Some(items),
            _ => None,
        }
    }
}

impl Json {
    /// A second document with the same contents.
    pub fn copy(&self) -> (r: Json)
        ensures
            r@ == self@,
        decreases *self,
    {
        match self {
            Json::Null => Json::Null,
            Json::Bool(b) => Json::Bool(*b),
            Json::Number(n) => Json::Number(n.clone()),
            Json::Text(s) => Json::Text(s.clone()),
            Json::Array(items) => {
                let mut out: Vec<Json> = Vec::new();
                let mut i: usize = 0;
                while i < items.len()
                    invariant
                        i <= items@.len(),
                        out@.len() == i,
                        *self == Json::Array(*items),
                        forall|k: int| 0 <= k < i ==> (#[trigger] out@[k])@ == items@[k]@,
                    decreases items@.len() - i,
                {
                    assert(decreases_to!(*self => self->Array_0));
                    assert(decreases_to!(*items => items@[i as int]));
                    out.push(items[i].copy());
                    i += 1;
                }
                assert(items_view(out@) =~= items_view(items@));
                Json::Array(out)
            },
            Json::Object(members) => {
                let mut out: Vec<(String, Json)> = Vec::new();
                let mut i: usize = 0;
                while i < members.len()
                    invariant
                        i <= members@.len(),
                        out@.len() == i,
                        *self == Json::Object(*members),
                        forall|k: int|
                            0 <= k < i ==> (#[trigger] out@[k]).0@ == members@[k].0@ && out@[k].1@
                                == members@[k].1@,
                    decreases members@.len() - i,
                {
                    assert(decreases_to!(*self => self->Object_0));
                    assert(decreases_to!(*members => members@[i as int]));
                    assert(decreases_to!(members@[i as int] => members@[i as int].1));
                    out.push((members[i].0.clone(), members[i].1.copy()));
                    i += 1;
                }
                assert(members_view(out@) =~= members_view(members@));
                Json::Object(out)
            },
        }
    }

    /// The member of an object with the given name.
    pub fn get(&self, name: &str) -> (r: Option<&Json>)
        ensures
            match r {
                Some(j) => self@ matches JsonV::Object(m) && m.contains_key(name@) && m[name@] == j@,
                None => !(self@ matches JsonV::Object(m) && m.contains_key(name@)),
            },
            r is None ==> self@.field(name@) == JsonV::Null,
            r is Some ==> self@.field(name@) == r->0@,
    {
        match self {
            Json::Object(members) => {
                let ghost all = members_view(members@);
                let mut i: usize = members.len();
                assert(all.take(all.len() as int) =~= all);
                while i > 0
                    invariant
                        i <= members@.len(),
                        *self == Json::Object(*members),
                        all == members_view(members@),
                        members_map(all).contains_key(name@) == members_map(
                            all.take(i as int),
                        ).contains_key(name@),
                        members_map(all).contains_key(name@) ==> members_map(all)[name@]
                            == members_map(all.take(i as int))[name@],
                    decreases i,
                {
                    assert(all.take(i as int).drop_last() =~= all.take(i - 1));
                    if same_text(members[i - 1].0.as_str(), name) {
                        return Some(&members[i - 1].1);
                    }
                    i -= 1;
                }
                None
            },
            _ => None,
        }
    }

    /// The object without members.
    pub fn blank() -> (r: Json)
        ensures
            r@ == JsonV::blank(),
    {
        let members: Vec<(String, Json)> = Vec::new();
        assert(members_view(members@) =~= Seq::empty());
        Json::Object(members)
    }

    /// An object with one more member, or with the member of that name replaced.
    /// A document that is no object stays as it is.
    pub fn with(self, name: &str, value: Json) -> (r: Json)
        ensures
            r@ == self@.with(name@, value@),
    {
        match self {
            Json::Object(mut members) => {
                let ghost before = members@;
                members.push((name.to_owned(), value));
                assert(members_view(members@) =~= members_view(before).push((name@, value@)));
                assert(members_view(members@).drop_last() =~= members_view(before));
                Json::Object(members)
            },
            other => other,
        }
    }

    /// The text that a document holds.
    pub fn text(&self) -> (r: Option<String>)
        ensures
            crate::text::opt_text(r) == self@.text(),
    {
        match self {
            Json::Text(s) => Some(s.clone()),
            _ => None,
        }
    }

    /// The text of the member with the given name.
    pub fn text_at(&self, name: &str) -> (r: Option<String>)
        ensures
            crate::text::opt_text(r) == self@.field(name@).text(),
    {
        match self.get(name) {
            Some(j) => j.text(),
            None => None,
        }
    }

    /// The integer of the member with the given name.
    pub fn integer_at(&self, name: &str) -> (r: Option<i64>)
        ensures
            r == self@.field(name@).integer(),
    {
        match self.get(name) {
            Some(Json::Number(n)) => n.as_i64(),
            _ => None,
        }
    }

    /// The integer from zero up of the member with the given name.
    pub fn unsigned_at(&self, name: &str) -> (r: Option<u64>)
        ensures
            r == self@.field(name@).unsigned(),
    {
        match self.get(name) {
            Some(Json::Number(n)) => n.as_u64(),
            _ => None,
        }
    }

    /// The truth value of the member with the given name.
    pub fn boolean_at(&self, name: &str) -> (r: Option<bool>)
        ensures
            r == self@.field(name@).boolean(),
    {
        match self.get(name) {
            Some(Json::Bool(b)) => Some(*b),
            _ => None,
        }
    }

    /// A copy of the member with the given name; `null` where there is none.
    pub fn copy_at(&self, name: &str) -> (r: Json)
        ensures
            r@ == self@.field(name@),
    {
        match self.get(name) {
            Some(j) => j.copy(),
            None => Json::Null,
        }
    }

    /// The document that holds a text.
    pub fn of_text(s: &str) -> (r: Json)
        ensures
            r@ == JsonV::Text(s@),
    {
        Json::Text(s.to_owned())
    }

    /// The document that holds an integer.
    pub fn of_int(i: i64) -> (r: Json)
        ensures
            r@ == int_json(i as int),
    {
        Json::Number(number_of(i))
    }

    /// A text, or `null` where there is none.
    pub fn of_option(o: Option<String>) -> (r: Json)
        ensures
            r@ == text_or_null(crate::text::opt_text(o)),
    {
        match o {
            Some(s) => Json::Text(s),
            None => Json::Null,
        }
    }

    /// The array of a list of texts.
    pub fn of_texts(parts: &Vec<String>) -> (r: Json)
        ensures
            r@ == text_array(crate::text::texts(parts@)),
    {
        let mut out: Vec<Json> = Vec::new();
        let mut i: usize = 0;
        while i < parts.len()
            invariant
                i <= parts@.len(),
                out@.len() == i,
                forall|k: int|
                    0 <= k < i ==> (#[trigger] out@[k])@ == JsonV::Text(parts@[k]@),
            decreases parts@.len() - i,
        {
            out.push(Json::Text(parts[i].clone()));
            i += 1;
        }
        assert(items_view(out@) =~= text_array(crate::text::texts(parts@))->Array_0);
        Json::Array(out)
    }
}

/// A member that was put into an object is what the object has under its name, and the
/// other members stay.
pub proof fn law_with_then_field(
    m: Map<Seq<char>, JsonV>,
    name: Seq<char>,
    value: JsonV,
    other: Seq<char>,
)
    ensures
        JsonV::Object(m).with(name, value).field(name) == value,
        other != name ==> JsonV::Object(m).with(name, value).field(other) == JsonV::Object(m).field(
            other,
        ),
{
}

} // verus!
