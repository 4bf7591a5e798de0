//! JSON values as far as registry replies are read.

use vstd::prelude::*;
use crate::text::str_eq;

verus! {

/// A JSON value. Numbers, booleans and null are never looked into.
#[derive(Debug)]
pub enum Json {
    Text(String),
    List(Vec<Json>),
    Object(Vec<(String, Json)>),
    Other,
}

/// The value of the first field called `key`.
pub open spec fn field(fields: Seq<(String, Json)>, key: Seq<char>) -> Option<Json>
    decreases fields.len(),
{
    if fields.len() == 0 {
        None
    } else if fields[0].0@ == key {
        Some(fields[0].1)
    } else {
        field(fields.drop_first(), key)
    }
}

/// The value of the field called `key`, of a value that may be missing.
pub open spec fn get_in(v: Option<Json>, key: Seq<char>) -> Option<Json> {
    match v {
        Some(j) => j.lookup(key),
        None => None,
    }
}

/// The text of a value that may be missing.
pub open spec fn text_in(v: Option<Json>) -> Option<Seq<char>> {
    match v {
        Some(j) => j.text(),
        None => None,
    }
}

impl Json {
    /// The value of the field called `key`, where this is an object that has it.
    pub open spec fn lookup(self, key: Seq<char>) -> Option<Json> {
        match self {
            Json::Object(fields) => field(fields@, key),
            _ => None,
        }
    }

    /// The text, where this is one.
    pub open spec fn text(self) -> Option<Seq<char>> {
        match self {
            Json::Text(s) => Some(s@),
            _ => None,
        }
    }

    /// The value of the field called `key`, where this is an object that has it.
    pub fn get(&self, key: &str) -> (r: Option<&Json>)
        ensures
            r is Some <==> self.lookup(key@) is Some,
            r matches Some(v) ==> *v == self.lookup(key@)->0,
    {
        match self {
            Json::Object(fields) => find_field(fields, key),
            _ => None,
        }
    }

    /// The text, where this is one.
    pub fn as_str(&self) -> (r: Option<&String>)
        ensures
            r is Some <==> self.text() is Some,
            r matches Some(s) ==> s@ == self.text()->0,
    {
        match self {
            Json::Text(s) => Some(s),
            _ => None,
        }
    }

    /// The text of the field called `key`, where this is an object that has such a field.
    pub fn text_of(&self, key: &str) -> (r: Option<String>)
        ensures
            r.deep_view() == text_in(self.lookup(key@)),
    {
        match self.get(key) {
            Some(v) => match v.as_str() {
                Some(s) => Some(s.clone()),
                None => None,
            },
            None => None,
        }
    }
}

/// The value of the first field called `key`.
pub fn find_field<'a>(fields: &'a Vec<(String, Json)>, key: &str) -> (r: Option<&'a Json>)
    ensures
        r is Some <==> field(fields@, key@) is Some,
        r matches Some(v) ==> *v == field(fields@, key@)->0,
{
    let mut i: usize = 0;
    assert(fields@.skip(0) =~= fields@);
    while i < fields.len()
        invariant
            i <= fields@.len(),
            field(fields@.skip(i as int), key@) == field(fields@, key@),
        decreases fields@.len() - i,
    {
        assert(fields@.skip(i as int)[0] == fields@[i as int]);
        if str_eq(fields[i].0.as_str(), key) {
            return Some(&fields[i].1);
        }
        assert(fields@.skip(i as int).drop_first() =~= fields@.skip(i + 1));
        i = i + 1;
    }
    None
}

/// A field is looked up by its name in an object, and the first of that name is taken: fields of
/// other names, and later ones of the same, have no part in it.
pub proof fn law_first_field_of_the_name_is_taken(
    before: Seq<(String, Json)>,
    one: (String, Json),
    behind: Seq<(String, Json)>,
    key: Seq<char>,
)
    requires
        forall|i: int| 0 <= i < before.len() ==> (#[trigger] before[i]).0@ != key,
    ensures
        one.0@ == key ==> field(before + seq![one] + behind, key) == Some(one.1),
        field(before, key) is None,
    decreases before.len(),
{
    let all = before + seq![one] + behind;
    if before.len() == 0 {
        assert(all[0] == one);
    } else {
        assert(all[0] == before[0]);
        assert(all.drop_first() =~= before.drop_first() + seq![one] + behind);
        law_first_field_of_the_name_is_taken(before.drop_first(), one, behind, key);
    }
}

/// Only an object has fields, and only a text is read as one.
pub proof fn law_values_are_what_they_are(s: String, list: Vec<Json>, fields: Vec<(String, Json)>, key: Seq<
    char,
>)
    ensures
        Json::Object(fields).lookup(key) == field(fields@, key),
        Json::Text(s).lookup(key) is None && Json::List(list).lookup(key) is None
            && Json::Other.lookup(key) is None,
        Json::Text(s).text() == Some(s@),
        Json::Object(fields).text() is None && Json::List(list).text() is None
            && Json::Other.text() is None,
        get_in(None, key) is None && text_in(None) is None,
        get_in(Some(Json::Object(fields)), key) == field(fields@, key),
        text_in(Some(Json::Text(s))) == Some(s@),
{
}

} // verus!
