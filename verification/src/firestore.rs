//! Readers of stored-document fields, as the document store's REST
//! representation carries them: a document's name is a slash-separated
//! path whose last segment is its id, and each named field holds at most
//! one of a string, an integer kept in string form, or a boolean.

use crate::models::{clone_opt, view_opt};
use crate::text::{parse_i64, spec_parse_i64, str_chars, str_eq};
use vstd::prelude::*;
use vstd::string::StrSliceExecFns;

verus! {

/// One field value of a stored document.
#[derive(Debug)]
pub struct FirestoreValue {
    pub string_value: Option<String>,
    pub integer_value: Option<String>,
    pub boolean_value: Option<bool>,
}

/// Mathematical view of one field value.
pub ghost struct FirestoreValueModel {
    pub string_value: Option<Seq<char>>,
    pub integer_value: Option<Seq<char>>,
    pub boolean_value: Option<bool>,
}

impl View for FirestoreValue {
    type V = FirestoreValueModel;

    open spec fn view(&self) -> FirestoreValueModel {
        FirestoreValueModel {
            string_value: view_opt(self.string_value),
            integer_value: view_opt(self.integer_value),
            boolean_value: self.boolean_value,
        }
    }
}

pub open spec fn field_views(fs: Seq<(String, FirestoreValue)>) -> Seq<
    (Seq<char>, FirestoreValueModel),
> {
    fs.map_values(|f: (String, FirestoreValue)| (f.0@, f.1@))
}

/// The first field with the given name, scanning from position `i`.
pub open spec fn spec_lookup_from(
    fields: Seq<(Seq<char>, FirestoreValueModel)>,
    key: Seq<char>,
    i: int,
) -> Option<FirestoreValueModel>
    decreases fields.len() - i,
{
    if i < 0 || i >= fields.len() {
        None
    } else if fields[i].0 == key {
        Some(fields[i].1)
    } else {
        spec_lookup_from(fields, key, i + 1)
    }
}

/// The first field with the given name, if any.
pub open spec fn spec_lookup(
    fields: Seq<(Seq<char>, FirestoreValueModel)>,
    key: Seq<char>,
) -> Option<FirestoreValueModel> {
    spec_lookup_from(fields, key, 0)
}

fn lookup_field<'a>(fields: &'a Vec<(String, FirestoreValue)>, key: &str) -> (r: Option<
    &'a FirestoreValue,
>)
    ensures
        match spec_lookup(field_views(fields@), key@) {
            Some(m) => r matches Some(fv) && fv@ == m,
            None => r is None,
        },
{
    let n = fields.len();
    let mut i: usize = 0;
    while i < n
        invariant
            n == fields@.len(),
            i <= n,
            spec_lookup(field_views(fields@), key@) == spec_lookup_from(
                field_views(fields@),
                key@,
                i as int,
            ),
        decreases n - i,
    {
        if str_eq(fields[i].0.as_str(), key) {
            return Some(&fields[i].1);
        }
        i += 1;
    }
    None
}

/// The position of the last `/` in the name, if any.
pub open spec fn last_slash(s: Seq<char>) -> Option<int>
    decreases s.len(),
{
    if s.len() == 0 {
        None
    } else if s.last() == '/' {
        Some(s.len() - 1)
    } else {
        last_slash(s.drop_last())
    }
}

/// A document's id: the part of its name after the last slash, or the
/// whole name when it has none.
pub open spec fn spec_doc_id(name: Seq<char>) -> Seq<char> {
    match last_slash(name) {
        Some(i) => name.subrange(i + 1, name.len() as int),
        None => name,
    }
}

/// The document id carried by a full resource name, always present,
/// exactly as `spec_doc_id` describes.
pub fn extract_doc_id(name: &str) -> (r: Option<String>)
    ensures
        r matches Some(s) && s@ == spec_doc_id(name@),
{
    let v = str_chars(name);
    let n = v.len();
    let mut i = n;
    proof {
        assert(name@.take(n as int) =~= name@);
    }
    while i > 0
        invariant
            n == v@.len(),
            v@ == name@,
            i <= n,
            last_slash(name@) == last_slash(name@.take(i as int)),
        decreases i,
    {
        proof {
            assert(name@.take(i as int).drop_last() =~= name@.take(i - 1));
            assert(name@.take(i as int).last() == name@[i - 1]);
        }
        if v[i - 1] == '/' {
            proof {
                assert(last_slash(name@.take(i as int)) == Some(i - 1));
            }
            return Some(crate::text::extract_string(name, i, n));
        }
        i -= 1;
    }
    proof {
        assert(name@.take(0) =~= Seq::<char>::empty());
        assert(last_slash(name@) is None);
    }
    Some(name.to_owned())
}

/// The string value of the named field, if the field is present and
/// carries one.
pub fn get_string_field(fields: &Vec<(String, FirestoreValue)>, key: &str) -> (r: Option<String>)
    ensures
        view_opt(r) == match spec_lookup(field_views(fields@), key@) {
            Some(m) => m.string_value,
            None => None,
        },
{
    match lookup_field(fields, key) {
        Some(fv) => clone_opt(&fv.string_value),
        None => None,
    }
}

/// The integer value of the named field: the store keeps integers in
/// string form, so the field's string value is parsed as a decimal
/// integer; anything else yields nothing.
pub fn get_integer_field(fields: &Vec<(String, FirestoreValue)>, key: &str) -> (r: Option<i64>)
    ensures
        r == match spec_lookup(field_views(fields@), key@) {
            Some(m) => match m.string_value {
                Some(s) => spec_parse_i64(s),
                None => None,
            },
            None => None,
        },
{
    match lookup_field(fields, key) {
        Some(fv) => match &fv.string_value {
            Some(s) => parse_i64(s.as_str()),
            None => None,
        },
        None => None,
    }
}

/// The boolean value of the named field, if the field is present and
/// carries one.
pub fn get_boolean_field(fields: &Vec<(String, FirestoreValue)>, key: &str) -> (r: Option<bool>)
    ensures
        r == match spec_lookup(field_views(fields@), key@) {
            Some(m) => m.boolean_value,
            None => None,
        },
{
    match lookup_field(fields, key) {
        Some(fv) => fv.boolean_value,
        None => None,
    }
}

} // verus!
