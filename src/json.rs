use vstd::prelude::*;

verus! {

/// A JSON value as the provider hands it over. A number is kept as the
/// text that JSON writes for it.
#[derive(Debug, PartialEq, Eq)]
pub enum Json {
    Null,
    Bool(bool),
    Number(String),
    Str(String),
    Array(Vec<Json>),
    Object(Vec<(String, Json)>),
}

/// A response after the numeric-normalization step: a bare number becomes
/// the string of its text, every other value stays as it is.
pub open spec fn normalized(j: Json) -> Json {
    match j {
        Json::Number(text) => Json::Str(text),
        _ => j,
    }
}

/// Rewrites a bare JSON number as a JSON string holding its text, so that a
/// quantity reaches the decoder as a string whichever form the provider chose.
pub fn normalize(j: Json) -> (r: Json)
    ensures
        r == normalized(j),
        j is Number ==> r is Str && r->Str_0@ == j->Number_0@,
        !(j is Number) ==> r == j,
{
    match j {
        Json::Number(text) => Json::Str(text),
        other => other,
    }
}

} // verus!
