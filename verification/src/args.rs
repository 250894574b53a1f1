//! Reading a tool's arguments: the object itself and its typed members.

use crate::error::{validation, ErrorModel, ToolError};
use crate::json::{
    as_array, as_bool, as_str, as_u64, into_object, is_null, items_of, json_of, member,
    members_of, new_members, no_members, object_value, unsigned_of, Json,
};
use crate::text::join3;
use crate::tool::SiyuanTool;
use serde_json::Value;
use vstd::prelude::*;

verus! {

/// The members that a tool receives: those of the object it was given, none
/// where it was given nothing (`null`). Anything else is no arguments object.
pub open spec fn object_args(args: Json) -> Option<Map<Seq<char>, Json>> {
    match args {
        Json::Null => Some(no_members()),
        Json::Object(members) => Some(members),
        _ => None,
    }
}

/// The text stored under `key`, if a string is stored there.
pub open spec fn text_member(members: Map<Seq<char>, Json>, key: Seq<char>) -> Option<Seq<char>> {
    if members.contains_key(key) {
        match members[key] {
            Json::Text(text) => Some(text),
            _ => None,
        }
    } else {
        None
    }
}

/// The flag stored under `key`, if a boolean is stored there.
pub open spec fn flag_member(members: Map<Seq<char>, Json>, key: Seq<char>) -> Option<bool> {
    if members.contains_key(key) {
        match members[key] {
            Json::Bool(flag) => Some(flag),
            _ => None,
        }
    } else {
        None
    }
}

/// The number stored under `key`, if an integer from 0 to `u64::MAX` is
/// stored there.
pub open spec fn unsigned_member(members: Map<Seq<char>, Json>, key: Seq<char>) -> Option<u64> {
    if members.contains_key(key) {
        unsigned_of(members[key])
    } else {
        None
    }
}

/// The elements stored under `key`, if an array is stored there.
pub open spec fn array_member(members: Map<Seq<char>, Json>, key: Seq<char>) -> Option<Seq<Json>> {
    if members.contains_key(key) {
        match members[key] {
            Json::Array(items) => Some(items),
            _ => None,
        }
    } else {
        None
    }
}

/// Whether every element is a string.
pub open spec fn all_text(items: Seq<Json>) -> bool {
    forall|i: int| 0 <= i < items.len() ==> (#[trigger] items[i]) is Text
}

/// The texts of a run of strings.
pub open spec fn texts_of(items: Seq<Json>) -> Seq<Seq<char>> {
    items.map_values(|item: Json| item->Text_0)
}

/// The characters of each string of a run.
pub open spec fn texts(strings: Seq<String>) -> Seq<Seq<char>> {
    strings.map_values(|s: String| s@)
}

/// The list of texts stored under `key`, or the failure that a caller gets
/// where there is no array there or one of its elements is no string.
pub open spec fn text_list(members: Map<Seq<char>, Json>, key: Seq<char>) -> Result<
    Seq<Seq<char>>,
    ErrorModel,
> {
    match array_member(members, key) {
        None => Err(missing_or_invalid(key)),
        Some(items) => if all_text(items) {
            Ok(texts_of(items))
        } else {
            Err(invalid_entry(key))
        },
    }
}

/// The failure for arguments that are neither absent nor an object.
pub open spec fn not_an_object() -> ErrorModel {
    validation("arguments must be a JSON object"@)
}

/// The failure for a required member that is absent or of the wrong type.
pub open spec fn missing_or_invalid(key: Seq<char>) -> ErrorModel {
    validation("missing or invalid `"@ + key + "`"@)
}

/// The failure for an array with an element of the wrong type.
pub open spec fn invalid_entry(key: Seq<char>) -> ErrorModel {
    validation("invalid `"@ + key + "` entry"@)
}

impl SiyuanTool {
    /// The arguments as a JSON object value: the object given, or an empty
    /// one where nothing was given.
    pub fn ensure_object(args: Value) -> (r: Result<Value, ToolError>)
        ensures
            match object_args(json_of(args)) {
                Some(members) => r matches Ok(body) && json_of(body) == Json::Object(members),
                None => r matches Err(e) && e@ == not_an_object(),
            },
    {
        match Self::args_as_object(args) {
            Ok(members) => Ok(object_value(members)),
            Err(e) => Err(e),
        }
    }

    /// The arguments as a map of members: those of the object given, or
    /// none where nothing was given.
    pub fn args_as_object(args: Value) -> (r: Result<serde_json::Map<String, Value>, ToolError>)
        ensures
            match object_args(json_of(args)) {
                Some(members) => r matches Ok(m) && members_of(m) == members,
                None => r matches Err(e) && e@ == not_an_object(),
            },
    {
        match into_object(args) {
            Ok(members) => Ok(members),
            Err(other) => {
                if is_null(&other) {
                    Ok(new_members())
                } else {
                    Err(ToolError::invalid_params("arguments must be a JSON object".to_owned()))
                }
            },
        }
    }

    /// The string stored under `key`, which has to be there.
    pub fn required_string(map: &serde_json::Map<String, Value>, key: &str) -> (r: Result<
        String,
        ToolError,
    >)
        ensures
            match text_member(members_of(*map), key@) {
                Some(text) => r matches Ok(s) && s@ == text,
                None => r matches Err(e) && e@ == missing_or_invalid(key@),
            },
    {
        match Self::optional_string(map, key) {
            Some(s) => Ok(s),
            None => Err(ToolError::invalid_params(join3("missing or invalid `", key, "`"))),
        }
    }

    /// The string stored under `key`, if there is one.
    pub fn optional_string(map: &serde_json::Map<String, Value>, key: &str) -> (r: Option<String>)
        ensures
            match text_member(members_of(*map), key@) {
                Some(text) => r matches Some(s) && s@ == text,
                None => r is None,
            },
    {
        match member(map, key) {
            Some(value) => match as_str(value) {
                Some(s) => Some(s.to_owned()),
                None => None,
            },
            None => None,
        }
    }

    /// The boolean stored under `key`, if there is one.
    pub fn optional_bool(map: &serde_json::Map<String, Value>, key: &str) -> (r: Option<bool>)
        ensures
            r == flag_member(members_of(*map), key@),
    {
        match member(map, key) {
            Some(value) => as_bool(value),
            None => None,
        }
    }

    /// The unsigned integer stored under `key`, if there is one.
    pub fn optional_u64(map: &serde_json::Map<String, Value>, key: &str) -> (r: Option<u64>)
        ensures
            r == unsigned_member(members_of(*map), key@),
    {
        match member(map, key) {
            Some(value) => as_u64(value),
            None => None,
        }
    }

    /// The array of strings stored under `key`, which has to be there and to
    /// hold strings only.
    pub fn string_array(map: &serde_json::Map<String, Value>, key: &str) -> (r: Result<
        Vec<String>,
        ToolError,
    >)
        ensures
            match text_list(members_of(*map), key@) {
                Ok(list) => r matches Ok(v) && texts(v@) == list,
                Err(failure) => r matches Err(e) && e@ == failure,
            },
    {
        let values = match member(map, key) {
            Some(value) => match as_array(value) {
                Some(values) => values,
                None => {
                    return Err(
                        ToolError::invalid_params(join3("missing or invalid `", key, "`")),
                    );
                },
            },
            None => {
                return Err(ToolError::invalid_params(join3("missing or invalid `", key, "`")));
            },
        };
        let ghost items = items_of(values@);
        let mut out: Vec<String> = Vec::new();
        let mut i: usize = 0;
        while i < values.len()
            invariant
                i <= values.len(),
                items == items_of(values@),
                array_member(members_of(*map), key@) == Some(items),
                out@.len() == i,
                forall|j: int| 0 <= j < i ==> (#[trigger] items[j]) is Text,
                forall|j: int| 0 <= j < i ==> (#[trigger] out@[j])@ == items[j]->Text_0,
            decreases values.len() - i,
        {
            match as_str(&values[i]) {
                Some(s) => {
                    out.push(s.to_owned());
                },
                None => {
                    assert(!(items[i as int] is Text));
                    return Err(ToolError::invalid_params(join3("invalid `", key, "` entry")));
                },
            }
            i = i + 1;
        }
        Ok(out)
    }
}

} // verus!
