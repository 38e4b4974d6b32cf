//! Decoding of model-gateway text and of build-verifier records. The JSON
//! grammar itself is read through serde_json: each extraction is one trusted
//! wrapper whose result is named by an uninterpreted function of the input
//! text, and everything built on those names is verified.

use vstd::prelude::*;

use crate::agent_traits::ProjectScope;
use crate::general::str_eq;

verus! {

/// The boolean at `key` of the JSON object that `s` parses to: `None` when
/// `s` is not a JSON object, `key` is absent, or the value is not a boolean.
pub uninterp spec fn json_bool_at(s: Seq<char>, key: Seq<char>) -> Option<bool>;

/// The string at `key` of the JSON object that `s` parses to: `None` when
/// `s` is not a JSON object, `key` is absent, or the value is not a string.
pub uninterp spec fn json_str_at(s: Seq<char>, key: Seq<char>) -> Option<Seq<char>>;

/// The string at `outer_key.inner_key` of the JSON object that `s` parses
/// to: `None` when any step of that path is missing or of the wrong shape.
pub uninterp spec fn json_str_at2(s: Seq<char>, outer_key: Seq<char>, inner_key: Seq<char>) -> Option<
    Seq<char>,
>;

/// The list of strings that `s` parses to: `None` when `s` is not a JSON
/// array of strings.
pub uninterp spec fn json_string_list(s: Seq<char>) -> Option<Seq<Seq<char>>>;

/// Relies on serde_json::from_str over serde_json::Value, Value::get and
/// Value::as_bool: parsing a text and reading a field of it depend on the
/// text and the key alone.
#[verifier::external_body]
fn json_bool_field(text: &str, key: &str) -> (r: Option<bool>)
    ensures
        r == json_bool_at(text@, key@),
{
    let v: serde_json::Value = match serde_json::from_str(text) {
        Ok(v) => v,
        Err(_) => return None,
    };
    match v.get(key) {
        Some(field) => field.as_bool(),
        None => None,
    }
}

/// Relies on serde_json::from_str over serde_json::Value, Value::get and
/// Value::as_str: parsing a text and reading a field of it depend on the
/// text and the key alone.
#[verifier::external_body]
fn json_str_field(text: &str, key: &str) -> (r: Option<String>)
    ensures
        (r is Some) == (json_str_at(text@, key@) is Some),
        r matches Some(t) ==> json_str_at(text@, key@) == Some(t@),
{
    let v: serde_json::Value = match serde_json::from_str(text) {
        Ok(v) => v,
        Err(_) => return None,
    };
    match v.get(key) {
        Some(field) => match field.as_str() {
            Some(t) => Some(t.to_string()),
            None => None,
        },
        None => None,
    }
}

/// Relies on serde_json::from_str over serde_json::Value, Value::get and
/// Value::as_str: parsing a text and reading a nested field of it depend on
/// the text and the two keys alone.
#[verifier::external_body]
fn json_str_field2(text: &str, outer_key: &str, inner_key: &str) -> (r: Option<String>)
    ensures
        (r is Some) == (json_str_at2(text@, outer_key@, inner_key@) is Some),
        r matches Some(t) ==> json_str_at2(text@, outer_key@, inner_key@) == Some(t@),
{
    let v: serde_json::Value = match serde_json::from_str(text) {
        Ok(v) => v,
        Err(_) => return None,
    };
    let outer = match v.get(outer_key) {
        Some(outer) => outer,
        None => return None,
    };
    match outer.get(inner_key) {
        Some(field) => match field.as_str() {
            Some(t) => Some(t.to_string()),
            None => None,
        },
        None => None,
    }
}

/// Relies on serde_json::from_str for Vec<String>: the parse result depends
/// on the input text alone, and parsing fails exactly when the text is not a
/// JSON array of strings.
#[verifier::external_body]
fn json_string_list_field(text: &str) -> (r: Option<Vec<String>>)
    ensures
        (r is Some) == (json_string_list(text@) is Some),
        r matches Some(v) ==> json_string_list(text@) == Some(
            v@.map_values(|u: String| u@),
        ),
{
    serde_json::from_str::<Vec<String>>(text).ok()
}

/// The key under which the scope's CRUD flag travels.
pub open spec fn crud_key() -> Seq<char> {
    "is_crud_required"@
}

/// The key under which the scope's login flag travels.
pub open spec fn login_key() -> Seq<char> {
    "is_user_login_and_logout"@
}

/// The key under which the scope's external-URL flag travels.
pub open spec fn external_urls_key() -> Seq<char> {
    "is_external_urls_required"@
}

/// Decodes a model reply into a project scope: succeeds exactly when the
/// reply is a JSON object carrying all three scope booleans, and then hands
/// back exactly those three.
pub fn decode_project_scope(text: &str) -> (r: Option<ProjectScope>)
    ensures
        (r is Some) == (json_bool_at(text@, crud_key()) is Some && json_bool_at(
            text@,
            login_key(),
        ) is Some && json_bool_at(text@, external_urls_key()) is Some),
        r matches Some(scope) ==> {
            &&& Some(scope.is_crud_required) == json_bool_at(text@, crud_key())
            &&& Some(scope.is_user_login_and_logout) == json_bool_at(text@, login_key())
            &&& Some(scope.is_external_urls_required) == json_bool_at(text@, external_urls_key())
        },
{
    let crud = json_bool_field(text, "is_crud_required");
    let login = json_bool_field(text, "is_user_login_and_logout");
    let external = json_bool_field(text, "is_external_urls_required");
    match (crud, login, external) {
        (Some(c), Some(l), Some(e)) => Some(
            ProjectScope {
                is_crud_required: c,
                is_user_login_and_logout: l,
                is_external_urls_required: e,
            },
        ),
        _ => None,
    }
}

/// Decodes a model reply into the candidate URL list: succeeds exactly when
/// the reply is a JSON array of strings.
pub fn decode_url_list(text: &str) -> (r: Option<Vec<String>>)
    ensures
        (r is Some) == (json_string_list(text@) is Some),
        r matches Some(v) ==> json_string_list(text@) == Some(v@.map_values(|u: String| u@)),
{
    json_string_list_field(text)
}

/// The spelling of a boolean in the scope's JSON encoding.
pub open spec fn bool_text(b: bool) -> Seq<char> {
    if b {
        "true"@
    } else {
        "false"@
    }
}

/// The JSON encoding of a project scope, field by field in catalog order.
pub open spec fn scope_json_text(scope: ProjectScope) -> Seq<char> {
    "{\"is_crud_required\":"@ + bool_text(scope.is_crud_required)
        + ",\"is_user_login_and_logout\":"@ + bool_text(scope.is_user_login_and_logout)
        + ",\"is_external_urls_required\":"@ + bool_text(scope.is_external_urls_required) + "}"@
}

/// Writes the text for one boolean of the scope's JSON encoding.
fn bool_literal(b: bool) -> (r: &'static str)
    ensures
        r@ == bool_text(b),
{
    if b {
        "true"
    } else {
        "false"
    }
}

/// Encodes a project scope as the JSON object that the decoder reads.
pub fn encode_project_scope(scope: &ProjectScope) -> (r: String)
    ensures
        r@ == scope_json_text(*scope),
{
    let mut r = String::from_str("{\"is_crud_required\":");
    r.append(bool_literal(scope.is_crud_required));
    r.append(",\"is_user_login_and_logout\":");
    r.append(bool_literal(scope.is_user_login_and_logout));
    r.append(",\"is_external_urls_required\":");
    r.append(bool_literal(scope.is_external_urls_required));
    r.append("}");
    r
}

/// A build record reports an error: it is a compiler message whose level is
/// the error level.
pub open spec fn is_error_record(line: Seq<char>) -> bool {
    &&& json_str_at(line, "reason"@) == Some("compiler-message"@)
    &&& json_str_at2(line, "message"@, "level"@) == Some("error"@)
}

/// The rendered text a build record contributes: its rendered message, or
/// nothing when that field is missing.
pub open spec fn rendered_text(line: Seq<char>) -> Seq<char> {
    match json_str_at2(line, "message"@, "rendered"@) {
        Some(t) => t,
        None => Seq::empty(),
    }
}

/// The views of a batch of build-verifier records.
pub open spec fn line_views(lines: Seq<String>) -> Seq<Seq<char>> {
    lines.map_values(|l: String| l@)
}

/// How many records of the batch report an error.
pub open spec fn error_count_of(lines: Seq<Seq<char>>) -> int
    decreases lines.len(),
{
    if lines.len() == 0 {
        0
    } else {
        error_count_of(lines.drop_last()) + if is_error_record(lines.last()) {
            1int
        } else {
            0int
        }
    }
}

/// The rendered texts of the batch's error records, concatenated in input
/// order.
pub open spec fn rendered_concat(lines: Seq<Seq<char>>) -> Seq<char>
    decreases lines.len(),
{
    if lines.len() == 0 {
        Seq::empty()
    } else {
        rendered_concat(lines.drop_last()) + if is_error_record(lines.last()) {
            rendered_text(lines.last())
        } else {
            Seq::empty()
        }
    }
}

pub(crate) proof fn lemma_diag_take_step(lines: Seq<Seq<char>>, i: int)
    requires
        0 <= i < lines.len(),
    ensures
        error_count_of(lines.take(i + 1)) == error_count_of(lines.take(i)) + (
        if is_error_record(lines[i]) {
            1int
        } else {
            0int
        }),
        rendered_concat(lines.take(i + 1)) == rendered_concat(lines.take(i)) + (
        if is_error_record(lines[i]) {
            rendered_text(lines[i])
        } else {
            Seq::<char>::empty()
        }),
{
    assert(lines.take(i + 1).drop_last() =~= lines.take(i));
    assert(lines.take(i + 1).last() == lines[i]);
}

/// Classifies one build-verifier record: for an error-level compiler message
/// it hands back the rendered diagnostic text, for every other record
/// nothing.
pub fn diag_error_rendered(line: &str) -> (r: Option<String>)
    ensures
        (r is Some) == is_error_record(line@),
        r matches Some(t) ==> t@ == rendered_text(line@),
{
    let reason = json_str_field(line, "reason");
    match reason {
        Some(reason_text) => {
            if str_eq(reason_text.as_str(), "compiler-message") {
                let level = json_str_field2(line, "message", "level");
                match level {
                    Some(level_text) => {
                        if str_eq(level_text.as_str(), "error") {
                            match json_str_field2(line, "message", "rendered") {
                                Some(rendered) => Some(rendered),
                                None => Some(String::new()),
                            }
                        } else {
                            None
                        }
                    },
                    None => None,
                }
            } else {
                None
            }
        },
        None => None,
    }
}

} // verus!
