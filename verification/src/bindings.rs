//! Contracts taken on trust for functions that this library calls but does not define.

use vstd::prelude::*;
use crate::json::JsonValue;

verus! {

/// `String::push` appends the given character to the end of the string.
pub assume_specification[ std::string::String::push ](s: &mut std::string::String, c: char)
    ensures
        final(s)@ == old(s)@.push(c),
;

/// The lower-case form that `str::to_lowercase` gives a text.
pub uninterp spec fn lowercase(s: Seq<char>) -> Seq<char>;

/// `str::to_lowercase`: the result is the lower-case form of the argument, a
/// function of the argument alone.
#[verifier::external_body]
pub(crate) fn to_lowercase(s: &str) -> (r: String)
    ensures
        r@ == lowercase(s@),
{
    s.to_lowercase()
}

/// A JSON value as `serde_json` holds it.
#[verifier::external_type_specification]
#[verifier::external_body]
pub struct ExJsonValue(serde_json::Value);

/// This library's form of a `serde_json::Value`: the same value, variant by
/// variant, a number as the text that `serde_json` writes for it.
pub uninterp spec fn json_model(value: serde_json::Value) -> JsonValue;

/// Turns a `serde_json::Value` into this library's form of it, variant by
/// variant, with `Number::to_string` for a number: the result depends on the
/// value alone.
#[verifier::external_body]
pub(crate) fn json_from_value(value: &serde_json::Value) -> (r: JsonValue)
    ensures
        r == json_model(*value),
{
    match value {
        serde_json::Value::Null => JsonValue::Null,
        serde_json::Value::Bool(b) => JsonValue::Bool(*b),
        serde_json::Value::Number(n) => JsonValue::Number(n.to_string()),
        serde_json::Value::String(s) => JsonValue::String(s.clone()),
        serde_json::Value::Array(a) => JsonValue::Array(a.iter().map(json_from_value).collect()),
        serde_json::Value::Object(m) => JsonValue::Object(
            m.iter().map(|(k, v)| (k.clone(), json_from_value(v))).collect(),
        ),
    }
}

/// The value that the bytes of a JSON document write, or `None` where they
/// write none.
pub uninterp spec fn json_value(bytes: Seq<u8>) -> Option<serde_json::Value>;

/// `serde_json::from_slice` on a `serde_json::Value`: whether the bytes
/// parse, and to what, depends on the bytes alone.
#[verifier::external_body]
pub(crate) fn parse_json_value(bytes: &[u8]) -> (r: Option<serde_json::Value>)
    ensures
        r == json_value(bytes@),
{
    serde_json::from_slice::<serde_json::Value>(bytes).ok()
}

/// `chrono::Utc::now`, written by `DateTime::to_rfc3339`: the current time as
/// an RFC 3339 text. Nothing is claimed of it.
#[verifier::external_body]
pub(crate) fn now_rfc3339() -> String {
    chrono::Utc::now().to_rfc3339()
}

/// `chrono::Utc::now`, given by `DateTime::timestamp` and
/// `DateTime::timestamp_subsec_nanos`: the current time as whole seconds since
/// the start of 1970 and the nanoseconds beyond them. Nothing is claimed of it.
#[verifier::external_body]
pub(crate) fn current_instant() -> (i64, u32) {
    let now = chrono::Utc::now();
    (now.timestamp(), now.timestamp_subsec_nanos())
}

/// The instant that an RFC 3339 text writes, as whole seconds since the start
/// of 1970 and the nanoseconds beyond them; `None` where the text is no
/// RFC 3339 date and time.
pub uninterp spec fn rfc3339_instant(text: Seq<char>) -> Option<(i64, u32)>;

/// `chrono::DateTime::parse_from_rfc3339`, the instant given by
/// `DateTime::timestamp` and `DateTime::timestamp_subsec_nanos`: whether the
/// text parses, and to which instant, depends on the text alone.
#[verifier::external_body]
pub(crate) fn parse_rfc3339(text: &str) -> (r: Option<(i64, u32)>)
    ensures
        r == rfc3339_instant(text@),
{
    chrono::DateTime::parse_from_rfc3339(text).ok().map(
        |t| (t.timestamp(), t.timestamp_subsec_nanos()),
    )
}

/// The calendar date that `text` writes in `format`, as the number of its day
/// counted from day 1 on January 1 of the year 1; `None` where the text does
/// not fit the format or names no date.
pub uninterp spec fn date_number(text: Seq<char>, format: Seq<char>) -> Option<i32>;

/// `chrono::NaiveDate::parse_from_str`, the date given by
/// `Datelike::num_days_from_ce`: the result depends on text and format alone.
#[verifier::external_body]
pub(crate) fn parse_date(text: &str, format: &str) -> (r: Option<i32>)
    ensures
        r == date_number(text@, format@),
{
    chrono::NaiveDate::parse_from_str(text, format).ok().map(
        |d| chrono::Datelike::num_days_from_ce(&d),
    )
}

/// `uuid::Uuid::new_v4`, written as text: a fresh random identifier. Nothing
/// is claimed of it.
#[verifier::external_body]
pub(crate) fn new_uuid() -> String {
    uuid::Uuid::new_v4().to_string()
}

/// `dirs::home_dir`: the user's home directory, where the platform tells it.
/// Nothing is claimed of it.
#[verifier::external_body]
pub(crate) fn home_dir() -> Option<String> {
    dirs::home_dir().map(|p| p.to_string_lossy().into_owned())
}

/// `dirs::data_dir`: the directory for programs' data, where the platform
/// tells it. Nothing is claimed of it.
#[verifier::external_body]
pub(crate) fn data_dir() -> Option<String> {
    dirs::data_dir().map(|p| p.to_string_lossy().into_owned())
}

/// `dirs::config_dir`: the directory for programs' settings, where the
/// platform tells it. Nothing is claimed of it.
#[verifier::external_body]
pub(crate) fn config_dir() -> Option<String> {
    dirs::config_dir().map(|p| p.to_string_lossy().into_owned())
}

/// `dirs::cache_dir`: the directory for programs' caches, where the platform
/// tells it. Nothing is claimed of it.
#[verifier::external_body]
pub(crate) fn cache_dir() -> Option<String> {
    dirs::cache_dir().map(|p| p.to_string_lossy().into_owned())
}

/// `std::path::Path::file_name`: the last part of a path, where it has one.
/// Which part that is depends on the platform; nothing is claimed of it.
#[verifier::external_body]
pub(crate) fn file_name(path: &str) -> Option<String> {
    std::path::Path::new(path).file_name().map(|n| n.to_string_lossy().into_owned())
}

/// A compiled regular expression.
#[verifier::external_type_specification]
#[verifier::external_body]
pub struct ExRegex(regex::Regex);

/// Why a pattern did not compile.
#[verifier::external_type_specification]
#[verifier::external_body]
pub struct ExRegexError(regex::Error);

/// The pattern that `regex::Regex::new` compiled a regular expression from,
/// or `None` for an expression that was made in another way, with options of
/// its own.
pub uninterp spec fn pattern_of(re: regex::Regex) -> Option<Seq<char>>;

/// Whether `regex::Regex::new` compiles `pattern`: whether it is a valid
/// pattern whose expression stays within the limits that `Regex::new` sets.
pub uninterp spec fn pattern_compiles(pattern: Seq<char>) -> bool;

/// `regex::Regex::new`: whether a pattern compiles depends on the pattern
/// alone, and an expression that compiles is that of its pattern.
#[verifier::external_body]
pub(crate) fn compile_pattern(pattern: &str) -> (r: Result<regex::Regex, regex::Error>)
    ensures
        r is Ok <==> pattern_compiles(pattern@),
        r matches Ok(re) ==> pattern_of(re) == Some(pattern@),
{
    regex::Regex::new(pattern)
}

/// `regex::Error` written as text. Nothing is claimed of it.
#[verifier::external_body]
pub(crate) fn pattern_error_text(error: &regex::Error) -> String {
    error.to_string()
}

/// Whether `pattern` matches somewhere in `text`.
pub uninterp spec fn pattern_matches(pattern: Seq<char>, text: Seq<char>) -> bool;

/// `regex::Regex::is_match`: for an expression that `Regex::new` compiled,
/// whether there is a match depends on pattern and text alone.
#[verifier::external_body]
pub(crate) fn is_match(re: &regex::Regex, text: &str) -> (r: bool)
    ensures
        pattern_of(*re) matches Some(pattern) ==> r == pattern_matches(pattern, text@),
{
    re.is_match(text)
}

/// The groups of the leftmost match of `pattern` in `text`, the whole match
/// first, each with the text that it matched or `None` where it took no part;
/// `None` where there is no match.
pub uninterp spec fn pattern_groups(pattern: Seq<char>, text: Seq<char>) -> Option<
    Seq<Option<Seq<char>>>,
>;

/// The views of the groups of a match.
pub open spec fn groups_view(
    groups: Option<Vec<Option<String>>>,
) -> Option<Seq<Option<Seq<char>>>> {
    match groups {
        Some(all) => Some(
            all@.map_values(
                |g: Option<String>|
                    match g {
                        Some(s) => Some(s@),
                        None => None,
                    },
            ),
        ),
        None => None,
    }
}

/// `regex::Regex::captures`, each group given by `Match::as_str`: for an
/// expression that `Regex::new` compiled, the groups depend on pattern and
/// text alone.
#[verifier::external_body]
pub(crate) fn captures(re: &regex::Regex, text: &str) -> (r: Option<Vec<Option<String>>>)
    ensures
        pattern_of(*re) matches Some(pattern) ==> groups_view(r) == pattern_groups(
            pattern,
            text@,
        ),
{
    re.captures(text).map(|c| c.iter().map(|m| m.map(|g| g.as_str().to_string())).collect())
}

} // verus!
