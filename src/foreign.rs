//! Declarations of the outside types that the library carries through its
//! logic without looking inside them, and the calls it makes into outside
//! crates.

use vstd::prelude::*;

verus! {

/// An exact decimal number of the `num-decimal` crate. Prices are carried
/// as such values from the decoder to the caller.
#[verifier::external_type_specification]
#[verifier::external_body]
pub struct ExNum(num_decimal::Num);

/// Relies on `Clone` of `num_decimal::Num`, which the library's event
/// types use when they are cloned; nothing is assumed of the copy.
pub assume_specification[ <num_decimal::Num as Clone>::clone ](n: &num_decimal::Num) -> num_decimal::Num;

/// A hexadecimal digit, in lower case as `serde_json` writes it.
pub open spec fn hex_digit(d: nat) -> char {
    seq!['0', '1', '2', '3', '4', '5', '6', '7', '8', '9', 'a', 'b', 'c', 'd', 'e', 'f'][d as int]
}

/// What `serde_json` writes for one character inside a string literal:
/// `"` and `\` behind a backslash, the short escapes for backspace, tab,
/// line feed, form feed and carriage return, `\u00XX` for the other
/// control characters below U+0020, and any other character as it is.
pub open spec fn json_char_escape(c: char) -> Seq<char> {
    if c == '"' {
        seq!['\\', '"']
    } else if c == '\\' {
        seq!['\\', '\\']
    } else if c == '\u{8}' {
        seq!['\\', 'b']
    } else if c == '\t' {
        seq!['\\', 't']
    } else if c == '\n' {
        seq!['\\', 'n']
    } else if c == '\u{c}' {
        seq!['\\', 'f']
    } else if c == '\r' {
        seq!['\\', 'r']
    } else if (c as u32) < 0x20 {
        seq!['\\', 'u', '0', '0', hex_digit((c as u32 / 16) as nat), hex_digit((c as u32 % 16) as nat)]
    } else {
        seq![c]
    }
}

/// The JSON string literal of `s`: quotes around the escaped characters.
pub open spec fn json_string_of(s: Seq<char>) -> Seq<char> {
    seq!['"'] + s.map_values(|c: char| json_char_escape(c)).flatten() + seq!['"']
}

/// Relies on `serde_json::to_string` for a `&str` (`format_escaped_str`
/// with its escape table): it writes the JSON string literal of its
/// argument. Serialising a string into memory does
/// not fail; its error arm is never taken.
#[verifier::external_body]
pub(crate) fn json_string(s: &str) -> (r: String)
    ensures
        r@ == json_string_of(s@),
{
    match serde_json::to_string(s) {
        Ok(json) => json,
        Err(_) => String::new(),
    }
}

} // verus!

verus! {

/// What `application/x-www-form-urlencoded` serialisation makes of a
/// string.
pub uninterp spec fn form_encoded(s: Seq<char>) -> Seq<char>;

/// Relies on `url::form_urlencoded::Serializer` (`new`, `append_pair`,
/// `finish`): a serializer over the whole string appends `&` where the
/// string is not empty, then the form encoding (`byte_serialize`) of the
/// name, `=`, and the form encoding of the value.
#[verifier::external_body]
pub(crate) fn append_query_pair(query: String, name: &str, value: &str) -> (r: String)
    ensures
        r@ == (if query@.len() == 0 {
            Seq::empty()
        } else {
            query@ + seq!['&']
        }) + form_encoded(name@) + seq!['='] + form_encoded(value@),
{
    let mut serializer = url::form_urlencoded::Serializer::new(query);
    serializer.append_pair(name, value);
    serializer.finish()
}

} // verus!

verus! {

/// The reason phrase that the `http` crate registers for a status code.
pub uninterp spec fn canonical_reason_of(code: u16) -> Option<Seq<char>>;

/// Relies on `http::StatusCode::from_u16` and
/// `StatusCode::canonical_reason`: the registered reason phrase of a
/// status code, if it has one. A code that `from_u16` refuses has none.
#[verifier::external_body]
pub(crate) fn canonical_reason(code: u16) -> (r: Option<String>)
    ensures
        r matches Some(s) ==> canonical_reason_of(code) == Some(s@),
        r is None ==> canonical_reason_of(code) is None,
{
    http::StatusCode::from_u16(code).ok().and_then(|s| s.canonical_reason()).map(String::from)
}

} // verus!

verus! {

/// The URL that the `url` crate makes of `base` with its path replaced by
/// `path` and its query by `query`; or, where `base` does not parse, the
/// description of the parse error.
pub uninterp spec fn url_with_path_query(base: Seq<char>, path: Seq<char>, query: Seq<char>) -> Result<
    Seq<char>,
    Seq<char>,
>;

/// Relies on `url::Url::parse`, `Url::set_path` and `Url::set_query`:
/// `base` is parsed, its path and query are replaced and the URL is
/// serialised; a base that does not parse gives the description of the
/// parse error. The outcome depends on the three strings alone.
#[verifier::external_body]
pub(crate) fn join_url(base: &str, path: &str, query: &str) -> (r: Result<String, String>)
    ensures
        r is Ok ==> url_with_path_query(base@, path@, query@) is Ok,
        r is Ok ==> url_with_path_query(base@, path@, query@)->Ok_0 == r->Ok_0@,
        r is Err ==> url_with_path_query(base@, path@, query@) is Err,
        r is Err ==> url_with_path_query(base@, path@, query@)->Err_0 == r->Err_0@,
{
    match url::Url::parse(base) {
        Ok(mut url) => {
            url.set_path(path);
            url.set_query(Some(query));
            Ok(url.into())
        },
        Err(err) => Err(err.to_string()),
    }
}

/// The URL that the `url` crate makes of `url` with its scheme replaced by
/// `scheme` and its path by `path`; `None` where `url` does not parse or
/// its scheme cannot be changed to `scheme`.
pub uninterp spec fn url_with_scheme_path(url: Seq<char>, scheme: Seq<char>, path: Seq<char>) -> Option<
    Seq<char>,
>;

/// Relies on `url::Url::parse`, `Url::set_scheme` and `Url::set_path`:
/// `url` is parsed, its scheme and path are replaced and the URL is
/// serialised; `None` where parsing or the change of scheme fails. The
/// outcome depends on the three strings alone.
#[verifier::external_body]
pub(crate) fn rebase_url(url: &str, scheme: &str, path: &str) -> (r: Option<String>)
    ensures
        r matches Some(u) ==> url_with_scheme_path(url@, scheme@, path@) == Some(u@),
        r is None ==> url_with_scheme_path(url@, scheme@, path@) is None,
{
    let mut url = url::Url::parse(url).ok()?;
    url.set_scheme(scheme).ok()?;
    url.set_path(path);
    Some(url.into())
}

} // verus!

verus! {

/// The description of the error that `url::Url::parse` reports for `s`;
/// `None` where `s` parses as a URL.
pub uninterp spec fn url_parse_error_of(s: Seq<char>) -> Option<Seq<char>>;

/// Relies on `url::Url::parse`: `None` where the string parses as a URL,
/// and otherwise the description (`Display`) of the parse error. The
/// outcome depends on the string alone.
#[verifier::external_body]
pub(crate) fn url_parse_error(s: &str) -> (r: Option<String>)
    ensures
        r is None ==> url_parse_error_of(s@) is None,
        r matches Some(d) ==> url_parse_error_of(s@) == Some(d@),
{
    url::Url::parse(s).err().map(|err| err.to_string())
}

} // verus!
