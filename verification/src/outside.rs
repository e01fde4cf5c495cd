//! The calls this library makes into `std` functions that `vstd` does not
//! describe and into outside crates, each with the contract the library relies on.
use vstd::prelude::*;
use vstd::utf8::{decode_utf8, valid_utf8};

verus! {

#[verifier::external_type_specification]
#[verifier::external_body]
pub struct ExIoError(std::io::Error);

#[verifier::external_type_specification]
#[verifier::external_body]
pub struct ExParseIntError(std::num::ParseIntError);

#[verifier::external_type_specification]
#[verifier::external_body]
pub struct ExParseFloatError(std::num::ParseFloatError);

/// What `String::from_utf8_lossy` makes of a byte string.
pub uninterp spec fn utf8_lossy(bytes: Seq<u8>) -> Seq<char>;

/// `String::from_utf8_lossy(bytes)`: its result is named `utf8_lossy`, and on
/// valid UTF-8 it is the decoded text (the documentation promises that valid
/// input comes back unchanged).
#[verifier::external_body]
pub(crate) fn decode_lossy(bytes: &[u8]) -> (s: String)
    ensures
        s@ == utf8_lossy(bytes@),
        valid_utf8(bytes@) ==> s@ == decode_utf8(bytes@),
{
    String::from_utf8_lossy(bytes).into_owned()
}

/// Whether `std::io::Error::kind` of `err` is `std::io::ErrorKind::NotFound`.
/// Nothing is stated of the answer: the error value is opaque here.
#[verifier::external_body]
pub(crate) fn io_error_is_not_found(err: &std::io::Error) -> bool {
    matches!(err.kind(), std::io::ErrorKind::NotFound)
}

/// `std::io::Error::from(std::io::ErrorKind::InvalidInput)`. Nothing is
/// stated of the value: the error value is opaque here.
#[verifier::external_body]
pub(crate) fn io_error_invalid_input() -> std::io::Error {
    std::io::Error::from(std::io::ErrorKind::InvalidInput)
}

/// The error that `std::io::Error::from_raw_os_error` makes of the
/// operating system's error number `code`.
pub uninterp spec fn os_error(code: i32) -> std::io::Error;

/// `std::io::Error::from_raw_os_error(code)`: the error of the operating
/// system's error number `code`. Its result is named `os_error`: the error
/// holds the number and nothing else.
#[verifier::external_body]
pub(crate) fn io_error_from_raw(code: i32) -> (r: std::io::Error)
    ensures
        r == os_error(code),
{
    std::io::Error::from_raw_os_error(code)
}

/// The timestamp (seconds since the epoch, the time read as UTC) of the
/// date and time that `chrono::NaiveDateTime::parse_from_str` reads in
/// `value` with the format `fmt`, or `None` when it reads none.
pub uninterp spec fn naive_timestamp(value: Seq<char>, fmt: Seq<char>) -> Option<i64>;

/// `chrono::NaiveDateTime::parse_from_str(value, fmt)`, then `and_utc().timestamp()`
/// of what it read. Its result is named `naive_timestamp`.
#[verifier::external_body]
pub(crate) fn parse_naive_timestamp(value: &str, fmt: &str) -> (r: Option<i64>)
    ensures
        r == naive_timestamp(value@, fmt@),
{
    match chrono::NaiveDateTime::parse_from_str(value, fmt) {
        Ok(d) => Some(d.and_utc().timestamp()),
        Err(_) => None,
    }
}

/// What `regex::Regex::new(pattern)` followed by `captures(text)` gives: `None`
/// when the pattern does not compile or does not match, else the text of each
/// group of the leftmost match, group 0 first, `None` for a group that took no part.
pub uninterp spec fn regex_captures(pattern: Seq<char>, text: Seq<char>) -> Option<Seq<Option<Seq<char>>>>;

/// The view of the groups handed back by `captures`.
pub open spec fn groups_view(r: Option<Vec<Option<String>>>) -> Option<Seq<Option<Seq<char>>>> {
    match r {
        Some(v) => Some(v@.map_values(|g: Option<String>| match g {
            Some(s) => Some(s@),
            None => None,
        })),
        None => None,
    }
}

/// `regex::Regex::new(pattern)` then `Regex::captures(text)`, the groups turned
/// into owned strings. Its result is named `regex_captures`.
#[verifier::external_body]
pub(crate) fn captures(pattern: &str, text: &str) -> (r: Option<Vec<Option<String>>>)
    ensures
        groups_view(r) == regex_captures(pattern@, text@),
{
    let re = regex::Regex::new(pattern).ok()?;
    let caps = re.captures(text)?;
    Some(caps.iter().map(|g| g.map(|m| m.as_str().to_owned())).collect())
}

} // verus!
