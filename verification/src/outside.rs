//! What this crate takes on trust from other crates.
//!
//! Nothing here is proved. Each function below calls into another crate and
//! states what that crate is known to return; the rest of the library is
//! verified against these statements.

use rand::Rng;
use vstd::prelude::*;

verus! {

/// What `casper_types::PackageHash::from_formatted_str` makes of a package
/// reference: the 32 bytes of the hash where it accepts the reference, and
/// the sentence its error is written as where it does not.
pub uninterp spec fn package_hash_parsed(reference: Seq<char>) -> Result<[u8; 32], Seq<char>>;

/// The 32 bytes of the package that a reference names, where it names one.
pub open spec fn package_hash_addr(reference: Seq<char>) -> Option<[u8; 32]> {
    match package_hash_parsed(reference) {
        Ok(addr) => Some(addr),
        Err(_) => None,
    }
}

/// The 32 bytes that `casper_types::Digest::from_hex` reads from a text,
/// where it accepts the text.
pub uninterp spec fn digest_of_hex(hex: Seq<char>) -> Option<[u8; 32]>;

/// The address and the access-rights bits that
/// `casper_types::URef::from_formatted_str` reads from a text, where it accepts
/// the text.
pub uninterp spec fn uref_of(text: Seq<char>) -> Option<([u8; 32], u8)>;

/// The text that `serde_json::to_string_pretty` writes for a JSON array of
/// objects, each object given as its members in order, every member a name
/// and a string value; `None` where it fails.
pub uninterp spec fn pretty_json(rows: Seq<Seq<(Seq<char>, Seq<char>)>>) -> Option<Seq<char>>;

/// Calls `casper_types::PackageHash::from_formatted_str` and hands back the
/// bytes of the hash, or the parser's error written out as text. The parsing
/// includes a checksum over mixed-case hex, so the result is named rather
/// than spelled out: the same reference always gives the same answer.
#[verifier::external_body]
pub(crate) fn parse_package_hash(reference: &str) -> (r: Result<[u8; 32], String>)
    ensures
        match r {
            Ok(addr) => package_hash_parsed(reference@) == Ok::<[u8; 32], Seq<char>>(addr),
            Err(reason) => package_hash_parsed(reference@) == Err::<[u8; 32], Seq<char>>(reason@),
        },
{
    casper_types::PackageHash::from_formatted_str(reference).map(|hash| hash.value()).map_err(
        |error| error.to_string(),
    )
}

/// Calls `casper_types::Digest::from_hex` and hands back the bytes of the
/// digest. As with package hashes the decoding checks a checksum, so the
/// result is named: the same text always gives the same answer.
#[verifier::external_body]
pub(crate) fn parse_digest_hex(hex: &str) -> (r: Option<[u8; 32]>)
    ensures
        r == digest_of_hex(hex@),
{
    casper_types::Digest::from_hex(hex).ok().map(|digest| digest.value())
}

/// Calls `casper_types::URef::from_formatted_str` and hands back the address
/// of the reference and the bits of its access rights. The address is decoded
/// like a package hash, so the result is named.
#[verifier::external_body]
pub(crate) fn parse_uref(text: &str) -> (r: Option<([u8; 32], u8)>)
    ensures
        r == uref_of(text@),
{
    casper_types::URef::from_formatted_str(text).ok().map(
        |uref| (uref.addr(), uref.access_rights().bits()),
    )
}

/// Builds a JSON array of objects with string members and calls
/// `serde_json::to_string_pretty` on it. The text is a function of the rows
/// alone; how it is laid out is `serde_json`'s business.
#[verifier::external_body]
pub(crate) fn to_pretty_json(rows: &Vec<Vec<(String, String)>>) -> (r: Option<String>)
    ensures
        match r {
            Some(text) => pretty_json(rows.deep_view()) == Some(text@),
            None => pretty_json(rows.deep_view()) is None,
        },
{
    let objects = rows.iter().map(
        |row|
            serde_json::Value::Object(
                row.iter().map(|(k, v)| (k.clone(), serde_json::Value::String(v.clone()))).collect(),
            ),
    ).collect();
    serde_json::to_string_pretty(&serde_json::Value::Array(objects)).ok()
}

/// Calls `chrono::Utc::now` and writes the moment with `to_rfc3339`. Nothing
/// is promised of a clock.
#[verifier::external_body]
pub(crate) fn now_rfc3339() -> String {
    chrono::Utc::now().to_rfc3339()
}

/// Draws a number from `rand::rng()`. Nothing is promised of it.
#[verifier::external_body]
pub(crate) fn random_id() -> i64 {
    rand::rng().random::<i64>()
}

} // verus!
