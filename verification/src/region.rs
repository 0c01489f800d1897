//! Region names, as the storage client library knows them.

use rusoto_core::region::ParseRegionError;
use rusoto_core::Region;
use std::str::FromStr;
use vstd::prelude::*;

verus! {

/// `rusoto_core::region::ParseRegionError`, the error with which the client
/// library refuses a text that names no region.
#[verifier::external_type_specification]
#[verifier::external_body]
pub struct ExParseRegionError(ParseRegionError);

/// The name, in the client library's own spelling, of the region that the
/// library reads a text as; nothing for a text that it reads as no region.
/// The library goes by the text alone.
pub uninterp spec fn canonical_region(text: Seq<char>) -> Option<Seq<char>>;

/// Calls `Region::from_str` of `rusoto_core`, and `Region::name` on the
/// region found. The result is named, not described: it is the name of the
/// region that the library finds for the text, or the library's error where
/// it finds none.
#[verifier::external_body]
fn parse_region(text: &str) -> (parsed: Result<String, ParseRegionError>)
    ensures
        parsed matches Ok(name) ==> canonical_region(text@) == Some(name@),
        parsed is Err ==> canonical_region(text@) is None,
{
    match Region::from_str(text) {
        Ok(region) => Ok(region.name().to_string()),
        Err(error) => Err(error),
    }
}

/// The name of the region that the client library reads `text` as, in the
/// library's own spelling, if it reads it as one.
pub fn region_name(text: &str) -> (name: Option<String>)
    ensures
        name matches Some(n) ==> canonical_region(text@) == Some(n@),
        name is None ==> canonical_region(text@) is None,
{
    match parse_region(text) {
        Ok(name) => Some(name),
        Err(_) => None,
    }
}

} // verus!
