//! Trusted access to the `ini` crate, for the one configuration lookup the
//! steps need.

use vstd::prelude::*;
use crate::environment::matches_opt_str;

verus! {

/// What parsing `content` as INI text and looking up `key` in the general
/// section yields: `None` when the text is not well-formed INI, otherwise
/// `Some` of the key's optional value. The result is a function of the text
/// and key alone.
pub uninterp spec fn ini_general_value(content: Seq<char>, key: Seq<char>) -> Option<
    Option<Seq<char>>,
>;

/// Relies on `ini::Ini::load_from_str` and `ini::Properties::get`: the
/// parse and the general-section lookup are deterministic in the text and
/// the key, and a successfully parsed `Ini` always has a general section,
/// so `general_section` cannot panic here.
#[verifier::external_body]
pub(crate) fn ini_general_lookup(content: &str, key: &str) -> (r: Result<Option<String>, String>)
    ensures
        r matches Ok(o) ==> (ini_general_value(content@, key@) matches Some(v)
            && matches_opt_str(o, v)),
        r is Err ==> ini_general_value(content@, key@) is None,
{
    match ini::Ini::load_from_str(content) {
        Ok(parsed) => Ok(parsed.general_section().get(key).map(|v| v.to_string())),
        Err(e) => Err(format!("{}", e)),
    }
}

} // verus!
