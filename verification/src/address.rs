//! Address validation: an address is `0x` followed by forty hexadecimal
//! digits, in either case.

use crate::client::StratSDK;
use regex::Regex;
use vstd::prelude::*;

verus! {

/// Whether `c` is a hexadecimal digit, in either case.
pub open spec fn is_hex_digit(c: char) -> bool {
    ||| '0' <= c <= '9'
    ||| 'a' <= c <= 'f'
    ||| 'A' <= c <= 'F'
}

/// Whether `s` has the shape of an address: `0x`, then exactly forty
/// hexadecimal digits, and nothing before or after.
pub open spec fn is_address(s: Seq<char>) -> bool {
    &&& s.len() == 42
    &&& s[0] == '0'
    &&& s[1] == 'x'
    &&& forall|i: int| 2 <= i < 42 ==> is_hex_digit(#[trigger] s[i])
}

/// The regular expression of an address.
pub const ADDRESS_PATTERN: &'static str = "^0x[a-fA-F0-9]{40}$";

/// `regex::Regex`, a compiled regular expression.
#[verifier::external_type_specification]
#[verifier::external_body]
pub struct ExRegex(regex::Regex);

/// The pattern from which a `Regex` was compiled.
pub uninterp spec fn regex_pattern(re: Regex) -> Seq<char>;

/// Calls `regex::Regex::new`. A compiled regex keeps its pattern
/// (`Regex::as_str` returns it). The address pattern is valid syntax and
/// small, so it compiles.
#[verifier::external_body]
fn compile(pattern: &str) -> (compiled: Option<Regex>)
    ensures
        compiled matches Some(re) ==> regex_pattern(re) == pattern@,
        pattern@ == ADDRESS_PATTERN@ ==> compiled is Some,
{
    Regex::new(pattern).ok()
}

/// Calls `regex::Regex::is_match`, which searches `text` for a match. In the
/// address pattern `^` and `$` hold the match to the whole of `text`, `0x`
/// stands for itself, and `[a-fA-F0-9]{40}` takes exactly forty characters of
/// that class.
#[verifier::external_body]
fn is_match(re: &Regex, text: &str) -> (found: bool)
    ensures
        regex_pattern(*re) == ADDRESS_PATTERN@ ==> found == is_address(text@),
{
    re.is_match(text)
}

impl StratSDK {
    /// Tests whether `address` has the shape of an address.
    pub fn is_valid_address(address: &str) -> (valid: bool)
        ensures
            valid == is_address(address@),
    {
        match compile(ADDRESS_PATTERN) {
            Some(re) => is_match(&re, address),
            None => false,
        }
    }
}

} // verus!
