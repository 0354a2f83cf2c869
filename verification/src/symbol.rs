//! Validation of stock ticker symbols: one to five capital letters.

use vstd::prelude::*;

verus! {

/// True of an ASCII capital letter.
pub open spec fn is_uppercase_letter(c: char) -> bool {
    'A' <= c && c <= 'Z'
}

/// True when `s` is a valid ticker symbol: one to five capital letters
/// and nothing else.
pub open spec fn is_valid_symbol(s: Seq<char>) -> bool {
    1 <= s.len() <= 5 && forall|i: int| 0 <= i < s.len() ==> is_uppercase_letter(s[i])
}

/// The error for a string that is not a valid ticker symbol.
#[derive(Debug, Clone, PartialEq, Eq, Structural)]
pub struct InvalidSymbol;

impl InvalidSymbol {
    /// The error message, as the service reports it.
    pub fn message(&self) -> (r: String)
        ensures
            r@ == "Invalid ticker symbol!"@,
    {
        String::from_str("Invalid ticker symbol!")
    }
}

/// Validates the given symbol: accepted exactly when it is one to five
/// capital letters.
pub fn validate_symbol(symbol: &str) -> (r: Result<(), InvalidSymbol>)
    ensures
        r is Ok <==> is_valid_symbol(symbol@),
{
    let len: usize = symbol.unicode_len();
    if len < 1 || len > 5 {
        return Err(InvalidSymbol);
    }
    let mut i: usize = 0;
    while i < len
        invariant
            i <= len,
            len == symbol@.len(),
            1 <= len <= 5,
            forall|j: int| 0 <= j < i ==> is_uppercase_letter(symbol@[j]),
        decreases len - i,
    {
        let c = symbol.get_char(i);
        if c < 'A' || c > 'Z' {
            return Err(InvalidSymbol);
        }
        i = i + 1;
    }
    Ok(())
}

} // verus!
