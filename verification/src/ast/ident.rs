//! The baseline rules for identifiers in Miden Assembly.

use vstd::prelude::*;

verus! {

/// The errors found when validating an identifier.
#[derive(Debug)]
pub enum IdentError {
    /// The identifier is empty.
    Empty,
    /// The identifier holds a character that is neither ASCII graphic nor alphanumeric.
    InvalidChars { ident: String },
    /// The identifier is longer than `max` bytes.
    InvalidLength { max: usize },
}

/// Whether `c` is alphanumeric in the sense of Unicode: alphabetic or numeric.
pub uninterp spec fn unicode_alphanumeric(c: char) -> bool;

/// Whether `c` is an ASCII graphic character: `!` through `~`.
pub open spec fn ascii_graphic(c: char) -> bool {
    '!' <= c <= '~'
}

/// Whether `c` is an ASCII letter or digit.
pub open spec fn ascii_alphanumeric(c: char) -> bool {
    ('0' <= c <= '9') || ('A' <= c <= 'Z') || ('a' <= c <= 'z')
}

/// `char::is_alphanumeric`: whether `c` is alphabetic or numeric in Unicode. Its documentation
/// makes the ASCII letters and digits, and no other ASCII character, alphanumeric; for other
/// characters the result is the Unicode property, named here and not stated.
#[verifier::external_body]
fn char_is_alphanumeric(c: char) -> (r: bool)
    ensures
        r == unicode_alphanumeric(c),
        (c as u32) < 128 ==> (r <==> ascii_alphanumeric(c)),
{
    c.is_alphanumeric()
}

/// `c` may appear in an identifier.
pub open spec fn ident_char(c: char) -> bool {
    ascii_graphic(c) || unicode_alphanumeric(c)
}

/// `s` is a valid identifier: it is not empty, and each of its characters is ASCII graphic or
/// alphanumeric.
pub open spec fn valid_ident(s: Seq<char>) -> bool {
    s.len() > 0 && forall|i: int| 0 <= i < s.len() ==> ident_char(#[trigger] s[i])
}

/// Applies the default identifier validation rules to `source`.
///
/// # Errors
/// - [IdentError::Empty] if `source` is empty;
/// - [IdentError::InvalidChars] if it holds a character that is neither ASCII graphic nor
///   alphanumeric.
pub fn validate_ident(source: &str) -> (r: Result<(), IdentError>)
    ensures
        r is Ok <==> valid_ident(source@),
        source@.len() == 0 ==> r matches Err(IdentError::Empty),
        source@.len() > 0 && !valid_ident(source@) ==> (r matches Err(IdentError::InvalidChars { ident })
            && ident@ == source@),
{
    let n = source.unicode_len();
    if n == 0 {
        return Err(IdentError::Empty);
    }
    let mut i: usize = 0;
    while i < n
        invariant
            n == source@.len(),
            i <= n,
            forall|k: int| 0 <= k < i ==> ident_char(#[trigger] source@[k]),
        decreases n - i,
    {
        let c = source.get_char(i);
        let graphic = '!' <= c && c <= '~';
        if !graphic && !char_is_alphanumeric(c) {
            return Err(IdentError::InvalidChars { ident: String::from_str(source) });
        }
        i = i + 1;
    }
    Ok(())
}

} // verus!
