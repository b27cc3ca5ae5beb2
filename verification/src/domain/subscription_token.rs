//! The token that a subscriber sends back to confirm an email address.

use vstd::prelude::*;
use vstd::string::*;

verus! {

/// Number of characters in a subscription token.
pub const TOKEN_LENGTH: usize = 25;

/// Why a string is not a subscription token.
#[derive(Debug, Clone, Copy, PartialEq, Eq, Structural)]
pub enum ParseError {
    /// Some character is not an ASCII letter or digit.
    NotAlphanumeric,
    /// Every character is an ASCII letter or digit, but there are not 25 of them.
    IncorrectLength,
}

/// `c` is one of `0-9`, `A-Z`, `a-z`.
pub open spec fn is_ascii_alphanumeric(c: char) -> bool {
    ('0' <= c && c <= '9') || ('A' <= c && c <= 'Z') || ('a' <= c && c <= 'z')
}

/// Every character of `s` is an ASCII letter or digit.
pub open spec fn all_alphanumeric(s: Seq<char>) -> bool {
    forall|i: int| 0 <= i < s.len() ==> is_ascii_alphanumeric(#[trigger] s[i])
}

/// `s` has the format of a subscription token: 25 ASCII letters and digits.
///
/// All such characters are single code units and single user-perceived
/// characters, so every way of counting them gives the same 25.
pub open spec fn is_token(s: Seq<char>) -> bool {
    all_alphanumeric(s) && s.len() == TOKEN_LENGTH
}

/// The byte `b` encodes an ASCII letter or digit.
fn byte_is_alphanumeric(b: u8) -> (r: bool)
    ensures
        r == is_ascii_alphanumeric(b as char),
{
    (0x30 <= b && b <= 0x39) || (0x41 <= b && b <= 0x5a) || (0x61 <= b && b <= 0x7a)
}

/// A string that was checked to have the format of a subscription token.
///
/// It borrows the string it was parsed from and can only be read.
#[derive(Debug)]
pub struct SubscriptionToken<'query>(&'query str);

impl<'query> View for SubscriptionToken<'query> {
    type V = Seq<char>;

    closed spec fn view(&self) -> Seq<char> {
        self.0@
    }
}

impl<'query> SubscriptionToken<'query> {
    #[verifier::type_invariant]
    spec fn well_formed(self) -> bool {
        is_token(self.0@)
    }

    /// Checks `raw` against the token format.
    ///
    /// The characters are checked first: a string with a character that is not
    /// an ASCII letter or digit is `NotAlphanumeric` whatever its length, and
    /// `IncorrectLength` is the answer only where the length is all that is wrong.
    pub fn parse(raw: &'query str) -> (r: Result<Self, ParseError>)
        ensures
            match r {
                Ok(token) => is_token(raw@) && token@ == raw@,
                Err(ParseError::NotAlphanumeric) => !all_alphanumeric(raw@),
                Err(ParseError::IncorrectLength) => all_alphanumeric(raw@) && raw@.len()
                    != TOKEN_LENGTH,
            },
    {
        if !raw.is_ascii() {
            return Err(ParseError::NotAlphanumeric);
        }
        proof {
            is_ascii_spec_bytes(raw);
        }
        let bytes = raw.as_bytes();
        let mut i: usize = 0;
        while i < bytes.len()
            invariant
                i <= bytes.len(),
                bytes@.len() == raw@.len(),
                forall|j: int| 0 <= j < raw@.len() ==> bytes@[j] == (#[trigger] raw@[j]) as u8,
                forall|j: int| 0 <= j < raw@.len() ==> '\0' <= #[trigger] raw@[j] <= '\u{7f}',
                forall|j: int| 0 <= j < i ==> is_ascii_alphanumeric(#[trigger] raw@[j]),
            decreases bytes.len() - i,
        {
            if !byte_is_alphanumeric(bytes[i]) {
                assert(!is_ascii_alphanumeric(raw@[i as int]));
                return Err(ParseError::NotAlphanumeric);
            }
            i += 1;
        }
        if bytes.len() != TOKEN_LENGTH {
            return Err(ParseError::IncorrectLength);
        }
        Ok(SubscriptionToken(raw))
    }

    /// The string that was parsed, unchanged.
    pub fn as_ref(&self) -> (s: &str)
        ensures
            s@ == self@,
            is_token(s@),
    {
        proof {
            use_type_invariant(self);
        }
        self.0
    }
}

} // verus!
