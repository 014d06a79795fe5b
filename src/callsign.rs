//! Radio callsigns: validated, compared without regard to ASCII case, shown as
//! they were written.
use vstd::prelude::*;

use crate::text::{decimal, push_char, usize_decimal};

verus! {

/// Longest callsign accepted, in bytes.
pub const MAX_LENGTH: usize = 20;

/// Why a string is not a callsign.
#[derive(Clone, Copy, Debug, PartialEq, Eq, Structural)]
pub enum CallsignError {
    /// The first character that is neither an ASCII letter or digit nor `_`.
    InvalidCharacter(char),
    /// Longer than `max` bytes.
    TooLong { actual: usize, max: usize },
    Empty,
}

/// The characters a callsign may hold: ASCII letters and digits, and `_`.
pub open spec fn valid_char(c: char) -> bool {
    ('a' <= c && c <= 'z') || ('A' <= c && c <= 'Z') || ('0' <= c && c <= '9') || c == '_'
}

/// `c` with an ASCII capital letter replaced by its small letter.
pub open spec fn ascii_lower_char(c: char) -> char {
    if 'A' <= c && c <= 'Z' {
        ((c as u32) + 32) as char
    } else {
        c
    }
}

/// `s` with every ASCII capital letter replaced by its small letter.
pub open spec fn ascii_lower(s: Seq<char>) -> Seq<char> {
    s.map_values(|c: char| ascii_lower_char(c))
}

/// `i` is the position of the first character of `s` that a callsign may not hold.
pub open spec fn first_invalid_at(s: Seq<char>, i: int) -> bool {
    0 <= i < s.len() && !valid_char(s[i]) && forall|j: int| 0 <= j < i ==> valid_char(#[trigger] s[j])
}

/// What `Callsign::new` gives for `s`, whose characters are `chars` and whose
/// UTF-8 encoding takes `bytes` bytes.
pub open spec fn check_spec(chars: Seq<char>, bytes: nat) -> Result<(), CallsignError> {
    if chars.len() == 0 {
        Err(CallsignError::Empty)
    } else if bytes > MAX_LENGTH {
        Err(CallsignError::TooLong { actual: bytes as usize, max: MAX_LENGTH })
    } else if exists|i: int| first_invalid_at(chars, i) {
        Err(CallsignError::InvalidCharacter(chars[choose|i: int| first_invalid_at(chars, i)]))
    } else {
        Ok(())
    }
}

/// Relies on `str::to_ascii_lowercase`: ASCII capitals become small letters,
/// every other character stays as it is.
#[verifier::external_body]
fn to_ascii_lowercase(s: &str) -> (r: String)
    ensures
        r@ == ascii_lower(s@),
{
    s.to_ascii_lowercase()
}

/// A validated callsign. Equality ignores ASCII case.
#[derive(Clone, Debug)]
pub struct Callsign {
    original: String,
    normalized: String,
}

impl Callsign {
    /// The callsign as it was written.
    pub closed spec fn original_chars(&self) -> Seq<char> {
        self.original@
    }

    /// The callsign in ASCII small letters.
    pub closed spec fn normalized_chars(&self) -> Seq<char> {
        self.normalized@
    }

    fn is_valid_char(c: char) -> (r: bool)
        ensures
            r == valid_char(c),
    {
        ('a' <= c && c <= 'z') || ('A' <= c && c <= 'Z') || ('0' <= c && c <= '9') || c == '_'
    }

    /// Validates `s`: it must not be empty, must take at most 20 bytes, and
    /// may hold only ASCII letters, digits and `_`; the checks come in that
    /// order, and the first character that fails is reported.
    pub fn new(s: &str) -> (r: Result<Callsign, CallsignError>)
        ensures
            check_spec(s@, s.len() as nat) matches Err(e) ==> r == Err::<Callsign, CallsignError>(e),
            check_spec(s@, s.len() as nat) is Ok ==> (r matches Ok(c) && c.original_chars() == s@
                && c.normalized_chars() == ascii_lower(s@)),
    {
        if s.is_empty() {
            return Err(CallsignError::Empty);
        }
        if s.len() > MAX_LENGTH {
            return Err(CallsignError::TooLong { actual: s.len(), max: MAX_LENGTH });
        }
        let ghost chars = s@;
        for c in it: s.chars()
            invariant
                chars == s@,
                chars.len() > 0,
                s.len() <= MAX_LENGTH,
                it.seq() == chars,
                forall|j: int| 0 <= j < it.index() ==> valid_char(#[trigger] chars[j]),
        {
            if !Self::is_valid_char(c) {
                proof {
                    assert(first_invalid_at(chars, it.index() as int));
                    let k = choose|k: int| first_invalid_at(chars, k);
                    assert(k == it.index() as int);
                }
                return Err(CallsignError::InvalidCharacter(c));
            }
        }
        proof {
            assert(!exists|i: int| first_invalid_at(chars, i));
        }
        Ok(Callsign { original: s.to_owned(), normalized: to_ascii_lowercase(s) })
    }

    /// The callsign as it was written.
    pub fn as_str(&self) -> (r: &str)
        ensures
            r@ == self.original_chars(),
    {
        self.original.as_str()
    }

    /// The callsign in ASCII small letters.
    pub fn normalized(&self) -> (r: &str)
        ensures
            r@ == self.normalized_chars(),
    {
        self.normalized.as_str()
    }

    /// The callsign as it was written, as an owned string.
    pub fn to_string(&self) -> (r: String)
        ensures
            r@ == self.original_chars(),
    {
        self.original.clone()
    }
}

impl PartialEq for Callsign {
    fn eq(&self, other: &Callsign) -> (r: bool) {
        self.normalized == other.normalized
    }
}

impl vstd::std_specs::cmp::PartialEqSpecImpl for Callsign {
    open spec fn obeys_eq_spec() -> bool {
        true
    }

    open spec fn eq_spec(&self, other: &Callsign) -> bool {
        self.normalized_chars() == other.normalized_chars()
    }
}

impl Eq for Callsign {
}

impl std::hash::Hash for Callsign {
    /// Relies on `String`'s `Hash`: hashes the small-letter form alone, so that
    /// equal callsigns hash alike.
    #[verifier::external_body]
    fn hash<H: std::hash::Hasher>(&self, state: &mut H) {
        self.normalized.hash(state);
    }
}

impl AsRef<str> for Callsign {
    fn as_ref(&self) -> (r: &str)
        ensures
            r@ == self.original_chars(),
    {
        self.original.as_str()
    }
}

impl CallsignError {
    /// The message that describes the error.
    pub fn to_string(&self) -> (r: String)
        ensures
            r@ == match *self {
                CallsignError::InvalidCharacter(c) => "Invalid character '"@ + seq![c] + "' in callsign"@,
                CallsignError::TooLong { actual, max } => "Callsign too long: "@ + decimal(actual as nat)
                    + " characters (max "@ + decimal(max as nat) + ")"@,
                CallsignError::Empty => "Callsign cannot be empty"@,
            },
    {
        match self {
            CallsignError::InvalidCharacter(c) => {
                let mut m = String::from_str("Invalid character '");
                push_char(&mut m, *c);
                m.append("' in callsign");
                m
            },
            CallsignError::TooLong { actual, max } => {
                let mut m = String::from_str("Callsign too long: ");
                let a = usize_decimal(*actual);
                m.append(a.as_str());
                m.append(" characters (max ");
                let b = usize_decimal(*max);
                m.append(b.as_str());
                m.append(")");
                m
            },
            CallsignError::Empty => String::from_str("Callsign cannot be empty"),
        }
    }
}

} // verus!
