//! Phone numbers of station staff.
use vstd::prelude::*;
use vstd::utf8::encode_utf8;

use crate::text::push_char;

verus! {

/// Longest phone number accepted, in bytes, once separators are removed.
pub const MAX_PHONE_LENGTH: usize = 15;

/// The separators that a written number may hold: parentheses, dashes, spaces.
pub open spec fn separator(c: char) -> bool {
    c == '(' || c == ')' || c == '-' || c == ' '
}

/// `s` without its separators.
pub open spec fn sanitize(s: Seq<char>) -> Seq<char>
    decreases s.len(),
{
    if s.len() == 0 {
        s
    } else if separator(s.last()) {
        sanitize(s.drop_last())
    } else {
        sanitize(s.drop_last()).push(s.last())
    }
}

/// The length of `s` in bytes, as `str::len` reports it.
pub open spec fn byte_len(s: Seq<char>) -> usize {
    encode_utf8(s).len() as usize
}

/// `s` without one leading `+`.
pub open spec fn unsigned(s: Seq<char>) -> Seq<char> {
    if s.len() > 0 && s[0] == '+' {
        s.drop_first()
    } else {
        s
    }
}

pub open spec fn all_digits(s: Seq<char>) -> bool {
    forall|i: int| 0 <= i < s.len() ==> '0' <= #[trigger] s[i] && s[i] <= '9'
}

/// What `PhoneNumber::from_string` gives for `s`: the number without its
/// separators, or the message of the error.
pub open spec fn phone_spec(s: Seq<char>) -> Result<Seq<char>, Seq<char>> {
    let clean = sanitize(s);
    if clean.len() == 0 || byte_len(clean) > MAX_PHONE_LENGTH {
        Err("Incorrect length"@)
    } else if !all_digits(unsigned(clean)) {
        Err("Invalid characters"@)
    } else {
        Ok(clean)
    }
}

/// A phone number: digits with at most one leading `+`, separators removed.
#[derive(Clone, Debug, Hash)]
pub struct PhoneNumber(String);

impl View for PhoneNumber {
    type V = Seq<char>;

    closed spec fn view(&self) -> Seq<char> {
        self.0@
    }
}

impl PhoneNumber {
    /// Parses a written number: drops parentheses, dashes and spaces; the rest
    /// must take 1 to 15 bytes and be digits, after one optional leading `+`.
    pub fn from_string(s: &str) -> (r: Result<PhoneNumber, String>)
        ensures
            phone_spec(s@) matches Ok(clean) ==> (r matches Ok(p) && p@ == clean),
            phone_spec(s@) matches Err(msg) ==> (r matches Err(e) && e@ == msg),
    {
        let mut sanitized = String::new();
        let mut kept: Vec<char> = Vec::new();
        let ghost chars = s@;
        for c in it: s.chars()
            invariant
                chars == s@,
                it.seq() == chars,
                sanitized@ == sanitize(chars.take(it.index() as int)),
                kept@ == sanitized@,
        {
            proof {
                assert(chars.take(it.index() + 1).drop_last() == chars.take(it.index() as int));
            }
            if !(c == '(' || c == ')' || c == '-' || c == ' ') {
                push_char(&mut sanitized, c);
                kept.push(c);
            }
        }
        proof {
            assert(chars.take(chars.len() as int) == chars);
        }
        if kept.len() == 0 || sanitized.as_str().len() > MAX_PHONE_LENGTH {
            return Err(String::from_str("Incorrect length"));
        }
        let start: usize = if kept[0] == '+' { 1 } else { 0 };
        let mut i: usize = start;
        while i < kept.len()
            invariant
                start <= i <= kept.len(),
                kept.len() > 0,
                kept@ == sanitize(s@),
                kept@ == sanitized@,
                byte_len(kept@) <= MAX_PHONE_LENGTH,
                start == (if kept@[0] == '+' { 1usize } else { 0usize }),
                forall|j: int| start <= j < i ==> '0' <= #[trigger] kept@[j] && kept@[j] <= '9',
            decreases kept.len() - i,
        {
            if !('0' <= kept[i] && kept[i] <= '9') {
                proof {
                    assert(unsigned(kept@)[i - start] == kept@[i as int]);
                }
                return Err(String::from_str("Invalid characters"));
            }
            i = i + 1;
        }
        proof {
            assert forall|j: int| 0 <= j < unsigned(kept@).len() implies '0' <= #[trigger] unsigned(kept@)[j]
                && unsigned(kept@)[j] <= '9' by {
                assert(unsigned(kept@)[j] == kept@[j + start]);
            }
        }
        Ok(PhoneNumber(sanitized))
    }

    /// The number as stored.
    pub fn to_string(&self) -> (r: String)
        ensures
            r@ == self@,
    {
        self.0.clone()
    }
}

impl PartialEq for PhoneNumber {
    fn eq(&self, other: &PhoneNumber) -> (r: bool) {
        self.0 == other.0
    }
}

impl vstd::std_specs::cmp::PartialEqSpecImpl for PhoneNumber {
    open spec fn obeys_eq_spec() -> bool {
        true
    }

    open spec fn eq_spec(&self, other: &PhoneNumber) -> bool {
        self@ == other@
    }
}

} // verus!
