//! Validated FIGI identifiers. A FIGI is a twelve-character, letter-leading
//! identifier over uppercase letters and digits; this module checks that
//! structure and keeps accepted identifiers as a fixed-size value type.

use crate::ids::spec_is_digit;
use vstd::prelude::*;

verus! {

/// An uppercase ASCII letter.
pub open spec fn spec_is_upper(c: char) -> bool {
    'A' <= c && c <= 'Z'
}

/// A character a FIGI may contain: an uppercase letter or a digit.
pub open spec fn spec_is_figi_char(c: char) -> bool {
    spec_is_upper(c) || spec_is_digit(c)
}

/// A structurally valid FIGI: twelve characters, all uppercase letters or
/// digits, the first a letter.
pub open spec fn spec_valid_figi(s: Seq<char>) -> bool {
    &&& s.len() == 12
    &&& spec_is_upper(s[0])
    &&& forall|i: int| 0 <= i < s.len() ==> spec_is_figi_char(#[trigger] s[i])
}

/// The ways a string can fail FIGI validation.
#[derive(Debug, Clone, Copy, PartialEq, Eq, PartialOrd, Ord, Hash, Structural)]
pub enum InvalidFigi {
    /// The input was not twelve characters long.
    Length,
    /// A character was not an uppercase letter or digit, or the first
    /// character was not a letter.
    Character,
}

/// A validated FIGI identifier.
#[derive(Debug, Clone, Copy, PartialEq, Eq, PartialOrd, Ord, Hash)]
pub struct Figi {
    code: [char; 12],
}

impl View for Figi {
    type V = Seq<char>;

    closed spec fn view(&self) -> Seq<char> {
        self.code@
    }
}

impl Figi {
    /// The identifier's validity invariant.
    pub open spec fn valid(&self) -> bool {
        spec_valid_figi(self@)
    }

    /// Validate `s` as a FIGI, accepting exactly the twelve-character,
    /// letter-leading, uppercase-alphanumeric strings.
    pub fn parse(s: &str) -> (r: Result<Figi, InvalidFigi>)
        ensures
            spec_valid_figi(s@) ==> (r matches Ok(f) && f@ == s@),
            s@.len() != 12 ==> r == Err::<Figi, InvalidFigi>(InvalidFigi::Length),
            s@.len() == 12 && !spec_valid_figi(s@) ==> r == Err::<Figi, InvalidFigi>(
                InvalidFigi::Character,
            ),
            r matches Ok(f) ==> f.valid() && f@ == s@,
    {
        let n = s.unicode_len();
        if n != 12 {
            return Err(InvalidFigi::Length);
        }
        let mut code: [char; 12] = ['A'; 12];
        let mut i: usize = 0;
        while i < 12
            invariant
                0 <= i <= 12,
                s@.len() == 12,
                forall|j: int| 0 <= j < i ==> code@[j] == s@[j],
                forall|j: int| 0 <= j < i ==> spec_is_figi_char(#[trigger] s@[j]),
                i > 0 ==> spec_is_upper(s@[0]),
            decreases 12 - i,
        {
            let c = s.get_char(i);
            let ok = if i == 0 {
                c >= 'A' && c <= 'Z'
            } else {
                (c >= 'A' && c <= 'Z') || (c >= '0' && c <= '9')
            };
            if !ok {
                return Err(InvalidFigi::Character);
            }
            code[i] = c;
            i += 1;
        }
        let f = Figi { code };
        proof {
            assert(f@ =~= s@);
        }
        Ok(f)
    }

    /// The identifier's characters.
    pub fn code(&self) -> (r: &[char; 12])
        ensures
            r@ == self@,
    {
        &self.code
    }

    /// The identifier's text.
    pub fn to_text(&self) -> (r: String)
        ensures
            r@ == self@,
    {
        let mut v: Vec<char> = Vec::new();
        let mut i: usize = 0;
        while i < 12
            invariant
                0 <= i <= 12,
                v@ =~= self@.subrange(0, i as int),
            decreases 12 - i,
        {
            v.push(self.code[i]);
            i += 1;
        }
        proof {
            assert(v@ =~= self@);
        }
        crate::text::string_from_chars(&v)
    }
}

/// Two identifiers with the same characters are the same identifier.
pub proof fn lemma_figi_view_injective(a: Figi, b: Figi)
    requires
        a@ == b@,
    ensures
        a == b,
{
    assert(a.code@ == b.code@);
    assert(a.code =~= b.code);
}

} // verus!
