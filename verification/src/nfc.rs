//! Recognition of precomposed (NFC) Hangul syllable codepoints.

use vstd::prelude::*;
use vstd::string::StrSliceExecFns;

verus! {

/// The codepoint lies in the precomposed Hangul syllable block
/// U+AC00..=U+D7A3 (11,172 syllables).
pub open spec fn is_syllable_code(u: int) -> bool {
    0xAC00 <= u <= 0xD7A3
}

/// The character is a precomposed Hangul syllable.
pub open spec fn is_syllable_char(c: char) -> bool {
    is_syllable_code(c as int)
}

/// The string is exactly one character, and that character is a
/// precomposed Hangul syllable.
pub open spec fn is_nfc_seq(s: Seq<char>) -> bool {
    s.len() == 1 && is_syllable_char(s[0])
}

/// Classifier for precomposed (NFC) Hangul syllables.
pub struct NFC;

impl NFC {
    /// Decides whether a single character is a precomposed Hangul syllable.
    pub fn is_nfc_hangul_char(c: char) -> (r: bool)
        ensures
            r == is_syllable_char(c),
    {
        let u = c as u32;
        0xAC00 <= u && u <= 0xD7A3
    }

    /// Decides whether a string is exactly one precomposed Hangul syllable.
    pub fn is_nfc_hangul(string: &str) -> (r: bool)
        ensures
            r == is_nfc_seq(string@),
    {
        string.unicode_len() == 1 && Self::is_nfc_hangul_char(string.get_char(0))
    }
}

} // verus!
