//! Decomposed (NFD) Hangul: validation of standalone-jamo runs and the
//! arithmetic decomposition of a precomposed syllable codepoint into its
//! component codepoints.

use vstd::prelude::*;
use vstd::string::StrSliceExecFns;
use crate::choseong::is_choseong_code;
use crate::jongseong::is_jongseong_code;
use crate::jungseong::is_jungseong_code;
use crate::nfc::is_syllable_code;

verus! {

/// Leading-consonant codepoint of a precomposed syllable codepoint
/// (588 = 21 vowels x 28 trailing slots per leading consonant).
pub open spec fn cho_code_of(u: int) -> int {
    0x1100 + (u - 0xAC00) / 588
}

/// Vowel codepoint of a precomposed syllable codepoint.
pub open spec fn jung_code_of(u: int) -> int {
    0x1161 + ((u - 0xAC00) / 28) % 21
}

/// Index of the trailing consonant within its 28-entry block; zero means
/// an open syllable without a trailing consonant.
pub open spec fn jong_index_of(u: int) -> int {
    (u - 0xAC00) % 28
}

/// Trailing-consonant codepoint of a precomposed syllable codepoint;
/// meaningful only when `jong_index_of(u) > 0`.
pub open spec fn jong_code_of(u: int) -> int {
    0x11A7 + jong_index_of(u)
}

/// The sequence is a well-formed decomposed jamo run: a leading consonant,
/// then a vowel, optionally followed by a trailing consonant, with nothing
/// before, between or after.
pub open spec fn is_nfd_seq(s: Seq<char>) -> bool {
    &&& 2 <= s.len() <= 3
    &&& is_choseong_code(s[0] as int)
    &&& is_jungseong_code(s[1] as int)
    &&& (s.len() == 3 ==> is_jongseong_code(s[2] as int))
}

/// The component codepoints of a syllable all lie in their standalone-jamo
/// ranges.
pub proof fn lemma_syllable_component_ranges(u: int)
    requires
        is_syllable_code(u),
    ensures
        is_choseong_code(cho_code_of(u)),
        is_jungseong_code(jung_code_of(u)),
        0 <= jong_index_of(u) < 28,
        jong_index_of(u) > 0 ==> is_jongseong_code(jong_code_of(u)),
{
    let idx = u - 0xAC00;
    assert(0 <= idx / 588 <= 18) by (nonlinear_arith)
        requires
            0 <= idx <= 11171,
    ;
    assert(0 <= (idx / 28) % 21 <= 20) by (nonlinear_arith);
    assert(0 <= idx % 28 < 28) by (nonlinear_arith);
}

/// A precomposed syllable's three component codepoints: leading consonant,
/// vowel, and optional trailing consonant.
pub struct NFD(pub u32, pub u32, pub Option<u32>);

impl NFD {
    /// Decides whether a string is a well-formed decomposed jamo run of
    /// two or three standalone jamo.
    pub fn is_nfd_hangul(string: &str) -> (r: bool)
        ensures
            r == is_nfd_seq(string@),
    {
        let n = string.unicode_len();
        if n == 2 {
            is_choseong_char(string.get_char(0)) && is_jungseong_char(string.get_char(1))
        } else if n == 3 {
            is_choseong_char(string.get_char(0)) && is_jungseong_char(string.get_char(1))
                && is_jongseong_char(string.get_char(2))
        } else {
            false
        }
    }

    /// Computes the component codepoints of a precomposed syllable by the
    /// standard arithmetic block decomposition. Returns `None` exactly when
    /// the codepoint lies outside the precomposed-syllable range.
    pub fn normalize(unicode: u32) -> (r: Option<NFD>)
        ensures
            r is Some <==> is_syllable_code(unicode as int),
            r matches Some(nfd) ==> {
                &&& nfd.0 == cho_code_of(unicode as int)
                &&& nfd.1 == jung_code_of(unicode as int)
                &&& (nfd.2 matches Some(j) ==> jong_index_of(unicode as int) > 0
                    && j == jong_code_of(unicode as int))
                &&& (nfd.2 is None ==> jong_index_of(unicode as int) == 0)
            },
    {
        if unicode < 0xAC00 || unicode > 0xD7A3 {
            return None;
        }
        proof {
            lemma_syllable_component_ranges(unicode as int);
        }
        let index = unicode - 0xAC00;
        let cho = 0x1100 + index / 588;
        let jung = 0x1161 + (index / 28) % 21;
        let jong_index = index % 28;
        let jong = if jong_index > 0 {
            Some(0x11A7 + jong_index)
        } else {
            None
        };
        Some(NFD(cho, jung, jong))
    }
}

/// Decides whether a character is a standalone leading-consonant jamo.
fn is_choseong_char(c: char) -> (r: bool)
    ensures
        r == is_choseong_code(c as int),
{
    let u = c as u32;
    0x1100 <= u && u <= 0x1112
}

/// Decides whether a character is a standalone vowel jamo.
fn is_jungseong_char(c: char) -> (r: bool)
    ensures
        r == is_jungseong_code(c as int),
{
    let u = c as u32;
    0x1161 <= u && u <= 0x1175
}

/// Decides whether a character is a standalone trailing-consonant jamo.
fn is_jongseong_char(c: char) -> (r: bool)
    ensures
        r == is_jongseong_code(c as int),
{
    let u = c as u32;
    0x11A8 <= u && u <= 0x11C2
}

} // verus!
