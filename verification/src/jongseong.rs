//! The 27 trailing-consonant (jongseong) values, their compatibility-jamo
//! display forms, and the splitting of composite clusters into their two
//! component consonants.

use vstd::prelude::*;
use crate::util::push_char;

verus! {

/// The codepoint is a standalone trailing-consonant jamo (U+11A8..=U+11C2).
pub open spec fn is_jongseong_code(u: int) -> bool {
    0x11A8 <= u <= 0x11C2
}

/// The compatibility-jamo display form of a trailing consonant, indexed by
/// its standalone-jamo codepoint. Composite clusters map to the single
/// compatibility cluster character. This is the canonical Unicode mapping;
/// the result for a codepoint outside the range is immaterial.
pub open spec fn jongseong_compat(u: int) -> char {
    if u == 0x11A8 {
        'ㄱ'
    } else if u == 0x11A9 {
        'ㄲ'
    } else if u == 0x11AA {
        'ㄳ'
    } else if u == 0x11AB {
        'ㄴ'
    } else if u == 0x11AC {
        'ㄵ'
    } else if u == 0x11AD {
        'ㄶ'
    } else if u == 0x11AE {
        'ㄷ'
    } else if u == 0x11AF {
        'ㄹ'
    } else if u == 0x11B0 {
        'ㄺ'
    } else if u == 0x11B1 {
        'ㄻ'
    } else if u == 0x11B2 {
        'ㄼ'
    } else if u == 0x11B3 {
        'ㄽ'
    } else if u == 0x11B4 {
        'ㄾ'
    } else if u == 0x11B5 {
        'ㄿ'
    } else if u == 0x11B6 {
        'ㅀ'
    } else if u == 0x11B7 {
        'ㅁ'
    } else if u == 0x11B8 {
        'ㅂ'
    } else if u == 0x11B9 {
        'ㅄ'
    } else if u == 0x11BA {
        'ㅅ'
    } else if u == 0x11BB {
        'ㅆ'
    } else if u == 0x11BC {
        'ㅇ'
    } else if u == 0x11BD {
        'ㅈ'
    } else if u == 0x11BE {
        'ㅊ'
    } else if u == 0x11BF {
        'ㅋ'
    } else if u == 0x11C0 {
        'ㅌ'
    } else if u == 0x11C1 {
        'ㅍ'
    } else {
        'ㅎ'
    }
}

/// The display character(s) a trailing consonant contributes to a
/// disassembled syllable: the two component consonants for a composite
/// cluster, else the compatibility character itself.
pub open spec fn jong_split_of_compat(c: char) -> Seq<char> {
    if c == 'ㄳ' {
        seq!['ㄱ', 'ㅅ']
    } else if c == 'ㄵ' {
        seq!['ㄴ', 'ㅈ']
    } else if c == 'ㄶ' {
        seq!['ㄴ', 'ㅎ']
    } else if c == 'ㄺ' {
        seq!['ㄹ', 'ㄱ']
    } else if c == 'ㄻ' {
        seq!['ㄹ', 'ㅁ']
    } else if c == 'ㄼ' {
        seq!['ㄹ', 'ㅂ']
    } else if c == 'ㄽ' {
        seq!['ㄹ', 'ㅅ']
    } else if c == 'ㄾ' {
        seq!['ㄹ', 'ㅌ']
    } else if c == 'ㄿ' {
        seq!['ㄹ', 'ㅍ']
    } else if c == 'ㅀ' {
        seq!['ㄹ', 'ㅎ']
    } else if c == 'ㅄ' {
        seq!['ㅂ', 'ㅅ']
    } else {
        seq![c]
    }
}

/// The compatibility character stands for a two-consonant cluster.
pub open spec fn is_composite_jongseong(c: char) -> bool {
    jong_split_of_compat(c).len() == 2
}

/// One of the 27 trailing-consonant values, carrying its display form.
pub struct Jongseong {
    pub compatibility_value: char,
}

impl Jongseong {
    /// Builds the trailing consonant for a standalone-jamo codepoint.
    pub fn new(code: u32) -> (r: Jongseong)
        requires
            is_jongseong_code(code as int),
        ensures
            r.compatibility_value == jongseong_compat(code as int),
    {
        let compatibility_value = if code == 0x11A8 {
            'ㄱ'
        } else if code == 0x11A9 {
            'ㄲ'
        } else if code == 0x11AA {
            'ㄳ'
        } else if code == 0x11AB {
            'ㄴ'
        } else if code == 0x11AC {
            'ㄵ'
        } else if code == 0x11AD {
            'ㄶ'
        } else if code == 0x11AE {
            'ㄷ'
        } else if code == 0x11AF {
            'ㄹ'
        } else if code == 0x11B0 {
            'ㄺ'
        } else if code == 0x11B1 {
            'ㄻ'
        } else if code == 0x11B2 {
            'ㄼ'
        } else if code == 0x11B3 {
            'ㄽ'
        } else if code == 0x11B4 {
            'ㄾ'
        } else if code == 0x11B5 {
            'ㄿ'
        } else if code == 0x11B6 {
            'ㅀ'
        } else if code == 0x11B7 {
            'ㅁ'
        } else if code == 0x11B8 {
            'ㅂ'
        } else if code == 0x11B9 {
            'ㅄ'
        } else if code == 0x11BA {
            'ㅅ'
        } else if code == 0x11BB {
            'ㅆ'
        } else if code == 0x11BC {
            'ㅇ'
        } else if code == 0x11BD {
            'ㅈ'
        } else if code == 0x11BE {
            'ㅊ'
        } else if code == 0x11BF {
            'ㅋ'
        } else if code == 0x11C0 {
            'ㅌ'
        } else if code == 0x11C1 {
            'ㅍ'
        } else {
            'ㅎ'
        };
        Jongseong { compatibility_value }
    }

    /// Appends this trailing consonant's display character(s) to the
    /// output: two characters for a composite cluster, else one.
    pub fn append_disassembled(&self, output: &mut String)
        ensures
            final(output)@ == old(output)@ + jong_split_of_compat(self.compatibility_value),
    {
        let c = self.compatibility_value;
        if c == 'ㄳ' {
            push_char(output, 'ㄱ');
            push_char(output, 'ㅅ');
        } else if c == 'ㄵ' {
            push_char(output, 'ㄴ');
            push_char(output, 'ㅈ');
        } else if c == 'ㄶ' {
            push_char(output, 'ㄴ');
            push_char(output, 'ㅎ');
        } else if c == 'ㄺ' {
            push_char(output, 'ㄹ');
            push_char(output, 'ㄱ');
        } else if c == 'ㄻ' {
            push_char(output, 'ㄹ');
            push_char(output, 'ㅁ');
        } else if c == 'ㄼ' {
            push_char(output, 'ㄹ');
            push_char(output, 'ㅂ');
        } else if c == 'ㄽ' {
            push_char(output, 'ㄹ');
            push_char(output, 'ㅅ');
        } else if c == 'ㄾ' {
            push_char(output, 'ㄹ');
            push_char(output, 'ㅌ');
        } else if c == 'ㄿ' {
            push_char(output, 'ㄹ');
            push_char(output, 'ㅍ');
        } else if c == 'ㅀ' {
            push_char(output, 'ㄹ');
            push_char(output, 'ㅎ');
        } else if c == 'ㅄ' {
            push_char(output, 'ㅂ');
            push_char(output, 'ㅅ');
        } else {
            push_char(output, c);
        }
        proof {
            assert(output@ =~= old(output)@ + jong_split_of_compat(self.compatibility_value));
        }
    }
}

} // verus!
