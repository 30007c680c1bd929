//! The 19 leading-consonant (choseong) values and their compatibility-jamo
//! display forms.

use vstd::prelude::*;

verus! {

/// The codepoint is a standalone leading-consonant jamo (U+1100..=U+1112).
pub open spec fn is_choseong_code(u: int) -> bool {
    0x1100 <= u <= 0x1112
}

/// The compatibility-jamo display form of a leading consonant, indexed by
/// its standalone-jamo codepoint. This is the canonical Unicode mapping;
/// the result for a codepoint outside the range is immaterial.
pub open spec fn choseong_compat(u: int) -> char {
    if u == 0x1100 {
        'ㄱ'
    } else if u == 0x1101 {
        'ㄲ'
    } else if u == 0x1102 {
        'ㄴ'
    } else if u == 0x1103 {
        'ㄷ'
    } else if u == 0x1104 {
        'ㄸ'
    } else if u == 0x1105 {
        'ㄹ'
    } else if u == 0x1106 {
        'ㅁ'
    } else if u == 0x1107 {
        'ㅂ'
    } else if u == 0x1108 {
        'ㅃ'
    } else if u == 0x1109 {
        'ㅅ'
    } else if u == 0x110A {
        'ㅆ'
    } else if u == 0x110B {
        'ㅇ'
    } else if u == 0x110C {
        'ㅈ'
    } else if u == 0x110D {
        'ㅉ'
    } else if u == 0x110E {
        'ㅊ'
    } else if u == 0x110F {
        'ㅋ'
    } else if u == 0x1110 {
        'ㅌ'
    } else if u == 0x1111 {
        'ㅍ'
    } else {
        'ㅎ'
    }
}

/// One of the 19 leading-consonant values, carrying its display form.
pub struct Choseong {
    pub compatibility_value: char,
}

impl Choseong {
    /// Builds the leading consonant for a standalone-jamo codepoint.
    pub fn new(code: u32) -> (r: Choseong)
        requires
            is_choseong_code(code as int),
        ensures
            r.compatibility_value == choseong_compat(code as int),
    {
        let compatibility_value = if code == 0x1100 {
            'ㄱ'
        } else if code == 0x1101 {
            'ㄲ'
        } else if code == 0x1102 {
            'ㄴ'
        } else if code == 0x1103 {
            'ㄷ'
        } else if code == 0x1104 {
            'ㄸ'
        } else if code == 0x1105 {
            'ㄹ'
        } else if code == 0x1106 {
            'ㅁ'
        } else if code == 0x1107 {
            'ㅂ'
        } else if code == 0x1108 {
            'ㅃ'
        } else if code == 0x1109 {
            'ㅅ'
        } else if code == 0x110A {
            'ㅆ'
        } else if code == 0x110B {
            'ㅇ'
        } else if code == 0x110C {
            'ㅈ'
        } else if code == 0x110D {
            'ㅉ'
        } else if code == 0x110E {
            'ㅊ'
        } else if code == 0x110F {
            'ㅋ'
        } else if code == 0x1110 {
            'ㅌ'
        } else if code == 0x1111 {
            'ㅍ'
        } else {
            'ㅎ'
        };
        Choseong { compatibility_value }
    }
}

} // verus!
