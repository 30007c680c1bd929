//! The 21 vowel (jungseong) values and their compatibility-jamo display
//! forms.

use vstd::prelude::*;

verus! {

/// The codepoint is a standalone vowel jamo (U+1161..=U+1175).
pub open spec fn is_jungseong_code(u: int) -> bool {
    0x1161 <= u <= 0x1175
}

/// The compatibility-jamo display form of a vowel, indexed by its
/// standalone-jamo codepoint. This is the canonical Unicode mapping;
/// the result for a codepoint outside the range is immaterial.
pub open spec fn jungseong_compat(u: int) -> char {
    if u == 0x1161 {
        'ㅏ'
    } else if u == 0x1162 {
        'ㅐ'
    } else if u == 0x1163 {
        'ㅑ'
    } else if u == 0x1164 {
        'ㅒ'
    } else if u == 0x1165 {
        'ㅓ'
    } else if u == 0x1166 {
        'ㅔ'
    } else if u == 0x1167 {
        'ㅕ'
    } else if u == 0x1168 {
        'ㅖ'
    } else if u == 0x1169 {
        'ㅗ'
    } else if u == 0x116A {
        'ㅘ'
    } else if u == 0x116B {
        'ㅙ'
    } else if u == 0x116C {
        'ㅚ'
    } else if u == 0x116D {
        'ㅛ'
    } else if u == 0x116E {
        'ㅜ'
    } else if u == 0x116F {
        'ㅝ'
    } else if u == 0x1170 {
        'ㅞ'
    } else if u == 0x1171 {
        'ㅟ'
    } else if u == 0x1172 {
        'ㅠ'
    } else if u == 0x1173 {
        'ㅡ'
    } else if u == 0x1174 {
        'ㅢ'
    } else {
        'ㅣ'
    }
}

/// One of the 21 vowel values, carrying its display form.
pub struct Jungseong {
    pub compatibility_value: char,
}

impl Jungseong {
    /// Builds the vowel for a standalone-jamo codepoint.
    pub fn new(code: u32) -> (r: Jungseong)
        requires
            is_jungseong_code(code as int),
        ensures
            r.compatibility_value == jungseong_compat(code as int),
    {
        let compatibility_value = if code == 0x1161 {
            'ㅏ'
        } else if code == 0x1162 {
            'ㅐ'
        } else if code == 0x1163 {
            'ㅑ'
        } else if code == 0x1164 {
            'ㅒ'
        } else if code == 0x1165 {
            'ㅓ'
        } else if code == 0x1166 {
            'ㅔ'
        } else if code == 0x1167 {
            'ㅕ'
        } else if code == 0x1168 {
            'ㅖ'
        } else if code == 0x1169 {
            'ㅗ'
        } else if code == 0x116A {
            'ㅘ'
        } else if code == 0x116B {
            'ㅙ'
        } else if code == 0x116C {
            'ㅚ'
        } else if code == 0x116D {
            'ㅛ'
        } else if code == 0x116E {
            'ㅜ'
        } else if code == 0x116F {
            'ㅝ'
        } else if code == 0x1170 {
            'ㅞ'
        } else if code == 0x1171 {
            'ㅟ'
        } else if code == 0x1172 {
            'ㅠ'
        } else if code == 0x1173 {
            'ㅡ'
        } else if code == 0x1174 {
            'ㅢ'
        } else {
            'ㅣ'
        };
        Jungseong { compatibility_value }
    }
}

} // verus!
