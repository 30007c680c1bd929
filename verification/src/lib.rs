//! Hangul-aware text processing: decomposition of Korean syllable blocks
//! into their phonological components (leading consonant, vowel, optional
//! trailing consonant) rendered as compatibility jamo, for both precomposed
//! (NFC) and fully decomposed (NFD) input.

pub mod choseong;
pub mod hangul;
pub mod hangul_letter;
pub mod jongseong;
pub mod jungseong;
pub mod nfc;
pub mod nfd;
mod util;

pub use hangul::Hangul;
pub use hangul_letter::HangulLetter;
