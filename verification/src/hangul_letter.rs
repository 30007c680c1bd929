//! One parsed Hangul syllable: its source characters, its origin
//! (precomposed NFC character or decomposed NFD jamo run), and its typed
//! components.

use vstd::prelude::*;
use vstd::slice::slice_subrange;
use vstd::string::StrSliceExecFns;
use crate::choseong::{choseong_compat, is_choseong_code, Choseong};
use crate::jongseong::{
    is_composite_jongseong, is_jongseong_code, jong_split_of_compat, jongseong_compat, Jongseong,
};
use crate::jungseong::{is_jungseong_code, jungseong_compat, Jungseong};
use crate::nfc::{is_nfc_seq, is_syllable_char, NFC};
use crate::nfd::{
    cho_code_of, is_nfd_seq, jong_code_of, jong_index_of, jung_code_of,
    lemma_syllable_component_ranges, NFD,
};
use crate::util::push_char;

verus! {

/// The full compatibility-jamo disassembly of one precomposed syllable:
/// leading consonant, vowel, then the trailing consonant's one or two
/// characters when one is present.
pub open spec fn syllable_disassembly(c: char) -> Seq<char> {
    let u = c as int;
    seq![choseong_compat(cho_code_of(u)), jungseong_compat(jung_code_of(u))] + (if jong_index_of(
        u,
    ) > 0 {
        jong_split_of_compat(jongseong_compat(jong_code_of(u)))
    } else {
        Seq::<char>::empty()
    })
}

/// The leading consonant's compatibility character of one precomposed
/// syllable.
pub open spec fn syllable_choseong(c: char) -> char {
    choseong_compat(cho_code_of(c as int))
}

/// The compatibility-jamo disassembly of a well-formed decomposed jamo
/// run: each standalone jamo replaced by its own display form.
pub open spec fn nfd_disassembly(s: Seq<char>) -> Seq<char> {
    seq![choseong_compat(s[0] as int), jungseong_compat(s[1] as int)] + (if s.len() == 3 {
        jong_split_of_compat(jongseong_compat(s[2] as int))
    } else {
        Seq::<char>::empty()
    })
}

/// One parsed syllable. Holds the one-to-three source characters with
/// their codepoints, the precomposed character when parsed from NFC
/// input, and the three resolved components.
pub struct HangulLetter {
    pub value_chars: [char; 3],
    pub unicode_codes: [u32; 3],
    pub len: u8,
    pub nfc: Option<char>,
    pub choseong: Choseong,
    pub jungseong: Jungseong,
    pub jongseong: Option<Jongseong>,
}

impl HangulLetter {
    /// The source characters this letter was parsed from: one precomposed
    /// syllable, or a run of two or three standalone jamo.
    pub open spec fn source(self) -> Seq<char> {
        self.value_chars@.take(self.len as int)
    }

    /// The precomposed character, present exactly when the letter was
    /// parsed from a single NFC character.
    pub open spec fn nfc_char(self) -> Option<char> {
        self.nfc
    }

    /// The compatibility-jamo disassembly of this letter: leading
    /// consonant, vowel, then the trailing consonant's one or two
    /// characters when one is present.
    pub open spec fn disassembly(self) -> Seq<char> {
        seq![self.choseong.compatibility_value, self.jungseong.compatibility_value] + (
        match self.jongseong {
            Some(j) => jong_split_of_compat(j.compatibility_value),
            None => Seq::<char>::empty(),
        })
    }

    /// Validity: the length lies in 1..=3 and decides the origin, the
    /// stored codepoints match the stored characters, and the components
    /// are the lookups of the source's component codepoints.
    pub open spec fn wf(self) -> bool {
        &&& 1 <= self.len <= 3
        &&& forall|i: int|
            0 <= i < self.len ==> self.unicode_codes@[i] == #[trigger] self.value_chars@[i] as u32
        &&& if self.len == 1 {
            let u = self.value_chars@[0] as int;
            &&& is_syllable_char(self.value_chars@[0])
            &&& self.nfc == Some(self.value_chars@[0])
            &&& self.choseong.compatibility_value == choseong_compat(cho_code_of(u))
            &&& self.jungseong.compatibility_value == jungseong_compat(jung_code_of(u))
            &&& match self.jongseong {
                Some(j) => jong_index_of(u) > 0 && j.compatibility_value == jongseong_compat(
                    jong_code_of(u),
                ),
                None => jong_index_of(u) == 0,
            }
        } else {
            &&& self.nfc is None
            &&& is_choseong_code(self.value_chars@[0] as int)
            &&& is_jungseong_code(self.value_chars@[1] as int)
            &&& self.choseong.compatibility_value == choseong_compat(self.value_chars@[0] as int)
            &&& self.jungseong.compatibility_value == jungseong_compat(self.value_chars@[1] as int)
            &&& if self.len == 3 {
                &&& is_jongseong_code(self.value_chars@[2] as int)
                &&& match self.jongseong {
                    Some(j) => j.compatibility_value == jongseong_compat(
                        self.value_chars@[2] as int,
                    ),
                    None => false,
                }
            } else {
                self.jongseong is None
            }
        }
    }

    /// Parses one logical syllable from a string: a single precomposed
    /// syllable character, or else a well-formed decomposed jamo run of
    /// two or three characters. Any other input is not a Hangul letter.
    pub fn parse(string: &str) -> (r: Option<HangulLetter>)
        ensures
            r is Some <==> (is_nfc_seq(string@) || is_nfd_seq(string@)),
            r matches Some(l) ==> {
                &&& l.wf()
                &&& l.source() == string@
                &&& (is_nfc_seq(string@) ==> l.nfc_char() == Some(string@[0]) && l.disassembly()
                    == syllable_disassembly(string@[0]))
                &&& (is_nfd_seq(string@) ==> l.nfc_char() is None && l.disassembly()
                    == nfd_disassembly(string@))
            },
    {
        if NFC::is_nfc_hangul(string) {
            let ch = string.get_char(0);
            return Some(Self::from_syllable_char(ch));
        }
        if NFD::is_nfd_hangul(string) {
            let n = string.unicode_len();
            let c0 = string.get_char(0);
            let c1 = string.get_char(1);
            let (len, c2): (u8, char) = if n == 3 {
                (3, string.get_char(2))
            } else {
                (2, '\0')
            };
            let value_chars = [c0, c1, c2];
            let unicode_codes = [c0 as u32, c1 as u32, c2 as u32];
            let choseong = Choseong::new(c0 as u32);
            let jungseong = Jungseong::new(c1 as u32);
            let jongseong = if len == 3 {
                Some(Jongseong::new(c2 as u32))
            } else {
                None
            };
            let letter = HangulLetter {
                value_chars,
                unicode_codes,
                len,
                nfc: None,
                choseong,
                jungseong,
                jongseong,
            };
            proof {
                assert(letter.source() =~= string@);
            }
            return Some(letter);
        }
        None
    }

    /// Parses one precomposed (NFC) syllable character; any other
    /// character is not a Hangul letter.
    pub fn parse_from_char(nfc_char: char) -> (r: Option<HangulLetter>)
        ensures
            r is Some <==> is_syllable_char(nfc_char),
            r matches Some(l) ==> {
                &&& l.wf()
                &&& l.source() == seq![nfc_char]
                &&& l.nfc_char() == Some(nfc_char)
                &&& l.disassembly() == syllable_disassembly(nfc_char)
                &&& l.choseong.compatibility_value == syllable_choseong(nfc_char)
                &&& (l.jongseong is Some <==> jong_index_of(nfc_char as int) > 0)
            },
    {
        if NFC::is_nfc_hangul_char(nfc_char) {
            Some(Self::from_syllable_char(nfc_char))
        } else {
            None
        }
    }

    /// Builds the letter for a character already known to be a
    /// precomposed syllable, decomposing it arithmetically.
    fn from_syllable_char(ch: char) -> (l: HangulLetter)
        requires
            is_syllable_char(ch),
        ensures
            l.wf(),
            l.source() == seq![ch],
            l.nfc_char() == Some(ch),
            l.disassembly() == syllable_disassembly(ch),
            l.choseong.compatibility_value == syllable_choseong(ch),
            (l.jongseong is Some <==> jong_index_of(ch as int) > 0),
    {
        let unicode = ch as u32;
        proof {
            lemma_syllable_component_ranges(unicode as int);
        }
        let nfd = NFD::normalize(unicode);
        let NFD(cho, jung, jong) = nfd.unwrap();
        let value_chars = [ch, '\0', '\0'];
        let unicode_codes = [unicode, 0u32, 0u32];
        let choseong = Choseong::new(cho);
        let jungseong = Jungseong::new(jung);
        let jongseong = match jong {
            Some(j) => Some(Jongseong::new(j)),
            None => None,
        };
        let letter = HangulLetter {
            value_chars,
            unicode_codes,
            len: 1,
            nfc: Some(ch),
            choseong,
            jungseong,
            jongseong,
        };
        proof {
            assert(letter.source() =~= seq![ch]);
            assert(letter.disassembly() =~= syllable_disassembly(ch));
        }
        letter
    }

    /// The source characters, in order.
    pub fn value_chars(&self) -> (r: &[char])
        requires
            self.wf(),
        ensures
            r@ == self.source(),
    {
        slice_subrange(self.value_chars.as_slice(), 0, self.len as usize)
    }

    /// The source characters' codepoints, in order.
    pub fn unicode_codes(&self) -> (r: &[u32])
        requires
            self.wf(),
        ensures
            r@.len() == self.source().len(),
            forall|i: int| 0 <= i < r@.len() ==> r@[i] == #[trigger] self.source()[i] as u32,
    {
        slice_subrange(self.unicode_codes.as_slice(), 0, self.len as usize)
    }

    /// The precomposed character, when this letter came from NFC input.
    pub fn value_nfc(&self) -> (r: Option<char>)
        ensures
            r == self.nfc_char(),
    {
        self.nfc
    }

    /// The source characters collected into a string.
    pub fn value_string(&self) -> (r: String)
        requires
            self.wf(),
        ensures
            r@ == self.source(),
    {
        let mut result = String::new();
        let n = self.len as usize;
        let mut i: usize = 0;
        while i < n
            invariant
                self.wf(),
                n == self.len,
                i <= n,
                result@ == self.source().take(i as int),
            decreases n - i,
        {
            push_char(&mut result, self.value_chars[i]);
            i += 1;
            proof {
                assert(self.source().take(i as int) =~= self.source().take(i - 1).push(
                    self.value_chars@[i - 1],
                ));
            }
        }
        proof {
            assert(self.source().take(n as int) =~= self.source());
        }
        result
    }

    /// Appends this letter's disassembly to the output: leading
    /// consonant, vowel, then the trailing consonant's characters.
    pub fn append_disassembled(&self, output: &mut String)
        ensures
            final(output)@ == old(output)@ + self.disassembly(),
    {
        push_char(output, self.choseong.compatibility_value);
        push_char(output, self.jungseong.compatibility_value);
        match &self.jongseong {
            Some(jong) => jong.append_disassembled(output),
            None => {},
        }
        proof {
            assert(output@ =~= old(output)@ + self.disassembly());
        }
    }

    /// This letter's disassembly as a fresh string.
    pub fn disassemble(&self) -> (r: String)
        ensures
            r@ == self.disassembly(),
    {
        let mut result = String::new();
        self.append_disassembled(&mut result);
        proof {
            assert(result@ =~= self.disassembly());
        }
        result
    }

    /// True exactly when the syllable has a trailing consonant.
    pub fn has_batchim(&self) -> (r: bool)
        ensures
            r == (self.jongseong is Some),
    {
        self.jongseong.is_some()
    }
}

/// A parsed letter's disassembly holds two, three or four characters: two
/// without a trailing consonant, three with a simple one, and four with a
/// composite cluster.
pub proof fn lemma_letter_disassembly_len(l: HangulLetter)
    requires
        l.wf(),
    ensures
        2 <= l.disassembly().len() <= 4,
        l.jongseong is None ==> l.disassembly().len() == 2,
        l.jongseong matches Some(j) ==> l.disassembly().len() == (
        if is_composite_jongseong(j.compatibility_value) {
            4int
        } else {
            3int
        }),
{
    if l.source().len() == 1 {
        lemma_syllable_component_ranges(l.source()[0] as int);
    }
}

} // verus!
