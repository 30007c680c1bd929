//! Whole-string orchestration: splits an input into one unit per Unicode
//! scalar, parses each as a precomposed syllable where possible, and
//! derives the disassembled and leading-consonant forms of the whole
//! string, each computed once and stored.

use vstd::prelude::*;
use vstd::string::{StringExecFns, StrSliceExecFns};
use crate::choseong::is_choseong_code;
use crate::hangul_letter::{syllable_choseong, syllable_disassembly, HangulLetter};
use crate::jongseong::is_jongseong_code;
use crate::jungseong::is_jungseong_code;
use crate::nfc::is_syllable_char;
use crate::util::push_char;

verus! {

/// The compatibility-jamo expansion of a single character of input: a
/// precomposed syllable's full disassembly, any other character unchanged.
pub open spec fn char_disassembly(c: char) -> Seq<char> {
    if is_syllable_char(c) {
        syllable_disassembly(c)
    } else {
        seq![c]
    }
}

/// The leading-consonant form of a single character of input: a
/// precomposed syllable's leading consonant, any other character
/// unchanged.
pub open spec fn char_choseong(c: char) -> Seq<char> {
    if is_syllable_char(c) {
        seq![syllable_choseong(c)]
    } else {
        seq![c]
    }
}

/// The disassembled form of a whole string: each precomposed syllable
/// replaced by its compatibility-jamo components, every other character
/// kept in place.
pub open spec fn disassembly_of(s: Seq<char>) -> Seq<char>
    decreases s.len(),
{
    if s.len() == 0 {
        Seq::<char>::empty()
    } else {
        char_disassembly(s[0]) + disassembly_of(s.drop_first())
    }
}

/// The leading-consonant extraction of a whole string: each precomposed
/// syllable replaced by its leading consonant's compatibility character,
/// every other character kept in place.
pub open spec fn choseong_of(s: Seq<char>) -> Seq<char>
    decreases s.len(),
{
    if s.len() == 0 {
        Seq::<char>::empty()
    } else {
        char_choseong(s[0]) + choseong_of(s.drop_first())
    }
}

/// Disassembly distributes over concatenation, so characters on either
/// side of a boundary keep their relative positions in the output.
pub proof fn lemma_disassembly_of_append(s: Seq<char>, t: Seq<char>)
    ensures
        disassembly_of(s + t) == disassembly_of(s) + disassembly_of(t),
    decreases s.len(),
{
    if s.len() == 0 {
        assert(s + t =~= t);
        assert(disassembly_of(s) + disassembly_of(t) =~= disassembly_of(t));
    } else {
        assert((s + t).drop_first() =~= s.drop_first() + t);
        lemma_disassembly_of_append(s.drop_first(), t);
        assert((s + t)[0] == s[0]);
        assert(disassembly_of(s + t) =~= disassembly_of(s) + disassembly_of(t));
    }
}

/// Leading-consonant extraction distributes over concatenation.
pub proof fn lemma_choseong_of_append(s: Seq<char>, t: Seq<char>)
    ensures
        choseong_of(s + t) == choseong_of(s) + choseong_of(t),
    decreases s.len(),
{
    if s.len() == 0 {
        assert(s + t =~= t);
        assert(choseong_of(s) + choseong_of(t) =~= choseong_of(t));
    } else {
        assert((s + t).drop_first() =~= s.drop_first() + t);
        lemma_choseong_of_append(s.drop_first(), t);
        assert((s + t)[0] == s[0]);
        assert(choseong_of(s + t) =~= choseong_of(s) + choseong_of(t));
    }
}

/// Extending the input by one character extends the disassembly by that
/// character's expansion.
pub proof fn lemma_disassembly_of_snoc(s: Seq<char>, c: char)
    ensures
        disassembly_of(s.push(c)) == disassembly_of(s) + char_disassembly(c),
{
    assert(s.push(c) =~= s + seq![c]);
    lemma_disassembly_of_append(s, seq![c]);
    assert(seq![c].drop_first() =~= Seq::<char>::empty());
    assert(char_disassembly(c) + Seq::<char>::empty() =~= char_disassembly(c));
    assert(disassembly_of(Seq::<char>::empty()) =~= Seq::<char>::empty());
    assert(disassembly_of(seq![c]) =~= char_disassembly(c));
}

/// Extending the input by one character extends the leading-consonant
/// extraction by that character's form.
pub proof fn lemma_choseong_of_snoc(s: Seq<char>, c: char)
    ensures
        choseong_of(s.push(c)) == choseong_of(s) + char_choseong(c),
{
    assert(s.push(c) =~= s + seq![c]);
    lemma_choseong_of_append(s, seq![c]);
    assert(seq![c].drop_first() =~= Seq::<char>::empty());
    assert(char_choseong(c) + Seq::<char>::empty() =~= char_choseong(c));
    assert(choseong_of(Seq::<char>::empty()) =~= Seq::<char>::empty());
    assert(choseong_of(seq![c]) =~= char_choseong(c));
}

/// Text holding no precomposed Hangul syllable passes through both
/// derived forms unchanged.
pub proof fn lemma_non_syllable_passthrough(s: Seq<char>)
    requires
        forall|i: int| 0 <= i < s.len() ==> !is_syllable_char(#[trigger] s[i]),
    ensures
        disassembly_of(s) == s,
        choseong_of(s) == s,
    decreases s.len(),
{
    if s.len() > 0 {
        lemma_non_syllable_passthrough(s.drop_first());
        assert(disassembly_of(s) =~= s);
        assert(choseong_of(s) =~= s);
    }
}

/// A string already written as standalone jamo is its own disassembly
/// and its own leading-consonant form: its components, written singly,
/// lie outside the precomposed-syllable range.
pub proof fn lemma_jamo_passthrough(s: Seq<char>)
    requires
        forall|i: int|
            0 <= i < s.len() ==> {
                ||| is_choseong_code((#[trigger] s[i]) as int)
                ||| is_jungseong_code(s[i] as int)
                ||| is_jongseong_code(s[i] as int)
            },
    ensures
        disassembly_of(s) == s,
        choseong_of(s) == s,
{
    assert forall|i: int| 0 <= i < s.len() implies !is_syllable_char(#[trigger] s[i]) by {
        assert(s[i] as int <= 0x11C2);
    }
    lemma_non_syllable_passthrough(s);
}

/// Repeated queries of one instance agree: the contracts of
/// `Hangul::disassemble` and `Hangul::get_choseong` determine each result
/// by the instance's characters alone, so any two calls on the same
/// instance return the same characters.
pub proof fn lemma_repeated_queries_agree(h: &Hangul, d1: Seq<char>, d2: Seq<char>, c1: Seq<char>, c2: Seq<char>)
    requires
        d1 == disassembly_of(h@),
        d2 == disassembly_of(h@),
        c1 == choseong_of(h@),
        c2 == choseong_of(h@),
    ensures
        d1 == d2,
        c1 == c2,
{
}

/// One character of the input, paired with its parsed letter when the
/// character is a recognizable precomposed syllable.
struct CharUnit {
    original: char,
    hangul: Option<HangulLetter>,
}

/// The unit's letter is present exactly for a precomposed syllable, and
/// then describes that character.
spec fn unit_wf(u: CharUnit) -> bool {
    match u.hangul {
        Some(l) => {
            &&& is_syllable_char(u.original)
            &&& l.wf()
            &&& l.disassembly() == syllable_disassembly(u.original)
            &&& l.choseong.compatibility_value == syllable_choseong(u.original)
        },
        None => !is_syllable_char(u.original),
    }
}

/// The original characters of a sequence of units, in order.
spec fn units_chars(units: Seq<CharUnit>) -> Seq<char> {
    Seq::new(units.len(), |i: int| units[i].original)
}

/// A whole parsed string: one unit per Unicode scalar of the source,
/// with the two derived forms computed once at construction and returned
/// from that single computation thereafter.
pub struct Hangul {
    char_units: Vec<CharUnit>,
    original: String,
    disassembled: String,
    choseong: String,
}

impl View for Hangul {
    type V = Seq<char>;

    /// A `Hangul` is viewed as its source characters.
    closed spec fn view(&self) -> Seq<char> {
        self.original@
    }
}

impl Hangul {
    /// Validity: one unit per source character, each consistent with its
    /// character, and both stored derived forms equal to their
    /// mathematical counterparts on the source.
    pub closed spec fn wf(&self) -> bool {
        &&& self.char_units@.len() == self.original@.len()
        &&& forall|i: int|
            0 <= i < self.char_units@.len() ==> unit_wf(#[trigger] self.char_units@[i])
                && self.char_units@[i].original == self.original@[i]
        &&& self.disassembled@ == disassembly_of(self.original@)
        &&& self.choseong@ == choseong_of(self.original@)
    }

    /// Parses a whole string, one unit per Unicode scalar value, and
    /// computes both derived forms.
    pub fn new(string: &str) -> (r: Hangul)
        ensures
            r.wf(),
            r@ == string@,
    {
        let n = string.unicode_len();
        let mut char_units: Vec<CharUnit> = Vec::new();
        let mut i: usize = 0;
        while i < n
            invariant
                i <= n,
                n == string@.len(),
                char_units@.len() == i,
                forall|k: int|
                    0 <= k < i ==> unit_wf(#[trigger] char_units@[k]) && char_units@[k].original
                        == string@[k],
            decreases n - i,
        {
            let ch = string.get_char(i);
            let hangul = HangulLetter::parse_from_char(ch);
            char_units.push(CharUnit { original: ch, hangul });
            i += 1;
        }
        let original = String::from_str(string);
        let mut result = Hangul {
            char_units,
            original,
            disassembled: String::new(),
            choseong: String::new(),
        };
        proof {
            assert(units_chars(result.char_units@) =~= string@);
        }
        let disassembled = result.disassemble_uncached();
        result.disassembled = disassembled;
        let choseong = result.choseong_uncached();
        result.choseong = choseong;
        result
    }

    /// The verbatim source string.
    pub fn original(&self) -> (r: &str)
        ensures
            r@ == self@,
    {
        self.original.as_str()
    }

    /// The number of Unicode scalar values in the source, not the number
    /// of recognized syllables.
    pub fn len(&self) -> (r: usize)
        requires
            self.wf(),
        ensures
            r == self@.len(),
    {
        self.char_units.len()
    }

    /// True exactly for an empty source.
    pub fn is_empty(&self) -> (r: bool)
        requires
            self.wf(),
        ensures
            r == (self@.len() == 0),
    {
        self.char_units.is_empty()
    }

    /// The disassembled form of the whole string. The value was computed
    /// once at construction; every call returns that same value.
    pub fn disassemble(&self) -> (r: String)
        requires
            self.wf(),
        ensures
            r@ == disassembly_of(self@),
    {
        self.disassembled.clone()
    }

    /// The leading-consonant form of the whole string. The value was
    /// computed once at construction; every call returns that same value.
    pub fn get_choseong(&self) -> (r: String)
        requires
            self.wf(),
        ensures
            r@ == choseong_of(self@),
    {
        self.choseong.clone()
    }

    /// Walks the units and concatenates each one's disassembly, or the
    /// original character where no letter was recognized.
    fn disassemble_uncached(&self) -> (r: String)
        requires
            forall|i: int| 0 <= i < self.char_units@.len() ==> unit_wf(#[trigger] self.char_units@[i]),
        ensures
            r@ == disassembly_of(units_chars(self.char_units@)),
    {
        let ghost chars = units_chars(self.char_units@);
        if self.char_units.is_empty() {
            return String::new();
        }
        let mut result = String::new();
        let mut i: usize = 0;
        while i < self.char_units.len()
            invariant
                i <= self.char_units@.len(),
                chars == units_chars(self.char_units@),
                forall|k: int|
                    0 <= k < self.char_units@.len() ==> unit_wf(#[trigger] self.char_units@[k]),
                result@ == disassembly_of(chars.take(i as int)),
            decreases self.char_units@.len() - i,
        {
            let unit = &self.char_units[i];
            match &unit.hangul {
                Some(hangul) => hangul.append_disassembled(&mut result),
                None => push_char(&mut result, unit.original),
            }
            proof {
                lemma_disassembly_of_snoc(chars.take(i as int), chars[i as int]);
                assert(chars.take(i + 1) =~= chars.take(i as int).push(chars[i as int]));
                assert(result@ =~= disassembly_of(chars.take(i + 1)));
            }
            i += 1;
        }
        proof {
            assert(chars.take(chars.len() as int) =~= chars);
        }
        result
    }

    /// Walks the units and concatenates each one's leading-consonant
    /// character, or the original character where no letter was
    /// recognized.
    fn choseong_uncached(&self) -> (r: String)
        requires
            forall|i: int| 0 <= i < self.char_units@.len() ==> unit_wf(#[trigger] self.char_units@[i]),
        ensures
            r@ == choseong_of(units_chars(self.char_units@)),
    {
        let ghost chars = units_chars(self.char_units@);
        if self.char_units.is_empty() {
            return String::new();
        }
        let mut result = String::new();
        let mut i: usize = 0;
        while i < self.char_units.len()
            invariant
                i <= self.char_units@.len(),
                chars == units_chars(self.char_units@),
                forall|k: int|
                    0 <= k < self.char_units@.len() ==> unit_wf(#[trigger] self.char_units@[k]),
                result@ == choseong_of(chars.take(i as int)),
            decreases self.char_units@.len() - i,
        {
            let unit = &self.char_units[i];
            match &unit.hangul {
                Some(hangul) => push_char(&mut result, hangul.choseong.compatibility_value),
                None => push_char(&mut result, unit.original),
            }
            proof {
                lemma_choseong_of_snoc(chars.take(i as int), chars[i as int]);
                assert(chars.take(i + 1) =~= chars.take(i as int).push(chars[i as int]));
                assert(result@ =~= choseong_of(chars.take(i + 1)));
            }
            i += 1;
        }
        proof {
            assert(chars.take(chars.len() as int) =~= chars);
        }
        result
    }
}

} // verus!
