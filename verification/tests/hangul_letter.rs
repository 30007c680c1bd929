use hangul::HangulLetter;

#[test]
fn test_parse_nfc_hangul() {
    let hangul = HangulLetter::parse("가").unwrap();
    assert_eq!(hangul.value_string(), "가");
    assert_eq!(hangul.unicode_codes(), &[0xAC00]);
    assert_eq!(hangul.choseong.compatibility_value, 'ㄱ');
    assert_eq!(hangul.jungseong.compatibility_value, 'ㅏ');
    assert!(hangul.jongseong.is_none());

    let hangul = HangulLetter::parse("한").unwrap();
    assert_eq!(hangul.value_string(), "한");
    assert_eq!(hangul.unicode_codes(), &[0xD55C]);
    assert_eq!(hangul.choseong.compatibility_value, 'ㅎ');
    assert_eq!(hangul.jungseong.compatibility_value, 'ㅏ');
    assert_eq!(hangul.jongseong.unwrap().compatibility_value, 'ㄴ');

    let hangul = HangulLetter::parse("쌍").unwrap();
    assert_eq!(hangul.value_string(), "쌍");
    assert_eq!(hangul.choseong.compatibility_value, 'ㅆ');
    assert_eq!(hangul.jungseong.compatibility_value, 'ㅏ');
    assert_eq!(hangul.jongseong.unwrap().compatibility_value, 'ㅇ');

    let hangul = HangulLetter::parse("귀").unwrap();
    assert_eq!(hangul.value_string(), "귀");
    assert_eq!(hangul.choseong.compatibility_value, 'ㄱ');
    assert_eq!(hangul.jungseong.compatibility_value, 'ㅟ');
    assert!(hangul.jongseong.is_none());

    let hangul = HangulLetter::parse("값").unwrap();
    assert_eq!(hangul.value_string(), "값");
    assert_eq!(hangul.choseong.compatibility_value, 'ㄱ');
    assert_eq!(hangul.jungseong.compatibility_value, 'ㅏ');
    assert_eq!(hangul.jongseong.unwrap().compatibility_value, 'ㅄ');
}

#[test]
fn test_parse_nfd_hangul() {
    let nfd_ga = "\u{1100}\u{1161}";
    let hangul = HangulLetter::parse(nfd_ga).unwrap();
    assert_eq!(hangul.value_string(), nfd_ga);
    assert_eq!(hangul.unicode_codes(), &[0x1100, 0x1161]);
    assert_eq!(hangul.choseong.compatibility_value, 'ㄱ');
    assert_eq!(hangul.jungseong.compatibility_value, 'ㅏ');
    assert!(hangul.jongseong.is_none());

    let nfd_han = "\u{1112}\u{1161}\u{11AB}";
    let hangul = HangulLetter::parse(nfd_han).unwrap();
    assert_eq!(hangul.value_string(), nfd_han);
    assert_eq!(hangul.unicode_codes(), &[0x1112, 0x1161, 0x11AB]);
    assert_eq!(hangul.choseong.compatibility_value, 'ㅎ');
    assert_eq!(hangul.jungseong.compatibility_value, 'ㅏ');
    assert_eq!(hangul.jongseong.unwrap().compatibility_value, 'ㄴ');
}

#[test]
fn test_parse_from_char() {
    let hangul = HangulLetter::parse_from_char('한').unwrap();
    assert_eq!(hangul.value_string(), "한");
    assert_eq!(hangul.unicode_codes(), &[0xD55C]);

    assert!(HangulLetter::parse_from_char('a').is_none());
    assert!(HangulLetter::parse_from_char('ㄱ').is_none());
    assert!(HangulLetter::parse_from_char('!').is_none());
}

#[test]
fn hangul_letter_test_disassemble() {
    let hangul = HangulLetter::parse("가").unwrap();
    assert_eq!(hangul.disassemble(), "ㄱㅏ");

    let hangul = HangulLetter::parse("한").unwrap();
    assert_eq!(hangul.disassemble(), "ㅎㅏㄴ");

    let hangul = HangulLetter::parse("의").unwrap();
    assert_eq!(hangul.disassemble(), "ㅇㅢ");

    let hangul = HangulLetter::parse("값").unwrap();
    assert_eq!(hangul.disassemble(), "ㄱㅏㅂㅅ");
}

#[test]
fn test_has_batchim() {
    assert!(HangulLetter::parse("한").unwrap().has_batchim());
    assert!(HangulLetter::parse("값").unwrap().has_batchim());

    assert!(!HangulLetter::parse("가").unwrap().has_batchim());
    assert!(!HangulLetter::parse("뉘").unwrap().has_batchim());
}

#[test]
fn test_invalid_input() {
    assert!(HangulLetter::parse("a").is_none());
    assert!(HangulLetter::parse("ㄱ").is_none());
    assert!(HangulLetter::parse("ㅏ").is_none());
    assert!(HangulLetter::parse("ᄀᄀ").is_none());
    assert!(HangulLetter::parse("ᅡᅡ").is_none());
    assert!(HangulLetter::parse("ᄀᆫ").is_none());
    assert!(HangulLetter::parse("").is_none());
    assert!(HangulLetter::parse("!").is_none());
    assert!(HangulLetter::parse("가나").is_none());
}

#[test]
fn test_value_nfc_and_value_chars() {
    let nfc = HangulLetter::parse("한").unwrap();
    assert_eq!(nfc.value_nfc(), Some('한'));
    assert_eq!(nfc.value_chars(), &['한']);

    let nfd = HangulLetter::parse("\u{1112}\u{1161}\u{11AB}").unwrap();
    assert_eq!(nfd.value_nfc(), None);
    assert_eq!(nfd.value_chars(), &['\u{1112}', '\u{1161}', '\u{11AB}']);
}

#[test]
fn test_disassembly_lengths() {
    // Two characters without a trailing consonant, three with a simple
    // one, four with a composite cluster.
    let open_syllable = HangulLetter::parse_from_char('가').unwrap();
    assert_eq!(open_syllable.disassemble().chars().count(), 2);

    let simple = HangulLetter::parse_from_char('한').unwrap();
    assert_eq!(simple.disassemble().chars().count(), 3);

    let composite = HangulLetter::parse_from_char('값').unwrap();
    assert_eq!(composite.disassemble().chars().count(), 4);
}

#[test]
fn test_all_trailing_consonants() {
    // One closed syllable per trailing consonant: the codepoint is
    // 0xAC00 + t for trailing index t, leading ㄱ and vowel ㅏ. The
    // eleven composite clusters disassemble into two characters.
    let splits = [
        "ㄱ", "ㄲ", "ㄱㅅ", "ㄴ", "ㄴㅈ", "ㄴㅎ", "ㄷ", "ㄹ", "ㄹㄱ", "ㄹㅁ", "ㄹㅂ", "ㄹㅅ",
        "ㄹㅌ", "ㄹㅍ", "ㄹㅎ", "ㅁ", "ㅂ", "ㅂㅅ", "ㅅ", "ㅆ", "ㅇ", "ㅈ", "ㅊ", "ㅋ", "ㅌ",
        "ㅍ", "ㅎ",
    ];
    for (i, split) in splits.iter().enumerate() {
        let ch = char::from_u32(0xAC00 + 1 + i as u32).unwrap();
        let letter = HangulLetter::parse_from_char(ch).unwrap();
        assert!(letter.has_batchim());
        assert_eq!(letter.disassemble(), format!("ㄱㅏ{}", split));
    }
}
