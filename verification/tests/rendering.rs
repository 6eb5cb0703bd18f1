//! Tests of the catalog surface and the five rendering algorithms.

use numeral_systems::catalog::NumeralSystem;
use numeral_systems::renderers::additive;
use numeral_systems::renderers::alphabetic;
use numeral_systems::renderers::fixed;
use numeral_systems::renderers::numeric;
use numeral_systems::renderers::symbolic;
use numeral_systems::AdditiveEntry;

fn entry(symbol: &str, weight: u64) -> AdditiveEntry {
    AdditiveEntry { symbol: symbol.chars().collect(), weight }
}

#[test]
fn arabic_matches_decimal_formatting() {
    for n in 0u64..10000 {
        assert_eq!(NumeralSystem::Arabic.apply(n), n.to_string());
    }
    assert_eq!(NumeralSystem::Arabic.apply(u64::MAX), u64::MAX.to_string());
}

#[test]
fn bijective_enumeration_of_latin_letters() {
    let alphabet = "abcdefghijklmnopqrstuvwxyz";
    for (i, c) in alphabet.chars().enumerate() {
        assert_eq!(NumeralSystem::LowerLatin.apply(i as u64 + 1), c.to_string());
    }
    assert_eq!(NumeralSystem::LowerLatin.apply(27), "aa");
    assert_eq!(NumeralSystem::LowerLatin.apply(28), "ab");
    assert_eq!(NumeralSystem::LowerLatin.apply(702), "zz");
    assert_eq!(NumeralSystem::LowerLatin.apply(703), "aaa");
    assert_eq!(NumeralSystem::UpperLatin.apply(27), "AA");
    assert_eq!(NumeralSystem::LowerLatin.apply(0), "-");
}

#[test]
fn roman_canonical_forms() {
    assert_eq!(NumeralSystem::LowerRoman.apply(4), "iv");
    assert_eq!(NumeralSystem::LowerRoman.apply(9), "ix");
    assert_eq!(NumeralSystem::LowerRoman.apply(40), "xl");
    assert_eq!(NumeralSystem::LowerRoman.apply(0), "n");
    assert_eq!(NumeralSystem::LowerRoman.apply(1994), "mcmxciv");
    assert_eq!(NumeralSystem::UpperRoman.apply(1994), "MCMXCIV");
    assert_eq!(NumeralSystem::LowerRoman.apply(3), "iii");
    assert_eq!(NumeralSystem::LowerRoman.apply(8), "viii");
}

#[test]
fn symbol_cycling() {
    assert_eq!(NumeralSystem::Symbol.apply(1), "*");
    assert_eq!(NumeralSystem::Symbol.apply(6), "\u{2016}");
    assert_eq!(NumeralSystem::Symbol.apply(7), "**");
    assert_eq!(NumeralSystem::Symbol.apply(12), "\u{2016}\u{2016}");
    assert_eq!(NumeralSystem::Symbol.apply(13), "***");
    assert_eq!(NumeralSystem::Symbol.apply(0), "-");
}

#[test]
fn greek_numerals() {
    assert_eq!(NumeralSystem::LowerGreek.apply(0), "\u{1018A}");
    assert_eq!(NumeralSystem::LowerGreek.apply(1), "\u{3B1}");
    assert_eq!(NumeralSystem::LowerGreek.apply(1994), "\u{375}\u{3B1}\u{3E1}\u{3DF}\u{3B4}");
    assert_eq!(NumeralSystem::UpperGreek.apply(6), "\u{3DA}");
}

#[test]
fn circled_numbers_and_decimal_fallback() {
    assert_eq!(NumeralSystem::CircledNumber.apply(0), "\u{24EA}");
    assert_eq!(NumeralSystem::CircledNumber.apply(1), "\u{2460}");
    assert_eq!(NumeralSystem::CircledNumber.apply(50), "\u{32BF}");
    assert_eq!(NumeralSystem::CircledNumber.apply(51), "51");
    assert_eq!(NumeralSystem::DoubleCircledNumber.apply(0), "0");
    assert_eq!(NumeralSystem::DoubleCircledNumber.apply(1), "\u{24F5}");
    assert_eq!(NumeralSystem::DoubleCircledNumber.apply(10), "\u{24FE}");
    assert_eq!(NumeralSystem::DoubleCircledNumber.apply(11), "11");
}

#[test]
fn hebrew_uses_fifteen_and_sixteen_digraphs() {
    assert_eq!(NumeralSystem::Hebrew.apply(15), "\u{5D8}\u{5D5}");
    assert_eq!(NumeralSystem::Hebrew.apply(16), "\u{5D8}\u{5D6}");
    assert_eq!(NumeralSystem::Hebrew.apply(0), "-");
    assert_eq!(NumeralSystem::Hebrew.apply(499), "\u{5EA}\u{5E6}\u{5D8}");
}

#[test]
fn eastern_digit_systems() {
    assert_eq!(NumeralSystem::EasternArabic.apply(107), "\u{661}\u{660}\u{667}");
    assert_eq!(NumeralSystem::EasternArabicPersian.apply(45), "\u{6F4}\u{6F5}");
    assert_eq!(NumeralSystem::DevanagariNumber.apply(90), "\u{96F}\u{966}");
    assert_eq!(NumeralSystem::BengaliNumber.apply(12), "\u{9E7}\u{9E8}");
}

#[test]
fn japanese_and_korean_alphabetic_systems() {
    assert_eq!(NumeralSystem::HiraganaAiueo.apply(1), "あ");
    assert_eq!(NumeralSystem::HiraganaIroha.apply(1), "い");
    assert_eq!(NumeralSystem::KatakanaAiueo.apply(47), "アア");
    assert_eq!(NumeralSystem::KoreanJamo.apply(14), "ㅎ");
    assert_eq!(NumeralSystem::KoreanJamo.apply(15), "ㄱㄱ");
    assert_eq!(NumeralSystem::KoreanSyllable.apply(2), "나");
    assert_eq!(NumeralSystem::BengaliLetter.apply(33), "কক");
}

#[test]
fn chinese_delegation() {
    assert_eq!(NumeralSystem::LowerSimplifiedChinese.apply(123), "一百二十三");
    assert_eq!(NumeralSystem::LowerTraditionalChinese.apply(123), "一百二十三");
    assert_eq!(NumeralSystem::UpperSimplifiedChinese.apply(123), "壹佰贰拾叁");
    assert_eq!(NumeralSystem::UpperTraditionalChinese.apply(123), "壹佰貳拾參");
    assert_eq!(NumeralSystem::LowerSimplifiedChinese.apply(0), "零");
    assert_eq!(NumeralSystem::LowerSimplifiedChinese.apply(10), "十");
}

#[test]
fn numeric_ternary_example() {
    let digits: Vec<char> = vec!['0', '1', '2'];
    let expect = ["0", "1", "2", "10", "11", "12", "20"];
    for (n, e) in expect.iter().enumerate() {
        assert_eq!(numeric(&digits, n as u64), *e);
    }
}

#[test]
fn alphabetic_three_symbol_example() {
    let symbols: Vec<char> = vec!['A', 'B', 'C'];
    let expect = ["-", "A", "B", "C", "AA", "AB", "AC", "BA"];
    for (n, e) in expect.iter().enumerate() {
        assert_eq!(alphabetic(&symbols, n as u64), *e);
    }
}

#[test]
fn alphabetic_single_symbol_is_unary() {
    let symbols: Vec<char> = vec!['|'];
    assert_eq!(alphabetic(&symbols, 1), "|");
    assert_eq!(alphabetic(&symbols, 4), "||||");
}

#[test]
fn symbolic_three_symbol_example() {
    let symbols: Vec<char> = vec!['A', 'B', 'C'];
    let expect = ["-", "A", "B", "C", "AA", "BB", "CC", "AAA"];
    for (n, e) in expect.iter().enumerate() {
        assert_eq!(symbolic(&symbols, n as u64), *e);
    }
}

#[test]
fn fixed_four_symbol_example() {
    let symbols: Vec<char> = vec!['0', 'A', 'B', 'C'];
    let expect = ["0", "A", "B", "C", "4", "5"];
    for (n, e) in expect.iter().enumerate() {
        assert_eq!(fixed(&symbols, n as u64), *e);
    }
}

#[test]
fn additive_five_four_one_example() {
    let entries = vec![entry("V", 5), entry("IV", 4), entry("I", 1)];
    let expect = ["I", "II", "III", "IV", "V", "VI", "VII", "VIII"];
    for (i, e) in expect.iter().enumerate() {
        assert_eq!(additive(&entries, i as u64 + 1), *e);
    }
}

#[test]
fn additive_zero_without_zero_entry_falls_back() {
    let entries = vec![entry("I", 1)];
    assert_eq!(additive(&entries, 0), "0");
}

#[test]
fn additive_incomplete_list_truncates_silently() {
    let entries = vec![entry("V", 5)];
    assert_eq!(additive(&entries, 7), "V");
}
