//! The catalog of predefined numeral systems: each named system pairs one
//! of the five rendering algorithms with its static symbol table, or
//! delegates to the Chinese-numeral converter.

use vstd::prelude::*;
use crate::chinese::chinese_numeral;
use crate::chinese::chinese_ten_thousand;
use crate::digits::positional_model;
use crate::renderers::additive;
use crate::renderers::additive_total_model;
use crate::renderers::alphabetic;
use crate::renderers::alphabetic_total_model;
use crate::renderers::fixed;
use crate::renderers::fixed_total_model;
use crate::renderers::numeric;
use crate::renderers::symbolic;
use crate::renderers::symbolic_total_model;
use crate::system::additive_view;
use crate::system::AdditiveEntry;
use crate::system::ChineseCase;
use crate::system::ChineseVariant;

verus! {

/// Predefined numeral systems in use around the world.
#[non_exhaustive]
#[derive(Debug, PartialEq, Eq, Clone, Copy, Hash)]
pub enum NumeralSystem {
    /// Base-ten Arabic numerals.
    Arabic,
    /// Lowercase Latin letters: a, b, c, ..., z, aa, ab, ...
    LowerLatin,
    /// Uppercase Latin letters: A, B, C, ..., Z, AA, AB, ...
    UpperLatin,
    /// Lowercase Roman numerals.
    LowerRoman,
    /// Uppercase Roman numerals.
    UpperRoman,
    /// Lowercase Greek numerals.
    LowerGreek,
    /// Uppercase Greek numerals.
    UpperGreek,
    /// Note-like symbols, repeated for larger values.
    Symbol,
    /// Hebrew numerals, including Geresh/Gershayim forms.
    Hebrew,
    /// Simplified Chinese standard numerals.
    LowerSimplifiedChinese,
    /// Simplified Chinese banknote numerals.
    UpperSimplifiedChinese,
    /// Traditional Chinese standard numerals.
    LowerTraditionalChinese,
    /// Traditional Chinese banknote numerals.
    UpperTraditionalChinese,
    /// Hiragana in dictionary order.
    HiraganaAiueo,
    /// Hiragana in the iroha order.
    HiraganaIroha,
    /// Katakana in dictionary order.
    KatakanaAiueo,
    /// Katakana in the iroha order.
    KatakanaIroha,
    /// Korean jamo.
    KoreanJamo,
    /// Korean syllables.
    KoreanSyllable,
    /// Eastern Arabic numerals.
    EasternArabic,
    /// Persian and Urdu variant of Eastern Arabic numerals.
    EasternArabicPersian,
    /// Devanagari numerals.
    DevanagariNumber,
    /// Bengali numerals.
    BengaliNumber,
    /// Bengali letters.
    BengaliLetter,
    /// Circled numbers up to fifty.
    CircledNumber,
    /// Double-circled numbers up to ten.
    DoubleCircledNumber,
}

/// The ten Western Arabic digits.
pub open spec fn arabic_table() -> Seq<char> {
    seq![
        '0', '1', '2', '3', '4', '5', '6', '7', '8', '9'
    ]
}

/// The lowercase Latin alphabet.
pub open spec fn latin_lower_table() -> Seq<char> {
    seq![
        'a', 'b', 'c', 'd', 'e', 'f', 'g', 'h', 'i', 'j', 'k', 'l', 'm', 'n', 'o', 'p', 'q',
        'r', 's', 't', 'u', 'v', 'w', 'x', 'y', 'z'
    ]
}

/// The uppercase Latin alphabet.
pub open spec fn latin_upper_table() -> Seq<char> {
    seq![
        'A', 'B', 'C', 'D', 'E', 'F', 'G', 'H', 'I', 'J', 'K', 'L', 'M', 'N', 'O', 'P', 'Q',
        'R', 'S', 'T', 'U', 'V', 'W', 'X', 'Y', 'Z'
    ]
}

/// The lowercase Roman numeral list, subtractive pairs included, with a zero numeral last.
pub open spec fn roman_lower_list() -> Seq<(Seq<char>, u64)> {
    seq![
        (seq!['m', '\u{305}'], 1000000u64),
        (seq!['d', '\u{305}'], 500000u64),
        (seq!['c', '\u{305}'], 100000u64),
        (seq!['l', '\u{305}'], 50000u64),
        (seq!['x', '\u{305}'], 10000u64),
        (seq!['v', '\u{305}'], 5000u64),
        (seq!['i', '\u{305}', 'v', '\u{305}'], 4000u64),
        (seq!['m'], 1000u64),
        (seq!['c', 'm'], 900u64),
        (seq!['d'], 500u64),
        (seq!['c', 'd'], 400u64),
        (seq!['c'], 100u64),
        (seq!['x', 'c'], 90u64),
        (seq!['l'], 50u64),
        (seq!['x', 'l'], 40u64),
        (seq!['x'], 10u64),
        (seq!['i', 'x'], 9u64),
        (seq!['v'], 5u64),
        (seq!['i', 'v'], 4u64),
        (seq!['i'], 1u64),
        (seq!['n'], 0u64),
    ]
}

/// The uppercase Roman numeral list, subtractive pairs included, with a zero numeral last.
pub open spec fn roman_upper_list() -> Seq<(Seq<char>, u64)> {
    seq![
        (seq!['M', '\u{305}'], 1000000u64),
        (seq!['D', '\u{305}'], 500000u64),
        (seq!['C', '\u{305}'], 100000u64),
        (seq!['L', '\u{305}'], 50000u64),
        (seq!['X', '\u{305}'], 10000u64),
        (seq!['V', '\u{305}'], 5000u64),
        (seq!['I', '\u{305}', 'V', '\u{305}'], 4000u64),
        (seq!['M'], 1000u64),
        (seq!['C', 'M'], 900u64),
        (seq!['D'], 500u64),
        (seq!['C', 'D'], 400u64),
        (seq!['C'], 100u64),
        (seq!['X', 'C'], 90u64),
        (seq!['L'], 50u64),
        (seq!['X', 'L'], 40u64),
        (seq!['X'], 10u64),
        (seq!['I', 'X'], 9u64),
        (seq!['V'], 5u64),
        (seq!['I', 'V'], 4u64),
        (seq!['I'], 1u64),
        (seq!['N'], 0u64),
    ]
}

/// The lowercase Greek numeral list, with a zero numeral last.
pub open spec fn greek_lower_list() -> Seq<(Seq<char>, u64)> {
    seq![
        (seq!['͵', 'θ'], 9000u64),
        (seq!['͵', 'η'], 8000u64),
        (seq!['͵', 'ζ'], 7000u64),
        (seq!['͵', 'ϛ'], 6000u64),
        (seq!['͵', 'ε'], 5000u64),
        (seq!['͵', 'δ'], 4000u64),
        (seq!['͵', 'γ'], 3000u64),
        (seq!['͵', 'β'], 2000u64),
        (seq!['͵', 'α'], 1000u64),
        (seq!['ϡ'], 900u64),
        (seq!['ω'], 800u64),
        (seq!['ψ'], 700u64),
        (seq!['χ'], 600u64),
        (seq!['φ'], 500u64),
        (seq!['υ'], 400u64),
        (seq!['τ'], 300u64),
        (seq!['σ'], 200u64),
        (seq!['ρ'], 100u64),
        (seq!['ϟ'], 90u64),
        (seq!['π'], 80u64),
        (seq!['ο'], 70u64),
        (seq!['ξ'], 60u64),
        (seq!['ν'], 50u64),
        (seq!['μ'], 40u64),
        (seq!['λ'], 30u64),
        (seq!['κ'], 20u64),
        (seq!['ι'], 10u64),
        (seq!['θ'], 9u64),
        (seq!['η'], 8u64),
        (seq!['ζ'], 7u64),
        (seq!['ϛ'], 6u64),
        (seq!['ε'], 5u64),
        (seq!['δ'], 4u64),
        (seq!['γ'], 3u64),
        (seq!['β'], 2u64),
        (seq!['α'], 1u64),
        (seq!['𐆊'], 0u64),
    ]
}

/// The uppercase Greek numeral list, with a zero numeral last.
pub open spec fn greek_upper_list() -> Seq<(Seq<char>, u64)> {
    seq![
        (seq!['͵', 'Θ'], 9000u64),
        (seq!['͵', 'Η'], 8000u64),
        (seq!['͵', 'Ζ'], 7000u64),
        (seq!['͵', 'Ϛ'], 6000u64),
        (seq!['͵', 'Ε'], 5000u64),
        (seq!['͵', 'Δ'], 4000u64),
        (seq!['͵', 'Γ'], 3000u64),
        (seq!['͵', 'Β'], 2000u64),
        (seq!['͵', 'Α'], 1000u64),
        (seq!['Ϡ'], 900u64),
        (seq!['Ω'], 800u64),
        (seq!['Ψ'], 700u64),
        (seq!['Χ'], 600u64),
        (seq!['Φ'], 500u64),
        (seq!['Υ'], 400u64),
        (seq!['Τ'], 300u64),
        (seq!['Σ'], 200u64),
        (seq!['Ρ'], 100u64),
        (seq!['Ϟ'], 90u64),
        (seq!['Π'], 80u64),
        (seq!['Ο'], 70u64),
        (seq!['Ξ'], 60u64),
        (seq!['Ν'], 50u64),
        (seq!['Μ'], 40u64),
        (seq!['Λ'], 30u64),
        (seq!['Κ'], 20u64),
        (seq!['Ι'], 10u64),
        (seq!['Θ'], 9u64),
        (seq!['Η'], 8u64),
        (seq!['Ζ'], 7u64),
        (seq!['Ϛ'], 6u64),
        (seq!['Ε'], 5u64),
        (seq!['Δ'], 4u64),
        (seq!['Γ'], 3u64),
        (seq!['Β'], 2u64),
        (seq!['Α'], 1u64),
        (seq!['𐆊'], 0u64),
    ]
}

/// The six note-reference symbols.
pub open spec fn symbol_table() -> Seq<char> {
    seq![
        '*', '†', '‡', '§', '¶', '‖'
    ]
}

/// The Hebrew numeral list, with the 15 and 16 digraphs, and a zero numeral last.
pub open spec fn hebrew_list() -> Seq<(Seq<char>, u64)> {
    seq![
        (seq!['ת'], 400u64),
        (seq!['ש'], 300u64),
        (seq!['ר'], 200u64),
        (seq!['ק'], 100u64),
        (seq!['צ'], 90u64),
        (seq!['פ'], 80u64),
        (seq!['ע'], 70u64),
        (seq!['ס'], 60u64),
        (seq!['נ'], 50u64),
        (seq!['מ'], 40u64),
        (seq!['ל'], 30u64),
        (seq!['כ'], 20u64),
        (seq!['י', 'ט'], 19u64),
        (seq!['י', 'ח'], 18u64),
        (seq!['י', 'ז'], 17u64),
        (seq!['ט', 'ז'], 16u64),
        (seq!['ט', 'ו'], 15u64),
        (seq!['י'], 10u64),
        (seq!['ט'], 9u64),
        (seq!['ח'], 8u64),
        (seq!['ז'], 7u64),
        (seq!['ו'], 6u64),
        (seq!['ה'], 5u64),
        (seq!['ד'], 4u64),
        (seq!['ג'], 3u64),
        (seq!['ב'], 2u64),
        (seq!['א'], 1u64),
        (seq!['-'], 0u64),
    ]
}

/// Hiragana in dictionary order, with n but without wi and we.
pub open spec fn hiragana_aiueo_table() -> Seq<char> {
    seq![
        'あ', 'い', 'う', 'え', 'お', 'か', 'き', 'く', 'け', 'こ', 'さ', 'し', 'す', 'せ', 'そ', 'た', 'ち',
        'つ', 'て', 'と', 'な', 'に', 'ぬ', 'ね', 'の', 'は', 'ひ', 'ふ', 'へ', 'ほ', 'ま', 'み', 'む', 'め',
        'も', 'や', 'ゆ', 'よ', 'ら', 'り', 'る', 'れ', 'ろ', 'わ', 'を', 'ん'
    ]
}

/// Hiragana in the iroha order, with wi and we but without n.
pub open spec fn hiragana_iroha_table() -> Seq<char> {
    seq![
        'い', 'ろ', 'は', 'に', 'ほ', 'へ', 'と', 'ち', 'り', 'ぬ', 'る', 'を', 'わ', 'か', 'よ', 'た', 'れ',
        'そ', 'つ', 'ね', 'な', 'ら', 'む', 'う', 'ゐ', 'の', 'お', 'く', 'や', 'ま', 'け', 'ふ', 'こ', 'え',
        'て', 'あ', 'さ', 'き', 'ゆ', 'め', 'み', 'し', 'ゑ', 'ひ', 'も', 'せ', 'す'
    ]
}

/// Katakana in dictionary order, with n but without wi and we.
pub open spec fn katakana_aiueo_table() -> Seq<char> {
    seq![
        'ア', 'イ', 'ウ', 'エ', 'オ', 'カ', 'キ', 'ク', 'ケ', 'コ', 'サ', 'シ', 'ス', 'セ', 'ソ', 'タ', 'チ',
        'ツ', 'テ', 'ト', 'ナ', 'ニ', 'ヌ', 'ネ', 'ノ', 'ハ', 'ヒ', 'フ', 'ヘ', 'ホ', 'マ', 'ミ', 'ム', 'メ',
        'モ', 'ヤ', 'ユ', 'ヨ', 'ラ', 'リ', 'ル', 'レ', 'ロ', 'ワ', 'ヲ', 'ン'
    ]
}

/// Katakana in the iroha order, with wi and we but without n.
pub open spec fn katakana_iroha_table() -> Seq<char> {
    seq![
        'イ', 'ロ', 'ハ', 'ニ', 'ホ', 'ヘ', 'ト', 'チ', 'リ', 'ヌ', 'ル', 'ヲ', 'ワ', 'カ', 'ヨ', 'タ', 'レ',
        'ソ', 'ツ', 'ネ', 'ナ', 'ラ', 'ム', 'ウ', 'ヰ', 'ノ', 'オ', 'ク', 'ヤ', 'マ', 'ケ', 'フ', 'コ', 'エ',
        'テ', 'ア', 'サ', 'キ', 'ユ', 'メ', 'ミ', 'シ', 'ヱ', 'ヒ', 'モ', 'セ', 'ス'
    ]
}

/// The fourteen basic Korean consonant jamo.
pub open spec fn korean_jamo_table() -> Seq<char> {
    seq![
        'ㄱ', 'ㄴ', 'ㄷ', 'ㄹ', 'ㅁ', 'ㅂ', 'ㅅ', 'ㅇ', 'ㅈ', 'ㅊ', 'ㅋ', 'ㅌ', 'ㅍ', 'ㅎ'
    ]
}

/// Korean syllables over the fourteen basic consonants.
pub open spec fn korean_syllable_table() -> Seq<char> {
    seq![
        '가', '나', '다', '라', '마', '바', '사', '아', '자', '차', '카', '타', '파', '하'
    ]
}

/// The Eastern Arabic digits.
pub open spec fn eastern_arabic_table() -> Seq<char> {
    seq![
        '٠', '١', '٢', '٣', '٤', '٥', '٦', '٧', '٨', '٩'
    ]
}

/// The Eastern Arabic digits as written in Persian and Urdu.
pub open spec fn persian_table() -> Seq<char> {
    seq![
        '۰', '۱', '۲', '۳', '۴', '۵', '۶', '۷', '۸', '۹'
    ]
}

/// The Devanagari digits.
pub open spec fn devanagari_table() -> Seq<char> {
    seq![
        '०', '१', '२', '३', '४', '५', '६', '७', '८', '९'
    ]
}

/// The Bengali digits.
pub open spec fn bengali_number_table() -> Seq<char> {
    seq![
        '০', '১', '২', '৩', '৪', '৫', '৬', '৭', '৮', '৯'
    ]
}

/// The Bengali consonant letters.
pub open spec fn bengali_letter_table() -> Seq<char> {
    seq![
        'ক', 'খ', 'গ', 'ঘ', 'ঙ', 'চ', 'ছ', 'জ', 'ঝ', 'ঞ', 'ট', 'ঠ', 'ড', 'ঢ', 'ণ', 'ত', 'থ',
        'দ', 'ধ', 'ন', 'প', 'ফ', 'ব', 'ভ', 'ম', 'য', 'র', 'ল', 'শ', 'ষ', 'স', 'হ'
    ]
}

/// Circled numbers from zero to fifty.
pub open spec fn circled_table() -> Seq<char> {
    seq![
        '⓪', '①', '②', '③', '④', '⑤', '⑥', '⑦', '⑧', '⑨', '⑩', '⑪', '⑫', '⑬', '⑭', '⑮', '⑯',
        '⑰', '⑱', '⑲', '⑳', '㉑', '㉒', '㉓', '㉔', '㉕', '㉖', '㉗', '㉘', '㉙', '㉚', '㉛', '㉜', '㉝',
        '㉞', '㉟', '㊱', '㊲', '㊳', '㊴', '㊵', '㊶', '㊷', '㊸', '㊹', '㊺', '㊻', '㊼', '㊽', '㊾', '㊿'
    ]
}

/// The digit zero and the double-circled numbers one to ten.
pub open spec fn double_circled_table() -> Seq<char> {
    seq![
        '0', '⓵', '⓶', '⓷', '⓸', '⓹', '⓺', '⓻', '⓼', '⓽', '⓾'
    ]
}

impl NumeralSystem {
    /// What [`Self::apply`] returns: the rendering of `n` by this
    /// system's algorithm over its table, falling back to a dash or to
    /// decimal notation for values outside the algorithm's domain.
    pub open spec fn apply_model(self, n: u64) -> Seq<char> {
        match self {
            NumeralSystem::Arabic => positional_model(arabic_table(), n as nat),
            NumeralSystem::LowerLatin => alphabetic_total_model(latin_lower_table(), n as nat),
            NumeralSystem::UpperLatin => alphabetic_total_model(latin_upper_table(), n as nat),
            NumeralSystem::LowerRoman => additive_total_model(roman_lower_list(), n as nat),
            NumeralSystem::UpperRoman => additive_total_model(roman_upper_list(), n as nat),
            NumeralSystem::LowerGreek => additive_total_model(greek_lower_list(), n as nat),
            NumeralSystem::UpperGreek => additive_total_model(greek_upper_list(), n as nat),
            NumeralSystem::Symbol => symbolic_total_model(symbol_table(), n as nat),
            NumeralSystem::Hebrew => additive_total_model(hebrew_list(), n as nat),
            NumeralSystem::LowerSimplifiedChinese => chinese_numeral(false, false, n),
            NumeralSystem::UpperSimplifiedChinese => chinese_numeral(false, true, n),
            NumeralSystem::LowerTraditionalChinese => chinese_numeral(true, false, n),
            NumeralSystem::UpperTraditionalChinese => chinese_numeral(true, true, n),
            NumeralSystem::HiraganaAiueo => alphabetic_total_model(hiragana_aiueo_table(), n as nat),
            NumeralSystem::HiraganaIroha => alphabetic_total_model(hiragana_iroha_table(), n as nat),
            NumeralSystem::KatakanaAiueo => alphabetic_total_model(katakana_aiueo_table(), n as nat),
            NumeralSystem::KatakanaIroha => alphabetic_total_model(katakana_iroha_table(), n as nat),
            NumeralSystem::KoreanJamo => alphabetic_total_model(korean_jamo_table(), n as nat),
            NumeralSystem::KoreanSyllable => alphabetic_total_model(korean_syllable_table(), n as nat),
            NumeralSystem::EasternArabic => positional_model(eastern_arabic_table(), n as nat),
            NumeralSystem::EasternArabicPersian => positional_model(persian_table(), n as nat),
            NumeralSystem::DevanagariNumber => positional_model(devanagari_table(), n as nat),
            NumeralSystem::BengaliNumber => positional_model(bengali_number_table(), n as nat),
            NumeralSystem::BengaliLetter => alphabetic_total_model(bengali_letter_table(), n as nat),
            NumeralSystem::CircledNumber => fixed_total_model(circled_table(), n as nat),
            NumeralSystem::DoubleCircledNumber => fixed_total_model(double_circled_table(), n as nat),
        }
    }

    /// Represents the non-negative integer `n` with this numeral
    /// system.
    pub fn apply(self, n: u64) -> (r: String)
        ensures
            r@ == self.apply_model(n),
    {
        match self {
            NumeralSystem::Arabic => {
                let t: Vec<char> = vec![
                    '0', '1', '2', '3', '4', '5', '6', '7', '8', '9'
                ];
                proof {
                    assert(t@ =~= arabic_table());
                }
                numeric(&t, n)
            },
            NumeralSystem::LowerLatin => {
                let t: Vec<char> = vec![
                    'a', 'b', 'c', 'd', 'e', 'f', 'g', 'h', 'i', 'j', 'k', 'l', 'm', 'n', 'o',
                    'p', 'q', 'r', 's', 't', 'u', 'v', 'w', 'x', 'y', 'z'
                ];
                proof {
                    assert(t@ =~= latin_lower_table());
                }
                alphabetic(&t, n)
            },
            NumeralSystem::UpperLatin => {
                let t: Vec<char> = vec![
                    'A', 'B', 'C', 'D', 'E', 'F', 'G', 'H', 'I', 'J', 'K', 'L', 'M', 'N', 'O',
                    'P', 'Q', 'R', 'S', 'T', 'U', 'V', 'W', 'X', 'Y', 'Z'
                ];
                proof {
                    assert(t@ =~= latin_upper_table());
                }
                alphabetic(&t, n)
            },
            NumeralSystem::LowerRoman => {
                let entries: Vec<AdditiveEntry> = vec![
                    AdditiveEntry { symbol: vec!['m', '\u{305}'], weight: 1000000 },
                    AdditiveEntry { symbol: vec!['d', '\u{305}'], weight: 500000 },
                    AdditiveEntry { symbol: vec!['c', '\u{305}'], weight: 100000 },
                    AdditiveEntry { symbol: vec!['l', '\u{305}'], weight: 50000 },
                    AdditiveEntry { symbol: vec!['x', '\u{305}'], weight: 10000 },
                    AdditiveEntry { symbol: vec!['v', '\u{305}'], weight: 5000 },
                    AdditiveEntry { symbol: vec!['i', '\u{305}', 'v', '\u{305}'], weight: 4000 },
                    AdditiveEntry { symbol: vec!['m'], weight: 1000 },
                    AdditiveEntry { symbol: vec!['c', 'm'], weight: 900 },
                    AdditiveEntry { symbol: vec!['d'], weight: 500 },
                    AdditiveEntry { symbol: vec!['c', 'd'], weight: 400 },
                    AdditiveEntry { symbol: vec!['c'], weight: 100 },
                    AdditiveEntry { symbol: vec!['x', 'c'], weight: 90 },
                    AdditiveEntry { symbol: vec!['l'], weight: 50 },
                    AdditiveEntry { symbol: vec!['x', 'l'], weight: 40 },
                    AdditiveEntry { symbol: vec!['x'], weight: 10 },
                    AdditiveEntry { symbol: vec!['i', 'x'], weight: 9 },
                    AdditiveEntry { symbol: vec!['v'], weight: 5 },
                    AdditiveEntry { symbol: vec!['i', 'v'], weight: 4 },
                    AdditiveEntry { symbol: vec!['i'], weight: 1 },
                    AdditiveEntry { symbol: vec!['n'], weight: 0 },
                ];
                proof {
                    assert(additive_view(entries@) =~~= roman_lower_list());
                }
                additive(&entries, n)
            },
            NumeralSystem::UpperRoman => {
                let entries: Vec<AdditiveEntry> = vec![
                    AdditiveEntry { symbol: vec!['M', '\u{305}'], weight: 1000000 },
                    AdditiveEntry { symbol: vec!['D', '\u{305}'], weight: 500000 },
                    AdditiveEntry { symbol: vec!['C', '\u{305}'], weight: 100000 },
                    AdditiveEntry { symbol: vec!['L', '\u{305}'], weight: 50000 },
                    AdditiveEntry { symbol: vec!['X', '\u{305}'], weight: 10000 },
                    AdditiveEntry { symbol: vec!['V', '\u{305}'], weight: 5000 },
                    AdditiveEntry { symbol: vec!['I', '\u{305}', 'V', '\u{305}'], weight: 4000 },
                    AdditiveEntry { symbol: vec!['M'], weight: 1000 },
                    AdditiveEntry { symbol: vec!['C', 'M'], weight: 900 },
                    AdditiveEntry { symbol: vec!['D'], weight: 500 },
                    AdditiveEntry { symbol: vec!['C', 'D'], weight: 400 },
                    AdditiveEntry { symbol: vec!['C'], weight: 100 },
                    AdditiveEntry { symbol: vec!['X', 'C'], weight: 90 },
                    AdditiveEntry { symbol: vec!['L'], weight: 50 },
                    AdditiveEntry { symbol: vec!['X', 'L'], weight: 40 },
                    AdditiveEntry { symbol: vec!['X'], weight: 10 },
                    AdditiveEntry { symbol: vec!['I', 'X'], weight: 9 },
                    AdditiveEntry { symbol: vec!['V'], weight: 5 },
                    AdditiveEntry { symbol: vec!['I', 'V'], weight: 4 },
                    AdditiveEntry { symbol: vec!['I'], weight: 1 },
                    AdditiveEntry { symbol: vec!['N'], weight: 0 },
                ];
                proof {
                    assert(additive_view(entries@) =~~= roman_upper_list());
                }
                additive(&entries, n)
            },
            NumeralSystem::LowerGreek => {
                let entries: Vec<AdditiveEntry> = vec![
                    AdditiveEntry { symbol: vec!['͵', 'θ'], weight: 9000 },
                    AdditiveEntry { symbol: vec!['͵', 'η'], weight: 8000 },
                    AdditiveEntry { symbol: vec!['͵', 'ζ'], weight: 7000 },
                    AdditiveEntry { symbol: vec!['͵', 'ϛ'], weight: 6000 },
                    AdditiveEntry { symbol: vec!['͵', 'ε'], weight: 5000 },
                    AdditiveEntry { symbol: vec!['͵', 'δ'], weight: 4000 },
                    AdditiveEntry { symbol: vec!['͵', 'γ'], weight: 3000 },
                    AdditiveEntry { symbol: vec!['͵', 'β'], weight: 2000 },
                    AdditiveEntry { symbol: vec!['͵', 'α'], weight: 1000 },
                    AdditiveEntry { symbol: vec!['ϡ'], weight: 900 },
                    AdditiveEntry { symbol: vec!['ω'], weight: 800 },
                    AdditiveEntry { symbol: vec!['ψ'], weight: 700 },
                    AdditiveEntry { symbol: vec!['χ'], weight: 600 },
                    AdditiveEntry { symbol: vec!['φ'], weight: 500 },
                    AdditiveEntry { symbol: vec!['υ'], weight: 400 },
                    AdditiveEntry { symbol: vec!['τ'], weight: 300 },
                    AdditiveEntry { symbol: vec!['σ'], weight: 200 },
                    AdditiveEntry { symbol: vec!['ρ'], weight: 100 },
                    AdditiveEntry { symbol: vec!['ϟ'], weight: 90 },
                    AdditiveEntry { symbol: vec!['π'], weight: 80 },
                    AdditiveEntry { symbol: vec!['ο'], weight: 70 },
                    AdditiveEntry { symbol: vec!['ξ'], weight: 60 },
                    AdditiveEntry { symbol: vec!['ν'], weight: 50 },
                    AdditiveEntry { symbol: vec!['μ'], weight: 40 },
                    AdditiveEntry { symbol: vec!['λ'], weight: 30 },
                    AdditiveEntry { symbol: vec!['κ'], weight: 20 },
                    AdditiveEntry { symbol: vec!['ι'], weight: 10 },
                    AdditiveEntry { symbol: vec!['θ'], weight: 9 },
                    AdditiveEntry { symbol: vec!['η'], weight: 8 },
                    AdditiveEntry { symbol: vec!['ζ'], weight: 7 },
                    AdditiveEntry { symbol: vec!['ϛ'], weight: 6 },
                    AdditiveEntry { symbol: vec!['ε'], weight: 5 },
                    AdditiveEntry { symbol: vec!['δ'], weight: 4 },
                    AdditiveEntry { symbol: vec!['γ'], weight: 3 },
                    AdditiveEntry { symbol: vec!['β'], weight: 2 },
                    AdditiveEntry { symbol: vec!['α'], weight: 1 },
                    AdditiveEntry { symbol: vec!['𐆊'], weight: 0 },
                ];
                proof {
                    assert(additive_view(entries@) =~~= greek_lower_list());
                }
                additive(&entries, n)
            },
            NumeralSystem::UpperGreek => {
                let entries: Vec<AdditiveEntry> = vec![
                    AdditiveEntry { symbol: vec!['͵', 'Θ'], weight: 9000 },
                    AdditiveEntry { symbol: vec!['͵', 'Η'], weight: 8000 },
                    AdditiveEntry { symbol: vec!['͵', 'Ζ'], weight: 7000 },
                    AdditiveEntry { symbol: vec!['͵', 'Ϛ'], weight: 6000 },
                    AdditiveEntry { symbol: vec!['͵', 'Ε'], weight: 5000 },
                    AdditiveEntry { symbol: vec!['͵', 'Δ'], weight: 4000 },
                    AdditiveEntry { symbol: vec!['͵', 'Γ'], weight: 3000 },
                    AdditiveEntry { symbol: vec!['͵', 'Β'], weight: 2000 },
                    AdditiveEntry { symbol: vec!['͵', 'Α'], weight: 1000 },
                    AdditiveEntry { symbol: vec!['Ϡ'], weight: 900 },
                    AdditiveEntry { symbol: vec!['Ω'], weight: 800 },
                    AdditiveEntry { symbol: vec!['Ψ'], weight: 700 },
                    AdditiveEntry { symbol: vec!['Χ'], weight: 600 },
                    AdditiveEntry { symbol: vec!['Φ'], weight: 500 },
                    AdditiveEntry { symbol: vec!['Υ'], weight: 400 },
                    AdditiveEntry { symbol: vec!['Τ'], weight: 300 },
                    AdditiveEntry { symbol: vec!['Σ'], weight: 200 },
                    AdditiveEntry { symbol: vec!['Ρ'], weight: 100 },
                    AdditiveEntry { symbol: vec!['Ϟ'], weight: 90 },
                    AdditiveEntry { symbol: vec!['Π'], weight: 80 },
                    AdditiveEntry { symbol: vec!['Ο'], weight: 70 },
                    AdditiveEntry { symbol: vec!['Ξ'], weight: 60 },
                    AdditiveEntry { symbol: vec!['Ν'], weight: 50 },
                    AdditiveEntry { symbol: vec!['Μ'], weight: 40 },
                    AdditiveEntry { symbol: vec!['Λ'], weight: 30 },
                    AdditiveEntry { symbol: vec!['Κ'], weight: 20 },
                    AdditiveEntry { symbol: vec!['Ι'], weight: 10 },
                    AdditiveEntry { symbol: vec!['Θ'], weight: 9 },
                    AdditiveEntry { symbol: vec!['Η'], weight: 8 },
                    AdditiveEntry { symbol: vec!['Ζ'], weight: 7 },
                    AdditiveEntry { symbol: vec!['Ϛ'], weight: 6 },
                    AdditiveEntry { symbol: vec!['Ε'], weight: 5 },
                    AdditiveEntry { symbol: vec!['Δ'], weight: 4 },
                    AdditiveEntry { symbol: vec!['Γ'], weight: 3 },
                    AdditiveEntry { symbol: vec!['Β'], weight: 2 },
                    AdditiveEntry { symbol: vec!['Α'], weight: 1 },
                    AdditiveEntry { symbol: vec!['𐆊'], weight: 0 },
                ];
                proof {
                    assert(additive_view(entries@) =~~= greek_upper_list());
                }
                additive(&entries, n)
            },
            NumeralSystem::Symbol => {
                let t: Vec<char> = vec![
                    '*', '†', '‡', '§', '¶', '‖'
                ];
                proof {
                    assert(t@ =~= symbol_table());
                }
                symbolic(&t, n)
            },
            NumeralSystem::Hebrew => {
                let entries: Vec<AdditiveEntry> = vec![
                    AdditiveEntry { symbol: vec!['ת'], weight: 400 },
                    AdditiveEntry { symbol: vec!['ש'], weight: 300 },
                    AdditiveEntry { symbol: vec!['ר'], weight: 200 },
                    AdditiveEntry { symbol: vec!['ק'], weight: 100 },
                    AdditiveEntry { symbol: vec!['צ'], weight: 90 },
                    AdditiveEntry { symbol: vec!['פ'], weight: 80 },
                    AdditiveEntry { symbol: vec!['ע'], weight: 70 },
                    AdditiveEntry { symbol: vec!['ס'], weight: 60 },
                    AdditiveEntry { symbol: vec!['נ'], weight: 50 },
                    AdditiveEntry { symbol: vec!['מ'], weight: 40 },
                    AdditiveEntry { symbol: vec!['ל'], weight: 30 },
                    AdditiveEntry { symbol: vec!['כ'], weight: 20 },
                    AdditiveEntry { symbol: vec!['י', 'ט'], weight: 19 },
                    AdditiveEntry { symbol: vec!['י', 'ח'], weight: 18 },
                    AdditiveEntry { symbol: vec!['י', 'ז'], weight: 17 },
                    AdditiveEntry { symbol: vec!['ט', 'ז'], weight: 16 },
                    AdditiveEntry { symbol: vec!['ט', 'ו'], weight: 15 },
                    AdditiveEntry { symbol: vec!['י'], weight: 10 },
                    AdditiveEntry { symbol: vec!['ט'], weight: 9 },
                    AdditiveEntry { symbol: vec!['ח'], weight: 8 },
                    AdditiveEntry { symbol: vec!['ז'], weight: 7 },
                    AdditiveEntry { symbol: vec!['ו'], weight: 6 },
                    AdditiveEntry { symbol: vec!['ה'], weight: 5 },
                    AdditiveEntry { symbol: vec!['ד'], weight: 4 },
                    AdditiveEntry { symbol: vec!['ג'], weight: 3 },
                    AdditiveEntry { symbol: vec!['ב'], weight: 2 },
                    AdditiveEntry { symbol: vec!['א'], weight: 1 },
                    AdditiveEntry { symbol: vec!['-'], weight: 0 },
                ];
                proof {
                    assert(additive_view(entries@) =~~= hebrew_list());
                }
                additive(&entries, n)
            },
            NumeralSystem::LowerSimplifiedChinese => chinese_ten_thousand(
                ChineseVariant::Simple,
                ChineseCase::Lower,
                n,
            ),
            NumeralSystem::UpperSimplifiedChinese => chinese_ten_thousand(
                ChineseVariant::Simple,
                ChineseCase::Upper,
                n,
            ),
            NumeralSystem::LowerTraditionalChinese => chinese_ten_thousand(
                ChineseVariant::Traditional,
                ChineseCase::Lower,
                n,
            ),
            NumeralSystem::UpperTraditionalChinese => chinese_ten_thousand(
                ChineseVariant::Traditional,
                ChineseCase::Upper,
                n,
            ),
            NumeralSystem::HiraganaAiueo => {
                let t: Vec<char> = vec![
                    'あ', 'い', 'う', 'え', 'お', 'か', 'き', 'く', 'け', 'こ', 'さ', 'し', 'す', 'せ', 'そ',
                    'た', 'ち', 'つ', 'て', 'と', 'な', 'に', 'ぬ', 'ね', 'の', 'は', 'ひ', 'ふ', 'へ', 'ほ',
                    'ま', 'み', 'む', 'め', 'も', 'や', 'ゆ', 'よ', 'ら', 'り', 'る', 'れ', 'ろ', 'わ', 'を',
                    'ん'
                ];
                proof {
                    assert(t@ =~= hiragana_aiueo_table());
                }
                alphabetic(&t, n)
            },
            NumeralSystem::HiraganaIroha => {
                let t: Vec<char> = vec![
                    'い', 'ろ', 'は', 'に', 'ほ', 'へ', 'と', 'ち', 'り', 'ぬ', 'る', 'を', 'わ', 'か', 'よ',
                    'た', 'れ', 'そ', 'つ', 'ね', 'な', 'ら', 'む', 'う', 'ゐ', 'の', 'お', 'く', 'や', 'ま',
                    'け', 'ふ', 'こ', 'え', 'て', 'あ', 'さ', 'き', 'ゆ', 'め', 'み', 'し', 'ゑ', 'ひ', 'も',
                    'せ', 'す'
                ];
                proof {
                    assert(t@ =~= hiragana_iroha_table());
                }
                alphabetic(&t, n)
            },
            NumeralSystem::KatakanaAiueo => {
                let t: Vec<char> = vec![
                    'ア', 'イ', 'ウ', 'エ', 'オ', 'カ', 'キ', 'ク', 'ケ', 'コ', 'サ', 'シ', 'ス', 'セ', 'ソ',
                    'タ', 'チ', 'ツ', 'テ', 'ト', 'ナ', 'ニ', 'ヌ', 'ネ', 'ノ', 'ハ', 'ヒ', 'フ', 'ヘ', 'ホ',
                    'マ', 'ミ', 'ム', 'メ', 'モ', 'ヤ', 'ユ', 'ヨ', 'ラ', 'リ', 'ル', 'レ', 'ロ', 'ワ', 'ヲ',
                    'ン'
                ];
                proof {
                    assert(t@ =~= katakana_aiueo_table());
                }
                alphabetic(&t, n)
            },
            NumeralSystem::KatakanaIroha => {
                let t: Vec<char> = vec![
                    'イ', 'ロ', 'ハ', 'ニ', 'ホ', 'ヘ', 'ト', 'チ', 'リ', 'ヌ', 'ル', 'ヲ', 'ワ', 'カ', 'ヨ',
                    'タ', 'レ', 'ソ', 'ツ', 'ネ', 'ナ', 'ラ', 'ム', 'ウ', 'ヰ', 'ノ', 'オ', 'ク', 'ヤ', 'マ',
                    'ケ', 'フ', 'コ', 'エ', 'テ', 'ア', 'サ', 'キ', 'ユ', 'メ', 'ミ', 'シ', 'ヱ', 'ヒ', 'モ',
                    'セ', 'ス'
                ];
                proof {
                    assert(t@ =~= katakana_iroha_table());
                }
                alphabetic(&t, n)
            },
            NumeralSystem::KoreanJamo => {
                let t: Vec<char> = vec![
                    'ㄱ', 'ㄴ', 'ㄷ', 'ㄹ', 'ㅁ', 'ㅂ', 'ㅅ', 'ㅇ', 'ㅈ', 'ㅊ', 'ㅋ', 'ㅌ', 'ㅍ', 'ㅎ'
                ];
                proof {
                    assert(t@ =~= korean_jamo_table());
                }
                alphabetic(&t, n)
            },
            NumeralSystem::KoreanSyllable => {
                let t: Vec<char> = vec![
                    '가', '나', '다', '라', '마', '바', '사', '아', '자', '차', '카', '타', '파', '하'
                ];
                proof {
                    assert(t@ =~= korean_syllable_table());
                }
                alphabetic(&t, n)
            },
            NumeralSystem::EasternArabic => {
                let t: Vec<char> = vec![
                    '٠', '١', '٢', '٣', '٤', '٥', '٦', '٧', '٨', '٩'
                ];
                proof {
                    assert(t@ =~= eastern_arabic_table());
                }
                numeric(&t, n)
            },
            NumeralSystem::EasternArabicPersian => {
                let t: Vec<char> = vec![
                    '۰', '۱', '۲', '۳', '۴', '۵', '۶', '۷', '۸', '۹'
                ];
                proof {
                    assert(t@ =~= persian_table());
                }
                numeric(&t, n)
            },
            NumeralSystem::DevanagariNumber => {
                let t: Vec<char> = vec![
                    '०', '१', '२', '३', '४', '५', '६', '७', '८', '९'
                ];
                proof {
                    assert(t@ =~= devanagari_table());
                }
                numeric(&t, n)
            },
            NumeralSystem::BengaliNumber => {
                let t: Vec<char> = vec![
                    '০', '১', '২', '৩', '৪', '৫', '৬', '৭', '৮', '৯'
                ];
                proof {
                    assert(t@ =~= bengali_number_table());
                }
                numeric(&t, n)
            },
            NumeralSystem::BengaliLetter => {
                let t: Vec<char> = vec![
                    'ক', 'খ', 'গ', 'ঘ', 'ঙ', 'চ', 'ছ', 'জ', 'ঝ', 'ঞ', 'ট', 'ঠ', 'ড', 'ঢ', 'ণ',
                    'ত', 'থ', 'দ', 'ধ', 'ন', 'প', 'ফ', 'ব', 'ভ', 'ম', 'য', 'র', 'ল', 'শ', 'ষ',
                    'স', 'হ'
                ];
                proof {
                    assert(t@ =~= bengali_letter_table());
                }
                alphabetic(&t, n)
            },
            NumeralSystem::CircledNumber => {
                let t: Vec<char> = vec![
                    '⓪', '①', '②', '③', '④', '⑤', '⑥', '⑦', '⑧', '⑨', '⑩', '⑪', '⑫', '⑬', '⑭',
                    '⑮', '⑯', '⑰', '⑱', '⑲', '⑳', '㉑', '㉒', '㉓', '㉔', '㉕', '㉖', '㉗', '㉘', '㉙',
                    '㉚', '㉛', '㉜', '㉝', '㉞', '㉟', '㊱', '㊲', '㊳', '㊴', '㊵', '㊶', '㊷', '㊸', '㊹',
                    '㊺', '㊻', '㊼', '㊽', '㊾', '㊿'
                ];
                proof {
                    assert(t@ =~= circled_table());
                }
                fixed(&t, n)
            },
            NumeralSystem::DoubleCircledNumber => {
                let t: Vec<char> = vec![
                    '0', '⓵', '⓶', '⓷', '⓸', '⓹', '⓺', '⓻', '⓼', '⓽', '⓾'
                ];
                proof {
                    assert(t@ =~= double_circled_table());
                }
                fixed(&t, n)
            },
        }
    }
}

} // verus!
