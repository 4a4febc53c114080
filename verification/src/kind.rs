use vstd::prelude::*;
use ecow::EcoString;
use crate::chinese::{chinese_numeral, chinese_text};
use crate::eco::eco_chars;
use crate::symbols::{
    ADLAM,
    ARABIC_ABJAD,
    ARABIC_INDIC,
    BANGLA,
    BENGALI,
    CIRCLED_DECIMAL,
    CIRCLED_LOWER_LATIN,
    CIRCLED_UPPER_LATIN,
    DECIMAL,
    DEVANAGARI,
    DOUBLE_CIRCLED_DECIMAL,
    FILLED_CIRCLED_DECIMAL,
    GREEK_LOWER_ANCIENT,
    GREEK_LOWER_MODERN,
    GREEK_UPPER_ANCIENT,
    GREEK_UPPER_MODERN,
    HEBREW,
    HIRAGANA_AIUEO,
    HIRAGANA_IROHA,
    KASHMIRI,
    KATAKANA_AIUEO,
    KATAKANA_IROHA,
    KOREAN_JAMO,
    KOREAN_SYLLABLE,
    LOWER_ALPHA,
    LOWER_BELORUSSIAN,
    LOWER_BULGARIAN,
    LOWER_GREEK,
    LOWER_MACEDONIAN,
    LOWER_ROMAN,
    LOWER_RUSSIAN,
    LOWER_RUSSIAN_FULL,
    LOWER_SERBIAN,
    LOWER_UKRAINIAN,
    LOWER_UKRAINIAN_FULL,
    MAGHREBI_ABJAD,
    PERSIAN,
    SYMBOL,
    TALLY_MARK,
    UPPER_ALPHA,
    UPPER_BELORUSSIAN,
    UPPER_BULGARIAN,
    UPPER_GREEK,
    UPPER_MACEDONIAN,
    UPPER_ROMAN,
    UPPER_RUSSIAN,
    UPPER_RUSSIAN_FULL,
    UPPER_SERBIAN,
    UPPER_UKRAINIAN,
    UPPER_UKRAINIAN_FULL,
};
use crate::systems::{
    additive, additive_text, alphabetic, alphabetic_text, fixed, fixed_text, numeric, positional,
    symbolic, symbolic_text,
};
use crate::text::same_text;

verus! {

/// Different kinds of numberings.
#[derive(Debug, Copy, Clone, PartialEq, Eq, Hash, Structural)]
pub enum NumberingKind {
    Adlam,
    ArabicAbjad,
    ArabicIndic,
    Bangla,
    Bengali,
    CircledDecimal,
    CircledLowerLatin,
    CircledUpperLatin,
    Decimal,
    Devanagari,
    DoubleCircledDecimal,
    FilledCircledDecimal,
    GreekLowerAncient,
    GreekLowerModern,
    GreekUpperAncient,
    GreekUpperModern,
    Hebrew,
    HiraganaAiueo,
    HiraganaIroha,
    Kashmiri,
    KatakanaAiueo,
    KatakanaIroha,
    KoreanJamo,
    KoreanSyllable,
    LowerAlpha,
    LowerBelorussian,
    LowerBulgarian,
    LowerGreek,
    LowerMacedonian,
    LowerRoman,
    LowerRussian,
    LowerRussianFull,
    LowerSerbian,
    LowerUkrainian,
    LowerUkrainianFull,
    MaghrebiAbjad,
    Persian,
    SimpChineseFormal,
    SimpChineseInformal,
    Symbol,
    TallyMark,
    TradChineseFormal,
    TradChineseInformal,
    UpperAlpha,
    UpperBelorussian,
    UpperBulgarian,
    UpperGreek,
    UpperMacedonian,
    UpperRoman,
    UpperRussian,
    UpperRussianFull,
    UpperSerbian,
    UpperUkrainian,
    UpperUkrainianFull,
}

/// The kind that a representative counting symbol stands for.
pub open spec fn kind_of_symbol(c: char) -> Option<NumberingKind> {
    if c == '١' { Some(NumberingKind::ArabicIndic) }
    else if c == 'ক' { Some(NumberingKind::Bangla) }
    else if c == '১' { Some(NumberingKind::Bengali) }
    else if c == '①' { Some(NumberingKind::CircledDecimal) }
    else if c == '1' { Some(NumberingKind::Decimal) }
    else if c == '⓵' { Some(NumberingKind::DoubleCircledDecimal) }
    else if c == '१' { Some(NumberingKind::Devanagari) }
    else if c == 'א' { Some(NumberingKind::Hebrew) }
    else if c == 'あ' { Some(NumberingKind::HiraganaAiueo) }
    else if c == 'い' { Some(NumberingKind::HiraganaIroha) }
    else if c == 'ア' { Some(NumberingKind::KatakanaAiueo) }
    else if c == 'イ' { Some(NumberingKind::KatakanaIroha) }
    else if c == 'ㄱ' { Some(NumberingKind::KoreanJamo) }
    else if c == '가' { Some(NumberingKind::KoreanSyllable) }
    else if c == 'a' { Some(NumberingKind::LowerAlpha) }
    else if c == 'α' { Some(NumberingKind::LowerGreek) }
    else if c == 'i' { Some(NumberingKind::LowerRoman) }
    else if c == '۱' { Some(NumberingKind::Persian) }
    else if c == '壹' { Some(NumberingKind::SimpChineseFormal) }
    else if c == '一' { Some(NumberingKind::SimpChineseInformal) }
    else if c == '*' { Some(NumberingKind::Symbol) }
    else if c == 'A' { Some(NumberingKind::UpperAlpha) }
    else if c == 'Α' { Some(NumberingKind::UpperGreek) }
    else if c == 'I' { Some(NumberingKind::UpperRoman) }
    else { None }
}

impl NumberingKind {
    /// Create a numbering kind from a representative character.
    pub fn from_char(c: char) -> (res: Option<Self>)
        ensures
            res == kind_of_symbol(c),
    {
        Some(match c {
            '١' => NumberingKind::ArabicIndic,
            'ক' => NumberingKind::Bangla,
            '১' => NumberingKind::Bengali,
            '①' => NumberingKind::CircledDecimal,
            '1' => NumberingKind::Decimal,
            '⓵' => NumberingKind::DoubleCircledDecimal,
            '१' => NumberingKind::Devanagari,
            'א' => NumberingKind::Hebrew,
            'あ' => NumberingKind::HiraganaAiueo,
            'い' => NumberingKind::HiraganaIroha,
            'ア' => NumberingKind::KatakanaAiueo,
            'イ' => NumberingKind::KatakanaIroha,
            'ㄱ' => NumberingKind::KoreanJamo,
            '가' => NumberingKind::KoreanSyllable,
            'a' => NumberingKind::LowerAlpha,
            'α' => NumberingKind::LowerGreek,
            'i' => NumberingKind::LowerRoman,
            '۱' => NumberingKind::Persian,
            '壹' => NumberingKind::SimpChineseFormal,
            '一' => NumberingKind::SimpChineseInformal,
            '*' => NumberingKind::Symbol,
            'A' => NumberingKind::UpperAlpha,
            'Α' => NumberingKind::UpperGreek,
            'I' => NumberingKind::UpperRoman,
            _ => return None,
        })
    }
}


/// The kind that a name stands for.
pub open spec fn kind_named(s: Seq<char>) -> Option<NumberingKind> {
    if s == "adlam"@ {
        Some(NumberingKind::Adlam)
    } else if s == "arabic-abjad"@ {
        Some(NumberingKind::ArabicAbjad)
    } else if s == "arabic-indic"@ {
        Some(NumberingKind::ArabicIndic)
    } else if s == "bangla"@ {
        Some(NumberingKind::Bangla)
    } else if s == "bengali"@ {
        Some(NumberingKind::Bengali)
    } else if s == "circled-decimal"@ {
        Some(NumberingKind::CircledDecimal)
    } else if s == "circled-lower-latin"@ {
        Some(NumberingKind::CircledLowerLatin)
    } else if s == "circled-upper-latin"@ {
        Some(NumberingKind::CircledUpperLatin)
    } else if s == "decimal"@ {
        Some(NumberingKind::Decimal)
    } else if s == "devanagari"@ {
        Some(NumberingKind::Devanagari)
    } else if s == "double-circled-decimal"@ {
        Some(NumberingKind::DoubleCircledDecimal)
    } else if s == "filled-circled-decimal"@ {
        Some(NumberingKind::FilledCircledDecimal)
    } else if s == "greek-lower-ancient"@ {
        Some(NumberingKind::GreekLowerAncient)
    } else if s == "greek-lower-modern"@ {
        Some(NumberingKind::GreekLowerModern)
    } else if s == "greek-upper-ancient"@ {
        Some(NumberingKind::GreekUpperAncient)
    } else if s == "greek-upper-modern"@ {
        Some(NumberingKind::GreekUpperModern)
    } else if s == "hebrew"@ {
        Some(NumberingKind::Hebrew)
    } else if s == "hiragana"@ {
        Some(NumberingKind::HiraganaAiueo)
    } else if s == "hiragana-iroha"@ {
        Some(NumberingKind::HiraganaIroha)
    } else if s == "kashmiri"@ {
        Some(NumberingKind::Kashmiri)
    } else if s == "katakana"@ {
        Some(NumberingKind::KatakanaAiueo)
    } else if s == "katakana-iroha"@ {
        Some(NumberingKind::KatakanaIroha)
    } else if s == "korean"@ {
        Some(NumberingKind::KoreanJamo)
    } else if s == "korean-syllable"@ {
        Some(NumberingKind::KoreanSyllable)
    } else if s == "lower-alpha"@ {
        Some(NumberingKind::LowerAlpha)
    } else if s == "lower-belorussian"@ {
        Some(NumberingKind::LowerBelorussian)
    } else if s == "lower-bulgarian"@ {
        Some(NumberingKind::LowerBulgarian)
    } else if s == "lower-greek"@ {
        Some(NumberingKind::LowerGreek)
    } else if s == "lower-macedonian"@ {
        Some(NumberingKind::LowerMacedonian)
    } else if s == "lower-roman"@ {
        Some(NumberingKind::LowerRoman)
    } else if s == "lower-russian"@ {
        Some(NumberingKind::LowerRussian)
    } else if s == "lower-russian-full"@ {
        Some(NumberingKind::LowerRussianFull)
    } else if s == "lower-serbian"@ {
        Some(NumberingKind::LowerSerbian)
    } else if s == "lower-ukrainian"@ {
        Some(NumberingKind::LowerUkrainian)
    } else if s == "lower-ukrainian-full"@ {
        Some(NumberingKind::LowerUkrainianFull)
    } else if s == "maghrebi-abjad"@ {
        Some(NumberingKind::MaghrebiAbjad)
    } else if s == "persian"@ {
        Some(NumberingKind::Persian)
    } else if s == "simp-chinese-formal"@ {
        Some(NumberingKind::SimpChineseFormal)
    } else if s == "simp-chinese-informal"@ {
        Some(NumberingKind::SimpChineseInformal)
    } else if s == "symbol"@ {
        Some(NumberingKind::Symbol)
    } else if s == "tally-mark"@ {
        Some(NumberingKind::TallyMark)
    } else if s == "trad-chinese-formal"@ {
        Some(NumberingKind::TradChineseFormal)
    } else if s == "trad-chinese-informal"@ {
        Some(NumberingKind::TradChineseInformal)
    } else if s == "upper-alpha"@ {
        Some(NumberingKind::UpperAlpha)
    } else if s == "upper-belorussian"@ {
        Some(NumberingKind::UpperBelorussian)
    } else if s == "upper-bulgarian"@ {
        Some(NumberingKind::UpperBulgarian)
    } else if s == "upper-greek"@ {
        Some(NumberingKind::UpperGreek)
    } else if s == "upper-macedonian"@ {
        Some(NumberingKind::UpperMacedonian)
    } else if s == "upper-roman"@ {
        Some(NumberingKind::UpperRoman)
    } else if s == "upper-russian"@ {
        Some(NumberingKind::UpperRussian)
    } else if s == "upper-russian-full"@ {
        Some(NumberingKind::UpperRussianFull)
    } else if s == "upper-serbian"@ {
        Some(NumberingKind::UpperSerbian)
    } else if s == "upper-ukrainian"@ {
        Some(NumberingKind::UpperUkrainian)
    } else if s == "upper-ukrainian-full"@ {
        Some(NumberingKind::UpperUkrainianFull)
    } else {
        None
    }
}

/// The name under which a kind is written.
pub open spec fn name_of(kind: NumberingKind) -> Seq<char> {
    match kind {
        NumberingKind::Adlam => "adlam"@,
        NumberingKind::ArabicAbjad => "arabic-abjad"@,
        NumberingKind::ArabicIndic => "arabic-indic"@,
        NumberingKind::Bangla => "bangla"@,
        NumberingKind::Bengali => "bengali"@,
        NumberingKind::CircledDecimal => "circled-decimal"@,
        NumberingKind::CircledLowerLatin => "circled-lower-latin"@,
        NumberingKind::CircledUpperLatin => "circled-upper-latin"@,
        NumberingKind::Decimal => "decimal"@,
        NumberingKind::Devanagari => "devanagari"@,
        NumberingKind::DoubleCircledDecimal => "double-circled-decimal"@,
        NumberingKind::FilledCircledDecimal => "filled-circled-decimal"@,
        NumberingKind::GreekLowerAncient => "greek-lower-ancient"@,
        NumberingKind::GreekLowerModern => "greek-lower-modern"@,
        NumberingKind::GreekUpperAncient => "greek-upper-ancient"@,
        NumberingKind::GreekUpperModern => "greek-upper-modern"@,
        NumberingKind::Hebrew => "hebrew"@,
        NumberingKind::HiraganaAiueo => "hiragana"@,
        NumberingKind::HiraganaIroha => "hiragana-iroha"@,
        NumberingKind::Kashmiri => "kashmiri"@,
        NumberingKind::KatakanaAiueo => "katakana"@,
        NumberingKind::KatakanaIroha => "katakana-iroha"@,
        NumberingKind::KoreanJamo => "korean"@,
        NumberingKind::KoreanSyllable => "korean-syllable"@,
        NumberingKind::LowerAlpha => "lower-alpha"@,
        NumberingKind::LowerBelorussian => "lower-belorussian"@,
        NumberingKind::LowerBulgarian => "lower-bulgarian"@,
        NumberingKind::LowerGreek => "lower-greek"@,
        NumberingKind::LowerMacedonian => "lower-macedonian"@,
        NumberingKind::LowerRoman => "lower-roman"@,
        NumberingKind::LowerRussian => "lower-russian"@,
        NumberingKind::LowerRussianFull => "lower-russian-full"@,
        NumberingKind::LowerSerbian => "lower-serbian"@,
        NumberingKind::LowerUkrainian => "lower-ukrainian"@,
        NumberingKind::LowerUkrainianFull => "lower-ukrainian-full"@,
        NumberingKind::MaghrebiAbjad => "maghrebi-abjad"@,
        NumberingKind::Persian => "persian"@,
        NumberingKind::SimpChineseFormal => "simp-chinese-formal"@,
        NumberingKind::SimpChineseInformal => "simp-chinese-informal"@,
        NumberingKind::Symbol => "symbol"@,
        NumberingKind::TallyMark => "tally-mark"@,
        NumberingKind::TradChineseFormal => "trad-chinese-formal"@,
        NumberingKind::TradChineseInformal => "trad-chinese-informal"@,
        NumberingKind::UpperAlpha => "upper-alpha"@,
        NumberingKind::UpperBelorussian => "upper-belorussian"@,
        NumberingKind::UpperBulgarian => "upper-bulgarian"@,
        NumberingKind::UpperGreek => "upper-greek"@,
        NumberingKind::UpperMacedonian => "upper-macedonian"@,
        NumberingKind::UpperRoman => "upper-roman"@,
        NumberingKind::UpperRussian => "upper-russian"@,
        NumberingKind::UpperRussianFull => "upper-russian-full"@,
        NumberingKind::UpperSerbian => "upper-serbian"@,
        NumberingKind::UpperUkrainian => "upper-ukrainian"@,
        NumberingKind::UpperUkrainianFull => "upper-ukrainian-full"@,
    }
}

/// The text that a kind writes for the number `n`.
pub open spec fn kind_text(kind: NumberingKind, n: usize) -> Seq<char> {
    match kind {
        NumberingKind::Adlam => positional(ADLAM@, n as nat),
        NumberingKind::ArabicAbjad => fixed_text(ARABIC_ABJAD@, n as nat),
        NumberingKind::ArabicIndic => positional(ARABIC_INDIC@, n as nat),
        NumberingKind::Bangla => alphabetic_text(BANGLA@, n as nat),
        NumberingKind::Bengali => positional(BENGALI@, n as nat),
        NumberingKind::CircledDecimal => fixed_text(CIRCLED_DECIMAL@, n as nat),
        NumberingKind::CircledLowerLatin => fixed_text(CIRCLED_LOWER_LATIN@, n as nat),
        NumberingKind::CircledUpperLatin => fixed_text(CIRCLED_UPPER_LATIN@, n as nat),
        NumberingKind::Decimal => positional(DECIMAL@, n as nat),
        NumberingKind::Devanagari => positional(DEVANAGARI@, n as nat),
        NumberingKind::DoubleCircledDecimal => fixed_text(DOUBLE_CIRCLED_DECIMAL@, n as nat),
        NumberingKind::FilledCircledDecimal => fixed_text(FILLED_CIRCLED_DECIMAL@, n as nat),
        NumberingKind::GreekLowerAncient => additive_text(GREEK_LOWER_ANCIENT@, n as nat),
        NumberingKind::GreekLowerModern => additive_text(GREEK_LOWER_MODERN@, n as nat),
        NumberingKind::GreekUpperAncient => additive_text(GREEK_UPPER_ANCIENT@, n as nat),
        NumberingKind::GreekUpperModern => additive_text(GREEK_UPPER_MODERN@, n as nat),
        NumberingKind::Hebrew => additive_text(HEBREW@, n as nat),
        NumberingKind::HiraganaAiueo => alphabetic_text(HIRAGANA_AIUEO@, n as nat),
        NumberingKind::HiraganaIroha => alphabetic_text(HIRAGANA_IROHA@, n as nat),
        NumberingKind::Kashmiri => alphabetic_text(KASHMIRI@, n as nat),
        NumberingKind::KatakanaAiueo => alphabetic_text(KATAKANA_AIUEO@, n as nat),
        NumberingKind::KatakanaIroha => alphabetic_text(KATAKANA_IROHA@, n as nat),
        NumberingKind::KoreanJamo => alphabetic_text(KOREAN_JAMO@, n as nat),
        NumberingKind::KoreanSyllable => alphabetic_text(KOREAN_SYLLABLE@, n as nat),
        NumberingKind::LowerAlpha => alphabetic_text(LOWER_ALPHA@, n as nat),
        NumberingKind::LowerBelorussian => alphabetic_text(LOWER_BELORUSSIAN@, n as nat),
        NumberingKind::LowerBulgarian => alphabetic_text(LOWER_BULGARIAN@, n as nat),
        NumberingKind::LowerGreek => alphabetic_text(LOWER_GREEK@, n as nat),
        NumberingKind::LowerMacedonian => alphabetic_text(LOWER_MACEDONIAN@, n as nat),
        NumberingKind::LowerRoman => additive_text(LOWER_ROMAN@, n as nat),
        NumberingKind::LowerRussian => alphabetic_text(LOWER_RUSSIAN@, n as nat),
        NumberingKind::LowerRussianFull => alphabetic_text(LOWER_RUSSIAN_FULL@, n as nat),
        NumberingKind::LowerSerbian => alphabetic_text(LOWER_SERBIAN@, n as nat),
        NumberingKind::LowerUkrainian => alphabetic_text(LOWER_UKRAINIAN@, n as nat),
        NumberingKind::LowerUkrainianFull => alphabetic_text(LOWER_UKRAINIAN_FULL@, n as nat),
        NumberingKind::MaghrebiAbjad => fixed_text(MAGHREBI_ABJAD@, n as nat),
        NumberingKind::Persian => positional(PERSIAN@, n as nat),
        NumberingKind::SimpChineseFormal => chinese_text(false, true, n),
        NumberingKind::SimpChineseInformal => chinese_text(false, false, n),
        NumberingKind::Symbol => symbolic_text(SYMBOL@, n as nat),
        NumberingKind::TallyMark => additive_text(TALLY_MARK@, n as nat),
        NumberingKind::TradChineseFormal => chinese_text(true, true, n),
        NumberingKind::TradChineseInformal => chinese_text(true, false, n),
        NumberingKind::UpperAlpha => alphabetic_text(UPPER_ALPHA@, n as nat),
        NumberingKind::UpperBelorussian => alphabetic_text(UPPER_BELORUSSIAN@, n as nat),
        NumberingKind::UpperBulgarian => alphabetic_text(UPPER_BULGARIAN@, n as nat),
        NumberingKind::UpperGreek => alphabetic_text(UPPER_GREEK@, n as nat),
        NumberingKind::UpperMacedonian => alphabetic_text(UPPER_MACEDONIAN@, n as nat),
        NumberingKind::UpperRoman => additive_text(UPPER_ROMAN@, n as nat),
        NumberingKind::UpperRussian => alphabetic_text(UPPER_RUSSIAN@, n as nat),
        NumberingKind::UpperRussianFull => alphabetic_text(UPPER_RUSSIAN_FULL@, n as nat),
        NumberingKind::UpperSerbian => alphabetic_text(UPPER_SERBIAN@, n as nat),
        NumberingKind::UpperUkrainian => alphabetic_text(UPPER_UKRAINIAN@, n as nat),
        NumberingKind::UpperUkrainianFull => alphabetic_text(UPPER_UKRAINIAN_FULL@, n as nat),
    }
}

impl NumberingKind {
    /// Create a numbering kind from a name.
    pub fn from_name(name: &str) -> (res: Option<Self>)
        ensures
            res == kind_named(name@),
    {
        if same_text(name, "adlam") {
            return Some(NumberingKind::Adlam);
        }
        if same_text(name, "arabic-abjad") {
            return Some(NumberingKind::ArabicAbjad);
        }
        if same_text(name, "arabic-indic") {
            return Some(NumberingKind::ArabicIndic);
        }
        if same_text(name, "bangla") {
            return Some(NumberingKind::Bangla);
        }
        if same_text(name, "bengali") {
            return Some(NumberingKind::Bengali);
        }
        if same_text(name, "circled-decimal") {
            return Some(NumberingKind::CircledDecimal);
        }
        if same_text(name, "circled-lower-latin") {
            return Some(NumberingKind::CircledLowerLatin);
        }
        if same_text(name, "circled-upper-latin") {
            return Some(NumberingKind::CircledUpperLatin);
        }
        if same_text(name, "decimal") {
            return Some(NumberingKind::Decimal);
        }
        if same_text(name, "devanagari") {
            return Some(NumberingKind::Devanagari);
        }
        if same_text(name, "double-circled-decimal") {
            return Some(NumberingKind::DoubleCircledDecimal);
        }
        if same_text(name, "filled-circled-decimal") {
            return Some(NumberingKind::FilledCircledDecimal);
        }
        if same_text(name, "greek-lower-ancient") {
            return Some(NumberingKind::GreekLowerAncient);
        }
        if same_text(name, "greek-lower-modern") {
            return Some(NumberingKind::GreekLowerModern);
        }
        if same_text(name, "greek-upper-ancient") {
            return Some(NumberingKind::GreekUpperAncient);
        }
        if same_text(name, "greek-upper-modern") {
            return Some(NumberingKind::GreekUpperModern);
        }
        if same_text(name, "hebrew") {
            return Some(NumberingKind::Hebrew);
        }
        if same_text(name, "hiragana") {
            return Some(NumberingKind::HiraganaAiueo);
        }
        if same_text(name, "hiragana-iroha") {
            return Some(NumberingKind::HiraganaIroha);
        }
        if same_text(name, "kashmiri") {
            return Some(NumberingKind::Kashmiri);
        }
        if same_text(name, "katakana") {
            return Some(NumberingKind::KatakanaAiueo);
        }
        if same_text(name, "katakana-iroha") {
            return Some(NumberingKind::KatakanaIroha);
        }
        if same_text(name, "korean") {
            return Some(NumberingKind::KoreanJamo);
        }
        if same_text(name, "korean-syllable") {
            return Some(NumberingKind::KoreanSyllable);
        }
        if same_text(name, "lower-alpha") {
            return Some(NumberingKind::LowerAlpha);
        }
        if same_text(name, "lower-belorussian") {
            return Some(NumberingKind::LowerBelorussian);
        }
        if same_text(name, "lower-bulgarian") {
            return Some(NumberingKind::LowerBulgarian);
        }
        if same_text(name, "lower-greek") {
            return Some(NumberingKind::LowerGreek);
        }
        if same_text(name, "lower-macedonian") {
            return Some(NumberingKind::LowerMacedonian);
        }
        if same_text(name, "lower-roman") {
            return Some(NumberingKind::LowerRoman);
        }
        if same_text(name, "lower-russian") {
            return Some(NumberingKind::LowerRussian);
        }
        if same_text(name, "lower-russian-full") {
            return Some(NumberingKind::LowerRussianFull);
        }
        if same_text(name, "lower-serbian") {
            return Some(NumberingKind::LowerSerbian);
        }
        if same_text(name, "lower-ukrainian") {
            return Some(NumberingKind::LowerUkrainian);
        }
        if same_text(name, "lower-ukrainian-full") {
            return Some(NumberingKind::LowerUkrainianFull);
        }
        if same_text(name, "maghrebi-abjad") {
            return Some(NumberingKind::MaghrebiAbjad);
        }
        if same_text(name, "persian") {
            return Some(NumberingKind::Persian);
        }
        if same_text(name, "simp-chinese-formal") {
            return Some(NumberingKind::SimpChineseFormal);
        }
        if same_text(name, "simp-chinese-informal") {
            return Some(NumberingKind::SimpChineseInformal);
        }
        if same_text(name, "symbol") {
            return Some(NumberingKind::Symbol);
        }
        if same_text(name, "tally-mark") {
            return Some(NumberingKind::TallyMark);
        }
        if same_text(name, "trad-chinese-formal") {
            return Some(NumberingKind::TradChineseFormal);
        }
        if same_text(name, "trad-chinese-informal") {
            return Some(NumberingKind::TradChineseInformal);
        }
        if same_text(name, "upper-alpha") {
            return Some(NumberingKind::UpperAlpha);
        }
        if same_text(name, "upper-belorussian") {
            return Some(NumberingKind::UpperBelorussian);
        }
        if same_text(name, "upper-bulgarian") {
            return Some(NumberingKind::UpperBulgarian);
        }
        if same_text(name, "upper-greek") {
            return Some(NumberingKind::UpperGreek);
        }
        if same_text(name, "upper-macedonian") {
            return Some(NumberingKind::UpperMacedonian);
        }
        if same_text(name, "upper-roman") {
            return Some(NumberingKind::UpperRoman);
        }
        if same_text(name, "upper-russian") {
            return Some(NumberingKind::UpperRussian);
        }
        if same_text(name, "upper-russian-full") {
            return Some(NumberingKind::UpperRussianFull);
        }
        if same_text(name, "upper-serbian") {
            return Some(NumberingKind::UpperSerbian);
        }
        if same_text(name, "upper-ukrainian") {
            return Some(NumberingKind::UpperUkrainian);
        }
        if same_text(name, "upper-ukrainian-full") {
            return Some(NumberingKind::UpperUkrainianFull);
        }
        None
    }

    /// The name for this numbering kind.
    pub fn to_name(self) -> (res: &'static str)
        ensures
            res@ == name_of(self),
    {
        match self {
            NumberingKind::Adlam => "adlam",
            NumberingKind::ArabicAbjad => "arabic-abjad",
            NumberingKind::ArabicIndic => "arabic-indic",
            NumberingKind::Bangla => "bangla",
            NumberingKind::Bengali => "bengali",
            NumberingKind::CircledDecimal => "circled-decimal",
            NumberingKind::CircledLowerLatin => "circled-lower-latin",
            NumberingKind::CircledUpperLatin => "circled-upper-latin",
            NumberingKind::Decimal => "decimal",
            NumberingKind::Devanagari => "devanagari",
            NumberingKind::DoubleCircledDecimal => "double-circled-decimal",
            NumberingKind::FilledCircledDecimal => "filled-circled-decimal",
            NumberingKind::GreekLowerAncient => "greek-lower-ancient",
            NumberingKind::GreekLowerModern => "greek-lower-modern",
            NumberingKind::GreekUpperAncient => "greek-upper-ancient",
            NumberingKind::GreekUpperModern => "greek-upper-modern",
            NumberingKind::Hebrew => "hebrew",
            NumberingKind::HiraganaAiueo => "hiragana",
            NumberingKind::HiraganaIroha => "hiragana-iroha",
            NumberingKind::Kashmiri => "kashmiri",
            NumberingKind::KatakanaAiueo => "katakana",
            NumberingKind::KatakanaIroha => "katakana-iroha",
            NumberingKind::KoreanJamo => "korean",
            NumberingKind::KoreanSyllable => "korean-syllable",
            NumberingKind::LowerAlpha => "lower-alpha",
            NumberingKind::LowerBelorussian => "lower-belorussian",
            NumberingKind::LowerBulgarian => "lower-bulgarian",
            NumberingKind::LowerGreek => "lower-greek",
            NumberingKind::LowerMacedonian => "lower-macedonian",
            NumberingKind::LowerRoman => "lower-roman",
            NumberingKind::LowerRussian => "lower-russian",
            NumberingKind::LowerRussianFull => "lower-russian-full",
            NumberingKind::LowerSerbian => "lower-serbian",
            NumberingKind::LowerUkrainian => "lower-ukrainian",
            NumberingKind::LowerUkrainianFull => "lower-ukrainian-full",
            NumberingKind::MaghrebiAbjad => "maghrebi-abjad",
            NumberingKind::Persian => "persian",
            NumberingKind::SimpChineseFormal => "simp-chinese-formal",
            NumberingKind::SimpChineseInformal => "simp-chinese-informal",
            NumberingKind::Symbol => "symbol",
            NumberingKind::TallyMark => "tally-mark",
            NumberingKind::TradChineseFormal => "trad-chinese-formal",
            NumberingKind::TradChineseInformal => "trad-chinese-informal",
            NumberingKind::UpperAlpha => "upper-alpha",
            NumberingKind::UpperBelorussian => "upper-belorussian",
            NumberingKind::UpperBulgarian => "upper-bulgarian",
            NumberingKind::UpperGreek => "upper-greek",
            NumberingKind::UpperMacedonian => "upper-macedonian",
            NumberingKind::UpperRoman => "upper-roman",
            NumberingKind::UpperRussian => "upper-russian",
            NumberingKind::UpperRussianFull => "upper-russian-full",
            NumberingKind::UpperSerbian => "upper-serbian",
            NumberingKind::UpperUkrainian => "upper-ukrainian",
            NumberingKind::UpperUkrainianFull => "upper-ukrainian-full",
        }
    }

    /// Apply the numbering to the given number.
    pub fn apply(self, n: usize) -> (res: EcoString)
        ensures
            eco_chars(res) == kind_text(self, n),
    {
        match self {
            NumberingKind::Adlam => numeric(&ADLAM, n),
            NumberingKind::ArabicAbjad => fixed(&ARABIC_ABJAD, n),
            NumberingKind::ArabicIndic => numeric(&ARABIC_INDIC, n),
            NumberingKind::Bangla => alphabetic(&BANGLA, n),
            NumberingKind::Bengali => numeric(&BENGALI, n),
            NumberingKind::CircledDecimal => fixed(&CIRCLED_DECIMAL, n),
            NumberingKind::CircledLowerLatin => fixed(&CIRCLED_LOWER_LATIN, n),
            NumberingKind::CircledUpperLatin => fixed(&CIRCLED_UPPER_LATIN, n),
            NumberingKind::Decimal => numeric(&DECIMAL, n),
            NumberingKind::Devanagari => numeric(&DEVANAGARI, n),
            NumberingKind::DoubleCircledDecimal => fixed(&DOUBLE_CIRCLED_DECIMAL, n),
            NumberingKind::FilledCircledDecimal => fixed(&FILLED_CIRCLED_DECIMAL, n),
            NumberingKind::GreekLowerAncient => additive(&GREEK_LOWER_ANCIENT, n),
            NumberingKind::GreekLowerModern => additive(&GREEK_LOWER_MODERN, n),
            NumberingKind::GreekUpperAncient => additive(&GREEK_UPPER_ANCIENT, n),
            NumberingKind::GreekUpperModern => additive(&GREEK_UPPER_MODERN, n),
            NumberingKind::Hebrew => additive(&HEBREW, n),
            NumberingKind::HiraganaAiueo => alphabetic(&HIRAGANA_AIUEO, n),
            NumberingKind::HiraganaIroha => alphabetic(&HIRAGANA_IROHA, n),
            NumberingKind::Kashmiri => alphabetic(&KASHMIRI, n),
            NumberingKind::KatakanaAiueo => alphabetic(&KATAKANA_AIUEO, n),
            NumberingKind::KatakanaIroha => alphabetic(&KATAKANA_IROHA, n),
            NumberingKind::KoreanJamo => alphabetic(&KOREAN_JAMO, n),
            NumberingKind::KoreanSyllable => alphabetic(&KOREAN_SYLLABLE, n),
            NumberingKind::LowerAlpha => alphabetic(&LOWER_ALPHA, n),
            NumberingKind::LowerBelorussian => alphabetic(&LOWER_BELORUSSIAN, n),
            NumberingKind::LowerBulgarian => alphabetic(&LOWER_BULGARIAN, n),
            NumberingKind::LowerGreek => alphabetic(&LOWER_GREEK, n),
            NumberingKind::LowerMacedonian => alphabetic(&LOWER_MACEDONIAN, n),
            NumberingKind::LowerRoman => additive(&LOWER_ROMAN, n),
            NumberingKind::LowerRussian => alphabetic(&LOWER_RUSSIAN, n),
            NumberingKind::LowerRussianFull => alphabetic(&LOWER_RUSSIAN_FULL, n),
            NumberingKind::LowerSerbian => alphabetic(&LOWER_SERBIAN, n),
            NumberingKind::LowerUkrainian => alphabetic(&LOWER_UKRAINIAN, n),
            NumberingKind::LowerUkrainianFull => alphabetic(&LOWER_UKRAINIAN_FULL, n),
            NumberingKind::MaghrebiAbjad => fixed(&MAGHREBI_ABJAD, n),
            NumberingKind::Persian => numeric(&PERSIAN, n),
            NumberingKind::SimpChineseFormal => chinese_numeral(false, true, n),
            NumberingKind::SimpChineseInformal => chinese_numeral(false, false, n),
            NumberingKind::Symbol => symbolic(&SYMBOL, n),
            NumberingKind::TallyMark => additive(&TALLY_MARK, n),
            NumberingKind::TradChineseFormal => chinese_numeral(true, true, n),
            NumberingKind::TradChineseInformal => chinese_numeral(true, false, n),
            NumberingKind::UpperAlpha => alphabetic(&UPPER_ALPHA, n),
            NumberingKind::UpperBelorussian => alphabetic(&UPPER_BELORUSSIAN, n),
            NumberingKind::UpperBulgarian => alphabetic(&UPPER_BULGARIAN, n),
            NumberingKind::UpperGreek => alphabetic(&UPPER_GREEK, n),
            NumberingKind::UpperMacedonian => alphabetic(&UPPER_MACEDONIAN, n),
            NumberingKind::UpperRoman => additive(&UPPER_ROMAN, n),
            NumberingKind::UpperRussian => alphabetic(&UPPER_RUSSIAN, n),
            NumberingKind::UpperRussianFull => alphabetic(&UPPER_RUSSIAN_FULL, n),
            NumberingKind::UpperSerbian => alphabetic(&UPPER_SERBIAN, n),
            NumberingKind::UpperUkrainian => alphabetic(&UPPER_UKRAINIAN, n),
            NumberingKind::UpperUkrainianFull => alphabetic(&UPPER_UKRAINIAN_FULL, n),
        }
    }
}

} // verus!
