//! The symbol tables of the numbering kinds.

use vstd::prelude::*;

verus! {

/// Symbols, in counting order, of the `adlam` numbering.
pub const ADLAM: [char; 10] = [
    '𞥐', '𞥑', '𞥒', '𞥓', '𞥔', '𞥕', '𞥖', '𞥗', '𞥘', '𞥙',
];

/// Symbols, in counting order, of the `arabic-abjad` numbering.
pub const ARABIC_ABJAD: [char; 28] = [
    'ا', 'ب', 'ج', 'د', 'ه', 'و', 'ز', 'ح', 'ط', 'ي',
    'ك', 'ل', 'م', 'ن', 'س', 'ع', 'ف', 'ص', 'ق', 'ر',
    'ش', 'ت', 'ث', 'خ', 'ذ', 'ض', 'ظ', 'غ',
];

/// Symbols, in counting order, of the `arabic-indic` numbering.
pub const ARABIC_INDIC: [char; 10] = [
    '٠', '١', '٢', '٣', '٤', '٥', '٦', '٧', '٨', '٩',
];

/// Symbols, in counting order, of the `bangla` numbering.
pub const BANGLA: [char; 32] = [
    'ক', 'খ', 'গ', 'ঘ', 'ঙ', 'চ', 'ছ', 'জ', 'ঝ', 'ঞ',
    'ট', 'ঠ', 'ড', 'ঢ', 'ণ', 'ত', 'থ', 'দ', 'ধ', 'ন',
    'প', 'ফ', 'ব', 'ভ', 'ম', 'য', 'র', 'ল', 'শ', 'ষ',
    'স', 'হ',
];

/// Symbols, in counting order, of the `bengali` numbering.
pub const BENGALI: [char; 10] = [
    '০', '১', '২', '৩', '৪', '৫', '৬', '৭', '৮', '৯',
];

/// Symbols, in counting order, of the `circled-decimal` numbering.
pub const CIRCLED_DECIMAL: [char; 50] = [
    '①', '②', '③', '④', '⑤', '⑥', '⑦', '⑧', '⑨', '⑩',
    '⑪', '⑫', '⑬', '⑭', '⑮', '⑯', '⑰', '⑱', '⑲', '⑳',
    '㉑', '㉒', '㉓', '㉔', '㉕', '㉖', '㉗', '㉘', '㉙', '㉚',
    '㉛', '㉜', '㉝', '㉞', '㉟', '㊱', '㊲', '㊳', '㊴', '㊵',
    '㊶', '㊷', '㊸', '㊹', '㊺', '㊻', '㊼', '㊽', '㊾', '㊿',
];

/// Symbols, in counting order, of the `circled-lower-latin` numbering.
pub const CIRCLED_LOWER_LATIN: [char; 26] = [
    'ⓐ', 'ⓑ', 'ⓒ', 'ⓓ', 'ⓔ', 'ⓕ', 'ⓖ', 'ⓗ', 'ⓘ', 'ⓙ',
    'ⓚ', 'ⓛ', 'ⓜ', 'ⓝ', 'ⓞ', 'ⓟ', 'ⓠ', 'ⓡ', 'ⓢ', 'ⓣ',
    'ⓤ', 'ⓥ', 'ⓦ', 'ⓧ', 'ⓨ', 'ⓩ',
];

/// Symbols, in counting order, of the `circled-upper-latin` numbering.
pub const CIRCLED_UPPER_LATIN: [char; 26] = [
    'Ⓐ', 'Ⓑ', 'Ⓒ', 'Ⓓ', 'Ⓔ', 'Ⓕ', 'Ⓖ', 'Ⓗ', 'Ⓘ', 'Ⓙ',
    'Ⓚ', 'Ⓛ', 'Ⓜ', 'Ⓝ', 'Ⓞ', 'Ⓟ', 'Ⓠ', 'Ⓡ', 'Ⓢ', 'Ⓣ',
    'Ⓤ', 'Ⓥ', 'Ⓦ', 'Ⓧ', 'Ⓨ', 'Ⓩ',
];

/// Symbols, in counting order, of the `decimal` numbering.
pub const DECIMAL: [char; 10] = [
    '0', '1', '2', '3', '4', '5', '6', '7', '8', '9',
];

/// Symbols, in counting order, of the `devanagari` numbering.
pub const DEVANAGARI: [char; 10] = [
    '०', '१', '२', '३', '४', '५', '६', '७', '८', '९',
];

/// Symbols, in counting order, of the `double-circled-decimal` numbering.
pub const DOUBLE_CIRCLED_DECIMAL: [char; 10] = [
    '⓵', '⓶', '⓷', '⓸', '⓹', '⓺', '⓻', '⓼', '⓽', '⓾',
];

/// Symbols, in counting order, of the `filled-circled-decimal` numbering.
pub const FILLED_CIRCLED_DECIMAL: [char; 20] = [
    '❶', '❷', '❸', '❹', '❺', '❻', '❼', '❽', '❾', '❿',
    '⓫', '⓬', '⓭', '⓮', '⓯', '⓰', '⓱', '⓲', '⓳', '⓴',
];

/// Symbols and their weights, largest first, for the `greek-lower-ancient` numbering.
pub const GREEK_LOWER_ANCIENT: [(&'static str, usize); 28] = [
    ("ϡ", 900),
    ("ω", 800),
    ("ψ", 700),
    ("χ", 600),
    ("φ", 500),
    ("υ", 400),
    ("τ", 300),
    ("σ", 200),
    ("ρ", 100),
    ("ϟ", 90),
    ("π", 80),
    ("ο", 70),
    ("ξ", 60),
    ("ν", 50),
    ("μ", 40),
    ("λ", 30),
    ("κ", 20),
    ("ι", 10),
    ("θ", 9),
    ("η", 8),
    ("ζ", 7),
    ("ϛ", 6),
    ("ε", 5),
    ("δ", 4),
    ("γ", 3),
    ("β", 2),
    ("α", 1),
    ("𐆊", 0),
];

/// Symbols and their weights, largest first, for the `greek-lower-modern` numbering.
pub const GREEK_LOWER_MODERN: [(&'static str, usize); 28] = [
    ("ϡ", 900),
    ("ω", 800),
    ("ψ", 700),
    ("χ", 600),
    ("φ", 500),
    ("υ", 400),
    ("τ", 300),
    ("σ", 200),
    ("ρ", 100),
    ("ϟ", 90),
    ("π", 80),
    ("ο", 70),
    ("ξ", 60),
    ("ν", 50),
    ("μ", 40),
    ("λ", 30),
    ("κ", 20),
    ("ι", 10),
    ("θ", 9),
    ("η", 8),
    ("ζ", 7),
    ("στ", 6),
    ("ε", 5),
    ("δ", 4),
    ("γ", 3),
    ("β", 2),
    ("α", 1),
    ("𐆊", 0),
];

/// Symbols and their weights, largest first, for the `greek-upper-ancient` numbering.
pub const GREEK_UPPER_ANCIENT: [(&'static str, usize); 28] = [
    ("Ϡ", 900),
    ("Ω", 800),
    ("Ψ", 700),
    ("Χ", 600),
    ("Φ", 500),
    ("Υ", 400),
    ("Τ", 300),
    ("Σ", 200),
    ("Ρ", 100),
    ("Ϟ", 90),
    ("Π", 80),
    ("Ο", 70),
    ("Ξ", 60),
    ("Ν", 50),
    ("Μ", 40),
    ("Λ", 30),
    ("Κ", 20),
    ("Ι", 10),
    ("Θ", 9),
    ("Η", 8),
    ("Ζ", 7),
    ("Ϛ", 6),
    ("Ε", 5),
    ("Δ", 4),
    ("Γ", 3),
    ("Β", 2),
    ("Α", 1),
    ("𐆊", 0),
];

/// Symbols and their weights, largest first, for the `greek-upper-modern` numbering.
pub const GREEK_UPPER_MODERN: [(&'static str, usize); 28] = [
    ("Ϡ", 900),
    ("Ω", 800),
    ("Ψ", 700),
    ("Χ", 600),
    ("Φ", 500),
    ("Υ", 400),
    ("Τ", 300),
    ("Σ", 200),
    ("Ρ", 100),
    ("Ϟ", 90),
    ("Π", 80),
    ("Ο", 70),
    ("Ξ", 60),
    ("Ν", 50),
    ("Μ", 40),
    ("Λ", 30),
    ("Κ", 20),
    ("Ι", 10),
    ("Θ", 9),
    ("Η", 8),
    ("Ζ", 7),
    ("ΣΤ", 6),
    ("Ε", 5),
    ("Δ", 4),
    ("Γ", 3),
    ("Β", 2),
    ("Α", 1),
    ("𐆊", 0),
];

/// Symbols and their weights, largest first, for the `hebrew` numbering.
pub const HEBREW: [(&'static str, usize); 28] = [
    ("א׳", 1000),
    ("ת", 400),
    ("ש", 300),
    ("ר", 200),
    ("ק", 100),
    ("צ", 90),
    ("פ", 80),
    ("ע", 70),
    ("ס", 60),
    ("נ", 50),
    ("מ", 40),
    ("ל", 30),
    ("כ", 20),
    ("יט", 19),
    ("יח", 18),
    ("יז", 17),
    ("טז", 16),
    ("טו", 15),
    ("י", 10),
    ("ט", 9),
    ("ח", 8),
    ("ז", 7),
    ("ו", 6),
    ("ה", 5),
    ("ד", 4),
    ("ג", 3),
    ("ב", 2),
    ("א", 1),
];

/// Symbols, in counting order, of the `hiragana-aiueo` numbering.
pub const HIRAGANA_AIUEO: [char; 46] = [
    'あ', 'い', 'う', 'え', 'お', 'か', 'き', 'く', 'け', 'こ',
    'さ', 'し', 'す', 'せ', 'そ', 'た', 'ち', 'つ', 'て', 'と',
    'な', 'に', 'ぬ', 'ね', 'の', 'は', 'ひ', 'ふ', 'へ', 'ほ',
    'ま', 'み', 'む', 'め', 'も', 'や', 'ゆ', 'よ', 'ら', 'り',
    'る', 'れ', 'ろ', 'わ', 'を', 'ん',
];

/// Symbols, in counting order, of the `hiragana-iroha` numbering.
pub const HIRAGANA_IROHA: [char; 47] = [
    'い', 'ろ', 'は', 'に', 'ほ', 'へ', 'と', 'ち', 'り', 'ぬ',
    'る', 'を', 'わ', 'か', 'よ', 'た', 'れ', 'そ', 'つ', 'ね',
    'な', 'ら', 'む', 'う', 'ゐ', 'の', 'お', 'く', 'や', 'ま',
    'け', 'ふ', 'こ', 'え', 'て', 'あ', 'さ', 'き', 'ゆ', 'め',
    'み', 'し', 'ゑ', 'ひ', 'も', 'せ', 'す',
];

/// Symbols, in counting order, of the `kashmiri` numbering.
pub const KASHMIRI: [char; 42] = [
    'ا', 'آ', 'ب', 'پ', 'ت', 'ٹ', 'ث', 'ج', 'چ', 'ح',
    'خ', 'د', 'ڈ', 'ذ', 'ر', 'ڑ', 'ز', 'ژ', 'س', 'ش',
    'ص', 'ض', 'ط', 'ظ', 'ع', 'غ', 'ف', 'ق', 'ک', 'گ',
    'ل', 'م', 'ن', 'ں', 'و', 'ہ', 'ھ', 'ء', 'ی', 'ے',
    'ۄ', 'ؠ',
];

/// Symbols, in counting order, of the `katakana-aiueo` numbering.
pub const KATAKANA_AIUEO: [char; 46] = [
    'ア', 'イ', 'ウ', 'エ', 'オ', 'カ', 'キ', 'ク', 'ケ', 'コ',
    'サ', 'シ', 'ス', 'セ', 'ソ', 'タ', 'チ', 'ツ', 'テ', 'ト',
    'ナ', 'ニ', 'ヌ', 'ネ', 'ノ', 'ハ', 'ヒ', 'フ', 'ヘ', 'ホ',
    'マ', 'ミ', 'ム', 'メ', 'モ', 'ヤ', 'ユ', 'ヨ', 'ラ', 'リ',
    'ル', 'レ', 'ロ', 'ワ', 'ヲ', 'ン',
];

/// Symbols, in counting order, of the `katakana-iroha` numbering.
pub const KATAKANA_IROHA: [char; 47] = [
    'イ', 'ロ', 'ハ', 'ニ', 'ホ', 'ヘ', 'ト', 'チ', 'リ', 'ヌ',
    'ル', 'ヲ', 'ワ', 'カ', 'ヨ', 'タ', 'レ', 'ソ', 'ツ', 'ネ',
    'ナ', 'ラ', 'ム', 'ウ', 'ヰ', 'ノ', 'オ', 'ク', 'ヤ', 'マ',
    'ケ', 'フ', 'コ', 'エ', 'テ', 'ア', 'サ', 'キ', 'ユ', 'メ',
    'ミ', 'シ', 'ヱ', 'ヒ', 'モ', 'セ', 'ス',
];

/// Symbols, in counting order, of the `korean-jamo` numbering.
pub const KOREAN_JAMO: [char; 14] = [
    'ㄱ', 'ㄴ', 'ㄷ', 'ㄹ', 'ㅁ', 'ㅂ', 'ㅅ', 'ㅇ', 'ㅈ', 'ㅊ',
    'ㅋ', 'ㅌ', 'ㅍ', 'ㅎ',
];

/// Symbols, in counting order, of the `korean-syllable` numbering.
pub const KOREAN_SYLLABLE: [char; 14] = [
    '가', '나', '다', '라', '마', '바', '사', '아', '자', '차',
    '카', '타', '파', '하',
];

/// Symbols, in counting order, of the `lower-alpha` numbering.
pub const LOWER_ALPHA: [char; 26] = [
    'a', 'b', 'c', 'd', 'e', 'f', 'g', 'h', 'i', 'j',
    'k', 'l', 'm', 'n', 'o', 'p', 'q', 'r', 's', 't',
    'u', 'v', 'w', 'x', 'y', 'z',
];

/// Symbols, in counting order, of the `lower-belorussian` numbering.
pub const LOWER_BELORUSSIAN: [char; 32] = [
    'а', 'б', 'в', 'г', 'д', 'е', 'ё', 'ж', 'з', 'і',
    'й', 'к', 'л', 'м', 'н', 'о', 'п', 'р', 'с', 'т',
    'у', 'ў', 'ф', 'х', 'ц', 'ч', 'ш', 'ы', 'ь', 'э',
    'ю', 'я',
];

/// Symbols, in counting order, of the `lower-bulgarian` numbering.
pub const LOWER_BULGARIAN: [char; 30] = [
    'а', 'б', 'в', 'г', 'д', 'е', 'ж', 'з', 'и', 'й',
    'к', 'л', 'м', 'н', 'о', 'п', 'р', 'с', 'т', 'у',
    'ф', 'х', 'ц', 'ч', 'ш', 'щ', 'ъ', 'ь', 'ю', 'я',
];

/// Symbols, in counting order, of the `lower-greek` numbering.
pub const LOWER_GREEK: [char; 24] = [
    'α', 'β', 'γ', 'δ', 'ε', 'ζ', 'η', 'θ', 'ι', 'κ',
    'λ', 'μ', 'ν', 'ξ', 'ο', 'π', 'ρ', 'σ', 'τ', 'υ',
    'φ', 'χ', 'ψ', 'ω',
];

/// Symbols, in counting order, of the `lower-macedonian` numbering.
pub const LOWER_MACEDONIAN: [char; 31] = [
    'а', 'б', 'в', 'г', 'д', 'ѓ', 'е', 'ж', 'з', 'ѕ',
    'и', 'ј', 'к', 'л', 'љ', 'м', 'н', 'њ', 'о', 'п',
    'р', 'с', 'т', 'ќ', 'у', 'ф', 'х', 'ц', 'ч', 'џ',
    'ш',
];

/// Symbols and their weights, largest first, for the `lower-roman` numbering.
pub const LOWER_ROMAN: [(&'static str, usize); 13] = [
    ("m", 1000),
    ("cm", 900),
    ("d", 500),
    ("cd", 400),
    ("c", 100),
    ("xc", 90),
    ("l", 50),
    ("xl", 40),
    ("x", 10),
    ("ix", 9),
    ("v", 5),
    ("iv", 4),
    ("i", 1),
];

/// Symbols, in counting order, of the `lower-russian` numbering.
pub const LOWER_RUSSIAN: [char; 28] = [
    'а', 'б', 'в', 'г', 'д', 'е', 'ж', 'з', 'и', 'к',
    'л', 'м', 'н', 'о', 'п', 'р', 'с', 'т', 'у', 'ф',
    'х', 'ц', 'ч', 'ш', 'щ', 'э', 'ю', 'я',
];

/// Symbols, in counting order, of the `lower-russian-full` numbering.
pub const LOWER_RUSSIAN_FULL: [char; 33] = [
    'а', 'б', 'в', 'г', 'д', 'е', 'ё', 'ж', 'з', 'и',
    'й', 'к', 'л', 'м', 'н', 'о', 'п', 'р', 'с', 'т',
    'у', 'ф', 'х', 'ц', 'ч', 'ш', 'щ', 'ъ', 'ы', 'ь',
    'э', 'ю', 'я',
];

/// Symbols, in counting order, of the `lower-serbian` numbering.
pub const LOWER_SERBIAN: [char; 30] = [
    'а', 'б', 'в', 'г', 'д', 'ђ', 'е', 'ж', 'з', 'и',
    'ј', 'к', 'л', 'љ', 'м', 'н', 'њ', 'о', 'п', 'р',
    'с', 'т', 'ћ', 'у', 'ф', 'х', 'ц', 'ч', 'џ', 'ш',
];

/// Symbols, in counting order, of the `lower-ukrainian` numbering.
pub const LOWER_UKRAINIAN: [char; 28] = [
    'а', 'б', 'в', 'г', 'д', 'е', 'є', 'ж', 'з', 'и',
    'і', 'к', 'л', 'м', 'н', 'о', 'п', 'р', 'с', 'т',
    'у', 'ф', 'х', 'ц', 'ч', 'ш', 'ю', 'я',
];

/// Symbols, in counting order, of the `lower-ukrainian-full` numbering.
pub const LOWER_UKRAINIAN_FULL: [char; 33] = [
    'а', 'б', 'в', 'г', 'ґ', 'д', 'е', 'є', 'ж', 'з',
    'и', 'і', 'ї', 'й', 'к', 'л', 'м', 'н', 'о', 'п',
    'р', 'с', 'т', 'у', 'ф', 'х', 'ц', 'ч', 'ш', 'щ',
    'ь', 'ю', 'я',
];

/// Symbols, in counting order, of the `maghrebi-abjad` numbering.
pub const MAGHREBI_ABJAD: [char; 28] = [
    'ا', 'ب', 'ج', 'د', 'ه', 'و', 'ز', 'ح', 'ط', 'ي',
    'ك', 'ل', 'م', 'ن', 'ص', 'ع', 'ف', 'ض', 'ق', 'ر',
    'س', 'ت', 'ث', 'خ', 'ذ', 'ظ', 'غ', 'ش',
];

/// Symbols, in counting order, of the `persian` numbering.
pub const PERSIAN: [char; 10] = [
    '۰', '۱', '۲', '۳', '۴', '۵', '۶', '۷', '۸', '۹',
];

/// Symbols, in counting order, of the `symbol` numbering.
pub const SYMBOL: [char; 6] = [
    '*', '†', '‡', '§', '¶', '‖',
];

/// Symbols and their weights, largest first, for the `tally-mark` numbering.
pub const TALLY_MARK: [(&'static str, usize); 2] = [
    ("𝍸", 5),
    ("𝍷", 1),
];

/// Symbols, in counting order, of the `upper-alpha` numbering.
pub const UPPER_ALPHA: [char; 26] = [
    'A', 'B', 'C', 'D', 'E', 'F', 'G', 'H', 'I', 'J',
    'K', 'L', 'M', 'N', 'O', 'P', 'Q', 'R', 'S', 'T',
    'U', 'V', 'W', 'X', 'Y', 'Z',
];

/// Symbols, in counting order, of the `upper-belorussian` numbering.
pub const UPPER_BELORUSSIAN: [char; 32] = [
    'А', 'Б', 'В', 'Г', 'Д', 'Е', 'Ё', 'Ж', 'З', 'І',
    'Й', 'К', 'Л', 'М', 'Н', 'О', 'П', 'Р', 'С', 'Т',
    'У', 'Ў', 'Ф', 'Х', 'Ц', 'Ч', 'Ш', 'Ы', 'Ь', 'Э',
    'Ю', 'Я',
];

/// Symbols, in counting order, of the `upper-bulgarian` numbering.
pub const UPPER_BULGARIAN: [char; 30] = [
    'А', 'Б', 'В', 'Г', 'Д', 'Е', 'Ж', 'З', 'И', 'Й',
    'К', 'Л', 'М', 'Н', 'О', 'П', 'Р', 'С', 'Т', 'У',
    'Ф', 'Х', 'Ц', 'Ч', 'Ш', 'Щ', 'Ъ', 'Ь', 'Ю', 'Я',
];

/// Symbols, in counting order, of the `upper-greek` numbering.
pub const UPPER_GREEK: [char; 24] = [
    'Α', 'Β', 'Γ', 'Δ', 'Ε', 'Ζ', 'Η', 'Θ', 'Ι', 'Κ',
    'Λ', 'Μ', 'Ν', 'Ξ', 'Ο', 'Π', 'Ρ', 'Σ', 'Τ', 'Υ',
    'Φ', 'Χ', 'Ψ', 'Ω',
];

/// Symbols, in counting order, of the `upper-macedonian` numbering.
pub const UPPER_MACEDONIAN: [char; 31] = [
    'А', 'Б', 'В', 'Г', 'Д', 'Ѓ', 'Е', 'Ж', 'З', 'Ѕ',
    'И', 'Ј', 'К', 'Л', 'Љ', 'М', 'Н', 'Њ', 'О', 'П',
    'Р', 'С', 'Т', 'Ќ', 'У', 'Ф', 'Х', 'Ц', 'Ч', 'Џ',
    'Ш',
];

/// Symbols and their weights, largest first, for the `upper-roman` numbering.
pub const UPPER_ROMAN: [(&'static str, usize); 13] = [
    ("M", 1000),
    ("CM", 900),
    ("D", 500),
    ("CD", 400),
    ("C", 100),
    ("XC", 90),
    ("L", 50),
    ("XL", 40),
    ("X", 10),
    ("IX", 9),
    ("V", 5),
    ("IV", 4),
    ("I", 1),
];

/// Symbols, in counting order, of the `upper-russian` numbering.
pub const UPPER_RUSSIAN: [char; 28] = [
    'А', 'Б', 'В', 'Г', 'Д', 'Е', 'Ж', 'З', 'И', 'К',
    'Л', 'М', 'Н', 'О', 'П', 'Р', 'С', 'Т', 'У', 'Ф',
    'Х', 'Ц', 'Ч', 'Ш', 'Щ', 'Э', 'Ю', 'Я',
];

/// Symbols, in counting order, of the `upper-russian-full` numbering.
pub const UPPER_RUSSIAN_FULL: [char; 33] = [
    'А', 'Б', 'В', 'Г', 'Д', 'Е', 'Ё', 'Ж', 'З', 'И',
    'Й', 'К', 'Л', 'М', 'Н', 'О', 'П', 'Р', 'С', 'Т',
    'У', 'Ф', 'Х', 'Ц', 'Ч', 'Ш', 'Щ', 'Ъ', 'Ы', 'Ь',
    'Э', 'Ю', 'Я',
];

/// Symbols, in counting order, of the `upper-serbian` numbering.
pub const UPPER_SERBIAN: [char; 30] = [
    'А', 'Б', 'В', 'Г', 'Д', 'Ђ', 'Е', 'Ж', 'З', 'И',
    'Ј', 'К', 'Л', 'Љ', 'М', 'Н', 'Њ', 'О', 'П', 'Р',
    'С', 'Т', 'Ћ', 'У', 'Ф', 'Х', 'Ц', 'Ч', 'Џ', 'Ш',
];

/// Symbols, in counting order, of the `upper-ukrainian` numbering.
pub const UPPER_UKRAINIAN: [char; 28] = [
    'А', 'Б', 'В', 'Г', 'Д', 'Е', 'Є', 'Ж', 'З', 'И',
    'І', 'К', 'Л', 'М', 'Н', 'О', 'П', 'Р', 'С', 'Т',
    'У', 'Ф', 'Х', 'Ц', 'Ч', 'Ш', 'Ю', 'Я',
];

/// Symbols, in counting order, of the `upper-ukrainian-full` numbering.
pub const UPPER_UKRAINIAN_FULL: [char; 33] = [
    'А', 'Б', 'В', 'Г', 'Ґ', 'Д', 'Е', 'Є', 'Ж', 'З',
    'И', 'І', 'Ї', 'Й', 'К', 'Л', 'М', 'Н', 'О', 'П',
    'Р', 'С', 'Т', 'У', 'Ф', 'Х', 'Ц', 'Ч', 'Ш', 'Щ',
    'Ь', 'Ю', 'Я',
];

} // verus!
