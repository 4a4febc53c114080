//! Laws of the library: what holds of all inputs or relates several
//! functions.

use vstd::prelude::*;
use crate::pattern::{
    named_form,
    first_brace, kth_text, parse_outcome, pattern_text, scan, scan_start, scan_step, segment,
    segments, PatternView, ScanState,
};
use crate::kind::{kind_named, kind_of_symbol, kind_text, name_of, NumberingKind};
use crate::symbols::{
    BANGLA, HEBREW, HIRAGANA_AIUEO, HIRAGANA_IROHA, KATAKANA_AIUEO, KATAKANA_IROHA, KOREAN_JAMO,
    KOREAN_SYLLABLE, LOWER_ALPHA, LOWER_GREEK, LOWER_ROMAN, UPPER_ALPHA, UPPER_GREEK,
    DECIMAL, SYMBOL, UPPER_ROMAN,
};
use crate::systems::{greedy, lemma_bijective_one, lemma_repeated_once, positional, repeated};

verus! {

/// The lengths of the kinds' names, and the characters that tell apart
/// names of the same length.
proof fn lemma_name_letters()
    ensures
        "adlam"@.len() == 5,
        "arabic-abjad"@.len() == 12,
        "arabic-abjad"@[7] == 'a',
        "arabic-indic"@.len() == 12,
        "arabic-indic"@[7] == 'i',
        "bangla"@.len() == 6,
        "bangla"@[0] == 'b',
        "bengali"@.len() == 7,
        "bengali"@[0] == 'b',
        "circled-decimal"@.len() == 15,
        "circled-decimal"@[0] == 'c',
        "circled-lower-latin"@.len() == 19,
        "circled-lower-latin"@[0] == 'c',
        "circled-lower-latin"@[8] == 'l',
        "circled-upper-latin"@.len() == 19,
        "circled-upper-latin"@[0] == 'c',
        "circled-upper-latin"@[8] == 'u',
        "decimal"@.len() == 7,
        "decimal"@[0] == 'd',
        "devanagari"@.len() == 10,
        "devanagari"@[0] == 'd',
        "double-circled-decimal"@.len() == 22,
        "double-circled-decimal"@[0] == 'd',
        "filled-circled-decimal"@.len() == 22,
        "filled-circled-decimal"@[0] == 'f',
        "greek-lower-ancient"@.len() == 19,
        "greek-lower-ancient"@[0] == 'g',
        "greek-lower-ancient"@[6] == 'l',
        "greek-lower-modern"@.len() == 18,
        "greek-lower-modern"@[0] == 'g',
        "greek-lower-modern"@[6] == 'l',
        "greek-upper-ancient"@.len() == 19,
        "greek-upper-ancient"@[0] == 'g',
        "greek-upper-ancient"@[6] == 'u',
        "greek-upper-modern"@.len() == 18,
        "greek-upper-modern"@[0] == 'g',
        "greek-upper-modern"@[6] == 'u',
        "hebrew"@.len() == 6,
        "hebrew"@[0] == 'h',
        "hiragana"@.len() == 8,
        "hiragana"@[0] == 'h',
        "hiragana-iroha"@.len() == 14,
        "hiragana-iroha"@[0] == 'h',
        "kashmiri"@.len() == 8,
        "kashmiri"@[0] == 'k',
        "kashmiri"@[2] == 's',
        "katakana"@.len() == 8,
        "katakana"@[0] == 'k',
        "katakana"@[2] == 't',
        "katakana-iroha"@.len() == 14,
        "katakana-iroha"@[0] == 'k',
        "korean"@.len() == 6,
        "korean"@[0] == 'k',
        "korean-syllable"@.len() == 15,
        "korean-syllable"@[0] == 'k',
        "lower-alpha"@.len() == 11,
        "lower-alpha"@[0] == 'l',
        "lower-alpha"@[6] == 'a',
        "lower-belorussian"@.len() == 17,
        "lower-belorussian"@[0] == 'l',
        "lower-bulgarian"@.len() == 15,
        "lower-bulgarian"@[0] == 'l',
        "lower-bulgarian"@[6] == 'b',
        "lower-greek"@.len() == 11,
        "lower-greek"@[0] == 'l',
        "lower-greek"@[6] == 'g',
        "lower-macedonian"@.len() == 16,
        "lower-macedonian"@[0] == 'l',
        "lower-roman"@.len() == 11,
        "lower-roman"@[0] == 'l',
        "lower-roman"@[6] == 'r',
        "lower-russian"@.len() == 13,
        "lower-russian"@[0] == 'l',
        "lower-russian"@[6] == 'r',
        "lower-russian-full"@.len() == 18,
        "lower-russian-full"@[0] == 'l',
        "lower-serbian"@.len() == 13,
        "lower-serbian"@[0] == 'l',
        "lower-serbian"@[6] == 's',
        "lower-ukrainian"@.len() == 15,
        "lower-ukrainian"@[0] == 'l',
        "lower-ukrainian"@[6] == 'u',
        "lower-ukrainian-full"@.len() == 20,
        "lower-ukrainian-full"@[0] == 'l',
        "maghrebi-abjad"@.len() == 14,
        "maghrebi-abjad"@[0] == 'm',
        "persian"@.len() == 7,
        "persian"@[0] == 'p',
        "simp-chinese-formal"@.len() == 19,
        "simp-chinese-formal"@[0] == 's',
        "simp-chinese-informal"@.len() == 21,
        "simp-chinese-informal"@[0] == 's',
        "symbol"@.len() == 6,
        "symbol"@[0] == 's',
        "tally-mark"@.len() == 10,
        "tally-mark"@[0] == 't',
        "trad-chinese-formal"@.len() == 19,
        "trad-chinese-formal"@[0] == 't',
        "trad-chinese-informal"@.len() == 21,
        "trad-chinese-informal"@[0] == 't',
        "upper-alpha"@.len() == 11,
        "upper-alpha"@[0] == 'u',
        "upper-alpha"@[6] == 'a',
        "upper-belorussian"@.len() == 17,
        "upper-belorussian"@[0] == 'u',
        "upper-bulgarian"@.len() == 15,
        "upper-bulgarian"@[0] == 'u',
        "upper-bulgarian"@[6] == 'b',
        "upper-greek"@.len() == 11,
        "upper-greek"@[0] == 'u',
        "upper-greek"@[6] == 'g',
        "upper-macedonian"@.len() == 16,
        "upper-macedonian"@[0] == 'u',
        "upper-roman"@.len() == 11,
        "upper-roman"@[0] == 'u',
        "upper-roman"@[6] == 'r',
        "upper-russian"@.len() == 13,
        "upper-russian"@[0] == 'u',
        "upper-russian"@[6] == 'r',
        "upper-russian-full"@.len() == 18,
        "upper-russian-full"@[0] == 'u',
        "upper-serbian"@.len() == 13,
        "upper-serbian"@[0] == 'u',
        "upper-serbian"@[6] == 's',
        "upper-ukrainian"@.len() == 15,
        "upper-ukrainian"@[0] == 'u',
        "upper-ukrainian"@[6] == 'u',
        "upper-ukrainian-full"@.len() == 20,
        "upper-ukrainian-full"@[0] == 'u',
{
    reveal_strlit("adlam");
    reveal_strlit("arabic-abjad");
    reveal_strlit("arabic-indic");
    reveal_strlit("bangla");
    reveal_strlit("bengali");
    reveal_strlit("circled-decimal");
    reveal_strlit("circled-lower-latin");
    reveal_strlit("circled-upper-latin");
    reveal_strlit("decimal");
    reveal_strlit("devanagari");
    reveal_strlit("double-circled-decimal");
    reveal_strlit("filled-circled-decimal");
    reveal_strlit("greek-lower-ancient");
    reveal_strlit("greek-lower-modern");
    reveal_strlit("greek-upper-ancient");
    reveal_strlit("greek-upper-modern");
    reveal_strlit("hebrew");
    reveal_strlit("hiragana");
    reveal_strlit("hiragana-iroha");
    reveal_strlit("kashmiri");
    reveal_strlit("katakana");
    reveal_strlit("katakana-iroha");
    reveal_strlit("korean");
    reveal_strlit("korean-syllable");
    reveal_strlit("lower-alpha");
    reveal_strlit("lower-belorussian");
    reveal_strlit("lower-bulgarian");
    reveal_strlit("lower-greek");
    reveal_strlit("lower-macedonian");
    reveal_strlit("lower-roman");
    reveal_strlit("lower-russian");
    reveal_strlit("lower-russian-full");
    reveal_strlit("lower-serbian");
    reveal_strlit("lower-ukrainian");
    reveal_strlit("lower-ukrainian-full");
    reveal_strlit("maghrebi-abjad");
    reveal_strlit("persian");
    reveal_strlit("simp-chinese-formal");
    reveal_strlit("simp-chinese-informal");
    reveal_strlit("symbol");
    reveal_strlit("tally-mark");
    reveal_strlit("trad-chinese-formal");
    reveal_strlit("trad-chinese-informal");
    reveal_strlit("upper-alpha");
    reveal_strlit("upper-belorussian");
    reveal_strlit("upper-bulgarian");
    reveal_strlit("upper-greek");
    reveal_strlit("upper-macedonian");
    reveal_strlit("upper-roman");
    reveal_strlit("upper-russian");
    reveal_strlit("upper-russian-full");
    reveal_strlit("upper-serbian");
    reveal_strlit("upper-ukrainian");
    reveal_strlit("upper-ukrainian-full");
}

/// Reading the name of a kind gives the kind back.
pub proof fn lemma_name_round_trip(kind: NumberingKind)
    ensures
        kind_named(name_of(kind)) == Some(kind),
{
    lemma_name_letters();
}

/// The names that are read are exactly the kinds' names: a name read as a
/// kind is that kind's name, so each kind has exactly one name.
pub proof fn lemma_named_is_name_of(s: Seq<char>)
    ensures
        kind_named(s) matches Some(kind) ==> s == name_of(kind),
{
}

/// Different kinds have different names.
pub proof fn lemma_names_distinct(a: NumberingKind, b: NumberingKind)
    requires
        a != b,
    ensures
        name_of(a) != name_of(b),
{
    lemma_name_round_trip(a);
    lemma_name_round_trip(b);
}

/// A counting symbol is its kind's text for the number one: replacing the
/// symbol in a pattern by the number in that kind keeps the symbol itself
/// for one (and so its case).
pub proof fn lemma_symbol_writes_one(c: char, kind: NumberingKind)
    requires
        kind_of_symbol(c) == Some(kind),
    ensures
        kind_text(kind, 1) == seq![c],
{
    reveal_with_fuel(greedy, 30);
    reveal_strlit("א");
    reveal_strlit("i");
    reveal_strlit("I");
    lemma_repeated_once(seq![c]);
    lemma_repeated_once("א"@);
    lemma_repeated_once("i"@);
    lemma_repeated_once("I"@);
    match kind {
        NumberingKind::ArabicIndic => {
            assert(c == '١');
        },
        NumberingKind::Bangla => {
            assert(c == 'ক');
            lemma_bijective_one(BANGLA@);
        },
        NumberingKind::Bengali => {
            assert(c == '১');
        },
        NumberingKind::CircledDecimal => {
            assert(c == '①');
        },
        NumberingKind::Decimal => {
            assert(c == '1');
        },
        NumberingKind::DoubleCircledDecimal => {
            assert(c == '⓵');
        },
        NumberingKind::Devanagari => {
            assert(c == '१');
        },
        NumberingKind::Hebrew => {
            assert(c == 'א');
            assert("א"@ =~= seq!['א']);
            assert(greedy(HEBREW@, 28, 0) == Seq::<char>::empty());
            assert(HEBREW@[27].1 == 1);
            assert(HEBREW@[27].0@ == "א"@);
            assert(greedy(HEBREW@, 27, 1) == "א"@);
            assert(greedy(HEBREW@, 26, 1) == "א"@);
            assert(greedy(HEBREW@, 0, 1) == "א"@);
        },
        NumberingKind::HiraganaAiueo => {
            assert(c == 'あ');
            lemma_bijective_one(HIRAGANA_AIUEO@);
        },
        NumberingKind::HiraganaIroha => {
            assert(c == 'い');
            lemma_bijective_one(HIRAGANA_IROHA@);
        },
        NumberingKind::KatakanaAiueo => {
            assert(c == 'ア');
            lemma_bijective_one(KATAKANA_AIUEO@);
        },
        NumberingKind::KatakanaIroha => {
            assert(c == 'イ');
            lemma_bijective_one(KATAKANA_IROHA@);
        },
        NumberingKind::KoreanJamo => {
            assert(c == 'ㄱ');
            lemma_bijective_one(KOREAN_JAMO@);
        },
        NumberingKind::KoreanSyllable => {
            assert(c == '가');
            lemma_bijective_one(KOREAN_SYLLABLE@);
        },
        NumberingKind::LowerAlpha => {
            assert(c == 'a');
            lemma_bijective_one(LOWER_ALPHA@);
        },
        NumberingKind::LowerGreek => {
            assert(c == 'α');
            lemma_bijective_one(LOWER_GREEK@);
        },
        NumberingKind::LowerRoman => {
            assert(c == 'i');
            assert("i"@ =~= seq!['i']);
            assert(greedy(LOWER_ROMAN@, 13, 0) == Seq::<char>::empty());
            assert(LOWER_ROMAN@[12].1 == 1);
            assert(LOWER_ROMAN@[12].0@ == "i"@);
            assert(greedy(LOWER_ROMAN@, 12, 1) == "i"@);
            assert(greedy(LOWER_ROMAN@, 11, 1) == "i"@);
            assert(greedy(LOWER_ROMAN@, 0, 1) == "i"@);
        },
        NumberingKind::Persian => {
            assert(c == '۱');
        },
        NumberingKind::Symbol => {
            assert(c == '*');
        },
        NumberingKind::UpperAlpha => {
            assert(c == 'A');
            lemma_bijective_one(UPPER_ALPHA@);
        },
        NumberingKind::UpperGreek => {
            assert(c == 'Α');
            lemma_bijective_one(UPPER_GREEK@);
        },
        NumberingKind::UpperRoman => {
            assert(c == 'I');
            assert("I"@ =~= seq!['I']);
            assert(greedy(UPPER_ROMAN@, 13, 0) == Seq::<char>::empty());
            assert(UPPER_ROMAN@[12].1 == 1);
            assert(UPPER_ROMAN@[12].0@ == "I"@);
            assert(greedy(UPPER_ROMAN@, 12, 1) == "I"@);
            assert(greedy(UPPER_ROMAN@, 11, 1) == "I"@);
            assert(greedy(UPPER_ROMAN@, 0, 1) == "I"@);
        },
        NumberingKind::SimpChineseFormal => {
            assert(c == '壹');
        },
        NumberingKind::SimpChineseInformal => {
            assert(c == '一');
        },
        _ => {
            assert(false);
        },
    }
}

/// The texts of the first `count` numbers under a trimmed pattern are those
/// under the same pattern untrimmed, without the first prefix.
proof fn lemma_trimmed_segments(p: PatternView, numbers: Seq<usize>, count: nat)
    requires
        !p.trimmed,
        p.pieces.len() > 0,
        count >= 1,
    ensures
        segments(p, numbers, count) == p.pieces[0].0 + segments(
            PatternView { trimmed: true, ..p },
            numbers,
            count,
        ),
    decreases count,
{
    let t = PatternView { trimmed: true, ..p };
    if count == 1 {
        assert(segments(p, numbers, 0) == Seq::<char>::empty());
        assert(segments(t, numbers, 0) == Seq::<char>::empty());
        assert(segment(p, numbers, 0) == p.pieces[0].0 + segment(t, numbers, 0));
        assert(segments(p, numbers, 1) =~= p.pieces[0].0 + segments(t, numbers, 1));
    } else {
        lemma_trimmed_segments(p, numbers, (count - 1) as nat);
        assert(segment(p, numbers, count - 1) == segment(t, numbers, count - 1));
        assert(segments(p, numbers, count) =~= p.pieces[0].0 + segments(t, numbers, count));
    }
}

/// A trimmed pattern writes the same text as the untrimmed one without the
/// first prefix and without the suffix, for any non-empty list of numbers.
pub proof fn lemma_trimmed_text(p: PatternView, numbers: Seq<usize>)
    requires
        !p.trimmed,
        p.pieces.len() > 0,
        numbers.len() > 0,
    ensures
        pattern_text(p, numbers) == p.pieces[0].0 + pattern_text(
            PatternView { trimmed: true, ..p },
            numbers,
        ) + p.suffix,
{
    let t = PatternView { trimmed: true, ..p };
    lemma_trimmed_segments(p, numbers, numbers.len());
    assert(pattern_text(t, numbers) =~= segments(t, numbers, numbers.len()));
    assert(pattern_text(p, numbers) =~= p.pieces[0].0 + pattern_text(t, numbers) + p.suffix);
}

/// The first segment alone is the text of the pattern for a single number,
/// when the pattern is not trimmed.
pub proof fn lemma_first_segment_alone(p: PatternView, number: usize)
    requires
        !p.trimmed,
        p.pieces.len() > 0,
    ensures
        kth_text(p, 0, number) == pattern_text(p, seq![number]),
{
    let numbers = seq![number];
    assert(segments(p, numbers, 0) == Seq::<char>::empty());
    assert(segments(p, numbers, 1) =~= segment(p, numbers, 0));
    assert(kth_text(p, 0, number) =~= pattern_text(p, numbers));
}

/// The counting symbol that stands for a kind in the plain form of a
/// pattern (a space for the kinds that only a name stands for).
pub open spec fn symbol_of(kind: NumberingKind) -> char {
    match kind {
        NumberingKind::ArabicIndic => '١',
        NumberingKind::Bangla => 'ক',
        NumberingKind::Bengali => '১',
        NumberingKind::CircledDecimal => '①',
        NumberingKind::Decimal => '1',
        NumberingKind::DoubleCircledDecimal => '⓵',
        NumberingKind::Devanagari => '१',
        NumberingKind::Hebrew => 'א',
        NumberingKind::HiraganaAiueo => 'あ',
        NumberingKind::HiraganaIroha => 'い',
        NumberingKind::KatakanaAiueo => 'ア',
        NumberingKind::KatakanaIroha => 'イ',
        NumberingKind::KoreanJamo => 'ㄱ',
        NumberingKind::KoreanSyllable => '가',
        NumberingKind::LowerAlpha => 'a',
        NumberingKind::LowerGreek => 'α',
        NumberingKind::LowerRoman => 'i',
        NumberingKind::Persian => '۱',
        NumberingKind::SimpChineseFormal => '壹',
        NumberingKind::SimpChineseInformal => '一',
        NumberingKind::Symbol => '*',
        NumberingKind::UpperAlpha => 'A',
        NumberingKind::UpperGreek => 'Α',
        NumberingKind::UpperRoman => 'I',
        _ => ' ',
    }
}

/// The plain form of a list of pieces: each prefix followed by the counting
/// symbol of its kind.
pub open spec fn plain_form(pieces: Seq<(Seq<char>, NumberingKind)>) -> Seq<char>
    decreases pieces.len(),
{
    if pieces.len() == 0 {
        Seq::empty()
    } else {
        plain_form(pieces.drop_last()) + pieces.last().0 + seq![symbol_of(pieces.last().1)]
    }
}

/// The counting symbol of a kind read from a character is that character.
proof fn lemma_symbol_of(c: char)
    ensures
        kind_of_symbol(c) matches Some(kind) ==> symbol_of(kind) == c,
{
}

/// Without a `{`, the first `{` from `k` on is the end.
proof fn lemma_no_brace(s: Seq<char>, k: int)
    requires
        0 <= k <= s.len(),
        forall|i: int| 0 <= i < s.len() ==> s[i] != '{',
    ensures
        first_brace(s, k) == s.len(),
    decreases s.len() - k,
{
    if k < s.len() {
        lemma_no_brace(s, k + 1);
    }
}

/// The kinds of the counting symbols of `s`, in order.
pub open spec fn counting_kinds(s: Seq<char>) -> Seq<NumberingKind>
    decreases s.len(),
{
    if s.len() == 0 {
        Seq::empty()
    } else {
        counting_kinds(s.drop_last()) + match kind_of_symbol(s.last()) {
            Some(kind) => seq![kind],
            None => Seq::empty(),
        }
    }
}

/// The kinds of a list of pieces, in order.
pub open spec fn piece_kinds(pieces: Seq<(Seq<char>, NumberingKind)>) -> Seq<NumberingKind> {
    pieces.map_values(|piece: (Seq<char>, NumberingKind)| piece.1)
}

/// What reading a pattern in the plain form keeps: the pieces read so far,
/// in plain form, followed by the part not yet used up, make up what was
/// read; and there is one piece for each counting symbol read, in order.
pub open spec fn plain_scan_inv(s: Seq<char>, st: ScanState, k: int) -> bool {
    &&& 0 <= st.handled <= k <= s.len()
    &&& plain_form(st.pieces) + s.subrange(st.handled, k) == s.subrange(0, k)
    &&& piece_kinds(st.pieces) == counting_kinds(s.subrange(0, k))
}

/// Reading the rest of a pattern without braces in the plain form keeps
/// [`plain_scan_inv`].
proof fn lemma_plain_scan(s: Seq<char>, st: ScanState, k: int)
    requires
        forall|i: int| 0 <= i < s.len() ==> s[i] != '{' && s[i] != '}',
        plain_scan_inv(s, st, k),
    ensures
        plain_scan_inv(s, scan(s, false, st, k, s.len() as int), s.len() as int),
    decreases s.len() - k,
{
    if k < s.len() {
        let c = s[k];
        lemma_symbol_of(c);
        let next = scan_step(s, false, st, k);
        assert(s.subrange(0, k + 1) =~= s.subrange(0, k) + seq![c]);
        assert(s.subrange(0, k + 1).drop_last() =~= s.subrange(0, k));
        match kind_of_symbol(c) {
            Some(kind) => {
                assert(next.pieces.drop_last() =~= st.pieces);
                assert(plain_form(next.pieces) + s.subrange(next.handled, k + 1) =~= s.subrange(0, k + 1)) by {
                    assert(s.subrange(0, k) =~= plain_form(st.pieces) + s.subrange(st.handled, k));
                }
                assert(piece_kinds(next.pieces) =~= piece_kinds(st.pieces) + seq![kind]);
            },
            None => {
                assert(plain_form(next.pieces) + s.subrange(next.handled, k + 1) =~= s.subrange(0, k + 1)) by {
                    assert(s.subrange(st.handled, k + 1) =~= s.subrange(st.handled, k) + seq![c]);
                }
                assert(counting_kinds(s.subrange(0, k + 1)) =~= counting_kinds(s.subrange(0, k)));
            },
        }
        assert(plain_scan_inv(s, next, k + 1));
        lemma_plain_scan(s, next, k + 1);
    }
}

/// A pattern without braces has one piece for each of its counting symbols,
/// in order, and is invalid exactly when it has none; its pieces in plain
/// form, followed by the suffix, give the pattern back.
pub proof fn lemma_plain_round_trip(s: Seq<char>)
    requires
        forall|i: int| 0 <= i < s.len() ==> s[i] != '{' && s[i] != '}',
    ensures
        match parse_outcome(s) {
            None => counting_kinds(s).len() == 0,
            Some(v) => {
                &&& piece_kinds(v.pieces) == counting_kinds(s)
                &&& plain_form(v.pieces) + v.suffix == s
                &&& !v.trimmed
            },
        },
{
    lemma_no_brace(s, 0);
    assert(s.subrange(0, 0) =~= Seq::<char>::empty());
    assert(plain_form(scan_start().pieces) == Seq::<char>::empty());
    assert(piece_kinds(scan_start().pieces) =~= Seq::<NumberingKind>::empty());
    assert(plain_scan_inv(s, scan_start(), 0));
    lemma_plain_scan(s, scan_start(), 0);
    assert(s.subrange(0, s.len() as int) =~= s);
}

/// Symbolic numbering counts with `*`, `†`, `‡`, `§`, `¶` and `‖` in turn,
/// and six items further on writes the same symbol once more.
pub proof fn lemma_symbol_rounds(n: usize)
    requires
        1 <= n <= usize::MAX - 6,
    ensures
        n <= 6 ==> kind_text(NumberingKind::Symbol, n) == seq![SYMBOL@[n - 1]],
        kind_text(NumberingKind::Symbol, (n + 6) as usize) == kind_text(NumberingKind::Symbol, n).push(
            SYMBOL@[(n - 1) % 6],
        ),
{
    let c = SYMBOL@[(n - 1) % 6];
    assert((n + 5) % 6 == (n - 1) % 6 && (n + 5) / 6 == (n - 1) / 6 + 1) by (nonlinear_arith)
        requires n >= 1;
    assert(repeated(seq![c], ((n - 1) / 6 + 2) as nat) =~= repeated(seq![c], ((n - 1) / 6 + 1) as nat) + seq![c]);
    if n <= 6 {
        assert((n - 1) / 6 == 0 && (n - 1) % 6 == n - 1) by (nonlinear_arith)
            requires 1 <= n <= 6;
        lemma_repeated_once(seq![c]);
    }
}

/// Reading the verbose form over the characters of a name between `{` (at
/// the start) and `}` (at position `end`) changes nothing.
proof fn lemma_scan_inside_braces(s: Seq<char>, st: ScanState, k: int, end: int)
    requires
        1 <= k <= end < s.len(),
        forall|i: int| 1 <= i < end ==> s[i] != '{' && s[i] != '}',
    ensures
        scan(s, true, st, k, s.len() as int) == scan(s, true, st, end, s.len() as int),
    decreases end - k,
{
    if k < end {
        lemma_scan_inside_braces(s, st, k + 1, end);
    }
}

/// A pattern that is just a kind's name in braces is read as that kind
/// alone, with no prefix and no suffix.
pub proof fn lemma_braced_name(name: Seq<char>, kind: NumberingKind)
    requires
        kind_named(name) == Some(kind),
        forall|i: int| 0 <= i < name.len() ==> name[i] != '{' && name[i] != '}',
    ensures
        parse_outcome(seq!['{'] + name + seq!['}']) == Some(
            PatternView {
                pieces: seq![(Seq::<char>::empty(), kind)],
                suffix: Seq::<char>::empty(),
                trimmed: false,
            },
        ),
{
    let s = seq!['{'] + name + seq!['}'];
    let len = s.len() as int;
    assert(s[0] == '{');
    assert(s[len - 1] == '}');
    assert forall|i: int| 1 <= i < len - 1 implies s[i] != '{' && s[i] != '}' by {
        assert(s[i] == name[i - 1]);
    }
    assert(first_brace(s, 0) == 0);
    let opened = ScanState { pieces: Seq::empty(), handled: 0, brace: Some(0) };
    assert(scan_step(s, true, scan_start(), 0) == opened);
    lemma_scan_inside_braces(s, opened, 1, len - 1);
    assert(s.subrange(1, len - 1) =~= name);
    assert(s.subrange(0, 0) =~= Seq::<char>::empty());
    let closed = ScanState {
        pieces: seq![(Seq::<char>::empty(), kind)],
        handled: len,
        brace: Some(0),
    };
    assert(Seq::<(Seq<char>, NumberingKind)>::empty().push((Seq::<char>::empty(), kind)) =~= closed.pieces);
    assert(scan_step(s, true, opened, len - 1) == closed);
    assert(scan(s, true, closed, len, len) == closed);
    assert(scan(s, true, opened, len - 1, len) == closed);
    assert(scan(s, true, scan_start(), 0, len) == closed);
    assert(s.subrange(len, len) =~= Seq::<char>::empty());
}

/// No name of a kind holds a brace.
proof fn lemma_name_without_braces(kind: NumberingKind)
    ensures
        forall|i: int| 0 <= i < name_of(kind).len() ==> name_of(kind)[i] != '{' && name_of(kind)[i] != '}',
{
    match kind {
        NumberingKind::Adlam => {
            reveal_strlit("adlam");
            assert("adlam"@ =~= seq!['a', 'd', 'l', 'a', 'm']);
        },
        NumberingKind::ArabicAbjad => {
            reveal_strlit("arabic-abjad");
            assert("arabic-abjad"@ =~= seq!['a', 'r', 'a', 'b', 'i', 'c', '-', 'a', 'b', 'j', 'a', 'd']);
        },
        NumberingKind::ArabicIndic => {
            reveal_strlit("arabic-indic");
            assert("arabic-indic"@ =~= seq!['a', 'r', 'a', 'b', 'i', 'c', '-', 'i', 'n', 'd', 'i', 'c']);
        },
        NumberingKind::Bangla => {
            reveal_strlit("bangla");
            assert("bangla"@ =~= seq!['b', 'a', 'n', 'g', 'l', 'a']);
        },
        NumberingKind::Bengali => {
            reveal_strlit("bengali");
            assert("bengali"@ =~= seq!['b', 'e', 'n', 'g', 'a', 'l', 'i']);
        },
        NumberingKind::CircledDecimal => {
            reveal_strlit("circled-decimal");
            assert("circled-decimal"@ =~= seq!['c', 'i', 'r', 'c', 'l', 'e', 'd', '-', 'd', 'e', 'c', 'i', 'm', 'a', 'l']);
        },
        NumberingKind::CircledLowerLatin => {
            reveal_strlit("circled-lower-latin");
            assert("circled-lower-latin"@ =~= seq!['c', 'i', 'r', 'c', 'l', 'e', 'd', '-', 'l', 'o', 'w', 'e', 'r', '-', 'l', 'a', 't', 'i', 'n']);
        },
        NumberingKind::CircledUpperLatin => {
            reveal_strlit("circled-upper-latin");
            assert("circled-upper-latin"@ =~= seq!['c', 'i', 'r', 'c', 'l', 'e', 'd', '-', 'u', 'p', 'p', 'e', 'r', '-', 'l', 'a', 't', 'i', 'n']);
        },
        NumberingKind::Decimal => {
            reveal_strlit("decimal");
            assert("decimal"@ =~= seq!['d', 'e', 'c', 'i', 'm', 'a', 'l']);
        },
        NumberingKind::Devanagari => {
            reveal_strlit("devanagari");
            assert("devanagari"@ =~= seq!['d', 'e', 'v', 'a', 'n', 'a', 'g', 'a', 'r', 'i']);
        },
        NumberingKind::DoubleCircledDecimal => {
            reveal_strlit("double-circled-decimal");
            assert("double-circled-decimal"@ =~= seq!['d', 'o', 'u', 'b', 'l', 'e', '-', 'c', 'i', 'r', 'c', 'l', 'e', 'd', '-', 'd', 'e', 'c', 'i', 'm', 'a', 'l']);
        },
        NumberingKind::FilledCircledDecimal => {
            reveal_strlit("filled-circled-decimal");
            assert("filled-circled-decimal"@ =~= seq!['f', 'i', 'l', 'l', 'e', 'd', '-', 'c', 'i', 'r', 'c', 'l', 'e', 'd', '-', 'd', 'e', 'c', 'i', 'm', 'a', 'l']);
        },
        NumberingKind::GreekLowerAncient => {
            reveal_strlit("greek-lower-ancient");
            assert("greek-lower-ancient"@ =~= seq!['g', 'r', 'e', 'e', 'k', '-', 'l', 'o', 'w', 'e', 'r', '-', 'a', 'n', 'c', 'i', 'e', 'n', 't']);
        },
        NumberingKind::GreekLowerModern => {
            reveal_strlit("greek-lower-modern");
            assert("greek-lower-modern"@ =~= seq!['g', 'r', 'e', 'e', 'k', '-', 'l', 'o', 'w', 'e', 'r', '-', 'm', 'o', 'd', 'e', 'r', 'n']);
        },
        NumberingKind::GreekUpperAncient => {
            reveal_strlit("greek-upper-ancient");
            assert("greek-upper-ancient"@ =~= seq!['g', 'r', 'e', 'e', 'k', '-', 'u', 'p', 'p', 'e', 'r', '-', 'a', 'n', 'c', 'i', 'e', 'n', 't']);
        },
        NumberingKind::GreekUpperModern => {
            reveal_strlit("greek-upper-modern");
            assert("greek-upper-modern"@ =~= seq!['g', 'r', 'e', 'e', 'k', '-', 'u', 'p', 'p', 'e', 'r', '-', 'm', 'o', 'd', 'e', 'r', 'n']);
        },
        NumberingKind::Hebrew => {
            reveal_strlit("hebrew");
            assert("hebrew"@ =~= seq!['h', 'e', 'b', 'r', 'e', 'w']);
        },
        NumberingKind::HiraganaAiueo => {
            reveal_strlit("hiragana");
            assert("hiragana"@ =~= seq!['h', 'i', 'r', 'a', 'g', 'a', 'n', 'a']);
        },
        NumberingKind::HiraganaIroha => {
            reveal_strlit("hiragana-iroha");
            assert("hiragana-iroha"@ =~= seq!['h', 'i', 'r', 'a', 'g', 'a', 'n', 'a', '-', 'i', 'r', 'o', 'h', 'a']);
        },
        NumberingKind::Kashmiri => {
            reveal_strlit("kashmiri");
            assert("kashmiri"@ =~= seq!['k', 'a', 's', 'h', 'm', 'i', 'r', 'i']);
        },
        NumberingKind::KatakanaAiueo => {
            reveal_strlit("katakana");
            assert("katakana"@ =~= seq!['k', 'a', 't', 'a', 'k', 'a', 'n', 'a']);
        },
        NumberingKind::KatakanaIroha => {
            reveal_strlit("katakana-iroha");
            assert("katakana-iroha"@ =~= seq!['k', 'a', 't', 'a', 'k', 'a', 'n', 'a', '-', 'i', 'r', 'o', 'h', 'a']);
        },
        NumberingKind::KoreanJamo => {
            reveal_strlit("korean");
            assert("korean"@ =~= seq!['k', 'o', 'r', 'e', 'a', 'n']);
        },
        NumberingKind::KoreanSyllable => {
            reveal_strlit("korean-syllable");
            assert("korean-syllable"@ =~= seq!['k', 'o', 'r', 'e', 'a', 'n', '-', 's', 'y', 'l', 'l', 'a', 'b', 'l', 'e']);
        },
        NumberingKind::LowerAlpha => {
            reveal_strlit("lower-alpha");
            assert("lower-alpha"@ =~= seq!['l', 'o', 'w', 'e', 'r', '-', 'a', 'l', 'p', 'h', 'a']);
        },
        NumberingKind::LowerBelorussian => {
            reveal_strlit("lower-belorussian");
            assert("lower-belorussian"@ =~= seq!['l', 'o', 'w', 'e', 'r', '-', 'b', 'e', 'l', 'o', 'r', 'u', 's', 's', 'i', 'a', 'n']);
        },
        NumberingKind::LowerBulgarian => {
            reveal_strlit("lower-bulgarian");
            assert("lower-bulgarian"@ =~= seq!['l', 'o', 'w', 'e', 'r', '-', 'b', 'u', 'l', 'g', 'a', 'r', 'i', 'a', 'n']);
        },
        NumberingKind::LowerGreek => {
            reveal_strlit("lower-greek");
            assert("lower-greek"@ =~= seq!['l', 'o', 'w', 'e', 'r', '-', 'g', 'r', 'e', 'e', 'k']);
        },
        NumberingKind::LowerMacedonian => {
            reveal_strlit("lower-macedonian");
            assert("lower-macedonian"@ =~= seq!['l', 'o', 'w', 'e', 'r', '-', 'm', 'a', 'c', 'e', 'd', 'o', 'n', 'i', 'a', 'n']);
        },
        NumberingKind::LowerRoman => {
            reveal_strlit("lower-roman");
            assert("lower-roman"@ =~= seq!['l', 'o', 'w', 'e', 'r', '-', 'r', 'o', 'm', 'a', 'n']);
        },
        NumberingKind::LowerRussian => {
            reveal_strlit("lower-russian");
            assert("lower-russian"@ =~= seq!['l', 'o', 'w', 'e', 'r', '-', 'r', 'u', 's', 's', 'i', 'a', 'n']);
        },
        NumberingKind::LowerRussianFull => {
            reveal_strlit("lower-russian-full");
            assert("lower-russian-full"@ =~= seq!['l', 'o', 'w', 'e', 'r', '-', 'r', 'u', 's', 's', 'i', 'a', 'n', '-', 'f', 'u', 'l', 'l']);
        },
        NumberingKind::LowerSerbian => {
            reveal_strlit("lower-serbian");
            assert("lower-serbian"@ =~= seq!['l', 'o', 'w', 'e', 'r', '-', 's', 'e', 'r', 'b', 'i', 'a', 'n']);
        },
        NumberingKind::LowerUkrainian => {
            reveal_strlit("lower-ukrainian");
            assert("lower-ukrainian"@ =~= seq!['l', 'o', 'w', 'e', 'r', '-', 'u', 'k', 'r', 'a', 'i', 'n', 'i', 'a', 'n']);
        },
        NumberingKind::LowerUkrainianFull => {
            reveal_strlit("lower-ukrainian-full");
            assert("lower-ukrainian-full"@ =~= seq!['l', 'o', 'w', 'e', 'r', '-', 'u', 'k', 'r', 'a', 'i', 'n', 'i', 'a', 'n', '-', 'f', 'u', 'l', 'l']);
        },
        NumberingKind::MaghrebiAbjad => {
            reveal_strlit("maghrebi-abjad");
            assert("maghrebi-abjad"@ =~= seq!['m', 'a', 'g', 'h', 'r', 'e', 'b', 'i', '-', 'a', 'b', 'j', 'a', 'd']);
        },
        NumberingKind::Persian => {
            reveal_strlit("persian");
            assert("persian"@ =~= seq!['p', 'e', 'r', 's', 'i', 'a', 'n']);
        },
        NumberingKind::SimpChineseFormal => {
            reveal_strlit("simp-chinese-formal");
            assert("simp-chinese-formal"@ =~= seq!['s', 'i', 'm', 'p', '-', 'c', 'h', 'i', 'n', 'e', 's', 'e', '-', 'f', 'o', 'r', 'm', 'a', 'l']);
        },
        NumberingKind::SimpChineseInformal => {
            reveal_strlit("simp-chinese-informal");
            assert("simp-chinese-informal"@ =~= seq!['s', 'i', 'm', 'p', '-', 'c', 'h', 'i', 'n', 'e', 's', 'e', '-', 'i', 'n', 'f', 'o', 'r', 'm', 'a', 'l']);
        },
        NumberingKind::Symbol => {
            reveal_strlit("symbol");
            assert("symbol"@ =~= seq!['s', 'y', 'm', 'b', 'o', 'l']);
        },
        NumberingKind::TallyMark => {
            reveal_strlit("tally-mark");
            assert("tally-mark"@ =~= seq!['t', 'a', 'l', 'l', 'y', '-', 'm', 'a', 'r', 'k']);
        },
        NumberingKind::TradChineseFormal => {
            reveal_strlit("trad-chinese-formal");
            assert("trad-chinese-formal"@ =~= seq!['t', 'r', 'a', 'd', '-', 'c', 'h', 'i', 'n', 'e', 's', 'e', '-', 'f', 'o', 'r', 'm', 'a', 'l']);
        },
        NumberingKind::TradChineseInformal => {
            reveal_strlit("trad-chinese-informal");
            assert("trad-chinese-informal"@ =~= seq!['t', 'r', 'a', 'd', '-', 'c', 'h', 'i', 'n', 'e', 's', 'e', '-', 'i', 'n', 'f', 'o', 'r', 'm', 'a', 'l']);
        },
        NumberingKind::UpperAlpha => {
            reveal_strlit("upper-alpha");
            assert("upper-alpha"@ =~= seq!['u', 'p', 'p', 'e', 'r', '-', 'a', 'l', 'p', 'h', 'a']);
        },
        NumberingKind::UpperBelorussian => {
            reveal_strlit("upper-belorussian");
            assert("upper-belorussian"@ =~= seq!['u', 'p', 'p', 'e', 'r', '-', 'b', 'e', 'l', 'o', 'r', 'u', 's', 's', 'i', 'a', 'n']);
        },
        NumberingKind::UpperBulgarian => {
            reveal_strlit("upper-bulgarian");
            assert("upper-bulgarian"@ =~= seq!['u', 'p', 'p', 'e', 'r', '-', 'b', 'u', 'l', 'g', 'a', 'r', 'i', 'a', 'n']);
        },
        NumberingKind::UpperGreek => {
            reveal_strlit("upper-greek");
            assert("upper-greek"@ =~= seq!['u', 'p', 'p', 'e', 'r', '-', 'g', 'r', 'e', 'e', 'k']);
        },
        NumberingKind::UpperMacedonian => {
            reveal_strlit("upper-macedonian");
            assert("upper-macedonian"@ =~= seq!['u', 'p', 'p', 'e', 'r', '-', 'm', 'a', 'c', 'e', 'd', 'o', 'n', 'i', 'a', 'n']);
        },
        NumberingKind::UpperRoman => {
            reveal_strlit("upper-roman");
            assert("upper-roman"@ =~= seq!['u', 'p', 'p', 'e', 'r', '-', 'r', 'o', 'm', 'a', 'n']);
        },
        NumberingKind::UpperRussian => {
            reveal_strlit("upper-russian");
            assert("upper-russian"@ =~= seq!['u', 'p', 'p', 'e', 'r', '-', 'r', 'u', 's', 's', 'i', 'a', 'n']);
        },
        NumberingKind::UpperRussianFull => {
            reveal_strlit("upper-russian-full");
            assert("upper-russian-full"@ =~= seq!['u', 'p', 'p', 'e', 'r', '-', 'r', 'u', 's', 's', 'i', 'a', 'n', '-', 'f', 'u', 'l', 'l']);
        },
        NumberingKind::UpperSerbian => {
            reveal_strlit("upper-serbian");
            assert("upper-serbian"@ =~= seq!['u', 'p', 'p', 'e', 'r', '-', 's', 'e', 'r', 'b', 'i', 'a', 'n']);
        },
        NumberingKind::UpperUkrainian => {
            reveal_strlit("upper-ukrainian");
            assert("upper-ukrainian"@ =~= seq!['u', 'p', 'p', 'e', 'r', '-', 'u', 'k', 'r', 'a', 'i', 'n', 'i', 'a', 'n']);
        },
        NumberingKind::UpperUkrainianFull => {
            reveal_strlit("upper-ukrainian-full");
            assert("upper-ukrainian-full"@ =~= seq!['u', 'p', 'p', 'e', 'r', '-', 'u', 'k', 'r', 'a', 'i', 'n', 'i', 'a', 'n', '-', 'f', 'u', 'l', 'l']);
        },
    }
}

/// A kind's name in braces is read as a pattern of that kind alone, with
/// no prefix and no suffix.
pub proof fn lemma_braced_name_round_trip(kind: NumberingKind)
    ensures
        parse_outcome(seq!['{'] + name_of(kind) + seq!['}']) == Some(
            PatternView {
                pieces: seq![(Seq::<char>::empty(), kind)],
                suffix: Seq::<char>::empty(),
                trimmed: false,
            },
        ),
{
    lemma_name_round_trip(kind);
    lemma_name_without_braces(kind);
    lemma_braced_name(name_of(kind), kind);
}

/// Whether `c` is one of the digits `0` to `9`.
pub open spec fn is_decimal_digit(c: char) -> bool {
    48 <= (c as u32) <= 57
}

/// The number that a string of decimal digits stands for.
pub open spec fn decimal_value(s: Seq<char>) -> int
    decreases s.len(),
{
    if s.len() == 0 {
        0
    } else {
        decimal_value(s.drop_last()) * 10 + ((s.last() as u32) - 48)
    }
}

/// The `d`-th decimal digit is the character with code `48 + d`.
proof fn lemma_decimal_digit(d: int)
    requires
        0 <= d < 10,
    ensures
        (DECIMAL@[d] as u32) == 48 + d,
{
    if d == 0 {
        assert(DECIMAL@[0] == '0');
    } else if d == 1 {
        assert(DECIMAL@[1] == '1');
    } else if d == 2 {
        assert(DECIMAL@[2] == '2');
    } else if d == 3 {
        assert(DECIMAL@[3] == '3');
    } else if d == 4 {
        assert(DECIMAL@[4] == '4');
    } else if d == 5 {
        assert(DECIMAL@[5] == '5');
    } else if d == 6 {
        assert(DECIMAL@[6] == '6');
    } else if d == 7 {
        assert(DECIMAL@[7] == '7');
    } else if d == 8 {
        assert(DECIMAL@[8] == '8');
    } else if d == 9 {
        assert(DECIMAL@[9] == '9');
    }
}

/// Positional notation with the decimal digits writes `n` in base ten.
proof fn lemma_positional_decimal(n: nat)
    ensures
        positional(DECIMAL@, n).len() >= 1,
        forall|i: int| 0 <= i < positional(DECIMAL@, n).len() ==> is_decimal_digit(#[trigger] positional(DECIMAL@, n)[i]),
        n > 0 ==> positional(DECIMAL@, n)[0] != '0',
        decimal_value(positional(DECIMAL@, n)) == n,
    decreases n,
{
    let t = positional(DECIMAL@, n);
    if n < 10 {
        lemma_decimal_digit(n as int);
        assert(t.drop_last() =~= Seq::<char>::empty());
        assert(decimal_value(t.drop_last()) == 0);
        assert(t.last() == DECIMAL@[n as int]);
        assert(decimal_value(t) == n);
    } else {
        let q = n / 10;
        let r = n % 10;
        assert(q * 10 + r == n && 0 < q < n && 0 <= r < 10) by (nonlinear_arith)
            requires n >= 10, q == n / 10, r == n % 10;
        lemma_positional_decimal(q);
        lemma_decimal_digit(r as int);
        let head = positional(DECIMAL@, q);
        assert(t == head + seq![DECIMAL@[r as int]]);
        assert(t.drop_last() =~= head);
        assert forall|i: int| 0 <= i < t.len() implies is_decimal_digit(#[trigger] t[i]) by {
            if i < head.len() {
                assert(t[i] == head[i]);
            }
        }
        assert(t[0] == head[0]);
        assert(t.last() == DECIMAL@[r as int]);
        assert(decimal_value(t) == decimal_value(head) * 10 + r);
    }
}

/// Decimal numbering writes `n` in base ten: one or more digits `0` to
/// `9`, no leading zero, standing for `n`.
pub proof fn lemma_decimal_text(n: usize)
    ensures
        kind_text(NumberingKind::Decimal, n).len() >= 1,
        forall|i: int| 0 <= i < kind_text(NumberingKind::Decimal, n).len() ==> is_decimal_digit(#[trigger] kind_text(NumberingKind::Decimal, n)[i]),
        n > 0 ==> kind_text(NumberingKind::Decimal, n)[0] != '0',
        decimal_value(kind_text(NumberingKind::Decimal, n)) == n,
{
    lemma_positional_decimal(n as nat);
}

/// Every counting symbol is read as its kind: the symbol of each kind that
/// has one is a counting symbol, and it stands for that kind.
pub proof fn lemma_symbol_read_back(kind: NumberingKind)
    requires
        symbol_of(kind) != ' ',
    ensures
        kind_of_symbol(symbol_of(kind)) == Some(kind),
{
}

/// The text form of one piece is its prefix followed by its kind's name.
pub proof fn lemma_named_form_one(piece: (Seq<char>, NumberingKind))
    ensures
        named_form(seq![piece]) == piece.0 + name_of(piece.1),
{
    assert(seq![piece].drop_last() =~= Seq::<(Seq<char>, NumberingKind)>::empty());
    assert(named_form(Seq::<(Seq<char>, NumberingKind)>::empty()) == Seq::<char>::empty());
    assert(Seq::<char>::empty() + piece.0 + name_of(piece.1) =~= piece.0 + name_of(piece.1));
}

/// The text form of a list of pieces is the text forms of its parts one
/// after the other.
pub proof fn lemma_named_form_concat(
    a: Seq<(Seq<char>, NumberingKind)>,
    b: Seq<(Seq<char>, NumberingKind)>,
)
    ensures
        named_form(a + b) == named_form(a) + named_form(b),
    decreases b.len(),
{
    if b.len() == 0 {
        assert(a + b =~= a);
        assert(named_form(a) + Seq::<char>::empty() =~= named_form(a));
    } else {
        lemma_named_form_concat(a, b.drop_last());
        assert((a + b).drop_last() =~= a + b.drop_last());
        assert((a + b).last() == b.last());
        assert(named_form(a + b) =~= named_form(a) + named_form(b));
    }
}

/// The text form writes every prefix, the first one included: it begins
/// with the first piece's prefix and that piece's kind's name, followed by
/// the text form of the other pieces.
pub proof fn lemma_named_form_first(pieces: Seq<(Seq<char>, NumberingKind)>)
    requires
        pieces.len() >= 1,
    ensures
        named_form(pieces) == pieces[0].0 + name_of(pieces[0].1) + named_form(pieces.subrange(1, pieces.len() as int)),
{
    let first = pieces.subrange(0, 1);
    let rest = pieces.subrange(1, pieces.len() as int);
    assert(first + rest =~= pieces);
    assert(first =~= seq![pieces[0]]);
    lemma_named_form_concat(first, rest);
    lemma_named_form_one(pieces[0]);
}

/// The texts of the first `count` numbers do not depend on the numbers
/// that follow.
proof fn lemma_segments_prefix(p: PatternView, numbers: Seq<usize>, x: usize, count: nat)
    requires
        count <= numbers.len(),
    ensures
        segments(p, numbers.push(x), count) == segments(p, numbers, count),
    decreases count,
{
    if count > 0 {
        lemma_segments_prefix(p, numbers, x, (count - 1) as nat);
        assert(numbers.push(x)[count - 1] == numbers[count - 1]);
    }
}

/// Applying an untrimmed pattern to one number more writes the same text
/// up to the suffix, then the number in the kind of the next counting
/// symbol (the last one once the symbols are used up) with that symbol's
/// prefix, then the suffix.
pub proof fn lemma_one_number_more(p: PatternView, numbers: Seq<usize>, x: usize)
    requires
        p.pieces.len() >= 1,
        !p.trimmed,
    ensures
        ({
            let k = if numbers.len() < p.pieces.len() {
                numbers.len() as int
            } else {
                p.pieces.len() - 1
            };
            let before = pattern_text(p, numbers);
            pattern_text(p, numbers.push(x)) == before.subrange(0, before.len() - p.suffix.len())
                + p.pieces[k].0 + kind_text(p.pieces[k].1, x) + p.suffix
        }),
{
    let more = numbers.push(x);
    let len = numbers.len();
    lemma_segments_prefix(p, numbers, x, len);
    let head = segments(p, numbers, len);
    let before = pattern_text(p, numbers);
    assert(before == head + p.suffix);
    assert(before.subrange(0, before.len() - p.suffix.len()) =~= head);
    assert(segments(p, more, len + 1) == head + segment(p, more, len as int));
    assert(more[len as int] == x);
    if len < p.pieces.len() {
        assert(p.pieces.last() == p.pieces[p.pieces.len() - 1]);
    }
    let k = if len < p.pieces.len() { len as int } else { p.pieces.len() - 1 };
    assert(segment(p, more, len as int) == p.pieces[k].0 + kind_text(p.pieces[k].1, x));
    assert(pattern_text(p, more) =~= head + p.pieces[k].0 + kind_text(p.pieces[k].1, x) + p.suffix);
}

} // verus!
