//! Laws on how the kinds count: each kind writes its first numbers with the
//! symbols of its own table, and the additive kinds write symbols whose
//! weights add up to the number.

use vstd::prelude::*;
use crate::kind::{kind_text, NumberingKind};
use crate::symbols::{
    GREEK_LOWER_ANCIENT, GREEK_LOWER_MODERN, GREEK_UPPER_ANCIENT, GREEK_UPPER_MODERN, HEBREW, LOWER_ROMAN, TALLY_MARK, UPPER_ROMAN,
    ADLAM,
    ARABIC_ABJAD,
    ARABIC_INDIC,
    BANGLA,
    BENGALI,
    CIRCLED_DECIMAL,
    CIRCLED_LOWER_LATIN,
    CIRCLED_UPPER_LATIN,
    DECIMAL,
    DEVANAGARI,
    DOUBLE_CIRCLED_DECIMAL,
    FILLED_CIRCLED_DECIMAL,
    HIRAGANA_AIUEO,
    HIRAGANA_IROHA,
    KASHMIRI,
    KATAKANA_AIUEO,
    KATAKANA_IROHA,
    KOREAN_JAMO,
    KOREAN_SYLLABLE,
    LOWER_ALPHA,
    LOWER_BELORUSSIAN,
    LOWER_BULGARIAN,
    LOWER_GREEK,
    LOWER_MACEDONIAN,
    LOWER_RUSSIAN,
    LOWER_RUSSIAN_FULL,
    LOWER_SERBIAN,
    LOWER_UKRAINIAN,
    LOWER_UKRAINIAN_FULL,
    MAGHREBI_ABJAD,
    PERSIAN,
    SYMBOL,
    UPPER_ALPHA,
    UPPER_BELORUSSIAN,
    UPPER_BULGARIAN,
    UPPER_GREEK,
    UPPER_MACEDONIAN,
    UPPER_RUSSIAN,
    UPPER_RUSSIAN_FULL,
    UPPER_SERBIAN,
    UPPER_UKRAINIAN,
    UPPER_UKRAINIAN_FULL,
};
use crate::systems::{
    additive_text, bijective, greedy, lemma_repeated_once, positional, repeated, symbolic_text,
};

verus! {

/// The symbols that a kind counts with, in order: its digits (from zero)
/// for the positional kinds, its letters or symbols (from one) for the
/// alphabetic, fixed and symbolic kinds, and none for the others.
pub open spec fn counting_table(kind: NumberingKind) -> Seq<char> {
    match kind {
        NumberingKind::Adlam => ADLAM@,
        NumberingKind::ArabicAbjad => ARABIC_ABJAD@,
        NumberingKind::ArabicIndic => ARABIC_INDIC@,
        NumberingKind::Bangla => BANGLA@,
        NumberingKind::Bengali => BENGALI@,
        NumberingKind::CircledDecimal => CIRCLED_DECIMAL@,
        NumberingKind::CircledLowerLatin => CIRCLED_LOWER_LATIN@,
        NumberingKind::CircledUpperLatin => CIRCLED_UPPER_LATIN@,
        NumberingKind::Decimal => DECIMAL@,
        NumberingKind::Devanagari => DEVANAGARI@,
        NumberingKind::DoubleCircledDecimal => DOUBLE_CIRCLED_DECIMAL@,
        NumberingKind::FilledCircledDecimal => FILLED_CIRCLED_DECIMAL@,
        NumberingKind::HiraganaAiueo => HIRAGANA_AIUEO@,
        NumberingKind::HiraganaIroha => HIRAGANA_IROHA@,
        NumberingKind::Kashmiri => KASHMIRI@,
        NumberingKind::KatakanaAiueo => KATAKANA_AIUEO@,
        NumberingKind::KatakanaIroha => KATAKANA_IROHA@,
        NumberingKind::KoreanJamo => KOREAN_JAMO@,
        NumberingKind::KoreanSyllable => KOREAN_SYLLABLE@,
        NumberingKind::LowerAlpha => LOWER_ALPHA@,
        NumberingKind::LowerBelorussian => LOWER_BELORUSSIAN@,
        NumberingKind::LowerBulgarian => LOWER_BULGARIAN@,
        NumberingKind::LowerGreek => LOWER_GREEK@,
        NumberingKind::LowerMacedonian => LOWER_MACEDONIAN@,
        NumberingKind::LowerRussian => LOWER_RUSSIAN@,
        NumberingKind::LowerRussianFull => LOWER_RUSSIAN_FULL@,
        NumberingKind::LowerSerbian => LOWER_SERBIAN@,
        NumberingKind::LowerUkrainian => LOWER_UKRAINIAN@,
        NumberingKind::LowerUkrainianFull => LOWER_UKRAINIAN_FULL@,
        NumberingKind::MaghrebiAbjad => MAGHREBI_ABJAD@,
        NumberingKind::Persian => PERSIAN@,
        NumberingKind::Symbol => SYMBOL@,
        NumberingKind::UpperAlpha => UPPER_ALPHA@,
        NumberingKind::UpperBelorussian => UPPER_BELORUSSIAN@,
        NumberingKind::UpperBulgarian => UPPER_BULGARIAN@,
        NumberingKind::UpperGreek => UPPER_GREEK@,
        NumberingKind::UpperMacedonian => UPPER_MACEDONIAN@,
        NumberingKind::UpperRussian => UPPER_RUSSIAN@,
        NumberingKind::UpperRussianFull => UPPER_RUSSIAN_FULL@,
        NumberingKind::UpperSerbian => UPPER_SERBIAN@,
        NumberingKind::UpperUkrainian => UPPER_UKRAINIAN@,
        NumberingKind::UpperUkrainianFull => UPPER_UKRAINIAN_FULL@,
        _ => Seq::empty(),
    }
}

/// Whether a kind counts from zero (its first symbol is the digit zero).
pub open spec fn counts_from_zero(kind: NumberingKind) -> bool {
    match kind {
        NumberingKind::Adlam => true,
        NumberingKind::ArabicIndic => true,
        NumberingKind::Bengali => true,
        NumberingKind::Decimal => true,
        NumberingKind::Devanagari => true,
        NumberingKind::Persian => true,
        _ => false,
    }
}

/// A number below the base is a single digit in positional notation.
proof fn lemma_positional_small(digits: Seq<char>, n: nat)
    requires
        n < digits.len(),
    ensures
        positional(digits, n) == seq![digits[n as int]],
{
}

/// The numbers `1` to `digits.len()` are single digits in bijective
/// notation.
proof fn lemma_bijective_small(digits: Seq<char>, n: nat)
    requires
        1 <= n <= digits.len(),
    ensures
        bijective(digits, n) == seq![digits[n - 1]],
{
    let len = digits.len() as int;
    assert(((n - 1) as int) / len == 0 && ((n - 1) as int) % len == n - 1) by (nonlinear_arith)
        requires 0 <= n - 1 < len;
    assert(bijective(digits, 0) == Seq::<char>::empty());
    assert(Seq::<char>::empty() + seq![digits[n - 1]] =~= seq![digits[n - 1]]);
}

/// The numbers `1` to `symbols.len()` are single symbols in symbolic
/// numbering.
proof fn lemma_symbolic_small(symbols: Seq<char>, n: nat)
    requires
        1 <= n <= symbols.len(),
    ensures
        symbolic_text(symbols, n) == seq![symbols[n - 1]],
{
    let len = symbols.len() as int;
    assert(((n - 1) as int) / len == 0 && ((n - 1) as int) % len == n - 1) by (nonlinear_arith)
        requires 0 <= n - 1 < len;
    lemma_repeated_once(seq![symbols[n - 1]]);
}

/// Each kind writes its first numbers as single symbols of its own table,
/// in table order: the `n`-th digit for `n` below the base of a positional
/// kind, and the `n`-th symbol for `1 <= n <=` the table's length of the
/// others.
pub proof fn lemma_counting_table(kind: NumberingKind, n: usize)
    ensures
        counts_from_zero(kind) && n < counting_table(kind).len() ==> kind_text(kind, n) == seq![
            counting_table(kind)[n as int]
        ],
        !counts_from_zero(kind) && 1 <= n <= counting_table(kind).len() ==> kind_text(kind, n) == seq![
            counting_table(kind)[n - 1]
        ],
{
    if (counts_from_zero(kind) && n < counting_table(kind).len())
        || (!counts_from_zero(kind) && 1 <= n <= counting_table(kind).len()) {
        match kind {
            NumberingKind::Adlam => {
                lemma_positional_small(ADLAM@, n as nat);
            },
            NumberingKind::ArabicAbjad => {
            },
            NumberingKind::ArabicIndic => {
                lemma_positional_small(ARABIC_INDIC@, n as nat);
            },
            NumberingKind::Bangla => {
                lemma_bijective_small(BANGLA@, n as nat);
            },
            NumberingKind::Bengali => {
                lemma_positional_small(BENGALI@, n as nat);
            },
            NumberingKind::CircledDecimal => {
            },
            NumberingKind::CircledLowerLatin => {
            },
            NumberingKind::CircledUpperLatin => {
            },
            NumberingKind::Decimal => {
                lemma_positional_small(DECIMAL@, n as nat);
            },
            NumberingKind::Devanagari => {
                lemma_positional_small(DEVANAGARI@, n as nat);
            },
            NumberingKind::DoubleCircledDecimal => {
            },
            NumberingKind::FilledCircledDecimal => {
            },
            NumberingKind::HiraganaAiueo => {
                lemma_bijective_small(HIRAGANA_AIUEO@, n as nat);
            },
            NumberingKind::HiraganaIroha => {
                lemma_bijective_small(HIRAGANA_IROHA@, n as nat);
            },
            NumberingKind::Kashmiri => {
                lemma_bijective_small(KASHMIRI@, n as nat);
            },
            NumberingKind::KatakanaAiueo => {
                lemma_bijective_small(KATAKANA_AIUEO@, n as nat);
            },
            NumberingKind::KatakanaIroha => {
                lemma_bijective_small(KATAKANA_IROHA@, n as nat);
            },
            NumberingKind::KoreanJamo => {
                lemma_bijective_small(KOREAN_JAMO@, n as nat);
            },
            NumberingKind::KoreanSyllable => {
                lemma_bijective_small(KOREAN_SYLLABLE@, n as nat);
            },
            NumberingKind::LowerAlpha => {
                lemma_bijective_small(LOWER_ALPHA@, n as nat);
            },
            NumberingKind::LowerBelorussian => {
                lemma_bijective_small(LOWER_BELORUSSIAN@, n as nat);
            },
            NumberingKind::LowerBulgarian => {
                lemma_bijective_small(LOWER_BULGARIAN@, n as nat);
            },
            NumberingKind::LowerGreek => {
                lemma_bijective_small(LOWER_GREEK@, n as nat);
            },
            NumberingKind::LowerMacedonian => {
                lemma_bijective_small(LOWER_MACEDONIAN@, n as nat);
            },
            NumberingKind::LowerRussian => {
                lemma_bijective_small(LOWER_RUSSIAN@, n as nat);
            },
            NumberingKind::LowerRussianFull => {
                lemma_bijective_small(LOWER_RUSSIAN_FULL@, n as nat);
            },
            NumberingKind::LowerSerbian => {
                lemma_bijective_small(LOWER_SERBIAN@, n as nat);
            },
            NumberingKind::LowerUkrainian => {
                lemma_bijective_small(LOWER_UKRAINIAN@, n as nat);
            },
            NumberingKind::LowerUkrainianFull => {
                lemma_bijective_small(LOWER_UKRAINIAN_FULL@, n as nat);
            },
            NumberingKind::MaghrebiAbjad => {
            },
            NumberingKind::Persian => {
                lemma_positional_small(PERSIAN@, n as nat);
            },
            NumberingKind::Symbol => {
                lemma_symbolic_small(SYMBOL@, n as nat);
            },
            NumberingKind::UpperAlpha => {
                lemma_bijective_small(UPPER_ALPHA@, n as nat);
            },
            NumberingKind::UpperBelorussian => {
                lemma_bijective_small(UPPER_BELORUSSIAN@, n as nat);
            },
            NumberingKind::UpperBulgarian => {
                lemma_bijective_small(UPPER_BULGARIAN@, n as nat);
            },
            NumberingKind::UpperGreek => {
                lemma_bijective_small(UPPER_GREEK@, n as nat);
            },
            NumberingKind::UpperMacedonian => {
                lemma_bijective_small(UPPER_MACEDONIAN@, n as nat);
            },
            NumberingKind::UpperRussian => {
                lemma_bijective_small(UPPER_RUSSIAN@, n as nat);
            },
            NumberingKind::UpperRussianFull => {
                lemma_bijective_small(UPPER_RUSSIAN_FULL@, n as nat);
            },
            NumberingKind::UpperSerbian => {
                lemma_bijective_small(UPPER_SERBIAN@, n as nat);
            },
            NumberingKind::UpperUkrainian => {
                lemma_bijective_small(UPPER_UKRAINIAN@, n as nat);
            },
            NumberingKind::UpperUkrainianFull => {
                lemma_bijective_small(UPPER_UKRAINIAN_FULL@, n as nat);
            },
            _ => {},
        }
    }
}

/// The text that the symbols at positions `idx` of a weighted table make,
/// written one after the other.
pub open spec fn written(table: Seq<(&'static str, usize)>, idx: Seq<int>) -> Seq<char>
    decreases idx.len(),
{
    if idx.len() == 0 {
        Seq::empty()
    } else {
        written(table, idx.drop_last()) + table[idx.last()].0@
    }
}

/// The sum of the weights of the symbols at positions `idx` of a table.
pub open spec fn written_weight(table: Seq<(&'static str, usize)>, idx: Seq<int>) -> int
    decreases idx.len(),
{
    if idx.len() == 0 {
        0
    } else {
        written_weight(table, idx.drop_last()) + table[idx.last()].1
    }
}

/// `text` is written with symbols of the table, at positions `idx`, each of
/// nonzero weight, whose weights add up to `n` and never grow from one
/// symbol to the next.
pub open spec fn is_additive_writing(
    table: Seq<(&'static str, usize)>,
    idx: Seq<int>,
    text: Seq<char>,
    n: nat,
) -> bool {
    &&& forall|j: int| 0 <= j < idx.len() ==> 0 <= #[trigger] idx[j] < table.len() && table[idx[j]].1 > 0
    &&& forall|a: int, b: int| 0 <= a < b < idx.len() ==> table[#[trigger] idx[a]].1 >= table[#[trigger] idx[b]].1
    &&& written(table, idx) == text
    &&& written_weight(table, idx) == n
}

/// The symbols of table positions that follow one another.
proof fn lemma_written_concat(table: Seq<(&'static str, usize)>, a: Seq<int>, b: Seq<int>)
    ensures
        written(table, a + b) == written(table, a) + written(table, b),
        written_weight(table, a + b) == written_weight(table, a) + written_weight(table, b),
    decreases b.len(),
{
    if b.len() == 0 {
        assert(a + b =~= a);
        assert(written(table, a) + Seq::<char>::empty() =~= written(table, a));
    } else {
        lemma_written_concat(table, a, b.drop_last());
        assert((a + b).drop_last() =~= a + b.drop_last());
        assert((a + b).last() == b.last());
        assert(written(table, a + b) =~= written(table, a) + written(table, b));
    }
}

/// One symbol written `q` times.
proof fn lemma_written_copies(table: Seq<(&'static str, usize)>, i: int, q: nat)
    ensures
        written(table, Seq::new(q, |_j: int| i)) == repeated(table[i].0@, q),
        written_weight(table, Seq::new(q, |_j: int| i)) == q * table[i].1,
    decreases q,
{
    if q > 0 {
        lemma_written_copies(table, i, (q - 1) as nat);
        assert(Seq::new(q, |_j: int| i).drop_last() =~= Seq::new((q - 1) as nat, |_j: int| i));
        let w = table[i].1 as int;
        assert((q - 1) * w + w == q * w) by (nonlinear_arith);
    }
}

/// The table positions whose symbols greedy additive notation writes from
/// the `i`-th symbol on: in order, each of nonzero weight, and, as soon as
/// a symbol of weight one is left, adding up to `n`.
proof fn lemma_greedy_positions(table: Seq<(&'static str, usize)>, i: int, n: nat) -> (idx: Seq<int>)
    requires
        0 <= i <= table.len(),
    ensures
        written(table, idx) == greedy(table, i, n),
        forall|j: int| 0 <= j < idx.len() ==> i <= #[trigger] idx[j] < table.len() && table[idx[j]].1 > 0,
        forall|a: int, b: int| 0 <= a < b < idx.len() ==> #[trigger] idx[a] <= #[trigger] idx[b],
        (n == 0 || exists|j: int| i <= j < table.len() && #[trigger] table[j].1 == 1) ==> written_weight(table, idx) == n,
    decreases table.len() - i,
{
    if i >= table.len() || n == 0 {
        Seq::empty()
    } else if table[i].1 == 0 || table[i].1 > n {
        let rest = lemma_greedy_positions(table, i + 1, n);
        if exists|j: int| i <= j < table.len() && #[trigger] table[j].1 == 1 {
            let j = choose|j: int| i <= j < table.len() && #[trigger] table[j].1 == 1;
            assert(j != i);
            assert(i + 1 <= j < table.len() && table[j].1 == 1);
        }
        rest
    } else {
        let w = table[i].1 as nat;
        let q = n / w;
        let r = n % w;
        assert(q * w + r == n && r < w) by (nonlinear_arith)
            requires w > 0, q == n / w, r == n % w;
        let copies = Seq::new(q, |_j: int| i);
        let rest = lemma_greedy_positions(table, i + 1, r);
        lemma_written_copies(table, i, q);
        lemma_written_concat(table, copies, rest);
        let idx = copies + rest;
        assert forall|j: int| 0 <= j < idx.len() implies i <= #[trigger] idx[j] < table.len() && table[idx[j]].1 > 0 by {
            if j >= copies.len() {
                assert(idx[j] == rest[j - copies.len()]);
            }
        }
        assert forall|a: int, b: int| 0 <= a < b < idx.len() implies #[trigger] idx[a] <= #[trigger] idx[b] by {
            if b >= copies.len() {
                assert(idx[b] == rest[b - copies.len()]);
                if a >= copies.len() {
                    assert(idx[a] == rest[a - copies.len()]);
                }
            }
        }
        if r > 0 && exists|j: int| i <= j < table.len() && #[trigger] table[j].1 == 1 {
            let j = choose|j: int| i <= j < table.len() && #[trigger] table[j].1 == 1;
            assert(j != i);
            assert(i + 1 <= j < table.len() && table[j].1 == 1);
        }
        idx
    }
}

/// The weight of the `a`-th entry of a table is at least that of the next.
pub open spec fn no_growth_at(table: Seq<(&'static str, usize)>, a: int) -> bool {
    table[a].1 >= table[a + 1].1
}

/// Weights that never grow from one table entry to the next never grow
/// along the whole table.
proof fn lemma_sorted_weights(table: Seq<(&'static str, usize)>)
    requires
        forall|a: int| 0 <= a < table.len() - 1 ==> #[trigger] no_growth_at(table, a),
    ensures
        forall|a: int, b: int| 0 <= a <= b < table.len() ==> #[trigger] table[a].1 >= #[trigger] table[b].1,
{
    assert forall|a: int, b: int| 0 <= a <= b < table.len() implies #[trigger] table[a].1 >= #[trigger] table[b].1 by {
        lemma_sorted_weights_from(table, a, b);
    }
}

proof fn lemma_sorted_weights_from(table: Seq<(&'static str, usize)>, a: int, b: int)
    requires
        forall|k: int| 0 <= k < table.len() - 1 ==> #[trigger] no_growth_at(table, k),
        0 <= a <= b < table.len(),
    ensures
        table[a].1 >= table[b].1,
    decreases b - a,
{
    if a < b {
        lemma_sorted_weights_from(table, a, b - 1);
        assert(no_growth_at(table, b - 1));
    }
}

/// Additive notation with a table whose weights never grow and which has a
/// symbol of weight one writes, for every `n >= 1`, symbols of nonzero
/// weight that add up to `n`, never a symbol after one of smaller weight
/// (so that Roman numerals read back as the number).
pub proof fn lemma_additive_weights(table: Seq<(&'static str, usize)>, n: nat, one: int)
    requires
        n >= 1,
        0 <= one < table.len(),
        table[one].1 == 1,
        forall|a: int, b: int| 0 <= a <= b < table.len() ==> #[trigger] table[a].1 >= #[trigger] table[b].1,
    ensures
        exists|idx: Seq<int>| #[trigger] is_additive_writing(table, idx, additive_text(table, n), n),
{
    let idx = lemma_greedy_positions(table, 0, n);
    assert(table[one].1 == 1);
    assert forall|a: int, b: int| 0 <= a < b < idx.len() implies table[#[trigger] idx[a]].1 >= table[#[trigger] idx[b]].1 by {
        assert(idx[a] <= idx[b]);
        assert(0 <= idx[a] < table.len() && 0 <= idx[b] < table.len());
    }
    assert(is_additive_writing(table, idx, additive_text(table, n), n));
}

/// The weighted table of an additive kind (none for the other kinds).
pub open spec fn additive_table(kind: NumberingKind) -> Seq<(&'static str, usize)> {
    match kind {
        NumberingKind::GreekLowerAncient => GREEK_LOWER_ANCIENT@,
        NumberingKind::GreekLowerModern => GREEK_LOWER_MODERN@,
        NumberingKind::GreekUpperAncient => GREEK_UPPER_ANCIENT@,
        NumberingKind::GreekUpperModern => GREEK_UPPER_MODERN@,
        NumberingKind::Hebrew => HEBREW@,
        NumberingKind::LowerRoman => LOWER_ROMAN@,
        NumberingKind::TallyMark => TALLY_MARK@,
        NumberingKind::UpperRoman => UPPER_ROMAN@,
        _ => Seq::empty(),
    }
}

/// Each additive kind (Greek, Hebrew, Roman numerals, tally marks) writes
/// every `n >= 1` as symbols of its table whose weights add up to `n`,
/// never a symbol after one of smaller weight.
pub proof fn lemma_additive_kind(kind: NumberingKind, n: usize)
    requires
        n >= 1,
        additive_table(kind).len() > 0,
    ensures
        exists|idx: Seq<int>| #[trigger] is_additive_writing(additive_table(kind), idx, kind_text(kind, n), n as nat),
{
    match kind {
        NumberingKind::GreekLowerAncient => {
            let t = GREEK_LOWER_ANCIENT@;
            assert(t[26].1 == 1);
            assert forall|a: int| 0 <= a < t.len() - 1 implies #[trigger] no_growth_at(t, a) by {
                if a == 0 {
                    assert(t[0].1 >= t[1].1);
                }
                if a == 1 {
                    assert(t[1].1 >= t[2].1);
                }
                if a == 2 {
                    assert(t[2].1 >= t[3].1);
                }
                if a == 3 {
                    assert(t[3].1 >= t[4].1);
                }
                if a == 4 {
                    assert(t[4].1 >= t[5].1);
                }
                if a == 5 {
                    assert(t[5].1 >= t[6].1);
                }
                if a == 6 {
                    assert(t[6].1 >= t[7].1);
                }
                if a == 7 {
                    assert(t[7].1 >= t[8].1);
                }
                if a == 8 {
                    assert(t[8].1 >= t[9].1);
                }
                if a == 9 {
                    assert(t[9].1 >= t[10].1);
                }
                if a == 10 {
                    assert(t[10].1 >= t[11].1);
                }
                if a == 11 {
                    assert(t[11].1 >= t[12].1);
                }
                if a == 12 {
                    assert(t[12].1 >= t[13].1);
                }
                if a == 13 {
                    assert(t[13].1 >= t[14].1);
                }
                if a == 14 {
                    assert(t[14].1 >= t[15].1);
                }
                if a == 15 {
                    assert(t[15].1 >= t[16].1);
                }
                if a == 16 {
                    assert(t[16].1 >= t[17].1);
                }
                if a == 17 {
                    assert(t[17].1 >= t[18].1);
                }
                if a == 18 {
                    assert(t[18].1 >= t[19].1);
                }
                if a == 19 {
                    assert(t[19].1 >= t[20].1);
                }
                if a == 20 {
                    assert(t[20].1 >= t[21].1);
                }
                if a == 21 {
                    assert(t[21].1 >= t[22].1);
                }
                if a == 22 {
                    assert(t[22].1 >= t[23].1);
                }
                if a == 23 {
                    assert(t[23].1 >= t[24].1);
                }
                if a == 24 {
                    assert(t[24].1 >= t[25].1);
                }
                if a == 25 {
                    assert(t[25].1 >= t[26].1);
                }
                if a == 26 {
                    assert(t[26].1 >= t[27].1);
                }
            }
            lemma_sorted_weights(t);
            lemma_additive_weights(t, n as nat, 26);
            let idx = choose|idx: Seq<int>| is_additive_writing(t, idx, additive_text(t, n as nat), n as nat);
            assert(is_additive_writing(additive_table(kind), idx, kind_text(kind, n), n as nat));
        },
        NumberingKind::GreekLowerModern => {
            let t = GREEK_LOWER_MODERN@;
            assert(t[26].1 == 1);
            assert forall|a: int| 0 <= a < t.len() - 1 implies #[trigger] no_growth_at(t, a) by {
                if a == 0 {
                    assert(t[0].1 >= t[1].1);
                }
                if a == 1 {
                    assert(t[1].1 >= t[2].1);
                }
                if a == 2 {
                    assert(t[2].1 >= t[3].1);
                }
                if a == 3 {
                    assert(t[3].1 >= t[4].1);
                }
                if a == 4 {
                    assert(t[4].1 >= t[5].1);
                }
                if a == 5 {
                    assert(t[5].1 >= t[6].1);
                }
                if a == 6 {
                    assert(t[6].1 >= t[7].1);
                }
                if a == 7 {
                    assert(t[7].1 >= t[8].1);
                }
                if a == 8 {
                    assert(t[8].1 >= t[9].1);
                }
                if a == 9 {
                    assert(t[9].1 >= t[10].1);
                }
                if a == 10 {
                    assert(t[10].1 >= t[11].1);
                }
                if a == 11 {
                    assert(t[11].1 >= t[12].1);
                }
                if a == 12 {
                    assert(t[12].1 >= t[13].1);
                }
                if a == 13 {
                    assert(t[13].1 >= t[14].1);
                }
                if a == 14 {
                    assert(t[14].1 >= t[15].1);
                }
                if a == 15 {
                    assert(t[15].1 >= t[16].1);
                }
                if a == 16 {
                    assert(t[16].1 >= t[17].1);
                }
                if a == 17 {
                    assert(t[17].1 >= t[18].1);
                }
                if a == 18 {
                    assert(t[18].1 >= t[19].1);
                }
                if a == 19 {
                    assert(t[19].1 >= t[20].1);
                }
                if a == 20 {
                    assert(t[20].1 >= t[21].1);
                }
                if a == 21 {
                    assert(t[21].1 >= t[22].1);
                }
                if a == 22 {
                    assert(t[22].1 >= t[23].1);
                }
                if a == 23 {
                    assert(t[23].1 >= t[24].1);
                }
                if a == 24 {
                    assert(t[24].1 >= t[25].1);
                }
                if a == 25 {
                    assert(t[25].1 >= t[26].1);
                }
                if a == 26 {
                    assert(t[26].1 >= t[27].1);
                }
            }
            lemma_sorted_weights(t);
            lemma_additive_weights(t, n as nat, 26);
            let idx = choose|idx: Seq<int>| is_additive_writing(t, idx, additive_text(t, n as nat), n as nat);
            assert(is_additive_writing(additive_table(kind), idx, kind_text(kind, n), n as nat));
        },
        NumberingKind::GreekUpperAncient => {
            let t = GREEK_UPPER_ANCIENT@;
            assert(t[26].1 == 1);
            assert forall|a: int| 0 <= a < t.len() - 1 implies #[trigger] no_growth_at(t, a) by {
                if a == 0 {
                    assert(t[0].1 >= t[1].1);
                }
                if a == 1 {
                    assert(t[1].1 >= t[2].1);
                }
                if a == 2 {
                    assert(t[2].1 >= t[3].1);
                }
                if a == 3 {
                    assert(t[3].1 >= t[4].1);
                }
                if a == 4 {
                    assert(t[4].1 >= t[5].1);
                }
                if a == 5 {
                    assert(t[5].1 >= t[6].1);
                }
                if a == 6 {
                    assert(t[6].1 >= t[7].1);
                }
                if a == 7 {
                    assert(t[7].1 >= t[8].1);
                }
                if a == 8 {
                    assert(t[8].1 >= t[9].1);
                }
                if a == 9 {
                    assert(t[9].1 >= t[10].1);
                }
                if a == 10 {
                    assert(t[10].1 >= t[11].1);
                }
                if a == 11 {
                    assert(t[11].1 >= t[12].1);
                }
                if a == 12 {
                    assert(t[12].1 >= t[13].1);
                }
                if a == 13 {
                    assert(t[13].1 >= t[14].1);
                }
                if a == 14 {
                    assert(t[14].1 >= t[15].1);
                }
                if a == 15 {
                    assert(t[15].1 >= t[16].1);
                }
                if a == 16 {
                    assert(t[16].1 >= t[17].1);
                }
                if a == 17 {
                    assert(t[17].1 >= t[18].1);
                }
                if a == 18 {
                    assert(t[18].1 >= t[19].1);
                }
                if a == 19 {
                    assert(t[19].1 >= t[20].1);
                }
                if a == 20 {
                    assert(t[20].1 >= t[21].1);
                }
                if a == 21 {
                    assert(t[21].1 >= t[22].1);
                }
                if a == 22 {
                    assert(t[22].1 >= t[23].1);
                }
                if a == 23 {
                    assert(t[23].1 >= t[24].1);
                }
                if a == 24 {
                    assert(t[24].1 >= t[25].1);
                }
                if a == 25 {
                    assert(t[25].1 >= t[26].1);
                }
                if a == 26 {
                    assert(t[26].1 >= t[27].1);
                }
            }
            lemma_sorted_weights(t);
            lemma_additive_weights(t, n as nat, 26);
            let idx = choose|idx: Seq<int>| is_additive_writing(t, idx, additive_text(t, n as nat), n as nat);
            assert(is_additive_writing(additive_table(kind), idx, kind_text(kind, n), n as nat));
        },
        NumberingKind::GreekUpperModern => {
            let t = GREEK_UPPER_MODERN@;
            assert(t[26].1 == 1);
            assert forall|a: int| 0 <= a < t.len() - 1 implies #[trigger] no_growth_at(t, a) by {
                if a == 0 {
                    assert(t[0].1 >= t[1].1);
                }
                if a == 1 {
                    assert(t[1].1 >= t[2].1);
                }
                if a == 2 {
                    assert(t[2].1 >= t[3].1);
                }
                if a == 3 {
                    assert(t[3].1 >= t[4].1);
                }
                if a == 4 {
                    assert(t[4].1 >= t[5].1);
                }
                if a == 5 {
                    assert(t[5].1 >= t[6].1);
                }
                if a == 6 {
                    assert(t[6].1 >= t[7].1);
                }
                if a == 7 {
                    assert(t[7].1 >= t[8].1);
                }
                if a == 8 {
                    assert(t[8].1 >= t[9].1);
                }
                if a == 9 {
                    assert(t[9].1 >= t[10].1);
                }
                if a == 10 {
                    assert(t[10].1 >= t[11].1);
                }
                if a == 11 {
                    assert(t[11].1 >= t[12].1);
                }
                if a == 12 {
                    assert(t[12].1 >= t[13].1);
                }
                if a == 13 {
                    assert(t[13].1 >= t[14].1);
                }
                if a == 14 {
                    assert(t[14].1 >= t[15].1);
                }
                if a == 15 {
                    assert(t[15].1 >= t[16].1);
                }
                if a == 16 {
                    assert(t[16].1 >= t[17].1);
                }
                if a == 17 {
                    assert(t[17].1 >= t[18].1);
                }
                if a == 18 {
                    assert(t[18].1 >= t[19].1);
                }
                if a == 19 {
                    assert(t[19].1 >= t[20].1);
                }
                if a == 20 {
                    assert(t[20].1 >= t[21].1);
                }
                if a == 21 {
                    assert(t[21].1 >= t[22].1);
                }
                if a == 22 {
                    assert(t[22].1 >= t[23].1);
                }
                if a == 23 {
                    assert(t[23].1 >= t[24].1);
                }
                if a == 24 {
                    assert(t[24].1 >= t[25].1);
                }
                if a == 25 {
                    assert(t[25].1 >= t[26].1);
                }
                if a == 26 {
                    assert(t[26].1 >= t[27].1);
                }
            }
            lemma_sorted_weights(t);
            lemma_additive_weights(t, n as nat, 26);
            let idx = choose|idx: Seq<int>| is_additive_writing(t, idx, additive_text(t, n as nat), n as nat);
            assert(is_additive_writing(additive_table(kind), idx, kind_text(kind, n), n as nat));
        },
        NumberingKind::Hebrew => {
            let t = HEBREW@;
            assert(t[27].1 == 1);
            assert forall|a: int| 0 <= a < t.len() - 1 implies #[trigger] no_growth_at(t, a) by {
                if a == 0 {
                    assert(t[0].1 >= t[1].1);
                }
                if a == 1 {
                    assert(t[1].1 >= t[2].1);
                }
                if a == 2 {
                    assert(t[2].1 >= t[3].1);
                }
                if a == 3 {
                    assert(t[3].1 >= t[4].1);
                }
                if a == 4 {
                    assert(t[4].1 >= t[5].1);
                }
                if a == 5 {
                    assert(t[5].1 >= t[6].1);
                }
                if a == 6 {
                    assert(t[6].1 >= t[7].1);
                }
                if a == 7 {
                    assert(t[7].1 >= t[8].1);
                }
                if a == 8 {
                    assert(t[8].1 >= t[9].1);
                }
                if a == 9 {
                    assert(t[9].1 >= t[10].1);
                }
                if a == 10 {
                    assert(t[10].1 >= t[11].1);
                }
                if a == 11 {
                    assert(t[11].1 >= t[12].1);
                }
                if a == 12 {
                    assert(t[12].1 >= t[13].1);
                }
                if a == 13 {
                    assert(t[13].1 >= t[14].1);
                }
                if a == 14 {
                    assert(t[14].1 >= t[15].1);
                }
                if a == 15 {
                    assert(t[15].1 >= t[16].1);
                }
                if a == 16 {
                    assert(t[16].1 >= t[17].1);
                }
                if a == 17 {
                    assert(t[17].1 >= t[18].1);
                }
                if a == 18 {
                    assert(t[18].1 >= t[19].1);
                }
                if a == 19 {
                    assert(t[19].1 >= t[20].1);
                }
                if a == 20 {
                    assert(t[20].1 >= t[21].1);
                }
                if a == 21 {
                    assert(t[21].1 >= t[22].1);
                }
                if a == 22 {
                    assert(t[22].1 >= t[23].1);
                }
                if a == 23 {
                    assert(t[23].1 >= t[24].1);
                }
                if a == 24 {
                    assert(t[24].1 >= t[25].1);
                }
                if a == 25 {
                    assert(t[25].1 >= t[26].1);
                }
                if a == 26 {
                    assert(t[26].1 >= t[27].1);
                }
            }
            lemma_sorted_weights(t);
            lemma_additive_weights(t, n as nat, 27);
            let idx = choose|idx: Seq<int>| is_additive_writing(t, idx, additive_text(t, n as nat), n as nat);
            assert(is_additive_writing(additive_table(kind), idx, kind_text(kind, n), n as nat));
        },
        NumberingKind::LowerRoman => {
            let t = LOWER_ROMAN@;
            assert(t[12].1 == 1);
            assert forall|a: int| 0 <= a < t.len() - 1 implies #[trigger] no_growth_at(t, a) by {
                if a == 0 {
                    assert(t[0].1 >= t[1].1);
                }
                if a == 1 {
                    assert(t[1].1 >= t[2].1);
                }
                if a == 2 {
                    assert(t[2].1 >= t[3].1);
                }
                if a == 3 {
                    assert(t[3].1 >= t[4].1);
                }
                if a == 4 {
                    assert(t[4].1 >= t[5].1);
                }
                if a == 5 {
                    assert(t[5].1 >= t[6].1);
                }
                if a == 6 {
                    assert(t[6].1 >= t[7].1);
                }
                if a == 7 {
                    assert(t[7].1 >= t[8].1);
                }
                if a == 8 {
                    assert(t[8].1 >= t[9].1);
                }
                if a == 9 {
                    assert(t[9].1 >= t[10].1);
                }
                if a == 10 {
                    assert(t[10].1 >= t[11].1);
                }
                if a == 11 {
                    assert(t[11].1 >= t[12].1);
                }
            }
            lemma_sorted_weights(t);
            lemma_additive_weights(t, n as nat, 12);
            let idx = choose|idx: Seq<int>| is_additive_writing(t, idx, additive_text(t, n as nat), n as nat);
            assert(is_additive_writing(additive_table(kind), idx, kind_text(kind, n), n as nat));
        },
        NumberingKind::TallyMark => {
            let t = TALLY_MARK@;
            assert(t[1].1 == 1);
            assert forall|a: int| 0 <= a < t.len() - 1 implies #[trigger] no_growth_at(t, a) by {
                if a == 0 {
                    assert(t[0].1 >= t[1].1);
                }
            }
            lemma_sorted_weights(t);
            lemma_additive_weights(t, n as nat, 1);
            let idx = choose|idx: Seq<int>| is_additive_writing(t, idx, additive_text(t, n as nat), n as nat);
            assert(is_additive_writing(additive_table(kind), idx, kind_text(kind, n), n as nat));
        },
        NumberingKind::UpperRoman => {
            let t = UPPER_ROMAN@;
            assert(t[12].1 == 1);
            assert forall|a: int| 0 <= a < t.len() - 1 implies #[trigger] no_growth_at(t, a) by {
                if a == 0 {
                    assert(t[0].1 >= t[1].1);
                }
                if a == 1 {
                    assert(t[1].1 >= t[2].1);
                }
                if a == 2 {
                    assert(t[2].1 >= t[3].1);
                }
                if a == 3 {
                    assert(t[3].1 >= t[4].1);
                }
                if a == 4 {
                    assert(t[4].1 >= t[5].1);
                }
                if a == 5 {
                    assert(t[5].1 >= t[6].1);
                }
                if a == 6 {
                    assert(t[6].1 >= t[7].1);
                }
                if a == 7 {
                    assert(t[7].1 >= t[8].1);
                }
                if a == 8 {
                    assert(t[8].1 >= t[9].1);
                }
                if a == 9 {
                    assert(t[9].1 >= t[10].1);
                }
                if a == 10 {
                    assert(t[10].1 >= t[11].1);
                }
                if a == 11 {
                    assert(t[11].1 >= t[12].1);
                }
            }
            lemma_sorted_weights(t);
            lemma_additive_weights(t, n as nat, 12);
            let idx = choose|idx: Seq<int>| is_additive_writing(t, idx, additive_text(t, n as nat), n as nat);
            assert(is_additive_writing(additive_table(kind), idx, kind_text(kind, n), n as nat));
        },
        _ => {},
    }
}

/// The digits of `digits` at positions `idx`, one after the other.
pub open spec fn digits_at(digits: Seq<char>, idx: Seq<int>) -> Seq<char> {
    Seq::new(idx.len(), |j: int| digits[idx[j]])
}

/// The value of digit positions `idx`, most significant first, read in
/// base `base` with digit values `idx[j] + offset` (offset 0 for positional
/// notation, 1 for bijective notation).
pub open spec fn place_value(idx: Seq<int>, base: int, offset: int) -> int
    decreases idx.len(),
{
    if idx.len() == 0 {
        0
    } else {
        place_value(idx.drop_last(), base, offset) * base + idx.last() + offset
    }
}

/// Positions that are all digits of a table of length `len`.
pub open spec fn all_digits(idx: Seq<int>, len: int) -> bool {
    forall|j: int| 0 <= j < idx.len() ==> 0 <= #[trigger] idx[j] < len
}

/// The digit positions of `n` in positional notation.
proof fn lemma_positional_positions(digits: Seq<char>, n: nat) -> (idx: Seq<int>)
    requires
        digits.len() >= 2,
    ensures
        positional(digits, n) == digits_at(digits, idx),
        all_digits(idx, digits.len() as int),
        idx.len() >= 1,
        n > 0 ==> idx[0] != 0,
        place_value(idx, digits.len() as int, 0) == n,
    decreases n,
{
    let len = digits.len() as int;
    if n < digits.len() {
        let idx = seq![n as int];
        assert(idx.drop_last() =~= Seq::<int>::empty());
        assert(place_value(idx.drop_last(), len, 0) == 0);
        assert(positional(digits, n) =~= digits_at(digits, idx));
        idx
    } else {
        let q = n / (len as nat);
        let r = n % (len as nat);
        assert(q * len + r == n && 0 < q < n && 0 <= r < len) by (nonlinear_arith)
            requires len >= 2, n >= len, q == n / (len as nat), r == n % (len as nat);
        let head = lemma_positional_positions(digits, q);
        let idx = head.push(r as int);
        assert(idx.drop_last() =~= head);
        assert(place_value(idx, len, 0) == place_value(head, len, 0) * len + r);
        assert(positional(digits, n) =~= digits_at(digits, idx));
        assert(idx[0] == head[0]);
        idx
    }
}

/// The digit positions of `n` in bijective notation.
proof fn lemma_bijective_positions(digits: Seq<char>, n: nat) -> (idx: Seq<int>)
    requires
        digits.len() >= 1,
    ensures
        bijective(digits, n) == digits_at(digits, idx),
        all_digits(idx, digits.len() as int),
        n > 0 ==> idx.len() >= 1,
        place_value(idx, digits.len() as int, 1) == n,
    decreases n,
{
    let len = digits.len() as int;
    if n == 0 {
        let idx = Seq::<int>::empty();
        assert(bijective(digits, n) =~= digits_at(digits, idx));
        idx
    } else {
        let q = ((n - 1) / len) as nat;
        let r = (n - 1) % len;
        assert(q * len + r + 1 == n && 0 <= q < n && 0 <= r < len) by (nonlinear_arith)
            requires len >= 1, n >= 1, q == (n - 1) / len, r == (n - 1) % len;
        let head = lemma_bijective_positions(digits, q);
        let idx = head.push(r);
        assert(idx.drop_last() =~= head);
        assert(bijective(digits, n) =~= digits_at(digits, idx));
        idx
    }
}

/// Whether a kind is written in positional notation with its digits.
pub open spec fn is_positional_kind(kind: NumberingKind) -> bool {
    counts_from_zero(kind)
}

/// Whether a kind is written in bijective (alphabetic) notation with its
/// letters.
pub open spec fn is_alphabetic_kind(kind: NumberingKind) -> bool {
    match kind {
        NumberingKind::Bangla => true,
        NumberingKind::HiraganaAiueo => true,
        NumberingKind::HiraganaIroha => true,
        NumberingKind::Kashmiri => true,
        NumberingKind::KatakanaAiueo => true,
        NumberingKind::KatakanaIroha => true,
        NumberingKind::KoreanJamo => true,
        NumberingKind::KoreanSyllable => true,
        NumberingKind::LowerAlpha => true,
        NumberingKind::LowerBelorussian => true,
        NumberingKind::LowerBulgarian => true,
        NumberingKind::LowerGreek => true,
        NumberingKind::LowerMacedonian => true,
        NumberingKind::LowerRussian => true,
        NumberingKind::LowerRussianFull => true,
        NumberingKind::LowerSerbian => true,
        NumberingKind::LowerUkrainian => true,
        NumberingKind::LowerUkrainianFull => true,
        NumberingKind::UpperAlpha => true,
        NumberingKind::UpperBelorussian => true,
        NumberingKind::UpperBulgarian => true,
        NumberingKind::UpperGreek => true,
        NumberingKind::UpperMacedonian => true,
        NumberingKind::UpperRussian => true,
        NumberingKind::UpperRussianFull => true,
        NumberingKind::UpperSerbian => true,
        NumberingKind::UpperUkrainian => true,
        NumberingKind::UpperUkrainianFull => true,
        _ => false,
    }
}

/// Whether a kind has a fixed symbol for each of its first numbers only.
pub open spec fn is_fixed_kind(kind: NumberingKind) -> bool {
    match kind {
        NumberingKind::ArabicAbjad => true,
        NumberingKind::CircledDecimal => true,
        NumberingKind::CircledLowerLatin => true,
        NumberingKind::CircledUpperLatin => true,
        NumberingKind::DoubleCircledDecimal => true,
        NumberingKind::FilledCircledDecimal => true,
        NumberingKind::MaghrebiAbjad => true,
        _ => false,
    }
}

/// A positional kind writes `n` as digits of its own table, with no
/// leading zero, that stand for `n` in the base of the table.
pub proof fn lemma_positional_kind(kind: NumberingKind, n: usize)
    requires
        is_positional_kind(kind),
    ensures
        exists|idx: Seq<int>| #![trigger place_value(idx, counting_table(kind).len() as int, 0)]
            kind_text(kind, n) == digits_at(counting_table(kind), idx)
            && all_digits(idx, counting_table(kind).len() as int)
            && idx.len() >= 1
            && (n > 0 ==> idx[0] != 0)
            && place_value(idx, counting_table(kind).len() as int, 0) == n,
{
    let t = counting_table(kind);
    assert(t.len() == 10);
    let idx = lemma_positional_positions(t, n as nat);
    assert(place_value(idx, t.len() as int, 0) == n);
}

/// An alphabetic kind writes every `n >= 1` as letters of its own table
/// that stand for `n` in bijective notation: with `k` letters, the letters
/// at positions `p_0, ..., p_m` stand for the number whose base-`k` digits
/// are `p_0 + 1, ..., p_m + 1`.
pub proof fn lemma_alphabetic_kind(kind: NumberingKind, n: usize)
    requires
        is_alphabetic_kind(kind),
        n >= 1,
    ensures
        exists|idx: Seq<int>| #![trigger place_value(idx, counting_table(kind).len() as int, 1)]
            kind_text(kind, n) == digits_at(counting_table(kind), idx)
            && all_digits(idx, counting_table(kind).len() as int)
            && idx.len() >= 1
            && place_value(idx, counting_table(kind).len() as int, 1) == n,
{
    let t = counting_table(kind);
    assert(t.len() >= 1);
    let idx = lemma_bijective_positions(t, n as nat);
    assert(place_value(idx, t.len() as int, 1) == n);
}

/// A fixed kind writes zero, and every number past its last symbol, in
/// decimal.
pub proof fn lemma_fixed_kind_beyond(kind: NumberingKind, n: usize)
    requires
        is_fixed_kind(kind),
        n == 0 || n > counting_table(kind).len(),
    ensures
        kind_text(kind, n) == kind_text(NumberingKind::Decimal, n),
{
}

} // verus!
