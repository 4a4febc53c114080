use numbering::pattern::Applied;
use numbering::{numbering, Numbering, NumberingKind, NumberingPattern};

fn pattern(text: &str) -> NumberingPattern {
    NumberingPattern::from_str(text).unwrap()
}

fn text_of(applied: Applied<'_, u32>) -> String {
    match applied {
        Applied::Text(t) => t.to_string(),
        Applied::Call(_) => panic!("expected a text"),
    }
}

#[test]
fn doc_example_decimal_levels() {
    assert_eq!(pattern("1.1)").apply(&[1, 2, 3]), "1.2.3)");
}

#[test]
fn doc_example_mixed_levels() {
    assert_eq!(pattern("1.a.i").apply(&[1, 2]), "1.b");
}

#[test]
fn doc_example_roman_with_dash() {
    assert_eq!(pattern("I – 1").apply(&[12, 2]), "XII – 2");
}

#[test]
fn numbering_function_applies_pattern() {
    let scheme: Numbering<u32> = Numbering::Pattern(pattern("1.1)"));
    assert_eq!(text_of(numbering(&scheme, &[1, 2, 3])), "1.2.3)");
}

#[test]
fn numbering_function_hands_back_func() {
    let scheme: Numbering<u32> = Numbering::Func(7);
    match numbering(&scheme, &[1, 2]) {
        Applied::Call(f) => assert_eq!(*f, 7),
        Applied::Text(_) => panic!("expected a call"),
    }
}

#[test]
fn from_pattern_and_trimmed() {
    let scheme: Numbering<u32> = Numbering::from(pattern("(1.a)"));
    assert_eq!(text_of(scheme.apply(&[1, 2])), "(1.b)");
    let trimmed = scheme.trimmed();
    assert_eq!(text_of(trimmed.apply(&[1, 2])), "1.b");
    let func: Numbering<u32> = Numbering::Func(3);
    assert_eq!(func.clone().trimmed(), func);
}

#[test]
fn last_symbol_repeats_with_prefix_or_suffix() {
    // The last prefix is "." and is repeated.
    assert_eq!(pattern("1.a").apply(&[1, 2, 3, 4]), "1.b.c.d");
    // The last prefix is empty, and so is what is repeated before each
    // further number; the suffix comes once, at the end.
    assert_eq!(pattern("1)").apply(&[1, 2, 3]), "123)");
    assert_eq!(pattern("1.").apply(&[1, 2]), "12.");
}

#[test]
fn fewer_numbers_than_symbols() {
    assert_eq!(pattern("1.a.i)").apply(&[3]), "3)");
    assert_eq!(pattern("(1)").apply(&[]), ")");
}

#[test]
fn apply_kth_uses_first_prefix() {
    let p = pattern("(1.a.i)");
    assert_eq!(p.apply_kth(0, 2), "(2)");
    assert_eq!(p.apply_kth(1, 2), "(b)");
    assert_eq!(p.apply_kth(2, 4), "(iv)");
    assert_eq!(p.apply_kth(9, 4), "(iv)");
}

#[test]
fn pieces_counts_symbols() {
    assert_eq!(pattern("1.a.i").pieces(), 3);
    assert_eq!(pattern("Chapter I").pieces(), 2);
    assert_eq!(pattern("No. 1").pieces(), 1);
}

#[test]
fn verbose_pattern() {
    let p = pattern("{upper-roman}.{lower-alpha})");
    assert_eq!(p.pieces(), 2);
    assert_eq!(p.apply(&[4, 2]), "IV.b)");
    // Unknown names are not counting symbols.
    let q = pattern("a{nothing}{decimal}!");
    assert_eq!(q.pieces(), 1);
    assert_eq!(q.apply(&[5]), "a{nothing}5!");
}

#[test]
fn invalid_pattern() {
    assert_eq!(NumberingPattern::from_str("xyz"), Err("invalid numbering pattern"));
    assert_eq!(NumberingPattern::from_str(""), Err("invalid numbering pattern"));
    // In the verbose form only names in braces count.
    assert_eq!(NumberingPattern::from_str("{bogus}1"), Err("invalid numbering pattern"));
    assert_eq!(NumberingPattern::from_str("}"), Err("invalid numbering pattern"));
}

#[test]
fn closing_brace_without_opening_names_from_second_character() {
    let p = pattern("Xhebrew}");
    assert_eq!(p.pieces(), 1);
    assert_eq!(p.pieces[0].0, "");
    assert_eq!(p.pieces[0].1, NumberingKind::Hebrew);
    assert_eq!(p.apply(&[15]), "טו");
    assert_eq!(pattern("xsymbol}").apply(&[2]), "†");
}

#[test]
fn closing_brace_that_does_not_fit_is_text() {
    assert_eq!(pattern("}1").apply(&[2]), "}2");
    assert_eq!(pattern("x}1").apply(&[2]), "x}2");
    let p = pattern("xdecimal}");
    assert_eq!(p.pieces(), 2);
    assert_eq!(p.pieces[0].1, NumberingKind::LowerRoman);
    assert_eq!(p.pieces[1].1, NumberingKind::LowerAlpha);
    // The name "decimal" is found, but its prefix would end before the
    // part already used up.
    assert_eq!(p.suffix, "l}");
    let q = pattern("①decimal}");
    assert_eq!(q.pieces(), 3);
    assert_eq!(q.apply(&[3, 4, 1]), "③decivmal}");
}

#[test]
fn std_from_str_and_text_form() {
    let p: NumberingPattern = "1.a)".parse().unwrap();
    assert_eq!(p.apply(&[2, 3]), "2.c)");
    assert_eq!(p.text(), "decimal.lower-alpha)");
    let q = pattern("{upper-roman} – {double-circled-decimal}");
    assert_eq!(q.text(), "upper-roman – double-circled-decimal");
    assert_eq!("abc".parse::<NumberingPattern>().unwrap().text(), "lower-alphabc");
    assert_eq!("xyz".parse::<NumberingPattern>(), Err("invalid numbering pattern"));
}

#[test]
fn decimal_is_base_ten() {
    for n in [0usize, 7, 10, 99, 100, 4096, 1_000_001, usize::MAX] {
        assert_eq!(NumberingKind::Decimal.apply(n), n.to_string());
    }
}

#[test]
fn from_char_symbols() {
    assert_eq!(NumberingKind::from_char('1'), Some(NumberingKind::Decimal));
    assert_eq!(NumberingKind::from_char('a'), Some(NumberingKind::LowerAlpha));
    assert_eq!(NumberingKind::from_char('I'), Some(NumberingKind::UpperRoman));
    assert_eq!(NumberingKind::from_char('*'), Some(NumberingKind::Symbol));
    assert_eq!(NumberingKind::from_char('壹'), Some(NumberingKind::SimpChineseFormal));
    assert_eq!(NumberingKind::from_char('x'), None);
}

#[test]
fn from_name_and_to_name() {
    assert_eq!(NumberingKind::from_name("lower-roman"), Some(NumberingKind::LowerRoman));
    assert_eq!(NumberingKind::from_name("double-circled-decimal"), Some(NumberingKind::DoubleCircledDecimal));
    assert_eq!(NumberingKind::from_name("Lower-Roman"), None);
    assert_eq!(NumberingKind::UpperGreek.to_name(), "upper-greek");
    assert_eq!(NumberingKind::DoubleCircledDecimal.to_name(), "double-circled-decimal");
}

#[test]
fn name_round_trip_for_every_kind() {
    let kinds = [
        NumberingKind::Adlam, NumberingKind::ArabicAbjad, NumberingKind::ArabicIndic,
        NumberingKind::Bangla, NumberingKind::Bengali, NumberingKind::CircledDecimal,
        NumberingKind::CircledLowerLatin, NumberingKind::CircledUpperLatin, NumberingKind::Decimal,
        NumberingKind::Devanagari, NumberingKind::DoubleCircledDecimal,
        NumberingKind::FilledCircledDecimal,
        NumberingKind::GreekLowerAncient, NumberingKind::GreekLowerModern,
        NumberingKind::GreekUpperAncient, NumberingKind::GreekUpperModern, NumberingKind::Hebrew,
        NumberingKind::HiraganaAiueo, NumberingKind::HiraganaIroha, NumberingKind::Kashmiri,
        NumberingKind::KatakanaAiueo, NumberingKind::KatakanaIroha, NumberingKind::KoreanJamo,
        NumberingKind::KoreanSyllable, NumberingKind::LowerAlpha, NumberingKind::LowerBelorussian,
        NumberingKind::LowerBulgarian, NumberingKind::LowerGreek, NumberingKind::LowerMacedonian,
        NumberingKind::LowerRoman, NumberingKind::LowerRussian, NumberingKind::LowerRussianFull,
        NumberingKind::LowerSerbian, NumberingKind::LowerUkrainian, NumberingKind::LowerUkrainianFull,
        NumberingKind::MaghrebiAbjad, NumberingKind::Persian, NumberingKind::SimpChineseFormal,
        NumberingKind::SimpChineseInformal, NumberingKind::Symbol, NumberingKind::TallyMark,
        NumberingKind::TradChineseFormal, NumberingKind::TradChineseInformal, NumberingKind::UpperAlpha,
        NumberingKind::UpperBelorussian, NumberingKind::UpperBulgarian, NumberingKind::UpperGreek,
        NumberingKind::UpperMacedonian, NumberingKind::UpperRoman, NumberingKind::UpperRussian,
        NumberingKind::UpperRussianFull, NumberingKind::UpperSerbian, NumberingKind::UpperUkrainian,
        NumberingKind::UpperUkrainianFull,
    ];
    for kind in kinds {
        assert_eq!(NumberingKind::from_name(kind.to_name()), Some(kind));
        let braced = NumberingPattern::from_str(&format!("{{{}}}", kind.to_name())).unwrap();
        assert_eq!(braced.pieces(), 1);
        assert_eq!(braced.suffix, "");
        assert_eq!(braced.apply(&[5]), kind.apply(5));
    }
    for (i, a) in kinds.iter().enumerate() {
        for b in &kinds[i + 1..] {
            assert_ne!(a.to_name(), b.to_name());
        }
    }
}

#[test]
fn counting_symbols_write_one_as_themselves() {
    for c in ['1', 'a', 'A', 'i', 'I', '*', 'α', 'Α', 'א', 'あ', 'ア', '가', '①', '⓵', '١', '۱', '壹', '一'] {
        let kind = NumberingKind::from_char(c).unwrap();
        assert_eq!(kind.apply(1), c.to_string());
    }
}

#[test]
fn positional_kinds() {
    assert_eq!(NumberingKind::Decimal.apply(0), "0");
    assert_eq!(NumberingKind::Decimal.apply(1234), "1234");
    assert_eq!(NumberingKind::ArabicIndic.apply(205), "٢٠٥");
    assert_eq!(NumberingKind::Decimal.apply(usize::MAX), usize::MAX.to_string());
}

#[test]
fn alphabetic_kinds() {
    assert_eq!(NumberingKind::LowerAlpha.apply(0), "-");
    assert_eq!(NumberingKind::LowerAlpha.apply(26), "z");
    assert_eq!(NumberingKind::LowerAlpha.apply(27), "aa");
    assert_eq!(NumberingKind::UpperAlpha.apply(703), "AAA");
    assert_eq!(NumberingKind::KoreanJamo.apply(15), "ㄱㄱ");
}

#[test]
fn fixed_kinds() {
    assert_eq!(NumberingKind::CircledDecimal.apply(3), "③");
    assert_eq!(NumberingKind::CircledDecimal.apply(50), "㊿");
    assert_eq!(NumberingKind::CircledDecimal.apply(51), "51");
    assert_eq!(NumberingKind::DoubleCircledDecimal.apply(0), "0");
}

#[test]
fn symbolic_kind() {
    assert_eq!(NumberingKind::Symbol.apply(0), "-");
    assert_eq!(NumberingKind::Symbol.apply(2), "†");
    assert_eq!(NumberingKind::Symbol.apply(6), "‖");
    assert_eq!(NumberingKind::Symbol.apply(7), "**");
    assert_eq!(NumberingKind::Symbol.apply(8), "††");
    assert_eq!(NumberingKind::Symbol.apply(14), "†††");
    assert_eq!(NumberingKind::Symbol.apply(13), "***");
}

#[test]
fn additive_kinds() {
    assert_eq!(NumberingKind::LowerRoman.apply(1994), "mcmxciv");
    assert_eq!(NumberingKind::UpperRoman.apply(4), "IV");
    assert_eq!(NumberingKind::UpperRoman.apply(0), "0");
    assert_eq!(NumberingKind::GreekLowerAncient.apply(0), "𐆊");
    assert_eq!(NumberingKind::GreekLowerModern.apply(6), "στ");
    assert_eq!(NumberingKind::GreekLowerAncient.apply(6), "ϛ");
    assert_eq!(NumberingKind::Hebrew.apply(15), "טו");
    assert_eq!(NumberingKind::Hebrew.apply(1000), "א׳");
    assert_eq!(NumberingKind::Hebrew.apply(0), "0");
    assert_eq!(NumberingKind::TallyMark.apply(7), "𝍸𝍷𝍷");
}

#[test]
fn chinese_kinds() {
    assert_eq!(NumberingKind::TradChineseFormal.apply(123), "壹佰貳拾參");
    assert_eq!(NumberingKind::SimpChineseFormal.apply(123), "壹佰贰拾叁");
    assert_eq!(NumberingKind::TradChineseInformal.apply(123), "一百二十三");
    assert_eq!(NumberingKind::SimpChineseInformal.apply(0), "零");
    assert_eq!(NumberingKind::TradChineseFormal.apply(1), "壹");
    assert_eq!(NumberingKind::TradChineseInformal.apply(1), "一");
}

#[test]
fn trimmed_pattern_drops_first_prefix_and_suffix() {
    let scheme: Numbering<u32> = Numbering::Pattern(pattern("[1.1]"));
    let full = text_of(scheme.apply(&[3, 4, 5]));
    let trimmed = text_of(scheme.clone().trimmed().apply(&[3, 4, 5]));
    assert_eq!(full, "[3.4.5]");
    assert_eq!(format!("[{}]", trimmed), full);
}

#[test]
fn first_segment_alone_matches_apply() {
    let p = pattern("§1.a");
    assert_eq!(p.apply_kth(0, 7), p.apply(&[7]));
}

#[test]
fn plain_pattern_round_trip() {
    let p = pattern("Step A, §1.a)");
    assert_eq!(p.pieces(), 3);
    let prefixes: Vec<String> = p.pieces.iter().map(|(prefix, _)| prefix.to_string()).collect();
    assert_eq!(prefixes, vec!["Step ", ", §", "."]);
    let symbols: Vec<NumberingKind> = p.pieces.iter().map(|(_, kind)| *kind).collect();
    assert_eq!(symbols, vec![NumberingKind::UpperAlpha, NumberingKind::Decimal, NumberingKind::LowerAlpha]);
    assert_eq!(p.suffix, ")");
    let symbols = ['A', '1', 'a'];
    let mut rebuilt = String::new();
    for (i, (prefix, kind)) in p.pieces.iter().enumerate() {
        assert_eq!(NumberingKind::from_char(symbols[i]), Some(*kind));
        rebuilt.push_str(prefix);
        rebuilt.push(symbols[i]);
    }
    rebuilt.push_str(&p.suffix);
    assert_eq!(rebuilt, "Step A, §1.a)");
}
