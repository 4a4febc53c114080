//! Chinese numerals, written by the `chinese-number` crate.

use vstd::prelude::*;
use chinese_number::{from_usize_to_chinese_ten_thousand, ChineseCase, ChineseVariant};
use ecow::EcoString;
use crate::eco::eco_chars;

verus! {

/// The text that `chinese_number::from_usize_to_chinese_ten_thousand`
/// gives for `n`: traditional or simplified characters, upper-case (formal)
/// or lower-case (informal) digits, counted in myriads.
pub uninterp spec fn chinese_ten_thousand(traditional: bool, upper: bool, n: usize) -> Seq<char>;

/// Chinese numerals as the library states them: the crate's text, which for
/// one is the single digit `壹` (upper case) or `一` (lower case).
pub open spec fn chinese_text(traditional: bool, upper: bool, n: usize) -> Seq<char> {
    if n == 1 {
        if upper {
            seq!['壹']
        } else {
            seq!['一']
        }
    } else {
        chinese_ten_thousand(traditional, upper, n)
    }
}

/// `chinese_number::from_usize_to_chinese_ten_thousand` with the variant
/// (`Traditional` or `Simple`) and the case (`Upper` or `Lower`) chosen by
/// the two flags, turned into an `EcoString` with the same characters.
/// The text is the crate's result for these arguments (the function is
/// total and depends on nothing else); of its characters only the text of
/// one is stated: the single digit `壹` (upper case) or `一` (lower case),
/// in either variant.
#[verifier::external_body]
pub(crate) fn chinese_numeral(traditional: bool, upper: bool, n: usize) -> (res: EcoString)
    ensures
        eco_chars(res) == chinese_ten_thousand(traditional, upper, n),
        n == 1 ==> eco_chars(res) == (if upper {
            seq!['壹']
        } else {
            seq!['一']
        }),
{
    let variant = if traditional { ChineseVariant::Traditional } else { ChineseVariant::Simple };
    let case = if upper { ChineseCase::Upper } else { ChineseCase::Lower };
    from_usize_to_chinese_ten_thousand(variant, case, n).into()
}

} // verus!
