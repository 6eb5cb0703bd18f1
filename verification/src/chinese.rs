//! Delegation to the external Chinese-numeral converter.

use vstd::prelude::*;
use crate::system::ChineseCase;
use crate::system::ChineseVariant;

verus! {

/// The characters the external converter produces for `n` in the given
/// writing system (`traditional`) and numeral case (`upper`). The output
/// is a function of these three arguments alone, so it carries a name
/// here rather than a transcription of the conversion algorithm.
pub uninterp spec fn chinese_numeral(traditional: bool, upper: bool, n: u64) -> Seq<char>;

/// Relies on `chinese_number::from_u64_to_chinese_ten_thousand`: renders
/// any `u64` as Chinese numerals with the ten-thousand scaling method. It
/// is total over `u64` and its result depends only on the variant, the
/// case and the value.
#[verifier::external_body]
pub(crate) fn chinese_ten_thousand(variant: ChineseVariant, case: ChineseCase, n: u64) -> (r: String)
    ensures
        r@ == chinese_numeral(
            variant == ChineseVariant::Traditional,
            case == ChineseCase::Upper,
            n,
        ),
{
    chinese_number::from_u64_to_chinese_ten_thousand(
        match variant {
            ChineseVariant::Simple => chinese_number::ChineseVariant::Simple,
            ChineseVariant::Traditional => chinese_number::ChineseVariant::Traditional,
        },
        match case {
            ChineseCase::Lower => chinese_number::ChineseCase::Lower,
            ChineseCase::Upper => chinese_number::ChineseCase::Upper,
        },
        n,
    )
}

} // verus!
