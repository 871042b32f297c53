//! The patterns of the numbers that the interface starts from and compares with.
use crate::number::{lemma_nearest, lemma_nearest_single, lemma_powers, Real32, Real64};
use vstd::prelude::*;

verus! {

/// Double precision: zero.
pub const ZERO: u64 = 0x0000_0000_0000_0000;

/// Double precision: one.
pub const ONE: u64 = 0x3FF0_0000_0000_0000;

/// Double precision: two.
pub const TWO: u64 = 0x4000_0000_0000_0000;

/// Double precision: three.
pub const THREE: u64 = 0x4008_0000_0000_0000;

/// Double precision: three and a half.
pub const THREE_AND_A_HALF: u64 = 0x400C_0000_0000_0000;

/// Double precision: eight.
pub const EIGHT: u64 = 0x4020_0000_0000_0000;

/// Double precision: ten.
pub const TEN: u64 = 0x4024_0000_0000_0000;

/// Double precision: twelve.
pub const TWELVE: u64 = 0x4028_0000_0000_0000;

/// Double precision: fifteen.
pub const FIFTEEN: u64 = 0x402E_0000_0000_0000;

/// Double precision: twenty-five.
pub const TWENTY_FIVE: u64 = 0x4039_0000_0000_0000;

/// Double precision: forty.
pub const FORTY: u64 = 0x4044_0000_0000_0000;

/// Double precision: forty-five.
pub const FORTY_FIVE: u64 = 0x4046_8000_0000_0000;

/// Double precision: fifty.
pub const FIFTY: u64 = 0x4049_0000_0000_0000;

/// Double precision: sixty.
pub const SIXTY: u64 = 0x404E_0000_0000_0000;

/// Double precision: sixty-four.
pub const SIXTY_FOUR: u64 = 0x4050_0000_0000_0000;

/// Double precision: one hundred.
pub const HUNDRED: u64 = 0x4059_0000_0000_0000;

/// Double precision: one hundred and sixty-five.
pub const HUNDRED_SIXTY_FIVE: u64 = 0x4064_A000_0000_0000;

/// Double precision: minus ninety.
pub const MINUS_NINETY: u64 = 0xC056_8000_0000_0000;

/// Double precision: one tenth.
pub const TENTH: u64 = 0x3FB9_9999_9999_999A;

/// Double precision: one hundredth.
pub const HUNDREDTH: u64 = 0x3F84_7AE1_47AE_147B;

/// Double precision: 0.165.
pub const COLLAR_DIAMETER: u64 = 0x3FC5_1EB8_51EB_851F;

/// Double precision: the difference between one and the next larger double.
pub const EPSILON: u64 = 0x3CB0_0000_0000_0000;

/// Double precision: one billionth.
pub const BILLIONTH: u64 = 0x3E11_2E0B_E826_D695;

/// Double precision: the largest finite double.
pub const LARGEST: u64 = 0x7FEF_FFFF_FFFF_FFFF;

/// The lowest finite number.
pub const LOWEST: u64 = 0xFFEF_FFFF_FFFF_FFFF;

/// Double precision: pi.
pub const PI: u64 = 0x4009_21FB_5444_2D18;

/// Double precision: half of pi.
pub const HALF_PI: u64 = 0x3FF9_21FB_5444_2D18;

/// Double precision: minus half of pi.
pub const MINUS_HALF_PI: u64 = 0xBFF9_21FB_5444_2D18;

/// Double precision: minus a quarter of pi.
pub const MINUS_QUARTER_PI: u64 = 0xBFE9_21FB_5444_2D18;

/// Double precision: a sixth of pi.
pub const SIXTH_PI: u64 = 0x3FE0_C152_382D_7366;

/// Double precision: 0.98 of half of pi.
pub const MAX_PITCH: u64 = 0x3FF8_A14D_57B3_73DF;

/// Double precision: minus 0.98 of half of pi.
pub const MIN_PITCH: u64 = 0xBFF8_A14D_57B3_73DF;

/// Double precision: not a number.
pub const NOT_A_NUMBER: u64 = 0x7FF8_0000_0000_0000;

/// Single precision: zero.
pub const SINGLE_ZERO: u32 = 0x0000_0000;

/// Single precision: one.
pub const SINGLE_ONE: u32 = 0x3F80_0000;

/// Single precision: one half.
pub const SINGLE_HALF: u32 = 0x3F00_0000;

/// Single precision: minus one half.
pub const SINGLE_MINUS_HALF: u32 = 0xBF00_0000;

/// Single precision: minus one.
pub const SINGLE_MINUS_ONE: u32 = 0xBF80_0000;

/// Single precision: zero, negative.
pub const SINGLE_MINUS_ZERO: u32 = 0x8000_0000;

/// Single precision: six.
pub const SINGLE_SIX: u32 = 0x40C0_0000;

/// Single precision: twelve.
pub const SINGLE_TWELVE: u32 = 0x4140_0000;

/// Single precision: ninety-two.
pub const SINGLE_NINETY_TWO: u32 = 0x42B8_0000;

/// Single precision: four fifths.
pub const SINGLE_FOUR_FIFTHS: u32 = 0x3F4C_CCCD;

/// The patterns stand for the numbers that they are called after: exactly, or to the nearest
/// number that the format has.
#[verifier::spinoff_prover]
pub proof fn constants_are_what_they_are_called()
    ensures
        (Real64 { bits: ONE }).is_nearest(1, 1),
        (Real64 { bits: TWO }).is_nearest(2, 1),
        (Real64 { bits: THREE }).is_nearest(3, 1),
        (Real64 { bits: THREE_AND_A_HALF }).is_nearest(7, 2),
        (Real64 { bits: EIGHT }).is_nearest(8, 1),
        (Real64 { bits: TEN }).is_nearest(10, 1),
        (Real64 { bits: TWELVE }).is_nearest(12, 1),
        (Real64 { bits: FIFTEEN }).is_nearest(15, 1),
        (Real64 { bits: TWENTY_FIVE }).is_nearest(25, 1),
        (Real64 { bits: FORTY }).is_nearest(40, 1),
        (Real64 { bits: FORTY_FIVE }).is_nearest(45, 1),
        (Real64 { bits: FIFTY }).is_nearest(50, 1),
        (Real64 { bits: SIXTY }).is_nearest(60, 1),
        (Real64 { bits: SIXTY_FOUR }).is_nearest(64, 1),
        (Real64 { bits: HUNDRED }).is_nearest(100, 1),
        (Real64 { bits: HUNDRED_SIXTY_FIVE }).is_nearest(165, 1),
        (Real64 { bits: MINUS_NINETY }).is_nearest(-90, 1),
        (Real64 { bits: TENTH }).is_nearest(1, 10),
        (Real64 { bits: HUNDREDTH }).is_nearest(1, 100),
        (Real64 { bits: COLLAR_DIAMETER }).is_nearest(165, 1000),
        (Real64 { bits: BILLIONTH }).is_nearest(1, 1_000_000_000),
        (Real32 { bits: SINGLE_ONE }).is_nearest(1, 1),
        (Real32 { bits: SINGLE_HALF }).is_nearest(1, 2),
        (Real32 { bits: SINGLE_MINUS_HALF }).is_nearest(-1, 2),
        (Real32 { bits: SINGLE_MINUS_ONE }).is_nearest(-1, 1),
        (Real32 { bits: SINGLE_SIX }).is_nearest(6, 1),
        (Real32 { bits: SINGLE_TWELVE }).is_nearest(12, 1),
        (Real32 { bits: SINGLE_NINETY_TWO }).is_nearest(92, 1),
        (Real32 { bits: SINGLE_FOUR_FIFTHS }).is_nearest(4, 5),
        (Real64 { bits: PI }).is_nearest(314159265358979323846, 100000000000000000000),
        (Real64 { bits: HALF_PI }).is_nearest(314159265358979323846, 200000000000000000000),
        (Real64 { bits: MINUS_HALF_PI }).is_nearest(-314159265358979323846, 200000000000000000000),
        (Real64 { bits: MINUS_QUARTER_PI }).is_nearest(-314159265358979323846, 400000000000000000000),
        (Real64 { bits: SIXTH_PI }).is_nearest(314159265358979323846, 600000000000000000000),
        (Real64 { bits: MAX_PITCH }).is_nearest(15393804002589986868454, 10000000000000000000000),
        (Real64 { bits: MIN_PITCH }).is_nearest(-15393804002589986868454, 10000000000000000000000),
        (Real64 { bits: ZERO }).value() == 0,
        (Real64 { bits: LARGEST }).magnitude() + 1 == crate::number::INFINITY64,
        !(Real64 { bits: LARGEST }).negative(),
        (Real64 { bits: LOWEST }).magnitude() + 1 == crate::number::INFINITY64,
        (Real64 { bits: LOWEST }).negative(),
        (Real64 { bits: NOT_A_NUMBER }).nan(),
        (Real64 { bits: EPSILON }).magnitude() / (crate::number::MANTISSA64 as nat) == (Real64 { bits: ONE }).magnitude() / (
        crate::number::MANTISSA64 as nat) - 52,
        (Real64 { bits: EPSILON }).magnitude() % (crate::number::MANTISSA64 as nat) == 0,
        (Real32 { bits: SINGLE_ZERO }).value() == 0 && !(Real32 { bits: SINGLE_ZERO }).negative(),
        (Real32 { bits: SINGLE_MINUS_ZERO }).value() == 0 && (Real32 { bits: SINGLE_MINUS_ZERO }).negative(),
{
    lemma_powers();
    lemma_nearest(Real64 { bits: ONE }, 1, 1, 1023, 52);
    lemma_nearest(Real64 { bits: TWO }, 2, 1, 1024, 51);
    lemma_nearest(Real64 { bits: THREE }, 3, 1, 1024, 51);
    lemma_nearest(Real64 { bits: THREE_AND_A_HALF }, 7, 2, 1024, 51);
    lemma_nearest(Real64 { bits: EIGHT }, 8, 1, 1026, 49);
    lemma_nearest(Real64 { bits: TEN }, 10, 1, 1026, 49);
    lemma_nearest(Real64 { bits: TWELVE }, 12, 1, 1026, 49);
    lemma_nearest(Real64 { bits: FIFTEEN }, 15, 1, 1026, 49);
    lemma_nearest(Real64 { bits: TWENTY_FIVE }, 25, 1, 1027, 48);
    lemma_nearest(Real64 { bits: FORTY }, 40, 1, 1028, 47);
    lemma_nearest(Real64 { bits: FORTY_FIVE }, 45, 1, 1028, 47);
    lemma_nearest(Real64 { bits: FIFTY }, 50, 1, 1028, 47);
    lemma_nearest(Real64 { bits: SIXTY }, 60, 1, 1028, 47);
    lemma_nearest(Real64 { bits: SIXTY_FOUR }, 64, 1, 1029, 46);
    lemma_nearest(Real64 { bits: HUNDRED }, 100, 1, 1029, 46);
    lemma_nearest(Real64 { bits: HUNDRED_SIXTY_FIVE }, 165, 1, 1030, 45);
    lemma_nearest(Real64 { bits: MINUS_NINETY }, -90, 1, 1029, 46);
    lemma_nearest(Real64 { bits: TENTH }, 1, 10, 1019, 56);
    lemma_nearest(Real64 { bits: HUNDREDTH }, 1, 100, 1016, 59);
    lemma_nearest(Real64 { bits: COLLAR_DIAMETER }, 165, 1000, 1020, 55);
    lemma_nearest(Real64 { bits: BILLIONTH }, 1, 1_000_000_000, 993, 82);
    lemma_nearest_single(Real32 { bits: SINGLE_ONE }, 1, 1, 127, 23);
    lemma_nearest_single(Real32 { bits: SINGLE_HALF }, 1, 2, 126, 24);
    lemma_nearest_single(Real32 { bits: SINGLE_MINUS_HALF }, -1, 2, 126, 24);
    lemma_nearest_single(Real32 { bits: SINGLE_MINUS_ONE }, -1, 1, 127, 23);
    lemma_nearest_single(Real32 { bits: SINGLE_SIX }, 6, 1, 129, 21);
    lemma_nearest_single(Real32 { bits: SINGLE_TWELVE }, 12, 1, 130, 20);
    lemma_nearest_single(Real32 { bits: SINGLE_NINETY_TWO }, 92, 1, 133, 17);
    lemma_nearest_single(Real32 { bits: SINGLE_FOUR_FIFTHS }, 4, 5, 126, 24);
    lemma_nearest(Real64 { bits: PI }, 314159265358979323846, 100000000000000000000, 1024, 51);
    lemma_nearest(Real64 { bits: HALF_PI }, 314159265358979323846, 200000000000000000000, 1023, 52);
    lemma_nearest(Real64 { bits: MINUS_HALF_PI }, -314159265358979323846, 200000000000000000000, 1023, 52);
    lemma_nearest(Real64 { bits: MINUS_QUARTER_PI }, -314159265358979323846, 400000000000000000000, 1022, 53);
    lemma_nearest(Real64 { bits: SIXTH_PI }, 314159265358979323846, 600000000000000000000, 1022, 53);
    lemma_nearest(Real64 { bits: MAX_PITCH }, 15393804002589986868454, 10000000000000000000000, 1023, 52);
    lemma_nearest(Real64 { bits: MIN_PITCH }, -15393804002589986868454, 10000000000000000000000, 1023, 52);
}

} // verus!
