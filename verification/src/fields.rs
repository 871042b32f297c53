//! The values that the fields of the interface take.
use crate::number::Real64;
use vstd::prelude::*;

verus! {

/// Both ends are within the range.
#[derive(Clone, Copy, Debug, PartialEq, Eq, Structural)]
pub struct RealRange {
    pub low: Real64,
    pub high: Real64,
}

#[derive(Clone, Copy, Debug, PartialEq, Eq, Structural)]
pub struct CountRange {
    pub low: u32,
    pub high: u32,
}

/// A field for a number.
#[derive(Clone, Copy, Debug, PartialEq, Eq, Structural)]
pub enum RealField {
    /// Slope angle of an offset, in degrees.
    OffsetAngle,
    /// Distance or width of an offset.
    OffsetLength,
    /// Height or target elevation of an offset.
    OffsetHeight,
    /// Horizontal width of a berm.
    BermWidth,
    /// Slope angle of a batter face, from horizontal.
    BatterAngle,
    /// Vertical rise or fall of a bench.
    BermBenchHeight,
    /// New length, or change of length.
    RelimitLength,
    /// Translation along one axis.
    MoveDelta,
    /// Bearing, clockwise from grid north.
    Azimuth,
    /// A coordinate.
    AxisValue,
    /// Height of a text.
    TextHeight,
    /// Rotation of a text, in degrees.
    TextRotation,
    /// Thickness of the slice slab.
    SliceWidth,
    /// Movement speed of the slice.
    SliceSpeed,
    /// Rotation speed of the slice.
    SliceTurn,
    /// Scale of vertical distances.
    VerticalExaggeration,
    /// Line width of the plan grid, which is added beyond the grid's one-pixel line.
    PlanGridThickness,
    /// Line width of the section grid.
    SectionGridThickness,
    /// A constant that a reserve field is mapped to.
    ReserveConstant,
    OrbitSensitivity,
    ZoomSensitivity,
    /// In degrees.
    FieldOfView,
    LookSensitivity,
    NearClipLimit,
    MaxClipSpan,
}

/// A field for a count.
#[derive(Clone, Copy, Debug, PartialEq, Eq, Structural)]
pub enum CountField {
    /// Straight segments of a rounded corner.
    ChamferSegments,
    /// Straight segments of a curve.
    BezierSegments,
    /// Per second.
    SnapPollRate,
    FrameRateCap,
    ResizeFrameRateCap,
    /// Downscale of block models while the view moves.
    BlockModelDivisor,
}

impl RealField {
    pub open spec fn spec_range(self) -> RealRange {
        match self {
            RealField::OffsetAngle => RealRange {
                low: Real64 { bits: 0xC056_8000_0000_0000 },
                high: Real64 { bits: 0x4056_8000_0000_0000 },
            },
            RealField::OffsetLength => RealRange {
                low: Real64 { bits: 0x0000_0000_0000_0000 },
                high: Real64 { bits: 0x7FEF_FFFF_FFFF_FFFF },
            },
            RealField::OffsetHeight => RealRange {
                low: Real64 { bits: 0xFFEF_FFFF_FFFF_FFFF },
                high: Real64 { bits: 0x7FEF_FFFF_FFFF_FFFF },
            },
            RealField::BermWidth => RealRange {
                low: Real64 { bits: 0x3FB9_9999_9999_999A },
                high: Real64 { bits: 0x407F_4000_0000_0000 },
            },
            RealField::BatterAngle => RealRange {
                low: Real64 { bits: 0x3FF0_0000_0000_0000 },
                high: Real64 { bits: 0x4056_4000_0000_0000 },
            },
            RealField::BermBenchHeight => RealRange {
                low: Real64 { bits: 0x3FB9_9999_9999_999A },
                high: Real64 { bits: 0x407F_4000_0000_0000 },
            },
            RealField::RelimitLength => RealRange {
                low: Real64 { bits: 0xFFEF_FFFF_FFFF_FFFF },
                high: Real64 { bits: 0x7FEF_FFFF_FFFF_FFFF },
            },
            RealField::MoveDelta => RealRange {
                low: Real64 { bits: 0xFFEF_FFFF_FFFF_FFFF },
                high: Real64 { bits: 0x7FEF_FFFF_FFFF_FFFF },
            },
            RealField::Azimuth => RealRange {
                low: Real64 { bits: 0x0000_0000_0000_0000 },
                high: Real64 { bits: 0x4076_8000_0000_0000 },
            },
            RealField::AxisValue => RealRange {
                low: Real64 { bits: 0xFFEF_FFFF_FFFF_FFFF },
                high: Real64 { bits: 0x7FEF_FFFF_FFFF_FFFF },
            },
            RealField::TextHeight => RealRange {
                low: Real64 { bits: 0x3F50_624D_D2F1_A9FC },
                high: Real64 { bits: 0x41CD_CD65_0000_0000 },
            },
            RealField::TextRotation => RealRange {
                low: Real64 { bits: 0xFFEF_FFFF_FFFF_FFFF },
                high: Real64 { bits: 0x7FEF_FFFF_FFFF_FFFF },
            },
            RealField::SliceWidth => RealRange {
                low: Real64 { bits: 0x3FB9_9999_9999_999A },
                high: Real64 { bits: 0x412E_8480_0000_0000 },
            },
            RealField::SliceSpeed => RealRange {
                low: Real64 { bits: 0x0000_0000_0000_0000 },
                high: Real64 { bits: 0x412E_8480_0000_0000 },
            },
            RealField::SliceTurn => RealRange {
                low: Real64 { bits: 0x3FF0_0000_0000_0000 },
                high: Real64 { bits: 0x4086_8000_0000_0000 },
            },
            RealField::VerticalExaggeration => RealRange {
                low: Real64 { bits: 0x3FB9_9999_9999_999A },
                high: Real64 { bits: 0x4034_0000_0000_0000 },
            },
            RealField::PlanGridThickness => RealRange {
                low: Real64 { bits: 0x3FF0_0000_0000_0000 },
                high: Real64 { bits: 0x4018_0000_0000_0000 },
            },
            RealField::SectionGridThickness => RealRange {
                low: Real64 { bits: 0x3FE0_0000_0000_0000 },
                high: Real64 { bits: 0x4018_0000_0000_0000 },
            },
            RealField::ReserveConstant => RealRange {
                low: Real64 { bits: 0xFFEF_FFFF_FFFF_FFFF },
                high: Real64 { bits: 0x7FEF_FFFF_FFFF_FFFF },
            },
            RealField::OrbitSensitivity => RealRange {
                low: Real64 { bits: 0x3F1A_36E2_EB1C_432D },
                high: Real64 { bits: 0x3F94_7AE1_47AE_147B },
            },
            RealField::ZoomSensitivity => RealRange {
                low: Real64 { bits: 0x3F1A_36E2_EB1C_432D },
                high: Real64 { bits: 0x3FA9_9999_9999_999A },
            },
            RealField::FieldOfView => RealRange {
                low: Real64 { bits: 0x4034_0000_0000_0000 },
                high: Real64 { bits: 0x405E_0000_0000_0000 },
            },
            RealField::LookSensitivity => RealRange {
                low: Real64 { bits: 0x3F1A_36E2_EB1C_432D },
                high: Real64 { bits: 0x3F94_7AE1_47AE_147B },
            },
            RealField::NearClipLimit => RealRange {
                low: Real64 { bits: 0x3F84_7AE1_47AE_147B },
                high: Real64 { bits: 0x4059_0000_0000_0000 },
            },
            RealField::MaxClipSpan => RealRange {
                low: Real64 { bits: 0x4059_0000_0000_0000 },
                high: Real64 { bits: 0x412E_8480_0000_0000 },
            },
        }
    }

    /// The values that the field takes.
    pub fn range(self) -> (r: RealRange)
        ensures
            r == self.spec_range(),
    {
        match self {
            RealField::OffsetAngle => RealRange {
                low: Real64 { bits: 0xC056_8000_0000_0000 },
                high: Real64 { bits: 0x4056_8000_0000_0000 },
            },
            RealField::OffsetLength => RealRange {
                low: Real64 { bits: 0x0000_0000_0000_0000 },
                high: Real64 { bits: 0x7FEF_FFFF_FFFF_FFFF },
            },
            RealField::OffsetHeight => RealRange {
                low: Real64 { bits: 0xFFEF_FFFF_FFFF_FFFF },
                high: Real64 { bits: 0x7FEF_FFFF_FFFF_FFFF },
            },
            RealField::BermWidth => RealRange {
                low: Real64 { bits: 0x3FB9_9999_9999_999A },
                high: Real64 { bits: 0x407F_4000_0000_0000 },
            },
            RealField::BatterAngle => RealRange {
                low: Real64 { bits: 0x3FF0_0000_0000_0000 },
                high: Real64 { bits: 0x4056_4000_0000_0000 },
            },
            RealField::BermBenchHeight => RealRange {
                low: Real64 { bits: 0x3FB9_9999_9999_999A },
                high: Real64 { bits: 0x407F_4000_0000_0000 },
            },
            RealField::RelimitLength => RealRange {
                low: Real64 { bits: 0xFFEF_FFFF_FFFF_FFFF },
                high: Real64 { bits: 0x7FEF_FFFF_FFFF_FFFF },
            },
            RealField::MoveDelta => RealRange {
                low: Real64 { bits: 0xFFEF_FFFF_FFFF_FFFF },
                high: Real64 { bits: 0x7FEF_FFFF_FFFF_FFFF },
            },
            RealField::Azimuth => RealRange {
                low: Real64 { bits: 0x0000_0000_0000_0000 },
                high: Real64 { bits: 0x4076_8000_0000_0000 },
            },
            RealField::AxisValue => RealRange {
                low: Real64 { bits: 0xFFEF_FFFF_FFFF_FFFF },
                high: Real64 { bits: 0x7FEF_FFFF_FFFF_FFFF },
            },
            RealField::TextHeight => RealRange {
                low: Real64 { bits: 0x3F50_624D_D2F1_A9FC },
                high: Real64 { bits: 0x41CD_CD65_0000_0000 },
            },
            RealField::TextRotation => RealRange {
                low: Real64 { bits: 0xFFEF_FFFF_FFFF_FFFF },
                high: Real64 { bits: 0x7FEF_FFFF_FFFF_FFFF },
            },
            RealField::SliceWidth => RealRange {
                low: Real64 { bits: 0x3FB9_9999_9999_999A },
                high: Real64 { bits: 0x412E_8480_0000_0000 },
            },
            RealField::SliceSpeed => RealRange {
                low: Real64 { bits: 0x0000_0000_0000_0000 },
                high: Real64 { bits: 0x412E_8480_0000_0000 },
            },
            RealField::SliceTurn => RealRange {
                low: Real64 { bits: 0x3FF0_0000_0000_0000 },
                high: Real64 { bits: 0x4086_8000_0000_0000 },
            },
            RealField::VerticalExaggeration => RealRange {
                low: Real64 { bits: 0x3FB9_9999_9999_999A },
                high: Real64 { bits: 0x4034_0000_0000_0000 },
            },
            RealField::PlanGridThickness => RealRange {
                low: Real64 { bits: 0x3FF0_0000_0000_0000 },
                high: Real64 { bits: 0x4018_0000_0000_0000 },
            },
            RealField::SectionGridThickness => RealRange {
                low: Real64 { bits: 0x3FE0_0000_0000_0000 },
                high: Real64 { bits: 0x4018_0000_0000_0000 },
            },
            RealField::ReserveConstant => RealRange {
                low: Real64 { bits: 0xFFEF_FFFF_FFFF_FFFF },
                high: Real64 { bits: 0x7FEF_FFFF_FFFF_FFFF },
            },
            RealField::OrbitSensitivity => RealRange {
                low: Real64 { bits: 0x3F1A_36E2_EB1C_432D },
                high: Real64 { bits: 0x3F94_7AE1_47AE_147B },
            },
            RealField::ZoomSensitivity => RealRange {
                low: Real64 { bits: 0x3F1A_36E2_EB1C_432D },
                high: Real64 { bits: 0x3FA9_9999_9999_999A },
            },
            RealField::FieldOfView => RealRange {
                low: Real64 { bits: 0x4034_0000_0000_0000 },
                high: Real64 { bits: 0x405E_0000_0000_0000 },
            },
            RealField::LookSensitivity => RealRange {
                low: Real64 { bits: 0x3F1A_36E2_EB1C_432D },
                high: Real64 { bits: 0x3F94_7AE1_47AE_147B },
            },
            RealField::NearClipLimit => RealRange {
                low: Real64 { bits: 0x3F84_7AE1_47AE_147B },
                high: Real64 { bits: 0x4059_0000_0000_0000 },
            },
            RealField::MaxClipSpan => RealRange {
                low: Real64 { bits: 0x4059_0000_0000_0000 },
                high: Real64 { bits: 0x412E_8480_0000_0000 },
            },
        }
    }
}

impl CountField {
    pub open spec fn spec_range(self) -> CountRange {
        match self {
            CountField::ChamferSegments => CountRange { low: 1, high: 64 },
            CountField::BezierSegments => CountRange { low: 2, high: 64 },
            CountField::SnapPollRate => CountRange { low: 5, high: 1000 },
            CountField::FrameRateCap => CountRange { low: 20, high: 1000 },
            CountField::ResizeFrameRateCap => CountRange { low: 20, high: 1000 },
            CountField::BlockModelDivisor => CountRange { low: 1, high: 64 },
        }
    }

    /// The values that the field takes.
    pub fn range(self) -> (r: CountRange)
        ensures
            r == self.spec_range(),
    {
        match self {
            CountField::ChamferSegments => CountRange { low: 1, high: 64 },
            CountField::BezierSegments => CountRange { low: 2, high: 64 },
            CountField::SnapPollRate => CountRange { low: 5, high: 1000 },
            CountField::FrameRateCap => CountRange { low: 20, high: 1000 },
            CountField::ResizeFrameRateCap => CountRange { low: 20, high: 1000 },
            CountField::BlockModelDivisor => CountRange { low: 1, high: 64 },
        }
    }
}

impl RealRange {
    /// The nearest value in the range.
    pub fn nearest(self, value: Real64) -> (r: Real64)
        requires
            self.low.le_number(self.high),
        ensures
            r == value.held_between(self.low, self.high),
    {
        value.clamp_to(self.low, self.high)
    }
}

/// Every field takes some value, and its bounds are numbers.
pub proof fn fields_take_values(real_field: RealField, count_field: CountField)
    ensures
        real_field.spec_range().low.le_number(real_field.spec_range().high),
        real_field.spec_range().low.finite(),
        real_field.spec_range().high.finite(),
        count_field.spec_range().low <= count_field.spec_range().high,
{
}

/// The values that each field takes, by their numbers: angles in degrees, lengths in metres,
/// and for a field without a bound of its own every number that there is.
#[verifier::spinoff_prover]
pub proof fn fields_take_these_numbers(real_field: RealField)
    ensures
        ({
            let range = real_field.spec_range();
            match real_field {
                RealField::OffsetAngle => range.low.is_nearest(-90, 1) && range.high.is_nearest(90, 1),
                RealField::OffsetLength => range.low.value() == 0 && range.high == (Real64 { bits: crate::constants::LARGEST }),
                RealField::OffsetHeight => range.low == (Real64 { bits: crate::constants::LOWEST }) && range.high == (Real64 { bits: crate::constants::LARGEST }),
                RealField::BermWidth => range.low.is_nearest(1, 10) && range.high.is_nearest(500, 1),
                RealField::BatterAngle => range.low.is_nearest(1, 1) && range.high.is_nearest(89, 1),
                RealField::BermBenchHeight => range.low.is_nearest(1, 10) && range.high.is_nearest(500, 1),
                RealField::RelimitLength => range.low == (Real64 { bits: crate::constants::LOWEST }) && range.high == (Real64 { bits: crate::constants::LARGEST }),
                RealField::MoveDelta => range.low == (Real64 { bits: crate::constants::LOWEST }) && range.high == (Real64 { bits: crate::constants::LARGEST }),
                RealField::Azimuth => range.low.value() == 0 && range.high.is_nearest(360, 1),
                RealField::AxisValue => range.low == (Real64 { bits: crate::constants::LOWEST }) && range.high == (Real64 { bits: crate::constants::LARGEST }),
                RealField::TextHeight => range.low.is_nearest(1, 1000) && range.high.is_nearest(1_000_000_000, 1),
                RealField::TextRotation => range.low == (Real64 { bits: crate::constants::LOWEST }) && range.high == (Real64 { bits: crate::constants::LARGEST }),
                RealField::SliceWidth => range.low.is_nearest(1, 10) && range.high.is_nearest(1_000_000, 1),
                RealField::SliceSpeed => range.low.value() == 0 && range.high.is_nearest(1_000_000, 1),
                RealField::SliceTurn => range.low.is_nearest(1, 1) && range.high.is_nearest(720, 1),
                RealField::VerticalExaggeration => range.low.is_nearest(1, 10) && range.high.is_nearest(20, 1),
                RealField::PlanGridThickness => range.low.is_nearest(1, 1) && range.high.is_nearest(6, 1),
                RealField::SectionGridThickness => range.low.is_nearest(1, 2) && range.high.is_nearest(6, 1),
                RealField::ReserveConstant => range.low == (Real64 { bits: crate::constants::LOWEST }) && range.high == (Real64 { bits: crate::constants::LARGEST }),
                RealField::OrbitSensitivity => range.low.is_nearest(1, 10_000) && range.high.is_nearest(2, 100),
                RealField::ZoomSensitivity => range.low.is_nearest(1, 10_000) && range.high.is_nearest(5, 100),
                RealField::FieldOfView => range.low.is_nearest(20, 1) && range.high.is_nearest(120, 1),
                RealField::LookSensitivity => range.low.is_nearest(1, 10_000) && range.high.is_nearest(2, 100),
                RealField::NearClipLimit => range.low.is_nearest(1, 100) && range.high.is_nearest(100, 1),
                RealField::MaxClipSpan => range.low.is_nearest(100, 1) && range.high.is_nearest(1_000_000, 1),
            }
        }),
{
    crate::number::lemma_powers();
    let range = real_field.spec_range();
    match real_field {
        RealField::OffsetAngle => {
            crate::number::lemma_nearest(range.low, -90, 1, 1029, 46);
            crate::number::lemma_nearest(range.high, 90, 1, 1029, 46);
        },
        RealField::BermWidth => {
            crate::number::lemma_nearest(range.low, 1, 10, 1019, 56);
            crate::number::lemma_nearest(range.high, 500, 1, 1031, 44);
        },
        RealField::BatterAngle => {
            crate::number::lemma_nearest(range.low, 1, 1, 1023, 52);
            crate::number::lemma_nearest(range.high, 89, 1, 1029, 46);
        },
        RealField::BermBenchHeight => {
            crate::number::lemma_nearest(range.low, 1, 10, 1019, 56);
            crate::number::lemma_nearest(range.high, 500, 1, 1031, 44);
        },
        RealField::Azimuth => {
            crate::number::lemma_nearest(range.high, 360, 1, 1031, 44);
        },
        RealField::TextHeight => {
            crate::number::lemma_nearest(range.low, 1, 1000, 1013, 62);
            crate::number::lemma_nearest(range.high, 1_000_000_000, 1, 1052, 23);
        },
        RealField::SliceWidth => {
            crate::number::lemma_nearest(range.low, 1, 10, 1019, 56);
            crate::number::lemma_nearest(range.high, 1_000_000, 1, 1042, 33);
        },
        RealField::SliceSpeed => {
            crate::number::lemma_nearest(range.high, 1_000_000, 1, 1042, 33);
        },
        RealField::SliceTurn => {
            crate::number::lemma_nearest(range.low, 1, 1, 1023, 52);
            crate::number::lemma_nearest(range.high, 720, 1, 1032, 43);
        },
        RealField::VerticalExaggeration => {
            crate::number::lemma_nearest(range.low, 1, 10, 1019, 56);
            crate::number::lemma_nearest(range.high, 20, 1, 1027, 48);
        },
        RealField::PlanGridThickness => {
            crate::number::lemma_nearest(range.low, 1, 1, 1023, 52);
            crate::number::lemma_nearest(range.high, 6, 1, 1025, 50);
        },
        RealField::SectionGridThickness => {
            crate::number::lemma_nearest(range.low, 1, 2, 1022, 53);
            crate::number::lemma_nearest(range.high, 6, 1, 1025, 50);
        },
        RealField::OrbitSensitivity => {
            crate::number::lemma_nearest(range.low, 1, 10_000, 1009, 66);
            crate::number::lemma_nearest(range.high, 2, 100, 1017, 58);
        },
        RealField::ZoomSensitivity => {
            crate::number::lemma_nearest(range.low, 1, 10_000, 1009, 66);
            crate::number::lemma_nearest(range.high, 5, 100, 1018, 57);
        },
        RealField::FieldOfView => {
            crate::number::lemma_nearest(range.low, 20, 1, 1027, 48);
            crate::number::lemma_nearest(range.high, 120, 1, 1029, 46);
        },
        RealField::LookSensitivity => {
            crate::number::lemma_nearest(range.low, 1, 10_000, 1009, 66);
            crate::number::lemma_nearest(range.high, 2, 100, 1017, 58);
        },
        RealField::NearClipLimit => {
            crate::number::lemma_nearest(range.low, 1, 100, 1016, 59);
            crate::number::lemma_nearest(range.high, 100, 1, 1029, 46);
        },
        RealField::MaxClipSpan => {
            crate::number::lemma_nearest(range.low, 100, 1, 1029, 46);
            crate::number::lemma_nearest(range.high, 1_000_000, 1, 1042, 33);
        },
        _ => {},
    }
}

/// A field for a count takes at least one value, and never none at all: a divisor, a rate or
/// a number of segments is positive.
pub proof fn counts_are_positive(count_field: CountField)
    ensures
        1 <= count_field.spec_range().low <= count_field.spec_range().high,
        count_field is ChamferSegments || count_field is BezierSegments || count_field is BlockModelDivisor
            ==> count_field.spec_range().high == 64,
        count_field is SnapPollRate || count_field is FrameRateCap || count_field is ResizeFrameRateCap
            ==> count_field.spec_range().high == 1000,
        CountField::BezierSegments.spec_range().low == CountField::ChamferSegments.spec_range().low + 1,
        CountField::ChamferSegments.spec_range().low == 1,
        CountField::BlockModelDivisor.spec_range().low == 1,
        CountField::FrameRateCap.spec_range() == CountField::ResizeFrameRateCap.spec_range(),
        CountField::FrameRateCap.spec_range().low == 20,
        CountField::SnapPollRate.spec_range().low == 5,
{
}

} // verus!
