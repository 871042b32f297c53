//! What the interface reads of the document: design objects, solids and reserves.
use crate::ids::{BlockModelId, ReserveFieldId, TriangulationId};
use crate::number::{Real32, Real64, Rgba, Vec3};
use crate::text::{literal, Text};
use vstd::prelude::*;

verus! {

/// A world axis.
#[derive(Clone, Copy, Debug, PartialEq, Eq, Hash, Structural)]
pub enum Axis {
    X,
    Y,
    Z,
}

/// How the inside of a closed polyline is drawn.
#[derive(Clone, Copy, Debug, PartialEq, Eq, Hash, Structural)]
pub enum FillStyle {
    Clear,
    Crosses,
    Slashes,
    Solid,
}

/// The colour of an object: its layer's, or one of its own.
#[derive(Clone, Copy, Debug, PartialEq, Eq, Structural)]
pub enum ObjectColor {
    ByLayer,
    Fixed(Rgba),
}

/// A vertex of a polyline; the bulge bends the edge that leaves it.
#[derive(Clone, Copy, Debug, PartialEq, Eq, Structural)]
pub struct Vertex {
    pub pos: Vec3,
    pub bulge: Real64,
}

/// A design object.
#[derive(Clone, Debug, PartialEq)]
pub enum Object {
    Point { pos: Vec3, color: ObjectColor },
    Polyline { verts: Vec<Vertex>, closed: bool, fill: FillStyle, line_weight: Real32, color: ObjectColor },
    Text { pos: Vec3, content: String, height: Real64, rotation: Real64, color: ObjectColor },
}

/// The kinds of design object.
#[derive(Clone, Copy, Debug, PartialEq, Eq, Structural)]
pub enum ObjectKind {
    Point,
    Polyline,
    Text,
}

impl Object {
    pub open spec fn spec_kind(self) -> ObjectKind {
        match self {
            Object::Point { .. } => ObjectKind::Point,
            Object::Polyline { .. } => ObjectKind::Polyline,
            Object::Text { .. } => ObjectKind::Text,
        }
    }

    pub fn kind(&self) -> (r: ObjectKind)
        ensures
            r == self.spec_kind(),
    {
        match self {
            Object::Point { .. } => ObjectKind::Point,
            Object::Polyline { .. } => ObjectKind::Polyline,
            Object::Text { .. } => ObjectKind::Text,
        }
    }
}

/// What a solid is made of.
#[derive(Clone, Copy, Debug, PartialEq, Eq, Structural)]
pub enum SolidKind {
    Pit,
    Dump,
    Stockpile,
}

impl SolidKind {
    /// Whether a solid of this kind is reserved against a block model: a pit is, a
    /// dump or stockpile is placed material and needs none.
    pub fn requires_block_model(self) -> (r: bool)
        ensures
            r == (self is Pit),
    {
        self == SolidKind::Pit
    }
}

/// How a reserve field adds up over the blocks of a solid.
#[derive(Clone, Copy, Debug, PartialEq, Eq, Structural)]
pub enum ReserveAggregation {
    Sum,
    WeightedAverage { weight_field: ReserveFieldId },
    Category,
}

/// Where a block model's values of a reserve field come from.
#[derive(Clone, Debug, PartialEq)]
pub enum ReserveMappingSource {
    Column(String),
    Constant(Real64),
}

/// One change to a solid.
#[derive(Clone, Debug, PartialEq)]
pub enum SolidEdit {
    Color(Rgba),
    Kind(SolidKind),
    Surface(Option<TriangulationId>),
    Topography(Option<TriangulationId>),
    BlockModel(Option<BlockModelId>),
    Benching(BenchingPlan),
}

/// How one flitch position of a bench is drawn wherever it recurs.
#[derive(Clone, Copy, Debug, PartialEq, Eq, Structural)]
pub struct FlitchStyle {
    pub color: Rgba,
    pub pattern_color: Rgba,
    pub pattern: FillStyle,
}

/// One range of a benching plan, down to its base.
#[derive(Clone, Debug, PartialEq)]
pub struct BenchInterval {
    pub base: Real64,
    /// Bench height within the range.
    pub bench: Real64,
    /// Flitch height within a bench.
    pub flitch: Real64,
    /// One style for each flitch of a bench, top down.
    pub styles: Vec<FlitchStyle>,
}

/// How a solid is divided into benches: the elevation it is benched down from, and
/// the ranges beneath it, top down.
#[derive(Clone, Debug, PartialEq)]
pub struct BenchingPlan {
    pub top: Real64,
    pub intervals: Vec<BenchInterval>,
}

/// A change of the direction in which holes point, in degrees.
#[derive(Clone, Copy, Debug, PartialEq, Eq, Structural)]
pub enum CollarRotation {
    Absolute { azimuth: Real64, dip: Real64 },
    Delta { azimuth: Real64, dip: Real64 },
}

/// How the holes of a pattern stand to each other.
#[derive(Clone, Copy, Debug, PartialEq, Eq, Structural)]
pub enum DrillPatternLayout {
    Square,
    Staggered,
}

/// Whether a solid covers what is cut or what is filled.
#[derive(Clone, Copy, Debug, PartialEq, Eq, Structural)]
pub enum SolidRegion {
    /// Where the design lies below the topography.
    Cut,
    /// Where the design lies above the topography.
    Fill,
}

impl SolidRegion {
    pub open spec fn spec_of_solid(kind: SolidKind) -> SolidRegion {
        if kind is Pit {
            SolidRegion::Cut
        } else {
            SolidRegion::Fill
        }
    }

    /// The region a solid of this kind is made of: ground taken out for a pit,
    /// material placed on top for a dump or stockpile.
    pub fn of_solid(kind: SolidKind) -> (r: SolidRegion)
        ensures
            r == SolidRegion::spec_of_solid(kind),
    {
        match kind {
            SolidKind::Pit => SolidRegion::Cut,
            SolidKind::Dump | SolidKind::Stockpile => SolidRegion::Fill,
        }
    }

    pub fn label(self) -> (r: Text)
        ensures
            self is Cut ==> r == literal("Cut"),
            self is Fill ==> r == literal("Fill"),
    {
        match self {
            SolidRegion::Cut => literal("Cut"),
            SolidRegion::Fill => literal("Fill"),
        }
    }

    /// One line describing what the region covers.
    pub fn description(self) -> (r: Text)
        ensures
            self is Cut ==> r == literal("the volume above the design surface and below the topography - a pit or cut"),
            self is Fill ==> r == literal(
                "the volume below the design surface and above the topography - a dump or stockpile",
            ),
    {
        match self {
            SolidRegion::Cut => literal("the volume above the design surface and below the topography - a pit or cut"),
            SolidRegion::Fill => literal("the volume below the design surface and above the topography - a dump or stockpile"),
        }
    }
}

/// An object is of the kind that it is, and a solid is cut out of the ground exactly where it
/// is a pit; what is placed on top is filled.
pub proof fn kinds_are_what_things_are(object: Object, kind: SolidKind)
    ensures
        object is Point <==> object.spec_kind() is Point,
        object is Polyline <==> object.spec_kind() is Polyline,
        object is Text <==> object.spec_kind() is Text,
        SolidRegion::spec_of_solid(kind) is Cut <==> kind is Pit,
        SolidRegion::spec_of_solid(kind) is Fill <==> kind is Dump || kind is Stockpile,
{
}

} // verus!
