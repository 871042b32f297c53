//! Identities of what a project holds, and references to parts of it.
use crate::number::{Pair64, Real64};
use vstd::prelude::*;

verus! {

/// A design layer.
#[derive(Clone, Copy, Debug, PartialEq, Eq, Hash, Structural)]
pub struct LayerId(pub u64);

/// A design object.
#[derive(Clone, Copy, Debug, PartialEq, Eq, Hash, Structural)]
pub struct ObjectId(pub u64);

/// A triangulated surface or solid.
#[derive(Clone, Copy, Debug, PartialEq, Eq, Hash, Structural)]
pub struct TriangulationId(pub u64);

/// A raster that can be draped over triangulations.
#[derive(Clone, Copy, Debug, PartialEq, Eq, Hash, Structural)]
pub struct RasterTextureId(pub u64);

/// A point cloud.
#[derive(Clone, Copy, Debug, PartialEq, Eq, Hash, Structural)]
pub struct PointCloudId(pub u64);

/// A block model.
#[derive(Clone, Copy, Debug, PartialEq, Eq, Hash, Structural)]
pub struct BlockModelId(pub u64);

/// A drillhole dataset.
#[derive(Clone, Copy, Debug, PartialEq, Eq, Hash, Structural)]
pub struct DrillHoleId(pub u64);

/// A solid of the Solids setup.
#[derive(Clone, Copy, Debug, PartialEq, Eq, Hash, Structural)]
pub struct SolidId(pub u64);

/// An entry of the Reserves setup's Field List.
#[derive(Clone, Copy, Debug, PartialEq, Eq, Hash, Structural)]
pub struct ReserveFieldId(pub u64);

/// A dig block inside a flitch.
#[derive(Clone, Copy, Debug, PartialEq, Eq, Hash, Structural)]
pub struct DigBlockId(pub u64);

/// A product of the Drill & Blast palette. Identities are handed out in order,
/// so a product keeps its own as others around it are added and deleted.
#[derive(Clone, Copy, Debug, PartialEq, Eq, Hash, Structural)]
pub struct DelayProductId(pub u64);

/// A project kept in browser storage.
#[derive(Clone, Copy, Debug, PartialEq, Eq, Hash, Structural)]
pub struct ProjectId(pub u64);

/// A choice of interface language.
#[derive(Clone, Copy, Debug, PartialEq, Eq, Hash, Structural)]
pub struct LanguageChoice(pub u32);

/// A value that the interface hands on without reading it, by the slot in which
/// the application keeps it.
#[derive(Clone, Copy, Debug, PartialEq, Eq, Hash, Structural)]
pub struct Carried(pub u64);

/// Anything in the scene that can be picked.
#[derive(Clone, Copy, Debug, PartialEq, Eq, Hash, Structural)]
pub enum SceneEntityId {
    Object(ObjectId),
    Triangulation(TriangulationId),
    BlockModel(BlockModelId),
    DrillHole(DrillHoleId),
    PointCloud(PointCloudId),
}

/// One hole of a drillhole dataset.
#[derive(Clone, Copy, Debug, PartialEq, Eq, Hash, Structural)]
pub struct DrillHoleRef {
    pub dataset: DrillHoleId,
    pub hole: usize,
}

/// One tie-in connector as selection addresses it. The hole order is canonical,
/// because selection is about the physical connector and not its direction.
#[derive(Clone, Copy, Debug, PartialEq, Eq, Hash, Structural)]
pub struct TieInRef {
    pub dataset: DrillHoleId,
    pub a: usize,
    pub b: usize,
}

impl TieInRef {
    /// The lower hole first.
    pub open spec fn of(dataset: DrillHoleId, from: usize, to: usize) -> TieInRef {
        if from <= to {
            TieInRef { dataset, a: from, b: to }
        } else {
            TieInRef { dataset, a: to, b: from }
        }
    }

    pub fn new(dataset: DrillHoleId, from: usize, to: usize) -> (r: TieInRef)
        ensures
            r == TieInRef::of(dataset, from, to),
    {
        if from <= to {
            TieInRef { dataset, a: from, b: to }
        } else {
            TieInRef { dataset, a: to, b: from }
        }
    }
}

/// A connector reads the same from either end, its lower hole first, and two
/// references agree only where they join the same two holes of one dataset.
pub proof fn tie_in_ref_is_canonical(
    dataset: DrillHoleId,
    from: usize,
    to: usize,
    other_dataset: DrillHoleId,
    other_from: usize,
    other_to: usize,
)
    ensures
        TieInRef::of(dataset, from, to) == TieInRef::of(dataset, to, from),
        TieInRef::of(dataset, from, to).a <= TieInRef::of(dataset, from, to).b,
        TieInRef::of(dataset, from, to) == TieInRef::of(other_dataset, other_from, other_to) <==> dataset == other_dataset
            && ((from == other_from && to == other_to) || (from == other_to && to == other_from)),
{
}

/// A stable reference to one stored blast name. It is keyed by the anchor rather
/// than by a list index: the list is rewritten whenever a face gains or loses a
/// name. Numbers are held by their patterns, so the reference compares exactly.
#[derive(Clone, Copy, Debug, PartialEq, Eq, Hash, Structural)]
pub struct BlastShapeRef {
    pub solid: SolidId,
    pub bench: u64,
    pub anchor_x: u64,
    pub anchor_y: u64,
}

impl BlastShapeRef {
    pub open spec fn of(solid: SolidId, bench_base: Real64, anchor: Pair64) -> BlastShapeRef {
        BlastShapeRef { solid, bench: bench_base.bits, anchor_x: anchor.x.bits, anchor_y: anchor.y.bits }
    }

    pub open spec fn spec_bench_base(self) -> Real64 {
        Real64 { bits: self.bench }
    }

    pub open spec fn spec_anchor(self) -> Pair64 {
        Pair64 { x: Real64 { bits: self.anchor_x }, y: Real64 { bits: self.anchor_y } }
    }

    pub fn new(solid: SolidId, bench_base: Real64, anchor: Pair64) -> (r: BlastShapeRef)
        ensures
            r == BlastShapeRef::of(solid, bench_base, anchor),
    {
        BlastShapeRef { solid, bench: bench_base.bits, anchor_x: anchor.x.bits, anchor_y: anchor.y.bits }
    }

    pub fn bench_base(self) -> (r: Real64)
        ensures
            r == self.spec_bench_base(),
    {
        Real64 { bits: self.bench }
    }

    pub fn anchor(self) -> (r: Pair64)
        ensures
            r == self.spec_anchor(),
    {
        Pair64 { x: Real64 { bits: self.anchor_x }, y: Real64 { bits: self.anchor_y } }
    }
}

/// A reference gives back exactly what it was taken from.
pub proof fn blast_shape_ref_round_trips(solid: SolidId, bench_base: Real64, anchor: Pair64)
    ensures
        BlastShapeRef::of(solid, bench_base, anchor).solid == solid,
        BlastShapeRef::of(solid, bench_base, anchor).spec_bench_base() == bench_base,
        BlastShapeRef::of(solid, bench_base, anchor).spec_anchor() == anchor,
{
}

/// The explorer item whose name is being edited.
#[derive(Clone, Copy, Debug, PartialEq, Eq, Structural)]
pub enum RenameTarget {
    Layer(LayerId),
    Triangulation(TriangulationId),
    Raster(RasterTextureId),
    PointCloud(PointCloudId),
    BlockModel(BlockModelId),
    DrillHole(DrillHoleId),
    ReserveField(ReserveFieldId),
    Solid(SolidId),
    BlastShape(BlastShapeRef),
}

} // verus!
