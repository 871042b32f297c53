//! What the interface reads of the open document.
use crate::ids::{BlockModelId, ObjectId, ReserveFieldId, SolidId, TriangulationId};
use crate::model::{BenchingPlan, Object, ReserveAggregation, ReserveMappingSource, SolidKind};
use crate::number::{Real64, Rgba, Vec3};
use vstd::prelude::*;

verus! {

/// A project-wide column that block models are mapped onto.
#[derive(Clone, Debug)]
pub struct ReserveField {
    pub id: ReserveFieldId,
    pub name: String,
    pub aggregation: ReserveAggregation,
}

/// A volume of the project: ground taken out or material placed.
#[derive(Clone, Debug)]
pub struct Solid {
    pub id: SolidId,
    pub name: String,
    pub kind: SolidKind,
    pub color: Rgba,
    pub surface: Option<TriangulationId>,
    pub topography: Option<TriangulationId>,
    pub block_model: Option<BlockModelId>,
    pub benching: BenchingPlan,
}

/// The figures of one field over a block model.
#[derive(Clone, Debug)]
pub struct ReserveStats {
    pub total: Option<Real64>,
    pub min: Option<Real64>,
    pub max: Option<Real64>,
    /// Why there is no total, in words.
    pub issue: Option<String>,
    pub missing_values: u64,
    pub unusable_weights: u64,
}

/// Where one field's values come from.
#[derive(Clone, Debug)]
pub struct ReserveFieldMapping {
    pub field: ReserveFieldId,
    pub source: ReserveMappingSource,
}

/// A block model that is open.
#[derive(Clone, Debug)]
pub struct OpenBlockModel {
    pub id: BlockModelId,
    pub name: String,
    pub loaded: bool,
    pub lower: Vec3,
    pub upper: Vec3,
    pub included_in_reserves: bool,
    pub reserve_mapping: Vec<ReserveFieldMapping>,
    pub numeric_columns: Vec<String>,
    pub categorical_columns: Vec<String>,
    pub reserve_totals: Vec<(ReserveFieldId, ReserveStats)>,
    pub reserve_totals_error: Option<String>,
    pub reserve_totals_awaiting_restore: bool,
    /// A scan has been asked for.
    pub reserve_totals_requested: bool,
}

/// The part of the document that the interface reads.
#[derive(Clone, Debug)]
pub struct Document {
    pub objects: Vec<(ObjectId, Object)>,
    pub reserve_fields: Vec<ReserveField>,
    pub solids: Vec<Solid>,
}

/// The first object with an identity, from a place on.
pub open spec fn object_from(objects: Seq<(ObjectId, Object)>, id: ObjectId, from: int) -> Option<Object>
    decreases objects.len() - from,
{
    if from < 0 || from >= objects.len() {
        None
    } else if objects[from].0 == id {
        Some(objects[from].1)
    } else {
        object_from(objects, id, from + 1)
    }
}

/// The first field with an identity, from a place on.
pub open spec fn field_from(fields: Seq<ReserveField>, id: ReserveFieldId, from: int) -> Option<ReserveField>
    decreases fields.len() - from,
{
    if from < 0 || from >= fields.len() {
        None
    } else if fields[from].id == id {
        Some(fields[from])
    } else {
        field_from(fields, id, from + 1)
    }
}

/// The first solid with an identity, from a place on.
pub open spec fn solid_from(solids: Seq<Solid>, id: SolidId, from: int) -> Option<Solid>
    decreases solids.len() - from,
{
    if from < 0 || from >= solids.len() {
        None
    } else if solids[from].id == id {
        Some(solids[from])
    } else {
        solid_from(solids, id, from + 1)
    }
}

/// A found entry is the one that was asked for.
pub open spec fn same_entry<T>(found: Option<&T>, entry: Option<T>) -> bool {
    match found {
        Some(found) => entry == Some(*found),
        None => entry is None,
    }
}

impl Document {
    pub open spec fn object(self, id: ObjectId) -> Option<Object> {
        object_from(self.objects@, id, 0)
    }

    pub open spec fn field(self, id: ReserveFieldId) -> Option<ReserveField> {
        field_from(self.reserve_fields@, id, 0)
    }

    pub open spec fn solid_with(self, id: SolidId) -> Option<Solid> {
        solid_from(self.solids@, id, 0)
    }

    pub fn get_object(&self, id: ObjectId) -> (r: Option<&Object>)
        ensures
            same_entry(r, self.object(id)),
    {
        let mut i: usize = 0;
        while i < self.objects.len()
            invariant
                i <= self.objects@.len(),
                self.object(id) == object_from(self.objects@, id, i as int),
            decreases self.objects@.len() - i,
        {
            if self.objects[i].0 == id {
                return Some(&self.objects[i].1);
            }
            i = i + 1;
        }
        None
    }

    pub fn reserve_field(&self, id: ReserveFieldId) -> (r: Option<&ReserveField>)
        ensures
            same_entry(r, self.field(id)),
    {
        let mut i: usize = 0;
        while i < self.reserve_fields.len()
            invariant
                i <= self.reserve_fields@.len(),
                self.field(id) == field_from(self.reserve_fields@, id, i as int),
            decreases self.reserve_fields@.len() - i,
        {
            if self.reserve_fields[i].id == id {
                return Some(&self.reserve_fields[i]);
            }
            i = i + 1;
        }
        None
    }

    pub fn solid(&self, id: SolidId) -> (r: Option<&Solid>)
        ensures
            same_entry(r, self.solid_with(id)),
    {
        let mut i: usize = 0;
        while i < self.solids.len()
            invariant
                i <= self.solids@.len(),
                self.solid_with(id) == solid_from(self.solids@, id, i as int),
            decreases self.solids@.len() - i,
        {
            if self.solids[i].id == id {
                return Some(&self.solids[i]);
            }
            i = i + 1;
        }
        None
    }
}

/// An object is found by its identity, the first one first, and only where there is one.
pub proof fn first_object_is_found(entries: Seq<(ObjectId, Object)>, id: ObjectId, place: int)
    ensures
        0 <= place < entries.len() && entries[place].0 == id && (forall|i: int|
            0 <= i < place ==> (#[trigger] entries[i]).0 != id) ==> object_from(entries, id, 0) == Some(entries[place].1),
        (forall|i: int| 0 <= i < entries.len() ==> (#[trigger] entries[i]).0 != id) ==> object_from(entries, id, 0) is None,
{
    if 0 <= place < entries.len() && entries[place].0 == id && (forall|i: int| 0 <= i < place ==> (#[trigger] entries[i]).0 != id) {
        lemma_first_object(entries, id, 0, place);
    }
    if forall|i: int| 0 <= i < entries.len() ==> (#[trigger] entries[i]).0 != id {
        lemma_first_object(entries, id, 0, entries.len() as int);
    }
}

proof fn lemma_first_object(entries: Seq<(ObjectId, Object)>, id: ObjectId, from: int, place: int)
    requires
        0 <= from <= place <= entries.len(),
        place < entries.len() ==> entries[place].0 == id,
        forall|i: int| from <= i < place ==> (#[trigger] entries[i]).0 != id,
    ensures
        object_from(entries, id, from) == (if place < entries.len() {
            Some(entries[place].1)
        } else {
            None
        }),
    decreases place - from,
{
    if from < place {
        assert(entries[from].0 != id);
        lemma_first_object(entries, id, from + 1, place);
    }
}

/// So is a reserve field.
pub proof fn first_field_is_found(entries: Seq<ReserveField>, id: ReserveFieldId, place: int)
    ensures
        0 <= place < entries.len() && entries[place].id == id && (forall|i: int|
            0 <= i < place ==> (#[trigger] entries[i]).id != id) ==> field_from(entries, id, 0) == Some(entries[place]),
        (forall|i: int| 0 <= i < entries.len() ==> (#[trigger] entries[i]).id != id) ==> field_from(entries, id, 0) is None,
{
    if 0 <= place < entries.len() && entries[place].id == id && (forall|i: int| 0 <= i < place ==> (#[trigger] entries[i]).id != id) {
        lemma_first_field(entries, id, 0, place);
    }
    if forall|i: int| 0 <= i < entries.len() ==> (#[trigger] entries[i]).id != id {
        lemma_first_field(entries, id, 0, entries.len() as int);
    }
}

proof fn lemma_first_field(entries: Seq<ReserveField>, id: ReserveFieldId, from: int, place: int)
    requires
        0 <= from <= place <= entries.len(),
        place < entries.len() ==> entries[place].id == id,
        forall|i: int| from <= i < place ==> (#[trigger] entries[i]).id != id,
    ensures
        field_from(entries, id, from) == (if place < entries.len() {
            Some(entries[place])
        } else {
            None
        }),
    decreases place - from,
{
    if from < place {
        assert(entries[from].id != id);
        lemma_first_field(entries, id, from + 1, place);
    }
}

/// And so is a solid.
pub proof fn first_solid_is_found(entries: Seq<Solid>, id: SolidId, place: int)
    ensures
        0 <= place < entries.len() && entries[place].id == id && (forall|i: int|
            0 <= i < place ==> (#[trigger] entries[i]).id != id) ==> solid_from(entries, id, 0) == Some(entries[place]),
        (forall|i: int| 0 <= i < entries.len() ==> (#[trigger] entries[i]).id != id) ==> solid_from(entries, id, 0) is None,
{
    if 0 <= place < entries.len() && entries[place].id == id && (forall|i: int| 0 <= i < place ==> (#[trigger] entries[i]).id != id) {
        lemma_first_solid(entries, id, 0, place);
    }
    if forall|i: int| 0 <= i < entries.len() ==> (#[trigger] entries[i]).id != id {
        lemma_first_solid(entries, id, 0, entries.len() as int);
    }
}

proof fn lemma_first_solid(entries: Seq<Solid>, id: SolidId, from: int, place: int)
    requires
        0 <= from <= place <= entries.len(),
        place < entries.len() ==> entries[place].id == id,
        forall|i: int| from <= i < place ==> (#[trigger] entries[i]).id != id,
    ensures
        solid_from(entries, id, from) == (if place < entries.len() {
            Some(entries[place])
        } else {
            None
        }),
    decreases place - from,
{
    if from < place {
        assert(entries[from].id != id);
        lemma_first_solid(entries, id, from + 1, place);
    }
}

/// The document is looked up in its own lists.
pub proof fn documents_look_up_their_own(document: Document, object: ObjectId, field: ReserveFieldId, solid: SolidId)
    ensures
        document.object(object) == object_from(document.objects@, object, 0),
        document.field(field) == field_from(document.reserve_fields@, field, 0),
        document.solid_with(solid) == solid_from(document.solids@, solid, 0),
{
}

} // verus!
