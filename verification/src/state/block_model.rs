//! Block models, kriging and ore shells.
use crate::constants::{HUNDRED, ONE, TEN, ZERO};
use crate::ids::{BlockModelId, DrillHoleId};
use crate::number::{Pair64, Real64, Vec3};
use crate::tools::OreFilterMode;
use vstd::prelude::*;

verus! {

/// Block model controls.
#[derive(Debug)]
pub struct BlockModelState {
    /// The table page of each model.
    pub table_pages: Vec<(BlockModelId, usize)>,
    /// Model edited by the viewport filter controls.
    pub viewport_model_id: Option<BlockModelId>,
    /// Range of each variable of each model, where it has one.
    pub variable_ranges: Vec<(BlockModelId, String, Option<Pair64>)>,
    pub next_color_stop_id: u64,
    /// Dataset owning the drillhole colour popup.
    pub drill_hole_color_dialog: Option<DrillHoleId>,
}

impl BlockModelState {
    /// As a fresh editor starts.
    pub open spec fn is_initial(self, first_color_stop: u64) -> bool {
        &&& self.table_pages@.len() == 0
        &&& self.viewport_model_id is None
        &&& self.variable_ranges@.len() == 0
        &&& self.next_color_stop_id == first_color_stop
        &&& self.drill_hole_color_dialog is None
    }

    pub fn new(first_color_stop: u64) -> (r: BlockModelState)
        ensures
            r.is_initial(first_color_stop),
    {
        BlockModelState {
            table_pages: Vec::new(),
            viewport_model_id: None,
            variable_ranges: Vec::new(),
            next_color_stop_id: first_color_stop,
            drill_hole_color_dialog: None,
        }
    }

    /// As leaving a project turns it.
    pub open spec fn cleared_from(self, before: BlockModelState) -> bool {
        &&& self.table_pages@.len() == 0
        &&& self.viewport_model_id is None
        &&& self.variable_ranges@.len() == 0
        &&& self.next_color_stop_id == before.next_color_stop_id
        &&& self.drill_hole_color_dialog is None
    }

    pub fn clear(&mut self)
        ensures
            final(self).cleared_from(*old(self)),
    {
        self.table_pages.clear();
        self.viewport_model_id = None;
        self.variable_ranges.clear();
        self.drill_hole_color_dialog = None;
    }
}

/// The Create Block Model dialog.
#[derive(Debug)]
pub struct KrigingState {
    pub open: bool,
    pub drill_hole_id: Option<DrillHoleId>,
    pub variables: Vec<String>,
    pub name_input: String,
    pub lower: Vec3,
    pub upper: Vec3,
    pub cell: Vec3,
    pub range: Real64,
    pub sill: Real64,
    pub nugget: Real64,
    pub min_samples: u32,
    pub max_samples: u32,
}

impl KrigingState {
    /// As a fresh editor starts.
    pub open spec fn is_initial(self, name_input: String) -> bool {
        &&& !self.open
        &&& self.drill_hole_id is None
        &&& self.variables@.len() == 0
        &&& self.name_input@ == name_input@
        &&& self.lower == (Vec3 { x: Real64 { bits: ZERO }, y: Real64 { bits: ZERO }, z: Real64 { bits: ZERO } })
        &&& self.upper == (Vec3 { x: Real64 { bits: HUNDRED }, y: Real64 { bits: HUNDRED }, z: Real64 { bits: HUNDRED } })
        &&& self.cell == (Vec3 { x: Real64 { bits: TEN }, y: Real64 { bits: TEN }, z: Real64 { bits: TEN } })
        &&& self.range == (Real64 { bits: HUNDRED })
        &&& self.sill == (Real64 { bits: ONE })
        &&& self.nugget == (Real64 { bits: ZERO })
        &&& self.min_samples == 4
        &&& self.max_samples == 16
    }

    pub fn new(name_input: String) -> (r: KrigingState)
        ensures
            r.is_initial(name_input),
    {
        KrigingState {
            open: false,
            drill_hole_id: None,
            variables: Vec::new(),
            name_input,
            lower: Vec3 { x: Real64 { bits: ZERO }, y: Real64 { bits: ZERO }, z: Real64 { bits: ZERO } },
            upper: Vec3 { x: Real64 { bits: HUNDRED }, y: Real64 { bits: HUNDRED }, z: Real64 { bits: HUNDRED } },
            cell: Vec3 { x: Real64 { bits: TEN }, y: Real64 { bits: TEN }, z: Real64 { bits: TEN } },
            range: Real64 { bits: HUNDRED },
            sill: Real64 { bits: ONE },
            nugget: Real64 { bits: ZERO },
            min_samples: 4,
            max_samples: 16,
        }
    }

    /// As leaving a project turns it.
    pub open spec fn cleared_from(self, before: KrigingState, name_input: String) -> bool {
        &&& !self.open
        &&& self.drill_hole_id is None
        &&& self.variables@.len() == 0
        &&& self.name_input@ == name_input@
        &&& self.lower == before.lower
        &&& self.upper == before.upper
        &&& self.cell == before.cell
        &&& self.range == before.range
        &&& self.sill == before.sill
        &&& self.nugget == before.nugget
        &&& self.min_samples == before.min_samples
        &&& self.max_samples == before.max_samples
    }

    pub fn clear(&mut self, name_input: String)
        ensures
            final(self).cleared_from(*old(self), name_input),
    {
        self.open = false;
        self.drill_hole_id = None;
        self.variables.clear();
        self.name_input = name_input;
    }
}

/// The Create Ore Triangulation dialog.
#[derive(Debug)]
pub struct OreState {
    pub open: bool,
    pub block_model_id: Option<BlockModelId>,
    pub variable: String,
    pub filter_mode: OreFilterMode,
    pub min_input: Real64,
    pub max_input: Real64,
    pub name_input: String,
}

impl OreState {
    /// As a fresh editor starts.
    pub open spec fn is_initial(self) -> bool {
        &&& !self.open
        &&& self.block_model_id is None
        &&& self.variable@.len() == 0
        &&& self.filter_mode == OreFilterMode::GreaterOrEqual
        &&& self.min_input == (Real64 { bits: ZERO })
        &&& self.max_input == (Real64 { bits: ONE })
        &&& self.name_input@.len() == 0
    }

    pub fn new() -> (r: OreState)
        ensures
            r.is_initial(),
    {
        OreState {
            open: false,
            block_model_id: None,
            variable: String::new(),
            filter_mode: OreFilterMode::GreaterOrEqual,
            min_input: Real64 { bits: ZERO },
            max_input: Real64 { bits: ONE },
            name_input: String::new(),
        }
    }

    /// As leaving a project turns it.
    pub open spec fn cleared_from(self, before: OreState) -> bool {
        &&& !self.open
        &&& self.block_model_id is None
        &&& self.variable@.len() == 0
        &&& self.filter_mode == before.filter_mode
        &&& self.min_input == before.min_input
        &&& self.max_input == before.max_input
        &&& self.name_input@.len() == 0
    }

    pub fn clear(&mut self)
        ensures
            final(self).cleared_from(*old(self)),
    {
        self.open = false;
        self.block_model_id = None;
        self.variable = String::new();
        self.name_input = String::new();
    }
}

/// Block models and what is made of them.
#[derive(Debug)]
pub struct ModellingState {
    pub block_models: BlockModelState,
    pub kriging: KrigingState,
    pub ore: OreState,
}

impl ModellingState {
    /// As a fresh editor starts.
    pub open spec fn is_initial(self, first_color_stop: u64, kriging_name: String) -> bool {
        &&& self.block_models.is_initial(first_color_stop)
        &&& self.kriging.is_initial(kriging_name)
        &&& self.ore.is_initial()
    }

    pub fn new(first_color_stop: u64, kriging_name: String) -> (r: ModellingState)
        ensures
            r.is_initial(first_color_stop, kriging_name),
    {
        ModellingState {
            block_models: BlockModelState::new(first_color_stop),
            kriging: KrigingState::new(kriging_name),
            ore: OreState::new(),
        }
    }

    /// As leaving a project turns it.
    pub open spec fn cleared_from(self, before: ModellingState, kriging_name: String) -> bool {
        &&& self.block_models.cleared_from(before.block_models)
        &&& self.kriging.cleared_from(before.kriging, kriging_name)
        &&& self.ore.cleared_from(before.ore)
    }

    pub fn clear(&mut self, kriging_name: String)
        ensures
            final(self).cleared_from(*old(self), kriging_name),
    {
        self.block_models.clear();
        self.kriging.clear(kriging_name);
        self.ore.clear();
    }
}

} // verus!
