//! Drill patterns, products, tie-ins and cuts.
use crate::constants::{COLLAR_DIAMETER, HUNDRED_SIXTY_FIVE, TEN, THREE, THREE_AND_A_HALF, ZERO};
use crate::ids::{BlastShapeRef, Carried, DelayProductId, DigBlockId, DrillHoleRef, LayerId, ObjectId, SolidId};
use crate::model::{DrillPatternLayout, Object};
use crate::number::{Pair64, Pixel, Real32, Real64, Vec3};
use crate::palette::{DelayProduct, PackedColor};
use crate::state::planning::BenchSelection;
use vstd::prelude::*;

verus! {

/// Draft held while one initiation point is edited.
#[derive(Debug)]
pub struct InitiationDialog {
    pub target: DrillHoleRef,
    pub hole_name: String,
    pub delay_ms: u32,
    pub existing: bool,
}

/// Delay card projected above an initiated collar.
#[derive(Clone, Copy, Debug, PartialEq, Eq, Structural)]
pub struct InitiationCard {
    pub target: DrillHoleRef,
    pub delay_ms: u32,
    pub screen_px: Pixel,
    /// Pixels one world unit spans at this collar.
    pub px_per_world: Real32,
}

/// One leg of the tie-in a click would confirm.
#[derive(Clone, Copy, Debug, PartialEq, Eq, Structural)]
pub struct TiePreviewLeg {
    pub from: usize,
    pub to: usize,
    pub start: Vec3,
    pub end: Vec3,
    /// Confirming would replace a connector already there.
    pub overwrite: bool,
}

/// One derived blast shape: its outer ring and the holes through it.
#[derive(Debug)]
pub struct BlastOutline {
    pub solid: SolidId,
    pub bench_base: Real64,
    /// The elevation the outline was traced at.
    pub plane: Real64,
    pub name: String,
    /// The point the name was matched on.
    pub anchor: Pair64,
    pub rings: Vec<Vec<Vec3>>,
    pub area: Real64,
}

/// What the Blasting step borrows while it is open.
#[derive(Clone, Copy, Debug, PartialEq, Eq)]
pub struct BlastingRestore {
    pub forward: Vec3,
    pub up: Vec3,
    pub layer: Option<LayerId>,
    pub z_level: Real64,
    pub z_input: Real64,
}

/// What the properties panel says about a selected dig block.
#[derive(Debug)]
pub struct DigBlockInfo {
    pub id: DigBlockId,
    pub name: String,
    pub plan_area: Real64,
    pub bench: BenchSelection,
    pub flitch: BenchSelection,
    pub blast: Option<BlastShapeRef>,
    pub volume: Option<Real64>,
    /// Identities this block's ground used to be held under.
    pub replaces: Vec<DigBlockId>,
}

/// The drill pattern builder.
#[derive(Debug)]
pub struct DrillPatternState {
    pub open: bool,
    pub awaiting_shape_pick: bool,
    pub boundary_id: Option<ObjectId>,
    pub boundary_name: String,
    pub burden: Real64,
    pub spacing: Real64,
    pub rotation_deg: Real64,
    pub offset_x: Real64,
    pub offset_y: Real64,
    /// Hole diameter in millimetres; the preview holds it in metres.
    pub diameter_mm: Real64,
    pub depth: Real64,
    pub layout: DrillPatternLayout,
    pub name: String,
}

impl DrillPatternState {
    /// As a fresh editor starts.
    pub open spec fn is_initial(self, name: String) -> bool {
        &&& !self.open
        &&& !self.awaiting_shape_pick
        &&& self.boundary_id is None
        &&& self.boundary_name@.len() == 0
        &&& self.burden == (Real64 { bits: THREE })
        &&& self.spacing == (Real64 { bits: THREE_AND_A_HALF })
        &&& self.rotation_deg == (Real64 { bits: ZERO })
        &&& self.offset_x == (Real64 { bits: ZERO })
        &&& self.offset_y == (Real64 { bits: ZERO })
        &&& self.diameter_mm == (Real64 { bits: HUNDRED_SIXTY_FIVE })
        &&& self.depth == (Real64 { bits: TEN })
        &&& self.layout == DrillPatternLayout::Square
        &&& self.name@ == name@
    }

    pub fn new(name: String) -> (r: DrillPatternState)
        ensures
            r.is_initial(name),
    {
        DrillPatternState {
            open: false,
            awaiting_shape_pick: false,
            boundary_id: None,
            boundary_name: String::new(),
            burden: Real64 { bits: THREE },
            spacing: Real64 { bits: THREE_AND_A_HALF },
            rotation_deg: Real64 { bits: ZERO },
            offset_x: Real64 { bits: ZERO },
            offset_y: Real64 { bits: ZERO },
            diameter_mm: Real64 { bits: HUNDRED_SIXTY_FIVE },
            depth: Real64 { bits: TEN },
            layout: DrillPatternLayout::Square,
            name,
        }
    }

    /// As leaving a project turns it.
    pub open spec fn cleared_from(self, before: DrillPatternState) -> bool {
        &&& !self.open
        &&& !self.awaiting_shape_pick
        &&& self.boundary_id is None
        &&& self.boundary_name@.len() == 0
        &&& self.burden == before.burden
        &&& self.spacing == before.spacing
        &&& self.rotation_deg == before.rotation_deg
        &&& self.offset_x == before.offset_x
        &&& self.offset_y == before.offset_y
        &&& self.diameter_mm == before.diameter_mm
        &&& self.depth == before.depth
        &&& self.layout == before.layout
        &&& self.name == before.name
    }

    pub fn clear(&mut self)
        ensures
            final(self).cleared_from(*old(self)),
    {
        self.open = false;
        self.awaiting_shape_pick = false;
        self.boundary_id = None;
        self.boundary_name = String::new();
    }
}

/// The collars that the pattern builder previews and creates.
#[derive(Debug)]
pub struct PatternPreview {
    pub collars: Vec<Vec3>,
    pub depth: Real64,
    pub diameter: Real64,
    pub error: Option<String>,
    /// What the collars were generated from.
    pub key: Option<Carried>,
}

impl PatternPreview {
    /// As a fresh editor starts.
    pub open spec fn is_initial(self) -> bool {
        &&& self.collars@.len() == 0
        &&& self.depth == (Real64 { bits: TEN })
        &&& self.diameter == (Real64 { bits: COLLAR_DIAMETER })
        &&& self.error is None
        &&& self.key is None
    }

    pub fn new() -> (r: PatternPreview)
        ensures
            r.is_initial(),
    {
        PatternPreview {
            collars: Vec::new(),
            depth: Real64 { bits: TEN },
            diameter: Real64 { bits: COLLAR_DIAMETER },
            error: None,
            key: None,
        }
    }
}

/// The product palette and its dialogs.
#[derive(Debug)]
pub struct ProductState {
    /// The stored products, in palette order.
    pub delay_products: Vec<DelayProduct>,
    /// Identity the next product takes.
    pub next_delay_product_id: u64,
    /// The product a tie-in is laid with.
    pub active_delay_product: Option<DelayProductId>,
    /// Product awaiting deletion, with its row label.
    pub pending_delete: Option<(DelayProductId, String)>,
    pub new_open: bool,
    pub new_delay_ms: u32,
    pub new_name: String,
    pub new_color: PackedColor,
}

impl ProductState {
    /// As a fresh editor starts.
    pub open spec fn is_initial(self, products: Vec<DelayProduct>, next: u64, active: Option<DelayProductId>) -> bool {
        &&& self.delay_products == products
        &&& self.next_delay_product_id == next
        &&& self.active_delay_product == active
        &&& self.pending_delete is None
        &&& !self.new_open
        &&& self.new_delay_ms == 0
        &&& self.new_name@.len() == 0
        &&& self.new_color == (PackedColor { r: 0x6E, g: 0xC1, b: 0xF0, a: 255 })
    }

    pub fn new(products: Vec<DelayProduct>, next: u64, active: Option<DelayProductId>) -> (r: ProductState)
        ensures
            r.is_initial(products,  next,  active),
    {
        ProductState {
            delay_products: products,
            next_delay_product_id: next,
            active_delay_product: active,
            pending_delete: None,
            new_open: false,
            new_delay_ms: 0,
            new_name: String::new(),
            new_color: PackedColor { r: 0x6E, g: 0xC1, b: 0xF0, a: 255 },
        }
    }

    /// As leaving a project turns it.
    pub open spec fn cleared_from(self, before: ProductState) -> bool {
        &&& self.delay_products == before.delay_products
        &&& self.next_delay_product_id == before.next_delay_product_id
        &&& self.active_delay_product == before.active_delay_product
        &&& self.pending_delete is None
        &&& self.new_open == before.new_open
        &&& self.new_delay_ms == before.new_delay_ms
        &&& self.new_name == before.new_name
        &&& self.new_color == before.new_color
    }

    pub fn clear(&mut self)
        ensures
            final(self).cleared_from(*old(self)),
    {
        self.pending_delete = None;
    }
}

/// What a dataset's tie-in adds up to.
#[derive(Debug)]
pub struct BlastRoundSummary {
    /// Names and delays of every collar feeding the round.
    pub initiations: Vec<(String, u32)>,
    pub connectors: usize,
    /// How long the round runs for.
    pub duration_ms: Option<u32>,
    /// Holes no signal reaches.
    pub unreached: usize,
}

impl BlastRoundSummary {
    /// As a fresh editor starts.
    pub open spec fn is_initial(self) -> bool {
        &&& self.initiations@.len() == 0
        &&& self.connectors == 0
        &&& self.duration_ms is None
        &&& self.unreached == 0
    }

    pub fn new() -> (r: BlastRoundSummary)
        ensures
            r.is_initial(),
    {
        BlastRoundSummary {
            initiations: Vec::new(),
            connectors: 0,
            duration_ms: None,
            unreached: 0,
        }
    }
}

/// Tie-ins and initiation.
#[derive(Debug)]
pub struct TieState {
    /// The hole a tie-in chain is running from.
    pub anchor: Option<DrillHoleRef>,
    /// The legs a click would lay right now.
    pub preview: Vec<TiePreviewLeg>,
    pub anchor_world: Option<Vec3>,
    /// World point that the snap corridor ends at.
    pub path_end_world: Option<Vec3>,
    /// What the active dataset's tie-in adds up to.
    pub blast_round: BlastRoundSummary,
    /// The dataset and revision the round was worked out from.
    pub blast_round_key: Option<(u64, u64)>,
    pub initiation_dialog: Option<InitiationDialog>,
    pub initiation_cards: Vec<InitiationCard>,
}

impl TieState {
    /// As a fresh editor starts.
    pub open spec fn is_initial(self) -> bool {
        &&& self.anchor is None
        &&& self.preview@.len() == 0
        &&& self.anchor_world is None
        &&& self.path_end_world is None
        &&& self.blast_round.is_initial()
        &&& self.blast_round_key is None
        &&& self.initiation_dialog is None
        &&& self.initiation_cards@.len() == 0
    }

    pub fn new() -> (r: TieState)
        ensures
            r.is_initial(),
    {
        TieState {
            anchor: None,
            preview: Vec::new(),
            anchor_world: None,
            path_end_world: None,
            blast_round: BlastRoundSummary::new(),
            blast_round_key: None,
            initiation_dialog: None,
            initiation_cards: Vec::new(),
        }
    }

    /// As leaving a project turns it.
    pub open spec fn cleared_from(self, before: TieState) -> bool {
        &&& self.anchor is None
        &&& self.preview@.len() == 0
        &&& self.anchor_world is None
        &&& self.path_end_world is None
        &&& self.blast_round == before.blast_round
        &&& self.blast_round_key is None
        &&& self.initiation_dialog is None
        &&& self.initiation_cards@.len() == 0
    }

    pub fn clear(&mut self)
        ensures
            final(self).cleared_from(*old(self)),
    {
        self.anchor = None;
        self.preview.clear();
        self.anchor_world = None;
        self.path_end_world = None;
        self.blast_round_key = None;
        self.initiation_dialog = None;
        self.initiation_cards.clear();
    }
}

/// The Blasting and Dig Strips steps.
#[derive(Debug)]
pub struct CutState {
    pub outlines: Vec<BlastOutline>,
    pub dig_outlines: Vec<BlastOutline>,
    pub dig_outlines_key: Option<u64>,
    pub selected_dig_block: Option<BlastShapeRef>,
    pub selected_dig_block_info: Option<DigBlockInfo>,
    pub dig_clipboard: Vec<Object>,
    pub selected_blast: Option<BlastShapeRef>,
    pub scroll_to_blast: bool,
    pub blast_labels: Vec<(String, Pixel, bool)>,
    pub outlines_key: Option<u64>,
    /// The bench selection the view was last framed on.
    pub framed_key: Option<u64>,
    /// What the step took over on entry and puts back on leaving.
    pub restore: Option<BlastingRestore>,
    /// The bench the active layer and elevation were last pointed at.
    pub bench_key: Option<u64>,
}

impl CutState {
    /// As a fresh editor starts.
    pub open spec fn is_initial(self) -> bool {
        &&& self.outlines@.len() == 0
        &&& self.dig_outlines@.len() == 0
        &&& self.dig_outlines_key is None
        &&& self.selected_dig_block is None
        &&& self.selected_dig_block_info is None
        &&& self.dig_clipboard@.len() == 0
        &&& self.selected_blast is None
        &&& !self.scroll_to_blast
        &&& self.blast_labels@.len() == 0
        &&& self.outlines_key is None
        &&& self.framed_key is None
        &&& self.restore is None
        &&& self.bench_key is None
    }

    pub fn new() -> (r: CutState)
        ensures
            r.is_initial(),
    {
        CutState {
            outlines: Vec::new(),
            dig_outlines: Vec::new(),
            dig_outlines_key: None,
            selected_dig_block: None,
            selected_dig_block_info: None,
            dig_clipboard: Vec::new(),
            selected_blast: None,
            scroll_to_blast: false,
            blast_labels: Vec::new(),
            outlines_key: None,
            framed_key: None,
            restore: None,
            bench_key: None,
        }
    }

    /// As leaving a project turns it. The clipboard holds objects by value and stays, and so
    /// does what the step puts back on leaving, but for the layer, which the project owned.
    pub open spec fn cleared_from(self, before: CutState) -> bool {
        &&& self.outlines@.len() == 0
        &&& self.dig_outlines@.len() == 0
        &&& self.dig_outlines_key is None
        &&& self.selected_dig_block is None
        &&& self.selected_dig_block_info is None
        &&& self.dig_clipboard == before.dig_clipboard
        &&& self.selected_blast is None
        &&& self.scroll_to_blast == before.scroll_to_blast
        &&& self.blast_labels@.len() == 0
        &&& self.outlines_key is None
        &&& self.framed_key is None
        &&& self.restore == match before.restore {
            Some(restore) => Some(BlastingRestore { layer: None, ..restore }),
            None => None,
        }
        &&& self.bench_key is None
    }

    pub fn clear(&mut self)
        ensures
            final(self).cleared_from(*old(self)),
    {
        self.outlines.clear();
        self.dig_outlines.clear();
        self.dig_outlines_key = None;
        self.selected_dig_block = None;
        self.selected_dig_block_info = None;
        self.selected_blast = None;
        self.blast_labels.clear();
        self.outlines_key = None;
        self.framed_key = None;
        if let Some(restore) = self.restore {
            self.restore = Some(BlastingRestore { layer: None, ..restore });
        }
        self.bench_key = None;
    }
}

} // verus!
