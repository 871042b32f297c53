//! The editor state shared between rendering and every part of the interface.
use crate::ids::SceneEntityId;
use crate::number::Real64;
use crate::palette::{builtin_delay_products, is_palette_of, DelayProduct, PackedColor, StoredDelayProduct};
use crate::preferences::{PreferencesDraft, ShippedPreferences};
use crate::state::blasting::{CutState, DrillPatternState, PatternPreview, ProductState, TieState};
use crate::state::block_model::{BlockModelState, ModellingState};
use crate::state::drawing::{DrawingState, ToolState};
use crate::state::geometry::GeometryState;
use crate::state::planning::PlanningWorkspace;
use crate::state::project::ProjectState;
use crate::state::selection::SelectionState;
use crate::state::triangulation::TriangulationState;
use crate::state::view::{FinishedTask, StatusBarMessage, StatusState, ViewState};
use crate::text::{literal, literal1, named, Arg, Args, Named, Source, Text};
use crate::tools::{ActiveTool, PropertyTab, ViewToggle};
use crate::words::{blank, blank_text_trims_to_nothing, label_stem, stem_of_label, trim, trimmed};
use crate::workspace::{default_order, Workspace};
use vstd::prelude::*;

verus! {

/// The names that new items start with, in the running language.
#[derive(Debug)]
pub struct SeedNames {
    pub drill_pattern: String,
    pub layer: String,
    pub contours: String,
    pub surface: String,
    pub block_model: String,
}

/// The seed names before they are put into the running language.
#[derive(Clone, Debug, PartialEq)]
pub struct SeedTexts {
    pub drill_pattern: Text,
    pub layer: Text,
    pub contours: Text,
    pub surface: Text,
    pub block_model: Text,
}

pub fn seed_texts() -> (r: SeedTexts)
    ensures
        r == (SeedTexts {
            drill_pattern: literal("Drill Pattern"),
            layer: literal("Design"),
            contours: literal("Surface Contours"),
            surface: literal("Surface"),
            block_model: literal("Kriged Block Model"),
        }),
{
    SeedTexts {
        drill_pattern: literal("Drill Pattern"),
        layer: literal("Design"),
        contours: literal("Surface Contours"),
        surface: literal("Surface"),
        block_model: literal("Kriged Block Model"),
    }
}

/// What the application ships and the editor starts from.
#[derive(Debug)]
pub struct Startup {
    pub preferences: ShippedPreferences,
    pub products: Vec<StoredDelayProduct>,
    /// The first identity for colour stops that the user adds.
    pub first_color_stop: u64,
    pub names: SeedNames,
}

/// Drill & Blast: patterns, products, tie-ins and cuts.
#[derive(Debug)]
pub struct BlastingState {
    pub pattern: DrillPatternState,
    pub preview: PatternPreview,
    pub products: ProductState,
    pub tie: TieState,
    pub cuts: CutState,
}

/// The workspace in front, the tab order and the open Preferences section.
#[derive(Clone, Copy, Debug, PartialEq, Eq)]
pub struct WorkspaceState {
    pub active: Workspace,
    pub order: [Workspace; 4],
    pub property_tab: PropertyTab,
}

/// Central mutable editor state.
#[derive(Debug)]
pub struct EditorState {
    pub selection: SelectionState,
    /// Preferences in force.
    pub preferences: PreferencesDraft,
    pub view: ViewState,
    pub drawing: DrawingState,
    pub geometry: GeometryState,
    pub triangulation: TriangulationState,
    pub modelling: ModellingState,
    pub blasting: BlastingState,
    pub planning: PlanningWorkspace,
    pub project: ProjectState,
    pub workspace: WorkspaceState,
}

impl PatternPreview {
    /// Emptied, at the depth and diameter given.
    pub open spec fn is_reset(self, depth: Real64, diameter: Real64) -> bool {
        &&& self.collars@.len() == 0
        &&& self.depth == depth
        &&& self.diameter == diameter
        &&& self.error is None
        &&& self.key is None
    }

    pub fn reset(&mut self, depth: Real64, diameter: Real64)
        ensures
            final(self).is_reset(depth, diameter),
    {
        self.collars.clear();
        self.depth = depth;
        self.diameter = diameter;
        self.error = None;
        self.key = None;
    }
}

impl BlastingState {
    pub open spec fn is_initial(self, startup: Startup) -> bool {
        &&& self.pattern.is_initial(startup.names.drill_pattern)
        &&& self.preview.is_initial()
        &&& is_palette_of(self.products.delay_products@, startup.products@)
        &&& self.products.is_initial(
            self.products.delay_products,
            startup.products@.len() as u64,
            if startup.products@.len() == 0 {
                None
            } else {
                Some(self.products.delay_products@[0].id)
            },
        )
        &&& self.tie.is_initial()
        &&& self.cuts.is_initial()
    }

    /// As leaving a project turns it, with the pattern preview at the diameter
    /// given.
    pub open spec fn cleared_from(self, before: BlastingState, preview_diameter: Real64) -> bool {
        &&& self.pattern.cleared_from(before.pattern)
        &&& self.preview.is_reset(before.pattern.depth, preview_diameter)
        &&& self.products.cleared_from(before.products)
        &&& self.tie.cleared_from(before.tie)
        &&& self.cuts.cleared_from(before.cuts)
    }
}

impl EditorState {
    /// A fresh editor.
    pub open spec fn is_initial(self, startup: Startup) -> bool {
        &&& self.selection.is_initial()
        &&& self.preferences == PreferencesDraft::shipped(startup.preferences)
        &&& self.view.is_initial()
        &&& self.drawing.is_initial()
        &&& self.geometry.is_initial()
        &&& self.triangulation.is_initial(startup.names.contours, startup.names.surface)
        &&& self.modelling.is_initial(startup.first_color_stop, startup.names.block_model)
        &&& self.blasting.is_initial(startup)
        &&& self.planning.is_initial()
        &&& self.project.is_initial(startup.names.layer)
        &&& self.workspace.active is Production
        &&& self.workspace.order@ == default_order()
        &&& self.workspace.property_tab is Interface
    }

    pub fn new(startup: Startup) -> (r: EditorState)
        ensures
            r.is_initial(startup),
    {
        let ghost given = startup;
        let products = builtin_delay_products(&startup.products);
        let next = startup.products.len() as u64;
        let active = if products.len() == 0 {
            None
        } else {
            Some(products[0].id)
        };
        let blasting = BlastingState {
            pattern: DrillPatternState::new(startup.names.drill_pattern),
            preview: PatternPreview::new(),
            products: ProductState::new(products, next, active),
            tie: TieState::new(),
            cuts: CutState::new(),
        };
        assert(blasting.is_initial(given));
        let workspace = WorkspaceState {
            active: Workspace::Production,
            order: [Workspace::Production, Workspace::DrillAndBlast, Workspace::Geology, Workspace::Planning],
            property_tab: PropertyTab::Interface,
        };
        assert(workspace.order@ =~= default_order());
        EditorState {
            selection: SelectionState::new(),
            preferences: PreferencesDraft::from_shipped(startup.preferences),
            view: ViewState::new(),
            drawing: DrawingState::new(),
            geometry: GeometryState::new(),
            triangulation: TriangulationState::new(startup.names.contours, startup.names.surface),
            modelling: ModellingState::new(startup.first_color_stop, startup.names.block_model),
            blasting,
            planning: PlanningWorkspace::new(),
            project: ProjectState::new(startup.names.layer),
            workspace,
        }
    }

    /// Every interaction session of the project has ended: identities, previews, projected
    /// handles and drafts are gone, and drafts that start from a name have the given one.
    /// Preferences, numeric tool settings, pages, the reported progress of planning, the
    /// clipboard and what is the application's own (the request to quit, the import dialog,
    /// the product palette) stay as they were.
    pub open spec fn left_project(self, before: EditorState, preview_diameter: Real64, names: SeedNames) -> bool {
        &&& self.selection.cleared_from(before.selection)
        &&& self.preferences == before.preferences
        &&& self.view.cleared_from(before.view)
        &&& self.drawing.cleared_from(before.drawing)
        &&& self.geometry.cleared_from(before.geometry)
        &&& self.triangulation.cleared_from(before.triangulation, names.contours, names.surface)
        &&& self.modelling.cleared_from(before.modelling, names.block_model)
        &&& self.blasting.cleared_from(before.blasting, preview_diameter)
        &&& self.planning.cleared_from(before.planning)
        &&& self.project.cleared_from(before.project)
        &&& self.workspace == before.workspace
    }

    /// Clear every project-owned interaction session in one lifecycle transition. Numeric
    /// tool preferences stay, but no source identity, preview geometry, projected handle or
    /// modal draft refers to the project that was left. `preview_diameter` is the pattern's
    /// hole diameter in metres; `names` is what drafts start from.
    pub fn clear_project_transients(&mut self, preview_diameter: Real64, names: SeedNames)
        ensures
            final(self).left_project(*old(self), preview_diameter, names),
    {
        self.selection.clear();
        self.view.clear();
        let depth = self.blasting.pattern.depth;
        self.blasting.pattern.clear();
        self.blasting.preview.reset(depth, preview_diameter);
        self.blasting.products.clear();
        self.blasting.tie.clear();
        self.blasting.cuts.clear();
        self.drawing.clear();
        self.geometry.clear();
        self.triangulation.clear(names.contours, names.surface);
        self.modelling.clear(names.block_model);
        self.planning.clear();
        self.project.clear();
    }
}

impl EditorState {
    pub fn current_preferences(&self) -> (r: PreferencesDraft)
        ensures
            r == self.preferences,
    {
        self.preferences
    }

    /// The next identity for a colour stop. Identities are handed out in order
    /// until they run out.
    pub fn allocate_color_stop_id(&mut self) -> (r: u64)
        ensures
            r == old(self).modelling.block_models.next_color_stop_id,
            final(self).modelling.block_models.next_color_stop_id == following_stop(r),
            *final(self) == (EditorState { modelling: final(self).modelling, ..*old(self) }),
            final(self).modelling == (ModellingState {
                block_models: final(self).modelling.block_models,
                ..old(self).modelling
            }),
            final(self).modelling.block_models == (BlockModelState {
                next_color_stop_id: final(self).modelling.block_models.next_color_stop_id,
                ..old(self).modelling.block_models
            }),
    {
        let id = self.modelling.block_models.next_color_stop_id;
        self.modelling.block_models.next_color_stop_id = if id == u64::MAX {
            id
        } else {
            id + 1
        };
        id
    }

    /// What the status bar remembers once a message gives way to another: the
    /// outgoing task, where the task that shows changes.
    pub open spec fn task_finished(previous: Option<StatusBarMessage>, next: Option<StatusBarMessage>) -> bool {
        match previous {
            Some(previous) => match next {
                Some(next) => next.text@ != previous.text@,
                None => true,
            },
            None => false,
        }
    }

    /// Set or clear the status-bar message. Whenever the displayed task changes,
    /// the outgoing one is remembered, without the ellipsis its label ends in and
    /// with the total it worked through.
    pub fn set_status_message(&mut self, message: Option<StatusBarMessage>)
        ensures
            final(self).view.status.status_message == message,
            !Self::task_finished(old(self).view.status.status_message, message) ==> final(self).view.status.last_finished_task
                == old(self).view.status.last_finished_task,
            Self::task_finished(old(self).view.status.status_message, message) ==> {
                let previous = old(self).view.status.status_message->0;
                &&& final(self).view.status.last_finished_task matches Some(task) && task.text@ == label_stem(previous.text@)
                    && task.total_units == (match previous.units {
                    Some(units) => Some(units.1),
                    None => None,
                })
            },
            *final(self) == (EditorState { view: final(self).view, ..*old(self) }),
            final(self).view == (ViewState { status: final(self).view.status, ..old(self).view }),
            final(self).view.status == (StatusState {
                status_message: message,
                last_finished_task: final(self).view.status.last_finished_task,
                ..old(self).view.status
            }),
    {
        let finished = match &self.view.status.status_message {
            Some(previous) => {
                let changed = match &message {
                    Some(next) => !(next.text == previous.text),
                    None => true,
                };
                if changed {
                    Some(
                        FinishedTask {
                            text: stem_of_label(&previous.text),
                            total_units: match previous.units {
                                Some(units) => Some(units.1),
                                None => None,
                            },
                        },
                    )
                } else {
                    None
                }
            },
            None => None,
        };
        if finished.is_some() {
            self.view.status.last_finished_task = finished;
        }
        self.view.status.status_message = message;
    }

    /// Open the palette's New Product dialog on a blank entry. The last one
    /// entered is not kept: the next product is a different delay.
    pub fn begin_new_delay_product(&mut self)
        ensures
            final(self).blasting.products.new_name@.len() == 0,
            final(self).blasting.products == (ProductState {
                new_open: true,
                new_delay_ms: 0,
                new_name: final(self).blasting.products.new_name,
                new_color: PackedColor { r: 0x6E, g: 0xC1, b: 0xF0, a: 255 },
                ..old(self).blasting.products
            }),
            *final(self) == (EditorState { blasting: final(self).blasting, ..*old(self) }),
            final(self).blasting == (BlastingState { products: final(self).blasting.products, ..old(self).blasting }),
    {
        self.blasting.products.new_delay_ms = 0;
        self.blasting.products.new_name = String::new();
        self.blasting.products.new_color = PackedColor { r: 0x6E, g: 0xC1, b: 0xF0, a: 255 };
        self.blasting.products.new_open = true;
    }

    /// Open a fresh pattern session while retaining the numbers of the previous
    /// one. `preview_diameter` is the hole diameter in metres; `default_name` is
    /// taken where the name is blank. The dialog owns the tool highlight while it
    /// is open, so that starts clear.
    pub fn begin_drill_pattern(&mut self, preview_diameter: Real64, default_name: String)
        ensures
            final(self).blasting.pattern.boundary_name@.len() == 0,
            final(self).blasting.pattern == (DrillPatternState {
                open: true,
                awaiting_shape_pick: false,
                boundary_id: None,
                boundary_name: final(self).blasting.pattern.boundary_name,
                name: if blank(old(self).blasting.pattern.name@) {
                    default_name
                } else {
                    old(self).blasting.pattern.name
                },
                ..old(self).blasting.pattern
            }),
            final(self).blasting.preview.is_reset(old(self).blasting.pattern.depth, preview_diameter),
            final(self).blasting == (BlastingState {
                pattern: final(self).blasting.pattern,
                preview: final(self).blasting.preview,
                ..old(self).blasting
            }),
            final(self).drawing.tools == (ToolState { highlight_id: None, ..old(self).drawing.tools }),
            final(self).drawing == (DrawingState { tools: final(self).drawing.tools, ..old(self).drawing }),
            *final(self) == (EditorState { blasting: final(self).blasting, drawing: final(self).drawing, ..*old(self) }),
    {
        let depth = self.blasting.pattern.depth;
        self.blasting.pattern.boundary_id = None;
        self.blasting.pattern.boundary_name = String::new();
        self.blasting.preview.reset(depth, preview_diameter);
        self.blasting.pattern.awaiting_shape_pick = false;
        self.drawing.tools.highlight_id = None;
        proof {
            blank_text_trims_to_nothing(self.blasting.pattern.name@);
        }
        if trim(self.blasting.pattern.name.as_str()).as_str().is_empty() {
            self.blasting.pattern.name = default_name;
        }
        self.blasting.pattern.open = true;
    }

    /// End the pattern session: its boundary, preview and highlight go, the
    /// numbers stay.
    pub fn close_drill_pattern(&mut self, preview_diameter: Real64)
        ensures
            final(self).blasting.pattern.cleared_from(old(self).blasting.pattern),
            final(self).blasting.preview.is_reset(old(self).blasting.pattern.depth, preview_diameter),
            final(self).blasting == (BlastingState {
                pattern: final(self).blasting.pattern,
                preview: final(self).blasting.preview,
                ..old(self).blasting
            }),
            final(self).drawing.tools == (ToolState {
                highlight_id: None,
                pick_hover_label: None,
                ..old(self).drawing.tools
            }),
            final(self).drawing == (DrawingState { tools: final(self).drawing.tools, ..old(self).drawing }),
            *final(self) == (EditorState { blasting: final(self).blasting, drawing: final(self).drawing, ..*old(self) }),
    {
        let depth = self.blasting.pattern.depth;
        self.blasting.pattern.clear();
        self.blasting.preview.reset(depth, preview_diameter);
        self.drawing.tools.pick_hover_label = None;
        self.drawing.tools.highlight_id = None;
    }

    /// A tie-in chain is running.
    pub open spec fn has_chain(self) -> bool {
        self.blasting.tie.anchor is Some || self.blasting.tie.preview@.len() > 0
    }

    /// The chain was put down, and nothing else changed.
    pub open spec fn put_down_chain(self, before: EditorState) -> bool {
        &&& self.blasting.tie.preview@.len() == 0
        &&& self.blasting.tie == (TieState {
            anchor: None,
            preview: self.blasting.tie.preview,
            anchor_world: None,
            path_end_world: None,
            ..before.blasting.tie
        })
        &&& self.blasting == (BlastingState { tie: self.blasting.tie, ..before.blasting })
        &&& self == (EditorState { blasting: self.blasting, ..before })
    }

    /// Put down whatever tie-in chain is running; whether there was one.
    pub fn end_tie_chain(&mut self) -> (r: bool)
        ensures
            r == old(self).has_chain(),
            final(self).put_down_chain(*old(self)),
    {
        let running = self.blasting.tie.anchor.is_some() || self.blasting.tie.preview.len() > 0;
        self.blasting.tie.anchor = None;
        self.blasting.tie.preview.clear();
        self.blasting.tie.anchor_world = None;
        self.blasting.tie.path_end_world = None;
        running
    }

    /// The palette holds a product with the active identity.
    pub open spec fn has_active_product(self) -> bool {
        self.blasting.products.active_delay_product matches Some(id) && exists|i: int|
            0 <= i < self.blasting.products.delay_products@.len() && #[trigger] self.blasting.products.delay_products@[i].id == id
    }

    /// The product a tie-in laid now would be made of: the first of the palette
    /// with the active identity.
    pub fn active_product(&self) -> (r: Option<&DelayProduct>)
        ensures
            r is Some <==> self.has_active_product(),
            r matches Some(product) ==> exists|i: int|
                0 <= i < self.blasting.products.delay_products@.len() && *product
                    == #[trigger] self.blasting.products.delay_products@[i] && self.blasting.products.active_delay_product
                    == Some(product.id) && forall|j: int|
                    0 <= j < i ==> (#[trigger] self.blasting.products.delay_products@[j]).id != product.id,
    {
        let products = &self.blasting.products.delay_products;
        let id = match self.blasting.products.active_delay_product {
            Some(id) => id,
            None => {
                return None;
            },
        };
        let mut i: usize = 0;
        while i < products.len()
            invariant
                i <= products@.len(),
                products@ == self.blasting.products.delay_products@,
                self.blasting.products.active_delay_product == Some(id),
                forall|j: int| 0 <= j < i ==> (#[trigger] products@[j]).id != id,
            decreases products@.len() - i,
        {
            if products[i].id == id {
                return Some(&products[i]);
            }
            i = i + 1;
        }
        None
    }

    /// Whether the Drill & Blast Tie Holes tool owns canvas clicks.
    pub fn tying_holes(&self) -> (r: bool)
        ensures
            r == (self.workspace.active is DrillAndBlast && self.drawing.tools.active_tool is TieHoles),
    {
        self.workspace.active == Workspace::DrillAndBlast && self.drawing.tools.active_tool == ActiveTool::TieHoles
    }

    /// Whether surface connectors are drawn: only where they are worked on, so
    /// nothing is ever pickable unseen.
    pub fn shows_tie_ins(&self) -> (r: bool)
        ensures
            r == (self.workspace.active is DrillAndBlast),
    {
        self.workspace.active == Workspace::DrillAndBlast
    }

    /// The name that generated contours are given, while the name follows the
    /// surface: after the stem of the surface's name. The stem is read by the
    /// rules of the running platform.
    pub fn update_contour_layer_name_from_surface(&self, surface_name: &str) -> (r: Option<Text>)
        ensures
            r is Some <==> self.triangulation.contour.layer_name_auto,
            r matches Some(name) ==> exists|stem: Option<String>| #[trigger] names_contours(name, stem) && is_stem(stem, surface_name@),
    {
        if !self.triangulation.contour.layer_name_auto {
            return None;
        }
        let stem = file_stem(surface_name);
        let name = contour_layer_name(&stem);
        assert(names_contours(name, stem));
        Some(name)
    }
}

/// One text stands inside another.
pub open spec fn is_part_of(part: Seq<char>, whole: Seq<char>) -> bool {
    exists|from: int, to: int| 0 <= from <= to <= whole.len() && part == #[trigger] whole.subrange(from, to)
}

/// A path that is one file name on every platform: it holds nothing that separates
/// the parts of a path anywhere, and is not one of the names for a directory itself.
pub open spec fn is_file_name(path: Seq<char>) -> bool {
    &&& path.len() > 0
    &&& !path.contains('/')
    &&& !path.contains('\\')
    &&& !path.contains(':')
    &&& path != seq!['.']
    &&& path != seq!['.', '.']
}

/// Where the last dot before a place stands, or -1.
pub open spec fn last_dot(name: Seq<char>, end: int) -> int
    decreases end,
{
    if end <= 0 {
        -1
    } else if name[end - 1] == '.' {
        end - 1
    } else {
        last_dot(name, end - 1)
    }
}

/// A file name up to its last dot, or the whole of it where it has no dot but one that
/// it starts with.
pub open spec fn before_extension(name: Seq<char>) -> Seq<char> {
    if last_dot(name, name.len() as int) > 0 {
        name.take(last_dot(name, name.len() as int))
    } else {
        name
    }
}

/// Where the part after the last slash before a place begins.
pub open spec fn last_part(path: Seq<char>, end: int) -> int
    decreases end,
{
    if end <= 0 {
        0
    } else if path[end - 1] == '/' {
        end
    } else {
        last_part(path, end - 1)
    }
}

/// The part of a path after its last slash.
pub open spec fn file_part(path: Seq<char>) -> Seq<char> {
    path.skip(last_part(path, path.len() as int))
}

/// A path that ends in a file name on every platform: slashes alone separate its parts, it
/// does not start with two of them, which name a share on some platforms, and the last
/// part is a file name. A plain file name is one.
pub open spec fn ends_in_file_name(path: Seq<char>) -> bool {
    &&& !path.contains('\\')
    &&& !path.contains(':')
    &&& !(path.len() >= 2 && path[0] == '/' && path[1] == '/')
    &&& is_file_name(file_part(path))
}

/// What the stem of a path is: a part of it, and where the path ends in a file name, what
/// stands before the extension of that name.
pub open spec fn is_stem(stem: Option<String>, path: Seq<char>) -> bool {
    &&& stem matches Some(stem) ==> is_part_of(stem@, path)
    &&& ends_in_file_name(path) ==> (stem matches Some(stem) && stem@ == before_extension(file_part(path)))
}

/// A plain file name is the last part of itself.
pub proof fn plain_name_is_its_own_part(name: Seq<char>)
    requires
        is_file_name(name),
    ensures
        file_part(name) == name,
        ends_in_file_name(name),
{
    lemma_no_slash(name, name.len() as int);
    assert(name.skip(0) =~= name);
    if name.len() >= 2 && name[0] == '/' {
        assert(name.contains('/'));
    }
}

proof fn lemma_no_slash(name: Seq<char>, end: int)
    requires
        !name.contains('/'),
        0 <= end <= name.len(),
    ensures
        last_part(name, end) == 0,
    decreases end,
{
    if end > 0 {
        assert(name[end - 1] != '/');
        lemma_no_slash(name, end - 1);
    }
}

/// `std::path::Path::file_stem`: the file name without its extension, where the
/// path ends in a name that is valid text. What else than a slash separates the parts of
/// a path depends on the platform. The stem is always a part of the path; where the path
/// ends in a file name everywhere, the stem is that name up to its last dot, or all of it
/// where the only dot starts the name or there is none. How a path with other separators
/// is divided is left unsaid.
#[verifier::external_body]
fn file_stem(name: &str) -> (r: Option<String>)
    ensures
        is_stem(r, name@),
{
    Some(std::path::Path::new(name).file_stem()?.to_str()?.to_owned())
}

/// A layer name for contours: the trimmed stem of the surface's name, or the word
/// for a surface where that is blank or missing.
pub open spec fn names_contours(name: Text, stem: Option<String>) -> bool {
    &&& name.source == Source::Literal("%stem% Contours")
    &&& name.args matches Args::One(Named { name: argument, value }) && argument == "stem" && match stem {
        Some(stem) => if blank(stem@) {
            value == Arg::Words("Surface")
        } else {
            value matches Arg::Name(words) && words@ == trimmed(stem@)
        },
        None => value == Arg::Words("Surface"),
    }
}

pub fn contour_layer_name(stem: &Option<String>) -> (r: Text)
    ensures
        names_contours(r, *stem),
{
    if let Some(stem) = stem {
        let words = trim(stem.as_str());
        proof {
            blank_text_trims_to_nothing(stem@);
        }
        if !words.as_str().is_empty() {
            return literal1("%stem% Contours", named("stem", Arg::Name(words)));
        }
    }
    literal1("%stem% Contours", named("stem", Arg::Words("Surface")))
}

impl ViewToggle {
    pub open spec fn value(self, editor: EditorState) -> bool {
        match self {
            ViewToggle::Console => editor.preferences.interface.show_console,
            ViewToggle::DarkMode => editor.preferences.interface.dark_mode,
        }
    }

    /// This toggle's live value.
    pub fn get(self, editor: &EditorState) -> (r: bool)
        ensures
            r == self.value(*editor),
    {
        match self {
            ViewToggle::Console => editor.preferences.interface.show_console,
            ViewToggle::DarkMode => editor.preferences.interface.dark_mode,
        }
    }
}

impl EditorState {
    /// No interaction session holds a project's objects, layers, datasets or
    /// geometry.
    pub open spec fn sessions_are_free(self) -> bool {
        &&& self.selection.is_initial()
        &&& self.view.slice.pending_start is None
        &&& self.drawing_is_free()
        &&& self.geometry_is_free()
        &&& self.triangulation.create.failure is None
        &&& self.triangulation.create.hover_handles@ == Set::<SceneEntityId>::empty()
        &&& self.triangulation.create.selected_object_ids@.len() == 0
        &&& self.triangulation.create.selected_layer_ids@.len() == 0
        &&& self.triangulation.cut_poly.object_id is None
        &&& self.blasting_is_free()
        &&& self.project.dialogs.renaming_item is None
        &&& self.project.dialogs.pending_delete_layer is None
        &&& self.project.dialogs.pending_delete_item is None
        &&& self.project.dialogs.pending_discard_layer is None
    }

    pub open spec fn drawing_is_free(self) -> bool {
        &&& self.drawing.tools.active_tool is NoTool
        &&& self.drawing.tools.active_layer is None
        &&& self.drawing.tools.active_drill_hole is None
        &&& self.drawing.tools.highlight_id is None
        &&& self.drawing.tools.hover_vertex_world is None
        &&& self.drawing.stroke.pending_stroke@.len() == 0
        &&& self.drawing.stroke.circle_draft is None
        &&& self.drawing.stroke.measurement_start is None
        &&& self.drawing.stroke.measurement_end is None
        &&& self.drawing.stroke.batter_angle_points@.len() == 0
        &&& self.drawing.text.editing_id is None
        &&& self.drawing.canvas.line_weight_input is None
        &&& self.drawing.canvas.move_to_layer is None
        &&& self.drawing.canvas.move_to_axis is None
        &&& self.drawing.canvas.insert_point_at_elevation is None
        &&& self.drawing.canvas.object_edit is None
    }

    pub open spec fn geometry_is_free(self) -> bool {
        &&& self.geometry.drape.object_ids@.len() == 0
        &&& self.geometry.offset.target_id is None
        &&& self.geometry.offset.target_ids@.len() == 0
        &&& self.geometry.offset_preview.world@.len() == 0
        &&& self.geometry.offset_preview.source_world@.len() == 0
        &&& self.geometry.relimit.source_id is None
        &&& self.geometry.relimit.second_id is None
        &&& self.geometry.relimit.candidates@.len() == 0
        &&& self.geometry.relimit.intersection_3d is None
        &&& self.geometry.fuse.segments@.len() == 0
        &&& self.geometry.fuse.awaiting_endpoint is None
        &&& self.geometry.fuse.split_poly_id is None
        &&& self.geometry.chamfer.poly_id is None
        &&& self.geometry.translate.vertex_target is None
        &&& self.geometry.batter_berm.target_id is None
        &&& self.geometry.batter_berm.rings_world@.len() == 0
        &&& self.geometry.bezier.poly_id is None
    }

    pub open spec fn blasting_is_free(self) -> bool {
        &&& self.blasting.pattern.boundary_id is None
        &&& self.blasting.preview.collars@.len() == 0
        &&& self.blasting.tie.anchor is None
        &&& self.blasting.tie.preview@.len() == 0
        &&& self.blasting.tie.initiation_dialog is None
        &&& self.blasting.tie.initiation_cards@.len() == 0
        &&& self.blasting.cuts.outlines@.len() == 0
        &&& self.blasting.cuts.dig_outlines@.len() == 0
        &&& self.blasting.cuts.selected_blast is None
        &&& self.blasting.cuts.selected_dig_block is None
    }

    /// No preview of the project's geometry is left.
    pub open spec fn previews_are_gone(self) -> bool {
        &&& self.geometry.offset_preview.world@.len() == 0
        &&& self.geometry.offset_preview.source_world@.len() == 0
        &&& self.geometry.offset_preview.screen_px@.len() == 0
        &&& self.geometry.offset_preview.source_screen_px@.len() == 0
        &&& self.geometry.offset_preview.ranges@.len() == 0
        &&& self.geometry.relimit.preview_from_px is None
        &&& self.geometry.relimit.preview_to_px is None
        &&& self.geometry.chamfer.preview_screen_px@.len() == 0
        &&& !self.geometry.rotate.preview_active
        &&& self.geometry.batter_berm.rings_world@.len() == 0
        &&& self.geometry.batter_berm.source_world@.len() == 0
        &&& self.geometry.batter_berm.rings_screen_px@.len() == 0
        &&& self.geometry.batter_berm.source_screen_px@.len() == 0
        &&& self.geometry.batter_berm.preview_key is None
        &&& self.geometry.bezier.span_screen_px@.len() == 0
        &&& self.geometry.bezier.preview_screen_px@.len() == 0
        &&& self.triangulation.create.diagnostic_markers_px@.len() == 0
        &&& self.triangulation.create.diagnostic_segments_px@.len() == 0
        &&& self.blasting.preview.collars@.len() == 0
        &&& self.blasting.tie.preview@.len() == 0
        &&& self.blasting.cuts.outlines@.len() == 0
        &&& self.blasting.cuts.dig_outlines@.len() == 0
        &&& self.blasting.cuts.blast_labels@.len() == 0
        &&& self.planning.preview.texture is None
        &&& self.planning.preview.summary is Empty
        &&& self.planning.preview.z_range is None
        &&& self.planning.preview.reserves is None
        &&& self.planning.preview.coverage is None
        &&& self.project.transfer.plot_preview_texture is None
    }

    /// No handle stands where something of the project was projected to.
    pub open spec fn handles_are_gone(self) -> bool {
        &&& self.drawing.cursor.box_start_px is None
        &&& self.drawing.cursor.box_current_px is None
        &&& self.drawing.cursor.snap_marker_px is None
        &&& self.drawing.tools.hover_vertex_px is None
        &&& self.geometry.relimit.resize_end_px is None
        &&& self.geometry.fuse.endpoint_markers@.len() == 0
        &&& self.geometry.fuse.close_marker is None
        &&& self.geometry.fuse.split_verts_screen_px@.len() == 0
        &&& self.geometry.chamfer.hover_corner_px is None
        &&& self.geometry.chamfer.gizmo_corner_px is None
        &&& self.geometry.chamfer.gizmo_bisector_px is None
        &&& self.geometry.chamfer.gizmo_handle_px is None
        &&& self.geometry.chamfer.gizmo_drag_start_px is None
        &&& self.geometry.translate.screen == crate::views::MoveGizmoScreen::unprojected()
        &&& self.geometry.translate.hovered_axis is None
        &&& self.geometry.translate.hovered_plane is None
        &&& self.geometry.translate.drag_axis_index is None
        &&& self.geometry.translate.drag_plane_index is None
        &&& self.geometry.rotate.screen.is_unprojected()
        &&& self.geometry.rotate.hovered_ring is None
        &&& self.geometry.rotate.drag_ring is None
        &&& self.geometry.bezier.verts_screen_px@.len() == 0
        &&& self.geometry.bezier.cp1_screen_px is None
        &&& self.geometry.bezier.cp2_screen_px is None
        &&& self.geometry.bezier.dragging_cp is None
        &&& self.geometry.bezier.hover_cp is None
    }

    /// No dialog of a session is open, and none of its fields holds a draft.
    pub open spec fn drafts_are_closed(self) -> bool {
        &&& !self.drawing.stroke.poly_finish_dialog
        &&& !self.drawing.text.editing_enabled
        &&& self.drawing.text.pending@.len() == 0
        &&& !self.drawing.canvas.context_menu_open
        &&& !self.geometry.offset.dialog_open
        &&& !self.geometry.offset.awaiting_side_pick
        &&& !self.geometry.relimit.dialog_open
        &&& !self.geometry.relimit.awaiting_source_pick
        &&& !self.geometry.relimit.waiting_for_pick
        &&& !self.geometry.batter_berm.dialog_open
        &&& !self.geometry.bezier.dialog_open
        &&& self.triangulation.create.pick_target is None
        &&& !self.triangulation.cut_poly.open
        &&& !self.triangulation.cut_poly.awaiting_pick
        &&& !self.blasting.pattern.open
        &&& !self.blasting.pattern.awaiting_shape_pick
        &&& self.blasting.products.pending_delete is None
        &&& !self.project.dialogs.new_project_open
        &&& !self.project.dialogs.new_layer_open
        &&& !self.triangulation.create.open
        &&& !self.triangulation.cut_z.open
        &&& !self.triangulation.cut_surface.open
        &&& !self.triangulation.build_solid.open
        &&& !self.triangulation.cut_pitshell.open
        &&& !self.triangulation.include_solid.open
        &&& !self.triangulation.contour.open
        &&& !self.triangulation.tin.open
        &&& !self.modelling.kriging.open
        &&& !self.modelling.ore.open
        &&& self.planning.drafts.is_initial()
        &&& !self.project.lifecycle.delete_confirm_open
        &&& !self.project.lifecycle.replace_project_confirm_open
        &&& !self.project.lifecycle.lossy_save_confirm_open
        &&& !self.project.transfer.show_export
        &&& self.project.transfer.plot_dialog is None
    }

    /// No dialog, page or pending question that is set up outside a session names anything
    /// of a project.
    pub open spec fn setup_is_free(self) -> bool {
        &&& self.triangulation.cut_poly.tri_id is None
        &&& self.triangulation.cut_z.tri_id is None
        &&& self.triangulation.cut_surface.target_id is None
        &&& self.triangulation.cut_surface.reference_id is None
        &&& self.triangulation.build_solid.design_id is None
        &&& self.triangulation.build_solid.topography_id is None
        &&& self.triangulation.cut_pitshell.topology_id is None
        &&& self.triangulation.cut_pitshell.pitshell_id is None
        &&& self.triangulation.include_solid.topology_id is None
        &&& self.triangulation.include_solid.shape_id is None
        &&& self.triangulation.contour.tri_id is None
        &&& self.triangulation.contour.target_layer is None
        &&& self.triangulation.tin.cloud_id is None
        &&& self.view.display.rotation_centre is None
        &&& self.modelling.block_models.table_pages@.len() == 0
        &&& self.modelling.block_models.variable_ranges@.len() == 0
        &&& self.modelling.block_models.viewport_model_id is None
        &&& self.modelling.block_models.drill_hole_color_dialog is None
        &&& self.modelling.kriging.drill_hole_id is None
        &&& self.modelling.ore.block_model_id is None
        &&& self.planning.pages.view_selection@.len() == 0
        &&& self.planning.pages.selected_block_model is None
        &&& self.planning.pages.selected_solid is None
        &&& self.planning.pages.selected_bench is None
        &&& self.planning.preview.pick_uv is None
        &&& self.planning.preview.picked is None
        &&& self.planning.preview.sources@.len() == 0
        &&& self.planning.preview.reserve_issues@.len() == 0
        &&& self.planning.preview.bands@.len() == 0
        &&& self.blasting.tie.blast_round_key is None
        &&& self.blasting.cuts.restore matches Some(restore) ==> restore.layer is None
        &&& self.blasting.cuts.selected_dig_block_info is None
        &&& self.project.lifecycle.pending_close_project is None
        &&& self.project.lifecycle.pending_discard_project is None
        &&& self.project.transfer.export_project is None
        &&& self.project.transfer.export_layer is None
        &&& self.project.transfer.export_triangulation is None
        &&& self.project.transfer.export_block_model is None
    }
}

/// Leaving a project leaves nothing of it behind: no source identity, no preview of its
/// geometry, no projected handle and no open draft, in a session or outside of one.
pub proof fn leaving_frees_sessions(before: EditorState, after: EditorState, preview_diameter: Real64, names: SeedNames)
    requires
        after.left_project(before, preview_diameter, names),
    ensures
        after.sessions_are_free(),
        after.previews_are_gone(),
        after.handles_are_gone(),
        after.drafts_are_closed(),
        after.setup_is_free(),
{
}

/// A chain ends once: after it was put down there is none to put down.
pub proof fn chain_ends_once(before: EditorState, after: EditorState)
    requires
        after.put_down_chain(before),
    ensures
        !after.has_chain(),
{
}

/// Leaving a project twice leaves what leaving it once left.
pub proof fn leaving_twice_is_leaving_once(
    before: EditorState,
    once: EditorState,
    twice: EditorState,
    preview_diameter: Real64,
    names: SeedNames,
)
    requires
        once.left_project(before, preview_diameter, names),
        twice.left_project(once, preview_diameter, names),
    ensures
        twice.left_project(before, preview_diameter, names),
{
}

/// Leaving a project keeps the preferences and the numbers that tools were set
/// to.
pub proof fn leaving_keeps_numbers(before: EditorState, after: EditorState, preview_diameter: Real64, names: SeedNames)
    requires
        after.left_project(before, preview_diameter, names),
    ensures
        after.preferences == before.preferences,
        after.geometry.offset.angle_degrees == before.geometry.offset.angle_degrees,
        after.geometry.offset.measure == before.geometry.offset.measure,
        after.geometry.offset.value_input == before.geometry.offset.value_input,
        after.geometry.offset.horiz_dist == before.geometry.offset.horiz_dist,
        after.geometry.offset.z_delta == before.geometry.offset.z_delta,
        after.geometry.relimit.value_input == before.geometry.relimit.value_input,
        after.geometry.chamfer.radius == before.geometry.chamfer.radius,
        after.geometry.chamfer.segments == before.geometry.chamfer.segments,
        after.geometry.batter_berm.width == before.geometry.batter_berm.width,
        after.geometry.batter_berm.angle == before.geometry.batter_berm.angle,
        after.geometry.batter_berm.bench_height == before.geometry.batter_berm.bench_height,
        after.geometry.batter_berm.benches == before.geometry.batter_berm.benches,
        after.geometry.bezier.segments == before.geometry.bezier.segments,
        after.drawing.cursor.z_level == before.drawing.cursor.z_level,
        after.drawing.cursor.z_input == before.drawing.cursor.z_input,
        after.drawing.tools.line_weight == before.drawing.tools.line_weight,
        after.drawing.text.height == before.drawing.text.height,
        after.drawing.text.rotation_degrees == before.drawing.text.rotation_degrees,
        after.view.slice.width_input == before.view.slice.width_input,
        after.view.slice.speed_input == before.view.slice.speed_input,
        after.view.slice.rotate_input == before.view.slice.rotate_input,
        after.blasting.pattern.burden == before.blasting.pattern.burden,
        after.blasting.pattern.spacing == before.blasting.pattern.spacing,
        after.blasting.pattern.rotation_deg == before.blasting.pattern.rotation_deg,
        after.blasting.pattern.offset_x == before.blasting.pattern.offset_x,
        after.blasting.pattern.offset_y == before.blasting.pattern.offset_y,
        after.blasting.pattern.diameter_mm == before.blasting.pattern.diameter_mm,
        after.blasting.pattern.depth == before.blasting.pattern.depth,
        after.triangulation.cut_z.min_input == before.triangulation.cut_z.min_input,
        after.triangulation.cut_z.max_input == before.triangulation.cut_z.max_input,
        after.triangulation.contour.major_interval_input == before.triangulation.contour.major_interval_input,
        after.triangulation.contour.minor_interval_input == before.triangulation.contour.minor_interval_input,
        after.triangulation.contour.z_min_input == before.triangulation.contour.z_min_input,
        after.triangulation.contour.z_max_input == before.triangulation.contour.z_max_input,
        after.triangulation.tin.max_edge == before.triangulation.tin.max_edge,
        after.triangulation.tin.percent == before.triangulation.tin.percent,
        after.triangulation.tin.limit == before.triangulation.tin.limit,
        after.triangulation.tin.candidate_mult == before.triangulation.tin.candidate_mult,
        after.triangulation.tin.hole_fill == before.triangulation.tin.hole_fill,
        after.modelling.block_models.next_color_stop_id == before.modelling.block_models.next_color_stop_id,
        after.modelling.kriging.lower == before.modelling.kriging.lower,
        after.modelling.kriging.upper == before.modelling.kriging.upper,
        after.modelling.kriging.cell == before.modelling.kriging.cell,
        after.modelling.kriging.range == before.modelling.kriging.range,
        after.modelling.kriging.sill == before.modelling.kriging.sill,
        after.modelling.kriging.nugget == before.modelling.kriging.nugget,
        after.modelling.kriging.min_samples == before.modelling.kriging.min_samples,
        after.modelling.kriging.max_samples == before.modelling.kriging.max_samples,
        after.modelling.ore.min_input == before.modelling.ore.min_input,
        after.modelling.ore.max_input == before.modelling.ore.max_input,
{
}

/// A fresh editor refers to no project, and so has nothing to leave.
pub proof fn fresh_editor_refers_to_no_project(editor: EditorState, startup: Startup)
    requires
        editor.is_initial(startup),
    ensures
        editor.sessions_are_free(),
        editor.setup_is_free(),
{
}

/// The identity handed out after another.
pub open spec fn following_stop(id: u64) -> u64 {
    if id == u64::MAX {
        id
    } else {
        (id + 1) as u64
    }
}

/// The identity handed out after `count` others.
pub open spec fn later_stop(id: u64, count: nat) -> u64
    decreases count,
{
    if count == 0 {
        id
    } else {
        following_stop(later_stop(id, (count - 1) as nat))
    }
}

/// Colour stops are handed distinct identities until they run out: of two
/// allocations, the later one gets the larger identity.
pub proof fn color_stop_ids_are_distinct(start: u64, earlier: nat, later: nat)
    requires
        earlier < later,
        start + later <= u64::MAX,
    ensures
        later_stop(start, earlier) < later_stop(start, later),
{
    lemma_later_stop(start, earlier);
    lemma_later_stop(start, later);
}

proof fn lemma_later_stop(start: u64, count: nat)
    requires
        start + count <= u64::MAX,
    ensures
        later_stop(start, count) == start + count,
    decreases count,
{
    if count > 0 {
        lemma_later_stop(start, (count - 1) as nat);
    }
}

/// The last dot of a name is a dot with none after it.
pub proof fn last_dots_are_dots(name: Seq<char>, end: int)
    requires
        0 <= end <= name.len(),
    ensures
        -1 <= last_dot(name, end) < end,
        last_dot(name, end) >= 0 ==> name[last_dot(name, end)] == '.',
        forall|i: int| last_dot(name, end) < i < end ==> #[trigger] name[i] != '.',
    decreases end,
{
    if end > 0 && name[end - 1] != '.' {
        last_dots_are_dots(name, end - 1);
    }
}

/// A name without its extension: what stands before the last dot, so that a stem and an
/// extension put together with a dot come apart again. A name without a dot, or with none but
/// the one that it begins with, has no extension.
pub proof fn stems_come_apart_from_extensions(stem: Seq<char>, extension: Seq<char>)
    requires
        stem.len() > 0,
        !extension.contains('.'),
    ensures
        before_extension(stem.push('.') + extension) == stem,
        !extension.contains('.') ==> before_extension(extension) == extension,
        before_extension(seq!['.'] + extension) == seq!['.'] + extension,
{
    let name = stem.push('.') + extension;
    let end = name.len() as int;
    last_dots_are_dots(name, end);
    let dot = last_dot(name, end);
    assert(name[stem.len() as int] == '.');
    if dot > stem.len() {
        assert(extension[dot - stem.len() - 1] == '.');
    }
    assert(dot == stem.len());
    assert(name.take(dot) =~= stem);
    last_dots_are_dots(extension, extension.len() as int);
    if last_dot(extension, extension.len() as int) >= 0 {
        assert(extension.contains(extension[last_dot(extension, extension.len() as int)]));
    }
    let hidden = seq!['.'] + extension;
    last_dots_are_dots(hidden, hidden.len() as int);
    let first = last_dot(hidden, hidden.len() as int);
    if first > 0 {
        assert(hidden[first] == extension[first - 1]);
        assert(extension.contains(extension[first - 1]));
    }
}

/// The last part of a path is what stands after its last slash: a folder and a name put
/// together with a slash give the name back.
pub proof fn names_come_apart_from_folders(folder: Seq<char>, name: Seq<char>)
    requires
        !name.contains('/'),
    ensures
        file_part(folder.push('/') + name) == name,
        file_part(name) == name,
{
    let path = folder.push('/') + name;
    lemma_last_part(path, path.len() as int);
    let from = last_part(path, path.len() as int);
    assert(path[folder.len() as int] == '/');
    if from > folder.len() + 1 {
        assert(path[from - 1] == name[from - 1 - folder.len() - 1]);
        assert(name.contains(path[from - 1]));
    }
    assert(from == folder.len() + 1);
    assert(file_part(path) =~= name);
    lemma_no_slash(name, name.len() as int);
    assert(name.skip(0) =~= name);
}

proof fn lemma_last_part(path: Seq<char>, end: int)
    requires
        0 <= end <= path.len(),
    ensures
        0 <= last_part(path, end) <= end,
        last_part(path, end) > 0 ==> path[last_part(path, end) - 1] == '/',
        forall|i: int| last_part(path, end) <= i < end ==> #[trigger] path[i] != '/',
    decreases end,
{
    if end > 0 && path[end - 1] != '/' {
        lemma_last_part(path, end - 1);
    }
}

/// Contours are named after the stem of their surface without the space around it, and after
/// the word for a surface where there is nothing of it.
pub proof fn contours_are_named_after_their_surface(name: Text, stem: Option<String>)
    requires
        names_contours(name, stem),
    ensures
        stem is None || blank((stem->0)@) ==> name == literal1("%stem% Contours", named("stem", Arg::Words("Surface"))),
        stem matches Some(stem) ==> (!blank(stem@) ==> (name.args matches Args::One(Named { value: Arg::Name(words), .. }) && words@
            == trimmed(stem@) && words@.len() > 0)),
        name.source == Source::Literal("%stem% Contours"),
{
    if let Some(stem) = stem {
        blank_text_trims_to_nothing(stem@);
    }
}

/// A task has finished where another one shows in its place or none does; going on with the
/// same one, or beginning one, finishes nothing.
pub proof fn tasks_finish_when_another_shows(previous: StatusBarMessage, next: StatusBarMessage)
    ensures
        EditorState::task_finished(Some(previous), None),
        EditorState::task_finished(Some(previous), Some(next)) <==> next.text@ != previous.text@,
        !EditorState::task_finished(None, Some(next)),
        !EditorState::task_finished(None, None),
{
}

/// A tie-in is running while it has an anchor or a preview. Putting it down drops both and
/// leaves the rest of the editor as it was.
pub proof fn chains_are_put_down_alone(before: EditorState, after: EditorState)
    requires
        after.put_down_chain(before),
    ensures
        before.blasting.tie.anchor is Some || before.blasting.tie.preview@.len() > 0 <==> before.has_chain(),
        after.blasting.tie.anchor is None && after.blasting.tie.preview@.len() == 0 && after.blasting.tie.anchor_world is None
            && after.blasting.tie.path_end_world is None,
        after.blasting.tie.initiation_dialog == before.blasting.tie.initiation_dialog,
        after.blasting.pattern == before.blasting.pattern && after.blasting.products == before.blasting.products,
        after.selection == before.selection && after.drawing == before.drawing && after.workspace == before.workspace,
{
}

/// There is a product to tie with exactly where the palette holds the one that is active.
pub proof fn active_products_are_in_the_palette(editor: EditorState, place: int)
    ensures
        editor.blasting.products.active_delay_product is None ==> !editor.has_active_product(),
        0 <= place < editor.blasting.products.delay_products@.len() && editor.blasting.products.active_delay_product == Some(
            editor.blasting.products.delay_products@[place].id,
        ) ==> editor.has_active_product(),
        editor.blasting.products.delay_products@.len() == 0 ==> !editor.has_active_product(),
{
}

/// Identities for colour stops go up by one until there are no more.
pub proof fn colour_stops_are_counted_up(id: u64, count: nat)
    ensures
        id < u64::MAX ==> following_stop(id) == id + 1,
        following_stop(u64::MAX) == u64::MAX,
        id + count <= u64::MAX ==> later_stop(id, count) == id + count,
{
    if id + count <= u64::MAX {
        lemma_later_stop(id, count);
    }
}

/// A switch of the View menu reads the preference that it is called after.
pub proof fn view_switches_read_their_preference(editor: EditorState)
    ensures
        ViewToggle::Console.value(editor) == editor.preferences.interface.show_console,
        ViewToggle::DarkMode.value(editor) == editor.preferences.interface.dark_mode,
{
}

/// Leaving a project keeps what is the application's own: the request to quit, the import
/// dialog, the palette and the product in hand, the pages of planning and what is known of its
/// runs, the grids, the slice view, and the workspace.
pub proof fn leaving_keeps_the_application(before: EditorState, after: EditorState, preview_diameter: Real64, names: SeedNames)
    requires
        after.left_project(before, preview_diameter, names),
    ensures
        after.workspace == before.workspace,
        after.project.lifecycle.exit_confirm_open == before.project.lifecycle.exit_confirm_open,
        after.project.transfer.show_import == before.project.transfer.show_import,
        after.project.transfer.show_about == before.project.transfer.show_about,
        after.project.transfer.import_source_paths == before.project.transfer.import_source_paths,
        after.blasting.products.delay_products == before.blasting.products.delay_products,
        after.blasting.products.active_delay_product == before.blasting.products.active_delay_product,
        after.blasting.cuts.dig_clipboard == before.blasting.cuts.dig_clipboard,
        after.planning.pages.page == before.planning.pages.page,
        after.planning.pages.solids_step == before.planning.pages.solids_step,
        after.planning.pages.run_active == before.planning.pages.run_active,
        after.planning.pages.snapshot_status == before.planning.pages.snapshot_status,
        after.planning.stages == before.planning.stages,
        after.planning.preview.view == before.planning.preview.view,
        after.view.grid == before.view.grid,
        after.view.slice.mode_enabled == before.view.slice.mode_enabled,
        after.view.display.show_xy_grid == before.view.display.show_xy_grid,
        after.view.display.vertical_exaggeration == before.view.display.vertical_exaggeration,
        after.drawing.tools.cursor_mode == before.drawing.tools.cursor_mode,
        before.blasting.cuts.restore matches Some(restore) ==> (after.blasting.cuts.restore matches Some(kept) && kept.forward
            == restore.forward && kept.up == restore.up && kept.z_level == restore.z_level && kept.z_input == restore.z_input && kept.layer
            is None),
        before.blasting.cuts.restore is None ==> after.blasting.cuts.restore is None,
        after.blasting.preview.depth == before.blasting.pattern.depth && after.blasting.preview.diameter == preview_diameter,
{
}

/// A fresh editor starts in production with nothing in hand and no dialog open, on the shipped
/// preferences, and with the first product of its palette to tie with.
pub proof fn fresh_editor_starts_in_production(editor: EditorState, startup: Startup)
    requires
        editor.is_initial(startup),
    ensures
        editor.workspace.active is Production,
        editor.workspace.order@ == default_order(),
        editor.drawing.tools.active_tool is NoTool,
        editor.preferences == PreferencesDraft::shipped(startup.preferences),
        editor.previews_are_gone(),
        editor.handles_are_gone(),
        editor.drafts_are_closed(),
        !editor.has_chain(),
        startup.products@.len() > 0 ==> editor.has_active_product() && editor.blasting.products.active_delay_product == Some(
            editor.blasting.products.delay_products@[0].id,
        ),
        startup.products@.len() == 0 ==> !editor.has_active_product(),
        editor.blasting.products.delay_products@.len() == startup.products@.len(),
        editor.triangulation.contour.layer_name_input@ == startup.names.contours@,
        editor.triangulation.tin.name_input@ == startup.names.surface@,
        editor.modelling.kriging.name_input@ == startup.names.block_model@,
        editor.modelling.block_models.next_color_stop_id == startup.first_color_stop,
{
}

} // verus!
