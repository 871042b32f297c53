//! Tools, cursor modes and the small choices that tools are set up with.
use crate::model::{CollarRotation, FillStyle};
use crate::text::{literal, literal2, named, Arg, Text};
use vstd::prelude::*;

verus! {

/// What the user-entered value means for an angled offset.
#[derive(Clone, Copy, Debug, PartialEq, Eq, Structural)]
pub enum OffsetMeasure {
    /// Direct horizontal distance, in the XY plane.
    Distance,
    /// The Z component.
    Height(HeightMode),
    /// Same as `Distance`, kept for the name it has in the interface.
    Width,
}

/// Whether a height value is a relative delta or an absolute reduced level.
#[derive(Clone, Copy, Debug, PartialEq, Eq, Structural)]
pub enum HeightMode {
    Relative,
    AbsoluteRL,
}

/// Surface or solid, for a created triangulation.
#[derive(Clone, Copy, Debug, PartialEq, Eq, Structural)]
pub enum TriSurfaceType {
    Surface,
    SolidClosed,
}

/// Which side of a reference topology to remove from a surface being trimmed.
#[derive(Clone, Copy, Debug, PartialEq, Eq, Structural)]
pub enum TriSurfaceCutSide {
    /// Remove geometry above the reference topology; keep geometry below it.
    CutTop,
    /// Remove geometry below the reference topology; keep geometry above it.
    CutBottom,
}

impl TriSurfaceCutSide {
    /// The side the output retains.
    pub fn trim_label(self) -> (r: Text)
        ensures
            self is CutTop ==> r == literal("Trim below"),
            self is CutBottom ==> r == literal("Trim above"),
    {
        match self {
            TriSurfaceCutSide::CutTop => literal("Trim below"),
            TriSurfaceCutSide::CutBottom => literal("Trim above"),
        }
    }

    pub fn retained_relation(self) -> (r: Text)
        ensures
            self is CutTop ==> r == literal("at or below"),
            self is CutBottom ==> r == literal("at or above"),
    {
        match self {
            TriSurfaceCutSide::CutTop => literal("at or below"),
            TriSurfaceCutSide::CutBottom => literal("at or above"),
        }
    }
}

/// Which part of a surface to retain when clipping it with a polyline.
#[derive(Clone, Copy, Debug, PartialEq, Eq, Structural)]
pub enum TriPolylineClipMode {
    KeepInside,
    KeepOutside,
}

impl Default for TriPolylineClipMode {
    fn default() -> (r: TriPolylineClipMode)
        ensures
            r == TriPolylineClipMode::KeepInside,
    {
        TriPolylineClipMode::KeepInside
    }
}

impl TriPolylineClipMode {
    pub fn label(self) -> (r: Text)
        ensures
            self is KeepInside ==> r == literal("Keep inside"),
            self is KeepOutside ==> r == literal("Keep outside"),
    {
        match self {
            TriPolylineClipMode::KeepInside => literal("Keep inside"),
            TriPolylineClipMode::KeepOutside => literal("Keep outside"),
        }
    }
}

/// A triangulation selector being filled from a viewport click. One shared mode
/// keeps overlapping dialogs from competing for a click.
#[derive(Clone, Copy, Debug, PartialEq, Eq, Structural)]
pub enum TriangulationPickTarget {
    ClipSurface,
    SliceSurface,
    TrimTopology,
    TrimSurface,
    CutPitTopology,
    CutPitShell,
    IncludeTopology,
    IncludeShape,
    ContourSurface,
    SolidDesign,
    SolidTopography,
}

impl TriangulationPickTarget {
    pub open spec fn spec_prompt(self) -> Text {
        if self is TrimTopology || self is CutPitTopology || self is IncludeTopology {
            literal("Click the topology in the viewport.")
        } else if self is CutPitShell {
            literal("Click the pit shell in the viewport.")
        } else if self is IncludeShape {
            literal("Click the pit or stockpile solid in the viewport.")
        } else if self is SolidDesign {
            literal("Click the design surface in the viewport.")
        } else if self is SolidTopography {
            literal("Click the topography in the viewport.")
        } else {
            literal("Click the surface in the viewport.")
        }
    }

    pub fn prompt(self) -> (r: Text)
        ensures
            r == self.spec_prompt(),
    {
        match self {
            TriangulationPickTarget::TrimTopology
            | TriangulationPickTarget::CutPitTopology
            | TriangulationPickTarget::IncludeTopology => literal("Click the topology in the viewport."),
            TriangulationPickTarget::CutPitShell => literal("Click the pit shell in the viewport."),
            TriangulationPickTarget::IncludeShape => literal("Click the pit or stockpile solid in the viewport."),
            TriangulationPickTarget::SolidDesign => literal("Click the design surface in the viewport."),
            TriangulationPickTarget::SolidTopography => literal("Click the topography in the viewport."),
            TriangulationPickTarget::ClipSurface
            | TriangulationPickTarget::SliceSurface
            | TriangulationPickTarget::TrimSurface
            | TriangulationPickTarget::ContourSurface => literal("Click the surface in the viewport."),
        }
    }
}

/// How a cut-off grade selects blocks.
#[derive(Clone, Copy, Debug, PartialEq, Eq, Structural)]
pub enum OreFilterMode {
    GreaterOrEqual,
    LessOrEqual,
    Between,
}

/// Phase of the Create Triangulation workflow.
#[derive(Clone, Copy, Debug, PartialEq, Eq, Structural)]
pub enum TriCreatePhase {
    MainDialog,
}

/// Whether the Batter Berm tool generates a pit or a stockpile.
#[derive(Clone, Copy, Debug, PartialEq, Eq, Structural)]
pub enum BatterBermMode {
    Pit,
    Stockpile,
}

impl BatterBermMode {
    /// Whether the rings step outward: a pit widens as it rises, a stockpile as
    /// it falls.
    pub fn steps_outward(self, direction_up: bool) -> (r: bool)
        ensures
            r == ((self is Pit) == direction_up),
    {
        match self {
            BatterBermMode::Pit => direction_up,
            BatterBermMode::Stockpile => !direction_up,
        }
    }
}

/// Which sub-mode the Relimit Line tool is operating in.
#[derive(Clone, Copy, Debug, PartialEq, Eq, Structural)]
pub enum RelimitMode {
    Intersect,
    AbsoluteLength,
    RelativeLength,
}

/// Which endpoint of a line the Relimit tool will move.
#[derive(Clone, Copy, Debug, PartialEq, Eq, Structural)]
pub enum TrimEnd {
    Start,
    End,
}

/// Named orientations selectable from the orientation gizmo.
#[derive(Clone, Copy, Debug, PartialEq, Eq, Structural)]
pub enum StandardView {
    Up,
    Down,
    North,
    South,
    West,
    East,
}

impl StandardView {
    pub open spec fn spec_label(self) -> Text {
        match self {
            StandardView::Up => literal("Up"),
            StandardView::Down => literal("Down"),
            StandardView::North => literal("North"),
            StandardView::South => literal("South"),
            StandardView::West => literal("West"),
            StandardView::East => literal("East"),
        }
    }

    pub fn label(self) -> (r: Text)
        ensures
            r == self.spec_label(),
    {
        match self {
            StandardView::Up => literal("Up"),
            StandardView::Down => literal("Down"),
            StandardView::North => literal("North"),
            StandardView::South => literal("South"),
            StandardView::West => literal("West"),
            StandardView::East => literal("East"),
        }
    }
}

/// How a Rotate Collar edit reads in the activity console: the angles it set, or
/// the angles it turned by.
pub fn describe_collar_rotation(rotation: CollarRotation) -> (r: Text)
    ensures
        rotation matches CollarRotation::Absolute { azimuth, dip } ==> r == literal2(
            "to azimuth %azimuth%°, dip %dip%°",
            named("azimuth", Arg::Fixed { value: azimuth, decimals: 1 }),
            named("dip", Arg::Fixed { value: dip, decimals: 1 }),
        ),
        rotation matches CollarRotation::Delta { azimuth, dip } ==> r == literal2(
            "by azimuth %azimuth%°, dip %dip%°",
            named("azimuth", Arg::Signed { value: azimuth, decimals: 1 }),
            named("dip", Arg::Signed { value: dip, decimals: 1 }),
        ),
{
    match rotation {
        CollarRotation::Absolute { azimuth, dip } => literal2(
            "to azimuth %azimuth%°, dip %dip%°",
            named("azimuth", Arg::Fixed { value: azimuth, decimals: 1 }),
            named("dip", Arg::Fixed { value: dip, decimals: 1 }),
        ),
        CollarRotation::Delta { azimuth, dip } => literal2(
            "by azimuth %azimuth%°, dip %dip%°",
            named("azimuth", Arg::Signed { value: azimuth, decimals: 1 }),
            named("dip", Arg::Signed { value: dip, decimals: 1 }),
        ),
    }
}

/// How a canvas pick modifies the selection set.
#[derive(Clone, Copy, Debug, PartialEq, Eq, Structural)]
pub enum SelectionMode {
    Replace,
    Add,
    Toggle,
}

/// Current selection step of the Drape to Topology tool.
#[derive(Clone, Copy, Debug, PartialEq, Eq, Structural)]
pub enum DrapePhase {
    Designs,
    Topologies,
}

/// The tool in hand, or `NoTool` when none is engaged.
#[derive(Clone, Copy, Debug, PartialEq, Eq, Structural)]
pub enum ActiveTool {
    NoTool,
    MakePoint,
    MakeLine,
    MakePoly,
    MakeCircle,
    MakeText,
    DeletePoints,
    MeasureDistance,
    MeasureBatterAngle,
    OffsetElement,
    DrapeToTopology,
    RelimitLine,
    ExplodePolyline,
    FuseIntoPolyline,
    SplitAtPoints,
    Move,
    /// Moves the holes it is given the way `Move` moves design geometry.
    MoveCollar,
    /// Swings each of the holes it is given about its own collar.
    RotateCollar,
    /// Lays a product along the corridor between collars.
    TieHoles,
    /// Puts the point a round starts at on the hole under the cursor.
    SetInitiationPoint,
    /// One click fixes the centre both views orbit about.
    PickRotationCentre,
    Chamfer,
    BatterBermOffset,
    Bezier,
    VerticalSlice,
}

impl ActiveTool {
    /// Places new design geometry on the active layer.
    pub open spec fn draws_on_layer(self) -> bool {
        ||| self is MakePoint
        ||| self is MakeLine
        ||| self is MakePoly
        ||| self is MakeCircle
        ||| self is MakeText
        ||| self is FuseIntoPolyline
    }

    /// Is offered in the section as well as in plan.
    pub open spec fn serves_section(self) -> bool {
        ||| self is MeasureDistance
        ||| self is MeasureBatterAngle
        ||| self is MakePoint
        ||| self is MakeLine
        ||| self is MakePoly
        ||| self is PickRotationCentre
    }

    /// Takes the world point under the cursor.
    pub open spec fn takes_point(self) -> bool {
        ||| self is MakePoint
        ||| self is MakeLine
        ||| self is MakePoly
        ||| self is MakeCircle
        ||| self is MakeText
        ||| self is MeasureDistance
        ||| self is MeasureBatterAngle
        ||| self is VerticalSlice
        ||| self is PickRotationCentre
    }

    /// Tools that place new design geometry on the active layer. Derived edits
    /// such as offsetting retain their source object's layer.
    pub fn requires_active_layer(self) -> (r: bool)
        ensures
            r == self.draws_on_layer(),
    {
        matches!(
            self,
            ActiveTool::MakePoint
            | ActiveTool::MakeLine
            | ActiveTool::MakePoly
            | ActiveTool::MakeCircle
            | ActiveTool::MakeText
            | ActiveTool::FuseIntoPolyline
        )
    }

    /// The two translate tools, which share the gizmo and the numeric panel.
    pub fn translates(self) -> (r: bool)
        ensures
            r == (self is Move || self is MoveCollar),
    {
        matches!(self, ActiveTool::Move | ActiveTool::MoveCollar)
    }

    pub fn rotates(self) -> (r: bool)
        ensures
            r == (self is RotateCollar),
    {
        matches!(self, ActiveTool::RotateCollar)
    }

    /// Either collar gesture; both work on individually picked holes.
    pub fn acts_on_collars(self) -> (r: bool)
        ensures
            r == (self is MoveCollar || self is RotateCollar),
    {
        matches!(self, ActiveTool::MoveCollar | ActiveTool::RotateCollar)
    }

    /// Tools whose click takes the world point under the cursor, and so want the
    /// snap poll running while they are armed.
    pub fn snaps_cursor(self) -> (r: bool)
        ensures
            r == self.takes_point(),
    {
        matches!(
            self,
            ActiveTool::MakePoint
            | ActiveTool::MakeLine
            | ActiveTool::MakePoly
            | ActiveTool::MakeCircle
            | ActiveTool::MakeText
            | ActiveTool::MeasureDistance
            | ActiveTool::MeasureBatterAngle
            | ActiveTool::VerticalSlice
            | ActiveTool::PickRotationCentre
        )
    }

    pub fn works_in_slice_view(self) -> (r: bool)
        ensures
            r == self.serves_section(),
    {
        matches!(
            self,
            ActiveTool::MeasureDistance
            | ActiveTool::MeasureBatterAngle
            | ActiveTool::MakePoint
            | ActiveTool::MakeLine
            | ActiveTool::MakePoly
            | ActiveTool::PickRotationCentre
        )
    }

    /// A tool in hand that the section has no use for.
    pub fn section_refuses(self) -> (r: bool)
        ensures
            r == (!(self is NoTool) && !self.serves_section()),
    {
        !matches!(self, ActiveTool::NoTool) && !self.works_in_slice_view()
    }
}

/// Every tool that the section accepts takes a world point, so the section's
/// snap targets serve all of them; and no tool both acts on collars and draws.
pub proof fn section_tools_take_points(tool: ActiveTool)
    ensures
        tool.serves_section() ==> tool.takes_point(),
        tool.draws_on_layer() ==> !(tool is MoveCollar || tool is RotateCollar),
{
}

/// Immediate commands applied to the current selection.
#[derive(Clone, Copy, Debug, PartialEq, Eq, Structural)]
pub enum EditorAction {
    FreezeSelection,
}

/// Cursor interaction mode for canvas picks.
#[derive(Clone, Copy, Debug, PartialEq, Eq, Structural)]
pub enum CursorMode {
    Select,
    SnapToSurface,
    SnapToLine,
    SnapToPoint,
}

impl CursorMode {
    pub open spec fn spec_next(self) -> CursorMode {
        match self {
            CursorMode::Select => CursorMode::SnapToSurface,
            CursorMode::SnapToSurface => CursorMode::SnapToLine,
            CursorMode::SnapToLine => CursorMode::SnapToPoint,
            CursorMode::SnapToPoint => CursorMode::Select,
        }
    }

    pub open spec fn spec_previous(self) -> CursorMode {
        match self {
            CursorMode::Select => CursorMode::SnapToPoint,
            CursorMode::SnapToSurface => CursorMode::Select,
            CursorMode::SnapToLine => CursorMode::SnapToSurface,
            CursorMode::SnapToPoint => CursorMode::SnapToLine,
        }
    }

    pub fn snaps(self) -> (r: bool)
        ensures
            r == !(self is Select),
    {
        matches!(self, CursorMode::SnapToPoint | CursorMode::SnapToLine | CursorMode::SnapToSurface)
    }

    pub fn next(self) -> (r: CursorMode)
        ensures
            r == self.spec_next(),
    {
        match self {
            CursorMode::Select => CursorMode::SnapToSurface,
            CursorMode::SnapToSurface => CursorMode::SnapToLine,
            CursorMode::SnapToLine => CursorMode::SnapToPoint,
            CursorMode::SnapToPoint => CursorMode::Select,
        }
    }

    pub fn previous(self) -> (r: CursorMode)
        ensures
            r == self.spec_previous(),
    {
        match self {
            CursorMode::Select => CursorMode::SnapToPoint,
            CursorMode::SnapToSurface => CursorMode::Select,
            CursorMode::SnapToLine => CursorMode::SnapToSurface,
            CursorMode::SnapToPoint => CursorMode::SnapToLine,
        }
    }
}

/// Stepping on and stepping back undo each other, and four steps on come round
/// to the mode they started from, no sooner.
pub proof fn cursor_modes_cycle(mode: CursorMode)
    ensures
        mode.spec_next().spec_previous() == mode,
        mode.spec_previous().spec_next() == mode,
        mode.spec_next() != mode,
        mode.spec_next().spec_next() != mode,
        mode.spec_next().spec_next().spec_next() != mode,
        mode.spec_next().spec_next().spec_next().spec_next() == mode,
{
}

/// Fill pattern for closed polylines.
#[derive(Clone, Copy, Debug, PartialEq, Eq, Structural)]
pub enum ToolHatch {
    Clear,
    Crosses,
    Slashes,
    Solid,
}

impl ToolHatch {
    pub fn to_fill_style(self) -> (r: FillStyle)
        ensures
            self is Clear <==> r is Clear,
            self is Crosses <==> r is Crosses,
            self is Slashes <==> r is Slashes,
            self is Solid <==> r is Solid,
    {
        match self {
            ToolHatch::Clear => FillStyle::Clear,
            ToolHatch::Crosses => FillStyle::Crosses,
            ToolHatch::Slashes => FillStyle::Slashes,
            ToolHatch::Solid => FillStyle::Solid,
        }
    }
}

/// The name of a fill style.
pub fn fill_style_label(style: FillStyle) -> (r: Text)
    ensures
        style is Clear ==> r == literal("Clear"),
        style is Crosses ==> r == literal("Crosses"),
        style is Slashes ==> r == literal("Slashes"),
        style is Solid ==> r == literal("Solid"),
{
    match style {
        FillStyle::Clear => literal("Clear"),
        FillStyle::Crosses => literal("Crosses"),
        FillStyle::Slashes => literal("Slashes"),
        FillStyle::Solid => literal("Solid"),
    }
}

/// One of the view preferences the View menu switches on and off.
#[derive(Clone, Copy, Debug, PartialEq, Eq, Structural)]
pub enum ViewToggle {
    Console,
    DarkMode,
}

impl ViewToggle {
    pub fn label(self) -> (r: Text)
        ensures
            self is Console ==> r == literal("Show Console"),
            self is DarkMode ==> r == literal("Dark Mode"),
    {
        match self {
            ViewToggle::Console => literal("Show Console"),
            ViewToggle::DarkMode => literal("Dark Mode"),
        }
    }
}

/// A file type of the import and export menus.
#[derive(Clone, Copy, Debug, PartialEq, Eq, Hash, Structural)]
pub enum DataMenu {
    NoMenu,
    Omf,
    Dxf,
    Obj,
    Stl,
    Ply,
    Las,
    Xyz,
    Pcd,
    CsvBlockModel,
    CsvDrillHole,
    Geotiff,
}

/// A section of the Preferences window.
#[derive(Clone, Copy, Debug, PartialEq, Eq, Structural)]
pub enum PropertyTab {
    Reserves,
    Interface,
    Camera,
    Performance,
    Developer,
}

/// One group of the explorer tree.
#[derive(Clone, Copy, Debug, PartialEq, Eq, Structural)]
pub enum ExplorerSection {
    Designs,
    Triangulations,
    Rasters,
    PointClouds,
    BlockModels,
    DrillHoles,
}

impl ExplorerSection {
    /// The words of the heading.
    pub open spec fn words(self) -> &'static str {
        match self {
            ExplorerSection::Designs => "Designs",
            ExplorerSection::Triangulations => "Triangulations",
            ExplorerSection::Rasters => "Rasters",
            ExplorerSection::PointClouds => "Point Clouds",
            ExplorerSection::BlockModels => "Block Models",
            ExplorerSection::DrillHoles => "Drill Holes",
        }
    }

    pub fn heading(self) -> (r: &'static str)
        ensures
            r == self.words(),
    {
        match self {
            ExplorerSection::Designs => "Designs",
            ExplorerSection::Triangulations => "Triangulations",
            ExplorerSection::Rasters => "Rasters",
            ExplorerSection::PointClouds => "Point Clouds",
            ExplorerSection::BlockModels => "Block Models",
            ExplorerSection::DrillHoles => "Drill Holes",
        }
    }

    /// Heading text, used to name the section in console reports.
    pub fn label(self) -> (r: Text)
        ensures
            r == literal(self.words()),
    {
        literal(self.heading())
    }
}

/// Draft type of a new reserve field.
#[derive(Clone, Copy, Debug, PartialEq, Eq, Structural)]
pub enum ReserveFieldKind {
    Sum,
    WeightedAverage,
    Category,
}

/// How a terrain reconstruction spreads its vertex budget.
#[derive(Clone, Copy, Debug, PartialEq, Eq, Structural)]
pub enum TerrainSampler {
    Adaptive,
    Uniform,
}

/// What a tool draws on, where it is offered and whether it takes a point, tool by tool: those
/// that place new geometry draw on the layer, and of them only points, lines and polylines are
/// placed in a section too.
pub proof fn tools_do_what_they_are_called(tool: ActiveTool)
    ensures
        tool is MakePoint || tool is MakeLine || tool is MakePoly ==> tool.draws_on_layer() && tool.serves_section() && tool.takes_point(),
        tool is MakeCircle || tool is MakeText ==> tool.draws_on_layer() && !tool.serves_section() && tool.takes_point(),
        tool is MeasureDistance || tool is MeasureBatterAngle || tool is PickRotationCentre ==> !tool.draws_on_layer()
            && tool.serves_section() && tool.takes_point(),
        tool is FuseIntoPolyline ==> tool.draws_on_layer() && !tool.serves_section() && !tool.takes_point(),
        tool is VerticalSlice ==> !tool.draws_on_layer() && !tool.serves_section() && tool.takes_point(),
        tool is NoTool || tool is DeletePoints || tool is OffsetElement || tool is DrapeToTopology || tool is RelimitLine
            || tool is ExplodePolyline || tool is SplitAtPoints || tool is Move || tool is MoveCollar || tool is RotateCollar
            || tool is TieHoles || tool is SetInitiationPoint || tool is Chamfer || tool is BatterBermOffset || tool is Bezier
            ==> !tool.draws_on_layer() && !tool.serves_section() && !tool.takes_point(),
{
}

/// Snapping is stepped through from the coarsest to the finest: surfaces, lines, points, and
/// back to plain selecting.
pub proof fn cursor_modes_go_from_coarse_to_fine()
    ensures
        CursorMode::Select.spec_next() is SnapToSurface,
        CursorMode::SnapToSurface.spec_next() is SnapToLine,
        CursorMode::SnapToLine.spec_next() is SnapToPoint,
        CursorMode::SnapToPoint.spec_next() is Select,
{
}

/// A pick asks for the kind of thing that its dialog lacks: targets that want a topology ask
/// for one, those that want a surface ask for that.
pub proof fn picks_ask_for_what_they_want(target: TriangulationPickTarget)
    ensures
        target is TrimTopology || target is CutPitTopology || target is IncludeTopology <==> target.spec_prompt()
            == TriangulationPickTarget::TrimTopology.spec_prompt(),
        target is ClipSurface || target is SliceSurface || target is TrimSurface || target is ContourSurface <==> target.spec_prompt()
            == TriangulationPickTarget::ClipSurface.spec_prompt(),
        target is CutPitShell ==> target.spec_prompt() == literal("Click the pit shell in the viewport."),
        target is IncludeShape ==> target.spec_prompt() == literal("Click the pit or stockpile solid in the viewport."),
        target is SolidDesign ==> target.spec_prompt() == literal("Click the design surface in the viewport."),
        target is SolidTopography ==> target.spec_prompt() == literal("Click the topography in the viewport."),
        target is TrimTopology ==> target.spec_prompt() == literal("Click the topology in the viewport."),
        target is ClipSurface ==> target.spec_prompt() == literal("Click the surface in the viewport."),
{
    reveal_strlit("Click the topology in the viewport.");
    reveal_strlit("Click the pit shell in the viewport.");
    reveal_strlit("Click the pit or stockpile solid in the viewport.");
    reveal_strlit("Click the design surface in the viewport.");
    reveal_strlit("Click the topography in the viewport.");
    reveal_strlit("Click the surface in the viewport.");
    assert("Click the topology in the viewport."@.len() != "Click the pit shell in the viewport."@.len());
    assert("Click the topology in the viewport."@.len() != "Click the surface in the viewport."@.len());
    assert("Click the topology in the viewport."@.len() != "Click the topography in the viewport."@.len());
    assert("Click the surface in the viewport."@.len() != "Click the topography in the viewport."@.len());
}

/// A standard view is called after its direction.
pub proof fn views_are_called_after_their_direction(view: StandardView)
    ensures
        view is Up ==> view.spec_label() == literal("Up"),
        view is Down ==> view.spec_label() == literal("Down"),
        view is North ==> view.spec_label() == literal("North"),
        view is South ==> view.spec_label() == literal("South"),
        view is West ==> view.spec_label() == literal("West"),
        view is East ==> view.spec_label() == literal("East"),
{
}

/// A section of the explorer is headed by what it lists.
pub proof fn sections_are_headed_by_what_they_list(section: ExplorerSection)
    ensures
        section is Designs ==> section.words() == "Designs",
        section is Triangulations ==> section.words() == "Triangulations",
        section is Rasters ==> section.words() == "Rasters",
        section is PointClouds ==> section.words() == "Point Clouds",
        section is BlockModels ==> section.words() == "Block Models",
        section is DrillHoles ==> section.words() == "Drill Holes",
{
}

} // verus!
