//! Commands that the interface sends to the application, and what the activity
//! console says about them.
use crate::ids::{
    BlastShapeRef, BlockModelId, Carried, DelayProductId, DrillHoleId, DrillHoleRef, LanguageChoice, LayerId, ObjectId,
    PointCloudId, ProjectId, RasterTextureId, RenameTarget, ReserveFieldId, SceneEntityId, SolidId, TriangulationId,
};
use crate::model::{
    Axis, CollarRotation, FillStyle, Object, ObjectColor, ReserveAggregation, ReserveMappingSource, SolidEdit, SolidKind,
    SolidRegion,
};
use crate::number::{Real32, Real64, Rgba, Vec3};
use crate::palette::PackedColor;
use crate::preferences::PreferencesDraft;
use crate::text::{literal, literal1, literal2, literal3, named, only, plain2, verbatim, Arg, Text};
use crate::tools::{
    ActiveTool, DataMenu, ExplorerSection, OreFilterMode, RelimitMode, StandardView, TriPolylineClipMode, TriSurfaceCutSide,
    TriSurfaceType, ViewToggle,
};
use crate::workspace::{PlanningPage, PlanningSubpage, SolidsStep, Workspace};
use vstd::prelude::*;

verus! {

/// Destination for generated contour polylines in the active project.
#[derive(Clone, Debug, PartialEq)]
pub enum ContourOutputLayer {
    New(String),
    Existing(LayerId),
}

/// A remembered project: a file of the desktop, or a record of the browser.
#[derive(Clone, Debug, PartialEq)]
pub enum TrackedProject {
    Path(String),
    Stored(ProjectId),
}

impl TrackedProject {
    pub open spec fn spec_name(self) -> Text {
        match self {
            TrackedProject::Path(path) => verbatim(path),
            TrackedProject::Stored(id) => only(Arg::Project(id)),
        }
    }

    /// The same project.
    pub fn duplicate(&self) -> (r: TrackedProject)
        ensures
            r == *self,
    {
        match self {
            TrackedProject::Path(path) => TrackedProject::Path(path.clone()),
            TrackedProject::Stored(id) => TrackedProject::Stored(*id),
        }
    }

    /// The path, or the identity of the record.
    pub fn name(&self) -> (r: Text)
        ensures
            r == self.spec_name(),
    {
        match self {
            TrackedProject::Path(path) => verbatim(path.clone()),
            TrackedProject::Stored(id) => only(Arg::Project(*id)),
        }
    }
}

impl RenameTarget {
    pub open spec fn kind_words(self) -> &'static str {
        match self {
            RenameTarget::Layer(_) => "Layer",
            RenameTarget::Triangulation(_) => "Triangulation",
            RenameTarget::Raster(_) => "Raster",
            RenameTarget::PointCloud(_) => "Point Cloud",
            RenameTarget::BlockModel(_) => "Block Model",
            RenameTarget::DrillHole(_) => "Drill Holes",
            RenameTarget::ReserveField(_) => "Field",
            RenameTarget::Solid(_) => "Solid",
            RenameTarget::BlastShape(_) => "Blast",
        }
    }

    pub fn kind_heading(self) -> (r: &'static str)
        ensures
            r == self.kind_words(),
    {
        match self {
            RenameTarget::Layer(_) => "Layer",
            RenameTarget::Triangulation(_) => "Triangulation",
            RenameTarget::Raster(_) => "Raster",
            RenameTarget::PointCloud(_) => "Point Cloud",
            RenameTarget::BlockModel(_) => "Block Model",
            RenameTarget::DrillHole(_) => "Drill Holes",
            RenameTarget::ReserveField(_) => "Field",
            RenameTarget::Solid(_) => "Solid",
            RenameTarget::BlastShape(_) => "Blast",
        }
    }

    pub fn kind_label(self) -> (r: Text)
        ensures
            r == literal(self.kind_words()),
    {
        literal(self.kind_heading())
    }

    pub open spec fn removal(self) -> UiCommand {
        match self {
            RenameTarget::Layer(id) => UiCommand::DeleteLayer(id),
            RenameTarget::Triangulation(id) => UiCommand::RemoveTriangulation(id),
            RenameTarget::Raster(id) => UiCommand::RemoveRaster(id),
            RenameTarget::PointCloud(id) => UiCommand::RemovePointCloud(id),
            RenameTarget::BlockModel(id) => UiCommand::RemoveBlockModel(id),
            RenameTarget::DrillHole(id) => UiCommand::RemoveDrillHole(id),
            RenameTarget::ReserveField(id) => UiCommand::DeleteReserveField(id),
            RenameTarget::Solid(id) => UiCommand::DeleteSolid(id),
            RenameTarget::BlastShape(blast) => UiCommand::ResetBlastName(blast),
        }
    }

    /// The command that deletes this item, issued once the confirmation is
    /// accepted. A blast cannot be deleted, it is ground; clearing its name has
    /// it numbered automatically again.
    pub fn remove_command(self) -> (r: UiCommand)
        ensures
            r == self.removal(),
    {
        match self {
            RenameTarget::Layer(id) => UiCommand::DeleteLayer(id),
            RenameTarget::Triangulation(id) => UiCommand::RemoveTriangulation(id),
            RenameTarget::Raster(id) => UiCommand::RemoveRaster(id),
            RenameTarget::PointCloud(id) => UiCommand::RemovePointCloud(id),
            RenameTarget::BlockModel(id) => UiCommand::RemoveBlockModel(id),
            RenameTarget::DrillHole(id) => UiCommand::RemoveDrillHole(id),
            RenameTarget::ReserveField(id) => UiCommand::DeleteReserveField(id),
            RenameTarget::Solid(id) => UiCommand::DeleteSolid(id),
            RenameTarget::BlastShape(blast) => UiCommand::ResetBlastName(blast),
        }
    }
}

/// A title and a summary for the activity console.
#[derive(Clone, Debug, PartialEq)]
pub struct CommandReportSpec {
    pub title: Text,
    pub summary: Text,
}

/// An action that the user triggered through the interface.
#[derive(Clone, Debug, PartialEq)]
pub enum UiCommand {
    SetActiveTool(ActiveTool),
    /// Open or close the Drill & Blast pattern builder.
    ToggleCreateDrillPattern,
    /// Give the next viewport click to the pattern boundary picker.
    BeginDrillPatternShapePick,
    /// Materialise the live preview as a new drillhole dataset.
    CreateDrillPattern { name: String, collars: Vec<Vec3>, depth: Real64, diameter: Real64 },
    /// Drop everything selected. Switching workspaces sends this: a selection
    /// belongs to the discipline it was made in.
    ClearSelection,
    SetFlyModeEnabled(bool),
    SetSliceModeEnabled(bool),
    SetSlicePreviewDetached(bool),
    NewProject,
    CreateBrowserProject { name: String },
    OpenProject,
    ActivateTrackedProject(TrackedProject),
    RemoveTrackedProject(TrackedProject),
    /// Open the file manager on the active project's own file.
    ShowProjectInFileManager,
    CloseStartupDialog,
    ImportOmfPaths(Vec<String>),
    ImportDxfPathsInto(Vec<String>),
    ImportTriangulationPaths(Vec<String>),
    ImportPointCloudPaths(Vec<String>),
    ImportRasterPaths(Vec<String>),
    LoadRaster(RasterTextureId),
    UnloadRaster(RasterTextureId),
    /// Lock or unlock a raster against draping, undraping and deletion.
    ToggleRasterLocked(RasterTextureId),
    RemoveRaster(RasterTextureId),
    DrapeRaster(RasterTextureId),
    UndrapeRaster(RasterTextureId),
    /// Undrape every raster from every triangulation it covers.
    UndrapeAllRasters,
    ClearActiveTriangulationRaster,
    LoadPointCloud(PointCloudId),
    ClosePointCloud(PointCloudId),
    RemovePointCloud(PointCloudId),
    ChooseImportSourceFiles(DataMenu),
    ClearBrowserImportSelection(DataMenu),
    ImportCsvBlockModel { path: String, mapping: Carried },
    ExportOmf,
    ExportProjectDxf(u32),
    ExportViewportImage,
    ExportLayerDxf(LayerId),
    ExportTriangulationAs(TriangulationId, Carried),
    ExportBlockModelCsv(BlockModelId),
    RequestExit,
    SaveAndExit,
    ExitWithoutSaving,
    CancelExit,
    SaveAndReplaceProject,
    DiscardAndReplaceProject,
    CancelProjectReplacement,
    ConfirmLossyProjectSave,
    CancelLossyProjectSave,
    CreateLayer { name: String },
    /// Add a product to the Drill & Blast palette.
    AddDelayProduct { delay_ms: u32, name: String, color: PackedColor },
    DeleteDelayProduct(DelayProductId),
    /// Add a field to the Reserves setup's Field List.
    AddReserveField { name: String, aggregation: ReserveAggregation },
    DeleteReserveField(ReserveFieldId),
    /// Map one block model's column, or a constant, onto one reserve field;
    /// `None` clears the mapping.
    SetReserveMapping { block_model: BlockModelId, field: ReserveFieldId, source: Option<ReserveMappingSource> },
    /// Opt one block model in or out of the project's reserves.
    SetReserveModelIncluded { block_model: BlockModelId, included: bool },
    /// Add a solid to the Solids setup.
    AddSolid {
        name: String,
        kind: SolidKind,
        surface: Option<TriangulationId>,
        topography: Option<TriangulationId>,
        block_model: Option<BlockModelId>,
    },
    /// Clear a blast's stored name so it is numbered automatically again.
    ResetBlastName(BlastShapeRef),
    SelectBlast(Option<BlastShapeRef>),
    SelectDigBlock(BlastShapeRef),
    CopyDigStrips,
    PasteDigStrips,
    DeleteSolid(SolidId),
    /// Add the previewed solid to the project as a triangulation.
    SaveSolidPreviewToProject,
    /// Return the Solids preview to the orbit it opens at.
    ResetSolidPreviewView,
    /// Ask for one block model's reserve statistics again.
    RecomputeReserveStats(BlockModelId),
    /// Rerun from the first step through this stage.
    RunPlanningStage(SolidsStep),
    /// Rerun all stages.
    RunAllPlanningStages,
    /// Stop a run in flight, leaving completed stages alone.
    CancelPlanningRun,
    /// Change one field of a solid.
    UpdateSolid { solid: SolidId, edit: SolidEdit },
    /// Apply or remove one collar's initiation delay.
    SetInitiation { target: DrillHoleRef, delay_ms: Option<u32> },
    FinishPolyClose,
    CommitStrokeOpen,
    CommitCircleTypedRadius,
    CancelOffset,
    ConfirmDrapeSelection,
    CancelRelimit,
    /// Frame everything visible from square on.
    ResetView,
    /// Arm a click that fixes the centre of rotation, or release the one set.
    ToggleRotationCentre,
    /// The level grid in a section, the XY grid in plan.
    SetGridShown(bool),
    SetTopologyWireframes(bool),
    SetShowPoints(bool),
    SetStandardView(StandardView),
    OpenPreferences,
    ApplyPreferences(PreferencesDraft),
    SetPlanningPage(PlanningPage),
    SetPlanningSubpage(PlanningSubpage),
    ReorderWorkspace { workspace: Workspace, before: Option<Workspace> },
    /// Switch the interface language.
    SetLanguage(LanguageChoice),
    /// Flip one view preference from the View menu.
    ToggleViewOption(ViewToggle),
    /// Select a block model and show its viewport filter controls.
    SelectBlockModel(BlockModelId),
    SaveProject,
    SaveProjectAs(u32),
    SaveAndCloseProject(u32),
    CloseProjectForce(u32),
    CancelCloseProject,
    DiscardProjectChanges(u32),
    RequestDiscardLayerChanges(LayerId),
    DiscardLayerChanges(LayerId),
    RequestDeleteLayer(LayerId),
    DeleteLayer(LayerId),
    /// Open the deletion confirmation for a non-layer explorer item.
    RequestDeleteItem(RenameTarget),
    DuplicateLayer(LayerId),
    RenameItem { target: RenameTarget, new_name: String },
    BeginRenameItem(RenameTarget),
    /// Preview the move delta without committing it.
    PreviewMoveDelta(Vec3),
    ApplyChamfer,
    CancelChamfer,
    ApplyBezier,
    CancelBezier,
    /// Apply a world-space delta to all selected objects.
    ApplyMoveDelta(Vec3),
    CancelMoveDelta,
    /// Preview a Rotate Collar turn without committing it.
    PreviewCollarRotation(CollarRotation),
    /// Settle whatever turn the tool is previewing onto the undo stack.
    ApplyCollarRotation,
    CancelCollarRotation,
    LoadLayer(LayerId),
    UnloadLayer(LayerId),
    /// Lock or unlock every object on a design layer.
    ToggleLayerLocked(LayerId),
    /// Lock or unlock one scene entity.
    ToggleEntityLocked(SceneEntityId),
    /// Show or hide every loaded item in one explorer section.
    SetSectionVisible(ExplorerSection, bool),
    /// Lock or unlock every loaded item in one explorer section.
    SetSectionLocked(ExplorerSection, bool),
    SelectAllObjectsInLayer(LayerId),
    ActivateTriangulation(TriangulationId),
    CloseTriangulation(TriangulationId),
    /// The batch variants produce a single history entry.
    BatchSetObjectColor(Vec<ObjectId>, ObjectColor),
    BatchSetPolylineClosed(Vec<ObjectId>, bool),
    BatchSetObjectFill(Vec<ObjectId>, FillStyle),
    BatchSetPolylineLineWeight(Vec<ObjectId>, Real32),
    MoveObjectsToLayer { object_ids: Vec<ObjectId>, target_layer: LayerId, copy: bool },
    BatchSetAxisValue(Vec<ObjectId>, Axis, Real64),
    CommitTextEdit { id: ObjectId, content: String, height: Real64, rotation_degrees: Real64, color: Rgba },
    CancelTextEdit,
    SetTriangulationColor(TriangulationId, Rgba),
    CloseCanvasContextMenu,
    LoadTriangulation(TriangulationId),
    LoadBlockModel(BlockModelId),
    CloseBlockModel(BlockModelId),
    RemoveBlockModel(BlockModelId),
    SetBlockModelColorVariable { id: BlockModelId, variable: String },
    /// Replace the active variable's colormap wholesale.
    SetBlockModelColorTransfer { id: BlockModelId, transfer: Carried },
    /// Discard the active variable's ramp and rebuild it from the data.
    ResetBlockModelColorTransfer { id: BlockModelId },
    SetBlockModelSlice { id: BlockModelId, slice: Option<Carried> },
    ImportDrillHole(Carried),
    LoadDrillHole(DrillHoleId),
    CloseDrillHole(DrillHoleId),
    RemoveDrillHole(DrillHoleId),
    OpenDrillHoleColorDialog(DrillHoleId),
    SetDrillHoleColorField { id: DrillHoleId, field: Option<String> },
    SetDrillHoleColorPreset { id: DrillHoleId, preset: Carried },
    SetDrillHoleColorStops { id: DrillHoleId, stops: Carried },
    SetDrillHoleCategoryColors { id: DrillHoleId, categories: Carried },
    OpenCreateBlockModel(Option<DrillHoleId>),
    ExecuteCreateBlockModel {
        drill_hole_id: DrillHoleId,
        variables: Vec<String>,
        name: String,
        lower: Vec3,
        upper: Vec3,
        cell: Vec3,
        range: Real64,
        sill: Real64,
        nugget: Real64,
        min_samples: u32,
        max_samples: u32,
    },
    OpenCreateOreTriangulation,
    ExecuteCreateOreTriangulation {
        block_model_id: BlockModelId,
        variable: String,
        mode: OreFilterMode,
        min: Real64,
        max: Real64,
        name: String,
    },
    RemoveTriangulation(TriangulationId),
    HideSelection,
    ZoomToExtents,
    /// Begin the canvas side-pick phase of an offset.
    BeginOffsetPick {
        object_ids: Vec<ObjectId>,
        /// Absolute horizontal distance; the cursor decides the side.
        horiz_dist: Real64,
        /// Z shift of all new vertices.
        z_delta: Real64,
        /// `(tan_angle, target_rl)`: project each vertex to the level instead.
        project_to_rl: Option<(Real64, Real64)>,
        /// Clamp each vertex to the first triangulation it hits.
        collide_with_triangulation: bool,
    },
    RelimitLineResize { source_id: ObjectId, mode: RelimitMode, value: Real64 },
    OpenOffsetDialog,
    OpenRelimitDialog,
    OpenBatterBermDialog,
    /// Commit all batter berm rings.
    CommitBatterBerm,
    CancelBatterBerm,
    OpenCreateTriangulation,
    /// Open the dialog that sets one axis of every selected object.
    OpenMoveToAxisDialog(Axis),
    /// Insert vertices at every plan-view crossing between selected polylines.
    InsertPointsAtIntersections,
    OpenInsertPointAtElevationDialog,
    /// Insert vertices where selected polylines cross an elevation.
    InsertPointsAtElevation { object_ids: Vec<ObjectId>, elevation: Real64 },
    ExecuteCreateTriangulation { name: String, object_ids: Vec<ObjectId>, surface_type: TriSurfaceType },
    /// Retry with breakline endpoints welded at the coarse tolerance.
    ExecuteCreateTriangulationWithWeld { name: String, object_ids: Vec<ObjectId>, surface_type: TriSurfaceType },
    /// Retry by enforcing the higher edge at conflicting crossings.
    ExecuteCreateTriangulationUpperSurface {
        name: String,
        object_ids: Vec<ObjectId>,
        surface_type: TriSurfaceType,
        coarse_weld: bool,
    },
    OpenPointCloudTin,
    /// Reconstruct a terrain from a point cloud.
    ExecutePointCloudTin { cloud_id: PointCloudId, params: Carried },
    ConfirmDeleteSelection,
    OpenCutTriangulationByPolyline,
    BeginCutPolyPick,
    ExecuteCutTriangulationByPolyline { tri_id: TriangulationId, polyline_id: ObjectId, mode: TriPolylineClipMode, name: String },
    OpenCutTriangulationByZ,
    ExecuteCutTriangulationByZ { tri_id: TriangulationId, z_min: Real64, z_max: Real64, name: String },
    OpenCutTriangulationBySurface,
    OpenBuildSolidFromSurfaces,
    ExecuteBuildSolidFromSurfaces {
        design_id: TriangulationId,
        topography_id: TriangulationId,
        region: SolidRegion,
        name: String,
    },
    ExecuteCutTriangulationBySurface {
        target_id: TriangulationId,
        reference_id: TriangulationId,
        side: TriSurfaceCutSide,
        name: String,
    },
    OpenCutTopologyByPitShell,
    ExecuteCutTopologyByPitShell { topology_id: TriangulationId, pit_shell_id: TriangulationId, name: String },
    OpenIncludeSolidInTopology,
    ExecuteIncludeSolidInTopology {
        topology_id: TriangulationId,
        shape_id: TriangulationId,
        name: String,
        save_as_two: bool,
        hide_old: bool,
    },
    OpenContourTriangulation,
    Undo,
    Redo,
    ExecuteContourTriangulation {
        tri_id: TriangulationId,
        major_interval: Real64,
        minor_interval: Real64,
        major_color: Rgba,
        minor_color: Rgba,
        /// Level band to contour instead of the full mesh.
        z_range: Option<(Real64, Real64)>,
        output_layer: ContourOutputLayer,
    },
    OpenPlotDialog,
    /// Set the plot scale to the smallest conventional one that fits the data.
    FitPlotScaleToData,
    ExportPlotSheet,
    /// Open the object editor on one design object.
    OpenObjectEditDialog(ObjectId),
    /// Write the editor's working copy back; `close` shuts the dialog once the
    /// write went through.
    ApplyObjectEdit { id: ObjectId, object: Object, close: bool },
}

impl UiCommand {
    /// Interface plumbing that the activity console leaves out: opening and
    /// cancelling dialogs, previews, selections, and edits that report through
    /// what they lead to.
    pub open spec fn is_transient(self) -> bool {
        match self {
            UiCommand::SetActiveTool(_)
            | UiCommand::ToggleCreateDrillPattern
            | UiCommand::BeginDrillPatternShapePick
            | UiCommand::ClearSelection
            | UiCommand::CloseStartupDialog
            | UiCommand::CancelCloseProject
            | UiCommand::CancelExit
            | UiCommand::CancelProjectReplacement
            | UiCommand::CancelLossyProjectSave
            | UiCommand::CancelOffset
            | UiCommand::ConfirmDrapeSelection
            | UiCommand::CancelRelimit
            | UiCommand::OpenPreferences
            | UiCommand::ApplyPreferences(_)
            | UiCommand::SetPlanningPage(_)
            | UiCommand::SetPlanningSubpage(_)
            | UiCommand::ReorderWorkspace { .. }
            | UiCommand::ToggleViewOption(_)
            | UiCommand::SelectBlockModel(_)
            | UiCommand::SetInitiation { .. }
            | UiCommand::BeginRenameItem(_)
            | UiCommand::PreviewMoveDelta(_)
            | UiCommand::PreviewCollarRotation(_)
            | UiCommand::CancelChamfer
            | UiCommand::CancelBezier
            | UiCommand::CancelMoveDelta
            | UiCommand::CancelCollarRotation
            | UiCommand::CancelTextEdit
            | UiCommand::CloseCanvasContextMenu
            | UiCommand::OpenCreateBlockModel(_)
            | UiCommand::OpenCreateOreTriangulation
            | UiCommand::OpenOffsetDialog
            | UiCommand::OpenRelimitDialog
            | UiCommand::OpenBatterBermDialog
            | UiCommand::CancelBatterBerm
            | UiCommand::OpenCreateTriangulation
            | UiCommand::OpenMoveToAxisDialog(_)
            | UiCommand::OpenInsertPointAtElevationDialog
            | UiCommand::OpenObjectEditDialog(_)
            | UiCommand::OpenPointCloudTin
            | UiCommand::OpenCutTriangulationByPolyline
            | UiCommand::BeginCutPolyPick
            | UiCommand::OpenCutTriangulationByZ
            | UiCommand::OpenCutTriangulationBySurface
            | UiCommand::OpenBuildSolidFromSurfaces
            | UiCommand::OpenCutTopologyByPitShell
            | UiCommand::OpenIncludeSolidInTopology
            | UiCommand::OpenContourTriangulation
            | UiCommand::OpenPlotDialog
            | UiCommand::FitPlotScaleToData
            | UiCommand::SetBlockModelColorTransfer { .. }
            | UiCommand::ResetBlockModelColorTransfer { .. }
            | UiCommand::SetDrillHoleColorStops { .. }
            | UiCommand::SetDrillHoleCategoryColors { .. }
            | UiCommand::OpenDrillHoleColorDialog(_)
            | UiCommand::SetBlockModelSlice { .. }
            | UiCommand::ChooseImportSourceFiles(_)
            | UiCommand::RequestDeleteLayer(_)
            | UiCommand::RequestDeleteItem(_)
            | UiCommand::SetReserveMapping { .. }
            | UiCommand::SetReserveModelIncluded { .. }
            | UiCommand::UpdateSolid { .. }
            | UiCommand::ResetSolidPreviewView
            | UiCommand::RecomputeReserveStats(_)
            | UiCommand::RunPlanningStage(_)
            | UiCommand::RunAllPlanningStages
            | UiCommand::CancelPlanningRun
            | UiCommand::ClearBrowserImportSelection(_)
            | UiCommand::RequestDiscardLayerChanges(_)
            | UiCommand::SelectBlast(_)
            | UiCommand::SelectDigBlock(_)
            | UiCommand::CopyDigStrips
            | UiCommand::PasteDigStrips => true,
            _ => false,
        }
    }

    /// What the activity console says about a command.
    pub open spec fn console_report(self) -> Option<CommandReportSpec> {
        match self {
            UiCommand::SetLanguage(choice) => Some(
                CommandReportSpec {
                    title: literal("Language"),
                    summary: only(Arg::Endonym(choice)),
                },
            ),
            UiCommand::SetFlyModeEnabled(enabled) => Some(
                CommandReportSpec {
                    title: literal("Fly Mode"),
                    summary: if enabled {
                        literal("Enabled")
                    } else {
                        literal("Disabled")
                    },
                },
            ),
            UiCommand::SetSliceModeEnabled(enabled) => Some(
                CommandReportSpec {
                    title: literal("Slice Mode"),
                    summary: if enabled {
                        literal("Enabled")
                    } else {
                        literal("Disabled")
                    },
                },
            ),
            UiCommand::SetSlicePreviewDetached(detached) => Some(
                CommandReportSpec {
                    title: literal("Slice Preview"),
                    summary: if detached {
                        literal("Detached")
                    } else {
                        literal("Docked")
                    },
                },
            ),
            UiCommand::NewProject => Some(
                CommandReportSpec {
                    title: literal("Create Project"),
                    summary: literal("Untitled project"),
                },
            ),
            UiCommand::CreateBrowserProject { name } => Some(
                CommandReportSpec {
                    title: literal("Create Project"),
                    summary: verbatim(name),
                },
            ),
            UiCommand::OpenProject => Some(
                CommandReportSpec {
                    title: literal("Open Project"),
                    summary: literal("Choose one or more files"),
                },
            ),
            UiCommand::ActivateTrackedProject(project) => Some(
                CommandReportSpec {
                    title: literal("Activate Project"),
                    summary: project.spec_name(),
                },
            ),
            UiCommand::RemoveTrackedProject(project) => Some(
                CommandReportSpec {
                    title: literal("Remove Project"),
                    summary: project.spec_name(),
                },
            ),
            UiCommand::ShowProjectInFileManager => Some(
                CommandReportSpec {
                    title: literal("Show Project"),
                    summary: literal("Open the containing folder"),
                },
            ),
            UiCommand::ImportOmfPaths(paths) => Some(
                CommandReportSpec {
                    title: literal("Import OMF"),
                    summary: literal1("%count% file(s)", named("count", Arg::Count(paths.len()))),
                },
            ),
            UiCommand::ImportDxfPathsInto(paths) => Some(
                CommandReportSpec {
                    title: literal("Import DXF"),
                    summary: literal1("%count% file(s)", named("count", Arg::Count(paths.len()))),
                },
            ),
            UiCommand::ImportTriangulationPaths(paths) => Some(
                CommandReportSpec {
                    title: literal("Import Triangulation"),
                    summary: literal1("%count% file(s)", named("count", Arg::Count(paths.len()))),
                },
            ),
            UiCommand::ImportPointCloudPaths(paths) => Some(
                CommandReportSpec {
                    title: literal("Import Point Cloud"),
                    summary: literal1("%count% file(s)", named("count", Arg::Count(paths.len()))),
                },
            ),
            UiCommand::ImportRasterPaths(paths) => Some(
                CommandReportSpec {
                    title: literal("Import Raster"),
                    summary: literal1("%count% file(s)", named("count", Arg::Count(paths.len()))),
                },
            ),
            UiCommand::LoadRaster(id) => Some(
                CommandReportSpec {
                    title: literal("Load Raster"),
                    summary: only(Arg::Raster(id)),
                },
            ),
            UiCommand::UnloadRaster(id) => Some(
                CommandReportSpec {
                    title: literal("Unload Raster"),
                    summary: only(Arg::Raster(id)),
                },
            ),
            UiCommand::ToggleRasterLocked(id) => Some(
                CommandReportSpec {
                    title: literal("Set Raster Lock"),
                    summary: only(Arg::Raster(id)),
                },
            ),
            UiCommand::RemoveRaster(id) => Some(
                CommandReportSpec {
                    title: literal("Remove Raster"),
                    summary: only(Arg::Raster(id)),
                },
            ),
            UiCommand::DrapeRaster(id) => Some(
                CommandReportSpec {
                    title: literal("Drape Raster"),
                    summary: only(Arg::Raster(id)),
                },
            ),
            UiCommand::UndrapeRaster(id) => Some(
                CommandReportSpec {
                    title: literal("Undrape Raster"),
                    summary: only(Arg::Raster(id)),
                },
            ),
            UiCommand::UndrapeAllRasters => Some(
                CommandReportSpec {
                    title: literal("Undrape Rasters"),
                    summary: literal("Removed from every triangulation"),
                },
            ),
            UiCommand::ClearActiveTriangulationRaster => Some(
                CommandReportSpec {
                    title: literal("Clear Raster"),
                    summary: literal("Removed from active triangulation"),
                },
            ),
            UiCommand::LoadPointCloud(id) => Some(
                CommandReportSpec {
                    title: literal("Load Point Cloud"),
                    summary: only(Arg::PointCloud(id)),
                },
            ),
            UiCommand::ClosePointCloud(id) => Some(
                CommandReportSpec {
                    title: literal("Unload Point Cloud"),
                    summary: only(Arg::PointCloud(id)),
                },
            ),
            UiCommand::RemovePointCloud(id) => Some(
                CommandReportSpec {
                    title: literal("Remove Point Cloud"),
                    summary: only(Arg::PointCloud(id)),
                },
            ),
            UiCommand::ImportCsvBlockModel { path, .. } => Some(
                CommandReportSpec {
                    title: literal("Import CSV Block Model"),
                    summary: verbatim(path),
                },
            ),
            UiCommand::ExportOmf => Some(
                CommandReportSpec {
                    title: literal("Export OMF"),
                    summary: literal("All open Incline Design data"),
                },
            ),
            UiCommand::ExportProjectDxf(id) => Some(
                CommandReportSpec {
                    title: literal("Export Project to DXF"),
                    summary: literal1("Project %id%", named("id", Arg::Number(id as u64))),
                },
            ),
            UiCommand::ExportViewportImage => Some(
                CommandReportSpec {
                    title: literal("Export Viewport Image"),
                    summary: literal("Choose a destination"),
                },
            ),
            UiCommand::ExportLayerDxf(id) => Some(
                CommandReportSpec {
                    title: literal("Export Layer to DXF"),
                    summary: only(Arg::Layer(id)),
                },
            ),
            UiCommand::ExportTriangulationAs(id, format) => Some(
                CommandReportSpec {
                    title: literal("Export Triangulation"),
                    summary: plain2("%id% · %format%", named("id", Arg::Triangulation(id)), named("format", Arg::Label(format))),
                },
            ),
            UiCommand::ExportBlockModelCsv(id) => Some(
                CommandReportSpec {
                    title: literal("Export Block Model CSV"),
                    summary: only(Arg::BlockModel(id)),
                },
            ),
            UiCommand::RequestExit => Some(
                CommandReportSpec {
                    title: literal("Exit Incline Design"),
                    summary: literal("Checking unsaved work"),
                },
            ),
            UiCommand::SaveAndExit => Some(
                CommandReportSpec {
                    title: literal("Save and Exit"),
                    summary: literal("Saving the current project"),
                },
            ),
            UiCommand::ExitWithoutSaving => Some(
                CommandReportSpec {
                    title: literal("Exit Without Saving"),
                    summary: literal("Discarding unsaved changes"),
                },
            ),
            UiCommand::CreateLayer { name } => Some(
                CommandReportSpec {
                    title: literal("Create Layer"),
                    summary: verbatim(name),
                },
            ),
            UiCommand::AddReserveField { name, .. } => Some(
                CommandReportSpec {
                    title: literal("Add Field"),
                    summary: verbatim(name),
                },
            ),
            UiCommand::DeleteReserveField(id) => Some(
                CommandReportSpec {
                    title: literal("Delete Field"),
                    summary: only(Arg::ReserveField(id)),
                },
            ),
            UiCommand::AddSolid { name, .. } => Some(
                CommandReportSpec {
                    title: literal("Add Solid"),
                    summary: verbatim(name),
                },
            ),
            UiCommand::DeleteSolid(id) => Some(
                CommandReportSpec {
                    title: literal("Delete Solid"),
                    summary: only(Arg::Solid(id)),
                },
            ),
            UiCommand::ResetBlastName(blast) => Some(
                CommandReportSpec {
                    title: literal("Reset Blast Name"),
                    summary: plain2("%solid% RL %bench%", named("solid", Arg::Solid(blast.solid)), named("bench", Arg::Fixed { value: Real64 { bits: blast.bench }, decimals: 2 })),
                },
            ),
            UiCommand::SaveSolidPreviewToProject => Some(
                CommandReportSpec {
                    title: literal("Save Solid to Project"),
                    summary: literal("From the Solids preview"),
                },
            ),
            UiCommand::AddDelayProduct { delay_ms, name, .. } => Some(
                CommandReportSpec {
                    title: literal("Add Product"),
                    summary: plain2("%delay% ms · %name%", named("delay", Arg::Number(delay_ms as u64)), named("name", Arg::Name(name))),
                },
            ),
            UiCommand::DeleteDelayProduct(id) => Some(
                CommandReportSpec {
                    title: literal("Delete Product"),
                    summary: only(Arg::Product(id)),
                },
            ),
            UiCommand::FinishPolyClose => Some(
                CommandReportSpec {
                    title: literal("Create Polyline"),
                    summary: literal("Finish closed polyline"),
                },
            ),
            UiCommand::CommitStrokeOpen => Some(
                CommandReportSpec {
                    title: literal("Create Line"),
                    summary: literal("Finish open polyline"),
                },
            ),
            UiCommand::CommitCircleTypedRadius => Some(
                CommandReportSpec {
                    title: literal("Create Circle"),
                    summary: literal("Use typed radius"),
                },
            ),
            UiCommand::ResetView => Some(
                CommandReportSpec {
                    title: literal("Reset View"),
                    summary: literal("Fit to extents"),
                },
            ),
            UiCommand::ToggleRotationCentre => Some(
                CommandReportSpec {
                    title: literal("Centre of Rotation"),
                    summary: literal("Fix or release the centre both views orbit about"),
                },
            ),
            UiCommand::SetTopologyWireframes(enabled) => Some(
                CommandReportSpec {
                    title: literal("Set Topology Wireframes"),
                    summary: if enabled {
                        literal("Shown")
                    } else {
                        literal("Hidden")
                    },
                },
            ),
            UiCommand::SetGridShown(shown) => Some(
                CommandReportSpec {
                    title: literal("Set Grid"),
                    summary: if shown {
                        literal("Shown")
                    } else {
                        literal("Hidden")
                    },
                },
            ),
            UiCommand::SetShowPoints(enabled) => Some(
                CommandReportSpec {
                    title: literal("Set Point Visibility"),
                    summary: if enabled {
                        literal("Shown")
                    } else {
                        literal("Hidden")
                    },
                },
            ),
            UiCommand::SetStandardView(view) => Some(
                CommandReportSpec {
                    title: literal("Set Standard View"),
                    summary: view.spec_label(),
                },
            ),
            UiCommand::SaveProject => Some(
                CommandReportSpec {
                    title: literal("Save Project"),
                    summary: literal("Current project"),
                },
            ),
            UiCommand::SaveAndReplaceProject => Some(
                CommandReportSpec {
                    title: literal("Save and Replace Project"),
                    summary: literal("Current project"),
                },
            ),
            UiCommand::DiscardAndReplaceProject => Some(
                CommandReportSpec {
                    title: literal("Discard and Replace Project"),
                    summary: literal("Current project"),
                },
            ),
            UiCommand::ConfirmLossyProjectSave => Some(
                CommandReportSpec {
                    title: literal("Confirm OMF Rewrite"),
                    summary: literal("Save despite unsupported content"),
                },
            ),
            UiCommand::SaveProjectAs(id) => Some(
                CommandReportSpec {
                    title: literal("Save Project As"),
                    summary: literal1("Project %id%", named("id", Arg::Number(id as u64))),
                },
            ),
            UiCommand::CloseProjectForce(id) => Some(
                CommandReportSpec {
                    title: literal("Close Project"),
                    summary: literal1("Project %id%", named("id", Arg::Number(id as u64))),
                },
            ),
            UiCommand::SaveAndCloseProject(id) => Some(
                CommandReportSpec {
                    title: literal("Save and Close Project"),
                    summary: literal1("Project %id%", named("id", Arg::Number(id as u64))),
                },
            ),
            UiCommand::DiscardProjectChanges(id) => Some(
                CommandReportSpec {
                    title: literal("Discard Project Changes"),
                    summary: literal1("Project %id%", named("id", Arg::Number(id as u64))),
                },
            ),
            UiCommand::DiscardLayerChanges(id) => Some(
                CommandReportSpec {
                    title: literal("Discard Layer Changes"),
                    summary: only(Arg::Layer(id)),
                },
            ),
            UiCommand::DeleteLayer(id) => Some(
                CommandReportSpec {
                    title: literal("Delete Layer"),
                    summary: only(Arg::Layer(id)),
                },
            ),
            UiCommand::DuplicateLayer(id) => Some(
                CommandReportSpec {
                    title: literal("Duplicate Layer"),
                    summary: only(Arg::Layer(id)),
                },
            ),
            UiCommand::RenameItem { target, new_name } => Some(
                CommandReportSpec {
                    title: literal1("Rename %kind%", named("kind", Arg::Words(target.kind_words()))),
                    summary: literal2("%target% to “%new_name%”", named("target", Arg::Target(target)), named("new_name", Arg::Name(new_name))),
                },
            ),
            UiCommand::ApplyChamfer => Some(
                CommandReportSpec {
                    title: literal("Chamfer"),
                    summary: literal("Apply to selection"),
                },
            ),
            UiCommand::ApplyBezier => Some(
                CommandReportSpec {
                    title: literal("Create Bezier Curve"),
                    summary: literal("Apply to selection"),
                },
            ),
            UiCommand::ApplyMoveDelta(delta) => Some(
                CommandReportSpec {
                    title: literal("Move Selection"),
                    summary: only(Arg::Point(delta)),
                },
            ),
            UiCommand::ApplyCollarRotation => Some(
                CommandReportSpec {
                    title: literal("Rotate Collar"),
                    summary: literal("Apply to selection"),
                },
            ),
            UiCommand::LoadLayer(id) => Some(
                CommandReportSpec {
                    title: literal("Load Layer"),
                    summary: only(Arg::Layer(id)),
                },
            ),
            UiCommand::UnloadLayer(id) => Some(
                CommandReportSpec {
                    title: literal("Unload Layer"),
                    summary: only(Arg::Layer(id)),
                },
            ),
            UiCommand::ToggleLayerLocked(id) => Some(
                CommandReportSpec {
                    title: literal("Set Layer Lock"),
                    summary: only(Arg::Layer(id)),
                },
            ),
            UiCommand::ToggleEntityLocked(handle) => Some(
                CommandReportSpec {
                    title: literal("Set Entity Lock"),
                    summary: only(Arg::Entity(handle)),
                },
            ),
            UiCommand::SetSectionVisible(section, visible) => Some(
                CommandReportSpec {
                    title: if visible {
                        literal("Reveal All")
                    } else {
                        literal("Hide All")
                    },
                    summary: literal1("%section% section", named("section", Arg::Words(section.words()))),
                },
            ),
            UiCommand::SetSectionLocked(section, locked) => Some(
                CommandReportSpec {
                    title: if locked {
                        literal("Lock All")
                    } else {
                        literal("Unlock All")
                    },
                    summary: literal1("%section% section", named("section", Arg::Words(section.words()))),
                },
            ),
            UiCommand::SelectAllObjectsInLayer(id) => Some(
                CommandReportSpec {
                    title: literal("Select Layer Objects"),
                    summary: only(Arg::Layer(id)),
                },
            ),
            UiCommand::ActivateTriangulation(id) => Some(
                CommandReportSpec {
                    title: literal("Set Current Triangulation"),
                    summary: only(Arg::Triangulation(id)),
                },
            ),
            UiCommand::CloseTriangulation(id) => Some(
                CommandReportSpec {
                    title: literal("Unload Triangulation"),
                    summary: only(Arg::Triangulation(id)),
                },
            ),
            UiCommand::BatchSetObjectColor(ids, _) => Some(
                CommandReportSpec {
                    title: literal("Set Object Colour"),
                    summary: literal1("%count% object(s)", named("count", Arg::Count(ids.len()))),
                },
            ),
            UiCommand::BatchSetPolylineClosed(ids, closed) => Some(
                CommandReportSpec {
                    title: literal("Set Polyline Closed"),
                    summary: literal2("%count% object(s) · %closed%", named("count", Arg::Count(ids.len())), named("closed", Arg::Flag(closed))),
                },
            ),
            UiCommand::BatchSetObjectFill(ids, _) => Some(
                CommandReportSpec {
                    title: literal("Set Object Fill"),
                    summary: literal1("%count% object(s)", named("count", Arg::Count(ids.len()))),
                },
            ),
            UiCommand::BatchSetPolylineLineWeight(ids, weight) => Some(
                CommandReportSpec {
                    title: literal("Set Line Weight"),
                    summary: literal2("%count% object(s) · %weight%", named("count", Arg::Count(ids.len())), named("weight", Arg::Single(weight))),
                },
            ),
            UiCommand::MoveObjectsToLayer { object_ids, target_layer, copy } => Some(
                CommandReportSpec {
                    title: if copy {
                        literal("Copy Objects to Layer")
                    } else {
                        literal("Move Objects to Layer")
                    },
                    summary: literal2("%count% object(s) · %layer%", named("count", Arg::Count(object_ids.len())), named("layer", Arg::Layer(target_layer))),
                },
            ),
            UiCommand::BatchSetAxisValue(ids, axis, value) => Some(
                CommandReportSpec {
                    title: literal("Move to Axis Value"),
                    summary: literal3("%count% object(s) · %axis% %value%", named("count", Arg::Count(ids.len())), named("axis", Arg::AxisName(axis)), named("value", Arg::Real(value))),
                },
            ),
            UiCommand::CommitTextEdit { id, .. } => Some(
                CommandReportSpec {
                    title: literal("Edit Text"),
                    summary: only(Arg::Object(id)),
                },
            ),
            UiCommand::SetTriangulationColor(id, _) => Some(
                CommandReportSpec {
                    title: literal("Set Triangulation Colour"),
                    summary: only(Arg::Triangulation(id)),
                },
            ),
            UiCommand::LoadTriangulation(id) => Some(
                CommandReportSpec {
                    title: literal("Load Triangulation"),
                    summary: only(Arg::Triangulation(id)),
                },
            ),
            UiCommand::LoadBlockModel(id) => Some(
                CommandReportSpec {
                    title: literal("Load Block Model"),
                    summary: only(Arg::BlockModel(id)),
                },
            ),
            UiCommand::CloseBlockModel(id) => Some(
                CommandReportSpec {
                    title: literal("Unload Block Model"),
                    summary: only(Arg::BlockModel(id)),
                },
            ),
            UiCommand::RemoveBlockModel(id) => Some(
                CommandReportSpec {
                    title: literal("Remove Block Model"),
                    summary: only(Arg::BlockModel(id)),
                },
            ),
            UiCommand::SetBlockModelColorVariable { variable, .. } => Some(
                CommandReportSpec {
                    title: literal("Set Block Model Variable"),
                    summary: verbatim(variable),
                },
            ),
            UiCommand::ImportDrillHole(source) => Some(
                CommandReportSpec {
                    title: literal("Import Drillholes"),
                    summary: only(Arg::Label(source)),
                },
            ),
            UiCommand::CreateDrillPattern { name, collars, .. } => Some(
                CommandReportSpec {
                    title: literal("Create Drill Pattern"),
                    summary: literal2("%name% · %count% holes", named("name", Arg::Name(name)), named("count", Arg::Count(collars.len()))),
                },
            ),
            UiCommand::LoadDrillHole(id) => Some(
                CommandReportSpec {
                    title: literal("Load Drillholes"),
                    summary: only(Arg::DrillHole(id)),
                },
            ),
            UiCommand::CloseDrillHole(id) => Some(
                CommandReportSpec {
                    title: literal("Unload Drillholes"),
                    summary: only(Arg::DrillHole(id)),
                },
            ),
            UiCommand::RemoveDrillHole(id) => Some(
                CommandReportSpec {
                    title: literal("Remove Drillholes"),
                    summary: only(Arg::DrillHole(id)),
                },
            ),
            UiCommand::SetDrillHoleColorField { field, .. } => Some(
                CommandReportSpec {
                    title: literal("Colour Drillholes"),
                    summary: match field {
                        Some(field) => verbatim(field),
                        None => literal("Uniform white"),
                    },
                },
            ),
            UiCommand::SetDrillHoleColorPreset { preset, .. } => Some(
                CommandReportSpec {
                    title: literal("Set Drillhole Colour Preset"),
                    summary: only(Arg::Label(preset)),
                },
            ),
            UiCommand::ExecuteCreateBlockModel { name, .. } => Some(
                CommandReportSpec {
                    title: literal("Create Block Model"),
                    summary: verbatim(name),
                },
            ),
            UiCommand::ExecuteCreateOreTriangulation { name, .. } => Some(
                CommandReportSpec {
                    title: literal("Create Ore Triangulation"),
                    summary: verbatim(name),
                },
            ),
            UiCommand::ExportPlotSheet => Some(
                CommandReportSpec {
                    title: literal("Export Engineering Drawing"),
                    summary: literal("Choose a destination"),
                },
            ),
            UiCommand::RemoveTriangulation(id) => Some(
                CommandReportSpec {
                    title: literal("Remove Triangulation"),
                    summary: only(Arg::Triangulation(id)),
                },
            ),
            UiCommand::HideSelection => Some(
                CommandReportSpec {
                    title: literal("Hide Selection"),
                    summary: literal("Selected scene elements"),
                },
            ),
            UiCommand::ZoomToExtents => Some(
                CommandReportSpec {
                    title: literal("Zoom to Extents"),
                    summary: literal("Preserve view angle"),
                },
            ),
            UiCommand::BeginOffsetPick { object_ids, .. } => Some(
                CommandReportSpec {
                    title: literal("Offset"),
                    summary: literal1("%count% object(s)", named("count", Arg::Count(object_ids.len()))),
                },
            ),
            UiCommand::RelimitLineResize { source_id, .. } => Some(
                CommandReportSpec {
                    title: literal("Relimit Line"),
                    summary: only(Arg::Object(source_id)),
                },
            ),
            UiCommand::CommitBatterBerm => Some(
                CommandReportSpec {
                    title: literal("Create Batter Berm"),
                    summary: literal("Apply generated rings"),
                },
            ),
            UiCommand::InsertPointsAtIntersections => Some(
                CommandReportSpec {
                    title: literal("Insert Intersection Points"),
                    summary: literal("Selected polylines"),
                },
            ),
            UiCommand::ApplyObjectEdit { object, .. } => Some(
                CommandReportSpec {
                    title: literal("Edit Object"),
                    summary: only(Arg::KindName(object.spec_kind())),
                },
            ),
            UiCommand::InsertPointsAtElevation { object_ids, elevation } => Some(
                CommandReportSpec {
                    title: literal("Insert Points at Elevation"),
                    summary: literal2("%count% object(s) · Z %elevation%", named("count", Arg::Count(object_ids.len())), named("elevation", Arg::Real(elevation))),
                },
            ),
            UiCommand::ExecuteCreateTriangulation { name, object_ids, .. } => Some(
                CommandReportSpec {
                    title: literal("Create Triangulation"),
                    summary: literal2("%name% · %count% object(s)", named("name", Arg::Name(name)), named("count", Arg::Count(object_ids.len()))),
                },
            ),
            UiCommand::ExecuteCreateTriangulationWithWeld { name, object_ids, .. } => Some(
                CommandReportSpec {
                    title: literal("Create Triangulation"),
                    summary: literal2("%name% · %count% object(s)", named("name", Arg::Name(name)), named("count", Arg::Count(object_ids.len()))),
                },
            ),
            UiCommand::ExecuteCreateTriangulationUpperSurface { name, object_ids, .. } => Some(
                CommandReportSpec {
                    title: literal("Create Triangulation"),
                    summary: literal2("%name% · %count% object(s)", named("name", Arg::Name(name)), named("count", Arg::Count(object_ids.len()))),
                },
            ),
            UiCommand::ExecutePointCloudTin { cloud_id, .. } => Some(
                CommandReportSpec {
                    title: literal("Create Point Cloud TIN"),
                    summary: only(Arg::PointCloud(cloud_id)),
                },
            ),
            UiCommand::ConfirmDeleteSelection => Some(
                CommandReportSpec {
                    title: literal("Delete Selection"),
                    summary: literal("Selected objects"),
                },
            ),
            UiCommand::ExecuteCutTriangulationByPolyline { name, .. } => Some(
                CommandReportSpec {
                    title: literal("Cut Triangulation by Polyline"),
                    summary: verbatim(name),
                },
            ),
            UiCommand::ExecuteCutTriangulationByZ { name, z_min, z_max, .. } => Some(
                CommandReportSpec {
                    title: literal("Cut Triangulation by Z"),
                    summary: literal3("%name% · %z_min% to %z_max%", named("name", Arg::Name(name)), named("z_min", Arg::Real(z_min)), named("z_max", Arg::Real(z_max))),
                },
            ),
            UiCommand::ExecuteCutTriangulationBySurface { name, .. } => Some(
                CommandReportSpec {
                    title: literal("Trim Triangulation to Surface"),
                    summary: verbatim(name),
                },
            ),
            UiCommand::ExecuteBuildSolidFromSurfaces { name, .. } => Some(
                CommandReportSpec {
                    title: literal("Build Solid from Surfaces"),
                    summary: verbatim(name),
                },
            ),
            UiCommand::ExecuteCutTopologyByPitShell { name, .. } => Some(
                CommandReportSpec {
                    title: literal("Cut Topology to Pit Shell"),
                    summary: verbatim(name),
                },
            ),
            UiCommand::ExecuteIncludeSolidInTopology { name, .. } => Some(
                CommandReportSpec {
                    title: literal("Merge Shell into Topology"),
                    summary: verbatim(name),
                },
            ),
            UiCommand::Undo => Some(
                CommandReportSpec {
                    title: literal("Undo"),
                    summary: literal("Previous edit"),
                },
            ),
            UiCommand::Redo => Some(
                CommandReportSpec {
                    title: literal("Redo"),
                    summary: literal("Next edit"),
                },
            ),
            UiCommand::ExecuteContourTriangulation { major_interval, minor_interval, .. } => Some(
                CommandReportSpec {
                    title: literal("Generate Contours"),
                    summary: literal2("Major %major% · minor %minor%", named("major", Arg::Real(major_interval)), named("minor", Arg::Real(minor_interval))),
                },
            ),
            _ => None,
        }
    }

    /// Friendly activity-console metadata for meaningful user actions. Every
    /// command is either reported here or named as transient.
    #[verifier::rlimit(100)]
    #[verifier::spinoff_prover]
    pub fn console_report_spec(&self) -> (r: Option<CommandReportSpec>)
        ensures
            r == self.console_report(),
            r is None <==> self.is_transient(),
    {
        match self {
            UiCommand::SetActiveTool(_)
            | UiCommand::ToggleCreateDrillPattern
            | UiCommand::BeginDrillPatternShapePick
            | UiCommand::ClearSelection
            | UiCommand::CloseStartupDialog
            | UiCommand::CancelCloseProject
            | UiCommand::CancelExit
            | UiCommand::CancelProjectReplacement
            | UiCommand::CancelLossyProjectSave
            | UiCommand::CancelOffset
            | UiCommand::ConfirmDrapeSelection
            | UiCommand::CancelRelimit
            | UiCommand::OpenPreferences
            | UiCommand::ApplyPreferences(_)
            | UiCommand::SetPlanningPage(_)
            | UiCommand::SetPlanningSubpage(_)
            | UiCommand::ReorderWorkspace { .. }
            | UiCommand::ToggleViewOption(_)
            | UiCommand::SelectBlockModel(_)
            | UiCommand::SetInitiation { .. }
            | UiCommand::BeginRenameItem(_)
            | UiCommand::PreviewMoveDelta(_)
            | UiCommand::PreviewCollarRotation(_)
            | UiCommand::CancelChamfer
            | UiCommand::CancelBezier
            | UiCommand::CancelMoveDelta
            | UiCommand::CancelCollarRotation
            | UiCommand::CancelTextEdit
            | UiCommand::CloseCanvasContextMenu
            | UiCommand::OpenCreateBlockModel(_)
            | UiCommand::OpenCreateOreTriangulation
            | UiCommand::OpenOffsetDialog
            | UiCommand::OpenRelimitDialog
            | UiCommand::OpenBatterBermDialog
            | UiCommand::CancelBatterBerm
            | UiCommand::OpenCreateTriangulation
            | UiCommand::OpenMoveToAxisDialog(_)
            | UiCommand::OpenInsertPointAtElevationDialog
            | UiCommand::OpenObjectEditDialog(_)
            | UiCommand::OpenPointCloudTin
            | UiCommand::OpenCutTriangulationByPolyline
            | UiCommand::BeginCutPolyPick
            | UiCommand::OpenCutTriangulationByZ
            | UiCommand::OpenCutTriangulationBySurface
            | UiCommand::OpenBuildSolidFromSurfaces
            | UiCommand::OpenCutTopologyByPitShell
            | UiCommand::OpenIncludeSolidInTopology
            | UiCommand::OpenContourTriangulation
            | UiCommand::OpenPlotDialog
            | UiCommand::FitPlotScaleToData
            | UiCommand::SetBlockModelColorTransfer { .. }
            | UiCommand::ResetBlockModelColorTransfer { .. }
            | UiCommand::SetDrillHoleColorStops { .. }
            | UiCommand::SetDrillHoleCategoryColors { .. }
            | UiCommand::OpenDrillHoleColorDialog(_)
            | UiCommand::SetBlockModelSlice { .. }
            | UiCommand::ChooseImportSourceFiles(_)
            | UiCommand::RequestDeleteLayer(_)
            | UiCommand::RequestDeleteItem(_)
            | UiCommand::SetReserveMapping { .. }
            | UiCommand::SetReserveModelIncluded { .. }
            | UiCommand::UpdateSolid { .. }
            | UiCommand::ResetSolidPreviewView
            | UiCommand::RecomputeReserveStats(_)
            | UiCommand::RunPlanningStage(_)
            | UiCommand::RunAllPlanningStages
            | UiCommand::CancelPlanningRun
            | UiCommand::ClearBrowserImportSelection(_)
            | UiCommand::RequestDiscardLayerChanges(_)
            | UiCommand::SelectBlast(_)
            | UiCommand::SelectDigBlock(_)
            | UiCommand::CopyDigStrips
            | UiCommand::PasteDigStrips => None,
            UiCommand::SetLanguage(choice) => Some(
                CommandReportSpec {
                    title: literal("Language"),
                    summary: only(Arg::Endonym(*choice)),
                },
            ),
            UiCommand::SetFlyModeEnabled(enabled) => Some(
                CommandReportSpec {
                    title: literal("Fly Mode"),
                    summary: if *enabled {
                        literal("Enabled")
                    } else {
                        literal("Disabled")
                    },
                },
            ),
            UiCommand::SetSliceModeEnabled(enabled) => Some(
                CommandReportSpec {
                    title: literal("Slice Mode"),
                    summary: if *enabled {
                        literal("Enabled")
                    } else {
                        literal("Disabled")
                    },
                },
            ),
            UiCommand::SetSlicePreviewDetached(detached) => Some(
                CommandReportSpec {
                    title: literal("Slice Preview"),
                    summary: if *detached {
                        literal("Detached")
                    } else {
                        literal("Docked")
                    },
                },
            ),
            UiCommand::NewProject => Some(
                CommandReportSpec {
                    title: literal("Create Project"),
                    summary: literal("Untitled project"),
                },
            ),
            UiCommand::CreateBrowserProject { name } => Some(
                CommandReportSpec {
                    title: literal("Create Project"),
                    summary: verbatim(name.clone()),
                },
            ),
            UiCommand::OpenProject => Some(
                CommandReportSpec {
                    title: literal("Open Project"),
                    summary: literal("Choose one or more files"),
                },
            ),
            UiCommand::ActivateTrackedProject(project) => Some(
                CommandReportSpec {
                    title: literal("Activate Project"),
                    summary: project.name(),
                },
            ),
            UiCommand::RemoveTrackedProject(project) => Some(
                CommandReportSpec {
                    title: literal("Remove Project"),
                    summary: project.name(),
                },
            ),
            UiCommand::ShowProjectInFileManager => Some(
                CommandReportSpec {
                    title: literal("Show Project"),
                    summary: literal("Open the containing folder"),
                },
            ),
            UiCommand::ImportOmfPaths(paths) => Some(
                CommandReportSpec {
                    title: literal("Import OMF"),
                    summary: literal1("%count% file(s)", named("count", Arg::Count(paths.len()))),
                },
            ),
            UiCommand::ImportDxfPathsInto(paths) => Some(
                CommandReportSpec {
                    title: literal("Import DXF"),
                    summary: literal1("%count% file(s)", named("count", Arg::Count(paths.len()))),
                },
            ),
            UiCommand::ImportTriangulationPaths(paths) => Some(
                CommandReportSpec {
                    title: literal("Import Triangulation"),
                    summary: literal1("%count% file(s)", named("count", Arg::Count(paths.len()))),
                },
            ),
            UiCommand::ImportPointCloudPaths(paths) => Some(
                CommandReportSpec {
                    title: literal("Import Point Cloud"),
                    summary: literal1("%count% file(s)", named("count", Arg::Count(paths.len()))),
                },
            ),
            UiCommand::ImportRasterPaths(paths) => Some(
                CommandReportSpec {
                    title: literal("Import Raster"),
                    summary: literal1("%count% file(s)", named("count", Arg::Count(paths.len()))),
                },
            ),
            UiCommand::LoadRaster(id) => Some(
                CommandReportSpec {
                    title: literal("Load Raster"),
                    summary: only(Arg::Raster(*id)),
                },
            ),
            UiCommand::UnloadRaster(id) => Some(
                CommandReportSpec {
                    title: literal("Unload Raster"),
                    summary: only(Arg::Raster(*id)),
                },
            ),
            UiCommand::ToggleRasterLocked(id) => Some(
                CommandReportSpec {
                    title: literal("Set Raster Lock"),
                    summary: only(Arg::Raster(*id)),
                },
            ),
            UiCommand::RemoveRaster(id) => Some(
                CommandReportSpec {
                    title: literal("Remove Raster"),
                    summary: only(Arg::Raster(*id)),
                },
            ),
            UiCommand::DrapeRaster(id) => Some(
                CommandReportSpec {
                    title: literal("Drape Raster"),
                    summary: only(Arg::Raster(*id)),
                },
            ),
            UiCommand::UndrapeRaster(id) => Some(
                CommandReportSpec {
                    title: literal("Undrape Raster"),
                    summary: only(Arg::Raster(*id)),
                },
            ),
            UiCommand::UndrapeAllRasters => Some(
                CommandReportSpec {
                    title: literal("Undrape Rasters"),
                    summary: literal("Removed from every triangulation"),
                },
            ),
            UiCommand::ClearActiveTriangulationRaster => Some(
                CommandReportSpec {
                    title: literal("Clear Raster"),
                    summary: literal("Removed from active triangulation"),
                },
            ),
            UiCommand::LoadPointCloud(id) => Some(
                CommandReportSpec {
                    title: literal("Load Point Cloud"),
                    summary: only(Arg::PointCloud(*id)),
                },
            ),
            UiCommand::ClosePointCloud(id) => Some(
                CommandReportSpec {
                    title: literal("Unload Point Cloud"),
                    summary: only(Arg::PointCloud(*id)),
                },
            ),
            UiCommand::RemovePointCloud(id) => Some(
                CommandReportSpec {
                    title: literal("Remove Point Cloud"),
                    summary: only(Arg::PointCloud(*id)),
                },
            ),
            UiCommand::ImportCsvBlockModel { path, .. } => Some(
                CommandReportSpec {
                    title: literal("Import CSV Block Model"),
                    summary: verbatim(path.clone()),
                },
            ),
            UiCommand::ExportOmf => Some(
                CommandReportSpec {
                    title: literal("Export OMF"),
                    summary: literal("All open Incline Design data"),
                },
            ),
            UiCommand::ExportProjectDxf(id) => Some(
                CommandReportSpec {
                    title: literal("Export Project to DXF"),
                    summary: literal1("Project %id%", named("id", Arg::Number(*id as u64))),
                },
            ),
            UiCommand::ExportViewportImage => Some(
                CommandReportSpec {
                    title: literal("Export Viewport Image"),
                    summary: literal("Choose a destination"),
                },
            ),
            UiCommand::ExportLayerDxf(id) => Some(
                CommandReportSpec {
                    title: literal("Export Layer to DXF"),
                    summary: only(Arg::Layer(*id)),
                },
            ),
            UiCommand::ExportTriangulationAs(id, format) => Some(
                CommandReportSpec {
                    title: literal("Export Triangulation"),
                    summary: plain2("%id% · %format%", named("id", Arg::Triangulation(*id)), named("format", Arg::Label(*format))),
                },
            ),
            UiCommand::ExportBlockModelCsv(id) => Some(
                CommandReportSpec {
                    title: literal("Export Block Model CSV"),
                    summary: only(Arg::BlockModel(*id)),
                },
            ),
            UiCommand::RequestExit => Some(
                CommandReportSpec {
                    title: literal("Exit Incline Design"),
                    summary: literal("Checking unsaved work"),
                },
            ),
            UiCommand::SaveAndExit => Some(
                CommandReportSpec {
                    title: literal("Save and Exit"),
                    summary: literal("Saving the current project"),
                },
            ),
            UiCommand::ExitWithoutSaving => Some(
                CommandReportSpec {
                    title: literal("Exit Without Saving"),
                    summary: literal("Discarding unsaved changes"),
                },
            ),
            UiCommand::CreateLayer { name } => Some(
                CommandReportSpec {
                    title: literal("Create Layer"),
                    summary: verbatim(name.clone()),
                },
            ),
            UiCommand::AddReserveField { name, .. } => Some(
                CommandReportSpec {
                    title: literal("Add Field"),
                    summary: verbatim(name.clone()),
                },
            ),
            UiCommand::DeleteReserveField(id) => Some(
                CommandReportSpec {
                    title: literal("Delete Field"),
                    summary: only(Arg::ReserveField(*id)),
                },
            ),
            UiCommand::AddSolid { name, .. } => Some(
                CommandReportSpec {
                    title: literal("Add Solid"),
                    summary: verbatim(name.clone()),
                },
            ),
            UiCommand::DeleteSolid(id) => Some(
                CommandReportSpec {
                    title: literal("Delete Solid"),
                    summary: only(Arg::Solid(*id)),
                },
            ),
            UiCommand::ResetBlastName(blast) => Some(
                CommandReportSpec {
                    title: literal("Reset Blast Name"),
                    summary: plain2("%solid% RL %bench%", named("solid", Arg::Solid(blast.solid)), named("bench", Arg::Fixed { value: Real64 { bits: blast.bench }, decimals: 2 })),
                },
            ),
            UiCommand::SaveSolidPreviewToProject => Some(
                CommandReportSpec {
                    title: literal("Save Solid to Project"),
                    summary: literal("From the Solids preview"),
                },
            ),
            UiCommand::AddDelayProduct { delay_ms, name, .. } => Some(
                CommandReportSpec {
                    title: literal("Add Product"),
                    summary: plain2("%delay% ms · %name%", named("delay", Arg::Number(*delay_ms as u64)), named("name", Arg::Name(name.clone()))),
                },
            ),
            UiCommand::DeleteDelayProduct(id) => Some(
                CommandReportSpec {
                    title: literal("Delete Product"),
                    summary: only(Arg::Product(*id)),
                },
            ),
            UiCommand::FinishPolyClose => Some(
                CommandReportSpec {
                    title: literal("Create Polyline"),
                    summary: literal("Finish closed polyline"),
                },
            ),
            UiCommand::CommitStrokeOpen => Some(
                CommandReportSpec {
                    title: literal("Create Line"),
                    summary: literal("Finish open polyline"),
                },
            ),
            UiCommand::CommitCircleTypedRadius => Some(
                CommandReportSpec {
                    title: literal("Create Circle"),
                    summary: literal("Use typed radius"),
                },
            ),
            UiCommand::ResetView => Some(
                CommandReportSpec {
                    title: literal("Reset View"),
                    summary: literal("Fit to extents"),
                },
            ),
            UiCommand::ToggleRotationCentre => Some(
                CommandReportSpec {
                    title: literal("Centre of Rotation"),
                    summary: literal("Fix or release the centre both views orbit about"),
                },
            ),
            UiCommand::SetTopologyWireframes(enabled) => Some(
                CommandReportSpec {
                    title: literal("Set Topology Wireframes"),
                    summary: if *enabled {
                        literal("Shown")
                    } else {
                        literal("Hidden")
                    },
                },
            ),
            UiCommand::SetGridShown(shown) => Some(
                CommandReportSpec {
                    title: literal("Set Grid"),
                    summary: if *shown {
                        literal("Shown")
                    } else {
                        literal("Hidden")
                    },
                },
            ),
            UiCommand::SetShowPoints(enabled) => Some(
                CommandReportSpec {
                    title: literal("Set Point Visibility"),
                    summary: if *enabled {
                        literal("Shown")
                    } else {
                        literal("Hidden")
                    },
                },
            ),
            UiCommand::SetStandardView(view) => Some(
                CommandReportSpec {
                    title: literal("Set Standard View"),
                    summary: view.label(),
                },
            ),
            UiCommand::SaveProject => Some(
                CommandReportSpec {
                    title: literal("Save Project"),
                    summary: literal("Current project"),
                },
            ),
            UiCommand::SaveAndReplaceProject => Some(
                CommandReportSpec {
                    title: literal("Save and Replace Project"),
                    summary: literal("Current project"),
                },
            ),
            UiCommand::DiscardAndReplaceProject => Some(
                CommandReportSpec {
                    title: literal("Discard and Replace Project"),
                    summary: literal("Current project"),
                },
            ),
            UiCommand::ConfirmLossyProjectSave => Some(
                CommandReportSpec {
                    title: literal("Confirm OMF Rewrite"),
                    summary: literal("Save despite unsupported content"),
                },
            ),
            UiCommand::SaveProjectAs(id) => Some(
                CommandReportSpec {
                    title: literal("Save Project As"),
                    summary: literal1("Project %id%", named("id", Arg::Number(*id as u64))),
                },
            ),
            UiCommand::CloseProjectForce(id) => Some(
                CommandReportSpec {
                    title: literal("Close Project"),
                    summary: literal1("Project %id%", named("id", Arg::Number(*id as u64))),
                },
            ),
            UiCommand::SaveAndCloseProject(id) => Some(
                CommandReportSpec {
                    title: literal("Save and Close Project"),
                    summary: literal1("Project %id%", named("id", Arg::Number(*id as u64))),
                },
            ),
            UiCommand::DiscardProjectChanges(id) => Some(
                CommandReportSpec {
                    title: literal("Discard Project Changes"),
                    summary: literal1("Project %id%", named("id", Arg::Number(*id as u64))),
                },
            ),
            UiCommand::DiscardLayerChanges(id) => Some(
                CommandReportSpec {
                    title: literal("Discard Layer Changes"),
                    summary: only(Arg::Layer(*id)),
                },
            ),
            UiCommand::DeleteLayer(id) => Some(
                CommandReportSpec {
                    title: literal("Delete Layer"),
                    summary: only(Arg::Layer(*id)),
                },
            ),
            UiCommand::DuplicateLayer(id) => Some(
                CommandReportSpec {
                    title: literal("Duplicate Layer"),
                    summary: only(Arg::Layer(*id)),
                },
            ),
            UiCommand::RenameItem { target, new_name } => Some(
                CommandReportSpec {
                    title: literal1("Rename %kind%", named("kind", Arg::Words(target.kind_heading()))),
                    summary: literal2("%target% to “%new_name%”", named("target", Arg::Target(*target)), named("new_name", Arg::Name(new_name.clone()))),
                },
            ),
            UiCommand::ApplyChamfer => Some(
                CommandReportSpec {
                    title: literal("Chamfer"),
                    summary: literal("Apply to selection"),
                },
            ),
            UiCommand::ApplyBezier => Some(
                CommandReportSpec {
                    title: literal("Create Bezier Curve"),
                    summary: literal("Apply to selection"),
                },
            ),
            UiCommand::ApplyMoveDelta(delta) => Some(
                CommandReportSpec {
                    title: literal("Move Selection"),
                    summary: only(Arg::Point(*delta)),
                },
            ),
            UiCommand::ApplyCollarRotation => Some(
                CommandReportSpec {
                    title: literal("Rotate Collar"),
                    summary: literal("Apply to selection"),
                },
            ),
            UiCommand::LoadLayer(id) => Some(
                CommandReportSpec {
                    title: literal("Load Layer"),
                    summary: only(Arg::Layer(*id)),
                },
            ),
            UiCommand::UnloadLayer(id) => Some(
                CommandReportSpec {
                    title: literal("Unload Layer"),
                    summary: only(Arg::Layer(*id)),
                },
            ),
            UiCommand::ToggleLayerLocked(id) => Some(
                CommandReportSpec {
                    title: literal("Set Layer Lock"),
                    summary: only(Arg::Layer(*id)),
                },
            ),
            UiCommand::ToggleEntityLocked(handle) => Some(
                CommandReportSpec {
                    title: literal("Set Entity Lock"),
                    summary: only(Arg::Entity(*handle)),
                },
            ),
            UiCommand::SetSectionVisible(section, visible) => Some(
                CommandReportSpec {
                    title: if *visible {
                        literal("Reveal All")
                    } else {
                        literal("Hide All")
                    },
                    summary: literal1("%section% section", named("section", Arg::Words(section.heading()))),
                },
            ),
            UiCommand::SetSectionLocked(section, locked) => Some(
                CommandReportSpec {
                    title: if *locked {
                        literal("Lock All")
                    } else {
                        literal("Unlock All")
                    },
                    summary: literal1("%section% section", named("section", Arg::Words(section.heading()))),
                },
            ),
            UiCommand::SelectAllObjectsInLayer(id) => Some(
                CommandReportSpec {
                    title: literal("Select Layer Objects"),
                    summary: only(Arg::Layer(*id)),
                },
            ),
            UiCommand::ActivateTriangulation(id) => Some(
                CommandReportSpec {
                    title: literal("Set Current Triangulation"),
                    summary: only(Arg::Triangulation(*id)),
                },
            ),
            UiCommand::CloseTriangulation(id) => Some(
                CommandReportSpec {
                    title: literal("Unload Triangulation"),
                    summary: only(Arg::Triangulation(*id)),
                },
            ),
            UiCommand::BatchSetObjectColor(ids, _) => Some(
                CommandReportSpec {
                    title: literal("Set Object Colour"),
                    summary: literal1("%count% object(s)", named("count", Arg::Count(ids.len()))),
                },
            ),
            UiCommand::BatchSetPolylineClosed(ids, closed) => Some(
                CommandReportSpec {
                    title: literal("Set Polyline Closed"),
                    summary: literal2("%count% object(s) · %closed%", named("count", Arg::Count(ids.len())), named("closed", Arg::Flag(*closed))),
                },
            ),
            UiCommand::BatchSetObjectFill(ids, _) => Some(
                CommandReportSpec {
                    title: literal("Set Object Fill"),
                    summary: literal1("%count% object(s)", named("count", Arg::Count(ids.len()))),
                },
            ),
            UiCommand::BatchSetPolylineLineWeight(ids, weight) => Some(
                CommandReportSpec {
                    title: literal("Set Line Weight"),
                    summary: literal2("%count% object(s) · %weight%", named("count", Arg::Count(ids.len())), named("weight", Arg::Single(*weight))),
                },
            ),
            UiCommand::MoveObjectsToLayer { object_ids, target_layer, copy } => Some(
                CommandReportSpec {
                    title: if *copy {
                        literal("Copy Objects to Layer")
                    } else {
                        literal("Move Objects to Layer")
                    },
                    summary: literal2("%count% object(s) · %layer%", named("count", Arg::Count(object_ids.len())), named("layer", Arg::Layer(*target_layer))),
                },
            ),
            UiCommand::BatchSetAxisValue(ids, axis, value) => Some(
                CommandReportSpec {
                    title: literal("Move to Axis Value"),
                    summary: literal3("%count% object(s) · %axis% %value%", named("count", Arg::Count(ids.len())), named("axis", Arg::AxisName(*axis)), named("value", Arg::Real(*value))),
                },
            ),
            UiCommand::CommitTextEdit { id, .. } => Some(
                CommandReportSpec {
                    title: literal("Edit Text"),
                    summary: only(Arg::Object(*id)),
                },
            ),
            UiCommand::SetTriangulationColor(id, _) => Some(
                CommandReportSpec {
                    title: literal("Set Triangulation Colour"),
                    summary: only(Arg::Triangulation(*id)),
                },
            ),
            UiCommand::LoadTriangulation(id) => Some(
                CommandReportSpec {
                    title: literal("Load Triangulation"),
                    summary: only(Arg::Triangulation(*id)),
                },
            ),
            UiCommand::LoadBlockModel(id) => Some(
                CommandReportSpec {
                    title: literal("Load Block Model"),
                    summary: only(Arg::BlockModel(*id)),
                },
            ),
            UiCommand::CloseBlockModel(id) => Some(
                CommandReportSpec {
                    title: literal("Unload Block Model"),
                    summary: only(Arg::BlockModel(*id)),
                },
            ),
            UiCommand::RemoveBlockModel(id) => Some(
                CommandReportSpec {
                    title: literal("Remove Block Model"),
                    summary: only(Arg::BlockModel(*id)),
                },
            ),
            UiCommand::SetBlockModelColorVariable { variable, .. } => Some(
                CommandReportSpec {
                    title: literal("Set Block Model Variable"),
                    summary: verbatim(variable.clone()),
                },
            ),
            UiCommand::ImportDrillHole(source) => Some(
                CommandReportSpec {
                    title: literal("Import Drillholes"),
                    summary: only(Arg::Label(*source)),
                },
            ),
            UiCommand::CreateDrillPattern { name, collars, .. } => Some(
                CommandReportSpec {
                    title: literal("Create Drill Pattern"),
                    summary: literal2("%name% · %count% holes", named("name", Arg::Name(name.clone())), named("count", Arg::Count(collars.len()))),
                },
            ),
            UiCommand::LoadDrillHole(id) => Some(
                CommandReportSpec {
                    title: literal("Load Drillholes"),
                    summary: only(Arg::DrillHole(*id)),
                },
            ),
            UiCommand::CloseDrillHole(id) => Some(
                CommandReportSpec {
                    title: literal("Unload Drillholes"),
                    summary: only(Arg::DrillHole(*id)),
                },
            ),
            UiCommand::RemoveDrillHole(id) => Some(
                CommandReportSpec {
                    title: literal("Remove Drillholes"),
                    summary: only(Arg::DrillHole(*id)),
                },
            ),
            UiCommand::SetDrillHoleColorField { field, .. } => Some(
                CommandReportSpec {
                    title: literal("Colour Drillholes"),
                    summary: match field {
                        Some(field) => verbatim(field.clone()),
                        None => literal("Uniform white"),
                    },
                },
            ),
            UiCommand::SetDrillHoleColorPreset { preset, .. } => Some(
                CommandReportSpec {
                    title: literal("Set Drillhole Colour Preset"),
                    summary: only(Arg::Label(*preset)),
                },
            ),
            UiCommand::ExecuteCreateBlockModel { name, .. } => Some(
                CommandReportSpec {
                    title: literal("Create Block Model"),
                    summary: verbatim(name.clone()),
                },
            ),
            UiCommand::ExecuteCreateOreTriangulation { name, .. } => Some(
                CommandReportSpec {
                    title: literal("Create Ore Triangulation"),
                    summary: verbatim(name.clone()),
                },
            ),
            UiCommand::ExportPlotSheet => Some(
                CommandReportSpec {
                    title: literal("Export Engineering Drawing"),
                    summary: literal("Choose a destination"),
                },
            ),
            UiCommand::RemoveTriangulation(id) => Some(
                CommandReportSpec {
                    title: literal("Remove Triangulation"),
                    summary: only(Arg::Triangulation(*id)),
                },
            ),
            UiCommand::HideSelection => Some(
                CommandReportSpec {
                    title: literal("Hide Selection"),
                    summary: literal("Selected scene elements"),
                },
            ),
            UiCommand::ZoomToExtents => Some(
                CommandReportSpec {
                    title: literal("Zoom to Extents"),
                    summary: literal("Preserve view angle"),
                },
            ),
            UiCommand::BeginOffsetPick { object_ids, .. } => Some(
                CommandReportSpec {
                    title: literal("Offset"),
                    summary: literal1("%count% object(s)", named("count", Arg::Count(object_ids.len()))),
                },
            ),
            UiCommand::RelimitLineResize { source_id, .. } => Some(
                CommandReportSpec {
                    title: literal("Relimit Line"),
                    summary: only(Arg::Object(*source_id)),
                },
            ),
            UiCommand::CommitBatterBerm => Some(
                CommandReportSpec {
                    title: literal("Create Batter Berm"),
                    summary: literal("Apply generated rings"),
                },
            ),
            UiCommand::InsertPointsAtIntersections => Some(
                CommandReportSpec {
                    title: literal("Insert Intersection Points"),
                    summary: literal("Selected polylines"),
                },
            ),
            UiCommand::ApplyObjectEdit { object, .. } => Some(
                CommandReportSpec {
                    title: literal("Edit Object"),
                    summary: only(Arg::KindName(object.kind())),
                },
            ),
            UiCommand::InsertPointsAtElevation { object_ids, elevation } => Some(
                CommandReportSpec {
                    title: literal("Insert Points at Elevation"),
                    summary: literal2("%count% object(s) · Z %elevation%", named("count", Arg::Count(object_ids.len())), named("elevation", Arg::Real(*elevation))),
                },
            ),
            UiCommand::ExecuteCreateTriangulation { name, object_ids, .. } => Some(
                CommandReportSpec {
                    title: literal("Create Triangulation"),
                    summary: literal2("%name% · %count% object(s)", named("name", Arg::Name(name.clone())), named("count", Arg::Count(object_ids.len()))),
                },
            ),
            UiCommand::ExecuteCreateTriangulationWithWeld { name, object_ids, .. } => Some(
                CommandReportSpec {
                    title: literal("Create Triangulation"),
                    summary: literal2("%name% · %count% object(s)", named("name", Arg::Name(name.clone())), named("count", Arg::Count(object_ids.len()))),
                },
            ),
            UiCommand::ExecuteCreateTriangulationUpperSurface { name, object_ids, .. } => Some(
                CommandReportSpec {
                    title: literal("Create Triangulation"),
                    summary: literal2("%name% · %count% object(s)", named("name", Arg::Name(name.clone())), named("count", Arg::Count(object_ids.len()))),
                },
            ),
            UiCommand::ExecutePointCloudTin { cloud_id, .. } => Some(
                CommandReportSpec {
                    title: literal("Create Point Cloud TIN"),
                    summary: only(Arg::PointCloud(*cloud_id)),
                },
            ),
            UiCommand::ConfirmDeleteSelection => Some(
                CommandReportSpec {
                    title: literal("Delete Selection"),
                    summary: literal("Selected objects"),
                },
            ),
            UiCommand::ExecuteCutTriangulationByPolyline { name, .. } => Some(
                CommandReportSpec {
                    title: literal("Cut Triangulation by Polyline"),
                    summary: verbatim(name.clone()),
                },
            ),
            UiCommand::ExecuteCutTriangulationByZ { name, z_min, z_max, .. } => Some(
                CommandReportSpec {
                    title: literal("Cut Triangulation by Z"),
                    summary: literal3("%name% · %z_min% to %z_max%", named("name", Arg::Name(name.clone())), named("z_min", Arg::Real(*z_min)), named("z_max", Arg::Real(*z_max))),
                },
            ),
            UiCommand::ExecuteCutTriangulationBySurface { name, .. } => Some(
                CommandReportSpec {
                    title: literal("Trim Triangulation to Surface"),
                    summary: verbatim(name.clone()),
                },
            ),
            UiCommand::ExecuteBuildSolidFromSurfaces { name, .. } => Some(
                CommandReportSpec {
                    title: literal("Build Solid from Surfaces"),
                    summary: verbatim(name.clone()),
                },
            ),
            UiCommand::ExecuteCutTopologyByPitShell { name, .. } => Some(
                CommandReportSpec {
                    title: literal("Cut Topology to Pit Shell"),
                    summary: verbatim(name.clone()),
                },
            ),
            UiCommand::ExecuteIncludeSolidInTopology { name, .. } => Some(
                CommandReportSpec {
                    title: literal("Merge Shell into Topology"),
                    summary: verbatim(name.clone()),
                },
            ),
            UiCommand::Undo => Some(
                CommandReportSpec {
                    title: literal("Undo"),
                    summary: literal("Previous edit"),
                },
            ),
            UiCommand::Redo => Some(
                CommandReportSpec {
                    title: literal("Redo"),
                    summary: literal("Next edit"),
                },
            ),
            UiCommand::ExecuteContourTriangulation { major_interval, minor_interval, .. } => Some(
                CommandReportSpec {
                    title: literal("Generate Contours"),
                    summary: literal2("Major %major% · minor %minor%", named("major", Arg::Real(*major_interval)), named("minor", Arg::Real(*minor_interval))),
                },
            ),
        }
    }
}

/// Every deletion that a confirmation leads to is reported on the console.
pub proof fn removals_are_reported(target: RenameTarget)
    ensures
        !target.removal().is_transient(),
        target.removal().console_report() is Some,
{
}

/// The console titles what is done with projects by what was done, and reports each of it.
#[verifier::spinoff_prover]
pub proof fn projects_reports_have_their_title(command: UiCommand)
    ensures
        command is NewProject ==> (command.console_report() matches Some(report) && report.title == literal("Create Project")),
        command is CreateBrowserProject ==> (command.console_report() matches Some(report) && report.title == literal("Create Project")),
        command is OpenProject ==> (command.console_report() matches Some(report) && report.title == literal("Open Project")),
        command is ActivateTrackedProject ==> (command.console_report() matches Some(report) && report.title == literal("Activate Project")),
        command is RemoveTrackedProject ==> (command.console_report() matches Some(report) && report.title == literal("Remove Project")),
        command is ShowProjectInFileManager ==> (command.console_report() matches Some(report) && report.title == literal("Show Project")),
        command is RequestExit ==> (command.console_report() matches Some(report) && report.title == literal("Exit Incline Design")),
        command is SaveAndExit ==> (command.console_report() matches Some(report) && report.title == literal("Save and Exit")),
        command is ExitWithoutSaving ==> (command.console_report() matches Some(report) && report.title == literal("Exit Without Saving")),
        command is SaveProject ==> (command.console_report() matches Some(report) && report.title == literal("Save Project")),
        command is SaveAndReplaceProject ==> (command.console_report() matches Some(report) && report.title == literal("Save and Replace Project")),
        command is DiscardAndReplaceProject ==> (command.console_report() matches Some(report) && report.title == literal("Discard and Replace Project")),
        command is ConfirmLossyProjectSave ==> (command.console_report() matches Some(report) && report.title == literal("Confirm OMF Rewrite")),
        command is SaveProjectAs ==> (command.console_report() matches Some(report) && report.title == literal("Save Project As")),
        command is CloseProjectForce ==> (command.console_report() matches Some(report) && report.title == literal("Close Project")),
        command is SaveAndCloseProject ==> (command.console_report() matches Some(report) && report.title == literal("Save and Close Project")),
        command is DiscardProjectChanges ==> (command.console_report() matches Some(report) && report.title == literal("Discard Project Changes")),
        command is SetLanguage ==> (command.console_report() matches Some(report) && report.title == literal("Language")),
        command is Undo ==> (command.console_report() matches Some(report) && report.title == literal("Undo")),
        command is Redo ==> (command.console_report() matches Some(report) && report.title == literal("Redo")),
{
}

/// The console titles what is brought in and taken out by what was done, and reports each of it.
#[verifier::spinoff_prover]
pub proof fn files_reports_have_their_title(command: UiCommand)
    ensures
        command is ImportOmfPaths ==> (command.console_report() matches Some(report) && report.title == literal("Import OMF")),
        command is ImportDxfPathsInto ==> (command.console_report() matches Some(report) && report.title == literal("Import DXF")),
        command is ImportTriangulationPaths ==> (command.console_report() matches Some(report) && report.title == literal("Import Triangulation")),
        command is ImportPointCloudPaths ==> (command.console_report() matches Some(report) && report.title == literal("Import Point Cloud")),
        command is ImportRasterPaths ==> (command.console_report() matches Some(report) && report.title == literal("Import Raster")),
        command is ImportCsvBlockModel ==> (command.console_report() matches Some(report) && report.title == literal("Import CSV Block Model")),
        command is ImportDrillHole ==> (command.console_report() matches Some(report) && report.title == literal("Import Drillholes")),
        command is ExportOmf ==> (command.console_report() matches Some(report) && report.title == literal("Export OMF")),
        command is ExportProjectDxf ==> (command.console_report() matches Some(report) && report.title == literal("Export Project to DXF")),
        command is ExportViewportImage ==> (command.console_report() matches Some(report) && report.title == literal("Export Viewport Image")),
        command is ExportLayerDxf ==> (command.console_report() matches Some(report) && report.title == literal("Export Layer to DXF")),
        command is ExportTriangulationAs ==> (command.console_report() matches Some(report) && report.title == literal("Export Triangulation")),
        command is ExportBlockModelCsv ==> (command.console_report() matches Some(report) && report.title == literal("Export Block Model CSV")),
        command is ExportPlotSheet ==> (command.console_report() matches Some(report) && report.title == literal("Export Engineering Drawing")),
{
}

/// The console titles what is done with the items of the tree by what was done, and reports each of it.
#[verifier::spinoff_prover]
pub proof fn tree_reports_have_their_title(command: UiCommand)
    ensures
        command is LoadRaster ==> (command.console_report() matches Some(report) && report.title == literal("Load Raster")),
        command is UnloadRaster ==> (command.console_report() matches Some(report) && report.title == literal("Unload Raster")),
        command is ToggleRasterLocked ==> (command.console_report() matches Some(report) && report.title == literal("Set Raster Lock")),
        command is RemoveRaster ==> (command.console_report() matches Some(report) && report.title == literal("Remove Raster")),
        command is DrapeRaster ==> (command.console_report() matches Some(report) && report.title == literal("Drape Raster")),
        command is UndrapeRaster ==> (command.console_report() matches Some(report) && report.title == literal("Undrape Raster")),
        command is UndrapeAllRasters ==> (command.console_report() matches Some(report) && report.title == literal("Undrape Rasters")),
        command is ClearActiveTriangulationRaster ==> (command.console_report() matches Some(report) && report.title == literal("Clear Raster")),
        command is LoadPointCloud ==> (command.console_report() matches Some(report) && report.title == literal("Load Point Cloud")),
        command is ClosePointCloud ==> (command.console_report() matches Some(report) && report.title == literal("Unload Point Cloud")),
        command is RemovePointCloud ==> (command.console_report() matches Some(report) && report.title == literal("Remove Point Cloud")),
        command is LoadLayer ==> (command.console_report() matches Some(report) && report.title == literal("Load Layer")),
        command is UnloadLayer ==> (command.console_report() matches Some(report) && report.title == literal("Unload Layer")),
        command is ToggleLayerLocked ==> (command.console_report() matches Some(report) && report.title == literal("Set Layer Lock")),
        command is ToggleEntityLocked ==> (command.console_report() matches Some(report) && report.title == literal("Set Entity Lock")),
        command is SelectAllObjectsInLayer ==> (command.console_report() matches Some(report) && report.title == literal("Select Layer Objects")),
        command is ActivateTriangulation ==> (command.console_report() matches Some(report) && report.title == literal("Set Current Triangulation")),
        command is CloseTriangulation ==> (command.console_report() matches Some(report) && report.title == literal("Unload Triangulation")),
        command is LoadTriangulation ==> (command.console_report() matches Some(report) && report.title == literal("Load Triangulation")),
        command is RemoveTriangulation ==> (command.console_report() matches Some(report) && report.title == literal("Remove Triangulation")),
        command is LoadBlockModel ==> (command.console_report() matches Some(report) && report.title == literal("Load Block Model")),
        command is CloseBlockModel ==> (command.console_report() matches Some(report) && report.title == literal("Unload Block Model")),
        command is RemoveBlockModel ==> (command.console_report() matches Some(report) && report.title == literal("Remove Block Model")),
        command is LoadDrillHole ==> (command.console_report() matches Some(report) && report.title == literal("Load Drillholes")),
        command is CloseDrillHole ==> (command.console_report() matches Some(report) && report.title == literal("Unload Drillholes")),
        command is RemoveDrillHole ==> (command.console_report() matches Some(report) && report.title == literal("Remove Drillholes")),
        command is DeleteLayer ==> (command.console_report() matches Some(report) && report.title == literal("Delete Layer")),
        command is DuplicateLayer ==> (command.console_report() matches Some(report) && report.title == literal("Duplicate Layer")),
        command is DiscardLayerChanges ==> (command.console_report() matches Some(report) && report.title == literal("Discard Layer Changes")),
        command is CreateLayer ==> (command.console_report() matches Some(report) && report.title == literal("Create Layer")),
{
}

/// The console titles how things are looked at by what was done, and reports each of it.
#[verifier::spinoff_prover]
pub proof fn view_reports_have_their_title(command: UiCommand)
    ensures
        command is SetFlyModeEnabled ==> (command.console_report() matches Some(report) && report.title == literal("Fly Mode")),
        command is SetSliceModeEnabled ==> (command.console_report() matches Some(report) && report.title == literal("Slice Mode")),
        command is SetSlicePreviewDetached ==> (command.console_report() matches Some(report) && report.title == literal("Slice Preview")),
        command is ResetView ==> (command.console_report() matches Some(report) && report.title == literal("Reset View")),
        command is ToggleRotationCentre ==> (command.console_report() matches Some(report) && report.title == literal("Centre of Rotation")),
        command is SetTopologyWireframes ==> (command.console_report() matches Some(report) && report.title == literal("Set Topology Wireframes")),
        command is SetGridShown ==> (command.console_report() matches Some(report) && report.title == literal("Set Grid")),
        command is SetShowPoints ==> (command.console_report() matches Some(report) && report.title == literal("Set Point Visibility")),
        command is SetStandardView ==> (command.console_report() matches Some(report) && report.title == literal("Set Standard View")),
        command is SetTriangulationColor ==> (command.console_report() matches Some(report) && report.title == literal("Set Triangulation Colour")),
        command is SetBlockModelColorVariable ==> (command.console_report() matches Some(report) && report.title == literal("Set Block Model Variable")),
        command is SetDrillHoleColorField ==> (command.console_report() matches Some(report) && report.title == literal("Colour Drillholes")),
        command is SetDrillHoleColorPreset ==> (command.console_report() matches Some(report) && report.title == literal("Set Drillhole Colour Preset")),
        command is HideSelection ==> (command.console_report() matches Some(report) && report.title == literal("Hide Selection")),
        command is ZoomToExtents ==> (command.console_report() matches Some(report) && report.title == literal("Zoom to Extents")),
{
}

/// The console titles what is made of surfaces, models and plans by what was done, and reports each of it.
#[verifier::spinoff_prover]
pub proof fn models_reports_have_their_title(command: UiCommand)
    ensures
        command is AddReserveField ==> (command.console_report() matches Some(report) && report.title == literal("Add Field")),
        command is DeleteReserveField ==> (command.console_report() matches Some(report) && report.title == literal("Delete Field")),
        command is AddSolid ==> (command.console_report() matches Some(report) && report.title == literal("Add Solid")),
        command is DeleteSolid ==> (command.console_report() matches Some(report) && report.title == literal("Delete Solid")),
        command is ResetBlastName ==> (command.console_report() matches Some(report) && report.title == literal("Reset Blast Name")),
        command is SaveSolidPreviewToProject ==> (command.console_report() matches Some(report) && report.title == literal("Save Solid to Project")),
        command is AddDelayProduct ==> (command.console_report() matches Some(report) && report.title == literal("Add Product")),
        command is DeleteDelayProduct ==> (command.console_report() matches Some(report) && report.title == literal("Delete Product")),
        command is CreateDrillPattern ==> (command.console_report() matches Some(report) && report.title == literal("Create Drill Pattern")),
        command is ExecuteCreateBlockModel ==> (command.console_report() matches Some(report) && report.title == literal("Create Block Model")),
        command is ExecuteCreateOreTriangulation ==> (command.console_report() matches Some(report) && report.title == literal("Create Ore Triangulation")),
        command is ExecuteCreateTriangulation ==> (command.console_report() matches Some(report) && report.title == literal("Create Triangulation")),
        command is ExecuteCreateTriangulationWithWeld ==> (command.console_report() matches Some(report) && report.title == literal("Create Triangulation")),
        command is ExecuteCreateTriangulationUpperSurface ==> (command.console_report() matches Some(report) && report.title == literal("Create Triangulation")),
        command is ExecutePointCloudTin ==> (command.console_report() matches Some(report) && report.title == literal("Create Point Cloud TIN")),
        command is ExecuteCutTriangulationByPolyline ==> (command.console_report() matches Some(report) && report.title == literal("Cut Triangulation by Polyline")),
        command is ExecuteCutTriangulationByZ ==> (command.console_report() matches Some(report) && report.title == literal("Cut Triangulation by Z")),
        command is ExecuteCutTriangulationBySurface ==> (command.console_report() matches Some(report) && report.title == literal("Trim Triangulation to Surface")),
        command is ExecuteBuildSolidFromSurfaces ==> (command.console_report() matches Some(report) && report.title == literal("Build Solid from Surfaces")),
        command is ExecuteCutTopologyByPitShell ==> (command.console_report() matches Some(report) && report.title == literal("Cut Topology to Pit Shell")),
        command is ExecuteIncludeSolidInTopology ==> (command.console_report() matches Some(report) && report.title == literal("Merge Shell into Topology")),
        command is ExecuteContourTriangulation ==> (command.console_report() matches Some(report) && report.title == literal("Generate Contours")),
{
}

/// The console titles what is done to designs by what was done, and reports each of it.
#[verifier::spinoff_prover]
pub proof fn edits_reports_have_their_title(command: UiCommand)
    ensures
        command is FinishPolyClose ==> (command.console_report() matches Some(report) && report.title == literal("Create Polyline")),
        command is CommitStrokeOpen ==> (command.console_report() matches Some(report) && report.title == literal("Create Line")),
        command is CommitCircleTypedRadius ==> (command.console_report() matches Some(report) && report.title == literal("Create Circle")),
        command is ApplyChamfer ==> (command.console_report() matches Some(report) && report.title == literal("Chamfer")),
        command is ApplyBezier ==> (command.console_report() matches Some(report) && report.title == literal("Create Bezier Curve")),
        command is ApplyMoveDelta ==> (command.console_report() matches Some(report) && report.title == literal("Move Selection")),
        command is ApplyCollarRotation ==> (command.console_report() matches Some(report) && report.title == literal("Rotate Collar")),
        command is BatchSetObjectColor ==> (command.console_report() matches Some(report) && report.title == literal("Set Object Colour")),
        command is BatchSetPolylineClosed ==> (command.console_report() matches Some(report) && report.title == literal("Set Polyline Closed")),
        command is BatchSetObjectFill ==> (command.console_report() matches Some(report) && report.title == literal("Set Object Fill")),
        command is BatchSetPolylineLineWeight ==> (command.console_report() matches Some(report) && report.title == literal("Set Line Weight")),
        command is BatchSetAxisValue ==> (command.console_report() matches Some(report) && report.title == literal("Move to Axis Value")),
        command is CommitTextEdit ==> (command.console_report() matches Some(report) && report.title == literal("Edit Text")),
        command is BeginOffsetPick ==> (command.console_report() matches Some(report) && report.title == literal("Offset")),
        command is RelimitLineResize ==> (command.console_report() matches Some(report) && report.title == literal("Relimit Line")),
        command is CommitBatterBerm ==> (command.console_report() matches Some(report) && report.title == literal("Create Batter Berm")),
        command is InsertPointsAtIntersections ==> (command.console_report() matches Some(report) && report.title == literal("Insert Intersection Points")),
        command is ApplyObjectEdit ==> (command.console_report() matches Some(report) && report.title == literal("Edit Object")),
        command is InsertPointsAtElevation ==> (command.console_report() matches Some(report) && report.title == literal("Insert Points at Elevation")),
        command is ConfirmDeleteSelection ==> (command.console_report() matches Some(report) && report.title == literal("Delete Selection")),
{
}

/// Showing and hiding, locking and releasing, moving and copying are told apart by the title.
pub proof fn opposite_reports_have_opposite_titles(command: UiCommand)
    ensures
        command matches UiCommand::SetSectionVisible(_, visible) ==> (command.console_report() matches Some(report) && report.title
            == (if visible {
            literal("Reveal All")
        } else {
            literal("Hide All")
        })),
        command matches UiCommand::SetSectionLocked(_, locked) ==> (command.console_report() matches Some(report) && report.title
            == (if locked {
            literal("Lock All")
        } else {
            literal("Unlock All")
        })),
        command matches UiCommand::MoveObjectsToLayer { copy, .. } ==> (command.console_report() matches Some(report) && report.title
            == (if copy {
            literal("Copy Objects to Layer")
        } else {
            literal("Move Objects to Layer")
        })),
        command matches UiCommand::RenameItem { target, .. } ==> (command.console_report() matches Some(report) && report.title
            == literal1("Rename %kind%", named("kind", Arg::Words(target.kind_words())))),
{
}

/// What is done to one item is reported by its identity.
#[verifier::spinoff_prover]
pub proof fn reports_name_their_item(command: UiCommand)
    ensures
        command matches UiCommand::SetLanguage(choice) ==> (command.console_report() matches Some(report) && report.summary == only(Arg::Endonym(choice))),
        command matches UiCommand::LoadRaster(id) ==> (command.console_report() matches Some(report) && report.summary == only(Arg::Raster(id))),
        command matches UiCommand::UnloadRaster(id) ==> (command.console_report() matches Some(report) && report.summary == only(Arg::Raster(id))),
        command matches UiCommand::ToggleRasterLocked(id) ==> (command.console_report() matches Some(report) && report.summary == only(Arg::Raster(id))),
        command matches UiCommand::RemoveRaster(id) ==> (command.console_report() matches Some(report) && report.summary == only(Arg::Raster(id))),
        command matches UiCommand::DrapeRaster(id) ==> (command.console_report() matches Some(report) && report.summary == only(Arg::Raster(id))),
        command matches UiCommand::UndrapeRaster(id) ==> (command.console_report() matches Some(report) && report.summary == only(Arg::Raster(id))),
        command matches UiCommand::LoadPointCloud(id) ==> (command.console_report() matches Some(report) && report.summary == only(Arg::PointCloud(id))),
        command matches UiCommand::ClosePointCloud(id) ==> (command.console_report() matches Some(report) && report.summary == only(Arg::PointCloud(id))),
        command matches UiCommand::RemovePointCloud(id) ==> (command.console_report() matches Some(report) && report.summary == only(Arg::PointCloud(id))),
        command matches UiCommand::ExportLayerDxf(id) ==> (command.console_report() matches Some(report) && report.summary == only(Arg::Layer(id))),
        command matches UiCommand::ExportBlockModelCsv(id) ==> (command.console_report() matches Some(report) && report.summary == only(Arg::BlockModel(id))),
        command matches UiCommand::DeleteReserveField(id) ==> (command.console_report() matches Some(report) && report.summary == only(Arg::ReserveField(id))),
        command matches UiCommand::DeleteSolid(id) ==> (command.console_report() matches Some(report) && report.summary == only(Arg::Solid(id))),
        command matches UiCommand::DeleteDelayProduct(id) ==> (command.console_report() matches Some(report) && report.summary == only(Arg::Product(id))),
        command matches UiCommand::DiscardLayerChanges(id) ==> (command.console_report() matches Some(report) && report.summary == only(Arg::Layer(id))),
        command matches UiCommand::DeleteLayer(id) ==> (command.console_report() matches Some(report) && report.summary == only(Arg::Layer(id))),
        command matches UiCommand::DuplicateLayer(id) ==> (command.console_report() matches Some(report) && report.summary == only(Arg::Layer(id))),
        command matches UiCommand::ApplyMoveDelta(delta) ==> (command.console_report() matches Some(report) && report.summary == only(Arg::Point(delta))),
        command matches UiCommand::LoadLayer(id) ==> (command.console_report() matches Some(report) && report.summary == only(Arg::Layer(id))),
        command matches UiCommand::UnloadLayer(id) ==> (command.console_report() matches Some(report) && report.summary == only(Arg::Layer(id))),
        command matches UiCommand::ToggleLayerLocked(id) ==> (command.console_report() matches Some(report) && report.summary == only(Arg::Layer(id))),
        command matches UiCommand::ToggleEntityLocked(handle) ==> (command.console_report() matches Some(report) && report.summary == only(Arg::Entity(handle))),
        command matches UiCommand::SelectAllObjectsInLayer(id) ==> (command.console_report() matches Some(report) && report.summary == only(Arg::Layer(id))),
        command matches UiCommand::ActivateTriangulation(id) ==> (command.console_report() matches Some(report) && report.summary == only(Arg::Triangulation(id))),
        command matches UiCommand::CloseTriangulation(id) ==> (command.console_report() matches Some(report) && report.summary == only(Arg::Triangulation(id))),
        command matches UiCommand::CommitTextEdit { id, .. } ==> (command.console_report() matches Some(report) && report.summary == only(Arg::Object(id))),
        command matches UiCommand::SetTriangulationColor(id, _) ==> (command.console_report() matches Some(report) && report.summary == only(Arg::Triangulation(id))),
        command matches UiCommand::LoadTriangulation(id) ==> (command.console_report() matches Some(report) && report.summary == only(Arg::Triangulation(id))),
        command matches UiCommand::LoadBlockModel(id) ==> (command.console_report() matches Some(report) && report.summary == only(Arg::BlockModel(id))),
        command matches UiCommand::CloseBlockModel(id) ==> (command.console_report() matches Some(report) && report.summary == only(Arg::BlockModel(id))),
        command matches UiCommand::RemoveBlockModel(id) ==> (command.console_report() matches Some(report) && report.summary == only(Arg::BlockModel(id))),
        command matches UiCommand::ImportDrillHole(source) ==> (command.console_report() matches Some(report) && report.summary == only(Arg::Label(source))),
        command matches UiCommand::LoadDrillHole(id) ==> (command.console_report() matches Some(report) && report.summary == only(Arg::DrillHole(id))),
        command matches UiCommand::CloseDrillHole(id) ==> (command.console_report() matches Some(report) && report.summary == only(Arg::DrillHole(id))),
        command matches UiCommand::RemoveDrillHole(id) ==> (command.console_report() matches Some(report) && report.summary == only(Arg::DrillHole(id))),
        command matches UiCommand::SetDrillHoleColorPreset { preset, .. } ==> (command.console_report() matches Some(report) && report.summary == only(Arg::Label(preset))),
        command matches UiCommand::RemoveTriangulation(id) ==> (command.console_report() matches Some(report) && report.summary == only(Arg::Triangulation(id))),
        command matches UiCommand::RelimitLineResize { source_id, .. } ==> (command.console_report() matches Some(report) && report.summary == only(Arg::Object(source_id))),
        command matches UiCommand::ExecutePointCloudTin { cloud_id, .. } ==> (command.console_report() matches Some(report) && report.summary == only(Arg::PointCloud(cloud_id))),
{
}

/// What is made or brought in under a name is reported by that name.
#[verifier::spinoff_prover]
pub proof fn reports_name_what_was_made(command: UiCommand)
    ensures
        command matches UiCommand::CreateBrowserProject { name } ==> (command.console_report() matches Some(report) && report.summary == verbatim(name)),
        command matches UiCommand::ImportCsvBlockModel { path, .. } ==> (command.console_report() matches Some(report) && report.summary == verbatim(path)),
        command matches UiCommand::CreateLayer { name } ==> (command.console_report() matches Some(report) && report.summary == verbatim(name)),
        command matches UiCommand::AddReserveField { name, .. } ==> (command.console_report() matches Some(report) && report.summary == verbatim(name)),
        command matches UiCommand::AddSolid { name, .. } ==> (command.console_report() matches Some(report) && report.summary == verbatim(name)),
        command matches UiCommand::SetBlockModelColorVariable { variable, .. } ==> (command.console_report() matches Some(report) && report.summary == verbatim(variable)),
        command matches UiCommand::ExecuteCreateBlockModel { name, .. } ==> (command.console_report() matches Some(report) && report.summary == verbatim(name)),
        command matches UiCommand::ExecuteCreateOreTriangulation { name, .. } ==> (command.console_report() matches Some(report) && report.summary == verbatim(name)),
        command matches UiCommand::ExecuteCutTriangulationByPolyline { name, .. } ==> (command.console_report() matches Some(report) && report.summary == verbatim(name)),
        command matches UiCommand::ExecuteCutTriangulationBySurface { name, .. } ==> (command.console_report() matches Some(report) && report.summary == verbatim(name)),
        command matches UiCommand::ExecuteBuildSolidFromSurfaces { name, .. } ==> (command.console_report() matches Some(report) && report.summary == verbatim(name)),
        command matches UiCommand::ExecuteCutTopologyByPitShell { name, .. } ==> (command.console_report() matches Some(report) && report.summary == verbatim(name)),
        command matches UiCommand::ExecuteIncludeSolidInTopology { name, .. } ==> (command.console_report() matches Some(report) && report.summary == verbatim(name)),
{
}

/// What is done to several objects is reported by how many they are, with what was set.
#[verifier::spinoff_prover]
pub proof fn reports_count_their_objects(command: UiCommand)
    ensures
        command matches UiCommand::ImportOmfPaths(paths) ==> (command.console_report() matches Some(report) && report.summary == literal1("%count% file(s)", named("count", Arg::Count(paths@.len() as usize)))),
        command matches UiCommand::ImportDxfPathsInto(paths) ==> (command.console_report() matches Some(report) && report.summary == literal1("%count% file(s)", named("count", Arg::Count(paths@.len() as usize)))),
        command matches UiCommand::ImportTriangulationPaths(paths) ==> (command.console_report() matches Some(report) && report.summary == literal1("%count% file(s)", named("count", Arg::Count(paths@.len() as usize)))),
        command matches UiCommand::ImportPointCloudPaths(paths) ==> (command.console_report() matches Some(report) && report.summary == literal1("%count% file(s)", named("count", Arg::Count(paths@.len() as usize)))),
        command matches UiCommand::ImportRasterPaths(paths) ==> (command.console_report() matches Some(report) && report.summary == literal1("%count% file(s)", named("count", Arg::Count(paths@.len() as usize)))),
        command matches UiCommand::BatchSetObjectColor(ids, _) ==> (command.console_report() matches Some(report) && report.summary == literal1("%count% object(s)", named("count", Arg::Count(ids@.len() as usize)))),
        command matches UiCommand::BatchSetPolylineClosed(ids, closed) ==> (command.console_report() matches Some(report) && report.summary == literal2("%count% object(s) · %closed%", named("count", Arg::Count(ids@.len() as usize)), named("closed", Arg::Flag(closed)))),
        command matches UiCommand::BatchSetObjectFill(ids, _) ==> (command.console_report() matches Some(report) && report.summary == literal1("%count% object(s)", named("count", Arg::Count(ids@.len() as usize)))),
        command matches UiCommand::BatchSetPolylineLineWeight(ids, weight) ==> (command.console_report() matches Some(report) && report.summary == literal2("%count% object(s) · %weight%", named("count", Arg::Count(ids@.len() as usize)), named("weight", Arg::Single(weight)))),
        command matches UiCommand::MoveObjectsToLayer { object_ids, target_layer, copy } ==> (command.console_report() matches Some(report) && report.summary == literal2("%count% object(s) · %layer%", named("count", Arg::Count(object_ids@.len() as usize)), named("layer", Arg::Layer(target_layer)))),
        command matches UiCommand::BatchSetAxisValue(ids, axis, value) ==> (command.console_report() matches Some(report) && report.summary == literal3("%count% object(s) · %axis% %value%", named("count", Arg::Count(ids@.len() as usize)), named("axis", Arg::AxisName(axis)), named("value", Arg::Real(value)))),
        command matches UiCommand::CreateDrillPattern { name, collars, .. } ==> (command.console_report() matches Some(report) && report.summary == literal2("%name% · %count% holes", named("name", Arg::Name(name)), named("count", Arg::Count(collars@.len() as usize)))),
        command matches UiCommand::BeginOffsetPick { object_ids, .. } ==> (command.console_report() matches Some(report) && report.summary == literal1("%count% object(s)", named("count", Arg::Count(object_ids@.len() as usize)))),
        command matches UiCommand::InsertPointsAtElevation { object_ids, elevation } ==> (command.console_report() matches Some(report) && report.summary == literal2("%count% object(s) · Z %elevation%", named("count", Arg::Count(object_ids@.len() as usize)), named("elevation", Arg::Real(elevation)))),
        command matches UiCommand::ExecuteCreateTriangulation { name, object_ids, .. } ==> (command.console_report() matches Some(report) && report.summary == literal2("%name% · %count% object(s)", named("name", Arg::Name(name)), named("count", Arg::Count(object_ids@.len() as usize)))),
        command matches UiCommand::ExecuteCreateTriangulationWithWeld { name, object_ids, .. } ==> (command.console_report() matches Some(report) && report.summary == literal2("%name% · %count% object(s)", named("name", Arg::Name(name)), named("count", Arg::Count(object_ids@.len() as usize)))),
        command matches UiCommand::ExecuteCreateTriangulationUpperSurface { name, object_ids, .. } ==> (command.console_report() matches Some(report) && report.summary == literal2("%name% · %count% object(s)", named("name", Arg::Name(name)), named("count", Arg::Count(object_ids@.len() as usize)))),
{
}

/// A switch is reported by what it was switched to.
#[verifier::spinoff_prover]
pub proof fn reports_say_on_or_off(command: UiCommand)
    ensures
        command matches UiCommand::SetFlyModeEnabled(enabled) ==> (command.console_report() matches Some(report) && report.summary == if enabled { literal("Enabled") } else { literal("Disabled") }),
        command matches UiCommand::SetSliceModeEnabled(enabled) ==> (command.console_report() matches Some(report) && report.summary == if enabled { literal("Enabled") } else { literal("Disabled") }),
        command matches UiCommand::SetSlicePreviewDetached(detached) ==> (command.console_report() matches Some(report) && report.summary == if detached { literal("Detached") } else { literal("Docked") }),
        command matches UiCommand::SetTopologyWireframes(enabled) ==> (command.console_report() matches Some(report) && report.summary == if enabled { literal("Shown") } else { literal("Hidden") }),
        command matches UiCommand::SetGridShown(shown) ==> (command.console_report() matches Some(report) && report.summary == if shown { literal("Shown") } else { literal("Hidden") }),
        command matches UiCommand::SetShowPoints(enabled) ==> (command.console_report() matches Some(report) && report.summary == if enabled { literal("Shown") } else { literal("Hidden") }),
{
}

/// A report says what was done and to what: by number, by name, by label, or by the values that
/// were asked for.
#[verifier::spinoff_prover]
pub proof fn reports_say_what_was_asked_for(command: UiCommand)
    ensures
        command matches UiCommand::ExportProjectDxf(id) ==> (command.console_report() matches Some(report) && report.summary == literal1("Project %id%", named("id", Arg::Number(id as u64)))),
        command matches UiCommand::SaveProjectAs(id) ==> (command.console_report() matches Some(report) && report.summary == literal1("Project %id%", named("id", Arg::Number(id as u64)))),
        command matches UiCommand::CloseProjectForce(id) ==> (command.console_report() matches Some(report) && report.summary == literal1("Project %id%", named("id", Arg::Number(id as u64)))),
        command matches UiCommand::SaveAndCloseProject(id) ==> (command.console_report() matches Some(report) && report.summary == literal1("Project %id%", named("id", Arg::Number(id as u64)))),
        command matches UiCommand::DiscardProjectChanges(id) ==> (command.console_report() matches Some(report) && report.summary == literal1("Project %id%", named("id", Arg::Number(id as u64)))),
        command matches UiCommand::ActivateTrackedProject(project) ==> (command.console_report() matches Some(report) && report.summary == project.spec_name()),
        command matches UiCommand::RemoveTrackedProject(project) ==> (command.console_report() matches Some(report) && report.summary == project.spec_name()),
        command matches UiCommand::ExportTriangulationAs(id, format) ==> (command.console_report() matches Some(report) && report.summary == plain2("%id% · %format%", named("id", Arg::Triangulation(id)), named("format", Arg::Label(format)))),
        command matches UiCommand::ResetBlastName(blast) ==> (command.console_report() matches Some(report) && report.summary == plain2("%solid% RL %bench%", named("solid", Arg::Solid(blast.solid)), named("bench", Arg::Fixed { value: Real64 { bits: blast.bench }, decimals: 2 }))),
        command matches UiCommand::AddDelayProduct { delay_ms, name, .. } ==> (command.console_report() matches Some(report) && report.summary == plain2("%delay% ms · %name%", named("delay", Arg::Number(delay_ms as u64)), named("name", Arg::Name(name)))),
        command matches UiCommand::SetStandardView(view) ==> (command.console_report() matches Some(report) && report.summary == view.spec_label()),
        command matches UiCommand::RenameItem { target, new_name } ==> (command.console_report() matches Some(report) && report.summary == literal2("%target% to “%new_name%”", named("target", Arg::Target(target)), named("new_name", Arg::Name(new_name)))),
        command matches UiCommand::SetSectionVisible(section, visible) ==> (command.console_report() matches Some(report) && report.summary == literal1("%section% section", named("section", Arg::Words(section.words())))),
        command matches UiCommand::SetSectionLocked(section, locked) ==> (command.console_report() matches Some(report) && report.summary == literal1("%section% section", named("section", Arg::Words(section.words())))),
        command matches UiCommand::SetDrillHoleColorField { field, .. } ==> (command.console_report() matches Some(report) && report.summary == match field { Some(field) => verbatim(field), None => literal("Uniform white"), }),
        command matches UiCommand::ApplyObjectEdit { object, .. } ==> (command.console_report() matches Some(report) && report.summary == only(Arg::KindName(object.spec_kind()))),
        command matches UiCommand::ExecuteCutTriangulationByZ { name, z_min, z_max, .. } ==> (command.console_report() matches Some(report) && report.summary == literal3("%name% · %z_min% to %z_max%", named("name", Arg::Name(name)), named("z_min", Arg::Real(z_min)), named("z_max", Arg::Real(z_max)))),
        command matches UiCommand::ExecuteContourTriangulation { major_interval, minor_interval, .. } ==> (command.console_report() matches Some(report) && report.summary == literal2("Major %major% · minor %minor%", named("major", Arg::Real(major_interval)), named("minor", Arg::Real(minor_interval)))),
{
}

/// The console leaves out interface plumbing: opening, cancelling and closing dialogs, and
/// choices, previews and runs that report through what they lead to. Everything else is
/// reported.
#[verifier::spinoff_prover]
pub proof fn plumbing_is_not_reported(command: UiCommand)
    ensures
        command.console_report() is None <==> command.is_transient(),
        command is BeginDrillPatternShapePick || command is OpenPreferences || command is BeginRenameItem
            || command is OpenCreateBlockModel || command is OpenCreateOreTriangulation || command is OpenOffsetDialog
            || command is OpenRelimitDialog || command is OpenBatterBermDialog || command is OpenCreateTriangulation
            || command is OpenMoveToAxisDialog || command is OpenInsertPointAtElevationDialog
            || command is OpenObjectEditDialog || command is OpenPointCloudTin
            || command is OpenCutTriangulationByPolyline || command is BeginCutPolyPick
            || command is OpenCutTriangulationByZ || command is OpenCutTriangulationBySurface
            || command is OpenBuildSolidFromSurfaces || command is OpenCutTopologyByPitShell
            || command is OpenIncludeSolidInTopology || command is OpenContourTriangulation || command is OpenPlotDialog
            || command is OpenDrillHoleColorDialog || command is ChooseImportSourceFiles || command is RequestDeleteLayer
            || command is RequestDeleteItem || command is RequestDiscardLayerChanges
            ==> command.console_report() is None,
        command is ClearSelection || command is CloseStartupDialog || command is CancelCloseProject
            || command is CancelExit || command is CancelProjectReplacement || command is CancelLossyProjectSave
            || command is CancelOffset || command is CancelRelimit || command is CancelChamfer || command is CancelBezier
            || command is CancelMoveDelta || command is CancelCollarRotation || command is CancelTextEdit
            || command is CloseCanvasContextMenu || command is CancelBatterBerm || command is CancelPlanningRun
            || command is ClearBrowserImportSelection
            ==> command.console_report() is None,
        command is SetActiveTool || command is ToggleCreateDrillPattern || command is ConfirmDrapeSelection
            || command is ApplyPreferences || command is SetPlanningPage || command is SetPlanningSubpage
            || command is ReorderWorkspace || command is ToggleViewOption || command is SelectBlockModel
            || command is SetInitiation || command is PreviewMoveDelta || command is PreviewCollarRotation
            || command is FitPlotScaleToData || command is SetBlockModelColorTransfer
            || command is ResetBlockModelColorTransfer || command is SetDrillHoleColorStops
            || command is SetDrillHoleCategoryColors || command is SetBlockModelSlice || command is SetReserveMapping
            || command is SetReserveModelIncluded || command is UpdateSolid || command is ResetSolidPreviewView
            || command is RecomputeReserveStats || command is RunPlanningStage || command is RunAllPlanningStages
            || command is SelectBlast || command is SelectDigBlock || command is CopyDigStrips
            || command is PasteDigStrips
            ==> command.console_report() is None,
{
}

/// A deletion deletes the item that it was asked for; the ground of a blast cannot be deleted,
/// and only loses its name.
pub proof fn removals_remove_their_item(target: RenameTarget, other: RenameTarget)
    ensures
        target.removal() == other.removal() ==> target == other,
        target matches RenameTarget::Layer(id) ==> target.removal() == UiCommand::DeleteLayer(id),
        target matches RenameTarget::Triangulation(id) ==> target.removal() == UiCommand::RemoveTriangulation(id),
        target matches RenameTarget::Raster(id) ==> target.removal() == UiCommand::RemoveRaster(id),
        target matches RenameTarget::PointCloud(id) ==> target.removal() == UiCommand::RemovePointCloud(id),
        target matches RenameTarget::BlockModel(id) ==> target.removal() == UiCommand::RemoveBlockModel(id),
        target matches RenameTarget::DrillHole(id) ==> target.removal() == UiCommand::RemoveDrillHole(id),
        target matches RenameTarget::ReserveField(id) ==> target.removal() == UiCommand::DeleteReserveField(id),
        target matches RenameTarget::Solid(id) ==> target.removal() == UiCommand::DeleteSolid(id),
        target matches RenameTarget::BlastShape(blast) ==> target.removal() == UiCommand::ResetBlastName(blast),
{
}

/// A remembered project is named by its path, or by the identity of its record.
pub proof fn remembered_projects_are_named_by_their_place(project: TrackedProject)
    ensures
        project matches TrackedProject::Path(path) ==> project.spec_name() == verbatim(path),
        project matches TrackedProject::Stored(id) ==> project.spec_name() == only(Arg::Project(id)),
{
}

/// What can be renamed is called after what it is.
pub proof fn items_are_called_after_their_kind(target: RenameTarget)
    ensures
        target is Layer ==> target.kind_words() == "Layer",
        target is Triangulation ==> target.kind_words() == "Triangulation",
        target is Raster ==> target.kind_words() == "Raster",
        target is PointCloud ==> target.kind_words() == "Point Cloud",
        target is BlockModel ==> target.kind_words() == "Block Model",
        target is DrillHole ==> target.kind_words() == "Drill Holes",
        target is ReserveField ==> target.kind_words() == "Field",
        target is Solid ==> target.kind_words() == "Solid",
        target is BlastShape ==> target.kind_words() == "Blast",
{
}

/// Where a command says all there is to say, its report has a fixed wording of its own.
#[verifier::spinoff_prover]
pub proof fn reports_have_their_wording(command: UiCommand)
    ensures
        command is NewProject ==> (command.console_report() matches Some(report) && report.summary == literal("Untitled project")),
        command is OpenProject ==> (command.console_report() matches Some(report) && report.summary == literal("Choose one or more files")),
        command is ShowProjectInFileManager ==> (command.console_report() matches Some(report) && report.summary == literal("Open the containing folder")),
        command is UndrapeAllRasters ==> (command.console_report() matches Some(report) && report.summary == literal("Removed from every triangulation")),
        command is ClearActiveTriangulationRaster ==> (command.console_report() matches Some(report) && report.summary == literal("Removed from active triangulation")),
        command is ExportOmf ==> (command.console_report() matches Some(report) && report.summary == literal("All open Incline Design data")),
        command is ExportViewportImage ==> (command.console_report() matches Some(report) && report.summary == literal("Choose a destination")),
        command is RequestExit ==> (command.console_report() matches Some(report) && report.summary == literal("Checking unsaved work")),
        command is SaveAndExit ==> (command.console_report() matches Some(report) && report.summary == literal("Saving the current project")),
        command is ExitWithoutSaving ==> (command.console_report() matches Some(report) && report.summary == literal("Discarding unsaved changes")),
        command is SaveSolidPreviewToProject ==> (command.console_report() matches Some(report) && report.summary == literal("From the Solids preview")),
        command is FinishPolyClose ==> (command.console_report() matches Some(report) && report.summary == literal("Finish closed polyline")),
        command is CommitStrokeOpen ==> (command.console_report() matches Some(report) && report.summary == literal("Finish open polyline")),
        command is CommitCircleTypedRadius ==> (command.console_report() matches Some(report) && report.summary == literal("Use typed radius")),
        command is ResetView ==> (command.console_report() matches Some(report) && report.summary == literal("Fit to extents")),
        command is ToggleRotationCentre ==> (command.console_report() matches Some(report) && report.summary == literal("Fix or release the centre both views orbit about")),
        command is SaveProject ==> (command.console_report() matches Some(report) && report.summary == literal("Current project")),
        command is SaveAndReplaceProject ==> (command.console_report() matches Some(report) && report.summary == literal("Current project")),
        command is DiscardAndReplaceProject ==> (command.console_report() matches Some(report) && report.summary == literal("Current project")),
        command is ConfirmLossyProjectSave ==> (command.console_report() matches Some(report) && report.summary == literal("Save despite unsupported content")),
        command is ApplyChamfer ==> (command.console_report() matches Some(report) && report.summary == literal("Apply to selection")),
        command is ApplyBezier ==> (command.console_report() matches Some(report) && report.summary == literal("Apply to selection")),
        command is ApplyCollarRotation ==> (command.console_report() matches Some(report) && report.summary == literal("Apply to selection")),
        command is ExportPlotSheet ==> (command.console_report() matches Some(report) && report.summary == literal("Choose a destination")),
        command is HideSelection ==> (command.console_report() matches Some(report) && report.summary == literal("Selected scene elements")),
        command is ZoomToExtents ==> (command.console_report() matches Some(report) && report.summary == literal("Preserve view angle")),
        command is CommitBatterBerm ==> (command.console_report() matches Some(report) && report.summary == literal("Apply generated rings")),
        command is InsertPointsAtIntersections ==> (command.console_report() matches Some(report) && report.summary == literal("Selected polylines")),
        command is ConfirmDeleteSelection ==> (command.console_report() matches Some(report) && report.summary == literal("Selected objects")),
        command is Undo ==> (command.console_report() matches Some(report) && report.summary == literal("Previous edit")),
        command is Redo ==> (command.console_report() matches Some(report) && report.summary == literal("Next edit")),
{
}

} // verus!
