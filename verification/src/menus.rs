//! The menus of the application and of the workspaces.
use crate::command::UiCommand;
use crate::editor::EditorState;
use crate::ids::{ObjectId, SceneEntityId};
use crate::lists::{only_if, push_if};
use crate::model::Axis;
use crate::project_view::{Platform, UiProjectView, UiTrackedProjectEntry};
use crate::state::project::TransferState;
use crate::text::{key, literal, named, Arg, Text};
use crate::tools::ViewToggle;
use crate::workspace::Workspace;
use vstd::prelude::*;

verus! {

/// What the platform calls showing a file in its file manager.
#[verifier::allow_in_spec]
pub fn show_project_label(windows: bool) -> (r: Text)
    returns
        (if windows {
            key("menu-file-show-in-explorer")
        } else {
            key("menu-file-show-in-folder")
        }),
{
    if windows {
        key("menu-file-show-in-explorer")
    } else {
        key("menu-file-show-in-folder")
    }
}

impl UiProjectView {
    /// Some project has work that Save would write.
    pub open spec fn has_unsaved(self, platform: Platform) -> bool {
        exists|i: int| 0 <= i < self.projects@.len() && (#[trigger] self.projects@[i]).is_unsaved(platform)
    }

    pub fn any_unsaved(&self, platform: Platform) -> (r: bool)
        ensures
            r == self.has_unsaved(platform),
    {
        let mut i: usize = 0;
        while i < self.projects.len()
            invariant
                i <= self.projects@.len(),
                forall|k: int| 0 <= k < i ==> !(#[trigger] self.projects@[k]).is_unsaved(platform),
            decreases self.projects@.len() - i,
        {
            if self.projects[i].needs_save(platform) {
                return true;
            }
            i = i + 1;
        }
        false
    }

    pub open spec fn has_loaded_holes(self) -> bool {
        exists|i: int| 0 <= i < self.drill_holes@.len() && (#[trigger] self.drill_holes@[i]).is_loaded
    }

    pub open spec fn has_draped_raster(self) -> bool {
        exists|i: int| 0 <= i < self.raster_textures@.len() && (#[trigger] self.raster_textures@[i]).is_draped
    }

    pub open spec fn has_loaded_cloud(self) -> bool {
        exists|i: int| 0 <= i < self.point_clouds@.len() && (#[trigger] self.point_clouds@[i]).is_loaded
    }

    fn any_loaded_holes(&self) -> (r: bool)
        ensures
            r == self.has_loaded_holes(),
    {
        let mut i: usize = 0;
        while i < self.drill_holes.len()
            invariant
                i <= self.drill_holes@.len(),
                forall|k: int| 0 <= k < i ==> !(#[trigger] self.drill_holes@[k]).is_loaded,
            decreases self.drill_holes@.len() - i,
        {
            if self.drill_holes[i].is_loaded {
                return true;
            }
            i = i + 1;
        }
        false
    }

    fn any_draped_raster(&self) -> (r: bool)
        ensures
            r == self.has_draped_raster(),
    {
        let mut i: usize = 0;
        while i < self.raster_textures.len()
            invariant
                i <= self.raster_textures@.len(),
                forall|k: int| 0 <= k < i ==> !(#[trigger] self.raster_textures@[k]).is_draped,
            decreases self.raster_textures@.len() - i,
        {
            if self.raster_textures[i].is_draped {
                return true;
            }
            i = i + 1;
        }
        false
    }

    fn any_loaded_cloud(&self) -> (r: bool)
        ensures
            r == self.has_loaded_cloud(),
    {
        let mut i: usize = 0;
        while i < self.point_clouds.len()
            invariant
                i <= self.point_clouds@.len(),
                forall|k: int| 0 <= k < i ==> !(#[trigger] self.point_clouds@[k]).is_loaded,
            decreases self.point_clouds@.len() - i,
        {
            if self.point_clouds[i].is_loaded {
                return true;
            }
            i = i + 1;
        }
        false
    }
}

impl TransferState {
    /// Open the import dialog. Only one of the pair is ever up.
    pub fn open_import(&mut self)
        ensures
            *final(self) == (TransferState { show_import: true, show_export: false, ..*old(self) }),
    {
        self.show_import = true;
        self.show_export = false;
    }

    /// Open the export dialog.
    pub fn open_export(&mut self)
        ensures
            *final(self) == (TransferState { show_import: false, show_export: true, ..*old(self) }),
    {
        self.show_import = false;
        self.show_export = true;
    }
}

/// A row of the File menu.
#[derive(Clone, Copy, Debug, PartialEq, Eq, Structural)]
pub enum FileRow {
    Save,
    SaveAs,
    NewProject,
    OpenProject,
    OpenRecent,
    ShowInFileManager,
    Import,
    Export,
    ExportViewportImage,
    ExportDrawing,
    Preferences,
    About,
    Exit,
}

/// How many rows the File menu has.
pub const FILE_ROWS: usize = 13;

impl FileRow {
    /// The place of a row in the menu.
    pub open spec fn place(self) -> int {
        match self {
            FileRow::Save => 0,
            FileRow::SaveAs => 1,
            FileRow::NewProject => 2,
            FileRow::OpenProject => 3,
            FileRow::OpenRecent => 4,
            FileRow::ShowInFileManager => 5,
            FileRow::Import => 6,
            FileRow::Export => 7,
            FileRow::ExportViewportImage => 8,
            FileRow::ExportDrawing => 9,
            FileRow::Preferences => 10,
            FileRow::About => 11,
            FileRow::Exit => 12,
        }
    }

    /// The row at a place, first one at 0.
    pub fn at(place: usize) -> (r: Option<FileRow>)
        ensures
            r is None <==> place >= FILE_ROWS,
            r matches Some(row) ==> row.place() == place,
    {
        match place {
            0 => Some(FileRow::Save),
            1 => Some(FileRow::SaveAs),
            2 => Some(FileRow::NewProject),
            3 => Some(FileRow::OpenProject),
            4 => Some(FileRow::OpenRecent),
            5 => Some(FileRow::ShowInFileManager),
            6 => Some(FileRow::Import),
            7 => Some(FileRow::Export),
            8 => Some(FileRow::ExportViewportImage),
            9 => Some(FileRow::ExportDrawing),
            10 => Some(FileRow::Preferences),
            11 => Some(FileRow::About),
            12 => Some(FileRow::Exit),
            _ => None,
        }
    }

    /// The rows come in sections, parted by rules.
    pub fn opens_section(self) -> (r: bool)
        ensures
            r == (self is NewProject || self is Import || self is Preferences),
    {
        matches!(self, FileRow::NewProject | FileRow::Import | FileRow::Preferences)
    }

    /// In the browser there is no file to name or to show.
    pub open spec fn is_shown(self, platform: Platform) -> bool {
        !(platform is Browser && (self is SaveAs || self is ShowInFileManager))
    }

    pub fn shown(self, platform: Platform) -> (r: bool)
        ensures
            r == self.is_shown(platform),
    {
        match platform {
            Platform::Desktop => true,
            Platform::Browser => !matches!(self, FileRow::SaveAs | FileRow::ShowInFileManager),
        }
    }

    pub open spec fn spec_label(self, windows: bool) -> Text {
        match self {
            FileRow::Save => key("menu-file-save-project"),
            FileRow::SaveAs => key("menu-file-save-project-as"),
            FileRow::NewProject => key("menu-file-new-project"),
            FileRow::OpenProject => key("menu-file-open-project"),
            FileRow::OpenRecent => key("menu-file-open-recent"),
            FileRow::ShowInFileManager => show_project_label(windows),
            FileRow::Import => key("menu-file-import"),
            FileRow::Export => key("menu-file-export"),
            FileRow::ExportViewportImage => key("menu-file-export-viewport-image"),
            FileRow::ExportDrawing => key("menu-file-export-engineering-drawing"),
            FileRow::Preferences => key("preferences-title"),
            FileRow::About => key("menu-file-about"),
            FileRow::Exit => key("menu-file-exit"),
        }
    }

    /// What the row is called. The application puts its own name into About.
    pub fn label(self, windows: bool) -> (r: Text)
        ensures
            r == self.spec_label(windows),
    {
        match self {
            FileRow::Save => key("menu-file-save-project"),
            FileRow::SaveAs => key("menu-file-save-project-as"),
            FileRow::NewProject => key("menu-file-new-project"),
            FileRow::OpenProject => key("menu-file-open-project"),
            FileRow::OpenRecent => key("menu-file-open-recent"),
            FileRow::ShowInFileManager => show_project_label(windows),
            FileRow::Import => key("menu-file-import"),
            FileRow::Export => key("menu-file-export"),
            FileRow::ExportViewportImage => key("menu-file-export-viewport-image"),
            FileRow::ExportDrawing => key("menu-file-export-engineering-drawing"),
            FileRow::Preferences => key("preferences-title"),
            FileRow::About => key("menu-file-about"),
            FileRow::Exit => key("menu-file-exit"),
        }
    }

    /// Rows that need a project, a file or something unsaved are greyed out without it.
    pub open spec fn is_enabled(self, project: UiProjectView, platform: Platform) -> bool {
        match self {
            FileRow::Save => project.has_unsaved(platform),
            FileRow::SaveAs | FileRow::Import | FileRow::Export => project.active() is Some,
            FileRow::OpenRecent => crate::project_view::offered(project.tracked_projects@).len() > 0,
            FileRow::ShowInFileManager => project.active_path is Some,
            _ => true,
        }
    }

    pub fn enabled(self, project: &UiProjectView, platform: Platform) -> (r: bool)
        ensures
            r == self.is_enabled(*project, platform),
    {
        match self {
            FileRow::Save => project.any_unsaved(platform),
            FileRow::SaveAs | FileRow::Import | FileRow::Export => project.active_project().is_some(),
            FileRow::OpenRecent => project.recent_projects().len() > 0,
            FileRow::ShowInFileManager => project.active_path.is_some(),
            _ => true,
        }
    }

    /// What the row asks for.
    pub open spec fn asks(self, project: UiProjectView) -> Seq<UiCommand> {
        match self {
            FileRow::Save => seq![UiCommand::SaveProject],
            FileRow::SaveAs => match project.active() {
                Some(entry) => seq![UiCommand::SaveProjectAs(entry.runtime_id)],
                None => Seq::empty(),
            },
            FileRow::NewProject => seq![UiCommand::NewProject],
            FileRow::OpenProject => seq![UiCommand::OpenProject],
            FileRow::ShowInFileManager => seq![UiCommand::ShowProjectInFileManager],
            FileRow::ExportViewportImage => seq![UiCommand::ExportViewportImage],
            FileRow::ExportDrawing => seq![UiCommand::OpenPlotDialog],
            FileRow::Preferences => seq![UiCommand::OpenPreferences],
            FileRow::Exit => seq![UiCommand::RequestExit],
            _ => Seq::empty(),
        }
    }

    /// What the row opens by itself.
    pub open spec fn opens(self, before: TransferState) -> TransferState {
        match self {
            FileRow::Import => TransferState { show_import: true, show_export: false, ..before },
            FileRow::Export => TransferState { show_import: false, show_export: true, ..before },
            FileRow::About => TransferState { show_about: true, ..before },
            _ => before,
        }
    }
}

impl TransferState {
    /// Take a click on a row of the File menu, which works where the row is shown and
    /// enabled.
    pub fn click_file(&mut self, row: FileRow, project: &UiProjectView, platform: Platform, commands: &mut Vec<UiCommand>)
        ensures
            row.is_shown(platform) && row.is_enabled(*project, platform) ==> *final(self) == row.opens(*old(self)) && final(commands)@
                == old(commands)@ + row.asks(*project),
            !(row.is_shown(platform) && row.is_enabled(*project, platform)) ==> *final(self) == *old(self) && final(commands)@
                == old(commands)@,
    {
        if !row.shown(platform) || !row.enabled(project, platform) {
            return;
        }
        match row {
            FileRow::Save => commands.push(UiCommand::SaveProject),
            FileRow::SaveAs => {
                if let Some(entry) = project.active_project() {
                    commands.push(UiCommand::SaveProjectAs(entry.runtime_id));
                }
            },
            FileRow::NewProject => commands.push(UiCommand::NewProject),
            FileRow::OpenProject => commands.push(UiCommand::OpenProject),
            FileRow::OpenRecent => {},
            FileRow::ShowInFileManager => commands.push(UiCommand::ShowProjectInFileManager),
            FileRow::Import => self.open_import(),
            FileRow::Export => self.open_export(),
            FileRow::ExportViewportImage => commands.push(UiCommand::ExportViewportImage),
            FileRow::ExportDrawing => commands.push(UiCommand::OpenPlotDialog),
            FileRow::Preferences => commands.push(UiCommand::OpenPreferences),
            FileRow::About => {
                self.show_about = true;
            },
            FileRow::Exit => commands.push(UiCommand::RequestExit),
        }
        assert(commands@ =~= old(commands)@ + row.asks(*project));
    }
}

/// Import and export are never open together once either was opened.
pub proof fn import_and_export_exclude_each_other(before: TransferState, row: FileRow)
    requires
        !(before.show_import && before.show_export),
    ensures
        !(row.opens(before).show_import && row.opens(before).show_export),
{
}

/// No two rows of the File menu share a place.
pub proof fn file_rows_are_distinct(a: FileRow, b: FileRow)
    ensures
        a.place() == b.place() ==> a == b,
{
}

/// Open a remembered project from the File menu.
pub fn open_recent(entry: &UiTrackedProjectEntry, commands: &mut Vec<UiCommand>)
    ensures
        final(commands)@ == old(commands)@.push(UiCommand::ActivateTrackedProject(entry.source)),
{
    commands.push(UiCommand::ActivateTrackedProject(entry.source.duplicate()));
}

/// Take a click on a switch of the View menu.
pub fn click_view(toggle: ViewToggle, commands: &mut Vec<UiCommand>)
    ensures
        final(commands)@ == old(commands)@.push(UiCommand::ToggleViewOption(toggle)),
{
    commands.push(UiCommand::ToggleViewOption(toggle));
}

/// A menu of a workspace.
#[derive(Clone, Copy, Debug, PartialEq, Eq, Structural)]
pub enum WorkspaceMenu {
    OreTriangulation,
    BlockModel,
    Design,
    Triangulation,
    Raster,
    PointCloud,
}

/// A row of a workspace's menu.
#[derive(Clone, Copy, Debug, PartialEq, Eq, Structural)]
pub enum MenuRow {
    CreateOreTriangulation,
    CreateBlockModel,
    /// Needs two or more crossing polylines to insert anything.
    InsertPointsAtIntersections,
    InsertPointAtElevation,
    SetAxis(Axis),
    /// Runs with nothing selected as well: its dialog picks in the viewport.
    CreateTriangulation,
    ClipByPolyline,
    SliceByZ,
    TrimToTopology,
    CutWithPitShell,
    MergeShell,
    BuildSolid,
    GenerateContours,
    UndrapeAll,
    CreateCloudTriangulation,
}

/// A submenu, which opens on the design selection.
#[derive(Clone, Copy, Debug, PartialEq, Eq, Structural)]
pub enum Submenu {
    InsertPoint,
    MoveTo,
}

impl WorkspaceMenu {
    pub open spec fn spec_title(self) -> Text {
        match self {
            WorkspaceMenu::OreTriangulation | WorkspaceMenu::Triangulation => key("ws-menubar-triangulation"),
            WorkspaceMenu::BlockModel => key("ws-menubar-block-model"),
            WorkspaceMenu::Design => key("ws-menubar-design"),
            WorkspaceMenu::Raster => key("ws-menubar-raster"),
            WorkspaceMenu::PointCloud => key("ws-menubar-point-cloud"),
        }
    }

    pub fn title(self) -> (r: Text)
        ensures
            r == self.spec_title(),
    {
        match self {
            WorkspaceMenu::OreTriangulation | WorkspaceMenu::Triangulation => key("ws-menubar-triangulation"),
            WorkspaceMenu::BlockModel => key("ws-menubar-block-model"),
            WorkspaceMenu::Design => key("ws-menubar-design"),
            WorkspaceMenu::Raster => key("ws-menubar-raster"),
            WorkspaceMenu::PointCloud => key("ws-menubar-point-cloud"),
        }
    }

    /// The rows of a menu, in order.
    pub open spec fn rows(self) -> Seq<MenuRow> {
        match self {
            WorkspaceMenu::OreTriangulation => seq![MenuRow::CreateOreTriangulation],
            WorkspaceMenu::BlockModel => seq![MenuRow::CreateBlockModel],
            WorkspaceMenu::Design => seq![
                MenuRow::InsertPointsAtIntersections,
                MenuRow::InsertPointAtElevation,
                MenuRow::SetAxis(Axis::X),
                MenuRow::SetAxis(Axis::Y),
                MenuRow::SetAxis(Axis::Z),
                MenuRow::CreateTriangulation,
            ],
            WorkspaceMenu::Triangulation => seq![
                MenuRow::ClipByPolyline,
                MenuRow::SliceByZ,
                MenuRow::TrimToTopology,
                MenuRow::CutWithPitShell,
                MenuRow::MergeShell,
                MenuRow::BuildSolid,
                MenuRow::GenerateContours,
            ],
            WorkspaceMenu::Raster => seq![MenuRow::UndrapeAll],
            WorkspaceMenu::PointCloud => seq![MenuRow::CreateCloudTriangulation],
        }
    }

    pub fn menu_rows(self) -> (r: Vec<MenuRow>)
        ensures
            r@ == self.rows(),
    {
        let mut r: Vec<MenuRow> = Vec::new();
        match self {
            WorkspaceMenu::OreTriangulation => r.push(MenuRow::CreateOreTriangulation),
            WorkspaceMenu::BlockModel => r.push(MenuRow::CreateBlockModel),
            WorkspaceMenu::Design => {
                r.push(MenuRow::InsertPointsAtIntersections);
                r.push(MenuRow::InsertPointAtElevation);
                r.push(MenuRow::SetAxis(Axis::X));
                r.push(MenuRow::SetAxis(Axis::Y));
                r.push(MenuRow::SetAxis(Axis::Z));
                r.push(MenuRow::CreateTriangulation);
            },
            WorkspaceMenu::Triangulation => {
                r.push(MenuRow::ClipByPolyline);
                r.push(MenuRow::SliceByZ);
                r.push(MenuRow::TrimToTopology);
                r.push(MenuRow::CutWithPitShell);
                r.push(MenuRow::MergeShell);
                r.push(MenuRow::BuildSolid);
                r.push(MenuRow::GenerateContours);
            },
            WorkspaceMenu::Raster => r.push(MenuRow::UndrapeAll),
            WorkspaceMenu::PointCloud => r.push(MenuRow::CreateCloudTriangulation),
        }
        assert(r@ =~= self.rows());
        r
    }
}

/// The menus of a workspace, in order. A menu that would open on nothing is left off, so
/// that Drill & Blast and Planning have none.
pub open spec fn menus_of(workspace: Workspace) -> Seq<WorkspaceMenu> {
    match workspace {
        Workspace::Production => seq![
            WorkspaceMenu::Design,
            WorkspaceMenu::Triangulation,
            WorkspaceMenu::Raster,
            WorkspaceMenu::PointCloud,
        ],
        Workspace::Geology => seq![WorkspaceMenu::OreTriangulation, WorkspaceMenu::BlockModel],
        Workspace::DrillAndBlast | Workspace::Planning => Seq::empty(),
    }
}

pub fn workspace_menus(workspace: Workspace) -> (r: Vec<WorkspaceMenu>)
    ensures
        r@ == menus_of(workspace),
{
    let mut r: Vec<WorkspaceMenu> = Vec::new();
    match workspace {
        Workspace::Production => {
            r.push(WorkspaceMenu::Design);
            r.push(WorkspaceMenu::Triangulation);
            r.push(WorkspaceMenu::Raster);
            r.push(WorkspaceMenu::PointCloud);
        },
        Workspace::Geology => {
            r.push(WorkspaceMenu::OreTriangulation);
            r.push(WorkspaceMenu::BlockModel);
        },
        Workspace::DrillAndBlast | Workspace::Planning => {},
    }
    assert(r@ =~= menus_of(workspace));
    r
}

impl Submenu {
    pub fn title(self) -> (r: Text)
        ensures
            r == (match self {
                Submenu::InsertPoint => key("ws-menubar-design-insert-point"),
                Submenu::MoveTo => key("ws-menubar-design-move-to"),
            }),
    {
        match self {
            Submenu::InsertPoint => key("ws-menubar-design-insert-point"),
            Submenu::MoveTo => key("ws-menubar-design-move-to"),
        }
    }
}

impl EditorState {
    /// Some design object is selected.
    pub open spec fn has_design_selection(self) -> bool {
        exists|id: ObjectId| #[trigger] self.selection.selected_handles@.contains(SceneEntityId::Object(id))
    }

    pub fn design_selected(&self) -> (r: bool)
        ensures
            r == self.has_design_selection(),
    {
        let handles = self.selection.selected_handles.as_vec();
        let mut i: usize = 0;
        while i < handles.len()
            invariant
                i <= handles@.len(),
                handles@.to_set() == self.selection.selected_handles@,
                forall|k: int| 0 <= k < i ==> !(#[trigger] handles@[k] is Object),
            decreases handles@.len() - i,
        {
            if let SceneEntityId::Object(id) = handles[i] {
                assert(handles@.to_set().contains(SceneEntityId::Object(id)));
                return true;
            }
            i = i + 1;
        }
        proof {
            assert forall|id: ObjectId| !#[trigger] self.selection.selected_handles@.contains(SceneEntityId::Object(id)) by {
                if self.selection.selected_handles@.contains(SceneEntityId::Object(id)) {
                    assert(handles@.contains(SceneEntityId::Object(id)));
                }
            }
        }
        false
    }
}

impl MenuRow {
    /// The submenu that a row stands in.
    pub open spec fn spec_submenu(self) -> Option<Submenu> {
        match self {
            MenuRow::InsertPointsAtIntersections | MenuRow::InsertPointAtElevation => Some(Submenu::InsertPoint),
            MenuRow::SetAxis(_) => Some(Submenu::MoveTo),
            _ => None,
        }
    }

    pub fn submenu(self) -> (r: Option<Submenu>)
        ensures
            r == self.spec_submenu(),
    {
        match self {
            MenuRow::InsertPointsAtIntersections | MenuRow::InsertPointAtElevation => Some(Submenu::InsertPoint),
            MenuRow::SetAxis(_) => Some(Submenu::MoveTo),
            _ => None,
        }
    }

    /// A rule stands before the row.
    pub fn opens_section(self) -> (r: bool)
        ensures
            r == (self == MenuRow::SetAxis(Axis::X) || self is CreateTriangulation || self is CutWithPitShell || self
                is GenerateContours),
    {
        match self {
            MenuRow::SetAxis(axis) => axis == Axis::X,
            MenuRow::CreateTriangulation | MenuRow::CutWithPitShell | MenuRow::GenerateContours => true,
            _ => false,
        }
    }

    pub open spec fn spec_label(self) -> Text {
        match self {
            MenuRow::CreateOreTriangulation => literal("Create Ore Triangulation..."),
            MenuRow::CreateBlockModel => literal("Create Block Model..."),
            MenuRow::InsertPointsAtIntersections => key("ws-menubar-design-insert-point-at-intersection"),
            MenuRow::InsertPointAtElevation => key("ws-menubar-design-insert-point-at-elevation"),
            MenuRow::SetAxis(axis) => crate::text::plain2(
                "%set% %axis%...",
                named("set", Arg::Keyed("common-set")),
                named("axis", Arg::AxisName(axis)),
            ),
            MenuRow::CreateTriangulation => key("ws-menubar-design-create-triangulation"),
            MenuRow::ClipByPolyline => literal("Clip Surface by Polyline..."),
            MenuRow::SliceByZ => literal("Slice Triangulation by Z Range..."),
            MenuRow::TrimToTopology => literal("Trim to Topology..."),
            MenuRow::CutWithPitShell => literal("Cut Topology with Pit Shell..."),
            MenuRow::MergeShell => literal("Merge Shell into Topology..."),
            MenuRow::BuildSolid => literal("Build Solid from Surfaces..."),
            MenuRow::GenerateContours => literal("Generate Contour Lines..."),
            MenuRow::UndrapeAll => literal("Undrape All"),
            MenuRow::CreateCloudTriangulation => literal("Create Triangulation..."),
        }
    }

    pub fn label(self) -> (r: Text)
        ensures
            r == self.spec_label(),
    {
        match self {
            MenuRow::CreateOreTriangulation => literal("Create Ore Triangulation..."),
            MenuRow::CreateBlockModel => literal("Create Block Model..."),
            MenuRow::InsertPointsAtIntersections => key("ws-menubar-design-insert-point-at-intersection"),
            MenuRow::InsertPointAtElevation => key("ws-menubar-design-insert-point-at-elevation"),
            MenuRow::SetAxis(axis) => crate::text::plain2(
                "%set% %axis%...",
                named("set", Arg::Keyed("common-set")),
                named("axis", Arg::AxisName(axis)),
            ),
            MenuRow::CreateTriangulation => key("ws-menubar-design-create-triangulation"),
            MenuRow::ClipByPolyline => literal("Clip Surface by Polyline..."),
            MenuRow::SliceByZ => literal("Slice Triangulation by Z Range..."),
            MenuRow::TrimToTopology => literal("Trim to Topology..."),
            MenuRow::CutWithPitShell => literal("Cut Topology with Pit Shell..."),
            MenuRow::MergeShell => literal("Merge Shell into Topology..."),
            MenuRow::BuildSolid => literal("Build Solid from Surfaces..."),
            MenuRow::GenerateContours => literal("Generate Contour Lines..."),
            MenuRow::UndrapeAll => literal("Undrape All"),
            MenuRow::CreateCloudTriangulation => literal("Create Triangulation..."),
        }
    }

    /// The row works: its submenu opens, and there is something for it to work on.
    pub open spec fn is_enabled(self, editor: EditorState, project: UiProjectView) -> bool {
        &&& self.spec_submenu() is Some ==> editor.has_design_selection()
        &&& match self {
            MenuRow::CreateOreTriangulation => project.block_models@.len() > 0,
            MenuRow::CreateBlockModel => project.has_loaded_holes(),
            MenuRow::InsertPointsAtIntersections => editor.drawing.canvas.selection_has_intersections,
            MenuRow::UndrapeAll => project.has_draped_raster(),
            MenuRow::CreateCloudTriangulation => project.has_loaded_cloud(),
            _ => true,
        }
    }

    pub fn enabled(self, editor: &EditorState, project: &UiProjectView) -> (r: bool)
        ensures
            r == self.is_enabled(*editor, *project),
    {
        if self.submenu().is_some() && !editor.design_selected() {
            return false;
        }
        match self {
            MenuRow::CreateOreTriangulation => project.block_models.len() > 0,
            MenuRow::CreateBlockModel => project.any_loaded_holes(),
            MenuRow::InsertPointsAtIntersections => editor.drawing.canvas.selection_has_intersections,
            MenuRow::UndrapeAll => project.any_draped_raster(),
            MenuRow::CreateCloudTriangulation => project.any_loaded_cloud(),
            _ => true,
        }
    }

    pub open spec fn spec_command(self) -> UiCommand {
        match self {
            MenuRow::CreateOreTriangulation => UiCommand::OpenCreateOreTriangulation,
            MenuRow::CreateBlockModel => UiCommand::OpenCreateBlockModel(None),
            MenuRow::InsertPointsAtIntersections => UiCommand::InsertPointsAtIntersections,
            MenuRow::InsertPointAtElevation => UiCommand::OpenInsertPointAtElevationDialog,
            MenuRow::SetAxis(axis) => UiCommand::OpenMoveToAxisDialog(axis),
            MenuRow::CreateTriangulation => UiCommand::OpenCreateTriangulation,
            MenuRow::ClipByPolyline => UiCommand::OpenCutTriangulationByPolyline,
            MenuRow::SliceByZ => UiCommand::OpenCutTriangulationByZ,
            MenuRow::TrimToTopology => UiCommand::OpenCutTriangulationBySurface,
            MenuRow::CutWithPitShell => UiCommand::OpenCutTopologyByPitShell,
            MenuRow::MergeShell => UiCommand::OpenIncludeSolidInTopology,
            MenuRow::BuildSolid => UiCommand::OpenBuildSolidFromSurfaces,
            MenuRow::GenerateContours => UiCommand::OpenContourTriangulation,
            MenuRow::UndrapeAll => UiCommand::UndrapeAllRasters,
            MenuRow::CreateCloudTriangulation => UiCommand::OpenPointCloudTin,
        }
    }

    pub fn command(self) -> (r: UiCommand)
        ensures
            r == self.spec_command(),
    {
        match self {
            MenuRow::CreateOreTriangulation => UiCommand::OpenCreateOreTriangulation,
            MenuRow::CreateBlockModel => UiCommand::OpenCreateBlockModel(None),
            MenuRow::InsertPointsAtIntersections => UiCommand::InsertPointsAtIntersections,
            MenuRow::InsertPointAtElevation => UiCommand::OpenInsertPointAtElevationDialog,
            MenuRow::SetAxis(axis) => UiCommand::OpenMoveToAxisDialog(axis),
            MenuRow::CreateTriangulation => UiCommand::OpenCreateTriangulation,
            MenuRow::ClipByPolyline => UiCommand::OpenCutTriangulationByPolyline,
            MenuRow::SliceByZ => UiCommand::OpenCutTriangulationByZ,
            MenuRow::TrimToTopology => UiCommand::OpenCutTriangulationBySurface,
            MenuRow::CutWithPitShell => UiCommand::OpenCutTopologyByPitShell,
            MenuRow::MergeShell => UiCommand::OpenIncludeSolidInTopology,
            MenuRow::BuildSolid => UiCommand::OpenBuildSolidFromSurfaces,
            MenuRow::GenerateContours => UiCommand::OpenContourTriangulation,
            MenuRow::UndrapeAll => UiCommand::UndrapeAllRasters,
            MenuRow::CreateCloudTriangulation => UiCommand::OpenPointCloudTin,
        }
    }

    /// Take a click on the row.
    pub fn click(self, editor: &EditorState, project: &UiProjectView, commands: &mut Vec<UiCommand>)
        ensures
            final(commands)@ == old(commands)@ + only_if(self.is_enabled(*editor, *project), self.spec_command()),
    {
        let enabled = self.enabled(editor, project);
        push_if(commands, enabled, self.command());
    }
}

/// Every row that works on the design selection is greyed out without one.
pub proof fn design_rows_need_a_selection(row: MenuRow, editor: EditorState, project: UiProjectView)
    requires
        !editor.has_design_selection(),
        row.is_enabled(editor, project),
    ensures
        WorkspaceMenu::Design.rows().contains(row) ==> row is CreateTriangulation,
{
}

/// Save, Save As, Import and Export need something to work on: Save unsaved work, the others
/// an open project. Going back to a project needs one to go back to, and everything else is
/// always there.
pub proof fn file_rows_need_what_they_work_on(row: FileRow, project: UiProjectView, platform: Platform)
    ensures
        row is Save ==> (row.is_enabled(project, platform) <==> exists|i: int|
            0 <= i < project.projects@.len() && (#[trigger] project.projects@[i]).is_unsaved(platform)),
        row is SaveAs || row is Import || row is Export ==> (row.is_enabled(project, platform) <==> project.active() is Some),
        row is OpenRecent ==> (row.is_enabled(project, platform) <==> crate::project_view::offered(project.tracked_projects@).len() > 0),
        row is ShowInFileManager ==> (row.is_enabled(project, platform) <==> project.active_path is Some),
        row is NewProject || row is OpenProject || row is ExportViewportImage || row is ExportDrawing || row is Preferences || row is About
            || row is Exit ==> row.is_enabled(project, platform),
        platform is Desktop ==> row.is_shown(platform),
        platform is Browser ==> (row.is_shown(platform) <==> !(row is SaveAs) && !(row is ShowInFileManager)),
{
}

/// A row of the File menu asks for one thing or opens one dialog, never both, and no two rows
/// ask for the same.
pub proof fn file_rows_do_one_thing(row: FileRow, other: FileRow, project: UiProjectView, before: TransferState)
    requires
        project.active() is Some,
    ensures
        row.asks(project).len() <= 1,
        row.asks(project).len() == 1 ==> row.opens(before) == before,
        row.asks(project).len() == 0 <==> row is Import || row is Export || row is About || row is OpenRecent,
        row.asks(project).len() == 1 && row.asks(project) == other.asks(project) ==> row == other,
        row is Save ==> row.asks(project)[0] is SaveProject,
        row is SaveAs ==> row.asks(project)[0] == UiCommand::SaveProjectAs((project.active()->0).runtime_id),
        row is NewProject ==> row.asks(project)[0] is NewProject,
        row is OpenProject ==> row.asks(project)[0] is OpenProject,
        row is ShowInFileManager ==> row.asks(project)[0] is ShowProjectInFileManager,
        row is ExportViewportImage ==> row.asks(project)[0] is ExportViewportImage,
        row is ExportDrawing ==> row.asks(project)[0] is OpenPlotDialog,
        row is Preferences ==> row.asks(project)[0] is OpenPreferences,
        row is Exit ==> row.asks(project)[0] is RequestExit,
        row is Import ==> row.opens(before).show_import && !row.opens(before).show_export,
        row is Export ==> row.opens(before).show_export && !row.opens(before).show_import,
        row is About ==> row.opens(before).show_about,
        !(row is About) ==> row.opens(before).show_about == before.show_about,
        !(row is Import) && !(row is Export) ==> row.opens(before).show_import == before.show_import && row.opens(before).show_export
            == before.show_export,
{
    if row.asks(project).len() == 1 && row.asks(project) == other.asks(project) {
        assert(row.asks(project)[0] == other.asks(project)[0]);
    }
}

/// Every row of the workspaces' menus asks for something of its own: no two rows ask for the
/// same, and setting a coordinate asks for the axis that the row names.
pub proof fn menu_rows_ask_for_different_things(row: MenuRow, other: MenuRow)
    ensures
        row.spec_command() == other.spec_command() ==> row == other,
        row matches MenuRow::SetAxis(axis) ==> row.spec_command() == UiCommand::OpenMoveToAxisDialog(axis),
        row is CreateOreTriangulation ==> row.spec_command() is OpenCreateOreTriangulation,
        row is CreateBlockModel ==> row.spec_command() == UiCommand::OpenCreateBlockModel(None),
        row is InsertPointsAtIntersections ==> row.spec_command() is InsertPointsAtIntersections,
        row is InsertPointAtElevation ==> row.spec_command() is OpenInsertPointAtElevationDialog,
        row is CreateTriangulation ==> row.spec_command() is OpenCreateTriangulation,
        row is ClipByPolyline ==> row.spec_command() is OpenCutTriangulationByPolyline,
        row is SliceByZ ==> row.spec_command() is OpenCutTriangulationByZ,
        row is TrimToTopology ==> row.spec_command() is OpenCutTriangulationBySurface,
        row is CutWithPitShell ==> row.spec_command() is OpenCutTopologyByPitShell,
        row is MergeShell ==> row.spec_command() is OpenIncludeSolidInTopology,
        row is BuildSolid ==> row.spec_command() is OpenBuildSolidFromSurfaces,
        row is GenerateContours ==> row.spec_command() is OpenContourTriangulation,
        row is UndrapeAll ==> row.spec_command() is UndrapeAllRasters,
        row is CreateCloudTriangulation ==> row.spec_command() is OpenPointCloudTin,
{
}

/// A row works exactly where there is something for it: a block model, a loaded dataset or
/// cloud, a draped raster, or selected designs, which for intersections have to cross.
pub proof fn menu_rows_need_what_they_work_on(row: MenuRow, editor: EditorState, project: UiProjectView)
    ensures
        row is CreateOreTriangulation ==> (row.is_enabled(editor, project) <==> project.block_models@.len() > 0),
        row is CreateBlockModel ==> (row.is_enabled(editor, project) <==> exists|i: int|
            0 <= i < project.drill_holes@.len() && (#[trigger] project.drill_holes@[i]).is_loaded),
        row is UndrapeAll ==> (row.is_enabled(editor, project) <==> exists|i: int|
            0 <= i < project.raster_textures@.len() && (#[trigger] project.raster_textures@[i]).is_draped),
        row is CreateCloudTriangulation ==> (row.is_enabled(editor, project) <==> exists|i: int|
            0 <= i < project.point_clouds@.len() && (#[trigger] project.point_clouds@[i]).is_loaded),
        row is SetAxis || row is InsertPointAtElevation ==> (row.is_enabled(editor, project) <==> exists|id: ObjectId| #[trigger]
            editor.selection.selected_handles@.contains(SceneEntityId::Object(id))),
        row is InsertPointsAtIntersections ==> (row.is_enabled(editor, project) <==> editor.has_design_selection()
            && editor.drawing.canvas.selection_has_intersections),
        row is CreateTriangulation || row is ClipByPolyline || row is SliceByZ || row is TrimToTopology || row is CutWithPitShell
            || row is MergeShell || row is BuildSolid || row is GenerateContours ==> row.is_enabled(editor, project),
{
}

/// Every row stands in exactly one menu, once; the design rows stand in their submenus.
pub proof fn rows_stand_in_one_menu(row: MenuRow, menu: WorkspaceMenu, other: WorkspaceMenu)
    ensures
        menu.rows().contains(row) && other.rows().contains(row) ==> menu == other,
        menu.rows().no_duplicates(),
        row is CreateOreTriangulation ==> WorkspaceMenu::OreTriangulation.rows().contains(row),
        row is CreateBlockModel ==> WorkspaceMenu::BlockModel.rows().contains(row),
        row is UndrapeAll ==> WorkspaceMenu::Raster.rows().contains(row),
        row is CreateCloudTriangulation ==> WorkspaceMenu::PointCloud.rows().contains(row),
        row.spec_submenu() is Some || row is CreateTriangulation ==> WorkspaceMenu::Design.rows().contains(row),
        row is ClipByPolyline || row is SliceByZ || row is TrimToTopology || row is CutWithPitShell || row is MergeShell || row is BuildSolid
            || row is GenerateContours ==> WorkspaceMenu::Triangulation.rows().contains(row),
        row.spec_submenu() == Some(Submenu::MoveTo) <==> row is SetAxis,
        row.spec_submenu() == Some(Submenu::InsertPoint) <==> row is InsertPointsAtIntersections || row is InsertPointAtElevation,
{
    let design = WorkspaceMenu::Design.rows();
    assert(design[0] is InsertPointsAtIntersections && design[1] is InsertPointAtElevation && design[5] is CreateTriangulation);
    assert(design[2] == MenuRow::SetAxis(Axis::X) && design[3] == MenuRow::SetAxis(Axis::Y) && design[4] == MenuRow::SetAxis(Axis::Z));
    let tri = WorkspaceMenu::Triangulation.rows();
    assert(tri[0] is ClipByPolyline && tri[1] is SliceByZ && tri[2] is TrimToTopology && tri[3] is CutWithPitShell && tri[4] is MergeShell
        && tri[5] is BuildSolid && tri[6] is GenerateContours);
    assert(WorkspaceMenu::OreTriangulation.rows()[0] is CreateOreTriangulation);
    assert(WorkspaceMenu::BlockModel.rows()[0] is CreateBlockModel);
    assert(WorkspaceMenu::Raster.rows()[0] is UndrapeAll);
    assert(WorkspaceMenu::PointCloud.rows()[0] is CreateCloudTriangulation);
}

/// Production and Geology have their own menus and share none; Drill & Blast and Planning
/// have none.
pub proof fn workspaces_have_their_own_menus(menu: WorkspaceMenu, a: Workspace, b: Workspace)
    ensures
        menus_of(a).contains(menu) && menus_of(b).contains(menu) ==> a == b,
        menus_of(a).no_duplicates(),
        menus_of(Workspace::DrillAndBlast).len() == 0 && menus_of(Workspace::Planning).len() == 0,
        menus_of(Workspace::Geology).contains(menu) <==> menu is OreTriangulation || menu is BlockModel,
        menus_of(Workspace::Production).contains(menu) <==> menu is Design || menu is Triangulation || menu is Raster || menu is PointCloud,
{
    let geology = menus_of(Workspace::Geology);
    assert(geology[0] is OreTriangulation && geology[1] is BlockModel);
    let production = menus_of(Workspace::Production);
    assert(production[0] is Design && production[1] is Triangulation && production[2] is Raster && production[3] is PointCloud);
}

/// The rows of the File menu stand in the order of their sections: saving, then opening, then
/// moving data, then the application's own.
pub proof fn file_rows_stand_in_their_sections(row: FileRow)
    ensures
        0 <= row.place() < FILE_ROWS,
        row is Save || row is SaveAs <==> row.place() < FileRow::NewProject.place(),
        row is NewProject || row is OpenProject || row is OpenRecent || row is ShowInFileManager <==> FileRow::NewProject.place()
            <= row.place() < FileRow::Import.place(),
        row is Import || row is Export || row is ExportViewportImage || row is ExportDrawing <==> FileRow::Import.place() <= row.place()
            < FileRow::Preferences.place(),
        FileRow::Exit.place() == FILE_ROWS - 1,
        FileRow::Save.place() == 0,
{
}

/// The menus of one workspace have different titles.
pub proof fn menu_titles_tell_menus_apart(workspace: Workspace, a: WorkspaceMenu, b: WorkspaceMenu)
    requires
        menus_of(workspace).contains(a),
        menus_of(workspace).contains(b),
        a.spec_title() == b.spec_title(),
    ensures
        a == b,
{
    workspaces_have_their_own_menus(a, workspace, workspace);
    workspaces_have_their_own_menus(b, workspace, workspace);
}

/// A row of a workspace's menu is called after what its dialog does.
pub proof fn menu_rows_have_their_label(row: MenuRow)
    ensures
        row is CreateOreTriangulation ==> row.spec_label() == literal("Create Ore Triangulation..."),
        row is CreateBlockModel ==> row.spec_label() == literal("Create Block Model..."),
        row is InsertPointsAtIntersections ==> row.spec_label() == key("ws-menubar-design-insert-point-at-intersection"),
        row is InsertPointAtElevation ==> row.spec_label() == key("ws-menubar-design-insert-point-at-elevation"),
        row matches MenuRow::SetAxis(axis) ==> row.spec_label() == crate::text::plain2(
            "%set% %axis%...",
            named("set", Arg::Keyed("common-set")),
            named("axis", Arg::AxisName(axis)),
        ),
        row is CreateTriangulation ==> row.spec_label() == key("ws-menubar-design-create-triangulation"),
        row is ClipByPolyline ==> row.spec_label() == literal("Clip Surface by Polyline..."),
        row is SliceByZ ==> row.spec_label() == literal("Slice Triangulation by Z Range..."),
        row is TrimToTopology ==> row.spec_label() == literal("Trim to Topology..."),
        row is CutWithPitShell ==> row.spec_label() == literal("Cut Topology with Pit Shell..."),
        row is MergeShell ==> row.spec_label() == literal("Merge Shell into Topology..."),
        row is BuildSolid ==> row.spec_label() == literal("Build Solid from Surfaces..."),
        row is GenerateContours ==> row.spec_label() == literal("Generate Contour Lines..."),
        row is UndrapeAll ==> row.spec_label() == literal("Undrape All"),
        row is CreateCloudTriangulation ==> row.spec_label() == literal("Create Triangulation..."),
{
}

/// A row of the File menu is called after what it does, and the rows follow each other from
/// saving to leaving.
pub proof fn file_rows_have_their_label_and_place(row: FileRow, windows: bool)
    ensures
        row is Save ==> row.spec_label(windows) == key("menu-file-save-project"),
        row is SaveAs ==> row.spec_label(windows) == key("menu-file-save-project-as"),
        row is NewProject ==> row.spec_label(windows) == key("menu-file-new-project"),
        row is OpenProject ==> row.spec_label(windows) == key("menu-file-open-project"),
        row is OpenRecent ==> row.spec_label(windows) == key("menu-file-open-recent"),
        row is ShowInFileManager ==> row.spec_label(windows) == show_project_label(windows),
        row is Import ==> row.spec_label(windows) == key("menu-file-import"),
        row is Export ==> row.spec_label(windows) == key("menu-file-export"),
        row is ExportViewportImage ==> row.spec_label(windows) == key("menu-file-export-viewport-image"),
        row is ExportDrawing ==> row.spec_label(windows) == key("menu-file-export-engineering-drawing"),
        row is Preferences ==> row.spec_label(windows) == key("preferences-title"),
        row is About ==> row.spec_label(windows) == key("menu-file-about"),
        row is Exit ==> row.spec_label(windows) == key("menu-file-exit"),
        FileRow::SaveAs.place() == FileRow::Save.place() + 1,
        FileRow::NewProject.place() == FileRow::SaveAs.place() + 1,
        FileRow::OpenProject.place() == FileRow::NewProject.place() + 1,
        FileRow::OpenRecent.place() == FileRow::OpenProject.place() + 1,
        FileRow::ShowInFileManager.place() == FileRow::OpenRecent.place() + 1,
        FileRow::Import.place() == FileRow::ShowInFileManager.place() + 1,
        FileRow::Export.place() == FileRow::Import.place() + 1,
        FileRow::ExportViewportImage.place() == FileRow::Export.place() + 1,
        FileRow::ExportDrawing.place() == FileRow::ExportViewportImage.place() + 1,
        FileRow::Preferences.place() == FileRow::ExportDrawing.place() + 1,
        FileRow::About.place() == FileRow::Preferences.place() + 1,
        FileRow::Exit.place() == FileRow::About.place() + 1,
{
}

/// A menu has the title of what its rows work on, so that triangulations have one title in
/// every workspace.
pub proof fn menus_have_the_title_of_their_rows(menu: WorkspaceMenu)
    ensures
        menu is OreTriangulation || menu is Triangulation <==> menu.spec_title() == key("ws-menubar-triangulation"),
        menu is BlockModel <==> menu.spec_title() == key("ws-menubar-block-model"),
        menu is Design <==> menu.spec_title() == key("ws-menubar-design"),
        menu is Raster <==> menu.spec_title() == key("ws-menubar-raster"),
        menu is PointCloud <==> menu.spec_title() == key("ws-menubar-point-cloud"),
{
    reveal_strlit("ws-menubar-triangulation");
    reveal_strlit("ws-menubar-block-model");
    reveal_strlit("ws-menubar-design");
    reveal_strlit("ws-menubar-raster");
    reveal_strlit("ws-menubar-point-cloud");
}

} // verus!
