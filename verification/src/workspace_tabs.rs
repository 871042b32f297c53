//! The workspace tabs: switching between them and dragging them about.
use crate::command::UiCommand;
use crate::editor::{BlastingState, EditorState, WorkspaceState};
use crate::lists::copied;
use crate::number::{Real32, Real64};
use crate::state::blasting::TieState;
use crate::tools::ActiveTool;
use crate::workspace::{PlanningPage, Workspace};
use vstd::prelude::*;

verus! {

impl EditorState {
    /// The tool in hand belongs to the workspace that is entered. Picking, the slice line
    /// and the centre of rotation belong everywhere; the collar tools to Drill & Blast; the
    /// drawing tools to production and to the planning steps that draw cuts.
    pub open spec fn tool_survives(self, workspace: Workspace) -> bool {
        match self.drawing.tools.active_tool {
            ActiveTool::NoTool | ActiveTool::VerticalSlice | ActiveTool::PickRotationCentre => true,
            ActiveTool::MoveCollar | ActiveTool::RotateCollar | ActiveTool::TieHoles | ActiveTool::SetInitiationPoint => workspace
                is DrillAndBlast,
            _ => workspace is Production || (EditorState {
                workspace: WorkspaceState { active: workspace, ..self.workspace },
                ..self
            }).on_cut_step(),
        }
    }

    /// A pattern that is being laid out is closed on the way out of Drill & Blast.
    pub open spec fn closes_pattern(self, workspace: Workspace) -> bool {
        !(workspace is DrillAndBlast) && self.blasting.pattern.open
    }

    /// Another workspace was entered.
    pub open spec fn entered(self, before: EditorState, workspace: Workspace, preview_diameter: Real64) -> bool {
        &&& self.workspace == (WorkspaceState { active: workspace, ..before.workspace })
        &&& self.blasting.tie.anchor is None
        &&& self.blasting.tie.preview@.len() == 0
        &&& self.blasting.tie.initiation_dialog is None
        &&& self.blasting.tie == (TieState {
            anchor: None,
            preview: self.blasting.tie.preview,
            anchor_world: None,
            path_end_world: None,
            initiation_dialog: None,
            ..before.blasting.tie
        })
        &&& if before.closes_pattern(workspace) {
            &&& self.blasting.pattern.cleared_from(before.blasting.pattern)
            &&& self.blasting.preview.is_reset(before.blasting.pattern.depth, preview_diameter)
            &&& self.drawing == (crate::state::drawing::DrawingState {
                tools: crate::state::drawing::ToolState {
                    highlight_id: None,
                    pick_hover_label: None,
                    ..before.drawing.tools
                },
                ..before.drawing
            })
        } else {
            &&& self.blasting.pattern == before.blasting.pattern
            &&& self.blasting.preview == before.blasting.preview
            &&& self.drawing == before.drawing
        }
        &&& self.blasting == (BlastingState {
            pattern: self.blasting.pattern,
            preview: self.blasting.preview,
            tie: self.blasting.tie,
            ..before.blasting
        })
        &&& self == (EditorState {
            workspace: self.workspace,
            blasting: self.blasting,
            drawing: self.drawing,
            ..before
        })
    }

    /// Open a workspace, putting down anything the tools it does not carry had picked up.
    ///
    /// A selection is made in one discipline's terms, so it is left behind. Flying and the
    /// slice view go along, and so does the cursor mode.
    pub fn select_workspace(&mut self, workspace: Workspace, preview_diameter: Real64, commands: &mut Vec<UiCommand>)
        ensures
            old(self).workspace.active == workspace ==> *final(self) == *old(self) && final(commands)@ == old(commands)@,
            old(self).workspace.active != workspace ==> {
                &&& final(self).entered(*old(self), workspace, preview_diameter)
                &&& final(commands)@ == (if old(self).tool_survives(workspace) {
                    old(commands)@.push(UiCommand::ClearSelection)
                } else {
                    old(commands)@.push(UiCommand::ClearSelection).push(UiCommand::SetActiveTool(ActiveTool::NoTool))
                })
            },
    {
        if self.workspace.active == workspace {
            return;
        }
        self.workspace.active = workspace;
        if workspace != Workspace::DrillAndBlast && self.blasting.pattern.open {
            self.close_drill_pattern(preview_diameter);
        }
        let _running = self.end_tie_chain();
        self.blasting.tie.initiation_dialog = None;
        commands.push(UiCommand::ClearSelection);
        let survives = match self.drawing.tools.active_tool {
            ActiveTool::NoTool | ActiveTool::VerticalSlice | ActiveTool::PickRotationCentre => true,
            ActiveTool::MoveCollar | ActiveTool::RotateCollar | ActiveTool::TieHoles | ActiveTool::SetInitiationPoint => workspace
                == Workspace::DrillAndBlast,
            _ => workspace.has_production_tools() || self.is_planning_cut_step(),
        };
        if !survives {
            commands.push(UiCommand::SetActiveTool(ActiveTool::NoTool));
        }
    }
}

/// Entering a workspace leaves no tie-in run or initiation dialog behind, keeps the modes
/// of the view and the cursor mode, and keeps the order of the tabs.
pub proof fn entering_keeps_modes(before: EditorState, after: EditorState, workspace: Workspace, preview_diameter: Real64)
    requires
        after.entered(before, workspace, preview_diameter),
    ensures
        after.workspace.active == workspace,
        after.workspace.order == before.workspace.order,
        after.view == before.view,
        after.drawing.tools.cursor_mode == before.drawing.tools.cursor_mode,
        after.blasting.tie.anchor is None,
        after.blasting.tie.initiation_dialog is None,
        !(workspace is DrillAndBlast) && before.blasting.pattern.open ==> !after.blasting.pattern.open,
{
}

/// A collar tool never comes along into another workspace than Drill & Blast, and picking
/// always does.
pub proof fn tools_stay_with_their_discipline(editor: EditorState, workspace: Workspace)
    ensures
        editor.tool_survives(workspace) && (editor.drawing.tools.active_tool is MoveCollar
            || editor.drawing.tools.active_tool is RotateCollar || editor.drawing.tools.active_tool is TieHoles
            || editor.drawing.tools.active_tool is SetInitiationPoint) ==> workspace is DrillAndBlast,
        editor.drawing.tools.active_tool is NoTool ==> editor.tool_survives(workspace),
        workspace is Geology && editor.drawing.tools.active_tool is MakePoly ==> !editor.tool_survives(workspace),
{
}

/// A tab that is being dragged. The drag previews the order; only releasing commits it.
#[derive(Clone, Debug, PartialEq)]
pub struct WorkspaceTabDrag {
    pub workspace: Workspace,
    pub order: Vec<Workspace>,
    pub grab_offset: Real32,
}

/// The place of a workspace, from one on.
pub open spec fn place_from(order: Seq<Workspace>, workspace: Workspace, from: int) -> int
    decreases order.len() - from,
{
    if from < 0 || from >= order.len() || order[from] == workspace {
        from
    } else {
        place_from(order, workspace, from + 1)
    }
}

pub open spec fn place_of(order: Seq<Workspace>, workspace: Workspace) -> int {
    place_from(order, workspace, 0)
}

fn find_place(order: &Vec<Workspace>, workspace: Workspace) -> (r: usize)
    requires
        order@.contains(workspace),
    ensures
        r == place_of(order@, workspace),
        r < order@.len(),
        order@[r as int] == workspace,
{
    let mut i: usize = 0;
    while i < order.len()
        invariant
            i <= order@.len(),
            place_of(order@, workspace) == place_from(order@, workspace, i as int),
            forall|k: int| 0 <= k < i ==> order@[k] != workspace,
            order@.contains(workspace),
        decreases order@.len() - i,
    {
        if order[i] == workspace {
            return i;
        }
        i = i + 1;
    }
    proof {
        let k = choose|k: int| 0 <= k < order@.len() && order@[k] == workspace;
        assert(order@[k] != workspace);
    }
    i
}

/// Where a tab goes to the left: past every neighbour whose middle it has passed.
pub open spec fn slid_left(centers: Seq<Real32>, center: Real32, place: int) -> int
    decreases place,
{
    if place > 0 && center.lt_number(centers[place - 1]) {
        slid_left(centers, center, place - 1)
    } else {
        place
    }
}

/// Where a tab goes to the right.
pub open spec fn slid_right(centers: Seq<Real32>, center: Real32, place: int) -> int
    decreases centers.len() - place,
{
    if place + 1 < centers.len() && centers[place + 1].lt_number(center) {
        slid_right(centers, center, place + 1)
    } else {
        place
    }
}

/// Where a dragged tab ends up.
pub open spec fn slid(centers: Seq<Real32>, center: Real32, place: int) -> int {
    slid_right(centers, center, slid_left(centers, center, place))
}

/// An order with one entry moved to another place.
pub open spec fn moved_to(order: Seq<Workspace>, from: int, to: int) -> Seq<Workspace> {
    order.remove(from).insert(to, order[from])
}

impl WorkspaceTabDrag {
    /// The order is one of all the tabs, and the dragged tab is among them.
    pub open spec fn well_formed(self) -> bool {
        &&& self.order@.contains(self.workspace)
        &&& self.order@.no_duplicates()
    }

    /// Slide the dragged tab to where the pointer has it, given the middles of the tabs as
    /// they stand and the middle of the dragged one.
    pub fn drag_over(&mut self, center: Real32, centers: &Vec<Real32>)
        requires
            old(self).well_formed(),
            centers@.len() == old(self).order@.len(),
        ensures
            ({
                let place = place_of(old(self).order@, old(self).workspace);
                let target = slid(centers@, center, place);
                &&& 0 <= target < old(self).order@.len()
                &&& final(self).order@ == moved_to(old(self).order@, place, target)
            }),
            final(self).well_formed(),
            final(self).workspace == old(self).workspace,
            final(self).grab_offset == old(self).grab_offset,
    {
        let start = find_place(&self.order, self.workspace);
        let ghost given = self.order@;
        let mut index: usize = start;
        assert(moved_to(given, start as int, start as int) =~= given);
        while index > 0 && center.less(centers[index - 1])
            invariant
                index <= start < given.len(),
                centers@.len() == given.len(),
                self.order@.len() == given.len(),
                self.order@ == moved_to(given, start as int, index as int),
                slid_left(centers@, center, start as int) == slid_left(centers@, center, index as int),
                self.workspace == old(self).workspace,
                self.grab_offset == old(self).grab_offset,
                given == old(self).order@,
            decreases index,
        {
            let left = self.order[index - 1];
            let held = self.order[index];
            self.order.set(index, left);
            self.order.set(index - 1, held);
            index = index - 1;
            assert(self.order@ =~= moved_to(given, start as int, index as int));
        }
        let ghost middle = index as int;
        assert(slid_left(centers@, center, start as int) == middle);
        while index < self.order.len() - 1 && centers[index + 1].less(center)
            invariant
                index < given.len(),
                start < given.len(),
                centers@.len() == given.len(),
                self.order@.len() == given.len(),
                self.order@ == moved_to(given, start as int, index as int),
                slid_right(centers@, center, middle) == slid_right(centers@, center, index as int),
                self.workspace == old(self).workspace,
                self.grab_offset == old(self).grab_offset,
                given == old(self).order@,
            decreases given.len() - index,
        {
            let right = self.order[index + 1];
            let held = self.order[index];
            self.order.set(index, right);
            self.order.set(index + 1, held);
            index = index + 1;
            assert(self.order@ =~= moved_to(given, start as int, index as int));
        }
        proof {
            lemma_moved_keeps(given, start as int, index as int);
        }
    }

    /// What the tab would stand before; nothing where it is the last.
    pub open spec fn spec_before(self) -> Option<Workspace> {
        let place = place_of(self.order@, self.workspace);
        if place + 1 < self.order@.len() {
            Some(self.order@[place + 1])
        } else {
            None
        }
    }

    /// Let go of the tab: an order that differs from the current one is asked for.
    pub fn release(&self, current: &[Workspace; 4], commands: &mut Vec<UiCommand>)
        requires
            self.well_formed(),
        ensures
            final(commands)@ == (if self.order@ == current@ {
                old(commands)@
            } else {
                old(commands)@.push(UiCommand::ReorderWorkspace { workspace: self.workspace, before: self.spec_before() })
            }),
    {
        if same_order(&self.order, current) {
            return;
        }
        let index = find_place(&self.order, self.workspace);
        let before = if index < self.order.len() - 1 {
            Some(self.order[index + 1])
        } else {
            None
        };
        commands.push(UiCommand::ReorderWorkspace { workspace: self.workspace, before });
    }
}

fn same_order(order: &Vec<Workspace>, current: &[Workspace; 4]) -> (r: bool)
    ensures
        r == (order@ == current@),
{
    if order.len() != 4 {
        return false;
    }
    let mut i: usize = 0;
    while i < 4
        invariant
            i <= 4,
            order@.len() == 4,
            forall|k: int| 0 <= k < i ==> order@[k] == current@[k],
        decreases 4 - i,
    {
        if order[i] != current[i] {
            return false;
        }
        i = i + 1;
    }
    assert(order@ =~= current@);
    true
}

proof fn lemma_moved_keeps(order: Seq<Workspace>, from: int, to: int)
    requires
        0 <= from < order.len(),
        0 <= to < order.len(),
        order.no_duplicates(),
    ensures
        moved_to(order, from, to).no_duplicates(),
        moved_to(order, from, to).contains(order[from]),
        moved_to(order, from, to).len() == order.len(),
        forall|workspace: Workspace| order.contains(workspace) ==> #[trigger] moved_to(order, from, to).contains(workspace),
{
    let moved = moved_to(order, from, to);
    assert(moved[to] == order[from]);
    assert forall|i: int, j: int| 0 <= i < moved.len() && 0 <= j < moved.len() && i != j implies moved[i] != moved[j] by {
        let a = source(i, from, to);
        let b = source(j, from, to);
        assert(moved[i] == order[a]);
        assert(moved[j] == order[b]);
    }
    assert forall|workspace: Workspace| order.contains(workspace) implies #[trigger] moved.contains(workspace) by {
        let k = choose|k: int| 0 <= k < order.len() && order[k] == workspace;
        if k != from {
            let removed = if k < from {
                k
            } else {
                k - 1
            };
            let place = if removed < to {
                removed
            } else {
                removed + 1
            };
            assert(moved[place] == workspace);
        }
    }
}

/// Where an entry of a moved order came from.
spec fn source(place: int, from: int, to: int) -> int {
    if place == to {
        from
    } else {
        let removed = if place < to {
            place
        } else {
            place - 1
        };
        if removed < from {
            removed
        } else {
            removed + 1
        }
    }
}

/// However a tab is dragged, every workspace keeps exactly one tab, and the others keep
/// their order among themselves.
pub proof fn dragging_permutes_the_tabs(order: Seq<Workspace>, from: int, to: int, workspace: Workspace)
    requires
        0 <= from < order.len(),
        0 <= to < order.len(),
        order.no_duplicates(),
    ensures
        moved_to(order, from, to).no_duplicates(),
        moved_to(order, from, to).len() == order.len(),
        order.contains(workspace) <==> moved_to(order, from, to).contains(workspace),
        moved_to(order, from, to).remove(to) == order.remove(from),
{
    let moved = moved_to(order, from, to);
    lemma_moved_keeps(order, from, to);
    if moved.contains(workspace) {
        let k = choose|k: int| 0 <= k < moved.len() && moved[k] == workspace;
        assert(moved[k] == order[source(k, from, to)]);
    }
    assert(moved.remove(to) =~= order.remove(from));
}

/// An order with one workspace put before another, or last.
pub open spec fn put_before(order: Seq<Workspace>, workspace: Workspace, before: Option<Workspace>) -> Seq<Workspace> {
    let rest = order.remove(place_of(order, workspace));
    match before {
        Some(other) => rest.insert(place_of(rest, other), workspace),
        None => rest.push(workspace),
    }
}

proof fn lemma_place(order: Seq<Workspace>, workspace: Workspace, place: int, from: int)
    requires
        order.no_duplicates(),
        0 <= from <= place < order.len(),
        order[place] == workspace,
    ensures
        place_from(order, workspace, from) == place,
    decreases place - from,
{
    if from < place {
        assert(order[from] != workspace);
        lemma_place(order, workspace, place, from + 1);
    }
}

/// What a released drag asks for gives the order that it showed.
pub proof fn released_order_is_the_one_shown(current: Seq<Workspace>, drag: WorkspaceTabDrag, from: int, to: int)
    requires
        current.no_duplicates(),
        0 <= from < current.len(),
        0 <= to < current.len(),
        drag.workspace == current[from],
        drag.order@ == moved_to(current, from, to),
    ensures
        put_before(current, drag.workspace, drag.spec_before()) == drag.order@,
{
    let shown = drag.order@;
    let rest = current.remove(from);
    lemma_moved_keeps(current, from, to);
    lemma_place(current, drag.workspace, from, 0);
    lemma_place(shown, drag.workspace, to, 0);
    assert(shown[to] == drag.workspace);
    if to + 1 < shown.len() {
        let other = shown[to + 1];
        assert(rest[to] == other);
        assert(rest.no_duplicates()) by {
            assert forall|i: int, j: int| 0 <= i < rest.len() && 0 <= j < rest.len() && i != j implies rest[i] != rest[j] by {
                let a = if i < from {
                    i
                } else {
                    i + 1
                };
                let b = if j < from {
                    j
                } else {
                    j + 1
                };
                assert(rest[i] == current[a] && rest[j] == current[b]);
            }
        }
        lemma_place(rest, other, to, 0);
        assert(put_before(current, drag.workspace, drag.spec_before()) =~= shown);
    } else {
        assert(put_before(current, drag.workspace, drag.spec_before()) =~= shown);
    }
}

/// The order in which the tabs stand: the one that a drag shows, otherwise the current one.
pub open spec fn standing(drag: Option<WorkspaceTabDrag>, current: Seq<Workspace>) -> Seq<Workspace> {
    match drag {
        Some(drag) => drag.order@,
        None => current,
    }
}

pub fn standing_order(drag: &Option<WorkspaceTabDrag>, current: &[Workspace; 4]) -> (r: Vec<Workspace>)
    ensures
        r@ == standing(*drag, current@),
{
    match drag {
        Some(drag) => copied(&drag.order),
        None => {
            let mut order: Vec<Workspace> = Vec::new();
            order.push(current[0]);
            order.push(current[1]);
            order.push(current[2]);
            order.push(current[3]);
            assert(order@ =~= current@);
            order
        },
    }
}

/// Pick up a tab that the pointer starts to drag, `grab_offset` into it. Nothing is picked
/// up in a frame in which Escape cancels.
pub fn begin_drag(
    drag: Option<WorkspaceTabDrag>,
    grabbed: Option<(Workspace, Real32)>,
    cancelled: bool,
    current: &[Workspace; 4],
) -> (r: Option<WorkspaceTabDrag>)
    requires
        drag matches Some(drag) ==> drag.well_formed(),
        grabbed matches Some(grabbed) ==> standing(drag, current@).contains(grabbed.0),
        current@.no_duplicates(),
    ensures
        grabbed is Some && !cancelled ==> r is Some && (r->0).workspace == (grabbed->0).0 && (r->0).order@ == standing(drag, current@)
            && (r->0).grab_offset == (grabbed->0).1,
        grabbed is None || cancelled ==> r == drag,
        r matches Some(drag) ==> drag.well_formed(),
{
    if cancelled {
        return drag;
    }
    match grabbed {
        Some(grabbed) => {
            let order = standing_order(&drag, current);
            Some(WorkspaceTabDrag { workspace: grabbed.0, order, grab_offset: grabbed.1 })
        },
        None => drag,
    }
}

/// What becomes of a drag at the end of a frame: Escape drops it, releasing commits it, and
/// a button that is no longer down drops it.
pub fn settle_drag(
    drag: Option<WorkspaceTabDrag>,
    cancelled: bool,
    any_released: bool,
    primary_down: bool,
    current: &[Workspace; 4],
    commands: &mut Vec<UiCommand>,
) -> (r: Option<WorkspaceTabDrag>)
    requires
        drag matches Some(drag) ==> drag.well_formed(),
    ensures
        r == (if cancelled || any_released || !primary_down {
            None
        } else {
            drag
        }),
        final(commands)@ == (match drag {
            Some(drag) if !cancelled && any_released && drag.order@ != current@ => old(commands)@.push(
                UiCommand::ReorderWorkspace { workspace: drag.workspace, before: drag.spec_before() },
            ),
            _ => old(commands)@,
        }),
{
    if cancelled {
        return None;
    }
    if any_released {
        if let Some(drag) = drag {
            drag.release(current, commands);
        }
        return None;
    }
    if primary_down {
        drag
    } else {
        None
    }
}

/// The order in which tabs are painted: the dragged one last, so that it travels above its
/// sliding neighbours.
pub open spec fn painted(order: Seq<Workspace>, dragged: Option<Workspace>) -> Seq<Workspace> {
    match dragged {
        Some(workspace) if order.contains(workspace) => order.remove(place_of(order, workspace)).push(workspace),
        _ => order,
    }
}

pub fn paint_order(order: Vec<Workspace>, dragged: Option<Workspace>) -> (r: Vec<Workspace>)
    requires
        order@.no_duplicates(),
    ensures
        r@ == painted(order@, dragged),
{
    let mut tabs = order;
    let ghost given = tabs@;
    if let Some(workspace) = dragged {
        let mut i: usize = 0;
        while i < tabs.len()
            invariant
                i <= tabs@.len(),
                tabs@ == given,
                given == order@,
                given.no_duplicates(),
                dragged == Some(workspace),
                forall|k: int| 0 <= k < i ==> tabs@[k] != workspace,
            decreases tabs@.len() - i,
        {
            if tabs[i] == workspace {
                proof {
                    lemma_place(tabs@, workspace, i as int, 0);
                    assert(tabs@.contains(workspace));
                }
                let held = tabs.remove(i);
                tabs.push(held);
                assert(tabs@ =~= painted(given, dragged));
                return tabs;
            }
            i = i + 1;
        }
    }
    tabs
}

/// What a workspace tab shows about itself.
#[derive(Clone, Copy, Debug, PartialEq, Eq, Structural)]
pub enum TabState {
    Active,
    Inactive,
    /// There is nothing behind the tab yet.
    Disabled,
}

impl EditorState {
    pub fn tab_state(&self, workspace: Workspace) -> (r: TabState)
        ensures
            r == (if self.workspace.active == workspace {
                TabState::Active
            } else {
                TabState::Inactive
            }),
    {
        if !workspace.implemented() {
            TabState::Disabled
        } else if self.workspace.active == workspace {
            TabState::Active
        } else {
            TabState::Inactive
        }
    }

    /// Take a click on a planning page, which works in its own workspace.
    pub fn click_planning_page(&self, page: PlanningPage, commands: &mut Vec<UiCommand>)
        ensures
            final(commands)@ == (if self.workspace.active is Planning {
                old(commands)@.push(UiCommand::SetPlanningPage(page))
            } else {
                old(commands)@
            }),
    {
        if self.workspace.active == Workspace::Planning {
            commands.push(UiCommand::SetPlanningPage(page));
        }
    }
}

/// The fill of a tab: the panel surface for the open workspace, the bar itself for the
/// others, and how far it is shifted.
#[derive(Clone, Copy, Debug, PartialEq, Eq, Structural)]
pub struct TabFill {
    pub from_panel: bool,
    pub shift: i16,
}

/// An available tab lights up under the pointer, away from the background in either theme.
pub fn tab_fill(dark_mode: bool, state: TabState, hovered: bool) -> (r: TabFill)
    ensures
        r.from_panel == (state is Active),
        r.shift == (if !hovered || state is Disabled {
            0int
        } else if dark_mode {
            6
        } else {
            -6
        }),
{
    let shift: i16 = if !hovered || state == TabState::Disabled {
        0
    } else if dark_mode {
        6
    } else {
        -6
    };
    TabFill { from_panel: state == TabState::Active, shift }
}

/// Which tools come along into a workspace: picking, the slice line and the centre of rotation
/// into every one, the collar tools into Drill & Blast alone, and the drawing tools into
/// production and onto the planning steps that draw cuts.
pub proof fn tools_come_along_where_they_work(editor: EditorState, workspace: Workspace)
    ensures
        ({
            let tool = editor.drawing.tools.active_tool;
            let everywhere = tool is NoTool || tool is VerticalSlice || tool is PickRotationCentre;
            let collar = tool is MoveCollar || tool is RotateCollar || tool is TieHoles || tool is SetInitiationPoint;
            let entered = EditorState { workspace: WorkspaceState { active: workspace, ..editor.workspace }, ..editor };
            &&& everywhere ==> editor.tool_survives(workspace)
            &&& collar ==> (editor.tool_survives(workspace) <==> workspace is DrillAndBlast)
            &&& !everywhere && !collar && workspace is Production ==> editor.tool_survives(workspace)
            &&& !everywhere && !collar && (workspace is Geology || workspace is DrillAndBlast) ==> !editor.tool_survives(workspace)
            &&& !everywhere && !collar && workspace is Planning ==> (editor.tool_survives(workspace) <==> entered.on_cut_step())
        }),
        editor.closes_pattern(workspace) <==> editor.blasting.pattern.open && !(workspace is DrillAndBlast),
{
}

/// A dragged tab stops at the first neighbour whose middle it has not passed: every tab that
/// it went past has its middle on the far side, and the next one has not.
pub proof fn dragged_tabs_stop_at_the_middle(centers: Seq<Real32>, center: Real32, place: int)
    requires
        0 <= place < centers.len(),
    ensures
        ({
            let left = slid_left(centers, center, place);
            let right = slid_right(centers, center, place);
            &&& 0 <= left <= place <= right < centers.len()
            &&& forall|i: int| left <= i < place ==> center.lt_number(#[trigger] centers[i])
            &&& left > 0 ==> !center.lt_number(centers[left - 1])
            &&& forall|i: int| place < i <= right ==> (#[trigger] centers[i]).lt_number(center)
            &&& right + 1 < centers.len() ==> !centers[right + 1].lt_number(center)
        }),
{
    lemma_slid_left(centers, center, place);
    lemma_slid_right(centers, center, place);
}

proof fn lemma_slid_left(centers: Seq<Real32>, center: Real32, place: int)
    requires
        0 <= place < centers.len(),
    ensures
        0 <= slid_left(centers, center, place) <= place,
        forall|i: int| slid_left(centers, center, place) <= i < place ==> center.lt_number(#[trigger] centers[i]),
        slid_left(centers, center, place) > 0 ==> !center.lt_number(centers[slid_left(centers, center, place) - 1]),
    decreases place,
{
    if place > 0 && center.lt_number(centers[place - 1]) {
        lemma_slid_left(centers, center, place - 1);
    }
}

proof fn lemma_slid_right(centers: Seq<Real32>, center: Real32, place: int)
    requires
        0 <= place < centers.len(),
    ensures
        place <= slid_right(centers, center, place) < centers.len(),
        forall|i: int| place < i <= slid_right(centers, center, place) ==> (#[trigger] centers[i]).lt_number(center),
        slid_right(centers, center, place) + 1 < centers.len() ==> !centers[slid_right(centers, center, place) + 1].lt_number(center),
    decreases centers.len() - place,
{
    if place + 1 < centers.len() && centers[place + 1].lt_number(center) {
        lemma_slid_right(centers, center, place + 1);
    }
}

/// Where the middles of the tabs rise from left to right, a tab that is dragged to the left
/// stops there, and one that is dragged nowhere stays.
pub proof fn dragged_tabs_go_one_way(centers: Seq<Real32>, center: Real32, place: int)
    requires
        0 <= place < centers.len(),
        forall|i: int, j: int| 0 <= i < j < centers.len() ==> (#[trigger] centers[i]).lt_number(#[trigger] centers[j]),
    ensures
        0 <= slid(centers, center, place) < centers.len(),
        slid_left(centers, center, place) < place && center.lt_number(centers[place]) ==> slid(centers, center, place) == slid_left(
            centers,
            center,
            place,
        ),
        center.eq_number(centers[place]) ==> slid(centers, center, place) == place,
{
    lemma_slid_left(centers, center, place);
    let left = slid_left(centers, center, place);
    lemma_slid_right(centers, center, left);
    if left < place {
        assert(center.lt_number(centers[left]));
        if left + 1 < centers.len() {
            assert(centers[left].lt_number(centers[left + 1]));
        }
    }
    if center.eq_number(centers[place]) {
        if left < place {
            assert(centers[left].lt_number(centers[place]));
        }
        if place + 1 < centers.len() {
            assert(centers[place].lt_number(centers[place + 1]));
        }
    }
}

/// Moving a tab puts it where it was asked for.
pub proof fn moved_tabs_stand_where_they_went(order: Seq<Workspace>, from: int, to: int)
    requires
        0 <= from < order.len(),
        0 <= to < order.len(),
    ensures
        moved_to(order, from, to)[to] == order[from],
        moved_to(order, from, to).len() == order.len(),
        moved_to(order, from, from) == order,
{
    assert(moved_to(order, from, from) =~= order);
}

/// The place of a workspace is where its tab first stands.
pub proof fn places_are_where_tabs_stand(order: Seq<Workspace>, workspace: Workspace)
    requires
        order.contains(workspace),
    ensures
        0 <= place_of(order, workspace) < order.len(),
        order[place_of(order, workspace)] == workspace,
        forall|i: int| 0 <= i < place_of(order, workspace) ==> #[trigger] order[i] != workspace,
{
    let place = choose|k: int| 0 <= k < order.len() && order[k] == workspace;
    lemma_place_found(order, workspace, 0, place);
}

proof fn lemma_place_found(order: Seq<Workspace>, workspace: Workspace, from: int, place: int)
    requires
        0 <= from <= place < order.len(),
        order[place] == workspace,
    ensures
        from <= place_from(order, workspace, from) <= place,
        order[place_from(order, workspace, from)] == workspace,
        forall|i: int| from <= i < place_from(order, workspace, from) ==> #[trigger] order[i] != workspace,
    decreases place - from,
{
    if order[from] != workspace {
        lemma_place_found(order, workspace, from + 1, place);
    }
}

/// A released tab is put before the tab that it now stands left of, or last.
pub proof fn released_tabs_are_put_before_their_neighbour(drag: WorkspaceTabDrag, place: int)
    requires
        drag.well_formed(),
        0 <= place < drag.order@.len(),
        drag.order@[place] == drag.workspace,
    ensures
        place + 1 < drag.order@.len() ==> drag.spec_before() == Some(drag.order@[place + 1]),
        place + 1 == drag.order@.len() ==> drag.spec_before() is None,
{
    lemma_place(drag.order@, drag.workspace, place, 0);
}

/// The dragged tab is painted over the others, which keep their order; every tab is painted
/// once.
pub proof fn dragged_tabs_are_painted_last(order: Seq<Workspace>, dragged: Workspace, place: int)
    requires
        order.no_duplicates(),
        0 <= place < order.len(),
        order[place] == dragged,
    ensures
        painted(order, Some(dragged)).last() == dragged,
        painted(order, Some(dragged)).drop_last() == order.remove(place),
        painted(order, Some(dragged)).len() == order.len(),
        painted(order, None) == order,
{
    assert(order.contains(dragged));
    lemma_place(order, dragged, place, 0);
    assert(painted(order, Some(dragged)).drop_last() =~= order.remove(place));
}

/// The tabs stand as a drag shows them, and otherwise as they are.
pub proof fn tabs_stand_as_they_are_shown(drag: WorkspaceTabDrag, current: Seq<Workspace>)
    ensures
        standing(Some(drag), current) == drag.order@,
        standing(None, current) == current,
{
}

} // verus!
