//! Which Planning page is on screen, and the bench that a cut is drawn on.
use crate::editor::EditorState;
use crate::ids::SolidId;
use crate::state::planning::BenchSelection;
use crate::workspace::{PlanningPage, PlanningSubpage, SolidsStep, Workspace};
use vstd::prelude::*;

verus! {

impl EditorState {
    /// The subpage of the page in front.
    pub open spec fn subpage(self) -> PlanningSubpage {
        match self.planning.pages.page {
            PlanningPage::Solids => self.planning.pages.solids_subpage,
            PlanningPage::Haulage => PlanningSubpage::Layout,
            PlanningPage::Schedule => self.planning.pages.schedule_subpage,
        }
    }

    /// The Solids setup is in front, on the given step.
    pub open spec fn on_setup_step(self, step: SolidsStep) -> bool {
        &&& self.workspace.active is Planning
        &&& self.planning.pages.page is Solids
        &&& self.planning.pages.solids_subpage is Setup
        &&& self.planning.pages.solids_step == step
    }

    pub open spec fn on_cut_step(self) -> bool {
        self.on_setup_step(SolidsStep::Blasting) || self.on_setup_step(SolidsStep::DigStrips)
    }

    /// The slice that a cut is drawn on: the one selected row's, where it is a
    /// flitch exactly on the Dig Strips step.
    pub open spec fn cut_target(self) -> Option<(SolidId, BenchSelection)> {
        let rows = self.planning.pages.view_selection@;
        if self.on_cut_step() && rows.len() == 1 {
            match rows[0].band {
                Some(band) => if band.is_flitch == self.on_setup_step(SolidsStep::DigStrips) {
                    Some((rows[0].solid, band))
                } else {
                    None
                },
                None => None,
            }
        } else {
            None
        }
    }

    /// A Planning page that frames the 3D viewport.
    pub open spec fn frames_viewport(self) -> bool {
        self.workspace.active is Planning && (!(self.subpage() is Setup || self.subpage() is View) || self.on_cut_step())
    }

    /// A Planning page that owns the whole window.
    pub open spec fn owns_window(self) -> bool {
        self.workspace.active is Planning && (self.subpage() is Setup || self.subpage() is View) && !self.on_cut_step()
    }

    pub fn planning_subpage(&self) -> (r: PlanningSubpage)
        ensures
            r == self.subpage(),
    {
        match self.planning.pages.page {
            PlanningPage::Solids => self.planning.pages.solids_subpage,
            PlanningPage::Haulage => PlanningSubpage::Layout,
            PlanningPage::Schedule => self.planning.pages.schedule_subpage,
        }
    }

    fn setup_step_is(&self, step: SolidsStep) -> (r: bool)
        ensures
            r == self.on_setup_step(step),
    {
        self.workspace.active == Workspace::Planning && self.planning.pages.page == PlanningPage::Solids
            && self.planning.pages.solids_subpage == PlanningSubpage::Setup && self.planning.pages.solids_step == step
    }

    /// Whether the Solids Setup page is on its Blasting step, the one Setup step
    /// that needs the viewport.
    pub fn is_blasting_step(&self) -> (r: bool)
        ensures
            r == self.on_setup_step(SolidsStep::Blasting),
    {
        self.setup_step_is(SolidsStep::Blasting)
    }

    pub fn is_dig_strips_step(&self) -> (r: bool)
        ensures
            r == self.on_setup_step(SolidsStep::DigStrips),
    {
        self.setup_step_is(SolidsStep::DigStrips)
    }

    pub fn is_planning_cut_step(&self) -> (r: bool)
        ensures
            r == self.on_cut_step(),
    {
        self.is_blasting_step() || self.is_dig_strips_step()
    }

    pub fn planning_cut_target(&self) -> (r: Option<(SolidId, BenchSelection)>)
        ensures
            r == self.cut_target(),
    {
        if !self.is_planning_cut_step() {
            return None;
        }
        let rows = &self.planning.pages.view_selection;
        if rows.len() != 1 {
            return None;
        }
        match rows[0].band {
            Some(band) => if band.is_flitch == self.is_dig_strips_step() {
                Some((rows[0].solid, band))
            } else {
                None
            },
            None => None,
        }
    }

    /// The one bench the Blasting step is working on, if the selection names
    /// exactly one. A whole solid, or several benches, is a way of looking at
    /// outlines rather than of editing them.
    pub fn blasting_bench(&self) -> (r: Option<(SolidId, BenchSelection)>)
        ensures
            r == (if self.on_setup_step(SolidsStep::Blasting) {
                self.cut_target()
            } else {
                None
            }),
    {
        if !self.is_blasting_step() {
            return None;
        }
        let rows = &self.planning.pages.view_selection;
        if rows.len() != 1 {
            return None;
        }
        match rows[0].band {
            Some(band) => if !band.is_flitch {
                Some((rows[0].solid, band))
            } else {
                None
            },
            None => None,
        }
    }

    pub fn is_planning_viewport(&self) -> (r: bool)
        ensures
            r == self.frames_viewport(),
    {
        let subpage = self.planning_subpage();
        self.workspace.active == Workspace::Planning && (!matches!(subpage, PlanningSubpage::Setup | PlanningSubpage::View)
            || self.is_planning_cut_step())
    }

    /// Whether a Planning page that owns the whole window is on screen. Both the
    /// Solids setup and the view of what it produced are laid out that way.
    pub fn is_planning_setup(&self) -> (r: bool)
        ensures
            r == self.owns_window(),
    {
        let subpage = self.planning_subpage();
        self.workspace.active == Workspace::Planning && matches!(subpage, PlanningSubpage::Setup | PlanningSubpage::View)
            && !self.is_planning_cut_step()
    }

    pub open spec fn shows_solids_view(self) -> bool {
        self.workspace.active is Planning && self.planning.pages.page is Solids && self.planning.pages.solids_subpage is View
    }

    /// Whether the Solids page is showing its View subpage.
    pub fn is_solids_view(&self) -> (r: bool)
        ensures
            r == self.shows_solids_view(),
    {
        self.workspace.active == Workspace::Planning && self.planning.pages.page == PlanningPage::Solids
            && self.planning.pages.solids_subpage == PlanningSubpage::View
    }
}

/// Within Planning a page either frames the viewport or owns the window, never
/// both; outside Planning it does neither. A cut step frames the viewport.
pub proof fn planning_layouts_are_exclusive(editor: EditorState)
    ensures
        editor.workspace.active is Planning ==> (editor.frames_viewport() <==> !editor.owns_window()),
        !(editor.workspace.active is Planning) ==> !editor.frames_viewport() && !editor.owns_window(),
        editor.on_cut_step() ==> editor.frames_viewport(),
        editor.shows_solids_view() ==> editor.owns_window(),
{
}

/// The two cut steps exclude each other; a cut target exists only on one of
/// them, is a flitch exactly on Dig Strips, and needs one selected row.
pub proof fn cut_target_belongs_to_step(editor: EditorState)
    ensures
        !(editor.on_setup_step(SolidsStep::Blasting) && editor.on_setup_step(SolidsStep::DigStrips)),
        editor.cut_target() matches Some(target) ==> {
            &&& editor.on_cut_step()
            &&& target.1.is_flitch == editor.on_setup_step(SolidsStep::DigStrips)
            &&& editor.planning.pages.view_selection@.len() == 1
            &&& editor.planning.pages.view_selection@[0].solid == target.0
        },
{
}

/// Each page comes up on its own subpage: the solids and the schedule on the one last used
/// there, the haulage on its layout, which is all it has.
pub proof fn pages_keep_their_subpage(editor: EditorState)
    ensures
        editor.planning.pages.page is Solids ==> editor.subpage() == editor.planning.pages.solids_subpage,
        editor.planning.pages.page is Schedule ==> editor.subpage() == editor.planning.pages.schedule_subpage,
        editor.planning.pages.page is Haulage ==> editor.subpage() is Layout,
{
}

/// A setup step is in front exactly while Planning shows the setup of the solids on it, so at
/// most one is.
pub proof fn one_setup_step_is_in_front(editor: EditorState, step: SolidsStep, other: SolidsStep)
    ensures
        editor.on_setup_step(step) && editor.on_setup_step(other) ==> step == other,
        editor.on_setup_step(step) ==> editor.workspace.active is Planning && editor.planning.pages.page is Solids
            && editor.planning.pages.solids_subpage is Setup && editor.planning.pages.solids_step == step,
        editor.workspace.active is Planning && editor.planning.pages.page is Solids && editor.planning.pages.solids_subpage is Setup
            ==> editor.on_setup_step(editor.planning.pages.solids_step),
        editor.on_cut_step() <==> editor.on_setup_step(SolidsStep::Blasting) || editor.on_setup_step(SolidsStep::DigStrips),
{
}

/// Outside the cut steps, a setup and a view own the window, and every other subpage frames
/// the viewport.
pub proof fn setups_own_the_window(editor: EditorState)
    requires
        editor.workspace.active is Planning,
        !editor.on_cut_step(),
    ensures
        editor.owns_window() <==> editor.subpage() is Setup || editor.subpage() is View,
        editor.frames_viewport() <==> editor.subpage() is Layout || editor.subpage() is Animate,
        editor.planning.pages.page is Haulage ==> editor.frames_viewport(),
        editor.planning.pages.page is Solids && editor.planning.pages.solids_subpage is View ==> editor.shows_solids_view(),
{
}

/// A cut is drawn on the slice of the one selected row: a bench while blasts are drawn, a
/// flitch while dig strips are. Any other selection leaves nothing to draw on.
pub proof fn cuts_are_drawn_on_the_selected_slice(editor: EditorState)
    ensures
        ({
            let rows = editor.planning.pages.view_selection@;
            &&& editor.on_setup_step(SolidsStep::Blasting) && rows.len() == 1 && (rows[0].band matches Some(band) && !band.is_flitch)
                ==> editor.cut_target() == Some((rows[0].solid, rows[0].band->0))
            &&& editor.on_setup_step(SolidsStep::DigStrips) && rows.len() == 1 && (rows[0].band matches Some(band) && band.is_flitch)
                ==> editor.cut_target() == Some((rows[0].solid, rows[0].band->0))
            &&& !editor.on_cut_step() || rows.len() != 1 ==> editor.cut_target() is None
            &&& rows.len() == 1 && rows[0].band is None ==> editor.cut_target() is None
            &&& editor.on_setup_step(SolidsStep::Blasting) && rows.len() == 1 && (rows[0].band matches Some(band) && band.is_flitch)
                ==> editor.cut_target() is None
            &&& editor.on_setup_step(SolidsStep::DigStrips) && rows.len() == 1 && (rows[0].band matches Some(band) && !band.is_flitch)
                ==> editor.cut_target() is None
        }),
{
}

} // verus!
