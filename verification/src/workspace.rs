//! Workspaces and the pages of the Planning workspace.
use crate::text::{key, Text};
use vstd::prelude::*;

verus! {

/// One of the arrangements of the window that the menu bar's tabs switch between.
#[derive(Clone, Copy, Debug, PartialEq, Eq, Hash, Structural)]
pub enum Workspace {
    Production,
    DrillAndBlast,
    Geology,
    Planning,
}

impl Workspace {
    pub fn label(self) -> (r: Text)
        ensures
            self is Production ==> r == key("ws-production"),
            self is DrillAndBlast ==> r == key("ws-drill-and-blast"),
            self is Geology ==> r == key("ws-geology"),
            self is Planning ==> r == key("ws-planning"),
    {
        match self {
            Workspace::Production => key("ws-production"),
            Workspace::DrillAndBlast => key("ws-drill-and-blast"),
            Workspace::Geology => key("ws-geology"),
            Workspace::Planning => key("ws-planning"),
        }
    }

    /// Whether the tab can be selected at all yet. Every one can.
    pub fn implemented(self) -> (r: bool)
        ensures
            r,
    {
        matches!(self, Workspace::Production | Workspace::DrillAndBlast | Workspace::Geology | Workspace::Planning)
    }

    /// Whether this workspace carries the mine production tools.
    pub fn has_production_tools(self) -> (r: bool)
        ensures
            r == (self is Production),
    {
        matches!(self, Workspace::Production)
    }
}

/// The tabs in their default order, each workspace once.
pub open spec fn default_order() -> Seq<Workspace> {
    seq![Workspace::Production, Workspace::DrillAndBlast, Workspace::Geology, Workspace::Planning]
}

/// Every workspace has exactly one tab in the default order.
pub proof fn default_order_is_complete(workspace: Workspace)
    ensures
        default_order().contains(workspace),
        default_order().no_duplicates(),
{
    let order = default_order();
    assert(order[0] is Production && order[1] is DrillAndBlast && order[2] is Geology && order[3] is Planning);
    match workspace {
        Workspace::Production => assert(order[0] == workspace),
        Workspace::DrillAndBlast => assert(order[1] == workspace),
        Workspace::Geology => assert(order[2] == workspace),
        Workspace::Planning => assert(order[3] == workspace),
    }
}

/// Pages within the Planning workspace.
#[derive(Clone, Copy, Debug, PartialEq, Eq, Hash, Structural)]
pub enum PlanningPage {
    Solids,
    Haulage,
    Schedule,
}

/// Steps within a Planning page.
#[derive(Clone, Copy, Debug, PartialEq, Eq, Hash, Structural)]
pub enum PlanningSubpage {
    Setup,
    View,
    Layout,
    Animate,
}

impl PlanningPage {
    pub fn label(self) -> (r: Text)
        ensures
            self is Solids ==> r == key("planning-page-solids"),
            self is Haulage ==> r == key("planning-page-haulage"),
            self is Schedule ==> r == key("planning-page-schedule"),
    {
        match self {
            PlanningPage::Solids => key("planning-page-solids"),
            PlanningPage::Haulage => key("planning-page-haulage"),
            PlanningPage::Schedule => key("planning-page-schedule"),
        }
    }

    pub open spec fn steps(self) -> Seq<PlanningSubpage> {
        match self {
            PlanningPage::Solids => seq![PlanningSubpage::Setup, PlanningSubpage::View],
            PlanningPage::Haulage => seq![PlanningSubpage::Layout],
            PlanningPage::Schedule => seq![PlanningSubpage::Setup, PlanningSubpage::Animate],
        }
    }

    /// The subpages a page offers, in order.
    pub fn subpages(self) -> (r: Vec<PlanningSubpage>)
        ensures
            r@ == self.steps(),
    {
        match self {
            PlanningPage::Solids => vec![PlanningSubpage::Setup, PlanningSubpage::View],
            PlanningPage::Haulage => vec![PlanningSubpage::Layout],
            PlanningPage::Schedule => vec![PlanningSubpage::Setup, PlanningSubpage::Animate],
        }
    }
}

impl PlanningSubpage {
    pub fn label(self) -> (r: Text)
        ensures
            self is Setup ==> r == key("planning-page-setup"),
            self is View ==> r == key("planning-subpage-view"),
            self is Layout ==> r == key("planning-subpage-layout"),
            self is Animate ==> r == key("planning-subpage-animate"),
    {
        match self {
            PlanningSubpage::Setup => key("planning-page-setup"),
            PlanningSubpage::View => key("planning-subpage-view"),
            PlanningSubpage::Layout => key("planning-subpage-layout"),
            PlanningSubpage::Animate => key("planning-subpage-animate"),
        }
    }
}

/// The steps of the Solids setup, in the order the step tree lists them.
#[derive(Clone, Copy, Debug, PartialEq, Eq, Structural)]
pub enum SolidsStep {
    FieldList,
    BlockModels,
    Solids,
    Benching,
    /// Dividing each bench into the shapes it is blasted in. It frames the 3D
    /// viewport, because the outlines are drawn with the ordinary design tools.
    Blasting,
    DigStrips,
}

/// How many steps the Solids setup has.
pub const SOLIDS_STEP_COUNT: usize = 6;

impl SolidsStep {
    /// The step's place in the tree.
    pub open spec fn place(self) -> int {
        match self {
            SolidsStep::FieldList => 0,
            SolidsStep::BlockModels => 1,
            SolidsStep::Solids => 2,
            SolidsStep::Benching => 3,
            SolidsStep::Blasting => 4,
            SolidsStep::DigStrips => 5,
        }
    }

    pub fn index(self) -> (r: usize)
        ensures
            r == self.place(),
            r < SOLIDS_STEP_COUNT,
    {
        match self {
            SolidsStep::FieldList => 0,
            SolidsStep::BlockModels => 1,
            SolidsStep::Solids => 2,
            SolidsStep::Benching => 3,
            SolidsStep::Blasting => 4,
            SolidsStep::DigStrips => 5,
        }
    }

    /// The step at a place in the tree.
    pub fn at(index: usize) -> (r: Option<SolidsStep>)
        ensures
            r is Some <==> index < SOLIDS_STEP_COUNT,
            r matches Some(step) ==> step.place() == index,
    {
        match index {
            0 => Some(SolidsStep::FieldList),
            1 => Some(SolidsStep::BlockModels),
            2 => Some(SolidsStep::Solids),
            3 => Some(SolidsStep::Benching),
            4 => Some(SolidsStep::Blasting),
            5 => Some(SolidsStep::DigStrips),
            _ => None,
        }
    }
}

/// A page offers its own subpages: the solids are set up and viewed, the haulage is laid out,
/// the schedule is set up and animated.
pub proof fn pages_offer_their_subpages(page: PlanningPage, subpage: PlanningSubpage)
    ensures
        page.steps().no_duplicates(),
        page.steps().len() > 0,
        PlanningPage::Solids.steps().contains(subpage) <==> subpage is Setup || subpage is View,
        PlanningPage::Haulage.steps().contains(subpage) <==> subpage is Layout,
        PlanningPage::Schedule.steps().contains(subpage) <==> subpage is Setup || subpage is Animate,
        !(page is Haulage) ==> page.steps()[0] is Setup,
{
    assert(PlanningPage::Solids.steps()[0] is Setup && PlanningPage::Solids.steps()[1] is View);
    assert(PlanningPage::Haulage.steps()[0] is Layout);
    assert(PlanningPage::Schedule.steps()[0] is Setup && PlanningPage::Schedule.steps()[1] is Animate);
}

/// The steps of the setup stand in the order in which each builds on the one before: fields,
/// models, solids, benches, blasts, dig strips.
pub proof fn steps_stand_in_order(step: SolidsStep, other: SolidsStep)
    ensures
        0 <= step.place() < SOLIDS_STEP_COUNT,
        step.place() == other.place() ==> step == other,
        SolidsStep::FieldList.place() < SolidsStep::BlockModels.place() < SolidsStep::Solids.place() < SolidsStep::Benching.place()
            < SolidsStep::Blasting.place() < SolidsStep::DigStrips.place(),
{
}

} // verus!
