//! The setup steps of the planning workspace.
use crate::command::UiCommand;
use crate::constants::ZERO;
use crate::document::{Document, OpenBlockModel, ReserveField, ReserveFieldMapping, ReserveStats, Solid};
use crate::editor::EditorState;
use crate::ids::{BlockModelId, RenameTarget, ReserveFieldId, SolidId};
use crate::lists::{only_if, push_if};
use crate::model::{FillStyle, ReserveAggregation, ReserveMappingSource, SolidEdit};
use crate::number::Real64;
use crate::project_view::UiBlockModelEntry;
use crate::state::planning::{PlanningDrafts, PlanningStageView, PlanningState, PlanningWorkspace, StageDiagnostic, StageState, StageStates};
use crate::text::{key, key1, key2, literal, literal1, literal2, named, only, plain, plain1, plain2, verbatim, Arg, Text};
use crate::workspace::{SolidsStep, SOLIDS_STEP_COUNT};
use vstd::prelude::*;
use vstd::string::StringExecFns;

verus! {

/// A stage whose badge the connecting line reaches.
pub open spec fn is_settled(state: StageState) -> bool {
    state is Complete || state is Failed || state is Blocked
}

pub open spec fn is_broken(state: StageState) -> bool {
    state is Failed || state is Blocked
}

/// The badge beside a step.
#[derive(Clone, Copy, Debug, PartialEq, Eq, Structural)]
pub enum StageBadge {
    Complete,
    Error,
    Pending,
}

/// The badge that an icon's name stands for.
pub fn stage_badge(icon: &String) -> (r: StageBadge)
    ensures
        icon@ == "step_complete.svg"@ ==> r is Complete,
        icon@ != "step_complete.svg"@ && icon@ == "step_error.svg"@ ==> r is Error,
        icon@ != "step_complete.svg"@ && icon@ != "step_error.svg"@ ==> r is Pending,
{
    if *icon == "step_complete.svg".to_owned() {
        StageBadge::Complete
    } else if *icon == "step_error.svg".to_owned() {
        StageBadge::Error
    } else {
        StageBadge::Pending
    }
}

impl StageState {
    /// Whether the badge takes the colour of errors; the others keep their own.
    pub fn tinted_as_error(self) -> (r: bool)
        ensures
            r == is_broken(self),
    {
        matches!(self, StageState::Failed | StageState::Blocked)
    }
}

/// A link between the badges of two steps.
#[derive(Clone, Copy, Debug, PartialEq, Eq, Structural)]
pub enum StageLink {
    Complete,
    Broken,
}

/// The links that leave the first stages, up to the first one that is not settled.
/// Once a stage is broken every link from there on is.
pub open spec fn links_from(states: Seq<StageState>, from: int, broken: bool) -> Seq<StageLink>
    decreases states.len() - from,
{
    if from < 0 || from + 1 >= states.len() || !is_settled(states[from]) {
        Seq::empty()
    } else {
        let now = broken || is_broken(states[from]);
        seq![
            if now {
                StageLink::Broken
            } else {
                StageLink::Complete
            },
        ] + links_from(states, from + 1, now)
    }
}

/// The links between the badges, top down.
pub fn stage_links(states: &Vec<StageState>) -> (r: Vec<StageLink>)
    ensures
        r@ == links_from(states@, 0, false),
{
    let mut r: Vec<StageLink> = Vec::new();
    let mut broken = false;
    let mut i: usize = 0;
    assert(r@ + links_from(states@, 0, false) =~= links_from(states@, 0, false));
    let count: usize = states.len();
    while i < count && i < count - 1
        invariant
            i <= count,
            count == states@.len(),
            r@ + links_from(states@, i as int, broken) == links_from(states@, 0, false),
        decreases states@.len() - i,
    {
        let ghost before = r@;
        let state = states[i];
        let settled = match state {
            StageState::Complete | StageState::Failed | StageState::Blocked => true,
            StageState::Pending | StageState::Running => false,
        };
        if !settled {
            assert(r@ =~= links_from(states@, 0, false));
            return r;
        }
        let fails = match state {
            StageState::Failed | StageState::Blocked => true,
            _ => false,
        };
        let ghost was = broken;
        broken = broken || fails;
        r.push(
            if broken {
                StageLink::Broken
            } else {
                StageLink::Complete
            },
        );
        assert(r@ + links_from(states@, i + 1, broken) =~= before + links_from(states@, i as int, was));
        i = i + 1;
    }
    assert(r@ =~= links_from(states@, 0, false));
    r
}

/// Green reaches the first broken or unsettled badge; red then reaches the first
/// unsettled badge, where the line stops.
pub proof fn links_stop_at_unsettled_stages(states: Seq<StageState>, link: int)
    requires
        0 <= link < links_from(states, 0, false).len(),
    ensures
        link + 1 < states.len(),
        forall|i: int| 0 <= i <= link ==> is_settled(#[trigger] states[i]),
        links_from(states, 0, false)[link] is Broken <==> exists|i: int| 0 <= i <= link && is_broken(#[trigger] states[i]),
{
    lemma_links(states, 0, false, link);
}

proof fn lemma_links(states: Seq<StageState>, from: int, broken: bool, link: int)
    requires
        0 <= from,
        0 <= link < links_from(states, from, broken).len(),
    ensures
        from + link + 1 < states.len(),
        forall|i: int| from <= i <= from + link ==> is_settled(#[trigger] states[i]),
        links_from(states, from, broken)[link] is Broken <==> broken || exists|i: int|
            from <= i <= from + link && is_broken(#[trigger] states[i]),
    decreases link,
{
    if link > 0 {
        lemma_links(states, from + 1, broken || is_broken(states[from]), link - 1);
    }
}

impl StageStates {
    pub open spec fn at(self, step: SolidsStep) -> PlanningStageView {
        match step {
            SolidsStep::FieldList => self.field_list,
            SolidsStep::BlockModels => self.block_models,
            SolidsStep::Solids => self.solids,
            SolidsStep::Benching => self.benching,
            SolidsStep::Blasting => self.blasting,
            SolidsStep::DigStrips => self.dig_strips,
        }
    }

    pub fn get(&self, step: SolidsStep) -> (r: &PlanningStageView)
        ensures
            *r == self.at(step),
    {
        match step {
            SolidsStep::FieldList => &self.field_list,
            SolidsStep::BlockModels => &self.block_models,
            SolidsStep::Solids => &self.solids,
            SolidsStep::Benching => &self.benching,
            SolidsStep::Blasting => &self.blasting,
            SolidsStep::DigStrips => &self.dig_strips,
        }
    }

    /// The states of the steps, in the order of the tree.
    pub open spec fn in_order(self) -> Seq<StageState> {
        seq![
            self.field_list.state,
            self.block_models.state,
            self.solids.state,
            self.benching.state,
            self.blasting.state,
            self.dig_strips.state,
        ]
    }

    pub fn states(&self) -> (r: Vec<StageState>)
        ensures
            r@ == self.in_order(),
    {
        let mut r: Vec<StageState> = Vec::new();
        r.push(self.field_list.state);
        r.push(self.block_models.state);
        r.push(self.solids.state);
        r.push(self.benching.state);
        r.push(self.blasting.state);
        r.push(self.dig_strips.state);
        assert(r@ =~= self.in_order());
        r
    }

    /// How many stages are complete.
    pub open spec fn spec_completed(self) -> int {
        done(self.field_list) + done(self.block_models) + done(self.solids) + done(self.benching) + done(self.blasting) + done(
            self.dig_strips,
        )
    }

    pub fn completed(&self) -> (r: usize)
        ensures
            r == self.spec_completed(),
            r <= SOLIDS_STEP_COUNT,
    {
        count_done(&self.field_list) + count_done(&self.block_models) + count_done(&self.solids) + count_done(&self.benching)
            + count_done(&self.blasting) + count_done(&self.dig_strips)
    }

    /// The first step that runs.
    pub open spec fn spec_running(self) -> Option<SolidsStep> {
        if self.field_list.state is Running {
            Some(SolidsStep::FieldList)
        } else if self.block_models.state is Running {
            Some(SolidsStep::BlockModels)
        } else if self.solids.state is Running {
            Some(SolidsStep::Solids)
        } else if self.benching.state is Running {
            Some(SolidsStep::Benching)
        } else if self.blasting.state is Running {
            Some(SolidsStep::Blasting)
        } else if self.dig_strips.state is Running {
            Some(SolidsStep::DigStrips)
        } else {
            None
        }
    }

    pub fn running(&self) -> (r: Option<SolidsStep>)
        ensures
            r == self.spec_running(),
    {
        let mut place: usize = 0;
        while place < SOLIDS_STEP_COUNT
            invariant
                place <= SOLIDS_STEP_COUNT,
                forall|step: SolidsStep| step.place() < place ==> !((#[trigger] self.at(step)).state is Running),
            decreases SOLIDS_STEP_COUNT - place,
        {
            if let Some(step) = SolidsStep::at(place) {
                let runs = match self.get(step).state {
                    StageState::Running => true,
                    _ => false,
                };
                if runs {
                    proof {
                        assert(!(self.at(SolidsStep::FieldList).state is Running) || step is FieldList);
                        assert(!(self.at(SolidsStep::BlockModels).state is Running) || step.place() <= 1);
                        assert(!(self.at(SolidsStep::Solids).state is Running) || step.place() <= 2);
                        assert(!(self.at(SolidsStep::Benching).state is Running) || step.place() <= 3);
                        assert(!(self.at(SolidsStep::Blasting).state is Running) || step.place() <= 4);
                    }
                    return Some(step);
                }
                assert forall|other: SolidsStep| other.place() < place + 1 implies !((#[trigger] self.at(other)).state is Running) by {
                    if other.place() == place {
                        assert(other == step);
                    }
                }
            }
            place = place + 1;
        }
        proof {
            assert(!(self.at(SolidsStep::FieldList).state is Running));
            assert(!(self.at(SolidsStep::BlockModels).state is Running));
            assert(!(self.at(SolidsStep::Solids).state is Running));
            assert(!(self.at(SolidsStep::Benching).state is Running));
            assert(!(self.at(SolidsStep::Blasting).state is Running));
            assert(!(self.at(SolidsStep::DigStrips).state is Running));
        }
        None
    }
}

pub open spec fn done(stage: PlanningStageView) -> int {
    if stage.state is Complete {
        1
    } else {
        0
    }
}

fn count_done(stage: &PlanningStageView) -> (r: usize)
    ensures
        r == done(*stage),
{
    match stage.state {
        StageState::Complete => 1,
        _ => 0,
    }
}

/// A click on the controls of a run.
#[derive(Clone, Copy, Debug, PartialEq, Eq, Structural)]
pub enum RunClick {
    RunStep(SolidsStep),
    RunAll,
    Cancel,
}

impl PlanningState {
    /// A run can be started while none is active, and cancelled while one is.
    pub open spec fn allows(self, click: RunClick) -> bool {
        if click is Cancel {
            self.run_active
        } else {
            !self.run_active
        }
    }

    pub fn run_enabled(&self, click: RunClick) -> (r: bool)
        ensures
            r == self.allows(click),
    {
        match click {
            RunClick::Cancel => self.run_active,
            _ => !self.run_active,
        }
    }

    /// Take a click on the run controls or in the menu of a stage.
    pub fn click_run(&self, click: RunClick, commands: &mut Vec<UiCommand>)
        ensures
            final(commands)@ == old(commands)@ + only_if(
                self.allows(click),
                match click {
                    RunClick::RunStep(step) => UiCommand::RunPlanningStage(step),
                    RunClick::RunAll => UiCommand::RunAllPlanningStages,
                    RunClick::Cancel => UiCommand::CancelPlanningRun,
                },
            ),
    {
        let enabled = self.run_enabled(click);
        let command = match click {
            RunClick::RunStep(step) => UiCommand::RunPlanningStage(step),
            RunClick::RunAll => UiCommand::RunAllPlanningStages,
            RunClick::Cancel => UiCommand::CancelPlanningRun,
        };
        push_if(commands, enabled, command);
    }
}

/// At any time a run can either be started or cancelled.
pub proof fn runs_start_or_stop(state: PlanningState, step: SolidsStep)
    ensures
        state.allows(RunClick::RunStep(step)) == state.allows(RunClick::RunAll),
        state.allows(RunClick::RunAll) != state.allows(RunClick::Cancel),
{
}

impl EditorState {
    /// Whether a single step can be run from the sidebar: the solids view has no step in
    /// hand.
    pub fn offers_run_step(&self) -> (r: bool)
        ensures
            r == !self.shows_solids_view(),
    {
        !self.is_solids_view()
    }

    /// The step that the progress tells of: the one that runs, otherwise the one in
    /// hand, otherwise the last.
    pub open spec fn spec_reported_step(self) -> SolidsStep {
        match self.planning.stages.spec_running() {
            Some(step) => step,
            None => if self.shows_solids_view() {
                SolidsStep::DigStrips
            } else {
                self.planning.pages.solids_step
            },
        }
    }

    pub fn reported_step(&self) -> (r: SolidsStep)
        ensures
            r == self.spec_reported_step(),
    {
        match self.planning.stages.running() {
            Some(step) => step,
            None => if self.is_solids_view() {
                SolidsStep::DigStrips
            } else {
                self.planning.pages.solids_step
            },
        }
    }

    /// How far the stages have come.
    pub fn progress_label(&self) -> (r: Text)
        ensures
            r == key2(
                "stage-progress",
                named("done", Arg::Count(self.planning.stages.spec_completed() as usize)),
                named("total", Arg::Count(SOLIDS_STEP_COUNT)),
            ),
    {
        key2(
            "stage-progress",
            named("done", Arg::Count(self.planning.stages.completed())),
            named("total", Arg::Count(SOLIDS_STEP_COUNT)),
        )
    }
}

/// How many diagnostics a tooltip lists.
pub const DIAGNOSTIC_LIMIT: usize = 12;

/// One line of the diagnostics.
#[derive(Clone, Debug, PartialEq)]
pub struct DiagnosticLine {
    pub text: Text,
    pub blocking: bool,
}

impl StageDiagnostic {
    pub open spec fn spec_line(self) -> DiagnosticLine {
        DiagnosticLine {
            text: match self.entity {
                Some(entity) => plain2(
                    "%entity%: %message%",
                    named("entity", Arg::Name(entity)),
                    named("message", Arg::Name(self.message)),
                ),
                None => verbatim(self.message),
            },
            blocking: self.blocking,
        }
    }

    pub fn line(&self) -> (r: DiagnosticLine)
        ensures
            r == self.spec_line(),
    {
        DiagnosticLine {
            text: match &self.entity {
                Some(entity) => plain2(
                    "%entity%: %message%",
                    named("entity", Arg::Name(entity.clone())),
                    named("message", Arg::Name(self.message.clone())),
                ),
                None => verbatim(self.message.clone()),
            },
            blocking: self.blocking,
        }
    }
}

impl PlanningStageView {
    /// What the tooltip says of a stage, besides its state: what blocks it, what it
    /// reports and when it last ran.
    pub open spec fn spec_notes(self) -> Seq<Text> {
        (match self.blocked_by {
            Some(step) => seq![key1("stage-blocked-by", named("stage", Arg::StepName(step)))],
            None => Seq::empty(),
        }) + (match self.message {
            Some(message) => seq![verbatim(message)],
            None => Seq::empty(),
        }) + (match self.last_success {
            Some(summary) => seq![
                key2(
                    "stage-last-run",
                    named("generation", Arg::Number(summary.generation)),
                    named("entities", Arg::Count(summary.entities)),
                ),
            ],
            None => Seq::empty(),
        })
    }

    pub fn notes(&self) -> (r: Vec<Text>)
        ensures
            r@ == self.spec_notes(),
    {
        let mut r: Vec<Text> = Vec::new();
        if let Some(step) = self.blocked_by {
            r.push(key1("stage-blocked-by", named("stage", Arg::StepName(step))));
        }
        if let Some(message) = &self.message {
            r.push(verbatim(message.clone()));
        }
        if let Some(summary) = &self.last_success {
            r.push(
                key2(
                    "stage-last-run",
                    named("generation", Arg::Number(summary.generation)),
                    named("entities", Arg::Count(summary.entities)),
                ),
            );
        }
        assert(r@ =~= self.spec_notes());
        r
    }

    /// How many diagnostics are listed.
    pub open spec fn listed(self) -> int {
        if self.diagnostics@.len() <= DIAGNOSTIC_LIMIT {
            self.diagnostics@.len() as int
        } else {
            DIAGNOSTIC_LIMIT as int
        }
    }

    /// The first diagnostics, and how many more there are.
    pub fn diagnostic_lines(&self) -> (r: (Vec<DiagnosticLine>, Option<Text>))
        ensures
            r.0@ == self.diagnostics@.take(self.listed()).map_values(|entry: StageDiagnostic| entry.spec_line()),
            r.1 == (if self.diagnostics@.len() > DIAGNOSTIC_LIMIT {
                Some(
                    plain1("… %count%", named("count", Arg::Count((self.diagnostics@.len() - DIAGNOSTIC_LIMIT) as usize))),
                )
            } else {
                None
            }),
    {
        let mut lines: Vec<DiagnosticLine> = Vec::new();
        let mut i: usize = 0;
        while i < self.diagnostics.len() && i < DIAGNOSTIC_LIMIT
            invariant
                i <= self.diagnostics@.len(),
                i <= DIAGNOSTIC_LIMIT,
                lines@ == self.diagnostics@.take(i as int).map_values(|entry: StageDiagnostic| entry.spec_line()),
            decreases self.diagnostics@.len() - i,
        {
            lines.push(self.diagnostics[i].line());
            i = i + 1;
            assert(lines@ =~= self.diagnostics@.take(i as int).map_values(|entry: StageDiagnostic| entry.spec_line()));
        }
        let more = if self.diagnostics.len() > DIAGNOSTIC_LIMIT {
            Some(plain1("… %count%", named("count", Arg::Count(self.diagnostics.len() - DIAGNOSTIC_LIMIT))))
        } else {
            None
        };
        (lines, more)
    }
}

/// How a field aggregates, in one line.
pub open spec fn spec_aggregation_summary(document: Document, aggregation: ReserveAggregation) -> Text {
    match aggregation {
        ReserveAggregation::Sum => literal("Sum"),
        ReserveAggregation::WeightedAverage { weight_field } => literal1(
            "Weighted avg. by %name%",
            named(
                "name",
                match document.field(weight_field) {
                    Some(field) => Arg::Name(field.name),
                    None => Arg::Words("?"),
                },
            ),
        ),
        ReserveAggregation::Category => literal("Category"),
    }
}

pub fn aggregation_summary(document: &Document, aggregation: &ReserveAggregation) -> (r: Text)
    ensures
        r == spec_aggregation_summary(*document, *aggregation),
{
    match aggregation {
        ReserveAggregation::Sum => literal("Sum"),
        ReserveAggregation::WeightedAverage { weight_field } => {
            let name = match document.reserve_field(*weight_field) {
                Some(field) => Arg::Name(field.name.clone()),
                None => Arg::Words("?"),
            };
            literal1("Weighted avg. by %name%", named("name", name))
        },
        ReserveAggregation::Category => literal("Category"),
    }
}

/// The same inside a row of the field list.
pub open spec fn aggregation_phrase(document: Document, aggregation: ReserveAggregation) -> Arg {
    match aggregation {
        ReserveAggregation::Sum => Arg::Words("Sum"),
        ReserveAggregation::WeightedAverage { weight_field } => Arg::NamePhrase {
            words: "Weighted avg. by %name%",
            name: "name",
            value: match document.field(weight_field) {
                Some(field) => Some(field.name),
                None => None,
            },
            otherwise: "?",
        },
        ReserveAggregation::Category => Arg::Words("Category"),
    }
}

impl ReserveField {
    /// The row of a field in the field list.
    pub fn row_label(&self, document: &Document) -> (r: Text)
        ensures
            r == literal2(
                "%name% · %aggregation%",
                named("name", Arg::Name(self.name)),
                named("aggregation", aggregation_phrase(*document, self.aggregation)),
            ),
    {
        let aggregation = match self.aggregation {
            ReserveAggregation::Sum => Arg::Words("Sum"),
            ReserveAggregation::WeightedAverage { weight_field } => Arg::NamePhrase {
                words: "Weighted avg. by %name%",
                name: "name",
                value: match document.reserve_field(weight_field) {
                    Some(field) => Some(field.name.clone()),
                    None => None,
                },
                otherwise: "?",
            },
            ReserveAggregation::Category => Arg::Words("Category"),
        };
        literal2("%name% · %aggregation%", named("name", Arg::Name(self.name.clone())), named("aggregation", aggregation))
    }
}

/// A click in the field list or the solid list.
#[derive(Clone, Copy, Debug, PartialEq, Eq, Structural)]
pub enum ListClick {
    RenameField(ReserveFieldId),
    DeleteField(ReserveFieldId),
    NewField,
    SelectSolid(SolidId),
    RenameSolid(SolidId),
    DeleteSolid(SolidId),
    NewSolid,
    SelectBlockModel(BlockModelId),
}

impl PlanningWorkspace {
    /// What a click in a list asks for.
    pub open spec fn list_asks(click: ListClick) -> Seq<UiCommand> {
        match click {
            ListClick::RenameField(id) => seq![UiCommand::BeginRenameItem(RenameTarget::ReserveField(id))],
            ListClick::DeleteField(id) => seq![UiCommand::DeleteReserveField(id)],
            ListClick::RenameSolid(id) => seq![UiCommand::BeginRenameItem(RenameTarget::Solid(id))],
            ListClick::DeleteSolid(id) => seq![UiCommand::DeleteSolid(id)],
            _ => Seq::empty(),
        }
    }

    /// Take a click in one of the lists. Selecting another solid drops the slice that was
    /// picked in the one before. Whether what is shown has to be drawn again.
    pub fn click_list(&mut self, click: ListClick, commands: &mut Vec<UiCommand>) -> (r: bool)
        ensures
            final(commands)@ == old(commands)@ + PlanningWorkspace::list_asks(click),
            r == (click matches ListClick::SelectSolid(id) && old(self).pages.selected_solid != Some(id)),
            *final(self) == (PlanningWorkspace {
                pages: PlanningState {
                    selected_solid: if r {
                        Some(click->SelectSolid_0)
                    } else {
                        old(self).pages.selected_solid
                    },
                    selected_bench: if r {
                        None
                    } else {
                        old(self).pages.selected_bench
                    },
                    selected_block_model: match click {
                        ListClick::SelectBlockModel(id) => Some(id),
                        _ => old(self).pages.selected_block_model,
                    },
                    ..old(self).pages
                },
                drafts: PlanningDrafts {
                    field_open: old(self).drafts.field_open || click is NewField,
                    solid_open: old(self).drafts.solid_open || click is NewSolid,
                    ..old(self).drafts
                },
                ..*old(self)
            }),
    {
        let mut changed = false;
        match click {
            ListClick::RenameField(id) => commands.push(UiCommand::BeginRenameItem(RenameTarget::ReserveField(id))),
            ListClick::DeleteField(id) => commands.push(UiCommand::DeleteReserveField(id)),
            ListClick::NewField => {
                self.drafts.field_open = true;
            },
            ListClick::SelectSolid(id) => {
                let same = match self.pages.selected_solid {
                    Some(selected) => selected == id,
                    None => false,
                };
                if !same {
                    self.pages.selected_solid = Some(id);
                    self.pages.selected_bench = None;
                    changed = true;
                }
            },
            ListClick::RenameSolid(id) => commands.push(UiCommand::BeginRenameItem(RenameTarget::Solid(id))),
            ListClick::DeleteSolid(id) => commands.push(UiCommand::DeleteSolid(id)),
            ListClick::NewSolid => {
                self.drafts.solid_open = true;
            },
            ListClick::SelectBlockModel(id) => {
                self.pages.selected_block_model = Some(id);
            },
        }
        assert(commands@ =~= old(commands)@ + PlanningWorkspace::list_asks(click));
        changed
    }
}

/// A name as a list shows it, marked where there are unsaved edits.
pub open spec fn marked(name: Seq<char>, dirty: bool) -> Seq<char> {
    if dirty {
        name + " *"@
    } else {
        name
    }
}

impl UiBlockModelEntry {
    /// The row of a block model.
    pub fn row_label(&self) -> (r: Text)
        ensures
            r matches Text { source, args } && source == crate::text::Source::Literal("%name% · %count% blocks") && (args
                matches crate::text::Args::Two(name, count) && name.name == "name" && (name.value matches Arg::Name(shown) && shown@
                == marked(self.name@, self.dirty)) && count == named("count", Arg::Count(self.block_count))),
    {
        let mut name = self.name.clone();
        if self.dirty {
            name.append(" *");
        }
        literal2("%name% · %count% blocks", named("name", Arg::Name(name)), named("count", Arg::Count(self.block_count)))
    }

    pub fn extents_text(&self) -> (r: Text)
        ensures
            r == literal2(
                "Extents: %lower% → %upper%",
                named("lower", Arg::PointFixed { value: self.lower, decimals: 1 }),
                named("upper", Arg::PointFixed { value: self.upper, decimals: 1 }),
            ),
    {
        literal2(
            "Extents: %lower% → %upper%",
            named("lower", Arg::PointFixed { value: self.lower, decimals: 1 }),
            named("upper", Arg::PointFixed { value: self.upper, decimals: 1 }),
        )
    }
}

impl Solid {
    /// The row of a solid.
    pub fn row_label(&self) -> (r: Text)
        ensures
            r == literal2("%name% · %kind%", named("name", Arg::Name(self.name)), named("kind", Arg::SolidKindName(self.kind))),
    {
        literal2("%name% · %kind%", named("name", Arg::Name(self.name.clone())), named("kind", Arg::SolidKindName(self.kind)))
    }

    /// What the property table says of reserves: a solid that is reserved against a block
    /// model and names none is flagged.
    pub fn reserve_warning(&self) -> (r: Option<Text>)
        ensures
            r == (if self.kind is Pit && self.block_model is None {
                Some(literal("Set a block model to reserve this pit"))
            } else {
                None
            }),
    {
        if self.kind.requires_block_model() && self.block_model.is_none() {
            Some(literal("Set a block model to reserve this pit"))
        } else {
            None
        }
    }

    /// Change one property of the solid.
    pub fn update(&self, edit: SolidEdit, commands: &mut Vec<UiCommand>)
        ensures
            final(commands)@ == old(commands)@.push(UiCommand::UpdateSolid { solid: self.id, edit }),
    {
        commands.push(UiCommand::UpdateSolid { solid: self.id, edit });
    }
}

/// Where a field's values come from, as the mapping field shows it.
#[derive(Clone, Debug, PartialEq)]
pub enum MappingChoice {
    Unmapped,
    Constant,
    Column(String),
}

/// The first mapping of a field, from a place on.
pub open spec fn mapping_from(mapping: Seq<ReserveFieldMapping>, field: ReserveFieldId, from: int) -> Option<ReserveMappingSource>
    decreases mapping.len() - from,
{
    if from < 0 || from >= mapping.len() {
        None
    } else if mapping[from].field == field {
        Some(mapping[from].source)
    } else {
        mapping_from(mapping, field, from + 1)
    }
}

fn find_mapping(mapping: &Vec<ReserveFieldMapping>, field: ReserveFieldId) -> (r: Option<&ReserveMappingSource>)
    ensures
        crate::document::same_entry(r, mapping_from(mapping@, field, 0)),
{
    let mut i: usize = 0;
    while i < mapping.len()
        invariant
            i <= mapping@.len(),
            mapping_from(mapping@, field, 0) == mapping_from(mapping@, field, i as int),
        decreases mapping@.len() - i,
    {
        if mapping[i].field == field {
            return Some(&mapping[i].source);
        }
        i = i + 1;
    }
    None
}

impl MappingChoice {
    pub open spec fn spec_of(mapping: Seq<ReserveFieldMapping>, field: ReserveFieldId) -> MappingChoice {
        match mapping_from(mapping, field, 0) {
            None => MappingChoice::Unmapped,
            Some(ReserveMappingSource::Constant(_)) => MappingChoice::Constant,
            Some(ReserveMappingSource::Column(name)) => MappingChoice::Column(name),
        }
    }

    /// The choice that a mapping stands for.
    pub fn of(mapping: &Vec<ReserveFieldMapping>, field: ReserveFieldId) -> (r: MappingChoice)
        ensures
            r == MappingChoice::spec_of(mapping@, field),
    {
        match find_mapping(mapping, field) {
            None => MappingChoice::Unmapped,
            Some(ReserveMappingSource::Constant(_)) => MappingChoice::Constant,
            Some(ReserveMappingSource::Column(name)) => MappingChoice::Column(name.clone()),
        }
    }

    pub open spec fn spec_label(self) -> Text {
        match self {
            MappingChoice::Unmapped => literal("Unmapped"),
            MappingChoice::Constant => literal("Constant"),
            MappingChoice::Column(name) => verbatim(name),
        }
    }

    pub fn label(&self) -> (r: Text)
        ensures
            r == self.spec_label(),
    {
        match self {
            MappingChoice::Unmapped => literal("Unmapped"),
            MappingChoice::Constant => literal("Constant"),
            MappingChoice::Column(name) => verbatim(name.clone()),
        }
    }

    /// The same choice, columns by their names.
    pub open spec fn same_choice(self, other: MappingChoice) -> bool {
        match (self, other) {
            (MappingChoice::Unmapped, MappingChoice::Unmapped) => true,
            (MappingChoice::Constant, MappingChoice::Constant) => true,
            (MappingChoice::Column(a), MappingChoice::Column(b)) => a@ == b@,
            _ => false,
        }
    }

    pub fn same_as(&self, other: &MappingChoice) -> (r: bool)
        ensures
            r == self.same_choice(*other),
    {
        match (self, other) {
            (MappingChoice::Unmapped, MappingChoice::Unmapped) => true,
            (MappingChoice::Constant, MappingChoice::Constant) => true,
            (MappingChoice::Column(a), MappingChoice::Column(b)) => *a == *b,
            _ => false,
        }
    }

    /// The mapping that a choice begins with: a constant starts at nothing.
    pub open spec fn spec_source(self) -> Option<ReserveMappingSource> {
        match self {
            MappingChoice::Unmapped => None,
            MappingChoice::Constant => Some(ReserveMappingSource::Constant(Real64 { bits: ZERO })),
            MappingChoice::Column(name) => Some(ReserveMappingSource::Column(name)),
        }
    }

    pub fn source(&self) -> (r: Option<ReserveMappingSource>)
        ensures
            r == self.spec_source(),
    {
        match self {
            MappingChoice::Unmapped => None,
            MappingChoice::Constant => Some(ReserveMappingSource::Constant(Real64 { bits: ZERO })),
            MappingChoice::Column(name) => Some(ReserveMappingSource::Column(name.clone())),
        }
    }
}

/// A choice that is taken is the choice that is shown afterwards.
pub proof fn chosen_mapping_is_shown(choice: MappingChoice, field: ReserveFieldId)
    ensures
        choice.spec_source() matches Some(source) ==> MappingChoice::spec_of(seq![ReserveFieldMapping { field, source }], field)
            == choice,
        choice.spec_source() is None ==> choice == MappingChoice::spec_of(Seq::empty(), field),
{
    if let Some(source) = choice.spec_source() {
        assert(mapping_from(seq![ReserveFieldMapping { field, source }], field, 0) == Some(source));
    }
}

pub open spec fn column_choices(columns: Seq<String>) -> Seq<MappingChoice> {
    columns.map_values(|name: String| MappingChoice::Column(name))
}

impl OpenBlockModel {
    /// What a field can be mapped to: a category to a categorical column, any other field
    /// to a constant or a numeric column.
    pub open spec fn spec_options(self, aggregation: ReserveAggregation) -> Seq<MappingChoice> {
        if aggregation is Category {
            seq![MappingChoice::Unmapped] + column_choices(self.categorical_columns@)
        } else {
            seq![MappingChoice::Unmapped, MappingChoice::Constant] + column_choices(self.numeric_columns@)
        }
    }

    pub fn options(&self, aggregation: ReserveAggregation) -> (r: Vec<MappingChoice>)
        ensures
            r@ == self.spec_options(aggregation),
    {
        let mut r: Vec<MappingChoice> = Vec::new();
        r.push(MappingChoice::Unmapped);
        let category = match aggregation {
            ReserveAggregation::Category => true,
            _ => false,
        };
        if !category {
            r.push(MappingChoice::Constant);
        }
        let columns = if category {
            &self.categorical_columns
        } else {
            &self.numeric_columns
        };
        let ghost opening = r@;
        let mut i: usize = 0;
        assert(r@ =~= opening + column_choices(columns@.take(0)));
        while i < columns.len()
            invariant
                i <= columns@.len(),
                r@ == opening + column_choices(columns@.take(i as int)),
            decreases columns@.len() - i,
        {
            r.push(MappingChoice::Column(columns[i].clone()));
            i = i + 1;
            assert(r@ =~= opening + column_choices(columns@.take(i as int)));
        }
        assert(columns@.take(i as int) =~= columns@);
        assert(r@ =~= self.spec_options(aggregation));
        r
    }

    /// Take or leave the model out of the reserves.
    pub fn set_included(&self, included: bool, commands: &mut Vec<UiCommand>)
        ensures
            final(commands)@ == old(commands)@ + only_if(
                included != self.included_in_reserves,
                UiCommand::SetReserveModelIncluded { block_model: self.id, included },
            ),
    {
        push_if(
            commands,
            included != self.included_in_reserves,
            UiCommand::SetReserveModelIncluded { block_model: self.id, included },
        );
    }

    /// Ask for the figures again: a scan that failed leaves them absent.
    pub fn recompute(&self, commands: &mut Vec<UiCommand>)
        ensures
            final(commands)@ == old(commands)@.push(UiCommand::RecomputeReserveStats(self.id)),
    {
        commands.push(UiCommand::RecomputeReserveStats(self.id));
    }

    /// Take the choice that the mapping field of a field holds.
    pub fn choose_mapping(&self, field: ReserveFieldId, choice: &MappingChoice, commands: &mut Vec<UiCommand>)
        ensures
            final(commands)@ == old(commands)@ + only_if(
                !choice.same_choice(MappingChoice::spec_of(self.reserve_mapping@, field)),
                UiCommand::SetReserveMapping { block_model: self.id, field, source: choice.spec_source() },
            ),
    {
        let current = MappingChoice::of(&self.reserve_mapping, field);
        let changed = !choice.same_as(&current);
        push_if(commands, changed, UiCommand::SetReserveMapping { block_model: self.id, field, source: choice.source() });
    }

    /// The constant that a field is mapped to, while it is mapped to one.
    pub fn mapped_constant(&self, field: ReserveFieldId) -> (r: Option<Real64>)
        ensures
            r == (match mapping_from(self.reserve_mapping@, field, 0) {
                Some(ReserveMappingSource::Constant(value)) => Some(value),
                _ => None,
            }),
    {
        match find_mapping(&self.reserve_mapping, field) {
            Some(ReserveMappingSource::Constant(value)) => Some(*value),
            _ => None,
        }
    }

    /// Take a finished edit of that constant.
    pub fn set_constant(&self, field: ReserveFieldId, value: Real64, commands: &mut Vec<UiCommand>)
        ensures
            final(commands)@ == old(commands)@.push(
                UiCommand::SetReserveMapping {
                    block_model: self.id,
                    field,
                    source: Some(ReserveMappingSource::Constant(value)),
                },
            ),
    {
        commands.push(
            UiCommand::SetReserveMapping { block_model: self.id, field, source: Some(ReserveMappingSource::Constant(value)) },
        );
    }

    /// The figures of a field.
    pub open spec fn stats_from(totals: Seq<(ReserveFieldId, ReserveStats)>, field: ReserveFieldId, from: int) -> Option<ReserveStats>
        decreases totals.len() - from,
    {
        if from < 0 || from >= totals.len() {
            None
        } else if totals[from].0 == field {
            Some(totals[from].1)
        } else {
            OpenBlockModel::stats_from(totals, field, from + 1)
        }
    }

    pub open spec fn spec_stats(self, field: ReserveFieldId) -> Option<ReserveStats> {
        OpenBlockModel::stats_from(self.reserve_totals@, field, 0)
    }

    pub fn stats(&self, field: ReserveFieldId) -> (r: Option<&ReserveStats>)
        ensures
            crate::document::same_entry(r, self.spec_stats(field)),
    {
        let mut i: usize = 0;
        while i < self.reserve_totals.len()
            invariant
                i <= self.reserve_totals@.len(),
                self.spec_stats(field) == OpenBlockModel::stats_from(self.reserve_totals@, field, i as int),
            decreases self.reserve_totals@.len() - i,
        {
            if self.reserve_totals[i].0 == field {
                return Some(&self.reserve_totals[i].1);
            }
            i = i + 1;
        }
        None
    }

    /// Why a field has no total: what its scan found, or why there was no scan.
    pub open spec fn spec_reason(self, field: ReserveFieldId) -> Option<Text> {
        match self.spec_stats(field) {
            Some(stats) => match stats.issue {
                Some(issue) => Some(verbatim(issue)),
                None => None,
            },
            None => Some(
                match self.reserve_totals_error {
                    Some(error) => key1("planning-stat-scan-failed", named("error", Arg::Name(error))),
                    None => if self.reserve_totals_awaiting_restore {
                        key("planning-stat-loading")
                    } else if self.reserve_totals_requested {
                        key("planning-stat-scanning")
                    } else {
                        key("planning-stat-not-scanned")
                    },
                },
            ),
        }
    }

    pub fn reason(&self, field: ReserveFieldId) -> (r: Option<Text>)
        ensures
            r == self.spec_reason(field),
    {
        match self.stats(field) {
            Some(stats) => match &stats.issue {
                Some(issue) => Some(verbatim(issue.clone())),
                None => None,
            },
            None => Some(
                match &self.reserve_totals_error {
                    Some(error) => key1("planning-stat-scan-failed", named("error", Arg::Name(error.clone()))),
                    None => if self.reserve_totals_awaiting_restore {
                        key("planning-stat-loading")
                    } else if self.reserve_totals_requested {
                        key("planning-stat-scanning")
                    } else {
                        key("planning-stat-not-scanned")
                    },
                },
            ),
        }
    }

    /// How many values the scan had to leave out, where it had to.
    pub fn gaps(&self, field: ReserveFieldId) -> (r: Option<Text>)
        ensures
            r == (match self.spec_stats(field) {
                Some(stats) if stats.missing_values > 0 || stats.unusable_weights > 0 => Some(
                    key2(
                        "stage-model-data-gaps",
                        named("missing", Arg::Number(stats.missing_values)),
                        named("weights", Arg::Number(stats.unusable_weights)),
                    ),
                ),
                _ => None,
            }),
    {
        if let Some(stats) = self.stats(field) {
            if stats.missing_values > 0 || stats.unusable_weights > 0 {
                return Some(
                    key2(
                        "stage-model-data-gaps",
                        named("missing", Arg::Number(stats.missing_values)),
                        named("weights", Arg::Number(stats.unusable_weights)),
                    ),
                );
            }
        }
        None
    }
}

/// A figure with two decimals, or a dash.
#[verifier::allow_in_spec]
pub fn figure(value: Option<Real64>) -> (r: Text)
    returns
        (match value {
            Some(value) => only(Arg::Fixed { value, decimals: 2 }),
            None => plain("—"),
        }),
{
    match value {
        Some(value) => only(Arg::Fixed { value, decimals: 2 }),
        None => plain("—"),
    }
}

/// What the total of a field is called.
pub fn total_label(aggregation: ReserveAggregation) -> (r: Text)
    ensures
        r == (if aggregation is WeightedAverage {
            key("planning-stat-avg")
        } else {
            key("planning-stat-sum")
        }),
{
    match aggregation {
        ReserveAggregation::WeightedAverage { .. } => key("planning-stat-avg"),
        _ => key("planning-stat-sum"),
    }
}

/// What a pattern is called where it may be absent.
pub fn pattern_label(pattern: FillStyle) -> (r: Text)
    ensures
        r == (match pattern {
            FillStyle::Clear => literal("None"),
            FillStyle::Crosses => literal("Crosses"),
            FillStyle::Slashes => literal("Slashes"),
            FillStyle::Solid => literal("Solid"),
        }),
{
    match pattern {
        FillStyle::Clear => literal("None"),
        FillStyle::Crosses => literal("Crosses"),
        FillStyle::Slashes => literal("Slashes"),
        FillStyle::Solid => literal("Solid"),
    }
}

/// What the content of a schedule is made of.
#[verifier::allow_in_spec]
pub fn category_label(category: usize) -> (r: Text)
    returns
        (if category == 0 {
            key("planning-dumps")
        } else if category == 1 {
            key("planning-stockpiles")
        } else if category == 2 {
            key("planning-loaders")
        } else {
            key("planning-trucks")
        }),
{
    if category == 0 {
        key("planning-dumps")
    } else if category == 1 {
        key("planning-stockpiles")
    } else if category == 2 {
        key("planning-loaders")
    } else {
        key("planning-trucks")
    }
}

/// The four categories, in order.
pub fn category_labels() -> (r: [Text; 4])
    ensures
        r@ == seq![category_label(0), category_label(1), category_label(2), category_label(3)],
{
    let r = [category_label(0), category_label(1), category_label(2), category_label(3)];
    assert(r@ =~= seq![category_label(0), category_label(1), category_label(2), category_label(3)]);
    r
}

/// What a new item of a category is called.
pub fn new_item_label(category: usize) -> (r: Text)
    ensures
        r == (if category == 0 {
            key("planning-new-dump")
        } else if category == 1 {
            key("planning-new-stockpile")
        } else if category == 2 {
            key("planning-new-loader")
        } else {
            key("planning-new-truck")
        }),
{
    if category == 0 {
        key("planning-new-dump")
    } else if category == 1 {
        key("planning-new-stockpile")
    } else if category == 2 {
        key("planning-new-loader")
    } else {
        key("planning-new-truck")
    }
}

/// The category to show, given the one that was last chosen.
pub fn current_category(chosen: Option<usize>) -> (r: usize)
    ensures
        r <= 3,
        r == (match chosen {
            Some(category) => if category < 3 {
                category
            } else {
                3
            },
            None => 0,
        }),
{
    match chosen {
        Some(category) => if category < 3 {
            category
        } else {
            3
        },
        None => 0,
    }
}

/// What fills the window of a setup page.
#[derive(Clone, Copy, Debug, PartialEq, Eq, Structural)]
pub enum SetupContent {
    /// The step has the viewport instead.
    Viewport,
    FieldList,
    BlockModels,
    Solids,
    Benching,
    Configuration,
    /// The items of one category.
    Items(usize),
}

impl PlanningState {
    pub open spec fn spec_content(self, configuration: bool, chosen: Option<usize>) -> SetupContent {
        if self.page is Solids {
            match self.solids_step {
                SolidsStep::FieldList => SetupContent::FieldList,
                SolidsStep::BlockModels => SetupContent::BlockModels,
                SolidsStep::Solids => SetupContent::Solids,
                SolidsStep::Benching => SetupContent::Benching,
                SolidsStep::Blasting | SolidsStep::DigStrips => SetupContent::Viewport,
            }
        } else if configuration {
            SetupContent::Configuration
        } else {
            SetupContent::Items(
                match chosen {
                    Some(category) => if category < 3 {
                        category
                    } else {
                        3
                    },
                    None => 0,
                },
            )
        }
    }

    /// What fills the window, given whether the configuration is selected and which
    /// category was last chosen.
    pub fn content(&self, configuration: bool, chosen: Option<usize>) -> (r: SetupContent)
        ensures
            r == self.spec_content(configuration, chosen),
    {
        match self.page {
            crate::workspace::PlanningPage::Solids => match self.solids_step {
                SolidsStep::FieldList => SetupContent::FieldList,
                SolidsStep::BlockModels => SetupContent::BlockModels,
                SolidsStep::Solids => SetupContent::Solids,
                SolidsStep::Benching => SetupContent::Benching,
                SolidsStep::Blasting | SolidsStep::DigStrips => SetupContent::Viewport,
            },
            _ => if configuration {
                SetupContent::Configuration
            } else {
                SetupContent::Items(current_category(chosen))
            },
        }
    }

    /// Go to a step of the tree.
    pub fn select_step(&mut self, step: SolidsStep)
        ensures
            *final(self) == (PlanningState { solids_step: step, ..*old(self) }),
    {
        self.solids_step = step;
    }
}

/// A stage is settled once it has come to an end, well or badly; it is broken where the end
/// was bad.
pub proof fn settled_stages_have_ended(state: StageState)
    ensures
        is_settled(state) <==> !(state is Pending) && !(state is Running),
        is_broken(state) ==> is_settled(state),
        is_settled(state) && !is_broken(state) <==> state is Complete,
{
}

/// The line reaches from the first badge to the first one that is not settled: there are as
/// many links as settled stages in a row, and one fewer than stages where all are.
pub proof fn links_reach_the_first_unsettled_stage(states: Seq<StageState>, count: int)
    requires
        0 <= count < states.len(),
        forall|i: int| 0 <= i < count ==> is_settled(#[trigger] states[i]),
        count + 1 < states.len() ==> !is_settled(states[count]),
    ensures
        links_from(states, 0, false).len() == count,
{
    lemma_link_count(states, 0, false, count);
}

proof fn lemma_link_count(states: Seq<StageState>, from: int, broken: bool, count: int)
    requires
        0 <= from <= count < states.len(),
        forall|i: int| from <= i < count ==> is_settled(#[trigger] states[i]),
        count + 1 < states.len() ==> !is_settled(states[count]),
    ensures
        links_from(states, from, broken).len() == count - from,
    decreases count - from,
{
    if from < count {
        assert(is_settled(states[from]));
        lemma_link_count(states, from + 1, broken || is_broken(states[from]), count);
    }
}

/// The states are listed in the order of the steps, each step's at its place.
pub proof fn states_stand_at_their_steps(stages: StageStates, step: SolidsStep)
    ensures
        stages.in_order().len() == SOLIDS_STEP_COUNT,
        stages.in_order()[step.place()] == stages.at(step).state,
        step is FieldList ==> stages.at(step) == stages.field_list,
        step is BlockModels ==> stages.at(step) == stages.block_models,
        step is Solids ==> stages.at(step) == stages.solids,
        step is Benching ==> stages.at(step) == stages.benching,
        step is Blasting ==> stages.at(step) == stages.blasting,
        step is DigStrips ==> stages.at(step) == stages.dig_strips,
{
}

/// The count of completed stages is the number of steps whose stage is complete: none counts
/// none, all count all, and one stage more or less counts one more or less.
pub proof fn completed_stages_are_counted(stages: StageStates)
    ensures
        0 <= stages.spec_completed() <= SOLIDS_STEP_COUNT,
        stages.spec_completed() == SOLIDS_STEP_COUNT <==> forall|step: SolidsStep| (#[trigger] stages.at(step)).state is Complete,
        stages.spec_completed() == 0 <==> forall|step: SolidsStep| !((#[trigger] stages.at(step)).state is Complete),
        stages.spec_completed() == stages.in_order().filter(|state: StageState| state is Complete).len(),
{
    let all = forall|step: SolidsStep| (#[trigger] stages.at(step)).state is Complete;
    let none = forall|step: SolidsStep| !((#[trigger] stages.at(step)).state is Complete);
    let a = stages.at(SolidsStep::FieldList);
    let b = stages.at(SolidsStep::BlockModels);
    let c = stages.at(SolidsStep::Solids);
    let d = stages.at(SolidsStep::Benching);
    let e = stages.at(SolidsStep::Blasting);
    let f = stages.at(SolidsStep::DigStrips);
    if a.state is Complete && b.state is Complete && c.state is Complete && d.state is Complete && e.state is Complete && f.state
        is Complete {
        assert forall|step: SolidsStep| (#[trigger] stages.at(step)).state is Complete by {}
    }
    if !(a.state is Complete) && !(b.state is Complete) && !(c.state is Complete) && !(d.state is Complete) && !(e.state is Complete)
        && !(f.state is Complete) {
        assert forall|step: SolidsStep| !((#[trigger] stages.at(step)).state is Complete) by {}
    }
    let keep = |state: StageState| state is Complete;
    let s0 = Seq::<StageState>::empty();
    let s1 = s0.push(stages.field_list.state);
    let s2 = s1.push(stages.block_models.state);
    let s3 = s2.push(stages.solids.state);
    let s4 = s3.push(stages.benching.state);
    let s5 = s4.push(stages.blasting.state);
    let s6 = s5.push(stages.dig_strips.state);
    reveal(Seq::filter);
    assert(s0.filter(keep).len() == 0);
    assert(s1.drop_last() =~= s0 && s2.drop_last() =~= s1 && s3.drop_last() =~= s2 && s4.drop_last() =~= s3 && s5.drop_last() =~= s4
        && s6.drop_last() =~= s5);
    assert(s1.filter(keep).len() == done(stages.field_list));
    assert(s2.filter(keep).len() == done(stages.field_list) + done(stages.block_models));
    assert(s3.filter(keep).len() == s2.filter(keep).len() + done(stages.solids));
    assert(s4.filter(keep).len() == s3.filter(keep).len() + done(stages.benching));
    assert(s5.filter(keep).len() == s4.filter(keep).len() + done(stages.blasting));
    assert(s6.filter(keep).len() == s5.filter(keep).len() + done(stages.dig_strips));
    assert(stages.in_order() =~= s6);
}

/// The running step is the first that runs, and there is none where none does.
pub proof fn first_running_step_is_reported(stages: StageStates, step: SolidsStep)
    ensures
        stages.spec_running() matches Some(running) ==> stages.at(running).state is Running && (stages.at(step).state is Running
            ==> running.place() <= step.place()),
        stages.spec_running() is None ==> !(stages.at(step).state is Running),
{
}

/// The progress tells of what runs; where nothing does, of the step in hand, and in the solids
/// view, which has none, of the last one.
pub proof fn progress_tells_of_what_runs(editor: EditorState)
    ensures
        editor.planning.stages.spec_running() matches Some(step) ==> editor.spec_reported_step() == step,
        editor.planning.stages.spec_running() is None && !editor.shows_solids_view() ==> editor.spec_reported_step()
            == editor.planning.pages.solids_step,
        editor.planning.stages.spec_running() is None && editor.shows_solids_view() ==> editor.spec_reported_step().place() + 1
            == SOLIDS_STEP_COUNT,
{
}

/// A run is started only while none is active and cancelled only while one is.
pub proof fn runs_are_started_once(state: PlanningState, step: SolidsStep)
    ensures
        state.run_active ==> !state.allows(RunClick::RunStep(step)) && !state.allows(RunClick::RunAll) && state.allows(RunClick::Cancel),
        !state.run_active ==> state.allows(RunClick::RunStep(step)) && state.allows(RunClick::RunAll) && !state.allows(RunClick::Cancel),
{
}

/// A tooltip lists every diagnostic up to its limit, and a full list beyond it.
pub proof fn tooltips_list_up_to_their_limit(stage: PlanningStageView)
    ensures
        stage.diagnostics@.len() <= DIAGNOSTIC_LIMIT ==> stage.listed() == stage.diagnostics@.len(),
        stage.diagnostics@.len() > DIAGNOSTIC_LIMIT ==> stage.listed() == DIAGNOSTIC_LIMIT,
        DIAGNOSTIC_LIMIT == 12,
{
}

/// A diagnostic names its entity where it has one, keeps its message, and says whether it
/// blocks.
pub proof fn diagnostics_say_what_they_are_of(diagnostic: StageDiagnostic)
    ensures
        diagnostic.spec_line().blocking == diagnostic.blocking,
        diagnostic.entity is None ==> diagnostic.spec_line().text == verbatim(diagnostic.message),
        diagnostic.entity matches Some(entity) ==> diagnostic.spec_line().text == plain2(
            "%entity%: %message%",
            named("entity", Arg::Name(entity)),
            named("message", Arg::Name(diagnostic.message)),
        ),
{
}

/// A stage has one note for each thing that there is to say of it: what blocks it, then what
/// it reports, then its last run.
pub proof fn stages_have_a_note_for_each_thing(stage: PlanningStageView)
    ensures
        ({
            let count = |present: bool| if present { 1int } else { 0 };
            &&& stage.spec_notes().len() == count(stage.blocked_by is Some) + count(stage.message is Some) + count(
                stage.last_success is Some,
            )
            &&& stage.blocked_by matches Some(step) ==> stage.spec_notes()[0] == key1(
                "stage-blocked-by",
                named("stage", Arg::StepName(step)),
            )
            &&& stage.message matches Some(message) ==> stage.spec_notes()[count(stage.blocked_by is Some)] == verbatim(message)
            &&& stage.last_success matches Some(summary) ==> stage.spec_notes().last() == key2(
                "stage-last-run",
                named("generation", Arg::Number(summary.generation)),
                named("entities", Arg::Count(summary.entities)),
            )
        }),
{
}

/// A weighted average is named by the field that it is weighted by, and only it is.
pub proof fn averages_name_their_weight(document: Document, aggregation: ReserveAggregation)
    ensures
        aggregation is Sum ==> spec_aggregation_summary(document, aggregation) == literal("Sum"),
        aggregation is Category ==> spec_aggregation_summary(document, aggregation) == literal("Category"),
        aggregation matches ReserveAggregation::WeightedAverage { weight_field } ==> {
            &&& document.field(weight_field) matches Some(field) ==> spec_aggregation_summary(document, aggregation) == literal1(
                "Weighted avg. by %name%",
                named("name", Arg::Name(field.name)),
            )
            &&& document.field(weight_field) matches Some(field) ==> (aggregation_phrase(document, aggregation) matches Arg::NamePhrase {
                value,
                ..
            } && value == Some(field.name))
            &&& document.field(weight_field) is None ==> (aggregation_phrase(document, aggregation) matches Arg::NamePhrase { value, .. }
                && value is None)
        },
{
}

/// A click in a list asks for the item that was clicked and for nothing of another; selecting
/// and making something new ask for nothing.
pub proof fn list_clicks_ask_for_their_item(click: ListClick, other: ListClick)
    ensures
        click matches ListClick::RenameField(id) ==> PlanningWorkspace::list_asks(click) == seq![
            UiCommand::BeginRenameItem(RenameTarget::ReserveField(id)),
        ],
        click matches ListClick::RenameSolid(id) ==> PlanningWorkspace::list_asks(click) == seq![
            UiCommand::BeginRenameItem(RenameTarget::Solid(id)),
        ],
        click matches ListClick::DeleteField(id) ==> PlanningWorkspace::list_asks(click) == seq![UiCommand::DeleteReserveField(id)],
        click matches ListClick::DeleteSolid(id) ==> PlanningWorkspace::list_asks(click) == seq![UiCommand::DeleteSolid(id)],
        click is SelectSolid || click is SelectBlockModel || click is NewField || click is NewSolid ==> PlanningWorkspace::list_asks(
            click,
        ).len() == 0,
        PlanningWorkspace::list_asks(click).len() > 0 && PlanningWorkspace::list_asks(click) == PlanningWorkspace::list_asks(other)
            ==> click == other,
{
    if PlanningWorkspace::list_asks(click).len() > 0 && PlanningWorkspace::list_asks(click) == PlanningWorkspace::list_asks(other) {
        assert(PlanningWorkspace::list_asks(click)[0] == PlanningWorkspace::list_asks(other)[0]);
    }
}

/// A name is marked exactly while there are unsaved edits, and the name itself is all there.
pub proof fn unsaved_names_are_marked(name: Seq<char>, dirty: bool)
    ensures
        marked(name, dirty).take(name.len() as int) == name,
        !dirty ==> marked(name, dirty) == name,
        dirty ==> marked(name, dirty).skip(name.len() as int) == " *"@,
{
    assert(marked(name, dirty).take(name.len() as int) =~= name);
    if dirty {
        assert(marked(name, dirty).skip(name.len() as int) =~= " *"@);
    }
}

/// A field has the mapping that is listed first for it, and none where none is.
pub proof fn first_mapping_counts(mapping: Seq<ReserveFieldMapping>, field: ReserveFieldId, place: int)
    ensures
        0 <= place < mapping.len() && mapping[place].field == field && (forall|i: int|
            0 <= i < place ==> (#[trigger] mapping[i]).field != field) ==> mapping_from(mapping, field, 0) == Some(mapping[place].source),
        (forall|i: int| 0 <= i < mapping.len() ==> (#[trigger] mapping[i]).field != field) ==> mapping_from(mapping, field, 0) is None
            && MappingChoice::spec_of(mapping, field) is Unmapped,
{
    if 0 <= place < mapping.len() && mapping[place].field == field && (forall|i: int|
        0 <= i < place ==> (#[trigger] mapping[i]).field != field) {
        lemma_first_mapping(mapping, field, 0, place);
    }
    if forall|i: int| 0 <= i < mapping.len() ==> (#[trigger] mapping[i]).field != field {
        lemma_first_mapping(mapping, field, 0, mapping.len() as int);
    }
}

proof fn lemma_first_mapping(mapping: Seq<ReserveFieldMapping>, field: ReserveFieldId, from: int, place: int)
    requires
        0 <= from <= place <= mapping.len(),
        place < mapping.len() ==> mapping[place].field == field,
        forall|i: int| from <= i < place ==> (#[trigger] mapping[i]).field != field,
    ensures
        mapping_from(mapping, field, from) == (if place < mapping.len() {
            Some(mapping[place].source)
        } else {
            None
        }),
    decreases place - from,
{
    if from < place {
        assert(mapping[from].field != field);
        lemma_first_mapping(mapping, field, from + 1, place);
    }
}

/// The choice that is shown is what the field is mapped to: a column by its name, a constant
/// whatever its value.
pub proof fn shown_choice_is_the_mapping(mapping: Seq<ReserveFieldMapping>, field: ReserveFieldId)
    ensures
        mapping_from(mapping, field, 0) matches Some(ReserveMappingSource::Column(name)) ==> MappingChoice::spec_of(mapping, field)
            == MappingChoice::Column(name),
        mapping_from(mapping, field, 0) matches Some(ReserveMappingSource::Constant(_)) ==> MappingChoice::spec_of(mapping, field)
            is Constant,
        mapping_from(mapping, field, 0) is None <==> MappingChoice::spec_of(mapping, field) is Unmapped,
{
}

/// Two choices are the same only where they are: choosing the one that is in force changes
/// nothing, and any other does.
pub proof fn choices_are_told_apart(a: MappingChoice, b: MappingChoice)
    ensures
        a.same_choice(a),
        a.same_choice(b) == b.same_choice(a),
        a is Unmapped ==> (a.same_choice(b) <==> b is Unmapped),
        a is Constant ==> (a.same_choice(b) <==> b is Constant),
        a matches MappingChoice::Column(name) ==> (b matches MappingChoice::Column(other) ==> (a.same_choice(b) <==> name@ == other@)),
        a is Column && !(b is Column) ==> !a.same_choice(b),
        a is Unmapped <==> a.spec_source() is None,
        a matches MappingChoice::Column(name) ==> a.spec_source() == Some(ReserveMappingSource::Column(name)),
        a is Constant ==> (a.spec_source() matches Some(ReserveMappingSource::Constant(value)) && value.value() == 0),
        a matches MappingChoice::Column(name) ==> a.spec_label() == verbatim(name),
        a is Unmapped ==> a.spec_label() == literal("Unmapped"),
        a is Constant ==> a.spec_label() == literal("Constant"),
{
}

/// A field is offered every column of its own kind and no other, first of all not to be
/// mapped; only a number can be mapped to a constant.
pub proof fn fields_are_offered_their_own_columns(model: OpenBlockModel, aggregation: ReserveAggregation, name: String, place: int)
    ensures
        model.spec_options(aggregation)[0] is Unmapped,
        model.spec_options(aggregation).contains(MappingChoice::Constant) <==> !(aggregation is Category),
        model.spec_options(aggregation).contains(MappingChoice::Column(name)) <==> if aggregation is Category {
            model.categorical_columns@.contains(name)
        } else {
            model.numeric_columns@.contains(name)
        },
        aggregation is Category && 0 <= place < model.categorical_columns@.len() ==> model.spec_options(aggregation)[place + 1]
            == MappingChoice::Column(model.categorical_columns@[place]),
        !(aggregation is Category) && 0 <= place < model.numeric_columns@.len() ==> model.spec_options(aggregation)[place + 2]
            == MappingChoice::Column(model.numeric_columns@[place]),
{
    let options = model.spec_options(aggregation);
    let columns = if aggregation is Category { model.categorical_columns@ } else { model.numeric_columns@ };
    let opening: int = if aggregation is Category { 1 } else { 2 };
    if !(aggregation is Category) {
        assert(options[1] is Constant);
    }
    if columns.contains(name) {
        let k = choose|k: int| 0 <= k < columns.len() && columns[k] == name;
        assert(options[opening + k] == MappingChoice::Column(name));
    }
    if options.contains(MappingChoice::Column(name)) {
        let k = choose|k: int| 0 <= k < options.len() && options[k] == MappingChoice::Column(name);
        assert(columns[k - opening] == name);
    }
}

/// A field has the figures that are listed first for it, and none where none are.
pub proof fn first_figures_count(totals: Seq<(ReserveFieldId, ReserveStats)>, field: ReserveFieldId, place: int)
    ensures
        0 <= place < totals.len() && totals[place].0 == field && (forall|i: int| 0 <= i < place ==> (#[trigger] totals[i]).0 != field)
            ==> OpenBlockModel::stats_from(totals, field, 0) == Some(totals[place].1),
        (forall|i: int| 0 <= i < totals.len() ==> (#[trigger] totals[i]).0 != field) ==> OpenBlockModel::stats_from(totals, field, 0)
            is None,
{
    if 0 <= place < totals.len() && totals[place].0 == field && (forall|i: int| 0 <= i < place ==> (#[trigger] totals[i]).0 != field) {
        lemma_first_figures(totals, field, 0, place);
    }
    if forall|i: int| 0 <= i < totals.len() ==> (#[trigger] totals[i]).0 != field {
        lemma_first_figures(totals, field, 0, totals.len() as int);
    }
}

proof fn lemma_first_figures(totals: Seq<(ReserveFieldId, ReserveStats)>, field: ReserveFieldId, from: int, place: int)
    requires
        0 <= from <= place <= totals.len(),
        place < totals.len() ==> totals[place].0 == field,
        forall|i: int| from <= i < place ==> (#[trigger] totals[i]).0 != field,
    ensures
        OpenBlockModel::stats_from(totals, field, from) == (if place < totals.len() {
            Some(totals[place].1)
        } else {
            None
        }),
    decreases place - from,
{
    if from < place {
        assert(totals[from].0 != field);
        lemma_first_figures(totals, field, from + 1, place);
    }
}

/// Why a field has no total: what its scan found, or else, in this order, that the scan
/// failed, that the figures are still being loaded, that they are being scanned, or that
/// nobody asked. A field with sound figures needs no reason, every other one has one.
pub proof fn missing_totals_have_a_reason(model: OpenBlockModel, field: ReserveFieldId)
    ensures
        model.spec_reason(field) is None <==> (model.spec_stats(field) matches Some(stats) && stats.issue is None),
        model.spec_stats(field) matches Some(stats) ==> (stats.issue matches Some(issue) ==> model.spec_reason(field) == Some(
            verbatim(issue),
        )),
        model.spec_stats(field) is None ==> {
            &&& model.reserve_totals_error matches Some(error) ==> model.spec_reason(field) == Some(
                key1("planning-stat-scan-failed", named("error", Arg::Name(error))),
            )
            &&& model.reserve_totals_error is None && model.reserve_totals_awaiting_restore ==> model.spec_reason(field) == Some(
                key("planning-stat-loading"),
            )
            &&& model.reserve_totals_error is None && !model.reserve_totals_awaiting_restore && model.reserve_totals_requested
                ==> model.spec_reason(field) == Some(key("planning-stat-scanning"))
            &&& model.reserve_totals_error is None && !model.reserve_totals_awaiting_restore && !model.reserve_totals_requested
                ==> model.spec_reason(field) == Some(key("planning-stat-not-scanned"))
        },
{
}

/// On the solids page the window shows the step in hand, and the viewport for the two that are
/// drawn there; elsewhere it shows the configuration or the items of a category that there is.
pub proof fn window_shows_the_step_in_hand(state: PlanningState, configuration: bool, chosen: Option<usize>)
    ensures
        ({
            let content = state.spec_content(configuration, chosen);
            let solids = state.page is Solids;
            &&& solids ==> (content is FieldList <==> state.solids_step is FieldList)
            &&& solids ==> (content is BlockModels <==> state.solids_step is BlockModels)
            &&& solids ==> (content is Solids <==> state.solids_step is Solids)
            &&& solids ==> (content is Benching <==> state.solids_step is Benching)
            &&& solids ==> (content is Viewport <==> state.solids_step is Blasting || state.solids_step is DigStrips)
            &&& !solids ==> (content is Configuration <==> configuration)
            &&& !solids && !configuration ==> (content matches SetupContent::Items(category) && category <= 3)
            &&& !solids && !configuration && (chosen matches Some(category) && category <= 3) ==> content == SetupContent::Items(chosen->0)
            &&& !solids && !configuration && chosen is None ==> content == SetupContent::Items(0)
        }),
{
}

} // verus!
