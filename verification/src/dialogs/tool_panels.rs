//! The docked panels of the tools that edit geometry.
use crate::command::UiCommand;
use crate::constants::{BILLIONTH, LARGEST, ZERO};
use crate::editor::EditorState;
use crate::fields::{RealField, RealRange};
use crate::lists::{copied, only_if, push_if};
use crate::model::CollarRotation;
use crate::number::Real64;
use crate::state::drawing::{DrawingState, StrokeState, TextState, ToolState};
use crate::state::geometry::{BatterBermState, BezierState, ChamferState, OffsetState, RelimitState, RotateState};
use crate::text::{literal, Text};
use crate::tools::{ActiveTool, BatterBermMode, HeightMode, OffsetMeasure, RelimitMode, TrimEnd};
use vstd::prelude::*;

verus! {

/// The offset dialog that is drawn.
#[derive(Clone, Copy, Debug, PartialEq, Eq, Structural)]
pub enum OffsetDialog {
    Design,
    /// Cuts are drawn flat on one bench or flitch, so slope, height and the
    /// triangulation clamp have nothing to act on: all that is left is a spacing.
    PlanningCut,
}

impl OffsetDialog {
    pub fn title(self) -> (r: Text)
        ensures
            r == (if self is Design {
                literal("Offset Element")
            } else {
                literal("Offset Cut")
            }),
    {
        match self {
            OffsetDialog::Design => literal("Offset Element"),
            OffsetDialog::PlanningCut => literal("Offset Cut"),
        }
    }
}

impl EditorState {
    /// Which offset dialog is drawn. There is none without anything to offset.
    pub fn offset_dialog(&self) -> (r: Option<OffsetDialog>)
        ensures
            r == (if self.geometry.offset.target_ids@.len() == 0 {
                None
            } else if self.on_cut_step() {
                Some(OffsetDialog::PlanningCut)
            } else {
                Some(OffsetDialog::Design)
            }),
    {
        if self.geometry.offset.target_ids.len() == 0 {
            None
        } else if self.is_planning_cut_step() {
            Some(OffsetDialog::PlanningCut)
        } else {
            Some(OffsetDialog::Design)
        }
    }
}

/// What the slope angle makes of the offset value: products and quotients of the
/// value with the trigonometric functions of the angle.
#[derive(Clone, Copy, Debug, PartialEq, Eq, Structural)]
pub struct OffsetSlope {
    pub tangent: Real64,
    /// Value times tangent.
    pub width_rise: Real64,
    /// Value by tangent.
    pub height_run: Real64,
}

/// How far an offset goes.
#[derive(Clone, Copy, Debug, PartialEq, Eq)]
pub struct OffsetReach {
    pub horiz_dist: Real64,
    pub z_delta: Real64,
    /// Slope and elevation, where every vertex is projected onto one elevation.
    pub project_to_rl: Option<(Real64, Real64)>,
}

/// A slope this flat has no run to a height.
pub open spec fn nearly_flat(tangent: Real64) -> bool {
    tangent.abs_value().lt_number(Real64 { bits: BILLIONTH })
}

impl OffsetState {
    pub open spec fn to_elevation(self) -> bool {
        self.measure == OffsetMeasure::Height(HeightMode::AbsoluteRL)
    }

    /// Keep the slope angle in its range after an edit.
    pub fn settle_angle(&mut self)
        ensures
            *final(self) == (OffsetState {
                angle_degrees: old(self).angle_degrees.held_between(
                    RealField::OffsetAngle.spec_range().low,
                    RealField::OffsetAngle.spec_range().high,
                ),
                ..*old(self)
            }),
    {
        let range = RealField::OffsetAngle.range();
        self.angle_degrees = range.nearest(self.angle_degrees);
    }

    /// Measure by height, relative to the source unless a height mode is already
    /// chosen.
    pub fn measure_height(&mut self)
        ensures
            final(self).measure == (if old(self).measure is Height {
                old(self).measure
            } else {
                OffsetMeasure::Height(HeightMode::Relative)
            }),
            *final(self) == (OffsetState { measure: final(self).measure, ..*old(self) }),
    {
        match self.measure {
            OffsetMeasure::Height(_) => {},
            _ => {
                self.measure = OffsetMeasure::Height(HeightMode::Relative);
            },
        }
    }

    /// What the value stands for.
    pub fn value_label(&self) -> (r: Text)
        ensures
            r == (match self.measure {
                OffsetMeasure::Distance | OffsetMeasure::Width => literal("Horizontal distance"),
                OffsetMeasure::Height(HeightMode::Relative) => literal("Height change"),
                OffsetMeasure::Height(HeightMode::AbsoluteRL) => literal("Target RL"),
            }),
    {
        match self.measure {
            OffsetMeasure::Distance | OffsetMeasure::Width => literal("Horizontal distance"),
            OffsetMeasure::Height(HeightMode::Relative) => literal("Height change"),
            OffsetMeasure::Height(HeightMode::AbsoluteRL) => literal("Target RL"),
        }
    }

    /// The values that the field takes: a height may be negative, a distance not.
    pub fn value_range(&self) -> (r: RealRange)
        ensures
            r == (if self.measure is Height {
                RealField::OffsetHeight.spec_range()
            } else {
                RealField::OffsetLength.spec_range()
            }),
    {
        match self.measure {
            OffsetMeasure::Height(_) => RealField::OffsetHeight.range(),
            _ => RealField::OffsetLength.range(),
        }
    }

    /// The value is more than nothing.
    pub open spec fn reaches_somewhere(self) -> bool {
        (Real64 { bits: BILLIONTH }).lt_number(self.value_input.abs_value())
    }

    fn value_reaches(&self) -> (r: bool)
        ensures
            r == self.reaches_somewhere(),
    {
        (Real64 { bits: BILLIONTH }).less(self.value_input.abs())
    }

    /// Whether a side can be picked: always for a target elevation, otherwise for
    /// a value that is more than nothing.
    pub fn can_pick_side(&self) -> (r: bool)
        ensures
            r == (self.to_elevation() || self.reaches_somewhere()),
    {
        let to_elevation = match self.measure {
            OffsetMeasure::Height(HeightMode::AbsoluteRL) => true,
            _ => false,
        };
        to_elevation || self.value_reaches()
    }

    /// How far the offset goes for each way of measuring it.
    pub open spec fn reach(self, slope: OffsetSlope) -> OffsetReach {
        let zero = Real64 { bits: ZERO };
        match self.measure {
            OffsetMeasure::Distance | OffsetMeasure::Width => OffsetReach {
                horiz_dist: self.value_input,
                z_delta: slope.width_rise,
                project_to_rl: None,
            },
            OffsetMeasure::Height(HeightMode::Relative) => if nearly_flat(slope.tangent) {
                OffsetReach { horiz_dist: self.value_input, z_delta: zero, project_to_rl: None }
            } else {
                OffsetReach { horiz_dist: slope.height_run, z_delta: self.value_input, project_to_rl: None }
            },
            OffsetMeasure::Height(HeightMode::AbsoluteRL) => OffsetReach {
                horiz_dist: zero,
                z_delta: zero,
                project_to_rl: Some((slope.tangent, self.value_input)),
            },
        }
    }

    fn reach_for(&self, slope: OffsetSlope) -> (r: OffsetReach)
        ensures
            r == self.reach(slope),
    {
        let zero = Real64 { bits: ZERO };
        match self.measure {
            OffsetMeasure::Distance | OffsetMeasure::Width => OffsetReach {
                horiz_dist: self.value_input,
                z_delta: slope.width_rise,
                project_to_rl: None,
            },
            OffsetMeasure::Height(HeightMode::Relative) => if slope.tangent.abs().less(Real64 { bits: BILLIONTH }) {
                OffsetReach { horiz_dist: self.value_input, z_delta: zero, project_to_rl: None }
            } else {
                OffsetReach { horiz_dist: slope.height_run, z_delta: self.value_input, project_to_rl: None }
            },
            OffsetMeasure::Height(HeightMode::AbsoluteRL) => OffsetReach {
                horiz_dist: zero,
                z_delta: zero,
                project_to_rl: Some((slope.tangent, self.value_input)),
            },
        }
    }

    /// A command that begins the side pick of this offset.
    pub open spec fn begins_pick(self, command: UiCommand, reach: OffsetReach) -> bool {
        command matches UiCommand::BeginOffsetPick { object_ids, horiz_dist, z_delta, project_to_rl, collide_with_triangulation } && {
            &&& object_ids@ == self.target_ids@
            &&& horiz_dist == reach.horiz_dist
            &&& z_delta == reach.z_delta
            &&& project_to_rl == reach.project_to_rl
            &&& collide_with_triangulation == self.collide_with_triangulation
        }
    }

    fn push_pick(&self, reach: OffsetReach, commands: &mut Vec<UiCommand>)
        ensures
            final(commands)@.len() == old(commands)@.len() + 1,
            final(commands)@.drop_last() == old(commands)@,
            self.begins_pick(final(commands)@.last(), reach),
    {
        commands.push(
            UiCommand::BeginOffsetPick {
                object_ids: copied(&self.target_ids),
                horiz_dist: reach.horiz_dist,
                z_delta: reach.z_delta,
                project_to_rl: reach.project_to_rl,
                collide_with_triangulation: self.collide_with_triangulation,
            },
        );
        assert(commands@.drop_last() =~= old(commands)@);
    }

    /// Begin the side pick of a design offset.
    pub fn queue_begin_offset_pick(&self, slope: OffsetSlope, commands: &mut Vec<UiCommand>)
        ensures
            final(commands)@.len() == old(commands)@.len() + 1,
            final(commands)@.drop_last() == old(commands)@,
            self.begins_pick(final(commands)@.last(), self.reach(slope)),
    {
        let reach = self.reach_for(slope);
        self.push_pick(reach, commands);
    }

    /// A cut goes sideways by its spacing and nowhere else.
    pub open spec fn cut_reach(self) -> OffsetReach {
        OffsetReach { horiz_dist: self.value_input, z_delta: Real64 { bits: ZERO }, project_to_rl: None }
    }

    /// A side can be picked from a dialog.
    pub open spec fn allows_pick(self, dialog: OffsetDialog) -> bool {
        match dialog {
            OffsetDialog::Design => self.to_elevation() || self.reaches_somewhere(),
            OffsetDialog::PlanningCut => self.reaches_somewhere(),
        }
    }

    /// Whether a side can be picked from a dialog: a cut always needs a spacing.
    pub fn can_pick(&self, dialog: OffsetDialog) -> (r: bool)
        ensures
            r == self.allows_pick(dialog),
    {
        match dialog {
            OffsetDialog::Design => self.can_pick_side(),
            OffsetDialog::PlanningCut => self.value_reaches(),
        }
    }

    /// The side is picked: by the button or by Enter, where it can be.
    pub open spec fn picks_side(self, dialog: OffsetDialog, clicked: bool, enter: bool) -> bool {
        (clicked || enter) && self.allows_pick(dialog)
    }

    /// Take the buttons of the offset dialog. The angle, measure and clamp that the
    /// tool remembers are not touched by the planning dialog.
    pub fn finish_offset(
        &self,
        dialog: OffsetDialog,
        slope: OffsetSlope,
        pick_clicked: bool,
        enter: bool,
        cancel: bool,
        commands: &mut Vec<UiCommand>,
    )
        ensures
            ({
                let picks = self.picks_side(dialog, pick_clicked, enter);
                let count = (if picks {
                    1int
                } else {
                    0
                }) + (if cancel {
                    1int
                } else {
                    0
                });
                let before = old(commands)@;
                let after = final(commands)@;
                &&& after.len() == before.len() + count
                &&& after.take(before.len() as int) == before
                &&& picks ==> self.begins_pick(
                    after[before.len() as int],
                    match dialog {
                        OffsetDialog::Design => self.reach(slope),
                        OffsetDialog::PlanningCut => self.cut_reach(),
                    },
                )
                &&& cancel ==> after.last() == UiCommand::CancelOffset
            }),
    {
        if self.can_pick(dialog) && (pick_clicked || enter) {
            let reach = match dialog {
                OffsetDialog::Design => self.reach_for(slope),
                OffsetDialog::PlanningCut => OffsetReach {
                    horiz_dist: self.value_input,
                    z_delta: Real64 { bits: ZERO },
                    project_to_rl: None,
                },
            };
            self.push_pick(reach, commands);
            assert(commands@.take(old(commands)@.len() as int) =~= commands@.drop_last());
        }
        assert(commands@.take(old(commands)@.len() as int) =~= old(commands)@);
        let ghost before = commands@;
        if cancel {
            commands.push(UiCommand::CancelOffset);
            assert(commands@.take(old(commands)@.len() as int) =~= before.take(old(commands)@.len() as int));
        }
    }
}

/// A distance and a width are the same horizontal distance: they reach equally far.
pub proof fn distance_is_width(distance: OffsetState, width: OffsetState, slope: OffsetSlope)
    requires
        distance.measure is Distance,
        width == (OffsetState { measure: OffsetMeasure::Width, ..distance }),
    ensures
        distance.reach(slope) == width.reach(slope),
        distance.reach(slope).horiz_dist == distance.value_input,
        distance.reach(slope).project_to_rl is None,
{
}

/// What happened in the batter berm dialog.
#[derive(Clone, Copy, Debug, PartialEq, Eq)]
pub struct BatterBermEdit {
    pub benches: Option<u32>,
    pub mode: Option<BatterBermMode>,
    pub up: Option<bool>,
    pub apply: bool,
    pub cancel: bool,
}

/// A count of benches within what the geometry allows: at least one while there
/// can be any.
pub open spec fn fitted_benches(benches: u32, max_benches: u32) -> u32 {
    if max_benches == 0 {
        0
    } else if benches < 1 {
        1
    } else if benches > max_benches {
        max_benches
    } else {
        benches
    }
}

fn fit_benches(benches: u32, max_benches: u32) -> (r: u32)
    ensures
        r == fitted_benches(benches, max_benches),
{
    if max_benches == 0 {
        0
    } else if benches < 1 {
        1
    } else if benches > max_benches {
        max_benches
    } else {
        benches
    }
}

impl BatterBermState {
    /// The counts that the field takes.
    pub fn bench_range(&self) -> (r: crate::fields::CountRange)
        ensures
            r.low == (if self.max_benches == 0 {
                0u32
            } else {
                1
            }),
            r.high == self.max_benches,
    {
        crate::fields::CountRange {
            low: if self.max_benches == 0 {
                0
            } else {
                1
            },
            high: self.max_benches,
        }
    }

    /// Take a frame of the batter berm dialog. Without a target nothing happens.
    /// Apply works once there are rings to commit.
    pub fn edit(&mut self, edit: BatterBermEdit, commands: &mut Vec<UiCommand>)
        ensures
            old(self).target_id is None ==> *final(self) == *old(self) && final(commands)@ == old(commands)@,
            old(self).target_id is Some ==> {
                &&& *final(self) == (BatterBermState {
                    benches: match edit.benches {
                        Some(benches) => fitted_benches(benches, old(self).max_benches),
                        None => fitted_benches(old(self).benches, old(self).max_benches),
                    },
                    mode: match edit.mode {
                        Some(mode) => mode,
                        None => old(self).mode,
                    },
                    direction_up: match edit.up {
                        Some(up) => up,
                        None => old(self).direction_up,
                    },
                    ..*old(self)
                })
                &&& final(commands)@ == old(commands)@ + only_if(
                    edit.apply && old(self).rings_world@.len() > 0,
                    UiCommand::CommitBatterBerm,
                ) + only_if(edit.cancel, UiCommand::CancelBatterBerm)
            },
    {
        if self.target_id.is_none() {
            return;
        }
        self.benches = fit_benches(self.benches, self.max_benches);
        if let Some(benches) = edit.benches {
            self.benches = fit_benches(benches, self.max_benches);
        }
        if let Some(mode) = edit.mode {
            self.mode = mode;
        }
        if let Some(up) = edit.up {
            self.direction_up = up;
        }
        push_if(commands, edit.apply && self.rings_world.len() > 0, UiCommand::CommitBatterBerm);
        push_if(commands, edit.cancel, UiCommand::CancelBatterBerm);
    }
}

/// A settled count of benches is within its range, and settling it again changes
/// nothing.
pub proof fn benches_stay_in_range(benches: u32, max_benches: u32)
    ensures
        fitted_benches(benches, max_benches) <= max_benches,
        max_benches > 0 ==> fitted_benches(benches, max_benches) >= 1,
        fitted_benches(fitted_benches(benches, max_benches), max_benches) == fitted_benches(benches, max_benches),
{
}

/// What the relimit dialog says.
#[derive(Clone, Debug, PartialEq)]
pub enum RelimitStatus {
    /// A pick or a hover is waited for.
    Waiting { prompt: Text, end: Option<Text> },
    /// A length is typed.
    Length(Text),
    Nothing,
}

impl RelimitState {
    /// Choose how the line is relimited. Turning to intersection begins its pick.
    pub fn choose_mode(&mut self, mode: RelimitMode)
        ensures
            final(self).mode == mode,
            mode is Intersect && !(old(self).mode is Intersect) ==> final(self).waiting_for_pick && !final(self).confirming_end,
            !(mode is Intersect && !(old(self).mode is Intersect)) ==> final(self).waiting_for_pick == old(self).waiting_for_pick
                && final(self).confirming_end == old(self).confirming_end,
            *final(self) == (RelimitState {
                mode: final(self).mode,
                waiting_for_pick: final(self).waiting_for_pick,
                confirming_end: final(self).confirming_end,
                ..*old(self)
            }),
    {
        let previous = self.mode;
        self.mode = mode;
        if mode == RelimitMode::Intersect && previous != RelimitMode::Intersect {
            self.waiting_for_pick = true;
            self.confirming_end = false;
        }
    }

    pub open spec fn spec_status(self) -> RelimitStatus {
        match self.mode {
            RelimitMode::Intersect => if self.waiting_for_pick {
                RelimitStatus::Waiting { prompt: literal("Click the line to intersect with…"), end: None }
            } else if self.confirming_end {
                RelimitStatus::Waiting {
                    prompt: literal("Hover to choose which end to move, then click to confirm."),
                    end: Some(
                        match self.hover_end {
                            TrimEnd::Start => literal("Moving: Start endpoint"),
                            TrimEnd::End => literal("Moving: End endpoint"),
                        },
                    ),
                }
            } else {
                RelimitStatus::Nothing
            },
            RelimitMode::AbsoluteLength => RelimitStatus::Length(literal("New length (m)")),
            RelimitMode::RelativeLength => RelimitStatus::Length(literal("Delta length (m, use + or -)")),
        }
    }

    /// What the dialog says in its mode.
    pub fn status(&self) -> (r: RelimitStatus)
        ensures
            r == self.spec_status(),
    {
        match self.mode {
            RelimitMode::Intersect => if self.waiting_for_pick {
                RelimitStatus::Waiting { prompt: literal("Click the line to intersect with…"), end: None }
            } else if self.confirming_end {
                RelimitStatus::Waiting {
                    prompt: literal("Hover to choose which end to move, then click to confirm."),
                    end: Some(
                        match self.hover_end {
                            TrimEnd::Start => literal("Moving: Start endpoint"),
                            TrimEnd::End => literal("Moving: End endpoint"),
                        },
                    ),
                }
            } else {
                RelimitStatus::Nothing
            },
            RelimitMode::AbsoluteLength => RelimitStatus::Length(literal("New length (m)")),
            RelimitMode::RelativeLength => RelimitStatus::Length(literal("Delta length (m, use + or -)")),
        }
    }

    /// A length can be applied: there is a line, and the length is a number.
    pub open spec fn can_resize(self) -> bool {
        &&& !(self.mode is Intersect)
        &&& self.value_input.finite()
        &&& self.source_id is Some
    }

    /// The Apply button says what it does.
    pub fn apply_label(&self) -> (r: Text)
        ensures
            r == (if self.mode is Intersect {
                literal("Apply and Pick Target")
            } else {
                literal("Apply")
            }),
    {
        match self.mode {
            RelimitMode::Intersect => literal("Apply and Pick Target"),
            _ => literal("Apply"),
        }
    }

    /// Take the buttons of the dialog. Applying an intersection waits for its
    /// target; applying a length resizes the line, where it can.
    pub fn finish(&mut self, apply: bool, cancel: bool, commands: &mut Vec<UiCommand>)
        ensures
            *final(self) == (RelimitState {
                dialog_open: old(self).dialog_open && !(apply && (old(self).mode is Intersect || old(self).can_resize())),
                waiting_for_pick: old(self).waiting_for_pick || (apply && old(self).mode is Intersect),
                ..*old(self)
            }),
            final(commands)@ == old(commands)@ + only_if(
                apply && old(self).can_resize(),
                UiCommand::RelimitLineResize {
                    source_id: old(self).source_id->0,
                    mode: old(self).mode,
                    value: old(self).value_input,
                },
            ) + only_if(cancel, UiCommand::CancelRelimit),
    {
        let ghost resize = UiCommand::RelimitLineResize {
            source_id: self.source_id->0,
            mode: self.mode,
            value: self.value_input,
        };
        let mut resized = false;
        if apply {
            match self.mode {
                RelimitMode::Intersect => {
                    self.dialog_open = false;
                    self.waiting_for_pick = true;
                },
                RelimitMode::AbsoluteLength | RelimitMode::RelativeLength => {
                    if self.value_input.is_finite() {
                        if let Some(source_id) = self.source_id {
                            commands.push(UiCommand::RelimitLineResize { source_id, mode: self.mode, value: self.value_input });
                            self.dialog_open = false;
                            resized = true;
                        }
                    }
                },
            }
        }
        assert(resized == (apply && old(self).can_resize()));
        assert(commands@ =~= old(commands)@ + only_if(resized, resize));
        push_if(commands, cancel, UiCommand::CancelRelimit);
    }
}

impl EditorState {
    /// Only the tool in hand may differ.
    pub open spec fn same_but_tool(self, before: EditorState) -> bool {
        self == (EditorState {
            drawing: DrawingState {
                tools: ToolState { active_tool: self.drawing.tools.active_tool, ..before.drawing.tools },
                ..before.drawing
            },
            ..before
        })
    }

    /// The title of the panel, which serves both tools that translate.
    pub fn move_panel_title(&self) -> (r: Text)
        ensures
            r == (if self.drawing.tools.active_tool is MoveCollar {
                literal("Move Collar")
            } else {
                literal("Move Design")
            }),
    {
        if self.drawing.tools.active_tool == ActiveTool::MoveCollar {
            literal("Move Collar")
        } else {
            literal("Move Design")
        }
    }

    /// Take a frame of the move panel: an edited delta is previewed; Apply and
    /// Cancel put the tool away.
    pub fn finish_move(&mut self, changed: bool, apply: bool, cancel: bool, commands: &mut Vec<UiCommand>)
        ensures
            final(commands)@ == old(commands)@ + only_if(changed, UiCommand::PreviewMoveDelta(old(self).geometry.translate.panel_delta))
                + only_if(apply, UiCommand::ApplyMoveDelta(old(self).geometry.translate.panel_delta)) + only_if(
                cancel,
                UiCommand::CancelMoveDelta,
            ),
            final(self).drawing.tools.active_tool == (if apply || cancel {
                ActiveTool::NoTool
            } else {
                old(self).drawing.tools.active_tool
            }),
            final(self).same_but_tool(*old(self)),
    {
        let delta = self.geometry.translate.panel_delta;
        push_if(commands, changed, UiCommand::PreviewMoveDelta(delta));
        push_if(commands, apply, UiCommand::ApplyMoveDelta(delta));
        push_if(commands, cancel, UiCommand::CancelMoveDelta);
        if apply || cancel {
            self.drawing.tools.active_tool = ActiveTool::NoTool;
        }
    }

    /// The angles that the rotate panel points every selected hole at.
    pub open spec fn panel_rotation(self) -> CollarRotation {
        CollarRotation::Absolute { azimuth: self.geometry.rotate.panel_azimuth, dip: self.geometry.rotate.panel_dip }
    }

    /// Take a frame of the rotate panel. The values are absolute, not a delta: an
    /// edit previews them, Apply and Cancel put the tool away.
    pub fn finish_rotation(&mut self, changed: bool, apply: bool, cancel: bool, commands: &mut Vec<UiCommand>)
        ensures
            final(commands)@ == old(commands)@ + only_if(changed, UiCommand::PreviewCollarRotation(old(self).panel_rotation()))
                + only_if(apply, UiCommand::ApplyCollarRotation) + only_if(cancel, UiCommand::CancelCollarRotation),
            final(self).drawing.tools.active_tool == (if apply || cancel {
                ActiveTool::NoTool
            } else {
                old(self).drawing.tools.active_tool
            }),
            final(self).same_but_tool(*old(self)),
    {
        let rotation = CollarRotation::Absolute {
            azimuth: self.geometry.rotate.panel_azimuth,
            dip: self.geometry.rotate.panel_dip,
        };
        push_if(commands, changed, UiCommand::PreviewCollarRotation(rotation));
        push_if(commands, apply, UiCommand::ApplyCollarRotation);
        push_if(commands, cancel, UiCommand::CancelCollarRotation);
        if apply || cancel {
            self.drawing.tools.active_tool = ActiveTool::NoTool;
        }
    }
}

impl RotateState {
    /// What the panel says of holes that do not point one way.
    pub fn mixed_note(&self) -> (r: Option<Text>)
        ensures
            r == (if self.panel_mixed {
                Some(literal("Selected holes point different ways. Apply sets them all to these angles."))
            } else {
                None
            }),
    {
        if self.panel_mixed {
            Some(literal("Selected holes point different ways. Apply sets them all to these angles."))
        } else {
            None
        }
    }
}

impl ChamferState {
    pub open spec fn spec_corner_picked(self) -> bool {
        self.poly_id is Some && self.corner_index is Some
    }

    pub fn corner_picked(&self) -> (r: bool)
        ensures
            r == self.spec_corner_picked(),
    {
        self.poly_id.is_some() && self.corner_index.is_some()
    }

    /// What the panel asks for before a corner is picked.
    pub fn corner_prompt(&self) -> (r: Option<Text>)
        ensures
            r == (if self.spec_corner_picked() {
                None
            } else {
                Some(literal("Click a corner on a closed polyline."))
            }),
    {
        if self.corner_picked() {
            None
        } else {
            Some(literal("Click a corner on a closed polyline."))
        }
    }

    /// The largest radius that the corner takes.
    pub open spec fn spec_radius_limit(self) -> Real64 {
        if self.max_radius.finite() {
            self.max_radius
        } else {
            Real64 { bits: LARGEST }
        }
    }

    pub fn radius_limit(&self) -> (r: Real64)
        ensures
            r == self.spec_radius_limit(),
    {
        if self.max_radius.is_finite() {
            self.max_radius
        } else {
            Real64 { bits: LARGEST }
        }
    }

    /// Take an edited radius, kept between nothing and what the corner takes.
    pub fn set_radius(&mut self, radius: Real64)
        requires
            (Real64 { bits: ZERO }).le_number(old(self).spec_radius_limit()),
        ensures
            *final(self) == (ChamferState {
                radius: radius.held_between(Real64 { bits: ZERO }, old(self).spec_radius_limit()),
                ..*old(self)
            }),
    {
        let limit = self.radius_limit();
        self.radius = radius.clamp_to(Real64 { bits: ZERO }, limit);
    }

    /// Whether the chamfer can be applied, given the radius in whole hundredths: a
    /// radius that reads as zero cannot.
    pub fn can_apply(&self, hundredths: Real64) -> (r: bool)
        ensures
            r == (self.spec_corner_picked() && (Real64 { bits: ZERO }).lt_number(hundredths)),
    {
        self.corner_picked() && (Real64 { bits: ZERO }).less(hundredths)
    }

    /// Take the buttons of the panel.
    pub fn finish(&self, hundredths: Real64, apply: bool, cancel: bool, commands: &mut Vec<UiCommand>)
        ensures
            final(commands)@ == old(commands)@ + only_if(
                apply && self.spec_corner_picked() && (Real64 { bits: ZERO }).lt_number(hundredths),
                UiCommand::ApplyChamfer,
            ) + only_if(cancel, UiCommand::CancelChamfer),
    {
        let can_apply = self.can_apply(hundredths);
        push_if(commands, apply && can_apply, UiCommand::ApplyChamfer);
        push_if(commands, cancel, UiCommand::CancelChamfer);
    }
}

impl BezierState {
    pub open spec fn both_picked(self) -> bool {
        self.selected_verts.first is Some && self.selected_verts.second is Some
    }

    pub fn both_selected(&self) -> (r: bool)
        ensures
            r == self.both_picked(),
    {
        self.selected_verts.first.is_some() && self.selected_verts.second.is_some()
    }

    /// What the panel asks for before both ends of the span are picked.
    pub fn span_prompt(&self) -> (r: Option<Text>)
        ensures
            r == (if self.poly_id is None {
                Some(literal("Click an open or closed polyline to begin."))
            } else if self.both_picked() {
                None
            } else if self.selected_verts.first is None {
                Some(literal("Click a vertex to start the replacement span."))
            } else {
                Some(literal("Click the second vertex of the replacement span."))
            }),
    {
        if self.poly_id.is_none() {
            Some(literal("Click an open or closed polyline to begin."))
        } else if self.both_selected() {
            None
        } else if self.selected_verts.first.is_none() {
            Some(literal("Click a vertex to start the replacement span."))
        } else {
            Some(literal("Click the second vertex of the replacement span."))
        }
    }

    /// The span with its ends exchanged, which is the other path round a closed
    /// polyline.
    pub open spec fn turned(self, longer: bool) -> BezierState {
        if longer == self.replace_longer {
            self
        } else {
            BezierState {
                replace_longer: longer,
                selected_verts: crate::state::geometry::PickedPair {
                    first: self.selected_verts.second,
                    second: self.selected_verts.first,
                },
                cp1: self.cp2,
                cp2: self.cp1,
                ..self
            }
        }
    }

    /// Choose which of the two paths between the ends is replaced. An open polyline
    /// has one path only.
    pub fn choose_path(&mut self, longer: bool)
        ensures
            *final(self) == (if old(self).poly_closed {
                old(self).turned(longer)
            } else {
                *old(self)
            }),
    {
        if self.poly_closed && longer != self.replace_longer {
            self.replace_longer = longer;
            let first = self.selected_verts.first;
            self.selected_verts.first = self.selected_verts.second;
            self.selected_verts.second = first;
            let cp1 = self.cp1;
            self.cp1 = self.cp2;
            self.cp2 = cp1;
        }
    }

    /// Take the buttons of the panel. Enter applies as well.
    pub fn finish(&self, apply: bool, enter: bool, cancel: bool, commands: &mut Vec<UiCommand>)
        ensures
            final(commands)@ == old(commands)@ + only_if(self.both_picked() && (apply || enter), UiCommand::ApplyBezier) + only_if(
                cancel,
                UiCommand::CancelBezier,
            ),
    {
        let can_apply = self.both_selected();
        push_if(commands, can_apply && (apply || enter), UiCommand::ApplyBezier);
        push_if(commands, cancel, UiCommand::CancelBezier);
    }
}

/// Choosing the other path and then the first one again restores the span and its
/// control points.
pub proof fn choosing_the_path_back_restores_it(state: BezierState)
    ensures
        state.turned(!state.replace_longer).turned(state.replace_longer) == state,
{
}

impl TextState {
    /// What leaving without applying is called: a text that was just placed is
    /// discarded.
    pub fn cancel_label(&self) -> (r: Text)
        ensures
            r == (if self.created {
                literal("Discard")
            } else {
                literal("Cancel")
            }),
    {
        if self.created {
            literal("Discard")
        } else {
            literal("Cancel")
        }
    }

    /// Whether the text field asks for the keyboard in this frame, which it does
    /// once.
    pub fn take_focus(&mut self) -> (r: bool)
        ensures
            r == old(self).focus_requested,
            *final(self) == (TextState { focus_requested: false, ..*old(self) }),
    {
        let requested = self.focus_requested;
        self.focus_requested = false;
        requested
    }

    /// The edit as it stands.
    pub open spec fn commit(self) -> UiCommand {
        UiCommand::CommitTextEdit {
            id: self.editing_id->0,
            content: self.pending,
            height: self.height,
            rotation_degrees: self.rotation_degrees,
            color: self.color,
        }
    }

    /// Take the buttons of the text dialog; applying comes before cancelling.
    /// Nothing happens without a text in hand.
    pub fn finish(&mut self, apply: bool, cancel: bool, commands: &mut Vec<UiCommand>)
        ensures
            old(self).editing_id is None ==> *final(self) == *old(self) && final(commands)@ == old(commands)@,
            old(self).editing_id is Some ==> {
                &&& final(commands)@ == old(commands)@ + only_if(apply, old(self).commit()) + only_if(
                    !apply && cancel,
                    UiCommand::CancelTextEdit,
                )
                &&& *final(self) == (TextState {
                    editing_enabled: old(self).editing_enabled && !apply && !cancel,
                    position_frames: if old(self).position_frames == 0 {
                        0
                    } else {
                        (old(self).position_frames - 1) as u8
                    },
                    ..*old(self)
                })
            },
    {
        let id = match self.editing_id {
            Some(id) => id,
            None => {
                return;
            },
        };
        if apply {
            commands.push(
                UiCommand::CommitTextEdit {
                    id,
                    content: self.pending.clone(),
                    height: self.height,
                    rotation_degrees: self.rotation_degrees,
                    color: self.color,
                },
            );
            self.editing_enabled = false;
        } else if cancel {
            commands.push(UiCommand::CancelTextEdit);
            self.editing_enabled = false;
        }
        assert(commands@ =~= old(commands)@ + only_if(apply, old(self).commit()) + only_if(!apply && cancel, UiCommand::CancelTextEdit));
        if self.position_frames > 0 {
            self.position_frames = self.position_frames - 1;
        }
    }
}

impl StrokeState {
    /// Take a frame of the dialog that finishes a polyline. The Enter key counts
    /// only once the Enter that opened the dialog has been released.
    pub fn finish(&mut self, open: bool, closed: bool, confirm_key: bool, commands: &mut Vec<UiCommand>)
        ensures
            ({
                let leave_open = open || (confirm_key && old(self).poly_finish_confirm_armed);
                &&& final(commands)@ == old(commands)@ + only_if(leave_open, UiCommand::CommitStrokeOpen) + only_if(
                    closed,
                    UiCommand::FinishPolyClose,
                )
                &&& *final(self) == (StrokeState {
                    poly_finish_dialog: old(self).poly_finish_dialog && !leave_open && !closed,
                    ..*old(self)
                })
            }),
    {
        let leave_open = open || (confirm_key && self.poly_finish_confirm_armed);
        push_if(commands, leave_open, UiCommand::CommitStrokeOpen);
        push_if(commands, closed, UiCommand::FinishPolyClose);
        if leave_open || closed {
            self.poly_finish_dialog = false;
        }
    }
}

/// Take the button of the slice panel.
pub fn finish_slice(exit: bool, commands: &mut Vec<UiCommand>)
    ensures
        final(commands)@ == old(commands)@ + only_if(exit, UiCommand::SetSliceModeEnabled(false)),
{
    push_if(commands, exit, UiCommand::SetSliceModeEnabled(false));
}

/// An offset by relative height changes height by exactly the value and runs as far as the
/// slope takes to get there, on every slope but one that is flatter than a billionth. Such a
/// slope never gets there: the value is taken sideways and the height stays.
pub proof fn height_offsets_reach_their_height(state: OffsetState, slope: OffsetSlope)
    requires
        state.measure == OffsetMeasure::Height(HeightMode::Relative),
    ensures
        !slope.tangent.nan() && slope.tangent.magnitude() >= (Real64 { bits: BILLIONTH }).magnitude() ==> {
            &&& state.reach(slope).z_delta == state.value_input
            &&& state.reach(slope).horiz_dist == slope.height_run
        },
        slope.tangent.magnitude() < (Real64 { bits: BILLIONTH }).magnitude() ==> {
            &&& state.reach(slope).z_delta.rank() == 0
            &&& state.reach(slope).horiz_dist == state.value_input
        },
        state.reach(slope).project_to_rl is None,
        (Real64 { bits: BILLIONTH }).is_nearest(1, 1_000_000_000),
{
    lemma_billionth();
}

proof fn lemma_billionth()
    ensures
        (Real64 { bits: BILLIONTH }).is_nearest(1, 1_000_000_000),
{
    crate::number::lemma_powers();
    crate::number::lemma_nearest(Real64 { bits: BILLIONTH }, 1, 1_000_000_000, 993, 82);
}

/// How far each way of measuring reaches. A horizontal measure goes sideways by the value,
/// up or down with the slope. A target elevation goes nowhere by itself: every vertex is
/// taken along the slope to that elevation, and no other measure does that.
pub proof fn measures_reach_as_they_say(state: OffsetState, slope: OffsetSlope)
    ensures
        !(state.measure is Height) ==> {
            &&& state.reach(slope).horiz_dist == state.value_input
            &&& state.reach(slope).z_delta == slope.width_rise
        },
        state.to_elevation() ==> {
            &&& state.reach(slope).horiz_dist.rank() == 0
            &&& state.reach(slope).z_delta.rank() == 0
            &&& state.reach(slope).project_to_rl == Some((slope.tangent, state.value_input))
        },
        state.reach(slope).project_to_rl is Some <==> state.measure == OffsetMeasure::Height(HeightMode::AbsoluteRL),
        state.to_elevation() <==> state.measure == OffsetMeasure::Height(HeightMode::AbsoluteRL),
{
}

/// An offset of a cut keeps its elevation whatever the slope, and goes sideways by its
/// spacing.
pub proof fn cut_offsets_stay_level(state: OffsetState)
    ensures
        state.cut_reach().horiz_dist == state.value_input,
        state.cut_reach().z_delta.rank() == 0,
        state.cut_reach().project_to_rl is None,
{
}

/// A side can be picked for every value but one that is nothing: a value of at least one, in
/// either direction, can always be picked, a zero or something that is no number never, and
/// the sign does not matter. A target elevation can be any, as a cut can not.
pub proof fn sides_are_picked_for_real_values(state: OffsetState, mirrored: OffsetState, dialog: OffsetDialog, clicked: bool, enter: bool)
    requires
        mirrored.measure == state.measure,
        mirrored.value_input.magnitude() == state.value_input.magnitude(),
    ensures
        state.value_input.rank() == 0 && !state.to_elevation() ==> !state.allows_pick(dialog),
        state.value_input.nan() && !state.to_elevation() ==> !state.allows_pick(dialog),
        !state.value_input.nan() && state.value_input.magnitude() > (Real64 { bits: BILLIONTH }).magnitude() ==> state.allows_pick(dialog),
        state.value_input.magnitude() <= (Real64 { bits: BILLIONTH }).magnitude() && !state.to_elevation() ==> !state.allows_pick(dialog),
        (Real64 { bits: BILLIONTH }).is_nearest(1, 1_000_000_000),
        state.to_elevation() ==> state.allows_pick(OffsetDialog::Design),
        state.allows_pick(OffsetDialog::PlanningCut) ==> state.allows_pick(OffsetDialog::Design),
        state.value_input.rank() == 0 ==> !state.allows_pick(OffsetDialog::PlanningCut),
        mirrored.allows_pick(dialog) == state.allows_pick(dialog),
        state.picks_side(dialog, false, false) == false,
        state.allows_pick(dialog) && (clicked || enter) ==> state.picks_side(dialog, clicked, enter),
        state.picks_side(dialog, clicked, enter) ==> state.allows_pick(dialog),
        state.picks_side(dialog, true, false) == state.picks_side(dialog, false, true),
{
    lemma_billionth();
}

/// A count of benches that the geometry allows is kept, one beyond it goes to the nearest
/// one that it allows, and no count is nearer.
pub proof fn allowed_bench_counts_are_kept(benches: u32, max_benches: u32, other: u32)
    ensures
        1 <= benches <= max_benches ==> fitted_benches(benches, max_benches) == benches,
        benches > max_benches ==> fitted_benches(benches, max_benches) == max_benches,
        benches == 0 && max_benches > 0 ==> fitted_benches(benches, max_benches) == 1,
        max_benches == 0 ==> fitted_benches(benches, max_benches) == 0,
        benches <= other ==> fitted_benches(benches, max_benches) <= fitted_benches(other, max_benches),
        1 <= other <= max_benches ==> {
            let fitted = fitted_benches(benches, max_benches);
            let off = if fitted <= benches { benches - fitted } else { fitted - benches };
            let other_off = if other <= benches { benches - other } else { other - benches };
            off <= other_off
        },
{
}

/// The relimit dialog prompts exactly while it waits for a pick or a choice of end, asks for
/// a length exactly in the two length modes, and names the end that the pointer is over.
pub proof fn relimit_says_what_it_waits_for(state: RelimitState, other: RelimitState)
    ensures
        state.spec_status() is Length <==> !(state.mode is Intersect),
        state.spec_status() is Waiting <==> state.mode is Intersect && (state.waiting_for_pick || state.confirming_end),
        state.spec_status() matches RelimitStatus::Waiting { end, .. } ==> (end is Some <==> !state.waiting_for_pick),
        state.mode is AbsoluteLength && other.mode is RelativeLength ==> state.spec_status() == RelimitStatus::Length(
            literal("New length (m)"),
        ) && other.spec_status() == RelimitStatus::Length(literal("Delta length (m, use + or -)")),
        state.spec_status() matches RelimitStatus::Waiting { end: Some(end), .. } ==> end == (if state.hover_end is Start {
            literal("Moving: Start endpoint")
        } else {
            literal("Moving: End endpoint")
        }),
        state.mode is Intersect && !state.waiting_for_pick && !state.confirming_end ==> state.spec_status() is Nothing,
{
}

/// A line is resized by any number, positive or negative, but only where there is a line and
/// a length is set.
pub proof fn lines_are_resized_by_numbers(state: RelimitState)
    ensures
        state.mode is Intersect || state.source_id is None || state.value_input.nan() ==> !state.can_resize(),
        state.value_input.magnitude() == crate::number::INFINITY64 ==> !state.can_resize(),
        !(state.mode is Intersect) && state.source_id is Some && state.value_input.finite() ==> state.can_resize(),
{
}

/// The rotate panel points holes at its own angles, bearing and dip each in their place.
pub proof fn panel_rotation_is_absolute(editor: EditorState)
    ensures
        editor.panel_rotation() matches CollarRotation::Absolute { azimuth, dip } && azimuth == editor.geometry.rotate.panel_azimuth
            && dip == editor.geometry.rotate.panel_dip,
{
}

/// A chamfer is limited by its corner, or by nothing where the corner sets no limit; the
/// limit is a number in any case. A corner is picked once both the polyline and the corner
/// of it are.
pub proof fn chamfers_are_limited_by_their_corner(state: ChamferState)
    ensures
        state.max_radius.finite() ==> state.spec_radius_limit() == state.max_radius,
        state.spec_radius_limit().finite(),
        !state.max_radius.finite() ==> forall|radius: Real64| #[trigger] radius.finite() ==> radius.le_number(state.spec_radius_limit()),
        state.spec_corner_picked() <==> state.poly_id is Some && state.corner_index is Some,
{
    assert forall|radius: Real64| #[trigger] radius.finite() && !state.max_radius.finite() implies radius.le_number(
        state.spec_radius_limit(),
    ) by {}
}

/// Turning to the other path exchanges the ends of the span and their control points, and
/// nothing else; choosing the path that is in force changes nothing.
pub proof fn turning_exchanges_the_ends(state: BezierState, longer: bool)
    ensures
        state.turned(longer).replace_longer == longer,
        longer == state.replace_longer ==> state.turned(longer) == state,
        longer != state.replace_longer ==> {
            &&& state.turned(longer).selected_verts.first == state.selected_verts.second
            &&& state.turned(longer).selected_verts.second == state.selected_verts.first
            &&& state.turned(longer).cp1 == state.cp2
            &&& state.turned(longer).cp2 == state.cp1
        },
        state.turned(longer).poly_id == state.poly_id,
        state.turned(longer).poly_closed == state.poly_closed,
        state.turned(longer).both_picked() == state.both_picked(),
        state.both_picked() <==> state.selected_verts.first is Some && state.selected_verts.second is Some,
{
}

/// What is committed of a text is the text as it was edited.
pub proof fn committed_text_is_the_one_edited(state: TextState)
    requires
        state.editing_id is Some,
    ensures
        state.commit() matches UiCommand::CommitTextEdit { id, content, height, rotation_degrees, color } && Some(id)
            == state.editing_id && content@ == state.pending@ && height == state.height && rotation_degrees == state.rotation_degrees
            && color == state.color,
{
}

/// A side pick is begun for the objects in hand and for the reach that was worked out, and
/// says where it stops as the dialog does.
pub proof fn side_picks_are_for_the_targets(state: OffsetState, command: UiCommand, reach: OffsetReach)
    requires
        state.begins_pick(command, reach),
    ensures
        command matches UiCommand::BeginOffsetPick { object_ids, horiz_dist, z_delta, project_to_rl, collide_with_triangulation } && object_ids@
            == state.target_ids@ && horiz_dist == reach.horiz_dist && z_delta == reach.z_delta && project_to_rl == reach.project_to_rl
            && collide_with_triangulation == state.collide_with_triangulation,
{
}

/// Changing the tool changes nothing else.
pub proof fn tools_change_alone(before: EditorState, after: EditorState)
    requires
        after.same_but_tool(before),
    ensures
        after.drawing.tools.active_tool == before.drawing.tools.active_tool ==> after == before,
        after.drawing.stroke == before.drawing.stroke && after.drawing.cursor == before.drawing.cursor && after.drawing.canvas
            == before.drawing.canvas && after.drawing.text == before.drawing.text,
        after.drawing.tools.active_layer == before.drawing.tools.active_layer && after.drawing.tools.cursor_mode
            == before.drawing.tools.cursor_mode && after.drawing.tools.highlight_id == before.drawing.tools.highlight_id,
        after.selection == before.selection && after.geometry == before.geometry && after.blasting == before.blasting && after.planning
            == before.planning && after.project == before.project && after.workspace == before.workspace && after.view == before.view,
{
}

} // verus!
