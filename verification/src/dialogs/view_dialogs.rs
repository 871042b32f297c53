//! Dialogs over the view.
use crate::constants::ONE;
use crate::fields::{RealField, RealRange};
use crate::number::Real64;
use crate::state::view::{DisplayState, GridState, ViewState};
use crate::text::{literal, Text};
use crate::views::GridOptionsDialog;
use vstd::prelude::*;

verus! {

impl DisplayState {
    /// Take the buttons of the vertical exaggeration dialog, in their order: Apply,
    /// Reset, Cancel. Stored coordinates are not touched.
    pub fn finish_exaggeration(&mut self, apply: bool, reset: bool, cancel: bool)
        ensures
            *final(self) == (DisplayState {
                vertical_exaggeration: if reset {
                    Real64 { bits: ONE }
                } else if apply {
                    old(self).vertical_exaggeration_input
                } else {
                    old(self).vertical_exaggeration
                },
                vertical_exaggeration_input: if reset {
                    Real64 { bits: ONE }
                } else {
                    old(self).vertical_exaggeration_input
                },
                vertical_exaggeration_dialog_open: old(self).vertical_exaggeration_dialog_open && !apply && !reset && !cancel,
                ..*old(self)
            }),
    {
        if apply {
            self.vertical_exaggeration = self.vertical_exaggeration_input;
            self.vertical_exaggeration_dialog_open = false;
        }
        if reset {
            self.vertical_exaggeration = Real64 { bits: ONE };
            self.vertical_exaggeration_input = Real64 { bits: ONE };
            self.vertical_exaggeration_dialog_open = false;
        }
        if cancel {
            self.vertical_exaggeration_dialog_open = false;
        }
    }
}

impl GridOptionsDialog {
    pub fn title(&self) -> (r: Text)
        ensures
            r == (if self.plan {
                literal("XY Grid Options")
            } else {
                literal("RL Grid Options")
            }),
    {
        if self.plan {
            literal("XY Grid Options")
        } else {
            literal("RL Grid Options")
        }
    }

    /// The line widths that the grid takes.
    pub fn thickness_range(&self) -> (r: RealRange)
        ensures
            r == (if self.plan {
                RealField::PlanGridThickness.spec_range()
            } else {
                RealField::SectionGridThickness.spec_range()
            }),
    {
        if self.plan {
            RealField::PlanGridThickness.range()
        } else {
            RealField::SectionGridThickness.range()
        }
    }

    /// Whether the colour, the choice of a spacing and the spacing itself are asked
    /// for.
    pub fn fields_shown(&self) -> (r: (bool, bool, bool))
        ensures
            r == (!self.auto_color, !self.plan, !self.plan && !self.auto_spacing),
    {
        (!self.auto_color, !self.plan, !self.plan && !self.auto_spacing)
    }
}

impl ViewState {
    /// Close the grid dialog where the view has changed grids under it: it belongs to
    /// the other one. Whether it is open.
    pub fn settle_grid_dialog(&mut self) -> (r: bool)
        ensures
            final(self).grid.dialog == (match old(self).grid.dialog {
                Some(dialog) if dialog.plan != old(self).slice.mode_enabled => Some(dialog),
                _ => None,
            }),
            r == (final(self).grid.dialog is Some),
            *final(self) == (ViewState {
                grid: GridState { dialog: final(self).grid.dialog, ..old(self).grid },
                ..*old(self)
            }),
    {
        let kept = match &self.grid.dialog {
            Some(dialog) => dialog.plan != self.slice.mode_enabled,
            None => false,
        };
        if !kept {
            self.grid.dialog = None;
        }
        kept
    }

    /// Take the buttons of the grid dialog. OK and Apply write the style of the grid
    /// that the dialog belongs to; OK and Cancel close it. Cancel drops the fields; an
    /// earlier Apply stays.
    pub fn finish_grid_dialog(&mut self, confirm: bool, apply: bool, cancel: bool)
        ensures
            old(self).grid.dialog is None ==> *final(self) == *old(self),
            old(self).grid.dialog matches Some(dialog) ==> *final(self) == (ViewState {
                grid: GridState {
                    xy_grid_style: if (confirm || apply) && dialog.plan {
                        dialog.as_plan_style()
                    } else {
                        old(self).grid.xy_grid_style
                    },
                    section_grid_style: if (confirm || apply) && !dialog.plan {
                        dialog.as_section_style()
                    } else {
                        old(self).grid.section_grid_style
                    },
                    dialog: if confirm || cancel {
                        None
                    } else {
                        Some(dialog)
                    },
                    ..old(self).grid
                },
                ..*old(self)
            }),
    {
        if let Some(dialog) = self.grid.dialog {
            if confirm || apply {
                if dialog.plan {
                    self.grid.xy_grid_style = dialog.plan_style();
                } else {
                    self.grid.section_grid_style = dialog.section_style();
                }
            }
            if confirm || cancel {
                self.grid.dialog = None;
            }
        }
    }
}

} // verus!
