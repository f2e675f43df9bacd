//! The settings of a move, and what executing it gives.
use vstd::prelude::*;
use crate::fixed::{Fixed, SCALE};
use crate::light::{all_in_reach, lights_in_reach};
use crate::move_calculator::{calculate_move, frames_to_commands, is_move, move_commands, texts, Frame};
use crate::only_one_toggleable_item::{is_first_selected, lemma_first_selected_unique, none_selected};
use crate::path::PathEnum;
use crate::select_lights_modal::{selected_items, SelectLightsModal};
use crate::select_path_modal::SelectPathModal;

verus! {

/// Most frames that a move can have: the cue labels leave two digits for the frame.
pub const MAX_FRAMES: u16 = 99;

/// How the commands of a move leave the program.
#[derive(Clone, Copy, Debug, PartialEq, Eq, Structural)]
pub enum OutputType {
    Osc,
    Instructions,
}

/// What the user has set for the next move.
pub struct OutputSection {
    pub select_lights_modal: SelectLightsModal,
    pub select_path_modal: SelectPathModal,
    pub selected_output_type: OutputType,
    pub move_time: Fixed,
    pub frames: u16,
    pub cue_number: u32,
}

/// What executing a move gave.
pub enum MoveOutcome {
    /// No path is selected, so there is nothing to follow.
    NoPath,
    /// A path is selected, but no light.
    NoLights,
    /// The selected path or one of the selected lights lies beyond reach.
    OutOfReach,
    /// The commands of the move, in the order in which the console has to get them.
    Commands(Vec<String>),
}

impl MoveOutcome {
    /// What to tell the user where the move could not be executed.
    pub fn warning(&self) -> (message: Option<&'static str>)
        ensures
            match *self {
                MoveOutcome::NoPath => message == Some("No path is selected - try selecting a path"),
                MoveOutcome::NoLights => message == Some(
                    "No lights are selected - try selecting some lights",
                ),
                MoveOutcome::OutOfReach => message == Some(
                    "The selected path or lights are too far away to aim",
                ),
                MoveOutcome::Commands(_) => message.is_none(),
            },
    {
        match self {
            MoveOutcome::NoPath => Some("No path is selected - try selecting a path"),
            MoveOutcome::NoLights => Some("No lights are selected - try selecting some lights"),
            MoveOutcome::OutOfReach => Some("The selected path or lights are too far away to aim"),
            MoveOutcome::Commands(_) => None,
        }
    }
}

impl OutputSection {
    /// The settings before the user has changed any: a move of one second in ten frames,
    /// recorded from cue 1 on, with nothing selected.
    pub fn new() -> (section: OutputSection)
        ensures
            !section.select_lights_modal.shown,
            section.select_lights_modal.toggleable_lights@.len() == 0,
            section.select_lights_modal.title@ == "Select lights for move"@,
            !section.select_path_modal.shown,
            section.select_path_modal.toggleable_paths@.len() == 0,
            section.selected_output_type == OutputType::Instructions,
            section.move_time.value() == SCALE,
            section.frames == 10,
            section.cue_number == 1,
    {
        OutputSection {
            select_lights_modal: SelectLightsModal::new("Select lights for move"),
            select_path_modal: SelectPathModal::new(),
            selected_output_type: OutputType::Instructions,
            move_time: Fixed::from_int(1),
            frames: 10,
            cue_number: 1,
        }
    }

    /// Brings the numbers that the user has entered into the ranges that a move allows: no
    /// time below zero, between 1 and 99 frames, and no cue 0.
    pub fn clamp(&mut self)
        ensures
            final(self).move_time.value() == if old(self).move_time.value() < 0 {
                0
            } else {
                old(self).move_time.value()
            },
            final(self).frames == if old(self).frames < 1 {
                1
            } else if old(self).frames > MAX_FRAMES {
                MAX_FRAMES
            } else {
                old(self).frames
            },
            final(self).cue_number == if old(self).cue_number == 0 {
                1
            } else {
                old(self).cue_number
            },
            final(self).select_lights_modal == old(self).select_lights_modal,
            final(self).select_path_modal == old(self).select_path_modal,
            final(self).selected_output_type == old(self).selected_output_type,
    {
        if self.move_time.raw < 0 {
            self.move_time = Fixed::from_raw(0);
        }
        if self.frames < 1 {
            self.frames = 1;
        } else if self.frames > MAX_FRAMES {
            self.frames = MAX_FRAMES;
        }
        if self.cue_number == 0 {
            self.cue_number = 1;
        }
    }

    /// The path that a move would follow: the first selected one.
    pub open spec fn selected_path(&self) -> Option<PathEnum> {
        if none_selected(self.select_path_modal.toggleable_paths@) {
            None
        } else {
            Some(
                self.select_path_modal.toggleable_paths@[choose|p: int|
                    is_first_selected(self.select_path_modal.toggleable_paths@, p)].item,
            )
        }
    }

    /// Plans the move that the settings describe and encodes it as commands.
    ///
    /// Without a selected path, or without a selected light, there is no move: the result
    /// says which of the two is missing, the path first. Nor is there one where the path or
    /// a selected light lies beyond reach. Otherwise the selected lights follow the selected
    /// path in `frames` frames, and the result holds the commands. The angles are taken with
    /// `atan2_degrees`, the function that gives, in degrees, the angle whose tangent is the
    /// ratio of its first argument to its second.
    pub fn execute_move<S: Fn(Fixed, Fixed) -> Fixed>(&self, atan2_degrees: S) -> (outcome:
        MoveOutcome)
        requires
            forall|rise: Fixed, run: Fixed| call_requires(atan2_degrees, (rise, run)),
        ensures
            self.selected_path().is_none() <==> outcome is NoPath,
            outcome is NoLights <==> self.selected_path().is_some() && selected_items(
                self.select_lights_modal.toggleable_lights@,
            ).len() == 0,
            outcome is OutOfReach <==> self.selected_path().is_some() && selected_items(
                self.select_lights_modal.toggleable_lights@,
            ).len() > 0 && !(self.selected_path().unwrap().in_reach() && lights_in_reach(
                selected_items(self.select_lights_modal.toggleable_lights@),
            )),
            outcome matches MoveOutcome::Commands(commands) ==> exists|frames: Seq<Frame>| #[trigger]
                is_move(
                    frames,
                    self.selected_path().unwrap(),
                    selected_items(self.select_lights_modal.toggleable_lights@),
                    self.frames,
                    self.move_time,
                    atan2_degrees,
                ) && texts(commands@) == move_commands(frames, self.cue_number),
    {
        let some_paths = self.select_path_modal.get_selected_path();
        let lights = self.select_lights_modal.get_selected_lights();
        let path = match some_paths {
            Some(path) => path,
            None => {
                return MoveOutcome::NoPath;
            },
        };
        proof {
            let p = choose|p: int|
                is_first_selected(self.select_path_modal.toggleable_paths@, p) && path
                    == self.select_path_modal.toggleable_paths@[p].item;
            let q = choose|p: int| is_first_selected(self.select_path_modal.toggleable_paths@, p);
            lemma_first_selected_unique(self.select_path_modal.toggleable_paths@, p, q);
        }
        if lights.len() == 0 {
            return MoveOutcome::NoLights;
        }
        if !path.is_in_reach() || !all_in_reach(&lights) {
            return MoveOutcome::OutOfReach;
        }
        let frames = calculate_move(path, lights, self.frames, self.move_time, atan2_degrees);
        let commands = frames_to_commands(frames, self.cue_number);
        MoveOutcome::Commands(commands)
    }
}

} // verus!
