//! Pointing the selected lights at one point, to try them out.
use vstd::prelude::*;
use crate::fixed::Fixed;
use crate::light::{aims_at, all_in_reach, lights_in_reach, Light, LightState};
use crate::move_calculator::{state_commands, texts};
use crate::point::Point3;
use crate::select_lights_modal::{selected_items, SelectLightsModal};

verus! {

/// The point to aim at, the lights to aim, and whether the form is on screen.
#[derive(Debug)]
pub struct DebugPointAt {
    pub point: Point3,
    pub shown: bool,
    pub select_lights_modal: SelectLightsModal,
}

/// Whether `states` holds, for each of `lights` in their order, a state in which it points
/// at `target`.
pub open spec fn all_aim_at<S: Fn(Fixed, Fixed) -> Fixed>(
    states: Seq<LightState>,
    lights: Seq<Light>,
    target: Point3,
    atan2_degrees: S,
) -> bool {
    &&& states.len() == lights.len()
    &&& forall|j: int| 0 <= j < lights.len() ==> aims_at(#[trigger] states[j], lights[j], target, atan2_degrees)
}

impl DebugPointAt {
    /// A hidden form that aims at the origin, with no lights to choose from.
    pub fn new() -> (form: DebugPointAt)
        ensures
            form.point == Point3::origin(),
            !form.shown,
            !form.select_lights_modal.shown,
            form.select_lights_modal.toggleable_lights@.len() == 0,
            form.select_lights_modal.title@ == "Select lights for debug point at"@,
    {
        DebugPointAt {
            point: Point3::default(),
            shown: false,
            select_lights_modal: SelectLightsModal::new("Select lights for debug point at"),
        }
    }

    /// The commands that point every selected light at the point of this form: for each
    /// light, in the order of the list, its pan and then its tilt. There are none where the
    /// point or a selected light lies beyond reach. The angles are taken with
    /// `atan2_degrees`, the function that gives, in degrees, the angle whose tangent is the
    /// ratio of its first argument to its second.
    pub fn commands<S: Fn(Fixed, Fixed) -> Fixed>(&self, atan2_degrees: S) -> (commands: Option<
        Vec<String>,
    >)
        requires
            forall|rise: Fixed, run: Fixed| call_requires(atan2_degrees, (rise, run)),
        ensures
            commands.is_some() <==> self.point.in_reach() && lights_in_reach(
                selected_items(self.select_lights_modal.toggleable_lights@),
            ),
            commands matches Some(list) ==> exists|states: Seq<LightState>| #[trigger]
                all_aim_at(
                    states,
                    selected_items(self.select_lights_modal.toggleable_lights@),
                    self.point,
                    atan2_degrees,
                ) && texts(list@) == state_commands(states),
    {
        let lights = self.select_lights_modal.get_selected_lights();
        if !self.point.is_in_reach() || !all_in_reach(&lights) {
            return None;
        }
        let mut commands: Vec<String> = Vec::new();
        let ghost mut states: Seq<LightState> = Seq::empty();
        let mut i: usize = 0;
        while i < lights.len()
            invariant
                i <= lights.len(),
                self.point.in_reach(),
                lights_in_reach(lights@),
                forall|rise: Fixed, run: Fixed| call_requires(atan2_degrees, (rise, run)),
                states.len() == i,
                forall|j: int|
                    0 <= j < i ==> aims_at(
                        #[trigger] states[j],
                        lights@[j],
                        self.point,
                        atan2_degrees,
                    ),
                texts(commands@) == state_commands(states),
            decreases lights.len() - i,
        {
            let state = lights[i].point_at(self.point, &atan2_degrees);
            let mut pair = state.to_commands();
            let tilt = pair.pop().unwrap();
            let pan = pair.pop().unwrap();
            commands.push(pan);
            commands.push(tilt);
            proof {
                let longer = states.push(state);
                assert(longer.drop_last() =~= states);
                states = longer;
            }
            i += 1;
        }
        assert(all_aim_at(
            states,
            selected_items(self.select_lights_modal.toggleable_lights@),
            self.point,
            atan2_degrees,
        ));
        Some(commands)
    }
}

} // verus!
