//! Moving lights and the direction in which they point.
use vstd::prelude::*;
use vstd::std_specs::cmp::PartialEqSpecImpl;
use vstd::string::StringExecFns;
use crate::decimal::{digits, is_plain, lemma_digits_plain, lemma_plain_add, number_text};
use crate::fixed::{fixed_text, lemma_fixed_text_plain, Fixed};
use crate::point::{floor_sqrt, integer_sqrt, Point3};

verus! {

/// Number of decimal places of an angle in a command.
pub const ANGLE_PLACES: u8 = 4;

/// A moving light: where it hangs, and the address by which the console knows it.
#[derive(Debug)]
pub struct Light {
    pub coordinates: Point3,
    pub minimum_beam: u16,
    pub maximum_beam: u16,
    pub name: String,
    pub address: u16,
}

/// The direction, in degrees, in which the light at `address` points.
#[derive(Clone, Copy, Debug, PartialEq, Eq, Structural)]
pub struct LightState {
    pub pan: Fixed,
    pub tilt: Fixed,
    pub address: u16,
}

/// The distance over the ground between two points whose coordinates differ by `dx` to the
/// right and by `dy` forward, rounded down to a whole step.
pub open spec fn ground_distance(dx: int, dy: int) -> int {
    floor_sqrt(dx * dx + dy * dy)
}

/// The two lengths whose angle is the pan of a light at `position` that points at `target`:
/// how far the target lies to the right of the light, and how far in front of it. A target
/// straight in front has pan zero.
pub open spec fn pan_lengths(position: Point3, target: Point3) -> (Fixed, Fixed) {
    (
        Fixed { raw: (target.x.value() - position.x.value()) as i64 },
        Fixed { raw: (target.y.value() - position.y.value()) as i64 },
    )
}

/// The two lengths whose angle, with the opposite sign, is the tilt of a light at
/// `position` that points at `target`: the distance over the ground, and how far the target
/// lies above the light. Both change their sign for a target below the light, which leaves
/// their ratio as it is: the second length is never below zero, so their angle is the
/// arctangent of the distance over the ground divided by the height of the target above the
/// light. A target level with the light counts as a target above it by less than any step,
/// so that the angle is a right angle and not undefined.
pub open spec fn tilt_lengths(position: Point3, target: Point3) -> (Fixed, Fixed) {
    let dx = target.x.value() - position.x.value();
    let dy = target.y.value() - position.y.value();
    let dz = target.z.value() - position.z.value();
    if dz >= 0 {
        (Fixed { raw: ground_distance(dx, dy) as i64 }, Fixed { raw: dz as i64 })
    } else {
        (Fixed { raw: (-ground_distance(dx, dy)) as i64 }, Fixed { raw: (-dz) as i64 })
    }
}

/// Whether `state` is a state of `light` in which it points at `target`.
///
/// `atan2_degrees` stands for the function that gives, in degrees, the angle whose tangent
/// is the ratio of its first argument to its second, in the quadrant that their signs
/// name. The pan is what it gives for `pan_lengths`, the tilt the opposite of what it gives
/// for `tilt_lengths`.
pub open spec fn aims_at<S: Fn(Fixed, Fixed) -> Fixed>(
    state: LightState,
    light: Light,
    target: Point3,
    atan2_degrees: S,
) -> bool {
    &&& state.address == light.address
    &&& call_ensures(atan2_degrees, pan_lengths(light.coordinates, target), state.pan)
    &&& exists|angle: Fixed| #[trigger]
        call_ensures(atan2_degrees, tilt_lengths(light.coordinates, target), angle) && state.tilt
            == angle.negated()
}

/// Whether every one of `lights` hangs within reach.
pub open spec fn lights_in_reach(lights: Seq<Light>) -> bool {
    forall|j: int| 0 <= j < lights.len() ==> (#[trigger] lights[j]).coordinates.in_reach()
}

/// Whether every one of `lights` hangs within reach.
pub fn all_in_reach(lights: &Vec<Light>) -> (b: bool)
    ensures
        b == lights_in_reach(lights@),
{
    let mut k: usize = 0;
    while k < lights.len()
        invariant
            k <= lights.len(),
            forall|j: int| 0 <= j < k ==> (#[trigger] lights@[j]).coordinates.in_reach(),
        decreases lights.len() - k,
    {
        if !lights[k].coordinates.is_in_reach() {
            return false;
        }
        k += 1;
    }
    true
}

/// The command that sets the pan of the light at `address`.
pub open spec fn pan_command(address: u16, pan: Fixed) -> Seq<char> {
    digits(address as nat) + " Pan "@ + fixed_text(pan.value(), ANGLE_PLACES as nat)
}

/// The command that sets the tilt of the light at `address`.
pub open spec fn tilt_command(address: u16, tilt: Fixed) -> Seq<char> {
    digits(address as nat) + " Tilt "@ + fixed_text(tilt.value(), ANGLE_PLACES as nat)
}

/// The two commands that set a light are plain texts.
pub proof fn lemma_light_commands_plain(address: u16, angle: Fixed)
    ensures
        is_plain(pan_command(address, angle)),
        is_plain(tilt_command(address, angle)),
{
    reveal_strlit(" Pan ");
    reveal_strlit(" Tilt ");
    lemma_digits_plain(address as nat);
    lemma_fixed_text_plain(angle.value(), ANGLE_PLACES as nat);
    lemma_plain_add(digits(address as nat), " Pan "@);
    lemma_plain_add(
        digits(address as nat) + " Pan "@,
        fixed_text(angle.value(), ANGLE_PLACES as nat),
    );
    lemma_plain_add(digits(address as nat), " Tilt "@);
    lemma_plain_add(
        digits(address as nat) + " Tilt "@,
        fixed_text(angle.value(), ANGLE_PLACES as nat),
    );
}

impl Clone for Light {
    fn clone(&self) -> (light: Light)
        ensures
            light == *self,
    {
        Light {
            coordinates: self.coordinates,
            minimum_beam: self.minimum_beam,
            maximum_beam: self.maximum_beam,
            name: self.name.clone(),
            address: self.address,
        }
    }
}

impl PartialEq for Light {
    fn eq(&self, other: &Light) -> (b: bool) {
        self.coordinates == other.coordinates && self.minimum_beam == other.minimum_beam
            && self.maximum_beam == other.maximum_beam && self.name == other.name && self.address
            == other.address
    }
}

impl PartialEqSpecImpl for Light {
    open spec fn obeys_eq_spec() -> bool {
        true
    }

    open spec fn eq_spec(&self, other: &Light) -> bool {
        self.coordinates == other.coordinates && self.minimum_beam == other.minimum_beam
            && self.maximum_beam == other.maximum_beam && self.name@ == other.name@
            && self.address == other.address
    }
}

impl Default for Light {
    fn default() -> (light: Light)
        ensures
            light.is_default_spec(),
    {
        Light {
            coordinates: Point3::default(),
            minimum_beam: 0,
            maximum_beam: 0,
            name: String::new(),
            address: 0,
        }
    }
}

impl Light {
    /// A light that nobody has filled in yet: no name, and every number zero.
    pub open spec fn is_default_spec(&self) -> bool {
        &&& self.coordinates == Point3::origin()
        &&& self.minimum_beam == 0
        &&& self.maximum_beam == 0
        &&& self.name@.len() == 0
        &&& self.address == 0
    }

    /// Whether this light still holds the values that it had before anyone filled it in.
    /// Such a light is no target for a move, and no store may accept it.
    pub fn is_default(&self) -> (b: bool)
        ensures
            b == self.is_default_spec(),
    {
        self.coordinates.is_origin() && self.minimum_beam == 0 && self.maximum_beam == 0
            && self.name.as_str().is_empty() && self.address == 0
    }

    /// Calculates the pan and tilt with which this light points at `coordinate`.
    ///
    /// Both points must be within reach, so that their distance can be measured. The
    /// angles are taken with `atan2_degrees`, the function that gives, in degrees, the angle
    /// whose tangent is the ratio of its first argument to its second.
    pub fn point_at<S: Fn(Fixed, Fixed) -> Fixed>(
        &self,
        coordinate: Point3,
        atan2_degrees: &S,
    ) -> (state: LightState)
        requires
            self.coordinates.in_reach(),
            coordinate.in_reach(),
            forall|rise: Fixed, run: Fixed| call_requires(*atan2_degrees, (rise, run)),
        ensures
            aims_at(state, *self, coordinate, *atan2_degrees),
    {
        let distance_x: i64 = coordinate.x.raw - self.coordinates.x.raw;
        let distance_y: i64 = coordinate.y.raw - self.coordinates.y.raw;
        let distance_z: i64 = coordinate.z.raw - self.coordinates.z.raw;
        let wide_x: i128 = distance_x as i128;
        let wide_y: i128 = distance_y as i128;
        assert(0 <= wide_x * wide_x <= 0x1000_0000_0000_0000_0000_0000_0000_0000) by (nonlinear_arith)
            requires
                -0x4000_0000_0000_0000 <= wide_x <= 0x4000_0000_0000_0000,
        ;
        assert(0 <= wide_y * wide_y <= 0x1000_0000_0000_0000_0000_0000_0000_0000) by (nonlinear_arith)
            requires
                -0x4000_0000_0000_0000 <= wide_y <= 0x4000_0000_0000_0000,
        ;
        let squares: u128 = (wide_x * wide_x + wide_y * wide_y) as u128;
        let root: u64 = integer_sqrt(squares);
        assert(root < 0x6000_0000_0000_0000) by (nonlinear_arith)
            requires
                (root as int) * (root as int) <= squares,
                squares <= 0x2000_0000_0000_0000_0000_0000_0000_0000,
        ;
        let distance_straight: i64 = root as i64;
        let pan = atan2_degrees(Fixed { raw: distance_x }, Fixed { raw: distance_y });
        let angle = if distance_z >= 0 {
            atan2_degrees(Fixed { raw: distance_straight }, Fixed { raw: distance_z })
        } else {
            atan2_degrees(Fixed { raw: -distance_straight }, Fixed { raw: -distance_z })
        };
        let state = LightState { pan, tilt: angle.negate(), address: self.address };
        proof {
            assert(call_ensures(
                *atan2_degrees,
                tilt_lengths(self.coordinates, coordinate),
                angle,
            ));
        }
        state
    }
}

impl LightState {
    /// The two commands that bring the light into this state: its pan, then its tilt.
    pub fn to_commands(&self) -> (commands: Vec<String>)
        ensures
            commands.len() == 2,
            commands[0]@ == pan_command(self.address, self.pan),
            commands[1]@ == tilt_command(self.address, self.tilt),
    {
        let mut pan = number_text(self.address as u64);
        pan.append(" Pan ");
        pan.append(self.pan.format(ANGLE_PLACES).as_str());
        let mut tilt = number_text(self.address as u64);
        tilt.append(" Tilt ");
        tilt.append(self.tilt.format(ANGLE_PLACES).as_str());
        let mut commands: Vec<String> = Vec::new();
        commands.push(pan);
        commands.push(tilt);
        commands
    }
}

} // verus!
