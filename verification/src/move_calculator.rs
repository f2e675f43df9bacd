//! Planning a move as a series of frames, and encoding the frames as console commands.
use vstd::prelude::*;
use vstd::string::StringExecFns;
use crate::decimal::{
    digits,
    is_plain,
    lemma_digits_plain,
    lemma_plain_add,
    lemma_two_digits_injective,
    lemma_two_digits_plain,
    number_text,
    two_digit_text,
    two_digits,
};
use crate::fixed::{fixed_text, lemma_fixed_text_plain, Fixed};
use crate::light::{
    aims_at,
    lemma_light_commands_plain,
    lights_in_reach,
    pan_command,
    tilt_command,
    Light,
    LightState,
};
use crate::path::{lemma_path_stays_in_reach, Path, PathEnum};
use crate::percentage::Percentage;
use crate::point::Point3;

verus! {

/// Number of decimal places of a time in a command.
pub const TIME_PLACES: u8 = 2;

/// One sample of a move: where every light points, and the time until the next sample.
#[derive(Debug)]
pub struct Frame {
    pub delay: Fixed,
    pub light_states: Vec<LightState>,
}

/// Whether `frame` holds `delay` and, for each of `lights` in their order, a state in which
/// it points at `target`.
pub open spec fn frame_aims_at<S: Fn(Fixed, Fixed) -> Fixed>(
    frame: Frame,
    lights: Seq<Light>,
    target: Point3,
    delay: Fixed,
    atan2_degrees: S,
) -> bool {
    &&& frame.delay == delay
    &&& frame.light_states@.len() == lights.len()
    &&& forall|j: int|
        0 <= j < lights.len() ==> aims_at(#[trigger] frame.light_states@[j], lights[j], target, atan2_degrees)
}

/// Whether `out_frames` are the frames of a move of `frames` frames along `path` that takes
/// `move_time`: frame `i` aims every light at the point `i / frames` of the way along the
/// path, and lasts `move_time / frames`.
pub open spec fn is_move<S: Fn(Fixed, Fixed) -> Fixed>(
    out_frames: Seq<Frame>,
    path: PathEnum,
    lights: Seq<Light>,
    frames: u16,
    move_time: Fixed,
    atan2_degrees: S,
) -> bool {
    &&& out_frames.len() == frames
    &&& forall|i: int|
        0 <= i < frames ==> frame_aims_at(
            #[trigger] out_frames[i],
            lights,
            path.point_at_spec(i, frames as int),
            move_time.divided(frames as int),
            atan2_degrees,
        )
}

/// Calculates where each of the lights needs to point during a move along `path`.
///
/// The move is cut into `frames` frames. Frame `i` aims every light, in the order of
/// `lights`, at the point that lies `i / frames` of the way along the path, so the first
/// frame aims at the start of the path and no frame aims at its end. Every frame lasts
/// `move_time / frames`. The path and the lights must be within reach. The angles are taken
/// with `atan2_degrees`, the function that gives, in degrees, the angle whose tangent is the
/// ratio of its first argument to its second.
pub fn calculate_move<S: Fn(Fixed, Fixed) -> Fixed>(
    path: PathEnum,
    lights: Vec<Light>,
    frames: u16,
    move_time: Fixed,
    atan2_degrees: S,
) -> (out_frames: Vec<Frame>)
    requires
        lights.len() > 0,
        path.in_reach(),
        lights_in_reach(lights@),
        forall|rise: Fixed, run: Fixed| call_requires(atan2_degrees, (rise, run)),
    ensures
        is_move(out_frames@, path, lights@, frames, move_time, atan2_degrees),
{
    let mut out_frames: Vec<Frame> = Vec::new();
    if frames == 0 {
        return out_frames;
    }
    let delay = move_time.divide(frames);
    let mut frame: u16 = 0;
    while frame < frames
        invariant
            0 < frames,
            frame <= frames,
            path.in_reach(),
            lights_in_reach(lights@),
            out_frames.len() == frame,
            delay == move_time.divided(frames as int),
            forall|rise: Fixed, run: Fixed| call_requires(atan2_degrees, (rise, run)),
            forall|i: int|
                0 <= i < frame ==> frame_aims_at(
                    #[trigger] out_frames[i],
                    lights@,
                    path.point_at_spec(i, frames as int),
                    delay,
                    atan2_degrees,
                ),
        decreases frames - frame,
    {
        let index = Percentage::from_ratio(frame as u32, frames as u32).unwrap();
        let path_point = path.point_at(&index);
        proof {
            lemma_path_stays_in_reach(path, frame as int, frames as int);
        }
        let mut light_states: Vec<LightState> = Vec::new();
        let mut k: usize = 0;
        while k < lights.len()
            invariant
                k <= lights.len(),
                light_states.len() == k,
                path_point.in_reach(),
                lights_in_reach(lights@),
                forall|rise: Fixed, run: Fixed| call_requires(atan2_degrees, (rise, run)),
                forall|j: int|
                    0 <= j < k ==> aims_at(#[trigger] light_states@[j], lights@[j], path_point, atan2_degrees),
            decreases lights.len() - k,
        {
            light_states.push(lights[k].point_at(path_point, &atan2_degrees));
            k += 1;
        }
        out_frames.push(Frame { delay, light_states });
        frame += 1;
    }
    out_frames
}

/// The label of the cue for frame `index` of the move that starts at cue `first_cue_number`:
/// the number, a point, and the index in at least two digits.
pub open spec fn cue_label(first_cue_number: u32, index: nat) -> Seq<char> {
    digits(first_cue_number as nat) + "."@ + two_digits(index)
}

/// The command that records the cue `label` with the time `delay`.
pub open spec fn record_command(label: Seq<char>, delay: Fixed) -> Seq<char> {
    "Record Cue "@ + label + " Time "@ + fixed_text(delay.value(), TIME_PLACES as nat)
}

/// The command that makes the cue `label` go on by itself after `delay`.
pub open spec fn follow_command(label: Seq<char>, delay: Fixed) -> Seq<char> {
    "Cue "@ + label + " Follow "@ + fixed_text(delay.value(), TIME_PLACES as nat)
}

/// The commands that set the given lights, in their order: for each its pan, then its tilt.
pub open spec fn state_commands(states: Seq<LightState>) -> Seq<Seq<char>>
    decreases states.len(),
{
    if states.len() == 0 {
        Seq::<Seq<char>>::empty()
    } else {
        state_commands(states.drop_last()).push(
            pan_command(states.last().address, states.last().pan),
        ).push(tilt_command(states.last().address, states.last().tilt))
    }
}

/// The commands of the frame at position `index`: those that set its lights, then the two
/// that record its cue and make it follow.
pub open spec fn frame_commands(frame: Frame, first_cue_number: u32, index: nat) -> Seq<Seq<char>> {
    state_commands(frame.light_states@).push(
        record_command(cue_label(first_cue_number, index), frame.delay),
    ).push(follow_command(cue_label(first_cue_number, index), frame.delay))
}

/// The commands of all the frames, frame after frame.
pub open spec fn move_commands(frames: Seq<Frame>, first_cue_number: u32) -> Seq<Seq<char>>
    decreases frames.len(),
{
    if frames.len() == 0 {
        Seq::<Seq<char>>::empty()
    } else {
        move_commands(frames.drop_last(), first_cue_number) + frame_commands(
            frames.last(),
            first_cue_number,
            (frames.len() - 1) as nat,
        )
    }
}

/// The position, among the commands of a move, of the first command of frame `index`.
pub open spec fn frame_offset(frames: Seq<Frame>, index: nat) -> nat
    decreases index,
{
    if index == 0 {
        0
    } else {
        frame_offset(frames, (index - 1) as nat) + 2 * frames[index - 1].light_states@.len() + 2
    }
}

/// Two different frames of one move never get the same cue label.
pub proof fn lemma_cue_labels_differ(first_cue_number: u32, i: nat, j: nat)
    requires
        i != j,
    ensures
        cue_label(first_cue_number, i) != cue_label(first_cue_number, j),
{
    let prefix = digits(first_cue_number as nat) + "."@;
    let a = cue_label(first_cue_number, i);
    let b = cue_label(first_cue_number, j);
    if a == b {
        assert(a.subrange(prefix.len() as int, a.len() as int) =~= two_digits(i));
        assert(b.subrange(prefix.len() as int, b.len() as int) =~= two_digits(j));
        lemma_two_digits_injective(i, j);
    }
}

/// Up to a hundred frames, the part of a cue label behind the point has exactly two digits.
pub proof fn lemma_cue_label_two_digits(index: nat)
    requires
        index < 100,
    ensures
        two_digits(index).len() == 2,
{
    reveal_with_fuel(digits, 3);
}

/// Every light of a frame gives two commands.
pub proof fn lemma_state_commands_len(states: Seq<LightState>)
    ensures
        state_commands(states).len() == 2 * states.len(),
    decreases states.len(),
{
    if states.len() > 0 {
        lemma_state_commands_len(states.drop_last());
    }
}

/// The first command of a frame has the same position whatever frames come after it.
pub proof fn lemma_frame_offset_prefix(frames: Seq<Frame>, shorter: Seq<Frame>, index: nat)
    requires
        index <= shorter.len() <= frames.len(),
        shorter == frames.subrange(0, shorter.len() as int),
    ensures
        frame_offset(shorter, index) == frame_offset(frames, index),
    decreases index,
{
    if index > 0 {
        lemma_frame_offset_prefix(frames, shorter, (index - 1) as nat);
    }
}

/// The commands of a move end where the frame behind the last one would begin.
pub proof fn lemma_move_commands_len(frames: Seq<Frame>, first_cue_number: u32)
    ensures
        move_commands(frames, first_cue_number).len() == frame_offset(frames, frames.len()),
    decreases frames.len(),
{
    if frames.len() > 0 {
        let shorter = frames.drop_last();
        lemma_move_commands_len(shorter, first_cue_number);
        lemma_frame_offset_prefix(frames, shorter, shorter.len());
        lemma_state_commands_len(frames.last().light_states@);
    }
}

/// The commands of a move come in the order of its frames: those of frame `index` stand
/// together, behind those of every earlier frame and before those of every later one.
pub proof fn lemma_commands_in_frame_order(frames: Seq<Frame>, first_cue_number: u32, index: nat)
    requires
        index < frames.len(),
    ensures
        frame_offset(frames, index) < frame_offset(frames, index + 1),
        frame_offset(frames, index + 1) <= move_commands(frames, first_cue_number).len(),
        move_commands(frames, first_cue_number).subrange(
            frame_offset(frames, index) as int,
            frame_offset(frames, index + 1) as int,
        ) == frame_commands(frames[index as int], first_cue_number, index),
    decreases frames.len(),
{
    let shorter = frames.drop_last();
    lemma_move_commands_len(frames, first_cue_number);
    lemma_move_commands_len(shorter, first_cue_number);
    lemma_frame_offset_prefix(frames, shorter, shorter.len());
    lemma_state_commands_len(frames.last().light_states@);
    if index < frames.len() - 1 {
        lemma_commands_in_frame_order(shorter, first_cue_number, index);
        lemma_frame_offset_prefix(frames, shorter, index);
        lemma_frame_offset_prefix(frames, shorter, index + 1);
    }
}

/// Every command of a move is one line of printable ASCII text.
pub proof fn lemma_commands_are_plain(frames: Seq<Frame>, first_cue_number: u32, position: int)
    requires
        0 <= position < move_commands(frames, first_cue_number).len(),
    ensures
        is_plain(move_commands(frames, first_cue_number)[position]),
    decreases frames.len(),
{
    let shorter = frames.drop_last();
    let head = move_commands(shorter, first_cue_number);
    let index = (frames.len() - 1) as nat;
    if position < head.len() {
        lemma_commands_are_plain(shorter, first_cue_number, position);
    } else {
        let frame = frames.last();
        let behind = position - head.len();
        let states = state_commands(frame.light_states@);
        let label = cue_label(first_cue_number, index);
        lemma_state_commands_len(frame.light_states@);
        lemma_cue_label_plain(first_cue_number, index);
        if behind < states.len() {
            lemma_state_commands_plain(frame.light_states@, behind);
        } else {
            lemma_cue_commands_plain(label, frame.delay);
        }
    }
}

/// Every command that sets a light is one line of printable ASCII text.
pub proof fn lemma_state_commands_plain(states: Seq<LightState>, position: int)
    requires
        0 <= position < state_commands(states).len(),
    ensures
        is_plain(state_commands(states)[position]),
    decreases states.len(),
{
    lemma_state_commands_len(states);
    lemma_state_commands_len(states.drop_last());
    if position < 2 * (states.len() - 1) {
        lemma_state_commands_plain(states.drop_last(), position);
    } else {
        lemma_light_commands_plain(states.last().address, states.last().pan);
        lemma_light_commands_plain(states.last().address, states.last().tilt);
    }
}

/// The two commands of a cue are lines of printable ASCII text, if its label is one.
pub proof fn lemma_cue_commands_plain(label: Seq<char>, delay: Fixed)
    requires
        is_plain(label),
    ensures
        is_plain(record_command(label, delay)),
        is_plain(follow_command(label, delay)),
{
    reveal_strlit("Record Cue ");
    reveal_strlit(" Time ");
    reveal_strlit("Cue ");
    reveal_strlit(" Follow ");
    let time = fixed_text(delay.value(), TIME_PLACES as nat);
    lemma_fixed_text_plain(delay.value(), TIME_PLACES as nat);
    lemma_plain_add("Record Cue "@, label);
    lemma_plain_add("Record Cue "@ + label, " Time "@);
    lemma_plain_add("Record Cue "@ + label + " Time "@, time);
    lemma_plain_add("Cue "@, label);
    lemma_plain_add("Cue "@ + label, " Follow "@);
    lemma_plain_add("Cue "@ + label + " Follow "@, time);
}

/// A cue label is a printable ASCII text.
pub proof fn lemma_cue_label_plain(first_cue_number: u32, index: nat)
    ensures
        is_plain(cue_label(first_cue_number, index)),
{
    reveal_strlit(".");
    lemma_digits_plain(first_cue_number as nat);
    lemma_two_digits_plain(index);
    lemma_plain_add(digits(first_cue_number as nat), "."@);
    lemma_plain_add(digits(first_cue_number as nat) + "."@, two_digits(index));
}

/// The texts of a list of strings.
pub open spec fn texts(strings: Seq<String>) -> Seq<Seq<char>> {
    Seq::new(strings.len(), |i: int| strings[i]@)
}

/// The label of the cue for frame `index`.
pub fn cue_number(first_cue_number: u32, index: usize) -> (label: String)
    ensures
        label@ == cue_label(first_cue_number, index as nat),
{
    let mut label = number_text(first_cue_number as u64);
    label.append(".");
    label.append(two_digit_text(index as u64).as_str());
    label
}

/// Turns the frames of a move into console commands.
///
/// The commands come frame by frame in the order of `frames`. Each frame gives, for each of
/// its lights in order, the command that sets the pan and the one that sets the tilt, and
/// then a command that records all this as a cue of its own and one that lets the cue go on
/// by itself after the frame's delay.
pub fn frames_to_commands(frames: Vec<Frame>, first_cue_number: u32) -> (out_commands: Vec<String>)
    ensures
        texts(out_commands@) == move_commands(frames@, first_cue_number),
{
    let mut out_commands: Vec<String> = Vec::new();
    let mut i: usize = 0;
    while i < frames.len()
        invariant
            i <= frames.len(),
            texts(out_commands@) == move_commands(frames@.subrange(0, i as int), first_cue_number),
        decreases frames.len() - i,
    {
        let frame = &frames[i];
        let ghost before = texts(out_commands@);
        let mut k: usize = 0;
        while k < frame.light_states.len()
            invariant
                k <= frame.light_states.len(),
                texts(out_commands@) == before + state_commands(
                    frame.light_states@.subrange(0, k as int),
                ),
            decreases frame.light_states.len() - k,
        {
            let ghost so_far = texts(out_commands@);
            let mut commands = frame.light_states[k].to_commands();
            let tilt = commands.pop().unwrap();
            let pan = commands.pop().unwrap();
            out_commands.push(pan);
            out_commands.push(tilt);
            proof {
                let states = frame.light_states@.subrange(0, k + 1);
                assert(states.drop_last() =~= frame.light_states@.subrange(0, k as int));
                assert(texts(out_commands@) =~= so_far.push(pan@).push(tilt@));
            }
            k += 1;
        }
        let label = cue_number(first_cue_number, i);
        let time = frame.delay.format(TIME_PLACES);
        let mut record = String::from_str("Record Cue ");
        record.append(label.as_str());
        record.append(" Time ");
        record.append(time.as_str());
        let mut follow = String::from_str("Cue ");
        follow.append(label.as_str());
        follow.append(" Follow ");
        follow.append(time.as_str());
        let ghost so_far = texts(out_commands@);
        out_commands.push(record);
        out_commands.push(follow);
        proof {
            let done = frames@.subrange(0, i + 1);
            assert(frame.light_states@.subrange(0, k as int) =~= frame.light_states@);
            assert(done.drop_last() =~= frames@.subrange(0, i as int));
            assert(texts(out_commands@) =~= so_far.push(record@).push(follow@));
        }
        i += 1;
    }
    assert(frames@.subrange(0, i as int) =~= frames@);
    out_commands
}

} // verus!
