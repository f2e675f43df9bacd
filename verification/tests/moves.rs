use trig::Trig;
use two_mover_3_pos::debug_point_at::DebugPointAt;
use two_mover_3_pos::decimal::{number_text, padded_text, parse_i32, two_digit_text};
use two_mover_3_pos::fixed::{power_of_ten, Fixed};
use two_mover_3_pos::light::{Light, LightState};
use two_mover_3_pos::move_calculator::{calculate_move, cue_number, frames_to_commands, Frame};
use two_mover_3_pos::output_section::{MoveOutcome, OutputSection, OutputType};
use two_mover_3_pos::path::bezier::Bezier;
use two_mover_3_pos::path::line::Line;
use two_mover_3_pos::path::PathEnum;
use two_mover_3_pos::point::{Point3, REACH};
use two_mover_3_pos::toggleable_item::ToggleableItem;

/// The fixed-point number nearest to `value`.
fn fixed(value: f64) -> Fixed {
    Fixed::from_raw((value * 1e9).round() as i64)
}

fn point(x: f64, y: f64, z: f64) -> Point3 {
    Point3::new(fixed(x), fixed(y), fixed(z))
}

/// The angle, in degrees, whose tangent is `rise / run`.
fn atan2_degrees(rise: Fixed, run: Fixed) -> Fixed {
    fixed((rise.raw as f64).atan2d(&(run.raw as f64)))
}

fn light(address: u16, x: f64, y: f64, z: f64) -> Light {
    Light {
        coordinates: point(x, y, z),
        minimum_beam: 0,
        maximum_beam: 0,
        name: format!("light {}", address),
        address,
    }
}

fn floor_line() -> PathEnum {
    PathEnum::Line(Line {
        name: "floor".to_string(),
        start: point(0.0, 0.0, 0.0),
        end: point(4.0, 0.0, 0.0),
    })
}

#[test]
fn a_move_has_as_many_frames_as_asked_for() {
    let lights = vec![light(1, 0.0, 0.0, 1.0), light(2, 4.0, 0.0, 1.0), light(3, 2.0, 2.0, 2.0)];
    for count in [1u16, 2, 10, 99, 100, 250] {
        let frames = calculate_move(floor_line(), lights.clone(), count, fixed(3.0), atan2_degrees);
        assert_eq!(frames.len(), count as usize);
        for frame in &frames {
            assert_eq!(frame.light_states.len(), 3);
            assert_eq!(frame.delay, Fixed::from_raw(3_000_000_000 / count as i64));
            assert_eq!(frame.light_states[0].address, 1);
            assert_eq!(frame.light_states[1].address, 2);
            assert_eq!(frame.light_states[2].address, 3);
        }
    }
}

#[test]
fn a_move_without_frames_is_empty() {
    let frames = calculate_move(floor_line(), vec![light(1, 0.0, 0.0, 1.0)], 0, fixed(3.0), atan2_degrees);
    assert!(frames.is_empty());
}

#[test]
fn a_move_samples_the_path_from_its_start_and_stops_short_of_its_end() {
    // A line on the floor from x = 0 to x = 4, and a light one unit above x = 0.
    let lights = vec![light(7, 0.0, 0.0, 1.0)];

    let frames = calculate_move(floor_line(), lights, 4, fixed(2.0), atan2_degrees);

    assert_eq!(frames.len(), 4);
    // Frame 0 aims at x = 0: straight down.
    assert_eq!(
        frames[0].light_states,
        vec![LightState { pan: fixed(0.0), tilt: fixed(0.0), address: 7 }]
    );
    // Frame 1 aims at x = 1: to the right, and 45 degrees off the vertical.
    assert_eq!(
        frames[1].light_states,
        vec![LightState { pan: fixed(90.0), tilt: fixed(45.0), address: 7 }]
    );
    // Frame 3 aims at x = 3, not at the end of the line.
    assert_eq!(
        frames[3].light_states,
        vec![LightState {
            pan: fixed(90.0),
            tilt: atan2_degrees(fixed(-3.0), fixed(1.0)).negate(),
            address: 7
        }]
    );
    for frame in &frames {
        assert_eq!(frame.delay, fixed(0.5));
    }
}

#[test]
fn the_delay_of_a_frame_is_rounded_down() {
    let frames = calculate_move(floor_line(), vec![light(1, 0.0, 0.0, 1.0)], 3, fixed(1.0), atan2_degrees);
    assert_eq!(frames[0].delay, Fixed::from_raw(333_333_333));
    assert_eq!(Fixed::from_raw(-1).divide(3), Fixed::from_raw(-1));
    assert_eq!(Fixed::from_raw(-3).divide(3), Fixed::from_raw(-1));
    assert_eq!(Fixed::from_raw(-4).divide(3), Fixed::from_raw(-2));
    assert_eq!(Fixed::from_raw(i64::MIN).divide(1), Fixed::from_raw(i64::MIN));
    assert_eq!(Fixed::from_raw(i64::MIN).divide(2), Fixed::from_raw(i64::MIN / 2));
    assert_eq!(Fixed::from_raw(i64::MAX).divide(u16::MAX), Fixed::from_raw(i64::MAX / 65535));
}

#[test]
fn cue_labels() {
    assert_eq!(cue_number(5, 0), "5.00");
    assert_eq!(cue_number(5, 12), "5.12");
    assert_eq!(cue_number(1, 9), "1.09");
    assert_eq!(cue_number(1, 99), "1.99");
    assert_eq!(cue_number(4294967295, 7), "4294967295.07");
    assert_eq!(cue_number(0, 100), "0.100");
}

#[test]
fn cue_labels_of_a_move_are_all_different() {
    let mut seen: Vec<String> = Vec::new();
    for index in 0..100usize {
        let label = cue_number(12, index);
        assert_eq!(label.len(), 5);
        assert!(!seen.contains(&label));
        seen.push(label);
    }
}

#[test]
fn commands_of_a_move() {
    let frames = vec![
        Frame {
            delay: fixed(0.5),
            light_states: vec![
                LightState { pan: fixed(180.0), tilt: fixed(45.0), address: 5 },
                LightState { pan: fixed(-135.0), tilt: fixed(54.7356103172), address: 6 },
            ],
        },
        Frame {
            delay: fixed(0.125),
            light_states: vec![LightState { pan: fixed(90.0), tilt: fixed(-90.0), address: 5 }],
        },
        Frame { delay: fixed(12.0), light_states: vec![] },
    ];

    let commands = frames_to_commands(frames, 5);

    assert_eq!(
        commands,
        vec![
            "5 Pan 180.0000",
            "5 Tilt 45.0000",
            "6 Pan -135.0000",
            "6 Tilt 54.7356",
            "Record Cue 5.00 Time 0.50",
            "Cue 5.00 Follow 0.50",
            "5 Pan 90.0000",
            "5 Tilt -90.0000",
            "Record Cue 5.01 Time 0.12",
            "Cue 5.01 Follow 0.12",
            "Record Cue 5.02 Time 12.00",
            "Cue 5.02 Follow 12.00",
        ]
    );
}

#[test]
fn commands_come_in_the_order_of_the_frames() {
    let lights = vec![light(1, 0.0, 0.0, 1.0), light(2, 4.0, 0.0, 1.0)];
    let frames = calculate_move(floor_line(), lights, 100, fixed(10.0), atan2_degrees);

    let commands = frames_to_commands(frames, 3);

    assert_eq!(commands.len(), 600);
    for index in 0..100usize {
        let block = &commands[index * 6..index * 6 + 6];
        assert!(block[0].starts_with("1 Pan "));
        assert!(block[1].starts_with("1 Tilt "));
        assert!(block[2].starts_with("2 Pan "));
        assert!(block[3].starts_with("2 Tilt "));
        assert_eq!(block[4], format!("Record Cue 3.{:0>2} Time 0.10", index));
        assert_eq!(block[5], format!("Cue 3.{:0>2} Follow 0.10", index));
    }
}

#[test]
fn no_commands_for_no_frames() {
    assert!(frames_to_commands(vec![], 1).is_empty());
}

#[test]
fn decimal_text_of_fixed_point_numbers() {
    assert_eq!(Fixed::from_raw(1_234_567_890).format(4), "1.2346");
    assert_eq!(Fixed::from_raw(1_234_567_890).format(2), "1.23");
    assert_eq!(Fixed::from_raw(1_234_567_890).format(0), "1");
    assert_eq!(Fixed::from_raw(1_234_567_890).format(9), "1.234567890");
    assert_eq!(Fixed::from_raw(-1_234_567_890).format(4), "-1.2346");
    assert_eq!(Fixed::from_raw(0).format(4), "0.0000");
    assert_eq!(Fixed::from_raw(5).format(2), "0.00");
    assert_eq!(Fixed::from_raw(-5).format(2), "-0.00");
    assert_eq!(Fixed::from_raw(999_999_999).format(2), "1.00");
    assert_eq!(Fixed::from_raw(9_995_000_000).format(2), "10.00");
    assert_eq!(Fixed::from_int(-12).format(4), "-12.0000");
    assert_eq!(Fixed::from_raw(i64::MAX).format(4), "9223372036.8548");
    assert_eq!(Fixed::from_raw(i64::MIN).format(4), "-9223372036.8548");
    assert_eq!(Fixed::from_raw(i64::MIN).format(9), "-9223372036.854775808");
}

#[test]
fn a_tie_is_rounded_to_the_even_neighbour() {
    assert_eq!(Fixed::from_raw(125_000_000).format(2), "0.12");
    assert_eq!(Fixed::from_raw(135_000_000).format(2), "0.14");
    assert_eq!(Fixed::from_raw(125_000_001).format(2), "0.13");
    assert_eq!(Fixed::from_raw(-125_000_000).format(2), "-0.12");
    assert_eq!(Fixed::from_raw(500_000_000).format(0), "0");
    assert_eq!(Fixed::from_raw(1_500_000_000).format(0), "2");
    assert_eq!(Fixed::from_raw(2_500_000_000).format(0), "2");
    assert_eq!(Fixed::from_raw(50_000).format(4), "0.0000");
    assert_eq!(Fixed::from_raw(150_000).format(4), "0.0002");
}

#[test]
fn rounding_agrees_with_the_formatting_of_floats() {
    for value in [0.125f64, 0.375, 2.5, -0.625, 45.0, 8.59773680459, -141.340191746, 54.7356103172] {
        assert_eq!(fixed(value).format(2), format!("{:.2}", value));
        assert_eq!(fixed(value).format(4), format!("{:.4}", value));
    }
}

#[test]
fn decimal_text_of_whole_numbers() {
    assert_eq!(number_text(0), "0");
    assert_eq!(number_text(7), "7");
    assert_eq!(number_text(10), "10");
    assert_eq!(number_text(65535), "65535");
    assert_eq!(number_text(u64::MAX), "18446744073709551615");
    assert_eq!(two_digit_text(0), "00");
    assert_eq!(two_digit_text(9), "09");
    assert_eq!(two_digit_text(10), "10");
    assert_eq!(two_digit_text(123), "123");
    assert_eq!(padded_text(7, 0), "");
    assert_eq!(padded_text(7, 3), "007");
    assert_eq!(padded_text(12345, 3), "345");
    assert_eq!(power_of_ten(0), 1);
    assert_eq!(power_of_ten(4), 10_000);
    assert_eq!(power_of_ten(9), 1_000_000_000);
}

#[test]
fn numbers_read_from_text() {
    assert_eq!(parse_i32("0"), Some(0));
    assert_eq!(parse_i32("42"), Some(42));
    assert_eq!(parse_i32("+42"), Some(42));
    assert_eq!(parse_i32("-42"), Some(-42));
    assert_eq!(parse_i32("007"), Some(7));
    assert_eq!(parse_i32("-0"), Some(0));
    assert_eq!(parse_i32("2147483647"), Some(i32::MAX));
    assert_eq!(parse_i32("-2147483648"), Some(i32::MIN));
    assert_eq!(parse_i32("00000000000000000002147483647"), Some(i32::MAX));
    assert_eq!(parse_i32("2147483648"), None);
    assert_eq!(parse_i32("-2147483649"), None);
    assert_eq!(parse_i32("99999999999999999999999999"), None);
    assert_eq!(parse_i32(""), None);
    assert_eq!(parse_i32("+"), None);
    assert_eq!(parse_i32("-"), None);
    assert_eq!(parse_i32("--1"), None);
    assert_eq!(parse_i32("1.5"), None);
    assert_eq!(parse_i32(" 1"), None);
    assert_eq!(parse_i32("1 "), None);
    assert_eq!(parse_i32("1_000"), None);
    assert_eq!(parse_i32("12a"), None);
    assert_eq!(parse_i32("\u{0663}"), None);
    assert_eq!(parse_i32("1\u{00e9}"), None);
    for text in ["17", "-17", "+0", "abc", "", "2147483648", "-2147483648", "0x10", "1e3"] {
        assert_eq!(parse_i32(text), text.parse::<i32>().ok());
    }
}

#[test]
fn reading_gives_back_what_was_written() {
    for number in [0u64, 1, 9, 10, 99, 100, 12345, 2147483647] {
        assert_eq!(parse_i32(&number_text(number)), Some(number as i32));
    }
}

fn section_with(paths: Vec<(PathEnum, bool)>, lights: Vec<(Light, bool)>) -> OutputSection {
    let mut section = OutputSection::new();
    for (path, state) in paths {
        section.select_path_modal.toggleable_paths.push(ToggleableItem { item: path, state });
    }
    for (light, state) in lights {
        section.select_lights_modal.toggleable_lights.push(ToggleableItem { item: light, state });
    }
    section
}

#[test]
fn settings_before_any_change() {
    let section = OutputSection::new();
    assert_eq!(section.move_time, fixed(1.0));
    assert_eq!(section.frames, 10);
    assert_eq!(section.cue_number, 1);
    assert_eq!(section.selected_output_type, OutputType::Instructions);
    assert!(!section.select_lights_modal.shown);
    assert_eq!(section.select_lights_modal.title, "Select lights for move");
    assert!(section.select_lights_modal.toggleable_lights.is_empty());
    assert!(!section.select_path_modal.shown);
    assert!(section.select_path_modal.toggleable_paths.is_empty());
}

#[test]
fn settings_are_brought_into_range() {
    let mut section = OutputSection::new();
    section.move_time = fixed(-0.1);
    section.frames = 0;
    section.cue_number = 0;
    section.clamp();
    assert_eq!(section.move_time, fixed(0.0));
    assert_eq!(section.frames, 1);
    assert_eq!(section.cue_number, 1);

    section.move_time = fixed(2.5);
    section.frames = 100;
    section.cue_number = 17;
    section.clamp();
    assert_eq!(section.move_time, fixed(2.5));
    assert_eq!(section.frames, 99);
    assert_eq!(section.cue_number, 17);

    section.frames = 99;
    section.clamp();
    assert_eq!(section.frames, 99);
    section.frames = 1;
    section.clamp();
    assert_eq!(section.frames, 1);
}

#[test]
fn a_move_needs_a_path() {
    let section = section_with(vec![(floor_line(), false)], vec![(light(1, 0.0, 0.0, 1.0), true)]);
    let outcome = section.execute_move(atan2_degrees);
    assert!(matches!(outcome, MoveOutcome::NoPath));
    assert_eq!(outcome.warning(), Some("No path is selected - try selecting a path"));

    let section = section_with(vec![], vec![]);
    assert!(matches!(section.execute_move(atan2_degrees), MoveOutcome::NoPath));
}

#[test]
fn a_move_needs_lights() {
    let section = section_with(vec![(floor_line(), true)], vec![(light(1, 0.0, 0.0, 1.0), false)]);
    let outcome = section.execute_move(atan2_degrees);
    assert!(matches!(outcome, MoveOutcome::NoLights));
    assert_eq!(outcome.warning(), Some("No lights are selected - try selecting some lights"));
}

#[test]
fn a_move_needs_everything_within_reach() {
    let mut far = light(1, 0.0, 0.0, 1.0);
    far.coordinates = Point3::new(Fixed::from_raw(REACH + 1), Fixed::from_raw(0), Fixed::from_raw(0));
    let section = section_with(vec![(floor_line(), true)], vec![(far, true)]);
    let outcome = section.execute_move(atan2_degrees);
    assert!(matches!(outcome, MoveOutcome::OutOfReach));
    assert!(outcome.warning().is_some());

    let long = PathEnum::Line(Line::new(
        point(0.0, 0.0, 0.0),
        Point3::new(Fixed::from_raw(0), Fixed::from_raw(0), Fixed::from_raw(-REACH - 1)),
    ));
    let section = section_with(vec![(long, true)], vec![(light(1, 0.0, 0.0, 1.0), true)]);
    assert!(matches!(section.execute_move(atan2_degrees), MoveOutcome::OutOfReach));
}

#[test]
fn an_executed_move_gives_its_commands() {
    let curve = PathEnum::Bezier(Bezier::new(
        point(0.0, 4.0, 0.0),
        point(0.0, 0.0, 0.0),
        point(4.0, 0.0, 0.0),
    ));
    let mut section = section_with(
        vec![(curve, false), (floor_line(), true)],
        vec![
            (light(1, 0.0, 0.0, 1.0), true),
            (light(2, 9.0, 9.0, 9.0), false),
            (light(3, 0.0, 0.0, 1.0), true),
        ],
    );
    section.frames = 2;
    section.move_time = fixed(3.0);
    section.cue_number = 40;

    let outcome = section.execute_move(atan2_degrees);

    assert!(outcome.warning().is_none());
    match outcome {
        MoveOutcome::Commands(commands) => assert_eq!(
            commands,
            vec![
                "1 Pan 0.0000",
                "1 Tilt 0.0000",
                "3 Pan 0.0000",
                "3 Tilt 0.0000",
                "Record Cue 40.00 Time 1.50",
                "Cue 40.00 Follow 1.50",
                "1 Pan 90.0000",
                "1 Tilt 63.4349",
                "3 Pan 90.0000",
                "3 Tilt 63.4349",
                "Record Cue 40.01 Time 1.50",
                "Cue 40.01 Follow 1.50",
            ]
        ),
        _ => panic!("the move was not executed"),
    }
}

#[test]
fn commands_that_point_the_selected_lights_at_a_point() {
    let mut form = DebugPointAt::new();
    assert!(!form.shown);
    assert_eq!(form.point, Point3::default());
    assert_eq!(form.select_lights_modal.title, "Select lights for debug point at");
    form.point = point(6.0, 3.0, 0.0);
    assert_eq!(form.commands(atan2_degrees), Some(vec![]));

    let lights = &mut form.select_lights_modal.toggleable_lights;
    lights.push(ToggleableItem { item: light(5, 6.0, 4.0, 1.0), state: true });
    lights.push(ToggleableItem { item: light(6, 0.0, 0.0, 0.0), state: false });
    lights.push(ToggleableItem { item: light(7, 5.0, 3.0, 1.0), state: true });
    assert_eq!(
        form.commands(atan2_degrees),
        Some(vec![
            "5 Pan 180.0000".to_string(),
            "5 Tilt 45.0000".to_string(),
            "7 Pan 90.0000".to_string(),
            "7 Tilt 45.0000".to_string(),
        ])
    );

    form.point = Point3::new(Fixed::from_raw(0), Fixed::from_raw(0), Fixed::from_raw(REACH + 1));
    assert_eq!(form.commands(atan2_degrees), None);
}
