use two_mover_3_pos::add_cubic_bezier::AddCubicBezierWindow;
use two_mover_3_pos::add_light_window::AddLightWindow;
use two_mover_3_pos::add_line_window::AddLineWindow;
use two_mover_3_pos::db::{
    check_bezier, check_cubic_bezier, check_light, check_line, get_paths, StoreError,
};
use two_mover_3_pos::fixed::Fixed;
use two_mover_3_pos::light::Light;
use two_mover_3_pos::number_input::{entered_number, is_int, NumberInput};
use two_mover_3_pos::path::bezier::Bezier;
use two_mover_3_pos::path::cubic_bezier::CubicBezier;
use two_mover_3_pos::path::line::Line;
use two_mover_3_pos::path::PathEnum;
use two_mover_3_pos::point::Point3;
use two_mover_3_pos::preferences::osc_preferences::OscPreferences;
use two_mover_3_pos::preferences::theme_preferences::ThemePreferences;
use two_mover_3_pos::preferences::{PreferenceItemEnum, Preferences};

fn somewhere() -> Point3 {
    Point3::new(Fixed::from_int(1), Fixed::from_int(2), Fixed::from_int(3))
}

#[test]
fn the_store_takes_no_light_that_was_never_filled_in() {
    assert_eq!(check_light(&Light::default()), Err(StoreError::LightDefault));
    let mut light = Light::default();
    light.name = "front left".to_string();
    assert_eq!(check_light(&light), Ok(()));
    assert_eq!(StoreError::LightDefault.message(), "Light has default values");
}

#[test]
fn the_store_takes_no_line_without_a_name() {
    assert_eq!(check_line(&Line::default()), Err(StoreError::LineDefault));
    assert_eq!(check_line(&Line::new(Point3::default(), somewhere())), Err(StoreError::LineUnnamed));
    let line = Line { name: "aisle".to_string(), start: Point3::default(), end: Point3::default() };
    assert_eq!(check_line(&line), Ok(()));
    assert_eq!(StoreError::LineDefault.message(), "Line has default values");
    assert_eq!(StoreError::LineUnnamed.message(), "Line has no name");
}

#[test]
fn the_store_takes_no_curve_that_was_never_filled_in() {
    assert_eq!(check_bezier(&Bezier::default()), Err(StoreError::BezierDefault));
    assert_eq!(
        check_bezier(&Bezier::new(Point3::default(), somewhere(), Point3::default())),
        Ok(())
    );
    assert_eq!(check_cubic_bezier(&CubicBezier::default()), Err(StoreError::CubicBezierDefault));
    let mut curve = CubicBezier::default();
    curve.handle_2 = somewhere();
    assert_eq!(check_cubic_bezier(&curve), Ok(()));
    assert_eq!(StoreError::BezierDefault.message(), "Bezier curve has default values");
    assert_eq!(
        StoreError::CubicBezierDefault.message(),
        "Cubic bezier curve has default values"
    );
}

#[test]
fn the_store_offers_lines_before_curves() {
    let line = |name: &str| Line { name: name.to_string(), start: Point3::default(), end: somewhere() };
    let curve = |name: &str| {
        Bezier::with_name(name.to_string(), Point3::default(), somewhere(), somewhere())
    };
    let cubic = |name: &str| CubicBezier {
        name: name.to_string(),
        start: Point3::default(),
        end: somewhere(),
        handle_1: somewhere(),
        handle_2: Point3::default(),
    };

    let paths = get_paths(
        vec![line("l1"), line("l2")],
        vec![curve("b1")],
        vec![cubic("c1"), cubic("c2")],
    );

    assert!(
        paths
            == vec![
                PathEnum::Line(line("l1")),
                PathEnum::Line(line("l2")),
                PathEnum::Bezier(curve("b1")),
                PathEnum::CubicBezier(cubic("c1")),
                PathEnum::CubicBezier(cubic("c2")),
            ]
    );
    assert!(get_paths(vec![], vec![], vec![]).is_empty());
}

#[test]
fn the_form_for_a_light() {
    let mut window = AddLightWindow::new();
    assert!(!window.shown);
    assert!(window.current_light.is_default());
    assert_eq!(window.check(), Err(StoreError::LightDefault));
    window.current_light.name = "spot".to_string();
    window.current_light.address = 101;
    assert_eq!(window.check(), Ok(()));
    assert_eq!(window.saved_message(), "Successfully added light spot");
    assert_eq!(
        AddLightWindow::failed_message("disk full"),
        "Failed to write light to database: disk full"
    );
}

#[test]
fn the_form_for_a_line() {
    let mut window = AddLineWindow::new();
    assert!(!window.shown);
    assert_eq!(window.check(), Err(StoreError::LineDefault));
    window.current_line.end = somewhere();
    assert_eq!(window.check(), Err(StoreError::LineUnnamed));
    window.current_line.name = "aisle".to_string();
    assert_eq!(window.check(), Ok(()));
    assert_eq!(window.saved_message(), "Successfully added a new line: aisle");
    assert_eq!(
        AddLineWindow::failed_message("disk full"),
        "Failed to write line to database: disk full"
    );
}

#[test]
fn the_form_for_a_cubic_curve() {
    let mut window = AddCubicBezierWindow::new();
    assert!(!window.shown);
    assert_eq!(window.check(), Err(StoreError::CubicBezierDefault));
    window.current_cubic_bezier.name = "arc".to_string();
    assert_eq!(window.check(), Ok(()));
    assert_eq!(window.saved_message(), "Successfully added a new cubic Bezier curve: arc");
    assert_eq!(
        AddCubicBezierWindow::failed_message("disk full"),
        "Failed to write cubic Bezier curve to database: disk full"
    );
}

#[test]
fn the_pages_of_the_preferences() {
    let window = Preferences::new();
    assert!(!window.shown);
    assert_eq!(window.preference_items.len(), 2);
    assert!(!window.preference_items[0].state);
    assert!(!window.preference_items[1].state);
    assert_eq!(
        window.preference_items[0].item,
        PreferenceItemEnum::OscPreferences(OscPreferences {
            host: ([0, 0, 0, 0], 0),
            desk: ([192, 168, 0, 0], 8000),
        })
    );
    assert_eq!(
        window.preference_items[1].item,
        PreferenceItemEnum::ThemePreferences(ThemePreferences::new())
    );
    assert_eq!(window.preference_items[0].item.name(), "\u{1F5A7} OSC");
    assert_eq!(window.preference_items[1].item.name(), "\u{2600} Theme");
    assert_eq!(OscPreferences::default().name(), "\u{1F5A7} OSC");
    assert_eq!(ThemePreferences::new().name(), "\u{2600} Theme");
}

#[test]
fn showing_the_preferences_takes_over_the_stored_addresses() {
    let stored = OscPreferences { host: ([10, 0, 0, 2], 8001), desk: ([10, 0, 0, 9], 8000) };
    let mut window = Preferences::new();
    window.preference_items[1].state = true;

    window.show(Some(stored));

    assert!(window.shown);
    assert_eq!(window.preference_items.len(), 2);
    assert_eq!(window.preference_items[0].item, PreferenceItemEnum::OscPreferences(stored));
    assert!(!window.preference_items[0].state);
    assert_eq!(
        window.preference_items[1].item,
        PreferenceItemEnum::ThemePreferences(ThemePreferences::new())
    );
    assert!(window.preference_items[1].state);

    let mut window = Preferences::new();
    window.show(None);
    assert!(window.shown);
    assert_eq!(
        window.preference_items[0].item,
        PreferenceItemEnum::OscPreferences(OscPreferences::default())
    );
}

#[test]
fn a_page_that_was_opened_just_now() {
    let mut window = Preferences::new();
    let previous = window.preference_items.clone();
    assert!(!window.is_newly_open(&previous, 0));
    window.preference_items[1].state = true;
    assert!(!window.is_newly_open(&previous, 0));
    assert!(window.is_newly_open(&previous, 1));
    assert!(!window.is_newly_open(&previous, 2));
    let previous = window.preference_items.clone();
    assert!(!window.is_newly_open(&previous, 1));
    assert!(window.is_newly_open(&vec![], 1));
}

#[test]
fn a_page_takes_over_the_stored_addresses() {
    let stored = OscPreferences { host: ([127, 0, 0, 1], 1), desk: ([127, 0, 0, 1], 2) };
    let mut addresses = OscPreferences::default();
    addresses.update(&stored);
    assert_eq!(addresses, stored);
    let mut page = PreferenceItemEnum::ThemePreferences(ThemePreferences::new());
    page.update(&stored);
    assert_eq!(page, PreferenceItemEnum::ThemePreferences(ThemePreferences::new()));
}

#[test]
fn the_pattern_for_numbers_asks_for_a_stroke_before_the_start() {
    // The pattern begins with a stroke and then asks for the start of the text, so
    // no text matches it.
    assert_eq!(is_int("12"), Some(false));
    assert_eq!(is_int("12.5"), Some(false));
    assert_eq!(is_int("/12/"), Some(false));
    assert_eq!(is_int(""), Some(false));
    assert_eq!(is_int("abc"), Some(false));
}

#[test]
fn the_number_that_a_text_field_hands_on() {
    assert_eq!(entered_number(false, Some(12)), None);
    assert_eq!(entered_number(false, None), None);
    assert_eq!(entered_number(true, Some(12)), Some(12));
    assert_eq!(entered_number(true, Some(-3)), Some(-3));
    assert_eq!(entered_number(true, None), Some(0));

    let mut number = Some(5);
    assert!(NumberInput { number: &mut number }.enter("12"));
    assert_eq!(number, None);
}
