use two_mover_3_pos::fixed::Fixed;
use two_mover_3_pos::light::Light;
use two_mover_3_pos::only_one_toggleable_item::{
    can_settle_items, count_selected, first_selected, only_one_toggleable_item,
};
use two_mover_3_pos::path::line::Line;
use two_mover_3_pos::path::PathEnum;
use two_mover_3_pos::point::Point3;
use two_mover_3_pos::select_lights_modal::SelectLightsModal;
use two_mover_3_pos::select_path_modal::SelectPathModal;
use two_mover_3_pos::toggleable_item::{
    can_update_items, is_held, is_listed, update_items, ToggleableItem,
};

#[test]
fn test_radio_zero_previous_true() {
    let previous_state = vec![
        ToggleableItem::from(1),
        ToggleableItem::from(2),
        ToggleableItem::from(3),
        ToggleableItem::from(4),
    ];

    let mut current_state = previous_state.clone();

    only_one_toggleable_item(&mut current_state, previous_state.clone());
    assert_eq!(current_state.clone(), previous_state);
}

#[test]
fn test_radio_one_previous_true() {
    let mut previous_state = vec![
        ToggleableItem::from(1),
        ToggleableItem::from(2),
        ToggleableItem::from(3),
        ToggleableItem::from(4),
    ];

    previous_state[0].state = true;

    let mut current_state = previous_state.clone();

    only_one_toggleable_item(&mut current_state, previous_state.clone());
    assert_eq!(current_state.clone(), previous_state);
}

#[test]
fn test_radio_one_previous_true_two_current_true() {
    let mut previous_state = vec![
        ToggleableItem::from(1),
        ToggleableItem::from(2),
        ToggleableItem::from(3),
        ToggleableItem::from(4),
    ];

    previous_state[0].state = true;

    let mut current_state = previous_state.clone();
    current_state[2].state = true;

    let mut expected_state = vec![
        ToggleableItem::from(1),
        ToggleableItem::from(2),
        ToggleableItem::from(3),
        ToggleableItem::from(4),
    ];
    expected_state[2].state = true;

    only_one_toggleable_item(&mut current_state, previous_state.clone());
    assert_eq!(current_state.clone(), expected_state);
}

fn entries(marks: &[(i32, bool)]) -> Vec<ToggleableItem<i32>> {
    marks.iter().map(|(item, state)| ToggleableItem { item: *item, state: *state }).collect()
}

fn marks(entries: &[ToggleableItem<i32>]) -> Vec<(i32, bool)> {
    entries.iter().map(|entry| (entry.item, entry.state)).collect()
}

#[test]
fn the_newer_of_two_selected_entries_stays() {
    let previous = entries(&[(1, false), (2, true), (3, false)]);
    let mut current = entries(&[(1, true), (2, true), (3, false)]);
    assert!(can_settle_items(&current, &previous));

    only_one_toggleable_item(&mut current, previous);

    assert_eq!(marks(&current), vec![(1, true), (2, false), (3, false)]);
    assert_eq!(count_selected(&current), 1);
}

#[test]
fn two_selected_entries_stay_where_none_was_selected_before() {
    let previous = entries(&[(1, false), (2, false), (3, false)]);
    let mut current = entries(&[(1, true), (2, false), (3, true)]);
    assert!(can_settle_items(&current, &previous));

    only_one_toggleable_item(&mut current, previous);

    assert_eq!(marks(&current), vec![(1, true), (2, false), (3, true)]);
}

#[test]
fn one_selected_entry_stays_whatever_was_selected_before() {
    let previous = entries(&[(1, true), (2, true), (3, true)]);
    let mut current = entries(&[(1, false), (2, false), (3, true)]);
    assert!(can_settle_items(&current, &previous));

    only_one_toggleable_item(&mut current, previous);

    assert_eq!(marks(&current), vec![(1, false), (2, false), (3, true)]);
}

#[test]
fn what_cannot_be_settled() {
    // More than two selected entries.
    let previous = entries(&[(1, false), (2, false), (3, false)]);
    assert!(!can_settle_items(&entries(&[(1, true), (2, true), (3, true)]), &previous));
    // Nothing is selected any more, but something was.
    let previous = entries(&[(1, false), (2, true)]);
    assert!(!can_settle_items(&entries(&[(1, false), (2, false)]), &previous));
    // Two are selected, neither of them the one that was.
    let previous = entries(&[(1, true), (2, false), (3, false)]);
    assert!(!can_settle_items(&entries(&[(1, false), (2, true), (3, true)]), &previous));
    // The one that was selected lies behind the end of the list.
    let previous = entries(&[(1, false), (2, false), (3, true)]);
    assert!(!can_settle_items(&entries(&[(1, true), (2, true)]), &previous));
    // Nothing at all.
    assert!(can_settle_items(&entries(&[]), &entries(&[])));
}

#[test]
fn the_first_selected_entry() {
    assert_eq!(first_selected(&entries(&[])), None);
    assert_eq!(first_selected(&entries(&[(1, false), (2, false)])), None);
    assert_eq!(first_selected(&entries(&[(1, false), (2, true), (3, true)])), Some(1));
    assert_eq!(count_selected(&entries(&[(1, false), (2, true), (3, true)])), 2);
    assert_eq!(count_selected(&entries(&[])), 0);
}

#[test]
fn entries_are_made_unselected_and_compared_by_their_items() {
    let entry = ToggleableItem::from_item(&"lamp".to_string());
    assert_eq!(entry.item, "lamp");
    assert!(!entry.state);
    assert_eq!(entry.unwrap(), "lamp");
    let other = ToggleableItem { item: "lamp".to_string(), state: true };
    assert!(entry == other);
    assert!(entry != ToggleableItem::from("lamps".to_string()));
    let copy = other.clone();
    assert_eq!(copy.item, "lamp");
    assert!(copy.state);
}

#[test]
fn a_list_is_brought_up_to_date() {
    // 1 is gone, and 4 is new. The marks of 2 and 3 stay.
    let mut items = entries(&[(1, true), (2, false), (3, true)]);
    let fresh = vec![2, 3, 4];
    assert!(can_update_items(&items, &fresh));
    update_items(&mut items, fresh);
    assert_eq!(marks(&items), vec![(2, false), (3, true), (4, false)]);
}

#[test]
fn new_items_are_added_once_and_in_their_order() {
    let mut items = entries(&[(5, true)]);
    let fresh = vec![7, 5, 7, 6];
    assert!(can_update_items(&items, &fresh));
    update_items(&mut items, fresh);
    assert_eq!(marks(&items), vec![(5, true), (7, false), (6, false)]);

    let mut items = entries(&[]);
    update_items(&mut items, vec![1, 2]);
    assert_eq!(marks(&items), vec![(1, false), (2, false)]);
}

#[test]
fn nothing_is_added_where_the_list_is_as_long_as_the_fresh_one() {
    // 9 is new, but the list is no shorter than the fresh one.
    let mut items = entries(&[(1, false), (1, true)]);
    let fresh = vec![1, 9];
    assert!(can_update_items(&items, &fresh));
    update_items(&mut items, fresh);
    assert_eq!(marks(&items), vec![(1, false), (1, true)]);

    // Once 2 has left, the list is shorter than the fresh one, and 9 is added.
    let mut items = entries(&[(1, false), (2, true)]);
    let fresh = vec![1, 9];
    assert!(can_update_items(&items, &fresh));
    update_items(&mut items, fresh);
    assert_eq!(marks(&items), vec![(1, false), (9, false)]);

    let mut items = entries(&[(1, false), (2, true)]);
    update_items(&mut items, vec![2, 1]);
    assert_eq!(marks(&items), vec![(1, false), (2, true)]);
}

#[test]
fn an_entry_leaves_from_the_position_that_it_had_at_first() {
    // 1 leaves from position 0. 2 is looked at next, at position 1, where 3 stands by now.
    let mut items = entries(&[(1, false), (2, false), (3, true)]);
    let fresh = vec![3];
    assert!(can_update_items(&items, &fresh));
    update_items(&mut items, fresh);
    assert_eq!(marks(&items), vec![(2, false)]);
}

#[test]
fn a_list_that_cannot_be_brought_up_to_date() {
    // 1 leaves from position 0; then 2 would have to leave from position 1 of a list of one.
    assert!(!can_update_items(&entries(&[(1, false), (2, false)]), &vec![]));
    assert!(!can_update_items(&entries(&[(1, false), (2, false)]), &vec![3, 4, 5]));
    assert!(can_update_items(&entries(&[(1, false)]), &vec![]));
    assert!(can_update_items(&entries(&[(1, false), (2, false)]), &vec![1]));
    // 1 leaves from position 0; then 3 would have to leave from position 2 of a list of two.
    assert!(!can_update_items(&entries(&[(1, false), (2, false), (3, false)]), &vec![2]));
    assert!(can_update_items(&entries(&[(1, false), (2, false), (3, false)]), &vec![2, 3]));
    assert!(can_update_items(&entries(&[(1, false), (2, false), (3, false)]), &vec![1, 2]));
}

#[test]
fn membership_goes_by_equality_of_the_items() {
    assert!(is_listed(&vec![1, 2, 3], &3));
    assert!(!is_listed(&vec![1, 2, 3], &4));
    assert!(!is_listed(&vec![], &4));
    assert!(is_held(&entries(&[(1, false), (2, true)]), &2));
    assert!(!is_held(&entries(&[(1, false), (2, true)]), &3));
}

fn line(name: &str, length: i32) -> PathEnum {
    PathEnum::Line(Line {
        name: name.to_string(),
        start: Point3::default(),
        end: Point3::new(Fixed::from_int(length), Fixed::from_int(0), Fixed::from_int(0)),
    })
}

fn lamp(name: &str, address: u16) -> Light {
    Light {
        coordinates: Point3::default(),
        minimum_beam: 0,
        maximum_beam: 0,
        name: name.to_string(),
        address,
    }
}

#[test]
fn the_selected_path_is_the_first_selected_one() {
    let mut modal = SelectPathModal::new();
    assert!(!modal.shown);
    assert!(modal.toggleable_paths.is_empty());
    assert!(modal.get_selected_path().is_none());

    modal.update_paths(vec![line("a", 1), line("b", 2), line("c", 3)]);
    assert_eq!(modal.toggleable_paths.len(), 3);
    assert!(modal.get_selected_path().is_none());

    modal.toggleable_paths[2].state = true;
    assert!(modal.get_selected_path() == Some(line("c", 3)));
    modal.toggleable_paths[1].state = true;
    assert!(modal.get_selected_path() == Some(line("b", 2)));
}

#[test]
fn the_paths_keep_their_marks_when_the_list_changes() {
    let mut modal = SelectPathModal::new();
    modal.shown = true;
    modal.update_paths(vec![line("a", 1), line("b", 2)]);
    modal.toggleable_paths[1].state = true;

    modal.update_paths(vec![line("b", 2), line("c", 3), line("d", 4)]);

    assert!(modal.shown);
    assert_eq!(modal.toggleable_paths.len(), 3);
    assert!(modal.toggleable_paths[0].item == line("b", 2));
    assert!(modal.toggleable_paths[0].state);
    assert!(modal.toggleable_paths[1].item == line("c", 3));
    assert!(!modal.toggleable_paths[1].state);
    assert!(modal.toggleable_paths[2].item == line("d", 4));
    assert!(!modal.toggleable_paths[2].state);
    // A path with another name is another path.
    assert!(line("b", 2) != line("B", 2));
}

#[test]
fn the_selected_lights_come_in_the_order_of_the_list() {
    let mut modal = SelectLightsModal::new("Select lights for move");
    assert!(!modal.shown);
    assert_eq!(modal.title, "Select lights for move");
    assert!(modal.get_selected_lights().is_empty());

    modal.update_lights(vec![lamp("a", 1), lamp("b", 2), lamp("c", 3)]);
    assert!(modal.get_selected_lights().is_empty());
    modal.toggleable_lights[2].state = true;
    modal.toggleable_lights[0].state = true;
    assert!(modal.get_selected_lights() == vec![lamp("a", 1), lamp("c", 3)]);

    modal.update_lights(vec![lamp("b", 2), lamp("c", 3), lamp("d", 4), lamp("e", 5)]);
    assert_eq!(modal.title, "Select lights for move");
    assert!(modal.get_selected_lights() == vec![lamp("c", 3)]);
    assert_eq!(modal.toggleable_lights.len(), 4);
}
