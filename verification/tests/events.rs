use hex_painter::events::{
    drain_events, flush_click_events_system, flush_tile_label_toggle_queue,
    handle_toggle_tile_labels_event, on_hex_selected, set_show_tile_labels, set_tool,
    toggle_tile_labels_system, EventBridge, HexSelectedEvent, LabelVisibility, SelectedHex,
    ShowTileLabels, ToggleTileLabelsEvent,
};
use hex_painter::tags::AssetTag;

#[test]
fn commands_are_applied_in_order_and_the_flag_flips_once() {
    let mut bridge = EventBridge::new();
    set_tool(&mut bridge, "Mountain Peak, Rocky");
    set_tool(&mut bridge, "bogus");
    set_show_tile_labels(&mut bridge, true);
    let mut selected = SelectedHex(AssetTag::Blank);
    let mut show = ShowTileLabels(false);
    drain_events(&mut bridge, &mut selected, &mut show);
    assert_eq!(selected.0, AssetTag::Unresolved);
    assert!(show.0);
}

#[test]
fn each_selection_is_resolved_on_its_own() {
    let mut selected = SelectedHex(AssetTag::Blank);
    on_hex_selected(&vec![HexSelectedEvent(String::from("Mountain Peak, Rocky"))], &mut selected);
    assert_eq!(selected.0, AssetTag::MountainPeakRocky);
    on_hex_selected(&vec![HexSelectedEvent(String::from("bogus"))], &mut selected);
    assert_eq!(selected.0, AssetTag::Unresolved);
}

#[test]
fn last_selection_stays_in_force() {
    let mut bridge = EventBridge::new();
    set_tool(&mut bridge, "bogus");
    set_tool(&mut bridge, "Snow Field");
    set_tool(&mut bridge, "hills, desert");
    let mut selected = SelectedHex(AssetTag::Outline);
    let mut show = ShowTileLabels(true);
    drain_events(&mut bridge, &mut selected, &mut show);
    assert_eq!(selected.0, AssetTag::HillsDesert);
    assert!(show.0);
}

#[test]
fn drained_commands_are_not_applied_again() {
    let mut bridge = EventBridge::new();
    set_tool(&mut bridge, "ocean waves");
    set_show_tile_labels(&mut bridge, false);
    let mut selected = SelectedHex(AssetTag::Blank);
    let mut show = ShowTileLabels(false);
    drain_events(&mut bridge, &mut selected, &mut show);
    assert_eq!(selected.0, AssetTag::OceanWaves);
    assert!(show.0);
    selected.0 = AssetTag::Blank;
    drain_events(&mut bridge, &mut selected, &mut show);
    assert_eq!(selected.0, AssetTag::Blank);
    assert!(show.0);
    assert!(flush_click_events_system(&mut bridge).is_empty());
    assert!(flush_tile_label_toggle_queue(&mut bridge).is_empty());
}

#[test]
fn nothing_waiting_changes_nothing() {
    let mut bridge = EventBridge::new();
    let mut selected = SelectedHex(AssetTag::RuinLush);
    let mut show = ShowTileLabels(true);
    drain_events(&mut bridge, &mut selected, &mut show);
    assert_eq!(selected.0, AssetTag::RuinLush);
    assert!(show.0);
}

#[test]
fn tool_selections_leave_in_the_order_they_came() {
    let mut bridge = EventBridge::new();
    set_tool(&mut bridge, "first");
    set_tool(&mut bridge, "Second");
    set_tool(&mut bridge, "third");
    let events = flush_click_events_system(&mut bridge);
    let names: Vec<&str> = events.iter().map(|e| e.0.as_str()).collect();
    assert_eq!(names, vec!["first", "Second", "third"]);
    assert!(flush_click_events_system(&mut bridge).is_empty());
}

#[test]
fn queues_are_independent() {
    let mut bridge = EventBridge::new();
    set_tool(&mut bridge, "outline");
    set_show_tile_labels(&mut bridge, true);
    set_show_tile_labels(&mut bridge, true);
    assert_eq!(flush_tile_label_toggle_queue(&mut bridge).len(), 2);
    assert_eq!(flush_tile_label_toggle_queue(&mut bridge).len(), 0);
    assert_eq!(flush_click_events_system(&mut bridge).len(), 1);
}

#[test]
fn each_toggle_flips_the_flag() {
    let mut show = ShowTileLabels(false);
    handle_toggle_tile_labels_event(&vec![], &mut show);
    assert!(!show.0);
    handle_toggle_tile_labels_event(&vec![ToggleTileLabelsEvent], &mut show);
    assert!(show.0);
    handle_toggle_tile_labels_event(&vec![ToggleTileLabelsEvent, ToggleTileLabelsEvent], &mut show);
    assert!(show.0);
    handle_toggle_tile_labels_event(
        &vec![ToggleTileLabelsEvent, ToggleTileLabelsEvent, ToggleTileLabelsEvent],
        &mut show,
    );
    assert!(!show.0);
}

#[test]
fn toggle_ignores_the_submitted_value() {
    let mut bridge = EventBridge::new();
    set_show_tile_labels(&mut bridge, false);
    let mut selected = SelectedHex(AssetTag::Blank);
    let mut show = ShowTileLabels(false);
    drain_events(&mut bridge, &mut selected, &mut show);
    assert!(show.0);
}

#[test]
fn labels_are_drawn_as_the_flag_says() {
    assert_eq!(toggle_tile_labels_system(&ShowTileLabels(true)), LabelVisibility::Visible);
    assert_eq!(toggle_tile_labels_system(&ShowTileLabels(false)), LabelVisibility::Hidden);
}

#[test]
fn labels_start_hidden() {
    assert!(!ShowTileLabels::default().0);
    assert_eq!(toggle_tile_labels_system(&ShowTileLabels::default()), LabelVisibility::Hidden);
}
