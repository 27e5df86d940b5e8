use mara_core::command_palette::{
    apply_palette_consumed_keys, apply_palette_key, apply_palette_text_edit,
    clamp_palette_selection, finish_palette_pick, palette_filtered_indices,
    palette_frame_step, palette_inter_row_separator_spec, palette_keyboard_pick, palette_nav_keys,
    validate_palette_items, CommandPaletteState, PaletteItem, PaletteKeyOutcome,
};
use mara_core::input::MaraKey;

#[test]
fn palette_keyboard_state_backend_moves_dismisses_and_picks() {
    let mut state = CommandPaletteState {
        open: true,
        query: String::new(),
        selected: 99,
    };

    clamp_palette_selection(&mut state, 3);
    assert_eq!(state.selected, 2);

    assert_eq!(
        apply_palette_key(&mut state, MaraKey::ArrowDown, 3),
        PaletteKeyOutcome::Continue
    );
    assert_eq!(state.selected, 2);

    assert_eq!(
        apply_palette_key(&mut state, MaraKey::ArrowUp, 3),
        PaletteKeyOutcome::Continue
    );
    assert_eq!(state.selected, 1);

    assert_eq!(
        apply_palette_key(&mut state, MaraKey::Enter, 3),
        PaletteKeyOutcome::PickSelected
    );
    assert!(state.open);

    assert_eq!(
        apply_palette_key(&mut state, MaraKey::Escape, 3),
        PaletteKeyOutcome::Dismiss
    );
    assert!(!state.open);

    let mut state = CommandPaletteState {
        open: true,
        query: String::new(),
        selected: 0,
    };
    assert_eq!(
        apply_palette_consumed_keys(
            &mut state,
            3,
            &[MaraKey::ArrowDown, MaraKey::ArrowDown, MaraKey::Enter]
        ),
        PaletteKeyOutcome::PickSelected
    );
    assert_eq!(state.selected, 2);
}

#[test]
fn palette_text_edit_backend_resets_selection_on_query_change() {
    let mut state = CommandPaletteState {
        open: true,
        query: "open".to_owned(),
        selected: 7,
    };

    apply_palette_text_edit(&mut state, true);

    assert_eq!(state.selected, 0);

    state.selected = 3;
    apply_palette_text_edit(&mut state, false);

    assert_eq!(state.selected, 3);
}

#[derive(Clone, Copy, Debug, PartialEq)]
struct PaletteSeparatorSpec {
    dash_on: f32,
    dash_off: f32,
    color: [u8; 4],
}

#[test]
fn palette_inter_row_separator_backend_omits_after_last_row() {
    let separator = Some(PaletteSeparatorSpec {
        dash_on: 4.0,
        dash_off: 2.0,
        color: [255, 255, 255, 255],
    });

    assert_eq!(palette_inter_row_separator_spec(separator, 0, 2), separator);
    assert_eq!(palette_inter_row_separator_spec(separator, 1, 2), None);
    assert_eq!(palette_inter_row_separator_spec(None::<PaletteSeparatorSpec>, 0, 2), None);
}


fn items() -> Vec<PaletteItem> {
    vec![
        PaletteItem::new("open", "Open Timeline Panel"),
        PaletteItem::new("save", "Save File").with_hint("Ctrl+S"),
        PaletteItem::new("quit", "Quit"),
    ]
}

#[test]
fn matching_is_case_insensitive_substring_or_initials() {
    assert!(mara_core::command_palette::matches("Open Timeline Panel", "timeline"));
    assert!(mara_core::command_palette::matches("Open Timeline Panel", "otp"));
    assert!(mara_core::command_palette::matches("Open-Timeline_Panel", "otp"));
    assert!(!mara_core::command_palette::matches("Open Timeline Panel", "xyz"));
    assert!(mara_core::command_palette::matches("anything", ""));
}

#[test]
fn filtering_lists_matches_in_order_and_everything_for_an_empty_query() {
    let items = items();
    assert_eq!(palette_filtered_indices(&items, ""), vec![0, 1, 2]);
    assert_eq!(palette_filtered_indices(&items, "OTP"), vec![0]);
    assert_eq!(palette_filtered_indices(&items, "e"), vec![0, 1]);
    assert_eq!(palette_filtered_indices(&items, "zzz"), Vec::<usize>::new());
}

#[test]
fn validation_rejects_blank_text_and_duplicate_ids() {
    assert!(validate_palette_items(&items()));
    assert!(validate_palette_items(&[]));
    assert!(!validate_palette_items(&[
        PaletteItem::new("open", "Open"),
        PaletteItem::new("open", "Open Again"),
    ]));
    assert!(!validate_palette_items(&[PaletteItem { id: "direct-invalid", label: "", hint: None }]));
    assert!(!validate_palette_items(&[PaletteItem { id: "x", label: "X", hint: Some("  ") }]));
}

#[test]
fn keyboard_pick_returns_the_highlighted_filtered_item() {
    let items = items();
    let filtered = palette_filtered_indices(&items, "e");
    let mut state = CommandPaletteState { open: true, query: "e".to_owned(), selected: 5 };
    let picked = palette_keyboard_pick(&mut state, &items, &filtered, &[MaraKey::Enter]);
    assert_eq!(picked, Some("save"));
    assert_eq!(state.selected, 1);

    let mut state = CommandPaletteState { open: true, query: String::new(), selected: 0 };
    let none = palette_keyboard_pick(&mut state, &items, &[], &[MaraKey::Enter]);
    assert_eq!(none, None);
    assert_eq!(state.selected, 0);

    finish_palette_pick(&mut state, None);
    assert!(state.open);
    let mut state = CommandPaletteState { open: true, query: "e".to_owned(), selected: 1 };
    finish_palette_pick(&mut state, picked);
    assert!(!state.open);
    assert!(state.query.is_empty());
    assert_eq!(state.selected, 0);
}

#[test]
fn navigation_round_trips_and_escape_dismisses() {
    let mut state = CommandPaletteState { open: true, query: String::new(), selected: 1 };
    apply_palette_consumed_keys(&mut state, 4, &[MaraKey::ArrowDown, MaraKey::ArrowUp]);
    assert_eq!(state.selected, 1);
    apply_palette_consumed_keys(&mut state, 4, &[MaraKey::ArrowUp, MaraKey::ArrowDown]);
    assert_eq!(state.selected, 1);
    apply_palette_consumed_keys(&mut state, 4, &[MaraKey::ArrowUp, MaraKey::ArrowUp, MaraKey::ArrowUp]);
    assert_eq!(state.selected, 0);
    let out = apply_palette_consumed_keys(&mut state, 4, &[MaraKey::Escape, MaraKey::ArrowDown]);
    assert_eq!(out, PaletteKeyOutcome::Continue);
    assert!(!state.open);
    assert_eq!(apply_palette_key(&mut state, MaraKey::A, 4), PaletteKeyOutcome::Continue);
    assert_eq!(state.selected, 1);
}

#[test]
fn nav_keys_are_escape_arrows_enter() {
    assert_eq!(
        palette_nav_keys(),
        [MaraKey::Escape, MaraKey::ArrowDown, MaraKey::ArrowUp, MaraKey::Enter]
    );
}

#[test]
fn state_starts_closed_and_empty() {
    let s = CommandPaletteState::new();
    assert!(!s.open);
    assert!(s.query.is_empty());
    assert_eq!(s.selected, 0);
}

#[test]
fn a_closed_palette_frame_picks_nothing_and_changes_nothing() {
    let items = items();
    let mut state = CommandPaletteState { open: false, query: "e".to_owned(), selected: 4 };
    let picked = palette_frame_step(&mut state, &items, &[MaraKey::Enter, MaraKey::ArrowDown], None, Some(0), true);
    assert_eq!(picked, None);
    assert!(!state.open);
    assert_eq!(state.query, "e");
    assert_eq!(state.selected, 4);
}

#[test]
fn an_open_palette_frame_picks_by_key_or_click_and_resets() {
    let items = items();
    let mut state = CommandPaletteState { open: true, query: "e".to_owned(), selected: 0 };
    let picked = palette_frame_step(&mut state, &items, &[MaraKey::ArrowDown, MaraKey::Enter], None, None, false);
    assert_eq!(picked, Some("save"));
    assert!(!state.open);
    assert!(state.query.is_empty());
    assert_eq!(state.selected, 0);

    let mut state = CommandPaletteState { open: true, query: "e".to_owned(), selected: 0 };
    let picked = palette_frame_step(&mut state, &items, &[MaraKey::Enter], None, Some(1), false);
    assert_eq!(picked, Some("save"), "a clicked row wins over the key pick");

    let mut state = CommandPaletteState { open: true, query: "e".to_owned(), selected: 0 };
    let picked = palette_frame_step(&mut state, &items, &[], None, Some(7), false);
    assert_eq!(picked, None, "a click past the rows picks nothing");
    assert!(state.open);
}

#[test]
fn an_open_palette_frame_edits_dismisses_and_navigates() {
    let items = items();
    let mut state = CommandPaletteState { open: true, query: String::new(), selected: 0 };
    let picked = palette_frame_step(&mut state, &items, &[MaraKey::ArrowDown], Some("qu".to_owned()), None, false);
    assert_eq!(picked, None);
    assert!(state.open);
    assert_eq!(state.query, "qu");
    assert_eq!(state.selected, 0);

    let picked = palette_frame_step(&mut state, &items, &[], None, None, true);
    assert_eq!(picked, None);
    assert!(!state.open);

    let mut state = CommandPaletteState { open: true, query: String::new(), selected: 0 };
    palette_frame_step(&mut state, &items, &[MaraKey::ArrowDown, MaraKey::ArrowDown], None, None, false);
    assert_eq!(state.selected, 2);
    palette_frame_step(&mut state, &items, &[MaraKey::Escape], None, None, false);
    assert!(!state.open);
}
