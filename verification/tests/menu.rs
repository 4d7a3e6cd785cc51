use taskwarrior_tui::menu::{matches_query, ProfileMenuState, TaskwarriorTuiTableState};
use taskwarrior_tui::profile::ActiveProfile;

fn profile(name: &str, label: &str) -> ActiveProfile {
  ActiveProfile {
    name: name.to_string(),
    taskrc: String::new(),
    taskdata: String::new(),
    label: label.to_string(),
    color: None,
  }
}

#[test]
fn profile_menu_filters_by_name_and_label() {
  let active = profile("work", "Office");
  let mut menu = ProfileMenuState::new(active.clone(), vec![profile("personal", "Home"), active]);
  menu.search = "off".to_string();
  assert_eq!(menu.filtered_indices(), vec![1]);
  assert_eq!(menu.selected_profile().unwrap().name, "work");
}

fn three() -> ProfileMenuState {
  ProfileMenuState::new(profile("b", "Beta"), vec![profile("a", "Alpha"), profile("b", "Beta"), profile("c", "Gamma")])
}

#[test]
fn empty_search_shows_every_profile_and_search_ignores_case() {
  let mut menu = three();
  assert_eq!(menu.filtered_indices(), vec![0, 1, 2]);
  menu.search = "A".to_string();
  assert_eq!(menu.filtered_indices(), vec![0, 1, 2]);
  menu.search = "GAM".to_string();
  assert_eq!(menu.filtered_indices(), vec![2]);
  menu.search = "zz".to_string();
  assert!(menu.filtered_indices().is_empty());
}

#[test]
fn new_menu_selects_the_first_row() {
  let menu = three();
  assert_eq!(menu.table_state.current_selection(), Some(0));
  assert_eq!(menu.search, "");
  assert_eq!(menu.selected_profile().unwrap().name, "a");
}

#[test]
fn select_active_selects_the_row_of_the_active_profile() {
  let mut menu = three();
  menu.select_active();
  assert_eq!(menu.table_state.current_selection(), Some(1));
  assert_eq!(menu.selected_profile().unwrap().name, "b");
  menu.search = "gamma".to_string();
  menu.select_active();
  assert_eq!(menu.table_state.current_selection(), Some(0));
  assert_eq!(menu.selected_profile().unwrap().name, "c");
}

#[test]
fn next_and_previous_wrap_around() {
  let mut menu = three();
  menu.next();
  assert_eq!(menu.table_state.current_selection(), Some(1));
  menu.next();
  menu.next();
  assert_eq!(menu.table_state.current_selection(), Some(0));
  menu.previous();
  assert_eq!(menu.table_state.current_selection(), Some(2));
  menu.next();
  assert_eq!(menu.table_state.current_selection(), Some(0));
}

#[test]
fn previous_from_no_selection_selects_the_last_row() {
  let mut menu = three();
  menu.table_state.select(None);
  menu.previous();
  assert_eq!(menu.table_state.current_selection(), Some(2));
}

#[test]
fn moving_with_nothing_shown_clears_the_selection() {
  let mut menu = three();
  menu.select_active();
  menu.search = "nothing".to_string();
  menu.next();
  assert_eq!(menu.table_state.current_selection(), None);
  menu.table_state.select(Some(1));
  menu.previous();
  assert_eq!(menu.table_state.current_selection(), None);
  assert_eq!(menu.table_state.offset(), 0);
}

#[test]
fn selection_past_the_shown_rows_selects_nothing() {
  let mut menu = three();
  menu.table_state.select(Some(5));
  assert!(menu.selected_profile().is_none());
  menu.previous();
  assert_eq!(menu.table_state.current_selection(), Some(4));
}

#[test]
fn table_state_starts_empty() {
  let state = TaskwarriorTuiTableState::default();
  assert_eq!(state.current_selection(), Some(0));
  assert_eq!(state.offset(), 0);
}

#[test]
fn query_matches_name_or_label() {
  assert!(matches_query("work", "office", ""));
  assert!(matches_query("work", "office", "ork"));
  assert!(matches_query("work", "office", "ffi"));
  assert!(!matches_query("work", "office", "home"));
  assert!(!matches_query("work", "office", "workx"));
}

#[test]
fn search_lowercases_non_ascii_text() {
  let mut menu = ProfileMenuState::new(profile("a", "ÉCOLE"), vec![profile("a", "ÉCOLE"), profile("b", "Bureau")]);
  menu.search = "éco".to_string();
  assert_eq!(menu.filtered_indices(), vec![0]);
}

#[test]
fn empty_search_shows_every_profile_in_order() {
  let menu = three();
  assert_eq!(menu.filtered_indices(), vec![0, 1, 2]);
  let none = ProfileMenuState::new(profile("a", "A"), vec![]);
  assert!(none.filtered_indices().is_empty());
}

#[test]
fn moving_with_nothing_shown_ignores_the_selected_row() {
  let mut menu = three();
  menu.search = "nothing".to_string();
  menu.table_state.select(Some(usize::MAX));
  menu.next();
  assert_eq!(menu.table_state.current_selection(), None);
}
