use big_screen_launcher::external_apps::ExternalAppKind;
use big_screen_launcher::input::ControllerAction;
use big_screen_launcher::page_state::{PageState, PowerAction, ScreenSettingsAction};
use big_screen_launcher::power_menu::PowerMenuLayout;

fn open_settings_page(page: &mut PageState) {
    let _ = page.handle_action(&ControllerAction::Settings, 3, true, 4);
    let _ = page.handle_action(&ControllerAction::Launch, 3, true, 4);
    page.sync_screen_settings(2, 0, 3, 1, 4, 1);
}

fn power_menu_layout() -> PowerMenuLayout {
    PowerMenuLayout::new(true)
}

#[test]
fn up_on_first_achievement_returns_to_game_list() {
    let mut page = PageState::new();

    let open_result = page.handle_action(&ControllerAction::Down, 3, true, 4);
    assert!(open_result.open_achievement_panel);
    assert!(page.show_achievement_panel());
    assert_eq!(page.achievement_selected(), 0);

    let up_result = page.handle_action(&ControllerAction::Up, 3, true, 4);
    assert!(!up_result.open_achievement_panel);
    assert!(!up_result.selected_changed);
    assert!(!page.show_achievement_panel());
    assert_eq!(page.achievement_selected(), 0);
}

#[test]
fn game_library_menu_details_opens_achievement_page_above_library() {
    let mut page = PageState::new();
    page.open_game_library_page(1);
    page.open_game_menu(1, false, false, true);

    let open_result = page.handle_action_with_context(
        &ControllerAction::Launch,
        4,
        false,
        Some(1),
        3,
        true,
        4,
    );

    assert!(open_result.open_achievement_panel);
    assert!(page.show_achievement_panel());
    assert!(page.achievement_from_game_library());
    assert!(page.show_game_library_page());
    assert!(!page.show_game_menu());

    let up_result =
        page.handle_action_with_context(&ControllerAction::Up, 4, false, Some(1), 3, true, 4);

    assert!(!up_result.open_achievement_panel);
    assert!(page.show_achievement_panel());
    assert!(page.show_game_library_page());

    let close_result =
        page.handle_action_with_context(&ControllerAction::Quit, 4, false, Some(1), 3, true, 4);

    assert!(!close_result.open_achievement_panel);
    assert!(!page.show_achievement_panel());
    assert!(page.show_game_library_page());
}

#[test]
fn quit_on_main_page_does_not_close_frame() {
    let mut page = PageState::new();

    let result = page.handle_action(&ControllerAction::Quit, 3, true, 4);

    assert!(!result.close_frame);
    assert!(!page.show_power_menu());
}

#[test]
fn quit_on_later_home_item_returns_to_first_item() {
    let mut page = PageState::new();
    page.force_select(2);

    let result = page.handle_action(&ControllerAction::Quit, 4, true, 4);

    assert!(result.selected_changed);
    assert!(!result.close_frame);
    assert_eq!(page.selected(), 0);
}

#[test]
fn up_on_main_page_selects_home_power_button() {
    let mut page = PageState::new();

    let result = page.handle_action(&ControllerAction::Up, 3, true, 4);

    assert!(!result.selected_changed);
    assert!(page.home_power_selected());
    assert!(!page.home_settings_selected());
    assert!(!page.show_settings_page());
}

#[test]
fn settings_action_selects_home_settings_button_without_opening_page() {
    let mut page = PageState::new();

    let result = page.handle_action(&ControllerAction::Settings, 3, true, 4);

    assert!(!result.launch_selected);
    assert!(page.home_settings_selected());
    assert!(!page.show_settings_page());
}

#[test]
fn left_from_home_settings_button_selects_power_button() {
    let mut page = PageState::new();
    let _ = page.handle_action(&ControllerAction::Settings, 3, true, 4);

    let result = page.handle_action(&ControllerAction::Left, 3, true, 4);

    assert!(!result.open_power_menu);
    assert!(!page.home_settings_selected());
    assert!(page.home_power_selected());
    assert!(!page.show_achievement_panel());
}

#[test]
fn quit_from_home_settings_button_returns_focus_to_game_list() {
    let mut page = PageState::new();
    let _ = page.handle_action(&ControllerAction::Settings, 3, true, 4);

    let result = page.handle_action(&ControllerAction::Quit, 3, true, 4);

    assert!(!result.close_frame);
    assert!(!page.home_settings_selected());
    assert!(!page.show_settings_page());
}

#[test]
fn launch_from_home_settings_button_opens_settings_page() {
    let mut page = PageState::new();
    let _ = page.handle_action(&ControllerAction::Settings, 3, true, 4);

    let result = page.handle_action(&ControllerAction::Launch, 3, true, 4);

    assert!(!result.launch_selected);
    assert!(page.home_settings_selected());
    assert!(page.show_settings_page());
    assert!(!page.settings_in_submenu());
}

#[test]
fn launch_from_home_power_button_opens_power_menu() {
    let mut page = PageState::new();
    let _ = page.handle_action(&ControllerAction::Up, 3, true, 4);

    let result = page.handle_action(&ControllerAction::Launch, 3, true, 4);

    assert!(result.open_power_menu);
    assert!(page.home_power_selected());
    assert!(!page.show_settings_page());
}

#[test]
fn left_from_home_power_button_returns_focus_to_game_list() {
    let mut page = PageState::new();
    let _ = page.handle_action(&ControllerAction::Up, 3, true, 4);

    let result = page.handle_action(&ControllerAction::Left, 3, true, 4);

    assert!(!result.open_power_menu);
    assert!(!page.home_power_selected());
    assert!(!page.home_settings_selected());
    assert!(!page.show_achievement_panel());
}

#[test]
fn down_from_home_settings_button_returns_focus_to_game_list() {
    let mut page = PageState::new();
    let _ = page.handle_action(&ControllerAction::Settings, 3, true, 4);

    let result = page.handle_action(&ControllerAction::Down, 3, true, 4);

    assert!(!result.open_power_menu);
    assert!(!page.home_settings_selected());
    assert!(!page.home_power_selected());
}

#[test]
fn down_from_home_power_button_returns_focus_to_game_list() {
    let mut page = PageState::new();
    let _ = page.handle_action(&ControllerAction::Up, 3, true, 4);

    let result = page.handle_action(&ControllerAction::Down, 3, true, 4);

    assert!(!result.open_power_menu);
    assert!(!result.open_achievement_panel);
    assert!(!page.home_settings_selected());
    assert!(!page.home_power_selected());
    assert!(!page.show_achievement_panel());
}

#[test]
fn down_on_main_page_opens_achievement_panel_when_available() {
    let mut page = PageState::new();

    let result = page.handle_action(&ControllerAction::Down, 3, true, 4);

    assert!(!result.open_power_menu);
    assert!(result.open_achievement_panel);
    assert!(!result.selected_changed);
    assert!(!page.home_power_selected());
    assert!(!page.home_settings_selected());
    assert!(page.show_achievement_panel());
}

#[test]
fn down_on_main_page_without_achievements_keeps_focus_on_game_list() {
    let mut page = PageState::new();

    let result = page.handle_action(&ControllerAction::Down, 3, false, 4);

    assert!(!result.open_power_menu);
    assert!(!result.open_achievement_panel);
    assert!(!result.selected_changed);
    assert!(!page.home_settings_selected());
    assert!(!page.home_power_selected());
    assert!(!page.show_achievement_panel());
}

#[test]
fn right_from_home_power_button_returns_to_settings_button() {
    let mut page = PageState::new();
    let _ = page.handle_action(&ControllerAction::Up, 3, true, 4);

    let result = page.handle_action(&ControllerAction::Right, 3, true, 4);

    assert!(!result.open_power_menu);
    assert!(page.home_settings_selected());
    assert!(!page.home_power_selected());
}

#[test]
fn right_from_home_settings_button_keeps_settings_selected() {
    let mut page = PageState::new();
    let _ = page.handle_action(&ControllerAction::Up, 3, true, 4);
    let _ = page.handle_action(&ControllerAction::Right, 3, true, 4);

    let result = page.handle_action(&ControllerAction::Right, 3, true, 4);

    assert!(!result.open_power_menu);
    assert!(!result.open_achievement_panel);
    assert!(page.home_settings_selected());
    assert!(!page.home_power_selected());
    assert!(!page.show_achievement_panel());
}

#[test]
fn horizontal_navigation_is_disabled_while_home_settings_button_is_selected() {
    let mut page = PageState::new();
    let _ = page.handle_action(&ControllerAction::Settings, 3, true, 4);

    let left_result = page.handle_action(&ControllerAction::Left, 3, true, 4);
    let right_result = page.handle_action(&ControllerAction::Right, 3, true, 4);

    assert!(!left_result.selected_changed);
    assert!(!right_result.selected_changed);
    assert_eq!(page.selected(), 0);
    assert!(page.home_settings_selected());
}

#[test]
fn power_menu_navigates_to_shutdown_option_with_down() {
    let mut page = PageState::new();
    page.open_power_menu(power_menu_layout());

    let _ = page.handle_action(&ControllerAction::Down, 3, true, 4);

    assert_eq!(page.power_menu_selected(), 1);
}

#[test]
fn power_menu_defaults_to_sleep_when_power_options_exist() {
    let mut page = PageState::new();
    page.open_power_menu(power_menu_layout());

    let result = page.handle_action(&ControllerAction::Launch, 3, true, 4);

    assert_eq!(result.power_action, Some(PowerAction::Sleep));
    assert_eq!(result.launch_external_app, None);
    assert!(!result.close_frame);
}

#[test]
fn left_from_sleep_keeps_selection_on_sleep() {
    let mut page = PageState::new();
    page.open_power_menu(power_menu_layout());

    let _ = page.handle_action(&ControllerAction::Left, 3, true, 4);
    let result = page.handle_action(&ControllerAction::Launch, 3, true, 4);

    assert_eq!(result.power_action, Some(PowerAction::Sleep));
    assert_eq!(result.launch_external_app, None);
}

#[test]
fn up_from_sleep_keeps_selection_on_only_row() {
    let mut page = PageState::new();
    page.open_power_menu(power_menu_layout());

    let _ = page.handle_action(&ControllerAction::Up, 3, true, 4);
    let result = page.handle_action(&ControllerAction::Launch, 3, true, 4);

    assert_eq!(result.power_action, Some(PowerAction::Sleep));
    assert_eq!(result.launch_external_app, None);
}

#[test]
fn settings_action_selects_home_settings_button_from_main_view() {
    let mut page = PageState::new();

    let result = page.handle_action(&ControllerAction::Settings, 3, true, 4);

    assert!(!result.toggle_launch_on_startup);
    assert!(page.home_settings_selected());
    assert!(!page.show_settings_page());
}

#[test]
fn force_select_keeps_open_settings_page_visible() {
    let mut page = PageState::new();

    open_settings_page(&mut page);
    let _ = page.handle_action(&ControllerAction::Down, 3, true, 4);
    let _ = page.handle_action(&ControllerAction::Launch, 3, true, 4);
    let expected_section = page.settings_section_index();
    let expected_item = page.settings_selected_item_index();

    page.force_select(2);

    assert_eq!(page.selected(), 2);
    assert!(page.show_settings_page());
    assert!(page.settings_in_submenu());
    assert_eq!(page.settings_section_index(), expected_section);
    assert_eq!(page.settings_selected_item_index(), expected_item);
}

#[test]
fn launch_in_settings_page_toggles_steam_game_detection_without_closing_page() {
    let mut page = PageState::new();

    open_settings_page(&mut page);
    let _ = page.handle_action(&ControllerAction::Launch, 3, true, 4);
    let result = page.handle_action(&ControllerAction::Launch, 3, true, 4);

    assert!(!result.toggle_launch_on_startup);
    assert!(!result.toggle_background_home_wake);
    assert!(result.toggle_detect_steam_games);
    assert!(page.show_settings_page());
}

#[test]
fn launch_on_second_system_setting_toggles_epic_game_detection() {
    let mut page = PageState::new();

    open_settings_page(&mut page);
    let _ = page.handle_action(&ControllerAction::Launch, 3, true, 4);
    let _ = page.handle_action(&ControllerAction::Down, 3, true, 4);
    let result = page.handle_action(&ControllerAction::Launch, 3, true, 4);

    assert!(!result.toggle_detect_steam_games);
    assert!(result.toggle_detect_epic_games);
    assert!(!result.toggle_detect_xbox_games);
    assert!(page.show_settings_page());
}

#[test]
fn launch_on_third_system_setting_toggles_xbox_game_detection() {
    let mut page = PageState::new();

    open_settings_page(&mut page);
    let _ = page.handle_action(&ControllerAction::Launch, 3, true, 4);
    let _ = page.handle_action(&ControllerAction::Down, 3, true, 4);
    let _ = page.handle_action(&ControllerAction::Down, 3, true, 4);
    let result = page.handle_action(&ControllerAction::Launch, 3, true, 4);

    assert!(!result.toggle_detect_steam_games);
    assert!(!result.toggle_detect_epic_games);
    assert!(result.toggle_detect_xbox_games);
    assert!(page.show_settings_page());
}

#[test]
fn launch_on_fourth_system_setting_toggles_background_home_wake() {
    let mut page = PageState::new();

    open_settings_page(&mut page);
    let _ = page.handle_action(&ControllerAction::Launch, 3, true, 4);
    let _ = page.handle_action(&ControllerAction::Down, 3, true, 4);
    let _ = page.handle_action(&ControllerAction::Down, 3, true, 4);
    let _ = page.handle_action(&ControllerAction::Down, 3, true, 4);
    let result = page.handle_action(&ControllerAction::Launch, 3, true, 4);

    assert!(!result.toggle_launch_on_startup);
    assert!(result.toggle_background_home_wake);
    assert!(!result.toggle_controller_vibration_feedback);
    assert!(page.show_settings_page());
}

#[test]
fn launch_on_fifth_system_setting_toggles_controller_vibration() {
    let mut page = PageState::new();

    open_settings_page(&mut page);
    let _ = page.handle_action(&ControllerAction::Launch, 3, true, 4);
    let _ = page.handle_action(&ControllerAction::Down, 3, true, 4);
    let _ = page.handle_action(&ControllerAction::Down, 3, true, 4);
    let _ = page.handle_action(&ControllerAction::Down, 3, true, 4);
    let _ = page.handle_action(&ControllerAction::Down, 3, true, 4);
    let result = page.handle_action(&ControllerAction::Launch, 3, true, 4);

    assert!(!result.toggle_launch_on_startup);
    assert!(!result.toggle_background_home_wake);
    assert!(result.toggle_controller_vibration_feedback);
    assert!(!result.cycle_language_setting);
    assert!(page.show_settings_page());
}

#[test]
fn launch_on_sixth_system_setting_toggles_idle_frame_rate_reduction() {
    let mut page = PageState::new();

    open_settings_page(&mut page);
    let _ = page.handle_action(&ControllerAction::Launch, 3, true, 4);
    let _ = page.handle_action(&ControllerAction::Down, 3, true, 4);
    let _ = page.handle_action(&ControllerAction::Down, 3, true, 4);
    let _ = page.handle_action(&ControllerAction::Down, 3, true, 4);
    let _ = page.handle_action(&ControllerAction::Down, 3, true, 4);
    let _ = page.handle_action(&ControllerAction::Down, 3, true, 4);
    let result = page.handle_action(&ControllerAction::Launch, 3, true, 4);

    assert!(!result.toggle_launch_on_startup);
    assert!(!result.toggle_background_home_wake);
    assert!(!result.toggle_controller_vibration_feedback);
    assert!(result.toggle_idle_frame_rate_reduction);
    assert!(page.show_settings_page());
}

#[test]
fn launch_on_seventh_system_setting_cycles_display_mode_setting() {
    let mut page = PageState::new();

    open_settings_page(&mut page);
    let _ = page.handle_action(&ControllerAction::Launch, 3, true, 4);
    let _ = page.handle_action(&ControllerAction::Down, 3, true, 4);
    let _ = page.handle_action(&ControllerAction::Down, 3, true, 4);
    let _ = page.handle_action(&ControllerAction::Down, 3, true, 4);
    let _ = page.handle_action(&ControllerAction::Down, 3, true, 4);
    let _ = page.handle_action(&ControllerAction::Down, 3, true, 4);
    let _ = page.handle_action(&ControllerAction::Down, 3, true, 4);
    let result = page.handle_action(&ControllerAction::Launch, 3, true, 4);

    assert!(!result.toggle_launch_on_startup);
    assert!(!result.toggle_background_home_wake);
    assert!(!result.toggle_controller_vibration_feedback);
    assert!(!result.toggle_idle_frame_rate_reduction);
    assert!(result.cycle_display_mode_setting);
    assert!(page.show_settings_page());
}

#[test]
fn launch_on_eighth_system_setting_cycles_language_setting() {
    let mut page = PageState::new();

    open_settings_page(&mut page);
    let _ = page.handle_action(&ControllerAction::Launch, 3, true, 4);
    let _ = page.handle_action(&ControllerAction::Down, 3, true, 4);
    let _ = page.handle_action(&ControllerAction::Down, 3, true, 4);
    let _ = page.handle_action(&ControllerAction::Down, 3, true, 4);
    let _ = page.handle_action(&ControllerAction::Down, 3, true, 4);
    let _ = page.handle_action(&ControllerAction::Down, 3, true, 4);
    let _ = page.handle_action(&ControllerAction::Down, 3, true, 4);
    let _ = page.handle_action(&ControllerAction::Down, 3, true, 4);
    let result = page.handle_action(&ControllerAction::Launch, 3, true, 4);

    assert!(!result.toggle_launch_on_startup);
    assert!(!result.toggle_background_home_wake);
    assert!(!result.toggle_controller_vibration_feedback);
    assert!(result.cycle_language_setting);
    assert!(page.show_settings_page());
}

#[test]
fn launch_on_ninth_system_setting_toggles_launch_on_startup() {
    let mut page = PageState::new();

    open_settings_page(&mut page);
    let _ = page.handle_action(&ControllerAction::Launch, 3, true, 4);
    let _ = page.handle_action(&ControllerAction::Down, 3, true, 4);
    let _ = page.handle_action(&ControllerAction::Down, 3, true, 4);
    let _ = page.handle_action(&ControllerAction::Down, 3, true, 4);
    let _ = page.handle_action(&ControllerAction::Down, 3, true, 4);
    let _ = page.handle_action(&ControllerAction::Down, 3, true, 4);
    let _ = page.handle_action(&ControllerAction::Down, 3, true, 4);
    let _ = page.handle_action(&ControllerAction::Down, 3, true, 4);
    let _ = page.handle_action(&ControllerAction::Down, 3, true, 4);
    let result = page.handle_action(&ControllerAction::Launch, 3, true, 4);

    assert!(result.toggle_launch_on_startup);
    assert!(!result.toggle_background_home_wake);
    assert!(!result.toggle_controller_vibration_feedback);
    assert!(!result.cycle_language_setting);
    assert!(page.show_settings_page());
}

#[test]
fn launch_on_close_app_entry_closes_frame() {
    let mut page = PageState::new();

    open_settings_page(&mut page);
    let _ = page.handle_action(&ControllerAction::Down, 3, true, 4);
    let _ = page.handle_action(&ControllerAction::Down, 3, true, 4);
    let _ = page.handle_action(&ControllerAction::Down, 3, true, 4);
    let result = page.handle_action(&ControllerAction::Launch, 3, true, 4);

    assert!(!result.send_app_to_background);
    assert!(result.close_frame);
    assert!(!page.show_settings_page());
}

#[test]
fn launch_on_settings_nav_does_not_trigger_content_action() {
    let mut page = PageState::new();

    open_settings_page(&mut page);
    let result = page.handle_action(&ControllerAction::Launch, 3, true, 4);

    assert!(!result.toggle_launch_on_startup);
    assert_eq!(result.screen_settings_action, None);
    assert_eq!(result.launch_external_app, None);
    assert!(page.show_settings_page());
    assert!(page.settings_in_submenu());
}

#[test]
fn right_on_settings_nav_does_not_enter_submenu() {
    let mut page = PageState::new();

    open_settings_page(&mut page);
    let result = page.handle_action(&ControllerAction::Right, 3, true, 4);

    assert!(!result.toggle_launch_on_startup);
    assert_eq!(result.screen_settings_action, None);
    assert_eq!(result.launch_external_app, None);
    assert!(page.show_settings_page());
    assert!(!page.settings_in_submenu());
}

#[test]
fn left_on_settings_nav_does_not_close_page() {
    let mut page = PageState::new();

    open_settings_page(&mut page);
    let result = page.handle_action(&ControllerAction::Left, 3, true, 4);

    assert!(!result.toggle_launch_on_startup);
    assert_eq!(result.screen_settings_action, None);
    assert_eq!(result.launch_external_app, None);
    assert!(page.show_settings_page());
    assert!(!page.settings_in_submenu());
}

#[test]
fn left_in_settings_submenu_does_not_return_to_top_level() {
    let mut page = PageState::new();

    open_settings_page(&mut page);
    let _ = page.handle_action(&ControllerAction::Launch, 3, true, 4);
    let result = page.handle_action(&ControllerAction::Left, 3, true, 4);

    assert!(!result.toggle_launch_on_startup);
    assert_eq!(result.screen_settings_action, None);
    assert_eq!(result.launch_external_app, None);
    assert!(page.show_settings_page());
    assert!(page.settings_in_submenu());
}

#[test]
fn quit_in_settings_page_closes_page() {
    let mut page = PageState::new();

    open_settings_page(&mut page);
    let result = page.handle_action(&ControllerAction::Quit, 3, true, 4);

    assert!(!result.toggle_launch_on_startup);
    assert!(!page.show_settings_page());
}

#[test]
fn quit_in_settings_submenu_returns_to_top_level() {
    let mut page = PageState::new();

    open_settings_page(&mut page);
    let _ = page.handle_action(&ControllerAction::Launch, 3, true, 4);
    let result = page.handle_action(&ControllerAction::Quit, 3, true, 4);

    assert!(!result.toggle_launch_on_startup);
    assert!(page.show_settings_page());
    assert!(!page.settings_in_submenu());
}

#[test]
fn opening_power_menu_from_settings_keeps_settings_page_visible() {
    let mut page = PageState::new();

    open_settings_page(&mut page);
    page.open_power_menu(power_menu_layout());

    assert!(page.show_settings_page());
    assert!(page.show_power_menu());
}

#[test]
fn launch_in_screen_dropdown_selects_second_resolution() {
    let mut page = PageState::new();

    open_settings_page(&mut page);
    let _ = page.handle_action(&ControllerAction::Down, 3, true, 4);
    let _ = page.handle_action(&ControllerAction::Launch, 3, true, 4);
    let open_result = page.handle_action(&ControllerAction::Launch, 3, true, 4);

    assert_eq!(open_result.screen_settings_action, None);
    assert!(page.settings_screen_resolution_dropdown_open());

    let _ = page.handle_action(&ControllerAction::Down, 3, true, 4);
    let result = page.handle_action(&ControllerAction::Launch, 3, true, 4);

    assert_eq!(
        result.screen_settings_action,
        Some(ScreenSettingsAction::SelectResolution(1))
    );
    assert!(page.show_settings_page());
}

#[test]
fn launch_in_refresh_rate_dropdown_selects_next_refresh_rate() {
    let mut page = PageState::new();

    open_settings_page(&mut page);
    let _ = page.handle_action(&ControllerAction::Down, 3, true, 4);
    let _ = page.handle_action(&ControllerAction::Launch, 3, true, 4);
    let _ = page.handle_action(&ControllerAction::Down, 3, true, 4);
    let open_result = page.handle_action(&ControllerAction::Launch, 3, true, 4);

    assert_eq!(open_result.screen_settings_action, None);
    assert!(page.settings_screen_refresh_dropdown_open());

    let _ = page.handle_action(&ControllerAction::Down, 3, true, 4);
    let result = page.handle_action(&ControllerAction::Launch, 3, true, 4);

    assert_eq!(
        result.screen_settings_action,
        Some(ScreenSettingsAction::SelectRefreshRate(2))
    );
}

#[test]
fn launch_in_scale_dropdown_selects_next_scale() {
    let mut page = PageState::new();

    open_settings_page(&mut page);
    let _ = page.handle_action(&ControllerAction::Down, 3, true, 4);
    let _ = page.handle_action(&ControllerAction::Launch, 3, true, 4);
    let _ = page.handle_action(&ControllerAction::Down, 3, true, 4);
    let _ = page.handle_action(&ControllerAction::Down, 3, true, 4);
    let open_result = page.handle_action(&ControllerAction::Launch, 3, true, 4);

    assert_eq!(open_result.screen_settings_action, None);
    assert!(page.settings_screen_scale_dropdown_open());

    let _ = page.handle_action(&ControllerAction::Down, 3, true, 4);
    let result = page.handle_action(&ControllerAction::Launch, 3, true, 4);

    assert_eq!(
        result.screen_settings_action,
        Some(ScreenSettingsAction::SelectScale(2))
    );
}

#[test]
fn apps_section_launches_nvidia_app() {
    let mut page = PageState::new();

    open_settings_page(&mut page);
    let _ = page.handle_action(&ControllerAction::Down, 3, true, 4);
    let _ = page.handle_action(&ControllerAction::Down, 3, true, 4);
    let _ = page.handle_action(&ControllerAction::Launch, 3, true, 4);
    let _ = page.handle_action(&ControllerAction::Down, 3, true, 4);
    let result = page.handle_action(&ControllerAction::Launch, 3, true, 4);

    assert_eq!(result.launch_external_app, Some(ExternalAppKind::NvidiaApp));
}

#[test]
fn power_menu_selection_stops_at_last_option() {
    let mut page = PageState::new();
    page.open_power_menu(power_menu_layout());

    let _ = page.handle_action(&ControllerAction::Down, 3, true, 4);
    let _ = page.handle_action(&ControllerAction::Down, 3, true, 4);
    let _ = page.handle_action(&ControllerAction::Down, 3, true, 4);

    assert_eq!(page.power_menu_selected(), 2);
}

#[test]
fn down_moves_power_menu_selection_to_shutdown() {
    let mut page = PageState::new();
    page.open_power_menu(power_menu_layout());

    let _ = page.handle_action(&ControllerAction::Down, 3, true, 4);

    assert_eq!(page.power_menu_selected(), 1);
}

#[test]
fn second_down_moves_power_menu_selection_to_reboot() {
    let mut page = PageState::new();
    page.open_power_menu(power_menu_layout());

    let _ = page.handle_action(&ControllerAction::Down, 3, true, 4);
    let _ = page.handle_action(&ControllerAction::Down, 3, true, 4);

    assert_eq!(page.power_menu_selected(), 2);
}

#[test]
fn up_from_reboot_returns_to_shutdown() {
    let mut page = PageState::new();
    page.open_power_menu(power_menu_layout());

    let _ = page.handle_action(&ControllerAction::Down, 3, true, 4);
    let _ = page.handle_action(&ControllerAction::Down, 3, true, 4);
    let _ = page.handle_action(&ControllerAction::Up, 3, true, 4);

    assert_eq!(page.power_menu_selected(), 1);
}

#[test]
fn launch_on_default_power_menu_option_requests_sleep() {
    let mut page = PageState::new();
    page.open_power_menu(power_menu_layout());

    let result = page.handle_action(&ControllerAction::Launch, 3, true, 4);

    assert_eq!(result.power_action, Some(PowerAction::Sleep));
    assert_eq!(result.screen_settings_action, None);
    assert!(!result.close_frame);
    assert!(!page.show_power_menu());
}

#[test]
fn launch_on_sleep_option_requests_sleep() {
    let mut page = PageState::new();
    page.open_power_menu(power_menu_layout());

    let result = page.handle_action(&ControllerAction::Launch, 3, true, 4);

    assert_eq!(result.power_action, Some(PowerAction::Sleep));
    assert_eq!(result.screen_settings_action, None);
    assert!(!result.close_frame);
    assert!(!page.show_power_menu());
}

#[test]
fn launch_on_reboot_option_requests_reboot() {
    let mut page = PageState::new();
    page.open_power_menu(power_menu_layout());
    let _ = page.handle_action(&ControllerAction::Down, 3, true, 4);
    let _ = page.handle_action(&ControllerAction::Down, 3, true, 4);

    let result = page.handle_action(&ControllerAction::Launch, 3, true, 4);

    assert_eq!(result.power_action, Some(PowerAction::Reboot));
    assert_eq!(result.screen_settings_action, None);
    assert!(!result.close_frame);
    assert!(!page.show_power_menu());
}

#[test]
fn launch_on_shutdown_option_requests_shutdown() {
    let mut page = PageState::new();
    page.open_power_menu(power_menu_layout());
    let _ = page.handle_action(&ControllerAction::Down, 3, true, 4);

    let result = page.handle_action(&ControllerAction::Launch, 3, true, 4);

    assert_eq!(result.power_action, Some(PowerAction::Shutdown));
    assert_eq!(result.screen_settings_action, None);
    assert!(!result.close_frame);
    assert!(!page.show_power_menu());
}

#[test]
fn right_from_shutdown_keeps_selection_on_shutdown() {
    let mut page = PageState::new();
    page.open_power_menu(power_menu_layout());

    let _ = page.handle_action(&ControllerAction::Down, 3, true, 4);
    let _ = page.handle_action(&ControllerAction::Right, 3, true, 4);

    assert_eq!(page.power_menu_selected(), 1);
}

#[test]
fn achievement_panel_launch_marks_hidden_reveal_action() {
    let mut page = PageState::new();
    let _ = page.handle_action(&ControllerAction::Down, 3, true, 4);

    let result = page.handle_action(&ControllerAction::Launch, 3, true, 4);

    assert!(result.reveal_hidden_achievement);
    assert!(!result.launch_selected);
}

#[test]
fn library_grid_moves_by_rows_and_columns() {
    let mut page = PageState::new();
    page.open_game_library_page(8);
    let resets = page.take_animation_resets();
    assert!(resets.game_library_page);
    let up = page.handle_action_with_context(&ControllerAction::Up, 1, true, Some(8), 20, false, 0);
    assert!(up.selected_changed);
    assert_eq!(page.game_library_selected(), 1);
    let up_again =
        page.handle_action_with_context(&ControllerAction::Up, 1, true, Some(1), 20, false, 0);
    assert!(!up_again.selected_changed);
    let down =
        page.handle_action_with_context(&ControllerAction::Down, 1, true, Some(1), 20, false, 0);
    assert!(down.selected_changed);
    assert_eq!(page.game_library_selected(), 8);
    let down_far =
        page.handle_action_with_context(&ControllerAction::Down, 1, true, Some(8), 12, false, 0);
    assert!(!down_far.selected_changed);
    let menu =
        page.handle_action_with_context(&ControllerAction::Menu, 1, true, Some(8), 12, false, 0);
    assert!(menu.open_game_menu);
    let quit =
        page.handle_action_with_context(&ControllerAction::Quit, 1, true, Some(8), 12, false, 0);
    assert!(!quit.close_frame);
    assert!(!page.show_game_library_page());
}

#[test]
fn launch_on_library_entry_opens_library_at_selected_game() {
    let mut page = PageState::new();
    page.home_settings_selected();
    let result =
        page.handle_action_with_context(&ControllerAction::Launch, 3, true, Some(5), 9, false, 0);
    assert!(!result.launch_selected);
    assert!(page.show_game_library_page());
    assert_eq!(page.game_library_selected(), 5);
}

#[test]
fn game_menu_hides_and_shows_games_on_home() {
    let mut page = PageState::new();
    page.open_game_menu(4, true, false, false);
    assert!(page.show_game_menu());
    let _ = page.handle_action(&ControllerAction::Down, 3, true, 4);
    let hide = page.handle_action(&ControllerAction::Launch, 3, true, 4);
    assert_eq!(hide.hide_game_from_home, Some(4));
    assert!(!page.show_game_menu());
    page.on_game_menu_hidden();
    assert_eq!(page.game_menu_game_index(), None);

    page.open_game_menu(6, true, true, false);
    let force_close = page.handle_action(&ControllerAction::Launch, 3, true, 4);
    assert_eq!(force_close.force_close_game_index, Some(6));

    page.open_game_menu(2, false, true, false);
    let show = page.handle_action(&ControllerAction::Launch, 3, true, 4);
    assert_eq!(show.show_game_on_home, Some(2));
}

#[test]
fn home_game_limit_dropdown_is_the_last_system_entry() {
    let mut page = PageState::new();
    open_settings_page(&mut page);
    let _ = page.handle_action(&ControllerAction::Launch, 3, true, 4);
    for _ in 0..12 {
        let _ = page.handle_action(&ControllerAction::Down, 3, true, 4);
    }
    assert_eq!(page.settings_selected_item_index(), 9);
    let open = page.handle_action(&ControllerAction::Launch, 3, true, 4);
    assert_eq!(open.select_home_game_limit, None);
    assert!(page.settings_home_game_limit_dropdown_open());
    assert_eq!(page.settings_home_game_limit_dropdown_selected_index(), 4);
    assert_eq!(page.settings_focus_key(), Some(904));
    let _ = page.handle_action(&ControllerAction::Down, 3, true, 4);
    let pick = page.handle_action(&ControllerAction::Launch, 3, true, 4);
    assert_eq!(
        pick.select_home_game_limit,
        Some(big_screen_launcher::config::HomeGameLimit::Limited(10))
    );
    assert!(!page.settings_home_game_limit_dropdown_open());
}

#[test]
fn settings_focus_keys_distinguish_sections_and_entries() {
    let mut page = PageState::new();
    assert_eq!(page.settings_focus_key(), None);
    open_settings_page(&mut page);
    assert_eq!(page.settings_focus_key(), Some(0));
    let _ = page.handle_action(&ControllerAction::Down, 3, true, 4);
    assert_eq!(page.settings_focus_key(), Some(1));
    let _ = page.handle_action(&ControllerAction::Launch, 3, true, 4);
    assert_eq!(page.settings_focus_key(), Some(20));
    let _ = page.handle_action(&ControllerAction::Launch, 3, true, 4);
    assert_eq!(page.settings_focus_key(), Some(100));
}

#[test]
fn screen_settings_sync_clamps_current_entries_and_open_dropdown() {
    let mut page = PageState::new();
    open_settings_page(&mut page);
    let _ = page.handle_action(&ControllerAction::Down, 3, true, 4);
    let _ = page.handle_action(&ControllerAction::Launch, 3, true, 4);
    let _ = page.handle_action(&ControllerAction::Down, 3, true, 4);
    let _ = page.handle_action(&ControllerAction::Launch, 3, true, 4);
    assert_eq!(page.settings_screen_dropdown_selected_index(), 1);
    page.sync_screen_settings(0, 5, 1, 9, 0, 0);
    assert_eq!(page.settings_screen_dropdown_selected_index(), 0);
}

#[test]
fn selection_updates_record_their_animation_resets() {
    let mut page = PageState::new();
    page.force_select(3);
    assert!(page.take_animation_resets().home_selection);
    assert!(!page.take_animation_resets().home_selection);
    page.relocate_selection(1);
    assert_eq!(page.selected(), 1);
    assert!(page.take_animation_resets().home_relocation);
    page.clamp_home_selection(1);
    assert_eq!(page.selected(), 0);
    page.relocate_library_selection(9);
    page.clamp_library_selection(4);
    assert_eq!(page.game_library_selected(), 3);
}

#[test]
fn power_menu_selection_returns_to_first_entry_once_hidden() {
    let mut page = PageState::new();
    page.open_power_menu(power_menu_layout());
    let _ = page.handle_action(&ControllerAction::Down, 3, true, 4);
    page.on_power_menu_hidden();
    assert_eq!(page.power_menu_selected(), 1);
    let _ = page.handle_action(&ControllerAction::Quit, 3, true, 4);
    page.on_power_menu_hidden();
    assert_eq!(page.power_menu_selected(), 0);
}

#[test]
fn home_list_moves_set_cover_direction() {
    let mut page = PageState::new();
    let right = page.handle_action(&ControllerAction::Right, 3, true, 4);
    assert!(right.selected_changed);
    assert_eq!(page.cover_nav_dir(), 1);
    let at_end = page.handle_action(&ControllerAction::Right, 2, true, 4);
    assert!(!at_end.selected_changed);
    let left = page.handle_action(&ControllerAction::Left, 3, true, 4);
    assert!(left.selected_changed);
    assert_eq!(page.cover_nav_dir(), -1);
    let menu = page.handle_action(&ControllerAction::Menu, 3, true, 4);
    assert!(menu.open_game_menu);
}
