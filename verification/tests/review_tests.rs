use big_screen_launcher::i18n::AppLanguageSetting;
use big_screen_launcher::input::buttons::Buttons;
use big_screen_launcher::input::xinput::aggregate_state;
use big_screen_launcher::input::{InputController, InputToken};
use big_screen_launcher::epic::load_last_played_map;
use big_screen_launcher::input_flow::{
    achievement_selection_moved, background_send_step, clears_revealed_hidden, launch_press_action,
    BackgroundSendStep, LaunchPressAction,
};
use big_screen_launcher::cover::{best_scored, exe_candidate_score};
use big_screen_launcher::epic::nonnegative_seconds;
use big_screen_launcher::game::{record_for_game, sort_games_by_last_played, Game, GameSource};
use big_screen_launcher::steam_scan::acf_value;
use big_screen_launcher::xbox::{
    application_entry, application_from_captures, display_name_from_captures,
    first_manifest_application, identity_name_from_captures,
};

fn named(name: &str, path: &str, last_played: u64) -> Game {
    Game {
        source: GameSource::Epic,
        name: name.to_string(),
        path: path.to_string(),
        launch_target: None,
        app_id: None,
        persistent_id: None,
        last_played,
        playtime_minutes: 0,
        installed_size_bytes: None,
        dlss_version: None,
    }
}

#[test]
fn epic_times_before_the_epoch_are_dropped() {
    assert_eq!(nonnegative_seconds(Some(-1)), None);
    assert_eq!(nonnegative_seconds(Some(0)), Some(0));
    assert_eq!(nonnegative_seconds(Some(1_704_164_645)), Some(1_704_164_645));
    assert_eq!(nonnegative_seconds(None), None);
}

#[test]
fn sort_keeps_the_order_of_equal_rank_games() {
    let mut games = vec![
        named("Alpha", "C:/first", 5),
        named("Zeta", "C:/z", 9),
        named("ALPHA", "C:/second", 5),
        named("alpha", "C:/third", 5),
    ];
    sort_games_by_last_played(&mut games);
    let paths: Vec<&str> = games.iter().map(|g| g.path.as_str()).collect();
    assert_eq!(paths, vec!["C:/z", "C:/first", "C:/second", "C:/third"]);
}

#[test]
fn recording_a_time_leaves_other_keys() {
    let mut entries = vec![
        ("steam:app:1".to_string(), 10),
        ("epic:id:a".to_string(), 20),
        ("steam:app:1".to_string(), 30),
    ];
    record_for_game(&mut entries, "epic:id:a", 99);
    assert_eq!(
        entries,
        vec![
            ("steam:app:1".to_string(), 10),
            ("epic:id:a".to_string(), 99),
            ("steam:app:1".to_string(), 30),
        ]
    );
    record_for_game(&mut entries, "xbox:new", 7);
    assert_eq!(entries.len(), 4);
    assert_eq!(entries[0], ("steam:app:1".to_string(), 10));
    assert_eq!(entries[3], ("xbox:new".to_string(), 7));
}

#[test]
fn xbox_identity_from_captures() {
    assert_eq!(
        identity_name_from_captures(Some("1".to_string()), Some("  Pkg.Name ".to_string())),
        Some("Pkg.Name".to_string())
    );
    assert_eq!(identity_name_from_captures(Some("0".to_string()), Some("   ".to_string())), None);
    assert_eq!(identity_name_from_captures(Some("2".to_string()), Some("Pkg".to_string())), None);
    assert_eq!(identity_name_from_captures(None, Some("Pkg".to_string())), None);
}

#[test]
fn xbox_display_name_from_captures() {
    assert_eq!(
        display_name_from_captures(Some(" Halo ".to_string()), Some("Other".to_string())),
        Some("Halo".to_string())
    );
    assert_eq!(
        display_name_from_captures(Some("  ".to_string()), Some(" Forza ".to_string())),
        Some("Forza".to_string())
    );
    assert_eq!(display_name_from_captures(None, None), None);
}

#[test]
fn xbox_application_from_captures_and_entry() {
    assert_eq!(
        application_from_captures(Some(" App ".to_string()), Some(" game.exe ".to_string())),
        Some(("App".to_string(), Some("game.exe".to_string())))
    );
    assert_eq!(application_from_captures(None, Some("game.exe".to_string())), None);

    let app = application_entry(None, Some(("App".to_string(), None)), "Folder").expect("an entry");
    assert_eq!(app.display_name, "Folder");
    assert_eq!(app.id, "App");
    assert_eq!(app.executable, None);
    assert!(application_entry(Some("ms-resource:Name".to_string()), Some(("App".to_string(), None)), "F").is_none());
    assert!(application_entry(Some("Halo".to_string()), None, "F").is_none());

    let manifest = "<Application Executable=\"x.exe\"/><Application Id=\"Game\" Executable=\"game.exe\">";
    assert_eq!(
        first_manifest_application(manifest),
        Some(("Game".to_string(), Some("game.exe".to_string())))
    );
}

#[test]
fn steam_app_manifest_values() {
    let content = "\"AppState\"\n{\n\t\"appid\"\t\t\"730\"\n\t\"name\"\t\t\"Counter-Strike 2\"\r\n\t\"StateFlags\"\t\t\"4\"\n}\n";
    assert_eq!(acf_value(content, "appid"), Some("730".to_string()));
    assert_eq!(acf_value(content, "stateflags"), Some("4".to_string()));
    assert_eq!(acf_value(content, "name"), Some("Counter-Strike 2".to_string()));
    assert_eq!(acf_value(content, "installdir"), None);
    assert_eq!(acf_value("\"appid\" \"1\" \"2\"", "appid"), None);
}

#[test]
fn exe_scores_are_wide() {
    let score: i128 = exe_candidate_score("C:\\G\\Portal\\portal.exe", "Portal", Some(2), None);
    assert_eq!(score, 12100);
    assert_eq!(best_scored(&vec![-3, 7, 7]), Some(1));
}

#[test]
fn revealed_hidden_achievements_are_hidden_again() {
    assert!(achievement_selection_moved(true, true, 1, 2));
    assert!(!achievement_selection_moved(true, false, 1, 2));
    assert!(!clears_revealed_hidden(false, false, false, true, true, 3, 3));
    assert!(clears_revealed_hidden(false, false, false, true, true, 3, 4));
    assert!(clears_revealed_hidden(false, false, false, true, false, 3, 3));
    assert!(clears_revealed_hidden(true, false, false, false, false, 0, 0));
    assert!(clears_revealed_hidden(false, true, false, false, true, 0, 0));
    assert!(clears_revealed_hidden(false, false, true, true, true, 0, 0));
}

#[test]
fn launch_press_answers() {
    assert_eq!(launch_press_action(false, false, false, false, false), LaunchPressAction::Ignore);
    assert_eq!(launch_press_action(true, true, true, false, false), LaunchPressAction::Ignore);
    assert_eq!(launch_press_action(true, false, true, true, true), LaunchPressAction::ShowPendingFeedback);
    assert_eq!(launch_press_action(true, false, false, true, false), LaunchPressAction::Ignore);
    assert_eq!(launch_press_action(true, false, false, false, true), LaunchPressAction::QueueLaunch);
    assert_eq!(launch_press_action(true, false, false, false, false), LaunchPressAction::LaunchNow);
}

#[test]
fn background_send_waits_for_release() {
    assert_eq!(background_send_step(false, true), (BackgroundSendStep::Idle, false));
    assert_eq!(background_send_step(true, true), (BackgroundSendStep::WaitForRelease, true));
    assert_eq!(background_send_step(true, false), (BackgroundSendStep::SendAfterFrame, false));
}

#[test]
fn xinput_aggregate_carries_stick_directions() {
    assert_eq!(aggregate_state(&vec![]), None);
    let states = vec![(0u32, Buttons(Buttons::A), 20_000, 0), (1u32, Buttons(Buttons::B), 0, -20_000)];
    let s = aggregate_state(&states).expect("a connected controller");
    assert_eq!(s.buttons, Buttons(Buttons::A | Buttons::B));
    assert!(s.up);
    assert!(!s.down);
    assert!(s.left);
    assert!(!s.right);
    let still = aggregate_state(&vec![(2u32, Buttons(0), -16_000, 16_000)]).expect("a controller");
    assert!(!still.up && !still.down && !still.left && !still.right);
}

#[test]
fn last_played_lines_without_a_time_give_nothing() {
    assert!(load_last_played_map("LastPlayedGame=x:c:a,not a time\n").is_empty());
    let map = load_last_played_map("LastPlayedGame=x:c:a,2024-01-02T03:04:05Z\n");
    assert_eq!(map.len(), 1);
}

#[test]
fn remapping_keeps_the_other_entries() {
    let mut input = InputController::new();
    input.begin_remap(String::from("up"));
    assert!(input.try_remap_input_state(Some((Buttons(Buttons::A), 0))));
    input.begin_remap(String::from("down"));
    assert!(input.try_remap_input_state(Some((Buttons(Buttons::B), 0))));
    input.begin_remap(String::from("up"));
    assert!(input.try_remap_input_state(Some((Buttons(Buttons::X), 0))));
    let entries = &input.mapping().entries;
    assert_eq!(entries.len(), 2);
    assert_eq!(entries[0], (String::from("up"), InputToken::Button(Buttons(Buttons::X))));
    assert_eq!(entries[1], (String::from("down"), InputToken::Button(Buttons(Buttons::B))));

    input.clear_held();
    input.set_selection_vibration_enabled(true);
    assert_eq!(input.mapping().entries.len(), 2);
    assert!(!input.try_remap_input_state(Some((Buttons(Buttons::Y), 0))));
}

#[test]
fn language_setting_names() {
    for setting in [AppLanguageSetting::Auto, AppLanguageSetting::English, AppLanguageSetting::SimplifiedChinese] {
        assert_eq!(AppLanguageSetting::from_config_value(setting.as_config_value()), Some(setting));
    }
    assert_eq!(AppLanguageSetting::from_config_value("EN"), Some(AppLanguageSetting::English));
    assert_eq!(AppLanguageSetting::from_config_value("zh-CN"), Some(AppLanguageSetting::SimplifiedChinese));
    assert_eq!(AppLanguageSetting::from_config_value("schinese"), Some(AppLanguageSetting::SimplifiedChinese));
    assert_eq!(
        AppLanguageSetting::from_config_value("Simplified-Chinese"),
        Some(AppLanguageSetting::SimplifiedChinese)
    );
    assert_eq!(AppLanguageSetting::from_config_value("fr"), None);
}
