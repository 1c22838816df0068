use big_screen_launcher::achievements::AchievementSortOrder;
use big_screen_launcher::analytics::{
    analytics_enabled, ga4_endpoint, has_proxy_scheme, parse_bool, parse_named_proxy,
    windows_proxy_address,
};
use big_screen_launcher::config::{parse_config, serialize_config, AppConfig, HomeGameLimit, PromptIconTheme, BackgroundHomeWakeMode};
use big_screen_launcher::cover::{
    achievement_icon_cache_bytes_are_valid, encode_achievement_icon_cache_bytes,
    is_library_icon_file_name,
    asset_cache_file_name, best_scored, exe_candidate_score, hero_urls, is_exe_file,
    is_logo_file_name, is_png_bytes, librarycache_asset_acceptable, logo_urls,
    merge_icon_mask_alpha, normalize_name_for_match,
};
use big_screen_launcher::details::{
    update_poll_targets, update_requested_launch, DlssState, InstallSizeState, PlaytimeState,
    SteamUpdateState,
};
use big_screen_launcher::runtime::cursor_visibility;
use big_screen_launcher::display_mode::DisplayModeSetting;
use big_screen_launcher::dlss::{best_dlss_match, dlss_cache_file_name, format_file_version, is_dlss_dll_name, WalkedFile};
use big_screen_launcher::epic::{
    game_from_manifest, is_manifest_file, last_played_candidates, last_played_key,
    load_last_played_map, normalize_windows_path, parse_last_played_entry,
    parse_last_played_timestamp, EpicManifest,
};
use big_screen_launcher::game::{
    merge_into_games, record_for_game, select_closest_to_now, sort_games_by_last_played, Game,
    GameIconKey, GameSource,
};
use big_screen_launcher::i18n::AppLanguageSetting;
use big_screen_launcher::input::{ControllerAction, ControllerBrand};
use big_screen_launcher::launch::{
    begin_launch, epic_launch_uri, launch_plan, percent_encode_uri_path, restart_launch_timeout,
    steam_client_state_log_line, tick_launch_progress, xbox_apps_folder_target,
    LaunchAttemptResult, LaunchBlockedReason, LaunchPlan, LaunchTickResult, SteamClientState,
};
use big_screen_launcher::steam_scan::{
    installed_app, is_app_manifest_file_name, keep_new_app_id, parse_u32, uninstall_key_app_id,
};
use big_screen_launcher::home_list::{
    can_open_achievement_panel, game_hidden_from_home, home_game_indices, home_items_len,
    promote_game_to_front, remap_game_index, selected_game_index, selected_home_game_index,
    set_home_hidden,
};
use big_screen_launcher::launch_notice::{
    launch_notice_visible_duration_ms, new_launch_notice, press_on_launch_notice,
    queued_launch_wait_ms, should_queue_launch_feedback, steam_start_requested,
    steam_state_poll_due, update_launch_notice, LaunchNoticeKind, LaunchNoticeStage, NoticeOutcome,
};
use image::ImageEncoder;
use big_screen_launcher::xbox::{
    candidate_packages, has_gaming_app, is_xbox_game_package,
    capture_manifest_display_name, gamingroot_target_dir, is_manifest_resource_reference,
    load_application_entry, load_config_identity_name, manifest_has_xbox_game_hint,
};

fn game(source: GameSource, name: &str, path: &str, app_id: Option<u32>, last_played: u64) -> Game {
    Game {
        source,
        name: name.to_string(),
        path: path.to_string(),
        launch_target: None,
        app_id,
        persistent_id: None,
        last_played,
        playtime_minutes: 0,
        installed_size_bytes: None,
        dlss_version: None,
    }
}

// ---- settings text ----

#[test]
fn settings_text_reads_back_every_setting() {
    let mut config = AppConfig::default();
    config.hint_icon_theme = PromptIconTheme::PlayStation;
    config.language = AppLanguageSetting::SimplifiedChinese;
    config.display_mode_setting = DisplayModeSetting::Windowed;
    config.home_game_limit = HomeGameLimit::Limited(12);
    config.idle_frame_rate_reduction_enabled = false;
    config.background_home_wake_mode = BackgroundHomeWakeMode::LongPress;
    config.controller_vibration_enabled = true;
    config.game_scan_options.detect_epic_games = false;
    config.steam_client_state_logging_enabled = true;
    let read = parse_config(&serialize_config(config));
    assert_eq!(read, config);
}

#[test]
fn settings_text_clamps_home_game_limit() {
    let mut config = AppConfig::default();
    config.home_game_limit = HomeGameLimit::Limited(30);
    let read = parse_config(&serialize_config(config));
    assert_eq!(read.home_game_limit, HomeGameLimit::Limited(20));
    config.home_game_limit = HomeGameLimit::Unlimited;
    let read = parse_config(&serialize_config(config));
    assert_eq!(read.home_game_limit, HomeGameLimit::Unlimited);
}

#[test]
fn settings_text_has_three_sections() {
    let text = serialize_config(AppConfig::default());
    assert!(text.starts_with("[ui]\nhint_icon_theme=xbox\n"));
    assert!(text.contains("\n\n[games]\ndetect_steam_games=true\n"));
    assert!(text.ends_with("\n\n[debug]\nsteam_client_state_logging_enabled=false\n"));
}

// ---- controller brand and achievement order ----

#[test]
fn controller_brand_reads_short_names() {
    assert_eq!(ControllerBrand::from_ini_value(" PS5 "), Some(ControllerBrand::PlayStation));
    assert_eq!(ControllerBrand::from_ini_value("DualSense"), Some(ControllerBrand::PlayStation));
    assert_eq!(ControllerBrand::from_ini_value("xbox"), Some(ControllerBrand::Xbox));
    assert_eq!(ControllerBrand::from_ini_value("switch"), None);
    assert_eq!(ControllerBrand::PlayStation.as_ini_value(), "playstation");
    assert_eq!(
        ControllerBrand::from_ini_value(ControllerBrand::Xbox.as_ini_value()),
        Some(ControllerBrand::Xbox)
    );
}

#[test]
fn achievement_order_toggles_back() {
    let order = AchievementSortOrder::UnlockRateDesc;
    assert!(order.is_descending());
    assert!(!order.toggled().is_descending());
    assert_eq!(order.toggled().toggled(), order);
}

// ---- launching ----

#[test]
fn percent_encoding_keeps_unreserved_bytes() {
    assert_eq!(percent_encode_uri_path("C:\\Games\\My Game"), "C%3A%5CGames%5CMy%20Game");
    assert_eq!(percent_encode_uri_path("a-b_c.d~e"), "a-b_c.d~e");
    assert_eq!(percent_encode_uri_path("é"), "%C3%A9");
}

#[test]
fn epic_uri_and_xbox_target() {
    assert_eq!(
        epic_launch_uri("D:/Epic/Fortnite"),
        "com.epicgames.launcher://apps/D%3A%2FEpic%2FFortnite?action=launch&silent=true"
    );
    assert_eq!(xbox_apps_folder_target("Fam_123", "App"), "shell:AppsFolder\\Fam_123!App");
}

#[test]
fn launch_plan_by_source() {
    let steam = game(GameSource::Steam, "Portal", "C:\\Portal", Some(400), 0);
    assert!(matches!(launch_plan(&steam), LaunchPlan::SteamApp(400)));
    let mut direct = game(GameSource::Steam, "Mod", "C:\\Mod", None, 0);
    direct.launch_target = Some("C:\\Mod\\mod.exe".to_string());
    match launch_plan(&direct) {
        LaunchPlan::Direct { program, install_dir } => {
            assert_eq!(program, "C:\\Mod\\mod.exe");
            assert_eq!(install_dir, "C:\\Mod");
        }
        _ => panic!("expected a direct launch"),
    }
    let epic = game(GameSource::Epic, "Fortnite", "D:/Epic/Fortnite", None, 0);
    match launch_plan(&epic) {
        LaunchPlan::Epic { install_dir, uri } => {
            assert_eq!(install_dir, "D:/Epic/Fortnite");
            assert!(uri.starts_with("com.epicgames.launcher://apps/D%3A%2F"));
        }
        _ => panic!("expected an Epic launch"),
    }
}

#[test]
fn launch_attempts_and_timeout() {
    let g = game(GameSource::Steam, "Portal", "C:\\Portal", Some(400), 0);
    match begin_launch(3, &g, true, None, 1000) {
        LaunchAttemptResult::Started(mut state) => {
            assert_eq!(state.game_index, 3);
            assert_eq!(state.game_name, "Portal");
            assert_eq!(state.launch_steam_app_id, Some(400));
            assert!(matches!(tick_launch_progress(&state, false, 5999), LaunchTickResult::Pending));
            assert!(matches!(tick_launch_progress(&state, false, 6000), LaunchTickResult::TimedOut));
            assert!(matches!(tick_launch_progress(&state, false, 10), LaunchTickResult::Pending));
            restart_launch_timeout(&mut state, 6000);
            assert!(matches!(tick_launch_progress(&state, false, 6000), LaunchTickResult::Pending));
        }
        _ => panic!("expected a started launch"),
    }
    assert!(matches!(
        begin_launch(0, &g, false, Some(LaunchBlockedReason::SteamClientLoading), 0),
        LaunchAttemptResult::Blocked(LaunchBlockedReason::SteamClientLoading)
    ));
    assert!(matches!(begin_launch(0, &g, false, None, 0), LaunchAttemptResult::Failed));
}

#[test]
fn steam_client_state_log_line_text() {
    assert_eq!(
        steam_client_state_log_line(SteamClientState::Loading, 250),
        "[steam_client_state] state=Loading elapsed_ms=250\n"
    );
}

// ---- Epic ----

#[test]
fn epic_manifest_files_and_keys() {
    assert!(is_manifest_file("C:\\ProgramData\\Epic\\Manifests\\abc.item"));
    assert!(is_manifest_file("C:/m/abc.manifest"));
    assert!(!is_manifest_file("C:\\m\\.item"));
    assert!(!is_manifest_file("C:\\m\\abc.txt"));
    assert_eq!(last_played_key("cat", "app"), "cat:app");
    assert_eq!(normalize_windows_path("C:/Games/Foo"), "c:\\games\\foo");
}

#[test]
fn epic_last_played_lines() {
    let line: Vec<char> = "LastPlayedGame=xyz:cat1:app1,2024-01-02T03:04:05Z".chars().collect();
    assert_eq!(
        parse_last_played_entry(&line),
        Some(("cat1:app1".to_string(), "2024-01-02T03:04:05Z".to_string()))
    );
    let content = "[x]\nLastPlayedGame=a:b:c,t1\nfoo\nLastPlayedGame=bad,t\n";
    assert_eq!(last_played_candidates(content), vec![("b:c".to_string(), "t1".to_string())]);
}

#[test]
fn epic_last_played_times() {
    assert_eq!(parse_last_played_timestamp("not a time"), None);
    let t = parse_last_played_timestamp(" 2024-01-02T03:04:05+00:00 ").expect("a valid time");
    let utc: i64 = 1_704_164_645;
    assert!((t as i64 - utc).abs() <= 15 * 3600);
    let map = load_last_played_map(
        "LastPlayedGame=x:c:a,2024-01-02T03:04:05Z\nLastPlayedGame=x:c:a,2023-01-02T03:04:05Z\n",
    );
    assert_eq!(map.len(), 1);
    assert_eq!(map[0].0, "c:a");
}

#[test]
fn epic_game_from_manifest() {
    let manifest = EpicManifest {
        display_name: Some("  Fortnite ".to_string()),
        install_location: Some("D:/Epic/Fortnite".to_string()),
        launch_executable: Some("FortniteLauncher.exe".to_string()),
        app_name: Some("Fortnite".to_string()),
        catalog_item_id: Some("cat".to_string()),
    };
    let times = vec![("cat:Fortnite".to_string(), 77u64)];
    let g = game_from_manifest(&manifest, "D:/Epic/Fortnite/FortniteLauncher.exe".to_string(), &times, None)
        .expect("a game");
    assert_eq!(g.name, "Fortnite");
    assert_eq!(g.path, "D:/Epic/Fortnite");
    assert_eq!(g.last_played, 77);
    assert_eq!(g.persistent_id.as_deref(), Some("Fortnite"));
    let blank = EpicManifest { display_name: Some("  ".to_string()), ..manifest };
    assert!(game_from_manifest(&blank, String::new(), &times, None).is_none());
}

// ---- Xbox ----

#[test]
fn xbox_manifest_texts() {
    assert!(manifest_has_xbox_game_hint("<Protocol Name=\"ms-xbl-1234\" />"));
    assert!(!manifest_has_xbox_game_hint("<Package />"));
    assert!(is_manifest_resource_reference("MS-RESOURCE:AppName"));
    assert!(!is_manifest_resource_reference("Halo"));
    assert_eq!(
        capture_manifest_display_name("<DisplayName> Halo </DisplayName>"),
        Some("Halo".to_string())
    );
    assert_eq!(
        capture_manifest_display_name("<VisualElements DisplayName=\"Forza\" />"),
        Some("Forza".to_string())
    );
}

#[test]
fn xbox_config_identity() {
    assert_eq!(
        load_config_identity_name("<Game configVersion=\"1\"><Identity Name=\"Pkg.Name\" /></Game>"),
        Some("Pkg.Name".to_string())
    );
    assert_eq!(
        load_config_identity_name("<Game configVersion=\"2\"><Identity Name=\"Pkg.Name\" /></Game>"),
        None
    );
}

#[test]
fn xbox_gamingroot_and_application() {
    let mut bytes = b"RGBX".to_vec();
    bytes.push(1);
    for c in b"XboxGames" {
        bytes.push(*c);
        bytes.push(0);
    }
    assert_eq!(gamingroot_target_dir("E:\\", &bytes), Some("E:\\XboxGames".to_string()));
    assert_eq!(gamingroot_target_dir("E:\\", b"ABCD\0X"), None);
    let manifest = "<Package><DisplayName>Halo</DisplayName><Applications>\
        <Application Id=\" Game \" Executable=\"halo.exe\"></Application></Applications></Package>";
    let app = load_application_entry(manifest, "Folder").expect("an application");
    assert_eq!(app.id, "Game");
    assert_eq!(app.display_name, "Halo");
    assert_eq!(app.executable.as_deref(), Some("halo.exe"));
    let unnamed = "<Application Id=\"App\">";
    assert_eq!(load_application_entry(unnamed, "Folder").expect("an application").display_name, "Folder");
    let resource = "<DisplayName>ms-resource:Title</DisplayName><Application Id=\"App\">";
    assert!(load_application_entry(resource, "Folder").is_none());
}

// ---- DLSS ----

#[test]
fn dlss_versions_and_files() {
    assert_eq!(format_file_version((3 << 16) | 7, 10 << 16), "3.7.10");
    assert_eq!(format_file_version(2 << 16, 0), "2.0");
    assert_eq!(format_file_version((1 << 16) | 2, (3 << 16) | 4), "1.2.3.4");
    assert!(is_dlss_dll_name("NVNGX_DLSS.DLL"));
    assert!(!is_dlss_dll_name("nvngx.dll"));
    let files = vec![
        WalkedFile { depth: 3, file_name: "nvngx_dlss.dll".to_string(), path: "a".to_string(), is_file: true },
        WalkedFile { depth: 1, file_name: "nvngx_dlss.dll".to_string(), path: "b".to_string(), is_file: false },
        WalkedFile { depth: 2, file_name: "sl.dlss.dll".to_string(), path: "c".to_string(), is_file: true },
        WalkedFile { depth: 2, file_name: "nvngx_dlssg.dll".to_string(), path: "d".to_string(), is_file: true },
    ];
    assert_eq!(best_dlss_match(&files), Some(2));
    assert_eq!(dlss_cache_file_name(42), "42.txt");
}

// ---- analytics settings ----

#[test]
fn analytics_switches_and_proxies() {
    assert_eq!(parse_bool(" Yes "), Some(true));
    assert_eq!(parse_bool("OFF"), Some(false));
    assert_eq!(parse_bool("maybe"), None);
    assert!(analytics_enabled(None));
    assert!(!analytics_enabled(Some("0")));
    assert!(has_proxy_scheme("socks5://host:1080"));
    assert!(!has_proxy_scheme("host:1080"));
    assert_eq!(parse_named_proxy("http=a:80;https=b:443", "HTTPS"), Some("http://b:443".to_string()));
    assert_eq!(windows_proxy_address(" proxy:8080 "), Some("http://proxy:8080".to_string()));
    assert_eq!(windows_proxy_address("http=a:80;https=b:443"), Some("http://b:443".to_string()));
    assert_eq!(windows_proxy_address("   "), None);
    assert_eq!(
        ga4_endpoint("G-1", "sec"),
        "https://www.google-analytics.com/mp/collect?measurement_id=G-1&api_secret=sec"
    );
}

// ---- artwork and icons ----

#[test]
fn cover_assets() {
    let png = [0x89u8, 0x50, 0x4e, 0x47, 0x0d, 0x0a, 0x1a, 0x0a, 0];
    assert!(is_png_bytes(&png));
    assert!(!is_png_bytes(&png[1..]));
    assert!(librarycache_asset_acceptable(&png, 9, true));
    assert!(!librarycache_asset_acceptable(&png, 10, false));
    assert!(is_logo_file_name("Library_LOGO.PNG"));
    assert!(!is_logo_file_name("logo.jpg"));
    assert_eq!(asset_cache_file_name(10, true), "10_logo.png");
    assert_eq!(asset_cache_file_name(10, false), "10_hero.jpg");
    assert_eq!(
        hero_urls(10)[0],
        "https://shared.akamai.steamstatic.com/store_item_assets/steam/apps/10/library_hero.jpg"
    );
    assert_eq!(logo_urls(10)[3], "https://steamcdn-a.akamaihd.net/steam/apps/10/logo.png");
}

#[test]
fn icon_mask_fills_missing_alpha() {
    let mut rgba = vec![1, 2, 3, 0, 4, 5, 6, 0];
    let mask = vec![255, 0, 0, 255, 0, 0, 0, 255];
    merge_icon_mask_alpha(&mut rgba, &mask);
    assert_eq!(rgba, vec![1, 2, 3, 0, 4, 5, 6, 255]);
    let mut with_alpha = vec![1, 2, 3, 9];
    merge_icon_mask_alpha(&mut with_alpha, &vec![0, 0, 0, 0]);
    assert_eq!(with_alpha, vec![1, 2, 3, 9]);
}

#[test]
fn executable_scores() {
    assert_eq!(normalize_name_for_match("  Half-Life 2: Episode One "), "half life 2 episode one");
    assert_eq!(
        exe_candidate_score("C:\\Games\\Half-Life 2\\hl2.exe", "Half-Life 2", Some(1), Some(10 * 1048576)),
        1950
    );
    assert_eq!(exe_candidate_score("C:\\G\\Portal\\portal.exe", "Portal", Some(2), None), 12100);
    assert_eq!(exe_candidate_score("C:\\G\\Portal\\unins000.exe", "Portal", Some(1), None), -750);
    assert_eq!(best_scored(&vec![5, 9, 9, 1]), Some(1));
    assert_eq!(best_scored(&vec![]), None);
    assert!(is_exe_file("C:\\a\\Game.EXE"));
    assert!(!is_exe_file("C:\\a\\.exe"));
    assert!(!is_exe_file("C:\\a\\game.dll"));
}

// ---- game list ----

#[test]
fn game_keys_and_badges() {
    assert_eq!(GameSource::Epic.badge_label(), "EPIC");
    let g = game(GameSource::Steam, "Portal", "C:\\Portal", Some(400), 0);
    assert_eq!(g.persistent_key(), "steam:app:400");
    assert_eq!(g.icon_key(), GameIconKey::AppId(400));
    let mut e = game(GameSource::Epic, "Fortnite", "D:\\Epic\\Fortnite", None, 0);
    assert_eq!(e.persistent_key(), "epic:path:d:/epic/fortnite");
    e.persistent_id = Some(" FortniteApp ".to_string());
    assert_eq!(e.persistent_key(), "epic:id:fortniteapp");
    assert_eq!(e.icon_key(), GameIconKey::InstallPath("D:\\Epic\\Fortnite".to_string()));
}

#[test]
fn closest_last_played_time() {
    assert_eq!(select_closest_to_now(100, 0, 50), 50);
    assert_eq!(select_closest_to_now(100, 90, 0), 90);
    assert_eq!(select_closest_to_now(100, 90, 105), 105);
    assert_eq!(select_closest_to_now(100, 95, 105), 105);
    assert_eq!(select_closest_to_now(100, 20, 70), 70);
}

#[test]
fn recorded_time_is_merged_into_games() {
    let mut entries: Vec<(String, u64)> = Vec::new();
    record_for_game(&mut entries, "steam:app:400", 500);
    record_for_game(&mut entries, "steam:app:400", 900);
    record_for_game(&mut entries, "epic:id:x", 10);
    assert_eq!(entries, vec![("steam:app:400".to_string(), 900), ("epic:id:x".to_string(), 10)]);
    let mut games = vec![
        game(GameSource::Steam, "Portal", "C:\\Portal", Some(400), 0),
        game(GameSource::Steam, "Other", "C:\\Other", Some(1), 300),
    ];
    merge_into_games(&mut games, &entries, 1000);
    assert_eq!(games[0].last_played, 900);
    assert_eq!(games[1].last_played, 300);
}

#[test]
fn games_sort_by_last_played_then_name() {
    let mut games = vec![
        game(GameSource::Steam, "beta", "b", None, 5),
        game(GameSource::Steam, "Alpha", "a", None, 5),
        game(GameSource::Steam, "ÉCLAIR", "e", None, 5),
        game(GameSource::Steam, "zeta", "z", None, 9),
    ];
    sort_games_by_last_played(&mut games);
    let names: Vec<&str> = games.iter().map(|g| g.name.as_str()).collect();
    assert_eq!(names, vec!["zeta", "Alpha", "beta", "ÉCLAIR"]);
}

// ---- background lookups ----

#[test]
fn playtime_lookups() {
    let mut state = PlaytimeState::new();
    let mut games = vec![
        game(GameSource::Steam, "Portal", "C:\\Portal", Some(400), 0),
        game(GameSource::Epic, "Fortnite", "D:\\F", None, 0),
    ];
    assert_eq!(state.refresh_for_selected(Some(&games[0])), Some(400));
    assert_eq!(state.refresh_for_selected(Some(&games[0])), None);
    assert_eq!(state.refresh_for_selected(Some(&games[1])), None);
    assert_eq!(state.refresh_for_selected(None), None);
    state.drain_results(&mut games, vec![(400, Some(125)), (7, Some(3))]);
    assert_eq!(games[0].playtime_minutes, 125);
    assert_eq!(state.refresh_for_selected(Some(&games[0])), Some(400));
    state.drain_results(&mut games, vec![(400, None)]);
    assert_eq!(games[0].playtime_minutes, 125);
}

#[test]
fn install_size_and_dlss_lookups() {
    let mut sizes = InstallSizeState::new();
    let mut dlss = DlssState::new();
    let mut games = vec![game(GameSource::Epic, "Fortnite", "D:\\F", None, 0)];
    let key = sizes.refresh_for_selected(Some(&games[0])).expect("a lookup");
    assert_eq!(key, GameIconKey::InstallPath("D:\\F".to_string()));
    assert!(sizes.refresh_for_selected(Some(&games[0])).is_none());
    sizes.drain_results(&mut games, vec![(key, Some(4096))]);
    assert_eq!(games[0].installed_size_bytes, Some(4096));
    assert!(sizes.refresh_for_selected(Some(&games[0])).is_none());
    let key = dlss.refresh_for_selected(Some(&games[0])).expect("a lookup");
    dlss.drain_results(&mut games, vec![(key, Some("3.7.10".to_string()))]);
    assert_eq!(games[0].dlss_version.as_deref(), Some("3.7.10"));
    assert!(dlss.refresh_for_selected(Some(&games[0])).is_none());
}

#[test]
fn steam_update_polls() {
    let mut state: SteamUpdateState<u32> = SteamUpdateState::new();
    assert_eq!(state.refresh_for_steam_app_id(None, 0), None);
    assert_eq!(state.refresh_for_steam_app_id(Some(400), 1000), Some(400));
    assert_eq!(state.refresh_for_steam_app_id(Some(400), 5000), None);
    state.drain_results(vec![(400, Some(55))]);
    assert_eq!(state.status_for_steam_app_id(Some(400)), Some(&55));
    assert_eq!(state.refresh_for_steam_app_id(Some(400), 1999), None);
    assert_eq!(state.refresh_for_steam_app_id(Some(400), 2000), Some(400));
    state.drain_results(vec![(400, None)]);
    assert_eq!(state.status_for_steam_app_id(Some(400)), None);
    assert_eq!(state.status_for_steam_app_id(None), None);
}

#[test]
fn achievement_icons_are_cached_as_png() {
    let mut jpeg = Vec::new();
    image::codecs::jpeg::JpegEncoder::new(&mut jpeg)
        .write_image(&[200, 10, 10, 200, 10, 10, 10, 200, 10, 10, 200, 10], 2, 2, image::ColorType::Rgb8)
        .expect("a jpeg");
    assert!(!achievement_icon_cache_bytes_are_valid(&jpeg));
    let cached = encode_achievement_icon_cache_bytes(&jpeg).expect("a png");
    assert_ne!(cached, jpeg);
    assert!(is_png_bytes(&cached));
    assert!(achievement_icon_cache_bytes_are_valid(&cached));
    let decoded = image::load_from_memory(&cached).expect("decodes").to_rgba8();
    assert_eq!((decoded.width(), decoded.height()), (2, 2));
    assert_eq!(encode_achievement_icon_cache_bytes(b"not an image"), None);
    let mut broken = cached.clone();
    broken.truncate(20);
    assert!(!achievement_icon_cache_bytes_are_valid(&broken));
}

#[test]
fn epic_install_dirs_are_kept_once() {
    let mut seen = Vec::new();
    assert!(big_screen_launcher::epic::keep_new_install_dir(&mut seen, "D:/Epic/Fortnite"));
    assert!(!big_screen_launcher::epic::keep_new_install_dir(&mut seen, "d:\\EPIC\\fortnite"));
    assert!(big_screen_launcher::epic::keep_new_install_dir(&mut seen, "D:/Epic/Other"));
    assert_eq!(seen, vec!["d:\\epic\\fortnite".to_string(), "d:\\epic\\other".to_string()]);
}

fn package(name: &str, family: &str, framework: bool, resource: bool) -> big_screen_launcher::xbox::AppxPackage {
    big_screen_launcher::xbox::AppxPackage {
        name: name.to_string(),
        family_name: family.to_string(),
        install_location: format!("C:\\Apps\\{}", name),
        is_framework: framework,
        is_resource_package: resource,
    }
}

#[test]
fn xbox_packages_looked_at() {
    let packages = vec![
        package("Framework", "Fam.A", true, false),
        package("Game", "Fam.A", false, false),
        package("GameCopy", "Fam.A", false, false),
        package("Res", "Fam.B", false, true),
        package("Microsoft.GamingApp", "Fam.C", false, false),
        package("Other", "Fam.B", false, false),
    ];
    assert_eq!(candidate_packages(&packages), vec![1, 4, 5]);
    assert!(has_gaming_app(&packages));
    let without_app = vec![package("Game", "Fam.A", false, false)];
    assert!(!has_gaming_app(&without_app));
    assert!(is_xbox_game_package(true, "<Package />"));
    assert!(is_xbox_game_package(false, "Microsoft.Xbox.Services"));
    assert!(!is_xbox_game_package(false, "<Package />"));
}

#[test]
fn steam_library_icon_names() {
    assert!(is_library_icon_file_name("3f2a9c.jpg"));
    assert!(!is_library_icon_file_name("header.jpg"));
    assert!(!is_library_icon_file_name("library_hero.jpg"));
    assert!(!is_library_icon_file_name("logo.png"));
}

#[test]
fn steam_manifest_values() {
    assert!(is_app_manifest_file_name("appmanifest_400.acf"));
    assert!(!is_app_manifest_file_name("appmanifest_400.txt"));
    assert!(!is_app_manifest_file_name("libraryfolders.vdf"));
    assert_eq!(parse_u32("+42"), Some(42));
    assert_eq!(parse_u32("4294967295"), Some(u32::MAX));
    assert_eq!(parse_u32("4294967296"), None);
    assert_eq!(parse_u32(""), None);
    assert_eq!(parse_u32("+"), None);
    assert_eq!(parse_u32("-1"), None);
    assert_eq!(parse_u32(" 1"), None);
    assert_eq!(installed_app(Some("400"), Some("Portal"), Some("4")), Some((400, "Portal".to_string())));
    assert_eq!(installed_app(Some("400"), Some("Portal"), Some("6")), Some((400, "Portal".to_string())));
    assert_eq!(installed_app(Some("400"), Some("Portal"), Some("2")), None);
    assert_eq!(installed_app(Some("400"), Some("Portal"), None), None);
    assert_eq!(installed_app(Some("400"), Some(""), Some("4")), None);
    assert_eq!(installed_app(Some("x"), Some("Portal"), Some("4")), None);
}

#[test]
fn steam_uninstall_entries() {
    assert_eq!(uninstall_key_app_id("Steam App 400"), Some(400));
    assert_eq!(uninstall_key_app_id("Steam App 400x"), None);
    assert_eq!(uninstall_key_app_id("Steam App "), None);
    assert_eq!(uninstall_key_app_id("Other App 400"), None);
    let mut seen = Vec::new();
    assert!(keep_new_app_id(&mut seen, 400));
    assert!(!keep_new_app_id(&mut seen, 400));
    assert!(keep_new_app_id(&mut seen, 10));
    assert_eq!(seen, vec![400, 10]);
}

#[test]
fn home_screen_games() {
    let games = vec![
        game(GameSource::Steam, "A", "a", Some(1), 0),
        game(GameSource::Steam, "B", "b", Some(2), 0),
        game(GameSource::Steam, "C", "c", Some(3), 0),
        game(GameSource::Steam, "D", "d", Some(4), 0),
    ];
    let mut hidden = vec!["steam:app:2".to_string()];
    assert_eq!(home_game_indices(&games, &hidden, HomeGameLimit::Limited(2)), vec![0, 2]);
    assert_eq!(home_game_indices(&games, &hidden, HomeGameLimit::Limited(5)), vec![0, 2, 3]);
    assert_eq!(home_game_indices(&games, &hidden, HomeGameLimit::Unlimited), vec![0, 2, 3]);
    let shown = home_game_indices(&games, &hidden, HomeGameLimit::Limited(2));
    assert_eq!(home_items_len(&shown), 3);
    assert_eq!(selected_home_game_index(&shown, 1), Some(2));
    assert_eq!(selected_home_game_index(&shown, 2), None);
    assert_eq!(selected_game_index(true, 4, 3, &shown, 0), Some(3));
    assert_eq!(selected_game_index(true, 0, 0, &shown, 0), None);
    assert_eq!(selected_game_index(false, 4, 3, &shown, 1), Some(2));
    assert!(game_hidden_from_home(&games, &hidden, 1));
    assert!(!game_hidden_from_home(&games, &hidden, 0));
    assert!(!game_hidden_from_home(&games, &hidden, 9));
    assert!(set_home_hidden(&mut hidden, "steam:app:1", true));
    assert!(!set_home_hidden(&mut hidden, "steam:app:1", true));
    assert!(set_home_hidden(&mut hidden, "steam:app:2", false));
    assert!(!set_home_hidden(&mut hidden, "steam:app:9", false));
    assert_eq!(hidden, vec!["steam:app:1".to_string()]);
    assert!(can_open_achievement_panel(Some(&games[0])));
    let epic = game(GameSource::Epic, "E", "e", None, 0);
    assert!(!can_open_achievement_panel(Some(&epic)));
    assert!(!can_open_achievement_panel(None));
}

#[test]
fn launched_game_moves_up() {
    let old_order = vec!["a".to_string(), "b".to_string(), "c".to_string()];
    let new_order = vec!["c".to_string(), "a".to_string(), "b".to_string()];
    assert_eq!(remap_game_index(&old_order, &new_order, 0), Some(1));
    assert_eq!(remap_game_index(&old_order, &new_order, 5), None);
    assert_eq!(remap_game_index(&old_order, &vec!["a".to_string()], 2), None);
    let mut games = vec![
        game(GameSource::Steam, "X", "x", Some(1), 30),
        game(GameSource::Steam, "Y", "y", Some(2), 20),
        game(GameSource::Steam, "Z", "z", Some(3), 10),
    ];
    let mut entries = Vec::new();
    assert_eq!(promote_game_to_front(&mut games, &mut entries, 2, 100), Some(0));
    let names: Vec<&str> = games.iter().map(|g| g.name.as_str()).collect();
    assert_eq!(names, vec!["Z", "X", "Y"]);
    assert_eq!(games[0].last_played, 100);
    assert_eq!(entries, vec![("steam:app:3".to_string(), 100)]);
    assert_eq!(promote_game_to_front(&mut games, &mut entries, 7, 200), None);
}

#[test]
fn steam_notice_sequence() {
    let mut notice = new_launch_notice(2, LaunchNoticeKind::PromptStartSteam, 1000);
    assert_eq!(notice.stage, LaunchNoticeStage::Entering);
    assert_eq!(update_launch_notice(&mut notice, false, 1100), NoticeOutcome::Keep { repaint_after_ms: None });
    assert_eq!(notice.stage, LaunchNoticeStage::Entering);
    update_launch_notice(&mut notice, false, 1300);
    assert_eq!(notice.stage, LaunchNoticeStage::Visible);
    assert_eq!(
        update_launch_notice(&mut notice, false, 2300),
        NoticeOutcome::Keep { repaint_after_ms: Some(4000) }
    );
    assert!(press_on_launch_notice(&mut notice, 3));
    assert_eq!(notice.game_index, 3);
    steam_start_requested(&mut notice, 2400);
    assert!(!press_on_launch_notice(&mut notice, 3));
    assert_eq!(
        update_launch_notice(&mut notice, false, 2700),
        NoticeOutcome::ShowNext { game_index: 3, kind: LaunchNoticeKind::SteamStarting }
    );
    let mut starting = new_launch_notice(3, LaunchNoticeKind::SteamStarting, 2700);
    update_launch_notice(&mut starting, false, 3000);
    assert_eq!(
        update_launch_notice(&mut starting, false, 3500),
        NoticeOutcome::Keep { repaint_after_ms: Some(1000) }
    );
    update_launch_notice(&mut starting, true, 4000);
    assert_eq!(starting.stage, LaunchNoticeStage::Exiting);
    assert_eq!(
        update_launch_notice(&mut starting, true, 4300),
        NoticeOutcome::ShowNext { game_index: 3, kind: LaunchNoticeKind::SteamStarted }
    );
    let mut started = new_launch_notice(3, LaunchNoticeKind::SteamStarted, 4300);
    update_launch_notice(&mut started, true, 4600);
    update_launch_notice(&mut started, true, 5600);
    assert_eq!(started.stage, LaunchNoticeStage::Exiting);
    assert_eq!(
        update_launch_notice(&mut started, true, 5900),
        NoticeOutcome::Clear { launch_game_index: Some(3) }
    );
    assert_eq!(launch_notice_visible_duration_ms(LaunchNoticeKind::SteamStarting), None);
}

#[test]
fn launch_press_decisions() {
    assert!(steam_state_poll_due(None, 0));
    assert!(!steam_state_poll_due(Some(1000), 1999));
    assert!(steam_state_poll_due(Some(1000), 2000));
    assert!(should_queue_launch_feedback(false, Some(1), 2));
    assert!(should_queue_launch_feedback(true, None, 2));
    assert!(!should_queue_launch_feedback(true, Some(1), 2));
    assert_eq!(queued_launch_wait_ms(Some((2, 1000)), 2, 1050), Some(150));
    assert_eq!(queued_launch_wait_ms(Some((2, 1000)), 2, 1200), None);
    assert_eq!(queued_launch_wait_ms(Some((1, 1000)), 2, 1050), None);
    assert_eq!(queued_launch_wait_ms(None, 2, 1050), None);
}

#[test]
fn steam_update_waiting_launch() {
    assert_eq!(update_poll_targets(Some(1), Some(1), None), vec![Some(1), None]);
    assert_eq!(update_poll_targets(Some(1), Some(2), Some(3)), vec![Some(1), Some(2), Some(3)]);
    assert_eq!(update_poll_targets(Some(1), None, None), vec![Some(1), None]);
    assert_eq!(update_poll_targets(None, None, None), vec![None]);
    assert_eq!(update_requested_launch(None, Some(2), true, false), (Some(2), false));
    assert_eq!(update_requested_launch(Some(2), Some(2), false, false), (None, true));
    assert_eq!(update_requested_launch(Some(3), Some(2), true, false), (None, false));
    assert_eq!(update_requested_launch(Some(3), Some(2), false, true), (Some(3), false));
    assert_eq!(update_requested_launch(None, Some(2), false, false), (None, false));
}

#[test]
fn cursor_hides_after_a_second() {
    assert_eq!(cursor_visibility(None, 5000), (false, None));
    assert_eq!(cursor_visibility(Some(4500), 5000), (true, Some(500)));
    assert_eq!(cursor_visibility(Some(4000), 5000), (false, None));
    assert_eq!(cursor_visibility(Some(6000), 5000), (true, Some(1000)));
}

#[test]
fn controller_action_names() {
    assert!(matches!(ControllerAction::from_str("up"), Some(ControllerAction::Up)));
    assert!(matches!(ControllerAction::from_str("quit"), Some(ControllerAction::Quit)));
    assert!(ControllerAction::from_str("Up").is_none());
    assert!(ControllerAction::from_str("menu").is_none());
}
