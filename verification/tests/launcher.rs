use game_launcher::app::{
    find_platform, launch_effect, launch_request, merge_listings, Effect, GameLauncher, Message,
    MyTheme,
};
use game_launcher::data::game::Game;
use game_launcher::platform::steam::SteamPlatform;
use game_launcher::platform::{LaunchCommand, PlatformError, Provider};
use std::path::{Path, PathBuf};
use steamlocate::SteamDir;

fn steam_in_current_directory() -> Provider {
    Provider::Steam(
        SteamPlatform::from_located(SteamDir::from_dir(Path::new(".")))
            .expect("the current directory exists"),
    )
}

fn game(name: &str, app_id: &str, platform: &str) -> Game {
    Game {
        name: name.to_string(),
        app_id: app_id.to_string(),
        executable_path: String::new(),
        platform: platform.to_string(),
        icon_path: None,
    }
}

fn names(games: &[Game]) -> Vec<&str> {
    games.iter().map(|game| game.name.as_str()).collect()
}

#[test]
fn launcher_starts_loading_with_no_games() {
    let launcher = GameLauncher::with_platforms(Vec::new());
    assert!(launcher.games().is_empty());
    assert!(launcher.platforms().is_empty());
    assert!(!launcher.is_ready());
}

#[test]
fn launcher_on_this_machine_starts_with_no_games() {
    let launcher = GameLauncher::new();
    assert!(launcher.games().is_empty());
    assert!(launcher.platforms().len() <= 1);
    assert!(!launcher.is_ready());
}

#[test]
fn title_is_fixed() {
    let launcher = GameLauncher::with_platforms(Vec::new());
    assert_eq!(launcher.title(), "Universal Game Launcher");
}

#[test]
fn finished_listing_replaces_the_games() {
    let mut launcher = GameLauncher::with_platforms(vec![steam_in_current_directory()]);
    let effect = launcher.update(Message::GameListLoaded(vec![
        game("Foo", "10", "Steam"),
        game("BarDir", "20", "Steam"),
    ]));
    assert!(matches!(effect, Effect::Nothing));
    assert!(launcher.is_ready());
    assert_eq!(names(launcher.games()), vec!["Foo", "BarDir"]);

    let effect = launcher.update(Message::GameListLoaded(vec![game("Baz", "30", "Steam")]));
    assert!(matches!(effect, Effect::Nothing));
    assert!(launcher.is_ready());
    assert_eq!(names(launcher.games()), vec!["Baz"]);
    assert_eq!(launcher.platforms().len(), 1);
}

#[test]
fn empty_listing_makes_the_launcher_ready_with_no_rows() {
    let mut launcher = GameLauncher::with_platforms(Vec::new());
    let effect = launcher.update(Message::GameListLoaded(Vec::new()));
    assert!(matches!(effect, Effect::Nothing));
    assert!(launcher.is_ready());
    assert!(launcher.games().is_empty());
}

#[test]
fn request_for_a_platform_that_is_not_loaded_is_dropped() {
    let mut launcher = GameLauncher::with_platforms(vec![steam_in_current_directory()]);
    launcher.update(Message::GameListLoaded(vec![game("Foo", "10", "Steam")]));
    let effect = launcher.update(Message::LaunchGame("Epic".to_string(), "123".to_string()));
    assert!(matches!(effect, Effect::Nothing));
    assert!(launcher.is_ready());
    assert_eq!(names(launcher.games()), vec!["Foo"]);
    assert_eq!(launcher.platforms().len(), 1);
}

#[test]
fn request_with_no_platform_at_all_is_dropped() {
    let mut launcher = GameLauncher::with_platforms(Vec::new());
    let effect = launcher.update(Message::LaunchGame("Epic".to_string(), "123".to_string()));
    assert!(matches!(effect, Effect::Nothing));
    assert!(!launcher.is_ready());
    assert!(launcher.games().is_empty());
}

#[test]
fn request_for_steam_without_its_client_is_reported() {
    let mut launcher = GameLauncher::with_platforms(vec![steam_in_current_directory()]);
    launcher.update(Message::GameListLoaded(vec![game("Foo", "10", "Steam")]));
    let effect = launcher.update(Message::LaunchGame("Steam".to_string(), "10".to_string()));
    assert!(matches!(
        effect,
        Effect::Report(PlatformError::NotInstalled)
    ));
    assert_eq!(names(launcher.games()), vec!["Foo"]);
    assert!(launcher.is_ready());
}

#[test]
fn platform_names_are_matched_exactly() {
    let mut launcher = GameLauncher::with_platforms(vec![steam_in_current_directory()]);
    let effect = launcher.update(Message::LaunchGame("steam".to_string(), "10".to_string()));
    assert!(matches!(effect, Effect::Nothing));
    let effect = launcher.update(Message::LaunchGame("Steam ".to_string(), "10".to_string()));
    assert!(matches!(effect, Effect::Nothing));
}

#[test]
fn find_platform_gives_the_first_of_that_name() {
    let platforms = vec![steam_in_current_directory(), steam_in_current_directory()];
    assert_eq!(find_platform(&platforms, "Steam"), Some(0));
    assert_eq!(find_platform(&platforms, "Epic"), None);
    assert_eq!(find_platform(&Vec::new(), "Steam"), None);
}

#[test]
fn launch_effect_of_each_outcome() {
    assert!(matches!(launch_effect(None), Effect::Nothing));
    let command = LaunchCommand {
        program: PathBuf::from("steam.exe"),
        argument: "steam://rungameid/10".to_string(),
    };
    match launch_effect(Some(Ok(command))) {
        Effect::Spawn(command) => {
            assert_eq!(command.program, PathBuf::from("steam.exe"));
            assert_eq!(command.argument, "steam://rungameid/10");
        }
        other => panic!("expected a command to spawn, got {:?}", other),
    }
    assert!(matches!(
        launch_effect(Some(Err(PlatformError::NotInstalled))),
        Effect::Report(PlatformError::NotInstalled)
    ));
}

#[test]
fn launch_request_names_the_platform_and_the_game() {
    let message = launch_request(&game("Foo", "10", "Steam"));
    match message {
        Message::LaunchGame(platform, app_id) => {
            assert_eq!(platform, "Steam");
            assert_eq!(app_id, "10");
        }
        other => panic!("expected a launch request, got {:?}", other),
    }
}

#[test]
fn merged_listings_keep_the_order_and_skip_failures() {
    let listings = vec![
        Ok(vec![game("A", "1", "First"), game("B", "2", "First")]),
        Err(PlatformError::FetchFailed),
        Ok(Vec::new()),
        Ok(vec![game("C", "3", "Third")]),
    ];
    let games = merge_listings(listings);
    assert_eq!(names(&games), vec!["A", "B", "C"]);
    assert_eq!(games[2].platform, "Third");
}

#[test]
fn merged_listings_of_failures_only_are_empty() {
    let listings: Vec<Result<Vec<Game>, PlatformError>> = vec![
        Err(PlatformError::FetchFailed),
        Err(PlatformError::NotInstalled),
    ];
    assert!(merge_listings(listings).is_empty());
    assert!(merge_listings(Vec::new()).is_empty());
}

#[test]
fn rows_show_the_games_in_order() {
    let mut launcher = GameLauncher::with_platforms(vec![steam_in_current_directory()]);
    launcher.update(Message::GameListLoaded(vec![
        game("Foo", "10", "Steam"),
        game("BarDir", "20", "Steam"),
    ]));
    let rows = launcher.rows();
    assert_eq!(rows.len(), 2);
    assert_eq!(rows[0].title, "Foo");
    assert_eq!(rows[1].title, "BarDir");
    match &rows[1].request {
        Message::LaunchGame(platform, app_id) => {
            assert_eq!(platform, "Steam");
            assert_eq!(app_id, "20");
        }
        other => panic!("expected a launch request, got {:?}", other),
    }
}

#[test]
fn launcher_without_games_shows_no_rows() {
    let mut launcher = GameLauncher::with_platforms(Vec::new());
    assert!(launcher.rows().is_empty());
    launcher.update(Message::GameListLoaded(Vec::new()));
    assert!(launcher.rows().is_empty());
}

#[test]
fn request_of_a_row_is_handled_like_any_request() {
    let mut launcher = GameLauncher::with_platforms(vec![steam_in_current_directory()]);
    launcher.update(Message::GameListLoaded(vec![game("Foo", "10", "Steam")]));
    let request = launcher.rows().remove(0).request;
    let effect = launcher.update(request);
    assert!(matches!(
        effect,
        Effect::Report(PlatformError::NotInstalled)
    ));
}

#[test]
fn themes_are_told_apart() {
    assert_eq!(MyTheme::Light, MyTheme::Light);
    assert_ne!(MyTheme::Light, MyTheme::Dark);
}
