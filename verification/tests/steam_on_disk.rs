use game_launcher::app::{collect_games, Effect, GameLauncher, Message};
use game_launcher::platform::steam::SteamPlatform;
use game_launcher::platform::{Platform, PlatformError, Provider};
use std::io::Write;
use std::path::Path;
use steamlocate::SteamDir;
use tempfile::{Builder, NamedTempFile, TempDir};

// A small Steam installation in a temporary directory. Everything in it is
// removed when the value is dropped.
struct Installation {
    root: TempDir,
    folders: Vec<TempDir>,
    files: Vec<NamedTempFile>,
}

fn directory(parent: &Path, name: &str) -> TempDir {
    Builder::new()
        .prefix(name)
        .rand_bytes(0)
        .tempdir_in(parent)
        .expect("the directory can be made")
}

fn file(parent: &Path, name: &str, contents: &str) -> NamedTempFile {
    let mut file = Builder::new()
        .prefix(name)
        .rand_bytes(0)
        .tempfile_in(parent)
        .expect("the file can be made");
    file.write_all(contents.as_bytes())
        .expect("the file can be written");
    file.flush().expect("the file can be written");
    file
}

fn manifest(app_id: u32, install_dir: &str, extra: &str) -> String {
    format!(
        "\"AppState\"\n{{\n\t\"appid\"\t\t\"{}\"\n\t\"installdir\"\t\t\"{}\"\n{}}}\n",
        app_id, install_dir, extra
    )
}

fn folder_entry(index: u32, path: &Path) -> String {
    format!(
        "\t\"{}\"\n\t{{\n\t\t\"path\"\t\t\"{}\"\n\t}}\n",
        index,
        path.display()
    )
}

impl Installation {
    // An installation directory without any record of library folders.
    fn bare() -> Installation {
        Installation {
            root: tempfile::tempdir().expect("a temporary directory can be made"),
            folders: Vec::new(),
            files: Vec::new(),
        }
    }

    // An installation with two library folders, the installation directory
    // itself and one more, and one manifest in each.
    fn with_two_libraries(first: &str, second: &str) -> Installation {
        let mut sample = Installation::bare();
        let other = tempfile::tempdir().expect("a temporary directory can be made");
        let main_apps = directory(sample.root.path(), "steamapps");
        let other_apps = directory(other.path(), "steamapps");
        let folders = format!(
            "\"libraryfolders\"\n{{\n{}{}}}\n",
            folder_entry(0, sample.root.path()),
            folder_entry(1, other.path())
        );
        sample
            .files
            .push(file(main_apps.path(), "libraryfolders.vdf", &folders));
        sample
            .files
            .push(file(main_apps.path(), "appmanifest_10.acf", first));
        sample
            .files
            .push(file(other_apps.path(), "appmanifest_20.acf", second));
        sample.folders.push(main_apps);
        sample.folders.push(other_apps);
        sample.folders.push(other);
        sample
    }

    fn foo_and_bar() -> Installation {
        Installation::with_two_libraries(
            &manifest(10, "FooDir", "\t\"name\"\t\t\"Foo\"\n"),
            &manifest(20, "BarDir", ""),
        )
    }

    fn with_client(mut self) -> Installation {
        let client = file(self.root.path(), "steam.exe", "");
        self.files.push(client);
        self
    }

    fn steam(&self) -> SteamPlatform {
        SteamPlatform::from_located(SteamDir::from_dir(self.root.path()))
            .expect("an installation that was found is a platform")
    }
}

#[test]
fn listing_reads_two_libraries_from_disk() {
    let sample = Installation::foo_and_bar();
    let games = sample.steam().list_games().expect("the sample is readable");
    assert_eq!(games.len(), 2);
    assert_eq!(games[0].name, "Foo");
    assert_eq!(games[0].app_id, "10");
    assert_eq!(games[0].platform, "Steam");
    assert_eq!(games[0].executable_path, "");
    assert!(games[0].icon_path.is_none());
    assert_eq!(games[1].name, "BarDir");
    assert_eq!(games[1].app_id, "20");
    assert_eq!(games[1].platform, "Steam");
    assert_eq!(games[1].executable_path, "");
    assert!(games[1].icon_path.is_none());
}

#[test]
fn listing_reads_the_launcher_path_of_a_manifest() {
    let sample = Installation::with_two_libraries(
        &manifest(
            10,
            "FooDir",
            "\t\"name\"\t\t\"Foo\"\n\t\"LauncherPath\"\t\t\"/opt/games/foo/run.sh\"\n",
        ),
        &manifest(20, "BarDir", ""),
    );
    let games = sample.steam().list_games().expect("the sample is readable");
    assert_eq!(games.len(), 2);
    assert_eq!(games[0].executable_path, "/opt/games/foo/run.sh");
    assert_eq!(games[1].executable_path, "");
}

#[test]
fn listing_fails_on_a_manifest_that_cannot_be_read() {
    let sample = Installation::with_two_libraries(
        &manifest(10, "FooDir", "\t\"name\"\t\t\"Foo\"\n"),
        "this is no manifest",
    );
    assert_eq!(
        sample.steam().list_games().err(),
        Some(PlatformError::FetchFailed)
    );
}

#[test]
fn listing_fails_without_a_list_of_library_folders() {
    let sample = Installation::bare();
    assert_eq!(
        sample.steam().list_games().err(),
        Some(PlatformError::FetchFailed)
    );
}

#[test]
fn listing_the_same_directory_twice_gives_the_same_identities() {
    let sample = Installation::foo_and_bar();
    let steam = sample.steam();
    let first: Vec<(String, String)> = steam
        .list_games()
        .expect("the sample is readable")
        .into_iter()
        .map(|game| (game.app_id, game.platform))
        .collect();
    let second: Vec<(String, String)> = steam
        .list_games()
        .expect("the sample is readable")
        .into_iter()
        .map(|game| (game.app_id, game.platform))
        .collect();
    assert_eq!(first, second);
    assert_eq!(
        first,
        vec![
            ("10".to_string(), "Steam".to_string()),
            ("20".to_string(), "Steam".to_string())
        ]
    );
}

#[test]
fn failed_listing_fails_again_on_the_same_directory() {
    let sample = Installation::bare();
    let steam = sample.steam();
    let first = steam.list_games().err();
    let second = steam.list_games().err();
    assert_eq!(first, Some(PlatformError::FetchFailed));
    assert_eq!(first, second);
}

#[test]
fn collected_games_are_filed_under_exactly_one_platform() {
    let sample = Installation::foo_and_bar();
    let platforms = vec![Provider::Steam(sample.steam())];
    let games = collect_games(&platforms);
    assert_eq!(games.len(), 2);
    for game in &games {
        let owners = platforms
            .iter()
            .filter(|platform| platform.name() == game.platform)
            .count();
        assert_eq!(owners, 1);
    }
}

#[test]
fn launching_with_the_client_present_starts_the_client_of_the_installation() {
    let sample = Installation::foo_and_bar().with_client();
    let command = sample
        .steam()
        .launch_game("10")
        .expect("the client is present");
    assert_eq!(command.program, sample.root.path().join("steam.exe"));
    assert_eq!(command.argument, "steam://rungameid/10");
}

#[test]
fn launching_without_the_client_starts_nothing() {
    let sample = Installation::foo_and_bar();
    assert_eq!(
        sample.steam().launch_game("10").err(),
        Some(PlatformError::NotInstalled)
    );
}

#[test]
fn request_for_a_listed_game_gives_the_command_to_spawn() {
    let sample = Installation::foo_and_bar().with_client();
    let platforms = vec![Provider::Steam(sample.steam())];
    let games = collect_games(&platforms);
    let mut launcher = GameLauncher::with_platforms(platforms);
    launcher.update(Message::GameListLoaded(games));
    let request = launcher.rows().remove(1).request;
    match launcher.update(request) {
        Effect::Spawn(command) => {
            assert_eq!(command.program, sample.root.path().join("steam.exe"));
            assert_eq!(command.argument, "steam://rungameid/20");
        }
        other => panic!("expected a command to spawn, got {:?}", other),
    }
    assert_eq!(launcher.games().len(), 2);
}

#[test]
fn request_for_a_listed_game_without_the_client_is_reported() {
    let sample = Installation::foo_and_bar();
    let platforms = vec![Provider::Steam(sample.steam())];
    let games = collect_games(&platforms);
    let mut launcher = GameLauncher::with_platforms(platforms);
    launcher.update(Message::GameListLoaded(games));
    assert_eq!(launcher.games().len(), 2);

    let effect = launcher.update(Message::LaunchGame(
        "Steam".to_string(),
        "10".to_string(),
    ));
    assert!(matches!(
        effect,
        Effect::Report(PlatformError::NotInstalled)
    ));
    assert_eq!(launcher.games().len(), 2);
}
