//! The Steam platform.
//!
//! Steam keeps its games in library folders, one manifest per installed
//! application. Reading them is done by `steamlocate` (see
//! [`super::locator`]); what is made of them is decided here, by functions
//! that take what was read as plain values.

use super::locator::{
    install_path, join_path, locate_steam, path_exists, read_libraries, read_manifests,
};
use super::{LaunchCommand, Platform, PlatformError};
use crate::data::game::{game_views, identities, Game, GameView, Identity};
use crate::text::{decimal, decimal_string, lemma_decimal_injective};
use std::path::PathBuf;
use steamlocate::{Library, SteamDir};
use vstd::prelude::*;
use vstd::string::StringExecFns;

verus! {

/// What the manifest of one installed application says, as far as this crate
/// reads it.
#[derive(Debug, Clone)]
pub struct AppManifest {
    /// Steam's number for the application.
    pub app_id: u32,
    /// The title under which the store sells it, where the manifest has one.
    pub name: Option<String>,
    /// The name of the directory it is installed in.
    pub install_dir: String,
    /// The path of the application's own launcher, where the manifest has
    /// one.
    pub launcher_path: Option<String>,
}

/// What an [`AppManifest`] holds, as a number and plain sequences of
/// characters.
pub struct ManifestView {
    pub app_id: nat,
    pub name: Option<Seq<char>>,
    pub install_dir: Seq<char>,
    pub launcher_path: Option<Seq<char>>,
}

impl View for AppManifest {
    type V = ManifestView;

    open spec fn view(&self) -> ManifestView {
        ManifestView {
            app_id: self.app_id as nat,
            name: match self.name {
                Some(title) => Some(title@),
                None => None,
            },
            install_dir: self.install_dir@,
            launcher_path: match self.launcher_path {
                Some(path) => Some(path@),
                None => None,
            },
        }
    }
}

/// What was read of one library folder: an error where the folder could not
/// be opened, else one entry per manifest found in it, in the order of the
/// directory, each an error where the manifest could not be read.
pub type FolderScan<E> = Result<Vec<Result<AppManifest, E>>, E>;

/// One library folder as a scan found it: its manifests in the order of the
/// directory, `None` standing for a manifest that could not be read.
pub type FolderModel = Seq<Option<ManifestView>>;

/// A whole installation as a scan found it: its library folders in the order
/// in which Steam lists them, `None` standing for a folder that could not be
/// opened.
pub type ScanModel = Seq<Option<FolderModel>>;

/// The name under which Steam's games are filed.
pub open spec fn steam_name() -> Seq<char> {
    "Steam"@
}

/// The address that asks a running Steam client to start the game `app_id`.
pub open spec fn rungame_uri(app_id: Seq<char>) -> Seq<char> {
    "steam://rungameid/"@ + app_id
}

/// The game that a manifest describes.
///
/// The store title is preferred as the name; an application without one goes
/// by the name of its install directory. The identifier is the decimal
/// numeral of Steam's number. No icon is resolved.
pub open spec fn game_of(manifest: ManifestView) -> GameView {
    GameView {
        name: match manifest.name {
            Some(title) => title,
            None => manifest.install_dir,
        },
        app_id: decimal(manifest.app_id),
        executable_path: match manifest.launcher_path {
            Some(path) => path,
            None => Seq::empty(),
        },
        platform: steam_name(),
        icon_path: None,
    }
}

/// The model of the manifests read in one folder.
pub open spec fn manifests_model<E>(manifests: Seq<Result<AppManifest, E>>) -> FolderModel {
    Seq::new(
        manifests.len(),
        |i: int|
            match manifests[i] {
                Ok(manifest) => Some(manifest@),
                Err(_) => None,
            },
    )
}

/// The model of a whole scan.
pub open spec fn scan_model<E>(folders: Seq<FolderScan<E>>) -> ScanModel {
    Seq::new(
        folders.len(),
        |i: int|
            match folders[i] {
                Ok(manifests) => Some(manifests_model(manifests@)),
                Err(_) => None,
            },
    )
}

/// Every manifest of the folder could be read.
pub open spec fn manifests_readable(manifests: FolderModel) -> bool {
    forall|i: int| 0 <= i < manifests.len() ==> (#[trigger] manifests[i]) is Some
}

/// Every folder of the scan could be opened and every manifest in it read.
pub open spec fn scan_readable(scan: ScanModel) -> bool {
    forall|i: int|
        0 <= i < scan.len() ==> (#[trigger] scan[i]) is Some && manifests_readable(scan[i].unwrap())
}

/// The games of one folder, one per manifest and in the same order.
pub open spec fn folder_games(manifests: FolderModel) -> Seq<GameView> {
    Seq::new(manifests.len(), |i: int| game_of(manifests[i].unwrap()))
}

/// The games of a scan: those of the first folder, then those of the second,
/// and so on.
pub open spec fn scan_games(scan: ScanModel) -> Seq<GameView>
    decreases scan.len(),
{
    if scan.len() == 0 {
        Seq::empty()
    } else {
        scan_games(scan.drop_last()) + folder_games(scan.last().unwrap())
    }
}

/// The listing is what the scan comes to: its games where everything could be
/// read, `FetchFailed` where anything could not.
pub open spec fn listing_of(
    scan: ScanModel,
    listing: Result<Vec<Game>, PlatformError>,
) -> bool {
    &&& listing is Ok <==> scan_readable(scan)
    &&& listing matches Ok(games) ==> game_views(games@) == scan_games(scan)
    &&& listing matches Err(error) ==> error == PlatformError::FetchFailed
}

/// Builds the game record for one manifest.
pub fn steam_game(manifest: &AppManifest) -> (game: Game)
    ensures
        game@ == game_of(manifest@),
{
    let name = match &manifest.name {
        Some(title) => title.clone(),
        None => manifest.install_dir.clone(),
    };
    let executable_path = match &manifest.launcher_path {
        Some(path) => path.clone(),
        None => String::new(),
    };
    Game {
        name,
        app_id: decimal_string(manifest.app_id),
        executable_path,
        platform: "Steam".to_owned(),
        icon_path: None,
    }
}

/// Lists the games of one library folder from its manifests.
///
/// The listing succeeds exactly when every manifest could be read, and then
/// holds one game per manifest, in the same order.
pub fn folder_listing<E>(manifests: &Vec<Result<AppManifest, E>>) -> (listing: Result<
    Vec<Game>,
    PlatformError,
>)
    ensures
        listing is Ok <==> manifests_readable(manifests_model(manifests@)),
        listing matches Ok(games) ==> game_views(games@) == folder_games(
            manifests_model(manifests@),
        ),
        listing matches Err(error) ==> error == PlatformError::FetchFailed,
{
    let ghost model = manifests_model(manifests@);
    let mut games: Vec<Game> = Vec::new();
    let mut i: usize = 0;
    while i < manifests.len()
        invariant
            i <= manifests@.len(),
            model == manifests_model(manifests@),
            manifests_readable(model.take(i as int)),
            games@.len() == i,
            game_views(games@) == folder_games(model.take(i as int)),
        decreases manifests@.len() - i,
    {
        match &manifests[i] {
            Ok(manifest) => {
                let ghost before = games@;
                let game = steam_game(manifest);
                games.push(game);
                assert(manifests_readable(model.take(i + 1))) by {
                    assert forall|k: int| 0 <= k < i + 1 implies (#[trigger] model.take(
                        i + 1,
                    )[k]) is Some by {
                        if k < i {
                            assert(model.take(i as int)[k] is Some);
                        }
                    }
                }
                assert(game_views(games@) =~= folder_games(model.take(i + 1))) by {
                    assert forall|k: int| 0 <= k < i + 1 implies game_views(games@)[k]
                        == folder_games(model.take(i + 1))[k] by {
                        if k < i {
                            assert(game_views(before)[k] == folder_games(model.take(i as int))[k]);
                        }
                    }
                }
            },
            Err(_) => {
                assert(model[i as int] is None);
                return Err(PlatformError::FetchFailed);
            },
        }
        i += 1;
    }
    assert(model.take(i as int) =~= model);
    Ok(games)
}

/// Lists the games of a Steam installation from what was read of its
/// library folders.
///
/// The listing is all or nothing. It succeeds exactly when every folder could
/// be opened and every manifest read, and then holds the games folder by
/// folder, in the order in which they were read. One unreadable entry fails
/// the whole listing with `FetchFailed`.
pub fn steam_games<E>(folders: &Vec<FolderScan<E>>) -> (listing: Result<Vec<Game>, PlatformError>)
    ensures
        listing_of(scan_model(folders@), listing),
{
    let ghost scan = scan_model(folders@);
    let mut games: Vec<Game> = Vec::new();
    let mut i: usize = 0;
    while i < folders.len()
        invariant
            i <= folders@.len(),
            scan == scan_model(folders@),
            scan_readable(scan.take(i as int)),
            game_views(games@) == scan_games(scan.take(i as int)),
        decreases folders@.len() - i,
    {
        match &folders[i] {
            Ok(manifests) => {
                match folder_listing(manifests) {
                    Ok(mut found) => {
                        games.append(&mut found);
                        proof {
                            assert(scan.take(i + 1).drop_last() =~= scan.take(i as int));
                            assert forall|k: int| 0 <= k < i + 1 implies (#[trigger] scan.take(
                                i + 1,
                            )[k]) is Some && manifests_readable(scan.take(i + 1)[k].unwrap()) by {
                                if k < i {
                                    assert(scan.take(i as int)[k] is Some);
                                }
                            }
                        }
                    },
                    Err(error) => {
                        return Err(error);
                    },
                }
            },
            Err(_) => {
                return Err(PlatformError::FetchFailed);
            },
        }
        i += 1;
    }
    assert(scan.take(i as int) =~= scan);
    Ok(games)
}

/// Every game of a scan is filed under Steam and has no icon.
pub proof fn lemma_scan_games_are_steam(scan: ScanModel)
    ensures
        forall|k: int|
            0 <= k < scan_games(scan).len() ==> (#[trigger] scan_games(scan)[k]).platform
                == steam_name() && scan_games(scan)[k].icon_path is None,
    decreases scan.len(),
{
    if scan.len() > 0 {
        lemma_scan_games_are_steam(scan.drop_last());
    }
}

/// Every game of a listing is filed under Steam and has no icon.
pub proof fn lemma_listing_is_steam(
    scan: ScanModel,
    listing: Result<Vec<Game>, PlatformError>,
)
    requires
        listing_of(scan, listing),
    ensures
        listing matches Ok(games) ==> forall|i: int|
            0 <= i < games@.len() ==> (#[trigger] games@[i]).platform@ == steam_name()
                && games@[i].icon_path is None,
{
    if let Ok(games) = listing {
        lemma_scan_games_are_steam(scan);
        assert forall|i: int| 0 <= i < games@.len() implies (#[trigger] games@[i]).platform@
            == steam_name() && games@[i].icon_path is None by {
            assert(game_views(games@)[i] == games@[i]@);
        }
    }
}

/// The name of the Steam client's executable inside the installation
/// directory.
pub open spec fn client_file() -> Seq<char> {
    "steam.exe"@
}

/// The launch is what is decided for the game `app_id` once the client was
/// looked for at `launcher`: with the client present, the command that
/// starts it with the game's address as its only argument; without it,
/// `NotInstalled`.
pub open spec fn launch_of(
    launcher: PathBuf,
    present: bool,
    app_id: Seq<char>,
    launch: Result<LaunchCommand, PlatformError>,
) -> bool {
    &&& present ==> (launch matches Ok(command) && command.program == launcher
        && command.argument@ == rungame_uri(app_id))
    &&& !present ==> (launch matches Err(error) && error == PlatformError::NotInstalled)
}

/// Decides how Steam is asked to start the game `app_id`, given the path of
/// the Steam client and whether an executable was found there.
///
/// With the client present, the command starts it with the game's address as
/// its only argument. Without it nothing is to be started and the launch fails
/// with `NotInstalled`.
pub fn steam_launch(launcher: PathBuf, present: bool, app_id: &str) -> (launch: Result<
    LaunchCommand,
    PlatformError,
>)
    ensures
        launch_of(launcher, present, app_id@, launch),
{
    if !present {
        return Err(PlatformError::NotInstalled);
    }
    let mut argument = "steam://rungameid/".to_owned();
    argument.append(app_id);
    Ok(LaunchCommand { program: launcher, argument })
}

/// The listing is what a read of the library folders comes to: the listing
/// of the folders where their list could be read, `FetchFailed` where it
/// could not.
pub open spec fn listing_from<E>(
    read: Result<Vec<FolderScan<E>>, E>,
    listing: Result<Vec<Game>, PlatformError>,
) -> bool {
    match read {
        Ok(folders) => listing_of(scan_model(folders@), listing),
        Err(_) => listing matches Err(error) && error == PlatformError::FetchFailed,
    }
}

/// Two listings made of the same read agree: both succeed or both fail, and
/// where they succeed they hold the same games, so the same identities. A
/// second listing of an installation that did not change in between tells
/// nothing new.
pub proof fn lemma_same_read_same_listing<E>(
    read: Result<Vec<FolderScan<E>>, E>,
    first: Result<Vec<Game>, PlatformError>,
    second: Result<Vec<Game>, PlatformError>,
)
    requires
        listing_from(read, first),
        listing_from(read, second),
    ensures
        first is Ok <==> second is Ok,
        first is Err ==> first == second,
        first matches Ok(games) ==> (second matches Ok(again) && game_views(games@)
            == game_views(again@) && identities(game_views(games@)) == identities(
            game_views(again@),
        )),
{
}

/// The path is the one that the installation gave as its directory.
pub closed spec fn installed_at(dir: SteamDir, directory: PathBuf) -> bool {
    call_ensures(install_path, (&dir,), directory)
}

/// The path is the one that joining the file name `name` to `base` gave.
pub closed spec fn joined(base: PathBuf, name: Seq<char>, path: PathBuf) -> bool {
    exists|file: &str| file@ == name && call_ensures(join_path, (&base, file), path)
}

/// The answer is the one that the disk gave when asked whether anything is
/// at `path`.
pub closed spec fn found_on_disk(path: PathBuf, present: bool) -> bool {
    call_ensures(path_exists, (&path,), present)
}

/// The answer is one that the search for Steam on this machine gave.
pub closed spec fn searched(located: Result<SteamDir, steamlocate::Error>) -> bool {
    call_ensures(locate_steam, (), located)
}

/// The platform is what a search that ended in `located` comes to: the
/// platform on the installation that was found, `NotInstalled` where the
/// search failed, for whatever reason.
pub open spec fn platform_of(
    located: Result<SteamDir, steamlocate::Error>,
    platform: Result<SteamPlatform, PlatformError>,
) -> bool {
    &&& located matches Ok(dir) ==> (platform matches Ok(steam) && steam.dir() == dir)
    &&& located is Err ==> (platform matches Err(error) && error == PlatformError::NotInstalled)
}

/// The folder's entry of a scan is what was read of the library: the
/// manifests that reading it gave, or the error that opening it gave.
spec fn folder_of(
    library: Result<Library, steamlocate::Error>,
    folder: FolderScan<steamlocate::Error>,
) -> bool {
    match library {
        Ok(library) => folder matches Ok(manifests) && call_ensures(
            read_manifests,
            (&library,),
            manifests,
        ),
        Err(error) => folder == Err::<Vec<Result<AppManifest, steamlocate::Error>>, _>(error),
    }
}

/// The scan is what was read of the installation's library folders.
spec fn scan_of(
    read: Result<Vec<Result<Library, steamlocate::Error>>, steamlocate::Error>,
    scan: Result<Vec<FolderScan<steamlocate::Error>>, steamlocate::Error>,
) -> bool {
    match read {
        Ok(libraries) => {
            &&& scan matches Ok(folders)
            &&& folders@.len() == libraries@.len()
            &&& forall|i: int|
                0 <= i < libraries@.len() ==> folder_of(libraries@[i], #[trigger] folders@[i])
        },
        Err(error) => scan == Err::<Vec<FolderScan<steamlocate::Error>>, _>(error),
    }
}

/// Steam, as installed on this machine.
pub struct SteamPlatform {
    steam_dir: SteamDir,
}

impl SteamPlatform {
    /// The installation that the platform reads.
    pub closed spec fn dir(&self) -> SteamDir {
        self.steam_dir
    }

    /// The read is one that reading the installation's library folders gave.
    pub closed spec fn scanned(
        &self,
        read: Result<Vec<FolderScan<steamlocate::Error>>, steamlocate::Error>,
    ) -> bool {
        call_ensures(SteamPlatform::scan, (self,), read)
    }

    /// The launch is what looking for the client came to: the file
    /// [`client_file`] was looked for in the installation's directory, and
    /// the launch was decided as [`launch_of`] says for the path that was
    /// tested and for what the disk answered.
    pub open spec fn looked_up(
        &self,
        app_id: Seq<char>,
        launch: Result<LaunchCommand, PlatformError>,
    ) -> bool {
        exists|directory: PathBuf, launcher: PathBuf, present: bool|
            #![trigger joined(directory, client_file(), launcher), found_on_disk(launcher, present)]
            {
                &&& installed_at(self.dir(), directory)
                &&& joined(directory, client_file(), launcher)
                &&& found_on_disk(launcher, present)
                &&& launch_of(launcher, present, app_id, launch)
            }
    }

    /// Looks for Steam on this machine.
    ///
    /// Whether Steam is found is for the machine to say. The result is made
    /// of what the search answered as [`SteamPlatform::from_located`] makes
    /// it: the platform on the installation that was found, or
    /// `NotInstalled` when none was.
    pub fn new() -> (platform: Result<Self, PlatformError>)
        ensures
            exists|located: Result<SteamDir, steamlocate::Error>|
                searched(located) && platform_of(located, platform),
            platform matches Err(error) ==> error == PlatformError::NotInstalled,
    {
        let located = locate_steam();
        let ghost answer = located;
        let platform = Self::from_located(located);
        assert(searched(answer) && platform_of(answer, platform));
        platform
    }

    /// Makes the platform of an installation that was looked for: the
    /// platform on that installation where one was found, `NotInstalled`
    /// where the search failed, for whatever reason.
    pub fn from_located(located: Result<SteamDir, steamlocate::Error>) -> (platform: Result<
        Self,
        PlatformError,
    >)
        ensures
            platform_of(located, platform),
    {
        match located {
            Ok(dir) => Ok(SteamPlatform { steam_dir: dir }),
            Err(_) => Err(PlatformError::NotInstalled),
        }
    }

    /// Reads the installation's library folders and, of each folder that
    /// opens, the manifests in it.
    ///
    /// What is read is for the disk to say. The scan keeps it as it came: the
    /// error where the list of folders could not be read, else one entry for
    /// each folder of the list, in the order of the list, which holds the
    /// manifests read in the folder or the error that opening it gave.
    fn scan(&self) -> (scan: Result<Vec<FolderScan<steamlocate::Error>>, steamlocate::Error>)
        ensures
            exists|read: Result<Vec<Result<Library, steamlocate::Error>>, steamlocate::Error>|
                call_ensures(read_libraries, (&self.steam_dir,), read) && scan_of(read, scan),
    {
        let read = read_libraries(&self.steam_dir);
        let ghost answer = read;
        let scan = match read {
            Ok(libraries) => {
                let ghost all = libraries@;
                let mut folders: Vec<FolderScan<steamlocate::Error>> = Vec::new();
                for library in it: libraries
                    invariant
                        it.seq() == all,
                        folders@.len() == it.index(),
                        forall|j: int|
                            0 <= j < it.index() ==> folder_of(all[j], #[trigger] folders@[j]),
                {
                    match library {
                        Ok(library) => folders.push(Ok(read_manifests(&library))),
                        Err(error) => folders.push(Err(error)),
                    }
                }
                Ok(folders)
            },
            Err(error) => Err(error),
        };
        assert(scan_of(answer, scan));
        scan
    }
}

impl Platform for SteamPlatform {
    open spec fn name_spec(&self) -> Seq<char> {
        steam_name()
    }

    open spec fn launch_argument(&self, app_id: Seq<char>) -> Seq<char> {
        rungame_uri(app_id)
    }

    fn name(&self) -> (name: &str) {
        "Steam"
    }

    /// Reads the library folders of the installation and lists the games
    /// found in them. What is read is for the disk to say; the listing is what
    /// [`steam_games`] makes of the folders, and `FetchFailed` where the list
    /// of folders could not be read.
    fn list_games(&self) -> (listing: Result<Vec<Game>, PlatformError>)
        ensures
            exists|read: Result<Vec<FolderScan<steamlocate::Error>>, steamlocate::Error>|
                self.scanned(read) && listing_from(read, listing),
            exists|scan: ScanModel| listing_of(scan, listing),
            listing matches Ok(games) ==> forall|i: int|
                0 <= i < games@.len() ==> (#[trigger] games@[i]).icon_path is None,
    {
        let read = self.scan();
        let ghost answer = read;
        let listing = match read {
            Ok(folders) => {
                let listing = steam_games(&folders);
                proof {
                    lemma_listing_is_steam(scan_model(folders@), listing);
                }
                listing
            },
            Err(_) => {
                let listing = Err(PlatformError::FetchFailed);
                proof {
                    let unreadable = seq![None::<FolderModel>];
                    assert(unreadable[0] is None);
                    assert(listing_of(unreadable, listing));
                }
                listing
            },
        };
        assert(self.scanned(answer) && listing_from(answer, listing));
        listing
    }

    /// Looks for the Steam client in the installation directory and decides
    /// the launch as [`steam_launch`] does for what was found. Whether the
    /// client is there is for the disk to say.
    fn launch_game(&self, app_id: &str) -> (launch: Result<LaunchCommand, PlatformError>)
        ensures
            self.looked_up(app_id@, launch),
    {
        let directory = install_path(&self.steam_dir);
        let launcher = join_path(&directory, "steam.exe");
        let present = path_exists(&launcher);
        let ghost tested = launcher;
        let launch = steam_launch(launcher, present, app_id);
        assert(joined(directory, client_file(), tested));
        assert(found_on_disk(tested, present));
        launch
    }
}

/// The identity of the game that Steam numbers `app_id`.
pub open spec fn steam_identity(app_id: nat) -> Identity {
    (decimal(app_id), steam_name())
}

/// Steam gives no two applications the same identity.
pub proof fn lemma_steam_identity_injective(first: nat, second: nat)
    requires
        steam_identity(first) == steam_identity(second),
    ensures
        first == second,
{
    lemma_decimal_injective(first, second);
}

/// The identities of the games that Steam numbers with one of `app_ids`.
pub open spec fn steam_identities(app_ids: Set<nat>) -> Set<Identity> {
    Set::new(
        |id: Identity|
            exists|app_id: nat| app_ids.contains(app_id) && #[trigger] steam_identity(app_id) == id,
    )
}

/// The numbers of the applications whose manifests were read in one folder.
pub open spec fn folder_app_ids(manifests: FolderModel) -> Set<nat> {
    Set::new(
        |app_id: nat|
            exists|j: int|
                0 <= j < manifests.len() && (#[trigger] manifests[j]) is Some
                    && manifests[j].unwrap().app_id == app_id,
    )
}

/// The numbers of the applications whose manifests were read in a scan, in
/// whichever folder.
pub open spec fn scan_app_ids(scan: ScanModel) -> Set<nat> {
    Set::new(
        |app_id: nat|
            exists|i: int|
                0 <= i < scan.len() && (#[trigger] scan[i]) is Some && folder_app_ids(
                    scan[i].unwrap(),
                ).contains(app_id),
    )
}

/// The identities of a list made of two parts are those of either part.
proof fn lemma_identities_of_parts(first: Seq<GameView>, second: Seq<GameView>)
    ensures
        identities(first + second) == identities(first).union(identities(second)),
{
    let whole = first + second;
    assert forall|id: Identity| identities(whole).contains(id) implies identities(
        first,
    ).union(identities(second)).contains(id) by {
        let k = choose|k: int| 0 <= k < whole.len() && #[trigger] whole[k].identity() == id;
        if k < first.len() {
            assert(first[k].identity() == id);
        } else {
            assert(second[k - first.len()].identity() == id);
        }
    }
    assert forall|id: Identity|
        identities(first).union(identities(second)).contains(id) implies identities(
        whole,
    ).contains(id) by {
        if identities(first).contains(id) {
            let k = choose|k: int| 0 <= k < first.len() && #[trigger] first[k].identity() == id;
            assert(whole[k].identity() == id);
        } else {
            let k = choose|k: int| 0 <= k < second.len() && #[trigger] second[k].identity() == id;
            assert(whole[first.len() + k].identity() == id);
        }
    }
}

/// The games of a readable folder are, by identity, the applications whose
/// manifests it holds.
proof fn lemma_identities_of_folder(manifests: FolderModel)
    requires
        manifests_readable(manifests),
    ensures
        identities(folder_games(manifests)) == steam_identities(folder_app_ids(manifests)),
{
    let games = folder_games(manifests);
    let ids = folder_app_ids(manifests);
    assert forall|id: Identity| identities(games).contains(id) implies steam_identities(
        ids,
    ).contains(id) by {
        let k = choose|k: int| 0 <= k < games.len() && #[trigger] games[k].identity() == id;
        let manifest = manifests[k].unwrap();
        assert(steam_identity(manifest.app_id) == id);
    }
    assert forall|id: Identity| steam_identities(ids).contains(id) implies identities(
        games,
    ).contains(id) by {
        let app_id = choose|app_id: nat|
            ids.contains(app_id) && #[trigger] steam_identity(app_id) == id;
        let j = choose|j: int|
            0 <= j < manifests.len() && (#[trigger] manifests[j]) is Some
                && manifests[j].unwrap().app_id == app_id;
        assert(games[j].identity() == id);
    }
}

/// The games listed from a readable scan are, by identity, the applications
/// whose manifests were read: one identity per application number, whatever
/// the folders, the order, the titles and the paths.
pub proof fn lemma_identities_of_scan(scan: ScanModel)
    requires
        scan_readable(scan),
    ensures
        identities(scan_games(scan)) == steam_identities(scan_app_ids(scan)),
    decreases scan.len(),
{
    if scan.len() > 0 {
        let rest = scan.drop_last();
        let manifests = scan.last().unwrap();
        assert(scan_readable(rest)) by {
            assert forall|i: int| 0 <= i < rest.len() implies (#[trigger] rest[i]) is Some
                && manifests_readable(rest[i].unwrap()) by {
                assert(scan[i] is Some);
            }
        }
        lemma_identities_of_scan(rest);
        lemma_identities_of_folder(manifests);
        lemma_identities_of_parts(scan_games(rest), folder_games(manifests));
        let ids = scan_app_ids(scan);
        let split = steam_identities(scan_app_ids(rest)).union(
            steam_identities(folder_app_ids(manifests)),
        );
        assert forall|id: Identity| steam_identities(ids).contains(id) implies split.contains(
            id,
        ) by {
            let app_id = choose|app_id: nat|
                ids.contains(app_id) && #[trigger] steam_identity(app_id) == id;
            let i = choose|i: int|
                0 <= i < scan.len() && (#[trigger] scan[i]) is Some && folder_app_ids(
                    scan[i].unwrap(),
                ).contains(app_id);
            if i < rest.len() {
                assert(rest[i] == scan[i]);
                assert(scan_app_ids(rest).contains(app_id));
            } else {
                assert(folder_app_ids(manifests).contains(app_id));
            }
        }
        assert forall|id: Identity| split.contains(id) implies steam_identities(
            ids,
        ).contains(id) by {
            if steam_identities(scan_app_ids(rest)).contains(id) {
                let app_id = choose|app_id: nat|
                    scan_app_ids(rest).contains(app_id) && #[trigger] steam_identity(app_id) == id;
                let i = choose|i: int|
                    0 <= i < rest.len() && (#[trigger] rest[i]) is Some && folder_app_ids(
                        rest[i].unwrap(),
                    ).contains(app_id);
                assert(scan[i] == rest[i]);
                assert(ids.contains(app_id));
            } else {
                let app_id = choose|app_id: nat|
                    folder_app_ids(manifests).contains(app_id) && #[trigger] steam_identity(app_id)
                        == id;
                assert(scan[scan.len() - 1] == Some(manifests));
                assert(ids.contains(app_id));
            }
        }
    }
}

/// Two readable scans in which the same applications were found list the
/// same games, as far as identifier and platform tell games apart. So two
/// listings of an installation that did not change in between agree on the
/// games it holds.
pub proof fn lemma_same_apps_same_games(
    first: ScanModel,
    second: ScanModel,
)
    requires
        scan_readable(first),
        scan_readable(second),
        scan_app_ids(first) == scan_app_ids(second),
    ensures
        identities(scan_games(first)) == identities(scan_games(second)),
{
    lemma_identities_of_scan(first);
    lemma_identities_of_scan(second);
}

} // verus!
