//! The launcher's state and the decisions of its event loop.
//!
//! The event loop itself is the caller's. It hands every event to
//! [`GameLauncher::update`] as a [`Message`] and carries out the [`Effect`]
//! that comes back.

use crate::data::game::{game_views, Game, GameView};
use crate::platform::steam::steam_name;
use crate::platform::{
    distinct_names, load_platforms, loaded, LaunchCommand, Platform, PlatformError, Provider,
};
use crate::text::same_text;
use vstd::prelude::*;

verus! {

/// The colour schemes of the user interface.
#[derive(Debug, Clone, Copy, PartialEq, Eq, Hash, Structural)]
pub enum MyTheme {
    Light,
    Dark,
}

/// An event for the launcher to handle.
#[derive(Debug, Clone)]
pub enum Message {
    /// The listing that was started at startup has finished with these games.
    GameListLoaded(Vec<Game>),
    /// The user asked to start a game: the platform's name, then the game's
    /// identifier on that platform.
    LaunchGame(String, String),
}

/// What the event loop is to do after an update.
#[derive(Debug)]
pub enum Effect {
    /// Nothing is left to do.
    Nothing,
    /// Spawn this command and do not wait for it.
    Spawn(LaunchCommand),
    /// Tell the user that the game could not be started.
    Report(PlatformError),
}

/// One row of the launcher's window.
#[derive(Debug, Clone)]
pub struct GameRow {
    /// The text shown for the game.
    pub title: String,
    /// What the row's launch control sends when it is pressed.
    pub request: Message,
}

/// State of the launcher: the platforms found at startup and the games last
/// listed.
pub struct GameLauncher {
    platforms: Vec<Provider>,
    games: Vec<Game>,
    ready: bool,
}

/// What a [`GameLauncher`] holds.
pub struct LauncherView {
    /// The platforms found at startup, in the order in which they are asked.
    pub platforms: Seq<Provider>,
    /// The games last listed, in the order in which they are shown.
    pub games: Seq<GameView>,
    /// Whether a listing has arrived yet. Until then the launcher is loading
    /// and shows no game.
    pub ready: bool,
}

impl View for GameLauncher {
    type V = LauncherView;

    closed spec fn view(&self) -> LauncherView {
        LauncherView {
            platforms: self.platforms@,
            games: game_views(self.games@),
            ready: self.ready,
        }
    }
}

/// Some platform of the list goes by `name`.
pub open spec fn provided(platforms: Seq<Provider>, name: Seq<char>) -> bool {
    exists|i: int| 0 <= i < platforms.len() && (#[trigger] platforms[i]).name_spec() == name
}

/// No platform of the list goes by `name`.
pub open spec fn none_named(platforms: Seq<Provider>, name: Seq<char>) -> bool {
    forall|i: int| 0 <= i < platforms.len() ==> (#[trigger] platforms[i]).name_spec() != name
}

/// The platform at `i` is the first of the list that goes by `name`.
pub open spec fn first_named(platforms: Seq<Provider>, name: Seq<char>, i: int) -> bool {
    &&& 0 <= i < platforms.len()
    &&& platforms[i].name_spec() == name
    &&& forall|j: int| 0 <= j < i ==> (#[trigger] platforms[j]).name_spec() != name
}

/// The platform at `i` goes by `name`, and no other platform of the list does.
pub open spec fn sole_provider(platforms: Seq<Provider>, name: Seq<char>, i: int) -> bool {
    &&& 0 <= i < platforms.len()
    &&& platforms[i].name_spec() == name
    &&& forall|j: int|
        0 <= j < platforms.len() && (#[trigger] platforms[j]).name_spec() == name ==> j == i
}

/// The games of several listings put together: those of the first listing,
/// then those of the second, and so on. A listing that failed adds nothing.
pub open spec fn merged(listings: Seq<Result<Vec<Game>, PlatformError>>) -> Seq<Game>
    decreases listings.len(),
{
    if listings.len() == 0 {
        Seq::empty()
    } else {
        merged(listings.drop_last()) + match listings.last() {
            Ok(games) => games@,
            Err(_) => Seq::empty(),
        }
    }
}

/// Puts the listings of several platforms together into one list of games.
///
/// The order of the platforms is kept, and within a platform the order of its
/// listing. A platform whose listing failed contributes no game and raises no
/// error.
pub fn merge_listings(listings: Vec<Result<Vec<Game>, PlatformError>>) -> (games: Vec<Game>)
    ensures
        games@ == merged(listings@),
{
    let ghost all = listings@;
    let mut games: Vec<Game> = Vec::new();
    for listing in it: listings
        invariant
            it.seq() == all,
            games@ == merged(all.take(it.index() as int)),
    {
        proof {
            assert(all.take(it.index() + 1).drop_last() =~= all.take(it.index() as int));
        }
        match listing {
            Ok(mut found) => {
                games.append(&mut found);
            },
            Err(_) => {},
        }
    }
    assert(all.take(all.len() as int) =~= all);
    games
}

/// The listings are answers that the platforms may give to a request for
/// their games: one answer for each platform, in the order of the platforms.
pub open spec fn answered(
    platforms: Seq<Provider>,
    listings: Seq<Result<Vec<Game>, PlatformError>>,
) -> bool {
    &&& listings.len() == platforms.len()
    &&& forall|i: int|
        #![trigger listings[i]]
        0 <= i < platforms.len() ==> call_ensures(
            Provider::list_games,
            (&platforms[i],),
            listings[i],
        )
}

/// The games are what asking the platforms comes to: the answers that the
/// platforms gave, one each and in their order, merged into one list.
pub open spec fn collected(platforms: Seq<Provider>, games: Seq<Game>) -> bool {
    exists|listings: Seq<Result<Vec<Game>, PlatformError>>|
        answered(platforms, listings) && games == merged(listings)
}

/// Every game of the merged answers of the first platforms of a list is filed
/// under the name of one of those platforms.
proof fn lemma_first_answers_are_provided(
    platforms: Seq<Provider>,
    listings: Seq<Result<Vec<Game>, PlatformError>>,
)
    requires
        listings.len() <= platforms.len(),
        forall|i: int|
            #![trigger listings[i]]
            0 <= i < listings.len() ==> call_ensures(
                Provider::list_games,
                (&platforms[i],),
                listings[i],
            ),
    ensures
        forall|k: int|
            0 <= k < merged(listings).len() ==> provided(
                platforms,
                (#[trigger] merged(listings)[k]).platform@,
            ),
    decreases listings.len(),
{
    if listings.len() > 0 {
        let rest = listings.drop_last();
        let last = listings.len() - 1;
        assert forall|i: int| #![trigger rest[i]] 0 <= i < rest.len() implies call_ensures(
            Provider::list_games,
            (&platforms[i],),
            rest[i],
        ) by {
            assert(rest[i] == listings[i]);
        }
        lemma_first_answers_are_provided(platforms, rest);
        assert forall|k: int| 0 <= k < merged(listings).len() implies provided(
            platforms,
            (#[trigger] merged(listings)[k]).platform@,
        ) by {
            if k >= merged(rest).len() {
                assert(platforms[last].name_spec() == merged(listings)[k].platform@);
            }
        }
    }
}

/// Whatever the platforms answer, every game of their merged answers is filed
/// under the name of one of them, and of exactly one where no two platforms
/// share a name.
pub proof fn lemma_merged_games_are_provided(
    platforms: Seq<Provider>,
    listings: Seq<Result<Vec<Game>, PlatformError>>,
)
    requires
        answered(platforms, listings),
    ensures
        forall|k: int|
            0 <= k < merged(listings).len() ==> provided(
                platforms,
                (#[trigger] merged(listings)[k]).platform@,
            ),
        distinct_names(platforms) ==> forall|k: int|
            0 <= k < merged(listings).len() ==> exists|i: int|
                sole_provider(platforms, (#[trigger] merged(listings)[k]).platform@, i),
{
    lemma_first_answers_are_provided(platforms, listings);
    if distinct_names(platforms) {
        assert forall|k: int| 0 <= k < merged(listings).len() implies exists|i: int|
            sole_provider(platforms, (#[trigger] merged(listings)[k]).platform@, i) by {
            lemma_exactly_one_provider(platforms, merged(listings)[k].platform@);
        }
    }
}

/// Asks every platform for its games and puts the answers together, in the
/// order of the platforms.
///
/// A platform that cannot list its games is passed over: its games are
/// missing from the result and no error is raised. What the platforms answer
/// is for them to say; the result is their answers merged as
/// [`merge_listings`] merges them. So every game of the result is filed under
/// the name of one of the platforms, and of exactly one where no two
/// platforms share a name.
pub fn collect_games(platforms: &Vec<Provider>) -> (games: Vec<Game>)
    ensures
        collected(platforms@, games@),
        forall|k: int|
            0 <= k < games@.len() ==> provided(platforms@, (#[trigger] games@[k]).platform@),
        distinct_names(platforms@) ==> forall|k: int|
            0 <= k < games@.len() ==> exists|i: int|
                sole_provider(platforms@, (#[trigger] games@[k]).platform@, i),
{
    let mut listings: Vec<Result<Vec<Game>, PlatformError>> = Vec::new();
    let mut i: usize = 0;
    while i < platforms.len()
        invariant
            i <= platforms@.len(),
            listings@.len() == i,
            forall|j: int|
                #![trigger listings@[j]]
                0 <= j < i ==> call_ensures(Provider::list_games, (&platforms@[j],), listings@[j]),
        decreases platforms@.len() - i,
    {
        let listing = platforms[i].list_games();
        listings.push(listing);
        i += 1;
    }
    let ghost answers = listings@;
    let games = merge_listings(listings);
    proof {
        assert(answered(platforms@, answers) && games@ == merged(answers));
        lemma_merged_games_are_provided(platforms@, answers);
    }
    games
}

/// Finds the games of this machine: looks for the installed platforms and
/// collects what they list. This is the work that a launcher starts in the
/// background when it opens; the result goes back to it as
/// [`Message::GameListLoaded`].
///
/// Which platforms are found and what they answer is for the machine to say.
/// The result is the answers of the platforms that [`load_platforms`] found,
/// merged as [`collect_games`] merges them; a platform that could not list
/// its games adds nothing.
pub fn load_games() -> (games: Vec<Game>)
    ensures
        exists|platforms: Seq<Provider>| loaded(platforms) && collected(platforms, games@),
        forall|k: int| 0 <= k < games@.len() ==> (#[trigger] games@[k]).platform@ == steam_name(),
{
    let platforms = load_platforms();
    let games = collect_games(&platforms);
    assert(loaded(platforms@) && collected(platforms@, games@));
    games
}

/// Looks up the platform that a launch request names: the first of the list
/// that goes by `name`, if there is one.
pub fn find_platform(platforms: &Vec<Provider>, name: &str) -> (found: Option<usize>)
    ensures
        found matches Some(i) ==> first_named(platforms@, name@, i as int),
        found is None ==> none_named(platforms@, name@),
{
    let mut i: usize = 0;
    while i < platforms.len()
        invariant
            i <= platforms@.len(),
            forall|j: int| 0 <= j < i ==> (#[trigger] platforms@[j]).name_spec() != name@,
        decreases platforms@.len() - i,
    {
        if same_text(platforms[i].name(), name) {
            return Some(i);
        }
        i += 1;
    }
    None
}

/// What is left to do about a launch request, given what became of it:
/// nothing where no platform took it, the command to spawn where a platform
/// decided on one, and the error to show where the platform refused.
pub open spec fn effect_of(launch: Option<Result<LaunchCommand, PlatformError>>) -> Effect {
    match launch {
        None => Effect::Nothing,
        Some(Ok(command)) => Effect::Spawn(command),
        Some(Err(error)) => Effect::Report(error),
    }
}

/// The launch is a decision that the provider took on a request to start the
/// game `app_id`.
pub open spec fn decided(
    provider: Provider,
    app_id: Seq<char>,
    launch: Result<LaunchCommand, PlatformError>,
) -> bool {
    exists|id: &str| id@ == app_id && #[trigger] call_ensures(
        Provider::launch_game,
        (&provider, id),
        launch,
    )
}

/// Says what is left to do about a launch request, given what became of it.
pub fn launch_effect(launch: Option<Result<LaunchCommand, PlatformError>>) -> (effect: Effect)
    ensures
        effect == effect_of(launch),
{
    match launch {
        None => Effect::Nothing,
        Some(Ok(command)) => Effect::Spawn(command),
        Some(Err(error)) => Effect::Report(error),
    }
}

/// The request that the launch control of a game's row sends: start this
/// game on the platform it is filed under.
pub fn launch_request(game: &Game) -> (message: Message)
    ensures
        message matches Message::LaunchGame(platform, app_id) && platform@ == game.platform@
            && app_id@ == game.app_id@,
{
    Message::LaunchGame(game.platform.clone(), game.app_id.clone())
}

/// The row shows the game: it bears the game's name, and its launch control
/// asks for this game on the platform that the game is filed under.
pub open spec fn shows(row: GameRow, game: GameView) -> bool {
    &&& row.title@ == game.name
    &&& row.request matches Message::LaunchGame(platform, app_id)
    &&& platform@ == game.platform
    &&& app_id@ == game.app_id
}

/// The effect is what `provider` made of a request to start `app_id`: either
/// the command with the provider's launch argument for that game, or the
/// report that the provider's launcher is missing.
pub open spec fn launched_by(provider: Provider, app_id: Seq<char>, effect: Effect) -> bool {
    match effect {
        Effect::Nothing => false,
        Effect::Spawn(command) => command.argument@ == provider.launch_argument(app_id),
        Effect::Report(error) => error == PlatformError::NotInstalled,
    }
}

impl GameLauncher {
    /// Opens the launcher on the platforms installed on this machine, with no
    /// game listed yet.
    ///
    /// Which platforms are installed is for the machine to say: the launcher
    /// holds the list that [`load_platforms`] returned.
    pub fn new() -> (launcher: Self)
        ensures
            loaded(launcher@.platforms),
            launcher@.games.len() == 0,
            !launcher@.ready,
            launcher@.platforms.len() <= 1,
            distinct_names(launcher@.platforms),
    {
        let platforms = load_platforms();
        assert(loaded(platforms@));
        Self::with_platforms(platforms)
    }

    /// Opens the launcher on the given platforms, with no game listed yet.
    pub fn with_platforms(platforms: Vec<Provider>) -> (launcher: Self)
        ensures
            launcher@.platforms == platforms@,
            launcher@.games.len() == 0,
            !launcher@.ready,
    {
        GameLauncher { platforms, games: Vec::new(), ready: false }
    }

    /// The title of the launcher's window.
    pub fn title(&self) -> (title: String)
        ensures
            title@ == "Universal Game Launcher"@,
    {
        "Universal Game Launcher".to_owned()
    }

    /// The platforms found at startup.
    pub fn platforms(&self) -> (platforms: &Vec<Provider>)
        ensures
            platforms@ == self@.platforms,
    {
        &self.platforms
    }

    /// The games to show, one row each.
    pub fn games(&self) -> (games: &Vec<Game>)
        ensures
            game_views(games@) == self@.games,
    {
        &self.games
    }

    /// The rows of the window: one for each game, in the order of the games.
    pub fn rows(&self) -> (rows: Vec<GameRow>)
        ensures
            rows@.len() == self@.games.len(),
            forall|i: int| 0 <= i < rows@.len() ==> shows(#[trigger] rows@[i], self@.games[i]),
    {
        let mut rows: Vec<GameRow> = Vec::new();
        let mut i: usize = 0;
        while i < self.games.len()
            invariant
                i <= self.games@.len(),
                rows@.len() == i,
                forall|k: int|
                    0 <= k < i ==> shows(#[trigger] rows@[k], game_views(self.games@)[k]),
            decreases self.games@.len() - i,
        {
            let game = &self.games[i];
            rows.push(GameRow { title: game.name.clone(), request: launch_request(game) });
            i += 1;
        }
        rows
    }

    /// Whether a listing has arrived since the launcher was opened.
    pub fn is_ready(&self) -> (ready: bool)
        ensures
            ready == self@.ready,
    {
        self.ready
    }

    /// Handles one event and says what the event loop is to do next.
    ///
    /// A finished listing replaces the games shown, whole, and makes the
    /// launcher ready; it stays ready from then on. A launch request changes
    /// nothing in the launcher. It goes to the first platform that bears the
    /// requested name, and what that platform decides comes back as the
    /// effect: the command to spawn, or the error to show to the user. A
    /// request that names no platform of the launcher is dropped.
    pub fn update(&mut self, message: Message) -> (effect: Effect)
        ensures
            final(self)@.platforms == old(self)@.platforms,
            old(self)@.ready ==> final(self)@.ready,
            message matches Message::GameListLoaded(games) ==> {
                &&& final(self)@.games == game_views(games@)
                &&& final(self)@.ready
                &&& effect is Nothing
            },
            message matches Message::LaunchGame(platform, app_id) ==> {
                &&& final(self)@ == old(self)@
                &&& none_named(old(self)@.platforms, platform@) ==> effect is Nothing
                &&& forall|i: int| #[trigger]
                    first_named(old(self)@.platforms, platform@, i) ==> launched_by(
                        old(self)@.platforms[i],
                        app_id@,
                        effect,
                    )
                &&& forall|i: int| #[trigger]
                    first_named(old(self)@.platforms, platform@, i) ==> exists|
                        launch: Result<LaunchCommand, PlatformError>,
                    |
                        decided(old(self)@.platforms[i], app_id@, launch) && effect == effect_of(
                            Some(launch),
                        )
            },
    {
        match message {
            Message::GameListLoaded(games) => {
                self.games = games;
                self.ready = true;
                Effect::Nothing
            },
            Message::LaunchGame(platform, app_id) => {
                match find_platform(&self.platforms, platform.as_str()) {
                    Some(i) => {
                        let id = app_id.as_str();
                        let launch = self.platforms[i].launch_game(id);
                        let ghost answer = launch;
                        let effect = launch_effect(Some(launch));
                        proof {
                            let provider = self.platforms@[i as int];
                            assert(call_ensures(Provider::launch_game, (&provider, id), answer));
                            assert(decided(provider, app_id@, answer));
                            assert forall|j: int| #[trigger]
                                first_named(self.platforms@, platform@, j) implies j == i by {
                                if j < i {
                                    assert(self.platforms@[j].name_spec() != platform@);
                                } else if i < j {
                                    assert(self.platforms@[i as int].name_spec() != platform@);
                                }
                            }
                        }
                        effect
                    },
                    None => launch_effect(None),
                }
            },
        }
    }
}

/// Where no two platforms share a name, a game that is filed under the name
/// of some platform of the list is filed under the name of exactly one.
pub proof fn lemma_exactly_one_provider(platforms: Seq<Provider>, name: Seq<char>)
    requires
        distinct_names(platforms),
        provided(platforms, name),
    ensures
        exists|i: int| sole_provider(platforms, name, i),
{
    let i = choose|i: int|
        0 <= i < platforms.len() && (#[trigger] platforms[i]).name_spec() == name;
    assert forall|j: int|
        0 <= j < platforms.len() && (#[trigger] platforms[j]).name_spec() == name implies j
        == i by {
        if j < i {
            assert(platforms[j].name_spec() != platforms[i].name_spec());
        } else if i < j {
            assert(platforms[i].name_spec() != platforms[j].name_spec());
        }
    }
    assert(sole_provider(platforms, name, i));
}

/// A launch request for a game that is filed under the name of some platform
/// of the list finds a platform to go to.
pub proof fn lemma_request_is_routed(platforms: Seq<Provider>, name: Seq<char>)
    requires
        provided(platforms, name),
    ensures
        exists|i: int| first_named(platforms, name, i),
        !none_named(platforms, name),
    decreases platforms.len(),
{
    let last = platforms.len() - 1;
    let rest = platforms.drop_last();
    if exists|i: int| 0 <= i < rest.len() && (#[trigger] rest[i]).name_spec() == name {
        lemma_request_is_routed(rest, name);
        let i = choose|i: int| first_named(rest, name, i);
        assert forall|j: int| 0 <= j < i implies (#[trigger] platforms[j]).name_spec() != name by {
            assert(rest[j].name_spec() != name);
        }
        assert(first_named(platforms, name, i));
    } else {
        let i = choose|i: int|
            0 <= i < platforms.len() && (#[trigger] platforms[i]).name_spec() == name;
        if i < last {
            assert(rest[i].name_spec() == name);
        }
        assert forall|j: int| 0 <= j < last implies (#[trigger] platforms[j]).name_spec()
            != name by {
            assert(rest[j] == platforms[j]);
        }
        assert(first_named(platforms, name, last));
    }
}

} // verus!
