//! Game platforms: what every platform can do, the platforms this crate
//! knows, and how they are discovered.

pub mod locator;
pub mod steam;

use crate::data::game::Game;
use std::path::PathBuf;
use steam::SteamPlatform;
use vstd::prelude::*;

verus! {

/// Why a platform could not do what was asked of it.
#[derive(Debug, Clone, Copy, PartialEq, Eq, Structural)]
pub enum PlatformError {
    /// The platform's launcher or installation cannot be found.
    NotInstalled,
    /// The operating system could not start the launch command.
    LaunchFailed,
    /// The platform's record of installed games could not be read.
    FetchFailed,
}

/// A program to start with a single argument.
///
/// A platform only decides what is to be started. Starting it is left to the
/// caller, who spawns the process and does not wait for it.
#[derive(Debug)]
pub struct LaunchCommand {
    /// The executable to spawn.
    pub program: PathBuf,
    /// The only argument it is given.
    pub argument: String,
}

/// What every game platform offers: a name, the list of its games, and the way
/// to start one of them.
pub trait Platform: Send + Sync {
    /// The platform's name. It depends on nothing but the provider itself, so
    /// every call of [`Platform::name`] on one provider gives the same text.
    spec fn name_spec(&self) -> Seq<char>;

    /// The argument that makes the platform's launcher start the game
    /// `app_id`.
    spec fn launch_argument(&self, app_id: Seq<char>) -> Seq<char>;

    /// The name under which the platform's games are filed.
    fn name(&self) -> (name: &str)
        ensures
            name@ == self.name_spec(),
    ;

    /// Lists every game the platform has installed, afresh on each call.
    ///
    /// Every game of the list is filed under this platform's name. A listing
    /// is all or nothing: if any part of the platform's records cannot be
    /// read the call fails with `FetchFailed`.
    fn list_games(&self) -> (listing: Result<Vec<Game>, PlatformError>)
        ensures
            listing matches Ok(games) ==> forall|i: int|
                0 <= i < games@.len() ==> (#[trigger] games@[i]).platform@ == self.name_spec(),
            listing matches Err(error) ==> error == PlatformError::FetchFailed,
    ;

    /// Decides how the game `app_id` is started: the command that the caller
    /// is to spawn, or `NotInstalled` when the platform's launcher is missing.
    fn launch_game(&self, app_id: &str) -> (launch: Result<LaunchCommand, PlatformError>)
        ensures
            launch matches Ok(command) ==> command.argument@ == self.launch_argument(app_id@),
            launch matches Err(error) ==> error == PlatformError::NotInstalled,
    ;
}

/// A provider goes by one name: whatever two calls of [`Platform::name`] on it
/// return, they return the same text.
pub proof fn lemma_name_is_constant<P: Platform>(provider: &P, first: &str, second: &str)
    requires
        call_ensures(P::name, (provider,), first),
        call_ensures(P::name, (provider,), second),
    ensures
        first@ == second@,
{
}

/// A platform that this crate knows how to read.
///
/// One variant per platform: a caller that goes through [`Platform`] need not
/// change when a platform is added.
pub enum Provider {
    Steam(SteamPlatform),
}

impl Platform for Provider {
    open spec fn name_spec(&self) -> Seq<char> {
        match self {
            Provider::Steam(steam) => steam.name_spec(),
        }
    }

    open spec fn launch_argument(&self, app_id: Seq<char>) -> Seq<char> {
        match self {
            Provider::Steam(steam) => steam.launch_argument(app_id),
        }
    }

    fn name(&self) -> (name: &str) {
        match self {
            Provider::Steam(steam) => steam.name(),
        }
    }

    /// Hands the request on to the platform behind the provider and gives
    /// back that platform's answer.
    fn list_games(&self) -> (listing: Result<Vec<Game>, PlatformError>)
        ensures
            self.listed(listing),
    {
        match self {
            Provider::Steam(steam) => steam.list_games(),
        }
    }

    /// Hands the request on to the platform behind the provider and gives
    /// back that platform's decision.
    fn launch_game(&self, app_id: &str) -> (launch: Result<LaunchCommand, PlatformError>)
        ensures
            self.launched(app_id, launch),
    {
        match self {
            Provider::Steam(steam) => steam.launch_game(app_id),
        }
    }
}

impl Provider {
    /// The listing is an answer that the platform behind the provider gave to
    /// a request for its games.
    pub open spec fn listed(&self, listing: Result<Vec<Game>, PlatformError>) -> bool {
        match self {
            Provider::Steam(steam) => call_ensures(SteamPlatform::list_games, (steam,), listing),
        }
    }

    /// The launch is a decision that the platform behind the provider took
    /// on a request to start the game `app_id`.
    pub open spec fn launched(
        &self,
        app_id: &str,
        launch: Result<LaunchCommand, PlatformError>,
    ) -> bool {
        match self {
            Provider::Steam(steam) => call_ensures(
                SteamPlatform::launch_game,
                (steam, app_id),
                launch,
            ),
        }
    }
}

/// No two of the platforms go by the same name.
pub open spec fn distinct_names(platforms: Seq<Provider>) -> bool {
    forall|i: int, j: int|
        0 <= i < j < platforms.len() ==> (#[trigger] platforms[i]).name_spec() != (
        #[trigger] platforms[j]).name_spec()
}

/// The platforms that were found, given the outcome of looking for each
/// platform this crate knows: one entry for each that was found, none for one
/// that was not.
pub open spec fn found_platforms(steam: Result<SteamPlatform, PlatformError>) -> Seq<Provider> {
    match steam {
        Ok(found) => seq![Provider::Steam(found)],
        Err(_) => Seq::empty(),
    }
}

/// Collects the platforms that were found, given the outcome of looking for
/// each platform this crate knows. A platform that was not found is left out
/// without complaint, so the list may be empty.
pub fn available_platforms(steam: Result<SteamPlatform, PlatformError>) -> (platforms: Vec<
    Provider,
>)
    ensures
        platforms@ == found_platforms(steam),
{
    let mut platforms: Vec<Provider> = Vec::new();
    if let Ok(found) = steam {
        platforms.push(Provider::Steam(found));
    }
    platforms
}

/// Looks for every platform this crate knows and returns those that are
/// installed on this machine, each under a name of its own.
///
/// The call probes the machine afresh every time and cannot fail. Which
/// platforms it finds is for the machine to say; a platform that is not found
/// is left out, and where none is installed the list is empty.
pub fn load_platforms() -> (platforms: Vec<Provider>)
    ensures
        exists|steam: Result<SteamPlatform, PlatformError>|
            call_ensures(SteamPlatform::new, (), steam) && platforms@ == found_platforms(steam),
        platforms@.len() <= 1,
        distinct_names(platforms@),
{
    let steam = SteamPlatform::new();
    let ghost answer = steam;
    let platforms = available_platforms(steam);
    assert(call_ensures(SteamPlatform::new, (), answer) && platforms@ == found_platforms(answer));
    platforms
}

/// The platforms are a list that [`load_platforms`] returned: those that a
/// search of this machine found.
pub open spec fn loaded(platforms: Seq<Provider>) -> bool {
    exists|found: Vec<Provider>| call_ensures(load_platforms, (), found) && found@ == platforms
}

/// What a launch has come to once the operating system has answered the
/// request to spawn its command: done where the process was spawned,
/// `LaunchFailed` where it was not. Whether the game then runs is not known.
pub fn spawn_outcome(spawned: bool) -> (outcome: Result<(), PlatformError>)
    ensures
        spawned ==> outcome is Ok,
        !spawned ==> outcome == Err::<(), PlatformError>(PlatformError::LaunchFailed),
{
    if spawned {
        Ok(())
    } else {
        Err(PlatformError::LaunchFailed)
    }
}

} // verus!
