use vstd::prelude::*;

verus! {

/// One game found on this machine.
///
/// A record is built once by the platform that found the game and is not
/// changed afterwards; a new listing replaces the old records wholesale.
#[derive(Debug, Clone)]
pub struct Game {
    /// Title shown to the user.
    pub name: String,
    /// Identifier of the game on its platform, kept as text because every
    /// platform numbers its games in its own way.
    pub app_id: String,
    /// Path of the game's own launcher, empty when none is known.
    pub executable_path: String,
    /// Name of the platform that listed the game; launch requests are routed
    /// by it.
    pub platform: String,
    /// Path of an icon, where one could be resolved.
    pub icon_path: Option<String>,
}

/// What tells one game from another: its identifier, then the name of the
/// platform it belongs to.
pub type Identity = (Seq<char>, Seq<char>);

/// What a [`Game`] holds, as plain sequences of characters.
pub struct GameView {
    pub name: Seq<char>,
    pub app_id: Seq<char>,
    pub executable_path: Seq<char>,
    pub platform: Seq<char>,
    pub icon_path: Option<Seq<char>>,
}

impl GameView {
    /// The game's identity.
    pub open spec fn identity(self) -> Identity {
        (self.app_id, self.platform)
    }
}

impl View for Game {
    type V = GameView;

    open spec fn view(&self) -> GameView {
        GameView {
            name: self.name@,
            app_id: self.app_id@,
            executable_path: self.executable_path@,
            platform: self.platform@,
            icon_path: match self.icon_path {
                Some(path) => Some(path@),
                None => None,
            },
        }
    }
}

/// The views of a list of games, in the same order.
pub open spec fn game_views(games: Seq<Game>) -> Seq<GameView> {
    Seq::new(games.len(), |i: int| games[i]@)
}

/// The identities found in a list of games.
pub open spec fn identities(games: Seq<GameView>) -> Set<Identity> {
    Set::new(
        |id: Identity| exists|i: int| 0 <= i < games.len() && #[trigger] games[i].identity() == id,
    )
}

} // verus!
