//! Values that handlers hand to the wire.
use vstd::prelude::*;

verus! {

/// A member of a game. `joined` is in milliseconds since the Unix epoch.
pub struct GameMember {
    pub member_id: String,
    pub user_id: String,
    pub email: String,
    pub name: String,
    pub joined: i64,
}

/// A round of a game. Times are in milliseconds since the Unix epoch.
pub struct GameRound {
    pub id: String,
    pub position: u32,
    pub prompt: Option<String>,
    pub created: i64,
    pub started: Option<i64>,
    pub fulfilled: Option<i64>,
    pub completed: Option<i64>,
}

/// A game with its members and rounds.
pub struct GameDetails {
    pub id: String,
    pub created: i64,
    pub name: String,
    pub members: Vec<GameMember>,
    pub rounds: Vec<GameRound>,
}

} // verus!
