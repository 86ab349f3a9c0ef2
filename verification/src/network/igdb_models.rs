use vstd::prelude::*;

verus! {

/// The cover image of a game in the game database.
#[derive(Debug)]
pub struct CoverResponse {
    pub id: i64,
    pub game: i64,
    pub height: i64,
    pub image_id: String,
    pub url: String,
    pub width: i64,
    pub checksum: String,
}

/// A game found in the game database, with its cover where it has one.
#[derive(Debug)]
pub struct GameResponse {
    pub id: i64,
    pub cover: Option<CoverResponse>,
}

} // verus!
