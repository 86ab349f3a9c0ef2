use vstd::prelude::*;
use crate::errors::network_error::{NetworkError, NetworkErrorType};
use crate::network::igdb_models::GameResponse;
use crate::network::network_models::NetworkResult;

verus! {

pub const GAMES_PATH: &'static str = "games";

pub const GAME_QUERY_START: &'static str = "fields cover.*; search \"";

pub const GAME_QUERY_END: &'static str = "\";";

/// The game database query for the cover of the games named like
/// `game_name`: `fields cover.*; search "{game_name}";`.
pub open spec fn game_query_spec(game_name: Seq<char>) -> Seq<char> {
    GAME_QUERY_START@ + game_name + GAME_QUERY_END@
}

pub fn game_search_query(game_name: &String) -> (r: String)
    ensures
        r@ == game_query_spec(game_name@),
{
    let mut r = String::from_str(GAME_QUERY_START);
    r.append(game_name.as_str());
    r.append(GAME_QUERY_END);
    r
}

/// What a cover search came to.
#[derive(Debug, PartialEq, Eq)]
pub enum CoverLookup {
    /// The first game found has a cover with this image id.
    Cover(String),
    /// No game was found, or the first one has no cover.
    NoCover,
    /// The access token was refused: refresh it; there is no cover.
    RefreshToken,
    /// The search failed otherwise; there is no cover.
    Failed(NetworkErrorType),
}

/// The cover of the first game of a search, refreshing the token when the
/// database refused it.
pub open spec fn cover_lookup_spec(result: NetworkResult<Vec<GameResponse>>) -> CoverLookup {
    match result {
        Ok(games) => if games@.len() > 0 && games@[0].cover is Some {
            CoverLookup::Cover(games@[0].cover->0.image_id)
        } else {
            CoverLookup::NoCover
        },
        Err(err) => if err.error_type == NetworkErrorType::Unauthorized {
            CoverLookup::RefreshToken
        } else {
            CoverLookup::Failed(err.error_type)
        },
    }
}

/// A search that found games gives the cover of the first game found,
/// whatever follows it, and no cover only when that game has none.
pub proof fn lemma_cover_of_first_game(games: Vec<GameResponse>)
    requires
        games@.len() > 0,
    ensures
        games@[0].cover matches Some(c) ==> cover_lookup_spec(Ok(games)) == CoverLookup::Cover(
            c.image_id,
        ),
        games@[0].cover is None ==> cover_lookup_spec(Ok(games)) == CoverLookup::NoCover,
{
}

/// Two searches whose first games are the same come to the same lookup,
/// however many games each found.
pub proof fn lemma_only_first_game_counts(a: Vec<GameResponse>, b: Vec<GameResponse>)
    requires
        a@.len() > 0,
        b@.len() > 0,
        a@[0] == b@[0],
    ensures
        cover_lookup_spec(Ok(a)) == cover_lookup_spec(Ok(b)),
{
}

/// A search that found nothing gives no cover; a refused token asks for a
/// refresh, and any other failure is passed on.
pub proof fn lemma_no_game_or_failure(games: Vec<GameResponse>, err: NetworkError)
    requires
        games@.len() == 0,
    ensures
        cover_lookup_spec(Ok(games)) == CoverLookup::NoCover,
        err.error_type == NetworkErrorType::Unauthorized ==> cover_lookup_spec(Err(err))
            == CoverLookup::RefreshToken,
        err.error_type != NetworkErrorType::Unauthorized ==> cover_lookup_spec(Err(err))
            == CoverLookup::Failed(err.error_type),
{
}

pub fn cover_lookup(result: &NetworkResult<Vec<GameResponse>>) -> (r: CoverLookup)
    ensures
        r == cover_lookup_spec(*result),
        match *result {
            Ok(games) => {
                &&& (games@.len() > 0 && games@[0].cover is Some) ==> r == CoverLookup::Cover(
                    games@[0].cover->0.image_id,
                )
                &&& (games@.len() == 0 || games@[0].cover is None) ==> r == CoverLookup::NoCover
            },
            Err(err) => {
                &&& err.error_type == NetworkErrorType::Unauthorized ==> r
                    == CoverLookup::RefreshToken
                &&& err.error_type != NetworkErrorType::Unauthorized ==> r == CoverLookup::Failed(
                    err.error_type,
                )
            },
        },
{
    match result {
        Ok(games) => {
            if games.len() > 0 {
                match &games[0].cover {
                    Some(cover) => CoverLookup::Cover(cover.image_id.clone()),
                    None => CoverLookup::NoCover,
                }
            } else {
                CoverLookup::NoCover
            }
        },
        Err(err) => match err.error_type {
            NetworkErrorType::Unauthorized => CoverLookup::RefreshToken,
            other => CoverLookup::Failed(other),
        },
    }
}

/// The URL of a cover image: `{base_url}/t_{image_size}/{image_id}.png`.
pub open spec fn cover_image_url_spec(base_url: Seq<char>, image_size: Seq<char>, image_id: Seq<char>) -> Seq<char> {
    base_url + seq!['/', 't', '_'] + image_size + seq!['/'] + image_id + seq!['.', 'p', 'n', 'g']
}

pub fn cover_image_url(base_url: &String, image_size: &String, image_id: &String) -> (r: String)
    ensures
        r@ == cover_image_url_spec(base_url@, image_size@, image_id@),
{
    proof {
        reveal_strlit("/t_");
        reveal_strlit("/");
        reveal_strlit(".png");
    }
    let mut r = base_url.clone();
    r.append("/t_");
    r.append(image_size.as_str());
    r.append("/");
    r.append(image_id.as_str());
    r.append(".png");
    r
}

} // verus!
