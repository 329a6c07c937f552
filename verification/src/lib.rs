//! A typed client for RetroMMO's public read-only web API: player lookups,
//! the online-player list, the registered-account count, and a sequential
//! pager over leaderboard pages. The library builds each request URL, decodes
//! each response body against the documented response grammar, and keeps the
//! pager's state, all under proved contracts; issuing the HTTP requests
//! themselves is left to the caller.

pub mod entry;
pub mod error;
pub mod json;
pub mod leaderboard;
pub mod player;
pub mod prelude;
pub mod text;

use crate::entry::LeaderboardEntry;
use crate::error::{spec_is_server_error, Error, SERVER_ERROR_STATUS};
use crate::json::{
    decode_online_players, decode_player, decode_registered_count, spec_decode_count,
    spec_decode_online, spec_decode_page, spec_decode_player, strings_view,
};
use crate::leaderboard::Leaderboard;
use crate::player::Player;
use crate::text::{spec_digits, u64_to_string};
use vstd::prelude::*;
use vstd::string::*;

verus! {

/// The remote host every query goes against.
pub const API_URL: &'static str = "https://play.retro-mmo.com";

/// A list of online players, by username only.
pub type OnlineList = Vec<String>;

/// One page of the leaderboard, in server rank order.
pub type LeaderboardPage = Vec<LeaderboardEntry>;

// ---------------------------------------------------------------------------
// The URL of each query.
// ---------------------------------------------------------------------------

/// The URL that fetches one player's record.
pub open spec fn spec_player_url(username: Seq<char>) -> Seq<char> {
    API_URL@ + "/users/"@ + username + ".json"@
}

/// The URL that fetches the online-players list.
pub open spec fn spec_online_players_url() -> Seq<char> {
    API_URL@ + "/players.json"@
}

/// The URL that fetches the registered-account count.
pub open spec fn spec_registered_count_url() -> Seq<char> {
    API_URL@ + "/registered-users.json"@
}

/// The URL that fetches a leaderboard page: the page number is an optional
/// query parameter.
pub open spec fn spec_leaderboard_page_url(page: Option<u32>) -> Seq<char> {
    match page {
        Some(n) => API_URL@ + "/leaderboards.json?page="@ + spec_digits(n as nat),
        None => API_URL@ + "/leaderboards.json"@,
    }
}

/// The URL the top-players helper queries: leaderboard page one.
pub open spec fn spec_top_players_url() -> Seq<char> {
    spec_leaderboard_page_url(Some(1u32))
}

pub fn player_url(username: &str) -> (r: String)
    ensures
        r@ == spec_player_url(username@),
{
    let mut s = API_URL.to_owned();
    s.append("/users/");
    s.append(username);
    s.append(".json");
    proof {
        assert(s@ =~= spec_player_url(username@));
    }
    s
}

pub fn online_players_url() -> (r: String)
    ensures
        r@ == spec_online_players_url(),
{
    let mut s = API_URL.to_owned();
    s.append("/players.json");
    proof {
        assert(s@ =~= spec_online_players_url());
    }
    s
}

pub fn registered_count_url() -> (r: String)
    ensures
        r@ == spec_registered_count_url(),
{
    let mut s = API_URL.to_owned();
    s.append("/registered-users.json");
    proof {
        assert(s@ =~= spec_registered_count_url());
    }
    s
}

pub fn leaderboard_page_url(page: Option<u32>) -> (r: String)
    ensures
        r@ == spec_leaderboard_page_url(page),
{
    match page {
        Some(n) => {
            let mut s = API_URL.to_owned();
            s.append("/leaderboards.json?page=");
            let digits = u64_to_string(n as u64);
            s.append(digits.as_str());
            proof {
                assert(s@ =~= spec_leaderboard_page_url(page));
            }
            s
        },
        None => {
            let mut s = API_URL.to_owned();
            s.append("/leaderboards.json");
            proof {
                assert(s@ =~= spec_leaderboard_page_url(page));
            }
            s
        },
    }
}

pub fn top_players_url() -> (r: String)
    ensures
        r@ == spec_top_players_url(),
{
    leaderboard_page_url(Some(1))
}

// ---------------------------------------------------------------------------
// The outcome of each one-shot query, given the response body. `None` for
// the body means the request itself failed below the JSON layer; every
// failure carries the generic server-error status, transport failures a
// fixed message and decode failures a message naming the decode step.
// ---------------------------------------------------------------------------

/// The outcome of a player query.
pub fn player_outcome(body: Option<&str>) -> (r: Result<Player, Error>)
    ensures
        body is None ==> spec_is_server_error(r, "Failed to get player"@),
        body matches Some(b) ==> match spec_decode_player(b@) {
            Some(p) => r matches Ok(pl) && pl@ == p,
            None => spec_is_server_error(r, "Failed to parse player"@),
        },
{
    match body {
        None => Err(Error::new(SERVER_ERROR_STATUS, Some("Failed to get player".to_owned()))),
        Some(b) => match decode_player(b) {
            Some(p) => Ok(p),
            None => Err(
                Error::new(SERVER_ERROR_STATUS, Some("Failed to parse player".to_owned())),
            ),
        },
    }
}

/// The outcome of an online-players query.
pub fn online_players_outcome(body: Option<&str>) -> (r: Result<OnlineList, Error>)
    ensures
        body is None ==> spec_is_server_error(r, "Failed to get online players"@),
        body matches Some(b) ==> match spec_decode_online(b@) {
            Some(us) => r matches Ok(v) && strings_view(v@) == us,
            None => spec_is_server_error(r, "Failed to parse online players"@),
        },
{
    match body {
        None => Err(
            Error::new(SERVER_ERROR_STATUS, Some("Failed to get online players".to_owned())),
        ),
        Some(b) => match decode_online_players(b) {
            Some(v) => Ok(v),
            None => Err(
                Error::new(SERVER_ERROR_STATUS, Some("Failed to parse online players".to_owned())),
            ),
        },
    }
}

/// The outcome of a registered-count query.
pub fn registered_count_outcome(body: Option<&str>) -> (r: Result<u64, Error>)
    ensures
        body is None ==> spec_is_server_error(r, "Failed to get registered user count"@),
        body matches Some(b) ==> match spec_decode_count(b@) {
            Some(c) => r == Result::<u64, Error>::Ok(c),
            None => spec_is_server_error(r, "Failed to parse registered user count"@),
        },
{
    match body {
        None => Err(
            Error::new(
                SERVER_ERROR_STATUS,
                Some("Failed to get registered user count".to_owned()),
            ),
        ),
        Some(b) => match decode_registered_count(b) {
            Some(c) => Ok(c),
            None => Err(
                Error::new(
                    SERVER_ERROR_STATUS,
                    Some("Failed to parse registered user count".to_owned()),
                ),
            ),
        },
    }
}

/// The outcome of a leaderboard-page query.
pub fn leaderboard_page_outcome(body: Option<&str>) -> (r: Result<LeaderboardPage, Error>)
    ensures
        body is None ==> spec_is_server_error(r, "Failed to get leaderboard"@),
        body matches Some(b) ==> match spec_decode_page(b@) {
            Some(es) => r matches Ok(v) && crate::json::page_view(v@) == es,
            None => spec_is_server_error(r, "Failed to parse leaderboard"@),
        },
{
    match body {
        None => Err(Error::new(SERVER_ERROR_STATUS, Some("Failed to get leaderboard".to_owned()))),
        Some(b) => match crate::json::decode_leaderboard_page(b) {
            Some(v) => Ok(v),
            None => Err(
                Error::new(SERVER_ERROR_STATUS, Some("Failed to parse leaderboard".to_owned())),
            ),
        },
    }
}

/// The outcome of the top-players helper: exactly the outcome of a
/// leaderboard-page query for page one over the same body.
pub fn top_players_outcome(body: Option<&str>) -> (r: Result<LeaderboardPage, Error>)
    ensures
        body is None ==> spec_is_server_error(r, "Failed to get leaderboard"@),
        body matches Some(b) ==> match spec_decode_page(b@) {
            Some(es) => r matches Ok(v) && crate::json::page_view(v@) == es,
            None => spec_is_server_error(r, "Failed to parse leaderboard"@),
        },
{
    leaderboard_page_outcome(body)
}

/// A fresh pager over the leaderboard pages, standing before page one.
pub fn get_leaderboard() -> (r: Leaderboard)
    ensures
        r.page == 0,
        r.entries@.len() == 0,
{
    Leaderboard::new()
}

// ---------------------------------------------------------------------------
// Laws relating the queries.
// ---------------------------------------------------------------------------

/// Law: reads are idempotent on the client side. The request for a page is a
/// function of the page number alone, and the decoded entry sequence is a
/// function of the body alone: two independent pagers that fetch the same
/// page number from an unchanged server see identical ordered entries. What
/// the server answers at two moments is its own affair, not the library's.
pub proof fn lemma_idempotent_reads(n1: u32, n2: u32, b1: Seq<char>, b2: Seq<char>)
    requires
        n1 == n2,
        b1 == b2,
    ensures
        spec_leaderboard_page_url(Some(n1)) == spec_leaderboard_page_url(Some(n2)),
        spec_decode_page(b1) == spec_decode_page(b2),
{
}

/// Law: the top-players helper is the page-one query. It requests the very
/// URL of leaderboard page one, and `top_players_outcome` carries the same
/// contract as `leaderboard_page_outcome` over the same body, so at a fixed
/// point in time the two results agree entry for entry.
pub proof fn lemma_top_players_is_page_one()
    ensures
        spec_top_players_url() == spec_leaderboard_page_url(Some(1u32)),
{
}

} // verus!
