//! Backend commands for a game loader: listing the available games,
//! downloading a game's assets, and resolving the local games directory.
//!
//! Server communication, file transfer and platform-specific path
//! resolution are out of scope for this crate: each command returns a
//! fixed result, and its contract pins that result down exactly.

use vstd::prelude::*;

verus! {

/// Fetch the list of available games from the server.
///
/// The result is always the literal empty list `"[]"`.
pub fn fetch_games() -> (r: String)
    ensures
        r@ == "[]"@,
{
    "[]".to_string()
}

/// Download a specific game's assets.
///
/// The call succeeds for every input, the empty string included, and
/// returns `Ok("downloaded")`.
pub fn download_game(_game_date: &str) -> (r: Result<String, String>)
    ensures
        r is Ok,
        r->Ok_0@ == "downloaded"@,
{
    Ok("downloaded".to_string())
}

/// Get the local games directory path.
///
/// The result is always the literal relative path `"./games"`.
pub fn get_games_dir() -> (r: String)
    ensures
        r@ == "./games"@,
{
    "./games".to_string()
}

} // verus!
