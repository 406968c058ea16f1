//! The game client's processes and where its launcher is looked for.
use vstd::prelude::*;

verus! {

/// Image name of the launcher process.
pub const CLIENT_PROCESS: &'static str = "RiotClientServices.exe";

/// Image name of the game process.
pub const GAME_PROCESS: &'static str = "VALORANT-Win64-Shipping.exe";

pub const DEFAULT_LAUNCHER_PATHS: [&'static str; 3] = [
    "C:\\Riot Games\\Riot Client\\RiotClientServices.exe",
    "C:\\Program Files\\Riot Games\\Riot Client\\RiotClientServices.exe",
    "C:\\Program Files (x86)\\Riot Games\\Riot Client\\RiotClientServices.exe",
];

/// A configured launcher path is used when it is set and not empty.
pub open spec fn usable(configured: Option<String>) -> bool {
    configured matches Some(p) && p@.len() > 0
}

/// The paths tried, in order, to start the launcher: the configured one
/// when it is set and not empty, then the usual install locations.
pub fn launch_candidates(configured: Option<String>) -> (r: Vec<String>)
    ensures
        r@.len() == (if usable(configured) { 4int } else { 3int }),
        usable(configured) ==> r@[0] == configured.unwrap(),
        forall|i: int| 0 <= i < 3 ==> #[trigger] r@[r@.len() - 3 + i]@ == DEFAULT_LAUNCHER_PATHS@[i]@,
{
    let mut v: Vec<String> = Vec::new();
    match configured {
        Some(p) => {
            if p.as_str().unicode_len() > 0 {
                v.push(p);
            }
        },
        None => {},
    }
    let ghost start = v@.len();
    let mut i: usize = 0;
    while i < 3
        invariant
            i <= 3,
            v@.len() == start + i,
            start <= 1,
            usable(configured) ==> start == 1 && v@[0] == configured.unwrap(),
            !usable(configured) ==> start == 0,
            forall|k: int| 0 <= k < i ==> #[trigger] v@[start + k]@ == DEFAULT_LAUNCHER_PATHS@[k]@,
        decreases 3 - i,
    {
        v.push(DEFAULT_LAUNCHER_PATHS[i].to_string());
        i = i + 1;
    }
    v
}

/// Whether a process is running: the monitor's cached flag when it has
/// one; otherwise a fresh `query`, whose failure (`None`) counts as not
/// running.
pub fn running<F: FnOnce() -> Option<bool>>(cached: Option<bool>, query: F) -> (r: bool)
    requires
        cached is None ==> call_requires(query, ()),
    ensures
        cached matches Some(b) ==> r == b,
        cached is None ==> exists|q: Option<bool>| call_ensures(query, (), q) && r == (q == Some(true)),
{
    match cached {
        Some(b) => b,
        None => {
            let q = query();
            match q {
                Some(b) => b,
                None => false,
            }
        },
    }
}

/// Whether the launcher runs, from the cached flag or a fresh query.
pub fn check_riot_client_running<F: FnOnce() -> Option<bool>>(cached: Option<bool>, query: F) -> (r: bool)
    requires
        cached is None ==> call_requires(query, ()),
    ensures
        cached matches Some(b) ==> r == b,
        cached is None ==> exists|q: Option<bool>| call_ensures(query, (), q) && r == (q == Some(true)),
{
    running(cached, query)
}

/// Whether the game runs, from the cached flag or a fresh query.
pub fn check_valorant_running<F: FnOnce() -> Option<bool>>(cached: Option<bool>, query: F) -> (r: bool)
    requires
        cached is None ==> call_requires(query, ()),
    ensures
        cached matches Some(b) ==> r == b,
        cached is None ==> exists|q: Option<bool>| call_ensures(query, (), q) && r == (q == Some(true)),
{
    running(cached, query)
}

} // verus!
