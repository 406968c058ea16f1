//! Account data layout: the folder name an account gets at creation, and
//! where account and sentinel folders sit under the account data root.
use vstd::prelude::*;
use crate::text::{digits, zero_pad, push_padded, string_from_chars, chars_of};

verus! {

/// Name of the reserved folder that stands for "no account selected".
pub const SENTINEL_FOLDER: &'static str = "_unselected";

/// A local wall-clock time to the second, as the folder naming scheme reads it.
#[derive(Clone, Copy, Debug, PartialEq, Eq, Structural)]
pub struct Stamp {
    pub year: u16,
    pub month: u8,
    pub day: u8,
    pub hour: u8,
    pub minute: u8,
    pub second: u8,
}

impl Stamp {
    /// A calendar-shaped time: four-digit year, month 1..=12, day 1..=31,
    /// hour < 24, minute < 60, second < 61 (a leap second is allowed).
    pub open spec fn is_valid(&self) -> bool {
        &&& self.year <= 9999
        &&& 1 <= self.month <= 12
        &&& 1 <= self.day <= 31
        &&& self.hour < 24
        &&& self.minute < 60
        &&& self.second < 61
    }

    /// A stamp from its parts, when they are in range.
    pub fn checked(year: u16, month: u8, day: u8, hour: u8, minute: u8, second: u8) -> (r: Option<Stamp>)
        ensures
            r is Some <==> (Stamp { year, month, day, hour, minute, second }).is_valid(),
            r matches Some(s) ==> s == (Stamp { year, month, day, hour, minute, second }),
    {
        let s = Stamp { year, month, day, hour, minute, second };
        if year <= 9999 && 1 <= month && month <= 12 && 1 <= day && day <= 31 && hour < 24 && minute < 60
            && second < 61 {
            Some(s)
        } else {
            None
        }
    }

    /// `YYYYMMDDhhmmss`.
    pub open spec fn compact(&self) -> Seq<char> {
        zero_pad(digits(self.year as nat), 4) + zero_pad(digits(self.month as nat), 2)
            + zero_pad(digits(self.day as nat), 2) + zero_pad(digits(self.hour as nat), 2)
            + zero_pad(digits(self.minute as nat), 2) + zero_pad(digits(self.second as nat), 2)
    }
}

/// The account id in decimal, zero-padded to at least three characters
/// (a minus sign counts toward the width).
pub open spec fn id_part(id: int) -> Seq<char> {
    if id >= 0 {
        zero_pad(digits(id as nat), 3)
    } else {
        seq!['-'] + zero_pad(digits((-id) as nat), 2)
    }
}

/// Folder name for an account created at `now`: `<id>_<YYYYMMDDhhmmss>`.
pub open spec fn folder_name(id: int, now: Stamp) -> Seq<char> {
    id_part(id) + seq!['_'] + now.compact()
}

pub open spec fn is_separator(c: char) -> bool {
    c == '\\' || c == '/'
}

/// `name` placed under `root`, with one separator between them.
pub open spec fn join_path(root: Seq<char>, name: Seq<char>) -> Seq<char> {
    if root.len() == 0 {
        name
    } else if is_separator(root.last()) {
        root + name
    } else {
        root.push('\\') + name
    }
}

/// Builds the creation-time folder name of an account.
pub fn generate_data_folder_name(account_id: i64, now: &Stamp) -> (r: String)
    requires
        now.is_valid(),
    ensures
        r@ == folder_name(account_id as int, *now),
{
    let mut v: Vec<char> = Vec::new();
    if account_id >= 0 {
        push_padded(&mut v, account_id as u64, 3);
    } else {
        v.push('-');
        let magnitude: u64 = (0i128 - (account_id as i128)) as u64;
        push_padded(&mut v, magnitude, 2);
    }
    v.push('_');
    push_padded(&mut v, now.year as u64, 4);
    push_padded(&mut v, now.month as u64, 2);
    push_padded(&mut v, now.day as u64, 2);
    push_padded(&mut v, now.hour as u64, 2);
    push_padded(&mut v, now.minute as u64, 2);
    push_padded(&mut v, now.second as u64, 2);
    assert(v@ =~= folder_name(account_id as int, *now));
    string_from_chars(&v)
}

/// Places `name` under `root`.
pub fn join(root: &str, name: &str) -> (r: String)
    ensures
        r@ == join_path(root@, name@),
{
    let mut v = chars_of(root);
    let n = chars_of(name);
    if v.len() > 0 {
        let last = v[v.len() - 1];
        if !(last == '\\' || last == '/') {
            v.push('\\');
        }
    }
    let ghost base = v@;
    let mut i: usize = 0;
    while i < n.len()
        invariant
            i <= n@.len(),
            v@ == base + n@.subrange(0, i as int),
        decreases n@.len() - i,
    {
        v.push(n[i]);
        proof {
            assert(n@.subrange(0, i + 1) =~= n@.subrange(0, i as int).push(n@[i as int]));
        }
        i = i + 1;
    }
    assert(n@.subrange(0, n@.len() as int) =~= n@);
    assert(v@ =~= join_path(root@, name@));
    string_from_chars(&v)
}

/// The folder of an account whose stored folder name is `folder_name`.
pub fn account_path(root: &str, folder_name: &str) -> (r: String)
    ensures
        r@ == join_path(root@, folder_name@),
{
    join(root, folder_name)
}

/// The sentinel folder under `root`.
pub fn sentinel_path(root: &str) -> (r: String)
    ensures
        r@ == join_path(root@, SENTINEL_FOLDER@),
{
    join(root, SENTINEL_FOLDER)
}

/// File name of the client's private settings inside an account folder.
pub const PRIVATE_SETTINGS_FILE: &'static str = "RiotGamesPrivateSettings.yaml";

/// Where an account's private settings file lives: inside its folder under
/// `root`. `None` when the account has no folder assigned.
pub fn account_yaml_path(root: &str, data_folder: Option<&str>) -> (r: Option<String>)
    ensures
        match data_folder {
            None => r is None,
            Some(f) => r matches Some(p) && p@ == join_path(join_path(root@, f@), PRIVATE_SETTINGS_FILE@),
        },
{
    match data_folder {
        None => None,
        Some(f) => {
            let dir = join(root, f);
            Some(join(dir.as_str(), PRIVATE_SETTINGS_FILE))
        },
    }
}

/// How a new account's folder comes into being.
#[derive(Clone, Copy, Debug, PartialEq, Eq, Structural)]
pub enum FolderSetup {
    /// The sentinel folder, which holds the data the client used while no
    /// account was selected, is renamed to the new account's folder.
    AdoptSentinel,
    /// A new, marked, empty folder is created.
    CreateMarked,
}

/// Decides how a new account's folder is set up: the current data is
/// adopted when the user asks for it and the sentinel folder exists;
/// otherwise a fresh folder is made.
pub fn plan_account_folder(use_current_data: bool, sentinel_exists: bool) -> (r: FolderSetup)
    ensures
        r == FolderSetup::AdoptSentinel <==> (use_current_data && sentinel_exists),
{
    if use_current_data && sentinel_exists {
        FolderSetup::AdoptSentinel
    } else {
        FolderSetup::CreateMarked
    }
}

} // verus!
