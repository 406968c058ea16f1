//! Stored accounts and settings: their types, and reading them from the
//! account database.
use vstd::prelude::*;
use crate::db::{Cell, first_row, all_rows, execute, error_text, is_text, is_opt_text, is_i64, is_opt_i64, is_bool,
    is_blob, text_ok, opt_text_ok, int_ok, opt_int_ok, blob_ok, read_text, read_opt_text, read_i64,
    read_opt_i64, read_bool, read_blob};
use crate::layout::SENTINEL_FOLDER;
use crate::crypto::encrypt_password;
use crate::text::{signed_decimal, signed_digits};

verus! {

/// A stored account.
#[derive(Clone, Debug)]
pub struct Account {
    pub id: i64,
    pub riot_id: String,
    pub tagline: String,
    pub username: Option<String>,
    pub encrypted_password: Vec<u8>,
    pub has_password: bool,
    pub rank: Option<String>,
    pub is_active: bool,
    /// Name of the account's folder under the account data root.
    pub data_folder: Option<String>,
    pub created_at: String,
    pub updated_at: String,
}

/// An account with its password in clear.
#[derive(Clone, Debug)]
pub struct AccountWithPassword {
    pub id: i64,
    pub riot_id: String,
    pub tagline: String,
    pub username: Option<String>,
    pub password: String,
    pub rank: Option<String>,
    pub is_active: bool,
    pub data_folder: Option<String>,
}

/// An account as the user enters it.
#[derive(Clone, Debug)]
pub struct NewAccount {
    pub riot_id: String,
    pub tagline: String,
    pub username: Option<String>,
    pub password: Option<String>,
    pub rank: Option<String>,
    /// Take over the data currently at the live path as this account's data.
    pub use_current_data: bool,
}

/// What account creation needs.
#[derive(Clone, Debug)]
pub struct CreateAccountData {
    pub riot_id: String,
    pub tagline: String,
    pub username: Option<String>,
    pub password: Option<String>,
    pub rank: Option<String>,
    pub use_current_data: bool,
}

/// Changes to a stored account.
#[derive(Clone, Debug)]
pub struct UpdateAccount {
    pub id: i64,
    pub riot_id: String,
    pub tagline: String,
    pub username: Option<String>,
    pub password: Option<String>,
    pub rank: Option<String>,
}

/// Application settings, including the active-account pointer and the
/// configured paths.
#[derive(Clone, Debug)]
pub struct Settings {
    pub id: i64,
    pub active_account_id: Option<i64>,
    pub riot_client_service_path: Option<String>,
    pub riot_client_data_path: Option<String>,
    pub account_data_path: Option<String>,
    pub henrikdev_api_key: Option<String>,
    pub region: Option<String>,
    pub launched: bool,
    pub created_at: String,
    pub updated_at: String,
}

/// Changes to the settings.
#[derive(Clone, Debug)]
pub struct UpdateSettings {
    pub active_account_id: Option<i64>,
    pub riot_client_service_path: Option<String>,
    pub riot_client_data_path: Option<String>,
    pub account_data_path: Option<String>,
    pub henrikdev_api_key: Option<String>,
    pub region: Option<String>,
}

pub const ACCOUNT_BY_ID_SQL: &'static str = "SELECT id, riot_id, tagline, username, encrypted_password, \
    rank, is_active, data_folder, created_at, updated_at FROM accounts WHERE id = ?1";

pub const ALL_ACCOUNTS_SQL: &'static str = "SELECT id, riot_id, tagline, username, encrypted_password, \
    rank, is_active, data_folder, created_at, updated_at FROM accounts ORDER BY created_at ASC";

pub const SETTINGS_SQL: &'static str = "SELECT id, active_account_id, riot_client_service_path, \
    riot_client_data_path, account_data_path, henrikdev_api_key, launched, created_at, updated_at, \
    region FROM settings WHERE id = 1";

pub const UNSELECTED_COUNT_SQL: &'static str =
    "SELECT COUNT(*) FROM accounts WHERE data_folder = ?1";

/// Message of a row whose cells do not have the expected types.
pub const BAD_ROW: &'static str = "Unexpected column type in result row";

/// Message of a lookup that found no row.
pub const NO_ROW: &'static str = "Query returned no rows";

/// The row has the cells of an `Account`.
pub open spec fn account_row_ok(row: Seq<Cell>) -> bool {
    &&& row.len() == 10
    &&& int_ok(row[0]) && text_ok(row[1]) && text_ok(row[2]) && opt_text_ok(row[3])
    &&& blob_ok(row[4]) && opt_text_ok(row[5]) && int_ok(row[6]) && opt_text_ok(row[7])
    &&& text_ok(row[8]) && text_ok(row[9])
}

/// `a` holds exactly the cells of `row`; it has a password when the stored
/// one is not empty.
pub open spec fn account_of_row(a: Account, row: Seq<Cell>) -> bool {
    &&& row.len() == 10
    &&& is_i64(row[0], a.id)
    &&& is_text(row[1], a.riot_id)
    &&& is_text(row[2], a.tagline)
    &&& is_opt_text(row[3], a.username)
    &&& is_blob(row[4], a.encrypted_password)
    &&& a.has_password == (a.encrypted_password@.len() > 0)
    &&& is_opt_text(row[5], a.rank)
    &&& is_bool(row[6], a.is_active)
    &&& is_opt_text(row[7], a.data_folder)
    &&& is_text(row[8], a.created_at)
    &&& is_text(row[9], a.updated_at)
}

/// `a` was read from some result row.
pub open spec fn read_from_row(a: Account) -> bool {
    exists|row: Seq<Cell>| #[trigger] account_of_row(a, row)
}

/// Reads an `Account` from a result row; `None` when a cell has the wrong type.
pub fn account_from_row(row: &Vec<Cell>) -> (r: Option<Account>)
    ensures
        r is Some <==> account_row_ok(row@),
        r matches Some(a) ==> account_of_row(a, row@),
{
    if row.len() != 10 {
        return None;
    }
    let id = match read_i64(&row[0]) { Some(v) => v, None => return None };
    let riot_id = match read_text(&row[1]) { Some(v) => v, None => return None };
    let tagline = match read_text(&row[2]) { Some(v) => v, None => return None };
    let username = match read_opt_text(&row[3]) { Some(v) => v, None => return None };
    let encrypted_password = match read_blob(&row[4]) { Some(v) => v, None => return None };
    let rank = match read_opt_text(&row[5]) { Some(v) => v, None => return None };
    let is_active = match read_bool(&row[6]) { Some(v) => v, None => return None };
    let data_folder = match read_opt_text(&row[7]) { Some(v) => v, None => return None };
    let created_at = match read_text(&row[8]) { Some(v) => v, None => return None };
    let updated_at = match read_text(&row[9]) { Some(v) => v, None => return None };
    let has_password = encrypted_password.len() > 0;
    Some(Account {
        id, riot_id, tagline, username, encrypted_password, has_password, rank, is_active,
        data_folder, created_at, updated_at,
    })
}

/// The row has the cells of the settings.
pub open spec fn settings_row_ok(row: Seq<Cell>) -> bool {
    &&& row.len() == 10
    &&& int_ok(row[0]) && opt_int_ok(row[1]) && opt_text_ok(row[2]) && opt_text_ok(row[3])
    &&& opt_text_ok(row[4]) && opt_text_ok(row[5]) && int_ok(row[6]) && text_ok(row[7])
    &&& text_ok(row[8]) && opt_text_ok(row[9])
}

/// `s` holds exactly the cells of `row`.
pub open spec fn settings_of_row(s: Settings, row: Seq<Cell>) -> bool {
    &&& row.len() == 10
    &&& is_i64(row[0], s.id)
    &&& is_opt_i64(row[1], s.active_account_id)
    &&& is_opt_text(row[2], s.riot_client_service_path)
    &&& is_opt_text(row[3], s.riot_client_data_path)
    &&& is_opt_text(row[4], s.account_data_path)
    &&& is_opt_text(row[5], s.henrikdev_api_key)
    &&& is_bool(row[6], s.launched)
    &&& is_text(row[7], s.created_at)
    &&& is_text(row[8], s.updated_at)
    &&& is_opt_text(row[9], s.region)
}

/// Reads the settings from a result row; `None` when a cell has the wrong type.
pub fn settings_from_row(row: &Vec<Cell>) -> (r: Option<Settings>)
    ensures
        r is Some <==> settings_row_ok(row@),
        r matches Some(s) ==> settings_of_row(s, row@),
{
    if row.len() != 10 {
        return None;
    }
    let id = match read_i64(&row[0]) { Some(v) => v, None => return None };
    let active_account_id = match read_opt_i64(&row[1]) { Some(v) => v, None => return None };
    let riot_client_service_path = match read_opt_text(&row[2]) { Some(v) => v, None => return None };
    let riot_client_data_path = match read_opt_text(&row[3]) { Some(v) => v, None => return None };
    let account_data_path = match read_opt_text(&row[4]) { Some(v) => v, None => return None };
    let henrikdev_api_key = match read_opt_text(&row[5]) { Some(v) => v, None => return None };
    let launched = match read_bool(&row[6]) { Some(v) => v, None => return None };
    let created_at = match read_text(&row[7]) { Some(v) => v, None => return None };
    let updated_at = match read_text(&row[8]) { Some(v) => v, None => return None };
    let region = match read_opt_text(&row[9]) { Some(v) => v, None => return None };
    Some(Settings {
        id, active_account_id, riot_client_service_path, riot_client_data_path, account_data_path,
        henrikdev_api_key, region, launched, created_at, updated_at,
    })
}

/// The parameters of the lookup of one account: its id in decimal.
pub fn account_lookup_params(account_id: i64) -> (r: Vec<String>)
    ensures
        r@.len() == 1,
        r@[0]@ == signed_digits(account_id as int),
{
    let mut params: Vec<String> = Vec::new();
    params.push(signed_decimal(account_id));
    params
}

/// What the lookup of account `account_id` gives for the row it found, if
/// any: no row is `NO_ROW`; a row that is not an account with that id is
/// `BAD_ROW`.
pub fn account_from_lookup(row: Option<Vec<Cell>>, account_id: i64) -> (r: Result<Account, String>)
    ensures
        row is None ==> (r matches Err(e) && e@ == NO_ROW@),
        row matches Some(cells) ==> (r is Ok <==> account_row_ok(cells@) && is_i64(cells@[0], account_id)),
        row matches Some(cells) && !(account_row_ok(cells@) && is_i64(cells@[0], account_id))
            ==> (r matches Err(e) && e@ == BAD_ROW@),
        r matches Ok(a) ==> row matches Some(cells) && account_of_row(a, cells@) && a.id == account_id,
{
    match row {
        None => Err(NO_ROW.to_string()),
        Some(cells) => match account_from_row(&cells) {
            Some(a) => {
                if a.id == account_id {
                    Ok(a)
                } else {
                    Err(BAD_ROW.to_string())
                }
            },
            None => Err(BAD_ROW.to_string()),
        },
    }
}

/// The stored account with the given id; `NO_ROW` when there is none.
pub fn get_account(conn: &rusqlite::Connection, account_id: i64) -> (r: Result<Account, String>)
    ensures
        r matches Ok(a) ==> a.id == account_id && exists|row: Seq<Cell>| #[trigger] account_of_row(a, row),
{
    let params = account_lookup_params(account_id);
    match first_row(conn, ACCOUNT_BY_ID_SQL, &params, 10) {
        Ok(row) => account_from_lookup(row, account_id),
        Err(e) => Err(error_text(&e)),
    }
}

/// `accounts` holds one account per row, in row order.
pub open spec fn accounts_of_rows(accounts: Seq<Account>, rows: Seq<Seq<Cell>>) -> bool {
    &&& accounts.len() == rows.len()
    &&& forall|i: int| 0 <= i < rows.len() ==> #[trigger] account_of_row(accounts[i], rows[i])
}

/// Reads one account from each row, keeping the order; `None` when some
/// row has a cell of the wrong type.
pub fn accounts_from_rows(rows: &Vec<Vec<Cell>>) -> (r: Option<Vec<Account>>)
    ensures
        r is Some <==> forall|i: int| 0 <= i < rows@.len() ==> #[trigger] account_row_ok(rows@[i]@),
        r matches Some(v) ==> accounts_of_rows(v@, rows@.map_values(|row: Vec<Cell>| row@)),
{
    let mut out: Vec<Account> = Vec::new();
    let mut i: usize = 0;
    while i < rows.len()
        invariant
            i <= rows@.len(),
            out@.len() == i,
            forall|j: int| 0 <= j < i ==> #[trigger] account_row_ok(rows@[j]@),
            forall|j: int| 0 <= j < i ==> #[trigger] account_of_row(out@[j], rows@[j]@),
        decreases rows@.len() - i,
    {
        match account_from_row(&rows[i]) {
            Some(a) => out.push(a),
            None => return None,
        }
        i = i + 1;
    }
    proof {
        let views = rows@.map_values(|row: Vec<Cell>| row@);
        assert forall|j: int| 0 <= j < views.len() implies #[trigger] account_of_row(out@[j], views[j]) by {
            assert(views[j] == rows@[j]@);
        }
    }
    Some(out)
}

/// Every stored account, oldest first: one per row the query returns, in
/// the order it returns them.
pub fn get_all_accounts(conn: &rusqlite::Connection) -> (r: Result<Vec<Account>, String>)
    ensures
        r matches Ok(v) ==> exists|rows: Seq<Seq<Cell>>| #[trigger] accounts_of_rows(v@, rows),
{
    let params: Vec<String> = Vec::new();
    let rows = match all_rows(conn, ALL_ACCOUNTS_SQL, &params, 10) {
        Ok(rows) => rows,
        Err(e) => return Err(error_text(&e)),
    };
    match accounts_from_rows(&rows) {
        Some(v) => {
            let ghost w = rows@.map_values(|row: Vec<Cell>| row@);
            assert(accounts_of_rows(v@, w));
            let r: Result<Vec<Account>, String> = Ok(v);
            assert(r matches Ok(x) && accounts_of_rows(x@, w));
            r
        },
        None => Err(BAD_ROW.to_string()),
    }
}

/// What the settings lookup gives for the row it found, if any: no row is
/// `NO_ROW`; a row that is not the settings row (id 1) is `BAD_ROW`.
pub fn settings_from_lookup(row: Option<Vec<Cell>>) -> (r: Result<Settings, String>)
    ensures
        row is None ==> (r matches Err(e) && e@ == NO_ROW@),
        row matches Some(cells) ==> (r is Ok <==> settings_row_ok(cells@) && is_i64(cells@[0], 1)),
        row matches Some(cells) && !(settings_row_ok(cells@) && is_i64(cells@[0], 1))
            ==> (r matches Err(e) && e@ == BAD_ROW@),
        r matches Ok(s) ==> row matches Some(cells) && settings_of_row(s, cells@) && s.id == 1,
{
    match row {
        None => Err(NO_ROW.to_string()),
        Some(cells) => match settings_from_row(&cells) {
            Some(s) => {
                if s.id == 1 {
                    Ok(s)
                } else {
                    Err(BAD_ROW.to_string())
                }
            },
            None => Err(BAD_ROW.to_string()),
        },
    }
}

/// The settings row (id 1); `NO_ROW` when there is none.
pub fn get_settings(conn: &rusqlite::Connection) -> (r: Result<Settings, String>)
    ensures
        r matches Ok(s) ==> s.id == 1 && exists|row: Seq<Cell>| #[trigger] settings_of_row(s, row),
{
    let params: Vec<String> = Vec::new();
    match first_row(conn, SETTINGS_SQL, &params, 10) {
        Ok(row) => settings_from_lookup(row),
        Err(e) => Err(error_text(&e)),
    }
}

pub open spec fn current_data_available_spec(count: i64) -> bool {
    count == 0
}

/// Whether the data at the live path is still free to be taken over by a
/// new account: true exactly when no account owns the sentinel folder.
pub fn current_data_available(count: i64) -> (r: bool)
    ensures
        r == current_data_available_spec(count),
{
    count == 0
}

/// Counts the accounts that own the sentinel folder and tells whether there
/// are none.
pub fn is_current_data_available(conn: &rusqlite::Connection) -> (r: Result<bool, String>)
{
    let mut params: Vec<String> = Vec::new();
    params.push(SENTINEL_FOLDER.to_string());
    match first_row(conn, UNSELECTED_COUNT_SQL, &params, 1) {
        Ok(Some(row)) => match &row[0] {
            Cell::Integer(n) => Ok(current_data_available(*n)),
            _ => Err(BAD_ROW.to_string()),
        },
        Ok(None) => Err(NO_ROW.to_string()),
        Err(e) => Err(error_text(&e)),
    }
}

pub const UPDATE_WITH_PASSWORD_SQL: &'static str = "UPDATE accounts SET riot_id=?1, tagline=?2, username=?3, \
    encrypted_password=?4, rank=?5, updated_at=datetime('now') WHERE id=?6";

pub const UPDATE_SQL: &'static str = "UPDATE accounts SET riot_id=?1, tagline=?2, username=?3, rank=?4, \
    updated_at=datetime('now') WHERE id=?5";

fn text_param(s: &String) -> (r: Cell)
    ensures
        is_text(r, *s),
{
    Cell::Text(s.clone())
}

fn opt_text_param(o: &Option<String>) -> (r: Cell)
    ensures
        is_opt_text(r, *o),
{
    match o {
        Some(s) => Cell::Text(s.clone()),
        None => Cell::Null,
    }
}

/// The statement parameters of an account update, in statement order; the
/// encrypted password is included only when a new password is set.
pub open spec fn update_params_ok(p: Seq<Cell>, data: UpdateAccount, encrypted: Option<Vec<u8>>) -> bool {
    &&& is_text(p[0], data.riot_id)
    &&& is_text(p[1], data.tagline)
    &&& is_opt_text(p[2], data.username)
    &&& match encrypted {
        Some(e) => p.len() == 6 && is_blob(p[3], e) && is_opt_text(p[4], data.rank) && p[5] == Cell::Integer(data.id),
        None => p.len() == 5 && is_opt_text(p[3], data.rank) && p[4] == Cell::Integer(data.id),
    }
}

/// Builds the parameters of an account update.
pub fn update_params(data: &UpdateAccount, encrypted: Option<Vec<u8>>) -> (r: Vec<Cell>)
    ensures
        update_params_ok(r@, *data, encrypted),
{
    let mut p: Vec<Cell> = Vec::new();
    p.push(text_param(&data.riot_id));
    p.push(text_param(&data.tagline));
    p.push(opt_text_param(&data.username));
    match encrypted {
        Some(e) => {
            p.push(Cell::Blob(e));
            p.push(opt_text_param(&data.rank));
            p.push(Cell::Integer(data.id));
        },
        None => {
            p.push(opt_text_param(&data.rank));
            p.push(Cell::Integer(data.id));
        },
    }
    p
}

/// Updates a stored account; a new password is stored encrypted under `key`.
/// Returns the account as stored afterwards.
pub fn update_account(conn: &rusqlite::Connection, data: &UpdateAccount, key: &[u8]) -> (r: Result<Account, String>)
    ensures
        r matches Ok(a) ==> read_from_row(a),
{
    match &data.password {
        Some(pw) => {
            let encrypted = encrypt_password(pw.as_str(), key)?;
            let params = update_params(data, Some(encrypted));
            if let Err(e) = execute(conn, UPDATE_WITH_PASSWORD_SQL, &params) {
                return Err(error_text(&e));
            }
        },
        None => {
            let params = update_params(data, None);
            if let Err(e) = execute(conn, UPDATE_SQL, &params) {
                return Err(error_text(&e));
            }
        },
    }
    get_account(conn, data.id)
}

} // verus!
