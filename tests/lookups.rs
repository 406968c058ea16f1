use account_switch::accounts::{
    account_from_lookup, account_lookup_params, accounts_from_rows, get_account, get_all_accounts, settings_from_lookup, get_settings, is_current_data_available, update_account,
    UpdateAccount,
};
use account_switch::crypto::decrypt_password;
use account_switch::skins::{
    get_buddies_by_level_uuids, get_buddy_by_level_uuid, get_flex_by_uuid, get_flex_by_uuids, get_playercard_by_uuid,
    get_playercards_by_uuids, get_skin_by_level_uuid, get_skins_by_level_uuids, get_spray_by_level_uuid,
    get_sprays_by_level_uuids, get_stored_version, get_table_status, plan_sync, set_stored_version, skin_weapon_from_row, SyncPlan,
    TableStatus,
};
use account_switch::db::Cell;
use rusqlite::Connection;

fn cosmetics_db() -> Connection {
    let conn = Connection::open_in_memory().unwrap();
    conn.execute_batch(
        "CREATE TABLE tiers (uuid TEXT PRIMARY KEY, color TEXT, rank INTEGER, displayIcon TEXT);
         CREATE TABLE weapons (uuid TEXT PRIMARY KEY, displayName TEXT NOT NULL, displayIcon TEXT, tierUuid TEXT);
         CREATE TABLE levels (uuid TEXT PRIMARY KEY, weaponUuid TEXT NOT NULL);
         CREATE TABLE buddies (uuid TEXT PRIMARY KEY, displayName TEXT NOT NULL, displayIcon TEXT, assetPath TEXT);
         CREATE TABLE buddy_levels (uuid TEXT PRIMARY KEY, buddyUuid TEXT NOT NULL, charmLevel INTEGER);
         CREATE TABLE flex (uuid TEXT PRIMARY KEY, displayName TEXT NOT NULL, displayIcon TEXT, assetPath TEXT);
         CREATE TABLE playercards (uuid TEXT PRIMARY KEY, displayName TEXT NOT NULL, displayIcon TEXT,
             smallArt TEXT, wideArt TEXT, largeArt TEXT, assetPath TEXT);
         CREATE TABLE sprays (uuid TEXT PRIMARY KEY, displayName TEXT NOT NULL, displayIcon TEXT,
             fullTransparentIcon TEXT, animationGif TEXT, assetPath TEXT);
         CREATE TABLE spray_levels (uuid TEXT PRIMARY KEY, sprayUuid TEXT NOT NULL, sprayLevel INTEGER);
         CREATE TABLE info (version TEXT);
         INSERT INTO info (version) VALUES ('release-09.00');
         INSERT INTO tiers VALUES ('tier-1', 'ff00ffff', 3, 'tier.png');
         INSERT INTO weapons VALUES ('w-1', 'Prime Vandal', 'vandal.png', 'tier-1');
         INSERT INTO weapons VALUES ('w-2', 'Standard Ghost', NULL, NULL);
         INSERT INTO levels VALUES ('lvl-1', 'w-1');
         INSERT INTO levels VALUES ('lvl-2', 'w-2');
         INSERT INTO buddies VALUES ('b-1', 'Lucky Dice', 'dice.png', 'Buddies/Dice');
         INSERT INTO buddy_levels VALUES ('bl-1', 'b-1', 1);
         INSERT INTO flex VALUES ('f-1', 'Plushie', NULL, 'Flex/Plushie');
         INSERT INTO playercards VALUES ('pc-1', 'Card', 'i.png', 's.png', 'w.png', 'l.png', 'Cards/1');
         INSERT INTO sprays VALUES ('s-1', 'Spray', 'i.png', 't.png', NULL, 'Sprays/1');
         INSERT INTO spray_levels VALUES ('sl-1', 's-1', 1);",
    )
    .unwrap();
    conn
}

fn accounts_db() -> Connection {
    let conn = Connection::open_in_memory().unwrap();
    conn.execute_batch(
        "CREATE TABLE accounts (id INTEGER PRIMARY KEY, riot_id TEXT NOT NULL, tagline TEXT NOT NULL,
             username TEXT, encrypted_password BLOB NOT NULL, rank TEXT, is_active INTEGER NOT NULL,
             data_folder TEXT, created_at TEXT NOT NULL, updated_at TEXT NOT NULL);
         CREATE TABLE settings (id INTEGER PRIMARY KEY, active_account_id INTEGER, riot_client_service_path TEXT,
             riot_client_data_path TEXT, account_data_path TEXT, henrikdev_api_key TEXT, launched INTEGER NOT NULL,
             created_at TEXT NOT NULL, updated_at TEXT NOT NULL, region TEXT);
         INSERT INTO settings VALUES (1, 7, NULL, 'C:\\Riot', 'C:\\Data', NULL, 1, '2024-01-01', '2024-01-02', 'eu');
         INSERT INTO accounts VALUES (7, 'Player', 'EUW', 'user7', x'0102', 'Gold', 1, '007_20240101120000',
             '2024-01-01 12:00:00', '2024-01-01 12:00:00');
         INSERT INTO accounts VALUES (8, 'Other', 'NA1', NULL, x'', NULL, 0, NULL,
             '2024-01-02 12:00:00', '2024-01-02 12:00:00');",
    )
    .unwrap();
    conn
}

#[test]
fn skin_found_by_level_with_tier() {
    let conn = cosmetics_db();
    let skin = get_skin_by_level_uuid(&conn, "lvl-1").unwrap().unwrap();
    assert_eq!(skin.uuid, "w-1");
    assert_eq!(skin.display_name, "Prime Vandal");
    assert_eq!(skin.display_icon.as_deref(), Some("vandal.png"));
    assert_eq!(skin.tier_color.as_deref(), Some("ff00ffff"));
    assert_eq!(skin.tier_rank, Some(3));
    assert_eq!(skin.tier_icon.as_deref(), Some("tier.png"));
}

#[test]
fn skin_without_tier_has_no_tier_fields() {
    let conn = cosmetics_db();
    let skin = get_skin_by_level_uuid(&conn, "lvl-2").unwrap().unwrap();
    assert_eq!(skin.display_name, "Standard Ghost");
    assert_eq!(skin.display_icon, None);
    assert_eq!(skin.tier_rank, None);
}

#[test]
fn unknown_skin_level_is_none() {
    let conn = cosmetics_db();
    assert!(get_skin_by_level_uuid(&conn, "nope").unwrap().is_none());
}

#[test]
fn batch_lookups_keep_order_and_length() {
    let conn = cosmetics_db();
    let keys = vec!["lvl-2".to_string(), "nope".to_string(), "lvl-1".to_string()];
    let skins = get_skins_by_level_uuids(&conn, &keys).unwrap();
    assert_eq!(skins.len(), 3);
    assert_eq!(skins[0].as_ref().unwrap().uuid, "w-2");
    assert!(skins[1].is_none());
    assert_eq!(skins[2].as_ref().unwrap().uuid, "w-1");
}

#[test]
fn buddy_found_by_level_or_own_uuid() {
    let conn = cosmetics_db();
    let by_level = get_buddy_by_level_uuid(&conn, "bl-1").unwrap().unwrap();
    assert_eq!(by_level.uuid, "b-1");
    assert_eq!(by_level.level_uuid, "bl-1");
    assert_eq!(by_level.charm_level, Some(1));
    let by_own = get_buddy_by_level_uuid(&conn, "b-1").unwrap().unwrap();
    assert_eq!(by_own.level_uuid, "b-1");
    assert_eq!(by_own.charm_level, None);
    let all = get_buddies_by_level_uuids(&conn, &vec!["bl-1".to_string(), "x".to_string()]).unwrap();
    assert_eq!(all.len(), 2);
    assert!(all[1].is_none());
}

#[test]
fn flex_playercard_spray_lookups() {
    let conn = cosmetics_db();
    let flex = get_flex_by_uuid(&conn, "f-1").unwrap().unwrap();
    assert_eq!(flex.display_name, "Plushie");
    assert_eq!(flex.asset_path.as_deref(), Some("Flex/Plushie"));
    assert_eq!(get_flex_by_uuids(&conn, &vec!["f-1".to_string()]).unwrap().len(), 1);
    let card = get_playercard_by_uuid(&conn, "pc-1").unwrap().unwrap();
    assert_eq!(card.wide_art.as_deref(), Some("w.png"));
    assert!(get_playercards_by_uuids(&conn, &vec!["zz".to_string()]).unwrap()[0].is_none());
    let spray = get_spray_by_level_uuid(&conn, "sl-1").unwrap().unwrap();
    assert_eq!(spray.uuid, "s-1");
    assert_eq!(spray.spray_level, Some(1));
    assert_eq!(spray.animation_gif, None);
    let sprays = get_sprays_by_level_uuids(&conn, &vec!["s-1".to_string()]).unwrap();
    assert_eq!(sprays[0].as_ref().unwrap().level_uuid, "s-1");
}

#[test]
fn missing_table_is_a_database_error() {
    let conn = Connection::open_in_memory().unwrap();
    assert!(get_flex_by_uuid(&conn, "f-1").is_err());
}

#[test]
fn row_with_wrong_cell_type_is_rejected() {
    let row = vec![
        Cell::Text("w".to_string()),
        Cell::Null,
        Cell::Null,
        Cell::Null,
        Cell::Null,
        Cell::Null,
        Cell::Null,
    ];
    assert!(skin_weapon_from_row(&row).is_none());
    let wide_rank = vec![
        Cell::Text("w".to_string()),
        Cell::Text("n".to_string()),
        Cell::Null,
        Cell::Null,
        Cell::Null,
        Cell::Integer(1 << 40),
        Cell::Null,
    ];
    assert!(skin_weapon_from_row(&wide_rank).is_none());
}

#[test]
fn table_status_and_version() {
    let conn = cosmetics_db();
    let status = get_table_status(&conn).unwrap();
    assert!(!status.any_empty());
    conn.execute_batch("DELETE FROM flex;").unwrap();
    let status = get_table_status(&conn).unwrap();
    assert!(status.flex_empty);
    assert!(status.any_empty());
    assert_eq!(get_stored_version(&conn).unwrap().as_deref(), Some("release-09.00"));
    set_stored_version(&conn, "release-10.01").unwrap();
    assert_eq!(get_stored_version(&conn).unwrap().as_deref(), Some("release-10.01"));
}

#[test]
fn any_empty_is_a_disjunction() {
    let none = TableStatus {
        weapons_empty: false,
        buddies_empty: false,
        flex_empty: false,
        playercards_empty: false,
        sprays_empty: false,
    };
    assert!(!none.any_empty());
    assert!(TableStatus { sprays_empty: true, ..none }.any_empty());
    assert!(TableStatus { weapons_empty: true, ..none }.any_empty());
}

#[test]
fn account_and_settings_rows() {
    let conn = accounts_db();
    let a = get_account(&conn, 7).unwrap();
    assert_eq!(a.riot_id, "Player");
    assert!(a.has_password);
    assert!(a.is_active);
    assert_eq!(a.data_folder.as_deref(), Some("007_20240101120000"));
    let b = get_account(&conn, 8).unwrap();
    assert!(!b.has_password);
    assert_eq!(b.username, None);
    assert!(get_account(&conn, 99).is_err());
    let all = get_all_accounts(&conn).unwrap();
    assert_eq!(all.iter().map(|a| a.id).collect::<Vec<_>>(), vec![7, 8]);
    let s = get_settings(&conn).unwrap();
    assert_eq!(s.active_account_id, Some(7));
    assert_eq!(s.account_data_path.as_deref(), Some("C:\\Data"));
    assert!(s.launched);
    assert_eq!(s.region.as_deref(), Some("eu"));
}

#[test]
fn current_data_available_until_sentinel_owned() {
    let conn = accounts_db();
    assert_eq!(is_current_data_available(&conn), Ok(true));
    conn.execute_batch("UPDATE accounts SET data_folder = '_unselected' WHERE id = 8;").unwrap();
    assert_eq!(is_current_data_available(&conn), Ok(false));
}

fn full_tables() -> TableStatus {
    TableStatus { weapons_empty: false, buddies_empty: false, flex_empty: false, playercards_empty: false, sprays_empty: false }
}

#[test]
fn sync_up_to_date_writes_nothing() {
    let plan = plan_sync(Some("v1"), "v1", &full_tables());
    assert!(!plan.writes_anything());
}

#[test]
fn sync_new_version_refreshes_everything() {
    let plan = plan_sync(Some("v1"), "v2", &full_tables());
    assert_eq!(
        plan,
        SyncPlan { weapons: true, buddies: true, flex: true, playercards: true, sprays: true, record_version: true }
    );
    assert!(plan_sync(None, "v1", &full_tables()).record_version);
}

#[test]
fn sync_same_version_fills_empty_tables_only() {
    let status = TableStatus { flex_empty: true, ..full_tables() };
    let plan = plan_sync(Some("v1"), "v1", &status);
    assert_eq!(
        plan,
        SyncPlan { weapons: false, buddies: false, flex: true, playercards: false, sprays: false, record_version: false }
    );
    assert!(plan.writes_anything());
}

#[test]
fn update_account_with_and_without_password() {
    let conn = accounts_db();
    let key = [4u8; 32];
    let change = UpdateAccount {
        id: 8,
        riot_id: "Renamed".to_string(),
        tagline: "EUNE".to_string(),
        username: Some("u8".to_string()),
        password: None,
        rank: Some("Iron".to_string()),
    };
    let a = update_account(&conn, &change, &key).unwrap();
    assert_eq!(a.riot_id, "Renamed");
    assert_eq!(a.tagline, "EUNE");
    assert_eq!(a.username.as_deref(), Some("u8"));
    assert_eq!(a.rank.as_deref(), Some("Iron"));
    assert!(!a.has_password);
    let with_pw = UpdateAccount { password: Some("hunter2".to_string()), ..change };
    let b = update_account(&conn, &with_pw, &key).unwrap();
    assert!(b.has_password);
    assert_eq!(decrypt_password(&b.encrypted_password, &key), Ok("hunter2".to_string()));
    assert_eq!(
        update_account(&conn, &with_pw, &[0u8; 3]).unwrap_err(),
        "Encryption key must be 32 bytes"
    );
}

#[test]
fn invalid_utf8_text_is_an_error_not_a_panic() {
    let conn = cosmetics_db();
    conn.execute_batch("INSERT INTO flex VALUES ('bad', CAST(x'ff' AS TEXT), NULL, NULL);").unwrap();
    assert!(get_flex_by_uuid(&conn, "bad").is_err());
    let accounts = accounts_db();
    accounts.execute_batch("UPDATE accounts SET riot_id = CAST(x'fffe' AS TEXT) WHERE id = 8;").unwrap();
    assert!(get_all_accounts(&accounts).is_err());
    assert!(get_account(&accounts, 7).is_ok());
}

#[test]
fn accounts_read_one_per_row_in_order() {
    let row = |id: i64, name: &str| {
        vec![
            Cell::Integer(id),
            Cell::Text(name.to_string()),
            Cell::Text("EUW".to_string()),
            Cell::Null,
            Cell::Blob(vec![]),
            Cell::Null,
            Cell::Integer(0),
            Cell::Null,
            Cell::Text("c".to_string()),
            Cell::Text("u".to_string()),
        ]
    };
    let v = accounts_from_rows(&vec![row(2, "b"), row(1, "a")]).unwrap();
    assert_eq!(v.iter().map(|a| a.id).collect::<Vec<_>>(), vec![2, 1]);
    assert_eq!(v[1].riot_id, "a");
    assert_eq!(accounts_from_rows(&vec![]).unwrap().len(), 0);
    let mut bad = row(3, "c");
    bad[6] = Cell::Null;
    assert!(accounts_from_rows(&vec![row(1, "a"), bad]).is_none());
}

fn account_row(id: i64) -> Vec<Cell> {
    vec![
        Cell::Integer(id),
        Cell::Text("p".to_string()),
        Cell::Text("EUW".to_string()),
        Cell::Null,
        Cell::Blob(vec![1]),
        Cell::Null,
        Cell::Integer(1),
        Cell::Text("007_20240101120000".to_string()),
        Cell::Text("c".to_string()),
        Cell::Text("u".to_string()),
    ]
}

#[test]
fn account_lookup_checks_the_id() {
    assert_eq!(account_lookup_params(7), vec!["7".to_string()]);
    assert_eq!(account_lookup_params(-12), vec!["-12".to_string()]);
    assert_eq!(account_from_lookup(None, 7).unwrap_err(), "Query returned no rows");
    assert_eq!(account_from_lookup(Some(account_row(7)), 7).unwrap().id, 7);
    assert_eq!(account_from_lookup(Some(account_row(1)), 7).unwrap_err(), "Unexpected column type in result row");
    let conn = accounts_db();
    assert_eq!(get_account(&conn, 8).unwrap().id, 8);
    assert_eq!(get_account(&conn, 99).unwrap_err(), "Query returned no rows");
}

#[test]
fn settings_lookup_checks_the_id() {
    assert_eq!(settings_from_lookup(None).unwrap_err(), "Query returned no rows");
    let conn = accounts_db();
    assert_eq!(get_settings(&conn).unwrap().id, 1);
    conn.execute_batch("DELETE FROM settings;").unwrap();
    assert_eq!(get_settings(&conn).unwrap_err(), "Query returned no rows");
}
