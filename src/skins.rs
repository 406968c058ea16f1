//! Cosmetics lookups in the local skins database, and sync planning.
use vstd::prelude::*;
use crate::db::{Cell, first_row, execute, error_text, is_text, is_opt_text, is_opt_i32, text_ok, opt_text_ok,
    opt_i32_ok, read_text, read_opt_text, read_opt_i32};

verus! {

/// Why a cosmetics lookup failed.
#[derive(Clone, Debug)]
pub enum SkinsError {
    Database(String),
    ApiFailed(String),
}

impl SkinsError {
    /// A readable description of the error.
    pub fn message(&self) -> (r: String)
        ensures
            match self {
                SkinsError::Database(m) => r@ == "Database error: "@ + m@,
                SkinsError::ApiFailed(m) => r@ == "API failed: "@ + m@,
            },
    {
        match self {
            SkinsError::Database(m) => {
                let mut r = String::from_str("Database error: ");
                r.append(m.as_str());
                r
            },
            SkinsError::ApiFailed(m) => {
                let mut r = String::from_str("API failed: ");
                r.append(m.as_str());
                r
            },
        }
    }
}

pub const LEVEL_LOOKUP_SQL: &'static str = "SELECT w.uuid, w.displayName, w.displayIcon, w.tierUuid, \
    t.color, t.rank, t.displayIcon FROM levels l JOIN weapons w ON l.weaponUuid = w.uuid \
    LEFT JOIN tiers t ON w.tierUuid = t.uuid WHERE l.uuid = ?1";

pub const BUDDY_LOOKUP_SQL: &'static str = "SELECT b.uuid, b.displayName, b.displayIcon, b.assetPath, \
    bl.uuid, bl.charmLevel FROM buddy_levels bl JOIN buddies b ON bl.buddyUuid = b.uuid \
    WHERE bl.uuid = ?1 UNION ALL SELECT b.uuid, b.displayName, b.displayIcon, b.assetPath, \
    b.uuid, NULL FROM buddies b WHERE b.uuid = ?1 LIMIT 1";

pub const FLEX_LOOKUP_SQL: &'static str =
    "SELECT uuid, displayName, displayIcon, assetPath FROM flex WHERE uuid = ?1";

pub const PLAYERCARD_LOOKUP_SQL: &'static str = "SELECT uuid, displayName, displayIcon, smallArt, \
    wideArt, largeArt, assetPath FROM playercards WHERE uuid = ?1";

pub const SPRAY_LOOKUP_SQL: &'static str = "SELECT s.uuid, s.displayName, s.displayIcon, \
    s.fullTransparentIcon, s.animationGif, s.assetPath, sl.uuid, sl.sprayLevel \
    FROM spray_levels sl JOIN sprays s ON sl.sprayUuid = s.uuid WHERE sl.uuid = ?1 \
    UNION ALL SELECT s.uuid, s.displayName, s.displayIcon, s.fullTransparentIcon, \
    s.animationGif, s.assetPath, s.uuid, NULL FROM sprays s WHERE s.uuid = ?1 LIMIT 1";

/// Message of a lookup that found no row.
pub const NO_ROW: &'static str = "Query returned no rows";

/// Message of a row whose cells do not have the expected types.
pub const BAD_ROW: &'static str = "Unexpected column type in result row";

/// Runs a lookup by one key and returns the first row, if any.
fn lookup(conn: &rusqlite::Connection, sql: &str, key: &str, columns: usize)
    -> (r: Result<Option<Vec<Cell>>, SkinsError>)
    ensures
        r matches Ok(Some(row)) ==> row@.len() == columns,
{
    let mut params: Vec<String> = Vec::new();
    params.push(key.to_string());
    match first_row(conn, sql, &params, columns) {
        Ok(row) => Ok(row),
        Err(e) => Err(SkinsError::Database(error_text(&e))),
    }
}

/// A weapon skin, found by the uuid of one of its levels.
#[derive(Clone, Debug)]
pub struct SkinWeapon {
    pub uuid: String,
    pub display_name: String,
    pub display_icon: Option<String>,
    pub tier_uuid: Option<String>,
    pub tier_color: Option<String>,
    pub tier_rank: Option<i32>,
    pub tier_icon: Option<String>,
}

/// The row has the cells of a `SkinWeapon`.
pub open spec fn skin_row_ok(row: Seq<Cell>) -> bool {
    row.len() == 7 && text_ok(row[0]) && text_ok(row[1]) && opt_text_ok(row[2]) && opt_text_ok(row[3]) && opt_text_ok(row[4]) && opt_i32_ok(row[5]) && opt_text_ok(row[6])
}

/// `x` holds exactly the cells of `row`.
pub open spec fn skin_of_row(x: SkinWeapon, row: Seq<Cell>) -> bool {
    &&& row.len() == 7
    &&& is_text(row[0], x.uuid)
    &&& is_text(row[1], x.display_name)
    &&& is_opt_text(row[2], x.display_icon)
    &&& is_opt_text(row[3], x.tier_uuid)
    &&& is_opt_text(row[4], x.tier_color)
    &&& is_opt_i32(row[5], x.tier_rank)
    &&& is_opt_text(row[6], x.tier_icon)
}

/// Reads a `SkinWeapon` from a result row; `None` when a cell has the wrong type.
pub fn skin_weapon_from_row(row: &Vec<Cell>) -> (r: Option<SkinWeapon>)
    ensures
        r is Some <==> skin_row_ok(row@),
        r matches Some(x) ==> skin_of_row(x, row@),
{
    if row.len() != 7 {
        return None;
    }
    let uuid = match read_text(&row[0]) {
        Some(v) => v,
        None => return None,
    };
    let display_name = match read_text(&row[1]) {
        Some(v) => v,
        None => return None,
    };
    let display_icon = match read_opt_text(&row[2]) {
        Some(v) => v,
        None => return None,
    };
    let tier_uuid = match read_opt_text(&row[3]) {
        Some(v) => v,
        None => return None,
    };
    let tier_color = match read_opt_text(&row[4]) {
        Some(v) => v,
        None => return None,
    };
    let tier_rank = match read_opt_i32(&row[5]) {
        Some(v) => v,
        None => return None,
    };
    let tier_icon = match read_opt_text(&row[6]) {
        Some(v) => v,
        None => return None,
    };
    Some(SkinWeapon { uuid, display_name, display_icon, tier_uuid, tier_color, tier_rank, tier_icon })
}

/// A weapon skin, found by the uuid of one of its levels.
pub fn get_skin_by_level_uuid(conn: &rusqlite::Connection, level_uuid: &str) -> (r: Result<Option<SkinWeapon>, SkinsError>)
    ensures
        r matches Ok(Some(x)) ==> exists|row: Seq<Cell>| #[trigger] skin_of_row(x, row),
{
    match lookup(conn, LEVEL_LOOKUP_SQL, level_uuid, 7) {
        Err(e) => Err(e),
        Ok(None) => Ok(None),
        Ok(Some(row)) => match skin_weapon_from_row(&row) {
            Some(x) => Ok(Some(x)),
            None => Err(SkinsError::Database(BAD_ROW.to_string())),
        },
    }
}

/// Looks up each key in turn; one result per key, in the same order.
pub fn get_skins_by_level_uuids(conn: &rusqlite::Connection, level_uuids: &Vec<String>) -> (r: Result<Vec<Option<SkinWeapon>>, SkinsError>)
    ensures
        r matches Ok(v) ==> v@.len() == level_uuids@.len()
            && forall|i: int| 0 <= i < v@.len() ==> (#[trigger] v@[i] matches Some(x) ==>
                exists|row: Seq<Cell>| #[trigger] skin_of_row(x, row)),
{
    let mut out: Vec<Option<SkinWeapon>> = Vec::new();
    let mut i: usize = 0;
    while i < level_uuids.len()
        invariant
            i <= level_uuids@.len(),
            out@.len() == i,
            forall|j: int| 0 <= j < out@.len() ==> (#[trigger] out@[j] matches Some(x) ==>
                exists|row: Seq<Cell>| #[trigger] skin_of_row(x, row)),
        decreases level_uuids@.len() - i,
    {
        let found = get_skin_by_level_uuid(conn, level_uuids[i].as_str())?;
        out.push(found);
        i = i + 1;
    }
    Ok(out)
}

/// A gun buddy, found by the uuid of one of its levels or its own.
#[derive(Clone, Debug)]
pub struct BuddyItem {
    pub uuid: String,
    pub display_name: String,
    pub display_icon: Option<String>,
    pub asset_path: Option<String>,
    pub level_uuid: String,
    pub charm_level: Option<i32>,
}

/// The row has the cells of a `BuddyItem`.
pub open spec fn buddy_row_ok(row: Seq<Cell>) -> bool {
    row.len() == 6 && text_ok(row[0]) && text_ok(row[1]) && opt_text_ok(row[2]) && opt_text_ok(row[3]) && text_ok(row[4]) && opt_i32_ok(row[5])
}

/// `x` holds exactly the cells of `row`.
pub open spec fn buddy_of_row(x: BuddyItem, row: Seq<Cell>) -> bool {
    &&& row.len() == 6
    &&& is_text(row[0], x.uuid)
    &&& is_text(row[1], x.display_name)
    &&& is_opt_text(row[2], x.display_icon)
    &&& is_opt_text(row[3], x.asset_path)
    &&& is_text(row[4], x.level_uuid)
    &&& is_opt_i32(row[5], x.charm_level)
}

/// Reads a `BuddyItem` from a result row; `None` when a cell has the wrong type.
pub fn buddy_item_from_row(row: &Vec<Cell>) -> (r: Option<BuddyItem>)
    ensures
        r is Some <==> buddy_row_ok(row@),
        r matches Some(x) ==> buddy_of_row(x, row@),
{
    if row.len() != 6 {
        return None;
    }
    let uuid = match read_text(&row[0]) {
        Some(v) => v,
        None => return None,
    };
    let display_name = match read_text(&row[1]) {
        Some(v) => v,
        None => return None,
    };
    let display_icon = match read_opt_text(&row[2]) {
        Some(v) => v,
        None => return None,
    };
    let asset_path = match read_opt_text(&row[3]) {
        Some(v) => v,
        None => return None,
    };
    let level_uuid = match read_text(&row[4]) {
        Some(v) => v,
        None => return None,
    };
    let charm_level = match read_opt_i32(&row[5]) {
        Some(v) => v,
        None => return None,
    };
    Some(BuddyItem { uuid, display_name, display_icon, asset_path, level_uuid, charm_level })
}

/// A gun buddy, found by the uuid of one of its levels or its own.
pub fn get_buddy_by_level_uuid(conn: &rusqlite::Connection, level_uuid: &str) -> (r: Result<Option<BuddyItem>, SkinsError>)
    ensures
        r matches Ok(Some(x)) ==> exists|row: Seq<Cell>| #[trigger] buddy_of_row(x, row),
{
    match lookup(conn, BUDDY_LOOKUP_SQL, level_uuid, 6) {
        Err(e) => Err(e),
        Ok(None) => Ok(None),
        Ok(Some(row)) => match buddy_item_from_row(&row) {
            Some(x) => Ok(Some(x)),
            None => Err(SkinsError::Database(BAD_ROW.to_string())),
        },
    }
}

/// Looks up each key in turn; one result per key, in the same order.
pub fn get_buddies_by_level_uuids(conn: &rusqlite::Connection, level_uuids: &Vec<String>) -> (r: Result<Vec<Option<BuddyItem>>, SkinsError>)
    ensures
        r matches Ok(v) ==> v@.len() == level_uuids@.len()
            && forall|i: int| 0 <= i < v@.len() ==> (#[trigger] v@[i] matches Some(x) ==>
                exists|row: Seq<Cell>| #[trigger] buddy_of_row(x, row)),
{
    let mut out: Vec<Option<BuddyItem>> = Vec::new();
    let mut i: usize = 0;
    while i < level_uuids.len()
        invariant
            i <= level_uuids@.len(),
            out@.len() == i,
            forall|j: int| 0 <= j < out@.len() ==> (#[trigger] out@[j] matches Some(x) ==>
                exists|row: Seq<Cell>| #[trigger] buddy_of_row(x, row)),
        decreases level_uuids@.len() - i,
    {
        let found = get_buddy_by_level_uuid(conn, level_uuids[i].as_str())?;
        out.push(found);
        i = i + 1;
    }
    Ok(out)
}

/// A flex item, found by its uuid.
#[derive(Clone, Debug)]
pub struct FlexItem {
    pub uuid: String,
    pub display_name: String,
    pub display_icon: Option<String>,
    pub asset_path: Option<String>,
}

/// The row has the cells of a `FlexItem`.
pub open spec fn flex_row_ok(row: Seq<Cell>) -> bool {
    row.len() == 4 && text_ok(row[0]) && text_ok(row[1]) && opt_text_ok(row[2]) && opt_text_ok(row[3])
}

/// `x` holds exactly the cells of `row`.
pub open spec fn flex_of_row(x: FlexItem, row: Seq<Cell>) -> bool {
    &&& row.len() == 4
    &&& is_text(row[0], x.uuid)
    &&& is_text(row[1], x.display_name)
    &&& is_opt_text(row[2], x.display_icon)
    &&& is_opt_text(row[3], x.asset_path)
}

/// Reads a `FlexItem` from a result row; `None` when a cell has the wrong type.
pub fn flex_item_from_row(row: &Vec<Cell>) -> (r: Option<FlexItem>)
    ensures
        r is Some <==> flex_row_ok(row@),
        r matches Some(x) ==> flex_of_row(x, row@),
{
    if row.len() != 4 {
        return None;
    }
    let uuid = match read_text(&row[0]) {
        Some(v) => v,
        None => return None,
    };
    let display_name = match read_text(&row[1]) {
        Some(v) => v,
        None => return None,
    };
    let display_icon = match read_opt_text(&row[2]) {
        Some(v) => v,
        None => return None,
    };
    let asset_path = match read_opt_text(&row[3]) {
        Some(v) => v,
        None => return None,
    };
    Some(FlexItem { uuid, display_name, display_icon, asset_path })
}

/// A flex item, found by its uuid.
pub fn get_flex_by_uuid(conn: &rusqlite::Connection, uuid: &str) -> (r: Result<Option<FlexItem>, SkinsError>)
    ensures
        r matches Ok(Some(x)) ==> exists|row: Seq<Cell>| #[trigger] flex_of_row(x, row),
{
    match lookup(conn, FLEX_LOOKUP_SQL, uuid, 4) {
        Err(e) => Err(e),
        Ok(None) => Ok(None),
        Ok(Some(row)) => match flex_item_from_row(&row) {
            Some(x) => Ok(Some(x)),
            None => Err(SkinsError::Database(BAD_ROW.to_string())),
        },
    }
}

/// Looks up each key in turn; one result per key, in the same order.
pub fn get_flex_by_uuids(conn: &rusqlite::Connection, uuids: &Vec<String>) -> (r: Result<Vec<Option<FlexItem>>, SkinsError>)
    ensures
        r matches Ok(v) ==> v@.len() == uuids@.len()
            && forall|i: int| 0 <= i < v@.len() ==> (#[trigger] v@[i] matches Some(x) ==>
                exists|row: Seq<Cell>| #[trigger] flex_of_row(x, row)),
{
    let mut out: Vec<Option<FlexItem>> = Vec::new();
    let mut i: usize = 0;
    while i < uuids.len()
        invariant
            i <= uuids@.len(),
            out@.len() == i,
            forall|j: int| 0 <= j < out@.len() ==> (#[trigger] out@[j] matches Some(x) ==>
                exists|row: Seq<Cell>| #[trigger] flex_of_row(x, row)),
        decreases uuids@.len() - i,
    {
        let found = get_flex_by_uuid(conn, uuids[i].as_str())?;
        out.push(found);
        i = i + 1;
    }
    Ok(out)
}

/// A player card, found by its uuid.
#[derive(Clone, Debug)]
pub struct PlayercardItem {
    pub uuid: String,
    pub display_name: String,
    pub display_icon: Option<String>,
    pub small_art: Option<String>,
    pub wide_art: Option<String>,
    pub large_art: Option<String>,
    pub asset_path: Option<String>,
}

/// The row has the cells of a `PlayercardItem`.
pub open spec fn playercard_row_ok(row: Seq<Cell>) -> bool {
    row.len() == 7 && text_ok(row[0]) && text_ok(row[1]) && opt_text_ok(row[2]) && opt_text_ok(row[3]) && opt_text_ok(row[4]) && opt_text_ok(row[5]) && opt_text_ok(row[6])
}

/// `x` holds exactly the cells of `row`.
pub open spec fn playercard_of_row(x: PlayercardItem, row: Seq<Cell>) -> bool {
    &&& row.len() == 7
    &&& is_text(row[0], x.uuid)
    &&& is_text(row[1], x.display_name)
    &&& is_opt_text(row[2], x.display_icon)
    &&& is_opt_text(row[3], x.small_art)
    &&& is_opt_text(row[4], x.wide_art)
    &&& is_opt_text(row[5], x.large_art)
    &&& is_opt_text(row[6], x.asset_path)
}

/// Reads a `PlayercardItem` from a result row; `None` when a cell has the wrong type.
pub fn playercard_item_from_row(row: &Vec<Cell>) -> (r: Option<PlayercardItem>)
    ensures
        r is Some <==> playercard_row_ok(row@),
        r matches Some(x) ==> playercard_of_row(x, row@),
{
    if row.len() != 7 {
        return None;
    }
    let uuid = match read_text(&row[0]) {
        Some(v) => v,
        None => return None,
    };
    let display_name = match read_text(&row[1]) {
        Some(v) => v,
        None => return None,
    };
    let display_icon = match read_opt_text(&row[2]) {
        Some(v) => v,
        None => return None,
    };
    let small_art = match read_opt_text(&row[3]) {
        Some(v) => v,
        None => return None,
    };
    let wide_art = match read_opt_text(&row[4]) {
        Some(v) => v,
        None => return None,
    };
    let large_art = match read_opt_text(&row[5]) {
        Some(v) => v,
        None => return None,
    };
    let asset_path = match read_opt_text(&row[6]) {
        Some(v) => v,
        None => return None,
    };
    Some(PlayercardItem { uuid, display_name, display_icon, small_art, wide_art, large_art, asset_path })
}

/// A player card, found by its uuid.
pub fn get_playercard_by_uuid(conn: &rusqlite::Connection, uuid: &str) -> (r: Result<Option<PlayercardItem>, SkinsError>)
    ensures
        r matches Ok(Some(x)) ==> exists|row: Seq<Cell>| #[trigger] playercard_of_row(x, row),
{
    match lookup(conn, PLAYERCARD_LOOKUP_SQL, uuid, 7) {
        Err(e) => Err(e),
        Ok(None) => Ok(None),
        Ok(Some(row)) => match playercard_item_from_row(&row) {
            Some(x) => Ok(Some(x)),
            None => Err(SkinsError::Database(BAD_ROW.to_string())),
        },
    }
}

/// Looks up each key in turn; one result per key, in the same order.
pub fn get_playercards_by_uuids(conn: &rusqlite::Connection, uuids: &Vec<String>) -> (r: Result<Vec<Option<PlayercardItem>>, SkinsError>)
    ensures
        r matches Ok(v) ==> v@.len() == uuids@.len()
            && forall|i: int| 0 <= i < v@.len() ==> (#[trigger] v@[i] matches Some(x) ==>
                exists|row: Seq<Cell>| #[trigger] playercard_of_row(x, row)),
{
    let mut out: Vec<Option<PlayercardItem>> = Vec::new();
    let mut i: usize = 0;
    while i < uuids.len()
        invariant
            i <= uuids@.len(),
            out@.len() == i,
            forall|j: int| 0 <= j < out@.len() ==> (#[trigger] out@[j] matches Some(x) ==>
                exists|row: Seq<Cell>| #[trigger] playercard_of_row(x, row)),
        decreases uuids@.len() - i,
    {
        let found = get_playercard_by_uuid(conn, uuids[i].as_str())?;
        out.push(found);
        i = i + 1;
    }
    Ok(out)
}

/// A spray, found by the uuid of one of its levels or its own.
#[derive(Clone, Debug)]
pub struct SprayItem {
    pub uuid: String,
    pub display_name: String,
    pub display_icon: Option<String>,
    pub full_transparent_icon: Option<String>,
    pub animation_gif: Option<String>,
    pub asset_path: Option<String>,
    pub level_uuid: String,
    pub spray_level: Option<i32>,
}

/// The row has the cells of a `SprayItem`.
pub open spec fn spray_row_ok(row: Seq<Cell>) -> bool {
    row.len() == 8 && text_ok(row[0]) && text_ok(row[1]) && opt_text_ok(row[2]) && opt_text_ok(row[3]) && opt_text_ok(row[4]) && opt_text_ok(row[5]) && text_ok(row[6]) && opt_i32_ok(row[7])
}

/// `x` holds exactly the cells of `row`.
pub open spec fn spray_of_row(x: SprayItem, row: Seq<Cell>) -> bool {
    &&& row.len() == 8
    &&& is_text(row[0], x.uuid)
    &&& is_text(row[1], x.display_name)
    &&& is_opt_text(row[2], x.display_icon)
    &&& is_opt_text(row[3], x.full_transparent_icon)
    &&& is_opt_text(row[4], x.animation_gif)
    &&& is_opt_text(row[5], x.asset_path)
    &&& is_text(row[6], x.level_uuid)
    &&& is_opt_i32(row[7], x.spray_level)
}

/// Reads a `SprayItem` from a result row; `None` when a cell has the wrong type.
pub fn spray_item_from_row(row: &Vec<Cell>) -> (r: Option<SprayItem>)
    ensures
        r is Some <==> spray_row_ok(row@),
        r matches Some(x) ==> spray_of_row(x, row@),
{
    if row.len() != 8 {
        return None;
    }
    let uuid = match read_text(&row[0]) {
        Some(v) => v,
        None => return None,
    };
    let display_name = match read_text(&row[1]) {
        Some(v) => v,
        None => return None,
    };
    let display_icon = match read_opt_text(&row[2]) {
        Some(v) => v,
        None => return None,
    };
    let full_transparent_icon = match read_opt_text(&row[3]) {
        Some(v) => v,
        None => return None,
    };
    let animation_gif = match read_opt_text(&row[4]) {
        Some(v) => v,
        None => return None,
    };
    let asset_path = match read_opt_text(&row[5]) {
        Some(v) => v,
        None => return None,
    };
    let level_uuid = match read_text(&row[6]) {
        Some(v) => v,
        None => return None,
    };
    let spray_level = match read_opt_i32(&row[7]) {
        Some(v) => v,
        None => return None,
    };
    Some(SprayItem { uuid, display_name, display_icon, full_transparent_icon, animation_gif, asset_path, level_uuid, spray_level })
}

/// A spray, found by the uuid of one of its levels or its own.
pub fn get_spray_by_level_uuid(conn: &rusqlite::Connection, level_uuid: &str) -> (r: Result<Option<SprayItem>, SkinsError>)
    ensures
        r matches Ok(Some(x)) ==> exists|row: Seq<Cell>| #[trigger] spray_of_row(x, row),
{
    match lookup(conn, SPRAY_LOOKUP_SQL, level_uuid, 8) {
        Err(e) => Err(e),
        Ok(None) => Ok(None),
        Ok(Some(row)) => match spray_item_from_row(&row) {
            Some(x) => Ok(Some(x)),
            None => Err(SkinsError::Database(BAD_ROW.to_string())),
        },
    }
}

/// Looks up each key in turn; one result per key, in the same order.
pub fn get_sprays_by_level_uuids(conn: &rusqlite::Connection, level_uuids: &Vec<String>) -> (r: Result<Vec<Option<SprayItem>>, SkinsError>)
    ensures
        r matches Ok(v) ==> v@.len() == level_uuids@.len()
            && forall|i: int| 0 <= i < v@.len() ==> (#[trigger] v@[i] matches Some(x) ==>
                exists|row: Seq<Cell>| #[trigger] spray_of_row(x, row)),
{
    let mut out: Vec<Option<SprayItem>> = Vec::new();
    let mut i: usize = 0;
    while i < level_uuids.len()
        invariant
            i <= level_uuids@.len(),
            out@.len() == i,
            forall|j: int| 0 <= j < out@.len() ==> (#[trigger] out@[j] matches Some(x) ==>
                exists|row: Seq<Cell>| #[trigger] spray_of_row(x, row)),
        decreases level_uuids@.len() - i,
    {
        let found = get_spray_by_level_uuid(conn, level_uuids[i].as_str())?;
        out.push(found);
        i = i + 1;
    }
    Ok(out)
}

/// Which cosmetics tables hold no rows.
#[derive(Clone, Copy, Debug, PartialEq, Eq, Structural)]
pub struct TableStatus {
    pub weapons_empty: bool,
    pub buddies_empty: bool,
    pub flex_empty: bool,
    pub playercards_empty: bool,
    pub sprays_empty: bool,
}

impl TableStatus {
    /// Whether at least one table is empty.
    pub fn any_empty(&self) -> (r: bool)
        ensures
            r == (self.weapons_empty || self.buddies_empty || self.flex_empty
                || self.playercards_empty || self.sprays_empty),
    {
        self.weapons_empty || self.buddies_empty || self.flex_empty || self.playercards_empty
            || self.sprays_empty
    }
}

/// Whether the single-cell result of a `COUNT(*)` query is zero.
pub fn count_is_zero(row: &Vec<Cell>) -> (r: Option<bool>)
    ensures
        r is Some <==> (row@.len() == 1 && row@[0] is Integer),
        r matches Some(b) ==> row@[0] matches Cell::Integer(n) && b == (n == 0),
{
    if row.len() != 1 {
        return None;
    }
    match &row[0] {
        Cell::Integer(n) => Some(*n == 0),
        _ => None,
    }
}

fn is_table_empty(conn: &rusqlite::Connection, count_sql: &str) -> (r: Result<bool, SkinsError>)
{
    let params: Vec<String> = Vec::new();
    match first_row(conn, count_sql, &params, 1) {
        Ok(Some(row)) => match count_is_zero(&row) {
            Some(b) => Ok(b),
            None => Err(SkinsError::Database(BAD_ROW.to_string())),
        },
        Ok(None) => Err(SkinsError::Database(NO_ROW.to_string())),
        Err(e) => Err(SkinsError::Database(error_text(&e))),
    }
}

/// Reports which of the five cosmetics tables are empty.
pub fn get_table_status(conn: &rusqlite::Connection) -> (r: Result<TableStatus, SkinsError>)
{
    Ok(TableStatus {
        weapons_empty: is_table_empty(conn, "SELECT COUNT(*) FROM weapons")?,
        buddies_empty: is_table_empty(conn, "SELECT COUNT(*) FROM buddies")?,
        flex_empty: is_table_empty(conn, "SELECT COUNT(*) FROM flex")?,
        playercards_empty: is_table_empty(conn, "SELECT COUNT(*) FROM playercards")?,
        sprays_empty: is_table_empty(conn, "SELECT COUNT(*) FROM sprays")?,
    })
}

/// The content version the cosmetics tables were filled from, if recorded.
pub fn get_stored_version(conn: &rusqlite::Connection) -> (r: Result<Option<String>, SkinsError>)
{
    let params: Vec<String> = Vec::new();
    match first_row(conn, "SELECT version FROM info WHERE rowid = 1", &params, 1) {
        Ok(Some(row)) => match read_opt_text(&row[0]) {
            Some(v) => Ok(v),
            None => Err(SkinsError::Database(BAD_ROW.to_string())),
        },
        Ok(None) => Err(SkinsError::Database(NO_ROW.to_string())),
        Err(e) => Err(SkinsError::Database(error_text(&e))),
    }
}

/// Records the content version the cosmetics tables now hold.
pub fn set_stored_version(conn: &rusqlite::Connection, version: &str) -> (r: Result<(), SkinsError>)
{
    let mut params: Vec<Cell> = Vec::new();
    params.push(Cell::Text(version.to_string()));
    match execute(conn, "UPDATE info SET version = ?1 WHERE rowid = 1", &params) {
        Ok(_) => Ok(()),
        Err(e) => Err(SkinsError::Database(error_text(&e))),
    }
}

/// Which parts of the cosmetics database a sync refreshes.
#[derive(Clone, Copy, Debug, PartialEq, Eq, Structural)]
pub struct SyncPlan {
    /// Content tiers together with weapon skins (they share a key).
    pub weapons: bool,
    pub buddies: bool,
    pub flex: bool,
    pub playercards: bool,
    pub sprays: bool,
    /// Record the remote version once every refresh has succeeded.
    pub record_version: bool,
}

impl SyncPlan {
    /// Whether the sync writes anything at all.
    pub fn writes_anything(&self) -> (r: bool)
        ensures
            r == (self.weapons || self.buddies || self.flex || self.playercards || self.sprays
                || self.record_version),
    {
        self.weapons || self.buddies || self.flex || self.playercards || self.sprays || self.record_version
    }
}

/// Plans a sync from the stored content version, the remote one and which
/// tables are empty: a new version refreshes every table and records the
/// version; otherwise only empty tables are filled and the version is kept.
pub fn plan_sync(stored_version: Option<&str>, remote_version: &str, status: &TableStatus) -> (r: SyncPlan)
    ensures
        ({
            let changed = !(stored_version matches Some(v) && v@ == remote_version@);
            &&& r.weapons == (changed || status.weapons_empty)
            &&& r.buddies == (changed || status.buddies_empty)
            &&& r.flex == (changed || status.flex_empty)
            &&& r.playercards == (changed || status.playercards_empty)
            &&& r.sprays == (changed || status.sprays_empty)
            &&& r.record_version == changed
        }),
{
    let changed = match stored_version {
        Some(v) => {
            let a = v.to_string();
            let b = remote_version.to_string();
            !(a == b)
        },
        None => true,
    };
    SyncPlan {
        weapons: changed || status.weapons_empty,
        buddies: changed || status.buddies_empty,
        flex: changed || status.flex_empty,
        playercards: changed || status.playercards_empty,
        sprays: changed || status.sprays_empty,
        record_version: changed,
    }
}

} // verus!
