//! Account data-directory switching: the naming of per-account folders, the
//! rules of the directory-alias adapter, the copy-verify-delete transfer and
//! the switch engine, together with the small lookup and parsing helpers the
//! surrounding application builds on.
pub mod text;
pub mod layout;
pub mod redirect;
pub mod transfer;
pub mod switch;
pub mod model;
pub mod shop;
pub mod db;
pub mod skins;
pub mod accounts;
pub mod cookies;
pub mod crypto;
pub mod client;
pub mod cache;

