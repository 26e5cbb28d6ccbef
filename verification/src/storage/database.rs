//! The rows of the SQLite store: vaults and the entries that they hold.

use vstd::prelude::*;

verus! {

/// A row of the `vaults` table.
pub struct Vault {
    pub id: Option<i64>,
    pub name: String,
    pub desc: Option<String>,
    pub created_at: i64,
    pub updated_at: i64,
}

/// A row of the `entries` table; `vault_id` names the vault that holds it.
#[derive(Debug)]
pub struct Entry {
    pub id: Option<i64>,
    pub access_key: String,
    pub access_token: String,
    pub token_type: String,
    pub desc: Option<String>,
    pub created_at: i64,
    pub updated_at: i64,
    pub vault_id: i64,
}

} // verus!
