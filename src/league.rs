#![allow(non_snake_case)]

use vstd::prelude::*;

verus! {

/// The connection parameters that a running client writes to its lockfile.
#[derive(Debug, Clone)]
pub struct Lockfile {
    pub process: String,
    pub pid: usize,
    pub port: usize,
    pub password: String,
    pub protocol: String,
}

/// A rune as the perk list describes it.
#[derive(Debug, Clone)]
pub struct Perk {
    pub id: u64,
    pub name: String,
    pub iconPath: String,
    pub shortDesc: String,
    pub longDesc: String,
    pub tooltip: String,
}

/// A saved rune page.
#[derive(Debug, Clone)]
pub struct LolPerksPerkPage {
    pub autoModifiedSelections: Vec<i64>,
    pub current: bool,
    pub id: usize,
    pub isActive: bool,
    pub isDeletable: bool,
    pub isEditable: bool,
    pub isValid: bool,
    pub lastModified: i64,
    pub name: String,
    pub order: i64,
    pub primaryStyleId: i64,
    pub selectedPerkIds: Vec<i64>,
    pub subStyleId: i64,
}

/// A rune as the perk list of the UI describes it.
#[derive(Debug, Clone)]
pub struct LolPerksPerkUIPerk {
    pub iconPath: String,
    pub id: i64,
    pub longDesc: String,
    pub name: String,
    pub shortDesc: String,
    pub tooltip: String,
}

} // verus!
