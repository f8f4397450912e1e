//! The rows of the store's tables.

use crate::util::score::Score;
use crate::util::time::Timestamp;
use crate::util::uuid::Uuid;
use vstd::prelude::*;

verus! {

#[derive(Debug)]
pub struct Developer {
    pub id: i32,
    pub developer_uuid: Uuid,
    pub name: String,
    pub email: String,
    pub url: Option<String>,
    pub is_admin: bool,
    pub api_key: Option<String>,
}

#[derive(Debug)]
pub struct NewDeveloper {
    pub developer_uuid: Uuid,
    pub name: String,
    pub email: String,
    pub url: Option<String>,
    pub is_admin: bool,
    pub api_key: Option<String>,
}

#[derive(Debug)]
pub struct Game {
    pub id: i32,
    pub developer_id: i32,
    pub game_uuid: Uuid,
    pub game_secret_key: String,
    pub name: String,
    /// The lowest ordinal of a security level that the game accepts.
    pub security_level: i32,
}

#[derive(Debug)]
pub struct NewGame {
    pub developer_id: i32,
    pub game_uuid: Uuid,
    pub game_secret_key: String,
    pub name: String,
    pub security_level: i32,
}

#[derive(Debug)]
pub struct HighscoreTable {
    pub id: i32,
    pub game_id: i32,
    pub name: String,
    pub table_uuid: Uuid,
    /// The number of rows that the table keeps; `None` keeps all.
    pub maximum_scores_retained: Option<i32>,
}

#[derive(Debug)]
pub struct NewHighscoreTable {
    pub game_id: i32,
    pub name: String,
    pub table_uuid: Uuid,
    pub maximum_scores_retained: Option<i32>,
}

#[derive(Debug)]
pub struct HighscoreTableEntry {
    pub id: i32,
    pub highscore_table_id: i32,
    pub player_name: String,
    pub player_score: Score,
    pub player_score_metadata: Option<String>,
    /// Set by the store when the row is inserted, never by the client.
    pub creation_timestamp: Timestamp,
}

#[derive(Debug)]
pub struct NewHighscoreTableEntry {
    pub highscore_table_id: i32,
    pub player_name: String,
    pub player_score: Score,
    pub player_score_metadata: Option<String>,
}

/// The record of a request that was accepted.
#[derive(Debug, Clone, Copy, PartialEq, Eq, Structural)]
pub struct HistoricalRequest {
    pub request_uuid: Uuid,
    /// When the store recorded the request.
    pub timestamp: Timestamp,
}

#[derive(Debug, Clone, Copy)]
pub struct NewHistoricalRequest {
    pub request_uuid: Uuid,
}

/// A copy of a text that may be absent.
pub fn duplicate_optional_text(text: &Option<String>) -> (copy: Option<String>)
    ensures
        copy == *text,
{
    match text {
        Some(present) => Some(present.clone()),
        None => None,
    }
}


impl Clone for Developer {
    fn clone(&self) -> (copy: Self)
        ensures
            copy == *self,
    {
        Developer {
            id: self.id,
            developer_uuid: self.developer_uuid,
            name: self.name.clone(),
            email: self.email.clone(),
            url: duplicate_optional_text(&self.url),
            is_admin: self.is_admin,
            api_key: duplicate_optional_text(&self.api_key),
        }
    }
}

impl Clone for NewDeveloper {
    fn clone(&self) -> (copy: Self)
        ensures
            copy == *self,
    {
        NewDeveloper {
            developer_uuid: self.developer_uuid,
            name: self.name.clone(),
            email: self.email.clone(),
            url: duplicate_optional_text(&self.url),
            is_admin: self.is_admin,
            api_key: duplicate_optional_text(&self.api_key),
        }
    }
}

impl Clone for Game {
    fn clone(&self) -> (copy: Self)
        ensures
            copy == *self,
    {
        Game {
            id: self.id,
            developer_id: self.developer_id,
            game_uuid: self.game_uuid,
            game_secret_key: self.game_secret_key.clone(),
            name: self.name.clone(),
            security_level: self.security_level,
        }
    }
}

impl Clone for NewGame {
    fn clone(&self) -> (copy: Self)
        ensures
            copy == *self,
    {
        NewGame {
            developer_id: self.developer_id,
            game_uuid: self.game_uuid,
            game_secret_key: self.game_secret_key.clone(),
            name: self.name.clone(),
            security_level: self.security_level,
        }
    }
}

impl Clone for HighscoreTable {
    fn clone(&self) -> (copy: Self)
        ensures
            copy == *self,
    {
        HighscoreTable {
            id: self.id,
            game_id: self.game_id,
            name: self.name.clone(),
            table_uuid: self.table_uuid,
            maximum_scores_retained: self.maximum_scores_retained,
        }
    }
}

impl Clone for NewHighscoreTable {
    fn clone(&self) -> (copy: Self)
        ensures
            copy == *self,
    {
        NewHighscoreTable {
            game_id: self.game_id,
            name: self.name.clone(),
            table_uuid: self.table_uuid,
            maximum_scores_retained: self.maximum_scores_retained,
        }
    }
}

impl Clone for HighscoreTableEntry {
    fn clone(&self) -> (copy: Self)
        ensures
            copy == *self,
    {
        HighscoreTableEntry {
            id: self.id,
            highscore_table_id: self.highscore_table_id,
            player_name: self.player_name.clone(),
            player_score: self.player_score,
            player_score_metadata: duplicate_optional_text(&self.player_score_metadata),
            creation_timestamp: self.creation_timestamp,
        }
    }
}

impl Clone for NewHighscoreTableEntry {
    fn clone(&self) -> (copy: Self)
        ensures
            copy == *self,
    {
        NewHighscoreTableEntry {
            highscore_table_id: self.highscore_table_id,
            player_name: self.player_name.clone(),
            player_score: self.player_score,
            player_score_metadata: duplicate_optional_text(&self.player_score_metadata),
        }
    }
}

impl HighscoreTableEntry {
    /// The row that the store makes of a new entry: the store gives it its
    /// id and the time of its insertion.
    pub open spec fn stored(new: NewHighscoreTableEntry, id: i32, now: Timestamp) -> Self {
        HighscoreTableEntry {
            id,
            highscore_table_id: new.highscore_table_id,
            player_name: new.player_name,
            player_score: new.player_score,
            player_score_metadata: new.player_score_metadata,
            creation_timestamp: now,
        }
    }
}

} // verus!
