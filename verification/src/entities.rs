//! The rows of the database tables, carried as plain values.
//!
//! The database itself is a collaborator; these types hold what the logic
//! reads of a fetched row. Timestamp columns are carried as Unix seconds and
//! decimal columns as thousandths, so that every field is a plain value.

use vstd::prelude::*;

verus! {

/// A row of the `roles` table.
#[derive(Debug, PartialEq, Eq)]
pub struct RoleModel {
    pub id: i32,
    pub name: String,
    pub role_type: i16,
    pub permissions: i64,
    pub has_gamemode: bool,
}

impl Clone for RoleModel {
    fn clone(&self) -> (other: Self)
        ensures
            other == *self,
    {
        RoleModel {
            id: self.id,
            name: self.name.clone(),
            role_type: self.role_type,
            permissions: self.permissions,
            has_gamemode: self.has_gamemode,
        }
    }
}

/// A row of the `users` table. `api_fetched_at` is Unix seconds; `tokens`
/// carries the serialized token document as text.
#[derive(Debug, PartialEq, Eq)]
pub struct UserModel {
    pub id: i32,
    pub username: String,
    pub country: Option<String>,
    pub restricted: bool,
    pub api_fetched_at: i64,
    pub tokens: String,
}

/// A row of the `submissions` table. `submitted_at` is Unix seconds.
#[derive(Debug, PartialEq, Eq)]
pub struct SubmissionModel {
    pub id: i32,
    pub submitter_id: i32,
    pub beatmapset_id: i32,
    pub submitted_at: i64,
    pub game_mode: i8,
    pub reason: String,
}

/// A row of the `beatmapsets` table. Timestamps are Unix seconds.
#[derive(Debug, PartialEq, Eq)]
pub struct BeatmapsetModel {
    pub id: i32,
    pub api_fetched_at: i64,
    pub artist: String,
    pub creator_id: i32,
    pub creator_name: String,
    pub deleted_at: Option<i64>,
    pub favorite_count: i32,
    pub play_count: i32,
    pub ranked_status: i8,
    pub submitted_at: i64,
    pub title: String,
    pub updated_at: i64,
}

/// A row of the `beatmaps` table. The decimal columns are carried in
/// thousandths.
#[derive(Debug, PartialEq, Eq)]
pub struct BeatmapModel {
    pub id: i32,
    pub beatmapset_id: i32,
    pub bpm_thousandths: i64,
    pub creator_id: i32,
    pub deleted_at: Option<i64>,
    pub game_mode: i8,
    pub key_count: Option<i8>,
    pub play_count: i32,
    pub ranked_status: i8,
    pub star_rating_thousandths: i64,
    pub total_length: i32,
    pub version: String,
}

} // verus!
