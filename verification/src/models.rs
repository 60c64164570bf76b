//! Rows of the service's tables, held as plain values. Timestamps are
//! microseconds since 1970-01-01 00:00:00 UTC (the precision a Postgres
//! `timestamp` keeps); UUIDs are their sixteen bytes.
use vstd::prelude::*;

verus! {

/// A calendar date.
#[derive(Debug, Clone, Copy, PartialEq, Eq, Structural)]
pub struct Date {
    pub year: i32,
    pub month: u32,
    pub day: u32,
}

/// A registered user.
#[derive(Debug, Clone, PartialEq, Eq)]
pub struct User {
    pub id: i32,
    pub first_name: String,
    pub middle_name: Option<String>,
    pub last_name: String,
    pub username: String,
    pub user_email: i32,
    pub password_hash: String,
    pub display_name: Option<String>,
    pub date_of_birth: Date,
    pub created_at: i64,
    pub updated_at: i64,
}

/// A user row to insert.
#[derive(Debug, Clone, PartialEq, Eq)]
pub struct NewUser {
    pub first_name: String,
    pub middle_name: Option<String>,
    pub last_name: String,
    pub username: String,
    pub user_email: i32,
    pub password_hash: String,
    pub display_name: Option<String>,
    pub date_of_birth: Date,
    pub created_at: i64,
    pub updated_at: i64,
}

/// An e-mail address with its verification state.
#[derive(Debug, Clone, PartialEq, Eq)]
pub struct EmailAddress {
    pub id: i32,
    pub email: String,
    pub verification_code: [u8; 16],
    pub verification_code_expires_at: i64,
    pub verified_at: Option<i64>,
}

/// An e-mail address row to insert.
#[derive(Debug, Clone, PartialEq, Eq)]
pub struct NewEmailAddress {
    pub email: String,
    pub verification_code: [u8; 16],
    pub verification_code_expires_at: i64,
}

/// A stored picture.
#[derive(Debug, Clone, PartialEq, Eq)]
pub struct Images {
    pub id: i32,
    pub name: String,
    pub file_path: String,
    pub description: Option<String>,
    pub exif_data: Option<String>,
    pub format: String,
    pub size: i32,
    pub width: i32,
    pub height: i32,
    pub created_at: i64,
    pub deleted_at: Option<i64>,
}

/// A picture row to insert.
#[derive(Debug, Clone, PartialEq, Eq)]
pub struct NewImage {
    pub name: String,
    pub file_path: String,
    pub description: Option<String>,
    pub exif_data: Option<String>,
    pub format: String,
    pub size: i32,
    pub width: i32,
    pub height: i32,
    pub created_at: i64,
    pub deleted_at: Option<i64>,
}

/// A stored video.
#[derive(Debug, Clone, PartialEq, Eq)]
pub struct Videos {
    pub id: i32,
    pub title: String,
    pub codec_name: Option<String>,
    pub duration: Option<String>,
    pub file_path: String,
    pub width: Option<i32>,
    pub height: Option<i32>,
    pub bitrate: Option<String>,
    pub frame_rate: Option<String>,
    pub created_at: i64,
}

/// A video row to insert.
#[derive(Debug, Clone, PartialEq, Eq)]
pub struct NewVideos {
    pub title: String,
    pub codec_name: Option<String>,
    pub duration: Option<String>,
    pub file_path: String,
    pub width: Option<i32>,
    pub height: Option<i32>,
    pub bitrate: Option<String>,
    pub frame_rate: Option<String>,
    pub created_at: i64,
}

} // verus!
