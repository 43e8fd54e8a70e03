//! The catalog store's records and the request bodies that manage them.
//!
//! The store itself is an external collaborator; these are the plain values
//! that cross its boundary.

use vstd::prelude::*;

verus! {

/// A registered user.
pub struct User {
    pub id: i64,
    pub username: String,
    pub password_hash: String,
    pub artist_id: Option<i64>,
    pub role: String,
    /// Seconds of listening credited to this user, in total.
    pub total_listen_time: i64,
}

/// The roles a user can hold, least privileged first.
#[derive(PartialEq, Eq, Structural, Clone, Copy, Debug)]
pub enum UserRole {
    User,
    MiniMod,
    Mod,
    Admin,
}

impl Default for UserRole {
    /// A new user starts with no privileges.
    fn default() -> (r: UserRole)
        ensures
            r == UserRole::User,
    {
        UserRole::User
    }
}

/// A request to register a user.
pub struct CreateUserDto {
    pub username: String,
    pub password: String,
}

/// A login request: a username and the password to check.
pub struct LoginPayload {
    pub identity: String,
    pub password: String,
}

/// A request to change a user; absent fields stay as they are.
pub struct UpdateUserDto {
    pub username: Option<String>,
    pub password: Option<String>,
    pub artist_id: Option<i64>,
    pub role: Option<String>,
}

/// An album.
pub struct Album {
    pub id: i64,
    pub title: String,
}

/// A request to create an album.
pub struct CreateAlbumDto {
    pub title: String,
}

/// A request to change an album; absent fields stay as they are.
pub struct UpdateAlbumDto {
    pub title: Option<String>,
}

/// An artist.
pub struct Artist {
    pub id: i64,
    pub name: String,
}

/// A request to create an artist.
pub struct CreateArtistDto {
    pub name: String,
}

/// A request to change an artist; absent fields stay as they are.
pub struct UpdateArtistDto {
    pub name: Option<String>,
}

/// A tag that can be attached to songs.
pub struct Tag {
    pub id: i64,
    pub name: String,
}

/// A request to create a tag.
pub struct CreateTagDto {
    pub name: String,
}

/// A request to change a tag; absent fields stay as they are.
pub struct UpdateTagDto {
    pub name: Option<String>,
}

/// A request to create a song.
pub struct CreateSongDto {
    pub title: String,
    pub album_id: Option<i64>,
    pub artist_ids: Option<Vec<i64>>,
}

/// A request to change a song; absent fields stay as they are.
pub struct UpdateSongDto {
    pub title: Option<String>,
    pub album_id: Option<i64>,
    pub artist_ids: Option<Vec<i64>>,
}

/// What a successful upload reports back.
pub struct UploadResponse {
    pub song_id: i64,
    pub message: String,
}

} // verus!
