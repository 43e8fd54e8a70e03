//! Catalog songs and the station's record of the song now playing.

use vstd::prelude::*;

verus! {

/// A song as the catalog store describes it.
pub struct Song {
    pub id: i64,
    pub title: String,
    pub album_id: Option<i64>,
    pub album_title: Option<String>,
    /// All artist names joined into one display string.
    pub artist_names: Option<String>,
    pub has_image: bool,
}

/// The song the broadcaster is currently playing, as every listener sees it.
pub struct CurrentSong {
    pub id: i64,
    pub title: String,
    pub artist_names: Option<String>,
    pub album_title: Option<String>,
    /// The song's declared length, in milliseconds.
    pub duration_ms: u64,
    /// Wall-clock time the song started, in milliseconds since the Unix
    /// epoch.
    pub started_at_ms: i64,
    /// The global playback clock's value when the song started, in
    /// microseconds.
    pub started_at_position_us: u128,
    /// Compiled rhythm sidecar for the song, already encoded for transport.
    pub rhythm_data: Option<String>,
}

/// The standard padded base64 encoding of a byte sequence.
pub uninterp spec fn base64_of(bytes: Seq<u8>) -> Seq<char>;

/// Relies on base64's STANDARD engine `encode`: the result depends on the
/// bytes alone, four output characters for every started group of three
/// input bytes.
#[verifier::external_body]
pub fn base64_encode(bytes: &Vec<u8>) -> (r: String)
    requires
        bytes@.len() <= 0x4000_0000_0000_0000,
    ensures
        r@ == base64_of(bytes@),
        r@.len() == 4 * ((bytes@.len() + 2) / 3),
{
    base64::Engine::encode(&base64::engine::general_purpose::STANDARD, bytes)
}

/// An independent copy of an optional string.
pub fn clone_opt_string(s: &Option<String>) -> (r: Option<String>)
    ensures
        r == *s,
{
    match s {
        Option::Some(x) => Option::Some(x.clone()),
        Option::None => Option::None,
    }
}

impl CurrentSong {
    /// The playback-clock value when the song started, in whole
    /// milliseconds.
    pub fn started_at_position_ms(&self) -> (r: u128)
        ensures
            r == self.started_at_position_us / 1000,
    {
        self.started_at_position_us / 1000
    }

    /// An independent copy.
    pub fn duplicate(&self) -> (r: CurrentSong)
        ensures
            r == *self,
    {
        CurrentSong {
            id: self.id,
            title: self.title.clone(),
            artist_names: clone_opt_string(&self.artist_names),
            album_title: clone_opt_string(&self.album_title),
            duration_ms: self.duration_ms,
            started_at_ms: self.started_at_ms,
            started_at_position_us: self.started_at_position_us,
            rhythm_data: clone_opt_string(&self.rhythm_data),
        }
    }
}

} // verus!
