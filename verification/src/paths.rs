//! Where the station's files live under its data directory.
//!
//! Reading the `DATA_DIR` environment variable and creating the
//! directories is left to the caller; these functions only build the
//! paths.

use vstd::prelude::*;
use vstd::string::{StringExecFns, StrSliceExecFns};

verus! {

/// The directory holding the audio files, `<data>/music`.
pub fn get_music_dir(data_dir: &str) -> (r: String)
    ensures
        r@ == data_dir@ + "/music"@,
{
    let mut s = String::from_str(data_dir);
    s.append("/music");
    s
}

/// The directory holding the cover images, `<data>/covers`.
pub fn get_covers_dir(data_dir: &str) -> (r: String)
    ensures
        r@ == data_dir@ + "/covers"@,
{
    let mut s = String::from_str(data_dir);
    s.append("/covers");
    s
}

/// The directory holding files in flight, `<data>/temporal`.
pub fn get_temporal_dir(data_dir: &str) -> (r: String)
    ensures
        r@ == data_dir@ + "/temporal"@,
{
    let mut s = String::from_str(data_dir);
    s.append("/temporal");
    s
}

/// The rhythm sidecar file, `<data>/save.dat`.
pub fn get_save_dat_path(data_dir: &str) -> (r: String)
    ensures
        r@ == data_dir@ + "/save.dat"@,
{
    let mut s = String::from_str(data_dir);
    s.append("/save.dat");
    s
}

/// The audio file for a song id, `<music_dir>/<id>.mp3`.
pub fn song_file_path(music_dir: &str, id_digits: &str) -> (r: String)
    ensures
        r@ == music_dir@ + "/"@ + id_digits@ + ".mp3"@,
{
    let mut s = String::from_str(music_dir);
    s.append("/");
    s.append(id_digits);
    s.append(".mp3");
    s
}

} // verus!
