use wavy::auth::AuthUser;
use wavy::catalog::{User, UserRole};
use wavy::error::AppError;
use wavy::events::{current_song_json, event_json, initial_event, StationEvent};
use wavy::paths::{get_covers_dir, get_music_dir, get_save_dat_path, get_temporal_dir, song_file_path};
use wavy::song::CurrentSong;
use wavy::text::{ids_from_text, parse_i64, split_commas, str_eq, str_eq_ignore_ascii_case, trim_spaces};

fn song(title: &str) -> CurrentSong {
    CurrentSong {
        id: 7,
        title: title.to_string(),
        artist_names: Some("Ada & Grace".to_string()),
        album_title: None,
        duration_ms: 60_000,
        started_at_ms: 1_700_000_000_000,
        started_at_position_us: 123_456_789,
        rhythm_data: None,
    }
}

#[test]
fn current_song_serializes_field_by_field() {
    let json = current_song_json(&song("Tune"));
    assert_eq!(
        json,
        "{\"id\":7,\"title\":\"Tune\",\"artist_names\":\"Ada & Grace\",\
         \"album_title\":null,\"duration_ms\":60000,\
         \"started_at_ms\":1700000000000,\"started_at_position_ms\":123456,\
         \"rhythm_data\":null}"
    );
}

#[test]
fn event_envelope_carries_type_and_data() {
    let ev = StationEvent::SongChange(song("Tune"));
    let json = event_json(&ev);
    assert!(json.starts_with("{\"type\":\"SongChange\",\"data\":{\"id\":7,"));
    assert!(json.ends_with("}}"));
}

#[test]
fn json_strings_are_escaped() {
    let json = current_song_json(&song("a\"b\\c\nd\te\rf\u{1}g"));
    assert!(json.contains("\"title\":\"a\\\"b\\\\c\\nd\\te\\rf\\u0001g\""));
}

#[test]
fn negative_ids_serialize_with_a_sign() {
    let mut cs = song("Tune");
    cs.id = -42;
    cs.started_at_ms = -1;
    let json = current_song_json(&cs);
    assert!(json.contains("\"id\":-42,"));
    assert!(json.contains("\"started_at_ms\":-1,"));
}

#[test]
fn initial_event_mirrors_the_current_song() {
    assert!(initial_event(&None).is_none());
    match initial_event(&Some(song("Tune"))) {
        Some(StationEvent::SongChange(cs)) => assert_eq!(cs.id, 7),
        None => panic!("a playing song must yield an event"),
    }
}

#[test]
fn parse_i64_accepts_signs_and_refuses_junk() {
    assert_eq!(parse_i64("0"), Some(0));
    assert_eq!(parse_i64("42"), Some(42));
    assert_eq!(parse_i64("+42"), Some(42));
    assert_eq!(parse_i64("-42"), Some(-42));
    assert_eq!(parse_i64("9223372036854775807"), Some(i64::MAX));
    assert_eq!(parse_i64("9223372036854775808"), None);
    assert_eq!(parse_i64("-9223372036854775808"), Some(i64::MIN));
    assert_eq!(parse_i64("-9223372036854775809"), None);
    assert_eq!(parse_i64(""), None);
    assert_eq!(parse_i64("-"), None);
    assert_eq!(parse_i64("+"), None);
    assert_eq!(parse_i64("1.5"), None);
    assert_eq!(parse_i64("12a"), None);
    assert_eq!(parse_i64(" 1"), None);
    assert_eq!(parse_i64("00042"), Some(42));
}

#[test]
fn comma_lists_split_and_rejoin() {
    let parts = split_commas("1, 2,x,");
    assert_eq!(parts, vec!["1", " 2", "x", ""]);
    assert_eq!(split_commas(""), vec![""]);
    assert_eq!(split_commas("solo"), vec!["solo"]);
}

#[test]
fn artist_id_lists_keep_what_parses() {
    assert_eq!(ids_from_text("1, 2, 3"), vec![1, 2, 3]);
    assert_eq!(ids_from_text("4,x, 5 ,"), vec![4, 5]);
    assert_eq!(ids_from_text(""), Vec::<i64>::new());
    assert_eq!(ids_from_text("-7"), vec![-7]);
}

#[test]
fn trimming_strips_edge_spaces_only() {
    assert_eq!(trim_spaces("  a b \t"), "a b");
    assert_eq!(trim_spaces("ab"), "ab");
    assert_eq!(trim_spaces(" \t\r\n "), "");
    assert_eq!(trim_spaces(""), "");
}

#[test]
fn string_comparisons() {
    assert!(str_eq("abc", "abc"));
    assert!(!str_eq("abc", "abd"));
    assert!(!str_eq("abc", "ab"));
    assert!(str_eq_ignore_ascii_case("MP3", "mp3"));
    assert!(str_eq_ignore_ascii_case("", ""));
    assert!(!str_eq_ignore_ascii_case("mp3", "mp4"));
}

fn user_with_role(role: &str) -> AuthUser {
    AuthUser(User {
        id: 1,
        username: "u".to_string(),
        password_hash: "h".to_string(),
        artist_id: None,
        role: role.to_string(),
        total_listen_time: 0,
    })
}

#[test]
fn roles_are_ordered_by_privilege() {
    let admin = user_with_role("admin");
    assert!(admin.is_admin() && admin.is_mod() && admin.is_minimod());
    let moderator = user_with_role("mod");
    assert!(!moderator.is_admin() && moderator.is_mod() && moderator.is_minimod());
    let minimod = user_with_role("minimod");
    assert!(!minimod.is_admin() && !minimod.is_mod() && minimod.is_minimod());
    let plain = user_with_role("user");
    assert!(!plain.is_admin() && !plain.is_mod() && !plain.is_minimod());
}

#[test]
fn default_role_is_the_plain_user() {
    assert_eq!(UserRole::default(), UserRole::User);
}

#[test]
fn errors_map_to_their_statuses() {
    assert_eq!(AppError::InternalServerError("x".to_string()).status_code(), 500);
    assert_eq!(AppError::BadRequest("x".to_string()).status_code(), 400);
    assert_eq!(AppError::Unauthorized("x".to_string()).status_code(), 401);
    assert_eq!(AppError::CustomForbidden("x".to_string()).status_code(), 403);
    assert_eq!(AppError::WrongCredentials.status_code(), 401);
    assert_eq!(AppError::NotFound("x".to_string()).status_code(), 404);
    assert_eq!(AppError::Conflict("x".to_string()).status_code(), 409);
    assert_eq!(AppError::NotFound("gone".to_string()).message(), "gone");
    assert_eq!(AppError::WrongCredentials.message(), "Wrong credentials");
}

#[test]
fn data_paths_hang_off_the_data_dir() {
    assert_eq!(get_music_dir("data"), "data/music");
    assert_eq!(get_covers_dir("/srv/radio"), "/srv/radio/covers");
    assert_eq!(get_temporal_dir("."), "./temporal");
    assert_eq!(get_save_dat_path("data"), "data/save.dat");
    assert_eq!(song_file_path("data/music", "17"), "data/music/17.mp3");
}
