//! Station events and their JSON wire form.
//!
//! Events travel to subscribers as JSON text messages with the envelope
//! `{"type":...,"data":...}`; the encoder here is the library's own, with
//! the encoding pinned down character by character.

use vstd::prelude::*;
use vstd::string::StrSliceExecFns;
use crate::song::CurrentSong;
use crate::text::string_from_chars;

verus! {

/// What the station announces on its event bus.
pub enum StationEvent {
    SongChange(CurrentSong),
}

/// The event an event-stream subscriber is sent on connect: the current
/// song change, if a song is playing.
pub fn initial_event(current: &Option<CurrentSong>) -> (r: Option<StationEvent>)
    ensures
        match current {
            Option::Some(cs) => r matches Option::Some(ev) && (r matches Option::Some(ev)
                ==> ev matches StationEvent::SongChange(c) && (ev matches StationEvent::SongChange(
                c,
            ) ==> c == *cs)),
            Option::None => r is None,
        },
{
    match current {
        Option::Some(cs) => Option::Some(StationEvent::SongChange(cs.duplicate())),
        Option::None => Option::None,
    }
}

/// The hexadecimal digit for a value below sixteen.
pub open spec fn spec_hex_digit(v: int) -> char {
    if v == 0 {
        '0'
    } else if v == 1 {
        '1'
    } else if v == 2 {
        '2'
    } else if v == 3 {
        '3'
    } else if v == 4 {
        '4'
    } else if v == 5 {
        '5'
    } else if v == 6 {
        '6'
    } else if v == 7 {
        '7'
    } else if v == 8 {
        '8'
    } else if v == 9 {
        '9'
    } else if v == 10 {
        'a'
    } else if v == 11 {
        'b'
    } else if v == 12 {
        'c'
    } else if v == 13 {
        'd'
    } else if v == 14 {
        'e'
    } else {
        'f'
    }
}

/// How one character appears inside a JSON string literal: quotes and
/// backslashes escaped, control characters as escapes, everything else as
/// itself.
pub open spec fn spec_json_escaped_char(c: char) -> Seq<char> {
    if c == '"' {
        seq!['\\', '"']
    } else if c == '\\' {
        seq!['\\', '\\']
    } else if c == '\n' {
        seq!['\\', 'n']
    } else if c == '\r' {
        seq!['\\', 'r']
    } else if c == '\t' {
        seq!['\\', 't']
    } else if (c as int) < 32 {
        seq!['\\', 'u', '0', '0', spec_hex_digit((c as int) / 16), spec_hex_digit((c as int) % 16)]
    } else {
        seq![c]
    }
}

/// A whole character sequence escaped for a JSON string literal.
pub open spec fn spec_json_escaped(s: Seq<char>) -> Seq<char>
    decreases s.len(),
{
    if s.len() == 0 {
        Seq::<char>::empty()
    } else {
        spec_json_escaped(s.drop_last()) + spec_json_escaped_char(s.last())
    }
}

/// A JSON string literal: the escaped characters between double quotes.
pub open spec fn spec_json_string(s: Seq<char>) -> Seq<char> {
    seq!['"'] + spec_json_escaped(s) + seq!['"']
}

/// A JSON string literal or `null`.
pub open spec fn spec_json_opt_string(s: Option<String>) -> Seq<char> {
    match s {
        Option::Some(x) => spec_json_string(x@),
        Option::None => "null"@,
    }
}

/// The decimal digits of a number, most significant first.
pub open spec fn spec_dec_nat(n: nat) -> Seq<char>
    decreases n,
{
    if n < 10 {
        seq![spec_hex_digit(n as int)]
    } else {
        spec_dec_nat(n / 10) + seq![spec_hex_digit((n % 10) as int)]
    }
}

/// The decimal form of an integer, with a leading minus when negative.
pub open spec fn spec_dec_int(n: int) -> Seq<char> {
    if n < 0 {
        seq!['-'] + spec_dec_nat((-n) as nat)
    } else {
        spec_dec_nat(n as nat)
    }
}

/// The JSON object for the song now playing.
pub open spec fn spec_current_song_json(cs: CurrentSong) -> Seq<char> {
    "{\"id\":"@ + spec_dec_int(cs.id as int) + ",\"title\":"@ + spec_json_string(cs.title@)
        + ",\"artist_names\":"@ + spec_json_opt_string(cs.artist_names) + ",\"album_title\":"@
        + spec_json_opt_string(cs.album_title) + ",\"duration_ms\":"@ + spec_dec_nat(
        cs.duration_ms as nat,
    ) + ",\"started_at_ms\":"@ + spec_dec_int(cs.started_at_ms as int)
        + ",\"started_at_position_ms\":"@ + spec_dec_nat((cs.started_at_position_us / 1000) as nat)
        + ",\"rhythm_data\":"@ + spec_json_opt_string(cs.rhythm_data) + "}"@
}

/// The JSON envelope for an event: its kind under `type`, its payload
/// under `data`.
pub open spec fn spec_event_json(ev: StationEvent) -> Seq<char> {
    match ev {
        StationEvent::SongChange(cs) => "{\"type\":\"SongChange\",\"data\":"@
            + spec_current_song_json(cs) + "}"@,
    }
}

/// Append a borrowed string's characters.
fn push_str_chars(out: &mut Vec<char>, s: &str)
    ensures
        final(out)@ == old(out)@ + s@,
{
    let n = s.unicode_len();
    let mut i: usize = 0;
    while i < n
        invariant
            n == s@.len(),
            0 <= i <= n,
            out@ == old(out)@ + s@.take(i as int),
        decreases n - i,
    {
        out.push(s.get_char(i));
        proof {
            assert(old(out)@ + s@.take(i + 1) =~= (old(out)@ + s@.take(i as int)).push(
                s@[i as int],
            ));
        }
        i = i + 1;
    }
    proof {
        assert(s@.take(n as int) =~= s@);
    }
}

/// The hexadecimal digit character for a value below sixteen.
fn hex_digit(v: u32) -> (r: char)
    requires
        v < 16,
    ensures
        r == spec_hex_digit(v as int),
{
    match v {
        0 => '0',
        1 => '1',
        2 => '2',
        3 => '3',
        4 => '4',
        5 => '5',
        6 => '6',
        7 => '7',
        8 => '8',
        9 => '9',
        10 => 'a',
        11 => 'b',
        12 => 'c',
        13 => 'd',
        14 => 'e',
        _ => 'f',
    }
}

/// Append one character in its JSON-escaped form.
fn push_escaped_char(out: &mut Vec<char>, c: char)
    ensures
        final(out)@ == old(out)@ + spec_json_escaped_char(c),
{
    if c == '"' {
        out.push('\\');
        out.push('"');
        proof {
            assert(final(out)@ =~= old(out)@ + spec_json_escaped_char(c));
        }
    } else if c == '\\' {
        out.push('\\');
        out.push('\\');
        proof {
            assert(final(out)@ =~= old(out)@ + spec_json_escaped_char(c));
        }
    } else if c == '\n' {
        out.push('\\');
        out.push('n');
        proof {
            assert(final(out)@ =~= old(out)@ + spec_json_escaped_char(c));
        }
    } else if c == '\r' {
        out.push('\\');
        out.push('r');
        proof {
            assert(final(out)@ =~= old(out)@ + spec_json_escaped_char(c));
        }
    } else if c == '\t' {
        out.push('\\');
        out.push('t');
        proof {
            assert(final(out)@ =~= old(out)@ + spec_json_escaped_char(c));
        }
    } else if (c as u32) < 32 {
        out.push('\\');
        out.push('u');
        out.push('0');
        out.push('0');
        out.push(hex_digit(c as u32 / 16));
        out.push(hex_digit(c as u32 % 16));
        proof {
            assert(final(out)@ =~= old(out)@ + spec_json_escaped_char(c));
        }
    } else {
        out.push(c);
        proof {
            assert(final(out)@ =~= old(out)@ + spec_json_escaped_char(c));
        }
    }
}

/// Append a string as a JSON string literal.
fn push_json_string(out: &mut Vec<char>, s: &str)
    ensures
        final(out)@ == old(out)@ + spec_json_string(s@),
{
    out.push('"');
    let n = s.unicode_len();
    let mut i: usize = 0;
    while i < n
        invariant
            n == s@.len(),
            0 <= i <= n,
            out@ == old(out)@ + seq!['"'] + spec_json_escaped(s@.take(i as int)),
        decreases n - i,
    {
        proof {
            assert(s@.take(i + 1).drop_last() =~= s@.take(i as int));
            assert(s@.take(i + 1).last() == s@[i as int]);
        }
        push_escaped_char(out, s.get_char(i));
        proof {
            assert(old(out)@ + seq!['"'] + spec_json_escaped(s@.take(i + 1)) =~= (old(out)@
                + seq!['"'] + spec_json_escaped(s@.take(i as int))) + spec_json_escaped_char(
                s@[i as int],
            ));
        }
        i = i + 1;
    }
    out.push('"');
    proof {
        assert(s@.take(n as int) =~= s@);
        assert(final(out)@ =~= old(out)@ + spec_json_string(s@));
    }
}

/// Append a JSON string literal or `null`.
fn push_json_opt_string(out: &mut Vec<char>, s: &Option<String>)
    ensures
        final(out)@ == old(out)@ + spec_json_opt_string(*s),
{
    match s {
        Option::Some(x) => push_json_string(out, x.as_str()),
        Option::None => push_str_chars(out, "null"),
    }
}

/// Append the decimal digits of a non-negative number.
fn push_dec_u128(out: &mut Vec<char>, n: u128)
    ensures
        final(out)@ == old(out)@ + spec_dec_nat(n as nat),
    decreases n,
{
    if n < 10 {
        out.push(hex_digit(n as u32));
        proof {
            assert(final(out)@ =~= old(out)@ + spec_dec_nat(n as nat));
        }
    } else {
        push_dec_u128(out, n / 10);
        out.push(hex_digit((n % 10) as u32));
        proof {
            assert(final(out)@ =~= old(out)@ + spec_dec_nat(n as nat));
        }
    }
}

/// Append the decimal form of a signed number.
fn push_dec_i64(out: &mut Vec<char>, n: i64)
    ensures
        final(out)@ == old(out)@ + spec_dec_int(n as int),
{
    if n < 0 {
        out.push('-');
        let magnitude: u128 = (-(n as i128)) as u128;
        push_dec_u128(out, magnitude);
        proof {
            assert(final(out)@ =~= old(out)@ + spec_dec_int(n as int));
        }
    } else {
        push_dec_u128(out, n as u128);
    }
}

/// The JSON text for the song now playing.
pub fn current_song_json(cs: &CurrentSong) -> (r: String)
    ensures
        r@ == spec_current_song_json(*cs),
{
    let mut out: Vec<char> = Vec::new();
    push_current_song(&mut out, cs);
    proof {
        assert(out@ =~= spec_current_song_json(*cs));
    }
    string_from_chars(&out)
}

/// Append the JSON object for the song now playing.
fn push_current_song(out: &mut Vec<char>, cs: &CurrentSong)
    ensures
        final(out)@ == old(out)@ + spec_current_song_json(*cs),
{
    push_str_chars(out, "{\"id\":");
    push_dec_i64(out, cs.id);
    push_str_chars(out, ",\"title\":");
    push_json_string(out, cs.title.as_str());
    push_str_chars(out, ",\"artist_names\":");
    push_json_opt_string(out, &cs.artist_names);
    push_str_chars(out, ",\"album_title\":");
    push_json_opt_string(out, &cs.album_title);
    push_str_chars(out, ",\"duration_ms\":");
    push_dec_u128(out, cs.duration_ms as u128);
    push_str_chars(out, ",\"started_at_ms\":");
    push_dec_i64(out, cs.started_at_ms);
    push_str_chars(out, ",\"started_at_position_ms\":");
    push_dec_u128(out, cs.started_at_position_us / 1000);
    push_str_chars(out, ",\"rhythm_data\":");
    push_json_opt_string(out, &cs.rhythm_data);
    push_str_chars(out, "}");
    proof {
        assert(final(out)@ =~= old(out)@ + spec_current_song_json(*cs));
    }
}

/// The JSON text message for an event, in its envelope.
pub fn event_json(ev: &StationEvent) -> (r: String)
    ensures
        r@ == spec_event_json(*ev),
{
    let mut out: Vec<char> = Vec::new();
    match ev {
        StationEvent::SongChange(cs) => {
            push_str_chars(&mut out, "{\"type\":\"SongChange\",\"data\":");
            push_current_song(&mut out, cs);
            push_str_chars(&mut out, "}");
        },
    }
    proof {
        assert(out@ =~= spec_event_json(*ev));
    }
    string_from_chars(&out)
}

} // verus!
