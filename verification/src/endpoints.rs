//! Building the request paths and form bodies for the remote operations.
//!
//! Every outgoing request is a method, a path under the server's root, and
//! for posts a form-url-encoded body. The builders here compute those as
//! plain bytes; what travels on the wire is exactly what the contracts
//! say, digit for digit. The domain values a caller hands in (a side to
//! play, clock settings) are this crate's own plain types.

use vstd::prelude::*;

verus! {

/// The side a challenger asks to play.
pub enum Color {
    White,
    Black,
    Random,
}

/// The clock a game is created with: a correspondence game of so-many
/// days per move, or a real-time clock of a limit and an increment in
/// seconds.
pub struct ClockSettings {
    /// Whether the game is correspondence; then only `days` matters.
    pub is_correspondence: bool,
    /// Days per move of a correspondence game.
    pub days: u32,
    /// Initial clock of a real-time game, in seconds.
    pub limit: u32,
    /// Increment per move of a real-time game, in seconds.
    pub increment: u32,
}

/// The bytes a piece of text puts on the wire.
pub open spec fn text_bytes(s: Seq<char>) -> Seq<u8> {
    vstd::utf8::encode_utf8(s)
}

/// The decimal digits of a natural number, most significant first.
pub open spec fn dec_rep(n: nat) -> Seq<u8>
    decreases n,
{
    if n < 10 {
        seq![(0x30 + n) as u8]
    } else {
        dec_rep(n / 10).push((0x30 + n % 10) as u8)
    }
}

/// The decimal form of an integer: a minus sign when negative, then the
/// digits.
pub open spec fn dec_int(i: int) -> Seq<u8> {
    if i < 0 {
        seq![0x2du8] + dec_rep((-i) as nat)
    } else {
        dec_rep(i as nat)
    }
}

/// The form a boolean takes on the wire.
pub open spec fn bool_rep(b: bool) -> Seq<u8> {
    if b {
        text_bytes("true"@)
    } else {
        text_bytes("false"@)
    }
}

/// Appends a piece of text to a wire body.
pub fn push_literal(out: &mut Vec<u8>, s: &str)
    ensures
        final(out)@ == old(out)@ + text_bytes(s@),
{
    let mut bytes = vstd::slice::slice_to_vec(s.as_bytes());
    out.append(&mut bytes);
}

/// Appends the decimal digits of a number to a wire body.
pub fn push_decimal(out: &mut Vec<u8>, n: u64)
    ensures
        final(out)@ == old(out)@ + dec_rep(n as nat),
    decreases n,
{
    if n < 10 {
        out.push(0x30 + n as u8);
        assert(final(out)@ =~= old(out)@ + dec_rep(n as nat));
    } else {
        push_decimal(out, n / 10);
        out.push(0x30 + (n % 10) as u8);
        assert(final(out)@ =~= old(out)@ + dec_rep(n as nat));
    }
}

/// Appends the decimal form of a signed number to a wire body.
pub fn push_decimal_signed(out: &mut Vec<u8>, i: i32)
    ensures
        final(out)@ == old(out)@ + dec_int(i as int),
{
    if i < 0 {
        out.push(0x2d);
        let magnitude: u64 = (-(i as i64)) as u64;
        push_decimal(out, magnitude);
        assert(final(out)@ =~= old(out)@ + dec_int(i as int));
    } else {
        push_decimal(out, i as u64);
    }
}

/// Appends a boolean to a wire body.
pub fn push_bool(out: &mut Vec<u8>, b: bool)
    ensures
        final(out)@ == old(out)@ + bool_rep(b),
{
    if b {
        push_literal(out, "true");
    } else {
        push_literal(out, "false");
    }
}

/// The body of a challenge against the server's engine: the level, the
/// side asked for (a random ask is sent to this endpoint as black),
/// the clock, and the opening position when one is given.
pub open spec fn spec_ai_body(level: i32, color: Color, clock: ClockSettings, fen: Option<Seq<char>>) -> Seq<u8> {
    text_bytes("level="@) + dec_int(level as int) + (match color {
        Color::White => text_bytes("&color=white"@),
        _ => text_bytes("&color=black"@),
    }) + (if clock.is_correspondence {
        text_bytes("&days="@) + dec_rep(clock.days as nat)
    } else {
        text_bytes("&clock.limit="@) + dec_rep(clock.limit as nat) + text_bytes(
            "&clock.increment="@,
        ) + dec_rep(clock.increment as nat)
    }) + (match fen {
        Some(f) => text_bytes("&fen="@) + text_bytes(f),
        None => Seq::empty(),
    })
}

/// Builds the body of a challenge against the server's engine.
pub fn ai_body(level: i32, color: &Color, clock: &ClockSettings, fen: &Option<String>) -> (r: Vec<
    u8,
>)
    ensures
        r@ == spec_ai_body(level, *color, *clock, match fen {
            Some(f) => Some(f@),
            None => None,
        }),
{
    let mut out: Vec<u8> = Vec::new();
    push_literal(&mut out, "level=");
    push_decimal_signed(&mut out, level);
    match color {
        Color::White => push_literal(&mut out, "&color=white"),
        _ => push_literal(&mut out, "&color=black"),
    }
    if clock.is_correspondence {
        push_literal(&mut out, "&days=");
        push_decimal(&mut out, clock.days as u64);
    } else {
        push_literal(&mut out, "&clock.limit=");
        push_decimal(&mut out, clock.limit as u64);
        push_literal(&mut out, "&clock.increment=");
        push_decimal(&mut out, clock.increment as u64);
    }
    match fen {
        Some(f) => {
            push_literal(&mut out, "&fen=");
            push_literal(&mut out, f.as_str());
        },
        None => {},
    }
    out
}

/// The side parameter of a seek.
pub open spec fn seek_color_rep(color: Color) -> Seq<u8> {
    match color {
        Color::White => text_bytes("color=white"@),
        Color::Black => text_bytes("color=black"@),
        Color::Random => text_bytes("color=random"@),
    }
}

/// The rated flag of a seek: present only when the seek is rated.
pub open spec fn seek_rated_rep(rated: bool) -> Seq<u8> {
    if rated {
        text_bytes("&rated=true"@)
    } else {
        Seq::empty()
    }
}

/// The clock parameters of a seek: days per move for a correspondence
/// seek, else the time limit and the increment.
pub open spec fn seek_clock_rep(clock: ClockSettings) -> Seq<u8> {
    if clock.is_correspondence {
        text_bytes("&days="@) + dec_rep(clock.days as nat)
    } else {
        text_bytes("&time="@) + dec_rep(clock.limit as nat) + text_bytes("&increment="@)
            + dec_rep(clock.increment as nat)
    }
}

/// The opening-position parameter, present only when one is given.
pub open spec fn fen_rep(fen: Option<Seq<char>>) -> Seq<u8> {
    match fen {
        Some(f) => text_bytes("&fen="@) + text_bytes(f),
        None => Seq::empty(),
    }
}

/// The body of a seek, as form-url-encoded fields separated by `&`: the
/// side, the rated flag, the clock, and the opening position when one is
/// given.
pub open spec fn spec_seek_body(rated: bool, color: Color, clock: ClockSettings, fen: Option<Seq<char>>) -> Seq<u8> {
    seek_color_rep(color) + seek_rated_rep(rated) + seek_clock_rep(clock) + fen_rep(fen)
}

/// Builds the body of a seek.
pub fn seek_body(rated: bool, color: &Color, clock: &ClockSettings, fen: &Option<String>) -> (r:
    Vec<u8>)
    ensures
        r@ == spec_seek_body(rated, *color, *clock, match fen {
            Some(f) => Some(f@),
            None => None,
        }),
{
    let ghost fen_view: Option<Seq<char>> = match fen {
        Some(f) => Some(f@),
        None => None,
    };
    let mut out: Vec<u8> = Vec::new();
    match color {
        Color::White => push_literal(&mut out, "color=white"),
        Color::Black => push_literal(&mut out, "color=black"),
        Color::Random => push_literal(&mut out, "color=random"),
    }
    assert(out@ =~= seek_color_rep(*color));
    if rated {
        push_literal(&mut out, "&rated=true");
    }
    assert(out@ =~= seek_color_rep(*color) + seek_rated_rep(rated));
    if clock.is_correspondence {
        push_literal(&mut out, "&days=");
        push_decimal(&mut out, clock.days as u64);
    } else {
        push_literal(&mut out, "&time=");
        push_decimal(&mut out, clock.limit as u64);
        push_literal(&mut out, "&increment=");
        push_decimal(&mut out, clock.increment as u64);
    }
    assert(out@ =~= seek_color_rep(*color) + seek_rated_rep(rated) + seek_clock_rep(*clock));
    match fen {
        Some(f) => {
            push_literal(&mut out, "&fen=");
            push_literal(&mut out, f.as_str());
        },
        None => {},
    }
    assert(out@ =~= spec_seek_body(rated, *color, *clock, fen_view));
    out
}

/// What a seek's reply means: the server answers a queued seek with an
/// empty body, and anything else is the reply the caller should see.
pub fn seek_reply(reply: String) -> (r: Option<String>)
    ensures
        match r {
            Some(text) => text@ == reply@ && reply@.len() > 0,
            None => reply@.len() == 0,
        },
{
    if reply.as_str().is_empty() {
        None
    } else {
        Some(reply)
    }
}

/// The endpoint of a move in a game, with the draw offer flag.
pub open spec fn spec_move_endpoint(id: Seq<char>, mv: Seq<char>, draw: bool) -> Seq<u8> {
    text_bytes("board/game/"@) + text_bytes(id) + text_bytes("/move/"@) + text_bytes(mv)
        + text_bytes("?offeringDraw="@) + bool_rep(draw)
}

/// Builds the endpoint of a move in a game.
pub fn move_endpoint(id: &str, mv: &str, draw: bool) -> (r: Vec<u8>)
    ensures
        r@ == spec_move_endpoint(id@, mv@, draw),
{
    let mut out: Vec<u8> = Vec::new();
    push_literal(&mut out, "board/game/");
    push_literal(&mut out, id);
    push_literal(&mut out, "/move/");
    push_literal(&mut out, mv);
    push_literal(&mut out, "?offeringDraw=");
    push_bool(&mut out, draw);
    out
}

/// The endpoint for resigning a game.
pub open spec fn spec_resign_endpoint(id: Seq<char>) -> Seq<u8> {
    text_bytes("board/game/"@) + text_bytes(id) + text_bytes("/resign"@)
}

/// Builds the endpoint for resigning a game.
pub fn resign_endpoint(id: &str) -> (r: Vec<u8>)
    ensures
        r@ == spec_resign_endpoint(id@),
{
    let mut out: Vec<u8> = Vec::new();
    push_literal(&mut out, "board/game/");
    push_literal(&mut out, id);
    push_literal(&mut out, "/resign");
    out
}

/// The endpoint for the stream of a board game.
pub open spec fn spec_board_endpoint(id: Seq<char>) -> Seq<u8> {
    text_bytes("board/game/stream/"@) + text_bytes(id)
}

/// Builds the endpoint for the stream of a board game.
pub fn board_endpoint(id: &str) -> (r: Vec<u8>)
    ensures
        r@ == spec_board_endpoint(id@),
{
    let mut out: Vec<u8> = Vec::new();
    push_literal(&mut out, "board/game/stream/");
    push_literal(&mut out, id);
    out
}

/// The full URL of an endpoint under the server's root.
pub open spec fn spec_api_url(endpoint: Seq<u8>) -> Seq<u8> {
    text_bytes("https://lichess.org/api/"@) + endpoint
}

/// Builds the full URL of an endpoint under the server's root.
pub fn api_url(endpoint: &[u8]) -> (r: Vec<u8>)
    ensures
        r@ == spec_api_url(endpoint@),
{
    let mut out: Vec<u8> = Vec::new();
    push_literal(&mut out, "https://lichess.org/api/");
    let mut tail = vstd::slice::slice_to_vec(endpoint);
    out.append(&mut tail);
    out
}

} // verus!
