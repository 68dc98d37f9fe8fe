//! The game-state snapshot read from a chain's contract, and its status line.
use vstd::prelude::*;
use crate::decimal::{decimal_text, push_signed_decimal};

verus! {

/// The game state as the contract's read-only call returns it, with each
/// 256-bit field already narrowed to a machine integer.
pub struct RawGameState {
    pub start_time: u64,
    pub last_draw_time: u64,
    pub number_count: u32,
    pub drawn_numbers: Vec<u32>,
    pub is_ended: bool,
    pub player_count: u32,
    pub is_started: bool,
}

/// The game state as the gateway reports it to clients.
pub struct GameState {
    pub start_time: u64,
    pub last_draw_time: u64,
    pub drawn_numbers_count: i8,
    pub drawn_numbers: Vec<i8>,
    pub is_ended: bool,
    pub player_count: i32,
    pub is_started: bool,
}

/// Two's-complement reading of the low eight bits of `x`.
pub open spec fn low_i8(x: u32) -> int {
    let m: int = x as int % 256;
    if m >= 128 { m - 256 } else { m }
}

/// Two's-complement reading of the 32 bits of `x`.
pub open spec fn as_signed_i32(x: u32) -> int {
    if x >= 0x8000_0000 { x as int - 0x1_0000_0000 } else { x as int }
}

/// Narrows a contract value to `i8`, keeping its low eight bits.
pub fn narrow_i8(x: u32) -> (r: i8)
    ensures
        r as int == low_i8(x),
{
    let m: u32 = x % 256;
    if m >= 128 {
        (m as i32 - 256) as i8
    } else {
        m as i8
    }
}

/// Reads a contract value as a signed 32-bit integer.
pub fn narrow_i32(x: u32) -> (r: i32)
    ensures
        r as int == as_signed_i32(x),
{
    if x >= 0x8000_0000 {
        (x as i64 - 0x1_0000_0000i64) as i32
    } else {
        x as i32
    }
}

impl GameState {
    /// The snapshot that `raw` stands for, field by field.
    pub open spec fn describes(&self, raw: &RawGameState) -> bool {
        &&& self.start_time == raw.start_time
        &&& self.last_draw_time == raw.last_draw_time
        &&& self.drawn_numbers_count as int == low_i8(raw.number_count)
        &&& self.drawn_numbers@.len() == raw.drawn_numbers@.len()
        &&& forall|i: int| 0 <= i < raw.drawn_numbers@.len()
            ==> #[trigger] self.drawn_numbers@[i] as int == low_i8(raw.drawn_numbers@[i])
        &&& self.is_ended == raw.is_ended
        &&& self.player_count as int == as_signed_i32(raw.player_count)
        &&& self.is_started == raw.is_started
    }

    /// Builds the reported snapshot from what the contract returned.
    pub fn from_raw(raw: &RawGameState) -> (r: GameState)
        ensures
            r.describes(raw),
    {
        let mut drawn: Vec<i8> = Vec::new();
        let mut i: usize = 0;
        while i < raw.drawn_numbers.len()
            invariant
                i <= raw.drawn_numbers@.len(),
                drawn@.len() == i,
                forall|j: int| 0 <= j < i ==> #[trigger] drawn@[j] as int == low_i8(raw.drawn_numbers@[j]),
            decreases raw.drawn_numbers@.len() - i,
        {
            drawn.push(narrow_i8(raw.drawn_numbers[i]));
            i += 1;
        }
        GameState {
            start_time: raw.start_time,
            last_draw_time: raw.last_draw_time,
            drawn_numbers_count: narrow_i8(raw.number_count),
            drawn_numbers: drawn,
            is_ended: raw.is_ended,
            player_count: narrow_i32(raw.player_count),
            is_started: raw.is_started,
        }
    }
}

/// The status line of a snapshot: not-started wins over ended, which wins
/// over the active description.
pub open spec fn status_text(is_started: bool, is_ended: bool, player_count: int, drawn_count: int) -> Seq<char> {
    if !is_started {
        "Game has not started yet"@
    } else if is_ended {
        "Game has ended"@
    } else {
        "Game is active with "@ + decimal_text(player_count) + " players. "@
            + decimal_text(drawn_count) + " numbers drawn so far"@
    }
}

/// Human-readable status of a game-state snapshot.
pub fn format_game_status_message(state: &GameState) -> (r: String)
    ensures
        r@ == status_text(state.is_started, state.is_ended, state.player_count as int,
            state.drawn_numbers_count as int),
{
    if !state.is_started {
        String::from_str("Game has not started yet")
    } else if state.is_ended {
        String::from_str("Game has ended")
    } else {
        let mut s = String::from_str("Game is active with ");
        push_signed_decimal(&mut s, state.player_count as i64);
        s.append(" players. ");
        push_signed_decimal(&mut s, state.drawn_numbers_count as i64);
        s.append(" numbers drawn so far");
        s
    }
}

} // verus!
