use vstd::prelude::*;

verus! {

/// The largest value an 8-bit colour channel can hold.
pub const CHANNEL_MAX: u8 = 255;

/// `v` clamped to the range of an 8-bit channel, `[0, 255]`.
pub open spec fn clamp_channel(v: int) -> int {
    if v < 0 {
        0
    } else if v > CHANNEL_MAX {
        CHANNEL_MAX as int
    } else {
        v
    }
}

/// Turns a channel that has already been scaled by 255 and truncated
/// toward zero into an 8-bit value, clamping it into `[0, 255]`.
pub fn color_u8_from_scaled(scaled: i64) -> (c: u8)
    ensures
        c == clamp_channel(scaled as int),
{
    if scaled < 0 {
        0
    } else if scaled > CHANNEL_MAX as i64 {
        CHANNEL_MAX
    } else {
        scaled as u8
    }
}

} // verus!
