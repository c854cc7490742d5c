use vstd::prelude::*;

verus! {

/// Full intensity of one channel: a channel of `CHANNEL_FULL` is the real
/// value 1.0, a channel of 0 is 0.0.
pub const CHANNEL_FULL: i32 = 255;

/// Whether `c` (in steps of 1/255) lies in [0.0, 1.0].
pub open spec fn valid_channel(c: int) -> bool {
    0 <= c <= CHANNEL_FULL
}

/// The color of the status LED. Each channel is in steps of 1/255, so every
/// value of the type is in range.
#[derive(Clone, Copy, Debug, PartialEq, Eq, Structural)]
pub struct LedColor {
    pub r: u8,
    pub g: u8,
    pub b: u8,
    /// Opacity: full for a color that is on, zero for off.
    pub a: u8,
}

impl LedColor {
    /// A fully opaque color; fails where any channel lies outside [0.0, 1.0].
    pub fn new(r: i32, g: i32, b: i32) -> (res: Result<LedColor, &'static str>)
        ensures
            res.is_ok() <==> valid_channel(r as int) && valid_channel(g as int) && valid_channel(
                b as int,
            ),
            res matches Ok(c) ==> c.r == r && c.g == g && c.b == b && c.a == CHANNEL_FULL,
    {
        if !(0 <= r && r <= CHANNEL_FULL && 0 <= g && g <= CHANNEL_FULL && 0 <= b && b
            <= CHANNEL_FULL) {
            return Err("Attempting to construct LED color with invalid args.");
        }
        Ok(LedColor { r: r as u8, g: g as u8, b: b as u8, a: 255 })
    }

    /// The color of a switched-off LED: every channel zero.
    pub fn off() -> (c: LedColor)
        ensures
            c.r == 0 && c.g == 0 && c.b == 0 && c.a == 0,
    {
        LedColor { r: 0, g: 0, b: 0, a: 0 }
    }
}

} // verus!
