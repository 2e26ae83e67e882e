//! The palette: the fixed lookup table from iteration counts to
//! display colours.
//!
//! The table holds 40 colours, yet an escaped count is reduced modulo
//! 26 before the lookup, so only the first 26 entries are ever
//! reached; the table is kept whole for visual parity. A bound point
//! is always pure black.

use vstd::prelude::*;
use crate::escape::EscapeResult;

verus! {

/// One colour, as an RGB triple.
#[derive(Clone, Copy, Debug, PartialEq, Eq, Structural)]
pub struct Rgb {
    pub r: u8,
    pub g: u8,
    pub b: u8,
}

/// Number of entries in the palette table.
pub const PALETTE_LEN: u32 = 40;

/// Modulus applied to an escaped count before the table lookup; the
/// entries beyond it are unreachable through `color_spec`.
pub const REACHABLE_COLORS: u32 = 26;

/// The palette table entry at index `k`.
pub open spec fn palette_rgb(k: int) -> Rgb {
    if k == 0 {
        Rgb { r: 42, g: 72, b: 88 }
    } else if k == 1 {
        Rgb { r: 41, g: 77, b: 93 }
    } else if k == 2 {
        Rgb { r: 39, g: 81, b: 99 }
    } else if k == 3 {
        Rgb { r: 37, g: 86, b: 103 }
    } else if k == 4 {
        Rgb { r: 34, g: 91, b: 108 }
    } else if k == 5 {
        Rgb { r: 30, g: 96, b: 113 }
    } else if k == 6 {
        Rgb { r: 26, g: 101, b: 117 }
    } else if k == 7 {
        Rgb { r: 21, g: 106, b: 121 }
    } else if k == 8 {
        Rgb { r: 14, g: 111, b: 125 }
    } else if k == 9 {
        Rgb { r: 5, g: 116, b: 128 }
    } else if k == 10 {
        Rgb { r: 0, g: 121, b: 131 }
    } else if k == 11 {
        Rgb { r: 0, g: 126, b: 134 }
    } else if k == 12 {
        Rgb { r: 0, g: 132, b: 136 }
    } else if k == 13 {
        Rgb { r: 0, g: 137, b: 138 }
    } else if k == 14 {
        Rgb { r: 0, g: 142, b: 140 }
    } else if k == 15 {
        Rgb { r: 0, g: 147, b: 141 }
    } else if k == 16 {
        Rgb { r: 0, g: 152, b: 142 }
    } else if k == 17 {
        Rgb { r: 3, g: 157, b: 143 }
    } else if k == 18 {
        Rgb { r: 18, g: 162, b: 143 }
    } else if k == 19 {
        Rgb { r: 30, g: 167, b: 143 }
    } else if k == 20 {
        Rgb { r: 40, g: 172, b: 143 }
    } else if k == 21 {
        Rgb { r: 50, g: 177, b: 142 }
    } else if k == 22 {
        Rgb { r: 60, g: 182, b: 141 }
    } else if k == 23 {
        Rgb { r: 70, g: 187, b: 140 }
    } else if k == 24 {
        Rgb { r: 80, g: 191, b: 139 }
    } else if k == 25 {
        Rgb { r: 90, g: 196, b: 137 }
    } else if k == 26 {
        Rgb { r: 100, g: 201, b: 135 }
    } else if k == 27 {
        Rgb { r: 110, g: 205, b: 133 }
    } else if k == 28 {
        Rgb { r: 121, g: 210, b: 131 }
    } else if k == 29 {
        Rgb { r: 131, g: 214, b: 129 }
    } else if k == 30 {
        Rgb { r: 142, g: 218, b: 127 }
    } else if k == 31 {
        Rgb { r: 153, g: 222, b: 124 }
    } else if k == 32 {
        Rgb { r: 165, g: 226, b: 122 }
    } else if k == 33 {
        Rgb { r: 176, g: 230, b: 120 }
    } else if k == 34 {
        Rgb { r: 188, g: 234, b: 117 }
    } else if k == 35 {
        Rgb { r: 200, g: 237, b: 115 }
    } else if k == 36 {
        Rgb { r: 212, g: 241, b: 113 }
    } else if k == 37 {
        Rgb { r: 224, g: 244, b: 112 }
    } else if k == 38 {
        Rgb { r: 237, g: 247, b: 111 }
    } else {
        Rgb { r: 250, g: 250, b: 110 }
    }
}

/// Table lookup, exact against `palette_rgb`.
pub fn palette_entry(k: u32) -> (c: Rgb)
    requires
        k < PALETTE_LEN,
    ensures
        c == palette_rgb(k as int),
{
    if k == 0 {
        Rgb { r: 42, g: 72, b: 88 }
    } else if k == 1 {
        Rgb { r: 41, g: 77, b: 93 }
    } else if k == 2 {
        Rgb { r: 39, g: 81, b: 99 }
    } else if k == 3 {
        Rgb { r: 37, g: 86, b: 103 }
    } else if k == 4 {
        Rgb { r: 34, g: 91, b: 108 }
    } else if k == 5 {
        Rgb { r: 30, g: 96, b: 113 }
    } else if k == 6 {
        Rgb { r: 26, g: 101, b: 117 }
    } else if k == 7 {
        Rgb { r: 21, g: 106, b: 121 }
    } else if k == 8 {
        Rgb { r: 14, g: 111, b: 125 }
    } else if k == 9 {
        Rgb { r: 5, g: 116, b: 128 }
    } else if k == 10 {
        Rgb { r: 0, g: 121, b: 131 }
    } else if k == 11 {
        Rgb { r: 0, g: 126, b: 134 }
    } else if k == 12 {
        Rgb { r: 0, g: 132, b: 136 }
    } else if k == 13 {
        Rgb { r: 0, g: 137, b: 138 }
    } else if k == 14 {
        Rgb { r: 0, g: 142, b: 140 }
    } else if k == 15 {
        Rgb { r: 0, g: 147, b: 141 }
    } else if k == 16 {
        Rgb { r: 0, g: 152, b: 142 }
    } else if k == 17 {
        Rgb { r: 3, g: 157, b: 143 }
    } else if k == 18 {
        Rgb { r: 18, g: 162, b: 143 }
    } else if k == 19 {
        Rgb { r: 30, g: 167, b: 143 }
    } else if k == 20 {
        Rgb { r: 40, g: 172, b: 143 }
    } else if k == 21 {
        Rgb { r: 50, g: 177, b: 142 }
    } else if k == 22 {
        Rgb { r: 60, g: 182, b: 141 }
    } else if k == 23 {
        Rgb { r: 70, g: 187, b: 140 }
    } else if k == 24 {
        Rgb { r: 80, g: 191, b: 139 }
    } else if k == 25 {
        Rgb { r: 90, g: 196, b: 137 }
    } else if k == 26 {
        Rgb { r: 100, g: 201, b: 135 }
    } else if k == 27 {
        Rgb { r: 110, g: 205, b: 133 }
    } else if k == 28 {
        Rgb { r: 121, g: 210, b: 131 }
    } else if k == 29 {
        Rgb { r: 131, g: 214, b: 129 }
    } else if k == 30 {
        Rgb { r: 142, g: 218, b: 127 }
    } else if k == 31 {
        Rgb { r: 153, g: 222, b: 124 }
    } else if k == 32 {
        Rgb { r: 165, g: 226, b: 122 }
    } else if k == 33 {
        Rgb { r: 176, g: 230, b: 120 }
    } else if k == 34 {
        Rgb { r: 188, g: 234, b: 117 }
    } else if k == 35 {
        Rgb { r: 200, g: 237, b: 115 }
    } else if k == 36 {
        Rgb { r: 212, g: 241, b: 113 }
    } else if k == 37 {
        Rgb { r: 224, g: 244, b: 112 }
    } else if k == 38 {
        Rgb { r: 237, g: 247, b: 111 }
    } else {
        Rgb { r: 250, g: 250, b: 110 }
    }
}

/// The colour owed to an escape result: black for a bound point, the
/// palette entry at the count modulo `REACHABLE_COLORS` otherwise.
pub open spec fn color_spec(res: EscapeResult) -> Rgb {
    match res {
        EscapeResult::Bound => Rgb { r: 0, g: 0, b: 0 },
        EscapeResult::Escaped(i) => palette_rgb((i as int) % (REACHABLE_COLORS as int)),
    }
}

/// Colorization of one escape result, exact against `color_spec`.
pub fn colorize(res: EscapeResult) -> (c: Rgb)
    ensures
        c == color_spec(res),
{
    match res {
        EscapeResult::Bound => Rgb { r: 0, g: 0, b: 0 },
        EscapeResult::Escaped(i) => palette_entry(i % REACHABLE_COLORS),
    }
}

/// Two escaped counts in the same class modulo `REACHABLE_COLORS`
/// colorize identically.
pub proof fn lemma_palette_class_determinism(i: u32, j: u32)
    requires
        i % REACHABLE_COLORS == j % REACHABLE_COLORS,
    ensures
        color_spec(EscapeResult::Escaped(i)) == color_spec(EscapeResult::Escaped(j)),
{
}

} // verus!
