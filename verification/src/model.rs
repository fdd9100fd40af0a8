//! Mathematical model of the controller's timing behaviour.
//!
//! The functions here are pure specifications over the raw counters: which
//! mode a (line, horizontal counter) pair is in, how a line counter wraps,
//! and what a large time delta does when it spans several complete
//! scanlines.  The executable code in [`crate::ppu`] is verified against
//! these definitions.

use vstd::prelude::*;

verus! {

/// Number of time units in one full scanline period.
pub const LINE_PERIOD: usize = 456;

/// Highest scanline index; the line counter wraps back to 0 past it.
pub const LINE_MAX: u8 = 153;

/// First scanline of the vertical-blank region.
pub const VBLANK_START: u8 = 144;

/// Point within a line at which its pixel data becomes ready for output.
pub const READY_POINT: usize = 248;

/// Last horizontal counter value of the first fetch phase.
pub const FIRST_FETCH_END: usize = 77;

/// Last horizontal counter value of the pixel transfer phase.
pub const PIXEL_TRANSFER_END: usize = 247;

/// Whether bit `i` of the byte `v` is set.
pub open spec fn spec_bit(v: u8, i: u8) -> bool
    recommends
        i < 8,
{
    v & (1u8 << i) != 0
}

/// The 2-bit mode encoding for a given line and horizontal counter:
/// 1 = vertical blank (any line in the vblank region, regardless of the
/// horizontal counter), 2 = first fetch, 3 = pixel transfer,
/// 0 = transfer complete.
pub open spec fn spec_mode_bits(ly: u8, lx: int) -> u8 {
    if ly >= VBLANK_START {
        1
    } else if lx <= FIRST_FETCH_END {
        2
    } else if lx <= PIXEL_TRANSFER_END {
        3
    } else {
        0
    }
}

/// The line that follows `ly`, wrapping back to 0 past the last line.
pub open spec fn spec_next_line(ly: u8) -> u8 {
    if ly >= LINE_MAX {
        0
    } else {
        (ly + 1) as u8
    }
}

/// The horizontal counter left after rolling over every completed line
/// period contained in `lx`.
pub open spec fn spec_final_lx(lx: int) -> int
    decreases lx,
{
    if lx > LINE_PERIOD {
        spec_final_lx(lx - LINE_PERIOD)
    } else {
        lx
    }
}

/// The line reached after starting at `ly` and rolling over every
/// completed line period contained in `lx`.
pub open spec fn spec_final_line(ly: u8, lx: int) -> u8
    decreases lx,
{
    if lx > LINE_PERIOD {
        spec_final_line(spec_next_line(ly), lx - LINE_PERIOD)
    } else {
        ly
    }
}

/// The scanlines, in the order they are reached, that get past their ready
/// point while rolling over the completed line periods contained in `lx`,
/// starting from line `ly`.  The starting line itself is not included; see
/// [`spec_ready_lines`].
pub open spec fn spec_rolled_lines(ly: u8, lx: int) -> Seq<u8>
    decreases lx,
{
    if lx > LINE_PERIOD {
        let ly2 = spec_next_line(ly);
        let rest = spec_rolled_lines(ly2, lx - LINE_PERIOD);
        if lx - LINE_PERIOD >= READY_POINT {
            seq![ly2] + rest
        } else {
            rest
        }
    } else {
        Seq::empty()
    }
}

/// Every scanline reported ready by a single time advance that ends with
/// accumulated counter `lx >= READY_POINT`: the current line first, unless
/// it was already reported by an earlier call, then each line completed by
/// the rollover that reaches its own ready point.
pub open spec fn spec_ready_lines(ly: u8, lx: int, sent: bool) -> Seq<u8> {
    if sent {
        spec_rolled_lines(ly, lx)
    } else {
        seq![ly] + spec_rolled_lines(ly, lx)
    }
}

/// Whether the rollover from line `ly` with accumulated counter `lx`
/// enters the vertical-blank region, i.e. lands on its first line.
pub open spec fn spec_vblank_hit(ly: u8, lx: int) -> bool
    decreases lx,
{
    if lx > LINE_PERIOD {
        spec_next_line(ly) == VBLANK_START || spec_vblank_hit(spec_next_line(ly), lx - LINE_PERIOD)
    } else {
        false
    }
}

/// The line-compare match condition for a single line: gated by the
/// interrupt-enable bit 6 of the status byte, and with a polarity chosen
/// by its bit 2 — equality when set, inequality when clear.
pub open spec fn spec_line_match(stat: u8, lyc: u8, ly: u8) -> bool {
    spec_bit(stat, 6) && (if spec_bit(stat, 2) {
        lyc == ly
    } else {
        lyc != ly
    })
}

/// Whether any line completed by the rollover from `ly` with accumulated
/// counter `lx` satisfies the line-compare match condition.
pub open spec fn spec_match_hit(stat: u8, lyc: u8, ly: u8, lx: int) -> bool
    decreases lx,
{
    if lx > LINE_PERIOD {
        spec_line_match(stat, lyc, spec_next_line(ly)) || spec_match_hit(
            stat,
            lyc,
            spec_next_line(ly),
            lx - LINE_PERIOD,
        )
    } else {
        false
    }
}

} // verus!
