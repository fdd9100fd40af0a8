//! General laws of the controller, stated over the specification model and
//! proved once for all inputs.

use crate::model::spec_bit;
use crate::model::spec_final_line;
use crate::model::spec_final_lx;
use crate::model::spec_mode_bits;
use crate::model::spec_next_line;
use crate::model::spec_ready_lines;
use crate::model::spec_rolled_lines;
use crate::model::spec_vblank_hit;
use crate::model::FIRST_FETCH_END;
use crate::model::LINE_PERIOD;
use crate::model::PIXEL_TRANSFER_END;
use crate::model::READY_POINT;
use crate::model::VBLANK_START;
use crate::ppu::spec_advance_state;
use crate::ppu::spec_drain;
use crate::ppu::spec_poll_bits;
use crate::ppu::spec_read;
use crate::ppu::spec_state_of;
use crate::ppu::spec_write_fault;
use crate::ppu::spec_write_state;
use crate::ppu::ADDR_CONTROL;
use crate::ppu::ADDR_LINE;
use crate::ppu::ADDR_LINE_COMPARE;
use crate::ppu::ADDR_SCROLL_X;
use crate::ppu::ADDR_SCROLL_Y;
use crate::ppu::ADDR_STATUS;
use crate::ppu::ADDR_WINDOW_X;
use crate::ppu::ADDR_WINDOW_Y;
use crate::ppu::PPU;
use vstd::prelude::*;

verus! {

/// Reading a register straight after writing it returns the modeled
/// value: the written byte for the full-write registers (control and both
/// scroll registers), the written top bits over the preserved low bits
/// for status, and the prior value unchanged for the registers whose
/// writes are accepted but not stored (line compare and both window
/// positions).
pub proof fn lemma_read_after_write(s: PPU, data: u8)
    ensures
        spec_read(spec_write_state(s, ADDR_CONTROL, data), ADDR_CONTROL) == Some(data),
        spec_read(spec_write_state(s, ADDR_SCROLL_Y, data), ADDR_SCROLL_Y) == Some(data),
        spec_read(spec_write_state(s, ADDR_SCROLL_X, data), ADDR_SCROLL_X) == Some(data),
        spec_read(spec_write_state(s, ADDR_STATUS, data), ADDR_STATUS) == Some(
            (data & 0xF8) | (s.stat & 0x07),
        ),
        ((data & 0xF8) | (s.stat & 0x07)) & 0xF8 == data & 0xF8,
        spec_read(spec_write_state(s, ADDR_LINE_COMPARE, data), ADDR_LINE_COMPARE) == spec_read(
            s,
            ADDR_LINE_COMPARE,
        ),
        spec_read(spec_write_state(s, ADDR_WINDOW_Y, data), ADDR_WINDOW_Y) == spec_read(
            s,
            ADDR_WINDOW_Y,
        ),
        spec_read(spec_write_state(s, ADDR_WINDOW_X, data), ADDR_WINDOW_X) == spec_read(
            s,
            ADDR_WINDOW_X,
        ),
{
    let st: u8 = s.stat;
    assert(((data & 0xF8) | (st & 0x07)) & 0xF8 == data & 0xF8) by (bit_vector);
}

/// Writing any byte to the line address forces the line counter to 0,
/// whatever the byte was.
pub proof fn lemma_line_write_resets(s: PPU, data: u8)
    ensures
        spec_write_state(s, ADDR_LINE, data).ly == 0,
        spec_read(spec_write_state(s, ADDR_LINE, data), ADDR_LINE) == Some(0u8),
{
}

/// Advancing time by zero units never changes the line counter, the
/// horizontal counter, the latches, or the status mode bits — provided
/// the mode bits agree with the counters whenever the display is enabled,
/// which every enable transition establishes and every advance
/// re-establishes — and reports no ready scanline.
pub proof fn lemma_advance_zero(s: PPU)
    requires
        s.wf(),
        spec_bit(s.lcdc, 7) ==> s.stat & 0x03 == spec_mode_bits(s.ly, s.lx as int),
    ensures
        spec_advance_state(s, 0).ly == s.ly,
        spec_advance_state(s, 0).lx == s.lx,
        spec_advance_state(s, 0).lx_sent == s.lx_sent,
        spec_advance_state(s, 0).vblank_interupt_buffered == s.vblank_interupt_buffered,
        spec_advance_state(s, 0).stat_interupt_buffered == s.stat_interupt_buffered,
        spec_advance_state(s, 0).stat & 0x03 == s.stat & 0x03,
        s.lx + 0 >= READY_POINT ==> spec_ready_lines(s.ly, s.lx + 0, s.lx_sent) == Seq::<
            u8,
        >::empty(),
{
    if spec_bit(s.lcdc, 7) {
        let st: u8 = s.stat;
        assert(((st & 0xF8) | (st & 0x03)) & 0x03 == st & 0x03) by (bit_vector);
        assert(spec_final_lx(s.lx as int) == s.lx as int);
        assert(spec_final_line(s.ly, s.lx as int) == s.ly);
        assert(!spec_vblank_hit(s.ly, s.lx as int));
    }
    if s.lx >= READY_POINT {
        assert(spec_rolled_lines(s.ly, s.lx as int) == Seq::<u8>::empty());
    }
}

/// If the rollover from `ly` with accumulated counter `lx` ends on a line
/// in the vertical-blank region while starting below it, it must have
/// landed on the region's first line at some step on the way: the line
/// counter only ever moves up by one (or wraps to 0).
pub proof fn lemma_vblank_entry(ly: u8, lx: int)
    requires
        ly < VBLANK_START,
        spec_final_line(ly, lx) >= VBLANK_START,
    ensures
        spec_vblank_hit(ly, lx),
    decreases lx,
{
    if lx > LINE_PERIOD {
        let ly2 = spec_next_line(ly);
        if ly2 != VBLANK_START {
            lemma_vblank_entry(ly2, lx - LINE_PERIOD);
        }
    }
}

/// When an advance's rollover enters the vertical-blank region, the
/// vblank latch is pending afterwards, so the next drain reports bit 0.
pub proof fn lemma_vblank_latched(s: PPU, time: nat)
    requires
        spec_bit(s.lcdc, 7),
        spec_vblank_hit(s.ly, s.lx + time),
    ensures
        spec_advance_state(s, time).vblank_interupt_buffered,
        spec_poll_bits(spec_advance_state(s, time)) & 0x01 == 0x01,
{
    let l: int = s.lx + time;
    assert(l > LINE_PERIOD);
    let p: u8 = spec_poll_bits(spec_advance_state(s, time));
    assert(p == 1 || p == 3);
    assert(1u8 & 0x01 == 0x01 && 3u8 & 0x01 == 0x01) by (bit_vector);
}

/// Draining the interrupt latches clears them, so a second drain with no
/// intervening rollover reports nothing pending.
pub proof fn lemma_poll_twice(s: PPU)
    ensures
        spec_poll_bits(spec_drain(s)) == 0,
{
}

/// Turning the display-enable bit off faults exactly when the mode bits
/// read vertical blank; in every other mode the transition succeeds and
/// stores the whole written byte, leaving the rest of the state alone.
pub proof fn lemma_display_disable(s: PPU, data: u8)
    requires
        spec_bit(s.lcdc, 7),
        !spec_bit(data, 7),
    ensures
        spec_write_fault(s, ADDR_CONTROL, data) <==> spec_state_of(s.stat) is VBlank,
        !(spec_state_of(s.stat) is VBlank) ==> spec_write_state(s, ADDR_CONTROL, data) == (PPU {
            lcdc: data,
            ..s
        }),
{
}

/// For every line in the vertical-blank region the mode is pinned to
/// vblank, whatever the horizontal counter holds.
pub proof fn lemma_mode_vblank_pinned(ly: u8, lx: int)
    requires
        ly >= VBLANK_START,
    ensures
        spec_mode_bits(ly, lx) == 1,
{
}

/// Below the vertical-blank region the three in-line phases partition the
/// horizontal counter range exactly: first fetch, then pixel transfer,
/// then transfer complete, and never vblank.
pub proof fn lemma_mode_cycle(ly: u8, lx: int)
    requires
        ly < VBLANK_START,
        0 <= lx <= LINE_PERIOD,
    ensures
        spec_mode_bits(ly, lx) == 2 <==> lx <= FIRST_FETCH_END,
        spec_mode_bits(ly, lx) == 3 <==> FIRST_FETCH_END < lx <= PIXEL_TRANSFER_END,
        spec_mode_bits(ly, lx) == 0 <==> PIXEL_TRANSFER_END < lx,
        spec_mode_bits(ly, lx) != 1,
{
}

/// Position of a mode encoding in the in-line cycle: first fetch, then
/// pixel transfer, then transfer complete.
pub open spec fn spec_mode_rank(bits: u8) -> int {
    if bits == 2 {
        0
    } else if bits == 3 {
        1
    } else {
        2
    }
}

/// Within one visible line the mode only moves forward through the cycle
/// as the horizontal counter grows: it never steps back.
pub proof fn lemma_mode_order(ly: u8, lx1: int, lx2: int)
    requires
        ly < VBLANK_START,
        0 <= lx1 <= lx2 <= LINE_PERIOD,
    ensures
        spec_mode_rank(spec_mode_bits(ly, lx1)) <= spec_mode_rank(spec_mode_bits(ly, lx2)),
{
}

} // verus!
