//! The controller state and its verified operations.
//!
//! All externally visible behaviour goes through the [`PPU`] struct: the
//! register file ([`PPU::read`], [`PPU::write`]), the timing accumulator
//! ([`PPU::time_passes`]), and the interrupt latch ([`PPU::interupt_update`]).

use crate::model::spec_bit;
use crate::model::spec_line_match;
use crate::model::spec_match_hit;
use crate::model::spec_mode_bits;
use crate::model::spec_vblank_hit;
use crate::model::spec_final_line;
use crate::model::spec_final_lx;
use crate::model::spec_ready_lines;
use crate::model::spec_rolled_lines;
use crate::model::FIRST_FETCH_END;
use crate::model::LINE_MAX;
use crate::model::LINE_PERIOD;
use crate::model::PIXEL_TRANSFER_END;
use crate::model::READY_POINT;
use crate::model::VBLANK_START;
use vstd::prelude::*;

verus! {

/// Bus address of the control register.
pub const ADDR_CONTROL: u16 = 0xFF40;

/// Bus address of the status register.
pub const ADDR_STATUS: u16 = 0xFF41;

/// Bus address of the vertical scroll register.
pub const ADDR_SCROLL_Y: u16 = 0xFF42;

/// Bus address of the horizontal scroll register.
pub const ADDR_SCROLL_X: u16 = 0xFF43;

/// Bus address of the current-line register.
pub const ADDR_LINE: u16 = 0xFF44;

/// Bus address of the line-compare register.
pub const ADDR_LINE_COMPARE: u16 = 0xFF45;

/// Bus address of the window y-position register.
pub const ADDR_WINDOW_Y: u16 = 0xFF4A;

/// Bus address of the window x-position register.
pub const ADDR_WINDOW_X: u16 = 0xFF4B;

/// The display controller's operating phase, as encoded in the low two
/// status bits: `TransferComplete` = 0, `VBlank` = 1, `FirstFetch` = 2,
/// `PixelTransfer` = 3.
#[derive(Clone, Copy, Debug, PartialEq, Eq, Structural)]
pub enum Mode {
    TransferComplete,
    VBlank,
    FirstFetch,
    PixelTransfer,
}

/// A fatal fault: the modeled hardware entered an undefined condition.
#[derive(Clone, Copy, Debug, PartialEq, Eq, Structural)]
pub enum Fault {
    IllegalStateTransition,
}

/// The whole controller state.  Owned by a single driver and mutated only
/// through the operations below.
pub struct PPU {
    /// Control register: feature-enable flags; bit 7 is display enable.
    pub lcdc: u8,
    /// Status register: top 5 bits are consumer-set interrupt enables,
    /// bits 0-1 the hardware-owned mode encoding, bit 2 the compare flag.
    pub stat: u8,
    /// Vertical background scroll offset, opaque to this core.
    pub scy: u8,
    /// Horizontal background scroll offset, opaque to this core.
    pub scx: u8,
    /// Current scanline; read-only to the bus.
    pub ly: u8,
    /// Time units elapsed within the current scanline; not bus-addressable.
    pub lx: usize,
    /// Whether the current scanline was already reported ready.
    pub lx_sent: bool,
    /// One-shot latch: the vertical-blank region was entered.
    pub vblank_interupt_buffered: bool,
    /// One-shot latch: the line-compare condition matched.
    pub stat_interupt_buffered: bool,
    /// Line-compare target value.
    pub lyc: u8,
    /// Window layer y position, opaque to this core.
    pub wy: u8,
    /// Window layer x position, opaque to this core.
    pub wx: u8,
}

/// The mode tag encoded in the low two bits of a status byte.
pub open spec fn spec_state_of(stat: u8) -> Mode {
    if stat & 0x03 == 0 {
        Mode::TransferComplete
    } else if stat & 0x03 == 1 {
        Mode::VBlank
    } else if stat & 0x03 == 2 {
        Mode::FirstFetch
    } else {
        Mode::PixelTransfer
    }
}

/// What a bus read returns for each recognized address.
pub open spec fn spec_read(s: PPU, addr: u16) -> Option<u8> {
    if addr == ADDR_CONTROL {
        Some(s.lcdc)
    } else if addr == ADDR_STATUS {
        Some(s.stat)
    } else if addr == ADDR_SCROLL_Y {
        Some(s.scy)
    } else if addr == ADDR_SCROLL_X {
        Some(s.scx)
    } else if addr == ADDR_LINE {
        Some(s.ly)
    } else if addr == ADDR_LINE_COMPARE {
        Some(s.lyc)
    } else if addr == ADDR_WINDOW_Y {
        Some(s.wy)
    } else if addr == ADDR_WINDOW_X {
        Some(s.wx)
    } else {
        None
    }
}

/// Whether a bus write to `addr` is claimed by this peripheral.
pub open spec fn spec_write_handled(addr: u16) -> bool {
    ||| addr == ADDR_CONTROL
    ||| addr == ADDR_STATUS
    ||| addr == ADDR_SCROLL_Y
    ||| addr == ADDR_SCROLL_X
    ||| addr == ADDR_LINE
    ||| addr == ADDR_LINE_COMPARE
    ||| addr == ADDR_WINDOW_Y
    ||| addr == ADDR_WINDOW_X
}

/// Whether a bus write faults: turning the display off while the mode
/// bits read vertical blank is an undefined hardware condition.
pub open spec fn spec_write_fault(s: PPU, addr: u16, data: u8) -> bool {
    &&& addr == ADDR_CONTROL
    &&& spec_bit(s.lcdc, 7)
    &&& !spec_bit(data, 7)
    &&& spec_state_of(s.stat) is VBlank
}

/// The controller state after a non-faulting bus write, enforcing each
/// register's access policy: full writes for control and the scroll
/// registers, a partial write for status, a forced reset for the line
/// register, and accepted-but-unstored writes for the line-compare and
/// window registers.  Writing control with display enable rising resets
/// the line and horizontal counters and recomputes the mode bits.
pub open spec fn spec_write_state(s: PPU, addr: u16, data: u8) -> PPU {
    if addr == ADDR_CONTROL {
        if !spec_bit(s.lcdc, 7) && spec_bit(data, 7) {
            PPU {
                lcdc: data,
                ly: 0,
                lx: 0,
                stat: (s.stat & 0xF8) | spec_mode_bits(0, 0),
                ..s
            }
        } else {
            PPU { lcdc: data, ..s }
        }
    } else if addr == ADDR_STATUS {
        PPU { stat: (data & 0xF8) | (s.stat & 0x07), ..s }
    } else if addr == ADDR_SCROLL_Y {
        PPU { scy: data, ..s }
    } else if addr == ADDR_SCROLL_X {
        PPU { scx: data, ..s }
    } else if addr == ADDR_LINE {
        PPU { ly: 0, ..s }
    } else {
        s
    }
}

/// The controller state after advancing time by `time` units: unchanged
/// while the display is disabled; otherwise the counters roll over every
/// completed line period, the interrupt latches pick up every vblank
/// entry and line-compare match seen on the way, and the mode bits are
/// recomputed for the final position.
pub open spec fn spec_advance_state(s: PPU, time: nat) -> PPU {
    if !spec_bit(s.lcdc, 7) {
        s
    } else {
        let l: int = s.lx + time;
        let fly = spec_final_line(s.ly, l);
        let flx = spec_final_lx(l);
        let st = (s.stat & 0xF8) | spec_mode_bits(fly, flx);
        if l < READY_POINT {
            PPU { lx: l as usize, stat: st, ..s }
        } else {
            PPU {
                ly: fly,
                lx: flx as usize,
                lx_sent: flx >= READY_POINT,
                vblank_interupt_buffered: s.vblank_interupt_buffered || spec_vblank_hit(s.ly, l),
                stat_interupt_buffered: s.stat_interupt_buffered || spec_match_hit(
                    s.stat,
                    s.lyc,
                    s.ly,
                    l,
                ),
                stat: st,
                ..s
            }
        }
    }
}

/// The byte handed to the interrupt controller when draining the latches:
/// bit 0 for a pending vblank entry, bit 1 for a pending line-compare
/// match.
pub open spec fn spec_poll_bits(s: PPU) -> u8 {
    (((if s.vblank_interupt_buffered {
        1int
    } else {
        0int
    }) + (if s.stat_interupt_buffered {
        2int
    } else {
        0int
    })) as u8)
}

/// The controller state after draining the interrupt latches.
pub open spec fn spec_drain(s: PPU) -> PPU {
    PPU { vblank_interupt_buffered: false, stat_interupt_buffered: false, ..s }
}

/// Whether bit `i` of the byte `v` is set.
fn bit_set(v: u8, i: u8) -> (r: bool)
    requires
        i < 8,
    ensures
        r == spec_bit(v, i),
{
    v & (1u8 << i) != 0
}

impl PPU {
    /// Well-formedness: the line index and horizontal counter stay within
    /// their hardware ranges, and a horizontal counter at or past the
    /// ready point means the current line was already reported.
    pub open spec fn wf(self) -> bool {
        &&& self.ly <= LINE_MAX
        &&& self.lx <= LINE_PERIOD
        &&& (self.lx >= READY_POINT ==> self.lx_sent)
    }

    /// A fresh controller: every register zeroed, the display disabled,
    /// no interrupt pending.
    pub fn new() -> (r: Self)
        ensures
            r.lcdc == 0,
            r.stat == 0,
            r.scy == 0,
            r.scx == 0,
            r.ly == 0,
            r.lx == 0,
            r.lx_sent == false,
            r.vblank_interupt_buffered == false,
            r.stat_interupt_buffered == false,
            r.lyc == 0,
            r.wy == 0,
            r.wx == 0,
            r.wf(),
    {
        PPU {
            lcdc: 0,
            stat: 0,
            scy: 0,
            scx: 0,
            ly: 0,
            lx: 0,
            lx_sent: false,
            vblank_interupt_buffered: false,
            stat_interupt_buffered: false,
            lyc: 0,
            wy: 0,
            wx: 0,
        }
    }

    /// Bus read: the current value of one of the eight recognized
    /// registers, or `None` to signal that another peripheral owns the
    /// address.
    pub fn read(&self, addr: u16) -> (r: Option<u8>)
        ensures
            r == spec_read(*self, addr),
    {
        if addr == ADDR_CONTROL {
            Some(self.lcdc)
        } else if addr == ADDR_STATUS {
            Some(self.stat)
        } else if addr == ADDR_SCROLL_Y {
            Some(self.scy)
        } else if addr == ADDR_SCROLL_X {
            Some(self.scx)
        } else if addr == ADDR_LINE {
            Some(self.ly)
        } else if addr == ADDR_LINE_COMPARE {
            Some(self.lyc)
        } else if addr == ADDR_WINDOW_Y {
            Some(self.wy)
        } else if addr == ADDR_WINDOW_X {
            Some(self.wx)
        } else {
            None
        }
    }

    /// Whether bit `offset` of the control register is set.
    pub fn lcdc_get(&self, offset: u8) -> (r: bool)
        requires
            offset < 8,
        ensures
            r == spec_bit(self.lcdc, offset),
    {
        bit_set(self.lcdc, offset)
    }

    /// Whether bit `offset` of the status register is set.
    pub fn stat_get(&self, offset: u8) -> (r: bool)
        requires
            offset < 8,
        ensures
            r == spec_bit(self.stat, offset),
    {
        bit_set(self.stat, offset)
    }

    /// The mode tag encoded in the low two status bits.
    pub fn state(&self) -> (m: Mode)
        ensures
            m == spec_state_of(self.stat),
    {
        let bits: u8 = self.stat & 0x03;
        if bits == 0 {
            Mode::TransferComplete
        } else if bits == 1 {
            Mode::VBlank
        } else if bits == 2 {
            Mode::FirstFetch
        } else {
            Mode::PixelTransfer
        }
    }

    /// Write the control register, running the display-enable transition
    /// protocol first: a rising enable bit restarts the frame at line 0,
    /// a falling enable bit is a fatal fault while the mode bits read
    /// vertical blank.  On success the raw byte is stored unconditionally.
    pub fn lcdc_set(&mut self, data: u8) -> (r: Result<bool, Fault>)
        requires
            old(self).wf(),
        ensures
            final(self).wf(),
            (r is Err) <==> spec_write_fault(*old(self), ADDR_CONTROL, data),
            r is Err ==> *final(self) == *old(self) && r == Err::<bool, Fault>(
                Fault::IllegalStateTransition,
            ),
            r is Ok ==> *final(self) == spec_write_state(*old(self), ADDR_CONTROL, data) && r
                == Ok::<bool, Fault>(true),
    {
        let was_on = bit_set(self.lcdc, 7);
        let now_on = bit_set(data, 7);
        if !was_on && now_on {
            self.ly = 0;
            self.lx = 0;
            self.set_state();
        } else if was_on && !now_on {
            match self.state() {
                Mode::VBlank => {
                    return Err(Fault::IllegalStateTransition);
                },
                _ => {},
            }
        }
        self.lcdc = data;
        Ok(true)
    }

    /// Bus write: applies each register's access policy, returning whether
    /// the address belongs to this peripheral, or the fault raised by the
    /// display-enable transition protocol.
    pub fn write(&mut self, addr: u16, data: u8) -> (r: Result<bool, Fault>)
        requires
            old(self).wf(),
        ensures
            final(self).wf(),
            (r is Err) <==> spec_write_fault(*old(self), addr, data),
            r is Err ==> *final(self) == *old(self) && r == Err::<bool, Fault>(
                Fault::IllegalStateTransition,
            ),
            r is Ok ==> *final(self) == spec_write_state(*old(self), addr, data) && r
                == Ok::<bool, Fault>(spec_write_handled(addr)),
    {
        if addr == ADDR_CONTROL {
            self.lcdc_set(data)
        } else if addr == ADDR_STATUS {
            self.stat = (data & 0xF8) | (self.stat & 0x07);
            Ok(true)
        } else if addr == ADDR_SCROLL_Y {
            self.scy = data;
            Ok(true)
        } else if addr == ADDR_SCROLL_X {
            self.scx = data;
            Ok(true)
        } else if addr == ADDR_LINE {
            // The line register is read-only; a write resets the counter
            // instead of storing the byte.
            self.ly = 0;
            Ok(true)
        } else if addr == ADDR_LINE_COMPARE {
            // Accepted by the bus but not stored.
            Ok(true)
        } else if addr == ADDR_WINDOW_Y {
            // Accepted by the bus but not stored.
            Ok(true)
        } else if addr == ADDR_WINDOW_X {
            // Accepted by the bus but not stored.
            Ok(true)
        } else {
            Ok(false)
        }
    }

    /// Advance the timing by `time` elapsed units.  While the display is
    /// enabled the horizontal counter accumulates the delta, rolls over
    /// every completed line period (wrapping the line counter and latching
    /// interrupts for each new line), and the call reports every scanline
    /// whose pixel data became ready during the interval, in the order the
    /// lines were reached.  `None` means the display is halted or no line
    /// has reached its ready point yet.
    pub fn time_passes(&mut self, time: usize) -> (r: Option<Vec<u8>>)
        requires
            old(self).wf(),
            time <= usize::MAX - LINE_PERIOD,
        ensures
            final(self).wf(),
            *final(self) == spec_advance_state(*old(self), time as nat),
            (r is Some) <==> (spec_bit(old(self).lcdc, 7) && old(self).lx + time >= READY_POINT),
            r matches Some(v) ==> v@ == spec_ready_lines(
                old(self).ly,
                old(self).lx + time,
                old(self).lx_sent,
            ),
    {
        let ghost s0 = *old(self);
        let ghost l0: int = s0.lx + time;
        if !self.lcdc_get(7) {
            return None;
        }
        self.lx = self.lx + time;
        if self.lx >= READY_POINT {
            let mut ret: Vec<u8> = Vec::new();
            if !self.lx_sent {
                ret.push(self.ly);
                self.lx_sent = true;
            }
            proof {
                assert(spec_ready_lines(s0.ly, l0, s0.lx_sent) =~= ret@ + spec_rolled_lines(
                    self.ly,
                    self.lx as int,
                ));
            }
            while self.lx > LINE_PERIOD
                invariant
                    s0.wf(),
                    spec_bit(s0.lcdc, 7),
                    l0 == s0.lx + time,
                    l0 >= READY_POINT,
                    self.ly <= LINE_MAX,
                    self.lcdc == s0.lcdc,
                    self.stat == s0.stat,
                    self.scy == s0.scy,
                    self.scx == s0.scx,
                    self.lyc == s0.lyc,
                    self.wy == s0.wy,
                    self.wx == s0.wx,
                    spec_final_lx(self.lx as int) == spec_final_lx(l0),
                    spec_final_line(self.ly, self.lx as int) == spec_final_line(s0.ly, l0),
                    ret@ + spec_rolled_lines(self.ly, self.lx as int) == spec_ready_lines(
                        s0.ly,
                        l0,
                        s0.lx_sent,
                    ),
                    (self.vblank_interupt_buffered || spec_vblank_hit(self.ly, self.lx as int)) == (
                    s0.vblank_interupt_buffered || spec_vblank_hit(s0.ly, l0)),
                    (self.stat_interupt_buffered || spec_match_hit(
                        s0.stat,
                        s0.lyc,
                        self.ly,
                        self.lx as int,
                    )) == (s0.stat_interupt_buffered || spec_match_hit(s0.stat, s0.lyc, s0.ly, l0)),
                    self.lx <= LINE_PERIOD ==> self.lx_sent == (self.lx >= READY_POINT),
                decreases self.lx,
            {
                let ghost ly_prev: u8 = self.ly;
                let ghost lx_prev: int = self.lx as int;
                self.ly = self.ly + 1;
                self.lx = self.lx - LINE_PERIOD;
                if self.ly > LINE_MAX {
                    self.ly = 0;
                }
                proof {
                    assert(self.ly == crate::model::spec_next_line(ly_prev));
                }
                self.buffer_interupts();
                let ghost ret_prev = ret@;
                if self.lx >= READY_POINT {
                    ret.push(self.ly);
                    self.lx_sent = true;
                } else {
                    self.lx_sent = false;
                }
                proof {
                    if lx_prev - LINE_PERIOD >= READY_POINT {
                        assert(spec_rolled_lines(ly_prev, lx_prev) == seq![self.ly]
                            + spec_rolled_lines(self.ly, self.lx as int));
                        assert(ret@ =~= ret_prev + seq![self.ly]);
                        assert(ret@ + spec_rolled_lines(self.ly, self.lx as int) =~= ret_prev
                            + spec_rolled_lines(ly_prev, lx_prev));
                    } else {
                        assert(spec_rolled_lines(ly_prev, lx_prev) == spec_rolled_lines(
                            self.ly,
                            self.lx as int,
                        ));
                    }
                }
            }
            self.set_state();
            proof {
                assert(spec_final_lx(self.lx as int) == self.lx as int);
                assert(spec_final_line(self.ly, self.lx as int) == self.ly);
                assert(spec_rolled_lines(self.ly, self.lx as int) == Seq::<u8>::empty());
                assert(ret@ + Seq::<u8>::empty() =~= ret@);
                assert(!spec_vblank_hit(self.ly, self.lx as int));
                assert(!spec_match_hit(s0.stat, s0.lyc, self.ly, self.lx as int));
            }
            Some(ret)
        } else {
            self.set_state();
            proof {
                assert(spec_final_lx(l0) == l0);
                assert(spec_final_line(s0.ly, l0) == s0.ly);
            }
            None
        }
    }

    /// Latch the interrupt conditions for the current line: entry into the
    /// vertical-blank region, and the line-compare match gated and
    /// polarized by the status bits.
    pub fn buffer_interupts(&mut self)
        ensures
            *final(self) == (PPU {
                vblank_interupt_buffered: old(self).vblank_interupt_buffered || old(self).ly
                    == VBLANK_START,
                stat_interupt_buffered: old(self).stat_interupt_buffered || spec_line_match(
                    old(self).stat,
                    old(self).lyc,
                    old(self).ly,
                ),
                ..*old(self)
            }),
    {
        if self.ly == VBLANK_START {
            self.vblank_interupt_buffered = true;
        }
        if self.stat_get(6) {
            let matched = if self.stat_get(2) {
                self.lyc == self.ly
            } else {
                self.lyc != self.ly
            };
            if matched {
                self.stat_interupt_buffered = true;
            }
        }
    }

    /// Drain the interrupt latches: report what is pending as a bitmask
    /// (bit 0 vblank entry, bit 1 line-compare match) and clear both.
    pub fn interupt_update(&mut self) -> (r: u8)
        ensures
            r == spec_poll_bits(*old(self)),
            *final(self) == spec_drain(*old(self)),
    {
        let mut val: u8 = 0;
        if self.vblank_interupt_buffered {
            self.vblank_interupt_buffered = false;
            val = val + 1;
        }
        if self.stat_interupt_buffered {
            self.stat_interupt_buffered = false;
            val = val + 2;
        }
        val
    }

    /// Recompute the hardware-owned mode bits of the status register from
    /// the current line and horizontal counter, leaving the top bits and
    /// the compare flag alone.
    pub fn set_state(&mut self)
        requires
            old(self).lx <= LINE_PERIOD,
        ensures
            *final(self) == (PPU {
                stat: (old(self).stat & 0xF8) | spec_mode_bits(old(self).ly, old(self).lx as int),
                ..*old(self)
            }),
    {
        if self.ly >= VBLANK_START {
            self.stat = (self.stat & 0xF8) | 0x01;
        } else if self.lx <= FIRST_FETCH_END {
            self.stat = (self.stat & 0xF8) | 0x02;
        } else if self.lx <= PIXEL_TRANSFER_END {
            self.stat = (self.stat & 0xF8) | 0x03;
        } else {
            self.stat = (self.stat & 0xF8) | 0x00;
        }
    }
}

} // verus!
