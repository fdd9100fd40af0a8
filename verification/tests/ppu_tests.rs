use ppu_core::Fault;
use ppu_core::PPU;

const CONTROL: u16 = 0xFF40;
const STATUS: u16 = 0xFF41;
const SCROLL_Y: u16 = 0xFF42;
const SCROLL_X: u16 = 0xFF43;
const LINE: u16 = 0xFF44;
const LINE_COMPARE: u16 = 0xFF45;
const WINDOW_Y: u16 = 0xFF4A;
const WINDOW_X: u16 = 0xFF4B;

fn enabled() -> PPU {
    let mut p = PPU::new();
    assert_eq!(p.write(CONTROL, 0x80), Ok(true));
    p
}

#[test]
fn fresh_controller_reads_zero() {
    let p = PPU::new();
    for addr in [
        CONTROL,
        STATUS,
        SCROLL_Y,
        SCROLL_X,
        LINE,
        LINE_COMPARE,
        WINDOW_Y,
        WINDOW_X,
    ] {
        assert_eq!(p.read(addr), Some(0));
    }
    assert_eq!(p.read(0x1234), None);
}

#[test]
fn full_write_registers_read_back() {
    let mut p = PPU::new();
    assert_eq!(p.write(SCROLL_Y, 0x12), Ok(true));
    assert_eq!(p.write(SCROLL_X, 0x34), Ok(true));
    assert_eq!(p.read(SCROLL_Y), Some(0x12));
    assert_eq!(p.read(SCROLL_X), Some(0x34));
    assert_eq!(p.write(CONTROL, 0x91), Ok(true));
    assert_eq!(p.read(CONTROL), Some(0x91));
}

#[test]
fn status_write_replaces_top_bits_only() {
    let mut p = enabled();
    // Enabling the display put the mode bits at first fetch (2).
    assert_eq!(p.read(STATUS), Some(0x02));
    assert_eq!(p.write(STATUS, 0xFF), Ok(true));
    // Top five bits stored, hardware-owned low three preserved.
    assert_eq!(p.read(STATUS), Some(0xFA));
}

#[test]
fn unstored_registers_keep_prior_value() {
    let mut p = PPU::new();
    assert_eq!(p.write(LINE_COMPARE, 0x55), Ok(true));
    assert_eq!(p.write(WINDOW_Y, 0x66), Ok(true));
    assert_eq!(p.write(WINDOW_X, 0x77), Ok(true));
    assert_eq!(p.read(LINE_COMPARE), Some(0));
    assert_eq!(p.read(WINDOW_Y), Some(0));
    assert_eq!(p.read(WINDOW_X), Some(0));
}

#[test]
fn unrecognized_address_is_not_handled() {
    let mut p = PPU::new();
    assert_eq!(p.write(0xFF00, 0xAB), Ok(false));
    assert_eq!(p.read(0xFF00), None);
}

#[test]
fn line_write_always_resets_counter() {
    let mut p = enabled();
    assert_eq!(p.time_passes(456 * 3 + 1), Some(vec![0, 1, 2]));
    assert_eq!(p.read(LINE), Some(3));
    for byte in [0x00, 0x07, 0xFF] {
        assert_eq!(p.write(LINE, byte), Ok(true));
        assert_eq!(p.read(LINE), Some(0));
    }
}

#[test]
fn advance_zero_changes_nothing() {
    let mut p = enabled();
    p.time_passes(300);
    let line = p.read(LINE);
    let stat = p.read(STATUS).unwrap();
    let report = p.time_passes(0);
    assert_eq!(p.read(LINE), line);
    assert_eq!(p.read(STATUS).unwrap() & 0x03, stat & 0x03);
    assert_eq!(report, Some(vec![]));
    // With the display disabled nothing moves either.
    let mut q = PPU::new();
    assert_eq!(q.time_passes(0), None);
    assert_eq!(q.read(LINE), Some(0));
}

#[test]
fn single_steps_report_line_zero_once() {
    let mut p = enabled();
    let mut reported: Vec<u8> = vec![];
    for _ in 0..456 {
        if let Some(mut lines) = p.time_passes(1) {
            reported.append(&mut lines);
        }
    }
    // Exactly one ready report, for line 0; the line counter rolls over
    // one unit later, once a full period has been exceeded.
    assert_eq!(reported, vec![0]);
    assert_eq!(p.read(LINE), Some(0));
    assert_eq!(p.time_passes(1), Some(vec![]));
    assert_eq!(p.read(LINE), Some(1));
}

#[test]
fn large_delta_catches_up_whole_lines() {
    let mut p = enabled();
    let lines = p.time_passes(456 * 5).unwrap();
    assert_eq!(lines, vec![0, 1, 2, 3, 4]);
    for pair in lines.windows(2) {
        assert!(pair[0] < pair[1]);
    }
    assert_eq!(p.read(LINE), Some(4));
    // One extra unit past five whole periods also rolls the counter.
    let mut q = enabled();
    assert_eq!(q.time_passes(456 * 5 + 1), Some(vec![0, 1, 2, 3, 4]));
    assert_eq!(q.read(LINE), Some(5));
}

#[test]
fn vblank_entry_latches_interrupt_once() {
    let mut p = enabled();
    p.time_passes(456 * 145);
    assert_eq!(p.read(LINE), Some(144));
    assert_eq!(p.interupt_update(), 0x01);
    assert_eq!(p.interupt_update(), 0x00);
}

#[test]
fn line_match_interrupt_inequality_polarity() {
    let mut p = enabled();
    // Enable the line-compare interrupt; the compare flag bit is clear,
    // so a match means the compare value differs from the line.
    assert_eq!(p.write(STATUS, 0x40), Ok(true));
    assert_eq!(p.time_passes(457), Some(vec![0]));
    assert_eq!(p.read(LINE), Some(1));
    assert_eq!(p.interupt_update(), 0x02);
    assert_eq!(p.interupt_update(), 0x00);
}

#[test]
fn line_match_interrupt_equality_polarity() {
    // With the compare flag bit set, a match means equality instead.
    let mut p = PPU {
        lcdc: 0x80,
        stat: 0x44,
        scy: 0,
        scx: 0,
        ly: 4,
        lx: 0,
        lx_sent: false,
        vblank_interupt_buffered: false,
        stat_interupt_buffered: false,
        lyc: 5,
        wy: 0,
        wx: 0,
    };
    assert_eq!(p.time_passes(456 + 248), Some(vec![4, 5]));
    assert_eq!(p.read(LINE), Some(5));
    assert_eq!(p.interupt_update(), 0x02);
    assert_eq!(p.interupt_update(), 0x00);
}

#[test]
fn both_interrupts_report_and_clear() {
    let mut p = enabled();
    assert_eq!(p.write(STATUS, 0x40), Ok(true));
    p.time_passes(456 * 145);
    assert_eq!(p.interupt_update(), 0x03);
    assert_eq!(p.interupt_update(), 0x00);
}

#[test]
fn disable_during_vblank_faults() {
    let mut p = enabled();
    p.time_passes(456 * 145);
    assert_eq!(p.read(STATUS).unwrap() & 0x03, 0x01);
    assert_eq!(p.write(CONTROL, 0x00), Err(Fault::IllegalStateTransition));
    // The faulting write stored nothing.
    assert_eq!(p.read(CONTROL), Some(0x80));
}

#[test]
fn disable_outside_vblank_succeeds() {
    let mut p = PPU::new();
    assert_eq!(p.write(CONTROL, 0x91), Ok(true));
    p.time_passes(300);
    assert_eq!(p.read(STATUS).unwrap() & 0x03, 0x00);
    assert_eq!(p.write(CONTROL, 0x11), Ok(true));
    assert_eq!(p.read(CONTROL), Some(0x11));
}

#[test]
fn mode_bits_follow_the_cycle() {
    let mut p = enabled();
    assert_eq!(p.read(STATUS).unwrap() & 0x03, 0x02);
    p.time_passes(77);
    assert_eq!(p.read(STATUS).unwrap() & 0x03, 0x02);
    p.time_passes(1);
    assert_eq!(p.read(STATUS).unwrap() & 0x03, 0x03);
    p.time_passes(169);
    assert_eq!(p.read(STATUS).unwrap() & 0x03, 0x03);
    p.time_passes(1);
    assert_eq!(p.read(STATUS).unwrap() & 0x03, 0x00);
    p.time_passes(208);
    assert_eq!(p.read(STATUS).unwrap() & 0x03, 0x00);
    p.time_passes(1);
    assert_eq!(p.read(LINE), Some(1));
    assert_eq!(p.read(STATUS).unwrap() & 0x03, 0x02);
}

#[test]
fn mode_pinned_to_vblank_for_high_lines() {
    let mut p = enabled();
    p.time_passes(456 * 144 + 1);
    assert_eq!(p.read(LINE), Some(144));
    for delta in [100, 300, 455] {
        p.time_passes(delta);
        assert_eq!(p.read(STATUS).unwrap() & 0x03, 0x01);
    }
}

#[test]
fn display_off_freezes_timing() {
    let mut p = PPU::new();
    assert_eq!(p.time_passes(10_000), None);
    assert_eq!(p.read(LINE), Some(0));
    assert_eq!(p.read(STATUS), Some(0));
    assert_eq!(p.interupt_update(), 0);
}

#[test]
fn line_counter_wraps_after_last_line() {
    let mut p = enabled();
    let lines = p.time_passes(456 * 154).unwrap();
    assert_eq!(lines.len(), 154);
    assert_eq!(lines[0], 0);
    assert_eq!(lines[153], 153);
    assert_eq!(p.read(LINE), Some(153));
    assert_eq!(p.interupt_update(), 0x01);
    assert_eq!(p.time_passes(1), Some(vec![]));
    assert_eq!(p.read(LINE), Some(0));
}

#[test]
fn re_enabling_restarts_the_frame() {
    let mut p = enabled();
    p.time_passes(456 * 10 + 100);
    assert_eq!(p.read(LINE), Some(10));
    assert_eq!(p.write(CONTROL, 0x00), Ok(true));
    assert_eq!(p.write(CONTROL, 0x80), Ok(true));
    assert_eq!(p.read(LINE), Some(0));
    assert_eq!(p.read(STATUS).unwrap() & 0x03, 0x02);
}

#[test]
fn control_bits_decode_individually() {
    let mut p = PPU::new();
    assert_eq!(p.write(CONTROL, 0xA5), Ok(true));
    for offset in 0..8u8 {
        let expected = [true, false, true, false, false, true, false, true][offset as usize];
        assert_eq!(p.lcdc_get(offset), expected);
    }
}
