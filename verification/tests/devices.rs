use nulldc::cpu::{sh4_read_mem32, sh4_read_mems16, sh4_read_mems8, sh4_write_mem16, sh4_write_mem32, sh4_write_mem8};
use nulldc::dreamcast::{init_dreamcast, step_dreamcast, Dreamcast, PROGRAM_START};
use nulldc::exec::ExecOutcome;
use nulldc::interp::StepResult;
use nulldc::dsp::{
    get_dsp_registers, get_mems, get_temp, pack, read_reg, set_mems, set_temp, step, step_128_end, step_128_start,
    unpack, write_reg, Aica, COMMON_DATA, DSP_EFREG,
};
use nulldc::p4::{tmu_prescale_from_mode, P4State};
use nulldc::pvr::FBDepth;
use nulldc::recorder::{MulRec, MulRecorder};

fn booted() -> Dreamcast {
    let mut dc = Dreamcast::default();
    init_dreamcast(&mut dc, &vec![0x09, 0x00]);
    dc
}

#[test]
fn pack_and_unpack_exact_values() {
    assert_eq!(pack(0), 0x6000);
    assert_eq!(unpack(0x6000), 0);
    assert_eq!(pack(1), 0x6001);
    assert_eq!(unpack(0x6001), 1);
    assert_eq!(pack(0x40_0000), 0x0000);
    assert_eq!(unpack(0x0000), 0x40_0000);
}

#[test]
fn unpacking_then_packing_restores_every_sample() {
    for m in 0..=0xFFFFu32 {
        let m = m as u16;
        if (m >> 11) & 0xF <= 11 {
            assert_eq!(pack(unpack(m)), m, "sample {:#06x}", m);
        }
    }
}

#[test]
fn small_samples_survive_packing() {
    for v in -2048..2048i32 {
        assert_eq!(unpack(pack(v)), v);
    }
}

#[test]
fn negative_samples_pack_and_unpack_exactly() {
    assert_eq!(pack(-1), 0xFFFF);
    assert_eq!(unpack(0xFFFF), -1);
    assert_eq!(pack(-2048), 0xF800);
    assert_eq!(unpack(0xF800), -2048);
    assert_eq!(unpack(pack(-0x40_0000)), -0x40_0000);
}

#[test]
fn aica_registers_read_back() {
    let mut a = Aica::new();
    write_reg(&mut a, 0x2804, 0x1234_5678);
    assert_eq!(read_reg(&a, 0x2804), 0x1234_5678);
    // Addresses are taken modulo the register area.
    assert_eq!(read_reg(&a, 0x8000 + 0x2804), 0x1234_5678);
    assert_eq!(read_reg(&a, 0x2808), 0);
    // A word past the end is neither written nor read.
    write_reg(&mut a, 0x7FFE, 0xFFFF_FFFF);
    assert_eq!(read_reg(&a, 0x7FFE), 0);
    assert_eq!(read_reg(&a, 0x7FFC), 0);
    assert_eq!(a.common_data().rbp_rbl_testb0, 0x1234_5678);
    assert_eq!(COMMON_DATA, 0x2800);
}

#[test]
fn dsp_register_halves_keep_24_bits() {
    let mut a = Aica::new();
    // The halves hold the low 24 bits; the sign is not extended.
    set_mems(&mut a, 3, -5);
    assert_eq!(get_mems(&a, 3), 0xFF_FFFB);
    set_temp(&mut a, 127, 0x7F_FFFF);
    assert_eq!(get_temp(&a, 127), 0x7F_FFFF);
    set_temp(&mut a, 0, 0x1234_5678);
    assert_eq!(get_temp(&a, 0), 0x34_5678);
}

#[test]
fn ring_counter_wraps_to_the_buffer_length() {
    let mut a = Aica::new();
    assert_eq!(get_dsp_registers(&a)[0], 1);
    // RBL field 1: a ring of 16 Ki words.
    write_reg(&mut a, (COMMON_DATA + 4) as u32, 1 << 13);
    step_128_end(&mut a);
    assert_eq!(get_dsp_registers(&a)[0], 0x4000);
    step_128_end(&mut a);
    assert_eq!(get_dsp_registers(&a)[0], 0x3FFF);
    assert_eq!(get_dsp_registers(&a).len(), 14);
}

#[test]
fn a_pass_clears_the_outputs_and_an_empty_program_changes_nothing() {
    let mut a = Aica::new();
    write_reg(&mut a, DSP_EFREG as u32, 0xAB);
    step_128_start(&mut a);
    assert_eq!(read_reg(&a, DSP_EFREG as u32), 0);
    let before = get_dsp_registers(&a);
    step(&mut a, 0);
    assert_eq!(get_dsp_registers(&a), before);
}

#[test]
fn timer_prescale_by_clock_selection() {
    let p: Vec<u32> = (0..8u16).map(tmu_prescale_from_mode).collect();
    assert_eq!(p, vec![4, 16, 64, 256, 1024, 0, 0, 0]);
    assert_eq!(tmu_prescale_from_mode(0x0021), 16);
}

#[test]
fn system_ram_reads_back_through_both_mirrors() {
    let mut dc = booted();
    assert!(sh4_write_mem32(&mut dc.ctx, 0x8C02_0000, 0xDEAD_BEEF));
    assert_eq!(sh4_read_mem32(&dc.ctx, 0x8C02_0000), Some(0xDEAD_BEEF));
    assert_eq!(sh4_read_mem32(&dc.ctx, 0x0C02_0000), Some(0xDEAD_BEEF));
    assert!(sh4_write_mem8(&mut dc.ctx, 0x8C02_0004, 0x80));
    assert_eq!(sh4_read_mems8(&dc.ctx, 0x8C02_0004), Some(0xFFFF_FF80));
    assert!(sh4_write_mem16(&mut dc.ctx, 0x8C02_0006, 0x1234));
    assert_eq!(sh4_read_mems16(&dc.ctx, 0x8C02_0006), Some(0x1234));
    // The neighbouring word is untouched.
    assert_eq!(sh4_read_mem32(&dc.ctx, 0x8C02_0000), Some(0xDEAD_BEEF));
    // Nothing is mapped at region 0x10.
    assert!(!sh4_write_mem32(&mut dc.ctx, 0x1000_0000, 1));
    assert_eq!(sh4_read_mem32(&dc.ctx, 0x1000_0000), None);
}

#[test]
fn timer_constant_register_reads_back() {
    let mut dc = booted();
    assert!(sh4_write_mem32(&mut dc.ctx, 0xFFD8_0008, 0x1234));
    assert_eq!(sh4_read_mem32(&dc.ctx, 0xFFD8_0008), Some(0x1234));
    // The same register read with another width is a fault.
    assert_eq!(sh4_read_mems16(&dc.ctx, 0xFFD8_0008), None);
    // Nothing answers in this part of area 7.
    assert_eq!(sh4_read_mem32(&dc.ctx, 0xFF70_0000), None);
}

#[test]
fn framebuffer_depths() {
    assert_eq!(FBDepth::from_fb_r_ctrl(0), FBDepth::from_fb_r_ctrl(0x10));
    assert_eq!(FBDepth::from_fb_r_ctrl(0).bytes_per_pixel(), 2);
    assert_eq!(FBDepth::from_fb_r_ctrl(2 << 2).bytes_per_pixel(), 3);
    assert_eq!(FBDepth::from_fb_r_ctrl(3 << 2).bytes_per_pixel(), 4);
    assert_eq!(FBDepth::from_fb_r_ctrl(1 << 2).bits(), 1);
}

#[test]
fn multiply_recorder_keeps_the_order_of_calls() {
    let mut r = MulRecorder::new();
    r.sh4_muls32(1, 2, 3);
    r.sh4_muls32(4, 5, 6);
    assert_eq!(r.ptrs_snapshot(), vec![MulRec { dst: 1, src_n: 2, src_m: 3 }, MulRec { dst: 4, src_n: 5, src_m: 6 }]);
    r.clear();
    assert!(r.ptrs_snapshot().is_empty());
}

#[test]
fn dmac_registers_are_the_area7_registers() {
    let mut dc = booted();
    assert!(sh4_write_mem32(&mut dc.ctx, 0xFFA0_0010, 0x0C00_1000));
    assert_eq!(dc.ctx.p4.dmac_get_sar(1), 0x0C00_1000);
    dc.ctx.p4.dmac_set_chcr(2, 0x1234);
    assert_eq!(dc.ctx.p4.dmac_get_chcr(2), 0x1234);
    assert_eq!(sh4_read_mem32(&dc.ctx, 0xFFA0_002C), Some(0x1234));
    dc.ctx.p4.dmac_set_dmatcr(3, 99);
    assert_eq!(sh4_read_mem32(&dc.ctx, 0xFFA0_0038), Some(99));
    dc.ctx.p4.dmac_set_sar(0, 7);
    assert_eq!(sh4_read_mem32(&dc.ctx, 0xFFA0_0000), Some(7));
    assert_eq!(dc.ctx.p4.dmac_get_dmaor(), 0);
}

#[test]
fn timer_channel_counts_down_and_underflows() {
    let mut dc = booted();
    assert!(sh4_write_mem32(&mut dc.ctx, 0xFFD8_0008, 2)); // TCOR0
    assert!(sh4_write_mem32(&mut dc.ctx, 0xFFD8_000C, 2)); // TCNT0
    assert!(sh4_write_mem16(&mut dc.ctx, 0xFFD8_0010, 0x0020)); // TCR0: UNIE, clock / 4
    assert!(sh4_write_mem8(&mut dc.ctx, 0xFFD8_0004, 1)); // TSTR: start channel 0
    // Three cycles are less than one count.
    dc.ctx.p4.tmu_step(3);
    assert_eq!(sh4_read_mem32(&dc.ctx, 0xFFD8_000C), Some(2));
    // Nine more: three counts, 2 -> 1 -> 0 -> reload 2, with an underflow.
    dc.ctx.p4.tmu_step(9);
    assert_eq!(sh4_read_mem32(&dc.ctx, 0xFFD8_000C), Some(2));
    assert_eq!(sh4_read_mems16(&dc.ctx, 0xFFD8_0010), Some(0x0120));
    assert_ne!(dc.ctx.p4.intc.pending & (1 << 10), 0);
    // Writing the counter clears the underflow flag and the request.
    assert!(sh4_write_mem32(&mut dc.ctx, 0xFFD8_000C, 5));
    assert_eq!(sh4_read_mems16(&dc.ctx, 0xFFD8_0010), Some(0x0020));
    assert_eq!(dc.ctx.p4.intc.pending & (1 << 10), 0);
}

#[test]
fn a_timer_underflow_is_taken_as_an_interrupt() {
    let mut dc = booted();
    dc.ctx.vbr = 0x8C00_0000;
    assert!(sh4_write_mem16(&mut dc.ctx, 0xFFD0_0004, 0xF000)); // IPRA: TMU0 at priority 15
    assert!(sh4_write_mem32(&mut dc.ctx, 0xFFD8_000C, 0)); // TCNT0
    assert!(sh4_write_mem16(&mut dc.ctx, 0xFFD8_0010, 0x0020)); // TCR0: UNIE, clock / 4
    assert!(sh4_write_mem8(&mut dc.ctx, 0xFFD8_0004, 1)); // TSTR
    dc.ctx.p4.tmu_step(4);
    assert_ne!(dc.ctx.p4.intc.pending & (1 << 10), 0);
    // The next step enters the handler at VBR + 0x600 (zeroed RAM: an unknown opcode).
    assert_eq!(step_dreamcast(&mut dc), StepResult::Stopped(0x0000, ExecOutcome::Unknown));
    assert_eq!(dc.ctx.pc0, 0x8C00_0600);
    assert_eq!(dc.ctx.spc, PROGRAM_START);
    assert_eq!(dc.ctx.ssr, 0);
    assert!(dc.ctx.sr.bl() && dc.ctx.sr.md() && dc.ctx.sr.rb());
    assert_eq!(sh4_read_mem32(&dc.ctx, 0xFF00_0028), Some(0x400)); // INTEVT
    assert_eq!(dc.ctx.p4.intc.pending & (1 << 10), 0);
}

#[test]
fn area7_reset_state_and_register_widths() {
    let mut p = P4State::new();
    p.p4_init();
    assert_eq!(p.intc.pending, 0);
    assert_eq!(p.intc.enabled, (1u32 << 28) - 1);
    assert!(p.p4_read_accepts(4, 0xFF00_0030));
    assert_eq!(p.p4_read(4, 0xFF00_0030), 0x0402_05C1); // CPU version
    assert_eq!(p.p4_read(4, 0xFFD8_0008), 0xFFFF_FFFF); // TCOR0
    assert_eq!(p.p4_read(1, 0xFFD8_0004), 0); // TSTR
    assert_eq!(p.p4_read(2, 0xFFD0_0004), 0); // IPRA
    // CCR keeps its two reserved bits clear.
    assert!(p.p4_write_accepts(4, 0xFF00_001C));
    p.p4_write(4, 0xFF00_001C, 0xFFFF_FFFF);
    assert_eq!(p.p4_read(4, 0xFF00_001C), 0xFFFF_FCFF);
    // A 16-bit access to the 32-bit CCR is not answered.
    assert!(!p.p4_write_accepts(2, 0xFF00_001C));
    assert!(!p.p4_read_accepts(2, 0xFF00_001C));
    // Outside area 7 every access is taken and reads as zero.
    assert!(p.p4_write_accepts(4, 0xF000_0000));
    assert_eq!(p.p4_read(4, 0xF000_0000), 0);
}

#[test]
fn recorded_muls_come_back_in_call_order() {
    let mut r = MulRecorder::new();
    r.sh4_muls32(9, 9, 9);
    r.clear();
    let calls = [(1usize, 2usize, 3usize), (4, 5, 6), (7, 8, 0)];
    for (d, n, m) in calls {
        r.sh4_muls32(d, n, m);
    }
    let v = r.ptrs_snapshot();
    assert_eq!(v.len(), 3);
    for (i, (d, n, m)) in calls.iter().enumerate() {
        assert_eq!(v[i], MulRec { dst: *d, src_n: *n, src_m: *m });
    }
    assert_eq!(r.ptrs_snapshot(), v);
}
