use nulldc::dreamcast::{init_dreamcast, run_slice_dreamcast, Dreamcast, PROGRAM_START};
use nulldc::exec::ExecOutcome;
use nulldc::interp::{Sh4Stop, StepResult};

fn boot(words: &[u16]) -> Dreamcast {
    let mut bytes = Vec::new();
    for w in words {
        bytes.push((w & 0xFF) as u8);
        bytes.push((w >> 8) as u8);
    }
    let mut dc = Dreamcast::default();
    init_dreamcast(&mut dc, &bytes);
    dc
}

fn run_to_stop(dc: &mut Dreamcast) -> Sh4Stop {
    run_slice_dreamcast(dc).unwrap()
}

#[test]
fn a_counted_loop_sums_one_to_five() {
    let mut dc = boot(&[
        0xE105, // mov #5,r1
        0xE200, // mov #0,r2
        0x321C, // add r1,r2
        0x4110, // dt r1
        0x8BFC, // bf back to the add
        0x0000, // stop
    ]);
    assert_eq!(run_to_stop(&mut dc), Sh4Stop::Step(StepResult::Stopped(0x0000, ExecOutcome::Unknown)));
    assert_eq!(dc.ctx.r[2], 15);
    assert_eq!(dc.ctx.r[1], 0);
    assert_eq!(dc.ctx.sr_t, 1);
    assert_eq!(dc.ctx.pc0, PROGRAM_START + 10);
}

#[test]
fn a_call_and_return_run_their_delay_slots() {
    let mut dc = boot(&[
        0xB003, // bsr to +0x0A
        0xE107, // mov #7,r1 (delay slot)
        0xE209, // mov #9,r2 (after the return)
        0x0000, // stop
        0x0009, // nop
        0x000B, // rts
        0xE303, // mov #3,r3 (delay slot)
    ]);
    assert_eq!(run_to_stop(&mut dc), Sh4Stop::Step(StepResult::Stopped(0x0000, ExecOutcome::Unknown)));
    assert_eq!((dc.ctx.r[1], dc.ctx.r[2], dc.ctx.r[3]), (7, 9, 3));
    assert_eq!(dc.ctx.pr, PROGRAM_START + 4);
    assert_eq!(dc.ctx.pc0, PROGRAM_START + 6);
}

#[test]
fn pc_relative_loads_and_memory_round_trips() {
    let mut dc = boot(&[
        0xD302, // mov.l @(8,PC),r3: the word at (PC & ~3) + 4 + 8 = +0x0C
        0x9405, // mov.w @(10,PC),r4: the halfword at PC + 4 + 10 = +0x10
        0x2432, // mov.l r3,@r4 ... r4 is not an address yet
        0x0000, // stop
        0x0000,
        0x0000,
        0x5678, // +0x0C: low half of the long
        0x1234, // +0x0E: high half
        0x8000, // +0x10: a negative halfword
    ]);
    // Run the two loads, then stop at the store whose address is not mapped.
    assert_eq!(
        run_to_stop(&mut dc),
        Sh4Stop::Step(StepResult::Stopped(0x2432, ExecOutcome::Fault))
    );
    assert_eq!(dc.ctx.r[3], 0x1234_5678);
    assert_eq!(dc.ctx.r[4], 0xFFFF_8000);
}

#[test]
fn stores_and_loads_through_registers() {
    let mut dc = boot(&[
        0xE18C, // mov #-116,r1  (0xFFFFFF8C)
        0x4118, // shll8 r1      (0xFFFF8C00)
        0x4118, // shll8 r1      (0xFF8C0000)
        0x4118, // shll8 r1      (0x8C000000)
        0xE2AB, // mov #-85,r2   (0xFFFFFFAB)
        0x2122, // mov.l r2,@r1
        0x6312, // mov.l @r1,r3
        0x6410, // mov.b @r1,r4  (sign-extended 0xAB)
        0x7104, // add #4,r1
        0x2126, // mov.l r2,@-r1 (back to the base)
        0x6516, // mov.l @r1+,r5
        0x0000, // stop
    ]);
    assert_eq!(run_to_stop(&mut dc), Sh4Stop::Step(StepResult::Stopped(0x0000, ExecOutcome::Unknown)));
    assert_eq!(dc.ctx.r[3], 0xFFFF_FFAB);
    assert_eq!(dc.ctx.r[4], 0xFFFF_FFAB);
    assert_eq!(dc.ctx.r[5], 0xFFFF_FFAB);
    assert_eq!(dc.ctx.r[1], 0x8C00_0004);
}

#[test]
fn unsigned_division_by_div1_steps() {
    let mut words = vec![
        0xE007, // mov #7,r0    (divisor)
        0xE164, // mov #100,r1  (dividend)
        0x4028, // shll16 r0
        0x0019, // div0u
    ];
    for _ in 0..16 {
        words.push(0x3104); // div1 r0,r1
    }
    words.push(0x4124); // rotcl r1
    words.push(0x611D); // extu.w r1,r1
    words.push(0x0000); // stop
    let mut dc = boot(&words);
    assert_eq!(run_to_stop(&mut dc), Sh4Stop::Step(StepResult::Stopped(0x0000, ExecOutcome::Unknown)));
    assert_eq!(dc.ctx.r[1], 14);
}

#[test]
fn multiplications_fill_mac() {
    let mut dc = boot(&[
        0xE1FD, // mov #-3,r1
        0xE205, // mov #5,r2
        0x0127, // mul.l r2,r1
        0x031A, // sts macl,r3
        0x312D, // dmuls.l r2,r1
        0x040A, // sts mach,r4
        0x051A, // sts macl,r5
        0x0000, // stop
    ]);
    assert_eq!(run_to_stop(&mut dc), Sh4Stop::Step(StepResult::Stopped(0x0000, ExecOutcome::Unknown)));
    assert_eq!(dc.ctx.r[3], 0xFFFF_FFF1);
    assert_eq!(dc.ctx.r[4], 0xFFFF_FFFF);
    assert_eq!(dc.ctx.r[5], 0xFFFF_FFF1);
}
