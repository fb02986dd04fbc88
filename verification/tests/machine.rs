use nulldc::dec::{build_opcode_tables, entry, parse_opcode, SH4DecoderState};
use nulldc::opdiff::{diff_opcodes, OpcodeDiff};
use nulldc::disasm::format_disas;
use nulldc::dreamcast::{
    disassemble_sh4, get_sh4_register, init_dreamcast, is_dreamcast_running, read_memory_slice,
    readbyte_sh4_dreamcast, rgb565_to_color32, run_slice_dreamcast, set_dreamcast_running, step_dreamcast,
    upper_hex4_string, Dreamcast, PROGRAM_START,
};
use nulldc::exec::ExecOutcome;
use nulldc::interp::{Sh4Stop, StepResult};
use nulldc::isa::{opcode_list, Sh4Op};

fn words_le(words: &[u16]) -> Vec<u8> {
    let mut v = Vec::new();
    for w in words {
        v.push((w & 0xFF) as u8);
        v.push((w >> 8) as u8);
    }
    v
}

fn boot(words: &[u16]) -> Dreamcast {
    let mut dc = Dreamcast::default();
    init_dreamcast(&mut dc, &words_le(words));
    dc
}

#[test]
fn opcode_patterns_give_mask_and_key() {
    assert_eq!(parse_opcode("i0011_nnnn_mmmm_1100"), (0xF00F, 0x300C));
    assert_eq!(parse_opcode("i0000_0000_0000_1001"), (0xFFFF, 0x0009));
    assert_eq!(parse_opcode("i1110_nnnn_iiii_iiii"), (0xF000, 0xE000));
    // Without separators each character gives one bit, the first the highest.
    assert_eq!(parse_opcode("i0011nnnnmmmm1100"), (0xF00F, 0x300C));
    assert_eq!(parse_opcode("i1x0x1x0x1x0x1x0x"), (0xAAAA, 0x8888));
}

#[test]
fn decode_table_covers_every_opcode() {
    let list = opcode_list();
    let table = build_opcode_tables(&list);
    assert_eq!(table.len(), 0x10000);
    assert_eq!(table[0x0009].op, Sh4Op::Nop);
    assert_eq!(table[0x321C].op, Sh4Op::AddRmRn);
    assert_eq!(table[0xE1FF].op, Sh4Op::MovImmRn);
    // No pattern matches an all-zero word: it decodes to the closing entry.
    assert_eq!(table[0x0000].op, Sh4Op::Unknown);
}

#[test]
fn disassembly_fills_in_fields() {
    let list = opcode_list();
    let table = build_opcode_tables(&list);
    let state = SH4DecoderState { pc: 0x8C01_0000, fpscr_PR: false, fpscr_SZ: false };
    assert_eq!(format_disas(&table, state, 0x0009), "nop");
    assert_eq!(format_disas(&table, state, 0x321C), "add r1,r2");
    assert_eq!(format_disas(&table, state, 0xE305), "mov #0x5,r3");
    assert_eq!(format_disas(&table, state, 0xE3FF), "mov #0xffffffff,r3");
}

#[test]
fn hex_words_are_four_uppercase_digits() {
    assert_eq!(upper_hex4_string(0x00AB), "00AB");
    assert_eq!(upper_hex4_string(0xE105), "E105");
}

#[test]
fn boot_copies_the_program_to_system_ram() {
    let dc = boot(&[0xE105, 0xE2FF]);
    assert!(is_dreamcast_running(&dc));
    assert_eq!(dc.ctx.pc0, PROGRAM_START);
    assert_eq!(readbyte_sh4_dreamcast(&dc, 0x8C01_0000), Some(0x05));
    assert_eq!(readbyte_sh4_dreamcast(&dc, 0x0C01_0001), Some(0xE1));
    assert_eq!(readbyte_sh4_dreamcast(&dc, 0x8C01_0003), Some(0xE2));
    // The rest of system RAM and all of video RAM are zero.
    assert_eq!(readbyte_sh4_dreamcast(&dc, 0x8C00_FFFF), Some(0));
    assert_eq!(readbyte_sh4_dreamcast(&dc, 0x8C01_0004), Some(0));
    assert_eq!(readbyte_sh4_dreamcast(&dc, 0x0CFF_FFFF), Some(0));
    assert_eq!(readbyte_sh4_dreamcast(&dc, 0xA57F_FFFF), Some(0));
    // An unmapped region cannot be read.
    assert_eq!(readbyte_sh4_dreamcast(&dc, 0x1000_0000), None);
    assert_eq!(read_memory_slice(&dc, 0x8C01_0000, 4), Some(vec![0x05, 0xE1, 0xFF, 0xE2]));
    assert_eq!(read_memory_slice(&dc, 0x8C01_0000, 0), Some(vec![]));
    assert_eq!(read_memory_slice(&dc, 0x10FF_FFFE, 4), None);
}

#[test]
fn stepping_runs_one_instruction_at_a_time() {
    // mov #5,r1; mov #-1,r2; add r1,r2; nop
    let mut dc = boot(&[0xE105, 0xE2FF, 0x321C, 0x0009]);
    assert_eq!(step_dreamcast(&mut dc), StepResult::Completed);
    assert_eq!(dc.ctx.r[1], 5);
    assert_eq!(dc.ctx.pc0, PROGRAM_START + 2);
    assert_eq!(step_dreamcast(&mut dc), StepResult::Completed);
    assert_eq!(dc.ctx.r[2], 0xFFFF_FFFF);
    assert_eq!(step_dreamcast(&mut dc), StepResult::Completed);
    assert_eq!(dc.ctx.r[2], 4);
    assert_eq!(dc.ctx.pc0, PROGRAM_START + 6);
    assert_eq!(get_sh4_register(&dc, "r2"), Some(4));
    assert_eq!(get_sh4_register(&dc, "R1"), Some(5));
    assert_eq!(get_sh4_register(&dc, "pc"), Some(PROGRAM_START + 6));
    assert_eq!(get_sh4_register(&dc, "r16"), None);
    assert_eq!(get_sh4_register(&dc, "xyz"), None);
}

#[test]
fn an_unknown_opcode_stops_the_step() {
    let mut dc = boot(&[0xE105, 0x0000]);
    assert_eq!(step_dreamcast(&mut dc), StepResult::Completed);
    assert_eq!(step_dreamcast(&mut dc), StepResult::Stopped(0x0000, ExecOutcome::Unknown));
    // The pipeline still points at the instruction.
    assert_eq!(dc.ctx.pc0, PROGRAM_START + 2);
}

#[test]
fn a_slice_runs_until_something_stops_it() {
    let mut dc = boot(&[0xE107, 0x0009, 0x0000]);
    assert_eq!(run_slice_dreamcast(&mut dc), Some(Sh4Stop::Step(StepResult::Stopped(0x0000, ExecOutcome::Unknown))));
    assert_eq!(dc.ctx.r[1], 7);
    set_dreamcast_running(&mut dc, false);
    assert!(!is_dreamcast_running(&dc));
    assert_eq!(run_slice_dreamcast(&mut dc), None);
}

#[test]
fn listing_shows_words_and_text() {
    let dc = boot(&[0xE105, 0xE2FF]);
    let lines = disassemble_sh4(&dc, 0x8C01_0000, 2).unwrap();
    assert_eq!(lines.len(), 2);
    assert_eq!(lines[0].address, 0x8C01_0000);
    assert_eq!(lines[0].bytes, "E105");
    assert_eq!(lines[0].disassembly, "mov #0x5,r1");
    assert_eq!(lines[1].address, 0x8C01_0002);
    assert_eq!(lines[1].bytes, "E2FF");
    assert_eq!(lines[1].disassembly, "mov #0xffffffff,r2");
    assert!(disassemble_sh4(&dc, 0x1000_0000, 1).is_none());
}

#[test]
fn rgb565_pixels_widen_to_rgb888() {
    let px = rgb565_to_color32(&vec![0xFFFF, 0xF800, 0x07E0, 0x001F, 0x0000, 0x8410]);
    assert_eq!(px, vec![(255, 255, 255), (255, 0, 0), (0, 255, 0), (0, 0, 255), (0, 0, 0), (132, 130, 132)]);
}

#[test]
fn opcode_tables_compare_by_key() {
    let new = vec![
        entry(Sh4Op::AddRmRn, "i0011_nnnn_mmmm_1100", "add <REG_M>,<REG_N>"),
        entry(Sh4Op::Nop, "i0000_0000_0000_1001", "nop"),
    ];
    let old = vec![
        entry(Sh4Op::Nop, "i0000_0000_0000_1001", "nop!"),
        entry(Sh4Op::DtRn, "i0100_nnnn_0001_0000", "dt <REG_N>"),
    ];
    assert_eq!(diff_opcodes(&new, &old), vec![OpcodeDiff::Differs(1, 0), OpcodeDiff::NewOnly(0), OpcodeDiff::OldOnly(1)]);
    assert_eq!(diff_opcodes(&new, &new), vec![]);
    let list = opcode_list();
    assert!(diff_opcodes(&list, &list).is_empty());
}

#[test]
fn steps_that_need_the_host_stop_with_their_outcome() {
    // mov #16,r1; shll16 r1; shll8 r1; mov.l @r1,r2 (r1 = 0x1000_0000, unmapped)
    let mut dc = boot(&[0xE110, 0x4128, 0x4118, 0x6212]);
    for _ in 0..3 {
        assert_eq!(step_dreamcast(&mut dc), StepResult::Completed);
    }
    assert_eq!(dc.ctx.r[1], 0x1000_0000);
    assert_eq!(step_dreamcast(&mut dc), StepResult::Stopped(0x6212, ExecOutcome::Fault));
    assert_eq!(dc.ctx.pc0, PROGRAM_START + 6);

    let mut dc = boot(&[0xC305]);
    assert_eq!(step_dreamcast(&mut dc), StepResult::Stopped(0xC305, ExecOutcome::Trap(5)));
    let mut dc = boot(&[0xF210]);
    assert_eq!(step_dreamcast(&mut dc), StepResult::Stopped(0xF210, ExecOutcome::Float));
    let mut dc = boot(&[0x085B]);
    assert_eq!(step_dreamcast(&mut dc), StepResult::Stopped(0x085B, ExecOutcome::BiosTrap));
    // lds r1,FPSCR with r1 = 1: the rounding mode changes.
    let mut dc = boot(&[0xE101, 0x416A]);
    assert_eq!(step_dreamcast(&mut dc), StepResult::Completed);
    assert!(matches!(step_dreamcast(&mut dc), StepResult::Fpscr(_)));
    assert_eq!(dc.ctx.fpscr.full(), 1);
    // Fetching from an unmapped region is a fault of its own.
    dc.ctx.pc0 = 0x1000_0000;
    assert_eq!(step_dreamcast(&mut dc), StepResult::FetchFault);
}
