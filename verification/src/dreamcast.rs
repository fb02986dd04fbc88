//! The Dreamcast machine around the CPU: system and video RAM, the program
//! loaded at boot, stepping and running the interpreter, and what a
//! debugger reads of the machine.

use vstd::prelude::*;
use crate::p4::{NUM_SLOTS, reset_state, default_reg_value};
use crate::cpu::{Sh4Ctx, MemTarget, MemHandlers, registers_reset, spec_read_mem, try_read_mem, sh4_init_ctx, sh4_alloc_buffer,
    sh4_register_mem_buffer, sh4_load_buffer, valid_size};
use crate::dec::{SH4DecoderState, sh4_opcodelistentry, build_opcode_tables, decoded};
use crate::disasm::{format_disas, disas_text};
use crate::exec::{mac_parts, mac_h, mac_l};
use crate::interp::{StepResult, Sh4Stop, stepped, sh4_step, sh4_ipr_dispatcher, dispatched};
use crate::isa::{opcode_list, opcode_table};
use crate::mem::{le_value, pow256};
use crate::text::{chars_to_string, str_chars, all_ascii, ascii_upper};

verus! {

/// The size of system RAM.
pub const SYSRAM_SIZE: u32 = 0x100_0000;
/// The size of video RAM.
pub const VIDEORAM_SIZE: u32 = 0x80_0000;
/// The offsets of system RAM within its regions.
pub const SYSRAM_MASK: u32 = 0xFF_FFFF;
/// The offsets of video RAM within its region.
pub const VIDEORAM_MASK: u32 = 0x7F_FFFF;
/// Where the boot program is loaded and starts.
pub const PROGRAM_START: u32 = 0x8C01_0000;
/// The cycles one slice of running adds to the budget.
pub const SLICE_CYCLES: i32 = 2_000_000;

/// The machine: the CPU context, the decode table of all opcodes, and
/// whether the machine is running.
pub struct Dreamcast {
    pub ctx: Sh4Ctx,
    pub descs: Vec<sh4_opcodelistentry>,
    pub running: bool,
}

impl Dreamcast {
    /// A well-formed CPU context and a full decode table.
    pub open spec fn wf(&self) -> bool {
        &&& self.ctx.wf()
        &&& self.descs.len() == 0x10000
    }
}

impl Default for Dreamcast {
    /// A reset CPU with nothing mapped, the decode table of the opcode
    /// table, and the machine running.
    fn default() -> (dc: Self)
        ensures
            dc.wf(),
            dc.running,
            dc.ctx.memhandler_idx == 1,
            dc.ctx.ram@.len() == 0,
            dc.ctx.buffers@.len() == 0,
            dc.ctx.remaining_cycles == 0,
            registers_reset(dc.ctx),
            forall|i: int| 0 <= i < NUM_SLOTS ==> #[trigger] dc.ctx.p4.regs[i] == 0,
            dc.ctx.p4.qacr0_base == 0 && dc.ctx.p4.qacr1_base == 0,
            forall|i: int| 0 <= i < 256 ==> #[trigger] dc.ctx.memmap[i] == MemTarget::Handler(0)
                && dc.ctx.memmask[i] == 0xFFFF_FFFF && dc.ctx.memhandlers[i] == MemHandlers::Dummy,
            forall|x: u16| #[trigger] dc.descs@[x as int] == decoded(opcode_table(), x),
    {
        let list = opcode_list();
        let descs = build_opcode_tables(&list);
        Dreamcast { ctx: Sh4Ctx::default(), descs, running: true }
    }
}

/// `b` reads as `Some(v)` with the byte `v`.
pub open spec fn byte_read(r: Option<u64>) -> Option<u8> {
    match r {
        Some(v) => Some((v % 0x100) as u8),
        None => None,
    }
}

/// The byte at offset `a` of system RAM after boot: the program's bytes
/// from offset 0x1_0000 on, zero elsewhere.
pub open spec fn booted_sysram(program: Seq<u8>, a: int) -> u8 {
    if 0x1_0000 <= a < 0x1_0000 + program.len() { program[a - 0x1_0000] } else { 0 }
}

proof fn lemma_sysram_offset(k: u32, base: u32)
    by (bit_vector)
    requires
        k < 0x100_0000,
        base == 0x8C00_0000 || base == 0x0C00_0000 || base == 0xA500_0000,
    ensures
        ((base + k) as u32) & 0xFF_FFFF == k,
        ((base + k) as u32) & 0x7F_FFFF == k & 0x7F_FFFF,
        ((base + k) as u32) / 0x100_0000 == base / 0x100_0000,
        k < 0x80_0000 ==> k & 0x7F_FFFF == k,
        (((0x0C * 0x100_0000) % 0x1_0000_0000) as u32 & 0xFF_FFFFu32) == 0,
        (((0x8C * 0x100_0000) % 0x1_0000_0000) as u32 & 0xFF_FFFFu32) == 0,
        (((0xA5 * 0x100_0000) % 0x1_0000_0000) as u32 & 0x7F_FFFFu32) == 0,
{
}

/// The memory map after boot: system RAM at regions 0x0C and 0x8C, video
/// RAM at 0xA5, the store queues (handler 2) at 0xE0..0xE3, the P4 area
/// (handler 1) at 0xF0..0xFF, and nothing (handler 0) elsewhere.
pub open spec fn booted_map(i: int) -> MemTarget {
    if i == 0x0C || i == 0x8C {
        MemTarget::Buffer { start: 0, limit: 0x100_0000 }
    } else if i == 0xA5 {
        MemTarget::Buffer { start: 0x100_0000, limit: 0x180_0000 }
    } else if 0xE0 <= i <= 0xE3 {
        MemTarget::Handler(2)
    } else if 0xF0 <= i {
        MemTarget::Handler(1)
    } else {
        MemTarget::Handler(0)
    }
}

/// The address masks after boot.
pub open spec fn booted_mask(i: int) -> u32 {
    if i == 0x0C || i == 0x8C {
        SYSRAM_MASK
    } else if i == 0xA5 {
        VIDEORAM_MASK
    } else if 0xE0 <= i <= 0xE3 {
        63
    } else {
        0xFFFF_FFFF
    }
}

/// Boots the machine: a reset CPU with the on-chip areas mapped, 16 MiB of
/// system RAM at regions 0x0C and 0x8C, 8 MiB of video RAM at region 0xA5,
/// `program` copied to system RAM at offset 0x1_0000, and the pipeline at
/// 0x8C01_0000.
#[verifier::rlimit(100)]
pub fn init_dreamcast(dc: &mut Dreamcast, program: &Vec<u8>)
    requires
        program.len() <= SYSRAM_SIZE - 0x1_0000,
    ensures
        final(dc).wf(),
        final(dc).running,
        final(dc).ctx.pc0 == PROGRAM_START,
        final(dc).ctx.pc1 == PROGRAM_START + 2,
        final(dc).ctx.pc2 == PROGRAM_START + 4,
        final(dc).ctx.remaining_cycles == 0,
        registers_reset(final(dc).ctx),
        reset_state(final(dc).ctx.p4),
        forall|x: u16| #[trigger] final(dc).descs@[x as int] == decoded(opcode_table(), x),
        forall|i: int| 0 <= i < 256 ==> #[trigger] final(dc).ctx.memmap[i] == booted_map(i)
            && final(dc).ctx.memmask[i] == booted_mask(i),
        final(dc).ctx.memhandlers[0] == MemHandlers::Dummy,
        final(dc).ctx.memhandlers[1] == MemHandlers::P4,
        final(dc).ctx.memhandlers[2] == MemHandlers::StoreQueue,
        forall|a: int| 0 <= a < SYSRAM_SIZE ==> {
            &&& #[trigger] byte_read(spec_read_mem(final(dc).ctx, (0x8C00_0000 + a) as u32, 1)) == Some(booted_sysram(program@, a))
            &&& byte_read(spec_read_mem(final(dc).ctx, (0x0C00_0000 + a) as u32, 1)) == Some(booted_sysram(program@, a))
        },
        forall|a: int| 0 <= a < VIDEORAM_SIZE ==>
            #[trigger] byte_read(spec_read_mem(final(dc).ctx, (0xA500_0000 + a) as u32, 1)) == Some(0u8),
{
    *dc = Dreamcast::default();
    let ghost d0 = dc.ctx;
    assert(d0.memmap[0] == MemTarget::Handler(0) && d0.memhandlers[0] == MemHandlers::Dummy);
    sh4_init_ctx(&mut dc.ctx);
    let ghost after_init = dc.ctx;
    assert(reset_state(after_init.p4)) by {
        assert forall|i: int| 0 <= i < NUM_SLOTS implies #[trigger] after_init.p4.regs[i] == match default_reg_value(i) {
            Some(v) => v,
            None => 0u32,
        } by {
            assert(d0.p4.regs[i] == 0);
        }
    }
    assert(after_init.memhandlers@[0] == d0.memhandlers@[0]);
    assert(after_init.memhandlers[0] == MemHandlers::Dummy && after_init.memhandlers[1] == MemHandlers::P4
        && after_init.memhandlers[2] == MemHandlers::StoreQueue);
    let ghost ram0 = dc.ctx.ram@.len();
    let sys = sh4_alloc_buffer(&mut dc.ctx, SYSRAM_SIZE as usize);
    let ghost after_sys = dc.ctx.ram@;
    let video = sh4_alloc_buffer(&mut dc.ctx, VIDEORAM_SIZE as usize);
    assert(sys == 0 && video == 1);
    assert forall|x: int| 0 <= x < 0x180_0000 implies #[trigger] dc.ctx.ram@[x] == 0 by {
        if x < 0x100_0000 {
            assert(dc.ctx.ram@.subrange(0, 0x100_0000)[x] == after_sys[x]);
        }
    }
    sh4_register_mem_buffer(&mut dc.ctx, 0x0C00_0000, 0x0C00_0000, SYSRAM_MASK, sys);
    sh4_register_mem_buffer(&mut dc.ctx, 0x8C00_0000, 0x8C00_0000, SYSRAM_MASK, sys);
    sh4_register_mem_buffer(&mut dc.ctx, 0xA500_0000, 0xA500_0000, VIDEORAM_MASK, video);
    let ghost before_load = dc.ctx;
    assert(before_load.memmap[0] == after_init.memmap[0] && before_load.memmap[1] == after_init.memmap[1]
        && before_load.memmap[2] == after_init.memmap[2]);
    assert(before_load.memhandlers[0] == MemHandlers::Dummy && before_load.memhandlers[1] == MemHandlers::P4
        && before_load.memhandlers[2] == MemHandlers::StoreQueue);
    sh4_load_buffer(&mut dc.ctx, sys, 0x1_0000, program);
    dc.ctx.pc0 = PROGRAM_START;
    dc.ctx.pc1 = PROGRAM_START + 2;
    dc.ctx.pc2 = PROGRAM_START + 4;
    proof {
        let c = dc.ctx;
        assert(ram0 == 0);
        assert(c.buffers[0] == (0usize, 0x100_0000usize));
        assert(c.buffers[1] == (0x100_0000usize, 0x80_0000usize));
        assert(c.ram@.len() == 0x180_0000);
        assert forall|x: int| 0 <= x < 0x180_0000 implies #[trigger] c.ram@[x] == (if x < 0x100_0000 { booted_sysram(program@, x) } else { 0u8 }) by {
            assert(before_load.ram@[x] == 0);
            if x < 0x1_0000 {
                assert(c.ram@[x] == before_load.ram@.subrange(0, 0x1_0000)[x]);
            } else if x < 0x1_0000 + program.len() {
                assert(c.ram@[x] == program@[x - 0x1_0000]);
            } else {
                assert(c.ram@[x] == before_load.ram@.subrange(0x1_0000 + program.len(), 0x180_0000)[x - 0x1_0000 - program.len()]);
            }
        }
        assert(Sh4Ctx::region(0x0C00_0000) == 0x0C && Sh4Ctx::region(0x8C00_0000) == 0x8C && Sh4Ctx::region(0xA500_0000) == 0xA5);
        assert(c.memmask[0x0C] == SYSRAM_MASK && c.memmask[0x8C] == SYSRAM_MASK && c.memmask[0xA5] == VIDEORAM_MASK);
        lemma_sysram_offset(0, 0x8C00_0000u32);
        assert(c.memmap[0x0C] == MemTarget::Buffer { start: 0, limit: 0x100_0000 });
        assert(c.memmap[0x8C] == MemTarget::Buffer { start: 0, limit: 0x100_0000 });
        assert(c.memmap[0xA5] == MemTarget::Buffer { start: 0x100_0000, limit: 0x180_0000 });
        assert forall|a: int| 0 <= a < SYSRAM_SIZE implies {
            &&& #[trigger] byte_read(spec_read_mem(c, (0x8C00_0000 + a) as u32, 1)) == Some(booted_sysram(program@, a))
            &&& byte_read(spec_read_mem(c, (0x0C00_0000 + a) as u32, 1)) == Some(booted_sysram(program@, a))
        } by {
            let k = a as u32;
            lemma_sysram_offset(k, 0x8C00_0000u32);
            lemma_sysram_offset(k, 0x0C00_0000u32);
            assert((0x8C00_0000 + a) as u32 == (0x8C00_0000u32 + k) as u32);
            assert((0x0C00_0000 + a) as u32 == (0x0C00_0000u32 + k) as u32);
            assert(le_value(c.ram@, a, 1) == c.ram@[a] as nat) by {
                reveal_with_fuel(le_value, 2);
            }
        }
        assert forall|i: int| 0 <= i < 256 implies #[trigger] c.memmap[i] == booted_map(i)
            && c.memmask[i] == booted_mask(i) by {
            assert(c.memmap[i] == before_load.memmap[i]);
        }
        assert forall|a: int| 0 <= a < VIDEORAM_SIZE implies
            #[trigger] byte_read(spec_read_mem(c, (0xA500_0000 + a) as u32, 1)) == Some(0u8) by {
            let k = a as u32;
            lemma_sysram_offset(k, 0xA500_0000u32);
            assert((0xA500_0000 + a) as u32 == (0xA500_0000u32 + k) as u32);
            assert(le_value(c.ram@, 0x100_0000 + a, 1) == c.ram@[0x100_0000 + a] as nat) by {
                reveal_with_fuel(le_value, 2);
            }
        }
    }
}

/// The byte at `addr`, or `None` where nothing readable is mapped.
pub fn readbyte_sh4_dreamcast(dc: &Dreamcast, addr: u32) -> (b: Option<u8>)
    requires
        dc.wf(),
    ensures
        b == byte_read(spec_read_mem(dc.ctx, addr, 1)),
{
    match try_read_mem(&dc.ctx, addr, 1) {
        Some(v) => Some((v % 0x100) as u8),
        None => None,
    }
}

/// The address of byte `i` of a slice that starts at `base`: the low 32
/// bits of the base plus `i`, wrapping.
pub open spec fn slice_addr(base: u64, i: int) -> u32 {
    (base as u32).wrapping_add(i as u32)
}

/// The `length` bytes from `base_address` on, or `None` when one of them
/// cannot be read.
pub fn read_memory_slice(dc: &Dreamcast, base_address: u64, length: usize) -> (r: Option<Vec<u8>>)
    requires
        dc.wf(),
    ensures
        r is Some <==> forall|i: int| 0 <= i < length ==> #[trigger] spec_read_mem(dc.ctx, slice_addr(base_address, i), 1) is Some,
        r matches Some(v) ==> (v.len() == length && forall|i: int| 0 <= i < length ==>
            Some(#[trigger] v@[i]) == byte_read(spec_read_mem(dc.ctx, slice_addr(base_address, i), 1))),
{
    let mut result: Vec<u8> = Vec::new();
    let mut i: usize = 0;
    while i < length
        invariant
            i <= length,
            dc.wf(),
            result.len() == i,
            forall|j: int| 0 <= j < i ==> #[trigger] spec_read_mem(dc.ctx, slice_addr(base_address, j), 1) is Some,
            forall|j: int| 0 <= j < i ==>
                Some(#[trigger] result@[j]) == byte_read(spec_read_mem(dc.ctx, slice_addr(base_address, j), 1)),
        decreases length - i,
    {
        let addr = (base_address as u32).wrapping_add(i as u32);
        match readbyte_sh4_dreamcast(dc, addr) {
            Some(b) => result.push(b),
            None => {
                assert(spec_read_mem(dc.ctx, slice_addr(base_address, i as int), 1) is None);
                return None;
            },
        }
        i = i + 1;
    }
    Some(result)
}

/// One line of disassembly: the address, the instruction word in hex, and
/// the instruction's text.
pub struct DisassemblyLine {
    pub address: u64,
    pub bytes: String,
    pub disassembly: String,
}

/// An uppercase hexadecimal digit.
pub open spec fn upper_hex_digit(d: nat) -> char {
    if d < 10 { ((48 + d) as u8) as char } else { ((55 + d) as u8) as char }
}

/// A 16-bit value as four uppercase hexadecimal digits, as `{:04X}` prints it.
pub open spec fn upper_hex4(v: u16) -> Seq<char> {
    seq![
        upper_hex_digit((v / 0x1000) as nat),
        upper_hex_digit(((v / 0x100) % 16) as nat),
        upper_hex_digit(((v / 0x10) % 16) as nat),
        upper_hex_digit((v % 16) as nat),
    ]
}

fn upper_hex_digit_exec(d: u16) -> (c: char)
    requires
        d < 16,
    ensures
        c == upper_hex_digit(d as nat),
{
    if d < 10 { ((48 + d) as u8) as char } else { ((55 + d) as u8) as char }
}

/// `v` as four uppercase hexadecimal digits.
pub fn upper_hex4_string(v: u16) -> (s: String)
    ensures
        s@ == upper_hex4(v),
{
    let mut c: Vec<char> = Vec::new();
    c.push(upper_hex_digit_exec(v / 0x1000));
    c.push(upper_hex_digit_exec((v / 0x100) % 16));
    c.push(upper_hex_digit_exec((v / 0x10) % 16));
    c.push(upper_hex_digit_exec(v % 16));
    assert(c@ =~= upper_hex4(v));
    chars_to_string(c)
}

/// The address of line `i` of a listing from `base`.
pub open spec fn line_addr(base: u64, i: int) -> u32 {
    ((base as u32) + 2 * i) as u32
}

/// The instruction word at `a`, if it can be read.
pub open spec fn word_at(c: Sh4Ctx, a: u32) -> Option<u16> {
    match spec_read_mem(c, a, 2) {
        Some(v) => Some((v % 0x1_0000) as u16),
        None => None,
    }
}

/// `r` is the listing of `count` instructions of the machine from `base`:
/// `None` when one of the words cannot be read; otherwise line `i` holds
/// the address, the word in hex and its disassembly with PC-relative
/// operands shown relative to `base`.
pub open spec fn listing_ok(dc: &Dreamcast, base: u64, count: usize, r: Option<Vec<DisassemblyLine>>) -> bool {
    &&& r is Some <==> forall|i: int| 0 <= i < count ==> #[trigger] word_at(dc.ctx, line_addr(base, i)) is Some
    &&& r matches Some(v) ==> (v.len() == count && forall|i: int| 0 <= i < count ==> {
        let op = word_at(dc.ctx, line_addr(base, i))->0;
        &&& (#[trigger] v@[i]).address == line_addr(base, i) as u64
        &&& v@[i].bytes@ == upper_hex4(op)
        &&& v@[i].disassembly@ == disas_text(dc.descs@[op as int].diss@, base as u32, op)
    })
}

/// `count` lines of disassembly from `base_address` on, two bytes apart,
/// with PC-relative operands shown relative to `base_address`; `None` when
/// an instruction word cannot be read.
pub fn disassemble_sh4(dc: &Dreamcast, base_address: u64, count: usize) -> (r: Option<Vec<DisassemblyLine>>)
    requires
        dc.wf(),
        (base_address as u32) + 2 * count <= 0xFFFF_FFFF,
    ensures
        listing_ok(dc, base_address, count, r),
{
    let mut result: Vec<DisassemblyLine> = Vec::new();
    let mut addr = base_address as u32;
    let state = SH4DecoderState { pc: addr, fpscr_PR: false, fpscr_SZ: false };
    let mut i: usize = 0;
    while i < count
        invariant
            i <= count,
            dc.wf(),
            (base_address as u32) + 2 * count <= 0xFFFF_FFFF,
            addr == line_addr(base_address, i as int),
            state.pc == base_address as u32,
            result.len() == i,
            forall|j: int| 0 <= j < i ==> #[trigger] word_at(dc.ctx, line_addr(base_address, j)) is Some,
            forall|j: int| 0 <= j < i ==> {
                let op = word_at(dc.ctx, line_addr(base_address, j))->0;
                &&& (#[trigger] result@[j]).address == line_addr(base_address, j) as u64
                &&& result@[j].bytes@ == upper_hex4(op)
                &&& result@[j].disassembly@ == disas_text(dc.descs@[op as int].diss@, base_address as u32, op)
            },
        decreases count - i,
    {
        let opcode = match try_read_mem(&dc.ctx, addr, 2) {
            Some(v) => (v % 0x1_0000) as u16,
            None => {
                assert(word_at(dc.ctx, line_addr(base_address, i as int)) is None);
                return None;
            },
        };
        let disassembly = format_disas(&dc.descs, state, opcode);
        let bytes = upper_hex4_string(opcode);
        result.push(DisassemblyLine { address: addr as u64, bytes, disassembly });
        addr = addr + 2;
        i = i + 1;
    }
    Some(result)
}

/// One instruction: with a budget of one cycle the interpreter runs a
/// single step, after which the budget is the one before, less one.
pub fn step_dreamcast(dc: &mut Dreamcast) -> (r: StepResult)
    requires
        old(dc).wf(),
        old(dc).ctx.remaining_cycles > i32::MIN,
    ensures
        final(dc).wf(),
        final(dc).running == old(dc).running,
        final(dc).descs == old(dc).descs,
        final(dc).ctx.remaining_cycles == old(dc).ctx.remaining_cycles - 1,
        stepped(
            Sh4Ctx { remaining_cycles: 1, ..old(dc).ctx },
            Sh4Ctx { remaining_cycles: if r is Completed || r is Fpscr { 0 } else { 1 }, ..final(dc).ctx },
            old(dc).descs@,
            r,
        ),
{
    let old_cycles = dc.ctx.remaining_cycles;
    dc.ctx.remaining_cycles = 1;
    let r = sh4_step(&mut dc.ctx, &dc.descs);
    let ghost c = dc.ctx;
    dc.ctx.remaining_cycles = old_cycles - 1;
    assert(c == (Sh4Ctx { remaining_cycles: if r is Completed || r is Fpscr { 0 } else { 1 }, ..dc.ctx }));
    r
}

/// One slice of running: when the machine is running, the budget grows by
/// two million cycles and the interpreter runs (`None` when it is not
/// running, with nothing changed).
pub fn run_slice_dreamcast(dc: &mut Dreamcast) -> (r: Option<Sh4Stop>)
    requires
        old(dc).wf(),
        old(dc).ctx.remaining_cycles <= i32::MAX - SLICE_CYCLES,
    ensures
        final(dc).wf(),
        final(dc).running == old(dc).running,
        final(dc).descs == old(dc).descs,
        !old(dc).running ==> r is None && *final(dc) == *old(dc),
        old(dc).running ==> (r matches Some(s) && dispatched(
            Sh4Ctx { remaining_cycles: (old(dc).ctx.remaining_cycles + SLICE_CYCLES) as i32, ..old(dc).ctx },
            final(dc).ctx,
            old(dc).descs@,
            s,
        ) && (s == Sh4Stop::CyclesDone ==> final(dc).ctx.remaining_cycles <= 0)),
{
    if dc.running {
        dc.ctx.remaining_cycles = dc.ctx.remaining_cycles + SLICE_CYCLES;
        Some(sh4_ipr_dispatcher(&mut dc.ctx, &dc.descs))
    } else {
        None
    }
}

/// Whether the machine is running.
pub fn is_dreamcast_running(dc: &Dreamcast) -> (r: bool)
    ensures
        r == dc.running,
{
    dc.running
}

/// Starts or stops the machine.
pub fn set_dreamcast_running(dc: &mut Dreamcast, newstate: bool)
    ensures
        *final(dc) == (Dreamcast { running: newstate, ..*old(dc) }),
{
    dc.running = newstate;
}

/// What std's `str::to_uppercase` makes of a string: Unicode's uppercase
/// mapping (which may change the length).
pub uninterp spec fn unicode_uppercase(s: Seq<char>) -> Seq<char>;

/// std's `str::to_uppercase`. The contract says that the result is the
/// Unicode uppercase mapping of the argument, named above, and that on an
/// ASCII string that mapping turns `a`..`z` into `A`..`Z` and keeps every
/// other character; beyond ASCII the mapping is left unstated.
#[verifier::external_body]
pub(crate) fn to_uppercase(s: &str) -> (r: String)
    ensures
        r@ == unicode_uppercase(s@),
        all_ascii(s@) ==> r@ == s@.map_values(|c: char| ascii_upper(c)),
{
    s.to_uppercase()
}

/// Whether `a` holds exactly the characters of `b`.
pub fn chars_eq_str(a: &Vec<char>, b: &str) -> (r: bool)
    ensures
        r == (a@ == b@),
{
    let bv = str_chars(b);
    if a.len() != bv.len() {
        return false;
    }
    let mut i: usize = 0;
    while i < a.len()
        invariant
            i <= a.len(),
            a.len() == bv.len(),
            bv@ == b@,
            forall|j: int| 0 <= j < i ==> a@[j] == bv@[j],
        decreases a.len() - i,
    {
        if a[i] != bv[i] {
            return false;
        }
        i = i + 1;
    }
    assert(a@ =~= bv@);
    true
}

/// Whether a character is an ASCII decimal digit.
pub open spec fn is_decimal_digit(c: char) -> bool {
    '0' <= c && c <= '9'
}

/// The value of a string of decimal digits.
pub open spec fn decimal_value(s: Seq<char>) -> nat
    decreases s.len(),
{
    if s.len() == 0 {
        0
    } else {
        decimal_value(s.drop_last()) * 10 + (s.last() as nat - 48) as nat
    }
}

/// The digits of a number after its optional `+` sign.
pub open spec fn unsigned_digits(s: Seq<char>) -> Seq<char> {
    if s.len() > 0 && s[0] == '+' { s.drop_first() } else { s }
}

/// One or more decimal digits.
pub open spec fn digits_only(d: Seq<char>) -> bool {
    d.len() > 0 && forall|i: int| 0 <= i < d.len() ==> is_decimal_digit(#[trigger] d[i])
}

/// What `usize::from_str` reads from `s`, without its upper limit: an
/// optional `+` and then one or more decimal digits.
pub open spec fn parsed_decimal(s: Seq<char>) -> Option<nat> {
    if digits_only(unsigned_digits(s)) { Some(decimal_value(unsigned_digits(s))) } else { None }
}

/// The general register that a name of the form `R<n>` or `r<n>` (with `n`
/// read as `usize::from_str` reads it) names, when `n` is below 16.
pub open spec fn general_register_index(name: Seq<char>) -> Option<nat> {
    if name.len() > 0 && (name[0] == 'R' || name[0] == 'r') {
        match parsed_decimal(name.drop_first()) {
            Some(v) => if v < 16 { Some(v) } else { None },
            None => None,
        }
    } else {
        None
    }
}

/// The value of the register `name`, given also as `upper`, its uppercase
/// form: PC, PR, SR, GBR, VBR, MACH, MACL, FPSCR and FPUL by their
/// uppercase names, and the general registers as `R0`..`R15` (or `r0`..).
pub open spec fn register_by_name(c: Sh4Ctx, upper: Seq<char>, name: Seq<char>) -> Option<u32> {
    if upper == "PC"@ { Some(c.pc0) }
    else if upper == "PR"@ { Some(c.pr) }
    else if upper == "SR"@ { Some(c.sr.0) }
    else if upper == "GBR"@ { Some(c.gbr) }
    else if upper == "VBR"@ { Some(c.vbr) }
    else if upper == "MACH"@ { Some(mac_h(c.mac)) }
    else if upper == "MACL"@ { Some(mac_l(c.mac)) }
    else if upper == "FPSCR"@ { Some(c.fpscr.0) }
    else if upper == "FPUL"@ { Some(c.fpul) }
    else {
        match general_register_index(name) {
            Some(i) => Some(c.r[i as int]),
            None => None,
        }
    }
}

/// What each named register gives, whatever name was typed (the lookup
/// goes by the uppercase form that `get_sh4_register` computes): `PC` the
/// current PC, `PR` the procedure register, `SR` the status register
/// without T, `GBR`, `VBR`, `FPSCR` and `FPUL` their registers, `MACH` the
/// high 32 bits of MAC and `MACL` its low 32 bits (so the two differ
/// whenever the halves do).
pub proof fn lemma_registers_by_name(c: Sh4Ctx, name: Seq<char>)
    ensures
        register_by_name(c, "PC"@, name) == Some(c.pc0),
        register_by_name(c, "PR"@, name) == Some(c.pr),
        register_by_name(c, "SR"@, name) == Some(c.sr.0),
        register_by_name(c, "GBR"@, name) == Some(c.gbr),
        register_by_name(c, "VBR"@, name) == Some(c.vbr),
        register_by_name(c, "MACH"@, name) == Some((c.mac / 0x1_0000_0000) as u32),
        register_by_name(c, "MACL"@, name) == Some((c.mac % 0x1_0000_0000) as u32),
        register_by_name(c, "FPSCR"@, name) == Some(c.fpscr.0),
        register_by_name(c, "FPUL"@, name) == Some(c.fpul),
        c.mac == (c.mac / 0x1_0000_0000) * 0x1_0000_0000 + (c.mac % 0x1_0000_0000),
{
    reveal_strlit("PC");
    reveal_strlit("PR");
    reveal_strlit("SR");
    reveal_strlit("GBR");
    reveal_strlit("VBR");
    reveal_strlit("MACH");
    reveal_strlit("MACL");
    reveal_strlit("FPSCR");
    reveal_strlit("FPUL");
    assert("PC"@.len() == 2 && "PR"@.len() == 2 && "SR"@.len() == 2 && "GBR"@.len() == 3 && "VBR"@.len() == 3);
    assert("MACH"@.len() == 4 && "MACL"@.len() == 4 && "FPSCR"@.len() == 5 && "FPUL"@.len() == 4);
    assert("PR"@ != "PC"@) by { assert("PR"@[1] != "PC"@[1]); }
    assert("SR"@ != "PC"@ && "SR"@ != "PR"@) by { assert("SR"@[0] != "PC"@[0]); }
    assert("VBR"@ != "GBR"@) by { assert("VBR"@[0] != "GBR"@[0]); }
    assert("MACL"@ != "MACH"@) by { assert("MACL"@[3] != "MACH"@[3]); }
    assert("FPUL"@ != "MACH"@ && "FPUL"@ != "MACL"@) by { assert("FPUL"@[0] != "MACH"@[0]); }
}

/// The number after the first character of `name`, read as
/// `usize::from_str` reads it, when it is below 16.
fn small_index(name: &Vec<char>) -> (r: Option<usize>)
    requires
        name.len() > 0,
    ensures
        r == (match parsed_decimal(name@.drop_first()) {
            Some(v) => if v < 16 { Some(v as usize) } else { None::<usize> },
            None => None::<usize>,
        }),
{
    let ghost s = name@.drop_first();
    let mut i: usize = 1;
    if i < name.len() && name[i] == '+' {
        i = 2;
    }
    let ghost d = unsigned_digits(s);
    assert(d =~= name@.subrange(i as int, name.len() as int));
    if i >= name.len() {
        assert(d.len() == 0);
        assert(parsed_decimal(s) is None);
        return None;
    }
    let start = i;
    let mut capped: u32 = 0;
    while i < name.len()
        invariant
            start <= i <= name.len(),
            start < name.len(),
            s == name@.drop_first(),
            d == unsigned_digits(s),
            d =~= name@.subrange(start as int, name.len() as int),
            forall|j: int| start <= j < i ==> is_decimal_digit(#[trigger] name@[j]),
            capped as nat == if decimal_value(name@.subrange(start as int, i as int)) < 16 {
                decimal_value(name@.subrange(start as int, i as int))
            } else {
                16
            },
        decreases name.len() - i,
    {
        let c = name[i];
        if !('0' <= c && c <= '9') {
            assert(d[i - start] == name@[i as int]);
            assert(!is_decimal_digit(d[i - start]));
            assert(!(forall|j: int| 0 <= j < d.len() ==> is_decimal_digit(#[trigger] d[j])));
            assert(parsed_decimal(s) is None);
            return None;
        }
        let ghost pre = name@.subrange(start as int, i as int);
        let ghost pre1 = name@.subrange(start as int, i + 1);
        assert(pre1.drop_last() =~= pre);
        let dv = (c as u32) - 48;
        if capped < 16 {
            let next = capped * 10 + dv;
            capped = if next < 16 { next } else { 16 };
        }
        i = i + 1;
    }
    assert(name@.subrange(start as int, i as int) =~= d);
    assert(forall|j: int| 0 <= j < d.len() ==> #[trigger] d[j] == name@[start + j]);
    assert(parsed_decimal(s) == Some(decimal_value(d)));
    if capped < 16 { Some(capped as usize) } else { None }
}

/// The value of register `name`, with `upper` the uppercase form of the
/// name.
pub fn register_value(ctx: &Sh4Ctx, upper: &str, name: &str) -> (r: Option<u32>)
    ensures
        r == register_by_name(*ctx, upper@, name@),
{
    let u = str_chars(upper);
    if chars_eq_str(&u, "PC") { Some(ctx.pc0) }
    else if chars_eq_str(&u, "PR") { Some(ctx.pr) }
    else if chars_eq_str(&u, "SR") { Some(ctx.sr.full()) }
    else if chars_eq_str(&u, "GBR") { Some(ctx.gbr) }
    else if chars_eq_str(&u, "VBR") { Some(ctx.vbr) }
    else if chars_eq_str(&u, "MACH") { Some(mac_parts(ctx.mac).h) }
    else if chars_eq_str(&u, "MACL") { Some(mac_parts(ctx.mac).l) }
    else if chars_eq_str(&u, "FPSCR") { Some(ctx.fpscr.full()) }
    else if chars_eq_str(&u, "FPUL") { Some(ctx.fpul) }
    else {
        let n = str_chars(name);
        if n.len() > 0 && (n[0] == 'R' || n[0] == 'r') {
            match small_index(&n) {
                Some(i) => Some(ctx.r[i]),
                None => None,
            }
        } else {
            None
        }
    }
}

/// The value of the register `register_name`, matched without regard to
/// case (by its Unicode uppercase form), or `None` for an unknown name.
pub fn get_sh4_register(dc: &Dreamcast, register_name: &str) -> (r: Option<u32>)
    ensures
        r == register_by_name(dc.ctx, unicode_uppercase(register_name@), register_name@),
        all_ascii(register_name@) ==> unicode_uppercase(register_name@) == register_name@.map_values(|c: char| ascii_upper(c)),
{
    let upper = to_uppercase(register_name);
    register_value(&dc.ctx, upper.as_str(), register_name)
}

/// A 5-bit colour channel widened to 8 bits by repeating its high bits.
pub open spec fn widen5(v: u16) -> u8 {
    ((v * 8) + (v / 4)) as u8
}

/// A 6-bit colour channel widened to 8 bits by repeating its high bits.
pub open spec fn widen6(v: u16) -> u8 {
    ((v * 4) + (v / 16)) as u8
}

/// The 8-bit red, green and blue of an RGB565 pixel.
pub open spec fn rgb888_of(px: u16) -> (u8, u8, u8) {
    (widen5(px / 2048), widen6((px / 32) % 64), widen5(px % 32))
}

/// The 8-bit red, green and blue of each RGB565 pixel of a frame.
pub fn rgb565_to_color32(buf: &Vec<u16>) -> (pixels: Vec<(u8, u8, u8)>)
    ensures
        pixels.len() == buf.len(),
        forall|i: int| 0 <= i < buf.len() ==> #[trigger] pixels@[i] == rgb888_of(buf@[i]),
{
    let mut pixels: Vec<(u8, u8, u8)> = Vec::new();
    let mut i: usize = 0;
    while i < buf.len()
        invariant
            i <= buf.len(),
            pixels.len() == i,
            forall|j: int| 0 <= j < i ==> #[trigger] pixels@[j] == rgb888_of(buf@[j]),
        decreases buf.len() - i,
    {
        let px = buf[i];
        let r = px / 2048;
        let g = (px / 32) % 64;
        let b = px % 32;
        pixels.push((((r * 8) + (r / 4)) as u8, ((g * 4) + (g / 16)) as u8, ((b * 8) + (b / 4)) as u8));
        i = i + 1;
    }
    pixels
}

} // verus!
