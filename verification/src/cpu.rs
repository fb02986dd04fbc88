//! The SH-4 CPU context: registers, the instruction pipeline, the 256-region
//! memory map and the accesses that go through it.

use vstd::prelude::*;
use crate::bits::lemma_mask_u32;
use crate::mem::{le_value, store_bytes, pow256, load_le, store_le, lemma_store_then_load};
use crate::p4::{P4State, timers_stepped, NUM_SLOTS, rio_table, default_reg_value, spec_p4_read, spec_p4_write_ok, p4_written, rio_consistent};
use crate::regs::{SrStatus, FpscrReg, bit_of, with_bit, lemma_with_bit};
use crate::alu::{sh4_rbank_switch, wrap32, signed8, signed16, sext8, sext16, flag};
use crate::p4::{MOD_CCN};

verus! {

/// The kinds of device that can answer a memory region.
#[derive(Clone, Copy, PartialEq, Eq, Structural)]
pub enum MemHandlers {
    /// Nothing is mapped: every access is a fault.
    Dummy,
    /// The on-chip P4 area (control registers).
    P4,
    /// The store queues.
    StoreQueue,
}

/// The handler of an unmapped region.
pub const DEFAULT_HANDLERS: MemHandlers = MemHandlers::Dummy;
/// The handler of the P4 area.
pub const P4_HANDLERS: MemHandlers = MemHandlers::P4;
/// The handler of the store queue area.
pub const SQ_HANDLERS: MemHandlers = MemHandlers::StoreQueue;

/// What answers one 16 MiB region: a registered handler, or RAM bytes
/// `ram[start + (addr & mask)]` below `limit`.
#[derive(Clone, Copy, PartialEq, Eq, Structural)]
pub enum MemTarget {
    Handler(u32),
    Buffer { start: usize, limit: usize },
}

/// The SH-4 register file, pipeline, memory map and on-chip peripherals.
pub struct Sh4Ctx {
    pub r: [u32; 16],
    pub r_bank: [u32; 8],
    pub remaining_cycles: i32,
    pub pc0: u32,
    pub pc1: u32,
    pub pc2: u32,
    pub is_delayslot0: u32,
    pub is_delayslot1: u32,
    pub fr: [u32; 32],
    pub xf: [u32; 32],
    pub sr_t: u32,
    pub sr: SrStatus,
    pub mac: u64,
    pub fpul: u32,
    pub fpscr: FpscrReg,
    pub gbr: u32,
    pub ssr: u32,
    pub spc: u32,
    pub sgr: u32,
    pub dbr: u32,
    pub vbr: u32,
    pub pr: u32,
    pub virt_jdyn: u32,
    pub temp: [u32; 8],
    pub sq_both: [u32; 16],
    pub memmap: Vec<MemTarget>,
    pub memmask: Vec<u32>,
    pub memhandlers: Vec<MemHandlers>,
    pub memhandler_idx: u32,
    pub ram: Vec<u8>,
    pub buffers: Vec<(usize, usize)>,
    pub p4: P4State,
}

impl Sh4Ctx {
    /// The memory map has 256 regions, handler references are in range,
    /// buffers lie inside RAM and the P4 area is well formed.
    pub open spec fn wf(&self) -> bool {
        &&& self.memmap.len() == 256
        &&& self.memmask.len() == 256
        &&& self.memhandlers.len() == 256
        &&& 1 <= self.memhandler_idx <= 255
        &&& self.sr_t <= 1
        &&& forall|i: int| 0 <= i < 256 ==> match #[trigger] self.memmap[i] {
            MemTarget::Handler(k) => k < 256,
            MemTarget::Buffer { start, limit } => limit <= self.ram.len(),
        }
        &&& forall|b: int| 0 <= b < self.buffers.len() ==> #[trigger] self.buffers[b].0 + self.buffers[b].1 <= self.ram.len()
        &&& self.p4.wf()
        &&& rio_consistent(self.p4)
    }

    /// The region an address falls in.
    pub open spec fn region(addr: u32) -> int {
        (addr / 0x100_0000) as int
    }

    /// The offset within its region that an address is handed as.
    pub open spec fn offset(&self, addr: u32) -> u32 {
        addr & self.memmask[Self::region(addr)]
    }
}

/// Every CPU register of `c` is zero: the general registers and their bank,
/// the floating-point registers, the control and system registers, and no
/// delay slot pending.
pub open spec fn registers_reset(c: Sh4Ctx) -> bool {
    &&& forall|i: int| 0 <= i < 16 ==> #[trigger] c.r[i] == 0
    &&& forall|i: int| 0 <= i < 8 ==> #[trigger] c.r_bank[i] == 0
    &&& forall|i: int| 0 <= i < 32 ==> #[trigger] c.fr[i] == 0 && c.xf[i] == 0
    &&& forall|i: int| 0 <= i < 8 ==> #[trigger] c.temp[i] == 0
    &&& forall|i: int| 0 <= i < 16 ==> #[trigger] c.sq_both[i] == 0
    &&& c.sr_t == 0 && c.sr.0 == 0 && c.mac == 0 && c.fpul == 0 && c.fpscr.0 == 0
    &&& c.gbr == 0 && c.ssr == 0 && c.spc == 0 && c.sgr == 0 && c.dbr == 0 && c.vbr == 0
    &&& c.pr == 0 && c.virt_jdyn == 0
    &&& c.is_delayslot0 == 0 && c.is_delayslot1 == 0
}

impl Default for Sh4Ctx {
    /// A reset context: zero registers, the pipeline at 0, 2, 4, nothing
    /// mapped, and an empty P4 area.
    fn default() -> (c: Self)
        ensures
            c.wf(),
            registers_reset(c),
            forall|i: int| 0 <= i < NUM_SLOTS ==> #[trigger] c.p4.regs[i] == 0,
            c.p4.qacr0_base == 0 && c.p4.qacr1_base == 0,
            c.pc0 == 0 && c.pc1 == 2 && c.pc2 == 4,
            c.remaining_cycles == 0,
            c.memhandler_idx == 1,
            c.ram@.len() == 0,
            c.buffers@.len() == 0,
            forall|i: int| 0 <= i < 256 ==> c.memmap[i] == MemTarget::Handler(0)
                && c.memmask[i] == 0xFFFF_FFFF && c.memhandlers[i] == MemHandlers::Dummy,
    {
        Sh4Ctx {
            r: [0; 16],
            r_bank: [0; 8],
            remaining_cycles: 0,
            pc0: 0,
            pc1: 2,
            pc2: 4,
            is_delayslot0: 0,
            is_delayslot1: 0,
            fr: [0; 32],
            xf: [0; 32],
            sr_t: 0,
            sr: SrStatus(0),
            mac: 0,
            fpul: 0,
            fpscr: FpscrReg(0),
            gbr: 0,
            ssr: 0,
            spc: 0,
            sgr: 0,
            dbr: 0,
            vbr: 0,
            pr: 0,
            virt_jdyn: 0,
            temp: [0; 8],
            sq_both: [0; 16],
            memmap: vec![MemTarget::Handler(0); 256],
            memmask: vec![0xFFFF_FFFFu32; 256],
            memhandlers: vec![MemHandlers::Dummy; 256],
            memhandler_idx: 1,
            ram: Vec::new(),
            buffers: Vec::new(),
            p4: P4State::new(),
        }
    }
}

/// The access sizes, in bytes.
pub open spec fn valid_size(size: u8) -> bool {
    size == 1 || size == 2 || size == 4 || size == 8
}

/// What a read of `size` bytes at `addr` gives: RAM gives its little-endian
/// bytes, the P4 area its registers, the store queues zero; an unmapped
/// region or bytes beyond a buffer are a fault (`None`).
pub open spec fn spec_read_mem(c: Sh4Ctx, addr: u32, size: u8) -> Option<u64> {
    let off = c.offset(addr);
    match c.memmap[Sh4Ctx::region(addr)] {
        MemTarget::Handler(k) => match c.memhandlers[k as int] {
            MemHandlers::Dummy => None,
            MemHandlers::P4 => spec_p4_read(c.p4, size, off),
            MemHandlers::StoreQueue => Some(0u64),
        },
        MemTarget::Buffer { start, limit } => if start + off + size <= limit {
            Some(le_value(c.ram@, start + off, size as nat) as u64)
        } else {
            None
        },
    }
}

/// Whether a write of `size` bytes at `addr` is taken.
pub open spec fn spec_write_ok(c: Sh4Ctx, addr: u32, size: u8) -> bool {
    let off = c.offset(addr);
    match c.memmap[Sh4Ctx::region(addr)] {
        MemTarget::Handler(k) => match c.memhandlers[k as int] {
            MemHandlers::Dummy => false,
            MemHandlers::P4 => spec_p4_write_ok(c.p4, size, off),
            MemHandlers::StoreQueue => true,
        },
        MemTarget::Buffer { start, limit } => start + off + size <= limit,
    }
}

/// How a write of `size` bytes of `data` at `addr` takes the context from
/// `o` to `n`. RAM takes the little-endian bytes; the P4 area takes the
/// write as its registers do; the store queues take a 32-bit write into
/// their first word and a 64-bit write into their first two words, and
/// ignore narrower writes; a refused write changes nothing.
pub open spec fn mem_written(o: Sh4Ctx, n: Sh4Ctx, addr: u32, size: u8, data: u64) -> bool {
    let off = o.offset(addr);
    if !spec_write_ok(o, addr, size) {
        n == o
    } else {
        match o.memmap[Sh4Ctx::region(addr)] {
            MemTarget::Handler(k) => match o.memhandlers[k as int] {
                MemHandlers::P4 => p4_written(o.p4, n.p4, size, off, data) && n == (Sh4Ctx { p4: n.p4, ..o }),
                _ => if size == 4 {
                    n == (Sh4Ctx { sq_both: n.sq_both, ..o })
                        && n.sq_both@ == o.sq_both@.update(0, (data % 0x1_0000_0000) as u32)
                } else if size == 8 {
                    n == (Sh4Ctx { sq_both: n.sq_both, ..o })
                        && n.sq_both@ == o.sq_both@.update(0, (data % 0x1_0000_0000) as u32).update(1, (data / 0x1_0000_0000) as u32)
                } else {
                    n == o
                },
            },
            MemTarget::Buffer { start, limit } => n == (Sh4Ctx { ram: n.ram, ..o })
                && n.ram@ == store_bytes(o.ram@, start + off, size as nat, data as nat),
        }
    }
}

proof fn lemma_region(addr: u32)
    ensures
        0 <= Sh4Ctx::region(addr) < 256,
        (addr >> 24) as int == Sh4Ctx::region(addr),
{
    lemma_mask_u32(addr);
}

/// Whether a read of `size` bytes at `addr` is answered: by RAM when the
/// bytes lie inside its buffer, by the P4 area as `p4_read_accepts` says, by
/// the store queues always; never by an unmapped region.
pub fn mem_read_ok(ctx: &Sh4Ctx, addr: u32, size: u8) -> (ok: bool)
    requires
        ctx.wf(),
        valid_size(size),
    ensures
        ok == spec_read_mem(*ctx, addr, size) is Some,
{
    proof { lemma_region(addr); }
    let region = (addr >> 24) as usize;
    let offset = addr & ctx.memmask[region];
    match ctx.memmap[region] {
        MemTarget::Handler(k) => match ctx.memhandlers[k as usize] {
            MemHandlers::Dummy => false,
            MemHandlers::P4 => ctx.p4.p4_read_accepts(size, offset),
            MemHandlers::StoreQueue => true,
        },
        MemTarget::Buffer { start, limit } =>
            start <= limit && (offset as usize) <= limit - start && (size as usize) <= limit - start - offset as usize,
    }
}

/// Reads `size` bytes at `addr` through the memory map. A read that nothing
/// answers stops the machine, so it is left out: `mem_read_ok` tells which
/// reads are answered.
pub fn read_mem(ctx: &Sh4Ctx, addr: u32, size: u8) -> (r: u64)
    requires
        ctx.wf(),
        valid_size(size),
        spec_read_mem(*ctx, addr, size) is Some,
    ensures
        spec_read_mem(*ctx, addr, size) == Some(r),
{
    proof { lemma_region(addr); }
    let region = (addr >> 24) as usize;
    let offset = addr & ctx.memmask[region];
    match ctx.memmap[region] {
        MemTarget::Handler(k) => match ctx.memhandlers[k as usize] {
            MemHandlers::P4 => ctx.p4.p4_read(size, offset),
            _ => 0,
        },
        MemTarget::Buffer { start, limit } => load_le(&ctx.ram, start + offset as usize, size as usize),
    }
}

/// A read as one step of the machine sees it: the value, or `None` where
/// nothing answers and the machine stops.
pub fn try_read_mem(ctx: &Sh4Ctx, addr: u32, size: u8) -> (r: Option<u64>)
    requires
        ctx.wf(),
        valid_size(size),
    ensures
        r == spec_read_mem(*ctx, addr, size),
{
    if mem_read_ok(ctx, addr, size) {
        Some(read_mem(ctx, addr, size))
    } else {
        None
    }
}

/// Whether a write of `size` bytes at `addr` is taken (see `spec_write_ok`).
pub fn mem_write_ok(ctx: &Sh4Ctx, addr: u32, size: u8) -> (ok: bool)
    requires
        ctx.wf(),
        valid_size(size),
    ensures
        ok == spec_write_ok(*ctx, addr, size),
{
    proof { lemma_region(addr); }
    let region = (addr >> 24) as usize;
    let offset = addr & ctx.memmask[region];
    match ctx.memmap[region] {
        MemTarget::Handler(k) => match ctx.memhandlers[k as usize] {
            MemHandlers::Dummy => false,
            MemHandlers::P4 => ctx.p4.p4_write_accepts(size, offset),
            MemHandlers::StoreQueue => true,
        },
        MemTarget::Buffer { start, limit } =>
            start <= limit && (offset as usize) <= limit - start && (size as usize) <= limit - start - offset as usize,
    }
}

/// Writes `size` bytes of `data` at `addr` through the memory map. A write
/// that nothing takes stops the machine, so it is left out: `mem_write_ok`
/// tells which writes are taken.
pub fn write_mem(ctx: &mut Sh4Ctx, addr: u32, size: u8, data: u64)
    requires
        old(ctx).wf(),
        valid_size(size),
        size < 8 ==> data < pow256(size as nat),
        spec_write_ok(*old(ctx), addr, size),
    ensures
        final(ctx).wf(),
        mem_written(*old(ctx), *final(ctx), addr, size, data),
{
    proof { lemma_region(addr); }
    let region = (addr >> 24) as usize;
    let offset = addr & ctx.memmask[region];
    match ctx.memmap[region] {
        MemTarget::Handler(k) => match ctx.memhandlers[k as usize] {
            MemHandlers::P4 => ctx.p4.p4_write(size, offset, data),
            _ => {
                if size == 4 {
                    ctx.sq_both[0] = (data % 0x1_0000_0000) as u32;
                } else if size == 8 {
                    ctx.sq_both[0] = (data % 0x1_0000_0000) as u32;
                    ctx.sq_both[1] = (data / 0x1_0000_0000) as u32;
                }
            },
        },
        MemTarget::Buffer { start, limit } => {
            let idx = start + offset as usize;
            store_le(&mut ctx.ram, idx, size as usize, data);
            proof { lemma_store_then_load(old(ctx).ram@, idx as int, size as nat, data as nat, 0, 0); }
        },
    }
}

/// A write as one step of the machine sees it: `false`, with nothing
/// changed, where nothing takes the write and the machine stops.
pub fn try_write_mem(ctx: &mut Sh4Ctx, addr: u32, size: u8, data: u64) -> (ok: bool)
    requires
        old(ctx).wf(),
        valid_size(size),
        size < 8 ==> data < pow256(size as nat),
    ensures
        final(ctx).wf(),
        ok == spec_write_ok(*old(ctx), addr, size),
        mem_written(*old(ctx), *final(ctx), addr, size, data),
{
    if mem_write_ok(ctx, addr, size) {
        write_mem(ctx, addr, size, data);
        true
    } else {
        false
    }
}

/// A RAM write followed by a read of the same bytes gives the data written.
pub proof fn lemma_ram_read_after_write(o: Sh4Ctx, n: Sh4Ctx, addr: u32, size: u8, data: u64)
    requires
        o.wf(),
        valid_size(size),
        size < 8 ==> data < pow256(size as nat),
        o.memmap[Sh4Ctx::region(addr)] is Buffer,
        spec_write_ok(o, addr, size),
        mem_written(o, n, addr, size, data),
    ensures
        spec_read_mem(n, addr, size) == Some(data),
{
    let off = o.offset(addr);
    let start = o.memmap[Sh4Ctx::region(addr)]->start;
    lemma_store_then_load(o.ram@, start + off, size as nat, data as nat, 0, 0);
    reveal_with_fuel(pow256, 9);
    assert(pow256(8) == 0x1_0000_0000_0000_0000);
    assert(n.memmap == o.memmap && n.memmask == o.memmask);
    assert(n.offset(addr) == off);
    assert(data as nat % pow256(size as nat) == data as nat) by {
        assert(pow256(1) == 256 && pow256(2) == 0x1_0000 && pow256(4) == 0x1_0000_0000);
        assert(data < pow256(size as nat));
        vstd::arithmetic::div_mod::lemma_small_mod(data as nat, pow256(size as nat));
    }
}

/// A RAM write leaves every RAM range that it does not overlap as it was.
pub proof fn lemma_ram_write_frame(o: Sh4Ctx, n: Sh4Ctx, addr: u32, size: u8, data: u64, addr2: u32, size2: u8)
    requires
        o.wf(),
        valid_size(size),
        valid_size(size2),
        o.memmap[Sh4Ctx::region(addr)] is Buffer,
        o.memmap[Sh4Ctx::region(addr2)] is Buffer,
        spec_write_ok(o, addr, size),
        spec_read_mem(o, addr2, size2) is Some,
        mem_written(o, n, addr, size, data),
        ({
            let i = o.memmap[Sh4Ctx::region(addr)]->start + o.offset(addr);
            let j = o.memmap[Sh4Ctx::region(addr2)]->start + o.offset(addr2);
            j + size2 <= i || i + size <= j
        }),
    ensures
        spec_read_mem(n, addr2, size2) == spec_read_mem(o, addr2, size2),
{
    let i = o.memmap[Sh4Ctx::region(addr)]->start + o.offset(addr);
    let j = o.memmap[Sh4Ctx::region(addr2)]->start + o.offset(addr2);
    lemma_store_then_load(o.ram@, i, size as nat, data as nat, j, size2 as nat);
}

/// Registers `handler` for the regions from `base` to `end` (by their top
/// byte), with the offset mask `mask`; it takes the next handler slot.
pub fn sh4_register_mem_handler(ctx: &mut Sh4Ctx, base: u32, end: u32, mask: u32, handler: MemHandlers)
    requires
        old(ctx).wf(),
        base <= end,
        old(ctx).memhandler_idx < 255,
    ensures
        final(ctx).wf(),
        final(ctx).memhandler_idx == old(ctx).memhandler_idx + 1,
        final(ctx).memhandlers@ == old(ctx).memhandlers@.update(old(ctx).memhandler_idx as int, handler),
        forall|i: int| 0 <= i < 256 ==> {
            if Sh4Ctx::region(base) <= i <= Sh4Ctx::region(end) {
                &&& #[trigger] final(ctx).memmap[i] == MemTarget::Handler(old(ctx).memhandler_idx)
                &&& final(ctx).memmask[i] == mask
            } else {
                &&& final(ctx).memmap[i] == old(ctx).memmap[i]
                &&& final(ctx).memmask[i] == old(ctx).memmask[i]
            }
        },
        *final(ctx) == (Sh4Ctx { memmap: final(ctx).memmap, memmask: final(ctx).memmask,
            memhandlers: final(ctx).memhandlers, memhandler_idx: final(ctx).memhandler_idx, ..*old(ctx) }),
{
    proof {
        lemma_region(base);
        lemma_region(end);
        assert(Sh4Ctx::region(base) <= Sh4Ctx::region(end)) by (nonlinear_arith)
            requires base <= end;
    }
    let k = ctx.memhandler_idx;
    ctx.memhandler_idx = k + 1;
    ctx.memhandlers.set(k as usize, handler);
    let start_index = (base >> 24) as usize;
    let end_index = (end >> 24) as usize;
    let mut i = start_index;
    while i <= end_index
        invariant
            start_index <= i <= end_index + 1,
            end_index < 256,
            start_index == Sh4Ctx::region(base),
            end_index == Sh4Ctx::region(end),
            ctx.memmap.len() == 256,
            ctx.memmask.len() == 256,
            ctx.memhandlers@ == old(ctx).memhandlers@.update(k as int, handler),
            ctx.memhandler_idx == k + 1,
            k == old(ctx).memhandler_idx,
            *ctx == (Sh4Ctx { memmap: ctx.memmap, memmask: ctx.memmask,
                memhandlers: ctx.memhandlers, memhandler_idx: ctx.memhandler_idx, ..*old(ctx) }),
            forall|j: int| 0 <= j < 256 ==> {
                if start_index <= j < i {
                    &&& #[trigger] ctx.memmap[j] == MemTarget::Handler(k)
                    &&& ctx.memmask[j] == mask
                } else {
                    &&& ctx.memmap[j] == old(ctx).memmap[j]
                    &&& ctx.memmask[j] == old(ctx).memmask[j]
                }
            },
        decreases end_index + 1 - i,
    {
        ctx.memmap.set(i, MemTarget::Handler(k));
        ctx.memmask.set(i, mask);
        i = i + 1;
    }
}

/// Maps the on-chip areas: the P4 control registers at
/// 0xF000_0000..0xFFFF_FFFF and the store queues at 0xE000_0000..0xE3FF_FFFF
/// (offsets within 64 bytes), then resets area 7 to its power-on values.
pub fn sh4_init_ctx(ctx: &mut Sh4Ctx)
    requires
        old(ctx).wf(),
        old(ctx).memhandler_idx < 254,
    ensures
        final(ctx).wf(),
        final(ctx).memhandler_idx == old(ctx).memhandler_idx + 2,
        final(ctx).memhandlers@ == old(ctx).memhandlers@
            .update(old(ctx).memhandler_idx as int, MemHandlers::P4)
            .update(old(ctx).memhandler_idx + 1, MemHandlers::StoreQueue),
        forall|i: int| 0 <= i < 256 ==> {
            if 0xF0 <= i {
                &&& #[trigger] final(ctx).memmap[i] == MemTarget::Handler(old(ctx).memhandler_idx)
                &&& final(ctx).memmask[i] == 0xFFFF_FFFF
            } else if 0xE0 <= i <= 0xE3 {
                &&& final(ctx).memmap[i] == MemTarget::Handler((old(ctx).memhandler_idx + 1) as u32)
                &&& final(ctx).memmask[i] == 63
            } else {
                &&& final(ctx).memmap[i] == old(ctx).memmap[i]
                &&& final(ctx).memmask[i] == old(ctx).memmask[i]
            }
        },
        forall|i: int| 0 <= i < NUM_SLOTS ==> #[trigger] final(ctx).p4.rio[i] == rio_table(i),
        forall|i: int| 0 <= i < NUM_SLOTS ==> #[trigger] final(ctx).p4.regs[i] == match default_reg_value(i) {
            Some(v) => v,
            None => old(ctx).p4.regs[i],
        },
        final(ctx).p4.intc.pending == 0,
        final(ctx).p4.intc.enabled == crate::intc::ALL_INTERRUPTS_MASK,
        final(ctx).p4.intc_current(),
        crate::intc::stable_sort_of(&final(ctx).p4.intc, crate::intc::identity_order()),
        forall|i: int| 0 <= i < crate::intc::NUM_INTERRUPTS ==> crate::intc::source_matches_table(#[trigger] final(ctx).p4.intc.sources[i], i),
        final(ctx).p4.irl_priority == 0x0246,
        forall|ch: int| 0 <= ch < 3 ==> #[trigger] final(ctx).p4.tmu.channels[ch] == (crate::p4::TmuChannelRuntime {
            accum: 0,
            prescale: 4,
            running: false,
        }),
        final(ctx).p4.qacr0_base == old(ctx).p4.qacr0_base,
        final(ctx).p4.qacr1_base == old(ctx).p4.qacr1_base,
        *final(ctx) == (Sh4Ctx { memmap: final(ctx).memmap, memmask: final(ctx).memmask,
            memhandlers: final(ctx).memhandlers, memhandler_idx: final(ctx).memhandler_idx,
            p4: final(ctx).p4, ..*old(ctx) }),
{
    sh4_register_mem_handler(ctx, 0xF000_0000, 0xFFFF_FFFF, 0xFFFF_FFFF, P4_HANDLERS);
    sh4_register_mem_handler(ctx, 0xE000_0000, 0xE3FF_FFFF, 63, SQ_HANDLERS);
    ctx.p4.p4_init();
    proof {
        assert(Sh4Ctx::region(0xF000_0000) == 0xF0 && Sh4Ctx::region(0xFFFF_FFFF) == 0xFF);
        assert(Sh4Ctx::region(0xE000_0000) == 0xE0 && Sh4Ctx::region(0xE3FF_FFFF) == 0xE3);
    }
}

/// Adds a zero-filled RAM buffer of `size` bytes and returns its number.
pub fn sh4_alloc_buffer(ctx: &mut Sh4Ctx, size: usize) -> (id: usize)
    requires
        old(ctx).wf(),
        old(ctx).ram.len() + size <= usize::MAX,
    ensures
        final(ctx).wf(),
        id == old(ctx).buffers.len(),
        final(ctx).buffers@ == old(ctx).buffers@.push((old(ctx).ram.len(), size)),
        final(ctx).ram@.len() == old(ctx).ram@.len() + size,
        final(ctx).ram@.subrange(0, old(ctx).ram.len() as int) == old(ctx).ram@,
        forall|k: int| old(ctx).ram.len() <= k < final(ctx).ram.len() ==> #[trigger] final(ctx).ram@[k] == 0,
        *final(ctx) == (Sh4Ctx { ram: final(ctx).ram, buffers: final(ctx).buffers, ..*old(ctx) }),
{
    let start = ctx.ram.len();
    ctx.ram.resize(start + size, 0u8);
    let id = ctx.buffers.len();
    ctx.buffers.push((start, size));
    proof {
        assert forall|k: int| start <= k < ctx.ram.len() implies #[trigger] ctx.ram@[k] == 0 by {
            assert(vstd::pervasive::cloned::<u8>(0u8, ctx.ram@[k]));
        }
        assert forall|i: int| 0 <= i < 256 implies match #[trigger] ctx.memmap[i] {
            MemTarget::Handler(k) => k < 256,
            MemTarget::Buffer { start, limit } => limit <= ctx.ram.len(),
        } by {
            assert(ctx.memmap[i] == old(ctx).memmap[i]);
        }
    }
    id
}

/// Maps the regions from `base` to `end` onto RAM buffer `buffer`: region
/// `i` starts at the buffer's byte `(i << 24) & mask`, and an address is
/// taken modulo `mask`.
pub fn sh4_register_mem_buffer(ctx: &mut Sh4Ctx, base: u32, end: u32, mask: u32, buffer: usize)
    requires
        old(ctx).wf(),
        base <= end,
        buffer < old(ctx).buffers.len(),
    ensures
        final(ctx).wf(),
        forall|i: int| 0 <= i < 256 ==> {
            if Sh4Ctx::region(base) <= i <= Sh4Ctx::region(end) {
                &&& #[trigger] final(ctx).memmap[i] == MemTarget::Buffer {
                    start: old(ctx).buffers[buffer as int].0.wrapping_add((((i * 0x100_0000) % 0x1_0000_0000) as u32 & mask) as usize),
                    limit: (old(ctx).buffers[buffer as int].0 + old(ctx).buffers[buffer as int].1) as usize,
                }
                &&& final(ctx).memmask[i] == mask
                &&& final(ctx).memhandlers[i] == MemHandlers::Dummy
            } else {
                &&& final(ctx).memmap[i] == old(ctx).memmap[i]
                &&& final(ctx).memmask[i] == old(ctx).memmask[i]
                &&& final(ctx).memhandlers[i] == old(ctx).memhandlers[i]
            }
        },
        *final(ctx) == (Sh4Ctx { memmap: final(ctx).memmap, memmask: final(ctx).memmask,
            memhandlers: final(ctx).memhandlers, ..*old(ctx) }),
{
    proof {
        lemma_region(base);
        lemma_region(end);
        assert(Sh4Ctx::region(base) <= Sh4Ctx::region(end)) by (nonlinear_arith)
            requires base <= end;
    }
    let (bstart, blen) = ctx.buffers[buffer];
    let start_index = (base >> 24) as usize;
    let end_index = (end >> 24) as usize;
    let mut i = start_index;
    while i <= end_index
        invariant
            start_index <= i <= end_index + 1,
            end_index < 256,
            start_index == Sh4Ctx::region(base),
            end_index == Sh4Ctx::region(end),
            ctx.memmap.len() == 256,
            ctx.memmask.len() == 256,
            ctx.memhandlers.len() == 256,
            bstart == old(ctx).buffers[buffer as int].0,
            blen == old(ctx).buffers[buffer as int].1,
            bstart + blen <= ctx.ram.len(),
            *ctx == (Sh4Ctx { memmap: ctx.memmap, memmask: ctx.memmask,
                memhandlers: ctx.memhandlers, ..*old(ctx) }),
            forall|j: int| 0 <= j < 256 ==> {
                if start_index <= j < i {
                    &&& #[trigger] ctx.memmap[j] == MemTarget::Buffer {
                        start: bstart.wrapping_add((((j * 0x100_0000) % 0x1_0000_0000) as u32 & mask) as usize),
                        limit: (bstart + blen) as usize,
                    }
                    &&& ctx.memmask[j] == mask
                    &&& ctx.memhandlers[j] == MemHandlers::Dummy
                } else {
                    &&& ctx.memmap[j] == old(ctx).memmap[j]
                    &&& ctx.memmask[j] == old(ctx).memmask[j]
                    &&& ctx.memhandlers[j] == old(ctx).memhandlers[j]
                }
            },
        decreases end_index + 1 - i,
    {
        let hi = (i as u32) << 24;
        assert(hi == ((i * 0x100_0000) % 0x1_0000_0000) as u32) by (bit_vector)
            requires hi == (i as u32) << 24u32, i < 256;
        let off = (hi & mask) as usize;
        ctx.memmap.set(i, MemTarget::Buffer { start: bstart.wrapping_add(off), limit: bstart + blen });
        ctx.memmask.set(i, mask);
        ctx.memhandlers.set(i, MemHandlers::Dummy);
        i = i + 1;
    }
}

/// Copies `data` into RAM buffer `buffer` from byte `at`.
pub fn sh4_load_buffer(ctx: &mut Sh4Ctx, buffer: usize, at: usize, data: &Vec<u8>)
    requires
        old(ctx).wf(),
        buffer < old(ctx).buffers.len(),
        at + data.len() <= old(ctx).buffers[buffer as int].1,
    ensures
        final(ctx).wf(),
        final(ctx).ram@ == old(ctx).ram@.subrange(0, old(ctx).buffers[buffer as int].0 + at)
            + data@
            + old(ctx).ram@.subrange(old(ctx).buffers[buffer as int].0 + at + data.len(), old(ctx).ram.len() as int),
        *final(ctx) == (Sh4Ctx { ram: final(ctx).ram, ..*old(ctx) }),
{
    let (bstart, _blen) = ctx.buffers[buffer];
    let base = bstart + at;
    let mut k: usize = 0;
    while k < data.len()
        invariant
            k <= data.len(),
            base == old(ctx).buffers[buffer as int].0 + at,
            base + data.len() <= old(ctx).ram.len(),
            ctx.ram.len() == old(ctx).ram.len(),
            *ctx == (Sh4Ctx { ram: ctx.ram, ..*old(ctx) }),
            forall|j: int| 0 <= j < base ==> #[trigger] ctx.ram@[j] == old(ctx).ram@[j],
            forall|j: int| base <= j < base + k ==> #[trigger] ctx.ram@[j] == data@[j - base],
            forall|j: int| base + k <= j < ctx.ram.len() ==> #[trigger] ctx.ram@[j] == old(ctx).ram@[j],
        decreases data.len() - k,
    {
        ctx.ram.set(base + k, data[k]);
        k = k + 1;
    }
    assert(ctx.ram@ =~= old(ctx).ram@.subrange(0, base as int) + data@
        + old(ctx).ram@.subrange(base + data.len(), old(ctx).ram.len() as int));
}

/// The sign-extended 32-bit value of the low `size` bytes of a read.
pub open spec fn sext_read(v: u64, size: u8) -> u32 {
    if size == 1 { wrap32(signed8((v % 0x100) as u32)) } else { wrap32(signed16((v % 0x1_0000) as u32)) }
}

/// Writes the low byte of `data` at `addr`.
pub fn sh4_write_mem8(ctx: &mut Sh4Ctx, addr: u32, data: u32) -> (ok: bool)
    requires
        old(ctx).wf(),
    ensures
        final(ctx).wf(),
        ok == spec_write_ok(*old(ctx), addr, 1),
        mem_written(*old(ctx), *final(ctx), addr, 1, (data % 0x100) as u64),
{
    proof { reveal_with_fuel(pow256, 2); }
    try_write_mem(ctx, addr, 1, (data % 0x100) as u64)
}

/// Writes the low half-word of `data` at `addr`.
pub fn sh4_write_mem16(ctx: &mut Sh4Ctx, addr: u32, data: u32) -> (ok: bool)
    requires
        old(ctx).wf(),
    ensures
        final(ctx).wf(),
        ok == spec_write_ok(*old(ctx), addr, 2),
        mem_written(*old(ctx), *final(ctx), addr, 2, (data % 0x1_0000) as u64),
{
    proof { reveal_with_fuel(pow256, 3); }
    try_write_mem(ctx, addr, 2, (data % 0x1_0000) as u64)
}

/// Writes the word `data` at `addr`.
pub fn sh4_write_mem32(ctx: &mut Sh4Ctx, addr: u32, data: u32) -> (ok: bool)
    requires
        old(ctx).wf(),
    ensures
        final(ctx).wf(),
        ok == spec_write_ok(*old(ctx), addr, 4),
        mem_written(*old(ctx), *final(ctx), addr, 4, data as u64),
{
    proof { reveal_with_fuel(pow256, 5); }
    try_write_mem(ctx, addr, 4, data as u64)
}

/// Writes the double word `data` at `addr`.
pub fn sh4_write_mem64(ctx: &mut Sh4Ctx, addr: u32, data: u64) -> (ok: bool)
    requires
        old(ctx).wf(),
    ensures
        final(ctx).wf(),
        ok == spec_write_ok(*old(ctx), addr, 8),
        mem_written(*old(ctx), *final(ctx), addr, 8, data),
{
    try_write_mem(ctx, addr, 8, data)
}

/// Reads a byte at `addr`, sign-extended to 32 bits.
pub fn sh4_read_mems8(ctx: &Sh4Ctx, addr: u32) -> (r: Option<u32>)
    requires
        ctx.wf(),
    ensures
        r == (match spec_read_mem(*ctx, addr, 1) {
            Some(v) => Some(sext_read(v, 1)),
            None => None,
        }),
{
    match try_read_mem(ctx, addr, 1) {
        Some(v) => Some(sext8((v % 0x100) as u32)),
        None => None,
    }
}

/// Reads a half-word at `addr`, sign-extended to 32 bits.
pub fn sh4_read_mems16(ctx: &Sh4Ctx, addr: u32) -> (r: Option<u32>)
    requires
        ctx.wf(),
    ensures
        r == (match spec_read_mem(*ctx, addr, 2) {
            Some(v) => Some(sext_read(v, 2)),
            None => None,
        }),
{
    match try_read_mem(ctx, addr, 2) {
        Some(v) => Some(sext16((v % 0x1_0000) as u32)),
        None => None,
    }
}

/// Reads a word at `addr`.
pub fn sh4_read_mem32(ctx: &Sh4Ctx, addr: u32) -> (r: Option<u32>)
    requires
        ctx.wf(),
    ensures
        r == (match spec_read_mem(*ctx, addr, 4) {
            Some(v) => Some((v % 0x1_0000_0000) as u32),
            None => None,
        }),
{
    match try_read_mem(ctx, addr, 4) {
        Some(v) => Some((v % 0x1_0000_0000) as u32),
        None => None,
    }
}

/// Reads a double word at `addr`.
pub fn sh4_read_mem64(ctx: &Sh4Ctx, addr: u32) -> (r: Option<u64>)
    requires
        ctx.wf(),
    ensures
        r == spec_read_mem(*ctx, addr, 8),
{
    try_read_mem(ctx, addr, 8)
}

/// Reads a word at an address computed by the decoder (PC-relative).
pub fn sh4_read_mem32i(ctx: &Sh4Ctx, addr: u32) -> (r: Option<u32>)
    requires
        ctx.wf(),
    ensures
        r == (match spec_read_mem(*ctx, addr, 4) {
            Some(v) => Some((v % 0x1_0000_0000) as u32),
            None => None,
        }),
{
    sh4_read_mem32(ctx, addr)
}

/// Reads a half-word at an address computed by the decoder, sign-extended.
pub fn sh4_read_mems16_i(ctx: &Sh4Ctx, addr: u32) -> (r: Option<u32>)
    requires
        ctx.wf(),
    ensures
        r == (match spec_read_mem(*ctx, addr, 2) {
            Some(v) => Some(sext_read(v, 2)),
            None => None,
        }),
{
    sh4_read_mems16(ctx, addr)
}

/// TST.B: T is set when the byte at `base + index` has none of the bits
/// of `imm`; `None` when the read is a fault.
pub fn sh4_tst_mem(ctx: &Sh4Ctx, base: u32, index: u32, imm: u32) -> (t: Option<u32>)
    requires
        ctx.wf(),
    ensures
        t == (match spec_read_mem(*ctx, base.wrapping_add(index), 1) {
            Some(v) => Some(flag(((v % 0x100) as u32 & imm) == 0)),
            None => None,
        }),
{
    let addr = base.wrapping_add(index);
    match try_read_mem(ctx, addr, 1) {
        Some(v) => Some(if ((v % 0x100) as u32 & imm) == 0 { 1 } else { 0 }),
        None => None,
    }
}

/// The byte at `base + index` combined with `imm` by `op` (0: and, 1: xor,
/// 2: or).
pub open spec fn rmw_byte(v: u64, imm: u8, op: u8) -> u8 {
    let b = (v % 0x100) as u8;
    if op == 0 { b & imm } else if op == 1 { b ^ imm } else { b | imm }
}

fn rmw_mem(ctx: &mut Sh4Ctx, base: u32, index: u32, imm: u8, op: u8) -> (ok: bool)
    requires
        old(ctx).wf(),
        op < 3,
    ensures
        final(ctx).wf(),
        ({
            let addr = base.wrapping_add(index);
            match spec_read_mem(*old(ctx), addr, 1) {
                Some(v) => ok == spec_write_ok(*old(ctx), addr, 1)
                    && mem_written(*old(ctx), *final(ctx), addr, 1, rmw_byte(v, imm, op) as u64),
                None => !ok && *final(ctx) == *old(ctx),
            }
        }),
{
    let addr = base.wrapping_add(index);
    match try_read_mem(ctx, addr, 1) {
        Some(v) => {
            let b = (v % 0x100) as u8;
            let nb = if op == 0 { b & imm } else if op == 1 { b ^ imm } else { b | imm };
            proof { reveal_with_fuel(pow256, 2); }
            try_write_mem(ctx, addr, 1, nb as u64)
        },
        None => false,
    }
}

/// AND.B: the byte at `base + index` is and-ed with `imm`.
pub fn sh4_and_mem(ctx: &mut Sh4Ctx, base: u32, index: u32, imm: u8) -> (ok: bool)
    requires
        old(ctx).wf(),
    ensures
        final(ctx).wf(),
        ({
            let addr = base.wrapping_add(index);
            match spec_read_mem(*old(ctx), addr, 1) {
                Some(v) => ok == spec_write_ok(*old(ctx), addr, 1)
                    && mem_written(*old(ctx), *final(ctx), addr, 1, (((v % 0x100) as u8) & imm) as u64),
                None => !ok && *final(ctx) == *old(ctx),
            }
        }),
{
    rmw_mem(ctx, base, index, imm, 0)
}

/// XOR.B: the byte at `base + index` is xor-ed with `imm`.
pub fn sh4_xor_mem(ctx: &mut Sh4Ctx, base: u32, index: u32, imm: u8) -> (ok: bool)
    requires
        old(ctx).wf(),
    ensures
        final(ctx).wf(),
        ({
            let addr = base.wrapping_add(index);
            match spec_read_mem(*old(ctx), addr, 1) {
                Some(v) => ok == spec_write_ok(*old(ctx), addr, 1)
                    && mem_written(*old(ctx), *final(ctx), addr, 1, (((v % 0x100) as u8) ^ imm) as u64),
                None => !ok && *final(ctx) == *old(ctx),
            }
        }),
{
    rmw_mem(ctx, base, index, imm, 1)
}

/// OR.B: the byte at `base + index` is or-ed with `imm`.
pub fn sh4_or_mem(ctx: &mut Sh4Ctx, base: u32, index: u32, imm: u8) -> (ok: bool)
    requires
        old(ctx).wf(),
    ensures
        final(ctx).wf(),
        ({
            let addr = base.wrapping_add(index);
            match spec_read_mem(*old(ctx), addr, 1) {
                Some(v) => ok == spec_write_ok(*old(ctx), addr, 1)
                    && mem_written(*old(ctx), *final(ctx), addr, 1, (((v % 0x100) as u8) | imm) as u64),
                None => !ok && *final(ctx) == *old(ctx),
            }
        }),
{
    rmw_mem(ctx, base, index, imm, 2)
}

/// TAS.B: T is set when the byte at `addr` is zero, and bit 7 of the byte
/// is set; `None` when the read or the write is a fault.
pub fn sh4_tas(ctx: &mut Sh4Ctx, addr: u32) -> (t: Option<u32>)
    requires
        old(ctx).wf(),
    ensures
        final(ctx).wf(),
        match spec_read_mem(*old(ctx), addr, 1) {
            Some(v) => {
                &&& t == (if spec_write_ok(*old(ctx), addr, 1) { Some(flag(v % 0x100 == 0)) } else { None })
                &&& mem_written(*old(ctx), *final(ctx), addr, 1, (((v % 0x100) as u8) | 0x80) as u64)
            },
            None => t is None && *final(ctx) == *old(ctx),
        },
{
    match try_read_mem(ctx, addr, 1) {
        Some(v) => {
            let b = (v % 0x100) as u8;
            let t: u32 = if b == 0 { 1 } else { 0 };
            proof { reveal_with_fuel(pow256, 2); }
            if try_write_mem(ctx, addr, 1, (b | 0x80) as u64) { Some(t) } else { None }
        },
        None => None,
    }
}

/// A conditional branch without delay slot: when `t` equals `condition`
/// the pipeline continues at `target`, otherwise at `next`.
pub fn sh4_branch_cond(ctx: &mut Sh4Ctx, t: u32, condition: u32, next: u32, target: u32)
    ensures
        *final(ctx) == (Sh4Ctx {
            pc1: if t == condition { target } else { next },
            pc2: (if t == condition { target } else { next }).wrapping_add(2),
            ..*old(ctx)
        }),
{
    if t == condition {
        ctx.pc1 = target;
        ctx.pc2 = target.wrapping_add(2);
    } else {
        ctx.pc1 = next;
        ctx.pc2 = next.wrapping_add(2);
    }
}

/// A conditional branch with delay slot: the instruction after the slot is
/// `target` when `t` equals `condition`, otherwise `next`.
pub fn sh4_branch_cond_delay(ctx: &mut Sh4Ctx, t: u32, condition: u32, next: u32, target: u32)
    ensures
        *final(ctx) == (Sh4Ctx { pc2: if t == condition { target } else { next }, is_delayslot1: 1, ..*old(ctx) }),
{
    if t == condition {
        ctx.pc2 = target;
    } else {
        ctx.pc2 = next;
    }
    ctx.is_delayslot1 = 1;
}

/// An unconditional branch with delay slot to `target`.
pub fn sh4_branch_delay(ctx: &mut Sh4Ctx, target: u32)
    ensures
        *final(ctx) == (Sh4Ctx { pc2: target, is_delayslot1: 1, ..*old(ctx) }),
{
    ctx.pc2 = target;
    ctx.is_delayslot1 = 1;
}

/// JMP: a delayed jump to `src`.
pub fn sh4_jmp(ctx: &mut Sh4Ctx, src: u32)
    ensures
        *final(ctx) == (Sh4Ctx { pc2: src, is_delayslot1: 1, ..*old(ctx) }),
{
    ctx.pc2 = src;
    ctx.is_delayslot1 = 1;
}

/// JSR: a delayed call of `src`, returning to `next_pc`.
pub fn sh4_jsr(ctx: &mut Sh4Ctx, src: u32, next_pc: u32)
    ensures
        *final(ctx) == (Sh4Ctx { pr: next_pc, pc2: src, is_delayslot1: 1, ..*old(ctx) }),
{
    ctx.pr = next_pc;
    ctx.pc2 = src;
    ctx.is_delayslot1 = 1;
}

/// BRAF: a delayed jump to `pc + 4 + src`.
pub fn sh4_braf(ctx: &mut Sh4Ctx, src: u32, pc: u32)
    ensures
        *final(ctx) == (Sh4Ctx { pc2: src.wrapping_add(pc).wrapping_add(4), is_delayslot1: 1, ..*old(ctx) }),
{
    ctx.pc2 = src.wrapping_add(pc).wrapping_add(4);
    ctx.is_delayslot1 = 1;
}

/// BSRF: a delayed call of `pc + 4 + src`, returning to `pc + 4`.
pub fn sh4_bsrf(ctx: &mut Sh4Ctx, src: u32, pc: u32)
    ensures
        *final(ctx) == (Sh4Ctx {
            pr: pc.wrapping_add(4),
            pc2: src.wrapping_add(pc).wrapping_add(4),
            is_delayslot1: 1,
            ..*old(ctx)
        }),
{
    let newpc = src.wrapping_add(pc).wrapping_add(4);
    ctx.pr = pc.wrapping_add(4);
    ctx.pc2 = newpc;
    ctx.is_delayslot1 = 1;
}

/// RTS: a delayed return to `pr`.
pub fn sh4_rts(ctx: &mut Sh4Ctx, pr: u32)
    ensures
        *final(ctx) == (Sh4Ctx { pc2: pr, is_delayslot1: 1, ..*old(ctx) }),
{
    ctx.pc2 = pr;
    ctx.is_delayslot1 = 1;
}

/// RTE: a delayed return to `spc`.
pub fn sh4_rte(ctx: &mut Sh4Ctx, spc: u32)
    ensures
        *final(ctx) == (Sh4Ctx { pc2: spc, is_delayslot1: 1, ..*old(ctx) }),
{
    ctx.pc2 = spc;
    ctx.is_delayslot1 = 1;
}

/// The status register as software sees it: SR with the T bit or-ed in.
pub open spec fn spec_full_sr(c: Sh4Ctx) -> u32 {
    c.sr.0 | c.sr_t
}

/// The status register with the T bit or-ed in.
pub fn compose_full_sr(ctx: &Sh4Ctx) -> (v: u32)
    ensures
        v == spec_full_sr(*ctx),
{
    ctx.sr.0 | ctx.sr_t
}

/// `n` is `o` after taking the interrupt that `o` has first in line: its
/// code goes to INTEVT, SSR/SPC/SGR save SR, PC and R15, SR gets BL, MD
/// and RB (the register banks swapped if RB was clear), and the pipeline
/// restarts at VBR + 0x600.
pub open spec fn interrupt_entered(o: Sh4Ctx, n: Sh4Ctx) -> bool {
    let e = o.p4.intc.next_event_spec(o.sr)->0;
    &&& n.p4.intc.pending == o.p4.intc.pending & !(1u32 << e.index as u32)
    &&& n.p4.regs@ == o.p4.regs@.update(MOD_CCN * 32 + 10, e.event_code)
    &&& n.ssr == spec_full_sr(o)
    &&& n.spc == o.pc0
    &&& n.sgr == o.r[15]
    &&& n.sr.0 == with_bit(with_bit(with_bit(o.sr.0, 28, true), 30, true), 29, true)
    &&& (bit_of(o.sr.0, 29) ==> n.r == o.r && n.r_bank == o.r_bank)
    &&& (!bit_of(o.sr.0, 29) ==> (forall|i: int| 0 <= i < 8 ==> n.r[i] == o.r_bank[i] && n.r_bank[i] == o.r[i])
        && (forall|i: int| 8 <= i < 16 ==> n.r[i] == o.r[i]))
    &&& n.pc0 == o.vbr.wrapping_add(INTERRUPT_VECTOR)
    &&& n.pc1 == o.vbr.wrapping_add(INTERRUPT_VECTOR).wrapping_add(2)
    &&& n.pc2 == o.vbr.wrapping_add(INTERRUPT_VECTOR).wrapping_add(4)
    &&& n.is_delayslot0 == 0 && n.is_delayslot1 == 0
    &&& n == (Sh4Ctx { p4: n.p4, ssr: n.ssr, spc: n.spc, sgr: n.sgr, sr: n.sr, r: n.r, r_bank: n.r_bank,
        pc0: n.pc0, pc1: n.pc1, pc2: n.pc2, is_delayslot0: 0, is_delayslot1: 0, ..o })
    &&& n.p4 == (P4State { regs: n.p4.regs, intc: n.p4.intc, ..o.p4 })
    &&& n.p4.intc == (crate::intc::InterruptController { pending: n.p4.intc.pending, ..o.p4.intc })
}

/// The interrupt exception vector offset from VBR.
pub const INTERRUPT_VECTOR: u32 = 0x600;

/// Takes the first pending, enabled interrupt that SR admits: its code goes
/// to INTEVT, SSR/SPC/SGR save SR, PC and R15, SR gets BL, MD and RB (with
/// the register banks swapped if RB was clear), and the pipeline restarts
/// at VBR + 0x600. Returns whether an interrupt was taken.
pub fn intc_try_service(ctx: &mut Sh4Ctx) -> (taken: bool)
    requires
        old(ctx).wf(),
    ensures
        final(ctx).wf(),
        !taken ==> *final(ctx) == *old(ctx),
        taken <==> old(ctx).p4.intc.next_event_spec(old(ctx).sr) is Some,
        taken ==> interrupt_entered(*old(ctx), *final(ctx)),
{
    let ev = ctx.p4.intc.next_event(&ctx.sr);
    match ev {
        Some(e) => {
            ctx.p4.intc.clear_pending(e.index);
            ctx.p4.regs.set(MOD_CCN * 32 + 10, e.event_code);
            ctx.ssr = compose_full_sr(ctx);
            ctx.spc = ctx.pc0;
            ctx.sgr = ctx.r[15];
            let ghost sr0 = ctx.sr.0;
            ctx.sr.set_bl(true);
            ctx.sr.set_md(true);
            proof {
                lemma_with_bit(sr0, 28, true);
                lemma_with_bit(with_bit(sr0, 28, true), 30, true);
            }
            let old_rb = ctx.sr.rb();
            ctx.sr.set_rb(true);
            if !old_rb {
                sh4_rbank_switch(&mut ctx.r, &mut ctx.r_bank);
            }
            let vector = ctx.vbr.wrapping_add(INTERRUPT_VECTOR);
            ctx.pc0 = vector;
            ctx.pc1 = vector.wrapping_add(2);
            ctx.pc2 = vector.wrapping_add(4);
            ctx.is_delayslot0 = 0;
            ctx.is_delayslot1 = 0;
            true
        },
        None => false,
    }
}

/// Advances the on-chip timers by `cycles`.
pub fn peripherals_step(ctx: &mut Sh4Ctx, cycles: u32)
    requires
        old(ctx).wf(),
    ensures
        final(ctx).wf(),
        *final(ctx) == (Sh4Ctx { p4: final(ctx).p4, ..*old(ctx) }),
        timers_stepped(old(ctx).p4, final(ctx).p4, cycles),
        final(ctx).p4.rio == old(ctx).p4.rio,
{
    ctx.p4.tmu_step(cycles);
}

} // verus!
