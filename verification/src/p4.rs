//! The SH-4 on-chip peripheral area (P4 / area 7): the register file of the
//! CCN, UBC, BSC, DMAC, CPG, RTC, INTC, TMU, SCI and SCIF modules, the timer
//! unit's counting, and the interrupt controller that they raise requests in.

use vstd::prelude::*;
use crate::intc::{InterruptController, PriorityValues, tmu_interrupt_id, spec_source_index, NUM_INTERRUPTS};
use crate::regs::with_bit;
use crate::bits::{lemma_mask_u16, lemma_mask_u32, lemma_mask_u64, lemma_bit_idempotent, lemma_u16_flag_bit8, lemma_low3};
use vstd::arithmetic::div_mod::{lemma_fundamental_div_mod, lemma_fundamental_div_mod_converse};

verus! {

/// Register slots per module.
pub const SLOTS_PER_MODULE: usize = 32;
/// The number of modules in area 7.
pub const NUM_MODULES: usize = 10;
/// The number of register slots.
pub const NUM_SLOTS: usize = 320;

pub const MOD_CCN: usize = 0;
pub const MOD_UBC: usize = 1;
pub const MOD_BSC: usize = 2;
pub const MOD_DMAC: usize = 3;
pub const MOD_CPG: usize = 4;
pub const MOD_RTC: usize = 5;
pub const MOD_INTC: usize = 6;
pub const MOD_TMU: usize = 7;
pub const MOD_SCI: usize = 8;
pub const MOD_SCIF: usize = 9;

/// The underflow flag of a TMU control register.
pub const TMU_UNDERFLOW: u16 = 0x0100;
/// The underflow interrupt enable of a TMU control register.
pub const TMU_UNIE: u16 = 0x0020;
/// The prescale value of an unsupported clock selection.
pub const TMU_INVALID_PRESCALE: u32 = 0;

/// The slot of the register at byte offset `off` of module `m`.
pub open spec fn slot(m: usize, off: u32) -> usize {
    (m * SLOTS_PER_MODULE + (off / 4) as usize) as usize
}

/// The slot of TMU channel `ch`'s constant register TCOR.
pub open spec fn tcor_slot(ch: int) -> int {
    MOD_TMU * 32 + 2 + 3 * ch
}

/// The slot of TMU channel `ch`'s counter TCNT.
pub open spec fn tcnt_slot(ch: int) -> int {
    MOD_TMU * 32 + 3 + 3 * ch
}

/// The slot of TMU channel `ch`'s control register TCR.
pub open spec fn tcr_slot(ch: int) -> int {
    MOD_TMU * 32 + 4 + 3 * ch
}

/// The slot of the timer start register TSTR.
pub open spec fn tstr_slot() -> int {
    MOD_TMU * 32 + 1
}

/// The counting state of one timer channel.
#[derive(Clone, Copy)]
pub struct TmuChannelRuntime {
    pub accum: u32,
    pub prescale: u32,
    pub running: bool,
}

impl TmuChannelRuntime {
    /// A stopped channel counting every four cycles.
    pub fn new() -> (c: Self)
        ensures
            c.accum == 0,
            c.prescale == 4,
            !c.running,
    {
        Self { accum: 0, prescale: 4, running: false }
    }
}

/// The counting state of the three timer channels.
pub struct TmuRuntime {
    pub channels: Vec<TmuChannelRuntime>,
}

impl TmuRuntime {
    /// Three stopped channels.
    pub fn new() -> (t: Self)
        ensures
            t.channels.len() == 3,
            forall|i: int| 0 <= i < 3 ==> t.channels[i].accum == 0 && t.channels[i].prescale == 4 && !t.channels[i].running,
    {
        let mut channels: Vec<TmuChannelRuntime> = Vec::new();
        channels.push(TmuChannelRuntime::new());
        channels.push(TmuChannelRuntime::new());
        channels.push(TmuChannelRuntime::new());
        Self { channels }
    }
}

/// The number of cycles per count for a TCR clock selection.
pub open spec fn spec_prescale(mode: u16) -> u32 {
    let m = mode % 8;
    if m == 0 { 4 } else if m == 1 { 16 } else if m == 2 { 64 } else if m == 3 { 256 } else if m == 4 { 1024 } else { 0 }
}

/// The number of cycles per count for a TCR clock selection.
pub fn tmu_prescale_from_mode(mode: u16) -> (p: u32)
    ensures
        p == spec_prescale(mode),
{
    let m = mode & 0x7;
    proof { lemma_mask_u16(mode); }
    match m {
        0 => 4,
        1 => 16,
        2 => 64,
        3 => 256,
        4 => 1024,
        _ => TMU_INVALID_PRESCALE,
    }
}

/// A timer counter after `k` counts from `c`: it counts down to zero, then
/// reloads `reload` on the next count, a period of `reload + 1` counts.
pub open spec fn tmu_count_after(c: u32, reload: u32, k: nat) -> u32 {
    if k <= c {
        (c - k) as u32
    } else {
        (reload - ((k - c - 1) % (reload + 1))) as u32
    }
}

/// One count of a timer counter.
pub open spec fn tmu_count_step(c: u32, reload: u32) -> u32 {
    if c == 0 { reload } else { (c - 1) as u32 }
}

proof fn lemma_tmu_count_step(c: u32, reload: u32, k: nat)
    ensures
        tmu_count_after(c, reload, k + 1) == tmu_count_step(tmu_count_after(c, reload, k), reload),
{
    let m: int = reload + 1;
    if k > c {
        let x: int = k - c - 1;
        lemma_fundamental_div_mod(x, m);
        let q = x / m;
        let t = x % m;
        assert(0 <= t < m);
        if t == reload {
            assert(x + 1 == (q + 1) * m + 0) by (nonlinear_arith)
                requires x == m * q + t, t == m - 1;
            lemma_fundamental_div_mod_converse(x + 1, m, q + 1, 0);
        } else {
            assert(x + 1 == q * m + (t + 1)) by (nonlinear_arith)
                requires x == m * q + t;
            lemma_fundamental_div_mod_converse(x + 1, m, q, t + 1);
        }
    } else if k == c {
        lemma_fundamental_div_mod_converse(0, m, 0, 0);
    }
}

/// How a register answers a read.
#[derive(Clone, Copy, PartialEq, Eq, Structural)]
pub enum P4Read {
    /// No register here: the access is a fault.
    Unreachable,
    /// The DRAM settings area, which cannot be read.
    DramCfg,
    /// The stored value.
    Data,
    /// IPRD, which reads as zero.
    IntcIprd,
    /// Port A data, computed from the port control and data registers.
    BscPdtra,
    /// The SCIF status, with the transmit-ready flags always set.
    ScifStatus,
    /// CCN PRR, which reads as zero.
    CcnPrr,
}

/// How a register takes a write.
#[derive(Clone, Copy, PartialEq, Eq, Structural)]
pub enum P4Write {
    /// No register here: the access is a fault.
    Unreachable,
    /// The DRAM settings area: writes are accepted and ignored.
    DramCfg,
    /// The value is stored, truncated to the register's width.
    Data,
    /// CCR: stored without its two self-clearing bits.
    CcnCcr,
    /// IPRA to IPRC: stored; a change reloads the interrupt priorities.
    IntcIpr,
    /// A read-only register: writes are ignored.
    ReadOnly,
    /// TSTR: starts and stops the three timer channels.
    TmuTstr,
    /// TCNTn: sets the counter and clears the underflow flag.
    TmuTcnt,
    /// TCRn: sets the clock selection and the underflow interrupt enable.
    TmuTcr,
    /// QACRn: sets the store queue area.
    CcnQacr,
}

/// One register of area 7.
#[derive(Clone, Copy)]
pub struct P4Register {
    pub read: P4Read,
    pub write: P4Write,
    /// The access width in bytes, or 0 for a fault slot.
    pub size: u8,
    /// Where its value is kept.
    pub slot: usize,
}

/// The register that answers where nothing is mapped.
pub open spec fn unreachable_reg() -> P4Register {
    P4Register { read: P4Read::Unreachable, write: P4Write::Unreachable, size: 0, slot: 0 }
}

/// The register that answers in the DRAM settings areas.
pub open spec fn dram_cfg_reg() -> P4Register {
    P4Register { read: P4Read::DramCfg, write: P4Write::DramCfg, size: 0, slot: 0 }
}

/// The state of area 7.
pub struct P4State {
    pub regs: Vec<u32>,
    pub rio: Vec<P4Register>,
    pub intc: InterruptController,
    pub irl_priority: u32,
    pub tmu: TmuRuntime,
    pub qacr0_base: u32,
    pub qacr1_base: u32,
}

impl P4State {
    /// Well-formedness: full register and table storage, a well-formed
    /// interrupt controller, three timer channels, and table entries that
    /// point into the register storage.
    pub open spec fn wf(&self) -> bool {
        &&& self.regs.len() == NUM_SLOTS
        &&& self.rio.len() == NUM_SLOTS
        &&& self.intc.wf()
        &&& self.tmu.channels.len() == 3
        &&& forall|i: int| 0 <= i < NUM_SLOTS ==> #[trigger] self.rio[i].slot < NUM_SLOTS
    }

    /// The values of the priority registers.
    pub open spec fn priority_values(&self) -> PriorityValues {
        PriorityValues {
            ipra: self.regs[MOD_INTC * 32 + 1],
            iprb: self.regs[MOD_INTC * 32 + 2],
            iprc: self.regs[MOD_INTC * 32 + 3],
            irl: self.irl_priority,
        }
    }

    /// The interrupt controller is consistent with the priority registers.
    pub open spec fn intc_current(&self) -> bool {
        &&& self.intc.sorted()
        &&& forall|i: int| 0 <= i < NUM_INTERRUPTS ==>
            (#[trigger] self.intc.sources[i]).cached_priority == crate::intc::spec_priority(self.intc.sources[i].priority_ref, self.priority_values())
    }

    /// The timer counter of channel `ch`.
    pub open spec fn tcnt(&self, ch: int) -> u32 {
        self.regs[tcnt_slot(ch)]
    }

    /// The timer constant of channel `ch`.
    pub open spec fn tcor(&self, ch: int) -> u32 {
        self.regs[tcor_slot(ch)]
    }

    /// The timer control register of channel `ch`, as 16 bits.
    pub open spec fn tcr(&self, ch: int) -> u16 {
        (self.regs[tcr_slot(ch)] % 0x1_0000) as u16
    }

    /// An empty register file: every slot zero and every table entry a fault.
    pub fn new() -> (p: Self)
        ensures
            p.wf(),
            forall|i: int| 0 <= i < NUM_SLOTS ==> p.regs[i] == 0 && p.rio[i] == unreachable_reg(),
            p.qacr0_base == 0 && p.qacr1_base == 0,
    {
        let mut regs: Vec<u32> = Vec::new();
        let mut rio: Vec<P4Register> = Vec::new();
        let mut i: usize = 0;
        while i < NUM_SLOTS
            invariant
                i <= NUM_SLOTS,
                regs.len() == i,
                rio.len() == i,
                forall|j: int| 0 <= j < i ==> regs[j] == 0 && rio[j] == unreachable_reg(),
            decreases NUM_SLOTS - i,
        {
            regs.push(0);
            rio.push(P4Register { read: P4Read::Unreachable, write: P4Write::Unreachable, size: 0, slot: 0 });
            i = i + 1;
        }
        let mut intc = InterruptController::new();
        let pv = PriorityValues { ipra: 0, iprb: 0, iprc: 0, irl: 0x0246 };
        intc.init(&pv);
        P4State {
            regs,
            rio,
            intc,
            irl_priority: 0x0246,
            tmu: TmuRuntime::new(),
            qacr0_base: 0,
            qacr1_base: 0,
        }
    }

    /// TCOR of channel `ch`.
    pub fn tmu_get_tcor(&self, ch: usize) -> (v: u32)
        requires
            self.wf(),
            ch < 3,
        ensures
            v == self.tcor(ch as int),
    {
        self.regs[MOD_TMU * 32 + 2 + 3 * ch]
    }

    /// TCNT of channel `ch`.
    pub fn tmu_get_tcnt(&self, ch: usize) -> (v: u32)
        requires
            self.wf(),
            ch < 3,
        ensures
            v == self.tcnt(ch as int),
    {
        self.regs[MOD_TMU * 32 + 3 + 3 * ch]
    }

    /// Sets TCNT of channel `ch`.
    pub fn tmu_set_tcnt(&mut self, ch: usize, value: u32)
        requires
            old(self).wf(),
            ch < 3,
        ensures
            final(self).wf(),
            final(self).regs@ == old(self).regs@.update(tcnt_slot(ch as int), value),
            final(self).intc == old(self).intc,
            final(self).tmu == old(self).tmu,
            final(self).rio == old(self).rio,
            final(self).irl_priority == old(self).irl_priority,
            final(self).qacr0_base == old(self).qacr0_base,
            final(self).qacr1_base == old(self).qacr1_base,
    {
        self.regs.set(MOD_TMU * 32 + 3 + 3 * ch, value);
    }

    /// TCR of channel `ch`.
    pub fn tmu_get_tcr(&self, ch: usize) -> (v: u16)
        requires
            self.wf(),
            ch < 3,
        ensures
            v == self.tcr(ch as int),
    {
        let x = self.regs[MOD_TMU * 32 + 4 + 3 * ch];
        let v = x & 0xFFFF;
        proof { lemma_mask_u32(x); }
        v as u16
    }

    /// Sets TCR of channel `ch`.
    pub fn tmu_store_tcr(&mut self, ch: usize, value: u16)
        requires
            old(self).wf(),
            ch < 3,
        ensures
            final(self).wf(),
            final(self).regs@ == old(self).regs@.update(tcr_slot(ch as int), value as u32),
            final(self).intc == old(self).intc,
            final(self).tmu == old(self).tmu,
            final(self).rio == old(self).rio,
            final(self).irl_priority == old(self).irl_priority,
            final(self).qacr0_base == old(self).qacr0_base,
            final(self).qacr1_base == old(self).qacr1_base,
    {
        self.regs.set(MOD_TMU * 32 + 4 + 3 * ch, value as u32);
    }

    /// TSTR.
    pub fn tmu_get_tstr(&self) -> (v: u8)
        requires
            self.wf(),
        ensures
            v == self.regs[tstr_slot()] % 0x100,
    {
        let x = self.regs[MOD_TMU * 32 + 1];
        let v = x & 0xFF;
        proof { lemma_mask_u32(x); }
        v as u8
    }

    /// Sets TSTR to the three channel-start bits of `value`.
    pub fn tmu_set_tstr(&mut self, value: u8)
        requires
            old(self).wf(),
        ensures
            final(self).wf(),
            final(self).regs@ == old(self).regs@.update(tstr_slot(), (value & 0x07) as u32),
            final(self).intc == old(self).intc,
            final(self).tmu == old(self).tmu,
            final(self).rio == old(self).rio,
            final(self).irl_priority == old(self).irl_priority,
            final(self).qacr0_base == old(self).qacr0_base,
            final(self).qacr1_base == old(self).qacr1_base,
    {
        self.regs.set(MOD_TMU * 32 + 1, (value & 0x07) as u32);
    }

    /// Reloads channel `ch`'s prescale from its TCR and restarts its cycle
    /// accumulator.
    pub fn tmu_update_prescale(&mut self, ch: usize)
        requires
            old(self).wf(),
            ch < 3,
        ensures
            final(self).wf(),
            final(self).tmu.channels@ == old(self).tmu.channels@.update(ch as int, TmuChannelRuntime {
                accum: 0,
                prescale: spec_prescale(old(self).tcr(ch as int)),
                running: old(self).tmu.channels[ch as int].running,
            }),
            final(self).regs == old(self).regs,
            final(self).intc == old(self).intc,
            final(self).rio == old(self).rio,
            final(self).irl_priority == old(self).irl_priority,
            final(self).qacr0_base == old(self).qacr0_base,
            final(self).qacr1_base == old(self).qacr1_base,
    {
        let mode = self.tmu_get_tcr(ch);
        let mut c = self.tmu.channels[ch];
        c.prescale = tmu_prescale_from_mode(mode);
        c.accum = 0;
        self.tmu.channels.set(ch, c);
    }

    /// Starts or stops channel `ch` and restarts its cycle accumulator.
    pub fn tmu_set_running(&mut self, ch: usize, running: bool)
        requires
            old(self).wf(),
            ch < 3,
        ensures
            final(self).wf(),
            final(self).tmu.channels@ == old(self).tmu.channels@.update(ch as int, TmuChannelRuntime {
                accum: 0,
                prescale: old(self).tmu.channels[ch as int].prescale,
                running,
            }),
            final(self).regs == old(self).regs,
            final(self).intc == old(self).intc,
            final(self).rio == old(self).rio,
            final(self).irl_priority == old(self).irl_priority,
            final(self).qacr0_base == old(self).qacr0_base,
            final(self).qacr1_base == old(self).qacr1_base,
    {
        let mut c = self.tmu.channels[ch];
        c.running = running;
        c.accum = 0;
        self.tmu.channels.set(ch, c);
    }

    /// Starts exactly the channels whose bit is set in TSTR.
    pub fn tmu_update_running_from_tstr(&mut self)
        requires
            old(self).wf(),
        ensures
            final(self).wf(),
            forall|ch: int| 0 <= ch < 3 ==> #[trigger] final(self).tmu.channels[ch] == (TmuChannelRuntime {
                accum: 0,
                prescale: old(self).tmu.channels[ch].prescale,
                running: (old(self).regs[tstr_slot()] % 0x100) as u8 & (1u8 << ch as u8) != 0,
            }),
            final(self).regs == old(self).regs,
            final(self).intc == old(self).intc,
            final(self).rio == old(self).rio,
            final(self).irl_priority == old(self).irl_priority,
            final(self).qacr0_base == old(self).qacr0_base,
            final(self).qacr1_base == old(self).qacr1_base,
    {
        let tstr = self.tmu_get_tstr();
        let mut ch: usize = 0;
        while ch < 3
            invariant
                ch <= 3,
                self.wf(),
                tstr == (old(self).regs[tstr_slot()] % 0x100) as u8,
                forall|c: int| 0 <= c < ch ==> #[trigger] self.tmu.channels[c] == (TmuChannelRuntime {
                    accum: 0,
                    prescale: old(self).tmu.channels[c].prescale,
                    running: tstr & (1u8 << c as u8) != 0,
                }),
                forall|c: int| ch <= c < 3 ==> #[trigger] self.tmu.channels[c] == old(self).tmu.channels[c],
                self.regs == old(self).regs,
                self.intc == old(self).intc,
                self.rio == old(self).rio,
                self.irl_priority == old(self).irl_priority,
                self.qacr0_base == old(self).qacr0_base,
                self.qacr1_base == old(self).qacr1_base,
            decreases 3 - ch,
        {
            let running = (tstr & (1u8 << ch as u8)) != 0;
            self.tmu_set_running(ch, running);
            ch = ch + 1;
        }
    }
}

/// Raises a source's request.
pub fn intc_raise_interrupt(ctrl: &mut InterruptController, source: crate::intc::InterruptSourceId)
    ensures
        final(ctrl).pending == with_bit(old(ctrl).pending, spec_source_index(source) as u32, true),
        final(ctrl).enabled == old(ctrl).enabled,
        final(ctrl).sources == old(ctrl).sources,
        final(ctrl).order == old(ctrl).order,
{
    ctrl.set_pending(source.index());
}

/// Withdraws a source's request.
pub fn intc_clear_interrupt(ctrl: &mut InterruptController, source: crate::intc::InterruptSourceId)
    ensures
        final(ctrl).pending == with_bit(old(ctrl).pending, spec_source_index(source) as u32, false),
        final(ctrl).enabled == old(ctrl).enabled,
        final(ctrl).sources == old(ctrl).sources,
        final(ctrl).order == old(ctrl).order,
{
    ctrl.clear_pending(source.index());
}

/// Enables a source.
pub fn intc_enable_interrupt(ctrl: &mut InterruptController, source: crate::intc::InterruptSourceId)
    ensures
        final(ctrl).enabled == with_bit(old(ctrl).enabled, spec_source_index(source) as u32, true),
        final(ctrl).pending == old(ctrl).pending,
        final(ctrl).sources == old(ctrl).sources,
        final(ctrl).order == old(ctrl).order,
{
    ctrl.enable(source.index());
}

/// Disables a source.
pub fn intc_disable_interrupt(ctrl: &mut InterruptController, source: crate::intc::InterruptSourceId)
    ensures
        final(ctrl).enabled == with_bit(old(ctrl).enabled, spec_source_index(source) as u32, false),
        final(ctrl).pending == old(ctrl).pending,
        final(ctrl).sources == old(ctrl).sources,
        final(ctrl).order == old(ctrl).order,
{
    ctrl.disable(source.index());
}

/// Reloads the interrupt priorities from the IPR registers.
pub fn intc_priorities_changed(p4: &mut P4State)
    requires
        old(p4).wf(),
    ensures
        final(p4).wf(),
        final(p4).intc_current(),
        crate::intc::stable_sort_of(&final(p4).intc, old(p4).intc.order@),
        final(p4).intc.pending == old(p4).intc.pending,
        final(p4).intc.enabled == old(p4).intc.enabled,
        forall|i: int| 0 <= i < NUM_INTERRUPTS ==> {
            &&& (#[trigger] final(p4).intc.sources[i]).event_code == old(p4).intc.sources[i].event_code
            &&& final(p4).intc.sources[i].priority_ref == old(p4).intc.sources[i].priority_ref
        },
        final(p4).regs == old(p4).regs,
        final(p4).tmu == old(p4).tmu,
        final(p4).rio == old(p4).rio,
        final(p4).irl_priority == old(p4).irl_priority,
        final(p4).qacr0_base == old(p4).qacr0_base,
        final(p4).qacr1_base == old(p4).qacr1_base,
{
    let pv = PriorityValues {
        ipra: p4.regs[MOD_INTC * 32 + 1],
        iprb: p4.regs[MOD_INTC * 32 + 2],
        iprc: p4.regs[MOD_INTC * 32 + 3],
        irl: p4.irl_priority,
    };
    p4.intc.update_priorities(&pv);
}

/// Resets the interrupt controller: the source table, nothing pending,
/// everything enabled, and priorities from the IPR registers.
pub fn intc_initialize(p4: &mut P4State)
    requires
        old(p4).wf(),
    ensures
        final(p4).wf(),
        final(p4).intc_current(),
        crate::intc::stable_sort_of(&final(p4).intc, crate::intc::identity_order()),
        final(p4).intc.pending == 0,
        final(p4).intc.enabled == crate::intc::ALL_INTERRUPTS_MASK,
        forall|i: int| 0 <= i < NUM_INTERRUPTS ==> crate::intc::source_matches_table(#[trigger] final(p4).intc.sources[i], i),
        final(p4).regs == old(p4).regs,
        final(p4).tmu == old(p4).tmu,
        final(p4).rio == old(p4).rio,
        final(p4).irl_priority == old(p4).irl_priority,
        final(p4).qacr0_base == old(p4).qacr0_base,
        final(p4).qacr1_base == old(p4).qacr1_base,
{
    let pv = PriorityValues {
        ipra: p4.regs[MOD_INTC * 32 + 1],
        iprb: p4.regs[MOD_INTC * 32 + 2],
        iprc: p4.regs[MOD_INTC * 32 + 3],
        irl: p4.irl_priority,
    };
    p4.intc.init(&pv);
}

/// The pending mask after a timer channel's underflow: its interrupt is
/// requested when UNIE is set in its control register.
pub open spec fn raise_if(pending: u32, ch: int, unie: bool) -> u32 {
    if unie { with_bit(pending, (10 + ch) as u32, true) } else { pending }
}

impl P4State {
    /// Enables channel `ch`'s underflow interrupt when its TCR has UNIE set,
    /// otherwise disables it and withdraws any request.
    pub fn tmu_update_interrupt_mask(&mut self, ch: usize)
        requires
            old(self).wf(),
            ch < 3,
        ensures
            final(self).wf(),
            old(self).tcr(ch as int) & TMU_UNIE != 0 ==> final(self).intc.enabled == with_bit(old(self).intc.enabled, (10 + ch) as u32, true)
                && final(self).intc.pending == old(self).intc.pending,
            old(self).tcr(ch as int) & TMU_UNIE == 0 ==> final(self).intc.enabled == with_bit(old(self).intc.enabled, (10 + ch) as u32, false)
                && final(self).intc.pending == with_bit(old(self).intc.pending, (10 + ch) as u32, false),
            final(self).intc.sources == old(self).intc.sources,
            final(self).intc.order == old(self).intc.order,
            final(self).regs == old(self).regs,
            final(self).tmu == old(self).tmu,
            final(self).rio == old(self).rio,
            final(self).irl_priority == old(self).irl_priority,
            final(self).qacr0_base == old(self).qacr0_base,
            final(self).qacr1_base == old(self).qacr1_base,
    {
        let tcr = self.tmu_get_tcr(ch);
        let id = tmu_interrupt_id(ch);
        if (tcr & TMU_UNIE) != 0 {
            intc_enable_interrupt(&mut self.intc, id);
        } else {
            intc_disable_interrupt(&mut self.intc, id);
            intc_clear_interrupt(&mut self.intc, id);
        }
    }

    /// A counter underflow on channel `ch`: UNF is set, the interrupt is
    /// requested when enabled, and the counter reloads from TCOR.
    pub fn tmu_handle_underflow(&mut self, ch: usize)
        requires
            old(self).wf(),
            ch < 3,
        ensures
            final(self).wf(),
            final(self).regs@ == old(self).regs@.update(tcr_slot(ch as int), (old(self).tcr(ch as int) | TMU_UNDERFLOW) as u32)
                .update(tcnt_slot(ch as int), old(self).tcor(ch as int)),
            final(self).intc.pending == raise_if(old(self).intc.pending, ch as int, old(self).tcr(ch as int) & TMU_UNIE != 0),
            final(self).intc.enabled == old(self).intc.enabled,
            final(self).intc.sources == old(self).intc.sources,
            final(self).intc.order == old(self).intc.order,
            final(self).tmu.channels@ == old(self).tmu.channels@.update(ch as int, TmuChannelRuntime {
                accum: 0,
                prescale: old(self).tmu.channels[ch as int].prescale,
                running: old(self).tmu.channels[ch as int].running,
            }),
            final(self).rio == old(self).rio,
            final(self).irl_priority == old(self).irl_priority,
            final(self).qacr0_base == old(self).qacr0_base,
            final(self).qacr1_base == old(self).qacr1_base,
    {
        let mut tcr = self.tmu_get_tcr(ch);
        let tcr0 = tcr;
        let unie0 = tcr & TMU_UNIE != 0;
        tcr = tcr | TMU_UNDERFLOW;
        proof { lemma_u16_flag_bit8(tcr0); }
        self.tmu_store_tcr(ch, tcr);
        if (tcr & TMU_UNIE) != 0 {
            intc_raise_interrupt(&mut self.intc, tmu_interrupt_id(ch));
        }
        let reload = self.tmu_get_tcor(ch);
        self.tmu_set_tcnt(ch, reload);
        let mut c = self.tmu.channels[ch];
        c.accum = 0;
        self.tmu.channels.set(ch, c);
    }
}

/// The cycles accumulated by a channel after `cycles` more, saturating.
pub open spec fn tmu_accum_total(c: TmuChannelRuntime, cycles: u32) -> u32 {
    if c.accum + cycles > u32::MAX { u32::MAX } else { (c.accum + cycles) as u32 }
}

/// Whether a channel counts at all.
pub open spec fn tmu_active(c: TmuChannelRuntime) -> bool {
    c.running && c.prescale != 0
}

/// The register file after `k` counts of channel `ch`, starting from `regs`.
pub open spec fn tmu_regs_after(regs: Seq<u32>, ch: int, tcr0: u16, c0: u32, reload: u32, k: nat) -> Seq<u32> {
    let cnt = tmu_count_after(c0, reload, k);
    if k > c0 {
        regs.update(tcr_slot(ch), (tcr0 | TMU_UNDERFLOW) as u32).update(tcnt_slot(ch), cnt)
    } else {
        regs.update(tcnt_slot(ch), cnt)
    }
}

/// Channel `ch` of the timer unit advanced by `cycles` CPU cycles from `o`
/// to `n`: the counter counts once per `prescale` accumulated cycles,
/// reloading from TCOR after reaching zero; an underflow sets UNF, requests
/// the interrupt when UNIE is set and discards the accumulated remainder.
/// A stopped channel changes nothing.
pub open spec fn channel_stepped(o: P4State, n: P4State, ch: int, cycles: u32) -> bool {
    &&& (n.rio == o.rio)
    &&& (n.irl_priority == o.irl_priority)
    &&& (n.qacr0_base == o.qacr0_base)
    &&& (n.qacr1_base == o.qacr1_base)
    &&& (n.intc.enabled == o.intc.enabled)
    &&& (n.intc.sources == o.intc.sources)
    &&& (n.intc.order == o.intc.order)
    &&& (!tmu_active(o.tmu.channels[ch]) ==> {
        &&& n.regs == o.regs
        &&& n.tmu.channels == o.tmu.channels
        &&& n.intc.pending == o.intc.pending
    })
    &&& (tmu_active(o.tmu.channels[ch]) ==> {
        let c = o.tmu.channels[ch];
        let total = tmu_accum_total(c, cycles);
        let k = (total / c.prescale) as nat;
        let uf = k > o.tcnt(ch);
        &&& n.regs@ == tmu_regs_after(o.regs@, ch, o.tcr(ch),
                o.tcnt(ch), o.tcor(ch), k)
        &&& n.tmu.channels@ == o.tmu.channels@.update(ch, TmuChannelRuntime {
                accum: if uf { 0 } else { total % c.prescale },
                prescale: c.prescale,
                running: c.running,
            })
        &&& n.intc.pending == (if uf {
                raise_if(o.intc.pending, ch, o.tcr(ch) & TMU_UNIE != 0)
            } else {
                o.intc.pending
            })
    })
}

/// The three timer channels advanced one after the other by `cycles`
/// CPU cycles; no cycles change nothing.
pub open spec fn timers_stepped(o: P4State, n: P4State, cycles: u32) -> bool {
    if cycles == 0 {
        n == o
    } else {
        exists|a: P4State, b: P4State|
            #![trigger channel_stepped(o, a, 0, cycles), channel_stepped(b, n, 2, cycles)]
            channel_stepped(o, a, 0, cycles) && channel_stepped(a, b, 1, cycles) && channel_stepped(b, n, 2, cycles)
    }
}

impl P4State {
    /// Advances channel `ch` by `cycles` CPU cycles: the counter counts once
    /// per `prescale` accumulated cycles, reloading from TCOR after reaching
    /// zero; an underflow sets UNF, requests the interrupt when UNIE is set
    /// and discards the accumulated remainder.
    pub fn tmu_step_channel(&mut self, ch: usize, cycles: u32)
        requires
            old(self).wf(),
            ch < 3,
        ensures
            final(self).wf(),
            channel_stepped(*old(self), *final(self), ch as int, cycles),
    {
        let c = self.tmu.channels[ch];
        if !c.running {
            return;
        }
        let prescale = c.prescale;
        if prescale == 0 {
            return;
        }
        let total = c.accum.saturating_add(cycles);
        let mut steps = total / prescale;
        let mut cc = c;
        cc.accum = total % prescale;
        self.tmu.channels.set(ch, cc);

        let ghost c0 = old(self).tcnt(ch as int);
        let ghost reload = old(self).tcor(ch as int);
        let ghost tcr0 = old(self).tcr(ch as int);
        let ghost unie = tcr0 & TMU_UNIE != 0;
        let ghost k_total = steps as nat;
        proof {
            assert(old(self).regs@.update(tcnt_slot(ch as int), c0) =~= old(self).regs@);
        }
        while steps > 0
            invariant
                self.wf(),
                old(self).wf(),
                ch < 3,
                steps <= k_total,
                prescale == c.prescale,
                c == old(self).tmu.channels[ch as int],
                total == tmu_accum_total(c, cycles),
                k_total == total / prescale,
                c0 == old(self).tcnt(ch as int),
                reload == old(self).tcor(ch as int),
                tcr0 == old(self).tcr(ch as int),
                unie == (tcr0 & TMU_UNIE != 0),
                self.regs@ == tmu_regs_after(old(self).regs@, ch as int, tcr0, c0, reload, (k_total - steps) as nat),
                self.tmu.channels@ == old(self).tmu.channels@.update(ch as int, TmuChannelRuntime {
                    accum: if (k_total - steps) > c0 { 0 } else { total % prescale },
                    prescale: c.prescale,
                    running: c.running,
                }),
                self.intc.pending == (if (k_total - steps) > c0 { raise_if(old(self).intc.pending, ch as int, unie) } else { old(self).intc.pending }),
                self.intc.enabled == old(self).intc.enabled,
                self.intc.sources == old(self).intc.sources,
                self.intc.order == old(self).intc.order,
                self.rio == old(self).rio,
                self.irl_priority == old(self).irl_priority,
                self.qacr0_base == old(self).qacr0_base,
                self.qacr1_base == old(self).qacr1_base,
            decreases steps,
        {
            let ghost k = (k_total - steps) as nat;
            proof {
                let tt = TmuChannelRuntime {
                    accum: if (k_total - steps) > c0 { 0 } else { total % prescale },
                    prescale: c.prescale,
                    running: c.running,
                };
                vstd::seq::axiom_seq_update_same(old(self).tmu.channels@, ch as int, tt);
                lemma_tmu_count_step(c0, reload, k);
                assert(self.tcnt(ch as int) == tmu_count_after(c0, reload, k));
                if k > c0 {
                    assert(self.tcr(ch as int) == tcr0 | TMU_UNDERFLOW) by {
                        let t = tcr0;
                        lemma_u16_flag_bit8(t);
                    }
                } else {
                    assert(self.tcr(ch as int) == tcr0);
                }
            }
            let current = self.tmu_get_tcnt(ch);
            if current == 0 {
                proof {
                    assert(k >= c0);
                    let t = tcr0;
                    lemma_u16_flag_bit8(t);
                    let p = old(self).intc.pending;
                    let b = (10 + ch) as u32;
                    assert(with_bit(with_bit(p, b, true), b, true) == with_bit(p, b, true)) by {
                        lemma_bit_idempotent(p, b);
                    }
                }
                self.tmu_handle_underflow(ch);
                proof {
                    assert(self.regs@ =~= tmu_regs_after(old(self).regs@, ch as int, tcr0, c0, reload, k + 1));
                    assert(self.tmu.channels@ =~= old(self).tmu.channels@.update(ch as int, TmuChannelRuntime {
                        accum: 0,
                        prescale: c.prescale,
                        running: c.running,
                    }));
                }
            } else {
                self.tmu_set_tcnt(ch, current - 1);
                proof {
                    assert(k + 1 > c0 <==> k > c0);
                    assert(self.regs@ =~= tmu_regs_after(old(self).regs@, ch as int, tcr0, c0, reload, k + 1));
                }
            }
            steps = steps - 1;
        }
    }

    /// Advances the three timer channels by `cycles` CPU cycles.
    pub fn tmu_step(&mut self, cycles: u32)
        requires
            old(self).wf(),
        ensures
            final(self).wf(),
            timers_stepped(*old(self), *final(self), cycles),
    {
        if cycles == 0 {
            return;
        }
        let ghost s0 = *self;
        self.tmu_step_channel(0, cycles);
        let ghost s1 = *self;
        self.tmu_step_channel(1, cycles);
        let ghost s2 = *self;
        self.tmu_step_channel(2, cycles);
        assert(channel_stepped(s0, s1, 0, cycles) && channel_stepped(s1, s2, 1, cycles)
            && channel_stepped(s2, *self, 2, cycles));
    }
}

/// `data` truncated to an access of `size` bytes.
pub open spec fn truncate_to(data: u32, size: u8) -> u32 {
    if size == 1 { data % 0x100 } else if size == 2 { data % 0x1_0000 } else { data }
}

fn truncate_exec(data: u32, size: u8) -> (r: u32)
    ensures
        r == truncate_to(data, size),
{
    if size == 1 {
        let r = data & 0xFF;
        proof { lemma_mask_u32(data); }
        r
    } else if size == 2 {
        let r = data & 0xFFFF;
        proof { lemma_mask_u32(data); }
        r
    } else {
        data
    }
}

/// The value of port A data: a video cable of type 3 answers on bits 9..8,
/// and the low bits follow the port A control and data registers.
pub open spec fn spec_bsc_pdtra(pctra: u32, pdtra: u32) -> u32 {
    let c = pctra % 16;
    let d = (pdtra % 0x1_0000) % 16;
    let t: u32 = if c == 8 || c == 0xB { 3 } else if c == 0xC && d == 2 { 3 } else { 0 };
    let t2: u32 = if c == 0xB && d == 2 { 0 } else { t };
    t2 | (3u32 << 8)
}

/// The cable type reported on port A.
pub fn dreamcast_cable_setting() -> (c: u32)
    ensures
        c == 3,
{
    3
}

/// The area number of a QACR value, shifted to a store queue address base.
pub open spec fn qacr_base(v: u32) -> u32 {
    ((v >> 2) & 7) << 26
}

/// The slots of the two QACR registers.
pub open spec fn qacr_slot(idx: int) -> int {
    14 + idx
}

/// Whether `slot` is TCNT of some channel, and which.
pub open spec fn is_tcnt_slot(s: int) -> bool {
    s == tcnt_slot(0) || s == tcnt_slot(1) || s == tcnt_slot(2)
}

/// Whether `slot` is TCR of some channel.
pub open spec fn is_tcr_slot(s: int) -> bool {
    s == tcr_slot(0) || s == tcr_slot(1) || s == tcr_slot(2)
}

/// The timer channel of a TCNT slot.
pub fn tmu_channel_from_tcnt_ctx(slot: usize) -> (ch: usize)
    requires
        is_tcnt_slot(slot as int),
    ensures
        ch < 3,
        tcnt_slot(ch as int) == slot,
{
    (slot - (MOD_TMU * 32 + 3)) / 3
}

/// The timer channel of a TCR slot.
pub fn tmu_channel_from_tcr_ctx(slot: usize) -> (ch: usize)
    requires
        is_tcr_slot(slot as int),
    ensures
        ch < 3,
        tcr_slot(ch as int) == slot,
{
    (slot - (MOD_TMU * 32 + 4)) / 3
}

/// The value that a register answers, for the registers that can be read.
pub open spec fn spec_register_value(p: P4State, reg: P4Register) -> u32 {
    match reg.read {
        P4Read::Data => p.regs[reg.slot as int],
        P4Read::IntcIprd => 0,
        P4Read::CcnPrr => 0,
        P4Read::ScifStatus => (p.regs[reg.slot as int] % 0x1_0000) | 0x60,
        P4Read::BscPdtra => spec_bsc_pdtra(p.regs[slot(MOD_BSC, 0x2C) as int], p.regs[slot(MOD_BSC, 0x30) as int]),
        _ => 0,
    }
}

/// Whether a register can be read.
pub open spec fn readable(reg: P4Register) -> bool {
    reg.read != P4Read::Unreachable && reg.read != P4Read::DramCfg
}

/// Whether a register accepts writes.
pub open spec fn writable(reg: P4Register) -> bool {
    reg.write != P4Write::Unreachable
}

/// The fields that a register write leaves alone, apart from those named.
pub open spec fn same_except_regs(a: P4State, b: P4State) -> bool {
    &&& a.rio == b.rio
    &&& a.irl_priority == b.irl_priority
    &&& a.tmu == b.tmu
    &&& a.intc == b.intc
    &&& a.qacr0_base == b.qacr0_base
    &&& a.qacr1_base == b.qacr1_base
}

/// The effect of writing `data` with an access of `size` bytes to `reg`.
pub open spec fn register_written(o: P4State, n: P4State, reg: P4Register, size: u8, data: u32) -> bool {
    let s = reg.slot as int;
    match reg.write {
        P4Write::Unreachable | P4Write::DramCfg | P4Write::ReadOnly => n == o,
        P4Write::Data => same_except_regs(o, n) && n.regs@ == o.regs@.update(s, truncate_to(data, size)),
        P4Write::CcnCcr => same_except_regs(o, n) && n.regs@ == o.regs@.update(s, data & !0x300u32),
        P4Write::CcnQacr => {
            &&& n.regs@ == o.regs@.update(s, data)
            &&& (s == qacr_slot(0) ==> n.qacr0_base == qacr_base(data) && n.qacr1_base == o.qacr1_base)
            &&& (s == qacr_slot(1) ==> n.qacr1_base == qacr_base(data) && n.qacr0_base == o.qacr0_base)
            &&& n.rio == o.rio && n.irl_priority == o.irl_priority && n.tmu == o.tmu && n.intc == o.intc
        },
        P4Write::IntcIpr => {
            if o.regs[s] == data % 0x1_0000 {
                n == o
            } else {
                &&& n.regs@ == o.regs@.update(s, data % 0x1_0000)
                &&& n.intc_current()
                &&& crate::intc::stable_sort_of(&n.intc, o.intc.order@)
                &&& n.intc.pending == o.intc.pending && n.intc.enabled == o.intc.enabled
                &&& n.rio == o.rio && n.irl_priority == o.irl_priority && n.tmu == o.tmu
                &&& n.qacr0_base == o.qacr0_base && n.qacr1_base == o.qacr1_base
            }
        },
        P4Write::TmuTstr => {
            &&& n.regs@ == o.regs@.update(tstr_slot(), data & 7)
            &&& forall|ch: int| 0 <= ch < 3 ==> #[trigger] n.tmu.channels[ch] == (TmuChannelRuntime {
                    accum: 0,
                    prescale: o.tmu.channels[ch].prescale,
                    running: (data & 7) & (1u32 << ch as u32) != 0,
                })
            &&& n.intc == o.intc && n.rio == o.rio && n.irl_priority == o.irl_priority
            &&& n.qacr0_base == o.qacr0_base && n.qacr1_base == o.qacr1_base
        },
        P4Write::TmuTcnt => {
            let ch = (s - tcnt_slot(0)) / 3;
            &&& n.regs@ == o.regs@.update(s, data).update(tcr_slot(ch), (o.tcr(ch) & !TMU_UNDERFLOW) as u32)
            &&& n.intc.pending == with_bit(o.intc.pending, (10 + ch) as u32, false)
            &&& n.intc.enabled == o.intc.enabled && n.intc.sources == o.intc.sources && n.intc.order == o.intc.order
            &&& n.tmu.channels@ == o.tmu.channels@.update(ch, TmuChannelRuntime {
                    accum: 0,
                    prescale: o.tmu.channels[ch].prescale,
                    running: o.tmu.channels[ch].running,
                })
            &&& n.rio == o.rio && n.irl_priority == o.irl_priority
            &&& n.qacr0_base == o.qacr0_base && n.qacr1_base == o.qacr1_base
        },
        P4Write::TmuTcr => {
            let ch = (s - tcr_slot(0)) / 3;
            let v = (data % 0x1_0000) as u16 & 0x03FF;
            &&& n.regs@ == o.regs@.update(s, v as u32)
            &&& n.tmu.channels@ == o.tmu.channels@.update(ch, TmuChannelRuntime {
                    accum: 0,
                    prescale: spec_prescale(v),
                    running: o.tmu.channels[ch].running,
                })
            &&& n.intc.enabled == with_bit(o.intc.enabled, (10 + ch) as u32, v & TMU_UNIE != 0)
            &&& (v & TMU_UNIE == 0 || v & TMU_UNDERFLOW == 0 ==> n.intc.pending == with_bit(o.intc.pending, (10 + ch) as u32, false))
            &&& (v & TMU_UNIE != 0 && v & TMU_UNDERFLOW != 0 ==> n.intc.pending == o.intc.pending)
            &&& n.intc.sources == o.intc.sources && n.intc.order == o.intc.order
            &&& n.rio == o.rio && n.irl_priority == o.irl_priority
            &&& n.qacr0_base == o.qacr0_base && n.qacr1_base == o.qacr1_base
        },
    }
}

/// The table entries are consistent with the register kinds that `p4_init`
/// installs: timer counters and controls sit in their slots, and QACR
/// writes in theirs.
pub open spec fn rio_consistent(p: P4State) -> bool {
    forall|i: int| 0 <= i < NUM_SLOTS ==> {
        &&& (#[trigger] p.rio[i]).write == P4Write::TmuTcnt ==> is_tcnt_slot(p.rio[i].slot as int)
        &&& p.rio[i].write == P4Write::TmuTcr ==> is_tcr_slot(p.rio[i].slot as int)
        &&& p.rio[i].write == P4Write::CcnQacr ==> (p.rio[i].slot == qacr_slot(0) || p.rio[i].slot == qacr_slot(1))
        &&& p.rio[i].write == P4Write::IntcIpr ==> (p.rio[i].slot == MOD_INTC * 32 + 1
                || p.rio[i].slot == MOD_INTC * 32 + 2 || p.rio[i].slot == MOD_INTC * 32 + 3)
    }
}

impl P4State {
    /// Port A data.
    pub fn read_bsc_pdtra(&self) -> (v: u32)
        requires
            self.wf(),
        ensures
            v == spec_bsc_pdtra(self.regs[slot(MOD_BSC, 0x2C) as int], self.regs[slot(MOD_BSC, 0x30) as int]),
    {
        let pctra = self.regs[MOD_BSC * 32 + 11];
        let pdtra = self.regs[MOD_BSC * 32 + 12] & 0xFFFF;
        let c = pctra & 0xF;
        let d = pdtra & 0xF;
        proof { lemma_mask_u32(pctra); }
        assert(pdtra == self.regs[MOD_BSC * 32 + 12] % 0x1_0000 && d == pdtra % 16) by {
            lemma_mask_u32(self.regs[MOD_BSC * 32 + 12]);
            lemma_mask_u32(pdtra);
        }
        let mut tfinal: u32 = if c == 0x8 || c == 0xB {
            3
        } else if c == 0xC && d == 2 {
            3
        } else {
            0
        };
        if c == 0xB && d == 2 {
            tfinal = 0;
        }
        tfinal | (dreamcast_cable_setting() << 8)
    }

    /// The value that a readable register answers.
    pub fn read_register(&self, reg: P4Register) -> (v: u32)
        requires
            self.wf(),
            reg.slot < NUM_SLOTS,
            readable(reg),
        ensures
            v == spec_register_value(*self, reg),
    {
        match reg.read {
            P4Read::Data => self.regs[reg.slot],
            P4Read::IntcIprd => 0,
            P4Read::CcnPrr => 0,
            P4Read::ScifStatus => {
                let x = self.regs[reg.slot];
                let st = x & 0xFFFF;
                proof { lemma_mask_u32(x); }
                st | 0x60
            },
            P4Read::BscPdtra => self.read_bsc_pdtra(),
            _ => 0,
        }
    }

    /// Writes `data` with an access of `size` bytes to a writable register.
    pub fn write_register(&mut self, reg: P4Register, size: u8, data: u32)
        requires
            old(self).wf(),
            reg.slot < NUM_SLOTS,
            reg.write == P4Write::TmuTcnt ==> is_tcnt_slot(reg.slot as int),
            reg.write == P4Write::TmuTcr ==> is_tcr_slot(reg.slot as int),
            reg.write == P4Write::CcnQacr ==> (reg.slot == qacr_slot(0) || reg.slot == qacr_slot(1)),
            reg.write == P4Write::IntcIpr ==> (reg.slot == MOD_INTC * 32 + 1 || reg.slot == MOD_INTC * 32 + 2
                || reg.slot == MOD_INTC * 32 + 3),
        ensures
            final(self).wf(),
            register_written(*old(self), *final(self), reg, size, data),
    {
        match reg.write {
            P4Write::Unreachable | P4Write::DramCfg | P4Write::ReadOnly => {},
            P4Write::Data => {
                let v = truncate_exec(data, size);
                self.regs.set(reg.slot, v);
            },
            P4Write::CcnCcr => {
                self.regs.set(reg.slot, data & !0x300u32);
            },
            P4Write::CcnQacr => {
                self.regs.set(reg.slot, data);
                let base = ((data >> 2) & 7) << 26;
                if reg.slot == 14 {
                    self.qacr0_base = base;
                } else {
                    self.qacr1_base = base;
                }
            },
            P4Write::IntcIpr => {
                let value = data & 0xFFFF;
                proof { lemma_mask_u32(data); }
                if self.regs[reg.slot] != value {
                    self.regs.set(reg.slot, value);
                    intc_priorities_changed(self);
                }
            },
            P4Write::TmuTstr => {
                let v = data & 0x07;
                proof { lemma_low3(data); }
                self.tmu_set_tstr(v as u8);
                self.tmu_update_running_from_tstr();
            },
            P4Write::TmuTcnt => {
                let ch = tmu_channel_from_tcnt_ctx(reg.slot);
                self.tmu_set_tcnt(ch, data);
                let mut tcr = self.tmu_get_tcr(ch);
                tcr = tcr & !TMU_UNDERFLOW;
                self.tmu_store_tcr(ch, tcr);
                intc_clear_interrupt(&mut self.intc, tmu_interrupt_id(ch));
                let mut c = self.tmu.channels[ch];
                c.accum = 0;
                self.tmu.channels.set(ch, c);
                proof {
                    assert(self.tmu.channels@ =~= old(self).tmu.channels@.update(ch as int, TmuChannelRuntime {
                        accum: 0,
                        prescale: old(self).tmu.channels[ch as int].prescale,
                        running: old(self).tmu.channels[ch as int].running,
                    }));
                }
            },
            P4Write::TmuTcr => {
                let ch = tmu_channel_from_tcr_ctx(reg.slot);
                let d16 = data & 0xFFFF;
                proof { lemma_mask_u32(data); }
                let value = (d16 as u16) & 0x03FF;
                self.tmu_store_tcr(ch, value);
                assert(self.tcr(ch as int) == value) by {
                    lemma_mask_u16(value);
                }
                self.tmu_update_prescale(ch);
                self.tmu_update_interrupt_mask(ch);
                if (value & TMU_UNDERFLOW) == 0 {
                    intc_clear_interrupt(&mut self.intc, tmu_interrupt_id(ch));
                }
                proof {
                    let p = old(self).intc.pending;
                    let b = (10 + ch) as u32;
                    lemma_bit_idempotent(p, b);
                }
            },
        }
    }
}

/// The register table that `p4_init` installs, by slot.
pub open spec fn rio_table(i: int) -> P4Register {
    if i < 0 { unreachable_reg() }
    else if i == 192 { P4Register { read: P4Read::Data, write: P4Write::Data, size: 2, slot: 192 } }
    else if i == 193 { P4Register { read: P4Read::Data, write: P4Write::IntcIpr, size: 2, slot: 193 } }
    else if i == 194 { P4Register { read: P4Read::Data, write: P4Write::IntcIpr, size: 2, slot: 194 } }
    else if i == 195 { P4Register { read: P4Read::Data, write: P4Write::IntcIpr, size: 2, slot: 195 } }
    else if i == 196 { P4Register { read: P4Read::IntcIprd, write: P4Write::ReadOnly, size: 2, slot: 196 } }
    else if i == 160 { P4Register { read: P4Read::Data, write: P4Write::Data, size: 1, slot: 160 } }
    else if i == 161 { P4Register { read: P4Read::Data, write: P4Write::Data, size: 1, slot: 161 } }
    else if i == 162 { P4Register { read: P4Read::Data, write: P4Write::Data, size: 1, slot: 162 } }
    else if i == 163 { P4Register { read: P4Read::Data, write: P4Write::Data, size: 1, slot: 163 } }
    else if i == 164 { P4Register { read: P4Read::Data, write: P4Write::Data, size: 1, slot: 164 } }
    else if i == 165 { P4Register { read: P4Read::Data, write: P4Write::Data, size: 1, slot: 165 } }
    else if i == 166 { P4Register { read: P4Read::Data, write: P4Write::Data, size: 1, slot: 166 } }
    else if i == 167 { P4Register { read: P4Read::Data, write: P4Write::Data, size: 2, slot: 167 } }
    else if i == 168 { P4Register { read: P4Read::Data, write: P4Write::Data, size: 1, slot: 168 } }
    else if i == 169 { P4Register { read: P4Read::Data, write: P4Write::Data, size: 1, slot: 169 } }
    else if i == 170 { P4Register { read: P4Read::Data, write: P4Write::Data, size: 1, slot: 170 } }
    else if i == 171 { P4Register { read: P4Read::Data, write: P4Write::Data, size: 1, slot: 171 } }
    else if i == 172 { P4Register { read: P4Read::Data, write: P4Write::Data, size: 1, slot: 172 } }
    else if i == 173 { P4Register { read: P4Read::Data, write: P4Write::Data, size: 1, slot: 173 } }
    else if i == 174 { P4Register { read: P4Read::Data, write: P4Write::Data, size: 1, slot: 174 } }
    else if i == 175 { P4Register { read: P4Read::Data, write: P4Write::Data, size: 1, slot: 175 } }
    else if i == 64 { P4Register { read: P4Read::Data, write: P4Write::Data, size: 4, slot: 64 } }
    else if i == 65 { P4Register { read: P4Read::Data, write: P4Write::Data, size: 2, slot: 65 } }
    else if i == 66 { P4Register { read: P4Read::Data, write: P4Write::Data, size: 4, slot: 66 } }
    else if i == 67 { P4Register { read: P4Read::Data, write: P4Write::Data, size: 4, slot: 67 } }
    else if i == 68 { P4Register { read: P4Read::Data, write: P4Write::Data, size: 4, slot: 68 } }
    else if i == 69 { P4Register { read: P4Read::Data, write: P4Write::Data, size: 4, slot: 69 } }
    else if i == 70 { P4Register { read: P4Read::Data, write: P4Write::Data, size: 2, slot: 70 } }
    else if i == 71 { P4Register { read: P4Read::Data, write: P4Write::Data, size: 2, slot: 71 } }
    else if i == 72 { P4Register { read: P4Read::Data, write: P4Write::Data, size: 2, slot: 72 } }
    else if i == 73 { P4Register { read: P4Read::Data, write: P4Write::Data, size: 2, slot: 73 } }
    else if i == 74 { P4Register { read: P4Read::Data, write: P4Write::Data, size: 2, slot: 74 } }
    else if i == 75 { P4Register { read: P4Read::Data, write: P4Write::Data, size: 4, slot: 75 } }
    else if i == 76 { P4Register { read: P4Read::BscPdtra, write: P4Write::Data, size: 2, slot: 76 } }
    else if i == 80 { P4Register { read: P4Read::Data, write: P4Write::Data, size: 4, slot: 80 } }
    else if i == 81 { P4Register { read: P4Read::Data, write: P4Write::Data, size: 2, slot: 81 } }
    else if i == 82 { P4Register { read: P4Read::Data, write: P4Write::Data, size: 2, slot: 82 } }
    else if i == 32 { P4Register { read: P4Read::Data, write: P4Write::Data, size: 4, slot: 32 } }
    else if i == 33 { P4Register { read: P4Read::Data, write: P4Write::Data, size: 1, slot: 33 } }
    else if i == 34 { P4Register { read: P4Read::Data, write: P4Write::Data, size: 2, slot: 34 } }
    else if i == 35 { P4Register { read: P4Read::Data, write: P4Write::Data, size: 4, slot: 35 } }
    else if i == 36 { P4Register { read: P4Read::Data, write: P4Write::Data, size: 1, slot: 36 } }
    else if i == 37 { P4Register { read: P4Read::Data, write: P4Write::Data, size: 2, slot: 37 } }
    else if i == 38 { P4Register { read: P4Read::Data, write: P4Write::Data, size: 4, slot: 38 } }
    else if i == 39 { P4Register { read: P4Read::Data, write: P4Write::Data, size: 4, slot: 39 } }
    else if i == 40 { P4Register { read: P4Read::Data, write: P4Write::Data, size: 2, slot: 40 } }
    else if i == 288 { P4Register { read: P4Read::Data, write: P4Write::Data, size: 2, slot: 288 } }
    else if i == 289 { P4Register { read: P4Read::Data, write: P4Write::Data, size: 1, slot: 289 } }
    else if i == 290 { P4Register { read: P4Read::Data, write: P4Write::Data, size: 2, slot: 290 } }
    else if i == 291 { P4Register { read: P4Read::Data, write: P4Write::Data, size: 1, slot: 291 } }
    else if i == 292 { P4Register { read: P4Read::ScifStatus, write: P4Write::Data, size: 2, slot: 292 } }
    else if i == 293 { P4Register { read: P4Read::Data, write: P4Write::ReadOnly, size: 1, slot: 293 } }
    else if i == 294 { P4Register { read: P4Read::Data, write: P4Write::Data, size: 2, slot: 294 } }
    else if i == 295 { P4Register { read: P4Read::Data, write: P4Write::ReadOnly, size: 2, slot: 295 } }
    else if i == 296 { P4Register { read: P4Read::Data, write: P4Write::Data, size: 2, slot: 296 } }
    else if i == 297 { P4Register { read: P4Read::Data, write: P4Write::Data, size: 2, slot: 297 } }
    else if i == 224 { P4Register { read: P4Read::Data, write: P4Write::Data, size: 1, slot: 224 } }
    else if i == 225 { P4Register { read: P4Read::Data, write: P4Write::TmuTstr, size: 1, slot: 225 } }
    else if i == 226 { P4Register { read: P4Read::Data, write: P4Write::Data, size: 4, slot: 226 } }
    else if i == 227 { P4Register { read: P4Read::Data, write: P4Write::TmuTcnt, size: 4, slot: 227 } }
    else if i == 228 { P4Register { read: P4Read::Data, write: P4Write::TmuTcr, size: 2, slot: 228 } }
    else if i == 229 { P4Register { read: P4Read::Data, write: P4Write::Data, size: 4, slot: 229 } }
    else if i == 230 { P4Register { read: P4Read::Data, write: P4Write::TmuTcnt, size: 4, slot: 230 } }
    else if i == 231 { P4Register { read: P4Read::Data, write: P4Write::TmuTcr, size: 2, slot: 231 } }
    else if i == 232 { P4Register { read: P4Read::Data, write: P4Write::Data, size: 4, slot: 232 } }
    else if i == 233 { P4Register { read: P4Read::Data, write: P4Write::TmuTcnt, size: 4, slot: 233 } }
    else if i == 234 { P4Register { read: P4Read::Data, write: P4Write::TmuTcr, size: 2, slot: 234 } }
    else if i == 235 { P4Register { read: P4Read::Data, write: P4Write::Data, size: 4, slot: 235 } }
    else if i == 96 { P4Register { read: P4Read::Data, write: P4Write::Data, size: 4, slot: 96 } }
    else if i == 97 { P4Register { read: P4Read::Data, write: P4Write::Data, size: 4, slot: 97 } }
    else if i == 98 { P4Register { read: P4Read::Data, write: P4Write::Data, size: 4, slot: 98 } }
    else if i == 99 { P4Register { read: P4Read::Data, write: P4Write::Data, size: 4, slot: 99 } }
    else if i == 100 { P4Register { read: P4Read::Data, write: P4Write::Data, size: 4, slot: 100 } }
    else if i == 101 { P4Register { read: P4Read::Data, write: P4Write::Data, size: 4, slot: 101 } }
    else if i == 102 { P4Register { read: P4Read::Data, write: P4Write::Data, size: 4, slot: 102 } }
    else if i == 103 { P4Register { read: P4Read::Data, write: P4Write::Data, size: 4, slot: 103 } }
    else if i == 104 { P4Register { read: P4Read::Data, write: P4Write::Data, size: 4, slot: 104 } }
    else if i == 105 { P4Register { read: P4Read::Data, write: P4Write::Data, size: 4, slot: 105 } }
    else if i == 106 { P4Register { read: P4Read::Data, write: P4Write::Data, size: 4, slot: 106 } }
    else if i == 107 { P4Register { read: P4Read::Data, write: P4Write::Data, size: 4, slot: 107 } }
    else if i == 108 { P4Register { read: P4Read::Data, write: P4Write::Data, size: 4, slot: 108 } }
    else if i == 109 { P4Register { read: P4Read::Data, write: P4Write::Data, size: 4, slot: 109 } }
    else if i == 110 { P4Register { read: P4Read::Data, write: P4Write::Data, size: 4, slot: 110 } }
    else if i == 111 { P4Register { read: P4Read::Data, write: P4Write::Data, size: 4, slot: 111 } }
    else if i == 112 { P4Register { read: P4Read::Data, write: P4Write::Data, size: 4, slot: 112 } }
    else if i == 128 { P4Register { read: P4Read::Data, write: P4Write::Data, size: 2, slot: 128 } }
    else if i == 129 { P4Register { read: P4Read::Data, write: P4Write::Data, size: 1, slot: 129 } }
    else if i == 130 { P4Register { read: P4Read::Data, write: P4Write::Data, size: 2, slot: 130 } }
    else if i == 131 { P4Register { read: P4Read::Data, write: P4Write::Data, size: 2, slot: 131 } }
    else if i == 132 { P4Register { read: P4Read::Data, write: P4Write::Data, size: 1, slot: 132 } }
    else if i == 0 { P4Register { read: P4Read::Data, write: P4Write::Data, size: 4, slot: 0 } }
    else if i == 1 { P4Register { read: P4Read::Data, write: P4Write::Data, size: 4, slot: 1 } }
    else if i == 2 { P4Register { read: P4Read::Data, write: P4Write::Data, size: 4, slot: 2 } }
    else if i == 3 { P4Register { read: P4Read::Data, write: P4Write::Data, size: 4, slot: 3 } }
    else if i == 4 { P4Register { read: P4Read::Data, write: P4Write::Data, size: 4, slot: 4 } }
    else if i == 5 { P4Register { read: P4Read::Data, write: P4Write::Data, size: 1, slot: 5 } }
    else if i == 6 { P4Register { read: P4Read::Data, write: P4Write::Data, size: 1, slot: 6 } }
    else if i == 7 { P4Register { read: P4Read::Data, write: P4Write::CcnCcr, size: 4, slot: 7 } }
    else if i == 8 { P4Register { read: P4Read::Data, write: P4Write::Data, size: 4, slot: 8 } }
    else if i == 9 { P4Register { read: P4Read::Data, write: P4Write::Data, size: 4, slot: 9 } }
    else if i == 10 { P4Register { read: P4Read::Data, write: P4Write::Data, size: 4, slot: 10 } }
    else if i == 12 { P4Register { read: P4Read::Data, write: P4Write::ReadOnly, size: 4, slot: 12 } }
    else if i == 13 { P4Register { read: P4Read::Data, write: P4Write::Data, size: 4, slot: 13 } }
    else if i == 14 { P4Register { read: P4Read::Data, write: P4Write::CcnQacr, size: 4, slot: 14 } }
    else if i == 15 { P4Register { read: P4Read::Data, write: P4Write::CcnQacr, size: 4, slot: 15 } }
    else if i == 17 { P4Register { read: P4Read::CcnPrr, write: P4Write::ReadOnly, size: 4, slot: 17 } }
    else { unreachable_reg() }
}

/// The entry of the register table at slot `i`.
pub fn rio_entry(i: usize) -> (r: P4Register)
    ensures
        r == rio_table(i as int),
{
    if i >= NUM_SLOTS {
        P4Register { read: P4Read::Unreachable, write: P4Write::Unreachable, size: 0, slot: 0 }
    } else if i == 192 {
        P4Register { read: P4Read::Data, write: P4Write::Data, size: 2, slot: 192 }
    } else if i == 193 {
        P4Register { read: P4Read::Data, write: P4Write::IntcIpr, size: 2, slot: 193 }
    } else if i == 194 {
        P4Register { read: P4Read::Data, write: P4Write::IntcIpr, size: 2, slot: 194 }
    } else if i == 195 {
        P4Register { read: P4Read::Data, write: P4Write::IntcIpr, size: 2, slot: 195 }
    } else if i == 196 {
        P4Register { read: P4Read::IntcIprd, write: P4Write::ReadOnly, size: 2, slot: 196 }
    } else if i == 160 {
        P4Register { read: P4Read::Data, write: P4Write::Data, size: 1, slot: 160 }
    } else if i == 161 {
        P4Register { read: P4Read::Data, write: P4Write::Data, size: 1, slot: 161 }
    } else if i == 162 {
        P4Register { read: P4Read::Data, write: P4Write::Data, size: 1, slot: 162 }
    } else if i == 163 {
        P4Register { read: P4Read::Data, write: P4Write::Data, size: 1, slot: 163 }
    } else if i == 164 {
        P4Register { read: P4Read::Data, write: P4Write::Data, size: 1, slot: 164 }
    } else if i == 165 {
        P4Register { read: P4Read::Data, write: P4Write::Data, size: 1, slot: 165 }
    } else if i == 166 {
        P4Register { read: P4Read::Data, write: P4Write::Data, size: 1, slot: 166 }
    } else if i == 167 {
        P4Register { read: P4Read::Data, write: P4Write::Data, size: 2, slot: 167 }
    } else if i == 168 {
        P4Register { read: P4Read::Data, write: P4Write::Data, size: 1, slot: 168 }
    } else if i == 169 {
        P4Register { read: P4Read::Data, write: P4Write::Data, size: 1, slot: 169 }
    } else if i == 170 {
        P4Register { read: P4Read::Data, write: P4Write::Data, size: 1, slot: 170 }
    } else if i == 171 {
        P4Register { read: P4Read::Data, write: P4Write::Data, size: 1, slot: 171 }
    } else if i == 172 {
        P4Register { read: P4Read::Data, write: P4Write::Data, size: 1, slot: 172 }
    } else if i == 173 {
        P4Register { read: P4Read::Data, write: P4Write::Data, size: 1, slot: 173 }
    } else if i == 174 {
        P4Register { read: P4Read::Data, write: P4Write::Data, size: 1, slot: 174 }
    } else if i == 175 {
        P4Register { read: P4Read::Data, write: P4Write::Data, size: 1, slot: 175 }
    } else if i == 64 {
        P4Register { read: P4Read::Data, write: P4Write::Data, size: 4, slot: 64 }
    } else if i == 65 {
        P4Register { read: P4Read::Data, write: P4Write::Data, size: 2, slot: 65 }
    } else if i == 66 {
        P4Register { read: P4Read::Data, write: P4Write::Data, size: 4, slot: 66 }
    } else if i == 67 {
        P4Register { read: P4Read::Data, write: P4Write::Data, size: 4, slot: 67 }
    } else if i == 68 {
        P4Register { read: P4Read::Data, write: P4Write::Data, size: 4, slot: 68 }
    } else if i == 69 {
        P4Register { read: P4Read::Data, write: P4Write::Data, size: 4, slot: 69 }
    } else if i == 70 {
        P4Register { read: P4Read::Data, write: P4Write::Data, size: 2, slot: 70 }
    } else if i == 71 {
        P4Register { read: P4Read::Data, write: P4Write::Data, size: 2, slot: 71 }
    } else if i == 72 {
        P4Register { read: P4Read::Data, write: P4Write::Data, size: 2, slot: 72 }
    } else if i == 73 {
        P4Register { read: P4Read::Data, write: P4Write::Data, size: 2, slot: 73 }
    } else if i == 74 {
        P4Register { read: P4Read::Data, write: P4Write::Data, size: 2, slot: 74 }
    } else if i == 75 {
        P4Register { read: P4Read::Data, write: P4Write::Data, size: 4, slot: 75 }
    } else if i == 76 {
        P4Register { read: P4Read::BscPdtra, write: P4Write::Data, size: 2, slot: 76 }
    } else if i == 80 {
        P4Register { read: P4Read::Data, write: P4Write::Data, size: 4, slot: 80 }
    } else if i == 81 {
        P4Register { read: P4Read::Data, write: P4Write::Data, size: 2, slot: 81 }
    } else if i == 82 {
        P4Register { read: P4Read::Data, write: P4Write::Data, size: 2, slot: 82 }
    } else if i == 32 {
        P4Register { read: P4Read::Data, write: P4Write::Data, size: 4, slot: 32 }
    } else if i == 33 {
        P4Register { read: P4Read::Data, write: P4Write::Data, size: 1, slot: 33 }
    } else if i == 34 {
        P4Register { read: P4Read::Data, write: P4Write::Data, size: 2, slot: 34 }
    } else if i == 35 {
        P4Register { read: P4Read::Data, write: P4Write::Data, size: 4, slot: 35 }
    } else if i == 36 {
        P4Register { read: P4Read::Data, write: P4Write::Data, size: 1, slot: 36 }
    } else if i == 37 {
        P4Register { read: P4Read::Data, write: P4Write::Data, size: 2, slot: 37 }
    } else if i == 38 {
        P4Register { read: P4Read::Data, write: P4Write::Data, size: 4, slot: 38 }
    } else if i == 39 {
        P4Register { read: P4Read::Data, write: P4Write::Data, size: 4, slot: 39 }
    } else if i == 40 {
        P4Register { read: P4Read::Data, write: P4Write::Data, size: 2, slot: 40 }
    } else if i == 288 {
        P4Register { read: P4Read::Data, write: P4Write::Data, size: 2, slot: 288 }
    } else if i == 289 {
        P4Register { read: P4Read::Data, write: P4Write::Data, size: 1, slot: 289 }
    } else if i == 290 {
        P4Register { read: P4Read::Data, write: P4Write::Data, size: 2, slot: 290 }
    } else if i == 291 {
        P4Register { read: P4Read::Data, write: P4Write::Data, size: 1, slot: 291 }
    } else if i == 292 {
        P4Register { read: P4Read::ScifStatus, write: P4Write::Data, size: 2, slot: 292 }
    } else if i == 293 {
        P4Register { read: P4Read::Data, write: P4Write::ReadOnly, size: 1, slot: 293 }
    } else if i == 294 {
        P4Register { read: P4Read::Data, write: P4Write::Data, size: 2, slot: 294 }
    } else if i == 295 {
        P4Register { read: P4Read::Data, write: P4Write::ReadOnly, size: 2, slot: 295 }
    } else if i == 296 {
        P4Register { read: P4Read::Data, write: P4Write::Data, size: 2, slot: 296 }
    } else if i == 297 {
        P4Register { read: P4Read::Data, write: P4Write::Data, size: 2, slot: 297 }
    } else if i == 224 {
        P4Register { read: P4Read::Data, write: P4Write::Data, size: 1, slot: 224 }
    } else if i == 225 {
        P4Register { read: P4Read::Data, write: P4Write::TmuTstr, size: 1, slot: 225 }
    } else if i == 226 {
        P4Register { read: P4Read::Data, write: P4Write::Data, size: 4, slot: 226 }
    } else if i == 227 {
        P4Register { read: P4Read::Data, write: P4Write::TmuTcnt, size: 4, slot: 227 }
    } else if i == 228 {
        P4Register { read: P4Read::Data, write: P4Write::TmuTcr, size: 2, slot: 228 }
    } else if i == 229 {
        P4Register { read: P4Read::Data, write: P4Write::Data, size: 4, slot: 229 }
    } else if i == 230 {
        P4Register { read: P4Read::Data, write: P4Write::TmuTcnt, size: 4, slot: 230 }
    } else if i == 231 {
        P4Register { read: P4Read::Data, write: P4Write::TmuTcr, size: 2, slot: 231 }
    } else if i == 232 {
        P4Register { read: P4Read::Data, write: P4Write::Data, size: 4, slot: 232 }
    } else if i == 233 {
        P4Register { read: P4Read::Data, write: P4Write::TmuTcnt, size: 4, slot: 233 }
    } else if i == 234 {
        P4Register { read: P4Read::Data, write: P4Write::TmuTcr, size: 2, slot: 234 }
    } else if i == 235 {
        P4Register { read: P4Read::Data, write: P4Write::Data, size: 4, slot: 235 }
    } else if i == 96 {
        P4Register { read: P4Read::Data, write: P4Write::Data, size: 4, slot: 96 }
    } else if i == 97 {
        P4Register { read: P4Read::Data, write: P4Write::Data, size: 4, slot: 97 }
    } else if i == 98 {
        P4Register { read: P4Read::Data, write: P4Write::Data, size: 4, slot: 98 }
    } else if i == 99 {
        P4Register { read: P4Read::Data, write: P4Write::Data, size: 4, slot: 99 }
    } else if i == 100 {
        P4Register { read: P4Read::Data, write: P4Write::Data, size: 4, slot: 100 }
    } else if i == 101 {
        P4Register { read: P4Read::Data, write: P4Write::Data, size: 4, slot: 101 }
    } else if i == 102 {
        P4Register { read: P4Read::Data, write: P4Write::Data, size: 4, slot: 102 }
    } else if i == 103 {
        P4Register { read: P4Read::Data, write: P4Write::Data, size: 4, slot: 103 }
    } else if i == 104 {
        P4Register { read: P4Read::Data, write: P4Write::Data, size: 4, slot: 104 }
    } else if i == 105 {
        P4Register { read: P4Read::Data, write: P4Write::Data, size: 4, slot: 105 }
    } else if i == 106 {
        P4Register { read: P4Read::Data, write: P4Write::Data, size: 4, slot: 106 }
    } else if i == 107 {
        P4Register { read: P4Read::Data, write: P4Write::Data, size: 4, slot: 107 }
    } else if i == 108 {
        P4Register { read: P4Read::Data, write: P4Write::Data, size: 4, slot: 108 }
    } else if i == 109 {
        P4Register { read: P4Read::Data, write: P4Write::Data, size: 4, slot: 109 }
    } else if i == 110 {
        P4Register { read: P4Read::Data, write: P4Write::Data, size: 4, slot: 110 }
    } else if i == 111 {
        P4Register { read: P4Read::Data, write: P4Write::Data, size: 4, slot: 111 }
    } else if i == 112 {
        P4Register { read: P4Read::Data, write: P4Write::Data, size: 4, slot: 112 }
    } else if i == 128 {
        P4Register { read: P4Read::Data, write: P4Write::Data, size: 2, slot: 128 }
    } else if i == 129 {
        P4Register { read: P4Read::Data, write: P4Write::Data, size: 1, slot: 129 }
    } else if i == 130 {
        P4Register { read: P4Read::Data, write: P4Write::Data, size: 2, slot: 130 }
    } else if i == 131 {
        P4Register { read: P4Read::Data, write: P4Write::Data, size: 2, slot: 131 }
    } else if i == 132 {
        P4Register { read: P4Read::Data, write: P4Write::Data, size: 1, slot: 132 }
    } else if i == 0 {
        P4Register { read: P4Read::Data, write: P4Write::Data, size: 4, slot: 0 }
    } else if i == 1 {
        P4Register { read: P4Read::Data, write: P4Write::Data, size: 4, slot: 1 }
    } else if i == 2 {
        P4Register { read: P4Read::Data, write: P4Write::Data, size: 4, slot: 2 }
    } else if i == 3 {
        P4Register { read: P4Read::Data, write: P4Write::Data, size: 4, slot: 3 }
    } else if i == 4 {
        P4Register { read: P4Read::Data, write: P4Write::Data, size: 4, slot: 4 }
    } else if i == 5 {
        P4Register { read: P4Read::Data, write: P4Write::Data, size: 1, slot: 5 }
    } else if i == 6 {
        P4Register { read: P4Read::Data, write: P4Write::Data, size: 1, slot: 6 }
    } else if i == 7 {
        P4Register { read: P4Read::Data, write: P4Write::CcnCcr, size: 4, slot: 7 }
    } else if i == 8 {
        P4Register { read: P4Read::Data, write: P4Write::Data, size: 4, slot: 8 }
    } else if i == 9 {
        P4Register { read: P4Read::Data, write: P4Write::Data, size: 4, slot: 9 }
    } else if i == 10 {
        P4Register { read: P4Read::Data, write: P4Write::Data, size: 4, slot: 10 }
    } else if i == 12 {
        P4Register { read: P4Read::Data, write: P4Write::ReadOnly, size: 4, slot: 12 }
    } else if i == 13 {
        P4Register { read: P4Read::Data, write: P4Write::Data, size: 4, slot: 13 }
    } else if i == 14 {
        P4Register { read: P4Read::Data, write: P4Write::CcnQacr, size: 4, slot: 14 }
    } else if i == 15 {
        P4Register { read: P4Read::Data, write: P4Write::CcnQacr, size: 4, slot: 15 }
    } else if i == 17 {
        P4Register { read: P4Read::CcnPrr, write: P4Write::ReadOnly, size: 4, slot: 17 }
    } else {
        P4Register { read: P4Read::Unreachable, write: P4Write::Unreachable, size: 0, slot: 0 }
    }
}

/// The reset value of each register that has one, by slot.
pub open spec fn default_reg_value(i: int) -> Option<u32> {
    if i < 0 { None }
    else if i == 0 { Some(0x0u32) }
    else if i == 1 { Some(0x0u32) }
    else if i == 2 { Some(0x0u32) }
    else if i == 3 { Some(0x0u32) }
    else if i == 4 { Some(0x0u32) }
    else if i == 5 { Some(0x0u32) }
    else if i == 6 { Some(0x0u32) }
    else if i == 7 { Some(0x0u32) }
    else if i == 8 { Some(0x0u32) }
    else if i == 9 { Some(0x0u32) }
    else if i == 10 { Some(0x0u32) }
    else if i == 12 { Some(0x40205c1u32) }
    else if i == 13 { Some(0x0u32) }
    else if i == 14 { Some(0x0u32) }
    else if i == 15 { Some(0x0u32) }
    else if i == 17 { Some(0x0u32) }
    else if i == 64 { Some(0x0u32) }
    else if i == 65 { Some(0x3ffcu32) }
    else if i == 66 { Some(0x77777777u32) }
    else if i == 67 { Some(0xfffeefffu32) }
    else if i == 68 { Some(0x7777777u32) }
    else if i == 69 { Some(0x0u32) }
    else if i == 70 { Some(0x0u32) }
    else if i == 71 { Some(0x0u32) }
    else if i == 72 { Some(0x0u32) }
    else if i == 73 { Some(0x0u32) }
    else if i == 74 { Some(0x0u32) }
    else if i == 75 { Some(0x0u32) }
    else if i == 76 { Some(0x0u32) }
    else if i == 80 { Some(0x0u32) }
    else if i == 81 { Some(0x0u32) }
    else if i == 82 { Some(0x0u32) }
    else if i == 112 { Some(0x0u32) }
    else if i == 128 { Some(0x0u32) }
    else if i == 129 { Some(0x0u32) }
    else if i == 130 { Some(0x0u32) }
    else if i == 131 { Some(0x0u32) }
    else if i == 132 { Some(0x0u32) }
    else if i == 174 { Some(0x0u32) }
    else if i == 175 { Some(0x0u32) }
    else if i == 192 { Some(0x0u32) }
    else if i == 193 { Some(0x0u32) }
    else if i == 194 { Some(0x0u32) }
    else if i == 195 { Some(0x0u32) }
    else if i == 196 { Some(0x0u32) }
    else if i == 224 { Some(0x0u32) }
    else if i == 225 { Some(0x0u32) }
    else if i == 226 { Some(0xffffffffu32) }
    else if i == 227 { Some(0xffffffffu32) }
    else if i == 228 { Some(0x0u32) }
    else if i == 229 { Some(0xffffffffu32) }
    else if i == 230 { Some(0xffffffffu32) }
    else if i == 231 { Some(0x0u32) }
    else if i == 232 { Some(0xffffffffu32) }
    else if i == 233 { Some(0xffffffffu32) }
    else if i == 234 { Some(0x0u32) }
    else if i == 235 { Some(0x0u32) }
    else { None }
}

/// The reset value of the register at slot `i`, if it has one.
pub fn default_reg_entry(i: usize) -> (r: Option<u32>)
    ensures
        r == default_reg_value(i as int),
{
    if i >= NUM_SLOTS {
        None
    } else if i == 0 {
        Some(0x0)
    } else if i == 1 {
        Some(0x0)
    } else if i == 2 {
        Some(0x0)
    } else if i == 3 {
        Some(0x0)
    } else if i == 4 {
        Some(0x0)
    } else if i == 5 {
        Some(0x0)
    } else if i == 6 {
        Some(0x0)
    } else if i == 7 {
        Some(0x0)
    } else if i == 8 {
        Some(0x0)
    } else if i == 9 {
        Some(0x0)
    } else if i == 10 {
        Some(0x0)
    } else if i == 12 {
        Some(0x40205c1)
    } else if i == 13 {
        Some(0x0)
    } else if i == 14 {
        Some(0x0)
    } else if i == 15 {
        Some(0x0)
    } else if i == 17 {
        Some(0x0)
    } else if i == 64 {
        Some(0x0)
    } else if i == 65 {
        Some(0x3ffc)
    } else if i == 66 {
        Some(0x77777777)
    } else if i == 67 {
        Some(0xfffeefff)
    } else if i == 68 {
        Some(0x7777777)
    } else if i == 69 {
        Some(0x0)
    } else if i == 70 {
        Some(0x0)
    } else if i == 71 {
        Some(0x0)
    } else if i == 72 {
        Some(0x0)
    } else if i == 73 {
        Some(0x0)
    } else if i == 74 {
        Some(0x0)
    } else if i == 75 {
        Some(0x0)
    } else if i == 76 {
        Some(0x0)
    } else if i == 80 {
        Some(0x0)
    } else if i == 81 {
        Some(0x0)
    } else if i == 82 {
        Some(0x0)
    } else if i == 112 {
        Some(0x0)
    } else if i == 128 {
        Some(0x0)
    } else if i == 129 {
        Some(0x0)
    } else if i == 130 {
        Some(0x0)
    } else if i == 131 {
        Some(0x0)
    } else if i == 132 {
        Some(0x0)
    } else if i == 174 {
        Some(0x0)
    } else if i == 175 {
        Some(0x0)
    } else if i == 192 {
        Some(0x0)
    } else if i == 193 {
        Some(0x0)
    } else if i == 194 {
        Some(0x0)
    } else if i == 195 {
        Some(0x0)
    } else if i == 196 {
        Some(0x0)
    } else if i == 224 {
        Some(0x0)
    } else if i == 225 {
        Some(0x0)
    } else if i == 226 {
        Some(0xffffffff)
    } else if i == 227 {
        Some(0xffffffff)
    } else if i == 228 {
        Some(0x0)
    } else if i == 229 {
        Some(0xffffffff)
    } else if i == 230 {
        Some(0xffffffff)
    } else if i == 231 {
        Some(0x0)
    } else if i == 232 {
        Some(0xffffffff)
    } else if i == 233 {
        Some(0xffffffff)
    } else if i == 234 {
        Some(0x0)
    } else if i == 235 {
        Some(0x0)
    } else {
        None
    }
}

impl P4State {
    /// Loads the reset values of the registers, stops the timers, and resets
    /// the interrupt controller.
    pub fn initialize_default_register_values(&mut self)
        requires
            old(self).wf(),
        ensures
            final(self).wf(),
            forall|i: int| 0 <= i < NUM_SLOTS ==> #[trigger] final(self).regs[i] == match default_reg_value(i) {
                Some(v) => v,
                None => old(self).regs[i],
            },
            forall|ch: int| 0 <= ch < 3 ==> #[trigger] final(self).tmu.channels[ch] == (TmuChannelRuntime {
                accum: 0,
                prescale: 4,
                running: false,
            }),
            final(self).intc_current(),
            crate::intc::stable_sort_of(&final(self).intc, crate::intc::identity_order()),
            forall|i: int| 0 <= i < NUM_INTERRUPTS ==> crate::intc::source_matches_table(#[trigger] final(self).intc.sources[i], i),
            final(self).intc.pending == 0,
            final(self).intc.enabled == crate::intc::ALL_INTERRUPTS_MASK,
            final(self).irl_priority == 0x0246,
            final(self).rio == old(self).rio,
            final(self).qacr0_base == old(self).qacr0_base,
            final(self).qacr1_base == old(self).qacr1_base,
    {
        let mut i: usize = 0;
        while i < NUM_SLOTS
            invariant
                i <= NUM_SLOTS,
                self.wf(),
                self.rio == old(self).rio,
                self.intc == old(self).intc,
                self.tmu == old(self).tmu,
                self.irl_priority == old(self).irl_priority,
                self.qacr0_base == old(self).qacr0_base,
                self.qacr1_base == old(self).qacr1_base,
                forall|j: int| 0 <= j < NUM_SLOTS ==> #[trigger] self.regs[j] == if j < i {
                    match default_reg_value(j) {
                        Some(v) => v,
                        None => old(self).regs[j],
                    }
                } else {
                    old(self).regs[j]
                },
            decreases NUM_SLOTS - i,
        {
            match default_reg_entry(i) {
                Some(v) => {
                    self.regs.set(i, v);
                },
                None => {},
            }
            i = i + 1;
        }
        let ghost regs_after = self.regs@;
        assert(self.regs[tstr_slot()] == 0);
        assert(self.regs[tcr_slot(0)] == 0);
        assert(self.regs[tcr_slot(1)] == 0);
        assert(self.regs[tcr_slot(2)] == 0);
        self.tmu_set_tstr(0);
        assert(self.regs@ =~= regs_after) by {
            lemma_low3(0);
        }
        let mut ch: usize = 0;
        while ch < 3
            invariant
                ch <= 3,
                self.wf(),
                self.rio == old(self).rio,
                self.regs@ == regs_after,
                self.irl_priority == old(self).irl_priority,
                self.qacr0_base == old(self).qacr0_base,
                self.qacr1_base == old(self).qacr1_base,
                forall|c: int| 0 <= c < ch ==> #[trigger] self.tmu.channels[c] == (TmuChannelRuntime {
                    accum: 0,
                    prescale: 4,
                    running: false,
                }),
                regs_after[tcr_slot(0)] == 0,
                regs_after[tcr_slot(1)] == 0,
                regs_after[tcr_slot(2)] == 0,
            decreases 3 - ch,
        {
            assert(self.tcr(ch as int) == 0);
            proof { lemma_u16_flag_bit8(0); }
            self.tmu_update_prescale(ch);
            self.tmu_update_interrupt_mask(ch);
            self.tmu_set_running(ch, false);
            ch = ch + 1;
        }
        self.irl_priority = 0x0246;
        intc_initialize(self);
    }

    /// Resets area 7: the reset values, and the register table.
    pub fn p4_init(&mut self)
        requires
            old(self).wf(),
        ensures
            final(self).wf(),
            rio_consistent(*final(self)),
            forall|i: int| 0 <= i < NUM_SLOTS ==> #[trigger] final(self).rio[i] == rio_table(i),
            forall|i: int| 0 <= i < NUM_SLOTS ==> #[trigger] final(self).regs[i] == match default_reg_value(i) {
                Some(v) => v,
                None => old(self).regs[i],
            },
            final(self).intc_current(),
            crate::intc::stable_sort_of(&final(self).intc, crate::intc::identity_order()),
            forall|i: int| 0 <= i < NUM_INTERRUPTS ==> crate::intc::source_matches_table(#[trigger] final(self).intc.sources[i], i),
            final(self).intc.pending == 0,
            final(self).intc.enabled == crate::intc::ALL_INTERRUPTS_MASK,
            final(self).irl_priority == 0x0246,
            forall|ch: int| 0 <= ch < 3 ==> #[trigger] final(self).tmu.channels[ch] == (TmuChannelRuntime {
                accum: 0,
                prescale: 4,
                running: false,
            }),
            final(self).qacr0_base == old(self).qacr0_base,
            final(self).qacr1_base == old(self).qacr1_base,
    {
        self.initialize_default_register_values();
        let ghost after_reset = *self;
        let mut i: usize = 0;
        while i < NUM_SLOTS
            invariant
                i <= NUM_SLOTS,
                self.wf(),
                self.intc_current(),
                self.intc == after_reset.intc,
                self.tmu == after_reset.tmu,
                self.irl_priority == after_reset.irl_priority,
                self.qacr0_base == after_reset.qacr0_base,
                self.qacr1_base == after_reset.qacr1_base,
                self.intc.pending == 0,
                forall|j: int| 0 <= j < NUM_SLOTS ==> #[trigger] self.regs[j] == match default_reg_value(j) {
                    Some(v) => v,
                    None => old(self).regs[j],
                },
                forall|j: int| 0 <= j < i ==> #[trigger] self.rio[j] == rio_table(j),
            decreases NUM_SLOTS - i,
        {
            let e = rio_entry(i);
            self.rio.set(i, e);
            i = i + 1;
        }
        assert(rio_consistent(*self)) by {
            assert forall|j: int| 0 <= j < NUM_SLOTS implies {
                &&& (#[trigger] self.rio[j]).write == P4Write::TmuTcnt ==> is_tcnt_slot(self.rio[j].slot as int)
                &&& self.rio[j].write == P4Write::TmuTcr ==> is_tcr_slot(self.rio[j].slot as int)
                &&& self.rio[j].write == P4Write::CcnQacr ==> (self.rio[j].slot == qacr_slot(0) || self.rio[j].slot == qacr_slot(1))
                &&& self.rio[j].write == P4Write::IntcIpr ==> (self.rio[j].slot == MOD_INTC * 32 + 1
                        || self.rio[j].slot == MOD_INTC * 32 + 2 || self.rio[j].slot == MOD_INTC * 32 + 3)
            } by {
                assert(self.rio[j] == rio_table(j));
            }
        }
    }
}

/// Area 7 after reset from an empty register file: the register table
/// installed, the registers at their reset values (zero where there is
/// none), the interrupt controller with the source table sorted stably by
/// priority from index order, nothing pending, every source enabled, the
/// timers stopped, and the store queue bases at zero.
pub open spec fn reset_state(p: P4State) -> bool {
    &&& forall|i: int| 0 <= i < NUM_SLOTS ==> #[trigger] p.rio[i] == rio_table(i)
    &&& forall|i: int| 0 <= i < NUM_SLOTS ==> #[trigger] p.regs[i] == match default_reg_value(i) {
        Some(v) => v,
        None => 0u32,
    }
    &&& p.intc_current()
    &&& forall|i: int| 0 <= i < NUM_INTERRUPTS ==> crate::intc::source_matches_table(#[trigger] p.intc.sources[i], i)
    &&& crate::intc::stable_sort_of(&p.intc, crate::intc::identity_order())
    &&& p.intc.pending == 0
    &&& p.intc.enabled == crate::intc::ALL_INTERRUPTS_MASK
    &&& p.irl_priority == 0x0246
    &&& forall|ch: int| 0 <= ch < 3 ==> #[trigger] p.tmu.channels[ch] == (TmuChannelRuntime {
        accum: 0,
        prescale: 4,
        running: false,
    })
    &&& p.qacr0_base == 0 && p.qacr1_base == 0
}

/// Within a register block that starts on a 256-byte boundary and spans at
/// most 0x48 bytes, the word index of an address is at most 18.
proof fn lemma_area7_index(a: u32, base: u32)
    by (bit_vector)
    requires
        base % 256 == 0,
        base <= a,
        a <= base + 0x48,
    ensures
        (a / 4) & 0x3F <= 18,
{
}

/// The register that answers an address is one of the table's entries,
/// or a fixed register of its own.
proof fn lemma_router_slot(p: P4State, addr: u32)
    requires
        p.wf(),
    ensures
        spec_router(p, addr).slot < NUM_SLOTS,
{
    let a = addr & 0x1FFF_FFFF;
    if 0x1F000000 <= a && a <= 0x1F000044 { lemma_area7_index(a, 0x1F000000u32); }
    else if 0x1F200000 <= a && a <= 0x1F200020 { lemma_area7_index(a, 0x1F200000u32); }
    else if 0x1F800000 <= a && a <= 0x1F800048 { lemma_area7_index(a, 0x1F800000u32); }
    else if 0x1FA00000 <= a && a <= 0x1FA00040 { lemma_area7_index(a, 0x1FA00000u32); }
    else if 0x1FC00000 <= a && a <= 0x1FC00010 { lemma_area7_index(a, 0x1FC00000u32); }
    else if 0x1FC80000 <= a && a <= 0x1FC8003C { lemma_area7_index(a, 0x1FC80000u32); }
    else if 0x1FD00000 <= a && a <= 0x1FD00010 { lemma_area7_index(a, 0x1FD00000u32); }
    else if 0x1FD80000 <= a && a <= 0x1FD8002C { lemma_area7_index(a, 0x1FD80000u32); }
    else if 0x1FE00000 <= a && a <= 0x1FE0001C { lemma_area7_index(a, 0x1FE00000u32); }
    else if 0x1FE80000 <= a && a <= 0x1FE80024 { lemma_area7_index(a, 0x1FE80000u32); }
}

/// A plain data register of area 7 reads back what was written to it: after
/// a write of `data` at its address and width (`o` and `n` related as the
/// contract of `p4_write` relates them), a read there gives the low 32 bits
/// of `data` cut to that width.
pub proof fn lemma_p4_data_read_back(o: P4State, n: P4State, size: u8, addr: u32, data: u64)
    requires
        o.wf(),
        (addr >> 24) == 0xFF,
        spec_router(o, addr).read == P4Read::Data,
        spec_router(o, addr).write == P4Write::Data,
        spec_router(o, addr).size == size,
        p4_written(o, n, size, addr, data),
    ensures
        spec_p4_read(n, size, addr) == Some(truncate_to((data % 0x1_0000_0000) as u32, size) as u64),
{
    lemma_router_slot(o, addr);
    let reg = spec_router(o, addr);
    let v = (data % 0x1_0000_0000) as u32;
    assert(n.rio == o.rio);
    assert(spec_router(n, addr) == reg);
    assert(n.regs@[reg.slot as int] == truncate_to(v, size));
    assert(truncate_to(truncate_to(v, size), size) == truncate_to(v, size));
}

/// The register that answers an area 7 address.
pub open spec fn spec_router(p: P4State, addr: u32) -> P4Register {
    let a = addr & 0x1FFF_FFFF;
    let idx = (a / 4) & 0x3F;
    if 0x1F000000 <= a && a <= 0x1F000044 {
        p.rio[(MOD_CCN * 32 + idx) as int]
    } else if 0x1F200000 <= a && a <= 0x1F200020 {
        p.rio[(MOD_UBC * 32 + idx) as int]
    } else if 0x1F800000 <= a && a <= 0x1F800048 {
        p.rio[(MOD_BSC * 32 + idx) as int]
    } else if 0x1F900000 <= a && a <= 0x1F90FFFF {
        dram_cfg_reg()
    } else if 0x1F940000 <= a && a <= 0x1F94FFFF {
        dram_cfg_reg()
    } else if 0x1FA00000 <= a && a <= 0x1FA00040 {
        p.rio[(MOD_DMAC * 32 + idx) as int]
    } else if 0x1FC00000 <= a && a <= 0x1FC00010 {
        p.rio[(MOD_CPG * 32 + idx) as int]
    } else if 0x1FC80000 <= a && a <= 0x1FC8003C {
        p.rio[(MOD_RTC * 32 + idx) as int]
    } else if 0x1FD00000 <= a && a <= 0x1FD00010 {
        p.rio[(MOD_INTC * 32 + idx) as int]
    } else if 0x1FD80000 <= a && a <= 0x1FD8002C {
        p.rio[(MOD_TMU * 32 + idx) as int]
    } else if 0x1FE00000 <= a && a <= 0x1FE0001C {
        p.rio[(MOD_SCI * 32 + idx) as int]
    } else if 0x1FE80000 <= a && a <= 0x1FE80024 {
        p.rio[(MOD_SCIF * 32 + idx) as int]
    } else {
        unreachable_reg()
    }
}

/// What a read of `size` bytes at `addr` in the P4 area gives: the other P4
/// areas read as zero; an area 7 register of that width gives its value,
/// and anything else is a fault (`None`).
pub open spec fn spec_p4_read(p: P4State, size: u8, addr: u32) -> Option<u64> {
    if (addr >> 24) != 0xFF {
        Some(0u64)
    } else {
        let reg = spec_router(p, addr);
        if reg.size == size && readable(reg) {
            Some(truncate_to(spec_register_value(p, reg), size) as u64)
        } else {
            None
        }
    }
}

/// Whether a write of `size` bytes at `addr` in the P4 area is taken.
pub open spec fn spec_p4_write_ok(p: P4State, size: u8, addr: u32) -> bool {
    (addr >> 24) != 0xFF || {
        let reg = spec_router(p, addr);
        writable(reg) && (reg.size == 0 || reg.size == size)
    }
}

/// How a write of `size` bytes of `data` at `addr` takes the P4 state from
/// `o` to `n`: other P4 areas ignore it, an area 7 register takes the low 32
/// bits of `data`, and a refused write changes nothing.
pub open spec fn p4_written(o: P4State, n: P4State, size: u8, addr: u32, data: u64) -> bool {
    if (addr >> 24) != 0xFF {
        n == o
    } else if spec_p4_write_ok(o, size, addr) {
        register_written(o, n, spec_router(o, addr), size, (data % 0x1_0000_0000) as u32)
    } else {
        n == o
    }
}

impl P4State {
    /// The register that answers an area 7 address.
    pub fn area7_router(&self, addr: u32) -> (r: P4Register)
        requires
            self.wf(),
        ensures
            r == spec_router(*self, addr),
            r.slot < NUM_SLOTS,
    {
        let a = addr & 0x1FFF_FFFF;
        let idx = (a / 4) & 0x3F;
        if 0x1F000000 <= a && a <= 0x1F000044 {
            proof { lemma_area7_index(a, 0x1F000000u32); }
            self.rio[MOD_CCN * 32 + idx as usize]
        } else if 0x1F200000 <= a && a <= 0x1F200020 {
            proof { lemma_area7_index(a, 0x1F200000u32); }
            self.rio[MOD_UBC * 32 + idx as usize]
        } else if 0x1F800000 <= a && a <= 0x1F800048 {
            proof { lemma_area7_index(a, 0x1F800000u32); }
            self.rio[MOD_BSC * 32 + idx as usize]
        } else if 0x1F900000 <= a && a <= 0x1F90FFFF {
            P4Register { read: P4Read::DramCfg, write: P4Write::DramCfg, size: 0, slot: 0 }
        } else if 0x1F940000 <= a && a <= 0x1F94FFFF {
            P4Register { read: P4Read::DramCfg, write: P4Write::DramCfg, size: 0, slot: 0 }
        } else if 0x1FA00000 <= a && a <= 0x1FA00040 {
            proof { lemma_area7_index(a, 0x1FA00000u32); }
            self.rio[MOD_DMAC * 32 + idx as usize]
        } else if 0x1FC00000 <= a && a <= 0x1FC00010 {
            proof { lemma_area7_index(a, 0x1FC00000u32); }
            self.rio[MOD_CPG * 32 + idx as usize]
        } else if 0x1FC80000 <= a && a <= 0x1FC8003C {
            proof { lemma_area7_index(a, 0x1FC80000u32); }
            self.rio[MOD_RTC * 32 + idx as usize]
        } else if 0x1FD00000 <= a && a <= 0x1FD00010 {
            proof { lemma_area7_index(a, 0x1FD00000u32); }
            self.rio[MOD_INTC * 32 + idx as usize]
        } else if 0x1FD80000 <= a && a <= 0x1FD8002C {
            proof { lemma_area7_index(a, 0x1FD80000u32); }
            self.rio[MOD_TMU * 32 + idx as usize]
        } else if 0x1FE00000 <= a && a <= 0x1FE0001C {
            proof { lemma_area7_index(a, 0x1FE00000u32); }
            self.rio[MOD_SCI * 32 + idx as usize]
        } else if 0x1FE80000 <= a && a <= 0x1FE80024 {
            proof { lemma_area7_index(a, 0x1FE80000u32); }
            self.rio[MOD_SCIF * 32 + idx as usize]
        } else {
            P4Register { read: P4Read::Unreachable, write: P4Write::Unreachable, size: 0, slot: 0 }
        }
    }

    /// Whether a read of `size` bytes at `addr` in the P4 area is answered:
    /// outside area 7 always; in area 7 only by a readable register of that
    /// width.
    pub fn p4_read_accepts(&self, size: u8, addr: u32) -> (ok: bool)
        requires
            self.wf(),
        ensures
            ok == spec_p4_read(*self, size, addr) is Some,
    {
        if addr >> 24 == 0xFF {
            let reg = self.area7_router(addr);
            reg.size == size && match reg.read {
                P4Read::Unreachable | P4Read::DramCfg => false,
                _ => true,
            }
        } else {
            true
        }
    }

    /// A read of `size` bytes (1, 2, 4 or 8) in the P4 area. Area 7 registers
    /// answer reads of their own width; the other P4 areas (store queues,
    /// caches, TLBs) read as zero. A read of another width, or of an area 7
    /// address where nothing answers, stops the machine, so it is left out:
    /// `p4_read_accepts` tells which reads are answered.
    pub fn p4_read(&self, size: u8, addr: u32) -> (r: u64)
        requires
            self.wf(),
            spec_p4_read(*self, size, addr) is Some,
        ensures
            spec_p4_read(*self, size, addr) == Some(r),
    {
        let area = addr >> 24;
        if area == 0xFF {
            let reg = self.area7_router(addr);
            let raw = self.read_register(reg);
            truncate_exec(raw, size) as u64
        } else {
            0
        }
    }

    /// Whether a write of `size` bytes at `addr` in the P4 area is taken:
    /// outside area 7 always; in area 7 by a writable register of that width
    /// (or of no fixed width).
    pub fn p4_write_accepts(&self, size: u8, addr: u32) -> (ok: bool)
        requires
            self.wf(),
        ensures
            ok == spec_p4_write_ok(*self, size, addr),
    {
        if addr >> 24 == 0xFF {
            let reg = self.area7_router(addr);
            (reg.size == 0 || reg.size == size) && reg.write != P4Write::Unreachable
        } else {
            true
        }
    }

    /// A write of `size` bytes in the P4 area. In area 7 the register takes
    /// the low 32 bits of `data`; writes to the other P4 areas are ignored.
    /// A width other than the register's, or an area 7 address where nothing
    /// answers, stops the machine, so it is left out: `p4_write_accepts`
    /// tells which writes are taken.
    pub fn p4_write(&mut self, size: u8, addr: u32, data: u64)
        requires
            old(self).wf(),
            rio_consistent(*old(self)),
            spec_p4_write_ok(*old(self), size, addr),
        ensures
            final(self).wf(),
            rio_consistent(*final(self)),
            p4_written(*old(self), *final(self), size, addr, data),
    {
        let area = addr >> 24;
        if area == 0xFF {
            let reg = self.area7_router(addr);
            let low = (data & 0xFFFF_FFFF) as u32;
            proof { lemma_mask_u64(data); }
            proof {
                let a = addr & 0x1FFF_FFFF;
                let idx = (a / 4) & 0x3F;
                lemma_mask_u32(a / 4);
            }
            assert(reg.write == P4Write::TmuTcnt ==> is_tcnt_slot(reg.slot as int));
            self.write_register(reg, size, low);
            proof {
                let o = *old(self);
                let n = *self;
                assert(n.rio == o.rio);
            }
        }
    }
}

/// The slot of DMAC channel `ch`'s register at offset `off` (SAR 0x0, DAR
/// 0x4, DMATCR 0x8, CHCR 0xC) within the channel's block.
pub open spec fn dmac_slot(ch: int, off: int) -> int {
    MOD_DMAC * SLOTS_PER_MODULE + 4 * ch + off / 4
}

impl P4State {
    /// The DMA operation register DMAOR.
    pub fn dmac_get_dmaor(&self) -> (v: u32)
        requires
            self.wf(),
        ensures
            v == self.regs[MOD_DMAC * SLOTS_PER_MODULE + 16],
    {
        self.regs[MOD_DMAC * SLOTS_PER_MODULE + 16]
    }

    /// The source address register of DMAC channel `channel`.
    pub fn dmac_get_sar(&self, channel: usize) -> (v: u32)
        requires
            self.wf(),
            channel < 4,
        ensures
            v == self.regs[dmac_slot(channel as int, 0x0)],
    {
        self.regs[MOD_DMAC * SLOTS_PER_MODULE + 4 * channel]
    }

    /// Sets the source address register of DMAC channel `channel`.
    pub fn dmac_set_sar(&mut self, channel: usize, value: u32)
        requires
            old(self).wf(),
            channel < 4,
        ensures
            final(self).wf(),
            final(self).regs@ == old(self).regs@.update(dmac_slot(channel as int, 0x0), value),
            same_except_regs(*old(self), *final(self)),
    {
        self.regs.set(MOD_DMAC * SLOTS_PER_MODULE + 4 * channel, value);
    }

    /// The channel control register of DMAC channel `channel`.
    pub fn dmac_get_chcr(&self, channel: usize) -> (v: u32)
        requires
            self.wf(),
            channel < 4,
        ensures
            v == self.regs[dmac_slot(channel as int, 0xC)],
    {
        self.regs[MOD_DMAC * SLOTS_PER_MODULE + 4 * channel + 3]
    }

    /// Sets the channel control register of DMAC channel `channel`.
    pub fn dmac_set_chcr(&mut self, channel: usize, value: u32)
        requires
            old(self).wf(),
            channel < 4,
        ensures
            final(self).wf(),
            final(self).regs@ == old(self).regs@.update(dmac_slot(channel as int, 0xC), value),
            same_except_regs(*old(self), *final(self)),
    {
        self.regs.set(MOD_DMAC * SLOTS_PER_MODULE + 4 * channel + 3, value);
    }

    /// Sets the transfer count register of DMAC channel `channel`.
    pub fn dmac_set_dmatcr(&mut self, channel: usize, value: u32)
        requires
            old(self).wf(),
            channel < 4,
        ensures
            final(self).wf(),
            final(self).regs@ == old(self).regs@.update(dmac_slot(channel as int, 0x8), value),
            same_except_regs(*old(self), *final(self)),
    {
        self.regs.set(MOD_DMAC * SLOTS_PER_MODULE + 4 * channel + 2, value);
    }
}

} // verus!
