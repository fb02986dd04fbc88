//! The SH-4 interrupt controller: 28 interrupt sources, each with a pending
//! and an enable bit and a priority taken from the IPR registers; sources are
//! kept in an order sorted by priority.

use vstd::prelude::*;

verus! {

/// The number of interrupt sources.
pub const NUM_INTERRUPTS: usize = 28;

/// The enable mask with every source enabled.
pub const ALL_INTERRUPTS_MASK: u32 = 0x0FFF_FFFF;

/// The register that holds a source's priority.
#[derive(Clone, Copy, PartialEq, Eq, Structural)]
pub enum PriorityRegister {
    Ipra,
    Iprb,
    Iprc,
    Irl,
}

/// The current values of the priority registers.
#[derive(Clone, Copy)]
pub struct PriorityValues {
    pub ipra: u32,
    pub iprb: u32,
    pub iprc: u32,
    pub irl: u32,
}

/// A four-bit field of a priority register.
#[derive(Clone, Copy)]
pub struct PriorityRef {
    pub register: PriorityRegister,
    pub nibble: u8,
}

/// The priority that a reference selects from the register values.
pub open spec fn spec_priority(r: PriorityRef, v: PriorityValues) -> u8 {
    let reg = match r.register {
        PriorityRegister::Ipra => v.ipra,
        PriorityRegister::Iprb => v.iprb,
        PriorityRegister::Iprc => v.iprc,
        PriorityRegister::Irl => v.irl,
    };
    ((reg >> (r.nibble as u32 * 4)) & 0xF) as u8
}

impl PriorityRef {
    /// A field of IPRA.
    pub fn ipra(nibble: u8) -> (r: Self)
        ensures
            r.register == PriorityRegister::Ipra,
            r.nibble == nibble,
    {
        Self { register: PriorityRegister::Ipra, nibble }
    }

    /// A field of IPRB.
    pub fn iprb(nibble: u8) -> (r: Self)
        ensures
            r.register == PriorityRegister::Iprb,
            r.nibble == nibble,
    {
        Self { register: PriorityRegister::Iprb, nibble }
    }

    /// A field of IPRC.
    pub fn iprc(nibble: u8) -> (r: Self)
        ensures
            r.register == PriorityRegister::Iprc,
            r.nibble == nibble,
    {
        Self { register: PriorityRegister::Iprc, nibble }
    }

    /// A field of the external IRL priority word.
    pub fn irl(nibble: u8) -> (r: Self)
        ensures
            r.register == PriorityRegister::Irl,
            r.nibble == nibble,
    {
        Self { register: PriorityRegister::Irl, nibble }
    }

    /// The priority that this field holds.
    pub fn read(&self, v: &PriorityValues) -> (p: u8)
        requires
            self.nibble < 8,
        ensures
            p == spec_priority(*self, *v),
            p < 16,
    {
        let reg = match self.register {
            PriorityRegister::Ipra => v.ipra,
            PriorityRegister::Iprb => v.iprb,
            PriorityRegister::Iprc => v.iprc,
            PriorityRegister::Irl => v.irl,
        };
        let sh = self.nibble as u32 * 4;
        let p = (reg >> sh) & 0xF;
        assert(p < 16) by (bit_vector)
            requires p == (reg >> sh) & 0xF;
        p as u8
    }
}

/// One interrupt source.
#[derive(Clone, Copy)]
pub struct InterruptSource {
    pub event_code: u32,
    pub priority_ref: PriorityRef,
    pub cached_priority: u8,
}

impl InterruptSource {
    /// A source with no event code.
    pub fn empty() -> (s: Self)
        ensures
            s.event_code == 0,
            s.priority_ref.register == PriorityRegister::Ipra,
            s.priority_ref.nibble == 0,
            s.cached_priority == 0,
    {
        Self { event_code: 0, priority_ref: PriorityRef::ipra(0), cached_priority: 0 }
    }

    /// A source with an event code and a priority field.
    pub fn new(event_code: u32, priority_ref: PriorityRef) -> (s: Self)
        ensures
            s.event_code == event_code,
            s.priority_ref == priority_ref,
            s.cached_priority == 0,
    {
        Self { event_code, priority_ref, cached_priority: 0 }
    }
}

/// An interrupt that the controller selected.
#[derive(Clone, Copy)]
pub struct InterruptEvent {
    pub index: usize,
    pub event_code: u32,
}

/// The interrupt sources of the SH-4, in the controller's index order.
#[derive(Clone, Copy, PartialEq, Eq, Structural)]
pub enum InterruptSourceId {
    Irl9,
    Irl11,
    Irl13,
    HudiUnderflow,
    Gpio,
    DmacDmte0,
    DmacDmte1,
    DmacDmte2,
    DmacDmte3,
    DmacDmae,
    Tmu0Underflow,
    Tmu1Underflow,
    Tmu2Underflow,
    Tmu2InputCapture,
    RtcAlarm,
    RtcPeriodic,
    RtcCarry,
    Sci1Eri,
    Sci1Rxi,
    Sci1Txi,
    Sci1Tei,
    ScifEri,
    ScifRxi,
    ScifBri,
    ScifTxi,
    WdtIti,
    RefRcmi,
    RefRovi,
}

/// The controller index of a source: its position in the list above.
pub open spec fn spec_source_index(s: InterruptSourceId) -> usize {
    match s {
        InterruptSourceId::Irl9 => 0,
        InterruptSourceId::Irl11 => 1,
        InterruptSourceId::Irl13 => 2,
        InterruptSourceId::HudiUnderflow => 3,
        InterruptSourceId::Gpio => 4,
        InterruptSourceId::DmacDmte0 => 5,
        InterruptSourceId::DmacDmte1 => 6,
        InterruptSourceId::DmacDmte2 => 7,
        InterruptSourceId::DmacDmte3 => 8,
        InterruptSourceId::DmacDmae => 9,
        InterruptSourceId::Tmu0Underflow => 10,
        InterruptSourceId::Tmu1Underflow => 11,
        InterruptSourceId::Tmu2Underflow => 12,
        InterruptSourceId::Tmu2InputCapture => 13,
        InterruptSourceId::RtcAlarm => 14,
        InterruptSourceId::RtcPeriodic => 15,
        InterruptSourceId::RtcCarry => 16,
        InterruptSourceId::Sci1Eri => 17,
        InterruptSourceId::Sci1Rxi => 18,
        InterruptSourceId::Sci1Txi => 19,
        InterruptSourceId::Sci1Tei => 20,
        InterruptSourceId::ScifEri => 21,
        InterruptSourceId::ScifRxi => 22,
        InterruptSourceId::ScifBri => 23,
        InterruptSourceId::ScifTxi => 24,
        InterruptSourceId::WdtIti => 25,
        InterruptSourceId::RefRcmi => 26,
        InterruptSourceId::RefRovi => 27,
    }
}

impl InterruptSourceId {
    /// The controller index of this source.
    pub fn index(self) -> (i: usize)
        ensures
            i == spec_source_index(self),
            i < NUM_INTERRUPTS,
    {
        match self {
            InterruptSourceId::Irl9 => 0,
            InterruptSourceId::Irl11 => 1,
            InterruptSourceId::Irl13 => 2,
            InterruptSourceId::HudiUnderflow => 3,
            InterruptSourceId::Gpio => 4,
            InterruptSourceId::DmacDmte0 => 5,
            InterruptSourceId::DmacDmte1 => 6,
            InterruptSourceId::DmacDmte2 => 7,
            InterruptSourceId::DmacDmte3 => 8,
            InterruptSourceId::DmacDmae => 9,
            InterruptSourceId::Tmu0Underflow => 10,
            InterruptSourceId::Tmu1Underflow => 11,
            InterruptSourceId::Tmu2Underflow => 12,
            InterruptSourceId::Tmu2InputCapture => 13,
            InterruptSourceId::RtcAlarm => 14,
            InterruptSourceId::RtcPeriodic => 15,
            InterruptSourceId::RtcCarry => 16,
            InterruptSourceId::Sci1Eri => 17,
            InterruptSourceId::Sci1Rxi => 18,
            InterruptSourceId::Sci1Txi => 19,
            InterruptSourceId::Sci1Tei => 20,
            InterruptSourceId::ScifEri => 21,
            InterruptSourceId::ScifRxi => 22,
            InterruptSourceId::ScifBri => 23,
            InterruptSourceId::ScifTxi => 24,
            InterruptSourceId::WdtIti => 25,
            InterruptSourceId::RefRcmi => 26,
            InterruptSourceId::RefRovi => 27,
        }
    }
}

/// The underflow interrupt of a TMU channel.
pub fn tmu_interrupt_id(ch: usize) -> (id: InterruptSourceId)
    requires
        ch < 3,
    ensures
        spec_source_index(id) == 10 + ch,
{
    if ch == 0 {
        InterruptSourceId::Tmu0Underflow
    } else if ch == 1 {
        InterruptSourceId::Tmu1Underflow
    } else {
        InterruptSourceId::Tmu2Underflow
    }
}

/// Whether bit `i` of `x` is set.
pub open spec fn has_bit(x: u32, i: int) -> bool {
    (x >> (i as u32)) & 1 == 1
}

/// The interrupt controller.
pub struct InterruptController {
    pub pending: u32,
    pub enabled: u32,
    pub sources: Vec<InterruptSource>,
    pub order: Vec<usize>,
}

impl InterruptController {
    /// Well-formedness: 28 sources whose priority fields lie in a 16-bit
    /// register, and `order` a permutation of the source indices.
    pub open spec fn wf(&self) -> bool {
        &&& self.sources.len() == NUM_INTERRUPTS
        &&& self.order.len() == NUM_INTERRUPTS
        &&& forall|i: int| 0 <= i < NUM_INTERRUPTS ==> #[trigger] self.sources[i].priority_ref.nibble < 4
        &&& is_permutation(self.order@)
    }

    /// The cached priority of the source at position `k` of the order.
    pub open spec fn prio_at(&self, k: int) -> u8 {
        self.sources[self.order[k] as int].cached_priority
    }

    /// The order is sorted by ascending cached priority.
    pub open spec fn sorted(&self) -> bool {
        forall|a: int, b: int| 0 <= a < b < NUM_INTERRUPTS ==> self.prio_at(a) <= self.prio_at(b)
    }

    /// Whether the source at index `idx` can be taken at mask level `mask`.
    pub open spec fn eligible(&self, idx: int, mask: u32) -> bool {
        &&& has_bit(self.pending, idx)
        &&& has_bit(self.enabled, idx)
        &&& self.sources[idx].cached_priority > mask
    }

    /// The position in `order`, at `k` or after, of the first source that can
    /// be taken at mask level `mask`.
    pub open spec fn first_eligible(&self, mask: u32, k: int) -> Option<int>
        decreases NUM_INTERRUPTS - k,
    {
        if k < 0 || k >= NUM_INTERRUPTS {
            None
        } else if self.eligible(self.order[k] as int, mask) {
            Some(k)
        } else {
            self.first_eligible(mask, k + 1)
        }
    }

    /// The interrupt to take under status register `sr`: none while BL is
    /// set, otherwise the first source in `order` that can be taken.
    pub open spec fn next_event_spec(&self, sr: crate::regs::SrStatus) -> Option<InterruptEvent> {
        if crate::regs::bit_of(sr.0, 28) {
            None
        } else {
            match self.first_eligible((sr.0 >> 4) & 0xF, 0) {
                Some(k) => Some(InterruptEvent {
                    index: self.order[k],
                    event_code: self.sources[self.order[k] as int].event_code,
                }),
                None => None,
            }
        }
    }

    /// A controller with nothing pending, everything enabled and empty sources.
    pub fn new() -> (c: Self)
        ensures
            c.pending == 0,
            c.enabled == ALL_INTERRUPTS_MASK,
            c.sources.len() == NUM_INTERRUPTS,
            c.order.len() == NUM_INTERRUPTS,
            forall|i: int| 0 <= i < NUM_INTERRUPTS ==> c.sources[i] == InterruptSource::empty_spec() && c.order[i] == 0,
    {
        let mut sources: Vec<InterruptSource> = Vec::new();
        let mut order: Vec<usize> = Vec::new();
        let mut i: usize = 0;
        while i < NUM_INTERRUPTS
            invariant
                i <= NUM_INTERRUPTS,
                sources.len() == i,
                order.len() == i,
                forall|j: int| 0 <= j < i ==> sources[j] == InterruptSource::empty_spec() && order[j] == 0,
            decreases NUM_INTERRUPTS - i,
        {
            sources.push(InterruptSource::empty());
            order.push(0);
            i = i + 1;
        }
        Self { pending: 0, enabled: ALL_INTERRUPTS_MASK, sources, order }
    }
}

impl InterruptSource {
    /// The value of `InterruptSource::empty()`.
    pub open spec fn empty_spec() -> Self {
        Self {
            event_code: 0,
            priority_ref: PriorityRef { register: PriorityRegister::Ipra, nibble: 0 },
            cached_priority: 0,
        }
    }
}

/// Sortedness depends only on the sources and the order.
pub proof fn lemma_sorted_same(a: &InterruptController, b: &InterruptController)
    requires
        a.sources@ == b.sources@,
        a.order@ == b.order@,
        a.sorted(),
    ensures
        b.sorted(),
{
    assert forall|x: int, y: int| 0 <= x < y < NUM_INTERRUPTS implies b.prio_at(x) <= b.prio_at(y) by {
        assert(a.prio_at(x) <= a.prio_at(y));
    }
}

/// `s` holds each of `0..s.len()` exactly once.
pub open spec fn is_permutation(s: Seq<usize>) -> bool {
    &&& forall|i: int| 0 <= i < s.len() ==> #[trigger] s[i] < s.len()
    &&& forall|i: int, j: int| 0 <= i < j < s.len() ==> s[i] != s[j]
}

/// The source indices in index order.
pub open spec fn identity_order() -> Seq<usize> {
    Seq::new(NUM_INTERRUPTS as nat, |k: int| k as usize)
}

/// `c.order` is `old` rearranged by `perm`: position `k` holds what
/// position `perm[k]` of `old` held, and sources of equal priority keep the
/// relative order they had in `old`.
pub open spec fn stably_reordered(c: &InterruptController, old: Seq<usize>, perm: Seq<int>) -> bool {
    &&& perm.len() == NUM_INTERRUPTS
    &&& forall|k: int| 0 <= k < NUM_INTERRUPTS ==> 0 <= #[trigger] perm[k] < NUM_INTERRUPTS && c.order@[k] == old[perm[k]]
    &&& forall|a: int, b: int| 0 <= a < b < NUM_INTERRUPTS && c.prio_at(a) == c.prio_at(b) ==> perm[a] < perm[b]
}

/// `c.order` is `old` rearranged so that sources of equal priority keep
/// their relative order (with `c.sorted()`, `old` sorted stably).
pub open spec fn stable_sort_of(c: &InterruptController, old: Seq<usize>) -> bool {
    exists|perm: Seq<int>| #[trigger] stably_reordered(c, old, perm)
}

/// A stable order depends only on the sources and the order.
pub proof fn lemma_stable_same(a: &InterruptController, b: &InterruptController, old: Seq<usize>)
    requires
        a.sources@ == b.sources@,
        a.order@ == b.order@,
        stable_sort_of(a, old),
    ensures
        stable_sort_of(b, old),
{
    let perm = choose|perm: Seq<int>| #[trigger] stably_reordered(a, old, perm);
    assert forall|x: int, y: int| 0 <= x < y < NUM_INTERRUPTS && b.prio_at(x) == b.prio_at(y) implies perm[x] < perm[y] by {
        assert(a.prio_at(x) == b.prio_at(x) && a.prio_at(y) == b.prio_at(y));
    }
    assert(stably_reordered(b, old, perm));
}

/// The event code and priority field of each source, in index order.
pub open spec fn source_table(i: int) -> (u32, PriorityRegister, u8) {
    if i == 0 { (0x0320, PriorityRegister::Irl, 0) }
    else if i == 1 { (0x0360, PriorityRegister::Irl, 1) }
    else if i == 2 { (0x03A0, PriorityRegister::Irl, 2) }
    else if i == 3 { (0x0600, PriorityRegister::Iprc, 0) }
    else if i == 4 { (0x0620, PriorityRegister::Iprc, 3) }
    else if i == 5 { (0x0640, PriorityRegister::Iprc, 2) }
    else if i == 6 { (0x0660, PriorityRegister::Iprc, 2) }
    else if i == 7 { (0x0680, PriorityRegister::Iprc, 2) }
    else if i == 8 { (0x06A0, PriorityRegister::Iprc, 2) }
    else if i == 9 { (0x06C0, PriorityRegister::Iprc, 2) }
    else if i == 10 { (0x0400, PriorityRegister::Ipra, 3) }
    else if i == 11 { (0x0420, PriorityRegister::Ipra, 2) }
    else if i == 12 { (0x0440, PriorityRegister::Ipra, 1) }
    else if i == 13 { (0x0460, PriorityRegister::Ipra, 1) }
    else if i == 14 { (0x0480, PriorityRegister::Ipra, 0) }
    else if i == 15 { (0x04A0, PriorityRegister::Ipra, 0) }
    else if i == 16 { (0x04C0, PriorityRegister::Ipra, 0) }
    else if i == 17 { (0x04E0, PriorityRegister::Iprb, 1) }
    else if i == 18 { (0x0500, PriorityRegister::Iprb, 1) }
    else if i == 19 { (0x0520, PriorityRegister::Iprb, 1) }
    else if i == 20 { (0x0540, PriorityRegister::Iprb, 1) }
    else if i == 21 { (0x0700, PriorityRegister::Iprc, 1) }
    else if i == 22 { (0x0720, PriorityRegister::Iprc, 1) }
    else if i == 23 { (0x0740, PriorityRegister::Iprc, 1) }
    else if i == 24 { (0x0760, PriorityRegister::Iprc, 1) }
    else if i == 25 { (0x0560, PriorityRegister::Iprb, 3) }
    else if i == 26 { (0x0580, PriorityRegister::Iprb, 2) }
    else { (0x05A0, PriorityRegister::Ipra, 2) }
}

/// The source whose event code is `c` (the inverse of the table's codes).
spec fn source_of_code(c: u32) -> int {
    if c == 0x0320 { 0 }
    else if c == 0x0360 { 1 }
    else if c == 0x03A0 { 2 }
    else if c == 0x0600 { 3 }
    else if c == 0x0620 { 4 }
    else if c == 0x0640 { 5 }
    else if c == 0x0660 { 6 }
    else if c == 0x0680 { 7 }
    else if c == 0x06A0 { 8 }
    else if c == 0x06C0 { 9 }
    else if c == 0x0400 { 10 }
    else if c == 0x0420 { 11 }
    else if c == 0x0440 { 12 }
    else if c == 0x0460 { 13 }
    else if c == 0x0480 { 14 }
    else if c == 0x04A0 { 15 }
    else if c == 0x04C0 { 16 }
    else if c == 0x04E0 { 17 }
    else if c == 0x0500 { 18 }
    else if c == 0x0520 { 19 }
    else if c == 0x0540 { 20 }
    else if c == 0x0700 { 21 }
    else if c == 0x0720 { 22 }
    else if c == 0x0740 { 23 }
    else if c == 0x0760 { 24 }
    else if c == 0x0560 { 25 }
    else if c == 0x0580 { 26 }
    else if c == 0x05A0 { 27 }
    else { -1 }
}

/// Each interrupt source has an event code of its own: no two of the 28
/// sources share an INTEVT code, and the underflow of timer channel `ch`
/// is reported as 0x400 + 0x20 * ch.
pub proof fn lemma_event_codes_distinct()
    ensures
        forall|i: int, j: int| 0 <= i < NUM_INTERRUPTS && 0 <= j < NUM_INTERRUPTS && i != j ==>
            #[trigger] source_table(i).0 != #[trigger] source_table(j).0,
        forall|ch: int| 0 <= ch < 3 ==> #[trigger] source_table(10 + ch).0 == 0x400 + 0x20 * ch,
{
    assert forall|i: int| 0 <= i < NUM_INTERRUPTS implies #[trigger] source_of_code(source_table(i).0) == i by {

        if i == 0 { assert(source_of_code(source_table(0).0) == 0); }
        else if i == 1 { assert(source_of_code(source_table(1).0) == 1); }
        else if i == 2 { assert(source_of_code(source_table(2).0) == 2); }
        else if i == 3 { assert(source_of_code(source_table(3).0) == 3); }
        else if i == 4 { assert(source_of_code(source_table(4).0) == 4); }
        else if i == 5 { assert(source_of_code(source_table(5).0) == 5); }
        else if i == 6 { assert(source_of_code(source_table(6).0) == 6); }
        else if i == 7 { assert(source_of_code(source_table(7).0) == 7); }
        else if i == 8 { assert(source_of_code(source_table(8).0) == 8); }
        else if i == 9 { assert(source_of_code(source_table(9).0) == 9); }
        else if i == 10 { assert(source_of_code(source_table(10).0) == 10); }
        else if i == 11 { assert(source_of_code(source_table(11).0) == 11); }
        else if i == 12 { assert(source_of_code(source_table(12).0) == 12); }
        else if i == 13 { assert(source_of_code(source_table(13).0) == 13); }
        else if i == 14 { assert(source_of_code(source_table(14).0) == 14); }
        else if i == 15 { assert(source_of_code(source_table(15).0) == 15); }
        else if i == 16 { assert(source_of_code(source_table(16).0) == 16); }
        else if i == 17 { assert(source_of_code(source_table(17).0) == 17); }
        else if i == 18 { assert(source_of_code(source_table(18).0) == 18); }
        else if i == 19 { assert(source_of_code(source_table(19).0) == 19); }
        else if i == 20 { assert(source_of_code(source_table(20).0) == 20); }
        else if i == 21 { assert(source_of_code(source_table(21).0) == 21); }
        else if i == 22 { assert(source_of_code(source_table(22).0) == 22); }
        else if i == 23 { assert(source_of_code(source_table(23).0) == 23); }
        else if i == 24 { assert(source_of_code(source_table(24).0) == 24); }
        else if i == 25 { assert(source_of_code(source_table(25).0) == 25); }
        else if i == 26 { assert(source_of_code(source_table(26).0) == 26); }
        else if i == 27 { assert(source_of_code(source_table(27).0) == 27); }
    }
    assert forall|i: int, j: int| 0 <= i < NUM_INTERRUPTS && 0 <= j < NUM_INTERRUPTS && i != j implies
        #[trigger] source_table(i).0 != #[trigger] source_table(j).0 by {
        assert(source_of_code(source_table(i).0) == i);
        assert(source_of_code(source_table(j).0) == j);
    }
}

/// Whether sources `lo`..`hi` (inclusive) form one module's block: event
/// codes 0x20 apart in index order, all with one priority field.
pub open spec fn module_block(lo: int, hi: int) -> bool {
    forall|i: int| lo <= i < hi ==> {
        &&& #[trigger] source_table(i + 1).0 == source_table(i).0 + 0x20
        &&& source_table(i + 1).1 == source_table(i).1
        &&& source_table(i + 1).2 == source_table(i).2
    }
}

/// The sources of each on-chip module form a block: the DMA controller
/// (5..9), the real-time clock (14..16), the serial interface (17..20) and
/// the serial interface with FIFO (21..24) each have consecutive event
/// codes and one priority field. The timer channels 0, 1 and 2 take their
/// priorities from IPRA fields 3, 2 and 1, and channel 2's two sources
/// share its field.
pub proof fn lemma_interrupt_modules()
    ensures
        module_block(5, 9),
        module_block(12, 13),
        module_block(14, 16),
        module_block(17, 20),
        module_block(21, 24),
        forall|ch: int| 0 <= ch < 3 ==> #[trigger] source_table(10 + ch).1 == PriorityRegister::Ipra
            && source_table(10 + ch).2 == 3 - ch,
{
}

/// Source `i` carries the event code and priority field of the table.
pub open spec fn source_matches_table(s: InterruptSource, i: int) -> bool {
    &&& s.event_code == source_table(i).0
    &&& s.priority_ref.register == source_table(i).1
    &&& s.priority_ref.nibble == source_table(i).2
}

fn make_source(i: usize) -> (s: InterruptSource)
    requires
        i < NUM_INTERRUPTS,
    ensures
        source_matches_table(s, i as int),
        s.cached_priority == 0,
{
    let (code, pr) = if i == 0 { (0x0320, PriorityRef::irl(0)) }
    else if i == 1 { (0x0360, PriorityRef::irl(1)) }
    else if i == 2 { (0x03A0, PriorityRef::irl(2)) }
    else if i == 3 { (0x0600, PriorityRef::iprc(0)) }
    else if i == 4 { (0x0620, PriorityRef::iprc(3)) }
    else if i == 5 { (0x0640, PriorityRef::iprc(2)) }
    else if i == 6 { (0x0660, PriorityRef::iprc(2)) }
    else if i == 7 { (0x0680, PriorityRef::iprc(2)) }
    else if i == 8 { (0x06A0, PriorityRef::iprc(2)) }
    else if i == 9 { (0x06C0, PriorityRef::iprc(2)) }
    else if i == 10 { (0x0400, PriorityRef::ipra(3)) }
    else if i == 11 { (0x0420, PriorityRef::ipra(2)) }
    else if i == 12 { (0x0440, PriorityRef::ipra(1)) }
    else if i == 13 { (0x0460, PriorityRef::ipra(1)) }
    else if i == 14 { (0x0480, PriorityRef::ipra(0)) }
    else if i == 15 { (0x04A0, PriorityRef::ipra(0)) }
    else if i == 16 { (0x04C0, PriorityRef::ipra(0)) }
    else if i == 17 { (0x04E0, PriorityRef::iprb(1)) }
    else if i == 18 { (0x0500, PriorityRef::iprb(1)) }
    else if i == 19 { (0x0520, PriorityRef::iprb(1)) }
    else if i == 20 { (0x0540, PriorityRef::iprb(1)) }
    else if i == 21 { (0x0700, PriorityRef::iprc(1)) }
    else if i == 22 { (0x0720, PriorityRef::iprc(1)) }
    else if i == 23 { (0x0740, PriorityRef::iprc(1)) }
    else if i == 24 { (0x0760, PriorityRef::iprc(1)) }
    else if i == 25 { (0x0560, PriorityRef::iprb(3)) }
    else if i == 26 { (0x0580, PriorityRef::iprb(2)) }
    else { (0x05A0, PriorityRef::ipra(2)) };
    InterruptSource::new(code, pr)
}

impl InterruptController {
    /// Installs the source table, the identity order, clears every pending
    /// request, enables every source and loads the priorities.
    pub fn init(&mut self, pv: &PriorityValues)
        ensures
            final(self).wf(),
            final(self).sorted(),
            stable_sort_of(final(self), identity_order()),
            final(self).pending == 0,
            final(self).enabled == ALL_INTERRUPTS_MASK,
            forall|i: int| 0 <= i < NUM_INTERRUPTS ==> {
                &&& source_matches_table(#[trigger] final(self).sources[i], i)
                &&& final(self).sources[i].cached_priority == spec_priority(final(self).sources[i].priority_ref, *pv)
            },
    {
        let mut sources: Vec<InterruptSource> = Vec::new();
        let mut order: Vec<usize> = Vec::new();
        let mut i: usize = 0;
        while i < NUM_INTERRUPTS
            invariant
                i <= NUM_INTERRUPTS,
                sources.len() == i,
                order.len() == i,
                forall|j: int| 0 <= j < i ==> source_matches_table(#[trigger] sources[j], j),
                forall|j: int| 0 <= j < i ==> #[trigger] order[j] == j,
            decreases NUM_INTERRUPTS - i,
        {
            sources.push(make_source(i));
            order.push(i);
            i = i + 1;
        }
        self.sources = sources;
        self.order = order;
        self.pending = 0;
        self.enabled = ALL_INTERRUPTS_MASK;
        assert(self.order@ =~= identity_order());
        assert(self.wf()) by {
            assert forall|j: int| 0 <= j < NUM_INTERRUPTS implies #[trigger] self.sources[j].priority_ref.nibble < 4 by {
                assert(source_matches_table(self.sources[j], j));
            }
            assert forall|j: int| 0 <= j < NUM_INTERRUPTS implies #[trigger] self.order@[j] < self.order@.len() by {
                assert(self.order[j] == j);
            }
            assert forall|a: int, b: int| 0 <= a < b < NUM_INTERRUPTS implies self.order@[a] != self.order@[b] by {
                assert(self.order[a] == a);
                assert(self.order[b] == b);
            }
        }
        self.update_priorities(pv);
    }

    /// Reloads every source's priority from the registers and re-sorts.
    pub fn update_priorities(&mut self, pv: &PriorityValues)
        requires
            old(self).wf(),
        ensures
            final(self).wf(),
            final(self).sorted(),
            stable_sort_of(final(self), old(self).order@),
            final(self).pending == old(self).pending,
            final(self).enabled == old(self).enabled,
            forall|i: int| 0 <= i < NUM_INTERRUPTS ==> {
                &&& (#[trigger] final(self).sources[i]).event_code == old(self).sources[i].event_code
                &&& final(self).sources[i].priority_ref == old(self).sources[i].priority_ref
                &&& final(self).sources[i].cached_priority == spec_priority(final(self).sources[i].priority_ref, *pv)
            },
    {
        let mut i: usize = 0;
        while i < NUM_INTERRUPTS
            invariant
                i <= NUM_INTERRUPTS,
                self.wf(),
                self.order == old(self).order,
                self.pending == old(self).pending,
                self.enabled == old(self).enabled,
                forall|j: int| 0 <= j < NUM_INTERRUPTS ==> {
                    &&& (#[trigger] self.sources[j]).event_code == old(self).sources[j].event_code
                    &&& self.sources[j].priority_ref == old(self).sources[j].priority_ref
                },
                forall|j: int| 0 <= j < i ==> (#[trigger] self.sources[j]).cached_priority == spec_priority(self.sources[j].priority_ref, *pv),
            decreases NUM_INTERRUPTS - i,
        {
            let mut src = self.sources[i];
            assert(src.priority_ref.nibble < 4);
            src.cached_priority = src.priority_ref.read(pv);
            self.sources.set(i, src);
            i = i + 1;
        }
        self.sort_sources();
    }

    /// Sorts `order` by ascending cached priority (a stable insertion sort).
    pub fn sort_sources(&mut self)
        requires
            old(self).wf(),
        ensures
            final(self).wf(),
            final(self).sorted(),
            stable_sort_of(final(self), old(self).order@),
            final(self).sources == old(self).sources,
            final(self).pending == old(self).pending,
            final(self).enabled == old(self).enabled,
    {
        let ghost p0 = self.order@;
        let ghost mut perm: Seq<int> = Seq::new(NUM_INTERRUPTS as nat, |k: int| k);
        let mut i: usize = 1;
        while i < NUM_INTERRUPTS
            invariant
                1 <= i <= NUM_INTERRUPTS,
                self.wf(),
                self.sources == old(self).sources,
                self.pending == old(self).pending,
                self.enabled == old(self).enabled,
                p0 == old(self).order@,
                forall|a: int, b: int| 0 <= a < b < i ==> self.prio_at(a) <= self.prio_at(b),
                perm.len() == NUM_INTERRUPTS,
                forall|k: int| 0 <= k < NUM_INTERRUPTS ==> 0 <= #[trigger] perm[k] < NUM_INTERRUPTS && self.order@[k] == p0[perm[k]],
                forall|k: int| i <= k < NUM_INTERRUPTS ==> #[trigger] perm[k] == k,
                forall|a: int| 0 <= a < i ==> #[trigger] perm[a] < i,
                forall|a: int, b: int| 0 <= a < b < i && self.prio_at(a) == self.prio_at(b) ==> perm[a] < perm[b],
            decreases NUM_INTERRUPTS - i,
        {
            let mut j: usize = i;
            while j > 0
                invariant
                    0 <= j <= i < NUM_INTERRUPTS,
                    self.wf(),
                    self.sources == old(self).sources,
                    self.pending == old(self).pending,
                    self.enabled == old(self).enabled,
                    p0 == old(self).order@,
                    forall|a: int, b: int| 0 <= a < b <= i && a != j && b != j ==> self.prio_at(a) <= self.prio_at(b),
                    forall|b: int| j < b <= i ==> self.prio_at(j as int) < self.prio_at(b),
                    perm.len() == NUM_INTERRUPTS,
                    forall|k: int| 0 <= k < NUM_INTERRUPTS ==> 0 <= #[trigger] perm[k] < NUM_INTERRUPTS && self.order@[k] == p0[perm[k]],
                    forall|k: int| i < k < NUM_INTERRUPTS ==> #[trigger] perm[k] == k,
                    perm[j as int] == i,
                    forall|a: int| 0 <= a <= i && a != j ==> #[trigger] perm[a] < i,
                    forall|a: int, b: int| 0 <= a < b <= i && a != j && b != j && self.prio_at(a) == self.prio_at(b) ==> perm[a] < perm[b],
                ensures
                    self.wf(),
                    self.sources == old(self).sources,
                    self.pending == old(self).pending,
                    self.enabled == old(self).enabled,
                    p0 == old(self).order@,
                    forall|a: int, b: int| 0 <= a < b <= i ==> self.prio_at(a) <= self.prio_at(b),
                    perm.len() == NUM_INTERRUPTS,
                    forall|k: int| 0 <= k < NUM_INTERRUPTS ==> 0 <= #[trigger] perm[k] < NUM_INTERRUPTS && self.order@[k] == p0[perm[k]],
                    forall|k: int| i < k < NUM_INTERRUPTS ==> #[trigger] perm[k] == k,
                    forall|a: int| 0 <= a <= i ==> #[trigger] perm[a] <= i,
                    forall|a: int, b: int| 0 <= a < b <= i && self.prio_at(a) == self.prio_at(b) ==> perm[a] < perm[b],
                decreases j,
            {
                let prev = self.order[j - 1];
                let curr = self.order[j];
                if self.sources[prev].cached_priority <= self.sources[curr].cached_priority {
                    assert forall|a: int, b: int| 0 <= a < b <= i implies self.prio_at(a) <= self.prio_at(b) by {
                        if a == j {
                            if b > j {
                                assert(self.prio_at(j as int) < self.prio_at(b));
                            }
                        } else if b == j {
                            if a < j - 1 {
                                assert(self.prio_at(a) <= self.prio_at(j - 1));
                            }
                        }
                    }
                    assert forall|a: int, b: int| 0 <= a < b <= i && self.prio_at(a) == self.prio_at(b) implies perm[a] < perm[b] by {
                        if a == j {
                            assert(self.prio_at(j as int) < self.prio_at(b));
                        } else if b == j {
                            assert(perm[a] < i);
                        }
                    }
                    break;
                }
                let ghost o = self.order@;
                let ghost s0 = *self;
                let ghost pm = perm;
                let ghost pr = |k: int| s0.prio_at(k);
                self.order.set(j - 1, curr);
                self.order.set(j, prev);
                proof {
                    perm = pm.update(j - 1, pm[j as int]).update(j as int, pm[j - 1]);
                    let n = self.order@;
                    assert(n == o.update(j - 1, o[j as int]).update(j as int, o[j - 1]));
                    assert forall|a: int, b: int| 0 <= a < b < NUM_INTERRUPTS implies n[a] != n[b] by {
                        assert(o[a] != o[b]);
                        assert(o[a] != o[j as int] && o[b] != o[j - 1] || a == j - 1 || b == j || a == j || b == j - 1);
                    }
                    assert forall|k: int| 0 <= k < NUM_INTERRUPTS implies #[trigger] n[k] < n.len() by {
                        assert(o[k] < o.len());
                    }
                    assert forall|k: int| 0 <= k < NUM_INTERRUPTS && k != j - 1 && k != j implies self.prio_at(k) == pr(k) by {}
                    assert(self.prio_at(j - 1) == pr(j as int));
                    assert(self.prio_at(j as int) == pr(j - 1));
                    assert forall|a: int, b: int| 0 <= a < b <= i && a != j - 1 && b != j - 1 implies self.prio_at(a) <= self.prio_at(b) by {
                        if a == j as int {
                            assert(s0.prio_at(j - 1) <= s0.prio_at(b));
                        } else if b == j as int {
                            assert(s0.prio_at(a) <= s0.prio_at(j - 1));
                        } else {
                            assert(s0.prio_at(a) <= s0.prio_at(b));
                        }
                    }
                    assert forall|b: int| j - 1 < b <= i implies self.prio_at(j - 1) < #[trigger] self.prio_at(b) by {
                        if b == j as int {
                        } else {
                            assert(s0.prio_at(j as int) < s0.prio_at(b));
                        }
                    }
                    assert forall|k: int| 0 <= k < NUM_INTERRUPTS implies 0 <= #[trigger] perm[k] < NUM_INTERRUPTS && self.order@[k] == p0[perm[k]] by {
                        if k == j - 1 {
                            assert(pm[j as int] < NUM_INTERRUPTS && o[j as int] == p0[pm[j as int]]);
                        } else if k == j as int {
                            assert(pm[j - 1] < NUM_INTERRUPTS && o[j - 1] == p0[pm[j - 1]]);
                        } else {
                            assert(pm[k] < NUM_INTERRUPTS && o[k] == p0[pm[k]]);
                        }
                    }
                    assert forall|a: int| 0 <= a <= i && a != j - 1 implies #[trigger] perm[a] < i by {
                        if a == j as int {
                            assert(pm[j - 1] < i);
                        } else {
                            assert(pm[a] < i);
                        }
                    }
                    assert forall|a: int, b: int| 0 <= a < b <= i && a != j - 1 && b != j - 1 && self.prio_at(a) == self.prio_at(b) implies perm[a] < perm[b] by {
                        if a == j as int {
                            assert(s0.prio_at(j - 1) == s0.prio_at(b));
                            assert(pm[j - 1] < pm[b]);
                        } else if b == j as int {
                            assert(s0.prio_at(a) == s0.prio_at(j - 1));
                            assert(pm[a] < pm[j - 1]);
                        } else {
                            assert(s0.prio_at(a) == s0.prio_at(b));
                            assert(pm[a] < pm[b]);
                        }
                    }
                }
                j = j - 1;
            }
            proof {
                assert forall|a: int| 0 <= a < i + 1 implies #[trigger] perm[a] < i + 1 by {
                    assert(perm[a] <= i);
                }
            }
            i = i + 1;
        }
        proof {
            assert(stably_reordered(self, p0, perm));
        }
    }

    /// Marks a source as pending.
    pub fn set_pending(&mut self, index: usize)
        requires
            index < 32,
        ensures
            final(self).pending == old(self).pending | (1u32 << index as u32),
            final(self).enabled == old(self).enabled,
            final(self).sources == old(self).sources,
            final(self).order == old(self).order,
    {
        self.pending = self.pending | (1u32 << index as u32);
    }

    /// Clears a source's pending request.
    pub fn clear_pending(&mut self, index: usize)
        requires
            index < 32,
        ensures
            final(self).pending == old(self).pending & !(1u32 << index as u32),
            final(self).enabled == old(self).enabled,
            final(self).sources == old(self).sources,
            final(self).order == old(self).order,
    {
        self.pending = self.pending & !(1u32 << index as u32);
    }

    /// Enables a source.
    pub fn enable(&mut self, index: usize)
        requires
            index < 32,
        ensures
            final(self).enabled == old(self).enabled | (1u32 << index as u32),
            final(self).pending == old(self).pending,
            final(self).sources == old(self).sources,
            final(self).order == old(self).order,
    {
        self.enabled = self.enabled | (1u32 << index as u32);
    }

    /// Disables a source.
    pub fn disable(&mut self, index: usize)
        requires
            index < 32,
        ensures
            final(self).enabled == old(self).enabled & !(1u32 << index as u32),
            final(self).pending == old(self).pending,
            final(self).sources == old(self).sources,
            final(self).order == old(self).order,
    {
        self.enabled = self.enabled & !(1u32 << index as u32);
    }

    /// Selects the interrupt to take: none while BL is set, otherwise the
    /// first source in `order` that is pending, enabled and of a priority
    /// above the IMASK level.
    pub fn next_event(&self, sr: &crate::regs::SrStatus) -> (r: Option<InterruptEvent>)
        requires
            self.wf(),
        ensures
            crate::regs::bit_of(sr.0, 28) ==> r is None,
            !crate::regs::bit_of(sr.0, 28) ==> match r {
                Some(e) => exists|k: int| 0 <= k < NUM_INTERRUPTS && {
                    &&& self.order[k] == e.index
                    &&& self.eligible(e.index as int, (sr.0 >> 4) & 0xF)
                    &&& forall|k2: int| 0 <= k2 < k ==> !self.eligible(#[trigger] self.order[k2] as int, (sr.0 >> 4) & 0xF)
                },
                None => forall|k: int| 0 <= k < NUM_INTERRUPTS ==> !self.eligible(#[trigger] self.order[k] as int, (sr.0 >> 4) & 0xF),
            },
            r matches Some(e) ==> e.index < NUM_INTERRUPTS && e.event_code == self.sources[e.index as int].event_code,
            r == self.next_event_spec(*sr),
    {
        if sr.bl() {
            return None;
        }
        let mask_level = sr.imask();
        let mut k: usize = 0;
        while k < NUM_INTERRUPTS
            invariant
                k <= NUM_INTERRUPTS,
                self.wf(),
                !crate::regs::bit_of(sr.0, 28),
                mask_level == (sr.0 >> 4) & 0xF,
                forall|k2: int| 0 <= k2 < k ==> !self.eligible(#[trigger] self.order[k2] as int, mask_level),
                self.first_eligible(mask_level, 0) == self.first_eligible(mask_level, k as int),
            decreases NUM_INTERRUPTS - k,
        {
            let idx = self.order[k];
            assert(idx < NUM_INTERRUPTS);
            let bit = 1u32 << idx as u32;
            let p = self.pending;
            let en = self.enabled;
            let is_pending = (p & bit) != 0;
            let is_enabled = (en & bit) != 0;
            assert(is_pending == has_bit(p, idx as int) && is_enabled == has_bit(en, idx as int)) by {
                let i32v = idx as u32;
                assert(((p & (1u32 << i32v)) != 0) == ((p >> i32v) & 1 == 1)) by (bit_vector)
                    requires i32v < 32;
                assert(((en & (1u32 << i32v)) != 0) == ((en >> i32v) & 1 == 1)) by (bit_vector)
                    requires i32v < 32;
            }
            if is_pending && is_enabled {
                let priority = self.sources[idx].cached_priority;
                if priority as u32 > mask_level {
                    return Some(InterruptEvent { index: idx, event_code: self.sources[idx].event_code });
                }
            }
            k = k + 1;
        }
        None
    }
}

} // verus!
