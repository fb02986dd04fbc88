//! The debugger server's requests and answers: memory slices, listings,
//! call stacks, the tick that reports the whole state, and the dispatch of
//! a request by its method.

use vstd::prelude::*;
use crate::cpu::spec_read_mem;
use crate::debugger::{ServerState, RegisterValue, BreakpointDescriptor, EventLogEntry, ServerWatch,
    BreakpointCategoryState, numbered, numbered_text, watch_text, register_text, hex_register_value,
    register_key};
use crate::device_tree::{DeviceNodeDescriptor, tree_registers, groups_view, collect_registers_from_tree,
    clone_registers, root_node_ok};
use crate::dreamcast::{Dreamcast, byte_read, slice_addr, read_memory_slice, chars_eq_str,
    get_sh4_register, register_by_name, unicode_uppercase};
use crate::keyed::{entry_value, set_entry};
use crate::mock_data::{address_key, sha256_first_byte, mock_memory};
use crate::numfmt::{owned, hex_word, hex_word_text, decimal_string};
use crate::text::{digits, str_chars};

verus! {

/// A slice of memory as the debugger shows it.
pub struct MemorySlice {
    pub base_address: u64,
    pub data: Vec<u8>,
    pub validity: String,
}

/// Where a memory view of a target starts by default.
pub open spec fn default_base(target: Seq<char>) -> u64 {
    if target == "arm7"@ { 0x0020_0000 } else if target == "dsp"@ { 0 } else { 0x8C00_0000 }
}

fn default_base_exec(target: &str) -> (b: u64)
    ensures
        b == default_base(target@),
{
    let t = str_chars(target);
    if chars_eq_str(&t, "arm7") { 0x0020_0000 } else if chars_eq_str(&t, "dsp") { 0 } else { 0x8C00_0000 }
}

/// Whether a memory view of `target` reads the machine's memory: when a
/// machine is attached and the target is not the ARM7 (whose memory the
/// machine does not model).
pub open spec fn reads_machine(dc: Option<&Dreamcast>, target: Seq<char>) -> bool {
    dc is Some && target != "arm7"@
}

/// The bytes a memory view shows: the machine's bytes when it reads the
/// machine (`None` when one of them cannot be read), otherwise the pseudo
/// bytes drawn from the hashes of their address keys.
pub open spec fn slice_bytes_ok(dc: Option<&Dreamcast>, target: Seq<char>, base: u64, len: nat, data: Option<Seq<u8>>) -> bool {
    if reads_machine(dc, target) {
        let d = dc->0;
        if forall|i: int| 0 <= i < len ==> #[trigger] spec_read_mem(d.ctx, slice_addr(base, i), 1) is Some {
            data matches Some(v) && v.len() == len && forall|i: int| 0 <= i < len ==>
                Some(#[trigger] v[i]) == byte_read(spec_read_mem(d.ctx, slice_addr(base, i), 1))
        } else {
            data is None
        }
    } else {
        data == Some(Seq::new(len, |i: int| sha256_first_byte(address_key(target, (base + i) as u64))))
    }
}

/// A memory view of `target` from `address` (or the target's default
/// base) of `length` bytes (or 64), marked valid; `None` when the machine's
/// memory cannot be read there.
pub fn build_memory_slice(dc: Option<&Dreamcast>, target: &str, address: Option<u64>, length: Option<usize>) -> (r: Option<MemorySlice>)
    requires
        dc matches Some(d) ==> d.wf(),
        !reads_machine(dc, target@) ==> (match address { Some(a) => a, None => default_base(target@) })
            + (match length { Some(l) => l, None => 64 }) <= u64::MAX,
    ensures
        ({
            let base = match address { Some(a) => a, None => default_base(target@) };
            let len = match length { Some(l) => l, None => 64 };
            &&& slice_bytes_ok(dc, target@, base, len as nat, match r { Some(m) => Some(m.data@), None => None })
            &&& r matches Some(m) ==> m.base_address == base && m.validity@ == "ok"@
        }),
{
    let base = match address { Some(a) => a, None => default_base_exec(target) };
    let len = match length { Some(l) => l, None => 64 };
    let arm7 = chars_eq_str(&str_chars(target), "arm7");
    let data = match dc {
        Some(d) => {
            if !arm7 {
                match read_memory_slice(d, base, len) {
                    Some(v) => v,
                    None => {
                        return None;
                    },
                }
            } else {
                mock_memory(target, base, len)
            }
        },
        None => mock_memory(target, base, len),
    };
    Some(MemorySlice { base_address: base, data, validity: owned("ok") })
}

/// One frame of a call stack.
pub struct CallstackFrame {
    pub index: u32,
    pub pc: u64,
    pub sp: Option<u64>,
    pub symbol: Option<String>,
    pub location: Option<String>,
}

/// `f` is frame `i` of a sample call stack: the PC `pc`, the stack pointer
/// 16 bytes below `sp0` per frame, and a symbol and location named after
/// the frame.
pub open spec fn frame_ok(f: CallstackFrame, i: int, pc: u64, sp0: u64, symbol: Seq<char>, file: Seq<char>) -> bool {
    &&& f.index == i
    &&& f.pc == pc
    &&& f.sp == Some((sp0 - 16 * i) as u64)
    &&& f.symbol matches Some(s) && s@ == numbered(symbol, i as nat, ""@)
    &&& f.location matches Some(l) && l@ == numbered(file, (100 + i) as nat, ""@)
}

/// A sample call stack of `n` frames: frame `i` at `pc_base + 4 i`
/// (frame 0 at `first_pc` when given), named `<symbol><i>` at
/// `<file><100 + i>`.
pub fn sample_frames(n: u32, first_pc: Option<u64>, pc_base: u64, sp0: u64, symbol: &str, file: &str) -> (v: Vec<CallstackFrame>)
    requires
        n <= 64,
        pc_base <= 0xFFFF_FFFF,
        sp0 >= 0x1000,
    ensures
        v.len() == n,
        forall|i: int| 0 <= i < n ==> frame_ok(#[trigger] v@[i], i,
            if i == 0 && first_pc is Some { first_pc->0 } else if first_pc is Some { (pc_base + 4 * (i - 1)) as u64 } else { (pc_base + 4 * i) as u64 },
            sp0, symbol@, file@),
{
    let mut v: Vec<CallstackFrame> = Vec::new();
    let mut i: u32 = 0;
    while i < n
        invariant
            i <= n <= 64,
            pc_base <= 0xFFFF_FFFF,
            sp0 >= 0x1000,
            v.len() == i,
            forall|k: int| 0 <= k < i ==> frame_ok(#[trigger] v@[k], k,
                if k == 0 && first_pc is Some { first_pc->0 } else if first_pc is Some { (pc_base + 4 * (k - 1)) as u64 } else { (pc_base + 4 * k) as u64 },
                sp0, symbol@, file@),
        decreases n - i,
    {
        let pc = match first_pc {
            Some(p) => if i == 0 { p } else { pc_base + (i as u64 - 1) * 4 },
            None => pc_base + (i as u64) * 4,
        };
        v.push(CallstackFrame {
            index: i,
            pc,
            sp: Some(sp0 - (i as u64) * 16),
            symbol: Some(numbered_text(symbol, i as u64, "")),
            location: Some(numbered_text(file, 100 + i as u64, "")),
        });
        i = i + 1;
    }
    v
}

/// A watch as a tick reports it.
pub struct WatchDescriptor {
    pub id: u32,
    pub expression: String,
    pub value: String,
}

/// Whether the machine runs, and the breakpoint it stopped at.
pub struct ExecutionState {
    pub state: String,
    pub breakpoint_id: Option<u32>,
}

/// The state the server reports after a change.
pub struct DebuggerTick {
    pub tick_id: u64,
    pub timestamp: u64,
    pub execution_state: ExecutionState,
    pub registers: Vec<(String, Vec<RegisterValue>)>,
    pub breakpoints: Vec<(String, BreakpointDescriptor)>,
    pub event_log: Vec<EventLogEntry>,
    pub watches: Option<Vec<WatchDescriptor>>,
    pub callstacks: Option<Vec<(String, Vec<CallstackFrame>)>>,
}

/// The CPU registers a tick reports from the machine, in order.
pub open spec fn cpu_register_name(i: int) -> Seq<char> {
    if i == 0 { "PC"@ } else if i == 1 { "PR"@ } else if i == 2 { "SR"@ } else if i == 3 { "GBR"@ }
    else if i == 4 { "VBR"@ } else if i == 5 { "MACH"@ } else if i == 6 { "MACL"@ } else if i == 7 { "FPSCR"@ }
    else if i == 8 { "FPUL"@ } else { numbered("R"@, (i - 9) as nat, ""@) }
}

/// The machine's CPU registers that a tick reports, among the first `k`
/// names: each name for which the machine gives a value, with that value.
pub open spec fn machine_registers(d: &Dreamcast, k: int) -> Seq<(Seq<char>, u32)>
    decreases k,
{
    if k <= 0 {
        Seq::empty()
    } else {
        let name = cpu_register_name(k - 1);
        machine_registers(d, k - 1) + match register_by_name(d.ctx, unicode_uppercase(name), name) {
            Some(x) => seq![(name, x)],
            None => Seq::empty(),
        }
    }
}

/// `v` lists the registers `m`, each 32 bits wide, with its value as
/// `0x` and eight uppercase hex digits.
pub open spec fn registers_listed(v: Seq<RegisterValue>, m: Seq<(Seq<char>, u32)>) -> bool {
    &&& v.len() == m.len()
    &&& forall|i: int| 0 <= i < m.len() ==> {
        &&& (#[trigger] v[i]).name@ == m[i].0
        &&& v[i].value@ == hex_word_text(m[i].1)
        &&& v[i].width == 32
    }
}

fn cpu_register_name_exec(i: u64) -> (s: String)
    requires
        i < 25,
    ensures
        s@ == cpu_register_name(i as int),
{
    if i == 0 { owned("PC") } else if i == 1 { owned("PR") } else if i == 2 { owned("SR") } else if i == 3 { owned("GBR") }
    else if i == 4 { owned("VBR") } else if i == 5 { owned("MACH") } else if i == 6 { owned("MACL") } else if i == 7 { owned("FPSCR") }
    else if i == 8 { owned("FPUL") } else { numbered_text("R", i - 9, "") }
}

/// The machine's CPU registers that a tick reports.
pub fn machine_register_values(d: &Dreamcast) -> (v: Vec<RegisterValue>)
    ensures
        registers_listed(v@, machine_registers(d, 25)),
{
    let mut v: Vec<RegisterValue> = Vec::new();
    let mut i: u64 = 0;
    while i < 25
        invariant
            i <= 25,
            registers_listed(v@, machine_registers(d, i as int)),
        decreases 25 - i,
    {
        let name = cpu_register_name_exec(i);
        let ghost before = v@;
        match get_sh4_register(d, name.as_str()) {
            Some(x) => {
                v.push(RegisterValue { name, value: hex_word(x), width: 32 });
            },
            None => {},
        }
        assert(registers_listed(v@, machine_registers(d, i + 1)));
        i = i + 1;
    }
    v
}

/// The register list under key `k`, as a sequence.
pub open spec fn group_regs(s: Seq<(String, Vec<RegisterValue>)>, k: Seq<char>) -> Option<Seq<RegisterValue>> {
    match entry_value(s, k) {
        Some(v) => Some(v@),
        None => None,
    }
}

/// A 64-bit value written as `0x` and hex digits, if it is one.
pub open spec fn hex_value_u64(t: Seq<char>) -> Option<u64> {
    match crate::debugger::after_hex_prefix(t) {
        Some(d) => match crate::numfmt::parsed_hex(d, 0x1_0000_0000_0000_0000) {
            Some(v) => Some(v as u64),
            None => None,
        },
        None => None,
    }
}

fn read_hex_u64(t: &String) -> (r: Option<u64>)
    ensures
        r == hex_value_u64(t@),
{
    let c = str_chars(t.as_str());
    if c.len() < 2 || c[0] != '0' || c[1] != 'x' {
        return None;
    }
    let mut d: Vec<char> = Vec::new();
    let mut i: usize = 2;
    while i < c.len()
        invariant
            2 <= i <= c.len(),
            c@ == t@,
            d@ == c@.subrange(2, i as int),
        decreases c.len() - i,
    {
        d.push(c[i]);
        i = i + 1;
    }
    crate::numfmt::parse_hex(&d, 0x1_0000_0000_0000_0000)
}

/// The program counter a tick's SH4 call stack starts at.
pub open spec fn sh4_stack_pc(o: &ServerState, dc: Option<&Dreamcast>) -> u64 {
    match dc {
        Some(d) => match register_by_name(d.ctx, unicode_uppercase("PC"@), "PC"@) {
            Some(x) => x as u64,
            None => 0x8C00_00A0,
        },
        None => match hex_value_u64(register_text(o, "dc.sh4.cpu"@, "PC"@)) {
            Some(v) => v,
            None => 0x8C00_00A0,
        },
    }
}

/// The program counter a tick's ARM7 call stack starts at: the held ARM7
/// PC, or 0x00200010 (always, with a machine attached, which has no ARM7).
pub open spec fn arm7_stack_pc(o: &ServerState, dc: Option<&Dreamcast>) -> u64 {
    match dc {
        Some(d) => 0x0020_0010,
        None => match hex_value_u64(register_text(o, "dc.aica.arm7"@, "PC"@)) {
            Some(v) => v,
            None => 0x0020_0010,
        },
    }
}

/// A copy of a breakpoint.
pub fn clone_breakpoint(b: &BreakpointDescriptor) -> (c: BreakpointDescriptor)
    ensures
        c == *b,
{
    BreakpointDescriptor { id: b.id, event: b.event.clone(), address: b.address, kind: b.kind.clone(), enabled: b.enabled }
}

/// A copy of an event log entry.
pub fn clone_event(e: &EventLogEntry) -> (c: EventLogEntry)
    ensures
        c == *e,
{
    EventLogEntry {
        event_id: e.event_id.clone(),
        timestamp: e.timestamp,
        subsystem: e.subsystem.clone(),
        severity: e.severity.clone(),
        message: e.message.clone(),
    }
}

/// `t` reports the watches of `o`, each with its current value (none when
/// there are no watches).
pub open spec fn watches_reported(o: &ServerState, dc: Option<&Dreamcast>, w: Option<Vec<WatchDescriptor>>) -> bool {
    if o.watches.len() == 0 {
        w is None
    } else {
        w matches Some(v) && v.len() == o.watches.len() && forall|i: int| 0 <= i < v.len() ==> {
            &&& (#[trigger] v@[i]).id == o.watches@[i].id
            &&& v@[i].expression == o.watches@[i].expression
            &&& v@[i].value@ == watch_text(o, dc, o.watches@[i].expression@)
        }
    }
}

/// The two call stacks a tick reports: sixteen SH4 frames from the SH4
/// PC, then frames at 0x8C000000 on, and sixteen ARM7 frames from the ARM7
/// PC, then frames at 0x00200000 on.
pub open spec fn callstacks_reported(o: &ServerState, dc: Option<&Dreamcast>, c: Option<Vec<(String, Vec<CallstackFrame>)>>) -> bool {
    c matches Some(v) && v.len() == 2 && {
        &&& v@[0].0@ == "sh4"@
        &&& v@[0].1.len() == 16
        &&& forall|i: int| 0 <= i < 16 ==> frame_ok(#[trigger] v@[0].1@[i], i,
            if i == 0 { sh4_stack_pc(o, dc) } else { (0x8C00_0000 + 4 * (i - 1)) as u64 },
            0x0CFE_0000, "SH4_func_"@, "sh4.c:"@)
        &&& v@[1].0@ == "arm7"@
        &&& v@[1].1.len() == 16
        &&& forall|i: int| 0 <= i < 16 ==> frame_ok(#[trigger] v@[1].1@[i], i,
            if i == 0 { arm7_stack_pc(o, dc) } else { (0x0020_0000 + 4 * (i - 1)) as u64 },
            0x0028_0000, "ARM7_func_"@, "arm7.c:"@)
    }
}

/// The registers a tick reports, by key: the register groups of the device
/// tree `tree`, with the CPU group replaced by the machine's registers when
/// a machine is attached and gives any.
pub open spec fn registers_reported(o: &ServerState, dc: Option<&Dreamcast>, tree: Seq<DeviceNodeDescriptor>,
    r: Seq<(String, Vec<RegisterValue>)>) -> bool
{
    let over = dc is Some && machine_registers(dc->0, 25).len() > 0;
    &&& over ==> (group_regs(r, "dc.sh4.cpu"@) matches Some(v) && registers_listed(v, machine_registers(dc->0, 25)))
    &&& forall|k: Seq<char>| !(over && k == "dc.sh4.cpu"@) ==> group_regs(r, k) == entry_value(tree_registers(tree), k)
}

/// `t` is the tick the server `o` (with the machine `dc`) reports at `now`,
/// after a stop at breakpoint `hit` if any.
pub open spec fn tick_ok(o: &ServerState, dc: Option<&Dreamcast>, hit: Option<u32>, now: u64, t: &DebuggerTick) -> bool {
    let running = match dc { Some(d) => d.running, None => o.is_running };
    &&& t.tick_id == o.tick_id
    &&& t.timestamp == now
    &&& t.execution_state.state@ == (if running { "running"@ } else { "paused"@ })
    &&& t.execution_state.breakpoint_id == hit
    &&& exists|tree: Seq<DeviceNodeDescriptor>| #![trigger root_node_ok(tree[0], o)]
        tree.len() == 1 && root_node_ok(tree[0], o) && registers_reported(o, dc, tree, t.registers@)
    &&& t.breakpoints.len() == o.breakpoints.len()
    &&& forall|i: int| 0 <= i < o.breakpoints.len() ==> {
        &&& (#[trigger] t.breakpoints@[i]).0@ == digits(o.breakpoints@[i].id as nat, 10)
        &&& t.breakpoints@[i].1 == o.breakpoints@[i]
    }
    &&& t.event_log@ == o.event_log@
    &&& watches_reported(o, dc, t.watches)
    &&& callstacks_reported(o, dc, t.callstacks)
}

fn keyed_groups(all: &Vec<(String, Vec<RegisterValue>)>) -> (r: Vec<(String, Vec<RegisterValue>)>)
    ensures
        forall|k: Seq<char>| group_regs(r@, k) == entry_value(groups_view(all@), k),
{
    let mut r: Vec<(String, Vec<RegisterValue>)> = Vec::new();
    let mut i: usize = 0;
    while i < all.len()
        invariant
            i <= all.len(),
            forall|k: Seq<char>| group_regs(r@, k) == entry_value(groups_view(all@.take(i as int)), k),
        decreases all.len() - i,
    {
        let g = &all[i];
        let ghost pre = groups_view(all@.take(i as int));
        let ghost post = groups_view(all@.take(i + 1));
        assert(post.drop_last() =~= pre);
        assert(post.last() == (g.0, g.1@));
        let ghost r0 = r@;
        let key = g.0.clone();
        let regs = clone_registers(&g.1);
        set_entry(&mut r, key, regs);
        assert forall|k: Seq<char>| group_regs(r@, k) == entry_value(post, k) by {
            if k == g.0@ {
                assert(entry_value(post, k) == Some(g.1@));
            } else {
                assert(group_regs(r@, k) == group_regs(r0, k));
                assert(entry_value(post, k) == entry_value(pre, k));
            }
        }
        i = i + 1;
    }
    assert(all@.take(all.len() as int) =~= all@);
    r
}

impl ServerState {
    /// The tick that reports the server (and the machine, when one is
    /// attached) at `now`, after a stop at breakpoint `hit` if any; the
    /// next tick gets the next id.
    pub fn build_tick(&mut self, dc: Option<&Dreamcast>, hit: Option<u32>, now: u64) -> (t: DebuggerTick)
        requires
            old(self).wf(),
            old(self).tick_id < u64::MAX,
        ensures
            final(self).wf(),
            *final(self) == (ServerState { tick_id: (old(self).tick_id + 1) as u64, ..*old(self) }),
            tick_ok(old(self), dc, hit, now, &t),
    {
        let tree = self.build_device_tree();
        let all = collect_registers_from_tree(&tree);
        let mut registers = keyed_groups(&all);
        let ghost groups0 = registers@;
        assert(forall|k: Seq<char>| group_regs(groups0, k) == entry_value(tree_registers(tree@), k));
        match dc {
            Some(d) => {
                let cpu = machine_register_values(d);
                if cpu.len() > 0 {
                    let ghost cv = cpu@;
                    set_entry(&mut registers, owned("dc.sh4.cpu"), cpu);
                    assert(group_regs(registers@, "dc.sh4.cpu"@) == Some(cv));
                    assert forall|k: Seq<char>| k != "dc.sh4.cpu"@ implies group_regs(registers@, k) == group_regs(groups0, k) by {}
                    assert(machine_registers(d, 25).len() > 0);
                    assert(dc->0 == d);
                    assert(registers_listed(cv, machine_registers(d, 25)));
                    assert(group_regs(registers@, "dc.sh4.cpu"@) matches Some(v) && registers_listed(v, machine_registers(dc->0, 25)));
                    assert forall|k: Seq<char>| k != "dc.sh4.cpu"@ implies group_regs(registers@, k) == entry_value(tree_registers(tree@), k) by {
                        assert(group_regs(registers@, k) == group_regs(groups0, k));
                    }
                    assert(registers_reported(self, dc, tree@, registers@));
                } else {
                    assert(machine_registers(d, 25).len() == 0);
                    assert(registers_reported(self, dc, tree@, registers@));
                }
            },
            None => {
                assert(registers_reported(self, dc, tree@, registers@));
            },
        }

        let mut breakpoints: Vec<(String, BreakpointDescriptor)> = Vec::new();
        let mut i: usize = 0;
        while i < self.breakpoints.len()
            invariant
                i <= self.breakpoints.len(),
                breakpoints.len() == i,
                forall|j: int| 0 <= j < i ==> {
                    &&& (#[trigger] breakpoints@[j]).0@ == digits(self.breakpoints@[j].id as nat, 10)
                    &&& breakpoints@[j].1 == self.breakpoints@[j]
                },
            decreases self.breakpoints.len() - i,
        {
            let b = &self.breakpoints[i];
            breakpoints.push((decimal_string(b.id as u64), clone_breakpoint(b)));
            i = i + 1;
        }

        let mut event_log: Vec<EventLogEntry> = Vec::new();
        let mut e: usize = 0;
        while e < self.event_log.len()
            invariant
                e <= self.event_log.len(),
                event_log@ == self.event_log@.take(e as int),
            decreases self.event_log.len() - e,
        {
            event_log.push(clone_event(&self.event_log[e]));
            assert(event_log@ =~= self.event_log@.take(e + 1));
            e = e + 1;
        }
        assert(event_log@ =~= self.event_log@);

        let watches = if self.watches.len() == 0 {
            None
        } else {
            let mut w: Vec<WatchDescriptor> = Vec::new();
            let mut k: usize = 0;
            while k < self.watches.len()
                invariant
                    k <= self.watches.len(),
                    w.len() == k,
                    forall|j: int| 0 <= j < k ==> {
                        &&& (#[trigger] w@[j]).id == self.watches@[j].id
                        &&& w@[j].expression == self.watches@[j].expression
                        &&& w@[j].value@ == watch_text(self, dc, self.watches@[j].expression@)
                    },
                decreases self.watches.len() - k,
            {
                let watch = &self.watches[k];
                let value = self.evaluate_watch_expression(dc, watch.expression.as_str());
                w.push(WatchDescriptor { id: watch.id, expression: watch.expression.clone(), value });
                k = k + 1;
            }
            Some(w)
        };

        let sh4_pc = match dc {
            Some(d) => match get_sh4_register(d, "PC") {
                Some(x) => x as u64,
                None => 0x8C00_00A0,
            },
            None => match read_hex_u64(&self.get_register_value("dc.sh4.cpu", "PC")) {
                Some(v) => v,
                None => 0x8C00_00A0,
            },
        };
        let arm7_pc = match dc {
            Some(_) => 0x0020_0010,
            None => match read_hex_u64(&self.get_register_value("dc.aica.arm7", "PC")) {
                Some(v) => v,
                None => 0x0020_0010,
            },
        };
        let mut callstacks: Vec<(String, Vec<CallstackFrame>)> = Vec::new();
        callstacks.push((owned("sh4"), sample_frames(16, Some(sh4_pc), 0x8C00_0000, 0x0CFE_0000, "SH4_func_", "sh4.c:")));
        callstacks.push((owned("arm7"), sample_frames(16, Some(arm7_pc), 0x0020_0000, 0x0028_0000, "ARM7_func_", "arm7.c:")));

        let tick_id = self.tick_id;
        self.tick_id = tick_id + 1;

        let running = match dc {
            Some(d) => d.running,
            None => self.is_running,
        };
        let t = DebuggerTick {
            tick_id,
            timestamp: now,
            execution_state: ExecutionState {
                state: if running { owned("running") } else { owned("paused") },
                breakpoint_id: hit,
            },
            registers,
            breakpoints,
            event_log,
            watches,
            callstacks: Some(callstacks),
        };
        assert(root_node_ok(tree@[0], old(self)));
        t
    }
}

} // verus!
