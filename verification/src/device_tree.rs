//! The device tree the debugger shows: the machine's blocks with their
//! registers, events and panels, each register showing the server's value.

use vstd::prelude::*;
use crate::debugger::{ServerState, RegisterValue, register_text, numbered};
use crate::numfmt::owned;
use crate::text::{digits};

verus! {

/// One node of the device tree.
pub struct DeviceNodeDescriptor {
    pub path: String,
    pub label: String,
    pub description: Option<String>,
    pub registers: Option<Vec<RegisterValue>>,
    pub events: Option<Vec<String>>,
    pub actions: Option<Vec<String>>,
    pub children: Option<Vec<DeviceNodeDescriptor>>,
}

/// `r` shows register `name` under `path`, `width` bits wide, with the
/// server's value for it.
pub open spec fn reg_ok(r: RegisterValue, path: Seq<char>, name: Seq<char>, width: u32, s: &ServerState) -> bool {
    &&& r.name@ == name
    &&& r.value@ == register_text(s, path, name)
    &&& r.width == width
}

/// `v` holds exactly the strings `t`.
pub open spec fn strings_are(v: Seq<String>, t: Seq<Seq<char>>) -> bool {
    &&& v.len() == t.len()
    &&& forall|i: int| 0 <= i < t.len() ==> (#[trigger] v[i])@ == t[i]
}

impl ServerState {
    /// Register `name` under `path`, `width` bits wide, with its value.
    pub fn register(&self, path: &str, name: &str, width: u32) -> (r: RegisterValue)
        ensures
            reg_ok(r, path@, name@, width, self),
    {
        RegisterValue { name: owned(name), value: self.get_register_value(path, name), width }
    }
}

fn strings(t: &[&str]) -> (v: Vec<String>)
    ensures
        v.len() == t@.len(),
        forall|i: int| 0 <= i < t@.len() ==> (#[trigger] v@[i])@ == t@[i]@,
{
    let mut v: Vec<String> = Vec::new();
    let mut i: usize = 0;
    while i < t.len()
        invariant
            i <= t.len(),
            v.len() == i,
            forall|j: int| 0 <= j < i ==> (#[trigger] v@[j])@ == t@[j]@,
        decreases t.len() - i,
    {
        v.push(owned(t[i]));
        i = i + 1;
    }
    v
}

/// The `dc.sh4.cpu` node.
pub open spec fn sh4_cpu_node_ok(n: DeviceNodeDescriptor, s: &ServerState) -> bool {
    &&& n.path@ == "dc.sh4.cpu"@
    &&& n.label@ == "Core"@
    &&& n.description matches Some(d) && d@ == "SuperH4 CPU Core"@
    &&& n.registers matches Some(r) && {
        &&& r@.len() == 25
        &&& reg_ok(r@[0], "dc.sh4.cpu"@, "PC"@, 32, s)
        &&& reg_ok(r@[1], "dc.sh4.cpu"@, "PR"@, 32, s)
        &&& reg_ok(r@[2], "dc.sh4"@, "VBR"@, 32, s)
        &&& reg_ok(r@[3], "dc.sh4"@, "SR"@, 32, s)
        &&& reg_ok(r@[4], "dc.sh4"@, "FPSCR"@, 32, s)
        &&& reg_ok(r@[5], "dc.sh4.cpu"@, "GBR"@, 32, s)
        &&& reg_ok(r@[6], "dc.sh4.cpu"@, "MACH"@, 32, s)
        &&& reg_ok(r@[7], "dc.sh4.cpu"@, "MACL"@, 32, s)
        &&& reg_ok(r@[8], "dc.sh4.cpu"@, "FPUL"@, 32, s)
        &&& forall|i: int| 0 <= i < 16 ==> reg_ok(#[trigger] r@[9 + i], "dc.sh4.cpu"@, numbered("R"@, i as nat, ""@), 32, s)
    }
    &&& n.events is None
    &&& n.actions matches Some(e) && strings_are(e@, seq!["sh4-disassembly"@, "sh4-memory"@])
    &&& n.children is None
}

impl ServerState {
    /// The `dc.sh4.cpu` node.
    pub fn sh4_cpu_node(&self) -> (n: DeviceNodeDescriptor)
        ensures
            sh4_cpu_node_ok(n, self),
    {
        let mut regs: Vec<RegisterValue> = Vec::new();
        regs.push(self.register("dc.sh4.cpu", "PC", 32));
        regs.push(self.register("dc.sh4.cpu", "PR", 32));
        regs.push(self.register("dc.sh4", "VBR", 32));
        regs.push(self.register("dc.sh4", "SR", 32));
        regs.push(self.register("dc.sh4", "FPSCR", 32));
        regs.push(self.register("dc.sh4.cpu", "GBR", 32));
        regs.push(self.register("dc.sh4.cpu", "MACH", 32));
        regs.push(self.register("dc.sh4.cpu", "MACL", 32));
        regs.push(self.register("dc.sh4.cpu", "FPUL", 32));
        let mut idx: u64 = 0;
        while idx < 16
            invariant
                idx <= 16,
                regs@.len() == 9 + idx,
                reg_ok(regs@[0], "dc.sh4.cpu"@, "PC"@, 32, self),
                reg_ok(regs@[1], "dc.sh4.cpu"@, "PR"@, 32, self),
                reg_ok(regs@[2], "dc.sh4"@, "VBR"@, 32, self),
                reg_ok(regs@[3], "dc.sh4"@, "SR"@, 32, self),
                reg_ok(regs@[4], "dc.sh4"@, "FPSCR"@, 32, self),
                reg_ok(regs@[5], "dc.sh4.cpu"@, "GBR"@, 32, self),
                reg_ok(regs@[6], "dc.sh4.cpu"@, "MACH"@, 32, self),
                reg_ok(regs@[7], "dc.sh4.cpu"@, "MACL"@, 32, self),
                reg_ok(regs@[8], "dc.sh4.cpu"@, "FPUL"@, 32, self),
                forall|i: int| 0 <= i < idx ==> reg_ok(#[trigger] regs@[9 + i], "dc.sh4.cpu"@, numbered("R"@, i as nat, ""@), 32, self),
            decreases 16 - idx,
        {
            let name = crate::debugger::numbered_text("R", idx, "");
            regs.push(self.register("dc.sh4.cpu", name.as_str(), 32));
            idx = idx + 1;
        }
        let actions = Some(strings(&["sh4-disassembly", "sh4-memory"]));
        DeviceNodeDescriptor {
            path: owned("dc.sh4.cpu"),
            label: owned("Core"),
            description: Some(owned("SuperH4 CPU Core")),
            registers: Some(regs),
            events: None,
            actions: actions,
            children: None,
        }
    }
}

/// The `dc.sh4.bsc` node.
pub open spec fn pbus_bsc_ok(n: DeviceNodeDescriptor, s: &ServerState) -> bool {
    &&& n.path@ == "dc.sh4.bsc"@
    &&& n.label@ == "BSC"@
    &&& n.description matches Some(d) && d@ == "Bus State Controller"@
    &&& n.registers is None
    &&& n.events is None
    &&& n.actions matches Some(e) && strings_are(e@, seq!["bsc-registers"@])
    &&& n.children is None
}

impl ServerState {
    /// The `dc.sh4.bsc` node.
    pub fn pbus_bsc(&self) -> (n: DeviceNodeDescriptor)
        ensures
            pbus_bsc_ok(n, self),
    {
        let actions = Some(strings(&["bsc-registers"]));
        DeviceNodeDescriptor {
            path: owned("dc.sh4.bsc"),
            label: owned("BSC"),
            description: Some(owned("Bus State Controller")),
            registers: None,
            events: None,
            actions: actions,
            children: None,
        }
    }
}

/// The `dc.sh4.ccn` node.
pub open spec fn pbus_ccn_ok(n: DeviceNodeDescriptor, s: &ServerState) -> bool {
    &&& n.path@ == "dc.sh4.ccn"@
    &&& n.label@ == "CCN"@
    &&& n.description matches Some(d) && d@ == "Cache Controller"@
    &&& n.registers is None
    &&& n.events is None
    &&& n.actions matches Some(e) && strings_are(e@, seq!["ccn-registers"@])
    &&& n.children is None
}

impl ServerState {
    /// The `dc.sh4.ccn` node.
    pub fn pbus_ccn(&self) -> (n: DeviceNodeDescriptor)
        ensures
            pbus_ccn_ok(n, self),
    {
        let actions = Some(strings(&["ccn-registers"]));
        DeviceNodeDescriptor {
            path: owned("dc.sh4.ccn"),
            label: owned("CCN"),
            description: Some(owned("Cache Controller")),
            registers: None,
            events: None,
            actions: actions,
            children: None,
        }
    }
}

/// The `dc.sh4.cpg` node.
pub open spec fn pbus_cpg_ok(n: DeviceNodeDescriptor, s: &ServerState) -> bool {
    &&& n.path@ == "dc.sh4.cpg"@
    &&& n.label@ == "CPG"@
    &&& n.description matches Some(d) && d@ == "Clock Pulse Generator"@
    &&& n.registers is None
    &&& n.events is None
    &&& n.actions matches Some(e) && strings_are(e@, seq!["cpg-registers"@])
    &&& n.children is None
}

impl ServerState {
    /// The `dc.sh4.cpg` node.
    pub fn pbus_cpg(&self) -> (n: DeviceNodeDescriptor)
        ensures
            pbus_cpg_ok(n, self),
    {
        let actions = Some(strings(&["cpg-registers"]));
        DeviceNodeDescriptor {
            path: owned("dc.sh4.cpg"),
            label: owned("CPG"),
            description: Some(owned("Clock Pulse Generator")),
            registers: None,
            events: None,
            actions: actions,
            children: None,
        }
    }
}

/// The `dc.sh4.dmac` node.
pub open spec fn pbus_dmac_ok(n: DeviceNodeDescriptor, s: &ServerState) -> bool {
    &&& n.path@ == "dc.sh4.dmac"@
    &&& n.label@ == "DMAC"@
    &&& n.description matches Some(d) && d@ == "Direct Memory Access Controller"@
    &&& n.registers is None
    &&& n.events is None
    &&& n.actions matches Some(e) && strings_are(e@, seq!["dmac-registers"@])
    &&& n.children is None
}

impl ServerState {
    /// The `dc.sh4.dmac` node.
    pub fn pbus_dmac(&self) -> (n: DeviceNodeDescriptor)
        ensures
            pbus_dmac_ok(n, self),
    {
        let actions = Some(strings(&["dmac-registers"]));
        DeviceNodeDescriptor {
            path: owned("dc.sh4.dmac"),
            label: owned("DMAC"),
            description: Some(owned("Direct Memory Access Controller")),
            registers: None,
            events: None,
            actions: actions,
            children: None,
        }
    }
}

/// The `dc.sh4.intc` node.
pub open spec fn pbus_intc_ok(n: DeviceNodeDescriptor, s: &ServerState) -> bool {
    &&& n.path@ == "dc.sh4.intc"@
    &&& n.label@ == "INTC"@
    &&& n.description matches Some(d) && d@ == "Interrupt Controller"@
    &&& n.registers is None
    &&& n.events is None
    &&& n.actions matches Some(e) && strings_are(e@, seq!["intc-registers"@])
    &&& n.children is None
}

impl ServerState {
    /// The `dc.sh4.intc` node.
    pub fn pbus_intc(&self) -> (n: DeviceNodeDescriptor)
        ensures
            pbus_intc_ok(n, self),
    {
        let actions = Some(strings(&["intc-registers"]));
        DeviceNodeDescriptor {
            path: owned("dc.sh4.intc"),
            label: owned("INTC"),
            description: Some(owned("Interrupt Controller")),
            registers: None,
            events: None,
            actions: actions,
            children: None,
        }
    }
}

/// The `dc.sh4.rtc` node.
pub open spec fn pbus_rtc_ok(n: DeviceNodeDescriptor, s: &ServerState) -> bool {
    &&& n.path@ == "dc.sh4.rtc"@
    &&& n.label@ == "RTC"@
    &&& n.description matches Some(d) && d@ == "Real Time Clock"@
    &&& n.registers is None
    &&& n.events is None
    &&& n.actions matches Some(e) && strings_are(e@, seq!["rtc-registers"@])
    &&& n.children is None
}

impl ServerState {
    /// The `dc.sh4.rtc` node.
    pub fn pbus_rtc(&self) -> (n: DeviceNodeDescriptor)
        ensures
            pbus_rtc_ok(n, self),
    {
        let actions = Some(strings(&["rtc-registers"]));
        DeviceNodeDescriptor {
            path: owned("dc.sh4.rtc"),
            label: owned("RTC"),
            description: Some(owned("Real Time Clock")),
            registers: None,
            events: None,
            actions: actions,
            children: None,
        }
    }
}

/// The `dc.sh4.sci` node.
pub open spec fn pbus_sci_ok(n: DeviceNodeDescriptor, s: &ServerState) -> bool {
    &&& n.path@ == "dc.sh4.sci"@
    &&& n.label@ == "SCI"@
    &&& n.description matches Some(d) && d@ == "Serial Communications Interface"@
    &&& n.registers is None
    &&& n.events is None
    &&& n.actions matches Some(e) && strings_are(e@, seq!["sci-registers"@])
    &&& n.children is None
}

impl ServerState {
    /// The `dc.sh4.sci` node.
    pub fn pbus_sci(&self) -> (n: DeviceNodeDescriptor)
        ensures
            pbus_sci_ok(n, self),
    {
        let actions = Some(strings(&["sci-registers"]));
        DeviceNodeDescriptor {
            path: owned("dc.sh4.sci"),
            label: owned("SCI"),
            description: Some(owned("Serial Communications Interface")),
            registers: None,
            events: None,
            actions: actions,
            children: None,
        }
    }
}

/// The `dc.sh4.scif` node.
pub open spec fn pbus_scif_ok(n: DeviceNodeDescriptor, s: &ServerState) -> bool {
    &&& n.path@ == "dc.sh4.scif"@
    &&& n.label@ == "SCIF"@
    &&& n.description matches Some(d) && d@ == "Serial Communications Interface w/ FIFO"@
    &&& n.registers is None
    &&& n.events is None
    &&& n.actions matches Some(e) && strings_are(e@, seq!["scif-registers"@])
    &&& n.children is None
}

impl ServerState {
    /// The `dc.sh4.scif` node.
    pub fn pbus_scif(&self) -> (n: DeviceNodeDescriptor)
        ensures
            pbus_scif_ok(n, self),
    {
        let actions = Some(strings(&["scif-registers"]));
        DeviceNodeDescriptor {
            path: owned("dc.sh4.scif"),
            label: owned("SCIF"),
            description: Some(owned("Serial Communications Interface w/ FIFO")),
            registers: None,
            events: None,
            actions: actions,
            children: None,
        }
    }
}

/// The `dc.sh4.tmu` node.
pub open spec fn pbus_tmu_ok(n: DeviceNodeDescriptor, s: &ServerState) -> bool {
    &&& n.path@ == "dc.sh4.tmu"@
    &&& n.label@ == "TMU"@
    &&& n.description matches Some(d) && d@ == "Timer Unit"@
    &&& n.registers is None
    &&& n.events is None
    &&& n.actions matches Some(e) && strings_are(e@, seq!["tmu-registers"@])
    &&& n.children is None
}

impl ServerState {
    /// The `dc.sh4.tmu` node.
    pub fn pbus_tmu(&self) -> (n: DeviceNodeDescriptor)
        ensures
            pbus_tmu_ok(n, self),
    {
        let actions = Some(strings(&["tmu-registers"]));
        DeviceNodeDescriptor {
            path: owned("dc.sh4.tmu"),
            label: owned("TMU"),
            description: Some(owned("Timer Unit")),
            registers: None,
            events: None,
            actions: actions,
            children: None,
        }
    }
}

/// The `dc.sh4.ubc` node.
pub open spec fn pbus_ubc_ok(n: DeviceNodeDescriptor, s: &ServerState) -> bool {
    &&& n.path@ == "dc.sh4.ubc"@
    &&& n.label@ == "UBC"@
    &&& n.description matches Some(d) && d@ == "User Break Controller"@
    &&& n.registers is None
    &&& n.events is None
    &&& n.actions matches Some(e) && strings_are(e@, seq!["ubc-registers"@])
    &&& n.children is None
}

impl ServerState {
    /// The `dc.sh4.ubc` node.
    pub fn pbus_ubc(&self) -> (n: DeviceNodeDescriptor)
        ensures
            pbus_ubc_ok(n, self),
    {
        let actions = Some(strings(&["ubc-registers"]));
        DeviceNodeDescriptor {
            path: owned("dc.sh4.ubc"),
            label: owned("UBC"),
            description: Some(owned("User Break Controller")),
            registers: None,
            events: None,
            actions: actions,
            children: None,
        }
    }
}

/// The `dc.sh4.sq` node.
pub open spec fn pbus_sq_ok(n: DeviceNodeDescriptor, s: &ServerState) -> bool {
    &&& n.path@ == "dc.sh4.sq"@
    &&& n.label@ == "SQ"@
    &&& n.description matches Some(d) && d@ == "Store Queues"@
    &&& n.registers is None
    &&& n.events is None
    &&& n.actions matches Some(e) && strings_are(e@, seq!["sq-contents"@])
    &&& n.children is None
}

impl ServerState {
    /// The `dc.sh4.sq` node.
    pub fn pbus_sq(&self) -> (n: DeviceNodeDescriptor)
        ensures
            pbus_sq_ok(n, self),
    {
        let actions = Some(strings(&["sq-contents"]));
        DeviceNodeDescriptor {
            path: owned("dc.sh4.sq"),
            label: owned("SQ"),
            description: Some(owned("Store Queues")),
            registers: None,
            events: None,
            actions: actions,
            children: None,
        }
    }
}

/// The `dc.sh4.icache` node.
pub open spec fn pbus_icache_ok(n: DeviceNodeDescriptor, s: &ServerState) -> bool {
    &&& n.path@ == "dc.sh4.icache"@
    &&& n.label@ == "ICACHE"@
    &&& n.description matches Some(d) && d@ == "Instruction Cache"@
    &&& n.registers is None
    &&& n.events is None
    &&& n.actions matches Some(e) && strings_are(e@, seq!["icache-contents"@])
    &&& n.children is None
}

impl ServerState {
    /// The `dc.sh4.icache` node.
    pub fn pbus_icache(&self) -> (n: DeviceNodeDescriptor)
        ensures
            pbus_icache_ok(n, self),
    {
        let actions = Some(strings(&["icache-contents"]));
        DeviceNodeDescriptor {
            path: owned("dc.sh4.icache"),
            label: owned("ICACHE"),
            description: Some(owned("Instruction Cache")),
            registers: None,
            events: None,
            actions: actions,
            children: None,
        }
    }
}

/// The `dc.sh4.ocache` node.
pub open spec fn pbus_ocache_ok(n: DeviceNodeDescriptor, s: &ServerState) -> bool {
    &&& n.path@ == "dc.sh4.ocache"@
    &&& n.label@ == "OCACHE"@
    &&& n.description matches Some(d) && d@ == "Operand Cache"@
    &&& n.registers is None
    &&& n.events is None
    &&& n.actions matches Some(e) && strings_are(e@, seq!["ocache-contents"@])
    &&& n.children is None
}

impl ServerState {
    /// The `dc.sh4.ocache` node.
    pub fn pbus_ocache(&self) -> (n: DeviceNodeDescriptor)
        ensures
            pbus_ocache_ok(n, self),
    {
        let actions = Some(strings(&["ocache-contents"]));
        DeviceNodeDescriptor {
            path: owned("dc.sh4.ocache"),
            label: owned("OCACHE"),
            description: Some(owned("Operand Cache")),
            registers: None,
            events: None,
            actions: actions,
            children: None,
        }
    }
}

/// The `dc.sh4.ocram` node.
pub open spec fn pbus_ocram_ok(n: DeviceNodeDescriptor, s: &ServerState) -> bool {
    &&& n.path@ == "dc.sh4.ocram"@
    &&& n.label@ == "OCRAM"@
    &&& n.description matches Some(d) && d@ == "Operand RAM"@
    &&& n.registers is None
    &&& n.events is None
    &&& n.actions matches Some(e) && strings_are(e@, seq!["ocram-contents"@])
    &&& n.children is None
}

impl ServerState {
    /// The `dc.sh4.ocram` node.
    pub fn pbus_ocram(&self) -> (n: DeviceNodeDescriptor)
        ensures
            pbus_ocram_ok(n, self),
    {
        let actions = Some(strings(&["ocram-contents"]));
        DeviceNodeDescriptor {
            path: owned("dc.sh4.ocram"),
            label: owned("OCRAM"),
            description: Some(owned("Operand RAM")),
            registers: None,
            events: None,
            actions: actions,
            children: None,
        }
    }
}

/// The `dc.sh4.tlb` node.
pub open spec fn pbus_tlb_ok(n: DeviceNodeDescriptor, s: &ServerState) -> bool {
    &&& n.path@ == "dc.sh4.tlb"@
    &&& n.label@ == "TLB"@
    &&& n.description matches Some(d) && d@ == "Translation Lookaside Buffer"@
    &&& n.registers is None
    &&& n.events is None
    &&& n.actions matches Some(e) && strings_are(e@, seq!["tlb-contents"@])
    &&& n.children is None
}

impl ServerState {
    /// The `dc.sh4.tlb` node.
    pub fn pbus_tlb(&self) -> (n: DeviceNodeDescriptor)
        ensures
            pbus_tlb_ok(n, self),
    {
        let actions = Some(strings(&["tlb-contents"]));
        DeviceNodeDescriptor {
            path: owned("dc.sh4.tlb"),
            label: owned("TLB"),
            description: Some(owned("Translation Lookaside Buffer")),
            registers: None,
            events: None,
            actions: actions,
            children: None,
        }
    }
}

/// The `dc.sh4.pbus` node.
pub open spec fn sh4_pbus_node_ok(n: DeviceNodeDescriptor, s: &ServerState) -> bool {
    &&& n.path@ == "dc.sh4.pbus"@
    &&& n.label@ == "PBUS"@
    &&& n.description matches Some(d) && d@ == "Peripherals Bus"@
    &&& n.registers is None
    &&& n.events is None
    &&& n.actions is None
    &&& n.children matches Some(c) && {
        &&& c@.len() == 15
        &&& pbus_bsc_ok(c@[0], s)
        &&& pbus_ccn_ok(c@[1], s)
        &&& pbus_cpg_ok(c@[2], s)
        &&& pbus_dmac_ok(c@[3], s)
        &&& pbus_intc_ok(c@[4], s)
        &&& pbus_rtc_ok(c@[5], s)
        &&& pbus_sci_ok(c@[6], s)
        &&& pbus_scif_ok(c@[7], s)
        &&& pbus_tmu_ok(c@[8], s)
        &&& pbus_ubc_ok(c@[9], s)
        &&& pbus_sq_ok(c@[10], s)
        &&& pbus_icache_ok(c@[11], s)
        &&& pbus_ocache_ok(c@[12], s)
        &&& pbus_ocram_ok(c@[13], s)
        &&& pbus_tlb_ok(c@[14], s)
    }
}

impl ServerState {
    /// The `dc.sh4.pbus` node.
    pub fn sh4_pbus_node(&self) -> (n: DeviceNodeDescriptor)
        ensures
            sh4_pbus_node_ok(n, self),
    {
        let mut kids: Vec<DeviceNodeDescriptor> = Vec::new();
        kids.push(self.pbus_bsc());
        kids.push(self.pbus_ccn());
        kids.push(self.pbus_cpg());
        kids.push(self.pbus_dmac());
        kids.push(self.pbus_intc());
        kids.push(self.pbus_rtc());
        kids.push(self.pbus_sci());
        kids.push(self.pbus_scif());
        kids.push(self.pbus_tmu());
        kids.push(self.pbus_ubc());
        kids.push(self.pbus_sq());
        kids.push(self.pbus_icache());
        kids.push(self.pbus_ocache());
        kids.push(self.pbus_ocram());
        kids.push(self.pbus_tlb());
        DeviceNodeDescriptor {
            path: owned("dc.sh4.pbus"),
            label: owned("PBUS"),
            description: Some(owned("Peripherals Bus")),
            registers: None,
            events: None,
            actions: None,
            children: Some(kids),
        }
    }
}

/// The `dc.sh4` node.
pub open spec fn sh4_node_ok(n: DeviceNodeDescriptor, s: &ServerState) -> bool {
    &&& n.path@ == "dc.sh4"@
    &&& n.label@ == "SH4"@
    &&& n.description matches Some(d) && d@ == "SH7750-alike SoC"@
    &&& n.registers matches Some(r) && {
        &&& r@.len() == 3
        &&& reg_ok(r@[0], "dc.sh4"@, "VBR"@, 32, s)
        &&& reg_ok(r@[1], "dc.sh4"@, "SR"@, 32, s)
        &&& reg_ok(r@[2], "dc.sh4"@, "FPSCR"@, 32, s)
    }
    &&& n.events matches Some(e) && strings_are(e@, seq!["dc.sh4.interrupt"@, "dc.sh4.exception"@, "dc.sh4.tlb_miss"@])
    &&& n.actions is None
    &&& n.children matches Some(c) && {
        &&& c@.len() == 2
        &&& sh4_cpu_node_ok(c@[0], s)
        &&& sh4_pbus_node_ok(c@[1], s)
    }
}

impl ServerState {
    /// The `dc.sh4` node.
    pub fn sh4_node(&self) -> (n: DeviceNodeDescriptor)
        ensures
            sh4_node_ok(n, self),
    {
        let mut regs: Vec<RegisterValue> = Vec::new();
        regs.push(self.register("dc.sh4", "VBR", 32));
        regs.push(self.register("dc.sh4", "SR", 32));
        regs.push(self.register("dc.sh4", "FPSCR", 32));
        let mut kids: Vec<DeviceNodeDescriptor> = Vec::new();
        kids.push(self.sh4_cpu_node());
        kids.push(self.sh4_pbus_node());
        let events = Some(strings(&["dc.sh4.interrupt", "dc.sh4.exception", "dc.sh4.tlb_miss"]));
        DeviceNodeDescriptor {
            path: owned("dc.sh4"),
            label: owned("SH4"),
            description: Some(owned("SH7750-alike SoC")),
            registers: Some(regs),
            events: events,
            actions: None,
            children: Some(kids),
        }
    }
}

/// The `dc.holly.dmac` node.
pub open spec fn holly_dmac_node_ok(n: DeviceNodeDescriptor, s: &ServerState) -> bool {
    &&& n.path@ == "dc.holly.dmac"@
    &&& n.label@ == "DMA Controller"@
    &&& n.description matches Some(d) && d@ == "peripheral"@
    &&& n.registers matches Some(r) && {
        &&& r@.len() == 2
        &&& reg_ok(r@[0], "dc.holly.dmac"@, "DMAOR"@, 16, s)
        &&& reg_ok(r@[1], "dc.holly.dmac"@, "CHCR0"@, 32, s)
    }
    &&& n.events matches Some(e) && strings_are(e@, seq!["dc.holly.dmac.transfer_start"@, "dc.holly.dmac.transfer_end"@])
    &&& n.actions is None
    &&& n.children is None
}

impl ServerState {
    /// The `dc.holly.dmac` node.
    pub fn holly_dmac_node(&self) -> (n: DeviceNodeDescriptor)
        ensures
            holly_dmac_node_ok(n, self),
    {
        let mut regs: Vec<RegisterValue> = Vec::new();
        regs.push(self.register("dc.holly.dmac", "DMAOR", 16));
        regs.push(self.register("dc.holly.dmac", "CHCR0", 32));
        let events = Some(strings(&["dc.holly.dmac.transfer_start", "dc.holly.dmac.transfer_end"]));
        DeviceNodeDescriptor {
            path: owned("dc.holly.dmac"),
            label: owned("DMA Controller"),
            description: Some(owned("peripheral")),
            registers: Some(regs),
            events: events,
            actions: None,
            children: None,
        }
    }
}

/// The `dc.holly.ta` node.
pub open spec fn holly_ta_node_ok(n: DeviceNodeDescriptor, s: &ServerState) -> bool {
    &&& n.path@ == "dc.holly.ta"@
    &&& n.label@ == "TA"@
    &&& n.description matches Some(d) && d@ == "Tile Accelerator"@
    &&& n.registers matches Some(r) && {
        &&& r@.len() == 2
        &&& reg_ok(r@[0], "dc.holly.ta"@, "TA_LIST_BASE"@, 32, s)
        &&& reg_ok(r@[1], "dc.holly.ta"@, "TA_STATUS"@, 32, s)
    }
    &&& n.events matches Some(e) && strings_are(e@, seq!["dc.holly.ta.list_init"@, "dc.holly.ta.list_end"@, "dc.holly.ta.opaque_complete"@, "dc.holly.ta.translucent_complete"@])
    &&& n.actions matches Some(e) && strings_are(e@, seq!["holly-ta"@])
    &&& n.children is None
}

impl ServerState {
    /// The `dc.holly.ta` node.
    pub fn holly_ta_node(&self) -> (n: DeviceNodeDescriptor)
        ensures
            holly_ta_node_ok(n, self),
    {
        let mut regs: Vec<RegisterValue> = Vec::new();
        regs.push(self.register("dc.holly.ta", "TA_LIST_BASE", 32));
        regs.push(self.register("dc.holly.ta", "TA_STATUS", 32));
        let events = Some(strings(&["dc.holly.ta.list_init", "dc.holly.ta.list_end", "dc.holly.ta.opaque_complete", "dc.holly.ta.translucent_complete"]));
        let actions = Some(strings(&["holly-ta"]));
        DeviceNodeDescriptor {
            path: owned("dc.holly.ta"),
            label: owned("TA"),
            description: Some(owned("Tile Accelerator")),
            registers: Some(regs),
            events: events,
            actions: actions,
            children: None,
        }
    }
}

/// The `dc.holly.core` node.
pub open spec fn holly_core_node_ok(n: DeviceNodeDescriptor, s: &ServerState) -> bool {
    &&& n.path@ == "dc.holly.core"@
    &&& n.label@ == "CORE"@
    &&& n.description matches Some(d) && d@ == "Depth and Shading Engine"@
    &&& n.registers matches Some(r) && {
        &&& r@.len() == 2
        &&& reg_ok(r@[0], "dc.holly.core"@, "PVR_CTRL"@, 32, s)
        &&& reg_ok(r@[1], "dc.holly.core"@, "PVR_STATUS"@, 32, s)
    }
    &&& n.events matches Some(e) && strings_are(e@, seq!["dc.holly.core.render_start"@, "dc.holly.core.render_end"@, "dc.holly.core.vblank"@])
    &&& n.actions matches Some(e) && strings_are(e@, seq!["holly-core"@])
    &&& n.children is None
}

impl ServerState {
    /// The `dc.holly.core` node.
    pub fn holly_core_node(&self) -> (n: DeviceNodeDescriptor)
        ensures
            holly_core_node_ok(n, self),
    {
        let mut regs: Vec<RegisterValue> = Vec::new();
        regs.push(self.register("dc.holly.core", "PVR_CTRL", 32));
        regs.push(self.register("dc.holly.core", "PVR_STATUS", 32));
        let events = Some(strings(&["dc.holly.core.render_start", "dc.holly.core.render_end", "dc.holly.core.vblank"]));
        let actions = Some(strings(&["holly-core"]));
        DeviceNodeDescriptor {
            path: owned("dc.holly.core"),
            label: owned("CORE"),
            description: Some(owned("Depth and Shading Engine")),
            registers: Some(regs),
            events: events,
            actions: actions,
            children: None,
        }
    }
}

/// The `dc.holly` node.
pub open spec fn holly_node_ok(n: DeviceNodeDescriptor, s: &ServerState) -> bool {
    &&& n.path@ == "dc.holly"@
    &&& n.label@ == "Holly"@
    &&& n.description matches Some(d) && d@ == "System ASIC"@
    &&& n.registers matches Some(r) && {
        &&& r@.len() == 2
        &&& reg_ok(r@[0], "dc.holly"@, "HOLLY_ID"@, 32, s)
        &&& reg_ok(r@[1], "dc.holly"@, "DMAC_CTRL"@, 32, s)
    }
    &&& n.events is None
    &&& n.actions is None
    &&& n.children matches Some(c) && {
        &&& c@.len() == 3
        &&& holly_dmac_node_ok(c@[0], s)
        &&& holly_ta_node_ok(c@[1], s)
        &&& holly_core_node_ok(c@[2], s)
    }
}

impl ServerState {
    /// The `dc.holly` node.
    pub fn holly_node(&self) -> (n: DeviceNodeDescriptor)
        ensures
            holly_node_ok(n, self),
    {
        let mut regs: Vec<RegisterValue> = Vec::new();
        regs.push(self.register("dc.holly", "HOLLY_ID", 32));
        regs.push(self.register("dc.holly", "DMAC_CTRL", 32));
        let mut kids: Vec<DeviceNodeDescriptor> = Vec::new();
        kids.push(self.holly_dmac_node());
        kids.push(self.holly_ta_node());
        kids.push(self.holly_core_node());
        DeviceNodeDescriptor {
            path: owned("dc.holly"),
            label: owned("Holly"),
            description: Some(owned("System ASIC")),
            registers: Some(regs),
            events: None,
            actions: None,
            children: Some(kids),
        }
    }
}

/// The `dc.aica.arm7` node.
pub open spec fn arm7_node_ok(n: DeviceNodeDescriptor, s: &ServerState) -> bool {
    &&& n.path@ == "dc.aica.arm7"@
    &&& n.label@ == "ARM7"@
    &&& n.description matches Some(d) && d@ == "ARM7DI CPU Core"@
    &&& n.registers matches Some(r) && {
        &&& r@.len() == 1
        &&& reg_ok(r@[0], "dc.aica.arm7"@, "PC"@, 32, s)
    }
    &&& n.events is None
    &&& n.actions matches Some(e) && strings_are(e@, seq!["arm7-disassembly"@, "arm7-memory"@])
    &&& n.children is None
}

impl ServerState {
    /// The `dc.aica.arm7` node.
    pub fn arm7_node(&self) -> (n: DeviceNodeDescriptor)
        ensures
            arm7_node_ok(n, self),
    {
        let mut regs: Vec<RegisterValue> = Vec::new();
        regs.push(self.register("dc.aica.arm7", "PC", 32));
        let actions = Some(strings(&["arm7-disassembly", "arm7-memory"]));
        DeviceNodeDescriptor {
            path: owned("dc.aica.arm7"),
            label: owned("ARM7"),
            description: Some(owned("ARM7DI CPU Core")),
            registers: Some(regs),
            events: None,
            actions: actions,
            children: None,
        }
    }
}

/// The `dc.aica.sgc.0` node.
pub open spec fn sgc_channel0_node_ok(n: DeviceNodeDescriptor, s: &ServerState) -> bool {
    &&& n.path@ == "dc.aica.sgc.0"@
    &&& n.label@ == "Channel 0"@
    &&& n.description matches Some(d) && d@ == "SGC Channel 0"@
    &&& n.registers matches Some(r) && {
        &&& r@.len() == 1
        &&& reg_ok(r@[0], "dc.aica.channels"@, "CH0_VOL"@, 8, s)
    }
    &&& n.events matches Some(e) && strings_are(e@, seq!["dc.aica.channel.0.key_on"@, "dc.aica.channel.0.key_off"@, "dc.aica.channel.0.loop"@])
    &&& n.actions is None
    &&& n.children is None
}

impl ServerState {
    /// The `dc.aica.sgc.0` node.
    pub fn sgc_channel0_node(&self) -> (n: DeviceNodeDescriptor)
        ensures
            sgc_channel0_node_ok(n, self),
    {
        let mut regs: Vec<RegisterValue> = Vec::new();
        regs.push(self.register("dc.aica.channels", "CH0_VOL", 8));
        let events = Some(strings(&["dc.aica.channel.0.key_on", "dc.aica.channel.0.key_off", "dc.aica.channel.0.loop"]));
        DeviceNodeDescriptor {
            path: owned("dc.aica.sgc.0"),
            label: owned("Channel 0"),
            description: Some(owned("SGC Channel 0")),
            registers: Some(regs),
            events: events,
            actions: None,
            children: None,
        }
    }
}

/// The `dc.aica.sgc.1` node.
pub open spec fn sgc_channel1_node_ok(n: DeviceNodeDescriptor, s: &ServerState) -> bool {
    &&& n.path@ == "dc.aica.sgc.1"@
    &&& n.label@ == "Channel 1"@
    &&& n.description matches Some(d) && d@ == "SGC Channel 1"@
    &&& n.registers matches Some(r) && {
        &&& r@.len() == 1
        &&& reg_ok(r@[0], "dc.aica.channels"@, "CH1_VOL"@, 8, s)
    }
    &&& n.events matches Some(e) && strings_are(e@, seq!["dc.aica.channel.0.key_on"@, "dc.aica.channel.0.key_off"@, "dc.aica.channel.0.loop"@])
    &&& n.actions is None
    &&& n.children is None
}

impl ServerState {
    /// The `dc.aica.sgc.1` node.
    pub fn sgc_channel1_node(&self) -> (n: DeviceNodeDescriptor)
        ensures
            sgc_channel1_node_ok(n, self),
    {
        let mut regs: Vec<RegisterValue> = Vec::new();
        regs.push(self.register("dc.aica.channels", "CH1_VOL", 8));
        let events = Some(strings(&["dc.aica.channel.0.key_on", "dc.aica.channel.0.key_off", "dc.aica.channel.0.loop"]));
        DeviceNodeDescriptor {
            path: owned("dc.aica.sgc.1"),
            label: owned("Channel 1"),
            description: Some(owned("SGC Channel 1")),
            registers: Some(regs),
            events: events,
            actions: None,
            children: None,
        }
    }
}

/// The `dc.aica.sgc` node.
pub open spec fn sgc_node_ok(n: DeviceNodeDescriptor, s: &ServerState) -> bool {
    &&& n.path@ == "dc.aica.sgc"@
    &&& n.label@ == "SGC"@
    &&& n.description matches Some(d) && d@ == "Sound Generation Core"@
    &&& n.registers is None
    &&& n.events matches Some(e) && strings_are(e@, seq!["dc.aica.channels.key_on"@, "dc.aica.channels.key_off"@, "dc.aica.channels.loop"@])
    &&& n.actions matches Some(e) && strings_are(e@, seq!["sgc"@])
    &&& n.children matches Some(c) && {
        &&& c@.len() == 2
        &&& sgc_channel0_node_ok(c@[0], s)
        &&& sgc_channel1_node_ok(c@[1], s)
    }
}

impl ServerState {
    /// The `dc.aica.sgc` node.
    pub fn sgc_node(&self) -> (n: DeviceNodeDescriptor)
        ensures
            sgc_node_ok(n, self),
    {
        let mut kids: Vec<DeviceNodeDescriptor> = Vec::new();
        kids.push(self.sgc_channel0_node());
        kids.push(self.sgc_channel1_node());
        let events = Some(strings(&["dc.aica.channels.key_on", "dc.aica.channels.key_off", "dc.aica.channels.loop"]));
        let actions = Some(strings(&["sgc"]));
        DeviceNodeDescriptor {
            path: owned("dc.aica.sgc"),
            label: owned("SGC"),
            description: Some(owned("Sound Generation Core")),
            registers: None,
            events: events,
            actions: actions,
            children: Some(kids),
        }
    }
}

/// The `dc.aica.dsp` node.
pub open spec fn dsp_node_ok(n: DeviceNodeDescriptor, s: &ServerState) -> bool {
    &&& n.path@ == "dc.aica.dsp"@
    &&& n.label@ == "DSP"@
    &&& n.description matches Some(d) && d@ == "DSP VLIW Core"@
    &&& n.registers matches Some(r) && {
        &&& r@.len() == 2
        &&& reg_ok(r@[0], "dc.aica.dsp"@, "STEP"@, 16, s)
        &&& reg_ok(r@[1], "dc.aica.dsp"@, "DSP_ACC"@, 16, s)
    }
    &&& n.events matches Some(e) && strings_are(e@, seq!["dc.aica.dsp.step"@, "dc.aica.dsp.sample_start"@])
    &&& n.actions matches Some(e) && strings_are(e@, seq!["dsp-disassembly"@])
    &&& n.children is None
}

impl ServerState {
    /// The `dc.aica.dsp` node.
    pub fn dsp_node(&self) -> (n: DeviceNodeDescriptor)
        ensures
            dsp_node_ok(n, self),
    {
        let mut regs: Vec<RegisterValue> = Vec::new();
        regs.push(self.register("dc.aica.dsp", "STEP", 16));
        regs.push(self.register("dc.aica.dsp", "DSP_ACC", 16));
        let events = Some(strings(&["dc.aica.dsp.step", "dc.aica.dsp.sample_start"]));
        let actions = Some(strings(&["dsp-disassembly"]));
        DeviceNodeDescriptor {
            path: owned("dc.aica.dsp"),
            label: owned("DSP"),
            description: Some(owned("DSP VLIW Core")),
            registers: Some(regs),
            events: events,
            actions: actions,
            children: None,
        }
    }
}

/// The `dc.aica` node.
pub open spec fn aica_node_ok(n: DeviceNodeDescriptor, s: &ServerState) -> bool {
    &&& n.path@ == "dc.aica"@
    &&& n.label@ == "AICA"@
    &&& n.description matches Some(d) && d@ == "Sound SoC"@
    &&& n.registers matches Some(r) && {
        &&& r@.len() == 2
        &&& reg_ok(r@[0], "dc.aica"@, "AICA_CTRL"@, 32, s)
        &&& reg_ok(r@[1], "dc.aica"@, "AICA_STATUS"@, 32, s)
    }
    &&& n.events matches Some(e) && strings_are(e@, seq!["dc.aica.interrupt"@, "dc.aica.timer"@])
    &&& n.actions is None
    &&& n.children matches Some(c) && {
        &&& c@.len() == 3
        &&& arm7_node_ok(c@[0], s)
        &&& sgc_node_ok(c@[1], s)
        &&& dsp_node_ok(c@[2], s)
    }
}

impl ServerState {
    /// The `dc.aica` node.
    pub fn aica_node(&self) -> (n: DeviceNodeDescriptor)
        ensures
            aica_node_ok(n, self),
    {
        let mut regs: Vec<RegisterValue> = Vec::new();
        regs.push(self.register("dc.aica", "AICA_CTRL", 32));
        regs.push(self.register("dc.aica", "AICA_STATUS", 32));
        let mut kids: Vec<DeviceNodeDescriptor> = Vec::new();
        kids.push(self.arm7_node());
        kids.push(self.sgc_node());
        kids.push(self.dsp_node());
        let events = Some(strings(&["dc.aica.interrupt", "dc.aica.timer"]));
        DeviceNodeDescriptor {
            path: owned("dc.aica"),
            label: owned("AICA"),
            description: Some(owned("Sound SoC")),
            registers: Some(regs),
            events: events,
            actions: None,
            children: Some(kids),
        }
    }
}

/// The `dc` node.
pub open spec fn root_node_ok(n: DeviceNodeDescriptor, s: &ServerState) -> bool {
    &&& n.path@ == "dc"@
    &&& n.label@ == "Dreamcast"@
    &&& n.description matches Some(d) && d@ == "beloved console"@
    &&& n.registers matches Some(r) && {
        &&& r@.len() == 2
        &&& reg_ok(r@[0], "dc"@, "SYSCLK"@, 0, s)
        &&& reg_ok(r@[1], "dc"@, "ASIC_REV"@, 16, s)
    }
    &&& n.events is None
    &&& n.actions is None
    &&& n.children matches Some(c) && {
        &&& c@.len() == 3
        &&& sh4_node_ok(c@[0], s)
        &&& holly_node_ok(c@[1], s)
        &&& aica_node_ok(c@[2], s)
    }
}

impl ServerState {
    /// The `dc` node.
    pub fn root_node(&self) -> (n: DeviceNodeDescriptor)
        ensures
            root_node_ok(n, self),
    {
        let mut regs: Vec<RegisterValue> = Vec::new();
        regs.push(self.register("dc", "SYSCLK", 0));
        regs.push(self.register("dc", "ASIC_REV", 16));
        let mut kids: Vec<DeviceNodeDescriptor> = Vec::new();
        kids.push(self.sh4_node());
        kids.push(self.holly_node());
        kids.push(self.aica_node());
        DeviceNodeDescriptor {
            path: owned("dc"),
            label: owned("Dreamcast"),
            description: Some(owned("beloved console")),
            registers: Some(regs),
            events: None,
            actions: None,
            children: Some(kids),
        }
    }
}

impl ServerState {
    /// The device tree: the single `dc` node with everything below it.
    pub fn build_device_tree(&self) -> (t: Vec<DeviceNodeDescriptor>)
        ensures
            t.len() == 1,
            root_node_ok(t@[0], self),
    {
        let mut t: Vec<DeviceNodeDescriptor> = Vec::new();
        t.push(self.root_node());
        t
    }
}

/// The register groups of a tree, in order: each node's non-empty
/// register list under its path, followed by those of its children.
pub open spec fn tree_registers(nodes: Seq<DeviceNodeDescriptor>) -> Seq<(String, Seq<RegisterValue>)>
    decreases nodes,
{
    if nodes.len() == 0 {
        Seq::empty()
    } else {
        let n = nodes.last();
        let own = match n.registers {
            Some(r) => if r@.len() > 0 { seq![(n.path, r@)] } else { Seq::empty() },
            None => Seq::empty(),
        };
        let kids = match n.children {
            Some(c) => {
                proof {
                    assert(decreases_to!(nodes => nodes[nodes.len() - 1]));
                    assert(decreases_to!(n => n.children));
                    assert(decreases_to!(n.children => c));
                    assert(decreases_to!(c => c@));
                }
                tree_registers(c@)
            },
            None => Seq::empty(),
        };
        tree_registers(nodes.drop_last()) + own + kids
    }
}

/// The groups with their register lists as sequences.
pub open spec fn groups_view(r: Seq<(String, Vec<RegisterValue>)>) -> Seq<(String, Seq<RegisterValue>)> {
    r.map_values(|p: (String, Vec<RegisterValue>)| (p.0, p.1@))
}

/// A copy of a register.
pub fn clone_register(r: &RegisterValue) -> (c: RegisterValue)
    ensures
        c == *r,
{
    RegisterValue { name: r.name.clone(), value: r.value.clone(), width: r.width }
}

/// A copy of a register list.
pub fn clone_registers(v: &Vec<RegisterValue>) -> (c: Vec<RegisterValue>)
    ensures
        c@ == v@,
{
    let mut c: Vec<RegisterValue> = Vec::new();
    let mut i: usize = 0;
    while i < v.len()
        invariant
            i <= v.len(),
            c@ == v@.subrange(0, i as int),
        decreases v.len() - i,
    {
        c.push(clone_register(&v[i]));
        i = i + 1;
    }
    assert(c@ =~= v@);
    c
}

/// The register groups of a tree: each node's non-empty register list
/// under its path, followed by those of its children.
pub fn collect_registers_from_tree(tree: &Vec<DeviceNodeDescriptor>) -> (r: Vec<(String, Vec<RegisterValue>)>)
    ensures
        groups_view(r@) == tree_registers(tree@),
    decreases tree@,
{
    let mut result: Vec<(String, Vec<RegisterValue>)> = Vec::new();
    let mut i: usize = 0;
    assert(groups_view(result@) =~= tree_registers(tree@.take(0)));
    while i < tree.len()
        invariant
            i <= tree.len(),
            groups_view(result@) == tree_registers(tree@.take(i as int)),
        decreases tree.len() - i,
    {
        let node = &tree[i];
        let ghost before = groups_view(result@);
        let ghost t = tree@.take(i + 1);
        assert(t.drop_last() =~= tree@.take(i as int));
        assert(t.last() == *node);
        match &node.registers {
            Some(regs) => {
                if regs.len() > 0 {
                    result.push((node.path.clone(), clone_registers(regs)));
                }
            },
            None => {},
        }
        let ghost mid = groups_view(result@);
        assert(mid =~= before + match node.registers {
            Some(r) => if r@.len() > 0 { seq![(node.path, r@)] } else { Seq::empty() },
            None => Seq::empty(),
        });
        match &node.children {
            Some(children) => {
                assert(decreases_to!(tree@ => children@)) by {
                    assert(decreases_to!(tree@ => tree@[i as int]));
                    assert(decreases_to!(tree@[i as int] => tree@[i as int].children));
                    assert(decreases_to!(tree@[i as int].children => *children));
                    assert(decreases_to!(*children => children@));
                }
                let sub = collect_registers_from_tree(children);
                let mut j: usize = 0;
                while j < sub.len()
                    invariant
                        j <= sub.len(),
                        groups_view(result@) == mid + groups_view(sub@).take(j as int),
                    decreases sub.len() - j,
                {
                    let g = &sub[j];
                    let ghost r0 = result@;
                    let item = (g.0.clone(), clone_registers(&g.1));
                    result.push(item);
                    assert(groups_view(result@) =~= groups_view(r0).push((g.0, g.1@)));
                    assert(groups_view(sub@).take(j + 1) =~= groups_view(sub@).take(j as int).push((g.0, g.1@)));
                    assert(groups_view(result@) =~= mid + groups_view(sub@).take(j + 1));
                    j = j + 1;
                }
                assert(groups_view(sub@).take(sub.len() as int) =~= groups_view(sub@));
            },
            None => {
                assert(groups_view(result@) =~= mid + Seq::empty());
            },
        }
        i = i + 1;
    }
    assert(tree@.take(tree.len() as int) =~= tree@);
    result
}

} // verus!
