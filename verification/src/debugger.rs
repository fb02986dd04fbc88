//! What the debugger server keeps between requests: register values by
//! path and name (standing in for devices the emulator does not model yet),
//! watches, breakpoints, breakpoint categories and the event log.

use vstd::prelude::*;
use crate::dreamcast::{Dreamcast, get_sh4_register, register_by_name, unicode_uppercase};
use crate::keyed::{entry_value, find_entry, set_entry};
use crate::numfmt::{hex_word, hex_word_text, decimal_string, owned, join_chars, parse_hex, parsed_hex,
    upper_hex_fixed, push_upper_hex_fixed};
use crate::text::{digits, str_chars, chars_to_string, all_ascii, ascii_lower};

verus! {

/// The most entries the event log keeps.
pub const EVENT_LOG_LIMIT: usize = 60;

/// One register as the debugger shows it.
pub struct RegisterValue {
    pub name: String,
    pub value: String,
    pub width: u32,
}

/// A breakpoint: on an event, or on code at an address.
pub struct BreakpointDescriptor {
    pub id: u32,
    pub event: String,
    pub address: Option<u64>,
    pub kind: String,
    pub enabled: bool,
}

/// A watched expression.
pub struct ServerWatch {
    pub id: u32,
    pub expression: String,
}

/// One entry of the event log.
pub struct EventLogEntry {
    pub event_id: String,
    pub timestamp: u64,
    pub subsystem: String,
    pub severity: String,
    pub message: String,
}

/// Whether the breakpoints of a category are muted or soloed.
#[derive(Clone, Copy, PartialEq, Eq, Structural, Debug)]
pub struct BreakpointCategoryState {
    pub muted: bool,
    pub soloed: bool,
}

/// The server's state.
pub struct ServerState {
    pub breakpoints: Vec<BreakpointDescriptor>,
    pub watches: Vec<ServerWatch>,
    pub register_values: Vec<(String, String)>,
    pub event_log: Vec<EventLogEntry>,
    pub category_states: Vec<(String, BreakpointCategoryState)>,
    pub is_running: bool,
    pub tick_id: u64,
    pub next_event_id: u64,
    pub next_watch_id: u32,
    pub next_breakpoint_id: u32,
}

/// Every id is below `next` and no two records share one.
pub open spec fn watch_ids_fresh(ws: Seq<ServerWatch>, next: u32) -> bool {
    &&& forall|i: int| 0 <= i < ws.len() ==> (#[trigger] ws[i]).id < next
    &&& forall|i: int, j: int| 0 <= i < j < ws.len() ==> (#[trigger] ws[i]).id != (#[trigger] ws[j]).id
}

/// Every id is below `next` and no two records share one.
pub open spec fn breakpoint_ids_fresh(bs: Seq<BreakpointDescriptor>, next: u32) -> bool {
    &&& forall|i: int| 0 <= i < bs.len() ==> (#[trigger] bs[i]).id < next
    &&& forall|i: int, j: int| 0 <= i < j < bs.len() ==> (#[trigger] bs[i]).id != (#[trigger] bs[j]).id
}

impl ServerState {
    /// Watch and breakpoint ids are fresh, and the event log is within its
    /// limit.
    pub open spec fn wf(&self) -> bool {
        &&& watch_ids_fresh(self.watches@, self.next_watch_id)
        &&& breakpoint_ids_fresh(self.breakpoints@, self.next_breakpoint_id)
        &&& self.event_log.len() <= EVENT_LOG_LIMIT
    }

    /// The text held for a register key.
    pub open spec fn reg_text(&self, key: Seq<char>) -> Option<Seq<char>> {
        match entry_value(self.register_values@, key) {
            Some(v) => Some(v@),
            None => None,
        }
    }
}

/// What std's `str::to_lowercase` makes of a string: Unicode's lowercase
/// mapping (which may change the length, and which for a final capital
/// sigma depends on the characters around it).
pub uninterp spec fn unicode_lowercase(s: Seq<char>) -> Seq<char>;

/// std's `str::to_lowercase`. The contract says that the result is the
/// Unicode lowercase mapping of the argument, named above, and that on an
/// ASCII string that mapping turns `A`..`Z` into `a`..`z` and keeps every
/// other character; beyond ASCII the mapping is left unstated.
#[verifier::external_body]
fn to_lowercase(s: &str) -> (r: String)
    ensures
        r@ == unicode_lowercase(s@),
        all_ascii(s@) ==> r@ == s@.map_values(|c: char| ascii_lower(c)),
{
    s.to_lowercase()
}

/// The key of register `name` under `path`: the path, a dot, and the name
/// in lowercase.
pub open spec fn register_key(path: Seq<char>, name: Seq<char>) -> Seq<char> {
    path + seq!['.'] + unicode_lowercase(name)
}

/// The key of register `name` under `path`.
pub fn make_register_key(path: &str, name: &str) -> (k: String)
    ensures
        k@ == register_key(path@, name@),
        all_ascii(name@) ==> unicode_lowercase(name@) == name@.map_values(|c: char| ascii_lower(c)),
{
    let lower = to_lowercase(name);
    let mut c = str_chars(path);
    c.push('.');
    let l = str_chars(lower.as_str());
    let all = join_chars(&c, &l);
    chars_to_string(all)
}

/// The text shown for a register with no value.
pub open spec fn zero_word_text() -> Seq<char> {
    "0x00000000"@
}

/// The value of a register: the text held under its key, or `0x00000000`.
pub open spec fn register_text(s: &ServerState, path: Seq<char>, name: Seq<char>) -> Seq<char> {
    match s.reg_text(register_key(path, name)) {
        Some(v) => v,
        None => zero_word_text(),
    }
}

impl ServerState {
    /// The value of register `name` under `path`.
    pub fn get_register_value(&self, path: &str, name: &str) -> (v: String)
        ensures
            v@ == register_text(self, path@, name@),
            all_ascii(name@) ==> unicode_lowercase(name@) == name@.map_values(|c: char| ascii_lower(c)),
    {
        let key = make_register_key(path, name);
        match find_entry(&self.register_values, &key) {
            Some(j) => self.register_values[j].1.clone(),
            None => owned("0x00000000"),
        }
    }

    /// Sets register `name` under `path` to `value`; every other key keeps
    /// its value.
    pub fn set_register_value(&mut self, path: &str, name: &str, value: String)
        requires
            old(self).wf(),
        ensures
            final(self).wf(),
            final(self).reg_text(register_key(path@, name@)) == Some(value@),
            forall|k: Seq<char>| k != register_key(path@, name@) ==> final(self).reg_text(k) == old(self).reg_text(k),
            *final(self) == (ServerState { register_values: final(self).register_values, ..*old(self) }),
    {
        let key = make_register_key(path, name);
        set_entry(&mut self.register_values, key, value);
    }

    /// Starts or stops the mock machine.
    pub fn set_running(&mut self, running: bool)
        ensures
            *final(self) == (ServerState { is_running: running, ..*old(self) }),
    {
        self.is_running = running;
    }
}

/// Reading a register back after `set_register_value` gives the value that
/// was set, and every register under another key reads as it did before.
/// `o` and `n` are the server before and after the call, as its contract
/// relates them.
pub proof fn lemma_register_read_back(
    o: ServerState,
    n: ServerState,
    path: Seq<char>,
    name: Seq<char>,
    value: Seq<char>,
    path2: Seq<char>,
    name2: Seq<char>,
)
    requires
        n.reg_text(register_key(path, name)) == Some(value),
        forall|k: Seq<char>| k != register_key(path, name) ==> n.reg_text(k) == o.reg_text(k),
    ensures
        register_text(&n, path, name) == value,
        register_key(path2, name2) != register_key(path, name) ==> register_text(&n, path2, name2) == register_text(&o, path2, name2),
{
}

/// Where a watch expression's path ends: at its last dot.
pub open spec fn last_dot(s: Seq<char>) -> Option<int>
    decreases s.len(),
{
    if s.len() == 0 {
        None
    } else if s.last() == '.' {
        Some(s.len() - 1)
    } else {
        last_dot(s.drop_last())
    }
}

proof fn lemma_last_dot_bounds(s: Seq<char>)
    ensures
        last_dot(s) matches Some(i) ==> 0 <= i < s.len() && s[i] == '.',
    decreases s.len(),
{
    if s.len() > 0 && s.last() != '.' {
        lemma_last_dot_bounds(s.drop_last());
    }
}

/// The path and register name of a watch expression: split at the last
/// dot, or `dc.sh4.cpu` and the whole expression when there is none.
pub open spec fn split_watch(e: Seq<char>) -> (Seq<char>, Seq<char>) {
    match last_dot(e) {
        Some(i) => (e.subrange(0, i), e.subrange(i + 1, e.len() as int)),
        None => ("dc.sh4.cpu"@, e),
    }
}

/// The path and register name of a watch expression.
pub fn split_watch_expression(e: &str) -> (r: (String, String))
    ensures
        r.0@ == split_watch(e@).0,
        r.1@ == split_watch(e@).1,
{
    let c = str_chars(e);
    let mut i = c.len();
    assert(c@.take(i as int) =~= c@);
    while i > 0
        invariant
            i <= c.len(),
            c@ == e@,
            last_dot(c@) == last_dot(c@.take(i as int)),
        decreases i,
    {
        let ghost pre = c@.take(i as int);
        assert(pre.drop_last() =~= c@.take(i - 1));
        if c[i - 1] == '.' {
            let mut p: Vec<char> = Vec::new();
            let mut k: usize = 0;
            while k < i - 1
                invariant
                    k <= i - 1,
                    i <= c.len(),
                    p@ == c@.subrange(0, k as int),
                decreases i - 1 - k,
            {
                p.push(c[k]);
                k = k + 1;
            }
            let mut n: Vec<char> = Vec::new();
            let mut k2: usize = i;
            while k2 < c.len()
                invariant
                    i <= k2 <= c.len(),
                    n@ == c@.subrange(i as int, k2 as int),
                decreases c.len() - k2,
            {
                n.push(c[k2]);
                k2 = k2 + 1;
            }
            return (chars_to_string(p), chars_to_string(n));
        }
        i = i - 1;
    }
    (owned("dc.sh4.cpu"), owned(e))
}

/// The value a watch expression shows: with a machine attached, a CPU
/// register under `dc.sh4.cpu` that the machine knows is read from it (as
/// `0x` and eight uppercase hex digits); otherwise the register's held text.
pub open spec fn watch_text(s: &ServerState, dc: Option<&Dreamcast>, e: Seq<char>) -> Seq<char> {
    let (path, name) = split_watch(e);
    match dc {
        Some(d) => if path == "dc.sh4.cpu"@ {
            match register_by_name(d.ctx, unicode_uppercase(name), name) {
                Some(v) => hex_word_text(v),
                None => register_text(s, path, name),
            }
        } else {
            register_text(s, path, name)
        },
        None => register_text(s, path, name),
    }
}

impl ServerState {
    /// The value a watch expression shows.
    pub fn evaluate_watch_expression(&self, dc: Option<&Dreamcast>, expression: &str) -> (v: String)
        ensures
            v@ == watch_text(self, dc, expression@),
    {
        let (path, name) = split_watch_expression(expression);
        match dc {
            Some(d) => {
                if path == owned("dc.sh4.cpu") {
                    match get_sh4_register(d, name.as_str()) {
                        Some(value) => {
                            return hex_word(value);
                        },
                        None => {},
                    }
                }
            },
            None => {},
        }
        self.get_register_value(path.as_str(), name.as_str())
    }
}

/// `prefix`, the decimal digits of `v`, and `suffix`.
pub open spec fn numbered(prefix: Seq<char>, v: nat, suffix: Seq<char>) -> Seq<char> {
    prefix + digits(v, 10) + suffix
}

/// `prefix`, the decimal digits of `v`, and `suffix`.
pub fn numbered_text(prefix: &str, v: u64, suffix: &str) -> (r: String)
    ensures
        r@ == numbered(prefix@, v as nat, suffix@),
{
    let a = str_chars(prefix);
    let d = str_chars(decimal_string(v).as_str());
    let b = str_chars(suffix);
    let ad = join_chars(&a, &d);
    chars_to_string(join_chars(&ad, &b))
}

/// The subsystem, severity and message of the sample event `counter`: the
/// six generators (TA, core, DSP, AICA, SH4, Holly) take turns.
pub open spec fn frame_event_text(counter: u64) -> (Seq<char>, Seq<char>, Seq<char>) {
    let g = counter % 6;
    if g == 0 {
        ("ta"@, "info"@, numbered("TA/END_LIST tile "@, (counter % 32) as nat, ""@))
    } else if g == 1 {
        let phase = counter % 3;
        if phase == 0 {
            ("core"@, "info"@, "CORE/START_RENDER"@)
        } else if phase == 1 {
            ("core"@, "trace"@, "CORE/QUEUE_SUBMISSION"@)
        } else {
            ("core"@, "info"@, "CORE/END_RENDER"@)
        }
    } else if g == 2 {
        ("dsp"@, "trace"@, numbered("DSP/STEP pipeline advanced ("@, (counter % 8) as nat, ")"@))
    } else if g == 3 {
        ("aica"@, "info"@, numbered("AICA/SGC/STEP channel "@, (counter % 2) as nat, ""@))
    } else if g == 4 {
        ("sh4"@, "warn"@, numbered("SH4/INTERRUPT IRQ"@, (counter % 6 + 1) as nat, " asserted"@))
    } else {
        ("holly"@, "info"@, numbered("HOLLY/START_RENDER pass "@, (counter % 4 + 1) as nat, ""@))
    }
}

/// The subsystem, severity and message of the sample event `counter`.
pub fn frame_event(counter: u64) -> (r: (String, String, String))
    ensures
        r.0@ == frame_event_text(counter).0,
        r.1@ == frame_event_text(counter).1,
        r.2@ == frame_event_text(counter).2,
{
    let g = counter % 6;
    if g == 0 {
        (owned("ta"), owned("info"), numbered_text("TA/END_LIST tile ", counter % 32, ""))
    } else if g == 1 {
        let phase = counter % 3;
        if phase == 0 {
            (owned("core"), owned("info"), owned("CORE/START_RENDER"))
        } else if phase == 1 {
            (owned("core"), owned("trace"), owned("CORE/QUEUE_SUBMISSION"))
        } else {
            (owned("core"), owned("info"), owned("CORE/END_RENDER"))
        }
    } else if g == 2 {
        (owned("dsp"), owned("trace"), numbered_text("DSP/STEP pipeline advanced (", counter % 8, ")"))
    } else if g == 3 {
        (owned("aica"), owned("info"), numbered_text("AICA/SGC/STEP channel ", counter % 2, ""))
    } else if g == 4 {
        (owned("sh4"), owned("warn"), numbered_text("SH4/INTERRUPT IRQ", counter % 6 + 1, " asserted"))
    } else {
        (owned("holly"), owned("info"), numbered_text("HOLLY/START_RENDER pass ", counter % 4 + 1, ""))
    }
}

/// `e` is the sample event `id`, stamped `now`.
pub open spec fn is_frame_event(e: EventLogEntry, id: u64, now: u64) -> bool {
    &&& e.event_id@ == digits(id as nat, 10)
    &&& e.timestamp == now
    &&& e.subsystem@ == frame_event_text(id).0
    &&& e.severity@ == frame_event_text(id).1
    &&& e.message@ == frame_event_text(id).2
}

/// The sample event `event_id`, stamped `now`.
pub fn create_frame_event_with_id(event_id: u64, now: u64) -> (e: EventLogEntry)
    ensures
        is_frame_event(e, event_id, now),
{
    let (subsystem, severity, message) = frame_event(event_id);
    EventLogEntry { event_id: decimal_string(event_id), timestamp: now, subsystem, severity, message }
}

/// The event log a server starts with: sample events 1 to 6, and 7 as the
/// next event id.
pub fn initial_event_log(now: u64) -> (r: (Vec<EventLogEntry>, u64))
    ensures
        r.0.len() == 6,
        forall|i: int| 0 <= i < 6 ==> is_frame_event(#[trigger] r.0@[i], (i + 1) as u64, now),
        r.1 == 7,
{
    let mut log: Vec<EventLogEntry> = Vec::new();
    let mut id: u64 = 1;
    while id <= 6
        invariant
            1 <= id <= 7,
            log.len() == id - 1,
            forall|i: int| 0 <= i < id - 1 ==> is_frame_event(#[trigger] log@[i], (i + 1) as u64, now),
        decreases 7 - id,
    {
        log.push(create_frame_event_with_id(id, now));
        id = id + 1;
    }
    (log, 7)
}

/// The watched expressions a server starts with.
pub open spec fn default_watch(i: int) -> Seq<char> {
    if i == 0 { "dc.sh4.cpu.pc"@ } else { "dc.sh4.dmac.dmaor"@ }
}

/// The breakpoint categories a server starts with.
pub open spec fn default_category(i: int) -> Seq<char> {
    if i == 0 { "events"@ } else if i == 1 { "sh4"@ } else if i == 2 { "arm7"@ } else { "dsp"@ }
}

/// The register values a server starts with, by key.
pub open spec fn initial_registers() -> Seq<(Seq<char>, Seq<char>)> {
    seq![
        ("dc.sh4.cpu.pc"@, "0x8C0000A0"@),
        ("dc.sh4.cpu.pr"@, "0x8C0000A2"@),
        ("dc.sh4.vbr"@, "0x8C000000"@),
        ("dc.sh4.sr"@, "0x40000000"@),
        ("dc.sh4.fpscr"@, "0x00040001"@),
        ("dc.sh4.cpu.gbr"@, "0x8C000100"@),
        ("dc.sh4.cpu.mach"@, "0x00000000"@),
        ("dc.sh4.cpu.macl"@, "0x00000000"@),
        ("dc.sh4.cpu.fpul"@, "0x00000000"@),
        ("dc.sh4.icache.icache_ctrl"@, "0x00000003"@),
        ("dc.sh4.dcache.dcache_ctrl"@, "0x00000003"@),
        ("dc.sh4.dmac.dmaor"@, "0x8201"@),
        ("dc.holly.holly_id"@, "0x00050000"@),
        ("dc.holly.dmac_ctrl"@, "0x00000001"@),
        ("dc.holly.dmac.dmaor"@, "0x8201"@),
        ("dc.holly.dmac.chcr0"@, "0x00000001"@),
        ("dc.holly.ta.ta_list_base"@, "0x0C000000"@),
        ("dc.holly.ta.ta_status"@, "0x00000000"@),
        ("dc.holly.core.pvr_ctrl"@, "0x00000001"@),
        ("dc.holly.core.pvr_status"@, "0x00010000"@),
        ("dc.aica.aica_ctrl"@, "0x00000002"@),
        ("dc.aica.aica_status"@, "0x00000001"@),
        ("dc.aica.arm7.pc"@, "0x00200010"@),
        ("dc.aica.channels.ch0_vol"@, "0x7F"@),
        ("dc.aica.channels.ch1_vol"@, "0x6A"@),
        ("dc.aica.dsp.step"@, "0x000"@),
        ("dc.aica.dsp.dsp_acc"@, "0x1F"@),
        ("dc.sysclk"@, "200MHz"@),
        ("dc.asic_rev"@, "0x0001"@),
    ]
}

fn push_register(v: &mut Vec<(String, String)>, key: &str, value: &str)
    ensures
        final(v)@.len() == old(v)@.len() + 1,
        forall|i: int| 0 <= i < old(v)@.len() ==> final(v)@[i] == old(v)@[i],
        final(v)@.last().0@ == key@,
        final(v)@.last().1@ == value@,
{
    v.push((owned(key), owned(value)));
}

impl ServerState {
    /// A fresh server: the sample register values, the two default watches
    /// (ids 1 and 2), four breakpoint categories neither muted nor soloed,
    /// sample events 1 to 6 stamped `now`, no breakpoints, and running.
    pub fn new(now: u64) -> (s: Self)
        ensures
            s.wf(),
            s.register_values.len() == initial_registers().len(),
            forall|i: int| 0 <= i < initial_registers().len() ==> {
                &&& (#[trigger] s.register_values@[i]).0@ == initial_registers()[i].0
                &&& s.register_values@[i].1@ == initial_registers()[i].1
            },
            s.watches.len() == 2,
            forall|i: int| 0 <= i < 2 ==> (#[trigger] s.watches@[i]).id == i + 1 && s.watches@[i].expression@ == default_watch(i),
            s.category_states.len() == 4,
            forall|i: int| 0 <= i < 4 ==> (#[trigger] s.category_states@[i]).0@ == default_category(i)
                && s.category_states@[i].1 == (BreakpointCategoryState { muted: false, soloed: false }),
            s.event_log.len() == 6,
            forall|i: int| 0 <= i < 6 ==> is_frame_event(#[trigger] s.event_log@[i], (i + 1) as u64, now),
            s.breakpoints.len() == 0,
            s.is_running,
            s.tick_id == 0,
            s.next_event_id == 7,
            s.next_watch_id == 3,
            s.next_breakpoint_id == 1,
    {
        let mut r: Vec<(String, String)> = Vec::new();
        push_register(&mut r, "dc.sh4.cpu.pc", "0x8C0000A0");
        push_register(&mut r, "dc.sh4.cpu.pr", "0x8C0000A2");
        push_register(&mut r, "dc.sh4.vbr", "0x8C000000");
        push_register(&mut r, "dc.sh4.sr", "0x40000000");
        push_register(&mut r, "dc.sh4.fpscr", "0x00040001");
        push_register(&mut r, "dc.sh4.cpu.gbr", "0x8C000100");
        push_register(&mut r, "dc.sh4.cpu.mach", "0x00000000");
        push_register(&mut r, "dc.sh4.cpu.macl", "0x00000000");
        push_register(&mut r, "dc.sh4.cpu.fpul", "0x00000000");
        push_register(&mut r, "dc.sh4.icache.icache_ctrl", "0x00000003");
        push_register(&mut r, "dc.sh4.dcache.dcache_ctrl", "0x00000003");
        push_register(&mut r, "dc.sh4.dmac.dmaor", "0x8201");
        push_register(&mut r, "dc.holly.holly_id", "0x00050000");
        push_register(&mut r, "dc.holly.dmac_ctrl", "0x00000001");
        push_register(&mut r, "dc.holly.dmac.dmaor", "0x8201");
        push_register(&mut r, "dc.holly.dmac.chcr0", "0x00000001");
        push_register(&mut r, "dc.holly.ta.ta_list_base", "0x0C000000");
        push_register(&mut r, "dc.holly.ta.ta_status", "0x00000000");
        push_register(&mut r, "dc.holly.core.pvr_ctrl", "0x00000001");
        push_register(&mut r, "dc.holly.core.pvr_status", "0x00010000");
        push_register(&mut r, "dc.aica.aica_ctrl", "0x00000002");
        push_register(&mut r, "dc.aica.aica_status", "0x00000001");
        push_register(&mut r, "dc.aica.arm7.pc", "0x00200010");
        push_register(&mut r, "dc.aica.channels.ch0_vol", "0x7F");
        push_register(&mut r, "dc.aica.channels.ch1_vol", "0x6A");
        push_register(&mut r, "dc.aica.dsp.step", "0x000");
        push_register(&mut r, "dc.aica.dsp.dsp_acc", "0x1F");
        push_register(&mut r, "dc.sysclk", "200MHz");
        push_register(&mut r, "dc.asic_rev", "0x0001");

        let mut watches: Vec<ServerWatch> = Vec::new();
        watches.push(ServerWatch { id: 1, expression: owned("dc.sh4.cpu.pc") });
        watches.push(ServerWatch { id: 2, expression: owned("dc.sh4.dmac.dmaor") });

        let mut categories: Vec<(String, BreakpointCategoryState)> = Vec::new();
        categories.push((owned("events"), BreakpointCategoryState { muted: false, soloed: false }));
        categories.push((owned("sh4"), BreakpointCategoryState { muted: false, soloed: false }));
        categories.push((owned("arm7"), BreakpointCategoryState { muted: false, soloed: false }));
        categories.push((owned("dsp"), BreakpointCategoryState { muted: false, soloed: false }));

        let (event_log, next_event_id) = initial_event_log(now);

        ServerState {
            breakpoints: Vec::new(),
            watches,
            register_values: r,
            event_log,
            category_states: categories,
            is_running: true,
            tick_id: 0,
            next_event_id,
            next_watch_id: 3,
            next_breakpoint_id: 1,
        }
    }
}

impl ServerState {
    /// Takes the next event id: returns it and moves the counter on.
    pub fn next_event_id(&mut self) -> (id: u64)
        requires
            old(self).next_event_id < u64::MAX,
        ensures
            id == old(self).next_event_id,
            *final(self) == (ServerState { next_event_id: (old(self).next_event_id + 1) as u64, ..*old(self) }),
    {
        let id = self.next_event_id;
        self.next_event_id = id + 1;
        id
    }

    /// Appends an event stamped `now` (an entry without an id gets the next
    /// event id), keeping only the newest `EVENT_LOG_LIMIT` entries.
    pub fn push_event(&mut self, entry: EventLogEntry, now: u64)
        requires
            old(self).wf(),
            old(self).next_event_id < u64::MAX,
        ensures
            final(self).wf(),
            ({
                let numbered = old(self).event_log.len() + 1;
                let kept = if numbered > EVENT_LOG_LIMIT { old(self).event_log@.drop_first() } else { old(self).event_log@ };
                &&& final(self).event_log@.drop_last() == kept
                &&& final(self).event_log@.len() == kept.len() + 1
            }),
            final(self).event_log@.last().timestamp == now,
            final(self).event_log@.last().subsystem == entry.subsystem,
            final(self).event_log@.last().severity == entry.severity,
            final(self).event_log@.last().message == entry.message,
            entry.event_id@.len() == 0 ==> final(self).event_log@.last().event_id@ == digits(old(self).next_event_id as nat, 10)
                && final(self).next_event_id == old(self).next_event_id + 1,
            entry.event_id@.len() != 0 ==> final(self).event_log@.last().event_id == entry.event_id
                && final(self).next_event_id == old(self).next_event_id,
            *final(self) == (ServerState { event_log: final(self).event_log, next_event_id: final(self).next_event_id, ..*old(self) }),
    {
        let mut entry = entry;
        if entry.event_id.as_str().unicode_len() == 0 {
            let id = self.next_event_id();
            entry.event_id = decimal_string(id);
        }
        entry.timestamp = now;
        let ghost old_log = self.event_log@;
        self.event_log.push(entry);
        if self.event_log.len() > EVENT_LOG_LIMIT {
            self.event_log.remove(0);
            assert(self.event_log@.drop_last() =~= old_log.drop_first());
        } else {
            assert(self.event_log@.drop_last() =~= old_log);
        }
    }
}

/// `s` in ASCII lowercase, as `str::to_ascii_lowercase` gives it.
pub open spec fn ascii_lowercase(s: Seq<char>) -> Seq<char> {
    s.map_values(|c: char| if 'A' <= c && c <= 'Z' { (((c as u32) + 32) as u8) as char } else { c })
}

/// `str::to_ascii_lowercase`.
pub fn to_ascii_lowercase(s: &str) -> (r: Vec<char>)
    ensures
        r@ == ascii_lowercase(s@),
{
    let c = str_chars(s);
    let mut r: Vec<char> = Vec::new();
    let mut i: usize = 0;
    while i < c.len()
        invariant
            i <= c.len(),
            c@ == s@,
            r@ == ascii_lowercase(s@).subrange(0, i as int),
        decreases c.len() - i,
    {
        let ch = c[i];
        let lc = if 'A' <= ch && ch <= 'Z' { (((ch as u32) + 32) as u8) as char } else { ch };
        r.push(lc);
        assert(r@ =~= ascii_lowercase(s@).subrange(0, i + 1));
        i = i + 1;
    }
    assert(r@ =~= ascii_lowercase(s@));
    r
}

/// Whether `p` occurs in `s`.
pub open spec fn contains_text(s: Seq<char>, p: Seq<char>) -> bool {
    exists|i: int| 0 <= i && i + p.len() <= s.len() && #[trigger] s.subrange(i, i + p.len()) == p
}

/// Whether `p` occurs in `s`.
pub fn contains_chars(s: &Vec<char>, p: &str) -> (r: bool)
    ensures
        r == contains_text(s@, p@),
{
    let pc = str_chars(p);
    if pc.len() > s.len() {
        return false;
    }
    let mut i: usize = 0;
    while i <= s.len() - pc.len()
        invariant
            pc@ == p@,
            pc.len() <= s.len(),
            i <= s.len() - pc.len() + 1,
            forall|j: int| 0 <= j < i ==> #[trigger] s@.subrange(j, j + pc.len()) != pc@,
        decreases s.len() - i,
    {
        let mut k: usize = 0;
        let mut same = true;
        while k < pc.len()
            invariant
                k <= pc.len(),
                i + pc.len() <= s.len(),
                same == forall|t: int| 0 <= t < k ==> s@[i + t] == pc@[t],
            decreases pc.len() - k,
        {
            if s[i + k] != pc[k] {
                same = false;
            }
            k = k + 1;
        }
        if same {
            assert(s@.subrange(i as int, i + pc.len()) =~= pc@);
            return true;
        }
        assert(s@.subrange(i as int, i + pc.len()) != pc@) by {
            let t = choose|t: int| 0 <= t < pc.len() && s@[i + t] != pc@[t];
            assert(s@.subrange(i as int, i + pc.len())[t] != pc@[t]);
        }
        i = i + 1;
    }
    false
}

/// The text after a leading `0x`, if it has one.
pub open spec fn after_hex_prefix(t: Seq<char>) -> Option<Seq<char>> {
    if t.len() >= 2 && t[0] == '0' && t[1] == 'x' { Some(t.subrange(2, t.len() as int)) } else { None }
}

/// The 32-bit value written as `0x` and hex digits, if it is one.
pub open spec fn hex_register_value(t: Seq<char>) -> Option<u32> {
    match after_hex_prefix(t) {
        Some(d) => match parsed_hex(d, 0x1_0000_0000) {
            Some(v) => Some(v as u32),
            None => None,
        },
        None => None,
    }
}

fn read_hex_register(t: &String) -> (r: Option<u32>)
    ensures
        r == hex_register_value(t@),
{
    let c = str_chars(t.as_str());
    if c.len() < 2 || c[0] != '0' || c[1] != 'x' {
        return None;
    }
    let mut d: Vec<char> = Vec::new();
    let mut i: usize = 2;
    while i < c.len()
        invariant
            2 <= i <= c.len(),
            c@ == t@,
            d@ == c@.subrange(2, i as int),
        decreases c.len() - i,
    {
        d.push(c[i]);
        i = i + 1;
    }
    match parse_hex(&d, 0x1_0000_0000) {
        Some(v) => Some(v as u32),
        None => None,
    }
}

/// A program counter that cycles through `period` slots of `step` bytes
/// from `base`: the next slot after `pc`.
pub open spec fn cycled_pc(pc: u32, base: u32, step: u32, period: u32) -> u32 {
    (base + (pc.wrapping_sub(base).wrapping_add(step) % period)) as u32
}

/// `0x` and three uppercase hexadecimal digits, as `0x{:03X}` prints a
/// value below 0x1000.
pub open spec fn hex3_text(v: u32) -> Seq<char> {
    seq!['0', 'x'] + upper_hex_fixed(v as nat, 3)
}

/// The key of the SH4 program counter.
pub open spec fn sh4_pc_key() -> Seq<char> { register_key("dc.sh4.cpu"@, "PC"@) }
/// The key of the ARM7 program counter.
pub open spec fn arm7_pc_key() -> Seq<char> { register_key("dc.aica.arm7"@, "PC"@) }
/// The key of the DSP step.
pub open spec fn dsp_step_key() -> Seq<char> { register_key("dc.aica.dsp"@, "STEP"@) }

/// The register a step of the mock machine moves for `target`, and its
/// next text: for a target naming `sh4` the SH4 PC moves to the next of
/// eight 2-byte slots from 0x8C0000A0; otherwise for `arm7` the ARM7 PC to
/// the next of eight 4-byte slots from 0x00200010; otherwise for `dsp` the
/// DSP step to the next of eight. `None` when the target names none of
/// them or the value does not read as `0x` and hex digits.
pub open spec fn mock_step_change(o: ServerState, target: Seq<char>) -> Option<(Seq<char>, Seq<char>)> {
    let t = ascii_lowercase(target);
    if contains_text(t, "sh4"@) {
        match hex_register_value(register_text(&o, "dc.sh4.cpu"@, "PC"@)) {
            Some(pc) => Some((sh4_pc_key(), hex_word_text(cycled_pc(pc, 0x8C00_00A0, 2, 16)))),
            None => None,
        }
    } else if contains_text(t, "arm7"@) {
        match hex_register_value(register_text(&o, "dc.aica.arm7"@, "PC"@)) {
            Some(pc) => Some((arm7_pc_key(), hex_word_text(cycled_pc(pc, 0x0020_0010, 4, 32)))),
            None => None,
        }
    } else if contains_text(t, "dsp"@) {
        match hex_register_value(register_text(&o, "dc.aica.dsp"@, "STEP"@)) {
            Some(v) => Some((dsp_step_key(), hex3_text(v.wrapping_add(1) % 8))),
            None => None,
        }
    } else {
        None
    }
}

/// What a step of the mock machine does to the register texts.
pub open spec fn mock_stepped(o: ServerState, n: ServerState, target: Seq<char>) -> bool {
    match mock_step_change(o, target) {
        Some((key, text)) => {
            &&& n.reg_text(key) == Some(text)
            &&& forall|k: Seq<char>| k != key ==> n.reg_text(k) == o.reg_text(k)
            &&& n == (ServerState { register_values: n.register_values, ..o })
        },
        None => n == o,
    }
}

impl ServerState {
    fn advance_pc(&mut self, path: &str, base: u32, step: u32, period: u32)
        requires
            old(self).wf(),
            period > 0,
            base + period <= 0xFFFF_FFFF,
        ensures
            final(self).wf(),
            match hex_register_value(register_text(old(self), path@, "PC"@)) {
                Some(pc) => {
                    &&& final(self).reg_text(register_key(path@, "PC"@)) == Some(hex_word_text(cycled_pc(pc, base, step, period)))
                    &&& forall|k: Seq<char>| k != register_key(path@, "PC"@) ==> final(self).reg_text(k) == old(self).reg_text(k)
                    &&& *final(self) == (ServerState { register_values: final(self).register_values, ..*old(self) })
                },
                None => *final(self) == *old(self),
            },
    {
        let text = self.get_register_value(path, "PC");
        match read_hex_register(&text) {
            Some(pc) => {
                let offset = pc.wrapping_sub(base);
                let new_pc = base + offset.wrapping_add(step) % period;
                self.set_register_value(path, "PC", hex_word(new_pc));
            },
            None => {},
        }
    }

    /// One step of the mock machine for `target` (see `mock_stepped`).
    pub fn increment_program_counter(&mut self, target: &str)
        requires
            old(self).wf(),
        ensures
            final(self).wf(),
            mock_stepped(*old(self), *final(self), target@),
    {
        let t = to_ascii_lowercase(target);
        if contains_chars(&t, "sh4") {
            self.advance_pc("dc.sh4.cpu", 0x8C00_00A0, 2, 16);
        } else if contains_chars(&t, "arm7") {
            self.advance_pc("dc.aica.arm7", 0x0020_0010, 4, 32);
        } else if contains_chars(&t, "dsp") {
            let text = self.get_register_value("dc.aica.dsp", "STEP");
            match read_hex_register(&text) {
                Some(step) => {
                    let next = step.wrapping_add(1) % 8;
                    let mut c: Vec<char> = Vec::new();
                    c.push('0');
                    c.push('x');
                    push_upper_hex_fixed(&mut c, next as u64, 3);
                    assert(c@ =~= hex3_text(next));
                    self.set_register_value("dc.aica.dsp", "STEP", chars_to_string(c));
                },
                None => {},
            }
        }
    }
}

/// The position of the watch with id `id`.
pub open spec fn watch_pos(ws: Seq<ServerWatch>, id: u32) -> Option<int>
    decreases ws.len(),
{
    if ws.len() == 0 {
        None
    } else if ws.last().id == id {
        Some(ws.len() - 1)
    } else {
        watch_pos(ws.drop_last(), id)
    }
}

/// The position of the breakpoint with id `id`.
pub open spec fn breakpoint_pos(bs: Seq<BreakpointDescriptor>, id: u32) -> Option<int>
    decreases bs.len(),
{
    if bs.len() == 0 {
        None
    } else if bs.last().id == id {
        Some(bs.len() - 1)
    } else {
        breakpoint_pos(bs.drop_last(), id)
    }
}

pub proof fn lemma_watch_pos(ws: Seq<ServerWatch>, id: u32)
    ensures
        watch_pos(ws, id) matches Some(p) ==> 0 <= p < ws.len() && ws[p].id == id,
        watch_pos(ws, id) is None ==> forall|i: int| 0 <= i < ws.len() ==> ws[i].id != id,
    decreases ws.len(),
{
    if ws.len() > 0 && ws.last().id != id {
        lemma_watch_pos(ws.drop_last(), id);
        assert forall|i: int| 0 <= i < ws.len() - 1 implies ws[i] == ws.drop_last()[i] by {}
    }
}

pub proof fn lemma_breakpoint_pos(bs: Seq<BreakpointDescriptor>, id: u32)
    ensures
        breakpoint_pos(bs, id) matches Some(p) ==> 0 <= p < bs.len() && bs[p].id == id,
        breakpoint_pos(bs, id) is None ==> forall|i: int| 0 <= i < bs.len() ==> bs[i].id != id,
    decreases bs.len(),
{
    if bs.len() > 0 && bs.last().id != id {
        lemma_breakpoint_pos(bs.drop_last(), id);
        assert forall|i: int| 0 <= i < bs.len() - 1 implies bs[i] == bs.drop_last()[i] by {}
    }
}

fn find_watch(ws: &Vec<ServerWatch>, id: u32) -> (r: Option<usize>)
    ensures
        r matches Some(p) ==> watch_pos(ws@, id) == Some(p as int),
        r is None ==> watch_pos(ws@, id) is None,
{
    let mut i = ws.len();
    assert(ws@.take(i as int) =~= ws@);
    while i > 0
        invariant
            i <= ws.len(),
            watch_pos(ws@, id) == watch_pos(ws@.take(i as int), id),
        decreases i,
    {
        assert(ws@.take(i as int).drop_last() =~= ws@.take(i - 1));
        if ws[i - 1].id == id {
            return Some(i - 1);
        }
        i = i - 1;
    }
    None
}

fn find_breakpoint(bs: &Vec<BreakpointDescriptor>, id: u32) -> (r: Option<usize>)
    ensures
        r matches Some(p) ==> breakpoint_pos(bs@, id) == Some(p as int),
        r is None ==> breakpoint_pos(bs@, id) is None,
{
    let mut i = bs.len();
    assert(bs@.take(i as int) =~= bs@);
    while i > 0
        invariant
            i <= bs.len(),
            breakpoint_pos(bs@, id) == breakpoint_pos(bs@.take(i as int), id),
        decreases i,
    {
        assert(bs@.take(i as int).drop_last() =~= bs@.take(i - 1));
        if bs[i - 1].id == id {
            return Some(i - 1);
        }
        i = i - 1;
    }
    None
}

/// The watches left after removing, in turn, the watch of each id in `ids`.
pub open spec fn without_watches(ws: Seq<ServerWatch>, ids: Seq<u32>) -> Seq<ServerWatch>
    decreases ids.len(),
{
    if ids.len() == 0 {
        ws
    } else {
        let w = without_watches(ws, ids.drop_last());
        match watch_pos(w, ids.last()) {
            Some(p) => w.remove(p),
            None => w,
        }
    }
}

/// The watches after adding one for each of `exprs`, with consecutive ids
/// from `next`.
pub open spec fn added_watches(ws: Seq<ServerWatch>, exprs: Seq<String>, next: u32) -> Seq<ServerWatch> {
    ws + Seq::new(exprs.len(), |i: int| ServerWatch { id: (next + i) as u32, expression: exprs[i] })
}

proof fn lemma_remove_keeps_fresh(ws: Seq<ServerWatch>, p: int, next: u32)
    requires
        watch_ids_fresh(ws, next),
        0 <= p < ws.len(),
    ensures
        watch_ids_fresh(ws.remove(p), next),
{
    let r = ws.remove(p);
    assert forall|i: int, j: int| 0 <= i < j < r.len() implies (#[trigger] r[i]).id != (#[trigger] r[j]).id by {
        let oi = if i < p { i } else { i + 1 };
        let oj = if j < p { j } else { j + 1 };
        assert(r[i] == ws[oi] && r[j] == ws[oj]);
        assert(ws[oi].id != ws[oj].id);
    }
    assert forall|i: int| 0 <= i < r.len() implies (#[trigger] r[i]).id < next by {
        let oi = if i < p { i } else { i + 1 };
        assert(r[i] == ws[oi]);
    }
}

proof fn lemma_remove_keeps_fresh_bp(bs: Seq<BreakpointDescriptor>, p: int, next: u32)
    requires
        breakpoint_ids_fresh(bs, next),
        0 <= p < bs.len(),
    ensures
        breakpoint_ids_fresh(bs.remove(p), next),
{
    let r = bs.remove(p);
    assert forall|i: int, j: int| 0 <= i < j < r.len() implies (#[trigger] r[i]).id != (#[trigger] r[j]).id by {
        let oi = if i < p { i } else { i + 1 };
        let oj = if j < p { j } else { j + 1 };
        assert(r[i] == bs[oi] && r[j] == bs[oj]);
        assert(bs[oi].id != bs[oj].id);
    }
    assert forall|i: int| 0 <= i < r.len() implies (#[trigger] r[i]).id < next by {
        let oi = if i < p { i } else { i + 1 };
        assert(r[i] == bs[oi]);
    }
}

impl ServerState {
    /// Adds a watch for each expression, with consecutive new ids.
    pub fn add_watches(&mut self, exprs: &Vec<String>)
        requires
            old(self).wf(),
            old(self).next_watch_id + exprs.len() <= u32::MAX,
        ensures
            final(self).wf(),
            final(self).watches@ == added_watches(old(self).watches@, exprs@, old(self).next_watch_id),
            final(self).next_watch_id == old(self).next_watch_id + exprs.len(),
            *final(self) == (ServerState { watches: final(self).watches, next_watch_id: final(self).next_watch_id, ..*old(self) }),
    {
        let ghost o = self.watches@;
        let ghost n0 = self.next_watch_id;
        let mut i: usize = 0;
        while i < exprs.len()
            invariant
                i <= exprs.len(),
                n0 + exprs.len() <= u32::MAX,
                self.next_watch_id == n0 + i,
                self.watches@ == added_watches(o, exprs@.take(i as int), n0),
                watch_ids_fresh(self.watches@, self.next_watch_id),
                self.event_log.len() <= EVENT_LOG_LIMIT,
                breakpoint_ids_fresh(self.breakpoints@, self.next_breakpoint_id),
                *self == (ServerState { watches: self.watches, next_watch_id: self.next_watch_id, ..*old(self) }),
            decreases exprs.len() - i,
        {
            let id = self.next_watch_id;
            let ghost before = self.watches@;
            self.watches.push(ServerWatch { id, expression: exprs[i].clone() });
            self.next_watch_id = id + 1;
            assert(self.watches@ =~= added_watches(o, exprs@.take(i + 1), n0));
            i = i + 1;
        }
        assert(exprs@.take(exprs.len() as int) =~= exprs@);
    }

    /// Removes, in turn, the watch of each id in `ids` (an unknown id
    /// removes nothing).
    pub fn remove_watches(&mut self, ids: &Vec<u32>)
        requires
            old(self).wf(),
        ensures
            final(self).wf(),
            final(self).watches@ == without_watches(old(self).watches@, ids@),
            *final(self) == (ServerState { watches: final(self).watches, ..*old(self) }),
    {
        let mut i: usize = 0;
        while i < ids.len()
            invariant
                i <= ids.len(),
                self.wf(),
                self.watches@ == without_watches(old(self).watches@, ids@.take(i as int)),
                *self == (ServerState { watches: self.watches, ..*old(self) }),
            decreases ids.len() - i,
        {
            let id = ids[i];
            assert(ids@.take(i + 1).drop_last() =~= ids@.take(i as int));
            assert(ids@.take(i + 1).last() == id);
            match find_watch(&self.watches, id) {
                Some(p) => {
                    proof {
                        lemma_watch_pos(self.watches@, id);
                        lemma_remove_keeps_fresh(self.watches@, p as int, self.next_watch_id);
                    }
                    self.watches.remove(p);
                },
                None => {},
            }
            i = i + 1;
        }
        assert(ids@.take(ids.len() as int) =~= ids@);
    }

    /// The expression of the watch with id `id`.
    pub fn watch_expression(&self, id: u32) -> (r: Option<String>)
        ensures
            r is Some <==> watch_pos(self.watches@, id) is Some,
            r matches Some(e) ==> e == self.watches@[watch_pos(self.watches@, id)->0].expression,
    {
        proof { lemma_watch_pos(self.watches@, id); }
        match find_watch(&self.watches, id) {
            Some(p) => {
                let e = self.watches[p].expression.clone();
                assert(e == self.watches@[p as int].expression);
                Some(e)
            },
            None => None,
        }
    }

    /// Replaces the expression of the watch with id `id`; `false` when
    /// there is no such watch.
    pub fn modify_watch_expression(&mut self, id: u32, expression: String) -> (found: bool)
        requires
            old(self).wf(),
        ensures
            final(self).wf(),
            found == watch_pos(old(self).watches@, id) is Some,
            match watch_pos(old(self).watches@, id) {
                Some(p) => final(self).watches@ == old(self).watches@.update(p, ServerWatch { id, expression }),
                None => *final(self) == *old(self),
            },
            *final(self) == (ServerState { watches: final(self).watches, ..*old(self) }),
    {
        match find_watch(&self.watches, id) {
            Some(p) => {
                proof { lemma_watch_pos(self.watches@, id); }
                self.watches.set(p, ServerWatch { id, expression });
                assert forall|i: int, j: int| 0 <= i < j < self.watches@.len()
                    implies (#[trigger] self.watches@[i]).id != (#[trigger] self.watches@[j]).id by {
                    assert(self.watches@[i].id == old(self).watches@[i].id);
                    assert(self.watches@[j].id == old(self).watches@[j].id);
                }
                true
            },
            None => false,
        }
    }

    /// Adds a breakpoint with the next breakpoint id.
    pub fn add_breakpoint(&mut self, event: String, address: Option<u64>, kind: String, enabled: bool)
        requires
            old(self).wf(),
            old(self).next_breakpoint_id < u32::MAX,
        ensures
            final(self).wf(),
            final(self).breakpoints@ == old(self).breakpoints@.push(BreakpointDescriptor {
                id: old(self).next_breakpoint_id, event, address, kind, enabled,
            }),
            final(self).next_breakpoint_id == old(self).next_breakpoint_id + 1,
            *final(self) == (ServerState { breakpoints: final(self).breakpoints,
                next_breakpoint_id: final(self).next_breakpoint_id, ..*old(self) }),
    {
        let id = self.next_breakpoint_id;
        self.next_breakpoint_id = id + 1;
        self.breakpoints.push(BreakpointDescriptor { id, event, address, kind, enabled });
    }

    /// Removes the breakpoint with id `id`; `false` when there is none.
    pub fn remove_breakpoint(&mut self, id: u32) -> (removed: bool)
        requires
            old(self).wf(),
        ensures
            final(self).wf(),
            removed == breakpoint_pos(old(self).breakpoints@, id) is Some,
            match breakpoint_pos(old(self).breakpoints@, id) {
                Some(p) => final(self).breakpoints@ == old(self).breakpoints@.remove(p),
                None => *final(self) == *old(self),
            },
            *final(self) == (ServerState { breakpoints: final(self).breakpoints, ..*old(self) }),
    {
        match find_breakpoint(&self.breakpoints, id) {
            Some(p) => {
                proof {
                    lemma_breakpoint_pos(self.breakpoints@, id);
                    lemma_remove_keeps_fresh_bp(self.breakpoints@, p as int, self.next_breakpoint_id);
                }
                self.breakpoints.remove(p);
                true
            },
            None => false,
        }
    }

    /// Enables or disables the breakpoint with id `id`; `false` when there
    /// is none.
    pub fn toggle_breakpoint(&mut self, id: u32, enabled: bool) -> (found: bool)
        requires
            old(self).wf(),
        ensures
            final(self).wf(),
            found == breakpoint_pos(old(self).breakpoints@, id) is Some,
            match breakpoint_pos(old(self).breakpoints@, id) {
                Some(p) => final(self).breakpoints@ == old(self).breakpoints@.update(p,
                    BreakpointDescriptor { enabled, ..old(self).breakpoints@[p] }),
                None => *final(self) == *old(self),
            },
            *final(self) == (ServerState { breakpoints: final(self).breakpoints, ..*old(self) }),
    {
        match find_breakpoint(&self.breakpoints, id) {
            Some(p) => {
                proof { lemma_breakpoint_pos(self.breakpoints@, id); }
                let b = &self.breakpoints[p];
                let nb = BreakpointDescriptor {
                    id: b.id,
                    event: b.event.clone(),
                    address: b.address,
                    kind: b.kind.clone(),
                    enabled,
                };
                self.breakpoints.set(p, nb);
                assert forall|i: int, j: int| 0 <= i < j < self.breakpoints@.len()
                    implies (#[trigger] self.breakpoints@[i]).id != (#[trigger] self.breakpoints@[j]).id by {
                    assert(self.breakpoints@[i].id == old(self).breakpoints@[i].id);
                    assert(self.breakpoints@[j].id == old(self).breakpoints@[j].id);
                }
                true
            },
            None => false,
        }
    }

    /// Sets whether the breakpoints of a category are muted and soloed.
    pub fn set_category_state(&mut self, category: String, state: BreakpointCategoryState)
        requires
            old(self).wf(),
        ensures
            final(self).wf(),
            entry_value(final(self).category_states@, category@) == Some(state),
            forall|k: Seq<char>| k != category@ ==>
                entry_value(final(self).category_states@, k) == entry_value(old(self).category_states@, k),
            *final(self) == (ServerState { category_states: final(self).category_states, ..*old(self) }),
    {
        set_entry(&mut self.category_states, category, state);
    }
}

} // verus!
