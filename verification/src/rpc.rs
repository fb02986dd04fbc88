//! The debugger's requests: each method with what it reads and changes and
//! what it answers, and the dispatch of a request by its method name.

use vstd::prelude::*;
use crate::debug_rpc::{MemorySlice, CallstackFrame, build_memory_slice, default_base, slice_bytes_ok,
    reads_machine, frame_ok, sample_frames};
use crate::debugger::{ServerState, ServerWatch, BreakpointCategoryState, numbered, numbered_text, split_watch,
    split_watch_expression, register_key, make_register_key, added_watches, without_watches, watch_pos,
    breakpoint_pos, mock_stepped};
use crate::device_tree::{DeviceNodeDescriptor, root_node_ok};
use crate::dreamcast::{Dreamcast, DisassemblyLine, listing_ok, disassemble_sh4, step_dreamcast,
    unicode_uppercase, chars_eq_str, to_uppercase};
use crate::interp::{StepResult, stepped};
use crate::cpu::Sh4Ctx;
use crate::keyed::{entry_value, find_entry};
use crate::mock_data::{generate_disassembly, mock_line_ok, mock_line_addr, mock_width};
use crate::numfmt::{owned, join_chars, decimal_string};
use crate::text::{digits, str_chars, chars_to_string};

verus! {

/// The parameters a request may carry.
pub struct RpcParams {
    pub target: Option<String>,
    pub address: Option<u64>,
    pub length: Option<u64>,
    pub count: Option<u64>,
    pub max_frames: Option<u64>,
    pub expressions: Vec<String>,
    pub watch_ids: Vec<u64>,
    pub watch_id: Option<u64>,
    pub value: Option<String>,
    pub new_expression: Option<String>,
    pub event: Option<String>,
    pub kind: Option<String>,
    pub enabled: Option<bool>,
    pub id: Option<u64>,
    pub categories: Option<Vec<(String, Option<bool>, Option<bool>)>>,
}

/// A request: a method name and its parameters.
pub struct RpcRequest {
    pub method: String,
    pub params: RpcParams,
}

/// What a request answers.
pub enum RpcResult {
    /// The device tree.
    Describe(Vec<DeviceNodeDescriptor>),
    /// A memory view.
    Memory(MemorySlice),
    /// A listing.
    Disassembly(Vec<DisassemblyLine>),
    /// A call stack of a target.
    Callstack(String, Vec<CallstackFrame>),
    /// An empty answer.
    Empty,
    /// An error reported inside a successful answer: a code and a message.
    Failure(i32, String),
    /// The machine's memory could not be read where the request asked.
    Unreadable,
}

/// A request the server cannot answer.
pub struct RpcErrorObject {
    pub code: i32,
    pub message: String,
}

/// The target a request names, `sh4` by default.
pub open spec fn target_of(p: RpcParams) -> Seq<char> {
    match p.target { Some(t) => t@, None => "sh4"@ }
}

fn target_str(p: &RpcParams) -> (t: String)
    ensures
        t@ == target_of(*p),
{
    match &p.target { Some(t) => t.clone(), None => owned("sh4") }
}

/// A machine slot seen by reference.
pub open spec fn machine_ref(m: &Option<Dreamcast>) -> Option<&Dreamcast> {
    match m { Some(d) => Some(d), None => None }
}

fn machine_as_ref(m: &Option<Dreamcast>) -> (r: Option<&Dreamcast>)
    ensures
        r == machine_ref(m),
{
    match m { Some(d) => Some(d), None => None }
}

/// The device tree.
pub fn rpc_describe(s: &ServerState) -> (r: RpcResult)
    ensures
        r matches RpcResult::Describe(t) && t.len() == 1 && root_node_ok(t@[0], s),
{
    RpcResult::Describe(s.build_device_tree())
}

/// The start of the memory view a request asks for.
pub open spec fn memory_base(p: RpcParams) -> u64 {
    match p.address { Some(a) => a, None => default_base(target_of(p)) }
}

/// The length of the memory view a request asks for.
pub open spec fn memory_len(p: RpcParams) -> usize {
    match p.length { Some(l) => l as usize, None => 64 }
}

/// `r` answers a memory request: the view of the target from the
/// requested base and length, or `Unreadable` when the machine's memory
/// cannot be read there.
pub open spec fn memory_answer_ok(m: &Option<Dreamcast>, p: RpcParams, r: RpcResult) -> bool {
    let data = match r { RpcResult::Memory(ms) => Some(ms.data@), _ => None };
    &&& slice_bytes_ok(machine_ref(m), target_of(p), memory_base(p), memory_len(p) as nat, data)
    &&& (r is Memory || r is Unreadable)
    &&& r matches RpcResult::Memory(ms) ==> ms.base_address == memory_base(p) && ms.validity@ == "ok"@
}

/// `state.getMemorySlice`.
pub fn rpc_memory_slice(m: &Option<Dreamcast>, p: &RpcParams) -> (r: RpcResult)
    requires
        m matches Some(d) ==> d.wf(),
        !reads_machine(machine_ref(m), target_of(*p)) ==> memory_base(*p) + memory_len(*p) <= u64::MAX,
    ensures
        memory_answer_ok(m, *p, r),
{
    let target = target_str(p);
    let length = match p.length { Some(l) => Some(l as usize), None => None };
    match build_memory_slice(machine_as_ref(m), target.as_str(), p.address, length) {
        Some(ms) => RpcResult::Memory(ms),
        None => RpcResult::Unreadable,
    }
}

/// The start of the listing a request asks for.
pub open spec fn listing_address(p: RpcParams) -> u64 {
    match p.address { Some(a) => a, None => 0 }
}

/// The number of lines a listing request asks for.
pub open spec fn listing_count(p: RpcParams) -> usize {
    match p.count { Some(c) => c as usize, None => 128 }
}

/// Whether a listing request reads the machine: with a machine attached
/// and the target `sh4`.
pub open spec fn lists_machine(m: &Option<Dreamcast>, p: RpcParams) -> bool {
    m is Some && target_of(p) == "sh4"@
}

/// `r` answers a listing request: the machine's listing for the SH4 with a
/// machine attached (`Unreadable` when a word cannot be read), a pseudo
/// listing otherwise.
pub open spec fn listing_answer_ok(m: &Option<Dreamcast>, p: RpcParams, r: RpcResult) -> bool {
    if lists_machine(m, p) {
        listing_ok(&m->0, listing_address(p), listing_count(p),
            match r { RpcResult::Disassembly(v) => Some(v), _ => None })
        && (r is Disassembly || r is Unreadable)
    } else {
        let arm7 = target_of(p) == "arm7"@;
        r matches RpcResult::Disassembly(v) && v.len() == listing_count(p) && forall|i: int| 0 <= i < v.len() ==>
            mock_line_ok(#[trigger] v@[i], target_of(p), arm7, mock_line_addr(arm7, listing_address(p), i))
    }
}

/// What a listing request needs to stay within the address range.
pub open spec fn listing_fits(m: &Option<Dreamcast>, p: RpcParams) -> bool {
    if lists_machine(m, p) {
        (listing_address(p) as u32) + 2 * listing_count(p) <= 0xFFFF_FFFF
    } else {
        listing_address(p) + listing_count(p) * mock_width(target_of(p) == "arm7"@) <= u64::MAX
    }
}

/// `state.getDisassembly`.
pub fn rpc_disassembly(m: &Option<Dreamcast>, p: &RpcParams) -> (r: RpcResult)
    requires
        m matches Some(d) ==> d.wf(),
        listing_fits(m, *p),
    ensures
        listing_answer_ok(m, *p, r),
{
    let target = target_str(p);
    let address = match p.address { Some(a) => a, None => 0 };
    let count = match p.count { Some(c) => c as usize, None => 128 };
    let sh4 = chars_eq_str(&str_chars(target.as_str()), "sh4");
    match m {
        Some(d) => {
            if sh4 {
                return match disassemble_sh4(d, address, count) {
                    Some(lines) => RpcResult::Disassembly(lines),
                    None => RpcResult::Unreadable,
                };
            }
        },
        None => {},
    }
    RpcResult::Disassembly(generate_disassembly(target.as_str(), address, count))
}

/// The number of frames a call stack request asks for: 16 by default, at
/// most 64.
pub open spec fn frames_asked(p: RpcParams) -> u64 {
    let n = match p.max_frames { Some(n) => n, None => 16 };
    if n < 64 { n } else { 64 }
}

/// `r` answers a call stack request: the target and its frames, frame `i`
/// at 0x8C000000 + 4 i, named after the target in uppercase.
pub open spec fn callstack_answer_ok(p: RpcParams, r: RpcResult) -> bool {
    r matches RpcResult::Callstack(t, frames) && {
        &&& t@ == target_of(p)
        &&& frames.len() == frames_asked(p)
        &&& forall|i: int| 0 <= i < frames.len() ==> frame_ok(#[trigger] frames@[i], i, (0x8C00_0000 + 4 * i) as u64,
            0x0CFE_0000, unicode_uppercase(target_of(p)) + "_func_"@, target_of(p) + ".c:"@)
    }
}

/// `state.getCallstack`.
pub fn rpc_callstack(p: &RpcParams) -> (r: RpcResult)
    ensures
        callstack_answer_ok(*p, r),
{
    let target = target_str(p);
    let asked = match p.max_frames { Some(n) => n, None => 16 };
    let n: u32 = if asked < 64 { asked as u32 } else { 64 };
    let upper = to_uppercase(target.as_str());
    let symbol = chars_to_string(join_chars(&str_chars(upper.as_str()), &str_chars("_func_")));
    let file = chars_to_string(join_chars(&str_chars(target.as_str()), &str_chars(".c:")));
    let frames = sample_frames(n, None, 0x8C00_0000, 0x0CFE_0000, symbol.as_str(), file.as_str());
    RpcResult::Callstack(target, frames)
}

/// `n` is `o` with only the fields a request may change in the register
/// map changed.
pub open spec fn only_registers(o: ServerState, n: ServerState) -> bool {
    n == (ServerState { register_values: n.register_values, ..o })
}

/// `state.watch`: a watch for each expression, with new ids.
pub fn rpc_watch(s: &mut ServerState, p: &RpcParams) -> (r: (RpcResult, bool))
    requires
        old(s).wf(),
        old(s).next_watch_id + p.expressions.len() <= u32::MAX,
    ensures
        final(s).wf(),
        final(s).watches@ == added_watches(old(s).watches@, p.expressions@, old(s).next_watch_id),
        final(s).next_watch_id == old(s).next_watch_id + p.expressions.len(),
        *final(s) == (ServerState { watches: final(s).watches, next_watch_id: final(s).next_watch_id, ..*old(s) }),
        r == (RpcResult::Empty, true),
{
    s.add_watches(&p.expressions);
    (RpcResult::Empty, true)
}

/// The watch ids of a request, as 32-bit ids.
pub open spec fn watch_ids_of(p: RpcParams) -> Seq<u32> {
    p.watch_ids@.map_values(|v: u64| v as u32)
}

/// `state.unwatch`: removes the watch of each id.
pub fn rpc_unwatch(s: &mut ServerState, p: &RpcParams) -> (r: (RpcResult, bool))
    requires
        old(s).wf(),
    ensures
        final(s).wf(),
        final(s).watches@ == without_watches(old(s).watches@, watch_ids_of(*p)),
        *final(s) == (ServerState { watches: final(s).watches, ..*old(s) }),
        r == (RpcResult::Empty, true),
{
    let mut ids: Vec<u32> = Vec::new();
    let mut i: usize = 0;
    while i < p.watch_ids.len()
        invariant
            i <= p.watch_ids.len(),
            ids@ == watch_ids_of(*p).take(i as int),
        decreases p.watch_ids.len() - i,
    {
        ids.push(p.watch_ids[i] as u32);
        assert(ids@ =~= watch_ids_of(*p).take(i + 1));
        i = i + 1;
    }
    assert(ids@ =~= watch_ids_of(*p));
    s.remove_watches(&ids);
    (RpcResult::Empty, true)
}

/// An in-band error answer with `code` and the message `msg`.
pub open spec fn is_failure(r: (RpcResult, bool), code: i32, msg: Seq<char>) -> bool {
    &&& r.0 matches RpcResult::Failure(c, m) && c == code && m@ == msg
    &&& !r.1
}

/// The value an edit request sets, empty by default.
pub open spec fn value_of(p: RpcParams) -> Seq<char> {
    match p.value { Some(v) => v@, None => Seq::empty() }
}

/// `state.editWatch` from `o` to `n` answering `r`: the register that the
/// watch's expression names gets the value; a watch on anything but a held
/// register, an unknown watch, or no watch id is an error.
pub open spec fn edit_watch_ok(o: ServerState, n: ServerState, p: RpcParams, r: (RpcResult, bool)) -> bool {
    match p.watch_id {
        Some(id64) => {
            let id = id64 as u32;
            match watch_pos(o.watches@, id) {
                Some(pos) => {
                    let expr = o.watches@[pos].expression@;
                    let key = register_key(split_watch(expr).0, split_watch(expr).1);
                    if o.reg_text(key) is None {
                        n == o && is_failure(r, -32602i32, "Cannot edit non-register expression \""@ + expr + "\""@)
                    } else {
                        &&& r == (RpcResult::Empty, true)
                        &&& n.reg_text(key) == Some(value_of(p))
                        &&& forall|k: Seq<char>| k != key ==> n.reg_text(k) == o.reg_text(k)
                        &&& only_registers(o, n)
                    }
                },
                None => n == o && is_failure(r, -32602i32, numbered("Watch \""@, id as nat, "\" not found"@)),
            }
        },
        None => n == o && is_failure(r, -32602i32, "Watch not found or cannot edit"@),
    }
}

fn failure(code: i32, msg: Vec<char>) -> (r: (RpcResult, bool))
    ensures
        r.0 matches RpcResult::Failure(c, m) && c == code && m@ == msg@,
        !r.1,
{
    (RpcResult::Failure(code, chars_to_string(msg)), false)
}

/// `state.editWatch`.
pub fn rpc_edit_watch(s: &mut ServerState, p: &RpcParams) -> (r: (RpcResult, bool))
    requires
        old(s).wf(),
    ensures
        final(s).wf(),
        edit_watch_ok(*old(s), *final(s), *p, r),
{
    match p.watch_id {
        Some(id64) => {
            let id = id64 as u32;
            match s.watch_expression(id) {
                Some(expr) => {
                    let (path, name) = split_watch_expression(expr.as_str());
                    let key = make_register_key(path.as_str(), name.as_str());
                    match find_entry(&s.register_values, &key) {
                        None => {
                            let m = join_chars(&join_chars(&str_chars("Cannot edit non-register expression \""),
                                &str_chars(expr.as_str())), &str_chars("\""));
                            failure(-32602, m)
                        },
                        Some(_) => {
                            let value = match &p.value { Some(v) => v.clone(), None => String::new() };
                            s.set_register_value(path.as_str(), name.as_str(), value);
                            (RpcResult::Empty, true)
                        },
                    }
                },
                None => failure(-32602, str_chars(numbered_text("Watch \"", id as u64, "\" not found").as_str())),
            }
        },
        None => failure(-32602, str_chars("Watch not found or cannot edit")),
    }
}

/// The expression a modify request sets, empty by default.
pub open spec fn new_expression_of(p: RpcParams) -> Seq<char> {
    match p.new_expression { Some(v) => v@, None => Seq::empty() }
}

/// `state.modifyWatchExpression` from `o` to `n` answering `r`.
pub open spec fn modify_watch_ok(o: ServerState, n: ServerState, p: RpcParams, r: (RpcResult, bool)) -> bool {
    match p.watch_id {
        Some(id64) => {
            let id = id64 as u32;
            match watch_pos(o.watches@, id) {
                Some(pos) => {
                    &&& r == (RpcResult::Empty, true)
                    &&& n.watches@.len() == o.watches@.len()
                    &&& n.watches@[pos].id == id
                    &&& n.watches@[pos].expression@ == new_expression_of(p)
                    &&& forall|i: int| 0 <= i < n.watches@.len() && i != pos ==> n.watches@[i] == o.watches@[i]
                    &&& n == (ServerState { watches: n.watches, ..o })
                },
                None => n == o && is_failure(r, -32602i32, numbered("Watch "@, id as nat, " not found"@)),
            }
        },
        None => n == o && is_failure(r, -32602i32, "Watch not found"@),
    }
}

/// `state.modifyWatchExpression`.
pub fn rpc_modify_watch(s: &mut ServerState, p: &RpcParams) -> (r: (RpcResult, bool))
    requires
        old(s).wf(),
    ensures
        final(s).wf(),
        modify_watch_ok(*old(s), *final(s), *p, r),
{
    match p.watch_id {
        Some(id64) => {
            let id = id64 as u32;
            let e = match &p.new_expression { Some(v) => v.clone(), None => String::new() };
            let ghost ev = e;
            if s.modify_watch_expression(id, e) {
                proof {
                    crate::debugger::lemma_watch_pos(old(s).watches@, id);
                    let pos = watch_pos(old(s).watches@, id)->0;
                    assert(s.watches@ == old(s).watches@.update(pos, ServerWatch { id, expression: ev }));
                    assert(s.watches@[pos].expression@ == new_expression_of(*p));
                    assert(forall|i: int| 0 <= i < s.watches@.len() && i != pos ==> s.watches@[i] == old(s).watches@[i]);
                }
                (RpcResult::Empty, true)
            } else {
                failure(-32602, str_chars(numbered_text("Watch ", id as u64, " not found").as_str()))
            }
        },
        None => failure(-32602, str_chars("Watch not found")),
    }
}

/// `control.pause` and `control.runUntil`: the machine (when attached) and
/// the server stop or run.
pub fn rpc_set_running(s: &mut ServerState, m: &mut Option<Dreamcast>, running: bool) -> (r: (RpcResult, bool))
    ensures
        *final(s) == (ServerState { is_running: running, ..*old(s) }),
        *final(m) == (match *old(m) { Some(d) => Some(Dreamcast { running, ..d }), None => None }),
        r == (RpcResult::Empty, true),
{
    match m.take() {
        Some(mut d) => {
            crate::dreamcast::set_dreamcast_running(&mut d, running);
            *m = Some(d);
        },
        None => {},
    }
    s.set_running(running);
    (RpcResult::Empty, true)
}

/// The step `d2` took from `d1`, with result `r`.
pub open spec fn step_outcome(d1: Dreamcast, d2: Dreamcast, r: StepResult) -> bool {
    stepped(
        Sh4Ctx { remaining_cycles: 1, ..d1.ctx },
        Sh4Ctx { remaining_cycles: if r is Completed || r is Fpscr { 0 } else { 1 }, ..d2.ctx },
        d1.descs@,
        r,
    )
}

/// `d2` is `d1` after one instruction, stopped.
pub open spec fn machine_stepped(d1: Dreamcast, d2: Dreamcast) -> bool {
    &&& d2.descs == d1.descs
    &&& !d2.running
    &&& d2.ctx.remaining_cycles == d1.ctx.remaining_cycles - 1
    &&& exists|r: StepResult| #[trigger] step_outcome(d1, d2, r)
}

/// `control.step` (and `stepOver`, `stepOut`) from `o`, `om` to `n`, `nm`:
/// with a machine attached it runs one instruction and stops; otherwise
/// the mock machine steps the target. The server is stopped.
pub open spec fn step_ok(o: ServerState, n: ServerState, om: Option<Dreamcast>, nm: Option<Dreamcast>, p: RpcParams) -> bool {
    &&& !n.is_running
    &&& match om {
        Some(d1) => nm matches Some(d2) && machine_stepped(d1, d2) && n == (ServerState { is_running: false, ..o }),
        None => nm is None && mock_stepped(o, ServerState { is_running: o.is_running, ..n }, target_of(p)),
    }
}

/// `control.step`.
pub fn rpc_step(s: &mut ServerState, m: &mut Option<Dreamcast>, p: &RpcParams) -> (r: (RpcResult, bool))
    requires
        old(s).wf(),
        *old(m) matches Some(d) ==> d.wf() && d.ctx.remaining_cycles > i32::MIN,
    ensures
        final(s).wf(),
        *final(m) matches Some(d) ==> d.wf(),
        step_ok(*old(s), *final(s), *old(m), *final(m), *p),
        r == (RpcResult::Empty, true),
{
    match m.take() {
        Some(mut d) => {
            let ghost d1 = d;
            let sr = step_dreamcast(&mut d);
            crate::dreamcast::set_dreamcast_running(&mut d, false);
            assert(step_outcome(d1, d, sr));
            *m = Some(d);
        },
        None => {
            let target = target_str(p);
            s.increment_program_counter(target.as_str());
        },
    }
    s.set_running(false);
    (RpcResult::Empty, true)
}

/// The event, kind and enabled state a breakpoint request gives, with
/// their defaults.
pub open spec fn bp_event(p: RpcParams) -> Seq<char> { match p.event { Some(e) => e@, None => Seq::empty() } }
pub open spec fn bp_kind(p: RpcParams) -> Seq<char> { match p.kind { Some(k) => k@, None => "code"@ } }
pub open spec fn bp_enabled(p: RpcParams) -> bool { match p.enabled { Some(e) => e, None => true } }

/// `breakpoints.add`: a breakpoint with the next id.
pub fn rpc_breakpoint_add(s: &mut ServerState, p: &RpcParams) -> (r: (RpcResult, bool))
    requires
        old(s).wf(),
        old(s).next_breakpoint_id < u32::MAX,
    ensures
        final(s).wf(),
        final(s).breakpoints.len() == old(s).breakpoints.len() + 1,
        final(s).breakpoints@.drop_last() == old(s).breakpoints@,
        final(s).breakpoints@.last().id == old(s).next_breakpoint_id,
        final(s).breakpoints@.last().event@ == bp_event(*p),
        final(s).breakpoints@.last().address == p.address,
        final(s).breakpoints@.last().kind@ == bp_kind(*p),
        final(s).breakpoints@.last().enabled == bp_enabled(*p),
        final(s).next_breakpoint_id == old(s).next_breakpoint_id + 1,
        *final(s) == (ServerState { breakpoints: final(s).breakpoints, next_breakpoint_id: final(s).next_breakpoint_id, ..*old(s) }),
        r == (RpcResult::Empty, true),
{
    let event = match &p.event { Some(e) => e.clone(), None => String::new() };
    let kind = match &p.kind { Some(k) => k.clone(), None => owned("code") };
    let enabled = match p.enabled { Some(e) => e, None => true };
    s.add_breakpoint(event, p.address, kind, enabled);
    (RpcResult::Empty, true)
}

/// `breakpoints.remove` from `o` to `n` answering `r`.
pub open spec fn bp_remove_ok(o: ServerState, n: ServerState, p: RpcParams, r: (RpcResult, bool)) -> bool {
    match p.id {
        Some(id64) => {
            let id = id64 as u32;
            match breakpoint_pos(o.breakpoints@, id) {
                Some(pos) => r == (RpcResult::Empty, true) && n.breakpoints@ == o.breakpoints@.remove(pos)
                    && n == (ServerState { breakpoints: n.breakpoints, ..o }),
                None => n == o && is_failure(r, -32000i32, numbered("Breakpoint "@, id as nat, " not found"@)),
            }
        },
        None => n == o && r == (RpcResult::Empty, false),
    }
}

/// `breakpoints.remove`.
pub fn rpc_breakpoint_remove(s: &mut ServerState, p: &RpcParams) -> (r: (RpcResult, bool))
    requires
        old(s).wf(),
    ensures
        final(s).wf(),
        bp_remove_ok(*old(s), *final(s), *p, r),
{
    match p.id {
        Some(id64) => {
            let id = id64 as u32;
            if s.remove_breakpoint(id) {
                (RpcResult::Empty, true)
            } else {
                failure(-32000, str_chars(numbered_text("Breakpoint ", id as u64, " not found").as_str()))
            }
        },
        None => (RpcResult::Empty, false),
    }
}

/// `breakpoints.toggle` from `o` to `n` answering `r`.
pub open spec fn bp_toggle_ok(o: ServerState, n: ServerState, p: RpcParams, r: (RpcResult, bool)) -> bool {
    match p.id {
        Some(id64) => {
            let id = id64 as u32;
            match breakpoint_pos(o.breakpoints@, id) {
                Some(pos) => r == (RpcResult::Empty, true)
                    && n.breakpoints@ == o.breakpoints@.update(pos,
                        crate::debugger::BreakpointDescriptor { enabled: bp_enabled(p), ..o.breakpoints@[pos] })
                    && n == (ServerState { breakpoints: n.breakpoints, ..o }),
                None => n == o && is_failure(r, -32000i32, numbered("Breakpoint "@, id as nat, " not found"@)),
            }
        },
        None => n == o && r == (RpcResult::Empty, false),
    }
}

/// `breakpoints.toggle`.
pub fn rpc_breakpoint_toggle(s: &mut ServerState, p: &RpcParams) -> (r: (RpcResult, bool))
    requires
        old(s).wf(),
    ensures
        final(s).wf(),
        bp_toggle_ok(*old(s), *final(s), *p, r),
{
    match p.id {
        Some(id64) => {
            let id = id64 as u32;
            let enabled = match p.enabled { Some(e) => e, None => true };
            if s.toggle_breakpoint(id, enabled) {
                (RpcResult::Empty, true)
            } else {
                failure(-32000, str_chars(numbered_text("Breakpoint ", id as u64, " not found").as_str()))
            }
        },
        None => (RpcResult::Empty, false),
    }
}

/// The state the last applicable entry of `list` gives category `k`: an
/// entry applies when it has both the muted and the soloed flag.
pub open spec fn category_update(list: Seq<(String, Option<bool>, Option<bool>)>, k: Seq<char>) -> Option<BreakpointCategoryState>
    decreases list.len(),
{
    if list.len() == 0 {
        None
    } else {
        let e = list.last();
        if e.0@ == k && e.1 is Some && e.2 is Some {
            Some(BreakpointCategoryState { muted: e.1->0, soloed: e.2->0 })
        } else {
            category_update(list.drop_last(), k)
        }
    }
}

/// The categories after a `breakpoints.setCategoryStates` request.
pub open spec fn categories_after(o: ServerState, n: ServerState, p: RpcParams) -> bool {
    &&& n == (ServerState { category_states: n.category_states, ..o })
    &&& forall|k: Seq<char>| entry_value(n.category_states@, k) == match p.categories {
        Some(list) => match category_update(list@, k) {
            Some(st) => Some(st),
            None => entry_value(o.category_states@, k),
        },
        None => entry_value(o.category_states@, k),
    }
}

/// `breakpoints.setCategoryStates`.
pub fn rpc_category_states(s: &mut ServerState, p: &RpcParams) -> (r: (RpcResult, bool))
    requires
        old(s).wf(),
    ensures
        final(s).wf(),
        categories_after(*old(s), *final(s), *p),
        r == (RpcResult::Empty, true),
{
    match &p.categories {
        Some(list) => {
            let mut i: usize = 0;
            while i < list.len()
                invariant
                    i <= list.len(),
                    s.wf(),
                    *s == (ServerState { category_states: s.category_states, ..*old(s) }),
                    forall|k: Seq<char>| entry_value(s.category_states@, k) == match category_update(list@.take(i as int), k) {
                        Some(st) => Some(st),
                        None => entry_value(old(s).category_states@, k),
                    },
                decreases list.len() - i,
            {
                let e = &list[i];
                let ghost pre = list@.take(i as int);
                assert(list@.take(i + 1).drop_last() =~= pre);
                assert(list@.take(i + 1).last() == *e);
                match (e.1, e.2) {
                    (Some(muted), Some(soloed)) => {
                        s.set_category_state(e.0.clone(), BreakpointCategoryState { muted, soloed });
                    },
                    _ => {},
                }
                i = i + 1;
            }
            assert(list@.take(list.len() as int) =~= list@);
        },
        None => {},
    }
    (RpcResult::Empty, true)
}

/// A machine slot with the machine, if any, running or stopped.
pub open spec fn with_running(m: Option<Dreamcast>, running: bool) -> Option<Dreamcast> {
    match m { Some(d) => Some(Dreamcast { running, ..d }), None => None }
}

/// What a request needs so that nothing overflows: room for the new watch
/// and breakpoint ids, and memory views and listings that stay within the
/// address range.
pub open spec fn request_fits(s: ServerState, m: &Option<Dreamcast>, req: RpcRequest) -> bool {
    let meth = req.method@;
    let p = req.params;
    &&& meth == "state.watch"@ ==> s.next_watch_id + p.expressions.len() <= u32::MAX
    &&& meth == "breakpoints.add"@ ==> s.next_breakpoint_id < u32::MAX
    &&& meth == "state.getMemorySlice"@ ==> (!reads_machine(machine_ref(m), target_of(p)) ==> memory_base(p) + memory_len(p) <= u64::MAX)
    &&& meth == "state.getDisassembly"@ ==> listing_fits(m, p)
}

/// The method names, told apart by their lengths and a few characters.
proof fn lemma_method_names()
    ensures
        "debugger.describe"@.len() == 17,
        "state.getMemorySlice"@.len() == 20,
        "state.getDisassembly"@.len() == 20,
        "state.getCallstack"@.len() == 18,
        "state.watch"@.len() == 11,
        "state.unwatch"@.len() == 13,
        "state.editWatch"@.len() == 15,
        "state.modifyWatchExpression"@.len() == 27,
        "control.pause"@.len() == 13,
        "control.step"@.len() == 12,
        "control.stepOver"@.len() == 16,
        "control.stepOut"@.len() == 15,
        "control.runUntil"@.len() == 16,
        "breakpoints.add"@.len() == 15,
        "breakpoints.remove"@.len() == 18,
        "breakpoints.toggle"@.len() == 18,
        "breakpoints.setCategoryStates"@.len() == 29,
        "state.getMemorySlice"@[9] == 'M',
        "state.getDisassembly"@[9] == 'D',
        "state.unwatch"@[0] == 's',
        "control.pause"@[0] == 'c',
        "state.editWatch"@[0] == 's',
        "control.stepOut"@[0] == 'c',
        "breakpoints.add"@[0] == 'b',
        "control.stepOver"@[8] == 's',
        "control.runUntil"@[8] == 'r',
        "state.getCallstack"@[0] == 's',
        "breakpoints.remove"@[0] == 'b',
        "breakpoints.toggle"@[0] == 'b',
        "breakpoints.remove"@[12] == 'r',
        "breakpoints.toggle"@[12] == 't',
{
    reveal_strlit("debugger.describe");
    reveal_strlit("state.getMemorySlice");
    reveal_strlit("state.getDisassembly");
    reveal_strlit("state.getCallstack");
    reveal_strlit("state.watch");
    reveal_strlit("state.unwatch");
    reveal_strlit("state.editWatch");
    reveal_strlit("state.modifyWatchExpression");
    reveal_strlit("control.pause");
    reveal_strlit("control.step");
    reveal_strlit("control.stepOver");
    reveal_strlit("control.stepOut");
    reveal_strlit("control.runUntil");
    reveal_strlit("breakpoints.add");
    reveal_strlit("breakpoints.remove");
    reveal_strlit("breakpoints.toggle");
    reveal_strlit("breakpoints.setCategoryStates");
}

/// Whether a request fits (see `request_fits`).
pub fn check_request_fits(s: &ServerState, m: &Option<Dreamcast>, req: &RpcRequest) -> (b: bool)
    ensures
        b == request_fits(*s, m, *req),
{
    proof {
        lemma_method_names();
    }
    let meth = str_chars(req.method.as_str());
    let p = &req.params;
    if chars_eq_str(&meth, "state.watch") {
        return p.expressions.len() as u128 + s.next_watch_id as u128 <= 0xFFFF_FFFF;
    }
    if chars_eq_str(&meth, "breakpoints.add") {
        return s.next_breakpoint_id < 0xFFFF_FFFF;
    }
    let target = target_str(p);
    if chars_eq_str(&meth, "state.getMemorySlice") {
        let arm7 = chars_eq_str(&str_chars(target.as_str()), "arm7");
        let machine = m.is_some() && !arm7;
        if machine {
            return true;
        }
        let base = match p.address { Some(a) => a, None => {
            if arm7 { 0x0020_0000 } else if chars_eq_str(&str_chars(target.as_str()), "dsp") { 0 } else { 0x8C00_0000 }
        } };
        let len = match p.length { Some(l) => l as usize, None => 64 };
        return (len as u128) + (base as u128) <= 0xFFFF_FFFF_FFFF_FFFF;
    }
    if chars_eq_str(&meth, "state.getDisassembly") {
        let address = match p.address { Some(a) => a, None => 0 };
        let count = match p.count { Some(c) => c as usize, None => 128 };
        let sh4 = chars_eq_str(&str_chars(target.as_str()), "sh4");
        if m.is_some() && sh4 {
            return (address as u32) as u128 + 2 * (count as u128) <= 0xFFFF_FFFF;
        }
        let arm7 = chars_eq_str(&str_chars(target.as_str()), "arm7");
        let width: u128 = if arm7 { 4 } else { 2 };
        return (address as u128) + (count as u128) * width <= 0xFFFF_FFFF_FFFF_FFFF;
    }
    true
}

/// What answering `req` does: from the server `o` and machine slot `om` to
/// `n` and `nm`, with the answer `r` (an answer and whether a tick should
/// follow, or an error for an unknown method).
pub open spec fn request_handled(o: ServerState, n: ServerState, om: Option<Dreamcast>, nm: Option<Dreamcast>,
    req: RpcRequest, r: Result<(RpcResult, bool), RpcErrorObject>) -> bool
{
    let meth = req.method@;
    let p = req.params;
    if meth == "debugger.describe"@ {
        &&& n == o
        &&& nm == om
        &&& r matches Ok((res, b)) && (b && (res matches RpcResult::Describe(t) && (t.len() == 1 && root_node_ok(t@[0], &o))))
    } else if meth == "state.getMemorySlice"@ {
        &&& n == o
        &&& nm == om
        &&& r matches Ok((res, b)) && !b && memory_answer_ok(&om, p, res)
    } else if meth == "state.getDisassembly"@ {
        &&& n == o
        &&& nm == om
        &&& r matches Ok((res, b)) && !b && listing_answer_ok(&om, p, res)
    } else if meth == "state.getCallstack"@ {
        &&& n == o
        &&& nm == om
        &&& r matches Ok((res, b)) && !b && callstack_answer_ok(p, res)
    } else if meth == "state.watch"@ {
        &&& nm == om && r == Ok::<(RpcResult, bool), RpcErrorObject>((RpcResult::Empty, true))
        &&& n.watches@ == added_watches(o.watches@, p.expressions@, o.next_watch_id)
        &&& n.next_watch_id == o.next_watch_id + p.expressions.len()
        &&& n == (ServerState { watches: n.watches, next_watch_id: n.next_watch_id, ..o })
    } else if meth == "state.unwatch"@ {
        &&& nm == om && r == Ok::<(RpcResult, bool), RpcErrorObject>((RpcResult::Empty, true))
        &&& n.watches@ == without_watches(o.watches@, watch_ids_of(p))
        &&& n == (ServerState { watches: n.watches, ..o })
    } else if meth == "state.editWatch"@ {
        &&& nm == om
        &&& r matches Ok(a) && edit_watch_ok(o, n, p, a)
    } else if meth == "state.modifyWatchExpression"@ {
        &&& nm == om
        &&& r matches Ok(a) && modify_watch_ok(o, n, p, a)
    } else if meth == "control.pause"@ {
        n == (ServerState { is_running: false, ..o }) && nm == with_running(om, false)
            && r == Ok::<(RpcResult, bool), RpcErrorObject>((RpcResult::Empty, true))
    } else if meth == "control.step"@ || meth == "control.stepOver"@ || meth == "control.stepOut"@ {
        step_ok(o, n, om, nm, p) && r == Ok::<(RpcResult, bool), RpcErrorObject>((RpcResult::Empty, true))
    } else if meth == "control.runUntil"@ {
        n == (ServerState { is_running: true, ..o }) && nm == with_running(om, true)
            && r == Ok::<(RpcResult, bool), RpcErrorObject>((RpcResult::Empty, true))
    } else if meth == "breakpoints.add"@ {
        &&& nm == om && r == Ok::<(RpcResult, bool), RpcErrorObject>((RpcResult::Empty, true))
        &&& n.breakpoints.len() == o.breakpoints.len() + 1
        &&& n.breakpoints@.drop_last() == o.breakpoints@
        &&& n.breakpoints@.last().id == o.next_breakpoint_id
        &&& n.breakpoints@.last().event@ == bp_event(p)
        &&& n.breakpoints@.last().address == p.address
        &&& n.breakpoints@.last().kind@ == bp_kind(p)
        &&& n.breakpoints@.last().enabled == bp_enabled(p)
        &&& n.next_breakpoint_id == o.next_breakpoint_id + 1
        &&& n == (ServerState { breakpoints: n.breakpoints, next_breakpoint_id: n.next_breakpoint_id, ..o })
    } else if meth == "breakpoints.remove"@ {
        &&& nm == om
        &&& r matches Ok(a) && bp_remove_ok(o, n, p, a)
    } else if meth == "breakpoints.toggle"@ {
        &&& nm == om
        &&& r matches Ok(a) && bp_toggle_ok(o, n, p, a)
    } else if meth == "breakpoints.setCategoryStates"@ {
        nm == om && categories_after(o, n, p) && r == Ok::<(RpcResult, bool), RpcErrorObject>((RpcResult::Empty, true))
    } else {
        &&& n == o
        &&& nm == om
        &&& r matches Err(e) && e.code == -32601i32 && e.message@ == "Method not found: "@ + meth
    }
}

/// Answers a request: reads or changes the server and the machine (when
/// one is attached) as the method says, and tells whether a tick should
/// follow.
pub fn handle_request(s: &mut ServerState, m: &mut Option<Dreamcast>, req: &RpcRequest)
    -> (r: Result<(RpcResult, bool), RpcErrorObject>)
    requires
        old(s).wf(),
        *old(m) matches Some(d) ==> d.wf() && d.ctx.remaining_cycles > i32::MIN,
        request_fits(*old(s), old(m), *req),
    ensures
        final(s).wf(),
        *final(m) matches Some(d) ==> d.wf(),
        request_handled(*old(s), *final(s), *old(m), *final(m), *req, r),
{
    proof {
        lemma_method_names();
    }
    let meth = str_chars(req.method.as_str());
    let p = &req.params;
    if chars_eq_str(&meth, "debugger.describe") {
        Ok((rpc_describe(s), true))
    } else if chars_eq_str(&meth, "state.getMemorySlice") {
        Ok((rpc_memory_slice(m, p), false))
    } else if chars_eq_str(&meth, "state.getDisassembly") {
        Ok((rpc_disassembly(m, p), false))
    } else if chars_eq_str(&meth, "state.getCallstack") {
        Ok((rpc_callstack(p), false))
    } else if chars_eq_str(&meth, "state.watch") {
        Ok(rpc_watch(s, p))
    } else if chars_eq_str(&meth, "state.unwatch") {
        Ok(rpc_unwatch(s, p))
    } else if chars_eq_str(&meth, "state.editWatch") {
        Ok(rpc_edit_watch(s, p))
    } else if chars_eq_str(&meth, "state.modifyWatchExpression") {
        Ok(rpc_modify_watch(s, p))
    } else if chars_eq_str(&meth, "control.pause") {
        Ok(rpc_set_running(s, m, false))
    } else if chars_eq_str(&meth, "control.step") || chars_eq_str(&meth, "control.stepOver")
        || chars_eq_str(&meth, "control.stepOut") {
        Ok(rpc_step(s, m, p))
    } else if chars_eq_str(&meth, "control.runUntil") {
        Ok(rpc_set_running(s, m, true))
    } else if chars_eq_str(&meth, "breakpoints.add") {
        Ok(rpc_breakpoint_add(s, p))
    } else if chars_eq_str(&meth, "breakpoints.remove") {
        Ok(rpc_breakpoint_remove(s, p))
    } else if chars_eq_str(&meth, "breakpoints.toggle") {
        Ok(rpc_breakpoint_toggle(s, p))
    } else if chars_eq_str(&meth, "breakpoints.setCategoryStates") {
        Ok(rpc_category_states(s, p))
    } else {
        let msg = join_chars(&str_chars("Method not found: "), &meth);
        Err(RpcErrorObject { code: -32601, message: chars_to_string(msg) })
    }
}

} // verus!
