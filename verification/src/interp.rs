//! The interpreter: one step of the CPU (interrupt check, fetch, decode,
//! execute, pipeline advance) and the loop that runs steps until the cycle
//! budget is spent or an instruction needs the host.

use vstd::prelude::*;
use crate::cpu::{Sh4Ctx, spec_read_mem, try_read_mem, intc_try_service, interrupt_entered, peripherals_step};
use crate::dec::sh4_opcodelistentry;
use crate::exec::ExecOutcome;
use crate::isa::{execute, spec_execute};
use crate::p4::timers_stepped;
use crate::regs::FpscrEffects;

verus! {

/// What one step of the interpreter did.
#[derive(Clone, Copy, PartialEq, Eq, Structural, Debug)]
pub enum StepResult {
    /// The instruction completed and the pipeline advanced.
    Completed,
    /// The instruction loaded FPSCR and the pipeline advanced; the host FPU
    /// must follow these changes.
    Fpscr(FpscrEffects),
    /// The instruction word at PC could not be read.
    FetchFault,
    /// The instruction with this opcode ended with this outcome and did not
    /// complete; the pipeline still points at it.
    Stopped(u16, ExecOutcome),
}

/// Why a run of the interpreter stopped.
#[derive(Clone, Copy, PartialEq, Eq, Structural, Debug)]
pub enum Sh4Stop {
    /// The cycle budget is spent: `remaining_cycles` is zero or below.
    CyclesDone,
    /// The last step ended this way (anything but a plain completion).
    Step(StepResult),
}

/// The interrupt check at the start of a step: outside a delay slot the
/// first pending interrupt that SR admits is taken; otherwise nothing
/// changes.
pub open spec fn interrupt_checked(o: Sh4Ctx, s: Sh4Ctx) -> bool {
    if o.is_delayslot0 == 0 && o.p4.intc.next_event_spec(o.sr) is Some {
        interrupt_entered(o, s)
    } else {
        s == o
    }
}

/// The end of a step: the pipeline moves up by one instruction, the delay
/// slot flag with it, the timers advance by one cycle and the cycle budget
/// goes down by one.
pub open spec fn pipeline_advanced(o: Sh4Ctx, n: Sh4Ctx) -> bool {
    &&& n == (Sh4Ctx {
        p4: n.p4,
        pc0: o.pc1,
        pc1: o.pc2,
        pc2: o.pc2.wrapping_add(2),
        is_delayslot0: o.is_delayslot1,
        is_delayslot1: 0,
        remaining_cycles: o.remaining_cycles.wrapping_sub(1),
        ..o
    })
    &&& timers_stepped(o.p4, n.p4, 1)
}

/// The instruction word at PC, if it can be read.
pub open spec fn fetched(s: Sh4Ctx) -> Option<u16> {
    match spec_read_mem(s, s.pc0, 2) {
        Some(v) => Some((v % 0x1_0000) as u16),
        None => None,
    }
}

/// One step from `s` (after the interrupt check) to `c`: fetch the word at
/// PC, execute the instruction the decode table gives for it, and advance
/// the pipeline when it completed.
pub open spec fn step_from(s: Sh4Ctx, c: Sh4Ctx, descs: Seq<sh4_opcodelistentry>, r: StepResult) -> bool {
    match fetched(s) {
        None => r == StepResult::FetchFault && c == s,
        Some(op) => exists|e: Sh4Ctx, out: ExecOutcome|
            #![trigger spec_execute(descs[op as int].op, s, e, op, out)]
            spec_execute(descs[op as int].op, s, e, op, out) && match out {
                ExecOutcome::Done => r == StepResult::Completed && pipeline_advanced(e, c),
                ExecOutcome::Fpscr(f) => r == StepResult::Fpscr(f) && pipeline_advanced(e, c),
                _ => r == StepResult::Stopped(op, out) && c == e,
            },
    }
}

/// One step of the interpreter: `c` is `o` after the interrupt check and
/// one instruction.
pub open spec fn stepped(o: Sh4Ctx, c: Sh4Ctx, descs: Seq<sh4_opcodelistentry>, r: StepResult) -> bool {
    exists|s: Sh4Ctx| #![trigger interrupt_checked(o, s)] interrupt_checked(o, s) && step_from(s, c, descs, r)
}

/// Ends a step: moves the pipeline up, advances the timers by one cycle and
/// takes one cycle from the budget. After a floating-point instruction that
/// the host carried out, this completes the step.
pub fn sh4_finish_step(ctx: &mut Sh4Ctx)
    requires
        old(ctx).wf(),
    ensures
        final(ctx).wf(),
        pipeline_advanced(*old(ctx), *final(ctx)),
{
    ctx.pc0 = ctx.pc1;
    ctx.pc1 = ctx.pc2;
    ctx.pc2 = ctx.pc2.wrapping_add(2);
    ctx.is_delayslot0 = ctx.is_delayslot1;
    ctx.is_delayslot1 = 0;
    peripherals_step(ctx, 1);
    ctx.remaining_cycles = ctx.remaining_cycles.wrapping_sub(1);
}

/// One step of the interpreter with the decode table `descs`.
pub fn sh4_step(ctx: &mut Sh4Ctx, descs: &Vec<sh4_opcodelistentry>) -> (r: StepResult)
    requires
        old(ctx).wf(),
        descs.len() == 0x10000,
    ensures
        final(ctx).wf(),
        stepped(*old(ctx), *final(ctx), descs@, r),
        final(ctx).remaining_cycles == (if r is Completed || r is Fpscr {
            old(ctx).remaining_cycles.wrapping_sub(1)
        } else {
            old(ctx).remaining_cycles
        }),
{
    let ghost o = *ctx;
    if ctx.is_delayslot0 == 0 {
        intc_try_service(ctx);
    }
    let ghost s = *ctx;
    assert(interrupt_checked(o, s));
    let word = match try_read_mem(ctx, ctx.pc0, 2) {
        Some(v) => v,
        None => {
            assert(step_from(s, *ctx, descs@, StepResult::FetchFault));
            return StepResult::FetchFault;
        },
    };
    let opcode = (word % 0x1_0000) as u16;
    let op = descs[opcode as usize].op;
    let out = execute(ctx, op, opcode);
    let ghost e = *ctx;
    let r = match out {
        ExecOutcome::Done => {
            sh4_finish_step(ctx);
            StepResult::Completed
        },
        ExecOutcome::Fpscr(f) => {
            sh4_finish_step(ctx);
            StepResult::Fpscr(f)
        },
        _ => StepResult::Stopped(opcode, out),
    };
    assert(spec_execute(descs@[opcode as int].op, s, e, opcode, out));
    assert(step_from(s, *ctx, descs@, r));
    r
}

/// The measure that a run of steps decreases: the remaining budget while
/// it is positive, and above every positive budget once it is not (the
/// budget wraps only from the smallest value).
pub open spec fn budget_measure(rc: i32) -> int {
    if rc > 0 { rc as int } else { rc as int + 0x1_0000_0000 }
}

/// One step from `m` to `n` that completed plainly and left budget over.
#[verifier::opaque]
pub open spec fn completed_with_budget(m: Sh4Ctx, n: Sh4Ctx, descs: Seq<sh4_opcodelistentry>) -> bool {
    stepped(m, n, descs, StepResult::Completed) && n.remaining_cycles > 0
}

/// `path` is a run of the interpreter from `o`: it starts at `o`, and each
/// state follows the one before by a step that completed plainly and left
/// budget over.
pub open spec fn run_path(o: Sh4Ctx, path: Seq<Sh4Ctx>, descs: Seq<sh4_opcodelistentry>) -> bool {
    &&& path.len() >= 1
    &&& path[0] == o
    &&& forall|i: int| 0 <= i < path.len() - 1 ==> #[trigger] completed_with_budget(path[i], path[i + 1], descs)
}

/// A run of the interpreter from `o` ended in `n` with `r`: some steps that
/// completed plainly with budget left over, then one last step, which either
/// completed plainly and spent the budget (`CyclesDone`) or ended another
/// way (`Step` with that result).
pub open spec fn dispatched(o: Sh4Ctx, n: Sh4Ctx, descs: Seq<sh4_opcodelistentry>, r: Sh4Stop) -> bool {
    exists|path: Seq<Sh4Ctx>| #[trigger] run_path(o, path, descs) && match r {
        Sh4Stop::CyclesDone => stepped(path.last(), n, descs, StepResult::Completed) && n.remaining_cycles <= 0,
        Sh4Stop::Step(s) => s != StepResult::Completed && stepped(path.last(), n, descs, s),
    }
}

proof fn lemma_run_extend(o: Sh4Ctx, path: Seq<Sh4Ctx>, n: Sh4Ctx, descs: Seq<sh4_opcodelistentry>)
    requires
        run_path(o, path, descs),
        stepped(path.last(), n, descs, StepResult::Completed),
        n.remaining_cycles > 0,
    ensures
        run_path(o, path.push(n), descs),
        path.push(n).last() == n,
{
    assert(completed_with_budget(path.last(), n, descs)) by {
        reveal(completed_with_budget);
    }
    let p2 = path.push(n);
    assert forall|i: int| 0 <= i < p2.len() - 1 implies #[trigger] completed_with_budget(p2[i], p2[i + 1], descs) by {
        if i < path.len() - 1 {
            assert(p2[i] == path[i] && p2[i + 1] == path[i + 1]);
        } else {
            assert(p2[i] == path.last() && p2[i + 1] == n);
        }
    }
}

/// Runs steps until the cycle budget is spent or a step does anything but
/// complete plainly. A step always runs first, whatever the budget.
pub fn sh4_ipr_dispatcher(ctx: &mut Sh4Ctx, descs: &Vec<sh4_opcodelistentry>) -> (r: Sh4Stop)
    requires
        old(ctx).wf(),
        descs.len() == 0x10000,
    ensures
        final(ctx).wf(),
        dispatched(*old(ctx), *final(ctx), descs@, r),
        r == Sh4Stop::CyclesDone ==> final(ctx).remaining_cycles <= 0,
        r != Sh4Stop::Step(StepResult::Completed),
{
    let ghost o = *ctx;
    let ghost mut path: Seq<Sh4Ctx> = seq![o];
    loop
        invariant
            ctx.wf(),
            descs.len() == 0x10000,
            run_path(o, path, descs@),
            path.last() == *ctx,
            o == *old(ctx),
        decreases budget_measure(ctx.remaining_cycles),
    {
        let ghost m = *ctx;
        let r = sh4_step(ctx, descs);
        match r {
            StepResult::Completed => {},
            _ => {
                assert(run_path(o, path, descs@) && stepped(path.last(), *ctx, descs@, r));
                return Sh4Stop::Step(r);
            },
        }
        if ctx.remaining_cycles <= 0 {
            assert(run_path(o, path, descs@) && stepped(path.last(), *ctx, descs@, StepResult::Completed));
            return Sh4Stop::CyclesDone;
        }
        proof {
            lemma_run_extend(o, path, *ctx, descs@);
            path = path.push(*ctx);
        }
    }
}

} // verus!
