//! The recording back end of the block decoder: it records each `MUL.L` it
//! meets as the registers it reads and writes, to be replayed later.

use vstd::prelude::*;

verus! {

/// A recorded `MUL.L`: the destination and the two source registers.
#[derive(Clone, Copy, PartialEq, Eq, Structural, Debug)]
pub struct MulRec {
    pub dst: usize,
    pub src_n: usize,
    pub src_m: usize,
}

/// The records made so far, in order.
pub struct MulRecorder {
    pub recs: Vec<MulRec>,
}

impl MulRecorder {
    /// A recorder with no records.
    pub fn new() -> (r: Self)
        ensures
            r.recs@ == Seq::<MulRec>::empty(),
    {
        MulRecorder { recs: Vec::new() }
    }

    /// Records a `MUL.L` writing `dst` from `src_n` and `src_m`.
    pub fn sh4_muls32(&mut self, dst: usize, src_n: usize, src_m: usize)
        ensures
            final(self).recs@ == old(self).recs@.push(MulRec { dst, src_n, src_m }),
    {
        self.recs.push(MulRec { dst, src_n, src_m });
    }

    /// The records made so far.
    pub fn ptrs_snapshot(&self) -> (v: Vec<MulRec>)
        ensures
            v@ == self.recs@,
    {
        let mut v: Vec<MulRec> = Vec::new();
        let mut i: usize = 0;
        while i < self.recs.len()
            invariant
                i <= self.recs.len(),
                v@ == self.recs@.subrange(0, i as int),
            decreases self.recs.len() - i,
        {
            v.push(self.recs[i]);
            i = i + 1;
        }
        assert(v@ =~= self.recs@);
        v
    }

    /// Drops every record.
    pub fn clear(&mut self)
        ensures
            final(self).recs@ == Seq::<MulRec>::empty(),
    {
        self.recs.clear();
    }
}

/// Records made one call at a time from an empty recorder come out in
/// call order: when `states[0]` is the empty record list that `clear`
/// leaves, and each `states[i + 1]` is what `sh4_muls32` makes of
/// `states[i]` with the record `calls[i]`, then after the last call the
/// records, and so what `ptrs_snapshot` returns, are exactly `calls`.
pub proof fn lemma_records_in_call_order(states: Seq<Seq<MulRec>>, calls: Seq<MulRec>)
    requires
        states.len() == calls.len() + 1,
        states[0] == Seq::<MulRec>::empty(),
        forall|i: int| 0 <= i < calls.len() ==> #[trigger] states[i + 1] == states[i].push(calls[i]),
    ensures
        states[calls.len() as int] == calls,
    decreases calls.len(),
{
    if calls.len() > 0 {
        let k = calls.len() - 1;
        lemma_records_in_call_order(states.take(k + 1), calls.take(k));
        assert(states.take(k + 1)[k] == states[k]);
        assert(states[k + 1] == states[k].push(calls[k]));
        assert(calls.take(k).push(calls[k]) =~= calls);
    } else {
        assert(calls =~= Seq::<MulRec>::empty());
    }
}

} // verus!
