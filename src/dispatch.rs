//! The plan by which the permission records of a drained batch are answered
//! and released: every record that carries a descriptor and a permission bit
//! gets exactly one verdict, and then its descriptor is released exactly
//! once. Descriptors of the other records are released as soon as they have
//! been observed, before any verdict is sought. Each record of a batch owns
//! its own descriptor, so operations name the record.
use vstd::prelude::*;
use crate::decode::{RawEvent, needs_verdict, needs_verdict_spec};
use crate::policy::FanotifyResponse;

verus! {

/// One operation on the notification channel.
#[derive(Clone, Copy, Debug, PartialEq, Eq, Structural)]
pub enum ChannelOp {
    /// Write the verdict for the descriptor of record `index`.
    Respond { index: usize, response: FanotifyResponse },
    /// Close the descriptor of record `index`.
    Release { index: usize },
}

/// Whether record `r` is answered with a verdict.
pub open spec fn answered(r: RawEvent) -> bool {
    r.has_fd && needs_verdict_spec(r.mask)
}

/// The operations for record `i`: a verdict and then the release for a
/// record that is answered; none for any other.
pub open spec fn ops_for(r: RawEvent, i: usize, v: FanotifyResponse) -> Seq<ChannelOp> {
    if answered(r) {
        seq![ChannelOp::Respond { index: i, response: v }, ChannelOp::Release { index: i }]
    } else {
        Seq::empty()
    }
}

/// The operations for a batch, record after record in the order drained;
/// `vs[i]` is the verdict that the policy gave record `i`.
pub open spec fn plan(recs: Seq<RawEvent>, vs: Seq<FanotifyResponse>) -> Seq<ChannelOp>
    decreases recs.len(),
{
    if recs.len() == 0 {
        Seq::empty()
    } else {
        let n = (recs.len() - 1) as int;
        plan(recs.drop_last(), vs.take(n)) + ops_for(recs.last(), n as usize, vs[n])
    }
}

/// How many verdicts `ops` writes for record `i`.
pub open spec fn responds_to(ops: Seq<ChannelOp>, i: usize) -> nat
    decreases ops.len(),
{
    if ops.len() == 0 {
        0
    } else {
        responds_to(ops.drop_last(), i) + (if ops.last() matches ChannelOp::Respond { index, .. }
            && index == i {
            1nat
        } else {
            0nat
        })
    }
}

/// How many times `ops` closes the descriptor of record `i`.
pub open spec fn releases_of(ops: Seq<ChannelOp>, i: usize) -> nat
    decreases ops.len(),
{
    if ops.len() == 0 {
        0
    } else {
        releases_of(ops.drop_last(), i) + (if ops.last() == (ChannelOp::Release { index: i }) {
            1nat
        } else {
            0nat
        })
    }
}

/// Builds the operations for a batch of records and their verdicts; the
/// verdict given for a record without a permission bit is not used.
pub fn plan_batch(records: &Vec<RawEvent>, verdicts: &Vec<FanotifyResponse>) -> (r: Vec<ChannelOp>)
    requires
        records.len() == verdicts.len(),
    ensures
        r@ == plan(records@, verdicts@),
{
    let mut out: Vec<ChannelOp> = Vec::new();
    let mut i: usize = 0;
    while i < records.len()
        invariant
            records.len() == verdicts.len(),
            0 <= i <= records.len(),
            out@ == plan(records@.take(i as int), verdicts@.take(i as int)),
        decreases records.len() - i,
    {
        let rec = records[i];
        let v = verdicts[i];
        proof {
            let rs = records@.take(i as int + 1);
            let ws = verdicts@.take(i as int + 1);
            assert(rs.drop_last() =~= records@.take(i as int));
            assert(ws.take(i as int) =~= verdicts@.take(i as int));
            assert(rs.last() == rec);
        }
        if rec.has_fd && needs_verdict(rec.mask) {
            out.push(ChannelOp::Respond { index: i, response: v });
            out.push(ChannelOp::Release { index: i });
        }
        proof {
            let ops = ops_for(rec, i, v);
            assert(out@ =~= plan(records@.take(i as int), verdicts@.take(i as int)) + ops);
        }
        i = i + 1;
    }
    assert(records@.take(records.len() as int) =~= records@);
    assert(verdicts@.take(verdicts.len() as int) =~= verdicts@);
    out
}

proof fn lemma_counts_split(a: Seq<ChannelOp>, b: Seq<ChannelOp>, i: usize)
    ensures
        responds_to(a + b, i) == responds_to(a, i) + responds_to(b, i),
        releases_of(a + b, i) == releases_of(a, i) + releases_of(b, i),
    decreases b.len(),
{
    if b.len() == 0 {
        assert(a + b =~= a);
    } else {
        assert((a + b).drop_last() =~= a + b.drop_last());
        lemma_counts_split(a, b.drop_last(), i);
    }
}

/// In the plan for a batch, every record that carries a descriptor and a
/// permission bit is answered exactly once and released exactly once; any
/// other record, or an index past the batch, is never touched.
pub proof fn lemma_one_verdict_one_release(
    recs: Seq<RawEvent>,
    vs: Seq<FanotifyResponse>,
    i: usize,
)
    requires
        recs.len() == vs.len(),
        recs.len() <= usize::MAX,
    ensures
        releases_of(plan(recs, vs), i) == (if i < recs.len() && recs[i as int].has_fd
            && needs_verdict_spec(recs[i as int].mask) {
            1nat
        } else {
            0nat
        }),
        responds_to(plan(recs, vs), i) == (if i < recs.len() && recs[i as int].has_fd
            && needs_verdict_spec(recs[i as int].mask) {
            1nat
        } else {
            0nat
        }),
    decreases recs.len(),
{
    if recs.len() > 0 {
        let n = (recs.len() - 1) as int;
        let pre = recs.drop_last();
        let pvs = vs.take(n);
        let ops = ops_for(recs.last(), n as usize, vs[n]);
        lemma_one_verdict_one_release(pre, pvs, i);
        lemma_counts_split(plan(pre, pvs), ops, i);
        reveal_with_fuel(responds_to, 3);
        reveal_with_fuel(releases_of, 3);
        assert(n as usize as int == n);
        if i < n {
            assert(pre[i as int] == recs[i as int]);
        }
        if answered(recs.last()) {
            assert(responds_to(ops, i) == (if i as int == n { 1nat } else { 0nat }));
            assert(releases_of(ops, i) == (if i as int == n { 1nat } else { 0nat }));
        } else {
            assert(responds_to(ops, i) == 0);
            assert(releases_of(ops, i) == 0);
        }
    }
}

} // verus!
