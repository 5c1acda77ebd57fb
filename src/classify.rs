use vstd::prelude::*;

use crate::types::Transaction;

verus! {

/// The deployment transactions of `txs`, in their original order.
pub open spec fn deployments_of(txs: Seq<Transaction>) -> Seq<Transaction>
    decreases txs.len(),
{
    if txs.len() == 0 {
        Seq::empty()
    } else if txs.last().transaction_type.spec_is_deployment() {
        deployments_of(txs.drop_last()).push(txs.last())
    } else {
        deployments_of(txs.drop_last())
    }
}

/// The call transactions of `txs`, in their original order.
pub open spec fn calls_of(txs: Seq<Transaction>) -> Seq<Transaction>
    decreases txs.len(),
{
    if txs.len() == 0 {
        Seq::empty()
    } else if txs.last().transaction_type is Call {
        calls_of(txs.drop_last()).push(txs.last())
    } else {
        calls_of(txs.drop_last())
    }
}

/// The transactions that `refs` point to.
pub open spec fn targets(refs: Seq<&Transaction>) -> Seq<Transaction> {
    refs.map_values(|t: &Transaction| *t)
}

/// Splits `txs` into its deployments and its calls, each in the original order.
pub fn classify(txs: &Vec<Transaction>) -> (r: (Vec<&Transaction>, Vec<&Transaction>))
    ensures
        targets(r.0@) == deployments_of(txs@),
        targets(r.1@) == calls_of(txs@),
{
    let mut deployments: Vec<&Transaction> = Vec::new();
    let mut calls: Vec<&Transaction> = Vec::new();
    let mut i: usize = 0;
    while i < txs.len()
        invariant
            i <= txs@.len(),
            targets(deployments@) == deployments_of(txs@.take(i as int)),
            targets(calls@) == calls_of(txs@.take(i as int)),
        decreases txs@.len() - i,
    {
        let tx = &txs[i];
        assert(txs@.take(i + 1).drop_last() =~= txs@.take(i as int));
        assert(txs@.take(i + 1).last() == *tx);
        if tx.transaction_type.is_deployment() {
            deployments.push(tx);
            assert(targets(deployments@) =~= deployments_of(txs@.take(i + 1)));
            assert(calls_of(txs@.take(i + 1)) == calls_of(txs@.take(i as int)));
        } else {
            calls.push(tx);
            assert(targets(calls@) =~= calls_of(txs@.take(i + 1)));
        }
        i = i + 1;
    }
    assert(txs@.take(txs@.len() as int) =~= txs@);
    (deployments, calls)
}

} // verus!
