use vstd::prelude::*;

use crate::classify::{calls_of, deployments_of};
use crate::explorer::{text_result, ChainError, ChainFault};
use crate::numeric::{decimal_text, has_hex_prefix, number_value};
use crate::report::{
    block_key, call_section, deployment_section, earliest_index, header_block,
    is_earliest, key_le, note_block, report,
};
use crate::types::{BroadcastJson, Receipt, Transaction};

verus! {

broadcast use vstd::seq_lib::to_multiset_build, vstd::multiset::group_multiset_axioms;

/// Classification splits the transactions exactly: every deployment goes to the first
/// list, every call to the second, and together the two lists hold each transaction
/// as often as the input does, no more and no less.
pub proof fn lemma_classification_partitions(txs: Seq<Transaction>)
    ensures
        deployments_of(txs).len() + calls_of(txs).len() == txs.len(),
        forall|i: int|
            0 <= i < deployments_of(txs).len()
                ==> (#[trigger] deployments_of(txs)[i]).transaction_type.spec_is_deployment(),
        forall|i: int|
            0 <= i < calls_of(txs).len() ==> (#[trigger] calls_of(txs)[i]).transaction_type is Call,
        txs.to_multiset() =~= deployments_of(txs).to_multiset().add(calls_of(txs).to_multiset()),
    decreases txs.len(),
{
    if txs.len() == 0 {
        vstd::seq_lib::to_multiset_len(txs);
        vstd::seq_lib::to_multiset_len(deployments_of(txs));
        vstd::seq_lib::to_multiset_len(calls_of(txs));
    } else {
        let p = txs.drop_last();
        lemma_classification_partitions(p);
        assert(txs =~= p.push(txs.last()));
    }
}

proof fn lemma_prefix_classification(txs: Seq<Transaction>, k: int)
    requires
        0 <= k <= txs.len(),
    ensures
        deployments_of(txs.take(k)).len() <= deployments_of(txs).len(),
        deployments_of(txs).take(deployments_of(txs.take(k)).len() as int) == deployments_of(
            txs.take(k),
        ),
        calls_of(txs.take(k)).len() <= calls_of(txs).len(),
        calls_of(txs).take(calls_of(txs.take(k)).len() as int) == calls_of(txs.take(k)),
    decreases txs.len(),
{
    if k == txs.len() {
        assert(txs.take(k) =~= txs);
        assert(deployments_of(txs).take(deployments_of(txs).len() as int) =~= deployments_of(txs));
        assert(calls_of(txs).take(calls_of(txs).len() as int) =~= calls_of(txs));
    } else {
        let p = txs.drop_last();
        assert(p.take(k) =~= txs.take(k));
        lemma_prefix_classification(p, k);
        let m = deployments_of(txs.take(k)).len() as int;
        let n = calls_of(txs.take(k)).len() as int;
        assert(deployments_of(txs).take(m) =~= deployments_of(p).take(m));
        assert(calls_of(txs).take(n) =~= calls_of(p).take(n));
    }
}

/// Classification keeps the input order: what the first `k` transactions contribute to
/// each list comes first in it, and transaction `k` follows right after in its own list.
pub proof fn lemma_classification_keeps_order(txs: Seq<Transaction>, k: int)
    requires
        0 <= k < txs.len(),
    ensures
        deployments_of(txs).take(deployments_of(txs.take(k)).len() as int) == deployments_of(
            txs.take(k),
        ),
        calls_of(txs).take(calls_of(txs.take(k)).len() as int) == calls_of(txs.take(k)),
        txs[k].transaction_type.spec_is_deployment() ==> deployments_of(txs)[deployments_of(
            txs.take(k),
        ).len() as int] == txs[k],
        txs[k].transaction_type is Call ==> calls_of(txs)[calls_of(txs.take(k)).len() as int]
            == txs[k],
{
    lemma_prefix_classification(txs, k);
    lemma_prefix_classification(txs, k + 1);
    assert(txs.take(k + 1).drop_last() =~= txs.take(k));
    assert(txs.take(k + 1).last() == txs[k]);
    let m = deployments_of(txs.take(k)).len() as int;
    let n = calls_of(txs.take(k)).len() as int;
    if txs[k].transaction_type.spec_is_deployment() {
        assert(deployments_of(txs).take(m + 1)[m] == deployments_of(txs)[m]);
    }
    if txs[k].transaction_type is Call {
        assert(calls_of(txs).take(n + 1)[n] == calls_of(txs)[n]);
    }
}

/// Rendering is repeatable: two renderings of one record with one note, each as the
/// report describes, have the same text.
pub proof fn lemma_report_repeatable(
    doc: BroadcastJson,
    note: Option<&str>,
    first: Result<String, ChainError>,
    second: Result<String, ChainError>,
)
    requires
        text_result(first) == report(doc, note),
        text_result(second) == report(doc, note),
    ensures
        text_result(first) == text_result(second),
{
}

proof fn lemma_earliest_exists(rs: Seq<Receipt>)
    requires
        rs.len() > 0,
    ensures
        exists|i: int| is_earliest(rs, i),
    decreases rs.len(),
{
    let last = rs.len() - 1;
    if rs.len() == 1 {
        assert(is_earliest(rs, 0));
    } else {
        let p = rs.drop_last();
        lemma_earliest_exists(p);
        let i = choose|i: int| is_earliest(p, i);
        assert(rs[i] == p[i]);
        assert forall|j: int| 0 <= j < last implies #[trigger] block_key(rs[j]) == block_key(p[j]) by {
            assert(rs[j] == p[j]);
        }
        if key_le(block_key(rs[i]), block_key(rs[last])) {
            assert forall|j: int| 0 <= j < rs.len() implies key_le(
                block_key(rs[i]),
                #[trigger] block_key(rs[j]),
            ) by {
                if j < last {
                    assert(key_le(block_key(p[i]), block_key(p[j])));
                }
            }
            assert forall|j: int| 0 <= j < i implies !key_le(
                #[trigger] block_key(rs[j]),
                block_key(rs[i]),
            ) by {
                assert(!key_le(block_key(p[j]), block_key(p[i])));
            }
            assert(is_earliest(rs, i));
        } else {
            assert forall|j: int| 0 <= j < rs.len() implies key_le(
                block_key(rs[last]),
                #[trigger] block_key(rs[j]),
            ) by {
                if j < last {
                    assert(key_le(block_key(p[i]), block_key(p[j])));
                }
            }
            assert forall|j: int| 0 <= j < last implies !key_le(
                #[trigger] block_key(rs[j]),
                block_key(rs[last]),
            ) by {
                assert(key_le(block_key(p[i]), block_key(p[j])));
            }
            assert(is_earliest(rs, last));
        }
    }
}

/// Where every block number can be read, the heading shows the smallest of them, in
/// decimal when it was written in `0x` hexadecimal and as written otherwise.
pub proof fn lemma_header_shows_smallest_block(rs: Seq<Receipt>, commit: Seq<char>)
    requires
        rs.len() > 0,
        forall|i: int| 0 <= i < rs.len() ==> (#[trigger] number_value(rs[i].block_number@)) is Some,
    ensures
        ({
            let e = earliest_index(rs);
            let raw = rs[e].block_number@;
            let v = number_value(raw)->0;
            &&& 0 <= e < rs.len()
            &&& forall|j: int|
                0 <= j < rs.len() ==> v <= (#[trigger] number_value(rs[j].block_number@))->0
            &&& header_block(rs, commit) == "## `"@ + (if has_hex_prefix(raw) {
                decimal_text(v)
            } else {
                raw
            }) + "` @ `"@ + commit + "`\n"@
        }),
{
    lemma_earliest_exists(rs);
    let e = earliest_index(rs);
    assert(is_earliest(rs, e));
    assert(number_value(rs[e].block_number@) is Some);
    assert forall|j: int| 0 <= j < rs.len() implies number_value(rs[e].block_number@)->0 <= (
    #[trigger] number_value(rs[j].block_number@))->0 by {
        assert(key_le(block_key(rs[e]), block_key(rs[j])));
        assert(number_value(rs[j].block_number@) is Some);
    }
}

/// Empty parts leave no trace: no deployments give no deployments section, no calls no
/// calls section, no receipts no heading, no note no note line; the report is the
/// heading, the note, then the two sections, in that order.
pub proof fn lemma_empty_parts_omitted(doc: BroadcastJson, note: Option<&str>)
    ensures
        deployments_of(doc.transactions@).len() == 0 ==> deployment_section(
            deployments_of(doc.transactions@),
        ) == Ok::<Seq<char>, ChainFault>(Seq::empty()),
        calls_of(doc.transactions@).len() == 0 ==> call_section(calls_of(doc.transactions@))
            == Ok::<Seq<char>, ChainFault>(Seq::empty()),
        doc.receipts@.len() == 0 ==> header_block(doc.receipts@, doc.commit@) == Seq::<
            char,
        >::empty(),
        note is None ==> note_block(note) == Seq::<char>::empty(),
        forall|d: Seq<char>, c: Seq<char>|
            deployment_section(deployments_of(doc.transactions@)) == Ok::<Seq<char>, ChainFault>(d)
                && call_section(calls_of(doc.transactions@)) == Ok::<Seq<char>, ChainFault>(c)
                ==> #[trigger] report(doc, note) == Ok::<Seq<char>, ChainFault>(
                header_block(doc.receipts@, doc.commit@) + note_block(note) + d + c,
            ),
{
}

} // verus!
