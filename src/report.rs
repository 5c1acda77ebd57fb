use vstd::prelude::*;

use crate::classify::{calls_of, classify, deployments_of, targets};
use crate::explorer::{
    contract_explorer_link, contract_link, text_result, tx_explorer_link, tx_link, ChainError,
    ChainFault,
};
use crate::numeric::{decimal_string, decimal_text, has_hex_prefix, number_value, parse_number};
use crate::types::{BroadcastJson, Receipt, Transaction};

verus! {

/// The text of an optional field; an absent one reads as empty.
pub open spec fn text_or_empty(o: Option<String>) -> Seq<char> {
    match o {
        Some(s) => s@,
        None => Seq::empty(),
    }
}

/// The arguments of a call; absent ones read as none.
pub open spec fn argument_seq(o: Option<Vec<String>>) -> Seq<String> {
    match o {
        Some(v) => v@,
        None => Seq::empty(),
    }
}

/// Each argument as an HTML list item holding it as code, in order.
pub open spec fn argument_items(args: Seq<String>) -> Seq<char>
    decreases args.len(),
{
    if args.len() == 0 {
        Seq::empty()
    } else {
        argument_items(args.drop_last()) + "<li><code>"@ + args.last()@ + "</code></li>"@
    }
}

/// The table row of a deployment: name, linked address, linked hash.
pub open spec fn deployment_row(tx: Transaction) -> Result<Seq<char>, ChainFault> {
    match contract_link(tx) {
        Err(e) => Err(e),
        Ok(c) => match tx_link(tx) {
            Err(e) => Err(e),
            Ok(t) => Ok(
                "| `"@ + text_or_empty(tx.contract_name) + "` | [`"@ + tx.contract_address@ + "`]("@
                    + c + ") | [`"@ + tx.hash@ + "`]("@ + t + ") |\n"@,
            ),
        },
    }
}

/// The table row of a call: name, linked address, function, argument list, linked hash.
pub open spec fn call_row(tx: Transaction) -> Result<Seq<char>, ChainFault> {
    match contract_link(tx) {
        Err(e) => Err(e),
        Ok(c) => match tx_link(tx) {
            Err(e) => Err(e),
            Ok(t) => Ok(
                "| `"@ + text_or_empty(tx.contract_name) + "` | [`"@ + tx.contract_address@ + "`]("@
                    + c + ") | `"@ + text_or_empty(tx.function) + "` | <ol>"@ + argument_items(
                    argument_seq(tx.arguments),
                ) + "</ol> | [`"@ + tx.hash@ + "`]("@ + t + ") |\n"@,
            ),
        },
    }
}

/// The rows of `txs` in order, or the error of the first row that has none.
pub open spec fn rows(
    txs: Seq<Transaction>,
    row: spec_fn(Transaction) -> Result<Seq<char>, ChainFault>,
) -> Result<Seq<char>, ChainFault>
    decreases txs.len(),
{
    if txs.len() == 0 {
        Ok(Seq::empty())
    } else {
        match rows(txs.drop_last(), row) {
            Err(e) => Err(e),
            Ok(s) => match row(txs.last()) {
                Err(e) => Err(e),
                Ok(r) => Ok(s + r),
            },
        }
    }
}

/// The section of deployed contracts; empty when there are none.
pub open spec fn deployment_section(deployments: Seq<Transaction>) -> Result<Seq<char>, ChainFault> {
    if deployments.len() == 0 {
        Ok(Seq::empty())
    } else {
        match rows(deployments, |t: Transaction| deployment_row(t)) {
            Err(e) => Err(e),
            Ok(s) => Ok(
                "### Deployed contracts\n\n| Name | Address |  Tx  |\n| ---- | ------- | ---- |\n"@
                    + s,
            ),
        }
    }
}

/// The section of calls; empty when there are none.
pub open spec fn call_section(calls: Seq<Transaction>) -> Result<Seq<char>, ChainFault> {
    if calls.len() == 0 {
        Ok(Seq::empty())
    } else {
        match rows(calls, |t: Transaction| call_row(t)) {
            Err(e) => Err(e),
            Ok(s) => Ok(
                "\n### Calls\n\n| Name | Address | Function | Args |  Tx  |\n| ---- | ------- | -------- | ---- | ---- |\n"@
                    + s,
            ),
        }
    }
}

/// The numeric key of a receipt's block; unreadable block numbers sort after all others.
pub open spec fn block_key(r: Receipt) -> Option<nat> {
    number_value(r.block_number@)
}

/// `a` comes no later than `b`: numbers by value, and every number before no number.
pub open spec fn key_le(a: Option<nat>, b: Option<nat>) -> bool {
    match a {
        Some(x) => match b {
            Some(y) => x <= y,
            None => true,
        },
        None => b is None,
    }
}

/// Receipt `i` has the smallest block number, and is the first receipt that does.
pub open spec fn is_earliest(rs: Seq<Receipt>, i: int) -> bool {
    &&& 0 <= i < rs.len()
    &&& forall|j: int| 0 <= j < rs.len() ==> key_le(block_key(rs[i]), #[trigger] block_key(rs[j]))
    &&& forall|j: int| 0 <= j < i ==> !key_le(#[trigger] block_key(rs[j]), block_key(rs[i]))
}

/// The position of the earliest receipt.
pub open spec fn earliest_index(rs: Seq<Receipt>) -> int {
    choose|i: int| is_earliest(rs, i)
}

/// A block number as shown: a readable `0x` number in decimal, anything else as written.
pub open spec fn block_display(raw: Seq<char>) -> Seq<char> {
    if has_hex_prefix(raw) && number_value(raw) is Some {
        decimal_text(number_value(raw)->0)
    } else {
        raw
    }
}

/// The heading with the earliest block and the commit; empty when there are no receipts.
pub open spec fn header_block(rs: Seq<Receipt>, commit: Seq<char>) -> Seq<char> {
    if rs.len() == 0 {
        Seq::empty()
    } else {
        "## `"@ + block_display(rs[earliest_index(rs)].block_number@) + "` @ `"@ + commit + "`\n"@
    }
}

/// The note line; empty when no note is given.
pub open spec fn note_block(note: Option<&str>) -> Seq<char> {
    match note {
        Some(n) => "\n**Note:** "@ + n@ + "\n"@,
        None => Seq::empty(),
    }
}

/// The report over already classified transactions: heading, note, deployments, calls.
pub open spec fn assembled_report(
    doc: BroadcastJson,
    note: Option<&str>,
    deployments: Seq<Transaction>,
    calls: Seq<Transaction>,
) -> Result<Seq<char>, ChainFault> {
    match deployment_section(deployments) {
        Err(e) => Err(e),
        Ok(d) => match call_section(calls) {
            Err(e) => Err(e),
            Ok(c) => Ok(header_block(doc.receipts@, doc.commit@) + note_block(note) + d + c),
        },
    }
}

/// The markdown report of a broadcast record.
pub open spec fn report(doc: BroadcastJson, note: Option<&str>) -> Result<Seq<char>, ChainFault> {
    assembled_report(
        doc,
        note,
        deployments_of(doc.transactions@),
        calls_of(doc.transactions@),
    )
}

/// An optional machine integer as a mathematical one.
pub open spec fn opt_nat(o: Option<usize>) -> Option<nat> {
    match o {
        Some(v) => Some(v as nat),
        None => None,
    }
}

proof fn lemma_rows_failure_stays(
    txs: Seq<Transaction>,
    row: spec_fn(Transaction) -> Result<Seq<char>, ChainFault>,
    k: int,
)
    requires
        0 <= k <= txs.len(),
        rows(txs.take(k), row) is Err,
    ensures
        rows(txs, row) == rows(txs.take(k), row),
    decreases txs.len(),
{
    if k == txs.len() {
        assert(txs.take(k) =~= txs);
    } else {
        assert(txs.drop_last().take(k) =~= txs.take(k));
        lemma_rows_failure_stays(txs.drop_last(), row, k);
    }
}

proof fn lemma_earliest_unique(rs: Seq<Receipt>, i: int)
    requires
        is_earliest(rs, i),
    ensures
        earliest_index(rs) == i,
{
    let c = earliest_index(rs);
    assert(is_earliest(rs, c));
    if c < i {
        assert(!key_le(block_key(rs[c]), block_key(rs[i])));
        assert(key_le(block_key(rs[c]), block_key(rs[i])));
    } else if i < c {
        assert(!key_le(block_key(rs[i]), block_key(rs[c])));
        assert(key_le(block_key(rs[i]), block_key(rs[c])));
    }
}

fn key_le_exec(a: Option<usize>, b: Option<usize>) -> (r: bool)
    ensures
        r == key_le(opt_nat(a), opt_nat(b)),
{
    match a {
        Some(x) => match b {
            Some(y) => x <= y,
            None => true,
        },
        None => b.is_none(),
    }
}

fn block_key_exec(r: &Receipt) -> (k: Option<usize>)
    ensures
        opt_nat(k) == block_key(*r),
{
    parse_number(r.block_number.as_str())
}

/// Finds the first receipt with the smallest block number.
pub fn earliest_receipt(rs: &Vec<Receipt>) -> (r: Option<usize>)
    ensures
        r is None <==> rs@.len() == 0,
        r is Some ==> is_earliest(rs@, r->0 as int),
{
    if rs.len() == 0 {
        return None;
    }
    let mut best: usize = 0;
    let mut best_key = block_key_exec(&rs[0]);
    let mut i: usize = 1;
    while i < rs.len()
        invariant
            1 <= i <= rs@.len(),
            best < i,
            opt_nat(best_key) == block_key(rs@[best as int]),
            forall|j: int| 0 <= j < i ==> key_le(block_key(rs@[best as int]), #[trigger] block_key(rs@[j])),
            forall|j: int| 0 <= j < best ==> !key_le(#[trigger] block_key(rs@[j]), block_key(rs@[best as int])),
        decreases rs@.len() - i,
    {
        let k = block_key_exec(&rs[i]);
        if !key_le_exec(best_key, k) {
            best = i;
            best_key = k;
        }
        i = i + 1;
    }
    Some(best)
}

/// Shows a block number: a readable `0x` number in decimal, anything else as written.
pub fn render_block_number(raw: &str) -> (r: String)
    ensures
        r@ == block_display(raw@),
{
    let n = raw.unicode_len();
    if n >= 2 && raw.get_char(0) == '0' && raw.get_char(1) == 'x' {
        match parse_number(raw) {
            Some(v) => decimal_string(v),
            None => String::from_str(raw),
        }
    } else {
        String::from_str(raw)
    }
}

/// The heading with the earliest block number and the commit, if there are receipts.
pub fn render_header(doc: &BroadcastJson) -> (r: String)
    ensures
        r@ == header_block(doc.receipts@, doc.commit@),
{
    match earliest_receipt(&doc.receipts) {
        None => String::new(),
        Some(i) => {
            proof {
                lemma_earliest_unique(doc.receipts@, i as int);
            }
            let mut s = String::from_str("## `");
            s.append(render_block_number(doc.receipts[i].block_number.as_str()).as_str());
            s.append("` @ `");
            s.append(doc.commit.as_str());
            s.append("`\n");
            s
        },
    }
}

/// The note line, if a note is given.
pub fn render_note(note: Option<&str>) -> (r: String)
    ensures
        r@ == note_block(note),
{
    match note {
        Some(n) => {
            let mut s = String::from_str("\n**Note:** ");
            s.append(n);
            s.append("\n");
            s
        },
        None => String::new(),
    }
}

fn append_optional(s: &mut String, o: &Option<String>)
    ensures
        final(s)@ == old(s)@ + text_or_empty(*o),
{
    match o {
        Some(t) => s.append(t.as_str()),
        None => {
            assert(old(s)@ + Seq::<char>::empty() =~= old(s)@);
        },
    }
}

/// The arguments of a call as HTML list items, in order.
pub fn render_arguments(args: &Option<Vec<String>>) -> (r: String)
    ensures
        r@ == argument_items(argument_seq(*args)),
{
    let mut s = String::new();
    match args {
        None => s,
        Some(v) => {
            let mut i: usize = 0;
            while i < v.len()
                invariant
                    i <= v@.len(),
                    argument_seq(*args) == v@,
                    s@ == argument_items(v@.take(i as int)),
                decreases v@.len() - i,
            {
                assert(v@.take(i + 1).drop_last() =~= v@.take(i as int));
                s.append("<li><code>");
                s.append(v[i].as_str());
                s.append("</code></li>");
                i = i + 1;
            }
            assert(v@.take(v@.len() as int) =~= v@);
            s
        },
    }
}

/// The table row of one deployment.
pub fn render_deployment_row(tx: &Transaction) -> (r: Result<String, ChainError>)
    ensures
        text_result(r) == deployment_row(*tx),
{
    let c = match contract_explorer_link(tx) {
        Ok(c) => c,
        Err(e) => return Err(e),
    };
    let t = match tx_explorer_link(tx) {
        Ok(t) => t,
        Err(e) => return Err(e),
    };
    let mut s = String::from_str("| `");
    append_optional(&mut s, &tx.contract_name);
    s.append("` | [`");
    s.append(tx.contract_address.as_str());
    s.append("`](");
    s.append(c.as_str());
    s.append(") | [`");
    s.append(tx.hash.as_str());
    s.append("`](");
    s.append(t.as_str());
    s.append(") |\n");
    Ok(s)
}

/// The table row of one call.
pub fn render_call_row(tx: &Transaction) -> (r: Result<String, ChainError>)
    ensures
        text_result(r) == call_row(*tx),
{
    let c = match contract_explorer_link(tx) {
        Ok(c) => c,
        Err(e) => return Err(e),
    };
    let t = match tx_explorer_link(tx) {
        Ok(t) => t,
        Err(e) => return Err(e),
    };
    let mut s = String::from_str("| `");
    append_optional(&mut s, &tx.contract_name);
    s.append("` | [`");
    s.append(tx.contract_address.as_str());
    s.append("`](");
    s.append(c.as_str());
    s.append(") | `");
    append_optional(&mut s, &tx.function);
    s.append("` | <ol>");
    s.append(render_arguments(&tx.arguments).as_str());
    s.append("</ol> | [`");
    s.append(tx.hash.as_str());
    s.append("`](");
    s.append(t.as_str());
    s.append(") |\n");
    Ok(s)
}

/// The section of deployed contracts, one row per deployment in order; empty when
/// there are none.
pub fn render_deployments(deployments: &Vec<&Transaction>) -> (r: Result<String, ChainError>)
    ensures
        text_result(r) == deployment_section(targets(deployments@)),
{
    if deployments.len() == 0 {
        return Ok(String::new());
    }
    let ghost txs = targets(deployments@);
    let ghost row = |t: Transaction| deployment_row(t);
    let mut body = String::new();
    let mut i: usize = 0;
    while i < deployments.len()
        invariant
            i <= deployments@.len(),
            txs == targets(deployments@),
            row == (|t: Transaction| deployment_row(t)),
            rows(txs.take(i as int), row) == Ok::<Seq<char>, ChainFault>(body@),
        decreases deployments@.len() - i,
    {
        assert(txs.take(i + 1).drop_last() =~= txs.take(i as int));
        assert(txs.take(i + 1).last() == *deployments@[i as int]);
        match render_deployment_row(deployments[i]) {
            Ok(line) => {
                body.append(line.as_str());
            },
            Err(e) => {
                proof {
                    lemma_rows_failure_stays(txs, row, i + 1);
                }
                return Err(e);
            },
        }
        i = i + 1;
    }
    assert(txs.take(deployments@.len() as int) =~= txs);
    let mut s = String::from_str(
        "### Deployed contracts\n\n| Name | Address |  Tx  |\n| ---- | ------- | ---- |\n",
    );
    s.append(body.as_str());
    Ok(s)
}

/// The section of calls, one row per call in order; empty when there are none.
pub fn render_calls(calls: &Vec<&Transaction>) -> (r: Result<String, ChainError>)
    ensures
        text_result(r) == call_section(targets(calls@)),
{
    if calls.len() == 0 {
        return Ok(String::new());
    }
    let ghost txs = targets(calls@);
    let ghost row = |t: Transaction| call_row(t);
    let mut body = String::new();
    let mut i: usize = 0;
    while i < calls.len()
        invariant
            i <= calls@.len(),
            txs == targets(calls@),
            row == (|t: Transaction| call_row(t)),
            rows(txs.take(i as int), row) == Ok::<Seq<char>, ChainFault>(body@),
        decreases calls@.len() - i,
    {
        assert(txs.take(i + 1).drop_last() =~= txs.take(i as int));
        assert(txs.take(i + 1).last() == *calls@[i as int]);
        match render_call_row(calls[i]) {
            Ok(line) => {
                body.append(line.as_str());
            },
            Err(e) => {
                proof {
                    lemma_rows_failure_stays(txs, row, i + 1);
                }
                return Err(e);
            },
        }
        i = i + 1;
    }
    assert(txs.take(calls@.len() as int) =~= txs);
    let mut s = String::from_str(
        "\n### Calls\n\n| Name | Address | Function | Args |  Tx  |\n| ---- | ------- | -------- | ---- | ---- |\n",
    );
    s.append(body.as_str());
    Ok(s)
}

/// The report over already classified transactions: heading, note, deployments, calls.
pub fn render_report(
    doc: &BroadcastJson,
    note: Option<&str>,
    deployments: &Vec<&Transaction>,
    calls: &Vec<&Transaction>,
) -> (r: Result<String, ChainError>)
    ensures
        text_result(r) == assembled_report(*doc, note, targets(deployments@), targets(calls@)),
{
    let d = match render_deployments(deployments) {
        Ok(d) => d,
        Err(e) => return Err(e),
    };
    let c = match render_calls(calls) {
        Ok(c) => c,
        Err(e) => return Err(e),
    };
    let mut s = render_header(doc);
    s.append(render_note(note).as_str());
    s.append(d.as_str());
    s.append(c.as_str());
    Ok(s)
}

/// The markdown report of a broadcast record, with an optional note.
pub fn to_markdown(doc: &BroadcastJson, note: Option<&str>) -> (r: Result<String, ChainError>)
    ensures
        text_result(r) == report(*doc, note),
{
    let (deployments, calls) = classify(&doc.transactions);
    render_report(doc, note, &deployments, &calls)
}

} // verus!
