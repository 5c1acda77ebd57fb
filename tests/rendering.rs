use broadcast_report::classify::classify;
use broadcast_report::explorer::{contract_explorer_link, tx_explorer_link, ChainError};
use broadcast_report::report::{
    earliest_receipt, render_arguments, render_block_number, render_call_row, render_report,
    to_markdown,
};
use broadcast_report::types::{
    BroadcastJson, Receipt, Return, Transaction, TransactionInner, TransactionType,
};

fn tx(
    kind: TransactionType,
    name: Option<&str>,
    address: &str,
    hash: &str,
    chain_id: &str,
) -> Transaction {
    Transaction {
        hash: hash.to_string(),
        transaction_type: kind,
        contract_name: name.map(|n| n.to_string()),
        contract_address: address.to_string(),
        function: None,
        arguments: None,
        transaction: TransactionInner {
            from: "0x0".to_string(),
            gas: "0x0".to_string(),
            value: "0x0".to_string(),
            input: "0x".to_string(),
            nonce: "0x0".to_string(),
            chain_id: chain_id.to_string(),
        },
        additional_contracts: Vec::new(),
        is_fixed_gas_limit: false,
    }
}

fn call(name: &str, address: &str, hash: &str, function: &str, args: Option<Vec<&str>>) -> Transaction {
    let mut t = tx(TransactionType::Call, Some(name), address, hash, "1");
    t.function = Some(function.to_string());
    t.arguments = args.map(|a| a.into_iter().map(|s| s.to_string()).collect());
    t
}

fn receipt(block_number: &str) -> Receipt {
    Receipt {
        status: "0x1".to_string(),
        cumulative_gas_used: "0x0".to_string(),
        logs: Vec::new(),
        logs_bloom: "0x".to_string(),
        type_: "0x2".to_string(),
        transaction_hash: "0x0".to_string(),
        transaction_index: "0x0".to_string(),
        block_hash: "0x0".to_string(),
        block_number: block_number.to_string(),
        gas_used: "0x0".to_string(),
        effective_gas_price: "0x0".to_string(),
        from: "0x0".to_string(),
        to: None,
        contract_address: None,
        gas_used_for_l1: None,
        l1_block_number: None,
    }
}

fn doc(transactions: Vec<Transaction>, receipts: Vec<Receipt>, commit: &str) -> BroadcastJson {
    BroadcastJson {
        transactions,
        receipts,
        libraries: Vec::new(),
        pending: Vec::new(),
        returns: Return {},
        timestamp: 0,
        chain: 1,
        commit: commit.to_string(),
    }
}

#[test]
fn single_deployment_report() {
    let d = doc(
        vec![tx(TransactionType::Create, Some("Foo"), "0xAAA", "0xHHH", "1")],
        vec![receipt("0x10")],
        "abc123",
    );
    let expected = "## `16` @ `abc123`\n\
### Deployed contracts\n\
\n\
| Name | Address |  Tx  |\n\
| ---- | ------- | ---- |\n\
| `Foo` | [`0xAAA`](https://etherscan.io/address/0xAAA) | [`0xHHH`](https://etherscan.io/tx/0xHHH) |\n";
    assert_eq!(to_markdown(&d, None), Ok(expected.to_string()));
}

#[test]
fn call_arguments_become_an_ordered_list() {
    let t = call("Bar", "0xBBB", "0xCCC", "set(uint256,address)", Some(vec!["1", "0xBEEF"]));
    assert_eq!(
        render_arguments(&t.arguments),
        "<li><code>1</code></li><li><code>0xBEEF</code></li>"
    );
    let row = render_call_row(&t).unwrap();
    assert!(row.contains("| <ol><li><code>1</code></li><li><code>0xBEEF</code></li></ol> |"));
    assert_eq!(
        row,
        "| `Bar` | [`0xBBB`](https://etherscan.io/address/0xBBB) | `set(uint256,address)` | <ol><li><code>1</code></li><li><code>0xBEEF</code></li></ol> | [`0xCCC`](https://etherscan.io/tx/0xCCC) |\n"
    );
}

#[test]
fn absent_optional_fields_render_empty() {
    let mut t = tx(TransactionType::Call, None, "0xBBB", "0xCCC", "8453");
    t.function = None;
    t.arguments = None;
    assert_eq!(render_arguments(&t.arguments), "");
    assert_eq!(
        render_call_row(&t),
        Ok("| `` | [`0xBBB`](https://basescan.org/address/0xBBB) | `` | <ol></ol> | [`0xCCC`](https://basescan.org/tx/0xCCC) |\n".to_string())
    );
}

#[test]
fn classification_partitions_in_order() {
    let txs = vec![
        tx(TransactionType::Call, Some("A"), "0x1", "0xa", "1"),
        tx(TransactionType::Create, Some("B"), "0x2", "0xb", "1"),
        tx(TransactionType::Call, Some("C"), "0x3", "0xc", "1"),
        tx(TransactionType::Create2, Some("D"), "0x4", "0xd", "1"),
    ];
    let (deployments, calls) = classify(&txs);
    let d: Vec<&str> = deployments.iter().map(|t| t.hash.as_str()).collect();
    let c: Vec<&str> = calls.iter().map(|t| t.hash.as_str()).collect();
    assert_eq!(d, vec!["0xb", "0xd"]);
    assert_eq!(c, vec!["0xa", "0xc"]);
    assert_eq!(d.len() + c.len(), txs.len());
}

#[test]
fn header_shows_smallest_block_in_decimal() {
    let d = doc(Vec::new(), vec![receipt("0x20"), receipt("0x11"), receipt("18")], "c0ffee");
    assert_eq!(earliest_receipt(&d.receipts), Some(1));
    assert_eq!(to_markdown(&d, None), Ok("## `17` @ `c0ffee`\n".to_string()));
}

#[test]
fn header_compares_numbers_not_text() {
    let d = doc(Vec::new(), vec![receipt("0x9"), receipt("0x10")], "c");
    assert_eq!(to_markdown(&d, None), Ok("## `9` @ `c`\n".to_string()));
    let d = doc(Vec::new(), vec![receipt("100"), receipt("99")], "c");
    assert_eq!(to_markdown(&d, None), Ok("## `99` @ `c`\n".to_string()));
}

#[test]
fn header_keeps_decimal_and_unreadable_block_numbers() {
    let d = doc(Vec::new(), vec![receipt("0x20"), receipt("15")], "c");
    assert_eq!(to_markdown(&d, None), Ok("## `15` @ `c`\n".to_string()));
    assert_eq!(render_block_number("0xzz"), "0xzz");
    assert_eq!(render_block_number("0x"), "0x");
    assert_eq!(render_block_number("0xff"), "255");
    assert_eq!(render_block_number("007"), "007");
    let d = doc(Vec::new(), vec![receipt("0xzz"), receipt("0x5")], "c");
    assert_eq!(to_markdown(&d, None), Ok("## `5` @ `c`\n".to_string()));
}

#[test]
fn empty_record_renders_nothing() {
    let d = doc(Vec::new(), Vec::new(), "abc");
    assert_eq!(to_markdown(&d, None), Ok(String::new()));
    assert_eq!(earliest_receipt(&d.receipts), None);
}

#[test]
fn note_line_only_when_given() {
    let d = doc(Vec::new(), Vec::new(), "abc");
    assert_eq!(to_markdown(&d, Some("first run")), Ok("\n**Note:** first run\n".to_string()));
}

#[test]
fn calls_without_deployments_have_no_deployment_section() {
    let d = doc(
        vec![call("Bar", "0xBBB", "0xCCC", "run()", None)],
        vec![receipt("0x1")],
        "abc",
    );
    let out = to_markdown(&d, None).unwrap();
    assert!(!out.contains("Deployed contracts"));
    assert_eq!(
        out,
        "## `1` @ `abc`\n\n### Calls\n\n| Name | Address | Function | Args |  Tx  |\n| ---- | ------- | -------- | ---- | ---- |\n| `Bar` | [`0xBBB`](https://etherscan.io/address/0xBBB) | `run()` | <ol></ol> | [`0xCCC`](https://etherscan.io/tx/0xCCC) |\n"
    );
}

#[test]
fn full_report_with_note_keeps_row_order() {
    let d = doc(
        vec![
            tx(TransactionType::Create, Some("One"), "0x1", "0xa", "0xa4b1"),
            call("One", "0x1", "0xb", "init()", Some(vec!["x"])),
            tx(TransactionType::Create2, None, "0x2", "0xc", "0xa4b1"),
        ],
        vec![receipt("0x2"), receipt("0x1")],
        "deadbeef",
    );
    let first = to_markdown(&d, Some("n")).unwrap();
    let second = to_markdown(&d, Some("n")).unwrap();
    assert_eq!(first, second);
    let expected = "## `1` @ `deadbeef`\n\
\n\
**Note:** n\n\
### Deployed contracts\n\
\n\
| Name | Address |  Tx  |\n\
| ---- | ------- | ---- |\n\
| `One` | [`0x1`](https://arbiscan.io/address/0x1) | [`0xa`](https://arbiscan.io/tx/0xa) |\n\
| `` | [`0x2`](https://arbiscan.io/address/0x2) | [`0xc`](https://arbiscan.io/tx/0xc) |\n\
\n\
### Calls\n\
\n\
| Name | Address | Function | Args |  Tx  |\n\
| ---- | ------- | -------- | ---- | ---- |\n\
| `One` | [`0x1`](https://etherscan.io/address/0x1) | `init()` | <ol><li><code>x</code></li></ol> | [`0xb`](https://etherscan.io/tx/0xb) |\n";
    assert_eq!(first, expected);
    let (deployments, calls) = classify(&d.transactions);
    assert_eq!(render_report(&d, Some("n"), &deployments, &calls), Ok(expected.to_string()));
}

#[test]
fn unknown_chain_in_a_row_fails_the_report() {
    let d = doc(
        vec![
            tx(TransactionType::Create, Some("Ok"), "0x1", "0xa", "1"),
            tx(TransactionType::Create, Some("Bad"), "0x2", "0xb", "5"),
            tx(TransactionType::Create, Some("Worse"), "0x3", "0xc", "nope"),
        ],
        vec![receipt("0x1")],
        "abc",
    );
    assert_eq!(to_markdown(&d, None), Err(ChainError::UnknownChain(5)));
    let d = doc(vec![call("X", "0x1", "0xa", "f()", None)], Vec::new(), "abc");
    let mut d = d;
    d.transactions[0].transaction.chain_id = "0xq".to_string();
    assert_eq!(to_markdown(&d, None), Err(ChainError::InvalidChainId("0xq".to_string())));
}

#[test]
fn explorer_links_of_a_transaction() {
    let t = tx(TransactionType::Create, Some("Foo"), "0xAAA", "0xHHH", "0x2105");
    assert_eq!(tx_explorer_link(&t), Ok("https://basescan.org/tx/0xHHH".to_string()));
    assert_eq!(contract_explorer_link(&t), Ok("https://basescan.org/address/0xAAA".to_string()));
}
