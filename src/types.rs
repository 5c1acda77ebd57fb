use vstd::prelude::*;

verus! {

/// A whole broadcast record: what a deployment run sent and what came back.
#[derive(Debug)]
pub struct BroadcastJson {
    pub transactions: Vec<Transaction>,
    pub receipts: Vec<Receipt>,
    pub libraries: Vec<Library>,
    pub pending: Vec<Pending>,
    pub returns: Return,
    pub timestamp: usize,
    pub chain: usize,
    pub commit: String,
}

/// One transaction of the run.
#[derive(Debug)]
pub struct Transaction {
    pub hash: String,
    pub transaction_type: TransactionType,
    pub contract_name: Option<String>,
    pub contract_address: String,
    pub function: Option<String>,
    pub arguments: Option<Vec<String>>,
    pub transaction: TransactionInner,
    pub additional_contracts: Vec<AdditionalContract>,
    pub is_fixed_gas_limit: bool,
}

/// The raw fields of a transaction, numbers kept as the strings they were written as.
#[derive(Debug)]
pub struct TransactionInner {
    pub from: String,
    pub gas: String,
    pub value: String,
    pub input: String,
    pub nonce: String,
    pub chain_id: String,
}

/// What a transaction does: deploy a contract, or call one.
#[derive(PartialEq, Eq, Structural, Debug, Clone, Copy)]
pub enum TransactionType {
    Create,
    Create2,
    Call,
}

/// A contract created along with a transaction; its contents are not read.
#[derive(Debug)]
pub struct AdditionalContract {}

/// The outcome of a transaction on chain.
#[derive(Debug)]
pub struct Receipt {
    pub status: String,
    pub cumulative_gas_used: String,
    pub logs: Vec<Log>,
    pub logs_bloom: String,
    pub type_: String,
    pub transaction_hash: String,
    pub transaction_index: String,
    pub block_hash: String,
    pub block_number: String,
    pub gas_used: String,
    pub effective_gas_price: String,
    pub from: String,
    pub to: Option<String>,
    pub contract_address: Option<String>,
    pub gas_used_for_l1: Option<String>,
    pub l1_block_number: Option<String>,
}

/// An event emitted by a transaction.
#[derive(Debug)]
pub struct Log {
    pub address: String,
    pub topics: Vec<String>,
    pub data: String,
    pub block_hash: String,
    pub block_number: String,
    pub transaction_hash: String,
    pub transaction_index: String,
    pub log_index: String,
    pub removed: bool,
}

/// A linked library, written `<path>:<contract name>:<address>`.
pub type Library = String;

/// A transaction still waiting to be sent; its contents are not read.
#[derive(Debug)]
pub struct Pending {}

/// The values returned by the run; their contents are not read.
#[derive(Debug)]
pub struct Return {}

/// The transaction type that a wire name stands for: exactly `CREATE`, `CREATE2` or `CALL`.
pub open spec fn wire_type(s: Seq<char>) -> Option<TransactionType> {
    if s == "CREATE"@ {
        Some(TransactionType::Create)
    } else if s == "CREATE2"@ {
        Some(TransactionType::Create2)
    } else if s == "CALL"@ {
        Some(TransactionType::Call)
    } else {
        None
    }
}

/// Compares two strings character by character.
pub fn same_text(a: &str, b: &str) -> (r: bool)
    ensures
        r == (a@ == b@),
{
    let n = a.unicode_len();
    if n != b.unicode_len() {
        return false;
    }
    let mut i: usize = 0;
    while i < n
        invariant
            n == a@.len() == b@.len(),
            i <= n,
            a@.take(i as int) == b@.take(i as int),
        decreases n - i,
    {
        if a.get_char(i) != b.get_char(i) {
            assert(a@[i as int] != b@[i as int]);
            return false;
        }
        assert(a@.take(i + 1) =~= a@.take(i as int).push(a@[i as int]));
        assert(b@.take(i + 1) =~= b@.take(i as int).push(b@[i as int]));
        i = i + 1;
    }
    assert(a@.take(n as int) =~= a@);
    assert(b@.take(n as int) =~= b@);
    true
}

impl TransactionType {
    /// Deployments are `Create` and `Create2`.
    pub open spec fn spec_is_deployment(self) -> bool {
        self is Create || self is Create2
    }

    /// Whether this type deploys a contract.
    #[verifier::when_used_as_spec(spec_is_deployment)]
    pub fn is_deployment(self) -> (r: bool)
        ensures
            r == self.spec_is_deployment(),
    {
        match self {
            TransactionType::Create | TransactionType::Create2 => true,
            TransactionType::Call => false,
        }
    }

    /// Reads a wire name; any name but `CREATE`, `CREATE2` and `CALL` is refused.
    pub fn from_wire(s: &str) -> (r: Option<TransactionType>)
        ensures
            r == wire_type(s@),
    {
        if same_text(s, "CREATE") {
            Some(TransactionType::Create)
        } else if same_text(s, "CREATE2") {
            Some(TransactionType::Create2)
        } else if same_text(s, "CALL") {
            Some(TransactionType::Call)
        } else {
            None
        }
    }
}

} // verus!
