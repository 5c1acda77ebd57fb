use vstd::prelude::*;

use crate::numeric::{number_value, parse_number};
use crate::types::Transaction;

verus! {

/// Why no explorer could be found for a chain id.
#[derive(PartialEq, Eq, Debug, Clone)]
pub enum ChainError {
    /// The chain id is neither a decimal number nor a `0x`-prefixed hexadecimal one.
    InvalidChainId(String),
    /// The chain id is a number that no explorer is known for.
    UnknownChain(usize),
}

/// The mathematical form of a [`ChainError`].
pub enum ChainFault {
    InvalidChainId(Seq<char>),
    UnknownChain(nat),
}

impl View for ChainError {
    type V = ChainFault;

    open spec fn view(&self) -> ChainFault {
        match self {
            ChainError::InvalidChainId(s) => ChainFault::InvalidChainId(s@),
            ChainError::UnknownChain(n) => ChainFault::UnknownChain(*n as nat),
        }
    }
}

/// A text result seen through the views of its text and of its error.
pub open spec fn text_result(r: Result<String, ChainError>) -> Result<Seq<char>, ChainFault> {
    match r {
        Ok(s) => Ok(s@),
        Err(e) => Err(e@),
    }
}

/// The base URL of the block explorer of each known chain.
pub open spec fn explorer_url(chain: nat) -> Option<Seq<char>> {
    if chain == 0xa4b1 {
        Some("https://arbiscan.io"@)
    } else if chain == 8453 {
        Some("https://basescan.org"@)
    } else if chain == 999 {
        Some("https://hyperevmscan.io"@)
    } else if chain == 1 {
        Some("https://etherscan.io"@)
    } else {
        None
    }
}

/// The explorer base URL for a chain id written in decimal or `0x`-prefixed hexadecimal.
pub open spec fn explorer_base(chain_id: Seq<char>) -> Result<Seq<char>, ChainFault> {
    match number_value(chain_id) {
        None => Err(ChainFault::InvalidChainId(chain_id)),
        Some(n) => match explorer_url(n) {
            Some(url) => Ok(url),
            None => Err(ChainFault::UnknownChain(n)),
        },
    }
}

/// The explorer page of a transaction.
pub open spec fn tx_link(tx: Transaction) -> Result<Seq<char>, ChainFault> {
    match explorer_base(tx.transaction.chain_id@) {
        Ok(base) => Ok(base + "/tx/"@ + tx.hash@),
        Err(e) => Err(e),
    }
}

/// The explorer page of the contract that a transaction deployed or called.
pub open spec fn contract_link(tx: Transaction) -> Result<Seq<char>, ChainFault> {
    match explorer_base(tx.transaction.chain_id@) {
        Ok(base) => Ok(base + "/address/"@ + tx.contract_address@),
        Err(e) => Err(e),
    }
}

/// Looks a chain up in the table of known explorers.
pub fn explorer_for(chain: usize) -> (r: Option<&'static str>)
    ensures
        r is Some <==> explorer_url(chain as nat) is Some,
        r is Some ==> explorer_url(chain as nat) == Some(r->0@),
{
    if chain == 0xa4b1 {
        Some("https://arbiscan.io")
    } else if chain == 8453 {
        Some("https://basescan.org")
    } else if chain == 999 {
        Some("https://hyperevmscan.io")
    } else if chain == 1 {
        Some("https://etherscan.io")
    } else {
        None
    }
}

/// Resolves a chain id, decimal or `0x`-prefixed hexadecimal, to its explorer's base URL.
pub fn chain_id_to_explorer(chain_id: &str) -> (r: Result<String, ChainError>)
    ensures
        text_result(r) == explorer_base(chain_id@),
{
    match parse_number(chain_id) {
        None => Err(ChainError::InvalidChainId(String::from_str(chain_id))),
        Some(n) => match explorer_for(n) {
            Some(url) => Ok(String::from_str(url)),
            None => Err(ChainError::UnknownChain(n)),
        },
    }
}

/// The explorer link of a transaction: base URL, `/tx/`, then its hash.
pub fn tx_explorer_link(tx: &Transaction) -> (r: Result<String, ChainError>)
    ensures
        text_result(r) == tx_link(*tx),
{
    match chain_id_to_explorer(tx.transaction.chain_id.as_str()) {
        Ok(mut link) => {
            link.append("/tx/");
            link.append(tx.hash.as_str());
            Ok(link)
        },
        Err(e) => Err(e),
    }
}

/// The explorer link of a transaction's contract: base URL, `/address/`, then its address.
pub fn contract_explorer_link(tx: &Transaction) -> (r: Result<String, ChainError>)
    ensures
        text_result(r) == contract_link(*tx),
{
    match chain_id_to_explorer(tx.transaction.chain_id.as_str()) {
        Ok(mut link) => {
            link.append("/address/");
            link.append(tx.contract_address.as_str());
            Ok(link)
        },
        Err(e) => Err(e),
    }
}

} // verus!
