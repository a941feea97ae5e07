//! Run configuration: the transaction template set and the run parameters,
//! validated from the plain values a configuration file carries.

use crate::hexcodec::{
    hex_decode, lemma_parse_address_len, parse_address, spec_hex_decode, spec_parse_address,
};
use vstd::prelude::*;

verus! {

/// One transaction intent of the template set: destination, calldata and
/// value. Many submitted transactions derive from one intent, each bound to
/// its own nonce.
#[derive(Debug)]
pub struct Transaction {
    /// the target address of the transaction, as 20 bytes
    pub to: Vec<u8>,
    /// the call data of the transaction
    pub calldata: Vec<u8>,
    /// the value (in wei) included in the transaction
    pub value: u64,
}

/// The mathematical content of a [`Transaction`].
pub ghost struct TransactionView {
    pub to: Seq<u8>,
    pub calldata: Seq<u8>,
    pub value: u64,
}

impl View for Transaction {
    type V = TransactionView;

    open spec fn view(&self) -> TransactionView {
        TransactionView { to: self.to@, calldata: self.calldata@, value: self.value }
    }
}

impl Clone for Transaction {
    fn clone(&self) -> (r: Self)
        ensures
            r@ == self@,
    {
        let to = self.to.clone();
        let calldata = self.calldata.clone();
        proof {
            assert(to@ =~= self.to@);
            assert(calldata@ =~= self.calldata@);
        }
        Transaction { to, calldata, value: self.value }
    }
}

/// The run configuration.
#[derive(Debug)]
pub struct Config {
    /// the transaction templates to cycle through
    pub transactions: Vec<Transaction>,
    /// the amount of transactions in total
    pub tx_amount: u64,
    /// the amount of transactions per block
    pub tx_per_block: u64,
    /// the pause (in milliseconds) between mining blocks
    pub block_mining_ms_pause: u64,
    /// the url of the RPC node
    pub rpc_url: String,
}

/// One transaction entry as a configuration file carries it, before
/// validation: every field may be missing, calldata and destination are
/// still hexadecimal text.
pub struct RawTransaction {
    pub to: Option<String>,
    pub calldata: Option<String>,
    pub value: Option<u64>,
}

/// A whole configuration as a configuration file carries it, before
/// validation.
pub struct RawConfig {
    pub transactions: Option<Vec<RawTransaction>>,
    pub tx_amount: Option<u64>,
    pub tx_per_block: Option<u64>,
    pub block_mining_ms_pause: Option<u64>,
    pub rpc_url: Option<String>,
}

/// A missing or malformed configuration field. Fatal: surfaced before any
/// network activity.
#[derive(Debug, PartialEq, Eq, Clone, Copy)]
pub enum ConfigError {
    MissingTransactions,
    MissingCalldata,
    InvalidCalldata,
    MissingTo,
    InvalidTo,
    MissingValue,
    MissingTxAmount,
    MissingTxPerBlock,
    MissingBlockMiningMsPause,
    MissingRpcUrl,
}

/// The first error in one raw transaction entry, checked in the order the
/// fields are read: calldata, destination, value.
pub open spec fn spec_tx_err(raw: RawTransaction) -> Option<ConfigError> {
    if raw.calldata is None {
        Some(ConfigError::MissingCalldata)
    } else if spec_hex_decode(raw.calldata->0@) is None {
        Some(ConfigError::InvalidCalldata)
    } else if raw.to is None {
        Some(ConfigError::MissingTo)
    } else if spec_parse_address(raw.to->0@) is None {
        Some(ConfigError::InvalidTo)
    } else if raw.value is None {
        Some(ConfigError::MissingValue)
    } else {
        None
    }
}

/// The validated content of one error-free raw transaction entry.
pub open spec fn spec_tx_view(raw: RawTransaction) -> TransactionView {
    TransactionView {
        to: spec_parse_address(raw.to->0@)->0,
        calldata: spec_hex_decode(raw.calldata->0@)->0,
        value: raw.value->0,
    }
}

/// The first error over a list of raw transaction entries, in order.
pub open spec fn spec_txs_err(txs: Seq<RawTransaction>) -> Option<ConfigError>
    decreases txs.len(),
{
    if txs.len() == 0 {
        None
    } else if spec_tx_err(txs[0]) is Some {
        spec_tx_err(txs[0])
    } else {
        spec_txs_err(txs.drop_first())
    }
}

/// The first error in a whole raw configuration, in the order the fields
/// are read: the transaction list, then the run parameters.
pub open spec fn spec_config_err(raw: RawConfig) -> Option<ConfigError> {
    if raw.transactions is None {
        Some(ConfigError::MissingTransactions)
    } else if spec_txs_err(raw.transactions->0@) is Some {
        spec_txs_err(raw.transactions->0@)
    } else if raw.tx_amount is None {
        Some(ConfigError::MissingTxAmount)
    } else if raw.tx_per_block is None {
        Some(ConfigError::MissingTxPerBlock)
    } else if raw.block_mining_ms_pause is None {
        Some(ConfigError::MissingBlockMiningMsPause)
    } else if raw.rpc_url is None {
        Some(ConfigError::MissingRpcUrl)
    } else {
        None
    }
}

/// Skipping error-free entries does not change the first error of the list.
proof fn lemma_txs_err_skip(txs: Seq<RawTransaction>, i: int)
    requires
        0 <= i <= txs.len(),
        forall|j: int| 0 <= j < i ==> spec_tx_err(txs[j]) is None,
    ensures
        spec_txs_err(txs) == spec_txs_err(txs.subrange(i, txs.len() as int)),
    decreases i,
{
    if i == 0 {
        assert(txs.subrange(0, txs.len() as int) =~= txs);
    } else {
        lemma_txs_err_skip(txs, i - 1);
        let tail = txs.subrange(i - 1, txs.len() as int);
        assert(tail[0] == txs[i - 1]);
        assert(tail.drop_first() =~= txs.subrange(i, txs.len() as int));
    }
}

impl Config {
    /// Builds the configuration from the plain values read out of a JSON
    /// configuration file, validating every field: the error returned is
    /// exactly the first missing or malformed field, and on success each
    /// entry's calldata and destination are the decoded bytes.
    #[verifier::loop_isolation(false)]
    pub fn from_json(raw: &RawConfig) -> (r: Result<Config, ConfigError>)
        ensures
            r is Ok <==> spec_config_err(*raw) is None,
            r matches Err(e) ==> Some(e) == spec_config_err(*raw),
            r matches Ok(c) ==> {
                &&& c.transactions@.len() == raw.transactions->0@.len()
                &&& forall|i: int|
                    0 <= i < c.transactions@.len() ==> (#[trigger] c.transactions@[i])@
                        == spec_tx_view(raw.transactions->0@[i])
                &&& forall|i: int|
                    0 <= i < c.transactions@.len() ==> (#[trigger] c.transactions@[i])@.to.len()
                        == 20
                &&& c.tx_amount == raw.tx_amount->0
                &&& c.tx_per_block == raw.tx_per_block->0
                &&& c.block_mining_ms_pause == raw.block_mining_ms_pause->0
                &&& c.rpc_url@ == raw.rpc_url->0@
            },
    {
        let json_txs = match &raw.transactions {
            Some(v) => v,
            None => {
                return Err(ConfigError::MissingTransactions);
            },
        };
        let mut txs: Vec<Transaction> = Vec::new();
        let n = json_txs.len();
        let mut i: usize = 0;
        while i < n
            invariant
                n == json_txs@.len(),
                0 <= i <= n,
                txs@.len() == i,
                forall|j: int| 0 <= j < i ==> spec_tx_err(json_txs@[j]) is None,
                forall|j: int|
                    0 <= j < i ==> (#[trigger] txs@[j])@ == spec_tx_view(json_txs@[j]),
                forall|j: int| 0 <= j < i ==> (#[trigger] txs@[j])@.to.len() == 20,
            decreases n - i,
        {
            proof {
                lemma_txs_err_skip(json_txs@, i as int);
            }
            let rt = &json_txs[i];
            let calldata_str = match &rt.calldata {
                Some(s) => s,
                None => {
                    return Err(ConfigError::MissingCalldata);
                },
            };
            let calldata = match hex_decode(calldata_str.as_str()) {
                Some(b) => b,
                None => {
                    return Err(ConfigError::InvalidCalldata);
                },
            };
            let to_str = match &rt.to {
                Some(s) => s,
                None => {
                    return Err(ConfigError::MissingTo);
                },
            };
            let to = match parse_address(to_str.as_str()) {
                Some(b) => b,
                None => {
                    return Err(ConfigError::InvalidTo);
                },
            };
            let value = match &rt.value {
                Some(v) => *v,
                None => {
                    return Err(ConfigError::MissingValue);
                },
            };
            proof {
                lemma_parse_address_len(to_str@);
            }
            txs.push(Transaction { to, calldata, value });
            i = i + 1;
        }
        proof {
            lemma_txs_err_skip(json_txs@, n as int);
        }
        let tx_amount = match &raw.tx_amount {
            Some(v) => *v,
            None => {
                return Err(ConfigError::MissingTxAmount);
            },
        };
        let tx_per_block = match &raw.tx_per_block {
            Some(v) => *v,
            None => {
                return Err(ConfigError::MissingTxPerBlock);
            },
        };
        let block_mining_ms_pause = match &raw.block_mining_ms_pause {
            Some(v) => *v,
            None => {
                return Err(ConfigError::MissingBlockMiningMsPause);
            },
        };
        let rpc_url = match &raw.rpc_url {
            Some(s) => s.clone(),
            None => {
                return Err(ConfigError::MissingRpcUrl);
            },
        };
        Ok(Config { transactions: txs, tx_amount, tx_per_block, block_mining_ms_pause, rpc_url })
    }
}

} // verus!
