//! The record store, seen from the run: raw transactions read, enriched
//! records written.

use vstd::prelude::*;
use crate::pipeline::Event;
use crate::roninrest::RRDecodedTransaction;

verus! {

/// A raw transaction as the upstream ingester stored it.
#[derive(Debug)]
pub struct Transaction {
    pub from: String,
    pub to: String,
    /// Unique; the key under which the decoding service knows the transaction.
    pub hash: String,
    pub block: u32,
    /// Milliseconds since the Unix epoch, where the ingester recorded them.
    pub created_at: Option<i64>,
}

/// The database that holds the collections unless another is named.
pub const DEFAULT_DATABASE: &'static str = "ronin";

/// The collection of raw transactions.
pub const TRANSACTIONS: &'static str = "transactions";

/// The collection of enriched transactions.
pub const DECODED_TRANSACTIONS: &'static str = "decoded_transactions";

/// The number of raw transactions that the cursor fetches at a time.
pub const BATCH_SIZE: u32 = 100;

/// A forward scan of the raw transactions.
#[derive(Clone, Copy, Debug, PartialEq, Eq, Structural)]
pub struct Scan {
    /// The scan yields the transactions of blocks strictly above this one.
    pub after: i64,
    /// The number of transactions fetched at a time.
    pub batch_size: u32,
    /// Whether the server keeps the cursor open however long the scan takes.
    pub no_cursor_timeout: bool,
}

impl Scan {
    /// Whether the scan yields the transactions of `block`.
    pub open spec fn yields(self, block: u32) -> bool {
        block as int > self.after
    }
}

/// The record store: it says where the data lies and what to ask of it;
/// connecting, querying and inserting are the caller's part.
pub struct Adapter {
    pub uri: String,
    pub database: String,
}

impl Adapter {
    /// The store at `db_uri`, in the database `db_name` or, where none is
    /// named, in [`DEFAULT_DATABASE`].
    pub fn new(db_uri: &str, db_name: Option<&str>) -> (adapter: Adapter)
        ensures
            adapter.uri@ == db_uri@,
            adapter.database@ == (match db_name {
                Some(name) => name@,
                None => DEFAULT_DATABASE@,
            }),
    {
        let database = match db_name {
            Some(name) => String::from_str(name),
            None => String::from_str(DEFAULT_DATABASE),
        };
        Adapter { uri: String::from_str(db_uri), database }
    }

    /// The resume point: the block of `newest`, the enriched record of the
    /// highest block, or 0 where the store holds no enriched record.
    pub fn last_block(&self, newest: Option<&RRDecodedTransaction>) -> (block: u64)
        ensures
            block == (match newest {
                Some(record) => record.block_number,
                None => 0,
            }),
    {
        match newest {
            None => 0,
            Some(record) => record.block_number,
        }
    }

    /// The scan that yields the raw transactions of the blocks strictly
    /// above `last_block`, whatever `last_block` is.
    pub fn transactions(&self, last_block: u64) -> (scan: Scan)
        ensures
            scan.after == (if last_block <= i64::MAX { last_block as int } else { i64::MAX as int }),
            scan.batch_size == BATCH_SIZE,
            scan.no_cursor_timeout,
            forall|block: u32| #[trigger] scan.yields(block) <==> block > last_block,
    {
        let after: i64 = if last_block <= i64::MAX as u64 {
            last_block as i64
        } else {
            i64::MAX
        };
        Scan { after, batch_size: BATCH_SIZE, no_cursor_timeout: true }
    }

    /// What the run learns of a bulk insert of `decoded`, where the store
    /// reported `inserted` records as written, or failed (`None`): the batch
    /// is stored only if the store wrote all of it.
    pub fn insert_decoded(&self, decoded: &Vec<RRDecodedTransaction>, inserted: Option<usize>) -> (event:
        Event)
        ensures
            event == (if inserted == Some(decoded.len()) {
                Event::Flushed
            } else {
                Event::FlushFailed
            }),
    {
        match inserted {
            Some(count) => if count == decoded.len() {
                Event::Flushed
            } else {
                Event::FlushFailed
            },
            None => Event::FlushFailed,
        }
    }
}

} // verus!
