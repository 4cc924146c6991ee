//! The records of a block's transaction list and their normal form.

use vstd::prelude::*;
use vstd::string::*;
use crate::aggregation::Aggregator;
use crate::codec::{base64_decoding, hex_encoding, qualified_account, qualify_account, CodecError};

verus! {

/// The full identifier of a block.
#[derive(Clone, Debug, PartialEq, Eq)]
pub struct BlockIdExt {
    pub workchain: i64,
    pub shard: i64,
    pub seqno: u64,
    pub root_hash: String,
    pub file_hash: String,
}

/// The short identifier of a transaction within a block.
#[derive(Clone, Debug, PartialEq, Eq)]
pub struct ShortTxId {
    pub account: String,
    pub hash: String,
    pub lt: i64,
    pub mode: u8,
}

/// The transactions of a block, as handed to the caller.
#[derive(Clone, Debug, PartialEq, Eq)]
pub struct BlockTransactions {
    pub id: BlockIdExt,
    pub incomplete: bool,
    pub req_count: u8,
    pub transactions: Vec<ShortTxId>,
}

/// Whether `after` is `before` with its account rewritten for `workchain`:
/// the account of `before` is base64, the account of `after` is the
/// workchain, a colon and the hexadecimal text of the decoded bytes, and
/// nothing else differs.
pub open spec fn normalized(workchain: i64, before: ShortTxId, after: ShortTxId) -> bool {
    &&& base64_decoding(before.account@) matches Some(bytes) && after.account@
        == qualified_account(workchain, hex_encoding(bytes))
    &&& after.hash@ == before.hash@
    &&& after.lt == before.lt
    &&& after.mode == before.mode
}

/// Whether the account of each of the first `n` records is valid base64.
pub open spec fn decodable_prefix(txs: Seq<ShortTxId>, n: int) -> bool {
    forall|i: int| 0 <= i < n ==> base64_decoding((#[trigger] txs[i]).account@) is Some
}

/// How many records a list of `len` keeps under a cap of `count`.
pub open spec fn capped_len(len: nat, count: u8) -> nat {
    if (count as nat) < len {
        count as nat
    } else {
        len
    }
}

/// Rewrites the account of one record for `workchain`.
pub fn normalize(workchain: i64, tx: &ShortTxId) -> (out: Result<ShortTxId, CodecError>)
    ensures
        out is Ok <==> base64_decoding(tx.account@) is Some,
        out matches Ok(after) ==> normalized(workchain, *tx, after),
        out matches Err(e) ==> e == CodecError::InvalidBase64,
{
    match qualify_account(workchain, tx.account.as_str()) {
        Ok(account) => Ok(ShortTxId { account, hash: tx.hash.clone(), lt: tx.lt, mode: tx.mode }),
        Err(e) => Err(e),
    }
}

/// Assembles the answer to a `getBlockTransactions` request from the block
/// that the lookup resolved, the count asked for, and the records that the
/// backend streamed. The answer holds the first `count` records, or all of
/// them where there are fewer, in the backend's order, each with its account
/// rewritten for the block's workchain. Records behind the cap are not
/// looked at; one account before it that is not base64 fails the request.
pub fn block_transactions(block: BlockIdExt, count: u8, txs: &Vec<ShortTxId>) -> (out: Result<
    BlockTransactions,
    CodecError,
>)
    ensures
        out is Ok <==> decodable_prefix(txs@, capped_len(txs@.len(), count) as int),
        out matches Err(e) ==> e == CodecError::InvalidBase64,
        out matches Ok(answer) ==> {
            &&& answer.id == block
            &&& !answer.incomplete
            &&& answer.req_count == count
            &&& answer.transactions@.len() == capped_len(txs@.len(), count)
            &&& forall|i: int|
                0 <= i < answer.transactions@.len() ==> normalized(
                    block.workchain,
                    txs@[i],
                    #[trigger] answer.transactions@[i],
                )
        },
{
    let mut engine = Aggregator::new(None, Some(count as usize));
    let mut list: Vec<ShortTxId> = Vec::new();
    let mut i: usize = 0;
    while i < txs.len() && engine.wants_more()
        invariant
            i <= txs.len(),
            i <= count,
            engine == (Aggregator { floor: None, remaining: Some((count - i) as usize), stopped: false }),
            list@.len() == i,
            decodable_prefix(txs@, i as int),
            forall|j: int| 0 <= j < i ==> normalized(block.workchain, txs@[j], #[trigger] list@[j]),
        decreases txs.len() - i,
    {
        let taken = engine.offer(txs[i].lt);
        assert(taken);
        match normalize(block.workchain, &txs[i]) {
            Ok(after) => {
                list.push(after);
            },
            Err(e) => {
                return Err(e);
            },
        }
        i += 1;
    }
    Ok(BlockTransactions { id: block, incomplete: false, req_count: count, transactions: list })
}

} // verus!
