//! The parameters of each method and the rules that turn a decoded request
//! into exactly one call on the backend, or into a refusal.

use vstd::prelude::*;
use vstd::string::*;
use crate::codec::{base64_decoding, base64_encoding, canonical_base64};
use crate::envelope::MethodTag;
use crate::number::{parse_i64, signed_decimal};

verus! {

/// How many transactions of a block are asked for where the request names
/// no count.
pub const DEFAULT_BLOCK_COUNT: u8 = 200;

/// How many transactions of an account are returned where the request names
/// no limit.
pub const DEFAULT_LIMIT: u16 = 10;

#[derive(Clone, Debug, PartialEq, Eq)]
pub struct LookupBlockParams {
    pub workchain: i64,
    pub shard: String,
    pub seqno: Option<u64>,
    pub lt: Option<i64>,
    pub unixtime: Option<u64>,
}

#[derive(Clone, Debug, PartialEq, Eq)]
pub struct ShardsParams {
    pub seqno: u64,
}

#[derive(Clone, Debug, PartialEq, Eq)]
pub struct BlockHeaderParams {
    pub workchain: i64,
    pub shard: String,
    pub seqno: u64,
    pub root_hash: Option<String>,
    pub file_hash: Option<String>,
}

#[derive(Clone, Debug, PartialEq, Eq)]
pub struct BlockTransactionsParams {
    pub workchain: i64,
    pub shard: String,
    pub seqno: u64,
    pub root_hash: Option<String>,
    pub file_hash: Option<String>,
    pub after_lt: Option<i64>,
    pub after_hash: Option<String>,
    pub count: Option<u8>,
}

#[derive(Clone, Debug, PartialEq, Eq)]
pub struct AddressParams {
    pub address: String,
}

#[derive(Clone, Debug, PartialEq, Eq)]
pub struct TransactionsParams {
    pub address: String,
    pub limit: Option<u16>,
    pub lt: Option<String>,
    pub hash: Option<String>,
    pub to_lt: Option<String>,
    pub archival: Option<bool>,
}

#[derive(Clone, Debug, PartialEq, Eq)]
pub struct SendBocParams {
    pub boc: String,
}

/// A decoded method with its parameters.
#[allow(inconsistent_fields)]
#[derive(Clone, Debug, PartialEq, Eq)]
pub enum Method {
    LookupBlock { params: LookupBlockParams },
    Shards { params: ShardsParams },
    BlockHeader { params: BlockHeaderParams },
    BlockTransactions { params: BlockTransactionsParams },
    AddressInformation { params: AddressParams },
    ExtendedAddressInformation { params: AddressParams },
    Transactions { params: TransactionsParams },
    SendBoc { params: SendBocParams },
    MasterchainInfo,
}

/// A decoded request.
#[derive(Clone, Debug, PartialEq, Eq)]
pub struct JsonRequest {
    pub jsonrpc: String,
    pub id: u64,
    pub method: Method,
}

/// Why a decoded request was refused before any call on the backend.
#[derive(Clone, Copy, Debug, PartialEq, Eq, Structural)]
pub enum RequestError {
    /// The shard is not the decimal text of a signed 64-bit integer.
    InvalidShard,
    /// Only `unixtime` was given, and lookup by time is not supported.
    UnixtimeUnsupported,
    /// Not exactly one of a positive `seqno` and a positive `lt` was given.
    SelectorRequired,
    /// The message is not valid base64.
    InvalidBoc,
    /// `to_lt` is given and is not the decimal text of a signed 64-bit
    /// integer.
    InvalidToLt,
}

/// Where the stream of an account's transactions starts.
#[derive(Clone, Debug, PartialEq, Eq)]
pub enum TxStart {
    /// At the transaction that the cursor names.
    Cursor { lt: String, hash: String },
    /// At the account's latest transaction.
    Latest,
}

/// The one operation of the backend that a request leads to, with its
/// arguments.
#[derive(Clone, Debug, PartialEq, Eq)]
pub enum BackendCall {
    GetMasterchainInfo,
    LookUpBlockBySeqno { workchain: i64, shard: i64, seqno: u64 },
    LookUpBlockByLt { workchain: i64, shard: i64, lt: i64 },
    GetShards { seqno: u64 },
    GetBlockHeader { workchain: i64, shard: i64, seqno: u64 },
    /// Look the block up by its sequence number, then list its transactions.
    BlockTransactions { workchain: i64, shard: i64, seqno: u64, count: u8 },
    RawGetAccountState { address: String },
    GetAccountState { address: String },
    /// Stream the account's transactions from `start` through the window
    /// given by `floor` and `cap`.
    AccountTransactions { address: String, start: TxStart, floor: Option<i64>, cap: u16 },
    SendMessage { boc: String },
}

/// The message that the response carries for a refusal.
pub open spec fn message_text(error: RequestError) -> Seq<char> {
    match error {
        RequestError::InvalidShard => "shard must be a signed 64-bit decimal integer"@,
        RequestError::UnixtimeUnsupported => "unixtime is not supported"@,
        RequestError::SelectorRequired => "seqno or lt or unixtime must be provided"@,
        RequestError::InvalidBoc => "boc must be valid base64"@,
        RequestError::InvalidToLt => "to_lt must be a signed 64-bit decimal integer"@,
    }
}

impl RequestError {
    /// The message that the response carries for this refusal.
    pub fn message(&self) -> (text: String)
        ensures
            text@ == message_text(*self),
    {
        match self {
            RequestError::InvalidShard => String::from_str(
                "shard must be a signed 64-bit decimal integer",
            ),
            RequestError::UnixtimeUnsupported => String::from_str("unixtime is not supported"),
            RequestError::SelectorRequired => String::from_str(
                "seqno or lt or unixtime must be provided",
            ),
            RequestError::InvalidBoc => String::from_str("boc must be valid base64"),
            RequestError::InvalidToLt => String::from_str(
                "to_lt must be a signed 64-bit decimal integer",
            ),
        }
    }
}

impl Method {
    /// The tag under which this method is registered.
    pub open spec fn spec_tag(&self) -> MethodTag {
        match self {
            Method::LookupBlock { .. } => MethodTag::LookupBlock,
            Method::Shards { .. } => MethodTag::Shards,
            Method::BlockHeader { .. } => MethodTag::BlockHeader,
            Method::BlockTransactions { .. } => MethodTag::BlockTransactions,
            Method::AddressInformation { .. } => MethodTag::AddressInformation,
            Method::ExtendedAddressInformation { .. } => MethodTag::ExtendedAddressInformation,
            Method::Transactions { .. } => MethodTag::Transactions,
            Method::SendBoc { .. } => MethodTag::SendBoc,
            Method::MasterchainInfo => MethodTag::MasterchainInfo,
        }
    }

    /// The tag under which this method is registered.
    pub fn tag(&self) -> (tag: MethodTag)
        ensures
            tag == self.spec_tag(),
    {
        match self {
            Method::LookupBlock { .. } => MethodTag::LookupBlock,
            Method::Shards { .. } => MethodTag::Shards,
            Method::BlockHeader { .. } => MethodTag::BlockHeader,
            Method::BlockTransactions { .. } => MethodTag::BlockTransactions,
            Method::AddressInformation { .. } => MethodTag::AddressInformation,
            Method::ExtendedAddressInformation { .. } => MethodTag::ExtendedAddressInformation,
            Method::Transactions { .. } => MethodTag::Transactions,
            Method::SendBoc { .. } => MethodTag::SendBoc,
            Method::MasterchainInfo => MethodTag::MasterchainInfo,
        }
    }
}

/// The lookup that the selectors of a `lookupBlock` request choose, for a
/// shard already read: by `seqno` where only a positive `seqno` is given, by
/// `lt` where only a positive `lt` is given; `unixtime` alone is refused as
/// unsupported, and every other combination as lacking a selector.
pub open spec fn chosen_lookup(
    workchain: i64,
    shard: i64,
    seqno: Option<u64>,
    lt: Option<i64>,
    unixtime: Option<u64>,
) -> Result<BackendCall, RequestError> {
    if seqno is Some && lt is None && unixtime is None && seqno->Some_0 > 0 {
        Ok(BackendCall::LookUpBlockBySeqno { workchain, shard, seqno: seqno->Some_0 })
    } else if seqno is None && lt is Some && unixtime is None && lt->Some_0 > 0 {
        Ok(BackendCall::LookUpBlockByLt { workchain, shard, lt: lt->Some_0 })
    } else if seqno is None && lt is None && unixtime is Some {
        Err(RequestError::UnixtimeUnsupported)
    } else {
        Err(RequestError::SelectorRequired)
    }
}

/// What `lookup_block` answers: a shard that cannot be read is refused
/// before the selectors are looked at.
pub open spec fn lookup_block_spec(params: LookupBlockParams) -> Result<BackendCall, RequestError> {
    match signed_decimal(params.shard@) {
        Some(shard) => chosen_lookup(
            params.workchain,
            shard,
            params.seqno,
            params.lt,
            params.unixtime,
        ),
        None => Err(RequestError::InvalidShard),
    }
}

/// Resolves a `lookupBlock` request to one lookup strategy, or refuses it.
pub fn lookup_block(params: &LookupBlockParams) -> (call: Result<BackendCall, RequestError>)
    ensures
        call == lookup_block_spec(*params),
{
    let shard = match parse_i64(params.shard.as_str()) {
        Some(shard) => shard,
        None => {
            return Err(RequestError::InvalidShard);
        },
    };
    let workchain = params.workchain;
    match (params.seqno, params.lt, params.unixtime) {
        (Some(seqno), None, None) => {
            if seqno > 0 {
                Ok(BackendCall::LookUpBlockBySeqno { workchain, shard, seqno })
            } else {
                Err(RequestError::SelectorRequired)
            }
        },
        (None, Some(lt), None) => {
            if lt > 0 {
                Ok(BackendCall::LookUpBlockByLt { workchain, shard, lt })
            } else {
                Err(RequestError::SelectorRequired)
            }
        },
        (None, None, Some(_)) => Err(RequestError::UnixtimeUnsupported),
        _ => Err(RequestError::SelectorRequired),
    }
}

/// What `get_block_header` answers. The hashes of the request play no part.
pub open spec fn block_header_spec(params: BlockHeaderParams) -> Result<BackendCall, RequestError> {
    match signed_decimal(params.shard@) {
        Some(shard) => Ok(
            BackendCall::GetBlockHeader { workchain: params.workchain, shard, seqno: params.seqno },
        ),
        None => Err(RequestError::InvalidShard),
    }
}

/// Resolves a `getBlockHeader` request.
pub fn get_block_header(params: &BlockHeaderParams) -> (call: Result<BackendCall, RequestError>)
    ensures
        call == block_header_spec(*params),
{
    match parse_i64(params.shard.as_str()) {
        Some(shard) => Ok(
            BackendCall::GetBlockHeader { workchain: params.workchain, shard, seqno: params.seqno },
        ),
        None => Err(RequestError::InvalidShard),
    }
}

/// What `get_block_transactions` answers: the count is the one given, or
/// the default.
pub open spec fn block_transactions_spec(params: BlockTransactionsParams) -> Result<
    BackendCall,
    RequestError,
> {
    match signed_decimal(params.shard@) {
        Some(shard) => Ok(
            BackendCall::BlockTransactions {
                workchain: params.workchain,
                shard,
                seqno: params.seqno,
                count: match params.count {
                    Some(c) => c,
                    None => DEFAULT_BLOCK_COUNT,
                },
            },
        ),
        None => Err(RequestError::InvalidShard),
    }
}

/// Resolves a `getBlockTransactions` request.
pub fn get_block_transactions(params: &BlockTransactionsParams) -> (call: Result<
    BackendCall,
    RequestError,
>)
    ensures
        call == block_transactions_spec(*params),
{
    let shard = match parse_i64(params.shard.as_str()) {
        Some(shard) => shard,
        None => {
            return Err(RequestError::InvalidShard);
        },
    };
    let count = match params.count {
        Some(c) => c,
        None => DEFAULT_BLOCK_COUNT,
    };
    Ok(
        BackendCall::BlockTransactions {
            workchain: params.workchain,
            shard,
            seqno: params.seqno,
            count,
        },
    )
}

/// Where the stream starts: at the cursor where both of its halves are
/// given, else at the latest transaction.
pub open spec fn chosen_start(lt: Option<String>, hash: Option<String>) -> TxStart {
    match (lt, hash) {
        (Some(lt), Some(hash)) => TxStart::Cursor { lt, hash },
        _ => TxStart::Latest,
    }
}

/// Whether `to_lt` is given and cannot be read as a signed 64-bit decimal.
pub open spec fn unreadable_floor(to_lt: Option<String>) -> bool {
    to_lt matches Some(text) && signed_decimal(text@) is None
}

/// The stop condition of a request: the value of `to_lt` where it is given,
/// none where it is absent.
pub open spec fn chosen_floor(to_lt: Option<String>) -> Option<i64> {
    match to_lt {
        Some(text) => signed_decimal(text@),
        None => None,
    }
}

/// What `get_transactions` answers: a `to_lt` that is given and cannot be
/// read is refused; otherwise the stream starts at the cursor or at the
/// latest transaction, stops at `to_lt` where that is given, and is capped
/// by the limit given or by the default.
pub open spec fn transactions_spec(params: TransactionsParams) -> Result<
    BackendCall,
    RequestError,
> {
    if unreadable_floor(params.to_lt) {
        Err(RequestError::InvalidToLt)
    } else {
        Ok(
            BackendCall::AccountTransactions {
                address: params.address,
                start: chosen_start(params.lt, params.hash),
                floor: chosen_floor(params.to_lt),
                cap: match params.limit {
                    Some(l) => l,
                    None => DEFAULT_LIMIT,
                },
            },
        )
    }
}

/// Resolves a `getTransactions` request: the source of the stream, the stop
/// condition and the cap. A stop condition is set exactly where `to_lt` is
/// given; one that cannot be read refuses the request.
pub fn get_transactions(params: TransactionsParams) -> (call: Result<BackendCall, RequestError>)
    ensures
        call == transactions_spec(params),
        call is Err <==> unreadable_floor(params.to_lt),
        call matches Ok(BackendCall::AccountTransactions { floor, .. }) ==> (floor is Some
            <==> params.to_lt is Some),
{
    let cap = match params.limit {
        Some(l) => l,
        None => DEFAULT_LIMIT,
    };
    let floor = match &params.to_lt {
        Some(text) => match parse_i64(text.as_str()) {
            Some(bound) => Some(bound),
            None => {
                return Err(RequestError::InvalidToLt);
            },
        },
        None => None,
    };
    let start = match (params.lt, params.hash) {
        (Some(lt), Some(hash)) => TxStart::Cursor { lt, hash },
        _ => TxStart::Latest,
    };
    Ok(BackendCall::AccountTransactions { address: params.address, start, floor, cap })
}

/// Whether `call` is what a `sendBoc` request with message `boc` leads to:
/// the message decoded and encoded again, or a refusal where it is not
/// base64.
pub open spec fn sends_boc(boc: Seq<char>, call: Result<BackendCall, RequestError>) -> bool {
    match base64_decoding(boc) {
        Some(bytes) => call matches Ok(BackendCall::SendMessage { boc: sent }) && sent@
            == base64_encoding(bytes),
        None => call == Err::<BackendCall, RequestError>(RequestError::InvalidBoc),
    }
}

/// Resolves a `sendBoc` request.
pub fn send_boc(params: &SendBocParams) -> (call: Result<BackendCall, RequestError>)
    ensures
        sends_boc(params.boc@, call),
{
    match canonical_base64(params.boc.as_str()) {
        Ok(boc) => Ok(BackendCall::SendMessage { boc }),
        Err(_) => Err(RequestError::InvalidBoc),
    }
}

/// Whether `call` is what `method` leads to.
pub open spec fn routes_to(method: Method, call: Result<BackendCall, RequestError>) -> bool {
    match method {
        Method::MasterchainInfo => call == Ok::<BackendCall, RequestError>(
            BackendCall::GetMasterchainInfo,
        ),
        Method::LookupBlock { params } => call == lookup_block_spec(params),
        Method::Shards { params } => call == Ok::<BackendCall, RequestError>(
            BackendCall::GetShards { seqno: params.seqno },
        ),
        Method::BlockHeader { params } => call == block_header_spec(params),
        Method::BlockTransactions { params } => call == block_transactions_spec(params),
        Method::AddressInformation { params } => call == Ok::<BackendCall, RequestError>(
            BackendCall::RawGetAccountState { address: params.address },
        ),
        Method::ExtendedAddressInformation { params } => call == Ok::<BackendCall, RequestError>(
            BackendCall::GetAccountState { address: params.address },
        ),
        Method::Transactions { params } => call == transactions_spec(params),
        Method::SendBoc { params } => sends_boc(params.boc@, call),
    }
}

/// Turns a decoded method into the one call on the backend that serves it,
/// or into the refusal of its parameters.
pub fn dispatch_method(method: Method) -> (call: Result<BackendCall, RequestError>)
    ensures
        routes_to(method, call),
{
    match method {
        Method::MasterchainInfo => Ok(BackendCall::GetMasterchainInfo),
        Method::LookupBlock { params } => lookup_block(&params),
        Method::Shards { params } => Ok(BackendCall::GetShards { seqno: params.seqno }),
        Method::BlockHeader { params } => get_block_header(&params),
        Method::BlockTransactions { params } => get_block_transactions(&params),
        Method::AddressInformation { params } => Ok(
            BackendCall::RawGetAccountState { address: params.address },
        ),
        Method::ExtendedAddressInformation { params } => Ok(
            BackendCall::GetAccountState { address: params.address },
        ),
        Method::Transactions { params } => get_transactions(params),
        Method::SendBoc { params } => send_boc(&params),
    }
}

} // verus!
