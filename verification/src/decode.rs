//! Typed decoding of a request: from the members of a JSON object to one
//! method with its parameters, or a decode failure.

use vstd::prelude::*;
use vstd::string::*;
use crate::envelope::{known_method, same_text, tag_named, MethodTag};
use crate::requests::{
    AddressParams, BlockHeaderParams, BlockTransactionsParams, JsonRequest, LookupBlockParams,
    Method, SendBocParams, ShardsParams, TransactionsParams,
};

verus! {

/// The value of one member of a JSON object, as far as decoding reads it.
#[derive(Clone, Debug, PartialEq, Eq)]
pub enum Field {
    Null,
    Bool(bool),
    /// An integer that is not negative.
    Unsigned(u64),
    /// A negative integer.
    Negative(i64),
    Text(String),
    /// Any other value: a number that is no 64-bit integer, an array, an
    /// object.
    Other,
}

/// One member of a JSON object.
#[derive(Clone, Debug, PartialEq, Eq)]
pub struct Member {
    pub key: String,
    pub value: Field,
}

/// A request body that parsed as a JSON object: its members, and the
/// members of its `params` where that is an object.
#[derive(Clone, Debug, PartialEq, Eq)]
pub struct RawRequest {
    pub members: Vec<Member>,
    pub params: Option<Vec<Member>>,
}

/// Why a body was not decoded.
#[derive(Clone, Copy, Debug, PartialEq, Eq, Structural)]
pub enum DecodeFailure {
    /// `jsonrpc`, `id` or `method` is missing or of the wrong type.
    Envelope,
    /// `method` names no method of the registry.
    UnknownMethod,
    /// The parameters do not fit the method: a required one is missing, or
    /// one is of the wrong type or out of range.
    Params,
}

/// The message that the response carries for a decode failure.
pub open spec fn decode_message(error: DecodeFailure) -> Seq<char> {
    match error {
        DecodeFailure::Envelope => "malformed request"@,
        DecodeFailure::UnknownMethod => "unknown method"@,
        DecodeFailure::Params => "invalid params"@,
    }
}

impl DecodeFailure {
    /// The message that the response carries for this failure.
    pub fn message(&self) -> (text: String)
        ensures
            text@ == decode_message(*self),
    {
        match self {
            DecodeFailure::Envelope => String::from_str("malformed request"),
            DecodeFailure::UnknownMethod => String::from_str("unknown method"),
            DecodeFailure::Params => String::from_str("invalid params"),
        }
    }
}

/// The value of the first member with the given key, if there is one.
pub open spec fn member(members: Seq<Member>, key: Seq<char>) -> Option<Field>
    decreases members.len(),
{
    if members.len() == 0 {
        None
    } else if members[0].key@ == key {
        Some(members[0].value)
    } else {
        member(members.skip(1), key)
    }
}

/// The text that a member holds; none for a missing member or another type.
pub open spec fn text_of(field: Option<Field>) -> Option<String> {
    match field {
        Some(Field::Text(s)) => Some(s),
        _ => None,
    }
}

/// The unsigned 64-bit integer that a member holds.
pub open spec fn u64_of(field: Option<Field>) -> Option<u64> {
    match field {
        Some(Field::Unsigned(u)) => Some(u),
        _ => None,
    }
}

/// The signed 64-bit integer that a member holds.
pub open spec fn i64_of(field: Option<Field>) -> Option<i64> {
    match field {
        Some(Field::Unsigned(u)) => if u <= i64::MAX {
            Some(u as i64)
        } else {
            None
        },
        Some(Field::Negative(n)) => Some(n),
        _ => None,
    }
}

/// The unsigned 16-bit integer that a member holds.
pub open spec fn u16_of(field: Option<Field>) -> Option<u16> {
    match field {
        Some(Field::Unsigned(u)) => if u <= u16::MAX {
            Some(u as u16)
        } else {
            None
        },
        _ => None,
    }
}

/// The unsigned 8-bit integer that a member holds.
pub open spec fn u8_of(field: Option<Field>) -> Option<u8> {
    match field {
        Some(Field::Unsigned(u)) => if u <= u8::MAX {
            Some(u as u8)
        } else {
            None
        },
        _ => None,
    }
}

/// The boolean that a member holds.
pub open spec fn bool_of(field: Option<Field>) -> Option<bool> {
    match field {
        Some(Field::Bool(b)) => Some(b),
        _ => None,
    }
}

/// An optional parameter: not given where the member is missing or null,
/// given where it reads as the type asked for, and a failure (the outer
/// `None`) where it is of another type.
pub open spec fn optional<T>(field: Option<Field>, read: Option<T>) -> Option<Option<T>> {
    if field is None || field == Some(Field::Null) {
        Some(None)
    } else {
        match read {
            Some(v) => Some(Some(v)),
            None => None,
        }
    }
}

/// The field behind a reference, if there is one.
pub open spec fn owned(field: Option<&Field>) -> Option<Field> {
    match field {
        Some(f) => Some(*f),
        None => None,
    }
}

fn find<'a>(members: &'a Vec<Member>, key: &str) -> (found: Option<&'a Field>)
    ensures
        owned(found) == member(members@, key@),
{
    let mut i: usize = 0;
    assert(members@.skip(0) =~= members@);
    while i < members.len()
        invariant
            i <= members.len(),
            member(members@, key@) == member(members@.skip(i as int), key@),
        decreases members.len() - i,
    {
        if same_text(members[i].key.as_str(), key) {
            return Some(&members[i].value);
        }
        assert(members@.skip(i as int).skip(1) =~= members@.skip(i + 1));
        i += 1;
    }
    None
}

fn get_text(members: &Vec<Member>, key: &str) -> (out: Option<String>)
    ensures
        out == text_of(member(members@, key@)),
{
    match find(members, key) {
        Some(Field::Text(s)) => Some(s.clone()),
        _ => None,
    }
}

fn get_u64(members: &Vec<Member>, key: &str) -> (out: Option<u64>)
    ensures
        out == u64_of(member(members@, key@)),
{
    match find(members, key) {
        Some(Field::Unsigned(u)) => Some(*u),
        _ => None,
    }
}

fn get_i64(members: &Vec<Member>, key: &str) -> (out: Option<i64>)
    ensures
        out == i64_of(member(members@, key@)),
{
    match find(members, key) {
        Some(Field::Unsigned(u)) => if *u <= 0x7fff_ffff_ffff_ffff {
            Some(*u as i64)
        } else {
            None
        },
        Some(Field::Negative(n)) => Some(*n),
        _ => None,
    }
}

fn get_optional_text(members: &Vec<Member>, key: &str) -> (out: Option<Option<String>>)
    ensures
        out == optional(member(members@, key@), text_of(member(members@, key@))),
{
    match find(members, key) {
        None => Some(None),
        Some(Field::Null) => Some(None),
        Some(Field::Text(s)) => Some(Some(s.clone())),
        _ => None,
    }
}

fn get_optional_u64(members: &Vec<Member>, key: &str) -> (out: Option<Option<u64>>)
    ensures
        out == optional(member(members@, key@), u64_of(member(members@, key@))),
{
    match find(members, key) {
        None => Some(None),
        Some(Field::Null) => Some(None),
        Some(Field::Unsigned(u)) => Some(Some(*u)),
        _ => None,
    }
}

fn get_optional_i64(members: &Vec<Member>, key: &str) -> (out: Option<Option<i64>>)
    ensures
        out == optional(member(members@, key@), i64_of(member(members@, key@))),
{
    match find(members, key) {
        None => Some(None),
        Some(Field::Null) => Some(None),
        Some(Field::Unsigned(u)) => if *u <= 0x7fff_ffff_ffff_ffff {
            Some(Some(*u as i64))
        } else {
            None
        },
        Some(Field::Negative(n)) => Some(Some(*n)),
        _ => None,
    }
}

fn get_optional_u16(members: &Vec<Member>, key: &str) -> (out: Option<Option<u16>>)
    ensures
        out == optional(member(members@, key@), u16_of(member(members@, key@))),
{
    match find(members, key) {
        None => Some(None),
        Some(Field::Null) => Some(None),
        Some(Field::Unsigned(u)) => if *u <= 0xffff {
            Some(Some(*u as u16))
        } else {
            None
        },
        _ => None,
    }
}

fn get_optional_u8(members: &Vec<Member>, key: &str) -> (out: Option<Option<u8>>)
    ensures
        out == optional(member(members@, key@), u8_of(member(members@, key@))),
{
    match find(members, key) {
        None => Some(None),
        Some(Field::Null) => Some(None),
        Some(Field::Unsigned(u)) => if *u <= 0xff {
            Some(Some(*u as u8))
        } else {
            None
        },
        _ => None,
    }
}

fn get_optional_bool(members: &Vec<Member>, key: &str) -> (out: Option<Option<bool>>)
    ensures
        out == optional(member(members@, key@), bool_of(member(members@, key@))),
{
    match find(members, key) {
        None => Some(None),
        Some(Field::Null) => Some(None),
        Some(Field::Bool(b)) => Some(Some(*b)),
        _ => None,
    }
}

/// The parameters of `lookupBlock` that an object holds.
pub open spec fn lookup_block_params(m: Seq<Member>) -> Option<LookupBlockParams> {
    let workchain = i64_of(member(m, "workchain"@));
    let shard = text_of(member(m, "shard"@));
    let seqno = optional(member(m, "seqno"@), u64_of(member(m, "seqno"@)));
    let lt = optional(member(m, "lt"@), i64_of(member(m, "lt"@)));
    let unixtime = optional(member(m, "unixtime"@), u64_of(member(m, "unixtime"@)));
    if workchain is Some && shard is Some && seqno is Some && lt is Some && unixtime is Some {
        Some(
            LookupBlockParams {
                workchain: workchain->Some_0,
                shard: shard->Some_0,
                seqno: seqno->Some_0,
                lt: lt->Some_0,
                unixtime: unixtime->Some_0,
            },
        )
    } else {
        None
    }
}

/// The parameters of `shards` that an object holds.
pub open spec fn shards_params(m: Seq<Member>) -> Option<ShardsParams> {
    match u64_of(member(m, "seqno"@)) {
        Some(seqno) => Some(ShardsParams { seqno }),
        None => None,
    }
}

/// The parameters of `getBlockHeader` that an object holds.
pub open spec fn block_header_params(m: Seq<Member>) -> Option<BlockHeaderParams> {
    let workchain = i64_of(member(m, "workchain"@));
    let shard = text_of(member(m, "shard"@));
    let seqno = u64_of(member(m, "seqno"@));
    let root_hash = optional(member(m, "root_hash"@), text_of(member(m, "root_hash"@)));
    let file_hash = optional(member(m, "file_hash"@), text_of(member(m, "file_hash"@)));
    if workchain is Some && shard is Some && seqno is Some && root_hash is Some
        && file_hash is Some {
        Some(
            BlockHeaderParams {
                workchain: workchain->Some_0,
                shard: shard->Some_0,
                seqno: seqno->Some_0,
                root_hash: root_hash->Some_0,
                file_hash: file_hash->Some_0,
            },
        )
    } else {
        None
    }
}

/// The parameters of `getBlockTransactions` that an object holds.
pub open spec fn block_transactions_params(m: Seq<Member>) -> Option<BlockTransactionsParams> {
    let workchain = i64_of(member(m, "workchain"@));
    let shard = text_of(member(m, "shard"@));
    let seqno = u64_of(member(m, "seqno"@));
    let root_hash = optional(member(m, "root_hash"@), text_of(member(m, "root_hash"@)));
    let file_hash = optional(member(m, "file_hash"@), text_of(member(m, "file_hash"@)));
    let after_lt = optional(member(m, "after_lt"@), i64_of(member(m, "after_lt"@)));
    let after_hash = optional(member(m, "after_hash"@), text_of(member(m, "after_hash"@)));
    let count = optional(member(m, "count"@), u8_of(member(m, "count"@)));
    if workchain is Some && shard is Some && seqno is Some && root_hash is Some
        && file_hash is Some && after_lt is Some && after_hash is Some && count is Some {
        Some(
            BlockTransactionsParams {
                workchain: workchain->Some_0,
                shard: shard->Some_0,
                seqno: seqno->Some_0,
                root_hash: root_hash->Some_0,
                file_hash: file_hash->Some_0,
                after_lt: after_lt->Some_0,
                after_hash: after_hash->Some_0,
                count: count->Some_0,
            },
        )
    } else {
        None
    }
}

/// The parameters of the two account methods that an object holds.
pub open spec fn address_params(m: Seq<Member>) -> Option<AddressParams> {
    match text_of(member(m, "address"@)) {
        Some(address) => Some(AddressParams { address }),
        None => None,
    }
}

/// The parameters of `getTransactions` that an object holds.
pub open spec fn transactions_params(m: Seq<Member>) -> Option<TransactionsParams> {
    let address = text_of(member(m, "address"@));
    let limit = optional(member(m, "limit"@), u16_of(member(m, "limit"@)));
    let lt = optional(member(m, "lt"@), text_of(member(m, "lt"@)));
    let hash = optional(member(m, "hash"@), text_of(member(m, "hash"@)));
    let to_lt = optional(member(m, "to_lt"@), text_of(member(m, "to_lt"@)));
    let archival = optional(member(m, "archival"@), bool_of(member(m, "archival"@)));
    if address is Some && limit is Some && lt is Some && hash is Some && to_lt is Some
        && archival is Some {
        Some(
            TransactionsParams {
                address: address->Some_0,
                limit: limit->Some_0,
                lt: lt->Some_0,
                hash: hash->Some_0,
                to_lt: to_lt->Some_0,
                archival: archival->Some_0,
            },
        )
    } else {
        None
    }
}

/// The parameters of `sendBoc` that an object holds.
pub open spec fn send_boc_params(m: Seq<Member>) -> Option<SendBocParams> {
    match text_of(member(m, "boc"@)) {
        Some(boc) => Some(SendBocParams { boc }),
        None => None,
    }
}

fn decode_lookup_block(m: &Vec<Member>) -> (out: Option<LookupBlockParams>)
    ensures
        out == lookup_block_params(m@),
{
    let workchain = get_i64(m, "workchain")?;
    let shard = get_text(m, "shard")?;
    let seqno = get_optional_u64(m, "seqno")?;
    let lt = get_optional_i64(m, "lt")?;
    let unixtime = get_optional_u64(m, "unixtime")?;
    Some(LookupBlockParams { workchain, shard, seqno, lt, unixtime })
}

fn decode_shards(m: &Vec<Member>) -> (out: Option<ShardsParams>)
    ensures
        out == shards_params(m@),
{
    let seqno = get_u64(m, "seqno")?;
    Some(ShardsParams { seqno })
}

fn decode_block_header(m: &Vec<Member>) -> (out: Option<BlockHeaderParams>)
    ensures
        out == block_header_params(m@),
{
    let workchain = get_i64(m, "workchain")?;
    let shard = get_text(m, "shard")?;
    let seqno = get_u64(m, "seqno")?;
    let root_hash = get_optional_text(m, "root_hash")?;
    let file_hash = get_optional_text(m, "file_hash")?;
    Some(BlockHeaderParams { workchain, shard, seqno, root_hash, file_hash })
}

fn decode_block_transactions(m: &Vec<Member>) -> (out: Option<BlockTransactionsParams>)
    ensures
        out == block_transactions_params(m@),
{
    let workchain = get_i64(m, "workchain")?;
    let shard = get_text(m, "shard")?;
    let seqno = get_u64(m, "seqno")?;
    let root_hash = get_optional_text(m, "root_hash")?;
    let file_hash = get_optional_text(m, "file_hash")?;
    let after_lt = get_optional_i64(m, "after_lt")?;
    let after_hash = get_optional_text(m, "after_hash")?;
    let count = get_optional_u8(m, "count")?;
    Some(
        BlockTransactionsParams {
            workchain,
            shard,
            seqno,
            root_hash,
            file_hash,
            after_lt,
            after_hash,
            count,
        },
    )
}

fn decode_address(m: &Vec<Member>) -> (out: Option<AddressParams>)
    ensures
        out == address_params(m@),
{
    let address = get_text(m, "address")?;
    Some(AddressParams { address })
}

fn decode_transactions(m: &Vec<Member>) -> (out: Option<TransactionsParams>)
    ensures
        out == transactions_params(m@),
{
    let address = get_text(m, "address")?;
    let limit = get_optional_u16(m, "limit")?;
    let lt = get_optional_text(m, "lt")?;
    let hash = get_optional_text(m, "hash")?;
    let to_lt = get_optional_text(m, "to_lt")?;
    let archival = get_optional_bool(m, "archival")?;
    Some(TransactionsParams { address, limit, lt, hash, to_lt, archival })
}

fn decode_send_boc(m: &Vec<Member>) -> (out: Option<SendBocParams>)
    ensures
        out == send_boc_params(m@),
{
    let boc = get_text(m, "boc")?;
    Some(SendBocParams { boc })
}

/// The method that a tag and the members of `params` make: the parameters
/// are read as the tag's method asks. `getMasterchainInfo` takes none and
/// looks at none.
pub open spec fn method_of(tag: MethodTag, m: Seq<Member>) -> Option<Method> {
    match tag {
        MethodTag::LookupBlock => match lookup_block_params(m) {
            Some(params) => Some(Method::LookupBlock { params }),
            None => None,
        },
        MethodTag::Shards => match shards_params(m) {
            Some(params) => Some(Method::Shards { params }),
            None => None,
        },
        MethodTag::BlockHeader => match block_header_params(m) {
            Some(params) => Some(Method::BlockHeader { params }),
            None => None,
        },
        MethodTag::BlockTransactions => match block_transactions_params(m) {
            Some(params) => Some(Method::BlockTransactions { params }),
            None => None,
        },
        MethodTag::AddressInformation => match address_params(m) {
            Some(params) => Some(Method::AddressInformation { params }),
            None => None,
        },
        MethodTag::ExtendedAddressInformation => match address_params(m) {
            Some(params) => Some(Method::ExtendedAddressInformation { params }),
            None => None,
        },
        MethodTag::Transactions => match transactions_params(m) {
            Some(params) => Some(Method::Transactions { params }),
            None => None,
        },
        MethodTag::SendBoc => match send_boc_params(m) {
            Some(params) => Some(Method::SendBoc { params }),
            None => None,
        },
        MethodTag::MasterchainInfo => Some(Method::MasterchainInfo),
    }
}

/// Reads the parameters of the method that `tag` names from the members of
/// `params`.
pub fn decode_method(tag: MethodTag, m: &Vec<Member>) -> (out: Option<Method>)
    ensures
        out == method_of(tag, m@),
        out matches Some(method) ==> method.spec_tag() == tag,
{
    match tag {
        MethodTag::LookupBlock => match decode_lookup_block(m) {
            Some(params) => Some(Method::LookupBlock { params }),
            None => None,
        },
        MethodTag::Shards => match decode_shards(m) {
            Some(params) => Some(Method::Shards { params }),
            None => None,
        },
        MethodTag::BlockHeader => match decode_block_header(m) {
            Some(params) => Some(Method::BlockHeader { params }),
            None => None,
        },
        MethodTag::BlockTransactions => match decode_block_transactions(m) {
            Some(params) => Some(Method::BlockTransactions { params }),
            None => None,
        },
        MethodTag::AddressInformation => match decode_address(m) {
            Some(params) => Some(Method::AddressInformation { params }),
            None => None,
        },
        MethodTag::ExtendedAddressInformation => match decode_address(m) {
            Some(params) => Some(Method::ExtendedAddressInformation { params }),
            None => None,
        },
        MethodTag::Transactions => match decode_transactions(m) {
            Some(params) => Some(Method::Transactions { params }),
            None => None,
        },
        MethodTag::SendBoc => match decode_send_boc(m) {
            Some(params) => Some(Method::SendBoc { params }),
            None => None,
        },
        MethodTag::MasterchainInfo => Some(Method::MasterchainInfo),
    }
}

/// The members of `params`, or none where the body has no such object.
pub open spec fn params_of(raw: RawRequest) -> Seq<Member> {
    match raw.params {
        Some(m) => m@,
        None => Seq::empty(),
    }
}

/// The id under which a body is answered: its `id` where that is an
/// unsigned integer, else zero.
pub open spec fn id_of(raw: RawRequest) -> u64 {
    match u64_of(member(raw.members@, "id"@)) {
        Some(id) => id,
        None => 0,
    }
}

/// What a body decodes to. The envelope comes first: `jsonrpc` and `method`
/// must be text and `id` an unsigned integer. Then the method must be one of
/// the registry. Then its parameters must fit; a body without a `params`
/// object is read as one with no parameters.
pub open spec fn decoded(raw: RawRequest) -> Result<JsonRequest, DecodeFailure> {
    let jsonrpc = text_of(member(raw.members@, "jsonrpc"@));
    let id = u64_of(member(raw.members@, "id"@));
    let name = text_of(member(raw.members@, "method"@));
    if jsonrpc is None || id is None || name is None {
        Err(DecodeFailure::Envelope)
    } else {
        match tag_named(name->Some_0@) {
            None => Err(DecodeFailure::UnknownMethod),
            Some(tag) => match method_of(tag, params_of(raw)) {
                None => Err(DecodeFailure::Params),
                Some(method) => Ok(
                    JsonRequest { jsonrpc: jsonrpc->Some_0, id: id->Some_0, method },
                ),
            },
        }
    }
}

/// Whether the `method` of a body is text that names no method of the
/// registry.
pub open spec fn names_unknown_method(raw: RawRequest) -> bool {
    text_of(member(raw.members@, "method"@)) matches Some(name) && !known_method(name@)
}

/// The id under which a body is answered.
pub fn request_id(raw: &RawRequest) -> (id: u64)
    ensures
        id == id_of(*raw),
{
    match get_u64(&raw.members, "id") {
        Some(id) => id,
        None => 0,
    }
}

/// Decodes a body into a request for exactly one method, or fails. A
/// request is never decoded in part.
pub fn decode(raw: &RawRequest) -> (out: Result<JsonRequest, DecodeFailure>)
    ensures
        out == decoded(*raw),
        out matches Ok(request) ==> request.id == id_of(*raw),
        names_unknown_method(*raw) ==> out is Err,
{
    let jsonrpc = match get_text(&raw.members, "jsonrpc") {
        Some(jsonrpc) => jsonrpc,
        None => {
            return Err(DecodeFailure::Envelope);
        },
    };
    let id = match get_u64(&raw.members, "id") {
        Some(id) => id,
        None => {
            return Err(DecodeFailure::Envelope);
        },
    };
    let name = match get_text(&raw.members, "method") {
        Some(name) => name,
        None => {
            return Err(DecodeFailure::Envelope);
        },
    };
    let tag = match MethodTag::from_name(name.as_str()) {
        Some(tag) => tag,
        None => {
            return Err(DecodeFailure::UnknownMethod);
        },
    };
    let method = match &raw.params {
        Some(m) => decode_method(tag, m),
        None => {
            let none: Vec<Member> = Vec::new();
            decode_method(tag, &none)
        },
    };
    match method {
        Some(method) => Ok(JsonRequest { jsonrpc, id, method }),
        None => Err(DecodeFailure::Params),
    }
}

} // verus!
