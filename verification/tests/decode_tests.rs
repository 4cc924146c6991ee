use tonlibjson_jsonrpc::decode::{
    decode, decode_method, request_id, DecodeFailure, Field, Member, RawRequest,
};
use tonlibjson_jsonrpc::envelope::MethodTag;
use tonlibjson_jsonrpc::requests::{
    AddressParams, BlockHeaderParams, BlockTransactionsParams, JsonRequest, LookupBlockParams,
    Method, SendBocParams, ShardsParams, TransactionsParams,
};

fn member(key: &str, value: Field) -> Member {
    Member { key: key.to_string(), value }
}

fn text(key: &str, value: &str) -> Member {
    member(key, Field::Text(value.to_string()))
}

fn unsigned(key: &str, value: u64) -> Member {
    member(key, Field::Unsigned(value))
}

fn envelope(method: &str) -> Vec<Member> {
    vec![text("jsonrpc", "2.0"), unsigned("id", 11), text("method", method)]
}

fn body(method: &str, params: Vec<Member>) -> RawRequest {
    RawRequest { members: envelope(method), params: Some(params) }
}

fn request(method: Method) -> JsonRequest {
    JsonRequest { jsonrpc: "2.0".to_string(), id: 11, method }
}

#[test]
fn lookup_block_is_decoded() {
    let params = vec![
        member("workchain", Field::Negative(-1)),
        text("shard", "-9223372036854775808"),
        unsigned("seqno", 5),
        member("lt", Field::Null),
    ];
    assert_eq!(
        decode(&body("lookupBlock", params)),
        Ok(request(Method::LookupBlock {
            params: LookupBlockParams {
                workchain: -1,
                shard: "-9223372036854775808".to_string(),
                seqno: Some(5),
                lt: None,
                unixtime: None,
            }
        }))
    );
}

#[test]
fn shards_is_decoded() {
    assert_eq!(
        decode(&body("shards", vec![unsigned("seqno", u64::MAX), text("extra", "ignored")])),
        Ok(request(Method::Shards { params: ShardsParams { seqno: u64::MAX } }))
    );
}

#[test]
fn block_header_is_decoded() {
    let params = vec![
        unsigned("workchain", 0),
        text("shard", "8000000000000000"),
        unsigned("seqno", 3),
        text("root_hash", "r"),
    ];
    assert_eq!(
        decode(&body("getBlockHeader", params)),
        Ok(request(Method::BlockHeader {
            params: BlockHeaderParams {
                workchain: 0,
                shard: "8000000000000000".to_string(),
                seqno: 3,
                root_hash: Some("r".to_string()),
                file_hash: None,
            }
        }))
    );
}

#[test]
fn block_transactions_is_decoded() {
    let params = vec![
        unsigned("workchain", 0),
        text("shard", "1"),
        unsigned("seqno", 3),
        member("after_lt", Field::Negative(-4)),
        text("after_hash", "a"),
        unsigned("count", 255),
    ];
    assert_eq!(
        decode(&body("getBlockTransactions", params)),
        Ok(request(Method::BlockTransactions {
            params: BlockTransactionsParams {
                workchain: 0,
                shard: "1".to_string(),
                seqno: 3,
                root_hash: None,
                file_hash: None,
                after_lt: Some(-4),
                after_hash: Some("a".to_string()),
                count: Some(255),
            }
        }))
    );
}

#[test]
fn address_methods_are_decoded() {
    let address = AddressParams { address: "EQ".to_string() };
    assert_eq!(
        decode(&body("getAddressInformation", vec![text("address", "EQ")])),
        Ok(request(Method::AddressInformation { params: address.clone() }))
    );
    assert_eq!(
        decode(&body("getExtendedAddressInformation", vec![text("address", "EQ")])),
        Ok(request(Method::ExtendedAddressInformation { params: address }))
    );
}

#[test]
fn transactions_is_decoded() {
    let params = vec![
        text("address", "EQ"),
        unsigned("limit", 65535),
        text("lt", "100"),
        text("hash", "h"),
        text("to_lt", "50"),
        member("archival", Field::Bool(true)),
    ];
    assert_eq!(
        decode(&body("getTransactions", params)),
        Ok(request(Method::Transactions {
            params: TransactionsParams {
                address: "EQ".to_string(),
                limit: Some(65535),
                lt: Some("100".to_string()),
                hash: Some("h".to_string()),
                to_lt: Some("50".to_string()),
                archival: Some(true),
            }
        }))
    );
}

#[test]
fn send_boc_is_decoded() {
    assert_eq!(
        decode(&body("sendBoc", vec![text("boc", "AQID")])),
        Ok(request(Method::SendBoc { params: SendBocParams { boc: "AQID".to_string() } }))
    );
}

#[test]
fn masterchain_info_needs_no_params() {
    let raw = RawRequest { members: envelope("getMasterchainInfo"), params: None };
    assert_eq!(decode(&raw), Ok(request(Method::MasterchainInfo)));
    assert_eq!(
        decode(&body("getMasterchainInfo", vec![text("anything", "x")])),
        Ok(request(Method::MasterchainInfo))
    );
}

#[test]
fn unknown_method_fails_to_decode() {
    assert_eq!(decode(&body("getBlock", vec![])), Err(DecodeFailure::UnknownMethod));
    assert_eq!(
        decode(&body("LOOKUPBLOCK", vec![unsigned("seqno", 1)])),
        Err(DecodeFailure::UnknownMethod)
    );
    assert_eq!(decode(&body("", vec![])), Err(DecodeFailure::UnknownMethod));
}

#[test]
fn incomplete_envelope_fails_to_decode() {
    let no_version = RawRequest {
        members: vec![unsigned("id", 1), text("method", "shards")],
        params: Some(vec![unsigned("seqno", 1)]),
    };
    assert_eq!(decode(&no_version), Err(DecodeFailure::Envelope));
    let bad_id = RawRequest {
        members: vec![text("jsonrpc", "2.0"), text("id", "1"), text("method", "shards")],
        params: Some(vec![unsigned("seqno", 1)]),
    };
    assert_eq!(decode(&bad_id), Err(DecodeFailure::Envelope));
    assert_eq!(request_id(&bad_id), 0);
    let negative_id = RawRequest {
        members: vec![
            text("jsonrpc", "2.0"),
            member("id", Field::Negative(-1)),
            text("method", "shards"),
        ],
        params: Some(vec![unsigned("seqno", 1)]),
    };
    assert_eq!(decode(&negative_id), Err(DecodeFailure::Envelope));
    let bad_method = RawRequest {
        members: vec![text("jsonrpc", "2.0"), unsigned("id", 1), unsigned("method", 3)],
        params: None,
    };
    assert_eq!(decode(&bad_method), Err(DecodeFailure::Envelope));
    assert_eq!(request_id(&bad_method), 1);
    let empty = RawRequest { members: vec![], params: None };
    assert_eq!(decode(&empty), Err(DecodeFailure::Envelope));
}

#[test]
fn params_that_do_not_fit_fail_to_decode() {
    // A required parameter is missing.
    assert_eq!(decode(&body("shards", vec![])), Err(DecodeFailure::Params));
    assert_eq!(
        decode(&RawRequest { members: envelope("shards"), params: None }),
        Err(DecodeFailure::Params)
    );
    // A required parameter is null.
    assert_eq!(
        decode(&body("shards", vec![member("seqno", Field::Null)])),
        Err(DecodeFailure::Params)
    );
    // A parameter has the wrong type.
    assert_eq!(
        decode(&body("shards", vec![text("seqno", "1")])),
        Err(DecodeFailure::Params)
    );
    assert_eq!(
        decode(&body("shards", vec![member("seqno", Field::Negative(-1))])),
        Err(DecodeFailure::Params)
    );
    assert_eq!(
        decode(&body("sendBoc", vec![member("boc", Field::Other)])),
        Err(DecodeFailure::Params)
    );
    assert_eq!(
        decode(&body(
            "getTransactions",
            vec![text("address", "EQ"), member("archival", Field::Unsigned(1))]
        )),
        Err(DecodeFailure::Params)
    );
    // A parameter is out of range.
    assert_eq!(
        decode(&body("getTransactions", vec![text("address", "EQ"), unsigned("limit", 65536)])),
        Err(DecodeFailure::Params)
    );
    let block = |count: u64| {
        vec![
            unsigned("workchain", 0),
            text("shard", "1"),
            unsigned("seqno", 3),
            unsigned("count", count),
        ]
    };
    assert_eq!(
        decode(&body("getBlockTransactions", block(256))),
        Err(DecodeFailure::Params)
    );
    assert!(decode(&body("getBlockTransactions", block(0))).is_ok());
    let workchain = |w: u64| vec![unsigned("workchain", w), text("shard", "1"), unsigned("seqno", 3)];
    assert_eq!(
        decode(&body("getBlockHeader", workchain(1 << 63))),
        Err(DecodeFailure::Params)
    );
    assert!(decode(&body("getBlockHeader", workchain((1 << 63) - 1))).is_ok());
}

#[test]
fn first_member_of_a_key_counts() {
    let params = vec![unsigned("seqno", 1), unsigned("seqno", 2)];
    assert_eq!(
        decode_method(MethodTag::Shards, &params),
        Some(Method::Shards { params: ShardsParams { seqno: 1 } })
    );
}

#[test]
fn decoded_method_has_the_tag_asked_for() {
    let params = vec![text("address", "EQ")];
    assert_eq!(
        decode_method(MethodTag::AddressInformation, &params).map(|m| m.tag()),
        Some(MethodTag::AddressInformation)
    );
    assert_eq!(
        decode_method(MethodTag::ExtendedAddressInformation, &params).map(|m| m.tag()),
        Some(MethodTag::ExtendedAddressInformation)
    );
    assert_eq!(decode_method(MethodTag::SendBoc, &params), None);
}

#[test]
fn failures_have_messages() {
    assert_eq!(DecodeFailure::Envelope.message(), "malformed request");
    assert_eq!(DecodeFailure::UnknownMethod.message(), "unknown method");
    assert_eq!(DecodeFailure::Params.message(), "invalid params");
}
