use tonlibjson_jsonrpc::decode::{Field, Member, RawRequest};
use tonlibjson_jsonrpc::dispatcher::{begin, handle, Step};
use tonlibjson_jsonrpc::envelope::JsonResponse;
use tonlibjson_jsonrpc::requests::{
    BackendCall, JsonRequest, LookupBlockParams, Method, SendBocParams, ShardsParams,
    TransactionsParams,
};

fn request(id: u64, method: Method) -> JsonRequest {
    JsonRequest { jsonrpc: "2.0".to_string(), id, method }
}

fn lookup(seqno: Option<u64>, lt: Option<i64>, unixtime: Option<u64>) -> Method {
    Method::LookupBlock {
        params: LookupBlockParams {
            workchain: 0,
            shard: "-9223372036854775808".to_string(),
            seqno,
            lt,
            unixtime,
        },
    }
}

fn failure(step: Step) -> JsonResponse {
    match step {
        Step::Respond { response } => response,
        other => panic!("unexpected step {:?}", other),
    }
}

#[test]
fn accepted_request_leads_to_one_call() {
    assert_eq!(
        begin(request(8, Method::Shards { params: ShardsParams { seqno: 4 } })),
        Step::Call { id: 8, call: BackendCall::GetShards { seqno: 4 } }
    );
    assert_eq!(
        begin(request(9, lookup(Some(5), None, None))),
        Step::Call {
            id: 9,
            call: BackendCall::LookUpBlockBySeqno { workchain: 0, shard: i64::MIN, seqno: 5 }
        }
    );
    assert_eq!(
        begin(request(10, Method::MasterchainInfo)),
        Step::Call { id: 10, call: BackendCall::GetMasterchainInfo }
    );
}

#[test]
fn refused_request_is_answered_with_the_refusal() {
    let response = failure(begin(request(21, lookup(None, None, Some(1)))));
    assert!(!response.ok);
    assert_eq!(response.id, 21);
    assert_eq!(response.result, None);
    assert_eq!(response.jsonrpc, "2.0");
    let error = response.error.expect("an error");
    assert_eq!(error.code, -32603);
    assert_eq!(error.message, "unixtime is not supported");

    let response = failure(begin(request(22, lookup(None, None, None))));
    assert_eq!(response.id, 22);
    assert_eq!(
        response.error.map(|e| e.message),
        Some("seqno or lt or unixtime must be provided".to_string())
    );

    let response = failure(begin(request(
        23,
        Method::SendBoc { params: SendBocParams { boc: "#".to_string() } },
    )));
    assert_eq!(response.id, 23);
    assert_eq!(response.error.map(|e| e.message), Some("boc must be valid base64".to_string()));
}

fn text(key: &str, value: &str) -> Member {
    Member { key: key.to_string(), value: Field::Text(value.to_string()) }
}

fn unsigned(key: &str, value: u64) -> Member {
    Member { key: key.to_string(), value: Field::Unsigned(value) }
}

fn body(id: u64, method: &str, params: Option<Vec<Member>>) -> RawRequest {
    RawRequest {
        members: vec![
            text("jsonrpc", "2.0"),
            unsigned("id", id),
            text("method", method),
            Member { key: "params".to_string(), value: Field::Other },
        ],
        params,
    }
}

#[test]
fn unknown_method_is_answered_without_a_call() {
    let response = failure(handle(&body(17, "getWalletInformation", Some(vec![]))));
    assert!(!response.ok);
    assert_eq!(response.id, 17);
    assert_eq!(response.result, None);
    let error = response.error.expect("an error");
    assert_eq!(error.code, -32603);
    assert_eq!(error.message, "unknown method");
}

#[test]
fn body_is_handled_from_members_to_call() {
    let params = vec![
        unsigned("workchain", 0),
        text("shard", "-9223372036854775808"),
        unsigned("seqno", 5),
    ];
    assert_eq!(
        handle(&body(4, "lookupBlock", Some(params))),
        Step::Call {
            id: 4,
            call: BackendCall::LookUpBlockBySeqno { workchain: 0, shard: i64::MIN, seqno: 5 }
        }
    );
    assert_eq!(
        handle(&body(5, "getMasterchainInfo", None)),
        Step::Call { id: 5, call: BackendCall::GetMasterchainInfo }
    );
}

#[test]
fn body_with_refused_parameters_is_answered() {
    let params = vec![unsigned("workchain", 0), text("shard", "1"), unsigned("seqno", 0)];
    let response = failure(handle(&body(6, "lookupBlock", Some(params))));
    assert_eq!(response.id, 6);
    assert_eq!(
        response.error.map(|e| e.message),
        Some("seqno or lt or unixtime must be provided".to_string())
    );
}

#[test]
fn body_that_does_not_decode_is_answered() {
    let response = failure(handle(&body(7, "shards", Some(vec![text("seqno", "5")]))));
    assert_eq!(response.id, 7);
    assert!(!response.ok);
    assert_eq!(response.error.map(|e| e.message), Some("invalid params".to_string()));

    let no_id = RawRequest {
        members: vec![text("jsonrpc", "2.0"), text("method", "shards")],
        params: Some(vec![unsigned("seqno", 5)]),
    };
    let response = failure(handle(&no_id));
    assert_eq!(response.id, 0);
    assert_eq!(response.error.map(|e| e.message), Some("malformed request".to_string()));
}

#[test]
fn unreadable_to_lt_is_answered_without_a_call() {
    let params = TransactionsParams {
        address: "EQ".to_string(),
        limit: None,
        lt: None,
        hash: None,
        to_lt: Some("abc".to_string()),
        archival: None,
    };
    let response = failure(begin(request(31, Method::Transactions { params })));
    assert!(!response.ok);
    assert_eq!(response.id, 31);
    assert_eq!(response.result, None);
    assert_eq!(
        response.error.map(|e| e.message),
        Some("to_lt must be a signed 64-bit decimal integer".to_string())
    );

    let members = vec![text("address", "EQ"), text("to_lt", "abc")];
    let response = failure(handle(&body(32, "getTransactions", Some(members))));
    assert_eq!(response.id, 32);
    assert_eq!(
        response.error.map(|e| e.message),
        Some("to_lt must be a signed 64-bit decimal integer".to_string())
    );
}
