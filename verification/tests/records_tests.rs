use tonlibjson_jsonrpc::codec::CodecError;
use tonlibjson_jsonrpc::records::{block_transactions, normalize, BlockIdExt, ShortTxId};

fn tx(account: &str, hash: &str, lt: i64) -> ShortTxId {
    ShortTxId { account: account.to_string(), hash: hash.to_string(), lt, mode: 135 }
}

fn block(workchain: i64) -> BlockIdExt {
    BlockIdExt {
        workchain,
        shard: i64::MIN,
        seqno: 31,
        root_hash: "root".to_string(),
        file_hash: "file".to_string(),
    }
}

#[test]
fn record_account_is_rewritten() {
    assert_eq!(
        normalize(-1, &tx("AQID", "h1", 9)),
        Ok(tx("-1:010203", "h1", 9))
    );
}

#[test]
fn record_with_bad_account_is_refused() {
    assert_eq!(normalize(0, &tx("***", "h1", 9)), Err(CodecError::InvalidBase64));
}

#[test]
fn answer_keeps_number_and_order() {
    let source = vec![tx("AQID", "h1", 30), tx("/w==", "h2", 20), tx("", "h3", 10)];
    let answer = block_transactions(block(5), 200, &source).expect("an answer");
    assert_eq!(
        answer.transactions,
        vec![tx("5:010203", "h1", 30), tx("5:ff", "h2", 20), tx("5:", "h3", 10)]
    );
}

#[test]
fn answer_is_cut_at_the_count() {
    let source = vec![tx("AQID", "h1", 30), tx("/w==", "h2", 20), tx("!", "h3", 10)];
    let answer = block_transactions(block(5), 2, &source).expect("an answer");
    assert_eq!(answer.req_count, 2);
    assert_eq!(answer.transactions, vec![tx("5:010203", "h1", 30), tx("5:ff", "h2", 20)]);
    let none = block_transactions(block(5), 0, &source).expect("an answer");
    assert!(none.transactions.is_empty());
}

#[test]
fn one_bad_account_fails_the_answer() {
    let source = vec![tx("AQID", "h1", 30), tx("!", "h2", 20)];
    assert_eq!(block_transactions(block(5), 200, &source), Err(CodecError::InvalidBase64));
}

#[test]
fn block_transactions_answer_is_assembled() {
    let raw: Vec<u8> = (100u8..132).collect();
    let source = vec![tx(&base64::encode(&raw), "h1", 30), tx("AQID", "h2", 20)];
    let answer = block_transactions(block(-1), 200, &source).expect("an answer");
    assert_eq!(answer.id, block(-1));
    assert!(!answer.incomplete);
    assert_eq!(answer.req_count, 200);
    assert_eq!(
        answer.transactions,
        vec![tx(&format!("-1:{}", hex::encode(&raw)), "h1", 30), tx("-1:010203", "h2", 20)]
    );
}

#[test]
fn block_transactions_of_an_empty_stream() {
    let answer = block_transactions(block(0), 7, &Vec::new()).expect("an answer");
    assert_eq!(answer.req_count, 7);
    assert!(answer.transactions.is_empty());
}

#[test]
fn block_transactions_with_bad_account_fail() {
    assert_eq!(
        block_transactions(block(0), 7, &vec![tx("a", "h", 1)]),
        Err(CodecError::InvalidBase64)
    );
}
