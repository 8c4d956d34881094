use evm_rpc_harness::diff::{
    CorpusRequest, DiffRun, responses_match, rewrite_state_block, strip_keys,
};
use evm_rpc_harness::failure::Failure;
use evm_rpc_harness::json::Json;

fn json(s: &str) -> Json {
    Json::parse(s).ok().unwrap()
}

#[test]
fn keys_are_stripped_at_any_depth() {
    let mut v = json("{\"a\":1,\"x\":{\"a\":2,\"b\":[{\"a\":3,\"c\":4},[{\"a\":5}]]},\"b\":null}");
    strip_keys(&mut v, &["a", "b"]);
    assert_eq!(v.text(), "{\"x\":{}}");
    let mut v = json("[{\"a\":1,\"x\":{\"a\":2,\"k\":[{\"a\":3,\"c\":4},[{\"a\":5}],\"a\"]}}]");
    strip_keys(&mut v, &["a"]);
    assert_eq!(v.text(), "[{\"x\":{\"k\":[{\"c\":4},[{}],\"a\"]}}]");
    strip_keys(&mut v, &["a"]);
    assert_eq!(v.text(), "[{\"x\":{\"k\":[{\"c\":4},[{}],\"a\"]}}]");
    let mut v = json("\"a\"");
    strip_keys(&mut v, &["a"]);
    assert_eq!(v.text(), "\"a\"");
    let mut v = json("{\"a\":1}");
    strip_keys(&mut v, &[]);
    assert_eq!(v.text(), "{\"a\":1}");
}

#[test]
fn shadowed_members_do_not_come_back() {
    let mut v = Json::Object(vec![
        ("a".to_string(), Json::number(1)),
        ("k".to_string(), Json::number(2)),
        ("a".to_string(), Json::number(3)),
    ]);
    strip_keys(&mut v, &["a"]);
    assert_eq!(v.text(), "{\"k\":2}");
}

#[test]
fn responses_match_but_for_hashes_and_member_order() {
    let mut a = json("{\"id\":1,\"result\":[{\"transactionHash\":\"0x1\",\"gas\":\"0x5\"}]}");
    let mut b = json("{\"result\":[{\"gas\":\"0x5\",\"blockHash\":\"0x9\"}],\"id\":1}");
    assert!(responses_match(&mut a, &mut b));
    assert_eq!(a.text(), "{\"id\":1,\"result\":[{\"gas\":\"0x5\"}]}");
    assert_eq!(b.text(), a.text());
}

#[test]
fn item_order_makes_a_difference() {
    assert!(!responses_match(&mut json("[1,2]"), &mut json("[2,1]")));
    assert!(responses_match(&mut json("[1,2]"), &mut json("[1,2]")));
    assert!(!responses_match(&mut json("[1]"), &mut json("[1,1]")));
    assert!(!responses_match(&mut json("1"), &mut json("1.0")));
}

#[test]
fn a_bundle_is_pinned() {
    let mut p = json("[{\"txs\":[],\"blockNumber\":\"0x1\",\"stateBlockNumber\":\"latest\"},7]");
    assert!(rewrite_state_block("eth_estimateGasBundle", &mut p, "0x185b6ff").is_ok());
    assert_eq!(
        p.text(),
        "[{\"blockNumber\":\"0x185b700\",\"stateBlockNumber\":\"0x185b6ff\",\"txs\":[]},7]"
    );
    // once more changes nothing
    assert!(rewrite_state_block("eth_estimateGasBundle", &mut p, "0x185b6ff").is_ok());
    assert_eq!(
        p.text(),
        "[{\"blockNumber\":\"0x185b700\",\"stateBlockNumber\":\"0x185b6ff\",\"txs\":[]},7]"
    );
}

#[test]
fn only_what_is_there_is_pinned() {
    for (method, params) in [
        ("eth_estimateGasBundle", "[{\"txs\":[]}]"),
        ("eth_estimateGasBundle", "[]"),
        ("eth_estimateGasBundle", "[[1]]"),
        ("eth_estimateGasBundle", "{\"blockNumber\":\"0x1\"}"),
        ("eth_calls", "[[]]"),
        ("eth_calls", "{\"1\":2}"),
        ("eth_call", "[{\"blockNumber\":\"0x1\"},\"latest\"]"),
    ] {
        let mut p = json(params);
        assert!(rewrite_state_block(method, &mut p, "junk").is_ok());
        assert_eq!(p.text(), params);
    }
}

#[test]
fn the_block_of_a_batch_is_pinned() {
    let mut p = json("[[],\"latest\",{}]");
    assert!(rewrite_state_block("eth_calls", &mut p, "0x10").is_ok());
    assert_eq!(p.text(), "[[],\"0x10\",{}]");
}

#[test]
fn a_bad_state_block_is_refused() {
    let mut p = json("[{\"blockNumber\":\"0x1\",\"stateBlockNumber\":\"latest\"}]");
    let f = rewrite_state_block("eth_estimateGasBundle", &mut p, "latest").err().unwrap();
    assert_eq!(f.message, "invalid hex number: latest");
    assert_eq!(p.text(), "[{\"blockNumber\":\"0x1\",\"stateBlockNumber\":\"latest\"}]");
    // the state block is set before the placement block is refused
    let mut p = json("[{\"blockNumber\":\"0x1\",\"stateBlockNumber\":\"latest\"}]");
    let f = rewrite_state_block("eth_estimateGasBundle", &mut p, "safe").err().unwrap();
    assert_eq!(f.detail(), "invalid hex number: safe: invalid digit found in string");
    assert_eq!(p.text(), "[{\"blockNumber\":\"0x1\",\"stateBlockNumber\":\"safe\"}]");
    // a bundle without the placement block needs no number
    let mut p = json("[{\"stateBlockNumber\":\"latest\"}]");
    assert!(rewrite_state_block("eth_estimateGasBundle", &mut p, "safe").is_ok());
    assert_eq!(p.text(), "[{\"stateBlockNumber\":\"safe\"}]");
}

fn corpus_request(method: &str, params: &str) -> CorpusRequest {
    CorpusRequest { name: "case".to_string(), method: method.to_string(), params: json(params) }
}

#[test]
fn requests_are_prepared() {
    let run = DiffRun::new(None, false, 1);
    let (request, lines) = run.prepare(&corpus_request("eth_calls", "[[],1]")).ok().unwrap();
    assert_eq!(request.jsonrpc, "2.0");
    assert_eq!(request.method, "eth_calls");
    assert_eq!(request.params.text(), "[[],1]");
    assert_eq!(request.id, 1);
    assert!(lines.is_empty());
    let run = DiffRun::new(Some("0xa".to_string()), true, 1);
    let (request, lines) = run.prepare(&corpus_request("eth_calls", "[[],1]")).ok().unwrap();
    assert_eq!(request.params.text(), "[[],\"0xa\"]");
    assert_eq!(
        lines,
        vec!["\n=== case (eth_calls) ===\nrequest params: [\n  [],\n  \"0xa\"\n]".to_string()]
    );
}

#[test]
fn a_request_that_cannot_be_pinned_is_named() {
    let run = DiffRun::new(Some("q".to_string()), false, 1);
    let req = corpus_request("eth_estimateGasBundle", "[{\"blockNumber\":\"0x1\"}]");
    let f = run.prepare(&req).err().unwrap();
    assert_eq!(f.message, "state-block rewrite failed for 'case'");
    assert_eq!(f.causes[0], "invalid hex number: q");
    assert_eq!(f.causes.len(), 2);
}

#[test]
fn the_block_after_the_largest_number_is_written() {
    let mut p = json("[{\"blockNumber\":\"0x1\"}]");
    assert!(rewrite_state_block("eth_estimateGasBundle", &mut p, "0xffffffffffffffff").is_ok());
    assert_eq!(p.text(), "[{\"blockNumber\":\"0x10000000000000000\"}]");
    let run = DiffRun::new(Some("0xffffffffffffffff".to_string()), false, 1);
    let req = corpus_request("eth_estimateGasBundle", "[{\"blockNumber\":1}]");
    let (request, _) = run.prepare(&req).ok().unwrap();
    assert_eq!(request.params.text(), "[{\"blockNumber\":\"0x10000000000000000\"}]");
}

#[test]
fn the_later_pin_counts() {
    let start = "[{\"blockNumber\":\"0x1\",\"stateBlockNumber\":\"latest\"}]";
    let mut p = json(start);
    assert!(rewrite_state_block("eth_estimateGasBundle", &mut p, "0x5").is_ok());
    assert!(rewrite_state_block("eth_estimateGasBundle", &mut p, "0x9").is_ok());
    assert_eq!(p.text(), "[{\"blockNumber\":\"0xa\",\"stateBlockNumber\":\"0x9\"}]");
}

#[test]
fn strips_add_up() {
    let start = "{\"a\":1,\"b\":[{\"a\":2,\"c\":3}],\"d\":{\"c\":{\"a\":4}}}";
    let (mut one, mut other, mut both) = (json(start), json(start), json(start));
    strip_keys(&mut one, &["a"]);
    strip_keys(&mut one, &["c"]);
    strip_keys(&mut other, &["c"]);
    strip_keys(&mut other, &["a"]);
    strip_keys(&mut both, &["a", "c"]);
    assert_eq!(both.text(), "{\"b\":[{}],\"d\":{}}");
    assert_eq!(one.text(), both.text());
    assert_eq!(other.text(), both.text());
}

#[test]
fn a_comparison_is_counted_and_reported() {
    let mut run = DiffRun::new(None, false, 3);
    let lines = run.settle("same", Ok(json("{\"a\":1}")), Ok(json("{\"a\":1}")));
    assert_eq!(lines, vec![format!("{:40} IDENTICAL \u{2713}", "same")]);
    assert_eq!(run.exit_code(), 0);
    let lines = run.settle("other", Ok(json("{\"a\":1,\"blockHash\":2}")), Ok(json("[]")));
    assert_eq!(
        lines,
        vec![
            format!("{:40} DIFFERS \u{2717}", "other"),
            "  --- geth (normalized) ---\n{\n  \"a\": 1\n}".to_string(),
            "  --- reth (normalized) ---\n[]".to_string(),
        ]
    );
    let down = Failure::new("refused".to_string()).context("failed to send".to_string());
    let lines = run.settle("down", Ok(json("1")), Err(down));
    assert_eq!(
        lines,
        vec![
            format!("{:40} FAILURE \u{2717} (transport error)", "down"),
            "  reth error: failed to send: refused".to_string(),
        ]
    );
    assert_eq!(run.summary(), "\n1 identical, 2 differ (of 3)");
    assert_eq!(run.exit_code(), 1);
}

#[test]
fn raw_answers_are_shown_on_demand() {
    let mut run = DiffRun::new(None, true, 2);
    let lines = run.settle("r", Ok(json("{\"blockHash\":1}")), Ok(json("{}")));
    assert_eq!(lines[0], "geth raw: {\"blockHash\":1}");
    assert_eq!(lines[1], "reth raw: {}");
    assert_eq!(lines.len(), 3);
    let gone = || Failure::new("gone".to_string());
    let lines = run.settle("r", Err(gone()), Err(gone()));
    assert_eq!(lines[1], "  geth error: gone");
    assert_eq!(lines[2], "  reth error: gone");
    assert_eq!(run.exit_code(), 1);
}
