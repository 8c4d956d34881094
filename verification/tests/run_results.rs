use evm_rpc_harness::failure::Failure;
use evm_rpc_harness::results::{TestResults, announcement, selected};

fn failure(s: &str) -> Failure {
    Failure::new(s.to_string())
}

#[test]
fn a_filter_looks_in_the_name_in_any_case() {
    let filter = |s: &str| Some(s.to_string());
    assert!(selected("eth_chainId", &None));
    assert!(selected("eth_chainId", &filter("")));
    assert!(selected("eth_chainId", &filter("CHAINID")));
    assert!(selected("eth_getBlockByNumber (no txs)", &filter("no TXS")));
    assert!(!selected("eth_chainId", &filter("block")));
}

#[test]
fn checks_are_announced() {
    assert_eq!(
        announcement("eth_call", false, &None).unwrap(),
        "Running test: eth_call... "
    );
    assert_eq!(
        announcement("eth_call", true, &None).unwrap(),
        "Running test: eth_call (optional)... "
    );
    assert!(announcement("eth_call", true, &Some("net".to_string())).is_none());
}

#[test]
fn a_pass_is_noted() {
    let mut r = TestResults::new();
    assert_eq!(r.settle("a", true, Ok(())), vec!["✓ PASS".to_string()]);
    assert_eq!(r.settle("b", false, Ok(())), vec!["✓ PASS".to_string()]);
    assert_eq!(r.passed, vec!["a".to_string(), "b".to_string()]);
    assert!(r.failed.is_empty());
    assert_eq!(r.exit_code(), 0);
}

#[test]
fn a_missing_method_is_forgiven_where_it_is_optional() {
    for m in [
        "RPC error: the method x does not exist/is not available (code: -32601)",
        "it is not available",
        "code -32601",
    ] {
        let mut r = TestResults::new();
        let lines = r.settle("a", true, Err(failure(m)));
        assert_eq!(lines, vec!["⊘ SKIP (method not available on this node)".to_string()]);
        assert!(r.passed.is_empty() && r.failed.is_empty());
        let lines = r.settle("a", false, Err(failure(m)));
        assert_eq!(lines[0], "✗ FAIL");
        assert_eq!(r.failed, vec![("a".to_string(), m.to_string())]);
        assert_eq!(r.exit_code(), 1);
    }
}

#[test]
fn only_the_outermost_message_is_looked_at() {
    let mut r = TestResults::new();
    let f = failure("does not exist").context("Failed to send RPC request".to_string());
    let lines = r.settle("a", true, Err(f));
    assert_eq!(lines[1], "  Error: Failed to send RPC request: does not exist");
    assert_eq!(r.failed, vec![("a".to_string(), "Failed to send RPC request".to_string())]);
}

#[test]
fn the_summary_lists_the_failures() {
    let mut r = TestResults::new();
    r.add_pass("a".to_string());
    let rule = "=".repeat(80);
    assert_eq!(
        r.summary_lines(),
        vec![
            format!("\n{rule}"),
            "Test Summary".to_string(),
            format!("{rule}\n"),
            "✓ Passed: 1".to_string(),
            "✗ Failed: 0".to_string(),
            "Total: 1\n".to_string(),
        ]
    );
    r.add_fail("b".to_string(), "boom".to_string());
    r.add_fail("c".to_string(), "bang".to_string());
    let lines = r.summary_lines();
    assert_eq!(lines[4], "✗ Failed: 2");
    assert_eq!(lines[5], "Total: 3\n");
    assert_eq!(lines[6..], ["Failed tests:", "  ✗ b: boom", "  ✗ c: bang"]);
}

#[test]
fn causes_are_chained() {
    let f = failure("c").context("b".to_string()).context("a".to_string());
    assert_eq!(f.message, "a");
    assert_eq!(f.causes, vec!["b".to_string(), "c".to_string()]);
    assert_eq!(f.detail(), "a: b: c");
}
