use ronin_wally::mongodb::Transaction;
use ronin_wally::roninrest::{
    normalize_address, occurs_at, value_of_arg, Adapter, ArgParser, RRDecodedTransaction,
    RRTransaction, RRTransactionDict, DEFAULT_HOST, DEFAULT_USER_AGENT,
};
use serde_json::Value;

fn args(list: &[&str]) -> Vec<String> {
    list.iter().map(|arg| arg.to_string()).collect()
}

#[test]
fn ronin_prefix_becomes_hex_prefix() {
    assert_eq!(normalize_address("ronin:a1b2c3"), "0xa1b2c3");
}

#[test]
fn address_without_the_prefix_is_unchanged() {
    assert_eq!(normalize_address("0xa1b2c3"), "0xa1b2c3");
    assert_eq!(normalize_address(""), "");
    assert_eq!(normalize_address("ronin"), "ronin");
    assert_eq!(normalize_address("ronin;abc"), "ronin;abc");
    assert_eq!(normalize_address("roni"), "roni");
}

#[test]
fn every_occurrence_of_the_prefix_is_replaced() {
    assert_eq!(normalize_address("ronin:ronin:ab"), "0x0xab");
    assert_eq!(normalize_address("xronin:abronin:"), "x0xab0x");
    assert_eq!(normalize_address("ronin:"), "0x");
    assert_eq!(normalize_address("roronin:nin:"), "ro0xnin:");
}

#[test]
fn address_is_read_in_characters() {
    assert_eq!(normalize_address("é→ronin:ü"), "é→0xü");
}

#[test]
fn occurrence_is_tested_at_a_position() {
    assert!(occurs_at("--db=ronin", 0, "--db"));
    assert!(occurs_at("--db=ronin", 5, "ronin"));
    assert!(!occurs_at("--db=ronin", 6, "ronin"));
    assert!(!occurs_at("--db", 0, "--db="));
    assert!(occurs_at("abc", 3, ""));
    assert!(!occurs_at("abc", 4, ""));
    assert!(occurs_at("ü=1", 1, "=1"));
}

#[test]
fn value_stands_behind_the_only_separator() {
    assert_eq!(value_of_arg("--db=ronin"), Some("ronin".to_string()));
    assert_eq!(value_of_arg("--db="), Some(String::new()));
    assert_eq!(value_of_arg("=x"), Some("x".to_string()));
    assert_eq!(value_of_arg("--db"), None);
    assert_eq!(value_of_arg("--db=a=b"), None);
    assert_eq!(value_of_arg(""), None);
    assert_eq!(value_of_arg("ü=é"), Some("é".to_string()));
}

#[test]
fn parameter_is_read_from_the_first_argument_that_sets_it() {
    let line = args(&["wally", "--uri=mongodb://127.0.0.1:27017", "--db=ronin", "--db=other"]);
    assert_eq!(ArgParser::split(&"--db".to_string(), &line), Some("ronin".to_string()));
    assert_eq!(
        ArgParser::split(&"--uri".to_string(), &line),
        Some("mongodb://127.0.0.1:27017".to_string())
    );
}

#[test]
fn parameter_that_no_argument_sets_has_no_value() {
    let line = args(&["wally", "--db=ronin"]);
    assert_eq!(ArgParser::split(&"--host".to_string(), &line), None);
    assert_eq!(ArgParser::split(&"--db".to_string(), &Vec::new()), None);
}

#[test]
fn argument_without_exactly_one_separator_is_passed_over() {
    let line = args(&["--db", "--db=a=b", "--db=ronin"]);
    assert_eq!(ArgParser::split(&"--db".to_string(), &line), Some("ronin".to_string()));
    let line = args(&["--db", "--db=a=b"]);
    assert_eq!(ArgParser::split(&"--db".to_string(), &line), None);
}

#[test]
fn parameter_matches_as_a_prefix() {
    let line = args(&["--database=main"]);
    assert_eq!(ArgParser::split(&"--data".to_string(), &line), Some("main".to_string()));
    assert_eq!(ArgParser::split(&"".to_string(), &line), Some("main".to_string()));
    assert_eq!(ArgParser::split(&"database".to_string(), &line), None);
}

#[test]
fn client_asks_the_default_host() {
    let client = Adapter::new();
    assert_eq!(client.host, "https://ronin.rest");
    assert_eq!(DEFAULT_HOST, "https://ronin.rest");
    assert_eq!(client.attempts().failed(), 0);
    assert_eq!(client.attempts().policy().max_attempts, 25);
}

#[test]
fn method_request_names_the_hash() {
    let request = Adapter::new().decode_method(&"0xabc".to_string());
    assert_eq!(request.url, "https://ronin.rest/ronin/decodeTransaction/0xabc");
    assert_eq!(request.user_agent, DEFAULT_USER_AGENT);
    assert_eq!(
        request.user_agent,
        "ronin/wally0.1.0 See: https://github.com/wehmoen/ronin-wally"
    );
}

#[test]
fn receipt_request_names_the_hash() {
    let client = Adapter { host: "http://localhost:8080".to_string() };
    let request = client.decode_receipt(&"0xdef".to_string());
    assert_eq!(request.url, "http://localhost:8080/ronin/decodeTransactionReceipt/0xdef");
    assert_eq!(request.user_agent, DEFAULT_USER_AGENT);
}

#[test]
fn default_transaction_is_empty() {
    let transaction = RRTransaction::default();
    assert_eq!(transaction.from, "");
    assert_eq!(transaction.to, "");
    assert_eq!(transaction.hash, "");
    assert_eq!(transaction.block_number, 0);
    let dict = RRTransactionDict { transactions: vec!["0x1".to_string()] };
    assert_eq!(dict.transactions.len(), 1);
}

#[test]
fn record_is_built_from_the_raw_transaction_and_both_payloads() {
    let raw = Transaction {
        from: "0xa".to_string(),
        to: "0xb".to_string(),
        hash: "0xc".to_string(),
        block: u32::MAX,
        created_at: Some(1_650_000_000_000),
    };
    let record: RRDecodedTransaction =
        RRDecodedTransaction::enrich(raw, Value::from(1), Value::from(2));
    assert_eq!(record.from, "0xa");
    assert_eq!(record.to, "0xb");
    assert_eq!(record.hash, "0xc");
    assert_eq!(record.block_number, 4_294_967_295);
    assert_eq!(record.input, Some(Value::from(1)));
    assert_eq!(record.output, Some(Value::from(2)));
}
