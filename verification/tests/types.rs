use transistor::types::error::CruxError;
use transistor::types::query::Query;
use transistor::types::{nullable_str, CruxId, StateResponse};

#[test]
fn identifier_normalizes_and_renders_with_dashes() {
    let id = CruxId::new("Jorge da Silva");
    assert_eq!(id.serialize(), ":Jorge-da-Silva");
}

#[test]
fn renormalizing_a_rendered_identifier_is_idempotent() {
    let rendered = CruxId::new("Jorge da Silva").serialize();
    let again = CruxId::new(rendered.as_str()).serialize();
    assert_eq!(again, rendered);

    let plain = CruxId::new(":already-keyword").serialize();
    assert_eq!(plain, ":already-keyword");
}

#[test]
fn identifier_accepts_the_empty_string() {
    assert_eq!(CruxId::new("").serialize(), ":");
}

#[test]
fn state_response_default_values() {
    let s = StateResponse::default();
    assert_eq!(s.index___index_version, 5);
    assert_eq!(s.doc_log___consumer_state, None);
    assert_eq!(s.tx_log___consumer_state, None);
    assert_eq!(s.kv___kv_store, "crux.kv.rocksdb.RocksKv");
    assert_eq!(s.kv___estimate_num_keys, 34);
    assert_eq!(s.kv___size, 88489);
}

#[test]
fn nullable_str_drops_nil_fields() {
    assert_eq!(nullable_str("nil".to_string()), None);
    assert_eq!(nullable_str("{:a 1}".to_string()), Some("{:a 1}".to_string()));
}

#[test]
fn crux_error_messages_are_reachable() {
    let e = CruxError::QueryError("clojure stack trace".to_string());
    assert_eq!(e.message(), "clojure stack trace");
    let e = CruxError::TxLogActionError("empty actions".to_string());
    assert_eq!(e.message(), "empty actions");
}

#[test]
fn args_keys_skip_inst_tagged_values() {
    let q = Query::find(vec!["?p1"])
        .unwrap()
        .where_clause(vec!["?p1 :date ?d"])
        .unwrap()
        .args(vec!["?d #inst \"2020-01-01\""])
        .unwrap()
        .build()
        .unwrap();

    assert_eq!(
        q.serialize(),
        "{:query\n {:find [?p1]\n:where [[?p1 :date ?d]]\n:args [{?d #inst \"2020-01-01\"}]\n}}"
    );
}
