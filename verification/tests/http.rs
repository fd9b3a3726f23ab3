use transistor::http::{
    build_timed_url, document_url, documents_body, eid_body, entity_body,
    entity_history_timed_url, entity_history_url, Error,
};
use transistor::types::http::{Order, TimeHistory, Timestamp};

#[test]
fn both_times_are_none() {
    let url = build_timed_url("localhost:3000".to_string(), "entity", None, None);

    assert_eq!(url, "localhost:3000/entity");
}

#[test]
fn both_times_are_some() {
    let url = build_timed_url(
        "localhost:3000".to_string(),
        "entity",
        Some(Timestamp::new(2020, 8, 9, 18, 5, 29, 301, -3 * 60).unwrap()),
        Some(Timestamp::new(2020, 11, 9, 18, 5, 29, 301, -3 * 60).unwrap()),
    );

    assert_eq!(url, "localhost:3000/entity?transaction-time=2020-08-09T18:05:29-03:00&valid-time=2020-11-09T18:05:29-03:00");
}

#[test]
fn only_tx_time_is_some() {
    let url = build_timed_url(
        "localhost:3000".to_string(),
        "entity",
        Some(Timestamp::new(2020, 8, 9, 18, 5, 29, 301, -3 * 60).unwrap()),
        None,
    );

    assert_eq!(
        url,
        "localhost:3000/entity?transaction-time=2020-08-09T18:05:29-03:00"
    );
}

#[test]
fn only_valid_time_is_some() {
    let url = build_timed_url(
        "localhost:3000".to_string(),
        "entity",
        None,
        Some(Timestamp::new(2020, 8, 9, 18, 5, 29, 301, -3 * 60).unwrap()),
    );

    assert_eq!(
        url,
        "localhost:3000/entity?valid-time=2020-08-09T18:05:29-03:00"
    );
}

#[test]
fn entity_body_requires_a_keyword_identifier() {
    assert_eq!(entity_body(":ivan"), Some("{:eid :ivan}".to_string()));
    assert_eq!(entity_body("ivan"), None);
    assert_eq!(eid_body(":ivan"), "{:eid :ivan}");
}

#[test]
fn history_url_carries_order_and_docs_flag() {
    let url = entity_history_url(
        "localhost:3000",
        "ecc6475b7ef9acf689f98e479d539e869432cb5e",
        Order::Asc,
        false,
    );
    assert_eq!(url, "localhost:3000/entity-history/ecc6475b7ef9acf689f98e479d539e869432cb5e?sort-order=asc&with-docs=false");

    let url = entity_history_url(
        "localhost:3000",
        "ecc6475b7ef9acf689f98e479d539e869432cb5e",
        Order::Desc,
        true,
    );
    assert_eq!(url, "localhost:3000/entity-history/ecc6475b7ef9acf689f98e479d539e869432cb5e?sort-order=desc&with-docs=true");
}

#[test]
fn timed_history_url_appends_the_range_parameters() {
    let date = Timestamp::new(2014, 11, 28, 12, 0, 9, 0, 0).unwrap();
    let url = entity_history_timed_url(
        "localhost:3000",
        "ecc6475b7ef9acf689f98e479d539e869432cb5e",
        Order::Asc,
        false,
        &vec![TimeHistory::TransactionTime(Some(date), Some(date))],
    );

    assert_eq!(url, "localhost:3000/entity-history/ecc6475b7ef9acf689f98e479d539e869432cb5e?sort-order=asc&with-docs=false&start-transaction-time=2014-11-28T12:00:09&end-transaction-time=2014-11-28T12:00:09");
}

#[test]
fn documents_body_is_a_set_of_quoted_hashes() {
    let body = documents_body(&vec![
        "1828ebf4466f98ea3f5252a58734208cd0414376".to_string(),
        "6279916e3020d6dc928077f53529e95d205a9465".to_string(),
    ]);
    assert_eq!(
        body,
        "#{\"1828ebf4466f98ea3f5252a58734208cd0414376\", \"6279916e3020d6dc928077f53529e95d205a9465\"}"
    );
    assert_eq!(documents_body(&vec![]), "#{}");
}

#[test]
fn document_url_addresses_one_hash() {
    let url = document_url("localhost:3000", "1828ebf4466f98ea3f5252a58734208cd0414376");
    assert_eq!(
        url,
        "localhost:3000/document/1828ebf4466f98ea3f5252a58734208cd0414376"
    );
}

#[test]
fn transport_errors_carry_their_text() {
    let e = Error::ParseError("no keys found".to_string());
    assert_eq!(e.message(), "no keys found");
    let e = Error::RequestError("connection refused".to_string());
    assert_eq!(e.message(), "connection refused");
}
