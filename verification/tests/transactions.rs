use transistor::types::http::{
    serialize_time_histories, Action, Actions, Order, TimeHistory, Timestamp,
};
use transistor::types::CruxId;

fn person1_doc() -> String {
    "{ :crux.db/id :jorge-3, :first-name \"Michael\", :last-name \"Jorge\", }".to_string()
}

fn person2_doc() -> String {
    "{ :crux.db/id :manuel-1, :first-name \"Diego\", :last-name \"Manuel\", }".to_string()
}

#[test]
fn actions() {
    let timed = Timestamp::new(2014, 11, 28, 21, 0, 9, 0, -9 * 60).unwrap();

    let actions = Actions::new()
        .append_put_timed(person1_doc(), timed)
        .append_put(person2_doc())
        .append_evict(CruxId::new("jorge-3"))
        .append_delete(CruxId::new("manuel-1"))
        .append_match_doc(CruxId::new("manuel-1"), person2_doc());

    assert_eq!(actions.clone(), expected_actions());
}

fn expected_actions() -> Actions {
    Actions {
        actions: vec![
            Action::Put(
                person1_doc(),
                Some(Timestamp::new(2014, 11, 28, 21, 0, 9, 0, -9 * 60).unwrap()),
            ),
            Action::Put(person2_doc(), None),
            Action::Evict(CruxId::new("jorge-3").serialize()),
            Action::Delete(CruxId::new("manuel-1").serialize(), None),
            Action::Match(CruxId::new("manuel-1").serialize(), person2_doc(), None),
        ],
    }
}

#[test]
fn transaction_text_preserves_append_order() {
    let tx = Actions::new()
        .append_put("{ :crux.db/id :a, }".to_string())
        .append_evict(CruxId::new("b"))
        .append_delete(CruxId::new("c"))
        .append_match_doc(CruxId::new("d"), "{ :crux.db/id :d, }".to_string())
        .build();

    assert_eq!(
        tx,
        "[[:crux.tx/put { :crux.db/id :a, }], [:crux.tx/evict :b], [:crux.tx/delete :c], [:crux.tx/match :d { :crux.db/id :d, }]]"
    );
}

#[test]
fn put_with_time_carries_the_inst_literal() {
    let timed = Timestamp::new(2014, 11, 28, 21, 0, 9, 0, -9 * 60).unwrap();
    let tx = Actions::new().append_put_timed("{ :crux.db/id :a, }".to_string(), timed).build();

    assert_eq!(
        tx,
        "[[:crux.tx/put { :crux.db/id :a, } #inst \"2014-11-28T21:00:09-09:00\"]]"
    );
}

#[test]
fn delete_with_time_carries_the_inst_literal() {
    let timed = Timestamp::new(2020, 7, 16, 21, 53, 14, 628, 0).unwrap();
    let tx = Actions::new().append_delete_timed(CruxId::new("c"), timed).build();

    assert_eq!(tx, "[[:crux.tx/delete :c #inst \"2020-07-16T21:53:14+00:00\"]]");
}

#[test]
fn match_with_time_carries_the_inst_literal() {
    let timed = Timestamp::new(2020, 7, 16, 21, 53, 14, 0, 90).unwrap();
    let tx = Actions::new()
        .append_match_doc_timed(CruxId::new("d"), "{ :crux.db/id :d, }".to_string(), timed)
        .build();

    assert_eq!(
        tx,
        "[[:crux.tx/match :d { :crux.db/id :d, } #inst \"2020-07-16T21:53:14+01:30\"]]"
    );
}

#[test]
fn evict_of_a_raw_identifier_renders_nothing() {
    let raw = Action::Evict("jorge-3".to_string());
    assert_eq!(raw.serialize(), "");

    let keyword = Action::Evict(":jorge-3".to_string());
    assert_eq!(keyword.serialize(), "[:crux.tx/evict :jorge-3]");
}

#[test]
fn timestamp_rejects_fields_out_of_calendar_range() {
    assert!(Timestamp::new(2020, 13, 1, 0, 0, 0, 0, 0).is_none());
    assert!(Timestamp::new(2020, 0, 1, 0, 0, 0, 0, 0).is_none());
    assert!(Timestamp::new(2020, 1, 32, 0, 0, 0, 0, 0).is_none());
    assert!(Timestamp::new(2020, 1, 1, 24, 0, 0, 0, 0).is_none());
    assert!(Timestamp::new(2020, 1, 1, 0, 60, 0, 0, 0).is_none());
    assert!(Timestamp::new(2020, 1, 1, 0, 0, 60, 0, 0).is_none());
    assert!(Timestamp::new(2020, 1, 1, 0, 0, 0, 1000, 0).is_none());
    assert!(Timestamp::new(2020, 1, 1, 0, 0, 0, 0, 1440).is_none());
    assert!(Timestamp::new(2020, 1, 1, 0, 0, 0, 0, -1440).is_none());
    assert!(Timestamp::new(2020, 12, 31, 23, 59, 59, 999, 1439).is_some());
}

#[test]
fn order_serializes_to_its_parameter_text() {
    assert_eq!(Order::Asc.serialize(), "asc");
    assert_eq!(Order::Desc.serialize(), "desc");
}

#[test]
fn time_history_renders_each_bound_combination() {
    let start = Timestamp::new(2014, 11, 28, 12, 0, 9, 0, 0).unwrap();
    let end = Timestamp::new(2014, 11, 29, 12, 0, 9, 0, 0).unwrap();

    assert_eq!(
        TimeHistory::ValidTime(Some(start), Some(end)).serialize(),
        "&start-valid-time=2014-11-28T12:00:09&end-valid-time=2014-11-29T12:00:09"
    );
    assert_eq!(
        TimeHistory::ValidTime(None, Some(end)).serialize(),
        "&end-valid-time=2014-11-29T12:00:09"
    );
    assert_eq!(
        TimeHistory::ValidTime(Some(start), None).serialize(),
        "&start-valid-time=2014-11-28T12:00:09"
    );
    assert_eq!(TimeHistory::ValidTime(None, None).serialize(), "");
    assert_eq!(
        TimeHistory::TransactionTime(Some(start), Some(end)).serialize(),
        "&start-transaction-time=2014-11-28T12:00:09&end-transaction-time=2014-11-29T12:00:09"
    );
    assert_eq!(
        TimeHistory::TransactionTime(None, Some(end)).serialize(),
        "&end-transaction-time=2014-11-29T12:00:09"
    );
    assert_eq!(
        TimeHistory::TransactionTime(Some(start), None).serialize(),
        "&start-transaction-time=2014-11-28T12:00:09"
    );
    assert_eq!(TimeHistory::TransactionTime(None, None).serialize(), "");
}

#[test]
fn time_history_lists_render_at_most_two_entries() {
    let t = Timestamp::new(2014, 11, 28, 12, 0, 9, 0, 0).unwrap();
    let one = TimeHistory::ValidTime(Some(t), None);
    let two = TimeHistory::TransactionTime(None, Some(t));

    assert_eq!(serialize_time_histories(&vec![]), "");
    assert_eq!(
        serialize_time_histories(&vec![one, two, one]),
        ""
    );
    assert_eq!(
        serialize_time_histories(&vec![one, two]),
        "&start-valid-time=2014-11-28T12:00:09&end-transaction-time=2014-11-28T12:00:09"
    );
}
