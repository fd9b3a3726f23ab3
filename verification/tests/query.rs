use transistor::types::error::CruxError;
use transistor::types::query::{Aggregate, Query};

#[test]
fn query_with_find_and_where() {
    let expected =
        "{:query\n {:find [?p1]\n:where [[?p1 :first-name n]\n[?p1 :last-name \"Jorge\"]]\n}}";
    let q = Query::find(vec!["?p1"])
        .unwrap()
        .where_clause(vec!["?p1 :first-name n", "?p1 :last-name \"Jorge\""])
        .unwrap()
        .build();

    assert_eq!(q.unwrap().serialize(), expected);
}

#[test]
fn query_with_order() {
    let expected =
        "{:query\n {:find [?p1]\n:where [[?p1 :first-name n]\n[?p1 :last-name \"Jorge\"]]\n:order-by [[?p1 :asc]]\n}}";
    let q = Query::find(vec!["?p1"])
        .unwrap()
        .where_clause(vec!["?p1 :first-name n", "?p1 :last-name \"Jorge\""])
        .unwrap()
        .order_by(vec!["?p1 :asc"])
        .unwrap()
        .build();

    assert_eq!(q.unwrap().serialize(), expected);
}

#[test]
fn query_with_args() {
    let expected =
        "{:query\n {:find [?p1]\n:where [[?p1 :first-name n]\n[?p1 :last-name ?n]]\n:args [{?n \"Jorge\"}]\n}}";
    let q = Query::find(vec!["?p1"])
        .unwrap()
        .where_clause(vec!["?p1 :first-name n", "?p1 :last-name ?n"])
        .unwrap()
        .args(vec!["?n \"Jorge\""])
        .unwrap()
        .build();

    assert_eq!(q.unwrap().serialize(), expected);
}

#[test]
fn query_with_limit_and_offset() {
    let expected =
        "{:query\n {:find [?p1]\n:where [[?p1 :first-name n]\n[?p1 :last-name n]]\n:limit 5\n:offset 10\n}}";
    let q = Query::find(vec!["?p1"])
        .unwrap()
        .where_clause(vec!["?p1 :first-name n", "?p1 :last-name n"])
        .unwrap()
        .limit(5)
        .offset(10)
        .build();

    assert_eq!(q.unwrap().serialize(), expected);
}

#[test]
fn full_query() {
    let expected =
        "{:query\n {:find [?p1]\n:where [[?p1 :first-name n]\n[?p1 :last-name ?n]]\n:args [{?n \"Jorge\"}]\n:order-by [[?p1 :Asc]]\n:limit 5\n:offset 10\n}}";
    let q = Query::find(vec!["?p1"])
        .unwrap()
        .where_clause(vec!["?p1 :first-name n", "?p1 :last-name ?n"])
        .unwrap()
        .args(vec!["?n \"Jorge\""])
        .unwrap()
        .order_by(vec!["?p1 :Asc"])
        .unwrap()
        .limit(5)
        .offset(10)
        .build();

    assert_eq!(q.unwrap().serialize(), expected);
}

#[test]
fn query_with_full_results() {
    let expected =
        "{:query\n {:find [?p1]\n:where [[?p1 :first-name n]\n[?p1 :last-name \"Jorge\"]]\n :full-results? true\n}}";
    let q = Query::find(vec!["?p1"])
        .unwrap()
        .where_clause(vec!["?p1 :first-name n", "?p1 :last-name \"Jorge\""])
        .unwrap()
        .with_full_results()
        .build();

    assert_eq!(q.unwrap().serialize(), expected);
}

#[test]
fn query_with_aggregates() {
    let expected = "{:query\n {:find [(min ?e) (max ?e) (count ?e) (min 5 ?e) (count-distinct ?e)]\n:where [[?e :type :burger]]\n}}";
    let q = Query::find_by_aggregates(vec![
        Aggregate::Min("?e".to_string()),
        Aggregate::Max("?e".to_string()),
        Aggregate::Count("?e".to_string()),
        Aggregate::MinN(5, "?e".to_string()),
        Aggregate::CountDistinct("?e".to_string()),
    ])
    .unwrap()
    .where_clause(vec!["?e :type :burger"])
    .unwrap()
    .build()
    .unwrap();

    assert_eq!(q.serialize(), expected);
}

#[test]
fn find_rejects_unsigiled_token() {
    let e = Query::find(vec!["?p1", "n", "?s"]).unwrap_err();
    match e {
        CruxError::QueryFormatError(m) => assert_eq!(
            m,
            "All elements of find clause should start with '?', element 'n' doesn't conform"
        ),
        other => panic!("unexpected error {:?}", other),
    }
}

#[test]
fn find_by_aggregates_rejects_unsigiled_variable() {
    let e = Query::find_by_aggregates(vec![
        Aggregate::Sum("?a".to_string()),
        Aggregate::Min("heads".to_string()),
    ])
    .unwrap_err();
    match e {
        CruxError::QueryFormatError(m) => assert_eq!(
            m,
            "All elements of find clause should start with '?', element '(min heads)' doesn't conform"
        ),
        other => panic!("unexpected error {:?}", other),
    }
}

#[test]
fn where_names_first_missing_find_token() {
    let e = Query::find(vec!["?p1", "?n", "?s"])
        .unwrap()
        .where_clause(vec!["?p1 :name ?g", "?p1 :is-sql ?s", "?p1 :is-sql true"])
        .unwrap_err();
    match e {
        CruxError::QueryFormatError(m) => assert_eq!(
            m,
            "Not all element of find, ?p1, ?n, ?s, are present in the where clause, ?n is missing"
        ),
        other => panic!("unexpected error {:?}", other),
    }
}

#[test]
fn where_rejects_unbound_aggregate_variable() {
    let e = Query::find_by_aggregates(vec![Aggregate::Avg("?x".to_string())])
        .unwrap()
        .where_clause(vec!["?e :type :burger"])
        .unwrap_err();
    match e {
        CruxError::QueryFormatError(m) => assert_eq!(
            m,
            "Not all element of find, (avg ?x), are present in the where clause"
        ),
        other => panic!("unexpected error {:?}", other),
    }
}

#[test]
fn order_rejects_unknown_direction() {
    let e = Query::find(vec!["?p1", "?n", "?s"])
        .unwrap()
        .where_clause(vec!["?p1 :name ?n", "?p1 :is-sql ?s", "?p1 :is-sql true"])
        .unwrap()
        .order_by(vec!["?p1 :asc", "?n :desc", "?s :eq"])
        .unwrap_err();
    match e {
        CruxError::QueryFormatError(m) => {
            assert_eq!(m, "Order element should be ':asc' or ':desc'")
        },
        other => panic!("unexpected error {:?}", other),
    }
}

#[test]
fn order_variable_must_be_present_in_find() {
    let e = Query::find(vec!["?p1", "?n", "?s"])
        .unwrap()
        .where_clause(vec!["?p1 :name ?n", "?p1 :is-sql ?s", "?p1 :is-sql true"])
        .unwrap()
        .order_by(vec!["?p1 :asc", "?n :desc", "?g :asc"])
        .unwrap_err();
    match e {
        CruxError::QueryFormatError(m) => assert_eq!(
            m,
            "All elements to be ordered should be present in find clause, ?g not present"
        ),
        other => panic!("unexpected error {:?}", other),
    }
}

#[test]
fn args_keys_must_be_present_in_where() {
    let e = Query::find(vec!["?p1", "?n"])
        .unwrap()
        .where_clause(vec!["?p1 :name ?n", "?p1 :is-sql ?s", "?p1 :is-sql true"])
        .unwrap()
        .args(vec!["?s true ?x 1243"])
        .unwrap_err();
    match e {
        CruxError::QueryFormatError(m) => {
            assert_eq!(m, "All elements should be present in where clause")
        },
        other => panic!("unexpected error {:?}", other),
    }
}

#[test]
fn args_keys_must_start_with_question() {
    let e = Query::find(vec!["?p1", "?n"])
        .unwrap()
        .where_clause(vec!["?p1 :name ?n", "?p1 :is-sql s", "?p1 :is-sql true"])
        .unwrap()
        .args(vec!["s    true"])
        .unwrap_err();
    match e {
        CruxError::QueryFormatError(m) => {
            assert_eq!(m, "All elements should start with '?'")
        },
        other => panic!("unexpected error {:?}", other),
    }
}

#[test]
fn args_reports_both_violations_together() {
    let e = Query::find(vec!["?p1"])
        .unwrap()
        .where_clause(vec!["?p1 :name ?n"])
        .unwrap()
        .args(vec!["x true ?z 1"])
        .unwrap_err();
    match e {
        CruxError::QueryFormatError(m) => assert_eq!(
            m,
            "All elements should be present in where clause and all elements should start with '?'"
        ),
        other => panic!("unexpected error {:?}", other),
    }
}

#[test]
fn build_requires_where_clause() {
    let e = Query::find(vec!["?p1", "?n"]).unwrap().build().unwrap_err();
    match e {
        CruxError::QueryFormatError(m) => assert_eq!(m, "Where clause is required"),
        other => panic!("unexpected error {:?}", other),
    }
}

#[test]
fn build_requires_where_clause_whatever_else_is_set() {
    let e = Query::find(vec!["?p1"])
        .unwrap()
        .limit(3)
        .offset(7)
        .with_full_results()
        .build()
        .unwrap_err();
    match e {
        CruxError::QueryFormatError(m) => assert_eq!(m, "Where clause is required"),
        other => panic!("unexpected error {:?}", other),
    }
}

#[test]
fn round_trip_of_a_two_variable_query() {
    let q = Query::find(vec!["?p1", "?n"])
        .unwrap()
        .where_clause(vec!["?p1 :name ?n"])
        .unwrap()
        .build()
        .unwrap();

    assert_eq!(q.serialize(), "{:query\n {:find [?p1 ?n]\n:where [[?p1 :name ?n]]\n}}");
}

#[test]
fn order_by_section_sits_before_the_closing_braces() {
    let q = Query::find(vec!["?p1", "?n"])
        .unwrap()
        .where_clause(vec!["?p1 :name ?n"])
        .unwrap()
        .order_by(vec!["?p1 :asc"])
        .unwrap()
        .build()
        .unwrap();

    assert_eq!(
        q.serialize(),
        "{:query\n {:find [?p1 ?n]\n:where [[?p1 :name ?n]]\n:order-by [[?p1 :asc]]\n}}"
    );

    let e = Query::find(vec!["?n"])
        .unwrap()
        .where_clause(vec!["?p1 :name ?n"])
        .unwrap()
        .order_by(vec!["?p1 :asc"])
        .unwrap_err();
    match e {
        CruxError::QueryFormatError(m) => assert_eq!(
            m,
            "All elements to be ordered should be present in find clause, ?p1 not present"
        ),
        other => panic!("unexpected error {:?}", other),
    }
}

#[test]
fn find_token_binding_uses_textual_substrings() {
    // The binding-completeness check is textual: a find token counts as
    // bound as soon as it occurs anywhere in the joined where text,
    // here inside the longer token `?name`.
    let q = Query::find(vec!["?n"])
        .unwrap()
        .where_clause(vec!["?p1 :name ?name"])
        .unwrap()
        .build()
        .unwrap();

    assert_eq!(
        q.serialize(),
        "{:query\n {:find [?n]\n:where [[?p1 :name ?name]]\n}}"
    );
}

#[test]
fn order_directions_ignore_ascii_case() {
    let q = Query::find(vec!["?p1"])
        .unwrap()
        .where_clause(vec!["?p1 :name n"])
        .unwrap()
        .order_by(vec!["?p1 :DESC"])
        .unwrap()
        .build()
        .unwrap();

    assert_eq!(
        q.serialize(),
        "{:query\n {:find [?p1]\n:where [[?p1 :name n]]\n:order-by [[?p1 :DESC]]\n}}"
    );
}

#[test]
fn serialize_writes_large_bounds_in_decimal() {
    let q = Query::find(vec!["?p1"])
        .unwrap()
        .where_clause(vec!["?p1 :name n"])
        .unwrap()
        .limit(12345)
        .offset(0)
        .build()
        .unwrap();

    assert_eq!(
        q.serialize(),
        "{:query\n {:find [?p1]\n:where [[?p1 :name n]]\n:limit 12345\n:offset 0\n}}"
    );
}

#[test]
fn aggregate_forms_render_exactly() {
    assert_eq!(Aggregate::Sum("?h".to_string()).serialize(), "(sum ?h)");
    assert_eq!(Aggregate::Min("?h".to_string()).serialize(), "(min ?h)");
    assert_eq!(Aggregate::Max("?h".to_string()).serialize(), "(max ?h)");
    assert_eq!(Aggregate::MinN(5, "?h".to_string()).serialize(), "(min 5 ?h)");
    assert_eq!(Aggregate::MaxN(17, "?h".to_string()).serialize(), "(max 17 ?h)");
    assert_eq!(Aggregate::Count("?h".to_string()).serialize(), "(count ?h)");
    assert_eq!(
        Aggregate::CountDistinct("?h".to_string()).serialize(),
        "(count-distinct ?h)"
    );
    assert_eq!(Aggregate::Avg("?h".to_string()).serialize(), "(avg ?h)");
    assert_eq!(Aggregate::Median("?h".to_string()).serialize(), "(median ?h)");
    assert_eq!(Aggregate::Variance("?h".to_string()).serialize(), "(variance ?h)");
    assert_eq!(Aggregate::Stddev("?h".to_string()).serialize(), "(stddev ?h)");
    assert_eq!(Aggregate::Rand(3, "?h".to_string()).serialize(), "(rand 3 ?h)");
    assert_eq!(Aggregate::Sample(4, "?h".to_string()).serialize(), "(sample 4 ?h)");
    assert_eq!(Aggregate::Distinct("?h".to_string()).serialize(), "(distinct ?h)");
    assert_eq!(Aggregate::MinN(5, "?h".to_string()).string_value(), "?h");
}
