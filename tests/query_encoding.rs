use kimai::query::{build_query, encode_ids, push_decimal, QueryValue};

fn pairs(q: &Option<Vec<(String, String)>>) -> Vec<(&str, &str)> {
    q.as_ref()
        .unwrap()
        .iter()
        .map(|(k, v)| (k.as_str(), v.as_str()))
        .collect()
}

#[test]
fn id_list_joins_in_order() {
    assert_eq!(encode_ids(&vec![3, 7, 12]), "3,7,12");
}

#[test]
fn id_list_of_one_has_no_separator() {
    assert_eq!(encode_ids(&vec![42]), "42");
}

#[test]
fn empty_id_list_is_empty_text() {
    assert_eq!(encode_ids(&vec![]), "");
}

#[test]
fn id_list_round_trips_through_split_and_parse() {
    let cases: Vec<Vec<usize>> = vec![
        vec![0],
        vec![3, 7, 12],
        vec![12, 3, 7, 0, 100],
        vec![usize::MAX, 1, usize::MAX],
        vec![10, 10, 10],
    ];
    for ids in cases {
        let text = encode_ids(&ids);
        let back: Vec<usize> = text.split(',').map(|p| p.parse().unwrap()).collect();
        assert_eq!(back, ids);
    }
}

#[test]
fn decimal_text_of_edge_values() {
    let mut s = String::new();
    push_decimal(&mut s, 0);
    assert_eq!(s, "0");
    let mut s = String::from("n=");
    push_decimal(&mut s, u64::MAX);
    assert_eq!(s, "n=18446744073709551615");
    let mut s = String::new();
    push_decimal(&mut s, 1000);
    assert_eq!(s, "1000");
}

#[test]
fn each_value_shape_encodes() {
    assert_eq!(QueryValue::Id(17).process(), "17");
    assert_eq!(QueryValue::Text("dev ops".to_string()).process(), "dev ops");
    assert_eq!(QueryValue::Ids(vec![1, 2]).process(), "1,2");
}

#[test]
fn all_absent_gives_no_parameters() {
    let q = build_query(vec![
        ("user".to_string(), None),
        ("customers".to_string(), None),
        ("term".to_string(), None),
    ]);
    assert!(q.is_none());
    assert!(build_query(vec![]).is_none());
}

#[test]
fn empty_id_list_is_left_out() {
    let q = build_query(vec![("projects".to_string(), Some(QueryValue::Ids(vec![])))]);
    assert!(q.is_none());
    let q = build_query(vec![
        ("projects".to_string(), Some(QueryValue::Ids(vec![]))),
        ("term".to_string(), Some(QueryValue::Text("x".to_string()))),
    ]);
    assert_eq!(pairs(&q), vec![("term", "x")]);
}

#[test]
fn given_parameters_keep_their_order() {
    let q = build_query(vec![
        ("user".to_string(), Some(QueryValue::Id(5))),
        ("customers".to_string(), None),
        ("projects".to_string(), Some(QueryValue::Ids(vec![3, 7, 12]))),
        ("term".to_string(), Some(QueryValue::Text(String::new()))),
    ]);
    assert_eq!(pairs(&q), vec![("user", "5"), ("projects", "3,7,12"), ("term", "")]);
}
