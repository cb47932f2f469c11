use readyset_clustertest::routing::{
    field_value, last_statement_destination, parse_destination, DecodeError, Field, RoutingResult,
    SimpleQueryResults, SimpleRow, DESTINATION_COLUMN,
};

fn field(name: &str, value: Option<&str>) -> Field {
    Field { name: name.to_string(), value: value.map(|v| v.to_string()) }
}

fn explain_rows(destination: Option<&str>) -> Vec<SimpleRow> {
    vec![SimpleRow {
        fields: vec![
            field("Query_id", Some("q_1")),
            field(DESTINATION_COLUMN, destination),
            field("ReadySet_error", Some("ok")),
        ],
    }]
}

#[test]
fn cache_hit_decodes_as_served_by_cache() {
    let res = SimpleQueryResults::Postgres(explain_rows(Some("readyset")));
    assert_eq!(last_statement_destination(&res), Ok(RoutingResult::ServedByCache));
}

#[test]
fn upstream_query_decodes_as_served_by_upstream() {
    let res = SimpleQueryResults::Postgres(explain_rows(Some("upstream")));
    assert_eq!(last_statement_destination(&res), Ok(RoutingResult::ServedByUpstream));
}

#[test]
fn mysql_result_is_refused() {
    let res = SimpleQueryResults::MySql(explain_rows(Some("readyset")));
    assert_eq!(last_statement_destination(&res), Err(DecodeError::WrongDialect));
}

#[test]
fn empty_result_is_refused() {
    let res = SimpleQueryResults::Postgres(vec![]);
    assert_eq!(last_statement_destination(&res), Err(DecodeError::NoRows));
}

#[test]
fn missing_or_null_destination_is_refused() {
    let res = SimpleQueryResults::Postgres(vec![SimpleRow { fields: vec![field("Query_id", Some("q_1"))] }]);
    assert_eq!(last_statement_destination(&res), Err(DecodeError::MissingDestination));
    let res = SimpleQueryResults::Postgres(explain_rows(None));
    assert_eq!(last_statement_destination(&res), Err(DecodeError::MissingDestination));
}

#[test]
fn unrecognized_destination_is_refused() {
    for text in ["both", "readyset_then_upstream", "", "Readyset", "readyset "] {
        let res = SimpleQueryResults::Postgres(explain_rows(Some(text)));
        assert_eq!(last_statement_destination(&res), Err(DecodeError::UnknownDestination));
    }
}

#[test]
fn only_the_first_row_is_read() {
    let mut rows = explain_rows(Some("upstream"));
    rows.extend(explain_rows(Some("readyset")));
    let res = SimpleQueryResults::Postgres(rows);
    assert_eq!(last_statement_destination(&res), Ok(RoutingResult::ServedByUpstream));
}

#[test]
fn parse_destination_names_two_destinations() {
    assert_eq!(parse_destination(&"readyset".to_string()), Some(RoutingResult::ServedByCache));
    assert_eq!(parse_destination(&"upstream".to_string()), Some(RoutingResult::ServedByUpstream));
    assert_eq!(parse_destination(&"cache".to_string()), None);
}

#[test]
fn column_takes_the_first_of_equal_names() {
    let row = SimpleRow { fields: vec![field("a", Some("1")), field("b", None), field("a", Some("2"))] };
    assert_eq!(field_value(&row, "a"), Some(&Some("1".to_string())));
    assert_eq!(field_value(&row, "b"), Some(&None));
    assert_eq!(field_value(&row, "c"), None);
}
