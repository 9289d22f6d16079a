use jlv::model::{Member, Record};
use jlv::ui::table::{
    build_config, cell, str_len, ColumnConfig, RowAble, RowViewType, TableViewConfig,
};

fn member(key: &str, text: &str) -> Member {
    Member { key: key.to_string(), text: text.to_string() }
}

fn columns(config: &TableViewConfig) -> Vec<(String, usize, usize)> {
    config
        .ordered_columns()
        .into_iter()
        .map(|(key, column)| (key.clone(), column.index, column.min_width))
        .collect()
}

fn records(texts: &[&str]) -> Vec<Record> {
    texts.iter().enumerate().map(|(i, t)| Record::from_str(i, t)).collect()
}

#[test]
fn new_config_has_no_columns() {
    let config = TableViewConfig::new();
    assert_eq!(config.len(), 0);
    assert!(config.ordered_columns().is_empty());
    assert!(config.widths().is_empty());
    assert!(config.header().is_empty());
}

#[test]
fn observe_opens_a_column_for_a_new_key() {
    let mut config = TableViewConfig::new();
    config.observe(&member("name", "\"al\""));
    assert_eq!(columns(&config), vec![("name".to_string(), 0, 4)]);
}

#[test]
fn width_is_the_longer_of_text_and_key() {
    let mut config = TableViewConfig::new();
    config.observe(&member("id", "12345"));
    config.observe(&member("description", "1"));
    assert_eq!(config.widths(), vec![5, 11]);
}

#[test]
fn width_counts_bytes() {
    let mut config = TableViewConfig::new();
    config.observe(&member("é", "1"));
    config.observe(&member("k", "\"日本\""));
    assert_eq!(config.widths(), vec![2, 8]);
    assert_eq!(str_len("é"), 2);
    assert_eq!(str_len(""), 0);
    assert_eq!(str_len("abc"), 3);
}

#[test]
fn observe_widens_but_never_narrows() {
    let mut config = TableViewConfig::new();
    config.observe(&member("a", "123"));
    assert_eq!(config.widths(), vec![3]);
    config.observe(&member("a", "1"));
    assert_eq!(config.widths(), vec![3]);
    config.observe(&member("a", "12345"));
    assert_eq!(config.widths(), vec![5]);
    config.observe(&member("a", "1234"));
    assert_eq!(config.widths(), vec![5]);
    assert_eq!(config.len(), 1);
}

#[test]
fn indices_follow_first_sight() {
    let mut config = TableViewConfig::new();
    config.scan(&vec![member("z", "1"), member("a", "2")]);
    config.scan(&vec![member("a", "3"), member("m", "4"), member("z", "5")]);
    assert_eq!(
        columns(&config),
        vec![("z".to_string(), 0, 1), ("a".to_string(), 1, 1), ("m".to_string(), 2, 1)]
    );
    assert_eq!(config.header(), vec!["z", "a", "m"]);
}

#[test]
fn find_gives_the_column_of_a_key() {
    let mut config = TableViewConfig::new();
    config.scan(&vec![member("x", "1"), member("y", "2")]);
    assert_eq!(config.find(&"x".to_string()), Some(0));
    assert_eq!(config.find(&"y".to_string()), Some(1));
    assert_eq!(config.find(&"z".to_string()), None);
    assert_eq!(config.find(&"".to_string()), None);
}

#[test]
fn ordered_columns_hold_key_and_configuration() {
    let mut config = TableViewConfig::new();
    config.scan(&vec![member("first", "1"), member("second", "\"a long text\"")]);
    let cols = config.ordered_columns();
    assert_eq!(cols.len(), 2);
    assert_eq!(cols[0].0, "first");
    assert_eq!(*cols[0].1, ColumnConfig { min_width: 5, index: 0 });
    assert_eq!(cols[1].0, "second");
    assert_eq!(*cols[1].1, ColumnConfig { min_width: 13, index: 1 });
}

#[test]
fn widths_never_decrease_as_records_are_scanned() {
    let rows = vec![
        vec![member("a", "1"), member("b", "22")],
        vec![member("b", "1"), member("c", "333")],
        vec![member("a", "55555")],
        vec![],
        vec![member("c", "1"), member("a", "2")],
    ];
    let mut config = TableViewConfig::new();
    let mut before = columns(&config);
    for row in &rows {
        config.scan(row);
        let after = columns(&config);
        assert!(after.len() >= before.len());
        for (old, new) in before.iter().zip(after.iter()) {
            assert_eq!(old.0, new.0);
            assert_eq!(old.1, new.1);
            assert!(new.2 >= old.2);
        }
        for column in &after {
            assert!(column.2 >= column.0.len());
        }
        before = after;
    }
    assert_eq!(
        before,
        vec![("a".to_string(), 0, 5), ("b".to_string(), 1, 2), ("c".to_string(), 2, 3)]
    );
}

#[test]
fn cell_is_the_text_under_the_key() {
    let members = vec![member("a", "1"), member("b", "\"x\"")];
    assert_eq!(cell(&members, &"a".to_string()), "1");
    assert_eq!(cell(&members, &"b".to_string()), "\"x\"");
    assert_eq!(cell(&members, &"c".to_string()), "");
    assert_eq!(cell(&Vec::new(), &"a".to_string()), "");
}

#[test]
fn cell_takes_the_first_member_under_a_key() {
    let members = vec![member("a", "1"), member("a", "2")];
    assert_eq!(cell(&members, &"a".to_string()), "1");
}

#[test]
fn row_follows_the_columns_not_the_members() {
    let mut config = TableViewConfig::new();
    config.scan(&vec![member("a", "1"), member("b", "2"), member("c", "3")]);
    let forward = config.row(&vec![member("a", "x"), member("b", "y"), member("c", "z")]);
    let backward = config.row(&vec![member("c", "z"), member("b", "y"), member("a", "x")]);
    assert_eq!(forward, vec!["x", "y", "z"]);
    assert_eq!(backward, forward);
}

#[test]
fn row_has_empty_cells_for_missing_keys() {
    let mut config = TableViewConfig::new();
    config.scan(&vec![member("a", "1"), member("b", "2"), member("c", "3")]);
    assert_eq!(config.row(&vec![member("b", "y")]), vec!["", "y", ""]);
    assert_eq!(config.row(&Vec::new()), vec!["", "", ""]);
    assert_eq!(config.row(&vec![member("other", "1")]), vec!["", "", ""]);
}

#[test]
fn row_of_an_empty_schema_is_empty() {
    let config = TableViewConfig::new();
    assert!(config.row(&vec![member("a", "1")]).is_empty());
}

#[test]
fn build_config_scans_all_records_in_order() {
    let config = build_config(&records(&[
        "{\"b\":1,\"a\":\"hello\"}",
        "not json",
        "[1,2]",
        "{\"c\":null,\"a\":1}",
    ]));
    assert_eq!(
        columns(&config),
        vec![("a".to_string(), 0, 7), ("b".to_string(), 1, 1), ("c".to_string(), 2, 4)]
    );
}

#[test]
fn build_config_of_no_objects_has_no_columns() {
    let config = build_config(&records(&["1", "\"s\"", "[]", "bad", "null", "{}"]));
    assert_eq!(config.len(), 0);
}

#[test]
fn build_config_is_the_same_every_time() {
    let input = records(&["{\"a\":1,\"b\":2}", "{\"b\":3,\"c\":4}"]);
    let first = build_config(&input);
    let second = build_config(&input);
    assert_eq!(columns(&first), columns(&second));
    assert_eq!(first.widths(), second.widths());
}

#[test]
fn to_row_lays_a_record_under_the_schema() {
    let input = records(&["{\"a\":1,\"b\":2}", "{\"b\":3,\"c\":4}", "oops"]);
    let config = build_config(&input);
    assert_eq!(input[0].to_row(RowViewType::ObjSimple, &config), vec!["1", "2", ""]);
    assert_eq!(input[1].to_row(RowViewType::ObjSimple, &config), vec!["", "3", "4"]);
    assert_eq!(input[2].to_row(RowViewType::ObjSimple, &config), vec!["", "", ""]);
}
