use inventory::db::{decode_raw, decode_single, known_row, single, FromRow, Obj};
use inventory::error::{DbError, DecodeError};
use inventory::item::{Item, Timestamp};
use inventory::tag::Tag;
use inventory::tags::TagMap;
use inventory::value::{
    integer_column, optional_integer_column, optional_text_column, text_column, SqlValue,
};

fn text(s: &str) -> SqlValue {
    SqlValue::Text(s.to_string())
}

fn tag(item_id: &str, key: &str, value: &str) -> Tag {
    Tag { item_id: item_id.to_string(), key: key.to_string(), value: value.to_string() }
}

fn item_row() -> Vec<SqlValue> {
    vec![
        text("id-1"),
        text("a hammer"),
        SqlValue::Integer(0),
        SqlValue::Integer(1_700_000_000_000_000),
        SqlValue::Null,
        text("toolbox"),
    ]
}

#[test]
fn new_item_is_blank_but_for_what_was_given() {
    let item = Item::new("a hammer".to_string(), false, Some("toolbox".to_string()));
    assert_eq!(item.id.chars().count(), 36);
    assert_eq!(item.description, "a hammer");
    assert!(!item.is_container);
    assert_eq!(item.checked_out, None);
    assert_eq!(item.destroyed, None);
    assert_eq!(item.parent_container, Some("toolbox".to_string()));
    assert!(item.tags.pairs().is_empty());
}

#[test]
fn new_items_get_different_identifiers() {
    let a = Item::new("a".to_string(), false, None);
    let b = Item::new("a".to_string(), false, None);
    assert_ne!(a.id, b.id);
    assert_eq!(a.id.matches('-').count(), 4);
}

#[test]
fn set_tag_overwrites_on_duplicate_key() {
    let mut item = Item::new("x".to_string(), false, None);
    item.set_tag("colour".to_string(), "red".to_string());
    item.set_tag("size".to_string(), "small".to_string());
    item.set_tag("colour".to_string(), "blue".to_string());
    assert_eq!(item.tags.get("colour"), Some("blue".to_string()));
    assert_eq!(item.tags.get("size"), Some("small".to_string()));
    assert_eq!(item.tags.get("weight"), None);
    assert_eq!(
        item.tags.pairs(),
        vec![
            ("colour".to_string(), "blue".to_string()),
            ("size".to_string(), "small".to_string())
        ]
    );
}

#[test]
fn tag_map_starts_empty_and_clones_its_pairs() {
    let mut tags = TagMap::new();
    assert!(tags.pairs().is_empty());
    assert_eq!(tags.get(""), None);
    tags.set("".to_string(), "empty key".to_string());
    let copy = tags.clone();
    tags.set("".to_string(), "changed".to_string());
    assert_eq!(copy.get(""), Some("empty key".to_string()));
    assert_eq!(tags.get(""), Some("changed".to_string()));
}

#[test]
fn from_tag_rows_folds_later_rows_over_earlier_ones() {
    let rows = vec![tag("i", "a", "1"), tag("i", "b", "2"), tag("other", "a", "3")];
    let item = Item::from_tag_rows("i".to_string(), rows);
    assert_eq!(item.id, "i");
    assert_eq!(item.description, "");
    assert!(!item.is_container);
    assert_eq!(item.checked_out, None);
    assert_eq!(item.destroyed, None);
    assert_eq!(item.parent_container, None);
    assert_eq!(item.tags.get("a"), Some("3".to_string()));
    assert_eq!(item.tags.get("b"), Some("2".to_string()));
    assert_eq!(item.tags.pairs().len(), 2);
}

#[test]
fn from_tag_rows_of_no_rows_has_no_tags() {
    let item = Item::from_tag_rows("i".to_string(), vec![]);
    assert!(item.tags.pairs().is_empty());
}

#[test]
fn tag_rows_are_one_per_key_under_the_items_identifier() {
    let mut item = Item::new("x".to_string(), false, None);
    item.set_tag("a".to_string(), "1".to_string());
    item.set_tag("b".to_string(), "2".to_string());
    item.set_tag("a".to_string(), "3".to_string());
    let rows = item.tag_rows();
    assert_eq!(rows.len(), 2);
    assert!(rows.iter().all(|r| r.item_id == item.id));
    assert_eq!((rows[0].key.as_str(), rows[0].value.as_str()), ("a", "3"));
    assert_eq!((rows[1].key.as_str(), rows[1].value.as_str()), ("b", "2"));
    let back = Item::from_tag_rows(item.id.clone(), rows);
    assert_eq!(back.tags.pairs(), item.tags.pairs());
}

#[test]
fn item_decodes_from_its_row() {
    let item = Item::from_row(&item_row()).unwrap();
    assert_eq!(item.id, "id-1");
    assert_eq!(item.description, "a hammer");
    assert!(!item.is_container);
    assert_eq!(item.checked_out, Some(Timestamp { micros: 1_700_000_000_000_000 }));
    assert_eq!(item.destroyed, None);
    assert_eq!(item.parent_container, Some("toolbox".to_string()));
    assert!(item.tags.pairs().is_empty());
}

#[test]
fn item_container_flag_is_any_integer_but_zero() {
    let mut row = item_row();
    row[2] = SqlValue::Integer(1);
    assert!(Item::from_row(&row).unwrap().is_container);
    row[2] = SqlValue::Integer(-5);
    assert!(Item::from_row(&row).unwrap().is_container);
    row[2] = SqlValue::Integer(0);
    assert!(!Item::from_row(&row).unwrap().is_container);
}

#[test]
fn item_row_with_wrong_column_count_is_rejected() {
    let mut row = item_row();
    row.pop();
    assert_eq!(
        Item::from_row(&row).unwrap_err(),
        DecodeError::ColumnCount { expected: 6, found: 5 }
    );
    let empty: Vec<SqlValue> = vec![];
    assert_eq!(
        Item::from_row(&empty).unwrap_err(),
        DecodeError::ColumnCount { expected: 6, found: 0 }
    );
    let mut long = item_row();
    long.push(SqlValue::Null);
    assert_eq!(
        Item::from_row(&long).unwrap_err(),
        DecodeError::ColumnCount { expected: 6, found: 7 }
    );
}

#[test]
fn item_row_with_wrong_column_type_names_the_first_bad_column() {
    for index in 0..6 {
        let mut row = item_row();
        row[index] = SqlValue::Blob(vec![1, 2, 3]);
        assert_eq!(Item::from_row(&row).unwrap_err(), DecodeError::ColumnType { index });
    }
    let mut row = item_row();
    row[0] = SqlValue::Null;
    row[3] = text("yesterday");
    assert_eq!(Item::from_row(&row).unwrap_err(), DecodeError::ColumnType { index: 0 });
    let mut row = item_row();
    row[1] = SqlValue::Null;
    assert_eq!(Item::from_row(&row).unwrap_err(), DecodeError::ColumnType { index: 1 });
    let mut row = item_row();
    row[2] = SqlValue::Null;
    assert_eq!(Item::from_row(&row).unwrap_err(), DecodeError::ColumnType { index: 2 });
    let mut row = item_row();
    row[5] = SqlValue::Integer(3);
    assert_eq!(Item::from_row(&row).unwrap_err(), DecodeError::ColumnType { index: 5 });
}

#[test]
fn item_columns_decode_back_to_the_item() {
    let mut item = Item::new("a crate".to_string(), true, None);
    item.checked_out = Some(Timestamp { micros: -1 });
    item.destroyed = Some(Timestamp { micros: i64::MAX });
    item.set_tag("k".to_string(), "v".to_string());
    let mut columns = Obj::key_columns(&item);
    columns.extend(Obj::data_columns(&item));
    let names: Vec<&str> = columns.iter().map(|c| c.name).collect();
    assert_eq!(
        names,
        vec!["id", "description", "is_container", "checked_out", "destroyed", "parent_container"]
    );
    let row: Vec<SqlValue> = columns.into_iter().map(|c| c.value).collect();
    let back = Item::from_row(&row).unwrap();
    assert_eq!(back.id, item.id);
    assert_eq!(back.description, "a crate");
    assert!(back.is_container);
    assert_eq!(back.checked_out, Some(Timestamp { micros: -1 }));
    assert_eq!(back.destroyed, Some(Timestamp { micros: i64::MAX }));
    assert_eq!(back.parent_container, None);
    assert!(back.tags.pairs().is_empty());
}

#[test]
fn tag_decodes_from_its_row() {
    let t = Tag::from_row(&vec![text("i"), text("k"), text("v")]).unwrap();
    assert_eq!((t.item_id.as_str(), t.key.as_str(), t.value.as_str()), ("i", "k", "v"));
}

#[test]
fn tag_row_errors() {
    assert_eq!(
        Tag::from_row(&vec![text("i"), text("k")]).unwrap_err(),
        DecodeError::ColumnCount { expected: 3, found: 2 }
    );
    assert_eq!(
        Tag::from_row(&vec![SqlValue::Integer(1), SqlValue::Null, text("v")]).unwrap_err(),
        DecodeError::ColumnType { index: 0 }
    );
    assert_eq!(
        Tag::from_row(&vec![text("i"), SqlValue::Null, SqlValue::Null]).unwrap_err(),
        DecodeError::ColumnType { index: 1 }
    );
    assert_eq!(
        Tag::from_row(&vec![text("i"), text("k"), SqlValue::Integer(9)]).unwrap_err(),
        DecodeError::ColumnType { index: 2 }
    );
}

#[test]
fn tag_columns_decode_back_to_the_tag() {
    let t = tag("i", "k", "v");
    let mut columns = Obj::key_columns(&t);
    columns.extend(Obj::data_columns(&t));
    let row: Vec<SqlValue> = columns.into_iter().map(|c| c.value).collect();
    let back = Tag::from_row(&row).unwrap();
    assert_eq!((back.item_id.as_str(), back.key.as_str(), back.value.as_str()), ("i", "k", "v"));
}

#[test]
fn column_readers() {
    let row = vec![text("t"), SqlValue::Integer(4), SqlValue::Null, SqlValue::Blob(vec![])];
    assert_eq!(text_column(&row, 0), Ok("t".to_string()));
    assert_eq!(text_column(&row, 2), Err(DecodeError::ColumnType { index: 2 }));
    assert_eq!(optional_text_column(&row, 0), Ok(Some("t".to_string())));
    assert_eq!(optional_text_column(&row, 2), Ok(None));
    assert_eq!(optional_text_column(&row, 1), Err(DecodeError::ColumnType { index: 1 }));
    assert_eq!(integer_column(&row, 1), Ok(4));
    assert_eq!(integer_column(&row, 0), Err(DecodeError::ColumnType { index: 0 }));
    assert_eq!(optional_integer_column(&row, 1), Ok(Some(4)));
    assert_eq!(optional_integer_column(&row, 2), Ok(None));
    assert_eq!(optional_integer_column(&row, 3), Err(DecodeError::ColumnType { index: 3 }));
}

#[test]
fn known_row_names_the_first_unknown_column() {
    let row = known_row(vec![Some(SqlValue::Integer(1)), Some(SqlValue::Null)]).unwrap();
    assert_eq!(row.len(), 2);
    assert!(matches!(row[0], SqlValue::Integer(1)));
    assert!(matches!(row[1], SqlValue::Null));
    assert_eq!(
        known_row(vec![Some(SqlValue::Null), None, None]).unwrap_err(),
        DecodeError::ColumnType { index: 1 }
    );
    assert!(known_row(vec![]).unwrap().is_empty());
}

#[test]
fn single_takes_at_most_one_row() {
    let none: Vec<u8> = vec![];
    assert!(matches!(single(none), Ok(None)));
    assert!(matches!(single(vec![5u8]), Ok(Some(5))));
    assert!(matches!(single(vec![5u8, 6u8]), Err(DbError::KeyNotUnique)));
    assert!(matches!(single(vec![1u8, 2, 3, 4]), Err(DbError::KeyNotUnique)));
}

#[test]
fn decode_raw_decodes_known_rows_and_names_the_first_unknown_column() {
    let t: Tag = decode_raw(vec![Some(text("i")), Some(text("k")), Some(text("v"))]).unwrap();
    assert_eq!((t.item_id.as_str(), t.key.as_str(), t.value.as_str()), ("i", "k", "v"));
    let unknown: Result<Tag, DbError> = decode_raw(vec![Some(text("i")), None, None]);
    assert!(matches!(unknown, Err(DbError::Decode(DecodeError::ColumnType { index: 1 }))));
    let unknown_wins: Result<Tag, DbError> = decode_raw(vec![Some(text("i")), None]);
    assert!(matches!(unknown_wins, Err(DbError::Decode(DecodeError::ColumnType { index: 1 }))));
    let short: Result<Tag, DbError> = decode_raw(vec![Some(text("i"))]);
    assert!(matches!(
        short,
        Err(DbError::Decode(DecodeError::ColumnCount { expected: 3, found: 1 }))
    ));
    let wrong: Result<Tag, DbError> =
        decode_raw(vec![Some(text("i")), Some(SqlValue::Integer(1)), Some(text("v"))]);
    assert!(matches!(wrong, Err(DbError::Decode(DecodeError::ColumnType { index: 1 }))));
}

#[test]
fn decode_single_is_absent_on_no_row_and_refuses_two() {
    let none: Result<Option<Tag>, DbError> = decode_single(vec![]);
    assert!(matches!(none, Ok(None)));
    let one: Result<Option<Tag>, DbError> =
        decode_single(vec![vec![Some(text("i")), Some(text("k")), Some(text("v"))]]);
    assert_eq!(one.unwrap().unwrap().value, "v");
    let bad: Result<Option<Tag>, DbError> = decode_single(vec![vec![None]]);
    assert!(matches!(bad, Err(DbError::Decode(DecodeError::ColumnType { index: 0 }))));
    let two: Result<Option<Tag>, DbError> = decode_single(vec![
        vec![Some(text("i")), Some(text("k")), Some(text("v"))],
        vec![Some(text("i")), Some(text("k")), Some(text("w"))],
    ]);
    assert!(matches!(two, Err(DbError::KeyNotUnique)));
    let two_bad: Result<Option<Tag>, DbError> = decode_single(vec![vec![None], vec![]]);
    assert!(matches!(two_bad, Err(DbError::KeyNotUnique)));
}
