use inventory::db::{LoadableBy, Obj, Saveable};
use inventory::item::{Item, ItemFilter};
use inventory::sql::{
    decimal_string, internal_error_message, join, schema_sql, select_all_sql, select_where_sql,
    upsert_sql,
};
use inventory::tag::{Tag, TagFilter};
use inventory::value::{integer, Column, SqlValue};

fn tag(item_id: &str, key: &str, value: &str) -> Tag {
    Tag { item_id: item_id.to_string(), key: key.to_string(), value: value.to_string() }
}

#[test]
fn decimal_of_small_and_large_numbers() {
    assert_eq!(decimal_string(0), "0");
    assert_eq!(decimal_string(7), "7");
    assert_eq!(decimal_string(10), "10");
    assert_eq!(decimal_string(109), "109");
    assert_eq!(decimal_string(4096), "4096");
    assert_eq!(decimal_string(usize::MAX), format!("{}", usize::MAX));
}

#[test]
fn join_places_the_separator_between_parts_only() {
    let none: Vec<String> = vec![];
    assert_eq!(join(&none, ", "), "");
    assert_eq!(join(&vec!["a".to_string()], ", "), "a");
    assert_eq!(join(&vec!["a".to_string(), "b".to_string(), "c".to_string()], ", "), "a, b, c");
    assert_eq!(join(&vec!["".to_string(), "".to_string()], ","), ",");
}

#[test]
fn upsert_statement_of_a_tag() {
    let t = tag("i", "k", "v");
    let (sql, columns) = t.save_statement();
    assert_eq!(
        sql,
        "INSERT INTO tags(item_id, key, value) VALUES(?1, ?2, ?3) ON CONFLICT(item_id, key) DO UPDATE SET value=excluded.value"
    );
    assert_eq!(columns.len(), 3);
    assert_eq!(columns[0].name, "item_id");
    assert!(matches!(&columns[0].value, SqlValue::Text(s) if s == "i"));
    assert_eq!(columns[1].name, "key");
    assert!(matches!(&columns[1].value, SqlValue::Text(s) if s == "k"));
    assert_eq!(columns[2].name, "value");
    assert!(matches!(&columns[2].value, SqlValue::Text(s) if s == "v"));
}

#[test]
fn upsert_statement_of_an_item() {
    let item = Item::new("a box".to_string(), true, Some("shelf".to_string()));
    let id = item.id.clone();
    let (sql, columns) = item.save_statement();
    assert_eq!(
        sql,
        "INSERT INTO items(id, description, is_container, checked_out, destroyed, parent_container) VALUES(?1, ?2, ?3, ?4, ?5, ?6) ON CONFLICT(id) DO UPDATE SET description=excluded.description,is_container=excluded.is_container,checked_out=excluded.checked_out,destroyed=excluded.destroyed,parent_container=excluded.parent_container"
    );
    assert_eq!(columns.len(), 6);
    assert!(matches!(&columns[0].value, SqlValue::Text(s) if *s == id));
    assert!(matches!(&columns[1].value, SqlValue::Text(s) if s == "a box"));
    assert!(matches!(&columns[2].value, SqlValue::Integer(1)));
    assert!(matches!(&columns[3].value, SqlValue::Null));
    assert!(matches!(&columns[4].value, SqlValue::Null));
    assert!(matches!(&columns[5].value, SqlValue::Text(s) if s == "shelf"));
}

#[test]
fn upsert_statement_numbers_placeholders_past_nine() {
    let names = ["a", "b", "c", "d", "e", "f", "g", "h", "i", "j", "k"];
    let keys: Vec<Column> = vec![integer("id", 1)];
    let data: Vec<Column> = names.iter().map(|n| integer(n, 0)).collect();
    let sql = upsert_sql("t", &keys, &data);
    assert!(sql.starts_with("INSERT INTO t(id, a, b, c, d, e, f, g, h, i, j, k) VALUES(?1, ?2, ?3, ?4, ?5, ?6, ?7, ?8, ?9, ?10, ?11, ?12) ON CONFLICT(id) DO UPDATE SET a=excluded.a,b=excluded.b,"));
    assert!(sql.ends_with(",k=excluded.k"));
}

#[test]
fn upsert_statement_without_data_columns_ends_after_set() {
    let keys: Vec<Column> = vec![integer("a", 1), integer("b", 2)];
    let data: Vec<Column> = vec![];
    assert_eq!(
        upsert_sql("pairs", &keys, &data),
        "INSERT INTO pairs(a, b) VALUES(?1, ?2) ON CONFLICT(a, b) DO UPDATE SET "
    );
}

#[test]
fn select_statements() {
    assert_eq!(select_all_sql("items"), "SELECT * FROM items");
    assert_eq!(select_where_sql("items", "id = :id"), "SELECT * FROM items WHERE id = :id");
    assert_eq!(<Item as inventory::db::Scannable>::select_all(), "SELECT * FROM items");
    assert_eq!(<Tag as inventory::db::Scannable>::select_all(), "SELECT * FROM tags");
    assert_eq!(
        <Item as inventory::db::Loadable>::select_by(),
        "SELECT * FROM items WHERE id = :id"
    );
    assert_eq!(
        <Tag as inventory::db::Loadable>::select_by(),
        "SELECT * FROM tags WHERE item_id = :item_id AND key = :key"
    );
}

#[test]
fn key_lookup_parameters() {
    let params = <Item as Obj>::where_params(&"abc".to_string());
    assert_eq!(params.len(), 1);
    assert_eq!(params[0].name, ":id");
    assert!(matches!(&params[0].value, SqlValue::Text(s) if s == "abc"));
    let params = <Tag as Obj>::where_params(&("abc".to_string(), "colour".to_string()));
    assert_eq!(params.len(), 2);
    assert_eq!(params[0].name, ":item_id");
    assert!(matches!(&params[0].value, SqlValue::Text(s) if s == "abc"));
    assert_eq!(params[1].name, ":key");
    assert!(matches!(&params[1].value, SqlValue::Text(s) if s == "colour"));
}

#[test]
fn filter_statements() {
    let (sql, params) = <Item as LoadableBy<ItemFilter>>::select_by(&ItemFilter::ByParentContainer("p".to_string()));
    assert_eq!(sql, "SELECT * FROM items WHERE parent_container = :parent_container");
    assert_eq!(params.len(), 1);
    assert_eq!(params[0].name, ":parent_container");
    assert!(matches!(&params[0].value, SqlValue::Text(s) if s == "p"));

    let (sql, params) = <Tag as LoadableBy<TagFilter>>::select_by(&TagFilter::ByItem("i".to_string()));
    assert_eq!(sql, "SELECT * FROM tags WHERE item_id = :item_id");
    assert_eq!(params.len(), 1);
    assert_eq!(params[0].name, ":item_id");
    assert!(matches!(&params[0].value, SqlValue::Text(s) if s == "i"));

    let (sql, params) = <Tag as LoadableBy<TagFilter>>::select_by(&TagFilter::ByKey("k".to_string()));
    assert_eq!(sql, "SELECT * FROM tags WHERE key = :key");
    assert_eq!(params.len(), 1);
    assert_eq!(params[0].name, ":key");
    assert!(matches!(&params[0].value, SqlValue::Text(s) if s == "k"));
}

#[test]
fn schema_names_every_column_in_decoding_order() {
    let schema = schema_sql();
    let items = schema.find("items (id TEXT PRIMARY KEY, description").unwrap();
    let tags = schema.find("tags (item_id").unwrap();
    assert!(items < tags);
    for column in ["is_container", "checked_out", "destroyed", "parent_container", "key", "value"] {
        assert!(schema.contains(column));
    }
}

#[test]
fn internal_error_message_wraps_the_cause() {
    assert_eq!(internal_error_message("disk full"), "Internal server error: disk full\n");
    assert_eq!(internal_error_message(""), "Internal server error: \n");
}
