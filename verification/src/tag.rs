//! The tag entity: one value per item and tag key.

use vstd::prelude::*;
use vstd::string::*;
use crate::db::{FromRow, LoadableBy, Obj};
use crate::error::DecodeError;
use crate::sql::{select_where_sql, select_where_text};
use crate::value::{columns_view, text, text_column, Column, SqlValue, SqlValueView};

verus! {

/// A row of table `tags`: the value that an item has under a tag key. The
/// pair of item identifier and key is the row's key; the value is its data.
#[derive(Debug, Clone)]
pub struct Tag {
    pub item_id: String,
    pub key: String,
    pub value: String,
}

/// The content of a [`Tag`].
pub struct TagView {
    pub item_id: Seq<char>,
    pub key: Seq<char>,
    pub value: Seq<char>,
}

impl View for Tag {
    type V = TagView;

    open spec fn view(&self) -> TagView {
        TagView { item_id: self.item_id@, key: self.key@, value: self.value@ }
    }
}

/// The secondary lookups on tags.
#[derive(Debug, Clone)]
pub enum TagFilter {
    /// The tags of one item.
    ByItem(String),
    /// The tags with one key, of whatever item.
    ByKey(String),
}

/// The predicate of a tag filter.
pub open spec fn tag_filter_predicate(by: &TagFilter) -> Seq<char> {
    match by {
        TagFilter::ByItem(_) => "item_id = :item_id"@,
        TagFilter::ByKey(_) => "key = :key"@,
    }
}

impl FromRow for Tag {
    open spec fn decode(row: Seq<SqlValueView>) -> Result<TagView, DecodeError> {
        if row.len() != 3 {
            Err(DecodeError::ColumnCount { expected: 3, found: row.len() as usize })
        } else if !(row[0] is Text) {
            Err(DecodeError::ColumnType { index: 0 })
        } else if !(row[1] is Text) {
            Err(DecodeError::ColumnType { index: 1 })
        } else if !(row[2] is Text) {
            Err(DecodeError::ColumnType { index: 2 })
        } else {
            Ok(TagView { item_id: row[0]->Text_0, key: row[1]->Text_0, value: row[2]->Text_0 })
        }
    }

    open spec fn completes(decoded: TagView, loaded: TagView) -> bool {
        loaded == decoded
    }

    open spec fn has_children() -> bool {
        false
    }

    proof fn completes_reflexive(v: TagView) {
    }

    fn from_row(row: &Vec<SqlValue>) -> (r: Result<Tag, DecodeError>) {
        if row.len() != 3 {
            return Err(DecodeError::ColumnCount { expected: 3, found: row.len() });
        }
        let item_id = text_column(row, 0)?;
        let key = text_column(row, 1)?;
        let value = text_column(row, 2)?;
        Ok(Tag { item_id, key, value })
    }
}

impl Obj for Tag {
    type Id = (String, String);

    open spec fn table() -> Seq<char> {
        "tags"@
    }

    open spec fn predicate() -> Seq<char> {
        "item_id = :item_id AND key = :key"@
    }

    open spec fn predicate_params(id: &(String, String)) -> Seq<(Seq<char>, SqlValueView)> {
        seq![(":item_id"@, SqlValueView::Text(id.0@)), (":key"@, SqlValueView::Text(id.1@))]
    }

    open spec fn keys(&self) -> Seq<(Seq<char>, SqlValueView)> {
        seq![
            ("item_id"@, SqlValueView::Text(self.item_id@)),
            ("key"@, SqlValueView::Text(self.key@)),
        ]
    }

    open spec fn data(&self) -> Seq<(Seq<char>, SqlValueView)> {
        seq![("value"@, SqlValueView::Text(self.value@))]
    }

    fn table_name() -> (r: String) {
        String::from_str("tags")
    }

    fn where_clause() -> (r: String) {
        String::from_str("item_id = :item_id AND key = :key")
    }

    fn where_params(id: &(String, String)) -> (r: Vec<Column>) {
        let r = vec![text(":item_id", &id.0), text(":key", &id.1)];
        assert(columns_view(r@) =~= Self::predicate_params(id));
        r
    }

    fn key_columns(&self) -> (r: Vec<Column>) {
        let r = vec![text("item_id", &self.item_id), text("key", &self.key)];
        assert(columns_view(r@) =~= self.keys());
        r
    }

    fn data_columns(&self) -> (r: Vec<Column>) {
        let r = vec![text("value", &self.value)];
        assert(columns_view(r@) =~= self.data());
        r
    }
}

impl LoadableBy<TagFilter> for Tag {
    open spec fn select_by_text(by: &TagFilter) -> Seq<char> {
        select_where_text("tags"@, tag_filter_predicate(by))
    }

    open spec fn select_params_of(by: &TagFilter) -> Seq<(Seq<char>, SqlValueView)> {
        match by {
            TagFilter::ByItem(id) => seq![(":item_id"@, SqlValueView::Text(id@))],
            TagFilter::ByKey(key) => seq![(":key"@, SqlValueView::Text(key@))],
        }
    }

    fn select_by(by: &TagFilter) -> (r: (String, Vec<Column>)) {
        match by {
            TagFilter::ByItem(id) => {
                let sql = select_where_sql("tags", "item_id = :item_id");
                let params = vec![text(":item_id", id)];
                assert(columns_view(params@) =~= Self::select_params_of(by));
                assert(<Tag as LoadableBy<TagFilter>>::select_by_text(by) == select_where_text(
                    "tags"@,
                    "item_id = :item_id"@,
                ));
                (sql, params)
            },
            TagFilter::ByKey(key) => {
                let sql = select_where_sql("tags", "key = :key");
                let params = vec![text(":key", key)];
                assert(columns_view(params@) =~= Self::select_params_of(by));
                assert(<Tag as LoadableBy<TagFilter>>::select_by_text(by) == select_where_text(
                    "tags"@,
                    "key = :key"@,
                ));
                (sql, params)
            },
        }
    }
}

/// A tag's own columns decode to the tag: what a save writes, a load reads
/// back, provided the store hands the row out as it was written.
pub proof fn lemma_tag_row_round_trip(tag: Tag)
    ensures
        <Tag as FromRow>::decode(crate::value::values(Obj::keys(&tag) + Obj::data(&tag))) == Ok::<
            TagView,
            DecodeError,
        >(tag@),
{
    let row = crate::value::values(Obj::keys(&tag) + Obj::data(&tag));
    assert(row.len() == 3);
    assert(row[0] == SqlValueView::Text(tag.item_id@));
    assert(row[1] == SqlValueView::Text(tag.key@));
    assert(row[2] == SqlValueView::Text(tag.value@));
}

} // verus!
