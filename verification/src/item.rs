//! The item entity, and the cascade to and from its tags.

use vstd::prelude::*;
use vstd::string::*;
use rusqlite::Connection;
use crate::db::{FromRow, LoadableBy, Obj};
use crate::error::{DbError, DecodeError};
use crate::sql::{select_where_sql, select_where_text};
use crate::tag::{Tag, TagFilter, TagView};
use crate::tags::{distinct_keys, folded, pairs_view, TagMap};
use crate::value::{
    columns_view, integer, integer_column, optional_integer, optional_integer_column,
    optional_text, optional_text_column, text, text_column, values, Column, SqlValue,
    SqlValueView,
};

verus! {

/// A point in time without a time zone: microseconds since the Unix epoch.
#[derive(Debug, Clone, Copy, PartialEq, Eq, Structural)]
pub struct Timestamp {
    pub micros: i64,
}

/// A row of table `items`, with the item's tags. The identifier is the
/// row's key and is not meant to change after construction. The tags are no
/// column: a save writes them as rows of their own, a load reads them back.
#[derive(Debug, Clone)]
pub struct Item {
    pub id: String,
    pub description: String,
    pub is_container: bool,
    pub checked_out: Option<Timestamp>,
    pub destroyed: Option<Timestamp>,
    pub parent_container: Option<String>,
    pub tags: TagMap,
}

/// The content of an [`Item`].
pub struct ItemView {
    pub id: Seq<char>,
    pub description: Seq<char>,
    pub is_container: bool,
    pub checked_out: Option<Timestamp>,
    pub destroyed: Option<Timestamp>,
    pub parent_container: Option<Seq<char>>,
    pub tags: Map<Seq<char>, Seq<char>>,
}

impl View for Item {
    type V = ItemView;

    open spec fn view(&self) -> ItemView {
        ItemView {
            id: self.id@,
            description: self.description@,
            is_container: self.is_container,
            checked_out: self.checked_out,
            destroyed: self.destroyed,
            parent_container: match self.parent_container {
                Some(p) => Some(p@),
                None => None,
            },
            tags: self.tags@,
        }
    }
}

/// The secondary lookups on items.
#[derive(Debug, Clone)]
pub enum ItemFilter {
    /// The items directly inside one container.
    ByParentContainer(String),
}

/// The content of a list of tags.
pub open spec fn tag_views(tags: Seq<Tag>) -> Seq<TagView> {
    Seq::new(tags.len(), |i: int| tags[i]@)
}

/// The mapping after the tags were set on `base` one after the other: a
/// later tag with the same key overwrites an earlier one.
pub open spec fn absorbed(base: Map<Seq<char>, Seq<char>>, tags: Seq<TagView>) -> Map<
    Seq<char>,
    Seq<char>,
>
    decreases tags.len(),
{
    if tags.len() == 0 {
        base
    } else {
        absorbed(base, tags.drop_last()).insert(tags.last().key, tags.last().value)
    }
}

/// The tag rows of an item: one for each pair, under the item's identifier.
pub open spec fn tag_rows_of(id: Seq<char>, pairs: Seq<(Seq<char>, Seq<char>)>) -> Seq<TagView> {
    Seq::new(pairs.len(), |i: int| TagView { item_id: id, key: pairs[i].0, value: pairs[i].1 })
}

/// The column value of an optional timestamp.
pub open spec fn timestamp_value(at: Option<Timestamp>) -> SqlValueView {
    match at {
        Some(t) => SqlValueView::Integer(t.micros),
        None => SqlValueView::Null,
    }
}

/// The column value of an optional identifier.
pub open spec fn reference_value(id: Option<Seq<char>>) -> SqlValueView {
    match id {
        Some(p) => SqlValueView::Text(p),
        None => SqlValueView::Null,
    }
}

/// `uuid::Uuid::new_v4` and its `to_string`: a random identifier in the
/// hyphenated form, which has 36 characters.
#[verifier::external_body]
fn fresh_identifier() -> (r: String)
    ensures
        r@.len() == 36,
{
    uuid::Uuid::new_v4().to_string()
}

fn micros_of(at: Option<Timestamp>) -> (r: Option<i64>)
    ensures
        r == match at {
            Some(t) => Some(t.micros),
            None => None::<i64>,
        },
{
    match at {
        Some(t) => Some(t.micros),
        None => None,
    }
}

fn timestamp_of(micros: Option<i64>) -> (r: Option<Timestamp>)
    ensures
        r == match micros {
            Some(m) => Some(Timestamp { micros: m }),
            None => None::<Timestamp>,
        },
{
    match micros {
        Some(m) => Some(Timestamp { micros: m }),
        None => None,
    }
}

impl Item {
    /// A new item under a fresh identifier, neither checked out nor
    /// destroyed, without tags.
    pub fn new(description: String, is_container: bool, parent_container: Option<String>) -> (r:
        Item)
        ensures
            r@.id.len() == 36,
            r@ == (ItemView {
                id: r@.id,
                description: description@,
                is_container,
                checked_out: None,
                destroyed: None,
                parent_container: match parent_container {
                    Some(p) => Some(p@),
                    None => None,
                },
                tags: Map::empty(),
            }),
    {
        Item {
            id: fresh_identifier(),
            description,
            is_container,
            checked_out: None,
            destroyed: None,
            parent_container,
            tags: TagMap::new(),
        }
    }

    /// Sets the tag `key` to `value`, overwriting the value it had.
    pub fn set_tag(&mut self, key: String, value: String)
        ensures
            final(self)@ == (ItemView {
                tags: old(self)@.tags.insert(key@, value@),
                ..old(self)@
            }),
    {
        self.tags.set(key, value);
    }

    /// Sets every tag of `rows` in order, whatever item the row names.
    pub fn absorb(&mut self, rows: &Vec<Tag>)
        ensures
            final(self)@ == (ItemView {
                tags: absorbed(old(self)@.tags, tag_views(rows@)),
                ..old(self)@
            }),
    {
        let mut i: usize = 0;
        while i < rows.len()
            invariant
                i <= rows@.len(),
                self@ == (ItemView {
                    tags: absorbed(old(self)@.tags, tag_views(rows@).take(i as int)),
                    ..old(self)@
                }),
            decreases rows@.len() - i,
        {
            proof {
                let next = tag_views(rows@).take(i + 1);
                assert(next.drop_last() =~= tag_views(rows@).take(i as int));
                assert(next.last() == rows@[i as int]@);
            }
            self.tags.set(rows[i].key.clone(), rows[i].value.clone());
            i += 1;
        }
        proof {
            assert(tag_views(rows@).take(i as int) =~= tag_views(rows@));
        }
    }

    /// The item with the given identifier and the tags of `rows`, a later
    /// row overwriting an earlier one with the same key. Everything else is
    /// blank: no description, no container, no timestamps.
    pub fn from_tag_rows(id: String, rows: Vec<Tag>) -> (r: Item)
        ensures
            r@ == (ItemView {
                id: id@,
                description: Seq::empty(),
                is_container: false,
                checked_out: None,
                destroyed: None,
                parent_container: None,
                tags: absorbed(Map::empty(), tag_views(rows@)),
            }),
    {
        let mut item = Item {
            id,
            description: String::new(),
            is_container: false,
            checked_out: None,
            destroyed: None,
            parent_container: None,
            tags: TagMap::new(),
        };
        item.absorb(&rows);
        item
    }

    /// The rows that a save writes for the tags: one for each key, under
    /// this item's identifier.
    pub fn tag_rows(&self) -> (r: Vec<Tag>)
        ensures
            exists|pairs: Seq<(Seq<char>, Seq<char>)>|
                #![trigger tag_rows_of(self@.id, pairs)]
                distinct_keys(pairs) && folded(pairs) == self@.tags && tag_views(r@)
                    == tag_rows_of(self@.id, pairs),
    {
        let pairs = self.tags.pairs();
        let mut out: Vec<Tag> = Vec::new();
        let mut i: usize = 0;
        while i < pairs.len()
            invariant
                i <= pairs@.len(),
                out@.len() == i,
                forall|j: int|
                    0 <= j < i ==> (#[trigger] out@[j])@ == (TagView {
                        item_id: self.id@,
                        key: pairs@[j].0@,
                        value: pairs@[j].1@,
                    }),
            decreases pairs@.len() - i,
        {
            out.push(
                Tag {
                    item_id: self.id.clone(),
                    key: pairs[i].0.clone(),
                    value: pairs[i].1.clone(),
                },
            );
            i += 1;
        }
        proof {
            assert(tag_views(out@) =~= tag_rows_of(self@.id, pairs_view(pairs@)));
        }
        out
    }
}

impl FromRow for Item {
    open spec fn decode(row: Seq<SqlValueView>) -> Result<ItemView, DecodeError> {
        if row.len() != 6 {
            Err(DecodeError::ColumnCount { expected: 6, found: row.len() as usize })
        } else if !(row[0] is Text) {
            Err(DecodeError::ColumnType { index: 0 })
        } else if !(row[1] is Text) {
            Err(DecodeError::ColumnType { index: 1 })
        } else if !(row[2] is Integer) {
            Err(DecodeError::ColumnType { index: 2 })
        } else if !(row[3] is Integer || row[3] is Null) {
            Err(DecodeError::ColumnType { index: 3 })
        } else if !(row[4] is Integer || row[4] is Null) {
            Err(DecodeError::ColumnType { index: 4 })
        } else if !(row[5] is Text || row[5] is Null) {
            Err(DecodeError::ColumnType { index: 5 })
        } else {
            Ok(
                ItemView {
                    id: row[0]->Text_0,
                    description: row[1]->Text_0,
                    is_container: row[2]->Integer_0 != 0,
                    checked_out: if row[3] is Null {
                        None
                    } else {
                        Some(Timestamp { micros: row[3]->Integer_0 })
                    },
                    destroyed: if row[4] is Null {
                        None
                    } else {
                        Some(Timestamp { micros: row[4]->Integer_0 })
                    },
                    parent_container: if row[5] is Null {
                        None
                    } else {
                        Some(row[5]->Text_0)
                    },
                    tags: Map::empty(),
                },
            )
        }
    }

    open spec fn completes(decoded: ItemView, loaded: ItemView) -> bool {
        loaded == (ItemView { tags: loaded.tags, ..decoded })
    }

    open spec fn has_children() -> bool {
        true
    }

    proof fn completes_reflexive(v: ItemView) {
    }

    fn from_row(row: &Vec<SqlValue>) -> (r: Result<Item, DecodeError>) {
        if row.len() != 6 {
            return Err(DecodeError::ColumnCount { expected: 6, found: row.len() });
        }
        let id = text_column(row, 0)?;
        let description = text_column(row, 1)?;
        let container = integer_column(row, 2)?;
        let checked_out = optional_integer_column(row, 3)?;
        let destroyed = optional_integer_column(row, 4)?;
        let parent_container = optional_text_column(row, 5)?;
        Ok(
            Item {
                id,
                description,
                is_container: container != 0,
                checked_out: timestamp_of(checked_out),
                destroyed: timestamp_of(destroyed),
                parent_container,
                tags: TagMap::new(),
            },
        )
    }
}

impl Obj for Item {
    type Id = String;

    open spec fn table() -> Seq<char> {
        "items"@
    }

    open spec fn predicate() -> Seq<char> {
        "id = :id"@
    }

    open spec fn predicate_params(id: &String) -> Seq<(Seq<char>, SqlValueView)> {
        seq![(":id"@, SqlValueView::Text(id@))]
    }

    open spec fn keys(&self) -> Seq<(Seq<char>, SqlValueView)> {
        seq![("id"@, SqlValueView::Text(self.id@))]
    }

    open spec fn data(&self) -> Seq<(Seq<char>, SqlValueView)> {
        seq![
            ("description"@, SqlValueView::Text(self.description@)),
            (
                "is_container"@,
                SqlValueView::Integer(
                    if self.is_container {
                        1
                    } else {
                        0
                    },
                ),
            ),
            ("checked_out"@, timestamp_value(self.checked_out)),
            ("destroyed"@, timestamp_value(self.destroyed)),
            ("parent_container"@, reference_value(self@.parent_container)),
        ]
    }

    /// Loads the tags of this item and sets them on it, in the order in
    /// which the store hands them out. What the item held before stays,
    /// but for the tags that a loaded row overwrites.
    fn post_load_hook(&mut self, conn: &Connection) -> (r: Result<(), DbError>) {
        let filter = TagFilter::ByItem(self.id.clone());
        let rows = <Tag as LoadableBy<TagFilter>>::load_by(&filter, conn)?;
        self.absorb(&rows);
        Ok(())
    }

    /// Saves each tag as a row of its own, in the order of
    /// [`Item::tag_rows`], inside the savepoint that the item's own save
    /// runs in; stops at the first tag that fails. An item without tags has
    /// nothing to save, and succeeds.
    fn post_save_hook(&self, conn: &Connection) -> (r: Result<(), DbError>)
        ensures
            self@.tags == Map::<Seq<char>, Seq<char>>::empty() ==> r is Ok,
    {
        let mut rows = self.tag_rows();
        let n = rows.len();
        proof {
            let pairs = choose|pairs: Seq<(Seq<char>, Seq<char>)>|
                #![trigger tag_rows_of(self@.id, pairs)]
                distinct_keys(pairs) && folded(pairs) == self@.tags && tag_views(rows@)
                    == tag_rows_of(self@.id, pairs);
            if pairs.len() > 0 {
                assert(folded(pairs).contains_key(pairs.last().0));
            }
            assert(tag_views(rows@).len() == pairs.len());
        }
        let mut i: usize = 0;
        while i < n
            invariant
                rows@.len() == n,
                i <= n,
                self@.tags == Map::<Seq<char>, Seq<char>>::empty() ==> n == 0,
            decreases n - i,
        {
            let mut tag = Tag { item_id: String::new(), key: String::new(), value: String::new() };
            core::mem::swap(&mut tag, &mut rows[i]);
            crate::db::Saveable::__save_no_savepoint(tag, conn)?;
            i += 1;
        }
        Ok(())
    }

    fn table_name() -> (r: String) {
        String::from_str("items")
    }

    fn where_clause() -> (r: String) {
        String::from_str("id = :id")
    }

    fn where_params(id: &String) -> (r: Vec<Column>) {
        let r = vec![text(":id", id)];
        assert(columns_view(r@) =~= Self::predicate_params(id));
        r
    }

    fn key_columns(&self) -> (r: Vec<Column>) {
        let r = vec![text("id", &self.id)];
        assert(columns_view(r@) =~= Obj::keys(self));
        r
    }

    fn data_columns(&self) -> (r: Vec<Column>) {
        let container: i64 = if self.is_container {
            1
        } else {
            0
        };
        let r = vec![
            text("description", &self.description),
            integer("is_container", container),
            optional_integer("checked_out", micros_of(self.checked_out)),
            optional_integer("destroyed", micros_of(self.destroyed)),
            optional_text("parent_container", &self.parent_container),
        ];
        assert(columns_view(r@) =~= Obj::data(self));
        r
    }
}

impl LoadableBy<ItemFilter> for Item {
    open spec fn select_by_text(by: &ItemFilter) -> Seq<char> {
        select_where_text("items"@, "parent_container = :parent_container"@)
    }

    open spec fn select_params_of(by: &ItemFilter) -> Seq<(Seq<char>, SqlValueView)> {
        match by {
            ItemFilter::ByParentContainer(parent) => seq![
                (":parent_container"@, SqlValueView::Text(parent@)),
            ],
        }
    }

    /// Loads the tags of this item and sets them on it, as a load by key
    /// does.
    fn post_load_hook(&mut self, conn: &Connection) -> (r: Result<(), DbError>) {
        Obj::post_load_hook(self, conn)
    }

    fn select_by(by: &ItemFilter) -> (r: (String, Vec<Column>)) {
        match by {
            ItemFilter::ByParentContainer(parent) => {
                let sql = select_where_sql("items", "parent_container = :parent_container");
                let params = vec![text(":parent_container", parent)];
                assert(columns_view(params@) =~= Self::select_params_of(by));
                assert(<Item as LoadableBy<ItemFilter>>::select_by_text(by) == select_where_text(
                    "items"@,
                    "parent_container = :parent_container"@,
                ));
                (sql, params)
            },
        }
    }
}

/// An item's own columns decode to the item without its tags: what a save
/// writes to table `items`, a load reads back, provided the store hands the
/// row out as it was written.
pub proof fn lemma_item_row_round_trip(item: Item)
    ensures
        <Item as FromRow>::decode(values(Obj::keys(&item) + Obj::data(&item))) == Ok::<
            ItemView,
            DecodeError,
        >(ItemView { tags: Map::empty(), ..item@ }),
{
    let row = values(Obj::keys(&item) + Obj::data(&item));
    assert(row.len() == 6);
    assert(row[0] == SqlValueView::Text(item.id@));
    assert(row[1] == SqlValueView::Text(item.description@));
    assert(row[2] == SqlValueView::Integer(
        if item.is_container {
            1
        } else {
            0
        },
    ));
    assert(row[3] == timestamp_value(item.checked_out));
    assert(row[4] == timestamp_value(item.destroyed));
    assert(row[5] == reference_value(item@.parent_container));
    let decoded = <Item as FromRow>::decode(row)->Ok_0;
    assert(decoded.checked_out == item.checked_out);
    assert(decoded.destroyed == item.destroyed);
    assert(decoded.parent_container == item@.parent_container);
}

/// The tag rows of a mapping fold back into the mapping: what the cascade
/// of a save writes, the cascade of a load reads back when the store hands
/// the rows out in the order written.
pub proof fn lemma_tag_rows_round_trip(id: Seq<char>, pairs: Seq<(Seq<char>, Seq<char>)>)
    ensures
        absorbed(Map::empty(), tag_rows_of(id, pairs)) == folded(pairs),
    decreases pairs.len(),
{
    if pairs.len() > 0 {
        lemma_tag_rows_round_trip(id, pairs.drop_last());
        assert(tag_rows_of(id, pairs).drop_last() =~= tag_rows_of(id, pairs.drop_last()));
    }
}

/// Setting a tag twice leaves one value under its key: the later one.
pub proof fn lemma_later_tag_wins(
    tags: Map<Seq<char>, Seq<char>>,
    key: Seq<char>,
    first: Seq<char>,
    second: Seq<char>,
)
    ensures
        tags.insert(key, first).insert(key, second) == tags.insert(key, second),
{
    assert(tags.insert(key, first).insert(key, second) =~= tags.insert(key, second));
}

/// Some row has this key and this value.
pub open spec fn has_row(rows: Seq<TagView>, key: Seq<char>, value: Seq<char>) -> bool {
    exists|i: int| 0 <= i < rows.len() && (#[trigger] rows[i]).key == key && rows[i].value == value
}

/// Some pair has this key and this value.
pub open spec fn has_pair(pairs: Seq<(Seq<char>, Seq<char>)>, key: Seq<char>, value: Seq<char>) -> bool {
    exists|j: int| 0 <= j < pairs.len() && (#[trigger] pairs[j]).0 == key && pairs[j].1 == value
}

/// What rows fold into, key by key: a key is mapped exactly when some row
/// has it, and then to the value of one of the rows that have it.
pub proof fn lemma_absorbed_entry(rows: Seq<TagView>, key: Seq<char>)
    ensures
        absorbed(Map::empty(), rows).contains_key(key) <==> exists|i: int|
            0 <= i < rows.len() && (#[trigger] rows[i]).key == key,
        absorbed(Map::empty(), rows).contains_key(key) ==> has_row(
            rows,
            key,
            absorbed(Map::empty(), rows)[key],
        ),
    decreases rows.len(),
{
    if rows.len() > 0 {
        let front = rows.drop_last();
        let last = rows.len() - 1;
        lemma_absorbed_entry(front, key);
        if rows[last].key == key {
            assert(rows[last].value == absorbed(Map::empty(), rows)[key]);
        } else if absorbed(Map::empty(), rows).contains_key(key) {
            let value = absorbed(Map::empty(), front)[key];
            let i = choose|i: int|
                0 <= i < front.len() && (#[trigger] front[i]).key == key && front[i].value == value;
            assert(rows[i].key == key && rows[i].value == value);
        }
        if exists|i: int| 0 <= i < rows.len() && (#[trigger] rows[i]).key == key {
            let i = choose|i: int| 0 <= i < rows.len() && (#[trigger] rows[i]).key == key;
            if i < last {
                assert(front[i].key == key);
            }
        }
    }
}

/// The cascade of a load rebuilds the mapping from the rows that the
/// cascade of a save wrote, in whatever order and however often the store
/// hands them out: rows that hold the pairs of a mapping with one value per
/// key, and nothing else, fold into that mapping.
pub proof fn lemma_tag_rows_any_order(pairs: Seq<(Seq<char>, Seq<char>)>, rows: Seq<TagView>)
    requires
        distinct_keys(pairs),
        forall|i: int|
            0 <= i < rows.len() ==> has_pair(pairs, (#[trigger] rows[i]).key, rows[i].value),
        forall|j: int|
            0 <= j < pairs.len() ==> has_row(rows, (#[trigger] pairs[j]).0, pairs[j].1),
    ensures
        absorbed(Map::empty(), rows) == folded(pairs),
{
    let got = absorbed(Map::empty(), rows);
    let want = folded(pairs);
    assert forall|key: Seq<char>|
        (#[trigger] got.dom().contains(key)) == want.dom().contains(key) && (got.dom().contains(
            key,
        ) ==> got[key] == want[key]) by {
        lemma_absorbed_entry(rows, key);
        crate::tags::lemma_folded_keys(pairs, key);
        if got.contains_key(key) {
            let i = choose|i: int|
                0 <= i < rows.len() && (#[trigger] rows[i]).key == key && rows[i].value
                    == got[key];
            assert(has_pair(pairs, rows[i].key, rows[i].value));
            let j = choose|j: int|
                0 <= j < pairs.len() && (#[trigger] pairs[j]).0 == key && pairs[j].1
                    == rows[i].value;
            crate::tags::lemma_folded_value(pairs, j);
        }
        if want.contains_key(key) {
            let j = choose|j: int| 0 <= j < pairs.len() && (#[trigger] pairs[j]).0 == key;
            assert(has_row(rows, pairs[j].0, pairs[j].1));
            let i = choose|i: int|
                0 <= i < rows.len() && (#[trigger] rows[i]).key == pairs[j].0 && rows[i].value
                    == pairs[j].1;
            assert(rows[i].key == key);
        }
    }
    assert(got =~= want);
}

} // verus!
