//! The schema of a time-series table: its columns in order, and an index
//! from column name to position.
//!
//! The index keeps, for each name it holds, the position of a column of
//! that name. It is held as one flag per column ("this column is the one
//! its name maps to"); no two flagged columns share a name.
use std::collections::HashMap;
use vstd::prelude::*;

use crate::column::{ColumnType, Encoding, Precision, TimeUnit};
use crate::sort::{sort_u32, sorted_u32};
use crate::text::str_eq;

verus! {

pub type ColumnId = u32;

pub type SchemaVersion = u64;

/// The name of the time column.
pub const TIME_FIELD_NAME: &'static str = "time";

/// A column of a table.
#[derive(Debug, Clone, PartialEq, Eq, Hash, PartialOrd, Ord)]
pub struct TableColumn {
    pub id: ColumnId,
    pub name: String,
    pub column_type: ColumnType,
    pub encoding: Encoding,
}

impl TableColumn {
    pub fn new(id: ColumnId, name: String, column_type: ColumnType, encoding: Encoding) -> (r: Self)
        ensures
            r == (TableColumn { id, name, column_type, encoding }),
    {
        TableColumn { id, name, column_type, encoding }
    }

    /// A column with id 0 and the default encoding.
    pub fn new_with_default(name: String, column_type: ColumnType) -> (r: Self)
        ensures
            r == (TableColumn { id: 0, name, column_type, encoding: Encoding::Default }),
    {
        TableColumn { id: 0, name, column_type, encoding: Encoding::Default }
    }

    /// The time column in the given unit.
    pub fn new_time_column(id: ColumnId, time_unit: TimeUnit) -> (r: TableColumn)
        ensures
            r.id == id,
            r.name@ == TIME_FIELD_NAME@,
            r.column_type == ColumnType::Time(time_unit),
            r.encoding == Encoding::Default,
    {
        TableColumn {
            id,
            name: TIME_FIELD_NAME.to_owned(),
            column_type: ColumnType::Time(time_unit),
            encoding: Encoding::Default,
        }
    }

    /// A tag column.
    pub fn new_tag_column(id: ColumnId, name: String) -> (r: TableColumn)
        ensures
            r == (TableColumn { id, name, column_type: ColumnType::Tag, encoding: Encoding::Default }),
    {
        TableColumn { id, name, column_type: ColumnType::Tag, encoding: Encoding::Default }
    }

    /// The time column cannot hold nulls; every other column can.
    pub fn nullable(&self) -> (r: bool)
        ensures
            r == !(self.column_type is Time),
    {
        !self.column_type.is_time()
    }

    /// An equal copy.
    pub fn copied(&self) -> (r: TableColumn)
        ensures
            r == *self,
    {
        TableColumn {
            id: self.id,
            name: self.name.clone(),
            column_type: self.column_type,
            encoding: self.encoding,
        }
    }
}

/// The position that the index gives `n`: the flagged column of that name.
pub open spec fn index_position(cols: Seq<TableColumn>, flags: Seq<bool>, n: Seq<char>) -> Option<
    int,
> {
    if exists|i: int| 0 <= i < cols.len() && flags[i] && cols[i].name@ == n {
        Some(choose|i: int| 0 <= i < cols.len() && flags[i] && cols[i].name@ == n)
    } else {
        None
    }
}

/// The index as a map from column name to position.
pub open spec fn index_map(cols: Seq<TableColumn>, flags: Seq<bool>) -> Map<Seq<char>, int> {
    Map::new(
        |n: Seq<char>| index_position(cols, flags, n) is Some,
        |n: Seq<char>| index_position(cols, flags, n)->0,
    )
}

/// No two flagged columns share a name.
pub open spec fn flags_wf(cols: Seq<TableColumn>, flags: Seq<bool>) -> bool {
    &&& flags.len() == cols.len()
    &&& forall|i: int, j: int|
        0 <= i < j < cols.len() && flags[i] && flags[j] ==> cols[i].name@ != cols[j].name@
}

/// Flags that index each name at its last column, as building a map from
/// the columns in order does.
pub open spec fn last_flags(cols: Seq<TableColumn>) -> Seq<bool> {
    Seq::new(
        cols.len(),
        |i: int| forall|j: int| i < j < cols.len() ==> cols[j].name@ != cols[i].name@,
    )
}

/// Each name maps to the position of its last column.
pub open spec fn rebuilt_index(cols: Seq<TableColumn>) -> Map<Seq<char>, int> {
    index_map(cols, last_flags(cols))
}

pub proof fn lemma_index_position(cols: Seq<TableColumn>, flags: Seq<bool>, i: int)
    requires
        flags_wf(cols, flags),
        0 <= i < cols.len(),
        flags[i],
    ensures
        index_position(cols, flags, cols[i].name@) == Some(i),
{
    let n = cols[i].name@;
    let k = choose|k: int| 0 <= k < cols.len() && flags[k] && cols[k].name@ == n;
    if k != i {
        if k < i {
            assert(cols[k].name@ != cols[i].name@);
        } else {
            assert(cols[i].name@ != cols[k].name@);
        }
    }
}

pub proof fn lemma_index_position_facts(cols: Seq<TableColumn>, flags: Seq<bool>, n: Seq<char>)
    requires
        flags_wf(cols, flags),
    ensures
        index_position(cols, flags, n) matches Some(i) ==> 0 <= i < cols.len() && flags[i]
            && cols[i].name@ == n,
        index_position(cols, flags, n) is None ==> forall|i: int|
            0 <= i < cols.len() && flags[i] ==> cols[i].name@ != n,
{
}

proof fn lemma_last_flags_wf(cols: Seq<TableColumn>)
    ensures
        flags_wf(cols, last_flags(cols)),
{
}

/// The schema of a table.
#[derive(Debug, Clone)]
pub struct TskvTableSchema {
    pub tenant: String,
    pub db: String,
    pub name: String,
    pub schema_version: SchemaVersion,
    pub next_column_id: ColumnId,
    pub columns: Vec<TableColumn>,
    /// Whether each column is the one its name is indexed at.
    pub indexed: Vec<bool>,
}

impl TskvTableSchema {
    /// The columns in order.
    pub open spec fn cols(&self) -> Seq<TableColumn> {
        self.columns@
    }

    /// The name index: name to position.
    pub open spec fn index(&self) -> Map<Seq<char>, int> {
        index_map(self.columns@, self.indexed@)
    }

    pub open spec fn next_id(&self) -> ColumnId {
        self.next_column_id
    }

    /// The index points only at columns of the name it is looked up by.
    pub open spec fn wf(&self) -> bool {
        flags_wf(self.columns@, self.indexed@)
    }

    /// Column names are distinct, and each is indexed at its column.
    pub open spec fn names_indexed(&self) -> bool {
        &&& forall|i: int, j: int|
            0 <= i < j < self.cols().len() ==> #[trigger] self.cols()[i].name@ != #[trigger] self.cols()[j].name@
        &&& forall|i: int|
            0 <= i < self.cols().len() ==> #[trigger] self.index().contains_key(self.cols()[i].name@)
                && self.index()[self.cols()[i].name@] == i
    }

    /// Everything the index holds is a position of a column of that name.
    pub proof fn lemma_index_sound(&self)
        requires
            self.wf(),
        ensures
            forall|n: Seq<char>|
                #[trigger] self.index().contains_key(n) ==> 0 <= self.index()[n] < self.cols().len()
                    && self.cols()[self.index()[n]].name@ == n,
    {
        assert forall|n: Seq<char>| #[trigger] self.index().contains_key(n) implies 0
            <= self.index()[n] < self.cols().len() && self.cols()[self.index()[n]].name@ == n by {
            lemma_index_position_facts(self.columns@, self.indexed@, n);
        }
    }

    fn rebuild_flags(cols: &Vec<TableColumn>) -> (r: Vec<bool>)
        ensures
            r@ == last_flags(cols@),
    {
        let n = cols.len();
        let mut r: Vec<bool> = Vec::new();
        for i in 0..n
            invariant
                n == cols@.len(),
                r@.len() == i,
                forall|k: int| 0 <= k < i ==> r@[k] == last_flags(cols@)[k],
        {
            let mut last = true;
            let mut j = i + 1;
            while j < n
                invariant
                    n == cols@.len(),
                    i < n,
                    i + 1 <= j <= n,
                    last == forall|k: int| i < k < j ==> cols@[k].name@ != cols@[i as int].name@,
                decreases n - j,
            {
                if str_eq(cols[j].name.as_str(), cols[i].name.as_str()) {
                    last = false;
                }
                j = j + 1;
            }
            r.push(last);
        }
        assert(r@ =~= last_flags(cols@));
        r
    }

    /// A schema of the given columns, at version 0; the next column id is
    /// the number of columns, and each name is indexed at its last column.
    pub fn new(tenant: String, db: String, name: String, columns: Vec<TableColumn>) -> (r: Self)
        requires
            columns@.len() <= u32::MAX,
        ensures
            r.wf(),
            r.tenant == tenant,
            r.db == db,
            r.name == name,
            r.schema_version == 0,
            r.next_id() == columns@.len(),
            r.cols() == columns@,
            r.index() == rebuilt_index(columns@),
    {
        let indexed = Self::rebuild_flags(&columns);
        let next = columns.len() as ColumnId;
        proof {
            lemma_last_flags_wf(columns@);
        }
        TskvTableSchema {
            tenant,
            db,
            name,
            schema_version: 0,
            next_column_id: next,
            columns,
            indexed,
        }
    }

    /// A small schema with only a time column in seconds, for trying things out.
    pub fn new_test() -> (r: Self)
        ensures
            r.wf(),
            r.tenant@ == "cnosdb"@,
            r.db@ == "public"@,
            r.name@ == "test"@,
            r.cols().len() == 1,
            r.cols()[0].column_type == ColumnType::Time(TimeUnit::Second),
            r.cols()[0].id == 0,
    {
        let mut cols: Vec<TableColumn> = Vec::new();
        cols.push(TableColumn::new_time_column(0, TimeUnit::Second));
        TskvTableSchema::new("cnosdb".to_owned(), "public".to_owned(), "test".to_owned(), cols)
    }

    fn find_indexed(&self, name: &str) -> (r: Option<usize>)
        requires
            self.wf(),
        ensures
            match index_position(self.columns@, self.indexed@, name@) {
                Some(i) => r matches Some(x) && x as int == i,
                None => r is None,
            },
    {
        let n = self.columns.len();
        for i in 0..n
            invariant
                n == self.columns@.len(),
                self.wf(),
                forall|k: int|
                    0 <= k < i ==> !(self.indexed@[k] && self.columns@[k].name@ == name@),
        {
            if self.indexed[i] && str_eq(self.columns[i].name.as_str(), name) {
                proof {
                    lemma_index_position(self.columns@, self.indexed@, i as int);
                }
                return Some(i);
            }
        }
        None
    }

    /// Adds a column unless one of that name is indexed; the next column
    /// id advances either way.
    pub fn add_column(&mut self, col: TableColumn)
        requires
            old(self).wf(),
            old(self).next_id() < u32::MAX,
        ensures
            final(self).wf(),
            final(self).next_id() == old(self).next_id() + 1,
            if old(self).index().contains_key(col.name@) {
                final(self).cols() == old(self).cols() && final(self).index() == old(self).index()
            } else {
                &&& final(self).cols() == old(self).cols().push(col)
                &&& final(self).index() == old(self).index().insert(
                    col.name@,
                    old(self).cols().len() as int,
                )
            },
            final(self).tenant == old(self).tenant,
            final(self).db == old(self).db,
            final(self).name == old(self).name,
            final(self).schema_version == old(self).schema_version,
    {
        let found = self.find_indexed(col.name.as_str());
        if found.is_none() {
            let ghost cols0 = self.columns@;
            let ghost flags0 = self.indexed@;
            let ghost n = col.name@;
            self.columns.push(col);
            self.indexed.push(true);
            let ghost cols1 = self.columns@;
            let ghost flags1 = self.indexed@;
            proof {
                assert forall|i: int, j: int|
                    0 <= i < j < cols1.len() && flags1[i] && flags1[j] implies cols1[i].name@
                    != cols1[j].name@ by {
                    if j == cols0.len() {
                        assert(cols1[i] == cols0[i]);
                        lemma_index_position_facts(cols0, flags0, n);
                    } else {
                        assert(cols1[i] == cols0[i] && cols1[j] == cols0[j]);
                    }
                }
                lemma_index_position(cols1, flags1, cols0.len() as int);
                assert forall|m: Seq<char>|
                    index_position(cols1, flags1, m) == if m == n {
                        Some(cols0.len() as int)
                    } else {
                        index_position(cols0, flags0, m)
                    } by {
                    if m != n {
                        lemma_index_position_facts(cols1, flags1, m);
                        lemma_index_position_facts(cols0, flags0, m);
                        match index_position(cols0, flags0, m) {
                            Some(k) => {
                                assert(cols1[k] == cols0[k]);
                                lemma_index_position(cols1, flags1, k);
                            },
                            None => {
                                if let Some(k) = index_position(cols1, flags1, m) {
                                    assert(cols1[k] == cols0[k]);
                                }
                            },
                        }
                    }
                }
                assert(index_map(cols1, flags1) =~= index_map(cols0, flags0).insert(
                    n,
                    cols0.len() as int,
                ));
            }
        }
        self.next_column_id = self.next_column_id + 1;
    }

    /// Removes the column that the name is indexed at, if any, and
    /// re-indexes every name at its last column.
    pub fn drop_column(&mut self, col_name: &str)
        requires
            old(self).wf(),
        ensures
            final(self).wf(),
            final(self).cols() == if old(self).index().contains_key(col_name@) {
                old(self).cols().remove(old(self).index()[col_name@])
            } else {
                old(self).cols()
            },
            final(self).index() == rebuilt_index(final(self).cols()),
            final(self).next_id() == old(self).next_id(),
            final(self).tenant == old(self).tenant,
            final(self).db == old(self).db,
            final(self).name == old(self).name,
            final(self).schema_version == old(self).schema_version,
    {
        if let Some(id) = self.find_indexed(col_name) {
            self.columns.remove(id);
        }
        let flags = Self::rebuild_flags(&self.columns);
        self.indexed = flags;
        proof {
            lemma_last_flags_wf(self.columns@);
        }
    }

    /// Replaces the column that `col_name` is indexed at; the index then
    /// maps the new column's name there and no longer maps `col_name`.
    pub fn change_column(&mut self, col_name: &str, new_column: TableColumn)
        requires
            old(self).wf(),
        ensures
            final(self).wf(),
            if old(self).index().contains_key(col_name@) {
                let id = old(self).index()[col_name@];
                &&& final(self).cols() == old(self).cols().update(id, new_column)
                &&& final(self).index() == old(self).index().remove(col_name@).insert(
                    new_column.name@,
                    id,
                )
            } else {
                final(self).cols() == old(self).cols() && final(self).index() == old(
                    self,
                ).index()
            },
            final(self).next_id() == old(self).next_id(),
            final(self).tenant == old(self).tenant,
            final(self).db == old(self).db,
            final(self).name == old(self).name,
            final(self).schema_version == old(self).schema_version,
    {
        let id = match self.find_indexed(col_name) {
            None => return,
            Some(id) => id,
        };
        let ghost cols0 = self.columns@;
        let ghost flags0 = self.indexed@;
        let ghost old_name = col_name@;
        let ghost nn = new_column.name@;
        proof {
            lemma_index_position_facts(cols0, flags0, old_name);
        }
        // Unindex another column of the new name, if any.
        let other = self.find_indexed(new_column.name.as_str());
        proof {
            lemma_index_position_facts(cols0, flags0, nn);
        }
        match other {
            Some(j) => {
                if j != id {
                    self.indexed.set(j, false);
                    assert(self.indexed@ == flags0.update(j as int, false));
                }
            },
            None => {},
        }
        let ghost flags_mid = self.indexed@;
        assert(flags_mid.len() == flags0.len());
        assert forall|k: int|
            0 <= k < cols0.len() && flags_mid[k] implies flags0[k] && (cols0[k].name@ == nn ==> k
                == id as int || index_position(cols0, flags0, nn) != Some(k)) by {
            match other {
                Some(j) => {
                    if j != id {
                        assert(flags_mid == flags0.update(j as int, false));
                    }
                },
                None => {},
            }
        }
        self.columns.set(id, new_column);
        self.indexed.set(id, true);
        let ghost cols1 = self.columns@;
        let ghost flags1 = self.indexed@;
        proof {
            lemma_index_position_facts(cols0, flags0, nn);
            assert forall|k: int| 0 <= k < cols1.len() && k != id as int implies cols1[k]
                == cols0[k] && flags1[k] == flags_mid[k] by {}
            assert forall|k: int|
                0 <= k < cols1.len() && k != id as int && flags1[k] implies cols1[k].name@
                != nn by {
                if cols0[k].name@ == nn {
                    assert(flags0[k]);
                    lemma_index_position(cols0, flags0, k);
                }
            }
            assert forall|i: int, j: int|
                0 <= i < j < cols1.len() && flags1[i] && flags1[j] implies cols1[i].name@
                != cols1[j].name@ by {
                if i == id as int {
                } else if j == id as int {
                } else {
                    assert(flags0[i] && flags0[j]);
                }
            }
            lemma_index_position(cols1, flags1, id as int);
            assert forall|m: Seq<char>|
                index_position(cols1, flags1, m) == if m == nn {
                    Some(id as int)
                } else if m == old_name {
                    None
                } else {
                    index_position(cols0, flags0, m)
                } by {
                if m != nn {
                    lemma_index_position_facts(cols1, flags1, m);
                    lemma_index_position_facts(cols0, flags0, m);
                    if m == old_name {
                        if let Some(k) = index_position(cols1, flags1, m) {
                            assert(k != id as int);
                            assert(cols1[k] == cols0[k]);
                            assert(flags0[k]);
                        }
                    } else {
                        match index_position(cols0, flags0, m) {
                            Some(k) => {
                                assert(k != id as int);
                                assert(cols1[k] == cols0[k]);
                                assert(flags1[k]);
                                lemma_index_position(cols1, flags1, k);
                            },
                            None => {
                                if let Some(k) = index_position(cols1, flags1, m) {
                                    assert(k != id as int);
                                    assert(cols1[k] == cols0[k]);
                                    assert(flags0[k]);
                                }
                            },
                        }
                    }
                }
            }
            assert(index_map(cols1, flags1) =~= index_map(cols0, flags0).remove(old_name).insert(
                nn,
                id as int,
            ));
        }
    }

    /// The column that the name is indexed at.
    pub fn column(&self, name: &str) -> (r: Option<&TableColumn>)
        requires
            self.wf(),
        ensures
            match self.index().get(name@) {
                Some(i) => r == Some(&self.cols()[i]),
                None => r is None,
            },
    {
        let r = self.find_indexed(name);
        assert(self.index().contains_key(name@) == (index_position(self.columns@, self.indexed@, name@) is Some));
        match r {
            Some(i) => {
                assert(self.index()[name@] == i as int);
                Some(&self.columns[i])
            },
            None => None,
        }
    }

    /// The position that the name is indexed at.
    pub fn column_index(&self, name: &str) -> (r: Option<usize>)
        requires
            self.wf(),
        ensures
            match self.index().get(name@) {
                Some(i) => r == Some(i as usize),
                None => r is None,
            },
    {
        let r = self.find_indexed(name);
        assert(self.index().contains_key(name@) == (index_position(self.columns@, self.indexed@, name@) is Some));
        r
    }

    /// Whether the name is indexed.
    pub fn contains_column(&self, column_name: &str) -> (r: bool)
        requires
            self.wf(),
        ensures
            r == self.index().contains_key(column_name@),
    {
        let r = self.find_indexed(column_name);
        assert(self.index().contains_key(column_name@) == (index_position(self.columns@, self.indexed@, column_name@) is Some));
        r.is_some()
    }

    /// The name of the first column with the given id.
    pub fn column_name(&self, id: ColumnId) -> (r: Option<&str>)
        ensures
            match r {
                Some(s) => exists|i: int|
                    0 <= i < self.cols().len() && self.cols()[i].id == id && s@
                        == self.cols()[i].name@ && forall|k: int|
                        0 <= k < i ==> self.cols()[k].id != id,
                None => forall|i: int| 0 <= i < self.cols().len() ==> self.cols()[i].id != id,
            },
    {
        let n = self.columns.len();
        for i in 0..n
            invariant
                n == self.columns@.len(),
                forall|k: int| 0 <= k < i ==> self.columns@[k].id != id,
        {
            if self.columns[i].id == id {
                return Some(self.columns[i].name.as_str());
            }
        }
        None
    }

    /// The column at a position.
    pub fn column_by_index(&self, idx: usize) -> (r: Option<&TableColumn>)
        ensures
            if idx < self.cols().len() {
                r == Some(&self.cols()[idx as int])
            } else {
                r is None
            },
    {
        if idx < self.columns.len() {
            Some(&self.columns[idx])
        } else {
            None
        }
    }

    pub fn columns(&self) -> (r: &[TableColumn])
        ensures
            r@ == self.cols(),
    {
        self.columns.as_slice()
    }

    pub fn column_ids(&self) -> (r: Vec<ColumnId>)
        ensures
            r@ == self.cols().map_values(|c: TableColumn| c.id),
    {
        let n = self.columns.len();
        let mut r: Vec<ColumnId> = Vec::new();
        for i in 0..n
            invariant
                n == self.columns@.len(),
                r@ =~= self.columns@.take(i as int).map_values(|c: TableColumn| c.id),
        {
            r.push(self.columns[i].id);
            assert(self.columns@.take(i as int + 1) =~= self.columns@.take(i as int).push(
                self.columns@[i as int],
            ));
        }
        assert(self.columns@.take(n as int) =~= self.columns@);
        r
    }

    /// The field columns, in order.
    pub fn fields(&self) -> (r: Vec<TableColumn>)
        ensures
            r@ == self.cols().filter(|c: TableColumn| c.column_type is Field),
    {
        let n = self.columns.len();
        let mut r: Vec<TableColumn> = Vec::new();
        for i in 0..n
            invariant
                n == self.columns@.len(),
                r@ =~= self.columns@.take(i as int).filter(|c: TableColumn| c.column_type is Field),
        {
            reveal_with_fuel(Seq::<_>::filter, 1);
            assert(self.columns@.take(i as int + 1).drop_last() =~= self.columns@.take(i as int));
            if self.columns[i].column_type.is_field() {
                r.push(self.columns[i].copied());
            }
        }
        assert(self.columns@.take(n as int) =~= self.columns@);
        r
    }

    /// The number of field columns.
    pub fn field_num(&self) -> (r: usize)
        ensures
            r == self.cols().filter(|c: TableColumn| c.column_type is Field).len(),
    {
        let n = self.columns.len();
        let mut count: usize = 0;
        for i in 0..n
            invariant
                n == self.columns@.len(),
                count == self.columns@.take(i as int).filter(
                    |c: TableColumn| c.column_type is Field,
                ).len(),
                count <= i,
        {
            reveal_with_fuel(Seq::<_>::filter, 1);
            assert(self.columns@.take(i as int + 1).drop_last() =~= self.columns@.take(i as int));
            if self.columns[i].column_type.is_field() {
                count = count + 1;
            }
        }
        assert(self.columns@.take(n as int) =~= self.columns@);
        count
    }

    /// The number of tag columns.
    pub fn tag_num(&self) -> (r: usize)
        ensures
            r == self.cols().filter(|c: TableColumn| c.column_type is Tag).len(),
    {
        let n = self.columns.len();
        let mut count: usize = 0;
        for i in 0..n
            invariant
                n == self.columns@.len(),
                count == self.columns@.take(i as int).filter(
                    |c: TableColumn| c.column_type is Tag,
                ).len(),
                count <= i,
        {
            reveal_with_fuel(Seq::<_>::filter, 1);
            assert(self.columns@.take(i as int + 1).drop_last() =~= self.columns@.take(i as int));
            if self.columns[i].column_type.is_tag() {
                count = count + 1;
            }
        }
        assert(self.columns@.take(n as int) =~= self.columns@);
        count
    }

    /// The positions of the tag columns, ascending.
    pub fn tag_indices(&self) -> (r: Vec<usize>)
        ensures
            forall|k: int|
                0 <= k < r@.len() ==> 0 <= r@[k] < self.cols().len() && (#[trigger] self.cols()[r@[k] as int]).column_type is Tag,
            forall|k: int, l: int| 0 <= k < l < r@.len() ==> r@[k] < r@[l],
            forall|i: int|
                0 <= i < self.cols().len() && (#[trigger] self.cols()[i]).column_type is Tag ==> r@.contains(i as usize),
    {
        let n = self.columns.len();
        let mut r: Vec<usize> = Vec::new();
        for i in 0..n
            invariant
                n == self.columns@.len(),
                forall|k: int| 0 <= k < r@.len() ==> 0 <= #[trigger] r@[k] < i,
                forall|k: int|
                    0 <= k < r@.len() ==> (#[trigger] self.columns@[r@[k] as int]).column_type is Tag,
                forall|k: int, l: int| 0 <= k < l < r@.len() ==> r@[k] < r@[l],
                forall|j: int|
                    0 <= j < i && (#[trigger] self.columns@[j]).column_type is Tag ==> r@.contains(j as usize),
        {
            let ghost before = r@;
            if self.columns[i].column_type.is_tag() {
                r.push(i);
                assert(r@ == before.push(i));
            }
            assert forall|k: int, l: int| 0 <= k < l < r@.len() implies r@[k] < r@[l] by {
                if l == before.len() {
                    assert(r@[k] == before[k]);
                }
            }
            assert forall|j: int|
                0 <= j < i + 1 && (#[trigger] self.columns@[j]).column_type is Tag implies r@.contains(
                j as usize,
            ) by {
                if j == i {
                    assert(r@[r@.len() - 1] == i);
                } else {
                    assert(before.contains(j as usize));
                    let w = choose|w: int| 0 <= w < before.len() && before[w] == j as usize;
                    assert(r@[w] == before[w]);
                }
            }
        }
        r
    }

    /// The precision of the first time column; nanoseconds when it has none
    /// or there is no time column.
    pub fn time_column_precision(&self) -> (r: Precision)
        ensures
            match first_time_column(self.cols()) {
                Some(i) => r == match self.cols()[i].column_type.spec_precision() {
                    Some(p) => p,
                    None => Precision::NS,
                },
                None => r == Precision::NS,
            },
    {
        let n = self.columns.len();
        for i in 0..n
            invariant
                n == self.columns@.len(),
                forall|k: int| 0 <= k < i ==> !(self.columns@[k].column_type is Time),
        {
            if self.columns[i].column_type.is_time() {
                proof {
                    lemma_first_time_column(self.columns@, i as int);
                }
                return match self.columns[i].column_type.precision() {
                    Some(p) => p,
                    None => Precision::NS,
                };
            }
        }
        proof {
            lemma_no_time_column(self.columns@);
        }
        Precision::NS
    }

    /// The last time column; a table has one.
    pub fn time_column(&self) -> (r: TableColumn)
        requires
            exists|i: int| 0 <= i < self.cols().len() && (#[trigger] self.cols()[i]).column_type is Time,
        ensures
            exists|i: int|
                0 <= i < self.cols().len() && r == self.cols()[i] && r.column_type is Time
                    && forall|k: int|
                    i < k < self.cols().len() ==> !(#[trigger] self.cols()[k].column_type is Time),
    {
        let n = self.columns.len();
        let mut i = n;
        while i > 0
            invariant
                i <= n,
                n == self.columns@.len(),
                forall|k: int| i <= k < n ==> !(#[trigger] self.columns@[k].column_type is Time),
                exists|j: int| 0 <= j < n && (#[trigger] self.columns@[j]).column_type is Time,
            decreases i,
        {
            if self.columns[i - 1].column_type.is_time() {
                let c = self.columns[i - 1].copied();
                assert(c == self.cols()[i - 1]);
                return c;
            }
            i = i - 1;
        }
        proof {
            let j = choose|j: int| 0 <= j < n && (#[trigger] self.columns@[j]).column_type is Time;
            assert(!(self.columns@[j].column_type is Time));
        }
        self.columns[0].copied()
    }

    /// Each field column's id mapped to its rank among the field ids in
    /// ascending order (the last rank, where an id repeats).
    pub fn fields_id(&self) -> (r: HashMap<ColumnId, usize>)
        ensures
            exists|s: Seq<ColumnId>|
                sorted_u32(s) && s.to_multiset() == field_ids(self.cols()).to_multiset() && r@
                    == last_position_map(s),
    {
        broadcast use vstd::std_specs::hash::group_hash_axioms;

        let n = self.columns.len();
        let mut ans: Vec<ColumnId> = Vec::new();
        for i in 0..n
            invariant
                n == self.columns@.len(),
                ans@ == field_ids(self.columns@.take(i as int)),
        {
            reveal_with_fuel(Seq::<_>::filter, 1);
            assert(self.columns@.take(i as int + 1).drop_last() =~= self.columns@.take(i as int));
            if self.columns[i].column_type.is_field() {
                ans.push(self.columns[i].id);
            }
            assert(ans@ =~= field_ids(self.columns@.take(i as int + 1)));
        }
        assert(self.columns@.take(n as int) =~= self.columns@);
        let sorted = sort_u32(ans);
        let mut map: HashMap<ColumnId, usize> = HashMap::new();
        let m = sorted.len();
        assert(sorted@.take(0) =~= Seq::<ColumnId>::empty());
        assert(map@ =~= last_position_map(sorted@.take(0)));
        for k in 0..m
            invariant
                m == sorted@.len(),
                map@ == last_position_map(sorted@.take(k as int)),
        {
            map.insert(sorted[k], k);
            assert(sorted@.take(k as int + 1).drop_last() =~= sorted@.take(k as int));
        }
        assert(sorted@.take(m as int) =~= sorted@);
        map
    }

    /// The columns by id; where ids repeat, the later column.
    pub fn column_id_column_map(&self) -> (r: HashMap<ColumnId, &TableColumn>)
        ensures
            r@.dom() == id_column_map(self.cols()).dom(),
            forall|k: ColumnId| #[trigger] r@.contains_key(k) ==> *r@[k] == id_column_map(self.cols())[k],
    {
        broadcast use vstd::std_specs::hash::group_hash_axioms;

        let mut map: HashMap<ColumnId, &TableColumn> = HashMap::new();
        let n = self.columns.len();
        for i in 0..n
            invariant
                n == self.columns@.len(),
                map@.dom() == id_column_map(self.columns@.take(i as int)).dom(),
                forall|k: ColumnId| #[trigger] map@.contains_key(k) ==> *map@[k] == id_column_map(
                    self.columns@.take(i as int),
                )[k],
        {
            let c = &self.columns[i];
            map.insert(c.id, c);
            assert(self.columns@.take(i as int + 1).drop_last() =~= self.columns@.take(i as int));
            assert(map@.dom() =~= id_column_map(self.columns@.take(i as int + 1)).dom());
        }
        assert(self.columns@.take(n as int) =~= self.columns@);
        map
    }

    pub fn next_column_id(&self) -> (r: ColumnId)
        ensures
            r == self.next_id(),
    {
        self.next_column_id
    }
}

/// The columns by id; where ids repeat, the later column.
pub open spec fn id_column_map(cols: Seq<TableColumn>) -> Map<ColumnId, TableColumn>
    decreases cols.len(),
{
    if cols.len() == 0 {
        Map::empty()
    } else {
        id_column_map(cols.drop_last()).insert(cols.last().id, cols.last())
    }
}

/// The ids of the field columns, in order.
pub open spec fn field_ids(cols: Seq<TableColumn>) -> Seq<ColumnId> {
    cols.filter(|c: TableColumn| c.column_type is Field).map_values(|c: TableColumn| c.id)
}

/// Each value mapped to the last position it holds.
pub open spec fn last_position_map(s: Seq<ColumnId>) -> Map<ColumnId, usize>
    decreases s.len(),
{
    if s.len() == 0 {
        Map::empty()
    } else {
        last_position_map(s.drop_last()).insert(s.last(), (s.len() - 1) as usize)
    }
}

/// The position of the first time column.
pub open spec fn first_time_column(cols: Seq<TableColumn>) -> Option<int> {
    if exists|i: int| 0 <= i < cols.len() && cols[i].column_type is Time {
        Some(
            choose|i: int|
                0 <= i < cols.len() && cols[i].column_type is Time && forall|k: int|
                    0 <= k < i ==> !(cols[k].column_type is Time),
        )
    } else {
        None
    }
}

proof fn lemma_first_time_column(cols: Seq<TableColumn>, i: int)
    requires
        0 <= i < cols.len(),
        cols[i].column_type is Time,
        forall|k: int| 0 <= k < i ==> !(cols[k].column_type is Time),
    ensures
        first_time_column(cols) == Some(i),
{
    let w = choose|w: int|
        0 <= w < cols.len() && cols[w].column_type is Time && forall|k: int|
            0 <= k < w ==> !(cols[k].column_type is Time);
    assert(w == i) by {
        if w < i {
        } else if w > i {
        }
    }
}

proof fn lemma_no_time_column(cols: Seq<TableColumn>)
    requires
        forall|k: int| 0 <= k < cols.len() ==> !(cols[k].column_type is Time),
    ensures
        first_time_column(cols) is None,
{
}

/// Whether a field is named like the time column.
pub fn is_time_column(field_name: &str) -> (r: bool)
    ensures
        r == (field_name@ == TIME_FIELD_NAME@),
{
    str_eq(TIME_FIELD_NAME, field_name)
}

/// The name of the default tenant.
pub const DEFAULT_CATALOG: &'static str = "cnosdb";

/// The name of the default database.
pub const DEFAULT_DATABASE: &'static str = "public";

impl Default for TskvTableSchema {
    /// An empty template table of the default tenant and database.
    fn default() -> (r: Self)
        ensures
            r.wf(),
            r.tenant@ == DEFAULT_CATALOG@,
            r.db@ == DEFAULT_DATABASE@,
            r.name@ == "template"@,
            r.schema_version == 0,
            r.next_id() == 0,
            r.cols().len() == 0,
            r.index() == Map::<Seq<char>, int>::empty(),
    {
        let r = TskvTableSchema::new(
            DEFAULT_CATALOG.to_owned(),
            DEFAULT_DATABASE.to_owned(),
            "template".to_owned(),
            Vec::new(),
        );
        assert(r.index() =~= Map::<Seq<char>, int>::empty());
        r
    }
}

/// A column added under a new name is what a lookup by that name gives
/// back, and a lookup by any other name gives what it gave before.
pub proof fn lemma_add_then_lookup(before: TskvTableSchema, after: TskvTableSchema, col: TableColumn)
    requires
        before.wf(),
        !before.index().contains_key(col.name@),
        after.cols() == before.cols().push(col),
        after.index() == before.index().insert(col.name@, before.cols().len() as int),
    ensures
        after.index().get(col.name@) matches Some(i) && after.cols()[i] == col,
        forall|n: Seq<char>|
            n != col.name@ ==> match #[trigger] after.index().get(n) {
                Some(i) => before.index().get(n) == Some(i) && after.cols()[i] == before.cols()[i],
                None => before.index().get(n) is None,
            },
{
    before.lemma_index_sound();
    assert forall|n: Seq<char>|
        n != col.name@ implies match #[trigger] after.index().get(n) {
            Some(i) => before.index().get(n) == Some(i) && after.cols()[i] == before.cols()[i],
            None => before.index().get(n) is None,
        } by {
        if before.index().contains_key(n) {
            assert(before.index()[n] < before.cols().len());
        }
    }
}

/// Where column names are distinct and each is indexed at its column,
/// adding a column keeps it so (appending the column unless its name is
/// taken), and the column's name then finds a column of that name.
pub proof fn lemma_add_column_keeps_names_indexed(
    before: TskvTableSchema,
    after: TskvTableSchema,
    col: TableColumn,
)
    requires
        before.wf(),
        before.names_indexed(),
        if before.index().contains_key(col.name@) {
            after.cols() == before.cols() && after.index() == before.index()
        } else {
            &&& after.cols() == before.cols().push(col)
            &&& after.index() == before.index().insert(col.name@, before.cols().len() as int)
        },
    ensures
        after.names_indexed(),
        after.index().contains_key(col.name@),
        after.cols()[after.index()[col.name@]].name@ == col.name@,
        before.index().contains_key(col.name@) ==> after.cols() == before.cols(),
        !before.index().contains_key(col.name@) ==> after.cols() == before.cols().push(col),
{
    before.lemma_index_sound();
    if !before.index().contains_key(col.name@) {
        let n = before.cols().len() as int;
        assert forall|i: int| 0 <= i < n implies #[trigger] before.cols()[i].name@ != col.name@ by {
            assert(before.index().contains_key(before.cols()[i].name@));
        }
        assert forall|i: int, j: int|
            0 <= i < j < after.cols().len() implies #[trigger] after.cols()[i].name@
            != #[trigger] after.cols()[j].name@ by {
            if j == n {
                assert(after.cols()[i] == before.cols()[i]);
                assert(before.cols()[i].name@ != col.name@);
            } else {
                assert(after.cols()[i] == before.cols()[i]);
                assert(after.cols()[j] == before.cols()[j]);
            }
        }
        assert forall|i: int| 0 <= i < after.cols().len() implies #[trigger] after.index().contains_key(
            after.cols()[i].name@,
        ) && after.index()[after.cols()[i].name@] == i by {
            if i < n {
                assert(after.cols()[i] == before.cols()[i]);
                assert(before.index().contains_key(before.cols()[i].name@));
                assert(before.cols()[i].name@ != col.name@);
            }
        }
    } else {
        assert(before.index()[col.name@] < before.cols().len());
    }
}

} // verus!
