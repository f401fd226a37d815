use crate::state::{CheckState, StorageLayout};
use std::collections::HashMap;
use vstd::prelude::*;
use vstd::std_specs::hash::group_hash_axioms;

verus! {

broadcast use group_hash_axioms;

/// The per-batch cache of a filter: a handle to the rows of the current table
/// for a dense component, or to the component's entity map for a sparse one.
///
/// At most one handle is set, and which one is decided by `layout` alone: the
/// sparse map is bound once by [`CheckFetch::init_fetch`], the table column
/// by [`CheckFetch::set_table`] each time the query enters a new table.
pub struct CheckFetch<'w, T> {
    layout: StorageLayout,
    table_components: Option<&'w [T]>,
    sparse_set: Option<&'w HashMap<u64, T>>,
}

impl<'w, T> Clone for CheckFetch<'w, T> {
    fn clone(&self) -> (r: Self)
        ensures
            r == *self,
    {
        CheckFetch {
            layout: self.layout,
            table_components: self.table_components,
            sparse_set: self.sparse_set,
        }
    }
}

impl<'w, T> CheckFetch<'w, T> {
    pub closed spec fn spec_layout(&self) -> StorageLayout {
        self.layout
    }

    /// The rows of the bound table column, if one is bound.
    pub closed spec fn table_rows(&self) -> Option<Seq<T>> {
        match self.table_components {
            Some(s) => Some(s@),
            None => None,
        }
    }

    /// The bound sparse map from entity to value, if any.
    pub closed spec fn sparse_values(&self) -> Option<Map<u64, T>> {
        match self.sparse_set {
            Some(m) => Some(m@),
            None => None,
        }
    }

    /// A dense fetch never holds a sparse map, and a sparse fetch holds its
    /// map and never a table column.
    pub open spec fn wf(&self) -> bool {
        match self.spec_layout() {
            StorageLayout::Dense => self.sparse_values() is None,
            StorageLayout::Sparse => self.sparse_values() is Some && self.table_rows() is None,
        }
    }

    /// Whether the row at `table_row`, owned by `entity`, can be tested: its
    /// value is present in the handle that the layout selects.
    pub open spec fn can_test(&self, entity: u64, table_row: usize) -> bool {
        match self.spec_layout() {
            StorageLayout::Dense => match self.table_rows() {
                Some(rows) => table_row < rows.len(),
                None => false,
            },
            StorageLayout::Sparse => match self.sparse_values() {
                Some(m) => m.contains_key(entity),
                None => false,
            },
        }
    }

    /// The value that a test of that row reads: by position for a dense
    /// component, by entity for a sparse one.
    pub open spec fn value_at(&self, entity: u64, table_row: usize) -> T
        recommends
            self.can_test(entity, table_row),
    {
        match self.spec_layout() {
            StorageLayout::Dense => self.table_rows().unwrap()[table_row as int],
            StorageLayout::Sparse => self.sparse_values().unwrap()[entity],
        }
    }

    /// A fetch for one run of a query. A sparse component binds its map here
    /// and keeps it for the whole run; a dense one waits for a table.
    pub fn init_fetch(state: &CheckState, sparse_set: Option<&'w HashMap<u64, T>>) -> (r: Self)
        requires
            state.layout == StorageLayout::Sparse ==> sparse_set is Some,
        ensures
            r.wf(),
            r.spec_layout() == state.layout,
            r.table_rows() is None,
            state.layout == StorageLayout::Sparse ==> r.sparse_values() == Some(
                sparse_set.unwrap()@,
            ),
    {
        let sparse = match state.layout {
            StorageLayout::Sparse => sparse_set,
            StorageLayout::Dense => None,
        };
        CheckFetch { layout: state.layout, table_components: None, sparse_set: sparse }
    }

    /// The same fetch under a shorter borrow; nothing is copied or rebound.
    pub fn shrink_fetch<'s>(fetch: CheckFetch<'w, T>) -> (r: CheckFetch<'s, T>) where 'w: 's
        ensures
            r.spec_layout() == fetch.spec_layout(),
            r.table_rows() == fetch.table_rows(),
            r.sparse_values() == fetch.sparse_values(),
    {
        fetch
    }

    /// Binds the column of the component in the table that the query enters.
    /// `column` holds one value per entity of the table, in row order.
    pub fn set_table(&mut self, state: &CheckState, column: &'w [T])
        requires
            old(self).wf(),
            old(self).spec_layout() == state.layout,
            state.layout == StorageLayout::Dense,
        ensures
            final(self).wf(),
            final(self).spec_layout() == old(self).spec_layout(),
            final(self).table_rows() == Some(column@),
            final(self).sparse_values() == old(self).sparse_values(),
    {
        self.table_components = Some(column);
    }

    /// Entering an archetype: a dense component binds the archetype's table
    /// column; a sparse one keeps its map and ignores the table.
    pub fn set_archetype(&mut self, state: &CheckState, column: &'w [T])
        requires
            old(self).wf(),
            old(self).spec_layout() == state.layout,
        ensures
            final(self).wf(),
            final(self).spec_layout() == old(self).spec_layout(),
            final(self).sparse_values() == old(self).sparse_values(),
            final(self).table_rows() == (match state.layout {
                StorageLayout::Dense => Some(column@),
                StorageLayout::Sparse => old(self).table_rows(),
            }),
    {
        if state.layout == StorageLayout::Dense {
            self.set_table(state, column);
        }
    }

    /// Tests one row: reads the component value of the row through the handle
    /// that the layout selects and returns what `pred` says of it. The fetch
    /// is left as it was.
    pub fn filter_fetch<F: Fn(&T) -> bool>(
        &mut self,
        entity: u64,
        table_row: usize,
        pred: &F,
    ) -> (r: bool)
        requires
            old(self).wf(),
            old(self).can_test(entity, table_row),
            pred.requires((&old(self).value_at(entity, table_row),)),
        ensures
            *final(self) == *old(self),
            pred.ensures((&old(self).value_at(entity, table_row),), r),
    {
        let item: &T = match self.layout {
            StorageLayout::Dense => {
                let rows = self.table_components.unwrap();
                &rows[table_row]
            },
            StorageLayout::Sparse => {
                let map = self.sparse_set.unwrap();
                map.get(&entity).unwrap()
            },
        };
        pred(item)
    }
}

/// A predicate that gives one answer for each value.
pub open spec fn deterministic<T, F: Fn(&T) -> bool>(pred: F) -> bool {
    forall|v: T, a: bool, b: bool|
        #[trigger] pred.ensures((&v,), a) && #[trigger] pred.ensures((&v,), b) ==> a == b
}

/// A dense fetch bound to `column` tests the row at `table_row` on the value
/// in that row of the column, whichever entity the row belongs to.
pub proof fn law_dense_reads_row<'w, T>(
    fetch: CheckFetch<'w, T>,
    column: Seq<T>,
    entity: u64,
    table_row: usize,
)
    requires
        fetch.wf(),
        fetch.spec_layout() == StorageLayout::Dense,
        fetch.table_rows() == Some(column),
        table_row < column.len(),
    ensures
        fetch.can_test(entity, table_row),
        fetch.value_at(entity, table_row) == column[table_row as int],
{
}

/// A sparse fetch bound to the map `values` tests the row of `entity` on the
/// value that the map holds for that entity, whatever the row's position.
pub proof fn law_sparse_reads_entity<'w, T>(
    fetch: CheckFetch<'w, T>,
    values: Map<u64, T>,
    entity: u64,
    table_row: usize,
)
    requires
        fetch.wf(),
        fetch.spec_layout() == StorageLayout::Sparse,
        fetch.sparse_values() == Some(values),
        values.contains_key(entity),
    ensures
        fetch.can_test(entity, table_row),
        fetch.value_at(entity, table_row) == values[entity],
{
}

/// A dense fetch holds no sparse map, and a sparse fetch no table column, so
/// a test never reads through the handle of the other layout.
pub proof fn law_layout_exclusive<'w, T>(fetch: CheckFetch<'w, T>)
    requires
        fetch.wf(),
    ensures
        fetch.spec_layout() == StorageLayout::Dense ==> fetch.sparse_values() is None,
        fetch.spec_layout() == StorageLayout::Sparse ==> fetch.table_rows() is None,
{
}

/// Tests keep no state: with a deterministic predicate, any two tests of the
/// same row through the same fetch agree, whatever rows were tested before
/// or between them (a test leaves the fetch as it was).
pub proof fn law_rows_stateless<'w, T, F: Fn(&T) -> bool>(
    fetch: CheckFetch<'w, T>,
    pred: F,
    entity: u64,
    table_row: usize,
    first: bool,
    second: bool,
)
    requires
        deterministic(pred),
        pred.ensures((&fetch.value_at(entity, table_row),), first),
        pred.ensures((&fetch.value_at(entity, table_row),), second),
    ensures
        first == second,
{
}

} // verus!
