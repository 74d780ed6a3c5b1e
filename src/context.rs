//! A query context that holds its tenant's tables in memory.

use vstd::prelude::*;

use crate::lower::QueryContext;
use crate::meta::{columns_view, TableColumn, TableColumnView};

verus! {

/// The tables of one tenant, held in memory: a name and its columns each.
pub struct StaticQueryContext {
    pub tenant_id: String,
    pub tables: Vec<(String, Vec<TableColumn>)>,
}

/// The columns of the first table named `name`.
pub open spec fn find_table(tables: Seq<(String, Vec<TableColumn>)>, name: Seq<char>) -> Option<
    Seq<TableColumnView>,
>
    decreases tables.len(),
{
    if tables.len() == 0 {
        None
    } else if tables[0].0@ == name {
        Some(columns_view(tables[0].1@))
    } else {
        find_table(tables.drop_first(), name)
    }
}

fn copy_columns(columns: &Vec<TableColumn>) -> (r: Vec<TableColumn>)
    ensures
        columns_view(r@) == columns_view(columns@),
{
    let mut r: Vec<TableColumn> = Vec::new();
    let mut i: usize = 0;
    while i < columns.len()
        invariant
            i <= columns@.len(),
            columns_view(r@) == columns_view(columns@).take(i as int),
        decreases columns@.len() - i,
    {
        let ghost before = columns_view(r@);
        r.push(TableColumn { name: columns[i].name.clone(), column_type: columns[i].column_type });
        assert(columns_view(r@) =~= columns_view(columns@).take(i + 1)) by {
            assert(columns_view(r@) =~= before.push(r@.last()@));
        }
        i = i + 1;
    }
    assert(columns_view(columns@).take(columns@.len() as int) =~= columns_view(columns@));
    r
}

impl StaticQueryContext {
    /// A context for `tenant_id` with no tables yet.
    pub fn new(tenant_id: &str) -> (r: Self)
        ensures
            r.tenant_id@ == tenant_id@,
            r.tables@.len() == 0,
    {
        StaticQueryContext { tenant_id: tenant_id.to_owned(), tables: Vec::new() }
    }

    /// Registers a table after the ones already known.
    pub fn add_table(&mut self, name: &str, columns: Vec<TableColumn>)
        ensures
            final(self).tenant_id == old(self).tenant_id,
            final(self).tables@.len() == old(self).tables@.len() + 1,
            forall|i: int| 0 <= i < old(self).tables@.len() ==> #[trigger] final(self).tables@[i] == old(self).tables@[i],
            final(self).tables@.last().0@ == name@,
            final(self).tables@.last().1@ == columns@,
    {
        self.tables.push((name.to_owned(), columns));
    }
}

impl QueryContext for StaticQueryContext {
    open spec fn tenant(&self) -> Seq<char> {
        self.tenant_id@
    }

    open spec fn table_schema(&self, name: Seq<char>) -> Option<Seq<TableColumnView>> {
        find_table(self.tables@, name)
    }

    fn get_tenant_id(&self) -> (r: &str) {
        self.tenant_id.as_str()
    }

    fn resolve_table(&self, name: &str) -> (r: Option<Vec<TableColumn>>) {
        let wanted = name.to_owned();
        let ghost all = self.tables@;
        let mut i: usize = 0;
        assert(all.skip(0) =~= all);
        while i < self.tables.len()
            invariant
                all == self.tables@,
                wanted@ == name@,
                i <= all.len(),
                find_table(all, name@) == find_table(all.skip(i as int), name@),
            decreases all.len() - i,
        {
            assert(all.skip(i as int).drop_first() =~= all.skip(i + 1));
            if self.tables[i].0 == wanted {
                return Some(copy_columns(&self.tables[i].1));
            }
            i = i + 1;
        }
        None
    }
}

} // verus!
