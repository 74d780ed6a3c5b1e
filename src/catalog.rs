//! The catalog that query planning reads: tenant, then table, then scan.
//!
//! A schema provider answers for one tenant and builds table providers from
//! the columns that the metadata service reports; a table provider plans a
//! scan from the partitions that the service lists. The calls to the service
//! are made by the caller, which hands the answers in.

use vstd::prelude::*;

use crate::common::{decode_column_type, ColumnType, PartitionView, Partition};
use crate::config::{bucket_url, S3Config};
use crate::meta::{
    columns_view, partitions_view, GetTablePartitionsRequest, GetTableSchemaRequest,
    GetTableSchemaResponse, TableColumn, TableColumnView,
};

verus! {

/// The execution engine's types for column values.
#[derive(Clone, Copy, Debug, PartialEq, Eq, Structural)]
pub enum DataType {
    Int16,
    Int32,
    UInt16,
    Int64,
    Utf8,
    /// Timestamps in milliseconds, with no time zone.
    TimestampMillisecond,
    Binary,
}

/// A column of a table as the execution engine sees it.
#[derive(Clone, Debug)]
pub struct Field {
    pub name: String,
    pub data_type: DataType,
    pub nullable: bool,
}

pub struct FieldView {
    pub name: Seq<char>,
    pub data_type: DataType,
    pub nullable: bool,
}

impl View for Field {
    type V = FieldView;

    open spec fn view(&self) -> FieldView {
        FieldView { name: self.name@, data_type: self.data_type, nullable: self.nullable }
    }
}

pub open spec fn fields_view(f: Seq<Field>) -> Seq<FieldView> {
    f.map_values(|x: Field| x@)
}

/// The engine type of each column type; `Unspecified` has none.
pub open spec fn native_type(t: ColumnType) -> Option<DataType> {
    match t {
        ColumnType::Unspecified => None,
        ColumnType::Int64 => Some(DataType::Int64),
        ColumnType::Utf8 => Some(DataType::Utf8),
        ColumnType::Timestamp => Some(DataType::TimestampMillisecond),
        ColumnType::Int16 => Some(DataType::Int16),
        ColumnType::Int32 => Some(DataType::Int32),
        ColumnType::Uint16 => Some(DataType::UInt16),
        ColumnType::Binary => Some(DataType::Binary),
    }
}

/// Whether every column has a type that the engine can read.
pub open spec fn schema_supported(columns: Seq<TableColumnView>) -> bool {
    forall|i: int|
        0 <= i < columns.len() ==> native_type(decode_column_type(#[trigger] columns[i].column_type))
            is Some
}

/// The engine's view of a table with the given columns: same names, same
/// order, every field nullable.
pub open spec fn schema_fields(columns: Seq<TableColumnView>) -> Seq<FieldView> {
    columns.map_values(
        |c: TableColumnView|
            FieldView {
                name: c.name,
                data_type: native_type(decode_column_type(c.column_type))->Some_0,
                nullable: true,
            },
    )
}

/// The engine type of a column type. There is none for `Unspecified`, which
/// a registered schema never holds.
pub fn column_type_to_datafusion(ty: ColumnType) -> (r: DataType)
    requires
        ty != ColumnType::Unspecified,
    ensures
        native_type(ty) == Some(r),
{
    match ty {
        ColumnType::Int64 => DataType::Int64,
        ColumnType::Utf8 => DataType::Utf8,
        ColumnType::Timestamp => DataType::TimestampMillisecond,
        ColumnType::Int16 => DataType::Int16,
        ColumnType::Int32 => DataType::Int32,
        ColumnType::Uint16 => DataType::UInt16,
        ColumnType::Binary => DataType::Binary,
        ColumnType::Unspecified => vstd::pervasive::unreached(),
    }
}

/// Whether every column of a reported schema has a type that the engine
/// can read.
pub fn schema_is_supported(columns: &Vec<TableColumn>) -> (r: bool)
    ensures
        r == schema_supported(columns_view(columns@)),
{
    let mut i: usize = 0;
    while i < columns.len()
        invariant
            i <= columns@.len(),
            forall|j: int|
                0 <= j < i ==> native_type(decode_column_type(#[trigger] columns@[j].column_type)) is Some,
        decreases columns@.len() - i,
    {
        if columns[i].get_type() == ColumnType::Unspecified {
            assert(columns_view(columns@)[i as int].column_type == columns@[i as int].column_type);
            return false;
        }
        i = i + 1;
    }
    assert forall|j: int| 0 <= j < columns_view(columns@).len() implies native_type(
        decode_column_type(#[trigger] columns_view(columns@)[j].column_type),
    ) is Some by {
        assert(columns_view(columns@)[j].column_type == columns@[j].column_type);
    }
    true
}

/// The engine's schema of a table with the given columns.
pub fn build_schema(columns: &Vec<TableColumn>) -> (r: Vec<Field>)
    requires
        schema_supported(columns_view(columns@)),
    ensures
        fields_view(r@) == schema_fields(columns_view(columns@)),
{
    let ghost cv = columns_view(columns@);
    let mut fields: Vec<Field> = Vec::new();
    let mut i: usize = 0;
    while i < columns.len()
        invariant
            cv == columns_view(columns@),
            schema_supported(cv),
            i <= columns@.len(),
            fields_view(fields@) == schema_fields(cv).take(i as int),
        decreases columns@.len() - i,
    {
        assert(cv[i as int].column_type == columns@[i as int].column_type);
        let data_type = column_type_to_datafusion(columns[i].get_type());
        let ghost before = fields_view(fields@);
        fields.push(Field { name: columns[i].name.clone(), data_type, nullable: true });
        assert(fields_view(fields@) =~= schema_fields(cv).take(i + 1)) by {
            assert(fields_view(fields@) =~= before.push(fields@.last()@));
        }
        i = i + 1;
    }
    assert(schema_fields(cv).take(columns@.len() as int) =~= schema_fields(cv));
    fields
}

fn copy_fields(fields: &Vec<Field>) -> (r: Vec<Field>)
    ensures
        fields_view(r@) == fields_view(fields@),
{
    let mut r: Vec<Field> = Vec::new();
    let mut i: usize = 0;
    while i < fields.len()
        invariant
            i <= fields@.len(),
            fields_view(r@) == fields_view(fields@).take(i as int),
        decreases fields@.len() - i,
    {
        let f = &fields[i];
        let ghost before = fields_view(r@);
        r.push(Field { name: f.name.clone(), data_type: f.data_type, nullable: f.nullable });
        assert(fields_view(r@) =~= fields_view(fields@).take(i + 1)) by {
            assert(fields_view(r@) =~= before.push(r@.last()@));
        }
        i = i + 1;
    }
    assert(fields_view(fields@).take(fields@.len() as int) =~= fields_view(fields@));
    r
}

/// The root of the catalog. Every tenant has a schema: tenants are not
/// registered here, and access control happens elsewhere.
pub struct PrismCatalogProvider {
    s3_config: S3Config,
}

/// The tables of one tenant.
pub struct PrismSchemaProvider {
    tenant: String,
    s3_config: S3Config,
}

/// One table of one tenant, with its resolved schema.
pub struct PrismTableProvider {
    schema: Vec<Field>,
    tenant: String,
    table: String,
    s3_config: S3Config,
}

pub struct SchemaProviderView {
    pub tenant: Seq<char>,
    pub bucket: Seq<char>,
}

pub struct TableProviderView {
    pub schema: Seq<FieldView>,
    pub tenant: Seq<char>,
    pub table: Seq<char>,
    pub bucket: Seq<char>,
}

impl View for PrismCatalogProvider {
    type V = Seq<char>;

    /// The bucket that holds the data.
    closed spec fn view(&self) -> Seq<char> {
        self.s3_config.bucket_name@
    }
}

impl View for PrismSchemaProvider {
    type V = SchemaProviderView;

    closed spec fn view(&self) -> SchemaProviderView {
        SchemaProviderView { tenant: self.tenant@, bucket: self.s3_config.bucket_name@ }
    }
}

impl View for PrismTableProvider {
    type V = TableProviderView;

    closed spec fn view(&self) -> TableProviderView {
        TableProviderView {
            schema: fields_view(self.schema@),
            tenant: self.tenant@,
            table: self.table@,
            bucket: self.s3_config.bucket_name@,
        }
    }
}

impl PrismCatalogProvider {
    pub fn new(s3_config: S3Config) -> (r: PrismCatalogProvider)
        ensures
            r@ == s3_config.bucket_name@,
    {
        PrismCatalogProvider { s3_config }
    }

    /// The schema of tenant `name`; there always is one.
    pub fn schema(&self, name: &str) -> (r: Option<PrismSchemaProvider>)
        ensures
            r matches Some(s) && s@ == (SchemaProviderView { tenant: name@, bucket: self@ }),
    {
        Some(PrismSchemaProvider::new(name.to_owned(), self.s3_config.copied()))
    }
}

impl PrismSchemaProvider {
    pub fn new(tenant: String, s3_config: S3Config) -> (r: PrismSchemaProvider)
        ensures
            r@ == (SchemaProviderView { tenant: tenant@, bucket: s3_config.bucket_name@ }),
    {
        PrismSchemaProvider { tenant, s3_config }
    }

    /// The request for the schema of this tenant's table `name`.
    pub fn schema_request(&self, name: &str) -> (r: GetTableSchemaRequest)
        ensures
            r.tenant_id@ == self@.tenant,
            r.table_name@ == name@,
    {
        GetTableSchemaRequest { tenant_id: self.tenant.clone(), table_name: name.to_owned() }
    }

    /// The provider of table `name`, given what the metadata service
    /// answered to [`Self::schema_request`]; none when the service gave no
    /// answer, so an unreachable service reads as a missing table.
    pub fn table(&self, name: &str, response: Option<GetTableSchemaResponse>) -> (r: Option<
        PrismTableProvider,
    >)
        requires
            response matches Some(resp) ==> schema_supported(columns_view(resp.columns@)),
        ensures
            response is None <==> r is None,
            response matches Some(resp) ==> (r matches Some(t) && t@ == (TableProviderView {
                schema: schema_fields(columns_view(resp.columns@)),
                tenant: self@.tenant,
                table: name@,
                bucket: self@.bucket,
            })),
    {
        match response {
            None => None,
            Some(resp) => {
                let schema = build_schema(&resp.columns);
                Some(PrismTableProvider::new(schema, self.tenant.as_str(), name, self.s3_config.copied()))
            },
        }
    }
}

/// One file to read, as the scan sees it: where it lies and how large it is.
#[derive(Clone, Debug, PartialEq)]
pub struct FileGroup {
    /// Object key, relative to the bucket root.
    pub location: String,
    /// Size in bytes.
    pub size: i64,
}

/// A conjunction of filters, folded from the left onto `true`.
#[derive(Debug)]
pub enum Predicate<F> {
    Literal(bool),
    And(Box<Predicate<F>>, F),
}

/// Whether a row passes `p`, where `row(f)` says whether it passes filter `f`.
pub open spec fn holds<F>(p: Predicate<F>, row: spec_fn(F) -> bool) -> bool
    decreases p,
{
    match p {
        Predicate::Literal(b) => b,
        Predicate::And(rest, f) => holds(*rest, row) && row(f),
    }
}

/// The filters folded into one predicate from the left, starting from the
/// literal `true`.
pub open spec fn conjunction<F>(filters: Seq<F>) -> Predicate<F>
    decreases filters.len(),
{
    if filters.len() == 0 {
        Predicate::Literal(true)
    } else {
        Predicate::And(Box::new(conjunction(filters.drop_last())), filters.last())
    }
}

/// What a scan reads: the files under a bucket URL, with their schema, the
/// predicate pushed down to the reader, the columns kept and a row limit.
pub struct ScanDescriptor<F> {
    pub object_store_url: String,
    pub file_schema: Vec<Field>,
    pub file_groups: Vec<FileGroup>,
    pub predicate: Predicate<F>,
    pub projection: Option<Vec<usize>>,
    pub limit: Option<usize>,
}

/// The file group of a partition: its name and size, copied verbatim.
pub open spec fn file_group_of(p: PartitionView, g: FileGroup) -> bool {
    g.location@ == p.name && g.size == p.size
}

/// A scan with no filter keeps every row, and one with filters keeps the
/// rows that pass each of them.
pub proof fn lemma_pushdown_identity<F>(filters: Seq<F>, row: spec_fn(F) -> bool)
    ensures
        conjunction(Seq::<F>::empty()) == Predicate::<F>::Literal(true),
        holds(conjunction(filters), row) <==> forall|i: int| 0 <= i < filters.len() ==> row(#[trigger] filters[i]),
    decreases filters.len(),
{
    if filters.len() > 0 {
        let init = filters.drop_last();
        lemma_pushdown_identity(init, row);
        if holds(conjunction(filters), row) {
            assert forall|i: int| 0 <= i < filters.len() implies row(#[trigger] filters[i]) by {
                if i < filters.len() - 1 {
                    assert(filters[i] == init[i]);
                }
            }
        }
        if forall|i: int| 0 <= i < filters.len() ==> row(#[trigger] filters[i]) {
            assert forall|i: int| 0 <= i < init.len() implies row(#[trigger] init[i]) by {
                assert(filters[i] == init[i]);
            }
        }
    }
}

/// Folds the filters into one predicate, keeping their order.
fn combine_filters<F>(filters: Vec<F>) -> (r: Predicate<F>)
    ensures
        r == conjunction(filters@),
{
    let ghost all = filters@;
    let n = filters.len();
    let mut rest = filters;
    let mut acc: Predicate<F> = Predicate::Literal(true);
    let mut k: usize = 0;
    assert(all.take(0) =~= Seq::<F>::empty());
    while rest.len() > 0
        invariant
            k + rest@.len() == all.len(),
            all.len() == n,
            rest@ == all.skip(k as int),
            acc == conjunction(all.take(k as int)),
        decreases rest@.len(),
    {
        let f = rest.remove(0);
        assert(all.take(k + 1).drop_last() =~= all.take(k as int));
        assert(f == all[k as int]);
        acc = Predicate::And(Box::new(acc), f);
        k = k + 1;
        assert(rest@ =~= all.skip(k as int));
    }
    assert(all.take(k as int) =~= all);
    acc
}

/// The tenant and table whose partitions a table provider asks for.
pub open spec fn partitions_target(t: TableProviderView) -> (Seq<char>, Seq<char>) {
    (t.tenant, t.table)
}

/// Table providers of distinct tenants ask for the partitions of distinct
/// tables, even where the table names are equal: a lookup under one tenant
/// never lists another tenant's partitions.
pub proof fn lemma_partition_requests_isolated(a: TableProviderView, b: TableProviderView)
    requires
        a.tenant != b.tenant,
    ensures
        partitions_target(a) != partitions_target(b),
        partitions_target(a).0 == a.tenant,
        partitions_target(b).0 == b.tenant,
{
}

impl PrismTableProvider {
    pub fn new(schema: Vec<Field>, tenant: &str, table: &str, s3_config: S3Config) -> (r: Self)
        ensures
            r@ == (TableProviderView {
                schema: fields_view(schema@),
                tenant: tenant@,
                table: table@,
                bucket: s3_config.bucket_name@,
            }),
    {
        PrismTableProvider { schema, tenant: tenant.to_owned(), table: table.to_owned(), s3_config }
    }

    /// The resolved schema of the table.
    pub fn schema(&self) -> (r: &Vec<Field>)
        ensures
            fields_view(r@) == self@.schema,
    {
        &self.schema
    }

    /// The request for every partition of this tenant's table.
    pub fn partitions_request(&self) -> (r: GetTablePartitionsRequest)
        ensures
            (r.tenant_id@, r.table_name@) == partitions_target(self@),
            r.time_range is None,
    {
        GetTablePartitionsRequest {
            tenant_id: self.tenant.clone(),
            table_name: self.table.clone(),
            time_range: None,
        }
    }

    /// Plans a scan of the partitions that the metadata service listed in
    /// answer to [`Self::partitions_request`]: one file group per partition,
    /// in the order given, under the bucket's URL, with the filters pushed
    /// down as one conjunction.
    pub fn scan<F>(
        &self,
        partitions: &Vec<Partition>,
        projection: Option<Vec<usize>>,
        filters: Vec<F>,
        limit: Option<usize>,
    ) -> (r: ScanDescriptor<F>)
        ensures
            r.object_store_url@ == bucket_url(self@.bucket),
            fields_view(r.file_schema@) == self@.schema,
            r.file_groups@.len() == partitions@.len(),
            forall|i: int|
                0 <= i < partitions@.len() ==> file_group_of(
                    #[trigger] partitions_view(partitions@)[i],
                    r.file_groups@[i],
                ),
            r.predicate == conjunction(filters@),
            r.projection == projection,
            r.limit == limit,
    {
        let mut groups: Vec<FileGroup> = Vec::new();
        let mut i: usize = 0;
        while i < partitions.len()
            invariant
                i <= partitions@.len(),
                groups@.len() == i,
                forall|j: int|
                    0 <= j < i ==> file_group_of(#[trigger] partitions_view(partitions@)[j], groups@[j]),
            decreases partitions@.len() - i,
        {
            let p = &partitions[i];
            groups.push(FileGroup { location: p.name.clone(), size: p.size });
            i = i + 1;
        }
        let file_schema = copy_fields(&self.schema);
        ScanDescriptor {
            object_store_url: self.s3_config.bucket_url(),
            file_schema,
            file_groups: groups,
            predicate: combine_filters(filters),
            projection,
            limit,
        }
    }
}

} // verus!
