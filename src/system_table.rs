//! The catalog description and the data of a system table.
use vstd::prelude::*;

verus! {

/// The type of a table column.
#[derive(Debug, Clone, Copy, PartialEq, Eq, Structural)]
pub enum TableDataType {
    String,
    Variant,
    UInt64,
}

/// One column of a table schema.
#[derive(Debug, Clone, PartialEq, Eq)]
pub struct TableField {
    pub name: String,
    pub data_type: TableDataType,
}

/// A table's id and the version of its metadata.
#[derive(Debug, Clone, Copy, PartialEq, Eq, Structural)]
pub struct TableIdent {
    pub table_id: u64,
    pub seq: u64,
}

/// A table's schema and the engine that serves it.
#[derive(Debug, Clone, PartialEq, Eq)]
pub struct TableMeta {
    pub schema: Vec<TableField>,
    pub engine: String,
}

/// What the catalog knows of a table.
#[derive(Debug, Clone, PartialEq, Eq)]
pub struct TableInfo {
    pub desc: String,
    pub name: String,
    pub ident: TableIdent,
    pub meta: TableMeta,
}

/// The values of one column of a chunk.
#[derive(Debug, Clone, PartialEq, Eq)]
pub enum ColumnValue {
    /// One string value that stands for every row.
    StringScalar(Vec<u8>),
    /// One string per row.
    StringColumn(Vec<String>),
    /// One unsigned integer per row.
    UInt64Column(Vec<u64>),
}

/// The rows of a table, column by column.
#[derive(Debug, Clone, PartialEq, Eq)]
pub struct Chunk {
    pub columns: Vec<ColumnValue>,
    pub num_rows: usize,
}

/// Why a system table could not produce its data.
#[derive(Debug, Clone, PartialEq, Eq)]
pub enum ErrorCode {
    Internal(String),
}

/// `field` is named `name` and has type `data_type`.
pub open spec fn field_is(field: TableField, name: Seq<char>, data_type: TableDataType) -> bool {
    field.name@ == name && field.data_type == data_type
}

impl TableField {
    pub fn new(name: &str, data_type: TableDataType) -> (r: Self)
        ensures
            field_is(r, name@, data_type),
    {
        TableField { name: name.to_owned(), data_type }
    }
}

/// The description of a system metrics table with the given names and schema.
pub fn system_metrics_info(desc: &str, name: &str, table_id: u64, schema: Vec<TableField>) -> (r:
    TableInfo)
    ensures
        r.desc@ == desc@,
        r.name@ == name@,
        r.ident == (TableIdent { table_id, seq: 0 }),
        r.meta.schema == schema,
        r.meta.engine@ == "SystemMetrics"@,
{
    TableInfo {
        desc: desc.to_owned(),
        name: name.to_owned(),
        ident: TableIdent { table_id, seq: 0 },
        meta: TableMeta { schema, engine: "SystemMetrics".to_owned() },
    }
}

} // verus!
