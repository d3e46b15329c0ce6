//! System tables that expose the jemalloc allocator's statistics.
use vstd::prelude::*;

use crate::jemalloc::{
    advance_epoch, io_error_message, jemalloc_error_message, read_active, read_allocated,
    read_mapped, read_metadata, read_resident, read_retained, stats_report, ReportOptions,
};
use crate::system_table::{
    field_is, system_metrics_info, Chunk, ColumnValue, ErrorCode, TableDataType, TableField,
    TableIdent, TableInfo,
};

verus! {

/// `system.malloc_stats`: one row holding the allocator's JSON report.
#[derive(Debug, Clone)]
pub struct MallocStatsTable {
    pub table_info: TableInfo,
}

/// `system.malloc_stats_totals`: one row per total that the allocator keeps.
#[derive(Debug, Clone)]
pub struct MallocStatsTotalsTable {
    pub table_info: TableInfo,
}

/// The names of the totals, in the order of their rows.
pub open spec fn totals_names() -> Seq<Seq<char>> {
    seq![
        "stats.active"@,
        "stats.allocated"@,
        "stats.retained"@,
        "stats.mapped"@,
        "stats.resident"@,
        "stats.metadata"@,
    ]
}

/// `column` holds the names of the totals, one per row.
pub open spec fn names_column(column: ColumnValue) -> bool {
    column matches ColumnValue::StringColumn(names) && names@.map_values(|s: String| s@)
        == totals_names()
}

impl MallocStatsTable {
    pub fn create(table_id: u64) -> (r: Self)
        ensures
            r.table_info.desc@ == "'system'.'malloc_stats'"@,
            r.table_info.name@ == "malloc_stats"@,
            r.table_info.ident == (TableIdent { table_id, seq: 0 }),
            r.table_info.meta.engine@ == "SystemMetrics"@,
            r.table_info.meta.schema@.len() == 1,
            field_is(r.table_info.meta.schema@[0], "statistics"@, TableDataType::Variant),
    {
        let schema = vec![TableField::new("statistics", TableDataType::Variant)];
        let table_info = system_metrics_info(
            "'system'.'malloc_stats'",
            "malloc_stats",
            table_id,
            schema,
        );
        MallocStatsTable { table_info }
    }

    pub fn get_table_info(&self) -> (r: &TableInfo)
        ensures
            *r == self.table_info,
    {
        &self.table_info
    }

    /// The table's one row: the report as a string, or the report's failure
    /// as an internal error.
    pub fn chunk_from_report(report: Result<Vec<u8>, String>) -> (r: Result<Chunk, ErrorCode>)
        ensures
            report matches Ok(json) ==> (r matches Ok(c) && c.num_rows == 1 && c.columns@
                == seq![ColumnValue::StringScalar(json)]),
            report matches Err(m) ==> r == Err::<Chunk, ErrorCode>(ErrorCode::Internal(m)),
    {
        match report {
            Ok(json) => Ok(Chunk { columns: vec![ColumnValue::StringScalar(json)], num_rows: 1 }),
            Err(m) => Err(ErrorCode::Internal(m)),
        }
    }

    /// The form of the report: JSON, without constants, mutex statistics or
    /// per-arena sections.
    pub fn report_options() -> (r: ReportOptions)
        ensures
            r == (ReportOptions {
                json_format: true,
                skip_constants: true,
                skip_mutex_statistics: true,
                skip_per_arena: true,
            }),
    {
        ReportOptions {
            json_format: true,
            skip_constants: true,
            skip_mutex_statistics: true,
            skip_per_arena: true,
        }
    }

    /// Takes the allocator's report now, in the form of `report_options`.
    pub fn get_full_data(&self) -> (r: Result<Chunk, ErrorCode>)
        ensures
            r matches Ok(c) && c.num_rows == 1 && c.columns@.len() == 1
                && c.columns@[0] is StringScalar,
    {
        let report = match stats_report(Self::report_options()) {
            Ok(json) => Ok(json),
            Err(e) => Err(io_error_message(&e)),
        };
        Self::chunk_from_report(report)
    }
}

impl MallocStatsTotalsTable {
    pub fn create(table_id: u64) -> (r: Self)
        ensures
            r.table_info.desc@ == "'system'.'malloc_stats_totals'"@,
            r.table_info.name@ == "malloc_stats_totals"@,
            r.table_info.ident == (TableIdent { table_id, seq: 0 }),
            r.table_info.meta.engine@ == "SystemMetrics"@,
            r.table_info.meta.schema@.len() == 2,
            field_is(r.table_info.meta.schema@[0], "name"@, TableDataType::String),
            field_is(r.table_info.meta.schema@[1], "value"@, TableDataType::UInt64),
    {
        let schema = vec![
            TableField::new("name", TableDataType::String),
            TableField::new("value", TableDataType::UInt64),
        ];
        let table_info = system_metrics_info(
            "'system'.'malloc_stats_totals'",
            "malloc_stats_totals",
            table_id,
            schema,
        );
        MallocStatsTotalsTable { table_info }
    }

    pub fn get_table_info(&self) -> (r: &TableInfo)
        ensures
            *r == self.table_info,
    {
        &self.table_info
    }

    /// Appends a total that was read to `values`, or hands back the failure
    /// to read it.
    pub fn push_total(values: &mut Vec<u64>, read: Result<usize, tikv_jemalloc_ctl::Error>) -> (r:
        Result<(), tikv_jemalloc_ctl::Error>)
        ensures
            read matches Ok(v) ==> (r is Ok && final(values)@ == old(values)@.push(v as u64)),
            read matches Err(e) ==> (r == Err::<(), tikv_jemalloc_ctl::Error>(e) && final(values)@
                == old(values)@),
    {
        match read {
            Ok(v) => {
                values.push(v as u64);
                Ok(())
            },
            Err(e) => Err(e),
        }
    }

    /// Refreshes the allocator's statistics and reads its six totals, in
    /// the order of `totals_names`, stopping at the first failure.
    fn read_totals() -> (r: Result<Vec<u64>, tikv_jemalloc_ctl::Error>)
        ensures
            r matches Ok(values) ==> values@.len() == 6,
    {
        if let Err(e) = advance_epoch() {
            return Err(e);
        }
        let mut values: Vec<u64> = Vec::new();
        if let Err(e) = Self::push_total(&mut values, read_active()) {
            return Err(e);
        }
        if let Err(e) = Self::push_total(&mut values, read_allocated()) {
            return Err(e);
        }
        if let Err(e) = Self::push_total(&mut values, read_retained()) {
            return Err(e);
        }
        if let Err(e) = Self::push_total(&mut values, read_mapped()) {
            return Err(e);
        }
        if let Err(e) = Self::push_total(&mut values, read_resident()) {
            return Err(e);
        }
        if let Err(e) = Self::push_total(&mut values, read_metadata()) {
            return Err(e);
        }
        Ok(values)
    }

    /// The table's six rows: each total's name beside its value, or the
    /// failure to read them as an internal error.
    pub fn chunk_from_totals(totals: Result<Vec<u64>, String>) -> (r: Result<Chunk, ErrorCode>)
        requires
            totals matches Ok(values) ==> values@.len() == 6,
        ensures
            totals matches Ok(values) ==> (r matches Ok(c) && c.num_rows == 6
                && c.columns@.len() == 2 && names_column(c.columns@[0]) && c.columns@[1]
                == ColumnValue::UInt64Column(values)),
            totals matches Err(m) ==> r == Err::<Chunk, ErrorCode>(ErrorCode::Internal(m)),
    {
        match totals {
            Ok(values) => {
                let names = vec![
                    "stats.active".to_owned(),
                    "stats.allocated".to_owned(),
                    "stats.retained".to_owned(),
                    "stats.mapped".to_owned(),
                    "stats.resident".to_owned(),
                    "stats.metadata".to_owned(),
                ];
                assert(names@.map_values(|s: String| s@) =~= totals_names());
                Ok(
                    Chunk {
                        columns: vec![
                            ColumnValue::StringColumn(names),
                            ColumnValue::UInt64Column(values),
                        ],
                        num_rows: 6,
                    },
                )
            },
            Err(m) => Err(ErrorCode::Internal(m)),
        }
    }

    /// Reads the allocator's totals now.
    pub fn get_full_data(&self) -> (r: Result<Chunk, ErrorCode>)
        ensures
            r matches Ok(c) ==> (c.num_rows == 6 && c.columns@.len() == 2 && names_column(
                c.columns@[0],
            ) && c.columns@[1] is UInt64Column),
    {
        let totals = match Self::read_totals() {
            Ok(values) => Ok(values),
            Err(e) => Err(jemalloc_error_message(&e)),
        };
        Self::chunk_from_totals(totals)
    }
}

} // verus!
