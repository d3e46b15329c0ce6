//! Reads of the jemalloc allocator's statistics. What they return depends on
//! the state of the allocator at the moment of the call, so nothing is said
//! of the values.
use vstd::prelude::*;

verus! {

/// The error of a failed jemalloc control call.
#[verifier::external_type_specification]
#[verifier::external_body]
pub struct ExJemallocError(tikv_jemalloc_ctl::Error);

/// The error of a failed write of the statistics report.
#[verifier::external_type_specification]
#[verifier::external_body]
pub struct ExIoError(std::io::Error);

/// Which sections the allocator's statistics report holds, and in what form.
#[derive(Debug, Clone, Copy, PartialEq, Eq, Structural)]
pub struct ReportOptions {
    pub json_format: bool,
    pub skip_constants: bool,
    pub skip_mutex_statistics: bool,
    pub skip_per_arena: bool,
}

/// Relies on `tikv_jemalloc_ctl::stats_print::stats_print`: writes the
/// allocator's statistics report, in the form that `options` asks for. Its
/// only error is one raised by the writer, and a `Vec<u8>` raises none.
#[verifier::external_body]
pub(crate) fn stats_report(options: ReportOptions) -> (r: Result<Vec<u8>, std::io::Error>)
    ensures
        r is Ok,
{
    let mut buf = Vec::new();
    let mut o = tikv_jemalloc_ctl::stats_print::Options::default();
    o.json_format = options.json_format;
    o.skip_constants = options.skip_constants;
    o.skip_mutex_statistics = options.skip_mutex_statistics;
    o.skip_per_arena = options.skip_per_arena;
    match tikv_jemalloc_ctl::stats_print::stats_print(&mut buf, o) {
        Ok(()) => Ok(buf),
        Err(e) => Err(e),
    }
}

/// Relies on the `Display` impl of `std::io::Error`: its message.
#[verifier::external_body]
pub(crate) fn io_error_message(e: &std::io::Error) -> (r: String) {
    format!("{}", e)
}

/// Relies on the `Display` impl of `tikv_jemalloc_ctl::Error`: its message.
#[verifier::external_body]
pub(crate) fn jemalloc_error_message(e: &tikv_jemalloc_ctl::Error) -> (r: String) {
    format!("{}", e)
}

/// Relies on `tikv_jemalloc_ctl::epoch::advance`: refreshes the cached
/// statistics and returns the previous epoch.
#[verifier::external_body]
pub(crate) fn advance_epoch() -> (r: Result<u64, tikv_jemalloc_ctl::Error>) {
    tikv_jemalloc_ctl::epoch::advance()
}

/// Relies on `tikv_jemalloc_ctl::stats::active::read` (`stats.active`).
#[verifier::external_body]
pub(crate) fn read_active() -> (r: Result<usize, tikv_jemalloc_ctl::Error>) {
    tikv_jemalloc_ctl::stats::active::read()
}

/// Relies on `tikv_jemalloc_ctl::stats::allocated::read` (`stats.allocated`).
#[verifier::external_body]
pub(crate) fn read_allocated() -> (r: Result<usize, tikv_jemalloc_ctl::Error>) {
    tikv_jemalloc_ctl::stats::allocated::read()
}

/// Relies on `tikv_jemalloc_ctl::stats::retained::read` (`stats.retained`).
#[verifier::external_body]
pub(crate) fn read_retained() -> (r: Result<usize, tikv_jemalloc_ctl::Error>) {
    tikv_jemalloc_ctl::stats::retained::read()
}

/// Relies on `tikv_jemalloc_ctl::stats::mapped::read` (`stats.mapped`).
#[verifier::external_body]
pub(crate) fn read_mapped() -> (r: Result<usize, tikv_jemalloc_ctl::Error>) {
    tikv_jemalloc_ctl::stats::mapped::read()
}

/// Relies on `tikv_jemalloc_ctl::stats::resident::read` (`stats.resident`).
#[verifier::external_body]
pub(crate) fn read_resident() -> (r: Result<usize, tikv_jemalloc_ctl::Error>) {
    tikv_jemalloc_ctl::stats::resident::read()
}

/// Relies on `tikv_jemalloc_ctl::stats::metadata::read` (`stats.metadata`).
#[verifier::external_body]
pub(crate) fn read_metadata() -> (r: Result<usize, tikv_jemalloc_ctl::Error>) {
    tikv_jemalloc_ctl::stats::metadata::read()
}

} // verus!
