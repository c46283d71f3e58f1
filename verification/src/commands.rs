//! Command-level entry points and option shapes that the surrounding tool
//! wires to its command line.
//!
//! The listing categories below are not enumerated yet: each succeeds and
//! contributes no entries.  They are kept so callers can already dispatch on
//! every category.

use vstd::prelude::*;

use crate::error::ParseError;

verus! {

/// Arguments of the counter-statistics command: the specifier of the event
/// to count, when one was given.
pub struct StatArgs {
    pub event: Option<String>,
}

/// Options of the binding-generation task (none yet).
pub struct Options {
}

/// One maintenance task.
pub enum Subcommand {
    /// Regenerate the bindings the tool is built on.
    Codegen(Options),
    /// Maintain the event tables.
    Pmu,
}

/// Top-level options of the maintenance-task runner.
pub struct XtaskOptions {
    pub command: Subcommand,
}

/// Gather counter statistics.  Collection is not implemented: the call
/// succeeds without doing anything.
pub fn do_stat(_args: StatArgs) -> (r: Result<(), ParseError>)
    ensures
        r is Ok,
{
    Ok(())
}

/// List the cache events.  None are enumerated yet.
pub fn print_cache_events() -> (r: Result<(), ParseError>)
    ensures
        r is Ok,
{
    Ok(())
}

/// List the PMU events.  None are enumerated yet.
pub fn print_pmu_events() -> (r: Result<(), ParseError>)
    ensures
        r is Ok,
{
    Ok(())
}

/// List the SDT events.  None are enumerated yet.
pub fn print_sdt_events() -> (r: Result<(), ParseError>)
    ensures
        r is Ok,
{
    Ok(())
}

/// List the metric events.  None are enumerated yet.
pub fn print_metric_events() -> (r: Result<(), ParseError>)
    ensures
        r is Ok,
{
    Ok(())
}

/// List the metric-group events.  None are enumerated yet.
pub fn print_metric_group_events() -> (r: Result<(), ParseError>)
    ensures
        r is Ok,
{
    Ok(())
}

/// List the events a glob pattern selects.  None are enumerated yet.
pub fn print_event_glob_events() -> (r: Result<(), ParseError>)
    ensures
        r is Ok,
{
    Ok(())
}

/// List the events of the external performance-monitoring library.  None
/// are enumerated yet.
pub fn print_pfm_events() -> (r: Result<(), ParseError>)
    ensures
        r is Ok,
{
    Ok(())
}

} // verus!
