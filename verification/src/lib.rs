//! Parser for performance-event specifier strings.
//!
//! A specifier names one countable event: a symbolic event name
//! (`cpu-cycles`), a kernel tracepoint (`sched:sched_switch`), or a raw
//! hexadecimal event code (`r0xdeadbeefcafe`), each optionally followed by a
//! colon-introduced run of single-character behavioral modifiers (`:ukP`).
//! Parsing is a pure function from the input string to a structured event
//! value or a positioned syntax error.

pub mod chars;
pub mod commands;
pub mod error;
pub mod events;
pub mod grammar;
pub mod laws;
pub mod parser;
pub mod render;
pub mod strutil;

pub use commands::do_stat;
pub use commands::print_cache_events;
pub use commands::print_event_glob_events;
pub use commands::print_metric_events;
pub use commands::print_metric_group_events;
pub use commands::print_pfm_events;
pub use commands::print_pmu_events;
pub use commands::print_sdt_events;
pub use commands::Options;
pub use commands::StatArgs;
pub use commands::Subcommand;
pub use commands::XtaskOptions;
pub use error::Expected;
pub use error::ParseError;
pub use events::PmuEvent;
pub use events::PmuEventModifier;
pub use events::RawEvent;
pub use events::SymbolicEvent;
pub use events::TracepointEvent;
pub use parser::modifier;
pub use parser::modifiers;
pub use parser::parse_event;
pub use parser::parse_name;
pub use parser::parse_raw_event;
pub use parser::parse_symbolic_event;
pub use parser::parse_tracepoint_event;
pub use render::to_specifier;
