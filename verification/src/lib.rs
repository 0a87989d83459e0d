//! A file-finder library: walk filesystem trees and select entries by
//! type and by name.
//!
//! The traversal itself (reading directories) and the printing of
//! results are I/O and live with the caller; this crate holds the
//! pipeline that decides, for each visited node, whether it is emitted,
//! skipped, or reported as a diagnostic.

pub mod filter;
pub mod pattern;
pub mod pipeline;

pub use filter::EntryType;
pub use filter::classify;
pub use filter::name_accepted;
pub use filter::type_accepted;
pub use pattern::Pattern;
pub use pattern::PatternError;
pub use pipeline::Action;
pub use pipeline::Config;
pub use pipeline::Diagnostic;
pub use pipeline::Output;
pub use pipeline::WalkEvent;
pub use pipeline::process_event;
pub use pipeline::process_events;
