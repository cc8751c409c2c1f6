//! Discovery, filtering, parsing and enrichment of speedrun timing record
//! files: a records directory is resolved from the home directory, candidate
//! files are classified by modification time against a requested period, each
//! surviving file's JSON content is parsed into a [`record::Record`], and the
//! record's checkpoint fields are projected from its event timeline.

mod errors;
mod escape;
mod jsonio;
mod period;
mod pipeline;
mod record;

pub use errors::Error;
pub use escape::unescape_cli_text;
pub use jsonio::parse_record;
pub use period::{Period, parse_period, period_includes};
pub use pipeline::{FileMeta, collect_records, filter_record_files, records_dir, records_pattern};
pub use record::{Record, TimelineEvent, project_record};
