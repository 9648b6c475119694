//! Parser for the fixed-format per-process resource-limits table exposed by
//! the kernel as text (one header line followed by sixteen limit rows).
//!
//! The crate turns a raw byte buffer into a strongly typed [`model::Limits`]
//! record, or a precise [`model::ParseError`] for malformed or truncated
//! input.  File access is left to callers: the parser is pure.

pub mod model;
pub mod render;
pub mod table;
pub mod tokens;
pub mod units;

pub use model::{Limit, LimitDuration, LimitUnit, Limits, ParseError, RowError, TimeSpan};
pub use model::LIMITS_INFINITY;
pub use render::render_limits;
pub use table::{parse_limits, to_limit, to_limit_duration};
pub use units::unit_types;
