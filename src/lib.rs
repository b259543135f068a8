//! Turns C headers, as libclang presents them, into target-language
//! declarations grouped by header and gated by feature tags.
//!
//! - `clang`, `kinds`: the values libclang hands out, held as plain values,
//!   and the registry of live translation units.
//! - `macro_expr`, `trans_macros`: the parser of `#define` bodies and their
//!   translation into typed constants.
//! - `decls`, `process`: declarations rendered from types, and the walk over
//!   a unit's declarations.
//! - `features`, `output`: feature tags and the per-header output collection.
//! - `text`, `util`: digits, string comparison and small conversions.

pub mod clang;
pub mod decls;
pub mod features;
pub mod kinds;
pub mod macro_expr;
pub mod output;
pub mod process;
pub mod text;
pub mod trans_macros;
pub mod util;
