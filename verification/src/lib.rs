//! Layered configuration resolution.
//!
//! A configuration document is a record in which every field is optional.
//! Records form parent/child chains: a child inherits any field it leaves
//! unset from its parent. A resolved configuration aggregates glob patterns
//! into a concrete set of match-rule file paths and decides, from compiled
//! filters, whether it applies to the currently active application.

use vstd::prelude::*;

pub mod context_menu;
pub mod filters;
pub mod paths;
pub mod record;
pub mod resolve;

verus! {

/// Glob pattern seeded into the include set unless standard includes are
/// disabled: every rule file in the conventional sibling directory.
pub const STANDARD_INCLUDE: &'static str = "../match/**/*.yml";

/// Glob pattern seeded into the exclude set unless standard includes are
/// disabled: underscore-prefixed rule files are kept out by convention.
pub const STANDARD_EXCLUDE: &'static str = "../match/**/_*.yml";

} // verus!
