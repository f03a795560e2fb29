//! Bulk renaming of the entries of one folder: numbered names, or names rewritten from
//! the capture groups of a pattern, and never onto an entry that already exists.
//!
//! The library decides; its caller looks at the file system and renames. A run goes
//! in four steps:
//!
//! 1. The caller looks at the folder and lists it. [`run`] chooses the items among the
//!    entries and proposes a new path for each: `{folder}/{prefix}_{number}{extension}`
//!    with a counter that starts at the origin, or, with a pattern and a template, the
//!    old path with its base name rewritten.
//! 2. The caller finds out which of the proposed paths exist. [`plan::guard`] drops the
//!    proposals whose path is taken.
//! 3. For each rename that is left the caller looks once more whether the new path
//!    exists, [`engine::decide`] says whether to rename, to report only or to skip, and
//!    [`engine::conclude`] records how it went.
//! 4. [`outcome::BatchReport::assemble`] puts the report together.
//!
//! Paths are texts whose components `/` separates. Patterns are those of the `regex`
//! crate, and numbered paths are formatted by the `strfmt` crate.

pub mod arguments;
pub mod engine;
pub mod entries;
pub mod naming;
pub mod outcome;
pub mod path;
pub mod pattern;
pub mod plan;
pub mod template;
pub mod text;
pub mod util;

pub use arguments::Arguments;
pub use engine::run;
pub use naming::PaddingDirection;
