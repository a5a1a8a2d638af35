//! A lines-of-code analyzer core: classifies every line of a source file as
//! code, comment, or blank, identifies a language for every file path, and
//! folds per-file counts into per-language and grand totals with a
//! commutative, associative merge.

pub mod aggregate;
pub mod file_info;
pub mod identify;
pub mod language;
pub mod line_kind;
pub mod report;
pub mod text;
