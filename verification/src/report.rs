//! Keys and options for the report that the caller renders from the final
//! table: which column orders the rows, and what each row is keyed by.

use vstd::prelude::*;

use crate::language::spec_display_name;
use crate::language::Language;

verus! {

/// The column by which the report's rows are ordered.
#[derive(Clone, Copy, PartialEq, Eq, Structural, Debug)]
pub enum SortBy {
    Code,
    Total,
    Language,
}

/// The option's name, as shown in help text.
pub open spec fn spec_sort_by_name(s: SortBy) -> Seq<char> {
    match s {
        SortBy::Code => "code"@,
        SortBy::Language => "language"@,
        SortBy::Total => "total"@,
    }
}

impl SortBy {
    /// The option's name, as shown in help text.
    pub fn name(&self) -> (r: &'static str)
        ensures
            r@ == spec_sort_by_name(*self),
    {
        match self {
            SortBy::Code => "code",
            SortBy::Language => "language",
            SortBy::Total => "total",
        }
    }
}

impl Default for SortBy {
    /// Rows are ordered by code count unless asked otherwise.
    fn default() -> (r: Self)
        ensures
            r == SortBy::Code,
    {
        SortBy::Code
    }
}

/// A report row's key: one language, or the grand-total row.
#[derive(Clone, Copy, PartialEq, Eq, Structural, Debug)]
pub enum TableKey {
    Language(Language),
    Total,
}

/// The display text of a row key.
pub open spec fn spec_table_key_name(k: TableKey) -> Seq<char> {
    match k {
        TableKey::Language(l) => spec_display_name(l),
        TableKey::Total => "Total"@,
    }
}

impl TableKey {
    /// The display text of this row key.
    pub fn display_name(&self) -> (r: &'static str)
        ensures
            r@ == spec_table_key_name(*self),
    {
        match self {
            TableKey::Language(l) => l.display_name(),
            TableKey::Total => "Total",
        }
    }
}

} // verus!
