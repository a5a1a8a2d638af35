//! Order-independent aggregation of per-file records: a table of
//! per-language running totals plus a grand total, updated one record at a
//! time. Because the merge is commutative and associative, the final totals
//! do not depend on the order in which files finish — the fold of any
//! permutation of the same records is the same.

use vstd::prelude::*;

use crate::file_info::can_merge;
use crate::file_info::identity_model;
use crate::file_info::lemma_merge_associative;
use crate::file_info::lemma_merge_commutative;
use crate::file_info::lemma_merge_identity;
use crate::file_info::merge_model;
use crate::file_info::FileInfo;
use crate::file_info::FileInfoModel;
use crate::language::Language;

verus! {

/// The fold of a sequence of records, seeded with the merge identity.
pub open spec fn fold_models(s: Seq<FileInfoModel>) -> FileInfoModel
    decreases s.len(),
{
    if s.len() == 0 {
        identity_model()
    } else {
        merge_model(fold_models(s.drop_last()), s.last())
    }
}

/// Removing one record from a fold and merging it back in afterwards gives
/// the same result: the fold does not care where in the sequence the record
/// stood.
pub proof fn lemma_fold_models_remove(s: Seq<FileInfoModel>, i: int)
    requires
        0 <= i < s.len(),
    ensures
        fold_models(s) == merge_model(fold_models(s.remove(i)), s[i]),
    decreases s.len(),
{
    if i == s.len() - 1 {
        assert(s.remove(i) =~= s.drop_last());
    } else {
        let t = s.drop_last();
        assert(s.remove(i).drop_last() =~= t.remove(i));
        assert(s.remove(i).last() == s.last());
        lemma_fold_models_remove(t, i);
        lemma_merge_associative(fold_models(t.remove(i)), s[i], s.last());
        lemma_merge_associative(fold_models(t.remove(i)), s.last(), s[i]);
        lemma_merge_commutative(s[i], s.last());
    }
}

/// Order independence: two sequences holding the same records (as a
/// multiset, so permutations of one another) fold to the same totals.
pub proof fn lemma_fold_models_permutation(s1: Seq<FileInfoModel>, s2: Seq<FileInfoModel>)
    requires
        s1.to_multiset() == s2.to_multiset(),
    ensures
        fold_models(s1) == fold_models(s2),
    decreases s2.len(),
{
    broadcast use vstd::seq_lib::group_to_multiset_ensures;

    if s2.len() == 0 {
        assert(s1.len() == s1.to_multiset().len());
        assert(s1.len() == 0);
    } else {
        let x = s2.last();
        assert(s2[s2.len() - 1] == x);
        assert(s2.contains(x));
        assert(s2.to_multiset().count(x) > 0);
        assert(s1.contains(x));
        let i = choose|i: int| 0 <= i < s1.len() && s1[i] == x;
        assert(s2.drop_last() =~= s2.remove(s2.len() - 1));
        assert(s1.remove(i).to_multiset() =~= s1.to_multiset().remove(x));
        assert(s2.remove(s2.len() - 1).to_multiset() =~= s2.to_multiset().remove(x));
        lemma_fold_models_permutation(s1.remove(i), s2.drop_last());
        lemma_fold_models_remove(s1, i);
    }
}

/// Every record in a sequence is bounded, field by field, by the fold of
/// the sequence.
pub proof fn lemma_element_le_fold(s: Seq<FileInfoModel>, i: int)
    requires
        0 <= i < s.len(),
    ensures
        s[i].total <= fold_models(s).total,
        s[i].code <= fold_models(s).code,
        s[i].comments <= fold_models(s).comments,
        s[i].empty <= fold_models(s).empty,
        s[i].file_count <= fold_models(s).file_count,
    decreases s.len(),
{
    if i < s.len() - 1 {
        lemma_element_le_fold(s.drop_last(), i);
    }
}

/// Whether the rows' languages are pairwise distinct.
pub open spec fn unique_keys(rows: Seq<(Language, FileInfo)>) -> bool {
    forall|i: int, j: int| 0 <= i < j < rows.len() ==> rows[i].0 != rows[j].0
}

/// The per-language mapping a row sequence represents.
pub open spec fn rows_to_map(rows: Seq<(Language, FileInfo)>) -> Map<Language, FileInfoModel>
    decreases rows.len(),
{
    if rows.len() == 0 {
        Map::empty()
    } else {
        rows_to_map(rows.drop_last()).insert(rows.last().0, rows.last().1@)
    }
}

/// With unique keys, the mapping contains exactly the rows' languages, each
/// bound to its row's record.
proof fn lemma_rows_to_map_index(rows: Seq<(Language, FileInfo)>, language: Language)
    requires
        unique_keys(rows),
    ensures
        rows_to_map(rows).contains_key(language) <==> exists|i: int|
            0 <= i < rows.len() && rows[i].0 == language,
        forall|i: int|
            0 <= i < rows.len() && rows[i].0 == language ==> rows_to_map(rows)[language]
                == rows[i].1@,
    decreases rows.len(),
{
    if rows.len() > 0 {
        assert(rows.drop_last() =~= rows.subrange(0, rows.len() - 1));
        lemma_rows_to_map_index(rows.drop_last(), language);
        if rows.last().0 != language {
            assert(forall|i: int|
                0 <= i < rows.len() - 1 && rows[i].0 == language ==> rows.drop_last()[i].0
                    == language);
        }
    }
}

/// Updating row `i` in place changes the mapping exactly at that row's
/// language.
proof fn lemma_rows_to_map_update(
    rows: Seq<(Language, FileInfo)>,
    i: int,
    language: Language,
    v: FileInfo,
)
    requires
        unique_keys(rows),
        0 <= i < rows.len(),
        rows[i].0 == language,
    ensures
        rows_to_map(rows.update(i, (language, v))) == rows_to_map(rows).insert(language, v@),
    decreases rows.len(),
{
    let u = rows.update(i, (language, v));
    if i == rows.len() - 1 {
        assert(u.drop_last() =~= rows.drop_last());
        assert(u.last() == (language, v));
        assert(rows_to_map(u) =~= rows_to_map(rows).insert(language, v@));
    } else {
        assert(u.drop_last() =~= rows.drop_last().update(i, (language, v)));
        assert(u.last() == rows.last());
        lemma_rows_to_map_update(rows.drop_last(), i, language, v);
        assert(rows.last().0 != language);
        assert(rows_to_map(u) =~= rows_to_map(rows).insert(language, v@));
    }
}

/// The records of the rows, in row order.
pub open spec fn row_models(rows: Seq<(Language, FileInfo)>) -> Seq<FileInfoModel> {
    rows.map_values(|r: (Language, FileInfo)| r.1@)
}

/// The row for `language`, or the identity when the language has no row yet.
pub open spec fn entry_model(m: Map<Language, FileInfoModel>, language: Language) -> FileInfoModel {
    if m.contains_key(language) {
        m[language]
    } else {
        identity_model()
    }
}

/// One record applied to the per-language mapping: merged into its
/// language's entry, with the identity seeding the language's first entry.
/// `record` advances `lang_map` by exactly this function.
pub open spec fn apply_record(
    m: Map<Language, FileInfoModel>,
    r: (Language, FileInfoModel),
) -> Map<Language, FileInfoModel> {
    m.insert(r.0, merge_model(entry_model(m, r.0), r.1))
}

/// Per-language running totals plus a grand total. The table's invariant
/// ties them together: the grand total is exactly the fold of the
/// per-language rows.
pub struct AggregationTable {
    rows: Vec<(Language, FileInfo)>,
    total: FileInfo,
}

impl AggregationTable {
    /// The per-language rows, in first-seen order.
    pub closed spec fn spec_rows(&self) -> Seq<(Language, FileInfo)> {
        self.rows@
    }

    /// The grand total's record.
    pub closed spec fn spec_total(&self) -> FileInfoModel {
        self.total@
    }

    /// The per-language mapping this table represents.
    pub open spec fn lang_map(&self) -> Map<Language, FileInfoModel> {
        rows_to_map(self.spec_rows())
    }

    /// Table invariant: each language has at most one row, and the grand
    /// total is the fold of all rows — every record was merged into exactly
    /// one row and into the total.
    pub open spec fn wf(&self) -> bool {
        &&& unique_keys(self.spec_rows())
        &&& self.spec_total() == fold_models(row_models(self.spec_rows()))
    }

    /// An empty table: no languages, the merge identity as the grand total.
    pub fn new() -> (r: Self)
        ensures
            r.wf(),
            r.spec_rows().len() == 0,
            r.spec_total() == identity_model(),
            r.lang_map() == Map::<Language, FileInfoModel>::empty(),
    {
        let r = Self { rows: Vec::new(), total: FileInfo::default() };
        proof {
            assert(row_models(r.rows@) =~= Seq::<FileInfoModel>::empty());
        }
        r
    }

    /// The per-language rows, for reporting.
    pub fn rows(&self) -> (r: &Vec<(Language, FileInfo)>)
        ensures
            r@ == self.spec_rows(),
    {
        &self.rows
    }

    /// The grand total, for reporting.
    pub fn grand_total(&self) -> (r: &FileInfo)
        ensures
            r@ == self.spec_total(),
    {
        &self.total
    }

    /// The index of the row for `language`, when one exists.
    fn find_row(rows: &Vec<(Language, FileInfo)>, language: Language) -> (r: Option<usize>)
        ensures
            match r {
                Some(i) => i < rows@.len() && rows@[i as int].0 == language,
                None => forall|j: int| 0 <= j < rows@.len() ==> rows@[j].0 != language,
            },
    {
        let n: usize = rows.len();
        let mut i: usize = 0;
        while i < n
            invariant
                n == rows@.len(),
                i <= n,
                forall|j: int| 0 <= j < i ==> rows@[j].0 != language,
            decreases n - i,
        {
            if rows[i].0 == language {
                return Some(i);
            }
            i = i + 1;
        }
        None
    }

    /// Merge one file's record into the row for its language — created from
    /// the identity on the language's first file — and into the grand total.
    pub fn record(&mut self, language: Language, info: &FileInfo)
        requires
            old(self).wf(),
            can_merge(old(self).spec_total(), info@),
        ensures
            final(self).wf(),
            final(self).spec_total() == merge_model(old(self).spec_total(), info@),
            final(self).lang_map() == apply_record(old(self).lang_map(), (language, info@)),
    {
        let ghost rows0 = self.rows@;
        let ghost models0 = row_models(rows0);
        match Self::find_row(&self.rows, language) {
            Some(i) => {
                proof {
                    assert(models0[i as int] == rows0[i as int].1@);
                    lemma_element_le_fold(models0, i as int);
                    lemma_rows_to_map_index(rows0, language);
                }
                let mut row = self.rows[i].1;
                row.merge_with(info);
                self.rows.set(i, (language, row));
                proof {
                    lemma_rows_to_map_update(rows0, i as int, language, row);
                    assert(row_models(self.rows@) =~= models0.update(
                        i as int,
                        merge_model(models0[i as int], info@),
                    ));
                    lemma_fold_models_update_merge(models0, i as int, info@);
                }
            },
            None => {
                proof {
                    lemma_rows_to_map_index(rows0, language);
                    lemma_merge_identity(info@);
                }
                let mut fresh = FileInfo::default();
                fresh.merge_with(info);
                self.rows.push((language, fresh));
                proof {
                    assert(self.rows@.drop_last() =~= rows0);
                    assert(row_models(self.rows@) =~= models0.push(fresh@));
                    assert(self.rows@ =~= rows0.push((language, fresh)));
                    assert(rows_to_map(self.rows@) == rows_to_map(rows0).insert(language, fresh@));
                    assert(models0.push(fresh@).drop_last() =~= models0);
                }
            },
        }
        self.total.merge_with(info);
    }
}

/// Merging a fresh record into one row is the same as merging it into the
/// fold of all rows.
proof fn lemma_fold_models_update_merge(s: Seq<FileInfoModel>, i: int, r: FileInfoModel)
    requires
        0 <= i < s.len(),
    ensures
        fold_models(s.update(i, merge_model(s[i], r))) == merge_model(fold_models(s), r),
    decreases s.len(),
{
    let u = s.update(i, merge_model(s[i], r));
    if i == s.len() - 1 {
        assert(u.drop_last() =~= s.drop_last());
        assert(u.last() == merge_model(s[i], r));
        lemma_merge_associative(fold_models(s.drop_last()), s[i], r);
    } else {
        assert(u.drop_last() =~= s.drop_last().update(i, merge_model(s[i], r)));
        assert(u.last() == s.last());
        lemma_fold_models_update_merge(s.drop_last(), i, r);
        lemma_merge_associative(fold_models(s.drop_last()), r, s.last());
        lemma_merge_commutative(r, s.last());
        lemma_merge_associative(fold_models(s.drop_last()), s.last(), r);
    }
}

/// The per-language mapping after the records of `s` are applied in order.
pub open spec fn table_map_from(s: Seq<(Language, FileInfoModel)>) -> Map<Language, FileInfoModel>
    decreases s.len(),
{
    if s.len() == 0 {
        Map::empty()
    } else {
        apply_record(table_map_from(s.drop_last()), s.last())
    }
}

/// Applying two records in either order leaves the same mapping: records of
/// different languages touch independent entries, and records of one
/// language meet in a commutative, associative merge.
proof fn lemma_apply_record_commutes(
    m: Map<Language, FileInfoModel>,
    a: (Language, FileInfoModel),
    b: (Language, FileInfoModel),
)
    ensures
        apply_record(apply_record(m, a), b) == apply_record(apply_record(m, b), a),
{
    if a.0 == b.0 {
        lemma_merge_associative(entry_model(m, a.0), a.1, b.1);
        lemma_merge_associative(entry_model(m, a.0), b.1, a.1);
        lemma_merge_commutative(a.1, b.1);
    }
    assert(apply_record(apply_record(m, a), b) =~= apply_record(apply_record(m, b), a));
}

/// A record can be pulled out of the sequence and applied last instead: the
/// mapping does not care where in the sequence the record stood.
proof fn lemma_table_map_remove(s: Seq<(Language, FileInfoModel)>, i: int)
    requires
        0 <= i < s.len(),
    ensures
        table_map_from(s) == apply_record(table_map_from(s.remove(i)), s[i]),
    decreases s.len(),
{
    if i == s.len() - 1 {
        assert(s.remove(i) =~= s.drop_last());
    } else {
        let t = s.drop_last();
        assert(s.remove(i).drop_last() =~= t.remove(i));
        assert(s.remove(i).last() == s.last());
        lemma_table_map_remove(t, i);
        lemma_apply_record_commutes(table_map_from(t.remove(i)), s[i], s.last());
    }
}

/// Order independence per language: two record sequences holding the same
/// records (as a multiset, so permutations of one another) produce the same
/// per-language mapping.
pub proof fn lemma_table_map_permutation(
    s1: Seq<(Language, FileInfoModel)>,
    s2: Seq<(Language, FileInfoModel)>,
)
    requires
        s1.to_multiset() == s2.to_multiset(),
    ensures
        table_map_from(s1) == table_map_from(s2),
    decreases s2.len(),
{
    broadcast use vstd::seq_lib::group_to_multiset_ensures;

    if s2.len() == 0 {
        assert(s1.len() == s1.to_multiset().len());
        assert(s1.len() == 0);
    } else {
        let x = s2.last();
        assert(s2[s2.len() - 1] == x);
        assert(s2.contains(x));
        assert(s2.to_multiset().count(x) > 0);
        assert(s1.contains(x));
        let i = choose|i: int| 0 <= i < s1.len() && s1[i] == x;
        assert(s2.drop_last() =~= s2.remove(s2.len() - 1));
        assert(s1.remove(i).to_multiset() =~= s1.to_multiset().remove(x));
        assert(s2.remove(s2.len() - 1).to_multiset() =~= s2.to_multiset().remove(x));
        lemma_table_map_permutation(s1.remove(i), s2.drop_last());
        lemma_table_map_remove(s1, i);
    }
}

/// The outcome of visiting one directory entry: a counted file with its
/// language, a skipped entry (a directory), or a failed one with a message.
pub enum FileOutcome {
    Counted(Language, FileInfo),
    Skipped,
    Failed(String),
}

/// Route one outcome into the run's state: a counted record is merged into
/// its language's row and the grand total; a failure is only reported; in
/// neither case is anything else touched — one bad file never stops the run
/// or disturbs what was already counted.
pub fn apply_outcome(table: &mut AggregationTable, errors: &mut Vec<String>, outcome: FileOutcome)
    requires
        old(table).wf(),
        outcome matches FileOutcome::Counted(language, info) ==> can_merge(
            old(table).spec_total(),
            info@,
        ),
    ensures
        final(table).wf(),
        match outcome {
            FileOutcome::Counted(language, info) => {
                &&& final(table).spec_total() == merge_model(old(table).spec_total(), info@)
                &&& final(table).lang_map() == apply_record(
                    old(table).lang_map(),
                    (language, info@),
                )
                &&& final(errors)@ == old(errors)@
            },
            FileOutcome::Skipped => *final(table) == *old(table) && final(errors)@ == old(
                errors,
            )@,
            FileOutcome::Failed(msg) => *final(table) == *old(table) && final(errors)@ == old(
                errors,
            )@.push(msg),
        },
{
    match outcome {
        FileOutcome::Counted(language, info) => {
            table.record(language, &info);
        },
        FileOutcome::Skipped => {},
        FileOutcome::Failed(msg) => {
            errors.push(msg);
        },
    }
}

} // verus!
