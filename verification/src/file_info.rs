//! Per-file line-count records and their merge. The merge is a commutative
//! monoid — field-wise addition with `textual` OR'd, whose identity is the
//! all-zero, non-textual record — so folding per-file records into totals is
//! independent of the order in which files finish. Counting a file drives
//! each of its lines, in order, through one exclusively-owned line
//! classifier.

use vstd::prelude::*;

use crate::line_kind::Estimator;
use crate::line_kind::LineKind;
use crate::line_kind::LineKindEstimator;

/// The classifier registry, re-exported beside the per-file counting it
/// feeds.
pub use crate::language::make_line_kind_estimator;

verus! {

/// The mathematical model of a record: exact counts, free of machine limits.
pub struct FileInfoModel {
    pub textual: bool,
    pub total: nat,
    pub code: nat,
    pub comments: nat,
    pub empty: nat,
    pub file_count: nat,
}

/// A per-file (or, after merging, per-language) line-count record.
#[derive(Clone, Copy, PartialEq, Eq, Structural, Debug)]
pub struct FileInfo {
    pub textual: bool,
    pub total: usize,
    pub code: usize,
    pub comments: usize,
    pub empty: usize,
    /// Number of files merged into this record.
    pub file_count: usize,
}

impl View for FileInfo {
    type V = FileInfoModel;

    open spec fn view(&self) -> FileInfoModel {
        FileInfoModel {
            textual: self.textual,
            total: self.total as nat,
            code: self.code as nat,
            comments: self.comments as nat,
            empty: self.empty as nat,
            file_count: self.file_count as nat,
        }
    }
}

/// The merge of two records: field-wise addition, with `textual` OR'd.
pub open spec fn merge_model(a: FileInfoModel, b: FileInfoModel) -> FileInfoModel {
    FileInfoModel {
        textual: a.textual || b.textual,
        total: a.total + b.total,
        code: a.code + b.code,
        comments: a.comments + b.comments,
        empty: a.empty + b.empty,
        file_count: a.file_count + b.file_count,
    }
}

/// The merge identity: all-zero and non-textual, with `file_count` zero.
/// Distinct from a freshly observed empty file, whose `file_count` is one.
pub open spec fn identity_model() -> FileInfoModel {
    FileInfoModel { textual: false, total: 0, code: 0, comments: 0, empty: 0, file_count: 0 }
}

/// A fresh record for one textual file, before any line is counted.
pub open spec fn new_file_model() -> FileInfoModel {
    FileInfoModel { textual: true, total: 0, code: 0, comments: 0, empty: 0, file_count: 1 }
}

/// The record for one non-textual (asset) file: present, but no line counts.
pub open spec fn non_text_model() -> FileInfoModel {
    FileInfoModel { textual: false, total: 0, code: 0, comments: 0, empty: 0, file_count: 1 }
}

/// The sums of the two records' fields fit in machine integers.
pub open spec fn can_merge(a: FileInfoModel, b: FileInfoModel) -> bool {
    &&& a.total + b.total <= usize::MAX
    &&& a.code + b.code <= usize::MAX
    &&& a.comments + b.comments <= usize::MAX
    &&& a.empty + b.empty <= usize::MAX
    &&& a.file_count + b.file_count <= usize::MAX
}

/// The record invariant: a textual record's lines are split exactly among
/// code, comments and empty; a non-textual record has no line counts at all.
pub open spec fn wf_model(m: FileInfoModel) -> bool {
    &&& m.textual ==> m.total == m.code + m.comments + m.empty
    &&& !m.textual ==> m.total == 0 && m.code == 0 && m.comments == 0 && m.empty == 0
}

/// Merge is commutative: merging A into B gives the same record as merging
/// B into A.
pub proof fn lemma_merge_commutative(a: FileInfoModel, b: FileInfoModel)
    ensures
        merge_model(a, b) == merge_model(b, a),
{
}

/// Merge is associative.
pub proof fn lemma_merge_associative(a: FileInfoModel, b: FileInfoModel, c: FileInfoModel)
    ensures
        merge_model(merge_model(a, b), c) == merge_model(a, merge_model(b, c)),
{
}

/// The all-zero, non-textual record with `file_count` zero is the merge
/// identity, on either side.
pub proof fn lemma_merge_identity(a: FileInfoModel)
    ensures
        merge_model(identity_model(), a) == a,
        merge_model(a, identity_model()) == a,
{
}

/// The monoid laws combined, as the aggregation uses them: merging A and
/// then B into the identity seed gives the same record as merging B and
/// then A, and merging A alone into the seed gives exactly A.
pub proof fn lemma_merge_seed_order(a: FileInfoModel, b: FileInfoModel)
    ensures
        merge_model(merge_model(identity_model(), a), b) == merge_model(
            merge_model(identity_model(), b),
            a,
        ),
        merge_model(identity_model(), a) == a,
{
}

/// Conservation is preserved by merging: if both records satisfy the record
/// invariant, so does their merge.
pub proof fn lemma_merge_preserves_wf(a: FileInfoModel, b: FileInfoModel)
    requires
        wf_model(a),
        wf_model(b),
    ensures
        wf_model(merge_model(a, b)),
{
}

impl FileInfo {
    /// A fresh record for one textual file with no lines counted yet.
    /// Not the merge identity: this represents an observed, empty file.
    pub fn new() -> (r: Self)
        ensures
            r@ == new_file_model(),
    {
        Self { textual: true, total: 0, code: 0, comments: 0, file_count: 1, empty: 0 }
    }

    /// The record for one non-textual (asset) file.
    pub fn new_non_text() -> (r: Self)
        ensures
            r@ == non_text_model(),
    {
        Self { textual: false, total: 0, code: 0, comments: 0, file_count: 1, empty: 0 }
    }

    /// Merge `other` into this record: field-wise addition, `textual` OR'd.
    pub fn merge_with(&mut self, other: &Self)
        requires
            can_merge(old(self)@, other@),
        ensures
            final(self)@ == merge_model(old(self)@, other@),
    {
        *self = Self {
            textual: self.textual || other.textual,
            total: self.total + other.total,
            code: self.code + other.code,
            empty: self.empty + other.empty,
            comments: self.comments + other.comments,
            file_count: self.file_count + other.file_count,
        }
    }
}

impl Default for FileInfo {
    /// The merge identity, used as the fold seed. Distinct from `new`, which
    /// represents a freshly observed empty file.
    fn default() -> (r: Self)
        ensures
            r@ == identity_model(),
    {
        Self { textual: false, total: 0, code: 0, comments: 0, file_count: 0, empty: 0 }
    }
}

/// `acc` with `total`, and the counter matching verdict `k`, advanced by one.
pub open spec fn bump_model(acc: FileInfoModel, k: LineKind) -> FileInfoModel {
    FileInfoModel {
        total: acc.total + 1,
        code: if k == LineKind::Code {
            acc.code + 1
        } else {
            acc.code
        },
        comments: if k == LineKind::Comment {
            acc.comments + 1
        } else {
            acc.comments
        },
        empty: if k == LineKind::Empty {
            acc.empty + 1
        } else {
            acc.empty
        },
        ..acc
    }
}

/// The record after the classifier, started in state `e`, consumes `lines`
/// in order, given the record `acc` accumulated so far.
pub open spec fn count_from(e: Estimator, lines: Seq<Seq<char>>, acc: FileInfoModel) -> FileInfoModel
    decreases lines.len(),
{
    if lines.len() == 0 {
        acc
    } else {
        let (k, e2) = e.spec_step(lines.first());
        count_from(e2, lines.drop_first(), bump_model(acc, k))
    }
}

/// Counting adds one to `total` per line, split exactly among the three
/// counters, and never touches `textual` or `file_count`.
pub proof fn lemma_count_from_props(e: Estimator, lines: Seq<Seq<char>>, acc: FileInfoModel)
    ensures
        count_from(e, lines, acc).textual == acc.textual,
        count_from(e, lines, acc).file_count == acc.file_count,
        count_from(e, lines, acc).total == acc.total + lines.len(),
        count_from(e, lines, acc).code + count_from(e, lines, acc).comments + count_from(
            e,
            lines,
            acc,
        ).empty == acc.code + acc.comments + acc.empty + lines.len(),
    decreases lines.len(),
{
    if lines.len() > 0 {
        let (k, e2) = e.spec_step(lines.first());
        lemma_count_from_props(e2, lines.drop_first(), bump_model(acc, k));
    }
}

/// Count one file's lines: each line is driven, in order, through the given
/// classifier and the matching counter is advanced. A non-textual file (no
/// classifier) is counted as present with every counter zero. The result is
/// a pure function of the classifier's initial state and the lines; no
/// partial record exists — the caller either gets the whole count or, when
/// reading failed, never calls this at all.
pub fn gen_file_info(line_kind_estimator: Option<Estimator>, lines: &Vec<String>) -> (r: FileInfo)
    ensures
        match line_kind_estimator {
            Some(e) => r@ == count_from(e, lines.deep_view(), new_file_model()),
            None => r@ == non_text_model(),
        },
        wf_model(r@),
        r@.file_count == 1,
        r@.textual <==> line_kind_estimator is Some,
        line_kind_estimator is Some ==> r@.total == lines@.len(),
{
    match line_kind_estimator {
        Some(mut est) => {
            let ghost e0 = est;
            let mut file_info = FileInfo::new();
            let n: usize = lines.len();
            proof {
                assert(lines.deep_view().skip(0) =~= lines.deep_view());
            }
            let mut i: usize = 0;
            while i < n
                invariant
                    n == lines@.len(),
                    i <= n,
                    lines.deep_view().len() == n,
                    count_from(e0, lines.deep_view(), new_file_model()) == count_from(
                        est,
                        lines.deep_view().skip(i as int),
                        file_info@,
                    ),
                    file_info@.textual,
                    file_info@.file_count == 1,
                    file_info@.total == i as nat,
                    file_info@.code + file_info@.comments + file_info@.empty == i as nat,
                decreases n - i,
            {
                let ghost est_before = est;
                let ghost acc_before = file_info@;
                let line_ref: &String = &lines[i];
                let k = est.estimate(line_ref.as_str());
                file_info.total = file_info.total + 1;
                match k {
                    LineKind::Comment => {
                        file_info.comments = file_info.comments + 1;
                    },
                    LineKind::Code => {
                        file_info.code = file_info.code + 1;
                    },
                    LineKind::Empty => {
                        file_info.empty = file_info.empty + 1;
                    },
                }
                proof {
                    let s = lines.deep_view().skip(i as int);
                    assert(lines.deep_view()[i as int] == lines@[i as int]@);
                    assert(s.first() == lines@[i as int]@);
                    assert(s.drop_first() =~= lines.deep_view().skip(i + 1));
                    assert(file_info@ == bump_model(acc_before, k));
                }
                i = i + 1;
            }
            proof {
                assert(lines.deep_view().skip(n as int) =~= Seq::<Seq<char>>::empty());
                lemma_count_from_props(e0, lines.deep_view(), new_file_model());
            }
            file_info
        },
        None => FileInfo::new_non_text(),
    }
}

} // verus!
