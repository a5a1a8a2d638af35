use locs::file_info::gen_file_info;
use locs::file_info::FileInfo;
use locs::language::make_line_kind_estimator;
use locs::language::Language;

fn lines(xs: &[&str]) -> Vec<String> {
    xs.iter().map(|s| s.to_string()).collect()
}

#[test]
fn identity_differs_from_fresh_empty_file() {
    let id = FileInfo::default();
    assert!(!id.textual);
    assert_eq!(id.file_count, 0);
    assert_eq!((id.total, id.code, id.comments, id.empty), (0, 0, 0, 0));

    let fresh = FileInfo::new();
    assert!(fresh.textual);
    assert_eq!(fresh.file_count, 1);
    assert_eq!((fresh.total, fresh.code, fresh.comments, fresh.empty), (0, 0, 0, 0));

    let non_text = FileInfo::new_non_text();
    assert!(!non_text.textual);
    assert_eq!(non_text.file_count, 1);
}

#[test]
fn merging_into_identity_gives_back_the_record() {
    let mut id = FileInfo::default();
    let a = FileInfo { textual: true, total: 7, code: 4, comments: 2, empty: 1, file_count: 1 };
    id.merge_with(&a);
    assert_eq!(id, a);
}

#[test]
fn merge_seed_order_is_irrelevant() {
    let a = FileInfo { textual: true, total: 7, code: 4, comments: 2, empty: 1, file_count: 1 };
    let b = FileInfo { textual: false, total: 0, code: 0, comments: 0, empty: 0, file_count: 1 };

    let mut ab = FileInfo::default();
    ab.merge_with(&a);
    ab.merge_with(&b);

    let mut ba = FileInfo::default();
    ba.merge_with(&b);
    ba.merge_with(&a);

    assert_eq!(ab, ba);
}

#[test]
fn merge_adds_field_wise_and_ors_textual() {
    let mut a = FileInfo { textual: false, total: 0, code: 0, comments: 0, empty: 0, file_count: 3 };
    let b = FileInfo { textual: true, total: 10, code: 5, comments: 3, empty: 2, file_count: 2 };
    a.merge_with(&b);
    assert!(a.textual);
    assert_eq!(a.total, 10);
    assert_eq!(a.code, 5);
    assert_eq!(a.comments, 3);
    assert_eq!(a.empty, 2);
    assert_eq!(a.file_count, 5);
}

#[test]
fn merge_at_the_edge_of_the_machine() {
    let mut a = FileInfo {
        textual: true,
        total: usize::MAX - 5,
        code: usize::MAX - 5,
        comments: 0,
        empty: 0,
        file_count: 1,
    };
    let b = FileInfo { textual: true, total: 5, code: 5, comments: 0, empty: 0, file_count: 1 };
    a.merge_with(&b);
    assert_eq!(a.total, usize::MAX);
    assert_eq!(a.code, usize::MAX);
    assert_eq!(a.file_count, 2);
}

#[test]
fn counting_conserves_totals() {
    let content = ["fn main() {", "    // greet", "", "    print();", "}", "\t", "/* x */"];
    let r = gen_file_info(make_line_kind_estimator(Language::Rust), &lines(&content));
    assert_eq!(r.total, content.len());
    assert_eq!(r.total, r.code + r.comments + r.empty);
}

#[test]
fn non_textual_file_has_no_line_counts() {
    // An asset file's content is never read: whatever lines are offered,
    // the record stays all-zero with one file counted.
    let est = make_line_kind_estimator(Language::Asset);
    let r = gen_file_info(est, &lines(&["\u{0}binary", "junk"]));
    assert!(!r.textual);
    assert_eq!(r.total, 0);
    assert_eq!(r.code, 0);
    assert_eq!(r.comments, 0);
    assert_eq!(r.empty, 0);
    assert_eq!(r.file_count, 1);
}

#[test]
fn empty_file_still_counts_as_a_file() {
    let r = gen_file_info(make_line_kind_estimator(Language::Rust), &lines(&[]));
    assert!(r.textual);
    assert_eq!(r.total, 0);
    assert_eq!(r.file_count, 1);
    assert_ne!(r, FileInfo::default());
}

#[test]
fn lines_keep_their_trailing_newlines() {
    // A reader may hand lines over with the newline still attached; the
    // classifier trims, so the verdicts are the same either way.
    let with_newlines = lines(&["// comment\n", "\n", "fn f() {}\n"]);
    let without = lines(&["// comment", "", "fn f() {}"]);
    let a = gen_file_info(make_line_kind_estimator(Language::Rust), &with_newlines);
    let b = gen_file_info(make_line_kind_estimator(Language::Rust), &without);
    assert_eq!(a, b);
    assert_eq!(a.comments, 1);
    assert_eq!(a.empty, 1);
    assert_eq!(a.code, 1);
}
