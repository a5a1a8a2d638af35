use locs::file_info::gen_file_info;
use locs::language::make_line_kind_estimator;
use locs::language::Language;
use locs::line_kind::Estimator;
use locs::line_kind::Generic;
use locs::line_kind::GenericWithComment;
use locs::line_kind::LineKind;
use locs::line_kind::LineKindEstimator;
use locs::line_kind::MultilineCommentAware;

fn lines(xs: &[&str]) -> Vec<String> {
    xs.iter().map(|s| s.to_string()).collect()
}

#[test]
fn rust_like_three_line_file() {
    let est = make_line_kind_estimator(Language::Rust);
    let r = gen_file_info(est, &lines(&["// comment", "", "fn f() {}"]));
    assert!(r.textual);
    assert_eq!(r.total, 3);
    assert_eq!(r.code, 1);
    assert_eq!(r.comments, 1);
    assert_eq!(r.empty, 1);
    assert_eq!(r.file_count, 1);
}

#[test]
fn block_comment_spanning_lines() {
    let est = Some(Estimator::MultilineAware(MultilineCommentAware::new("//", ["/*", "*/"])));
    let r = gen_file_info(est, &lines(&["/* start", "still comment", "end */", "code();"]));
    assert_eq!(r.comments, 3);
    assert_eq!(r.code, 1);
    assert_eq!(r.total, 4);
}

#[test]
fn single_line_block_comment_does_not_enter_block() {
    let mut est = MultilineCommentAware::new("//", ["/*", "*/"]);
    assert!(matches!(est.estimate("/* one line */"), LineKind::Comment));
    assert!(matches!(est.estimate("code();"), LineKind::Code));
}

#[test]
fn close_token_with_trailing_code_still_whole_comment() {
    let mut est = MultilineCommentAware::new("//", ["/*", "*/"]);
    assert!(matches!(est.estimate("/* open"), LineKind::Comment));
    assert!(matches!(est.estimate("end */ trailing();"), LineKind::Comment));
    assert!(matches!(est.estimate("after();"), LineKind::Code));
}

#[test]
fn line_comment_token_wins_over_code() {
    let mut est = MultilineCommentAware::new("//", ["/*", "*/"]);
    assert!(matches!(est.estimate("  // indented comment"), LineKind::Comment));
    assert!(matches!(est.estimate("\t"), LineKind::Empty));
    assert!(matches!(est.estimate("let x = 1; // trailing"), LineKind::Code));
}

#[test]
fn hash_comment_language() {
    let mut est = GenericWithComment::new("#");
    assert!(matches!(est.estimate("# a comment"), LineKind::Comment));
    assert!(matches!(est.estimate("value = 3"), LineKind::Code));
    assert!(matches!(est.estimate("   "), LineKind::Empty));
}

#[test]
fn structural_language_never_reports_comments() {
    let mut est = Generic;
    assert!(matches!(est.estimate("# not a comment here"), LineKind::Code));
    assert!(matches!(est.estimate(""), LineKind::Empty));
    let kinds = est.available_line_kinds();
    assert!(kinds.code);
    assert!(!kinds.comment);
    assert!(kinds.empty);
}

#[test]
fn reclassification_repeats_the_same_verdicts() {
    let input = ["/* a", "b */", "", "// c", "d();"];
    let mut first = MultilineCommentAware::new("//", ["/*", "*/"]);
    let mut second = MultilineCommentAware::new("//", ["/*", "*/"]);
    for line in input {
        let a = first.estimate(line);
        let b = second.estimate(line);
        assert_eq!(a, b);
    }
    let r1 = gen_file_info(make_line_kind_estimator(Language::C), &lines(&input));
    let r2 = gen_file_info(make_line_kind_estimator(Language::C), &lines(&input));
    assert_eq!(r1, r2);
}

#[test]
fn multiline_estimator_reports_all_kinds() {
    let est = MultilineCommentAware::new("//", ["/*", "*/"]);
    let kinds = est.available_line_kinds();
    assert!(kinds.code && kinds.comment && kinds.empty);
    let est = GenericWithComment::new("#");
    let kinds = est.available_line_kinds();
    assert!(kinds.code && kinds.comment && kinds.empty);
}

#[test]
fn indented_block_open_still_enters_block() {
    let mut est = MultilineCommentAware::new("//", ["/*", "*/"]);
    assert!(matches!(est.estimate("   /* opens here"), LineKind::Comment));
    assert!(matches!(est.estimate("still inside"), LineKind::Comment));
    assert!(matches!(est.estimate("  */  "), LineKind::Comment));
    assert!(matches!(est.estimate("done();"), LineKind::Code));
}

#[test]
fn registry_matches_language_comment_syntax() {
    assert!(make_line_kind_estimator(Language::Asset).is_none());
    assert!(make_line_kind_estimator(Language::Lockfile).is_none());
    assert!(matches!(
        make_line_kind_estimator(Language::Rust),
        Some(Estimator::CommentAware(_))
    ));
    assert!(matches!(
        make_line_kind_estimator(Language::C),
        Some(Estimator::MultilineAware(_))
    ));
    assert!(matches!(make_line_kind_estimator(Language::Json), Some(Estimator::Plain(_))));
    assert!(matches!(
        make_line_kind_estimator(Language::Tex),
        Some(Estimator::CommentAware(_))
    ));
}
