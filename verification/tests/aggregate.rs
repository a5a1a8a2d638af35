use locs::aggregate::apply_outcome;
use locs::aggregate::AggregationTable;
use locs::aggregate::FileOutcome;
use locs::file_info::gen_file_info;
use locs::file_info::FileInfo;
use locs::language::make_line_kind_estimator;
use locs::language::Language;
use locs::report::SortBy;
use locs::report::TableKey;

fn lines(xs: &[&str]) -> Vec<String> {
    xs.iter().map(|s| s.to_string()).collect()
}

fn row_for(table: &AggregationTable, language: Language) -> Option<FileInfo> {
    table.rows().iter().find(|(l, _)| *l == language).map(|(_, r)| *r)
}

#[test]
fn two_files_of_one_language_sum() {
    let a = gen_file_info(make_line_kind_estimator(Language::Rust), &lines(&["// c", "x();"]));
    let b = gen_file_info(
        make_line_kind_estimator(Language::Rust),
        &lines(&["", "y();", "z();"]),
    );
    let mut table = AggregationTable::new();
    table.record(Language::Rust, &a);
    table.record(Language::Rust, &b);

    let row = row_for(&table, Language::Rust).unwrap();
    assert_eq!(row.file_count, 2);
    assert_eq!(row.total, 5);
    assert_eq!(row.code, 3);
    assert_eq!(row.comments, 1);
    assert_eq!(row.empty, 1);
    assert_eq!(table.rows().len(), 1);
    assert_eq!(*table.grand_total(), row);
}

#[test]
fn merge_order_does_not_change_totals() {
    let a = FileInfo { textual: true, total: 3, code: 1, comments: 1, empty: 1, file_count: 1 };
    let b = FileInfo { textual: true, total: 4, code: 4, comments: 0, empty: 0, file_count: 1 };
    let c = FileInfo { textual: false, total: 0, code: 0, comments: 0, empty: 0, file_count: 1 };

    let orders: [[(Language, FileInfo); 3]; 3] = [
        [(Language::Rust, a), (Language::C, b), (Language::Asset, c)],
        [(Language::Asset, c), (Language::Rust, a), (Language::C, b)],
        [(Language::C, b), (Language::Asset, c), (Language::Rust, a)],
    ];

    let mut totals = Vec::new();
    let mut rust_rows = Vec::new();
    for order in &orders {
        let mut table = AggregationTable::new();
        for (language, record) in order {
            table.record(*language, record);
        }
        totals.push(*table.grand_total());
        rust_rows.push(row_for(&table, Language::Rust).unwrap());
        assert_eq!(row_for(&table, Language::C).unwrap(), b);
        assert_eq!(row_for(&table, Language::Asset).unwrap(), c);
    }
    assert_eq!(totals[0], totals[1]);
    assert_eq!(totals[1], totals[2]);
    assert_eq!(rust_rows[0], rust_rows[1]);
    assert_eq!(rust_rows[1], rust_rows[2]);
}

#[test]
fn grand_total_is_fold_of_rows() {
    let a = FileInfo { textual: true, total: 3, code: 1, comments: 1, empty: 1, file_count: 1 };
    let b = FileInfo { textual: true, total: 4, code: 4, comments: 0, empty: 0, file_count: 1 };
    let mut table = AggregationTable::new();
    table.record(Language::Rust, &a);
    table.record(Language::C, &b);
    table.record(Language::Rust, &a);

    let mut folded = FileInfo::default();
    for (_, row) in table.rows().iter() {
        folded.merge_with(row);
    }
    assert_eq!(folded, *table.grand_total());
    assert_eq!(table.grand_total().file_count, 3);
    assert_eq!(table.grand_total().total, 10);
}

#[test]
fn one_bad_entry_does_not_stop_the_run() {
    let good = gen_file_info(make_line_kind_estimator(Language::Rust), &lines(&["x();"]));
    let mut table = AggregationTable::new();
    let mut errors: Vec<String> = Vec::new();

    apply_outcome(
        &mut table,
        &mut errors,
        FileOutcome::Failed("sub: permission denied".to_string()),
    );
    apply_outcome(&mut table, &mut errors, FileOutcome::Skipped);
    apply_outcome(&mut table, &mut errors, FileOutcome::Counted(Language::Rust, good));

    assert_eq!(errors.len(), 1);
    assert_eq!(errors[0], "sub: permission denied");
    assert_eq!(table.grand_total().file_count, 1);
    assert_eq!(row_for(&table, Language::Rust).unwrap().code, 1);
}

#[test]
fn report_keys_have_display_names() {
    assert_eq!(TableKey::Language(Language::Rust).display_name(), "Rust");
    assert_eq!(TableKey::Total.display_name(), "Total");
    assert_eq!(SortBy::default().name(), "code");
    assert_eq!(SortBy::Language.name(), "language");
    assert_eq!(SortBy::Total.name(), "total");
}
