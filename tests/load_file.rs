use qrate::{Choices, Excel, QBank, Question, SQLiteDB, QBDB};
use qrate_gui::load_file::{Backend, LoadFile, LoadRoute, ResultLoadFile};

#[test]
fn missing_paths_are_not_found_whatever_the_extension() {
    for path in [
        "no/such/dir/bank.qbdb",
        "no/such/dir/bank.qb.xlsx",
        "no/such/dir/bank.xlsx",
        "no/such/dir/notes.txt",
        "no/such/dir/noext",
        "",
    ] {
        let r = LoadFile::load_qbank_from_path(path.to_string());
        assert!(matches!(r, ResultLoadFile::FileNotFound), "{}", path);
    }
}

#[test]
fn route_of_missing_path_is_not_found() {
    assert_eq!(LoadFile::route_load("a.qbdb", "qbdb", false), LoadRoute::NotFound);
    assert_eq!(LoadFile::route_load("a.qb.xlsx", "xlsx", false), LoadRoute::NotFound);
    assert_eq!(LoadFile::route_load("a.txt", "txt", false), LoadRoute::NotFound);
}

#[test]
fn route_by_extension() {
    assert_eq!(LoadFile::route_load("bank.qbdb", "qbdb", true), LoadRoute::Open(Backend::SQLite));
    assert_eq!(LoadFile::route_load("bank.qb.xlsx", "xlsx", true), LoadRoute::Open(Backend::Excel));
    assert_eq!(LoadFile::route_load("notes.txt", "txt", true), LoadRoute::Unsupported);
    assert_eq!(LoadFile::route_load("noext", "", true), LoadRoute::Unsupported);
    assert_eq!(LoadFile::route_load("bank.QBDB", "QBDB", true), LoadRoute::Unsupported);
}

#[test]
fn workbook_without_marker_is_rejected_before_opening() {
    assert_eq!(LoadFile::route_load("bank.xlsx", "xlsx", true), LoadRoute::InvalidExcelName);
    assert_eq!(LoadFile::route_load("dir/bank.qb-xlsx.xlsx", "xlsx", true), LoadRoute::InvalidExcelName);
}

#[test]
fn workbook_marker_is_searched_in_the_whole_path() {
    // A containment test, not a suffix test: the marker may stand in a directory name.
    assert_eq!(
        LoadFile::route_load("exams.qb.xlsx.d/bank.xlsx", "xlsx", true),
        LoadRoute::Open(Backend::Excel)
    );
}

#[test]
fn existing_file_with_unknown_extension_is_unsupported() {
    let r = LoadFile::load_qbank_from_path("src/lib.rs".to_string());
    match r {
        ResultLoadFile::UnsupportedExtension(e) => assert_eq!(e, "rs"),
        other => panic!("unexpected {:?}", other),
    }
}

#[test]
fn existing_file_without_extension_is_unsupported_with_empty_extension() {
    let r = LoadFile::load_qbank_from_path("src".to_string());
    match r {
        ResultLoadFile::UnsupportedExtension(e) => assert_eq!(e, ""),
        other => panic!("unexpected {:?}", other),
    }
}

#[test]
fn sqlite_file_without_a_bank_fails_to_read() {
    // A database with the tables but no header row: it opens, and reading fails.
    let path = "/tmp/qrate_gui_headerless_bank_for_test.qbdb";
    {
        let mut db = SQLiteDB::open(path.to_string()).unwrap();
        let _ = db.make_tables(2, 4);
    }
    let r = LoadFile::load_qbank_from_path(path.to_string());
    assert!(matches!(r, ResultLoadFile::FailedToReadSQLite), "{:?}", r);
}

#[test]
fn outcome_of_each_backend_result() {
    assert!(matches!(LoadFile::load_outcome(Backend::SQLite, None), ResultLoadFile::FailedToOpenSQLite));
    assert!(matches!(LoadFile::load_outcome(Backend::Excel, None), ResultLoadFile::FailedToOpenExcel));
    let e = qrate::ErrorMessage::FailedToOpenQBank;
    assert!(matches!(
        LoadFile::load_outcome(Backend::SQLite, Some(Err(e.clone()))),
        ResultLoadFile::FailedToReadSQLite
    ));
    assert!(matches!(
        LoadFile::load_outcome(Backend::Excel, Some(Err(e))),
        ResultLoadFile::FailedToReadExcel
    ));
    let r = LoadFile::load_outcome(Backend::Excel, Some(Ok(QBank::new_with_default())));
    match r {
        ResultLoadFile::Success(q) => assert!(q.get_questions().is_empty()),
        other => panic!("unexpected {:?}", other),
    }
}

fn write_sample_bank(path: &str) {
    let mut db = SQLiteDB::open(path.to_string()).unwrap();
    if db.read_qbank().is_ok() {
        return;
    }
    db.write_header_with_default().unwrap();
    let mut qbank = QBank::new_with_default();
    let choices: Choices = vec![("Ans1".to_string(), true), ("Ans2".to_string(), false)];
    qbank.push_question(Question::new(1, 1, 1, "Test Q".to_string(), choices));
    db.write_qbank(&qbank).unwrap();
}

#[test]
fn loading_the_same_bank_twice_gives_equal_banks() {
    let path = "/tmp/qrate_gui_sample_bank_for_reload_test.qbdb";
    write_sample_bank(path);
    let first = LoadFile::load_qbank_from_path(path.to_string());
    let second = LoadFile::load_qbank_from_path(path.to_string());
    match (first, second) {
        (ResultLoadFile::Success(a), ResultLoadFile::Success(b)) => {
            assert_eq!(a.get_questions().len(), 1);
            assert_eq!(format!("{:?}", a), format!("{:?}", b));
        },
        (a, b) => panic!("unexpected {:?} / {:?}", a, b),
    }
}

#[test]
fn existing_marked_workbook_goes_to_the_spreadsheet_backend() {
    let mut workbook = <Excel as QBDB>::open("/tmp/qrate_gui_workbook_for_test".to_string()).unwrap();
    let mut qbank = QBank::new_with_default();
    let choices: Choices = vec![("Ans1".to_string(), true), ("Ans2".to_string(), false)];
    qbank.push_question(Question::new(1, 1, 1, "Test Q".to_string(), choices));
    workbook.write_qbank(&qbank).unwrap();
    let r = LoadFile::load_qbank_from_path("/tmp/qrate_gui_workbook_for_test.qb.xlsx".to_string());
    assert!(
        matches!(
            r,
            ResultLoadFile::Success(_) | ResultLoadFile::FailedToOpenExcel | ResultLoadFile::FailedToReadExcel
        ),
        "{:?}",
        r
    );
}
