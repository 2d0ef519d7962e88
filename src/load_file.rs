//! Loading a question bank from a file: the choice of storage backend by the
//! file's extension, and the classification of every outcome.

use vstd::prelude::*;
use qrate::{ErrorMessage, Excel, QBank, SQLiteDB, QBDB};

use crate::text::{contains_text, same_text, seq_contains};

verus! {

/// Relies on `qrate::QBank`, a parsed question bank, carried through as an
/// opaque value.
#[verifier::external_type_specification]
#[verifier::external_body]
pub struct ExQBank(QBank);

/// Relies on the `Clone` impl of `qrate::QBank`, which the copies of a load's
/// result use; nothing is stated of the copy.
pub assume_specification[ <QBank as Clone>::clone ](q: &QBank) -> QBank;

/// Relies on `qrate::SQLiteDB`, an open SQLite question bank file.
#[verifier::external_type_specification]
#[verifier::external_body]
pub struct ExSQLiteDB(SQLiteDB);

/// Relies on `qrate::Excel`, a spreadsheet question bank file.
#[verifier::external_type_specification]
#[verifier::external_body]
pub struct ExExcel(Excel);

/// Relies on `qrate::ErrorMessage`, the error of qrate's backends; only
/// whether one came back is used.
#[verifier::external_type_specification]
#[verifier::external_body]
pub struct ExErrorMessage(ErrorMessage);

/// The storage backends that a question bank can be read from.
#[derive(Debug, Clone, Copy, PartialEq, Eq, Structural)]
pub enum Backend {
    /// A SQLite database file (`.qbdb`).
    SQLite,
    /// A spreadsheet workbook (`.qb.xlsx`).
    Excel,
}

/// The result of an attempt to load a `QBank`: the bank, or the reason why
/// there is none.
#[derive(Debug, Clone)]
pub enum ResultLoadFile {
    /// The bank was read.
    Success(QBank),
    /// The file does not exist.
    FileNotFound,
    /// The SQLite backend could not open the file.
    FailedToOpenSQLite,
    /// The SQLite file was opened but could not be read as a bank.
    FailedToReadSQLite,
    /// The spreadsheet backend could not open the file.
    FailedToOpenExcel,
    /// The workbook was opened but could not be read as a bank.
    FailedToReadExcel,
    /// A workbook whose path lacks the `.qb.xlsx` marker.
    InvalidExcelExtension,
    /// No backend reads files with this extension (empty when there is none).
    UnsupportedExtension(String),
}

/// What the dispatcher does with a path, decided before any backend is used.
#[derive(Debug, Clone, Copy, PartialEq, Eq, Structural)]
pub enum LoadRoute {
    /// The path does not exist.
    NotFound,
    /// Open the file with this backend.
    Open(Backend),
    /// A workbook without the `.qb.xlsx` marker: no backend is tried.
    InvalidExcelName,
    /// The extension belongs to no backend.
    Unsupported,
}

/// Utility functions for picking and loading question bank files.
#[derive(Debug, Clone)]
pub struct LoadFile;

/// Extension of a SQLite question bank.
pub open spec fn sqlite_extension() -> Seq<char> {
    "qbdb"@
}

/// Extension of a spreadsheet question bank.
pub open spec fn excel_extension() -> Seq<char> {
    "xlsx"@
}

/// What the full path of a spreadsheet question bank must contain.
pub open spec fn excel_marker() -> Seq<char> {
    ".qb.xlsx"@
}

/// The extension of the last component of a path, as the standard library's
/// `Path::extension` computes it; empty where there is none.
pub uninterp spec fn path_extension(path: Seq<char>) -> Seq<char>;

/// The route for a path with extension `ext`, given whether it exists.
pub open spec fn route_spec(path: Seq<char>, ext: Seq<char>, exists: bool) -> LoadRoute {
    if !exists {
        LoadRoute::NotFound
    } else if ext == sqlite_extension() {
        LoadRoute::Open(Backend::SQLite)
    } else if ext == excel_extension() {
        if seq_contains(path, excel_marker()) {
            LoadRoute::Open(Backend::Excel)
        } else {
            LoadRoute::InvalidExcelName
        }
    } else {
        LoadRoute::Unsupported
    }
}

/// The result that reports that `backend` could not open the file.
pub open spec fn open_failure(backend: Backend) -> ResultLoadFile {
    match backend {
        Backend::SQLite => ResultLoadFile::FailedToOpenSQLite,
        Backend::Excel => ResultLoadFile::FailedToOpenExcel,
    }
}

/// The result that reports that `backend` opened the file but could not read it.
pub open spec fn read_failure(backend: Backend) -> ResultLoadFile {
    match backend {
        Backend::SQLite => ResultLoadFile::FailedToReadSQLite,
        Backend::Excel => ResultLoadFile::FailedToReadExcel,
    }
}

/// `r` is a result that a load of `path` (extension `ext`, existing or not as
/// `exists` says) may give: exactly one result where the route alone decides,
/// and the bank or one of the backend's two failures where a backend is used.
pub open spec fn result_fits(path: Seq<char>, ext: Seq<char>, exists: bool, r: ResultLoadFile) -> bool {
    match route_spec(path, ext, exists) {
        LoadRoute::NotFound => r is FileNotFound,
        LoadRoute::InvalidExcelName => r is InvalidExcelExtension,
        LoadRoute::Unsupported => r matches ResultLoadFile::UnsupportedExtension(e) && e@ == ext,
        LoadRoute::Open(b) => r is Success || r == open_failure(b) || r == read_failure(b),
    }
}

/// Relies on `std::path::Path::exists`; whether a path exists depends on the
/// file system at the time of the call, so nothing is stated of the result.
#[verifier::external_body]
fn path_exists(path: &str) -> bool {
    std::path::Path::new(path).exists()
}

/// Relies on `std::path::Path::extension`: the extension of the path's last
/// component, which depends on the path alone; a missing one gives "".
#[verifier::external_body]
fn extension_of(path: &str) -> (r: String)
    ensures
        r@ == path_extension(path@),
{
    std::path::Path::new(path).extension().and_then(|s| s.to_str()).unwrap_or("").to_string()
}

/// Relies on `QBDB::open` of `qrate::SQLiteDB`; its outcome depends on the file.
#[verifier::external_body]
fn sqlite_open(path: String) -> Result<SQLiteDB, ErrorMessage> {
    <SQLiteDB as QBDB>::open(path)
}

/// Relies on `QBDB::read_qbank` of `qrate::SQLiteDB`; its outcome depends on the file.
#[verifier::external_body]
fn sqlite_read(db: &mut SQLiteDB) -> Result<QBank, ErrorMessage> {
    db.read_qbank()
}

/// Relies on `QBDB::open` of `qrate::Excel`; its outcome depends on the file.
#[verifier::external_body]
fn excel_open(path: String) -> Result<Excel, ErrorMessage> {
    <Excel as QBDB>::open(path)
}

/// Relies on `QBDB::read_qbank` of `qrate::Excel`; its outcome depends on the file.
#[verifier::external_body]
fn excel_read(workbook: &mut Excel) -> Result<QBank, ErrorMessage> {
    workbook.read_qbank()
}

/// A path that does not exist is reported as `FileNotFound`, whatever its
/// extension, and no backend is chosen for it.
pub proof fn lemma_missing_path_not_found(path: Seq<char>, ext: Seq<char>, r: ResultLoadFile)
    requires
        result_fits(path, ext, false, r),
    ensures
        route_spec(path, ext, false) == LoadRoute::NotFound,
        r is FileNotFound,
{
}

/// An existing path whose extension belongs to no backend is reported as
/// `UnsupportedExtension`, carrying that extension.
pub proof fn lemma_unknown_extension_unsupported(path: Seq<char>, ext: Seq<char>, r: ResultLoadFile)
    requires
        ext != sqlite_extension(),
        ext != excel_extension(),
        result_fits(path, ext, true, r),
    ensures
        route_spec(path, ext, true) == LoadRoute::Unsupported,
        r matches ResultLoadFile::UnsupportedExtension(e) && e@ == ext,
{
}

/// An existing workbook whose full path lacks `.qb.xlsx` is reported as
/// `InvalidExcelExtension`, and no backend is routed to.
pub proof fn lemma_unmarked_workbook_rejected(path: Seq<char>, r: ResultLoadFile)
    requires
        !seq_contains(path, excel_marker()),
        result_fits(path, excel_extension(), true, r),
    ensures
        route_spec(path, excel_extension(), true) == LoadRoute::InvalidExcelName,
        r is InvalidExcelExtension,
{
    reveal_strlit("xlsx");
    reveal_strlit("qbdb");
    assert(excel_extension()[0] != sqlite_extension()[0]);
}

impl LoadFile {
    /// Decides what to do with `path`, whose extension is `extension`, given
    /// whether it exists. A workbook is routed to its backend only where the
    /// full path contains `.qb.xlsx`.
    pub fn route_load(path: &str, extension: &str, exists: bool) -> (r: LoadRoute)
        ensures
            r == route_spec(path@, extension@, exists),
    {
        if !exists {
            LoadRoute::NotFound
        } else if same_text(extension, "qbdb") {
            LoadRoute::Open(Backend::SQLite)
        } else if same_text(extension, "xlsx") {
            if contains_text(path, ".qb.xlsx") {
                LoadRoute::Open(Backend::Excel)
            } else {
                LoadRoute::InvalidExcelName
            }
        } else {
            LoadRoute::Unsupported
        }
    }

    /// Classifies what a backend gave back: `None` where it could not open the
    /// file, else the outcome of reading a bank from it.
    pub fn load_outcome(backend: Backend, read: Option<Result<QBank, ErrorMessage>>) -> (r: ResultLoadFile)
        ensures
            read is None ==> r == open_failure(backend),
            read matches Some(Err(_)) ==> r == read_failure(backend),
            read matches Some(Ok(q)) ==> r == ResultLoadFile::Success(q),
    {
        match read {
            None => match backend {
                Backend::SQLite => ResultLoadFile::FailedToOpenSQLite,
                Backend::Excel => ResultLoadFile::FailedToOpenExcel,
            },
            Some(Err(_)) => match backend {
                Backend::SQLite => ResultLoadFile::FailedToReadSQLite,
                Backend::Excel => ResultLoadFile::FailedToReadExcel,
            },
            Some(Ok(q)) => ResultLoadFile::Success(q),
        }
    }

    /// Opens the file at `path` with `backend` and reads a bank from it. The
    /// spreadsheet backend is never asked to open a path without the marker.
    fn read_with_backend(backend: Backend, path: String) -> (r: ResultLoadFile)
        requires
            backend == Backend::Excel ==> seq_contains(path@, excel_marker()),
        ensures
            r is Success || r == open_failure(backend) || r == read_failure(backend),
    {
        let read = match backend {
            Backend::SQLite => match sqlite_open(path) {
                Ok(mut db) => Some(sqlite_read(&mut db)),
                Err(_) => None,
            },
            Backend::Excel => match excel_open(path) {
                Ok(mut workbook) => Some(excel_read(&mut workbook)),
                Err(_) => None,
            },
        };
        Self::load_outcome(backend, read)
    }

    /// Loads a `QBank` from the file at `path`, choosing the backend by the
    /// file's extension. Whether the file exists, and what the backend reads
    /// from it, depend on the file system; the result is one that the route
    /// allows for the existence that the file system reported.
    pub fn load_qbank_from_path(path: String) -> (r: ResultLoadFile)
        ensures
            result_fits(path@, path_extension(path@), false, r)
                || result_fits(path@, path_extension(path@), true, r),
    {
        let exists = path_exists(path.as_str());
        let extension = extension_of(path.as_str());
        match Self::route_load(path.as_str(), extension.as_str(), exists) {
            LoadRoute::NotFound => ResultLoadFile::FileNotFound,
            LoadRoute::InvalidExcelName => ResultLoadFile::InvalidExcelExtension,
            LoadRoute::Unsupported => ResultLoadFile::UnsupportedExtension(extension),
            LoadRoute::Open(backend) => Self::read_with_backend(backend, path),
        }
    }
}

} // verus!
