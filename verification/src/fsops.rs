//! Filesystem access: the decisions behind the bridge's path and
//! directory operations, on plain values.
//!
//! The bridge's file operations are thin: the reading and writing happens
//! at the boundary, and what this module holds is each operation's
//! outcome model — when a missing path is an ordinary result, when a
//! failure is reported and with which reason, and how a directory's
//! children become listing snapshots.

use vstd::prelude::*;
use vstd::string::StrSliceExecFns;
use vstd::string::StringExecFns;

verus! {

/// A failure of a filesystem operation, each holding the platform's own
/// description of the underlying fault where there is one.
#[derive(Debug, PartialEq, Eq)]
pub enum FsError {
    /// The user's home directory could not be determined.
    HomeUnavailable,
    /// Creating the directory (or a missing ancestor) failed.
    CreateFailed(String),
    /// The writability probe's sentinel write was rejected.
    NotWritable(String),
    /// The file's bytes could not be written.
    WriteFailed(String),
    /// The directory's children could not be read.
    ListFailed(String),
}

impl FsError {
    /// A human-readable description of the failure: never empty, naming
    /// exactly the operation that failed and carrying the platform's own
    /// reason word for word.
    pub fn describe(&self) -> (r: String)
        ensures
            r@.len() > 0,
            (match *self {
                FsError::HomeUnavailable => r@ == "the home directory could not be determined"@,
                FsError::CreateFailed(m) => r@ == "creating the directory failed: "@ + m@,
                FsError::NotWritable(m) => r@ == "path is not writable: "@ + m@,
                FsError::WriteFailed(m) => r@ == "writing the file failed: "@ + m@,
                FsError::ListFailed(m) => r@ == "reading the directory failed: "@ + m@,
            }),
    {
        proof {
            reveal_strlit("the home directory could not be determined");
            reveal_strlit("creating the directory failed: ");
            reveal_strlit("path is not writable: ");
            reveal_strlit("writing the file failed: ");
            reveal_strlit("reading the directory failed: ");
        }
        match self {
            FsError::HomeUnavailable => String::from_str(
                "the home directory could not be determined",
            ),
            FsError::CreateFailed(m) => String::from_str("creating the directory failed: ").concat(
                m.as_str(),
            ),
            FsError::NotWritable(m) => String::from_str("path is not writable: ").concat(
                m.as_str(),
            ),
            FsError::WriteFailed(m) => String::from_str("writing the file failed: ").concat(
                m.as_str(),
            ),
            FsError::ListFailed(m) => String::from_str("reading the directory failed: ").concat(
                m.as_str(),
            ),
        }
    }
}

/// The fixed directory name that the default storage path puts under the
/// user's home directory.
pub fn storage_dir_name() -> (r: &'static str)
    ensures
        r@ == "PixcoreStorage"@,
{
    "PixcoreStorage"
}

/// `name` joined under `dir` with exactly one separator between them.
pub open spec fn joined_path(dir: Seq<char>, name: Seq<char>) -> Seq<char> {
    if dir.len() == 0 {
        name
    } else if dir.last() == '/' {
        dir + name
    } else {
        dir + seq!['/'] + name
    }
}

/// Joins `name` under the directory `dir`, inserting a separator unless
/// `dir` already ends in one.
pub fn join_path(dir: &str, name: &str) -> (r: String)
    ensures
        r@ == joined_path(dir@, name@),
{
    let n: usize = dir.unicode_len();
    if n == 0 {
        return name.to_owned();
    }
    let last = dir.get_char(n - 1);
    let mut out = dir.to_owned();
    if last != '/' {
        proof {
            reveal_strlit("/");
            assert("/"@ =~= seq!['/']);
        }
        out.append("/");
    }
    out.append(name);
    out
}

/// Relies on dirs::home_dir: the user's home directory as text, if the
/// platform knows one; the answer depends on the environment.
#[verifier::external_body]
pub(crate) fn home_dir_string() -> (r: Option<String>) {
    match dirs::home_dir() {
        Some(p) => Some(p.to_string_lossy().to_string()),
        None => None,
    }
}

/// Resolves the default storage path from a home-directory answer: the
/// fixed storage directory name joined under the home directory, or
/// `HomeUnavailable` when no home directory is known.
pub fn default_storage_path_from(home: Option<String>) -> (r: Result<String, FsError>)
    ensures
        (match home {
            Some(h) => (r matches Ok(p) && p@ == joined_path(h@, "PixcoreStorage"@)),
            None => r == Err::<String, FsError>(FsError::HomeUnavailable),
        }),
{
    match home {
        Some(h) => Ok(join_path(h.as_str(), storage_dir_name())),
        None => Err(FsError::HomeUnavailable),
    }
}

/// The default storage path: the fixed storage directory name joined
/// under the user's home directory; fails exactly when no home directory
/// is known.
pub fn get_default_storage_path() -> (r: Result<String, FsError>)
    ensures
        (r matches Ok(p) ==> exists|h: Seq<char>| p@ == joined_path(h, "PixcoreStorage"@)),
        (r matches Err(e) ==> e == FsError::HomeUnavailable),
{
    let home = home_dir_string();
    let ghost home0 = home;
    let r = default_storage_path_from(home);
    proof {
        if r is Ok {
            assert(r->Ok_0@ == joined_path(home0->0@, "PixcoreStorage"@));
        }
    }
    r
}

/// Decides the ensure-directory outcome from the creation attempt, which
/// the caller makes only when the directory is absent: the operation is
/// idempotent, and the one failure is a failed create.
pub fn ensure_directory_outcome(create_error: Option<String>) -> (r: Result<bool, FsError>)
    ensures
        (match create_error {
            Some(m) => r == Err::<bool, FsError>(FsError::CreateFailed(m)),
            None => r == Ok::<bool, FsError>(true),
        }),
{
    match create_error {
        Some(m) => Err(FsError::CreateFailed(m)),
        None => Ok(true),
    }
}

/// Decides the writability outcome of a probe: the path is writable
/// exactly when the directory could be made and the sentinel write
/// succeeded; removing the sentinel afterwards never changes the outcome.
pub fn check_writable_outcome(create_error: Option<String>, write_error: Option<String>) -> (r:
    Result<bool, FsError>)
    ensures
        (match create_error {
            Some(m) => r == Err::<bool, FsError>(FsError::CreateFailed(m)),
            None => (match write_error {
                Some(m) => r == Err::<bool, FsError>(FsError::NotWritable(m)),
                None => r == Ok::<bool, FsError>(true),
            }),
        }),
{
    match create_error {
        Some(m) => Err(FsError::CreateFailed(m)),
        None => match write_error {
            Some(m) => Err(FsError::NotWritable(m)),
            None => Ok(true),
        },
    }
}

/// Decides the write-file outcome: the write succeeds exactly when the
/// parent directories could be made and the byte write itself succeeded,
/// each failure carrying its operation-specific reason.
pub fn write_file_outcome(create_error: Option<String>, write_error: Option<String>) -> (r: Result<
    (),
    FsError,
>)
    ensures
        (match create_error {
            Some(m) => r == Err::<(), FsError>(FsError::CreateFailed(m)),
            None => (match write_error {
                Some(m) => r == Err::<(), FsError>(FsError::WriteFailed(m)),
                None => r is Ok,
            }),
        }),
{
    match create_error {
        Some(m) => Err(FsError::CreateFailed(m)),
        None => match write_error {
            Some(m) => Err(FsError::WriteFailed(m)),
            None => Ok(()),
        },
    }
}

/// A read-only snapshot of one directory child at listing time: stale
/// immediately after creation, with no live binding to the filesystem.
#[derive(Debug)]
pub struct FileInfo {
    pub name: String,
    pub path: String,
    pub is_directory: bool,
    pub size: u64,
}

/// The mathematical value of a `FileInfo`.
pub struct FileInfoView {
    pub name: Seq<char>,
    pub path: Seq<char>,
    pub is_directory: bool,
    pub size: u64,
}

impl View for FileInfo {
    type V = FileInfoView;

    open spec fn view(&self) -> FileInfoView {
        FileInfoView {
            name: self.name@,
            path: self.path@,
            is_directory: self.is_directory,
            size: self.size,
        }
    }
}

/// A directory child's metadata, where it could be read.
#[derive(Debug, Clone, Copy, PartialEq, Eq, Structural)]
pub struct EntryMeta {
    pub is_directory: bool,
    pub size: u64,
}

/// One directory child as the boundary hands it over: its name, its
/// path, and its metadata — `None` where the metadata could not be read.
#[derive(Debug)]
pub struct DirEntryRecord {
    pub name: String,
    pub path: String,
    pub meta: Option<EntryMeta>,
}

/// The mathematical value of a `DirEntryRecord`.
pub struct DirEntryRecordView {
    pub name: Seq<char>,
    pub path: Seq<char>,
    pub meta: Option<EntryMeta>,
}

impl View for DirEntryRecord {
    type V = DirEntryRecordView;

    open spec fn view(&self) -> DirEntryRecordView {
        DirEntryRecordView { name: self.name@, path: self.path@, meta: self.meta }
    }
}

/// The snapshot made of one readable child.
pub open spec fn snapshot_of(d: DirEntryRecordView, m: EntryMeta) -> FileInfoView {
    FileInfoView { name: d.name, path: d.path, is_directory: m.is_directory, size: m.size }
}

/// The listing that a sequence of children yields: one snapshot per child
/// whose metadata could be read, in order, the others silently skipped.
pub open spec fn listing_of(records: Seq<DirEntryRecordView>) -> Seq<FileInfoView>
    decreases records.len(),
{
    if records.len() == 0 {
        Seq::empty()
    } else {
        listing_of(records.drop_last()) + (match records.last().meta {
            Some(m) => seq![snapshot_of(records.last(), m)],
            None => Seq::empty(),
        })
    }
}

/// The views of a sequence of records.
pub open spec fn records_view(records: Seq<DirEntryRecord>) -> Seq<DirEntryRecordView> {
    records.map_values(|d: DirEntryRecord| d@)
}

/// The views of a sequence of snapshots.
pub open spec fn infos_view(infos: Seq<FileInfo>) -> Seq<FileInfoView> {
    infos.map_values(|f: FileInfo| f@)
}

proof fn lemma_listing_push(s: Seq<DirEntryRecordView>, d: DirEntryRecordView)
    ensures
        listing_of(s.push(d)) == listing_of(s) + (match d.meta {
            Some(m) => seq![snapshot_of(d, m)],
            None => Seq::<FileInfoView>::empty(),
        }),
{
    assert(s.push(d).drop_last() =~= s);
    assert(s.push(d).last() == d);
}

/// What the boundary found when asked to list a path.
pub enum DirReadReply {
    /// The path does not exist.
    Absent,
    /// The path exists, but its children could not be read.
    Unreadable(String),
    /// The children, each with its metadata where that could be read.
    Children(Vec<DirEntryRecord>),
}

/// Builds the listing outcome: a nonexistent path lists as empty — an
/// ordinary result, not a failure —, an unreadable directory is
/// `ListFailed`, and each child with readable metadata becomes one
/// snapshot, children without one being skipped rather than failing the
/// whole listing.
pub fn list_directory_from(reply: DirReadReply) -> (r: Result<Vec<FileInfo>, FsError>)
    ensures
        (match reply {
            DirReadReply::Absent => (r matches Ok(v) && v@.len() == 0),
            DirReadReply::Unreadable(m) => r == Err::<Vec<FileInfo>, FsError>(
                FsError::ListFailed(m),
            ),
            DirReadReply::Children(records) => (r matches Ok(v) && infos_view(v@) == listing_of(
                records_view(records@),
            )),
        }),
{
    match reply {
        DirReadReply::Absent => Ok(Vec::new()),
        DirReadReply::Unreadable(m) => Err(FsError::ListFailed(m)),
        DirReadReply::Children(records) => {
            let n = records.len();
            let mut out: Vec<FileInfo> = Vec::new();
            let mut i: usize = 0;
            while i < n
                invariant
                    i <= n,
                    n == records@.len(),
                    infos_view(out@) == listing_of(records_view(records@.take(i as int))),
                decreases n - i,
            {
                let rec = &records[i];
                let ghost out0 = out@;
                match &rec.meta {
                    Some(m) => {
                        out.push(
                            FileInfo {
                                name: rec.name.clone(),
                                path: rec.path.clone(),
                                is_directory: m.is_directory,
                                size: m.size,
                            },
                        );
                    },
                    None => {},
                }
                proof {
                    let prefix = records_view(records@.take(i as int));
                    assert(records_view(records@.take(i as int + 1)) =~= prefix.push(
                        records@[i as int]@,
                    ));
                    lemma_listing_push(prefix, records@[i as int]@);
                    if records@[i as int]@.meta is Some {
                        assert(infos_view(out@) =~= infos_view(out0).push(out@.last()@));
                    } else {
                        assert(infos_view(out@) =~= infos_view(out0));
                    }
                    assert(infos_view(out@) =~= listing_of(
                        records_view(records@.take(i as int + 1)),
                    ));
                }
                i += 1;
            }
            proof {
                assert(records@.take(n as int) =~= records@);
            }
            Ok(out)
        },
    }
}

} // verus!
