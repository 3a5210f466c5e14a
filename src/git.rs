//! The repository handle: discovery of the enclosing working tree, the status
//! snapshot taken when it is opened, and live ignore-list queries.

use std::path::{Path, PathBuf};
use std::sync::Mutex;
use vstd::prelude::*;
use crate::flags::PathStatus;
use crate::path::{is_under, RepoPath};
use crate::snapshot::{dir_status_of, file_status, EntryView, Snapshot};

verus! {

#[verifier::external_type_specification]
#[verifier::external_body]
pub struct ExRepository(git2::Repository);

#[verifier::external_type_specification]
#[verifier::external_body]
pub struct ExError(git2::Error);

#[verifier::external_type_specification]
#[verifier::external_body]
#[verifier::reject_recursive_types(T)]
pub struct ExMutex<T: ?Sized>(Mutex<T>);

/// Relies on `git2::Repository::discover`: looks for a repository at `start`
/// or above it. What it finds depends on the disk, so nothing is promised.
#[verifier::external_body]
fn discover_repository(start: &RepoPath) -> (r: Result<git2::Repository, git2::Error>) {
    git2::Repository::discover(start.parts.iter().collect::<PathBuf>())
}

/// Relies on `git2::Repository::workdir`: the working directory's path, or
/// `None` for a bare repository. Converted to its components.
#[verifier::external_body]
fn working_directory(repo: &git2::Repository) -> (r: Option<RepoPath>) {
    repo.workdir().map(
        |w| RepoPath::new(w.components().map(|c| c.as_os_str().to_string_lossy().into_owned()).collect()),
    )
}

/// Relies on `git2::Repository::statuses`: every path with a status, relative
/// to the working directory, with its raw status bits.
#[verifier::external_body]
fn status_entries(repo: &git2::Repository) -> (r: Result<Vec<(RepoPath, u32)>, git2::Error>) {
    repo.statuses(None).map(
        |list| list.iter().map(|e| {
            let rel = String::from_utf8_lossy(e.path_bytes()).into_owned();
            let parts = Path::new(&rel).components().map(|c| c.as_os_str().to_string_lossy().into_owned());
            (RepoPath::new(parts.collect()), e.status().bits())
        }).collect(),
    )
}

/// Relies on `std::sync::Mutex::new`: wraps the repository so that one caller
/// at a time uses it.
#[verifier::external_body]
fn guard(repo: git2::Repository) -> (r: Mutex<git2::Repository>) {
    Mutex::new(repo)
}

/// Relies on `git2::Repository::status_should_ignore`, called while holding
/// the lock: whether the ignore rules apply to `path`, or the provider's
/// error. A poisoned lock still holds a usable repository.
#[verifier::external_body]
fn ignore_query(repo: &Mutex<git2::Repository>, path: &RepoPath) -> (r: Result<bool, git2::Error>) {
    let held = repo.lock().unwrap_or_else(|poisoned| poisoned.into_inner());
    held.status_should_ignore(&path.parts.iter().collect::<PathBuf>())
}

/// The answer to an ignore query: ignored only when the provider says so; any
/// failure counts as not ignored.
pub fn ignore_verdict(answer: Result<bool, git2::Error>) -> (r: bool)
    ensures
        r == (answer matches Ok(true)),
{
    match answer {
        Ok(ignored) => ignored,
        Err(_) => false,
    }
}

/// Git statuses for every file in the working tree that encloses a path,
/// and the repository, kept for ignore queries.
pub struct Git {
    /// The repository, used by one caller at a time.
    repository: Mutex<git2::Repository>,
    /// The working directory's path.
    workdir: RepoPath,
    /// Every changed path, absolute, with its raw flags.
    statuses: Snapshot,
}

impl Git {
    /// The snapshot's entries.
    pub closed spec fn snapshot_view(&self) -> Seq<EntryView> {
        self.statuses@
    }

    /// The working directory's components.
    pub closed spec fn workdir_view(&self) -> Seq<Seq<char>> {
        self.workdir@
    }

    /// Discovers a repository on or above `path` and snapshots its statuses.
    /// `None` when there is none, when it has no working directory, or when
    /// its statuses cannot be read: nothing here is ever an error.
    pub fn scan(path: &RepoPath) -> (r: Option<Git>)
        ensures
            r matches Some(g) ==> forall|i: int|
                0 <= i < g.snapshot_view().len() ==> is_under(
                    #[trigger] g.snapshot_view()[i].0,
                    g.workdir_view(),
                ),
    {
        Git::from_discovery(discover_repository(path))
    }

    /// Opens what discovery found. A failed discovery gives `None`, as do a
    /// repository without a working directory and a failed status listing.
    pub fn from_discovery(found: Result<git2::Repository, git2::Error>) -> (r: Option<Git>)
        ensures
            found is Err ==> r is None,
            r is Some ==> found is Ok,
            r matches Some(g) ==> forall|i: int|
                0 <= i < g.snapshot_view().len() ==> is_under(
                    #[trigger] g.snapshot_view()[i].0,
                    g.workdir_view(),
                ),
    {
        let repo = match found {
            Ok(repo) => repo,
            Err(_) => return None,
        };
        let workdir = match working_directory(&repo) {
            Some(w) => w,
            None => return None,
        };
        let listing = status_entries(&repo);
        Git::assemble(repo, workdir, listing)
    }

    /// The handle built from what the repository reported: `None` exactly when
    /// the status listing failed, and otherwise a handle on `repo` whose
    /// working directory is `workdir` and whose snapshot is the listing with
    /// each path joined onto `workdir`, in the order listed.
    pub fn assemble(
        repo: git2::Repository,
        workdir: RepoPath,
        listing: Result<Vec<(RepoPath, u32)>, git2::Error>,
    ) -> (r: Option<Git>)
        ensures
            (r is Some) == (listing is Ok),
            listing matches Ok(raw) ==> (r matches Some(g) && g.workdir_view() == workdir@
                && g.snapshot_view().len() == raw@.len() && forall|i: int|
                0 <= i < raw@.len() ==> #[trigger] g.snapshot_view()[i] == (
                workdir@ + raw@[i].0@,
                raw@[i].1,
            )),
            r matches Some(g) ==> forall|i: int|
                0 <= i < g.snapshot_view().len() ==> is_under(
                    #[trigger] g.snapshot_view()[i].0,
                    g.workdir_view(),
                ),
    {
        let raw = match listing {
            Ok(entries) => entries,
            Err(_) => return None,
        };
        let ghost wd = workdir@;
        let g = Git::open(repo, workdir, raw);
        assert forall|i: int| 0 <= i < g.snapshot_view().len() implies is_under(
            #[trigger] g.snapshot_view()[i].0,
            g.workdir_view(),
        ) by {
            let p = g.snapshot_view()[i].0;
            assert(p.subrange(0, wd.len() as int) =~= wd);
        }
        Some(g)
    }

    /// A handle on `repo` whose working directory is `workdir`, with a
    /// snapshot of `raw`, whose paths are relative to `workdir`.
    pub fn open(repo: git2::Repository, workdir: RepoPath, raw: Vec<(RepoPath, u32)>) -> (r: Git)
        ensures
            r.workdir_view() == workdir@,
            r.snapshot_view().len() == raw@.len(),
            forall|i: int|
                0 <= i < raw@.len() ==> #[trigger] r.snapshot_view()[i] == (
                workdir@ + raw@[i].0@,
                raw@[i].1,
            ),
    {
        let statuses = Snapshot::new(&workdir, raw);
        Git { repository: guard(repo), workdir, statuses }
    }

    /// The working directory of the repository.
    pub fn workdir(&self) -> (r: &RepoPath)
        ensures
            r@ == self.workdir_view(),
    {
        &self.workdir
    }

    /// The status of the file at `path`, from the snapshot: no change at all
    /// when the snapshot has no entry for it.
    pub fn status(&self, path: &RepoPath) -> (r: PathStatus)
        ensures
            r == file_status(self.snapshot_view(), path@),
    {
        self.statuses.status(path)
    }

    /// The combined status of everything under the directory `dir`.
    pub fn dir_status(&self, dir: &RepoPath) -> (r: PathStatus)
        ensures
            r == dir_status_of(self.snapshot_view(), dir@),
    {
        self.statuses.dir_status(dir)
    }

    /// Whether `path` is on the repository's ignore list, asked of the
    /// repository itself. A failed query counts as not ignored.
    pub fn should_ignore(&self, path: &RepoPath) -> (r: bool) {
        ignore_verdict(ignore_query(&self.repository, path))
    }
}

} // verus!
