//! Where records live: locating the repository, validating input paths and
//! placing records under `objects/`.
use vstd::prelude::*;
use crate::errors::IoError;

verus! {

/// Name of the directory that marks a repository root.
pub const METADATA_DIR: &'static str = ".rebar";

/// The path without its final component; `None` at a root or for the empty
/// path.
pub uninterp spec fn parent_path(p: Seq<char>) -> Option<Seq<char>>;

/// How many components the path has (a root counts as one).
pub uninterp spec fn component_count(p: Seq<char>) -> nat;

/// `base` with `name` appended as a further component.
pub uninterp spec fn joined_path(base: Seq<char>, name: Seq<char>) -> Seq<char>;

/// Relies on `std::path::Path::parent`: the path without its final
/// component, which is a strictly shorter prefix of the path with one
/// component fewer.
#[verifier::external_body]
fn parent_of(p: &str) -> (r: Option<String>)
    ensures
        match r {
            Some(q) => parent_path(p@) == Some(q@) && q@.len() < p@.len() && component_count(q@)
                + 1 == component_count(p@),
            None => parent_path(p@) is None,
        },
{
    match std::path::Path::new(p).parent() {
        Some(q) => Some(q.to_string_lossy().into_owned()),
        None => None,
    }
}

/// Relies on `std::path::Path::join`: `base` extended by the component `name`.
#[verifier::external_body]
fn join_path(base: &str, name: &str) -> (r: String)
    ensures
        r@ == joined_path(base@, name@),
{
    std::path::Path::new(base).join(name).to_string_lossy().into_owned()
}

/// Where the metadata directory of `dir` would be.
pub open spec fn marker_of(dir: Seq<char>) -> Seq<char> {
    joined_path(dir, METADATA_DIR@)
}

/// The metadata directory found by searching upward from `dir`, given the
/// set of metadata directories that exist.
pub open spec fn locate_from(dir: Seq<char>, present: Set<Seq<char>>) -> Option<Seq<char>>
    decreases dir.len(),
{
    if present.contains(marker_of(dir)) {
        Some(marker_of(dir))
    } else {
        match parent_path(dir) {
            Some(p) => if p.len() < dir.len() {
                locate_from(p, present)
            } else {
                None
            },
            None => None,
        }
    }
}

/// An upward search for the repository root, one directory at a time: the
/// caller checks whether `marker_path()` exists and hands the answer to
/// `advance`.
pub struct RepositorySearch {
    /// Where the search began.
    pub start: String,
    /// The directory being examined.
    pub current: String,
}

/// What a search does next.
pub enum SearchStep {
    /// Examine the parent directory.
    Continue(RepositorySearch),
    /// The metadata directory of the repository.
    Found(String),
    /// No directory up to the root holds one.
    Failed(IoError),
}

impl RepositorySearch {
    /// A search that begins at `start`.
    pub fn new(start: &str) -> (r: RepositorySearch)
        ensures
            r.start@ == start@,
            r.current@ == start@,
    {
        RepositorySearch { start: String::from_str(start), current: String::from_str(start) }
    }

    /// The path whose existence decides this step.
    pub fn marker_path(&self) -> (r: String)
        ensures
            r@ == marker_of(self.current@),
    {
        join_path(self.current.as_str(), METADATA_DIR)
    }

    /// The next step, given whether `marker_path()` exists.
    pub fn advance(self, marker_present: bool) -> (r: SearchStep)
        ensures
            marker_present ==> (r matches SearchStep::Found(p) && p@ == marker_of(self.current@)),
            !marker_present && parent_path(self.current@) is Some ==> (r matches SearchStep::Continue(
                s,
            ) && s.start@ == self.start@ && Some(s.current@) == parent_path(self.current@)
                && s.current@.len() < self.current@.len() && component_count(s.current@) + 1
                == component_count(self.current@)),
            !marker_present && parent_path(self.current@) is None ==> (r matches SearchStep::Failed(
                IoError::NoRepository { path },
            ) && path@ == self.start@),
    {
        if marker_present {
            return SearchStep::Found(self.marker_path());
        }
        match parent_of(self.current.as_str()) {
            Some(p) => SearchStep::Continue(RepositorySearch { start: self.start, current: p }),
            None => SearchStep::Failed(IoError::NoRepository { path: self.start }),
        }
    }
}

/// How a search that began at `start` and now examines `dir` ends, given the
/// set of metadata directories that exist: the nearest one at or above
/// `dir`, or `NoRepository` naming `start`.
pub open spec fn search_outcome(start: Seq<char>, dir: Seq<char>, present: Set<Seq<char>>) -> Result<
    Seq<char>,
    Seq<char>,
> {
    match locate_from(dir, present) {
        Some(m) => Ok(m),
        None => Err(start),
    }
}

/// Every step of `RepositorySearch::advance`, with answers taken from
/// `present`, keeps the outcome: `Found` returns it when it is `Ok`,
/// `Failed` reports the start when it is `Err`, and `Continue` (which keeps
/// the start and moves to the parent, one component up) leaves it unchanged.
/// A search driven to its end thus returns `search_outcome(start, start,
/// present)`, after at most `component_count(start) + 1` checks.
pub proof fn lemma_search_outcome_step(start: Seq<char>, dir: Seq<char>, present: Set<Seq<char>>)
    ensures
        present.contains(marker_of(dir)) ==> search_outcome(start, dir, present) == Ok::<
            Seq<char>,
            Seq<char>,
        >(marker_of(dir)),
        !present.contains(marker_of(dir)) && parent_path(dir) is Some && parent_path(dir)->Some_0.len()
            < dir.len() ==> search_outcome(start, dir, present) == search_outcome(
            start,
            parent_path(dir)->Some_0,
            present,
        ),
        !present.contains(marker_of(dir)) && parent_path(dir) is None ==> search_outcome(
            start,
            dir,
            present,
        ) == Err::<Seq<char>, Seq<char>>(start),
{
}

/// The `k`-th ancestor of `dir` (`dir` itself for 0).
pub open spec fn ancestor(dir: Seq<char>, k: nat) -> Option<Seq<char>>
    decreases k,
{
    if k == 0 {
        Some(dir)
    } else {
        match ancestor(dir, (k - 1) as nat) {
            Some(a) => parent_path(a),
            None => None,
        }
    }
}

/// Each ancestor up to the `k`-th exists and is shorter than the one below.
pub open spec fn ancestry(dir: Seq<char>, k: nat) -> bool {
    forall|j: nat|
        j < k ==> (#[trigger] ancestor(dir, j) is Some && ancestor(dir, j + 1) is Some
            && ancestor(dir, j + 1)->Some_0.len() < ancestor(dir, j)->Some_0.len())
}

/// Searching from any of the first `k` ancestors of `dir`, none of which is
/// marked, leads to the same result as searching from the `k`-th.
proof fn lemma_locate_climbs(dir: Seq<char>, present: Set<Seq<char>>, k: nat)
    requires
        ancestry(dir, k),
        ancestor(dir, k) is Some,
        forall|j: nat| j < k ==> !present.contains(marker_of(#[trigger] ancestor(dir, j)->Some_0)),
    ensures
        locate_from(dir, present) == locate_from(ancestor(dir, k)->Some_0, present),
    decreases k,
{
    if k > 0 {
        let km = (k - 1) as nat;
        assert(ancestor(dir, km) is Some);
        lemma_locate_climbs(dir, present, km);
        let a = ancestor(dir, km)->Some_0;
        assert(!present.contains(marker_of(a)));
        assert(ancestor(dir, km + 1) == parent_path(a));
    }
}

/// The search finds the nearest marked ancestor: from a directory `k` levels
/// below the first directory holding the metadata directory, it returns that
/// metadata directory.
pub proof fn lemma_locate_nearest(dir: Seq<char>, present: Set<Seq<char>>, k: nat)
    requires
        ancestry(dir, k),
        ancestor(dir, k) is Some,
        present.contains(marker_of(ancestor(dir, k)->Some_0)),
        forall|j: nat| j < k ==> !present.contains(marker_of(#[trigger] ancestor(dir, j)->Some_0)),
    ensures
        locate_from(dir, present) == Some(marker_of(ancestor(dir, k)->Some_0)),
{
    lemma_locate_climbs(dir, present, k);
}

/// With no marked directory up to the root, the search finds nothing.
pub proof fn lemma_locate_none(dir: Seq<char>, present: Set<Seq<char>>, k: nat)
    requires
        ancestry(dir, k),
        ancestor(dir, k) is Some,
        parent_path(ancestor(dir, k)->Some_0) is None,
        forall|j: nat| j <= k ==> !present.contains(marker_of(#[trigger] ancestor(dir, j)->Some_0)),
    ensures
        locate_from(dir, present) is None,
{
    lemma_locate_climbs(dir, present, k);
}

/// What the file system holds at a path.
#[derive(Debug, Clone, Copy, PartialEq, Eq, Structural)]
pub enum PathKind {
    Missing,
    File,
    Other,
}

/// Checks that `path` names an existing regular file, given what is there.
pub fn validate_path(path: &str, kind: PathKind) -> (r: Result<(), IoError>)
    ensures
        path@.len() == 0 ==> r matches Err(IoError::EmptyPath),
        path@.len() > 0 && kind == PathKind::Missing ==> (r matches Err(
            IoError::PathNotExists { path: p },
        ) && p@ == path@),
        path@.len() > 0 && kind == PathKind::Other ==> (r matches Err(
            IoError::NotAFile { path: p },
        ) && p@ == path@),
        path@.len() > 0 && kind == PathKind::File ==> r is Ok,
{
    if path.is_empty() {
        Err(IoError::EmptyPath)
    } else {
        match kind {
            PathKind::Missing => Err(IoError::PathNotExists { path: String::from_str(path) }),
            PathKind::Other => Err(IoError::NotAFile { path: String::from_str(path) }),
            PathKind::File => Ok(()),
        }
    }
}

/// Where the record named `handle` lives under the metadata directory `repo`.
pub open spec fn object_path_spec(repo: Seq<char>, handle: Seq<char>) -> Seq<char> {
    repo + "/objects/"@ + handle
}

/// Path of the record named `handle` under the metadata directory `repo`.
pub fn object_path(repo: &str, handle: &str) -> (r: String)
    ensures
        r@ == object_path_spec(repo@, handle@),
{
    String::from_str(repo).concat("/objects/").concat(handle)
}

/// Decides whether a record may be created at `path`: never over an existing
/// file, since equal names prove equal content only as far as the digest
/// does.
pub fn claim_path(path: String, occupied: bool) -> (r: Result<String, IoError>)
    ensures
        occupied ==> (r matches Err(IoError::AlreadyExists { path: p }) && p@ == path@),
        !occupied ==> (r matches Ok(p) && p@ == path@),
{
    if occupied {
        Err(IoError::AlreadyExists { path })
    } else {
        Ok(path)
    }
}

/// The records present after writing at `path`: `None` when `claim_path`
/// refuses because a file is already there.
pub open spec fn after_write(store: Set<Seq<char>>, path: Seq<char>) -> Option<Set<Seq<char>>> {
    if store.contains(path) {
        None
    } else {
        Some(store.insert(path))
    }
}

/// Writing the same record twice: the first write succeeds, the second finds
/// the file there and is refused.
pub proof fn lemma_second_write_collides(store: Set<Seq<char>>, path: Seq<char>)
    requires
        !store.contains(path),
    ensures
        after_write(store, path) == Some(store.insert(path)),
        after_write(store.insert(path), path) is None,
{
}

} // verus!
