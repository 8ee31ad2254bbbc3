//! Resolving logical runfile paths to paths on disk.

use std::path::PathBuf;
use vstd::prelude::*;

verus! {

/// A path on disk, carried through without being looked into.
#[verifier::external_type_specification]
#[verifier::external_body]
pub struct ExPathBuf(std::path::PathBuf);

/// The runfiles of a process, as the `runfiles` crate found them.
#[verifier::external_type_specification]
#[verifier::external_body]
pub struct ExRunfiles(runfiles::Runfiles);

/// Relies on `runfiles::Runfiles::rlocation`: an absolute `path` as it is,
/// else the path that the runfiles directory or manifest gives for it, or
/// `None` where a manifest has no entry for it. What it returns depends on
/// the runfiles that were found, so nothing is stated of it.
#[verifier::external_body]
fn rlocation(runfiles: &runfiles::Runfiles, path: &str) -> (r: Option<PathBuf>) {
    runfiles.rlocation(path)
}

/// Relies on `std::path::Path::exists`: whether the file system holds an entry
/// at `path` at the moment of the call.
#[verifier::external_body]
fn path_exists(path: &PathBuf) -> (r: bool) {
    path.exists()
}

/// The error of a resolution, a lookup or a manifest read.
#[derive(Debug)]
pub enum RustfmtError {
    /// The location service holds no file under this qualified logical path.
    Unresolved(String),
    /// The rustfmt binary does not exist at the path it resolved to.
    RustfmtNotFound(PathBuf),
    /// The rustfmt configuration file does not exist at the path it resolved to.
    ConfigNotFound(PathBuf),
    /// The manifest holds no non-empty line, so no edition either.
    EmptyManifest,
    /// The last non-empty line of the manifest, which is not a decimal number.
    NonNumericEdition(String),
}

/// What a lookup of a logical path found.
#[derive(Debug)]
pub enum Lookup {
    /// The location service holds no file under this qualified logical path.
    Unknown(String),
    /// The path resolved to, which does not exist on disk.
    Absent(PathBuf),
    /// The path resolved to, which exists on disk.
    Present(PathBuf),
}

/// `path` as seen from the root of the repository `repo`.
pub open spec fn qualified(repo: Seq<char>, path: Seq<char>) -> Seq<char> {
    repo + seq!['/'] + path
}

/// Whether `e` is the refusal to resolve `path` in `repo`: it names the
/// qualified logical path.
pub open spec fn refusal_of(repo: Seq<char>, path: Seq<char>, e: RustfmtError) -> bool {
    e is Unresolved && e->Unresolved_0@ == qualified(repo, path)
}

/// Whether every one of `found` holds a path.
pub open spec fn all_found(found: Seq<Option<PathBuf>>) -> bool {
    forall|i: int| 0 <= i < found.len() ==> #[trigger] found[i] is Some
}

/// The paths that `found` holds, in order.
pub open spec fn found_paths(found: Seq<Option<PathBuf>>) -> Seq<PathBuf> {
    found.map_values(|o: Option<PathBuf>| o->Some_0)
}

/// Whether `i` is the first place where `found` holds no path.
pub open spec fn first_missing(found: Seq<Option<PathBuf>>, i: int) -> bool {
    &&& 0 <= i < found.len()
    &&& found[i] is None
    &&& forall|j: int| 0 <= j < i ==> #[trigger] found[j] is Some
}

/// Gathers what the location service returned for a list of paths, in
/// order: all the paths if it found each of them, else the index of the
/// first that it did not find.
pub fn collect_found(found: Vec<Option<PathBuf>>) -> (r: Result<Vec<PathBuf>, usize>)
    ensures
        all_found(found@) ==> r is Ok && r->Ok_0@ == found_paths(found@),
        !all_found(found@) ==> r is Err && first_missing(found@, r->Err_0 as int),
{
    let n = found.len();
    let mut i: usize = 0;
    while i < n
        invariant
            i <= n == found.len(),
            forall|j: int| 0 <= j < i ==> #[trigger] found@[j] is Some,
        decreases n - i,
    {
        if found[i].is_none() {
            return Err(i);
        }
        i = i + 1;
    }
    // Move the paths out from the back, then turn them the right way round.
    let ghost all = found@;
    let mut rest = found;
    let mut reversed: Vec<PathBuf> = Vec::new();
    while rest.len() > 0
        invariant
            all_found(all),
            n == all.len(),
            rest@ == all.take(rest.len() as int),
            reversed.len() + rest.len() == n,
            forall|k: int| 0 <= k < reversed.len() ==> #[trigger] reversed@[k] == all[n - 1 - k]->Some_0,
        decreases rest.len(),
    {
        let last = rest.pop();
        proof {
            assert(all.take(rest.len() + 1)[rest.len() as int] == all[rest.len() as int]);
        }
        match last {
            Some(Some(p)) => reversed.push(p),
            _ => {},
        }
        assert(rest@ == all.take(rest.len() as int));
    }
    let mut out: Vec<PathBuf> = Vec::new();
    while reversed.len() > 0
        invariant
            n == all.len(),
            out.len() + reversed.len() == n,
            forall|k: int| 0 <= k < reversed.len() ==> #[trigger] reversed@[k] == all[n - 1 - k]->Some_0,
            forall|k: int| 0 <= k < out.len() ==> #[trigger] out@[k] == all[k]->Some_0,
        decreases reversed.len(),
    {
        let last = reversed.pop();
        match last {
            Some(p) => out.push(p),
            None => {},
        }
    }
    assert(out@ == found_paths(all));
    Ok(out)
}

/// What a lookup gives once the location service has resolved a path to
/// `path`, and the disk has said whether it exists.
pub fn lookup_found(path: PathBuf, exists: bool) -> (r: Lookup)
    ensures
        exists ==> r == Lookup::Present(path),
        !exists ==> r == Lookup::Absent(path),
{
    if exists {
        Lookup::Present(path)
    } else {
        Lookup::Absent(path)
    }
}

/// Whether `l` may be what looking up `path` in `repo` gives.
pub open spec fn lookup_of(repo: Seq<char>, path: Seq<char>, l: Lookup) -> bool {
    l is Unknown ==> l->Unknown_0@ == qualified(repo, path)
}

/// The location service: the runfiles of this process and the repository
/// whose logical paths are resolved.
pub struct Locator {
    /// Where logical paths lead on disk.
    pub runfiles: runfiles::Runfiles,
    /// The name of the repository that logical paths belong to.
    pub repository: String,
}

impl Locator {
    pub fn new(runfiles: runfiles::Runfiles, repository: String) -> (r: Locator)
        ensures
            r.runfiles == runfiles,
            r.repository@ == repository@,
    {
        Locator { runfiles, repository }
    }

    /// `path` prefixed with the repository's name and a slash.
    pub fn qualify(&self, path: &str) -> (r: String)
        ensures
            r@ == qualified(self.repository@, path@),
    {
        let mut q = self.repository.clone();
        let slash = "/";
        proof {
            reveal_strlit("/");
        }
        q.append(slash);
        q.append(path);
        q
    }

    /// Resolves the logical `path` and tells whether the file it names exists.
    pub fn lookup(&self, path: &str) -> (r: Lookup)
        ensures
            lookup_of(self.repository@, path@, r),
    {
        let q = self.qualify(path);
        match rlocation(&self.runfiles, q.as_str()) {
            Some(p) => {
                let exists = path_exists(&p);
                lookup_found(p, exists)
            },
            None => Lookup::Unknown(q),
        }
    }

    /// Resolves each of `paths`, in order. Fails with the first that the
    /// location service does not know.
    pub fn resolve_all(&self, paths: &Vec<String>) -> (r: Result<Vec<PathBuf>, RustfmtError>)
        ensures
            r is Ok ==> r->Ok_0.len() == paths.len(),
            r is Err ==> exists|i: int|
                0 <= i < paths.len() && refusal_of(self.repository@, paths[i]@, r->Err_0),
    {
        let mut names: Vec<String> = Vec::new();
        let mut found: Vec<Option<PathBuf>> = Vec::new();
        let mut i: usize = 0;
        while i < paths.len()
            invariant
                i <= paths.len(),
                names.len() == i,
                found.len() == i,
                forall|k: int|
                    0 <= k < i ==> #[trigger] names@[k]@ == qualified(
                        self.repository@,
                        paths[k]@,
                    ),
            decreases paths.len() - i,
        {
            let q = self.qualify(paths[i].as_str());
            found.push(rlocation(&self.runfiles, q.as_str()));
            names.push(q);
            i = i + 1;
        }
        match collect_found(found) {
            Ok(v) => Ok(v),
            Err(k) => {
                let q = names[k].clone();
                assert(refusal_of(self.repository@, paths[k as int]@, RustfmtError::Unresolved(q)));
                Err(RustfmtError::Unresolved(q))
            },
        }
    }
}

} // verus!
