//! What becomes of each path chosen for removal: the action planned for it, and
//! the outcome once that action has been attempted.
use vstd::prelude::*;

verus! {

/// Why the disposal of one path failed.
#[derive(Debug, Clone, PartialEq, Eq)]
pub enum HDDError {
    /// Moving a file failed.
    MoveDest(String),
    /// The path has no final segment to name the moved file by.
    FileName(String),
    /// A filesystem call failed; it holds the system's description.
    Io(String),
    /// A move failed inside the file-moving routine; it holds its description.
    FSExtra(String),
}

/// What the `Debug` format of a string writes for the string with these
/// characters: the string in double quotes, escaped.
pub uninterp spec fn debug_text(s: Seq<char>) -> Seq<char>;

/// Relies on `<str as Debug>::fmt`, through `format!("{:?}")`: the quoted and
/// escaped string, which depends on its characters alone.
#[verifier::external_body]
fn debug_quoted(s: &str) -> (r: String)
    ensures
        r@ == debug_text(s@),
{
    format!("{:?}", s)
}

/// The text that describes an error.
pub open spec fn error_text(e: HDDError) -> Seq<char> {
    match e {
        HDDError::MoveDest(inner) => "An error while moving file occurred ("@ + debug_text(inner@)
            + ")"@,
        HDDError::FileName(inner) => "An error while getting the file name occurred ("@
            + debug_text(inner@) + ")"@,
        HDDError::Io(inner) => inner@,
        HDDError::FSExtra(inner) => inner@,
    }
}

impl HDDError {
    /// Describes the error in words.
    pub fn message(&self) -> (r: String)
        ensures
            r@ == error_text(*self),
    {
        match self {
            HDDError::MoveDest(inner) => {
                let mut r = String::from_str("An error while moving file occurred (");
                r.append(debug_quoted(inner.as_str()).as_str());
                r.append(")");
                r
            },
            HDDError::FileName(inner) => {
                let mut r = String::from_str("An error while getting the file name occurred (");
                r.append(debug_quoted(inner.as_str()).as_str());
                r.append(")");
                r
            },
            HDDError::Io(inner) => inner.clone(),
            HDDError::FSExtra(inner) => inner.clone(),
        }
    }
}

/// The final segment of a path, where it has one: the name the file is known
/// by in its directory.
pub uninterp spec fn final_segment(p: Seq<char>) -> Option<Seq<char>>;

/// Relies on `Path::file_name`: the final component of the path, none where
/// the path is empty, a root, or ends in `..`; the result depends on the
/// path's characters alone. A component of a path made from a `&str` is
/// itself valid UTF-8, so `OsStr::to_str` only converts.
#[verifier::external_body]
fn file_name(path: &str) -> (r: Option<String>)
    ensures
        match r {
            Some(n) => final_segment(path@) == Some(n@),
            None => final_segment(path@) is None,
        },
{
    std::path::Path::new(path).file_name().and_then(|n| n.to_str()).map(|n| n.to_string())
}

/// A file named `name` placed in directory `dir`.
pub open spec fn joined(dir: Seq<char>, name: Seq<char>) -> Seq<char> {
    dir + seq!['/'] + name
}

/// The path of a file named `name` in directory `dir`.
pub fn join_destination(dir: &str, name: &str) -> (r: String)
    ensures
        r@ == joined(dir@, name@),
{
    let mut r = String::from_str(dir);
    r.append("/");
    proof {
        reveal_strlit("/");
    }
    assert(r@ =~= dir@ + seq!['/']);
    r.append(name);
    r
}

/// Where a file at `path` goes when it is moved into `dir`: `dir`, then a
/// slash, then the path's final segment; an error where it has none.
pub fn destination_for(dir: &str, path: &str) -> (r: Result<String, HDDError>)
    ensures
        match final_segment(path@) {
            Some(n) => r matches Ok(t) && t@ == joined(dir@, n),
            None => r matches Err(HDDError::FileName(p)) && p@ == path@,
        },
{
    match file_name(path) {
        Some(n) => Ok(join_destination(dir, n.as_str())),
        None => Err(HDDError::FileName(String::from_str(path))),
    }
}

/// The action planned for one path chosen for removal.
#[derive(Debug, Clone, PartialEq, Eq)]
pub enum Disposal {
    /// Dry run: leave the file where it is.
    Skip(String),
    /// Remove the file.
    Delete(String),
    /// Move the file from the first path to the second.
    Move(String, String),
    /// The file was to be moved, but its path names no file.
    Unnamed(String),
}

/// Whether carrying out the action changes the filesystem.
pub open spec fn touches_files(d: Disposal) -> bool {
    d is Delete || d is Move
}

/// `d` is the action for `path`: nothing in a dry run; else a move into `dest`
/// where there is one, under the path's final segment; else a removal.
pub open spec fn is_plan(path: String, dest: Option<String>, dry_run: bool, d: Disposal) -> bool {
    if dry_run {
        d == Disposal::Skip(path)
    } else {
        match dest {
            None => d == Disposal::Delete(path),
            Some(dir) => match final_segment(path@) {
                None => d == Disposal::Unnamed(path),
                Some(n) => d matches Disposal::Move(from, to) && from == path && to@ == joined(
                    dir@,
                    n,
                ),
            },
        }
    }
}

/// The action for one path chosen for removal.
pub fn plan_path(path: &String, dest: &Option<String>, dry_run: bool) -> (r: Disposal)
    ensures
        is_plan(*path, *dest, dry_run, r),
{
    if dry_run {
        Disposal::Skip(path.clone())
    } else {
        match dest {
            None => Disposal::Delete(path.clone()),
            Some(dir) => match destination_for(dir.as_str(), path.as_str()) {
                Ok(to) => Disposal::Move(path.clone(), to),
                Err(_) => Disposal::Unnamed(path.clone()),
            },
        }
    }
}

/// The actions for the paths chosen for removal, one for each, in their order.
pub fn plan_all(paths: &Vec<String>, dest: &Option<String>, dry_run: bool) -> (r: Vec<Disposal>)
    ensures
        r@.len() == paths@.len(),
        forall|i: int| 0 <= i < paths@.len() ==> is_plan(paths@[i], *dest, dry_run, #[trigger] r@[i]),
{
    let mut r: Vec<Disposal> = Vec::new();
    let mut i: usize = 0;
    while i < paths.len()
        invariant
            i <= paths.len(),
            r@.len() == i,
            forall|k: int| 0 <= k < i ==> is_plan(paths@[k], *dest, dry_run, #[trigger] r@[k]),
        decreases paths.len() - i,
    {
        let d = plan_path(&paths[i], dest, dry_run);
        r.push(d);
        i += 1;
    }
    r
}

/// What became of one path chosen for removal.
#[derive(Debug, Clone, PartialEq, Eq)]
pub enum PathOutcome {
    /// The file was removed.
    Deleted(String),
    /// The file was moved from the first path to the second.
    Moved(String, String),
    /// Dry run: the file was left in place.
    Skipped(String),
    /// The action on the file failed, for the reason given.
    Failed(String, HDDError),
}

/// The outcome of action `d`, given what the filesystem answered where the
/// action touches it (`done` is ignored for the other actions).
pub open spec fn outcome_of(d: Disposal, done: Result<(), HDDError>) -> PathOutcome {
    match d {
        Disposal::Skip(p) => PathOutcome::Skipped(p),
        Disposal::Unnamed(p) => PathOutcome::Failed(p, HDDError::FileName(p)),
        Disposal::Delete(p) => match done {
            Ok(_) => PathOutcome::Deleted(p),
            Err(e) => PathOutcome::Failed(p, e),
        },
        Disposal::Move(from, to) => match done {
            Ok(_) => PathOutcome::Moved(from, to),
            Err(e) => PathOutcome::Failed(from, e),
        },
    }
}

/// Records the outcome of action `d`, given what the filesystem answered.
pub fn settle(d: Disposal, done: Result<(), HDDError>) -> (r: PathOutcome)
    ensures
        r == outcome_of(d, done),
{
    match d {
        Disposal::Skip(p) => PathOutcome::Skipped(p),
        Disposal::Unnamed(p) => {
            let e = HDDError::FileName(p.clone());
            PathOutcome::Failed(p, e)
        },
        Disposal::Delete(p) => match done {
            Ok(_) => PathOutcome::Deleted(p),
            Err(e) => PathOutcome::Failed(p, e),
        },
        Disposal::Move(from, to) => match done {
            Ok(_) => PathOutcome::Moved(from, to),
            Err(e) => PathOutcome::Failed(from, e),
        },
    }
}

/// In a dry run no planned action touches the filesystem, and each path comes
/// out as skipped, whatever is handed back for it.
pub proof fn law_dry_run_touches_nothing(
    paths: Seq<String>,
    dest: Option<String>,
    plan: Seq<Disposal>,
    done: Result<(), HDDError>,
)
    requires
        plan.len() == paths.len(),
        forall|i: int| 0 <= i < paths.len() ==> is_plan(paths[i], dest, true, #[trigger] plan[i]),
    ensures
        forall|i: int| 0 <= i < plan.len() ==> !touches_files(#[trigger] plan[i]),
        forall|i: int|
            0 <= i < plan.len() ==> outcome_of(#[trigger] plan[i], done) == PathOutcome::Skipped(
                paths[i],
            ),
{
}

} // verus!
