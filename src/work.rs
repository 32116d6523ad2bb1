//! Groups of duplicates, the policy applied to them, and the work that one
//! group calls for.
use vstd::prelude::*;
use crate::dispose::{Disposal, is_plan, plan_all};
use crate::resolve::{copy_paths, is_removal, resolve};

verus! {

/// The retention policy and the disposition mode.
#[derive(Debug, Clone)]
pub struct Args {
    skip: usize,
    move_dest: Option<String>,
    dry_run: bool,
    keep_path: Option<String>,
}

impl Args {
    /// How many paths to keep where no preferred substring decides.
    pub closed spec fn spec_skip(&self) -> nat {
        self.skip as nat
    }

    /// The directory files are moved into; none where they are deleted.
    pub closed spec fn spec_move_dest(&self) -> Option<String> {
        self.move_dest
    }

    /// Whether the filesystem is left untouched.
    pub closed spec fn spec_dry_run(&self) -> bool {
        self.dry_run
    }

    /// The substring that marks a path to keep, if any.
    pub closed spec fn spec_keep_path(&self) -> Option<String> {
        self.keep_path
    }

    /// A policy: keep `skip` paths (or those containing `keep_path`), move the
    /// others into `move_dest` or delete them, and touch nothing if `dry_run`.
    pub fn new(skip: usize, move_dest: Option<String>, dry_run: bool, keep_path: Option<String>) -> (r: Args)
        ensures
            r.spec_skip() == skip,
            r.spec_move_dest() == move_dest,
            r.spec_dry_run() == dry_run,
            r.spec_keep_path() == keep_path,
    {
        Args { skip, move_dest, dry_run, keep_path }
    }
}

/// A group of files found to be identical.
#[derive(Debug, Clone)]
pub struct Duplicates {
    file_length: u64,
    file_paths: Vec<String>,
    full_hash: Option<u128>,
    partial_hash: Option<u128>,
}

impl Duplicates {
    /// The size, in bytes, shared by the files.
    pub closed spec fn spec_length(&self) -> u64 {
        self.file_length
    }

    /// The paths of the files, in the order given.
    pub closed spec fn spec_files(&self) -> Seq<String> {
        self.file_paths@
    }

    /// The hash of the whole content, if it was computed.
    pub closed spec fn spec_full_hash(&self) -> Option<u128> {
        self.full_hash
    }

    /// The hash of the first part of the content, if it was computed.
    pub closed spec fn spec_partial_hash(&self) -> Option<u128> {
        self.partial_hash
    }

    /// A group calls for work when it has two paths or more and a hash
    /// confirms it.
    pub open spec fn eligible(&self) -> bool {
        self.spec_files().len() >= 2 && (self.spec_full_hash() is Some
            || self.spec_partial_hash() is Some)
    }

    /// A group of the files at `file_paths`, all of `file_length` bytes.
    pub fn new(
        file_length: u64,
        file_paths: Vec<String>,
        full_hash: Option<u128>,
        partial_hash: Option<u128>,
    ) -> (r: Duplicates)
        ensures
            r.spec_length() == file_length,
            r.spec_files() == file_paths@,
            r.spec_full_hash() == full_hash,
            r.spec_partial_hash() == partial_hash,
    {
        Duplicates { file_length, file_paths, full_hash, partial_hash }
    }

    /// The size, in bytes, shared by the files.
    pub fn file_length(&self) -> (r: u64)
        ensures
            r == self.spec_length(),
    {
        self.file_length
    }

    /// The paths of the files, in the order given.
    pub fn files(&self) -> (r: Vec<String>)
        ensures
            r@ == self.spec_files(),
    {
        copy_paths(&self.file_paths)
    }

    /// The hash of the whole content, if it was computed.
    pub fn full_hashes(&self) -> (r: Option<u128>)
        ensures
            r == self.spec_full_hash(),
    {
        self.full_hash
    }

    /// The hash of the first part of the content, if it was computed.
    pub fn partial_hashes(&self) -> (r: Option<u128>)
        ensures
            r == self.spec_partial_hash(),
    {
        self.partial_hash
    }

    /// Whether the group calls for work.
    pub fn is_eligible(&self) -> (r: bool)
        ensures
            r == self.eligible(),
    {
        self.file_paths.len() >= 2 && (self.full_hash.is_some() || self.partial_hash.is_some())
    }
}

/// One group of duplicates, the policy for it, and the paths that the policy
/// removes from it.
#[derive(Debug)]
pub struct WorkItem<'a> {
    duplicate: &'a Duplicates,
    args: Args,
    files_to_remove: Vec<String>,
}

impl<'a> WorkItem<'a> {
    /// The group worked on.
    pub closed spec fn spec_dups(&self) -> Duplicates {
        *self.duplicate
    }

    /// The policy applied.
    pub closed spec fn spec_args(&self) -> Args {
        self.args
    }

    /// The paths to remove, in the order they are worked on.
    pub closed spec fn spec_files_remove(&self) -> Seq<String> {
        self.files_to_remove@
    }

    /// The paths to remove are those that the policy selects from the group.
    #[verifier::type_invariant]
    spec fn selected(&self) -> bool {
        is_removal(
            self.duplicate.file_paths@,
            self.args.keep_path,
            self.args.skip as nat,
            self.files_to_remove@,
        )
    }

    /// The work for `duplicate` under `args`: the paths that the policy removes.
    /// The group itself is left as it is.
    pub fn new(duplicate: &'a Duplicates, args: Args) -> (r: WorkItem<'a>)
        ensures
            r.spec_dups() == *duplicate,
            r.spec_args() == args,
            is_removal(duplicate.spec_files(), args.spec_keep_path(), args.spec_skip(), r.spec_files_remove()),
    {
        let files_to_remove = resolve(&duplicate.file_paths, &args.keep_path, args.skip);
        WorkItem { duplicate, args, files_to_remove }
    }

    /// The work for `duplicate` under `args`, where the group calls for any:
    /// none for a group of fewer than two paths or with no hash.
    pub fn for_group(duplicate: &'a Duplicates, args: Args) -> (r: Option<WorkItem<'a>>)
        ensures
            r is Some <==> duplicate.eligible(),
            r matches Some(w) ==> w.spec_dups() == *duplicate && w.spec_args() == args
                && is_removal(
                duplicate.spec_files(),
                args.spec_keep_path(),
                args.spec_skip(),
                w.spec_files_remove(),
            ),
    {
        if duplicate.is_eligible() {
            Some(WorkItem::new(duplicate, args))
        } else {
            None
        }
    }

    /// The actions that move the paths to remove into the policy's directory,
    /// one for each, in order; none touches a file in a dry run.
    pub fn moveto(&self) -> (r: Vec<Disposal>)
        requires
            self.spec_args().spec_move_dest() is Some,
        ensures
            r@.len() == self.spec_files_remove().len(),
            forall|i: int|
                0 <= i < r@.len() ==> is_plan(
                    self.spec_files_remove()[i],
                    self.spec_args().spec_move_dest(),
                    self.spec_args().spec_dry_run(),
                    #[trigger] r@[i],
                ),
    {
        plan_all(&self.files_to_remove, &self.args.move_dest, self.args.dry_run)
    }

    /// The actions that delete the paths to remove, one for each, in order;
    /// none touches a file in a dry run.
    pub fn delete(&self) -> (r: Vec<Disposal>)
        ensures
            r@.len() == self.spec_files_remove().len(),
            forall|i: int|
                0 <= i < r@.len() ==> is_plan(
                    self.spec_files_remove()[i],
                    None,
                    self.spec_args().spec_dry_run(),
                    #[trigger] r@[i],
                ),
    {
        plan_all(&self.files_to_remove, &None, self.args.dry_run)
    }

    /// The actions for the paths to remove, one for each, in order: moves
    /// where the policy names a directory, else deletions.
    pub fn run(&self) -> (r: Vec<Disposal>)
        ensures
            r@.len() == self.spec_files_remove().len(),
            forall|i: int|
                0 <= i < r@.len() ==> is_plan(
                    self.spec_files_remove()[i],
                    self.spec_args().spec_move_dest(),
                    self.spec_args().spec_dry_run(),
                    #[trigger] r@[i],
                ),
    {
        match &self.args.move_dest {
            Some(_) => self.moveto(),
            None => self.delete(),
        }
    }

    /// The paths to remove, in the order they are worked on; they are those
    /// that the policy selects from the group.
    pub fn files_remove(&self) -> (r: &Vec<String>)
        ensures
            r@ == self.spec_files_remove(),
            is_removal(
                self.spec_dups().spec_files(),
                self.spec_args().spec_keep_path(),
                self.spec_args().spec_skip(),
                r@,
            ),
    {
        proof {
            use_type_invariant(self);
        }
        &self.files_to_remove
    }

    /// The group worked on.
    pub fn dups(&self) -> (r: &Duplicates)
        ensures
            *r == self.spec_dups(),
    {
        self.duplicate
    }
}

} // verus!
