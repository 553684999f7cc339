//! The working directory's rules. Nothing here touches a disk: the caller
//! reports what it found at a path and carries out the steps it is given.

use vstd::prelude::*;
use vstd::string::*;
use crate::text::{join_path, joined};

verus! {

/// What was found at a path.
#[derive(Debug, Clone, Copy, PartialEq, Eq, Structural)]
pub enum PathKind {
    /// Nothing is there
    Missing,
    /// A directory
    Directory,
    /// Something that is no directory
    Other,
}

/// Why the working directory could not be used.
#[derive(Debug, Clone, Copy, PartialEq, Eq, Structural)]
pub enum DirectoryError {
    /// The path exists and is no directory
    NotADirectory,
    /// The destination of a copy is missing or no directory
    DestinationInvalid,
    /// The directory could not be removed
    RemovalFailed,
    /// The directory could not be created, for one because its parent is
    /// missing: a parent is never created along with it
    CreationFailed,
}

/// One change to make at the target path.
#[derive(Debug, Clone, Copy, PartialEq, Eq, Structural)]
pub enum DirStep {
    /// Remove the directory with everything below it
    RemoveAll,
    /// Create the directory; its parent has to exist
    Create,
}

impl DirStep {
    /// The error that stands for this step when it could not be carried out.
    pub open spec fn failure(self) -> DirectoryError {
        match self {
            DirStep::RemoveAll => DirectoryError::RemovalFailed,
            DirStep::Create => DirectoryError::CreationFailed,
        }
    }

    /// The error that stands for this step when it could not be carried out.
    pub fn failed(&self) -> (error: DirectoryError)
        ensures
            error == self.failure(),
    {
        match self {
            DirStep::RemoveAll => DirectoryError::RemovalFailed,
            DirStep::Create => DirectoryError::CreationFailed,
        }
    }
}

/// A path as the steps see it: what is there, and for a directory whether
/// anything is in it.
#[derive(Debug, Clone, Copy, PartialEq, Eq, Structural)]
pub enum PathState {
    Missing,
    File,
    Directory { empty: bool },
}

impl PathState {
    /// What a look at the path reports.
    pub open spec fn kind(self) -> PathKind {
        match self {
            PathState::Missing => PathKind::Missing,
            PathState::File => PathKind::Other,
            PathState::Directory { .. } => PathKind::Directory,
        }
    }

    /// The path after one step that succeeded. Creating over something
    /// that exists does not succeed and changes nothing.
    pub open spec fn after(self, step: DirStep) -> PathState {
        match step {
            DirStep::RemoveAll => PathState::Missing,
            DirStep::Create => match self {
                PathState::Missing => PathState::Directory { empty: true },
                _ => self,
            },
        }
    }

    /// The path after all of `steps`, in order.
    pub open spec fn after_all(self, steps: Seq<DirStep>) -> PathState
        decreases steps.len(),
    {
        if steps.len() == 0 {
            self
        } else {
            self.after(steps[0]).after_all(steps.skip(1))
        }
    }
}

impl PathState {
    /// What a look at the path reports.
    pub fn observed(&self) -> (found: PathKind)
        ensures
            found == self.kind(),
    {
        match self {
            PathState::Missing => PathKind::Missing,
            PathState::File => PathKind::Other,
            PathState::Directory { .. } => PathKind::Directory,
        }
    }

    /// The path after one step that succeeded.
    pub fn step(&self, step: DirStep) -> (after: PathState)
        ensures
            after == self.after(step),
    {
        match step {
            DirStep::RemoveAll => PathState::Missing,
            DirStep::Create => match self {
                PathState::Missing => PathState::Directory { empty: true },
                _ => *self,
            },
        }
    }

    /// The path after all of `steps`, in order.
    pub fn run(&self, steps: &Vec<DirStep>) -> (after: PathState)
        ensures
            after == self.after_all(steps@),
    {
        let mut state = *self;
        let mut i: usize = 0;
        assert(steps@.skip(0) =~= steps@);
        while i < steps.len()
            invariant
                i <= steps.len(),
                self.after_all(steps@) == state.after_all(steps@.skip(i as int)),
            decreases steps.len() - i,
        {
            assert(steps@.skip(i as int).skip(1) =~= steps@.skip(i + 1));
            state = state.step(steps[i]);
            i += 1;
        }
        state
    }
}

/// The steps that leave an empty directory at a path where `found` is now.
pub open spec fn emptying_steps(found: PathKind) -> Seq<DirStep> {
    match found {
        PathKind::Directory => seq![DirStep::RemoveAll, DirStep::Create],
        _ => seq![DirStep::Create],
    }
}

/// Decides how to arrive at an empty directory at a path where `found` is
/// now. Something that is no directory is refused and not touched; a
/// directory is removed with all it holds and created anew; where nothing
/// is, the directory is created.
pub fn ensure_empty_dir_exists(found: PathKind) -> (plan: Result<Vec<DirStep>, DirectoryError>)
    ensures
        found == PathKind::Other <==> plan is Err,
        plan is Err ==> plan->Err_0 == DirectoryError::NotADirectory,
        plan is Ok ==> plan->Ok_0@ == emptying_steps(found),
{
    match found {
        PathKind::Other => Err(DirectoryError::NotADirectory),
        PathKind::Directory => {
            let mut steps: Vec<DirStep> = Vec::new();
            steps.push(DirStep::RemoveAll);
            steps.push(DirStep::Create);
            Ok(steps)
        },
        PathKind::Missing => {
            let mut steps: Vec<DirStep> = Vec::new();
            steps.push(DirStep::Create);
            Ok(steps)
        },
    }
}

/// Where a directory or nothing was at the path, an empty directory is
/// there once the steps have been carried out.
pub proof fn lemma_emptying_steps_leave_empty_dir(before: PathState)
    requires
        before.kind() != PathKind::Other,
    ensures
        before.after_all(emptying_steps(before.kind())) == (PathState::Directory { empty: true }),
{
    reveal_with_fuel(PathState::after_all, 3);
}

/// Emptying a directory twice in a row is accepted both times, and both
/// times leaves a directory that exists and is empty.
pub proof fn lemma_ensure_empty_is_idempotent(before: PathState)
    requires
        before.kind() != PathKind::Other,
    ensures
        ({
            let once = before.after_all(emptying_steps(before.kind()));
            let twice = once.after_all(emptying_steps(once.kind()));
            &&& once == (PathState::Directory { empty: true })
            &&& once.kind() != PathKind::Other
            &&& twice == once
        }),
{
    lemma_emptying_steps_leave_empty_dir(before);
    lemma_emptying_steps_leave_empty_dir(PathState::Directory { empty: true });
}

/// What kind of thing a directory entry is.
#[derive(Debug, Clone, Copy, PartialEq, Eq, Structural)]
pub enum EntryKind {
    /// A regular file
    File,
    /// A directory
    Directory,
    /// Anything else
    Other,
}

/// One entry of a directory listing.
#[derive(Debug, PartialEq, Eq)]
pub struct DirEntry {
    /// The entry's name, without its directory
    pub name: String,
    /// What the entry is
    pub kind: EntryKind,
}

/// What a [`DirEntry`] holds, as mathematical values.
pub struct DirEntryView {
    pub name: Seq<char>,
    pub kind: EntryKind,
}

impl View for DirEntry {
    type V = DirEntryView;

    open spec fn view(&self) -> DirEntryView {
        DirEntryView { name: self.name@, kind: self.kind }
    }
}

impl DeepView for DirEntry {
    type V = DirEntryView;

    open spec fn deep_view(&self) -> DirEntryView {
        self@
    }
}

/// One file to copy.
#[derive(Debug, PartialEq, Eq)]
pub struct FileCopy {
    /// The file to read
    pub from: String,
    /// The file to write
    pub to: String,
}

/// What a [`FileCopy`] holds, as mathematical values.
pub struct FileCopyView {
    pub from: Seq<char>,
    pub to: Seq<char>,
}

impl View for FileCopy {
    type V = FileCopyView;

    open spec fn view(&self) -> FileCopyView {
        FileCopyView { from: self.from@, to: self.to@ }
    }
}

impl DeepView for FileCopy {
    type V = FileCopyView;

    open spec fn deep_view(&self) -> FileCopyView {
        self@
    }
}

/// The copy that takes the entry `entry` of `src` to the same name in `dst`.
pub open spec fn copy_of(src: Seq<char>, dst: Seq<char>, entry: DirEntryView) -> FileCopyView {
    FileCopyView { from: joined(src, entry.name), to: joined(dst, entry.name) }
}

/// The copies that take the regular files among `entries` from `src` to
/// `dst`, in the order of the listing.
pub open spec fn flat_copies(
    src: Seq<char>,
    entries: Seq<DirEntryView>,
    dst: Seq<char>,
) -> Seq<FileCopyView> {
    entries.filter(|e: DirEntryView| e.kind == EntryKind::File).map_values(
        |e: DirEntryView| copy_of(src, dst, e),
    )
}

/// `copy` takes a regular file among `entries` from `src` to `dst`.
pub open spec fn copies_a_file(
    src: Seq<char>,
    entries: Seq<DirEntryView>,
    dst: Seq<char>,
    copy: FileCopyView,
) -> bool {
    exists|j: int|
        0 <= j < entries.len() && (#[trigger] entries[j]).kind == EntryKind::File && copy
            == copy_of(src, dst, entries[j])
}

/// Only regular files are copied, and every regular file is: each copy of
/// the plan takes a regular file of the listing, and each regular file of
/// the listing has its copy in the plan.
pub proof fn lemma_copies_are_the_regular_files(
    src: Seq<char>,
    entries: Seq<DirEntryView>,
    dst: Seq<char>,
)
    ensures
        forall|i: int|
            0 <= i < flat_copies(src, entries, dst).len() ==> copies_a_file(
                src,
                entries,
                dst,
                #[trigger] flat_copies(src, entries, dst)[i],
            ),
        forall|j: int|
            0 <= j < entries.len() && entries[j].kind == EntryKind::File ==> flat_copies(
                src,
                entries,
                dst,
            ).contains(copy_of(src, dst, #[trigger] entries[j])),
{
    let is_file = |e: DirEntryView| e.kind == EntryKind::File;
    let files = entries.filter(is_file);
    let copies = flat_copies(src, entries, dst);
    assert forall|i: int| 0 <= i < copies.len() implies copies_a_file(
        src,
        entries,
        dst,
        #[trigger] copies[i],
    ) by {
        entries.lemma_filter_pred(is_file, i);
        entries.lemma_filter_contains_rev(is_file, files[i]);
        let j = choose|j: int| 0 <= j < entries.len() && entries[j] == files[i];
        assert(copies[i] == copy_of(src, dst, entries[j]));
    }
    assert forall|j: int|
        0 <= j < entries.len() && entries[j].kind == EntryKind::File implies copies.contains(
        copy_of(src, dst, #[trigger] entries[j]),
    ) by {
        entries.lemma_filter_contains(is_file, j);
        let i = choose|i: int| 0 <= i < files.len() && files[i] == entries[j];
        assert(copies[i] == copy_of(src, dst, entries[j]));
    }
}

/// Decides whether files can be copied into a place where `dst_found` is
/// now: only into a directory that is there.
pub fn check_destination(dst_found: PathKind) -> (verdict: Result<(), DirectoryError>)
    ensures
        dst_found != PathKind::Directory <==> verdict is Err,
        verdict is Err ==> verdict->Err_0 == DirectoryError::DestinationInvalid,
{
    match dst_found {
        PathKind::Directory => Ok(()),
        _ => Err(DirectoryError::DestinationInvalid),
    }
}

/// Decides which files to copy from the directory `src`, whose listing is
/// `entries`, into the directory `dst`. Only regular files are copied, each
/// under its own name; directories and everything below them are left out.
/// A destination that is missing or no directory is refused, whatever the
/// listing holds.
pub fn copy_dir_file_contents(
    src: &str,
    entries: &Vec<DirEntry>,
    dst: &str,
    dst_found: PathKind,
) -> (plan: Result<Vec<FileCopy>, DirectoryError>)
    ensures
        dst_found != PathKind::Directory <==> plan is Err,
        plan is Err ==> plan->Err_0 == DirectoryError::DestinationInvalid,
        plan is Ok ==> plan->Ok_0.deep_view() == flat_copies(src@, entries.deep_view(), dst@),
{
    match check_destination(dst_found) {
        Ok(_) => {},
        Err(error) => {
            return Err(error);
        },
    }
    let ghost is_file = |e: DirEntryView| e.kind == EntryKind::File;
    let ghost all = entries.deep_view();
    let mut copies: Vec<FileCopy> = Vec::new();
    let mut i: usize = 0;
    proof {
        reveal(Seq::filter);
    }
    while i < entries.len()
        invariant
            i <= entries.len(),
            all == entries.deep_view(),
            is_file == |e: DirEntryView| e.kind == EntryKind::File,
            copies.deep_view() == flat_copies(src@, all.take(i as int), dst@),
        decreases entries.len() - i,
    {
        let entry = &entries[i];
        proof {
            reveal(Seq::filter);
            assert(all.take(i + 1).drop_last() =~= all.take(i as int));
        }
        let ghost before = copies.deep_view();
        match entry.kind {
            EntryKind::File => {
                let copy = FileCopy {
                    from: join_path(src, entry.name.as_str()),
                    to: join_path(dst, entry.name.as_str()),
                };
                copies.push(copy);
                assert(flat_copies(src@, all.take(i + 1), dst@) =~= before.push(
                    copy_of(src@, dst@, entry@),
                ));
            },
            _ => {},
        }
        i += 1;
    }
    assert(all.take(entries.len() as int) =~= all);
    Ok(copies)
}

} // verus!
