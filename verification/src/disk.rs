//! An idealised disk, to hold the state store's steps against.
//!
//! The store never touches a disk itself: it names steps and is told what came
//! of them. What a read or a write comes to therefore depends on who answers.
//! Here the answers are those of a disk on which every step succeeds that the
//! rules of a file system allow: a directory can always be created, a file can
//! be written where its directory exists, a file that exists can be moved and
//! can be read, and each step happens at once. Against that disk the store's
//! steps are shown to keep their promises.

use std::path::PathBuf;
use vstd::prelude::*;

use crate::error::StateErrorView;
use crate::store::{
    answers_read, answers_write, beside, empty_state, lemma_staging_is_another_file, located,
    read_advanced, read_begun, staging_file_name, write_advanced, write_begun, ReadEventView,
    ReadStepView, StateFileView, WriteEventView, WriteStepView,
};

verus! {

/// The directories that exist, and the files with what they hold.
pub struct Disk {
    pub dirs: Set<PathBuf>,
    pub files: Map<StateFileView, Seq<char>>,
}

/// The cause that the disk gives when a file or its directory is not there.
pub open spec fn not_found() -> Seq<char> {
    "No such file or directory"@
}

impl Disk {
    /// What the disk answers to a step of a read.
    pub open spec fn report(self, step: ReadStepView) -> ReadEventView {
        match step {
            ReadStepView::Load { file } if self.files.contains_key(file) => {
                ReadEventView::Loaded { contents: self.files[file] }
            },
            ReadStepView::Load { .. } => ReadEventView::LoadFailed { cause: not_found() },
            ReadStepView::Probe { file } => ReadEventView::Probed {
                exists: self.files.contains_key(file),
            },
            ReadStepView::Done { .. } => ReadEventView::Probed { exists: false },
        }
    }

    /// Whether the disk can carry out a step of a write.
    pub open spec fn allows(self, step: WriteStepView) -> bool {
        match step {
            WriteStepView::CreateDirs { .. } => true,
            WriteStepView::Stage { file, .. } => self.dirs.contains(file.dir),
            WriteStepView::Commit { file, staging } => self.files.contains_key(
                beside(file, staging),
            ),
            WriteStepView::Done { .. } => false,
        }
    }

    /// The disk after a step of a write was tried on it. A step that the disk
    /// does not allow leaves it as it was.
    pub open spec fn after(self, step: WriteStepView) -> Disk {
        match step {
            WriteStepView::CreateDirs { file, .. } => Disk {
                dirs: self.dirs.insert(file.dir),
                files: self.files,
            },
            WriteStepView::Stage { file, staging, contents } if self.allows(step) => Disk {
                dirs: self.dirs,
                files: self.files.insert(beside(file, staging), contents),
            },
            WriteStepView::Commit { file, staging } if self.allows(step) => Disk {
                dirs: self.dirs,
                files: self.files.remove(beside(file, staging)).insert(
                    file,
                    self.files[beside(file, staging)],
                ),
            },
            _ => self,
        }
    }

    /// What the disk answers to a step of a write.
    pub open spec fn confirm(self, step: WriteStepView) -> WriteEventView {
        match step {
            WriteStepView::Stage { .. } if self.allows(step) => WriteEventView::Staged,
            WriteStepView::Stage { .. } => WriteEventView::StageFailed { cause: not_found() },
            WriteStepView::Commit { .. } if self.allows(step) => WriteEventView::Committed,
            WriteStepView::Commit { .. } => WriteEventView::CommitFailed { cause: not_found() },
            _ => WriteEventView::DirsCreated,
        }
    }

    /// Where a read stands after `steps` of its steps were carried out on this
    /// disk, beginning at `step`.
    pub open spec fn reading(self, step: ReadStepView, steps: nat) -> ReadStepView
        decreases steps,
    {
        if steps == 0 {
            step
        } else {
            self.reading(read_advanced(step, self.report(step)), (steps - 1) as nat)
        }
    }

    /// Where a write stands, and what the disk holds, after `steps` of its
    /// steps were carried out on this disk, beginning at `step`.
    pub open spec fn writing(self, step: WriteStepView, steps: nat) -> (Disk, WriteStepView)
        decreases steps,
    {
        if steps == 0 {
            (self, step)
        } else {
            self.after(step).writing(
                write_advanced(step, self.confirm(step)),
                (steps - 1) as nat,
            )
        }
    }

    /// How a read of the state ends on this disk. A read takes two steps at
    /// most.
    pub open spec fn read(self, app_data_dir: Result<PathBuf, Seq<char>>) -> ReadStepView {
        self.reading(read_begun(app_data_dir), 2)
    }

    /// How a write of `contents` ends on this disk, and the disk it leaves. A
    /// write takes three steps at most.
    pub open spec fn write(self, app_data_dir: Result<PathBuf, Seq<char>>, contents: Seq<char>) -> (
        Disk,
        WriteStepView,
    ) {
        self.writing(write_begun(app_data_dir, contents), 3)
    }
}

/// The disk answers every step that is pending.
pub proof fn lemma_disk_answers(disk: Disk, read: ReadStepView, write: WriteStepView)
    ensures
        !(read is Done) ==> answers_read(disk.report(read), read),
        !(write is Done) ==> answers_write(disk.confirm(write), write),
{
}

/// A read or a write that is done stays as it ended, and a finished write
/// leaves the disk alone, however many more steps are counted.
pub proof fn lemma_done_is_the_end(disk: Disk, read: ReadStepView, write: WriteStepView, steps: nat)
    ensures
        read is Done ==> disk.reading(read, steps) == read,
        write is Done ==> disk.writing(write, steps) == (disk, write),
    decreases steps,
{
    if steps > 0 {
        lemma_done_is_the_end(disk, read, write, (steps - 1) as nat);
    }
}

/// A read comes to its end within two steps and a write within three.
pub proof fn lemma_few_steps_suffice(
    disk: Disk,
    app_data_dir: Result<PathBuf, Seq<char>>,
    contents: Seq<char>,
)
    ensures
        disk.read(app_data_dir) is Done,
        disk.write(app_data_dir, contents).1 is Done,
{
    reveal_with_fuel(Disk::reading, 3);
    reveal_with_fuel(Disk::writing, 4);
}

/// Where the host cannot name its data directory, a read and a write both end
/// with the host's cause, and the disk is left as it was.
pub proof fn lemma_unresolved_directory_fails(disk: Disk, cause: Seq<char>, contents: Seq<char>)
    ensures
        disk.read(Err(cause)) == (ReadStepView::Done {
            outcome: Err(StateErrorView::PathResolution { cause }),
        }),
        disk.write(Err(cause), contents).1 == (WriteStepView::Done {
            outcome: Err(StateErrorView::PathResolution { cause }),
        }),
        disk.write(Err(cause), contents).0 == disk,
{
    lemma_done_is_the_end(disk, read_begun(Err(cause)), write_begun(Err(cause), contents), 2);
    lemma_done_is_the_end(disk, read_begun(Err(cause)), write_begun(Err(cause), contents), 3);
}

/// Where there is no state file, a read yields the empty state.
pub proof fn lemma_absent_reads_as_empty(disk: Disk, dir: PathBuf)
    requires
        !disk.files.contains_key(located(dir)),
    ensures
        disk.read(Ok(dir)) == (ReadStepView::Done { outcome: Ok(empty_state()) }),
{
    reveal_with_fuel(Disk::reading, 3);
}

/// Where there is a state file, a read yields what it holds, character for
/// character.
pub proof fn lemma_present_reads_as_held(disk: Disk, dir: PathBuf)
    requires
        disk.files.contains_key(located(dir)),
    ensures
        disk.read(Ok(dir)) == (ReadStepView::Done { outcome: Ok(disk.files[located(dir)]) }),
{
    reveal_with_fuel(Disk::reading, 3);
}

/// What a write leaves on the disk: the directory, the new text in the state
/// file, and no staging file.
pub proof fn lemma_write_leaves(disk: Disk, dir: PathBuf, contents: Seq<char>)
    ensures
        disk.write(Ok(dir), contents).1 == (WriteStepView::Done { outcome: Ok(()) }),
        disk.write(Ok(dir), contents).0.dirs == disk.dirs.insert(dir),
        disk.write(Ok(dir), contents).0.files == disk.files.remove(
            beside(located(dir), staging_file_name()),
        ).insert(located(dir), contents),
{
    reveal_with_fuel(Disk::writing, 4);
    let staging = beside(located(dir), staging_file_name());
    let left = disk.write(Ok(dir), contents).0;
    assert(left.files =~= disk.files.remove(staging).insert(located(dir), contents));
}

/// A write succeeds whether or not the directory was there before, and a read
/// that follows it yields exactly what was written.
pub proof fn lemma_write_then_read(disk: Disk, dir: PathBuf, contents: Seq<char>)
    ensures
        disk.write(Ok(dir), contents).1 == (WriteStepView::Done { outcome: Ok(()) }),
        disk.write(Ok(dir), contents).0.read(Ok(dir)) == (ReadStepView::Done {
            outcome: Ok(contents),
        }),
{
    lemma_write_leaves(disk, dir, contents);
    lemma_present_reads_as_held(disk.write(Ok(dir), contents).0, dir);
}

/// Of two writes the second wins: the disk is left as if the first had never
/// happened.
pub proof fn lemma_last_write_wins(
    disk: Disk,
    dir: PathBuf,
    first: Seq<char>,
    second: Seq<char>,
)
    ensures
        disk.write(Ok(dir), first).0.write(Ok(dir), second).0 == disk.write(Ok(dir), second).0,
        disk.write(Ok(dir), first).0.write(Ok(dir), second).0.files[located(dir)] == second,
{
    let between = disk.write(Ok(dir), first).0;
    let twice = between.write(Ok(dir), second).0;
    let once = disk.write(Ok(dir), second).0;
    lemma_write_leaves(disk, dir, first);
    lemma_write_leaves(between, dir, second);
    lemma_write_leaves(disk, dir, second);
    assert(twice.dirs =~= once.dirs);
    assert(twice.files =~= once.files);
}

/// A write changes the state file and may remove a staging file left behind;
/// every other file is as it was, and no directory is removed.
pub proof fn lemma_write_touches_two_files(disk: Disk, dir: PathBuf, contents: Seq<char>)
    ensures
        forall|file: StateFileView|
            file != located(dir) && file != beside(located(dir), staging_file_name()) ==> (
            #[trigger] disk.write(Ok(dir), contents).0.files.contains_key(file)
                == disk.files.contains_key(file) && disk.write(Ok(dir), contents).0.files[file]
                == disk.files[file]),
        disk.dirs.subset_of(disk.write(Ok(dir), contents).0.dirs),
{
    lemma_write_leaves(disk, dir, contents);
}

/// A write replaces the state in one move. Until its last step the state file
/// is as it was, so that a read yields what it would have yielded before the
/// write began; from then on a read yields the new state. There is no moment
/// at which a read yields anything else.
pub proof fn lemma_write_is_atomic(disk: Disk, dir: PathBuf, contents: Seq<char>, steps: nat)
    ensures
        steps < 3 ==> disk.writing(write_begun(Ok(dir), contents), steps).0.read(Ok(dir))
            == disk.read(Ok(dir)),
        steps >= 3 ==> disk.writing(write_begun(Ok(dir), contents), steps).0.read(Ok(dir)) == (
        ReadStepView::Done { outcome: Ok(contents) }),
{
    reveal_with_fuel(Disk::writing, 4);
    reveal_with_fuel(Disk::reading, 3);
    lemma_staging_is_another_file(dir);
    let begun = write_begun(Ok(dir), contents);
    if steps >= 3 {
        let (left, end) = disk.writing(begun, 3);
        lemma_writing_on(disk, begun, 3, (steps - 3) as nat);
        lemma_done_is_the_end(left, read_begun(Ok(dir)), end, (steps - 3) as nat);
        lemma_write_then_read(disk, dir, contents);
    }
}

/// Carrying out `more` steps after `steps` steps is carrying out all of them.
pub proof fn lemma_writing_on(disk: Disk, step: WriteStepView, steps: nat, more: nat)
    ensures
        disk.writing(step, steps + more) == disk.writing(step, steps).0.writing(
            disk.writing(step, steps).1,
            more,
        ),
    decreases steps,
{
    if steps > 0 {
        lemma_writing_on(
            disk.after(step),
            write_advanced(step, disk.confirm(step)),
            (steps - 1) as nat,
            more,
        );
    }
}

} // verus!
