//! The state store: one file of text under the directory that the host keeps
//! for the application's data.
//!
//! Reading and writing are each a short sequence of steps. `begin_read` and
//! `begin_write` yield the first; the caller carries out the pending step on
//! the disk, reports what came of it, and `advance_read` or `advance_write`
//! yields the next, until the step is `Done`.
//!
//! The store does not look into the text it keeps, and it keeps no lock: of two
//! writers the one that finishes last wins.

use std::path::PathBuf;
use vstd::prelude::*;

use crate::error::{StateError, StateErrorView};

verus! {

/// `std::path::PathBuf`. The store hands a directory on as the host gave it and
/// never looks inside.
#[verifier::external_type_specification]
#[verifier::external_body]
pub struct ExPathBuf(PathBuf);

/// Where the state is kept: the file called `name` directly under `dir`.
#[derive(Debug, PartialEq, Eq)]
pub struct StateFile {
    pub dir: PathBuf,
    pub name: String,
}

/// A `StateFile` with its name as a sequence of characters.
pub struct StateFileView {
    pub dir: PathBuf,
    pub name: Seq<char>,
}

impl View for StateFile {
    type V = StateFileView;

    open spec fn view(&self) -> StateFileView {
        StateFileView { dir: self.dir, name: self.name@ }
    }
}

/// The name of the state file.
pub open spec fn state_file_name() -> Seq<char> {
    "state.json"@
}

/// The name of the staging file, in which a new state is written out before it
/// takes the state file's place.
pub open spec fn staging_file_name() -> Seq<char> {
    "state.json.tmp"@
}

/// The file called `name` in the directory of `file`.
pub open spec fn beside(file: StateFileView, name: Seq<char>) -> StateFileView {
    StateFileView { dir: file.dir, name }
}

/// The text that stands for a state that was never written.
pub open spec fn empty_state() -> Seq<char> {
    "{}"@
}

/// The one place where the state is kept, given the host's data directory.
pub open spec fn located(dir: PathBuf) -> StateFileView {
    StateFileView { dir, name: state_file_name() }
}

/// What the host answered when asked for its data directory, with the cause of
/// a refusal as a sequence of characters.
pub open spec fn dir_view(app_data_dir: Result<PathBuf, String>) -> Result<PathBuf, Seq<char>> {
    match app_data_dir {
        Ok(dir) => Ok(dir),
        Err(cause) => Err(cause@),
    }
}

/// A located state file, or the failure to locate it, as views.
pub open spec fn location_view(location: Result<StateFile, StateError>) -> Result<
    StateFileView,
    StateErrorView,
> {
    match location {
        Ok(file) => Ok(file@),
        Err(error) => Err(error@),
    }
}

/// Where the state file lies, as far as the host could say where its data
/// directory is.
pub open spec fn resolved(app_data_dir: Result<PathBuf, Seq<char>>) -> Result<
    StateFileView,
    StateErrorView,
> {
    match app_data_dir {
        Ok(dir) => Ok(located(dir)),
        Err(cause) => Err(StateErrorView::PathResolution { cause }),
    }
}

/// Resolves the location of the state file from the host's answer: always the
/// file `state.json` directly under the data directory. A host that cannot name
/// the directory gives a `PathResolution` failure with the host's own cause;
/// no other place is fallen back on.
pub fn state_file_path(app_data_dir: Result<PathBuf, String>) -> (location: Result<
    StateFile,
    StateError,
>)
    ensures
        location_view(location) == resolved(dir_view(app_data_dir)),
{
    match app_data_dir {
        Ok(dir) => Ok(StateFile { dir, name: "state.json".to_owned() }),
        Err(cause) => Err(StateError::PathResolution { cause }),
    }
}

/// Where a read stands.
#[derive(Debug, PartialEq, Eq)]
pub enum ReadStep {
    /// Find out whether `file` exists.
    Probe { file: StateFile },
    /// Read all of `file` as UTF-8 text.
    Load { file: StateFile },
    /// Nothing is left to do.
    Done { outcome: Result<String, StateError> },
}

/// What came of carrying out a step of a read.
#[derive(Clone, Debug, PartialEq, Eq)]
pub enum ReadEvent {
    /// Whether the probed file exists.
    Probed { exists: bool },
    /// The whole of the file, as text.
    Loaded { contents: String },
    /// The file could not be read, or does not hold text.
    LoadFailed { cause: String },
}

/// Where a write stands.
///
/// The new text never goes into the state file directly. It is written to a
/// staging file beside it, which then takes the state file's place in one move:
/// whoever reads the state file meanwhile finds the old text or the new one,
/// never a part of either.
#[derive(Debug, PartialEq, Eq)]
pub enum WriteStep {
    /// Make sure that `file.dir` exists, creating it and every directory above
    /// it that is missing.
    CreateDirs { file: StateFile, contents: String },
    /// Write `contents` to the file called `staging` in `file.dir`, replacing
    /// whatever that file holds and creating it if there is none.
    Stage { file: StateFile, staging: String, contents: String },
    /// Move the file called `staging` in `file.dir` into the place of `file`,
    /// replacing `file` if it exists.
    Commit { file: StateFile, staging: String },
    /// Nothing is left to do.
    Done { outcome: Result<(), StateError> },
}

/// What came of carrying out a step of a write.
#[derive(Clone, Debug, PartialEq, Eq)]
pub enum WriteEvent {
    /// The directory is there.
    DirsCreated,
    /// The directory, or one above it, could not be created.
    DirsFailed { cause: String },
    /// The staging file now holds the contents.
    Staged,
    /// The staging file could not be written.
    StageFailed { cause: String },
    /// The staging file has taken the place of the state file.
    Committed,
    /// The staging file could not be moved.
    CommitFailed { cause: String },
}

/// A `ReadStep` with its texts as sequences of characters.
pub enum ReadStepView {
    Probe { file: StateFileView },
    Load { file: StateFileView },
    Done { outcome: Result<Seq<char>, StateErrorView> },
}

/// A `ReadEvent` with its texts as sequences of characters.
pub enum ReadEventView {
    Probed { exists: bool },
    Loaded { contents: Seq<char> },
    LoadFailed { cause: Seq<char> },
}

/// A `WriteStep` with its texts as sequences of characters.
pub enum WriteStepView {
    CreateDirs { file: StateFileView, contents: Seq<char> },
    Stage { file: StateFileView, staging: Seq<char>, contents: Seq<char> },
    Commit { file: StateFileView, staging: Seq<char> },
    Done { outcome: Result<(), StateErrorView> },
}

/// A `WriteEvent` with its text as a sequence of characters.
pub enum WriteEventView {
    DirsCreated,
    DirsFailed { cause: Seq<char> },
    Staged,
    StageFailed { cause: Seq<char> },
    Committed,
    CommitFailed { cause: Seq<char> },
}

/// How a read ended, as views.
pub open spec fn read_outcome_view(outcome: Result<String, StateError>) -> Result<
    Seq<char>,
    StateErrorView,
> {
    match outcome {
        Ok(contents) => Ok(contents@),
        Err(error) => Err(error@),
    }
}

/// How a write ended, as views.
pub open spec fn write_outcome_view(outcome: Result<(), StateError>) -> Result<
    (),
    StateErrorView,
> {
    match outcome {
        Ok(()) => Ok(()),
        Err(error) => Err(error@),
    }
}

impl View for ReadStep {
    type V = ReadStepView;

    open spec fn view(&self) -> ReadStepView {
        match *self {
            ReadStep::Probe { file } => ReadStepView::Probe { file: file@ },
            ReadStep::Load { file } => ReadStepView::Load { file: file@ },
            ReadStep::Done { outcome } => ReadStepView::Done {
                outcome: read_outcome_view(outcome),
            },
        }
    }
}

impl View for ReadEvent {
    type V = ReadEventView;

    open spec fn view(&self) -> ReadEventView {
        match *self {
            ReadEvent::Probed { exists } => ReadEventView::Probed { exists },
            ReadEvent::Loaded { contents } => ReadEventView::Loaded { contents: contents@ },
            ReadEvent::LoadFailed { cause } => ReadEventView::LoadFailed { cause: cause@ },
        }
    }
}

impl View for WriteStep {
    type V = WriteStepView;

    open spec fn view(&self) -> WriteStepView {
        match *self {
            WriteStep::CreateDirs { file, contents } => WriteStepView::CreateDirs {
                file: file@,
                contents: contents@,
            },
            WriteStep::Stage { file, staging, contents } => WriteStepView::Stage {
                file: file@,
                staging: staging@,
                contents: contents@,
            },
            WriteStep::Commit { file, staging } => WriteStepView::Commit {
                file: file@,
                staging: staging@,
            },
            WriteStep::Done { outcome } => WriteStepView::Done {
                outcome: write_outcome_view(outcome),
            },
        }
    }
}

impl View for WriteEvent {
    type V = WriteEventView;

    open spec fn view(&self) -> WriteEventView {
        match *self {
            WriteEvent::DirsCreated => WriteEventView::DirsCreated,
            WriteEvent::DirsFailed { cause } => WriteEventView::DirsFailed { cause: cause@ },
            WriteEvent::Staged => WriteEventView::Staged,
            WriteEvent::StageFailed { cause } => WriteEventView::StageFailed { cause: cause@ },
            WriteEvent::Committed => WriteEventView::Committed,
            WriteEvent::CommitFailed { cause } => WriteEventView::CommitFailed { cause: cause@ },
        }
    }
}

/// Whether `event` tells what came of carrying out `step` of a read.
pub open spec fn answers_read(event: ReadEventView, step: ReadStepView) -> bool {
    match step {
        ReadStepView::Probe { .. } => event is Probed,
        ReadStepView::Load { .. } => event is Loaded || event is LoadFailed,
        ReadStepView::Done { .. } => false,
    }
}

/// Whether `event` tells what came of carrying out `step` of a write.
pub open spec fn answers_write(event: WriteEventView, step: WriteStepView) -> bool {
    match step {
        WriteStepView::CreateDirs { .. } => event is DirsCreated || event is DirsFailed,
        WriteStepView::Stage { .. } => event is Staged || event is StageFailed,
        WriteStepView::Commit { .. } => event is Committed || event is CommitFailed,
        WriteStepView::Done { .. } => false,
    }
}

/// The first step of a read: probe the state file, unless it cannot even be
/// located.
pub open spec fn read_begun(app_data_dir: Result<PathBuf, Seq<char>>) -> ReadStepView {
    match resolved(app_data_dir) {
        Ok(file) => ReadStepView::Probe { file },
        Err(error) => ReadStepView::Done { outcome: Err(error) },
    }
}

/// The step of a read that follows `step` once `event` is reported. A file
/// that is not there reads as the empty state; one that is there reads as what
/// it holds. An event that does not answer the pending step leaves the step as
/// it is.
pub open spec fn read_advanced(step: ReadStepView, event: ReadEventView) -> ReadStepView {
    match (step, event) {
        (ReadStepView::Probe { file }, ReadEventView::Probed { exists }) => {
            if exists {
                ReadStepView::Load { file }
            } else {
                ReadStepView::Done { outcome: Ok(empty_state()) }
            }
        },
        (ReadStepView::Load { .. }, ReadEventView::Loaded { contents }) => {
            ReadStepView::Done { outcome: Ok(contents) }
        },
        (ReadStepView::Load { .. }, ReadEventView::LoadFailed { cause }) => {
            ReadStepView::Done { outcome: Err(StateErrorView::IoRead { cause }) }
        },
        _ => step,
    }
}

/// The first step of a write: make sure of the directory, unless the state
/// file cannot even be located.
pub open spec fn write_begun(
    app_data_dir: Result<PathBuf, Seq<char>>,
    contents: Seq<char>,
) -> WriteStepView {
    match resolved(app_data_dir) {
        Ok(file) => WriteStepView::CreateDirs { file, contents },
        Err(error) => WriteStepView::Done { outcome: Err(error) },
    }
}

/// The step of a write that follows `step` once `event` is reported: the
/// directory first, then the staging file, then the move. Whatever cannot be
/// done ends the write; what is left on the disk by then stays there. An event
/// that does not answer the pending step leaves the step as it is.
pub open spec fn write_advanced(step: WriteStepView, event: WriteEventView) -> WriteStepView {
    match (step, event) {
        (WriteStepView::CreateDirs { file, contents }, WriteEventView::DirsCreated) => {
            WriteStepView::Stage { file, staging: staging_file_name(), contents }
        },
        (WriteStepView::CreateDirs { .. }, WriteEventView::DirsFailed { cause }) => {
            WriteStepView::Done { outcome: Err(StateErrorView::IoCreateDir { cause }) }
        },
        (WriteStepView::Stage { file, staging, .. }, WriteEventView::Staged) => {
            WriteStepView::Commit { file, staging }
        },
        (WriteStepView::Stage { .. }, WriteEventView::StageFailed { cause }) => {
            WriteStepView::Done { outcome: Err(StateErrorView::IoWrite { cause }) }
        },
        (WriteStepView::Commit { .. }, WriteEventView::Committed) => {
            WriteStepView::Done { outcome: Ok(()) }
        },
        (WriteStepView::Commit { .. }, WriteEventView::CommitFailed { cause }) => {
            WriteStepView::Done { outcome: Err(StateErrorView::IoWrite { cause }) }
        },
        _ => step,
    }
}

/// Starts a read of the state.
pub fn begin_read(app_data_dir: Result<PathBuf, String>) -> (step: ReadStep)
    ensures
        step@ == read_begun(dir_view(app_data_dir)),
{
    match state_file_path(app_data_dir) {
        Ok(file) => ReadStep::Probe { file },
        Err(error) => ReadStep::Done { outcome: Err(error) },
    }
}

/// Takes a read one step further.
pub fn advance_read(step: ReadStep, event: ReadEvent) -> (next: ReadStep)
    ensures
        next@ == read_advanced(step@, event@),
{
    match step {
        ReadStep::Probe { file } => match event {
            ReadEvent::Probed { exists } => {
                if exists {
                    ReadStep::Load { file }
                } else {
                    ReadStep::Done { outcome: Ok("{}".to_owned()) }
                }
            },
            _ => ReadStep::Probe { file },
        },
        ReadStep::Load { file } => match event {
            ReadEvent::Loaded { contents } => ReadStep::Done { outcome: Ok(contents) },
            ReadEvent::LoadFailed { cause } => ReadStep::Done {
                outcome: Err(StateError::IoRead { cause }),
            },
            _ => ReadStep::Load { file },
        },
        ReadStep::Done { outcome } => ReadStep::Done { outcome },
    }
}

/// Starts a write of `contents` as the new state.
pub fn begin_write(app_data_dir: Result<PathBuf, String>, contents: String) -> (step: WriteStep)
    ensures
        step@ == write_begun(dir_view(app_data_dir), contents@),
{
    match state_file_path(app_data_dir) {
        Ok(file) => WriteStep::CreateDirs { file, contents },
        Err(error) => WriteStep::Done { outcome: Err(error) },
    }
}

/// Takes a write one step further.
pub fn advance_write(step: WriteStep, event: WriteEvent) -> (next: WriteStep)
    ensures
        next@ == write_advanced(step@, event@),
{
    match step {
        WriteStep::CreateDirs { file, contents } => match event {
            WriteEvent::DirsCreated => WriteStep::Stage {
                file,
                staging: "state.json.tmp".to_owned(),
                contents,
            },
            WriteEvent::DirsFailed { cause } => WriteStep::Done {
                outcome: Err(StateError::IoCreateDir { cause }),
            },
            _ => WriteStep::CreateDirs { file, contents },
        },
        WriteStep::Stage { file, staging, contents } => match event {
            WriteEvent::Staged => WriteStep::Commit { file, staging },
            WriteEvent::StageFailed { cause } => WriteStep::Done {
                outcome: Err(StateError::IoWrite { cause }),
            },
            _ => WriteStep::Stage { file, staging, contents },
        },
        WriteStep::Commit { file, staging } => match event {
            WriteEvent::Committed => WriteStep::Done { outcome: Ok(()) },
            WriteEvent::CommitFailed { cause } => WriteStep::Done {
                outcome: Err(StateError::IoWrite { cause }),
            },
            _ => WriteStep::Commit { file, staging },
        },
        WriteStep::Done { outcome } => WriteStep::Done { outcome },
    }
}

impl ReadStepView {
    /// The file that the step names, if it names one.
    pub open spec fn file(self) -> Option<StateFileView> {
        match self {
            ReadStepView::Probe { file } => Some(file),
            ReadStepView::Load { file } => Some(file),
            ReadStepView::Done { .. } => None,
        }
    }
}

impl WriteStepView {
    /// The file that the step names, if it names one.
    pub open spec fn file(self) -> Option<StateFileView> {
        match self {
            WriteStepView::CreateDirs { file, .. } => Some(file),
            WriteStepView::Stage { file, .. } => Some(file),
            WriteStepView::Commit { file, .. } => Some(file),
            WriteStepView::Done { .. } => None,
        }
    }

    /// The text that the step still has to write out, if it has one.
    pub open spec fn contents(self) -> Option<Seq<char>> {
        match self {
            WriteStepView::CreateDirs { contents, .. } => Some(contents),
            WriteStepView::Stage { contents, .. } => Some(contents),
            WriteStepView::Commit { .. } => None,
            WriteStepView::Done { .. } => None,
        }
    }
}

/// A read and a write under the same data directory start on the same file,
/// the one that `located` gives, and a write starts with the text it was given.
pub proof fn lemma_one_file_under_a_directory(dir: PathBuf, contents: Seq<char>)
    ensures
        read_begun(Ok(dir)).file() == Some(located(dir)),
        write_begun(Ok(dir), contents).file() == Some(located(dir)),
        write_begun(Ok(dir), contents).contents() == Some(contents),
{
}

/// No step of a read names another file than the step before it.
pub proof fn lemma_read_stays_with_its_file(step: ReadStepView, event: ReadEventView)
    ensures
        read_advanced(step, event).file() is Some ==> read_advanced(step, event).file()
            == step.file(),
{
}

/// No step of a write names another state file than the step before it, and
/// none that still has a text to write out holds another text than the step
/// before it.
pub proof fn lemma_write_stays_with_its_file(step: WriteStepView, event: WriteEventView)
    ensures
        write_advanced(step, event).file() is Some ==> write_advanced(step, event).file()
            == step.file(),
        write_advanced(step, event).contents() is Some ==> write_advanced(
            step,
            event,
        ).contents() == step.contents(),
{
}

/// The staging file is never the state file itself.
pub proof fn lemma_staging_is_another_file(dir: PathBuf)
    ensures
        beside(located(dir), staging_file_name()) != located(dir),
{
    reveal_strlit("state.json");
    reveal_strlit("state.json.tmp");
    assert(state_file_name().len() != staging_file_name().len());
}

/// The file is loaded only after a probe has found it, and a probe that finds
/// nothing ends the read with the empty state.
pub proof fn lemma_load_follows_a_probe(step: ReadStepView, event: ReadEventView)
    ensures
        !(step is Load) && read_advanced(step, event) is Load ==> step is Probe && event
            == (ReadEventView::Probed { exists: true }),
        step is Probe && event == (ReadEventView::Probed { exists: false }) ==> read_advanced(
            step,
            event,
        ) == (ReadStepView::Done { outcome: Ok(empty_state()) }),
{
}

/// A write goes in order: the staging file is written only after the
/// directory was made sure of, and under its one name; it is moved only after
/// it was written; and a write ends well only after it was moved.
pub proof fn lemma_write_goes_in_order(step: WriteStepView, event: WriteEventView)
    ensures
        !(step is Stage) && write_advanced(step, event) is Stage ==> step is CreateDirs && event
            is DirsCreated,
        !(step is Stage) ==> (write_advanced(step, event) matches WriteStepView::Stage {
            staging,
            ..
        } ==> staging == staging_file_name()),
        !(step is Commit) && write_advanced(step, event) is Commit ==> step is Stage && event
            is Staged,
        !(step is Done) && write_advanced(step, event) == (WriteStepView::Done {
            outcome: Ok(()),
        }) ==> step is Commit && event is Committed,
{
}

/// An event that answers nothing pending changes nothing; in particular, no
/// event changes how a read or a write ended.
pub proof fn lemma_stray_event_changes_nothing(
    read: ReadStepView,
    read_event: ReadEventView,
    write: WriteStepView,
    write_event: WriteEventView,
)
    ensures
        !answers_read(read_event, read) ==> read_advanced(read, read_event) == read,
        !answers_write(write_event, write) ==> write_advanced(write, write_event) == write,
{
}

} // verus!
