//! The report store: reports as flat files below one directory, written so
//! that no unfinished file ever stands at a report's path.

use vstd::prelude::*;
use crate::text::{chars_of, strings_view};

verus! {

/// The largest stored report, in bytes, that is read back into memory.
pub const MAX_REPORT_BYTES: u64 = 50 * 1024 * 1024;

/// What is put behind a report's name to name its temporary file.
pub const TEMP_SUFFIX: &'static str = ".tmp";

/// The work on the file system during which something went wrong.
#[derive(Clone, Copy, Debug, PartialEq, Eq, Structural)]
pub enum IoStep {
    CreateDirectory,
    WriteTemp,
    Rename,
    Metadata,
    Read,
    Delete,
    List,
}

/// Why an operation of the store failed.
#[derive(Debug)]
pub enum StoreError {
    /// Nothing stands at the report's path.
    NotFound,
    /// A directory stands at the report's path.
    NotAFile,
    /// The report is larger than `MAX_REPORT_BYTES`; its size in whole
    /// mebibytes.
    TooLarge { megabytes: u64 },
    /// The reports directory does not exist.
    MissingDirectory,
    /// The file system refused some work; which, and the cause it gave.
    Io { step: IoStep, cause: String },
}

/// What the file system says of a path before anything is read from it.
#[derive(Debug)]
pub struct PathProbe {
    /// Whether anything stands at the path.
    pub exists: bool,
    /// Whether a regular file stands there.
    pub is_file: bool,
    /// The size of what stands there, in bytes, or why it could not be had.
    pub size: Result<u64, String>,
}

/// One entry of the reports directory.
#[derive(Debug)]
pub struct DirectoryEntry {
    /// The entry's file name, if it can be read as text.
    pub name: Option<String>,
    /// Whether the entry is a regular file.
    pub is_file: bool,
}

/// What the caller reports of the work it has done on the file system.
#[derive(Debug)]
pub enum StoreEvent {
    /// What stands at the path that was to be looked at.
    Probed(PathProbe),
    /// Work that gives nothing back went well, or failed with this cause.
    Finished(Result<(), String>),
    /// What the report's file holds, or why it could not be read.
    Content(Result<String, String>),
    /// The entries of the reports directory, or why they could not be read.
    Entries(Result<Vec<DirectoryEntry>, String>),
}

/// Where the saving of a report stands. Each state but the last names the work
/// that is to be done next on the file system.
#[derive(Debug)]
pub enum SaveState {
    /// Make sure that the directory in which the report's file will stand
    /// exists.
    EnsureParent { directory: String, name: String, temp_path: String, content: String },
    /// Write `content` to the temporary file.
    WriteTemp { directory: String, name: String, temp_path: String, content: String },
    /// Move the temporary file to the report's path.
    Rename { directory: String, name: String, temp_path: String },
    /// The move failed with `cause`: remove the temporary file, whether or not
    /// that works.
    RemoveTemp { temp_path: String, cause: String },
    /// The report stands under this name, or it does not and this is why.
    Done(Result<String, StoreError>),
}

/// Where the reading of a report stands.
#[derive(Debug)]
pub enum ReadState {
    /// Look at what stands at the report's path.
    Probe { directory: String, name: String },
    /// Read the report's file.
    Read { directory: String, name: String },
    /// What the report holds, or why it was not read.
    Done(Result<String, StoreError>),
}

/// Where the removal of a report stands.
#[derive(Debug)]
pub enum DeleteState {
    /// Look whether anything stands at the report's path.
    Probe { directory: String, name: String },
    /// Remove the report's file.
    Remove { directory: String, name: String },
    /// Whether a report was removed, or why it could not be.
    Done(Result<bool, StoreError>),
}

/// Where the listing of the reports stands.
#[derive(Debug)]
pub enum ListState {
    /// Look whether the reports directory exists.
    Probe { directory: String },
    /// Read the entries of the reports directory.
    ReadEntries { directory: String },
    /// The names of the reports, or why they could not be listed.
    Done(Result<Vec<String>, StoreError>),
}

/// The state that follows `state` on `event` while a report is saved. The
/// report's own path is written to by the move alone, and the move comes after
/// the whole content has reached the temporary file. An event that does not
/// answer the work that `state` names changes nothing.
pub open spec fn save_next(state: SaveState, event: StoreEvent) -> SaveState {
    match (state, event) {
        (
            SaveState::EnsureParent { directory, name, temp_path, content },
            StoreEvent::Finished(Ok(_)),
        ) => SaveState::WriteTemp { directory, name, temp_path, content },
        (
            SaveState::EnsureParent { directory, name, temp_path, content },
            StoreEvent::Finished(Err(cause)),
        ) => SaveState::Done(Err(StoreError::Io { step: IoStep::CreateDirectory, cause })),
        (
            SaveState::WriteTemp { directory, name, temp_path, content },
            StoreEvent::Finished(Ok(_)),
        ) => SaveState::Rename { directory, name, temp_path },
        (
            SaveState::WriteTemp { directory, name, temp_path, content },
            StoreEvent::Finished(Err(cause)),
        ) => SaveState::Done(Err(StoreError::Io { step: IoStep::WriteTemp, cause })),
        (SaveState::Rename { directory, name, temp_path }, StoreEvent::Finished(Ok(_))) => {
            SaveState::Done(Ok(name))
        },
        (SaveState::Rename { directory, name, temp_path }, StoreEvent::Finished(Err(cause))) => {
            SaveState::RemoveTemp { temp_path, cause }
        },
        (SaveState::RemoveTemp { temp_path, cause }, StoreEvent::Finished(_)) => SaveState::Done(
            Err(StoreError::Io { step: IoStep::Rename, cause }),
        ),
        (state, _) => state,
    }
}

/// What a probe says of a report that is to be read: `None` where the file may
/// be read, and else the error. The size is judged from the probe, before any
/// of the content is read.
pub open spec fn read_refusal(probe: PathProbe) -> Option<StoreError> {
    if !probe.exists {
        Some(StoreError::NotFound)
    } else if !probe.is_file {
        Some(StoreError::NotAFile)
    } else {
        match probe.size {
            Err(cause) => Some(StoreError::Io { step: IoStep::Metadata, cause }),
            Ok(size) => if size > MAX_REPORT_BYTES {
                Some(StoreError::TooLarge { megabytes: size / 1_048_576u64 })
            } else {
                None
            },
        }
    }
}

/// The state that follows `state` on `event` while a report is read.
pub open spec fn read_next(state: ReadState, event: StoreEvent) -> ReadState {
    match (state, event) {
        (ReadState::Probe { directory, name }, StoreEvent::Probed(probe)) => match read_refusal(
            probe,
        ) {
            Some(error) => ReadState::Done(Err(error)),
            None => ReadState::Read { directory, name },
        },
        (ReadState::Read { directory, name }, StoreEvent::Content(Ok(content))) => ReadState::Done(
            Ok(content),
        ),
        (ReadState::Read { directory, name }, StoreEvent::Content(Err(cause))) => ReadState::Done(
            Err(StoreError::Io { step: IoStep::Read, cause }),
        ),
        (state, _) => state,
    }
}

/// The state that follows `state` on `event` while a report is removed. That
/// nothing stands at the report's path is no error: nothing was removed.
pub open spec fn delete_next(state: DeleteState, event: StoreEvent) -> DeleteState {
    match (state, event) {
        (DeleteState::Probe { directory, name }, StoreEvent::Probed(probe)) => if probe.exists {
            DeleteState::Remove { directory, name }
        } else {
            DeleteState::Done(Ok(false))
        },
        (DeleteState::Remove { directory, name }, StoreEvent::Finished(Ok(_))) => {
            DeleteState::Done(Ok(true))
        },
        (DeleteState::Remove { directory, name }, StoreEvent::Finished(Err(cause))) => {
            DeleteState::Done(Err(StoreError::Io { step: IoStep::Delete, cause }))
        },
        (state, _) => state,
    }
}

/// Whether a file name has the extension of a report: it ends in `.md`, behind
/// at least one other character.
pub open spec fn is_report_name(name: Seq<char>) -> bool {
    name.len() >= 4 && name[name.len() - 3] == '.' && name[name.len() - 2] == 'm' && name[name.len()
        - 1] == 'd'
}

/// Whether a directory entry is a report: a regular file whose name can be read
/// as text and has the extension of a report.
pub open spec fn is_report(entry: DirectoryEntry) -> bool {
    match entry.name {
        Some(name) => entry.is_file && is_report_name(name@),
        None => false,
    }
}

/// The names of the reports among the first `n` entries, in the order of the
/// entries.
pub open spec fn report_names(entries: Seq<DirectoryEntry>, n: int) -> Seq<Seq<char>>
    decreases n,
{
    if n <= 0 {
        Seq::empty()
    } else if is_report(entries[n - 1]) {
        report_names(entries, n - 1).push(entries[n - 1].name->0@)
    } else {
        report_names(entries, n - 1)
    }
}

/// Tests a file name for the extension of a report.
pub fn has_report_extension(name: &str) -> (b: bool)
    ensures
        b == is_report_name(name@),
{
    let chars = chars_of(name);
    let n = chars.len();
    n >= 4 && chars[n - 3] == '.' && chars[n - 2] == 'm' && chars[n - 1] == 'd'
}

/// Picks the names of the reports out of the entries of a directory. Entries
/// that are no regular files, whose names cannot be read as text or that have
/// another extension are passed over in silence.
pub fn select_reports(entries: &Vec<DirectoryEntry>) -> (names: Vec<String>)
    ensures
        strings_view(names@) == report_names(entries@, entries@.len() as int),
{
    let mut names: Vec<String> = Vec::new();
    let mut i: usize = 0;
    while i < entries.len()
        invariant
            i <= entries.len(),
            strings_view(names@) == report_names(entries@, i as int),
        decreases entries.len() - i,
    {
        let ghost before = strings_view(names@);
        if entries[i].is_file {
            match &entries[i].name {
                Some(name) => {
                    if has_report_extension(name.as_str()) {
                        names.push(name.clone());
                        assert(strings_view(names@) =~= before.push(name@));
                    }
                },
                None => {},
            }
        }
        i += 1;
    }
    names
}

/// The state that follows `state` on `event` while the reports are listed.
pub open spec fn list_next(state: ListState, event: StoreEvent) -> ListState {
    match (state, event) {
        (ListState::Probe { directory }, StoreEvent::Probed(probe)) => if probe.exists {
            ListState::ReadEntries { directory }
        } else {
            ListState::Done(Err(StoreError::MissingDirectory))
        },
        (ListState::ReadEntries { directory }, StoreEvent::Entries(Err(cause))) => ListState::Done(
            Err(StoreError::Io { step: IoStep::List, cause }),
        ),
        (state, _) => state,
    }
}

/// The path of the temporary file of the report `name`.
pub open spec fn temp_path_of(name: Seq<char>) -> Seq<char> {
    name + TEMP_SUFFIX@
}

/// A store of reports: flat files below one directory.
#[derive(Debug)]
pub struct ReportManager {
    reports_dir: String,
}

impl View for ReportManager {
    type V = Seq<char>;

    closed spec fn view(&self) -> Seq<char> {
        self.reports_dir@
    }
}

impl ReportManager {
    /// A store below the directory `reports_dir`.
    pub fn new(reports_dir: &str) -> (manager: ReportManager)
        ensures
            manager@ == reports_dir@,
    {
        ReportManager { reports_dir: String::from_str(reports_dir) }
    }

    /// The directory of the store.
    pub fn reports_dir(&self) -> (directory: &String)
        ensures
            directory@ == self@,
    {
        &self.reports_dir
    }

    /// Starts to save `content` as the report `filename`.
    ///
    /// The content goes to a temporary file first, whose path is the report's
    /// name with `.tmp` behind it, and is moved to the report's path when it is
    /// complete: at no time does an unfinished file stand at that path.
    pub fn save_report(&self, filename: &str, content: &str) -> (state: SaveState)
        ensures
            state matches SaveState::EnsureParent { directory, name, temp_path, content: text }
                && directory@ == self@ && name@ == filename@ && temp_path@ == temp_path_of(
                filename@,
            ) && text@ == content@,
    {
        let mut temp_path = String::from_str(filename);
        temp_path.append(TEMP_SUFFIX);
        SaveState::EnsureParent {
            directory: self.reports_dir.clone(),
            name: String::from_str(filename),
            temp_path,
            content: String::from_str(content),
        }
    }

    /// Starts to read the report `filename`.
    pub fn read_report(&self, filename: &str) -> (state: ReadState)
        ensures
            state matches ReadState::Probe { directory, name } && directory@ == self@ && name@
                == filename@,
    {
        ReadState::Probe { directory: self.reports_dir.clone(), name: String::from_str(filename) }
    }

    /// Starts to remove the report `filename`.
    pub fn delete_report(&self, filename: &str) -> (state: DeleteState)
        ensures
            state matches DeleteState::Probe { directory, name } && directory@ == self@ && name@
                == filename@,
    {
        DeleteState::Probe {
            directory: self.reports_dir.clone(),
            name: String::from_str(filename),
        }
    }

    /// Starts to list the reports of the store.
    pub fn get_all_reports(&self) -> (state: ListState)
        ensures
            state matches ListState::Probe { directory } && directory@ == self@,
    {
        list_reports(self.reports_dir.as_str())
    }
}

/// Starts to list the reports in the directory `dir_path`.
pub fn list_reports(dir_path: &str) -> (state: ListState)
    ensures
        state matches ListState::Probe { directory } && directory@ == dir_path@,
{
    ListState::Probe { directory: String::from_str(dir_path) }
}

/// Takes the saving of a report one step further.
pub fn save_step(state: SaveState, event: StoreEvent) -> (next: SaveState)
    ensures
        next == save_next(state, event),
{
    match (state, event) {
        (
            SaveState::EnsureParent { directory, name, temp_path, content },
            StoreEvent::Finished(Ok(_)),
        ) => SaveState::WriteTemp { directory, name, temp_path, content },
        (
            SaveState::EnsureParent { directory, name, temp_path, content },
            StoreEvent::Finished(Err(cause)),
        ) => SaveState::Done(Err(StoreError::Io { step: IoStep::CreateDirectory, cause })),
        (
            SaveState::WriteTemp { directory, name, temp_path, content },
            StoreEvent::Finished(Ok(_)),
        ) => SaveState::Rename { directory, name, temp_path },
        (
            SaveState::WriteTemp { directory, name, temp_path, content },
            StoreEvent::Finished(Err(cause)),
        ) => SaveState::Done(Err(StoreError::Io { step: IoStep::WriteTemp, cause })),
        (SaveState::Rename { directory, name, temp_path }, StoreEvent::Finished(Ok(_))) => {
            SaveState::Done(Ok(name))
        },
        (SaveState::Rename { directory, name, temp_path }, StoreEvent::Finished(Err(cause))) => {
            SaveState::RemoveTemp { temp_path, cause }
        },
        (SaveState::RemoveTemp { temp_path, cause }, StoreEvent::Finished(_)) => SaveState::Done(
            Err(StoreError::Io { step: IoStep::Rename, cause }),
        ),
        (state, _) => state,
    }
}

/// Judges what a probe says of a report that is to be read.
pub fn check_readable(probe: PathProbe) -> (refusal: Option<StoreError>)
    ensures
        refusal == read_refusal(probe),
{
    if !probe.exists {
        Some(StoreError::NotFound)
    } else if !probe.is_file {
        Some(StoreError::NotAFile)
    } else {
        match probe.size {
            Err(cause) => Some(StoreError::Io { step: IoStep::Metadata, cause }),
            Ok(size) => if size > MAX_REPORT_BYTES {
                Some(StoreError::TooLarge { megabytes: size / 1_048_576u64 })
            } else {
                None
            },
        }
    }
}

/// Takes the reading of a report one step further.
pub fn read_step(state: ReadState, event: StoreEvent) -> (next: ReadState)
    ensures
        next == read_next(state, event),
{
    match (state, event) {
        (ReadState::Probe { directory, name }, StoreEvent::Probed(probe)) => match check_readable(
            probe,
        ) {
            Some(error) => ReadState::Done(Err(error)),
            None => ReadState::Read { directory, name },
        },
        (ReadState::Read { directory, name }, StoreEvent::Content(Ok(content))) => ReadState::Done(
            Ok(content),
        ),
        (ReadState::Read { directory, name }, StoreEvent::Content(Err(cause))) => ReadState::Done(
            Err(StoreError::Io { step: IoStep::Read, cause }),
        ),
        (state, _) => state,
    }
}

/// Takes the removal of a report one step further.
pub fn delete_step(state: DeleteState, event: StoreEvent) -> (next: DeleteState)
    ensures
        next == delete_next(state, event),
{
    match (state, event) {
        (DeleteState::Probe { directory, name }, StoreEvent::Probed(probe)) => if probe.exists {
            DeleteState::Remove { directory, name }
        } else {
            DeleteState::Done(Ok(false))
        },
        (DeleteState::Remove { directory, name }, StoreEvent::Finished(Ok(_))) => {
            DeleteState::Done(Ok(true))
        },
        (DeleteState::Remove { directory, name }, StoreEvent::Finished(Err(cause))) => {
            DeleteState::Done(Err(StoreError::Io { step: IoStep::Delete, cause }))
        },
        (state, _) => state,
    }
}

/// Takes the listing of the reports one step further. Where the entries could
/// be read, the listing ends with the names of the reports among them, in the
/// order of the entries.
pub fn list_step(state: ListState, event: StoreEvent) -> (next: ListState)
    ensures
        match (state, event) {
            (ListState::ReadEntries { directory }, StoreEvent::Entries(Ok(entries))) => next
                matches ListState::Done(Ok(names)) && strings_view(names@) == report_names(
                entries@,
                entries@.len() as int,
            ),
            _ => next == list_next(state, event),
        },
{
    match (state, event) {
        (ListState::Probe { directory }, StoreEvent::Probed(probe)) => if probe.exists {
            ListState::ReadEntries { directory }
        } else {
            ListState::Done(Err(StoreError::MissingDirectory))
        },
        (ListState::ReadEntries { directory }, StoreEvent::Entries(Ok(entries))) => {
            ListState::Done(Ok(select_reports(&entries)))
        },
        (ListState::ReadEntries { directory }, StoreEvent::Entries(Err(cause))) => ListState::Done(
            Err(StoreError::Io { step: IoStep::List, cause }),
        ),
        (state, _) => state,
    }
}

/// Whether a probe shows a regular file of at most `MAX_REPORT_BYTES` bytes.
pub open spec fn shows_readable_file(probe: PathProbe) -> bool {
    probe.exists && probe.is_file && match probe.size {
        Ok(size) => size <= MAX_REPORT_BYTES,
        Err(_) => false,
    }
}

/// Whether a probe shows a regular file of more than `MAX_REPORT_BYTES` bytes.
pub open spec fn shows_oversized_file(probe: PathProbe) -> bool {
    probe.exists && probe.is_file && match probe.size {
        Ok(size) => size > MAX_REPORT_BYTES,
        Err(_) => false,
    }
}

/// A report's file is read only after a probe has shown a regular file of at
/// most `MAX_REPORT_BYTES` bytes: a larger one ends the reading with the size
/// error at the probe, before any of its content is asked for.
pub proof fn lemma_oversized_never_read(directory: String, name: String, probe: PathProbe)
    ensures
        read_refusal(probe) is None <==> shows_readable_file(probe),
        read_next(ReadState::Probe { directory, name }, StoreEvent::Probed(probe)) is Read
            <==> shows_readable_file(probe),
        shows_oversized_file(probe) ==> read_next(
            ReadState::Probe { directory, name },
            StoreEvent::Probed(probe),
        ) == ReadState::Done(
            Err(StoreError::TooLarge { megabytes: probe.size->Ok_0 / 1_048_576u64 }),
        ),
{
}

/// Only the probe leads to the reading of a report's file: no event turns any
/// other state into one that asks for the content.
pub proof fn lemma_read_follows_probe(state: ReadState, event: StoreEvent)
    requires
        !(state is Read),
        read_next(state, event) is Read,
    ensures
        state is Probe,
        event is Probed,
        shows_readable_file(event->Probed_0),
{
}

/// Removing a report that does not exist ends with `false` and no error;
/// removing one that exists asks the file system to remove it, and ends with
/// `true` when that is done.
pub proof fn lemma_delete_outcomes(directory: String, name: String, probe: PathProbe)
    ensures
        !probe.exists ==> delete_next(
            DeleteState::Probe { directory, name },
            StoreEvent::Probed(probe),
        ) == DeleteState::Done(Ok(false)),
        probe.exists ==> delete_next(
            DeleteState::Probe { directory, name },
            StoreEvent::Probed(probe),
        ) == (DeleteState::Remove { directory, name }),
        delete_next(DeleteState::Remove { directory, name }, StoreEvent::Finished(Ok(())))
            == DeleteState::Done(Ok(true)),
{
}

/// A save whose every step goes well hands the content on unchanged to the
/// temporary file, moves that file, and ends with the report's name.
pub proof fn lemma_save_path(directory: String, name: String, temp_path: String, content: String)
    ensures
        save_next(
            SaveState::EnsureParent { directory, name, temp_path, content },
            StoreEvent::Finished(Ok(())),
        ) == (SaveState::WriteTemp { directory, name, temp_path, content }),
        save_next(
            SaveState::WriteTemp { directory, name, temp_path, content },
            StoreEvent::Finished(Ok(())),
        ) == (SaveState::Rename { directory, name, temp_path }),
        save_next(SaveState::Rename { directory, name, temp_path }, StoreEvent::Finished(Ok(())))
            == SaveState::Done(Ok(name)),
{
}

/// While a report is saved, the move to the report's path is asked for only
/// when the file system has said that the temporary file is written.
pub proof fn lemma_save_writes_before_move(state: SaveState, event: StoreEvent)
    requires
        !(state is Rename),
        save_next(state, event) is Rename,
    ensures
        state is WriteTemp,
        event is Finished,
        event->Finished_0 is Ok,
{
}

} // verus!
