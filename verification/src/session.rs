//! The run as a state machine.
//!
//! A [`Session`] never touches the file system. It issues one [`Request`] at
//! a time; the caller carries the request out and reports the [`Event`] that
//! answers it. From the pending request and the event, [`step`] gives the
//! next request: this function is the whole control flow of a run.

use crate::crypto::{holds_certificate, load_key, seal_bytes, RecipientKey, SealStage};
use crate::failure::{Cause, Failure, FailureView};
use crate::paths::{
    already_encrypted, is_already_encrypted, mirrored, mirrored_target, parent, parent_of,
    temporary, temporary_sibling,
};
use vstd::prelude::*;

verus! {

/// Where ciphertext is placed.
#[derive(Clone, Debug, PartialEq, Eq)]
pub enum Placement {
    /// Under a separate root, at the same relative path as the input file.
    Mirrored { output: String },
    /// Over the input file itself.
    InPlace,
}

pub enum PlacementView {
    Mirrored { output: Seq<char> },
    InPlace,
}

impl View for Placement {
    type V = PlacementView;

    open spec fn view(&self) -> PlacementView {
        match self {
            Placement::Mirrored { output } => PlacementView::Mirrored { output: output@ },
            Placement::InPlace => PlacementView::InPlace,
        }
    }
}

/// What a run is asked to do. It is fixed when the session is made.
#[derive(Clone, Debug, PartialEq, Eq)]
pub struct Config {
    /// The folder whose files are encrypted.
    pub folder: String,
    /// The file that holds the recipient's certificate.
    pub key: String,
    pub placement: Placement,
}

pub struct ConfigView {
    pub folder: Seq<char>,
    pub key: Seq<char>,
    pub placement: PlacementView,
}

impl View for Config {
    type V = ConfigView;

    open spec fn view(&self) -> ConfigView {
        ConfigView { folder: self.folder@, key: self.key@, placement: self.placement@ }
    }
}

/// What a session asks for next.
#[derive(Debug, PartialEq, Eq)]
pub enum Request {
    /// Report whether `path` exists and whether it is a directory.
    Probe { path: String },
    /// Create the directory `path` and every missing directory above it.
    CreateDirectories { path: String },
    /// Read the whole of the file `path`.
    Read { path: String },
    /// Report the next entry of the recursive walk of the input folder.
    NextEntry,
    /// Write `data` as the whole of the file `path`.
    Write { path: String, data: Vec<u8> },
    /// Rename `from` to `to`, replacing `to`.
    Rename { from: String, to: String },
    /// Remove the file `path`.
    Remove { path: String },
    /// Parse `data` as a certificate and pick its recipient keys.
    LoadKey { data: Vec<u8> },
    /// Encrypt `data` to the recipient keys of the session.
    Seal { data: Vec<u8> },
    /// The run is over and every file was processed.
    Succeed,
    /// The run is over and `failure` ended it.
    Fail { failure: Failure },
}

pub enum RequestView {
    Probe { path: Seq<char> },
    CreateDirectories { path: Seq<char> },
    Read { path: Seq<char> },
    NextEntry,
    Write { path: Seq<char>, data: Seq<u8> },
    Rename { from: Seq<char>, to: Seq<char> },
    Remove { path: Seq<char> },
    LoadKey { data: Seq<u8> },
    Seal { data: Seq<u8> },
    Succeed,
    Fail { failure: FailureView },
}

impl View for Request {
    type V = RequestView;

    open spec fn view(&self) -> RequestView {
        match self {
            Request::Probe { path } => RequestView::Probe { path: path@ },
            Request::CreateDirectories { path } => RequestView::CreateDirectories { path: path@ },
            Request::Read { path } => RequestView::Read { path: path@ },
            Request::NextEntry => RequestView::NextEntry,
            Request::Write { path, data } => RequestView::Write { path: path@, data: data@ },
            Request::Rename { from, to } => RequestView::Rename { from: from@, to: to@ },
            Request::Remove { path } => RequestView::Remove { path: path@ },
            Request::LoadKey { data } => RequestView::LoadKey { data: data@ },
            Request::Seal { data } => RequestView::Seal { data: data@ },
            Request::Succeed => RequestView::Succeed,
            Request::Fail { failure } => RequestView::Fail { failure: failure@ },
        }
    }
}

impl RequestView {
    /// Whether the request is OpenPGP work, which [`Session::advance`] does
    /// itself, and not work for the caller.
    pub open spec fn is_internal(self) -> bool {
        self is LoadKey || self is Seal
    }

    /// Whether the request ends the run.
    pub open spec fn is_final(self) -> bool {
        self is Succeed || self is Fail
    }
}

/// What happened to the pending request.
#[derive(Debug)]
pub enum Event {
    /// Answers `Probe`.
    Probed { present: bool, is_dir: bool },
    /// Answers `CreateDirectories`, `Write`, `Rename` and `Remove`: done.
    Completed,
    /// Answers any file-system request but `Probe` and `NextEntry`: the
    /// operation failed, and `detail` says how.
    Failed { detail: String },
    /// Answers `Read`: the bytes of the file.
    Contents { data: Vec<u8> },
    /// Answers `NextEntry`: the walk found `path`, a regular file or not.
    Entry { path: String, is_file: bool },
    /// Answers `NextEntry`: the walk met an entry that it could not read,
    /// and `detail` says why.
    EntryUnreadable { detail: String },
    /// Answers `NextEntry`: the walk is over.
    WalkFinished,
    /// Answers `LoadKey`: the data is no certificate.
    KeyRejected { detail: String },
    /// Answers `LoadKey`: the recipient keys of the certificate.
    KeyLoaded { recipients: Vec<RecipientKey> },
    /// Answers `Seal`: the stream failed at `stage`.
    SealFailed { stage: SealStage, detail: String },
    /// Answers `Seal`: the ciphertext.
    Sealed { data: Vec<u8> },
}

pub enum EventView {
    Probed { present: bool, is_dir: bool },
    Completed,
    Failed { detail: Seq<char> },
    Contents { data: Seq<u8> },
    Entry { path: Seq<char>, is_file: bool },
    EntryUnreadable { detail: Seq<char> },
    WalkFinished,
    KeyRejected { detail: Seq<char> },
    KeyLoaded { recipients: Seq<RecipientKey> },
    SealFailed { stage: SealStage, detail: Seq<char> },
    Sealed { data: Seq<u8> },
}

impl View for Event {
    type V = EventView;

    open spec fn view(&self) -> EventView {
        match self {
            Event::Probed { present, is_dir } => EventView::Probed {
                present: *present,
                is_dir: *is_dir,
            },
            Event::Completed => EventView::Completed,
            Event::Failed { detail } => EventView::Failed { detail: detail@ },
            Event::Contents { data } => EventView::Contents { data: data@ },
            Event::Entry { path, is_file } => EventView::Entry { path: path@, is_file: *is_file },
            Event::EntryUnreadable { detail } => EventView::EntryUnreadable { detail: detail@ },
            Event::WalkFinished => EventView::WalkFinished,
            Event::KeyRejected { detail } => EventView::KeyRejected { detail: detail@ },
            Event::KeyLoaded { recipients } => EventView::KeyLoaded { recipients: recipients@ },
            Event::SealFailed { stage, detail } => EventView::SealFailed {
                stage: *stage,
                detail: detail@,
            },
            Event::Sealed { data } => EventView::Sealed { data: data@ },
        }
    }
}

impl EventView {
    /// The events that may answer `LoadKey`.
    pub open spec fn answers_load_key(self) -> bool {
        self is KeyRejected || self is KeyLoaded
    }

    /// The events that may answer `Seal`.
    pub open spec fn answers_seal(self) -> bool {
        self is SealFailed || self is Sealed
    }
}

/// Which answer a session waits for, with what it must remember meanwhile.
#[derive(Debug)]
enum Phase {
    /// The input folder is being probed.
    InputProbe,
    /// The output root is being probed.
    OutputProbe,
    /// The output root is being created.
    OutputCreate,
    /// The key file is being probed.
    KeyProbe,
    /// The key file is being read.
    KeyRead,
    /// The certificate is being parsed.
    KeyLoad,
    /// The walk is being advanced.
    Walk,
    /// The input file `path` is being read.
    FileRead { path: String },
    /// The bytes of `path` are being encrypted.
    FileSeal { path: String },
    /// The directories above `target` are being created; `data` waits to be
    /// written there.
    ParentCreate { target: String, data: Vec<u8> },
    /// The output file `target` is being written.
    FileWrite { target: String },
    /// The temporary sibling `temp` of `path` is being written.
    TempWrite { path: String, temp: String },
    /// `temp` is being renamed over `path`.
    Replace { path: String, temp: String },
    /// `temp` could not be renamed and is being removed; `failure` ends the
    /// run afterwards.
    Cleanup { failure: Failure },
    /// The run is over.
    Finished,
}

pub enum PhaseView {
    InputProbe,
    OutputProbe,
    OutputCreate,
    KeyProbe,
    KeyRead,
    KeyLoad,
    Walk,
    FileRead { path: Seq<char> },
    FileSeal { path: Seq<char> },
    ParentCreate { target: Seq<char>, data: Seq<u8> },
    FileWrite { target: Seq<char> },
    TempWrite { path: Seq<char>, temp: Seq<char> },
    Replace { path: Seq<char>, temp: Seq<char> },
    Cleanup { failure: FailureView },
    Finished,
}

impl PhaseView {
    /// The phases in which files are read, sealed and written.
    pub open spec fn at_work(self) -> bool {
        self is Walk || self is FileRead || self is FileSeal || self is ParentCreate
            || self is FileWrite || self is TempWrite || self is Replace
    }
}

impl View for Phase {
    type V = PhaseView;

    closed spec fn view(&self) -> PhaseView {
        match self {
            Phase::InputProbe => PhaseView::InputProbe,
            Phase::OutputProbe => PhaseView::OutputProbe,
            Phase::OutputCreate => PhaseView::OutputCreate,
            Phase::KeyProbe => PhaseView::KeyProbe,
            Phase::KeyRead => PhaseView::KeyRead,
            Phase::KeyLoad => PhaseView::KeyLoad,
            Phase::Walk => PhaseView::Walk,
            Phase::FileRead { path } => PhaseView::FileRead { path: path@ },
            Phase::FileSeal { path } => PhaseView::FileSeal { path: path@ },
            Phase::ParentCreate { target, data } => PhaseView::ParentCreate {
                target: target@,
                data: data@,
            },
            Phase::FileWrite { target } => PhaseView::FileWrite { target: target@ },
            Phase::TempWrite { path, temp } => PhaseView::TempWrite { path: path@, temp: temp@ },
            Phase::Replace { path, temp } => PhaseView::Replace { path: path@, temp: temp@ },
            Phase::Cleanup { failure } => PhaseView::Cleanup { failure: failure@ },
            Phase::Finished => PhaseView::Finished,
        }
    }
}

/// A run in progress.
#[derive(Debug)]
pub struct Session {
    config: Config,
    phase: Phase,
    recipients: Vec<RecipientKey>,
}

pub struct SessionView {
    pub config: ConfigView,
    pub phase: PhaseView,
    /// The keys that files are encrypted to; empty until the certificate has
    /// been loaded.
    pub recipients: Seq<RecipientKey>,
}

impl View for Session {
    type V = SessionView;

    closed spec fn view(&self) -> SessionView {
        SessionView { config: self.config@, phase: self.phase@, recipients: self.recipients@ }
    }
}

impl SessionView {
    /// The recipient set is never empty while files are worked on.
    pub open spec fn well_formed(self) -> bool {
        self.phase.at_work() ==> self.recipients.len() > 0
    }

    /// The same session, waiting in `phase`.
    pub open spec fn to(self, phase: PhaseView) -> SessionView {
        SessionView { config: self.config, phase, recipients: self.recipients }
    }

    /// The run ends with `failure`.
    pub open spec fn stop(self, failure: FailureView) -> (SessionView, RequestView) {
        (self.to(PhaseView::Finished), RequestView::Fail { failure })
    }

    /// The key file is probed next.
    pub open spec fn probe_key(self) -> (SessionView, RequestView) {
        (self.to(PhaseView::KeyProbe), RequestView::Probe { path: self.config.key })
    }

    /// The walk is advanced next.
    pub open spec fn next_entry(self) -> (SessionView, RequestView) {
        (self.to(PhaseView::Walk), RequestView::NextEntry)
    }

    /// The input folder must exist and be a directory. Then the output root
    /// is looked at, if there is one.
    pub open spec fn after_input_probe(self, present: bool, is_dir: bool) -> (
        SessionView,
        RequestView,
    ) {
        if !present || !is_dir {
            self.stop(FailureView::at(Cause::InputFolder, self.config.folder))
        } else {
            match self.config.placement {
                PlacementView::Mirrored { output } => (
                    self.to(PhaseView::OutputProbe),
                    RequestView::Probe { path: output },
                ),
                PlacementView::InPlace => self.probe_key(),
            }
        }
    }

    /// A missing output root is created; one that exists must be a directory.
    pub open spec fn after_output_probe(self, present: bool, is_dir: bool) -> (
        SessionView,
        RequestView,
    ) {
        match self.config.placement {
            PlacementView::Mirrored { output } => {
                if !present {
                    (
                        self.to(PhaseView::OutputCreate),
                        RequestView::CreateDirectories { path: output },
                    )
                } else if !is_dir {
                    self.stop(FailureView::at(Cause::OutputNotDirectory, output))
                } else {
                    self.probe_key()
                }
            },
            PlacementView::InPlace => self.probe_key(),
        }
    }

    /// The key file must exist. Then it is read.
    pub open spec fn after_key_probe(self, present: bool) -> (SessionView, RequestView) {
        if !present {
            self.stop(FailureView::at(Cause::KeyFileMissing, self.config.key))
        } else {
            (self.to(PhaseView::KeyRead), RequestView::Read { path: self.config.key })
        }
    }

    /// The certificate must give at least one recipient key. Then the walk
    /// begins.
    pub open spec fn after_key_loaded(self, recipients: Seq<RecipientKey>) -> (
        SessionView,
        RequestView,
    ) {
        if recipients.len() == 0 {
            self.stop(FailureView::bare(Cause::NoRecipient))
        } else {
            (
                SessionView { config: self.config, phase: PhaseView::Walk, recipients },
                RequestView::NextEntry,
            )
        }
    }

    /// A regular file without the marker extension is read. Any other entry
    /// is passed over.
    pub open spec fn after_entry(self, path: Seq<char>, is_file: bool) -> (
        SessionView,
        RequestView,
    ) {
        if is_file && !already_encrypted(path) {
            (self.to(PhaseView::FileRead { path }), RequestView::Read { path })
        } else {
            self.next_entry()
        }
    }

    /// The ciphertext of `path` goes to its place in the mirrored tree, once
    /// the directories above that place exist, or to a temporary sibling of
    /// `path`.
    pub open spec fn after_sealed(self, path: Seq<char>, data: Seq<u8>) -> (
        SessionView,
        RequestView,
    ) {
        match self.config.placement {
            PlacementView::Mirrored { output } => {
                let target = mirrored(self.config.folder, output, path);
                match parent_of(target) {
                    Some(directory) => (
                        self.to(PhaseView::ParentCreate { target, data }),
                        RequestView::CreateDirectories { path: directory },
                    ),
                    None => (
                        self.to(PhaseView::FileWrite { target }),
                        RequestView::Write { path: target, data },
                    ),
                }
            },
            PlacementView::InPlace => {
                let temp = temporary(path);
                (
                    self.to(PhaseView::TempWrite { path, temp }),
                    RequestView::Write { path: temp, data },
                )
            },
        }
    }
}

/// The session that a run begins with: nothing is loaded, and the input
/// folder is being probed.
pub open spec fn start(config: ConfigView) -> SessionView {
    SessionView { config, phase: PhaseView::InputProbe, recipients: Seq::empty() }
}

/// The request that a run begins with.
pub open spec fn first_request(config: ConfigView) -> RequestView {
    RequestView::Probe { path: config.folder }
}

/// The session and the request that follow when `event` answers the pending
/// request of `session`, or `None` where `event` is no answer to it.
///
/// The first failure ends the run. Nothing is retried and nothing is undone,
/// but for the temporary file of a replacement that failed.
pub open spec fn step(session: SessionView, event: EventView) -> Option<
    (SessionView, RequestView),
> {
    match session.phase {
        PhaseView::InputProbe => match event {
            EventView::Probed { present, is_dir } => Some(
                session.after_input_probe(present, is_dir),
            ),
            _ => None,
        },
        PhaseView::OutputProbe => match event {
            EventView::Probed { present, is_dir } => Some(
                session.after_output_probe(present, is_dir),
            ),
            _ => None,
        },
        PhaseView::OutputCreate => match event {
            EventView::Completed => Some(session.probe_key()),
            EventView::Failed { detail } => Some(
                session.stop(FailureView::with_detail(Cause::CreateOutputDirectory, detail)),
            ),
            _ => None,
        },
        PhaseView::KeyProbe => match event {
            EventView::Probed { present, .. } => Some(session.after_key_probe(present)),
            _ => None,
        },
        PhaseView::KeyRead => match event {
            EventView::Contents { data } => Some(
                (session.to(PhaseView::KeyLoad), RequestView::LoadKey { data }),
            ),
            EventView::Failed { detail } => Some(
                session.stop(FailureView::with_detail(Cause::ReadKey, detail)),
            ),
            _ => None,
        },
        PhaseView::KeyLoad => match event {
            EventView::KeyRejected { detail } => Some(
                session.stop(FailureView::with_detail(Cause::InvalidKey, detail)),
            ),
            EventView::KeyLoaded { recipients } => Some(session.after_key_loaded(recipients)),
            _ => None,
        },
        PhaseView::Walk => match event {
            EventView::Entry { path, is_file } => Some(session.after_entry(path, is_file)),
            EventView::EntryUnreadable { detail } => Some(
                session.stop(FailureView::with_detail(Cause::WalkEntry, detail)),
            ),
            EventView::WalkFinished => Some(
                (session.to(PhaseView::Finished), RequestView::Succeed),
            ),
            _ => None,
        },
        PhaseView::FileRead { path } => match event {
            EventView::Contents { data } => Some(
                (session.to(PhaseView::FileSeal { path }), RequestView::Seal { data }),
            ),
            EventView::Failed { detail } => Some(
                session.stop(FailureView { cause: Cause::ReadFile, path, detail }),
            ),
            _ => None,
        },
        PhaseView::FileSeal { path } => match event {
            EventView::SealFailed { stage, detail } => Some(
                session.stop(FailureView::with_detail(stage.spec_cause(), detail)),
            ),
            EventView::Sealed { data } => Some(session.after_sealed(path, data)),
            _ => None,
        },
        PhaseView::ParentCreate { target, data } => match event {
            EventView::Completed => Some(
                (
                    session.to(PhaseView::FileWrite { target }),
                    RequestView::Write { path: target, data },
                ),
            ),
            EventView::Failed { detail } => Some(
                session.stop(FailureView::with_detail(Cause::CreateParents, detail)),
            ),
            _ => None,
        },
        PhaseView::FileWrite { target } => match event {
            EventView::Completed => Some(session.next_entry()),
            EventView::Failed { detail } => Some(
                session.stop(FailureView { cause: Cause::WriteOutput, path: target, detail }),
            ),
            _ => None,
        },
        PhaseView::TempWrite { path, temp } => match event {
            EventView::Completed => Some(
                (
                    session.to(PhaseView::Replace { path, temp }),
                    RequestView::Rename { from: temp, to: path },
                ),
            ),
            EventView::Failed { detail } => Some(
                session.stop(FailureView { cause: Cause::WriteTemporary, path: temp, detail }),
            ),
            _ => None,
        },
        PhaseView::Replace { path, temp } => match event {
            EventView::Completed => Some(session.next_entry()),
            EventView::Failed { detail } => Some(
                (
                    session.to(
                        PhaseView::Cleanup {
                            failure: FailureView { cause: Cause::Replace, path, detail },
                        },
                    ),
                    RequestView::Remove { path: temp },
                ),
            ),
            _ => None,
        },
        PhaseView::Cleanup { failure } => match event {
            EventView::Completed => Some(session.stop(failure)),
            EventView::Failed { .. } => Some(session.stop(failure)),
            _ => None,
        },
        PhaseView::Finished => None,
    }
}

/// Whether `result` is what [`step`] gives for `session` and `event`: the
/// next session and its request, or the session as it was and no request
/// where `event` is no answer.
pub open spec fn follows(
    session: SessionView,
    event: EventView,
    result: (Session, Option<Request>),
) -> bool {
    match step(session, event) {
        Some((next, request)) => {
            &&& result.0@ == next
            &&& result.1 is Some
            &&& result.1->0@ == request
        },
        None => result.0@ == session && result.1 is None,
    }
}

/// What [`Session::advance`] owes for `session` and `event`. Where the
/// request that follows is for the caller, `result` holds it. Where it is
/// OpenPGP work, the work was done, and `result` is what follows from one of
/// the events that may answer it. The key is loaded exactly where the data
/// holds a certificate, and rejected otherwise.
pub open spec fn advanced(
    session: SessionView,
    event: EventView,
    result: (Session, Option<Request>),
) -> bool {
    match step(session, event) {
        Some((next, RequestView::LoadKey { data })) => exists|answer: EventView|
            answer.answers_load_key() && (answer is KeyLoaded <==> holds_certificate(data))
                && #[trigger] follows(next, answer, result),
        Some((next, RequestView::Seal { .. })) => exists|answer: EventView|
            answer.answers_seal() && #[trigger] follows(next, answer, result),
        _ => follows(session, event, result),
    }
}

impl Placement {
    /// The output root, where ciphertext goes to a tree of its own.
    fn root(&self) -> (found: Option<String>)
        ensures
            match found {
                Some(output) => self@ == (PlacementView::Mirrored { output: output@ }),
                None => self@ is InPlace,
            },
    {
        match self {
            Placement::Mirrored { output } => Some(output.clone()),
            Placement::InPlace => None,
        }
    }
}

/// The session that `failure` has ended, and the report of it.
fn stop(config: Config, recipients: Vec<RecipientKey>, failure: Failure) -> (result: (
    Session,
    Request,
))
    ensures
        result.0@.config == config@,
        result.0@.recipients == recipients@,
        (result.0@, result.1@) == result.0@.stop(failure@),
{
    (Session { config, phase: Phase::Finished, recipients }, Request::Fail { failure })
}

/// The session that probes its key file, and the probe.
fn probe_key(config: Config, recipients: Vec<RecipientKey>) -> (result: (Session, Request))
    ensures
        result.0@.config == config@,
        result.0@.recipients == recipients@,
        (result.0@, result.1@) == result.0@.probe_key(),
{
    let path = config.key.clone();
    (Session { config, phase: Phase::KeyProbe, recipients }, Request::Probe { path })
}

/// The session that walks, and the request for the next entry.
fn next_entry(config: Config, recipients: Vec<RecipientKey>) -> (result: (Session, Request))
    requires
        recipients@.len() > 0,
    ensures
        result.0@.config == config@,
        result.0@.recipients == recipients@,
        (result.0@, result.1@) == result.0@.next_entry(),
{
    (Session { config, phase: Phase::Walk, recipients }, Request::NextEntry)
}

/// What follows the probe of the input folder.
fn after_input_probe(
    config: Config,
    recipients: Vec<RecipientKey>,
    present: bool,
    is_dir: bool,
) -> (result: (Session, Request))
    ensures
        result.0@.config == config@,
        result.0@.recipients == recipients@,
        (result.0@, result.1@) == result.0@.after_input_probe(present, is_dir),
{
    if !present || !is_dir {
        let failure = Failure::at(Cause::InputFolder, config.folder.clone());
        stop(config, recipients, failure)
    } else {
        match config.placement.root() {
            Some(path) => (
                Session { config, phase: Phase::OutputProbe, recipients },
                Request::Probe { path },
            ),
            None => probe_key(config, recipients),
        }
    }
}

/// What follows the probe of the output root.
fn after_output_probe(
    config: Config,
    recipients: Vec<RecipientKey>,
    present: bool,
    is_dir: bool,
) -> (result: (Session, Request))
    ensures
        result.0@.config == config@,
        result.0@.recipients == recipients@,
        (result.0@, result.1@) == result.0@.after_output_probe(present, is_dir),
{
    match config.placement.root() {
        Some(path) => {
            if !present {
                (
                    Session { config, phase: Phase::OutputCreate, recipients },
                    Request::CreateDirectories { path },
                )
            } else if !is_dir {
                stop(config, recipients, Failure::at(Cause::OutputNotDirectory, path))
            } else {
                probe_key(config, recipients)
            }
        },
        None => probe_key(config, recipients),
    }
}

/// What follows the probe of the key file.
fn after_key_probe(config: Config, recipients: Vec<RecipientKey>, present: bool) -> (result: (
    Session,
    Request,
))
    ensures
        result.0@.config == config@,
        result.0@.recipients == recipients@,
        (result.0@, result.1@) == result.0@.after_key_probe(present),
{
    let path = config.key.clone();
    if !present {
        stop(config, recipients, Failure::at(Cause::KeyFileMissing, path))
    } else {
        (Session { config, phase: Phase::KeyRead, recipients }, Request::Read { path })
    }
}

/// What follows the loading of the certificate: `held` is what the session
/// held before, `recipients` what the certificate gave.
fn after_key_loaded(config: Config, held: Vec<RecipientKey>, recipients: Vec<RecipientKey>) -> (result:
    (Session, Request))
    ensures
        (result.0@, result.1@) == (SessionView {
            config: config@,
            phase: PhaseView::KeyLoad,
            recipients: held@,
        }).after_key_loaded(recipients@),
{
    if recipients.len() == 0 {
        stop(config, held, Failure::bare(Cause::NoRecipient))
    } else {
        (Session { config, phase: Phase::Walk, recipients }, Request::NextEntry)
    }
}

/// What follows an entry of the walk.
fn after_entry(config: Config, recipients: Vec<RecipientKey>, path: String, is_file: bool) -> (result:
    (Session, Request))
    requires
        recipients@.len() > 0,
    ensures
        result.0@.config == config@,
        result.0@.recipients == recipients@,
        (result.0@, result.1@) == result.0@.after_entry(path@, is_file),
{
    if is_file && !is_already_encrypted(path.as_str()) {
        let read = path.clone();
        (
            Session { config, phase: Phase::FileRead { path }, recipients },
            Request::Read { path: read },
        )
    } else {
        next_entry(config, recipients)
    }
}

/// What follows the sealing of the bytes of `path`.
fn after_sealed(config: Config, recipients: Vec<RecipientKey>, path: String, data: Vec<u8>) -> (result:
    (Session, Request))
    requires
        recipients@.len() > 0,
    ensures
        result.0@.config == config@,
        result.0@.recipients == recipients@,
        (result.0@, result.1@) == result.0@.after_sealed(path@, data@),
{
    match config.placement.root() {
        Some(output) => {
            let target = mirrored_target(config.folder.as_str(), output.as_str(), path.as_str());
            match parent(target.as_str()) {
                Some(directory) => (
                    Session { config, phase: Phase::ParentCreate { target, data }, recipients },
                    Request::CreateDirectories { path: directory },
                ),
                None => {
                    let written = target.clone();
                    (
                        Session { config, phase: Phase::FileWrite { target }, recipients },
                        Request::Write { path: written, data },
                    )
                },
            }
        },
        None => {
            let temp = temporary_sibling(path.as_str());
            let written = temp.clone();
            (
                Session { config, phase: Phase::TempWrite { path, temp }, recipients },
                Request::Write { path: written, data },
            )
        },
    }
}

/// The session as it was, for an event that answers nothing.
fn ignore(config: Config, phase: Phase, recipients: Vec<RecipientKey>) -> (result: (
    Session,
    Option<Request>,
))
    requires
        phase@.at_work() ==> recipients@.len() > 0,
    ensures
        result.0@ == (SessionView { config: config@, phase: phase@, recipients: recipients@ }),
        result.1 is None,
{
    (Session { config, phase, recipients }, None)
}

/// A session and the request it waits on, as an answer to an event.
fn accept(pair: (Session, Request)) -> (result: (Session, Option<Request>))
    ensures
        result.0 == pair.0,
        result.1 == Some(pair.1),
{
    (pair.0, Some(pair.1))
}

impl Session {
    /// No session is at work without a recipient key.
    #[verifier::type_invariant]
    spec fn holds_recipients(self) -> bool {
        self@.well_formed()
    }

    /// Begins a run: the session, and its first request.
    pub fn new(config: Config) -> (result: (Session, Request))
        ensures
            result.0@ == start(config@),
            result.1@ == first_request(config@),
            result.0@.well_formed(),
    {
        let path = config.folder.clone();
        (
            Session { config, phase: Phase::InputProbe, recipients: Vec::new() },
            Request::Probe { path },
        )
    }

    /// What the run was asked to do.
    pub fn config(&self) -> (config: &Config)
        ensures
            config@ == self@.config,
    {
        &self.config
    }

    /// Whether the run is over.
    pub fn is_finished(&self) -> (over: bool)
        ensures
            over == (self@.phase is Finished),
    {
        match self.phase {
            Phase::Finished => true,
            _ => false,
        }
    }

    /// Takes the answer to the pending request and gives the next request,
    /// as [`step`] says. An event that is no answer to the pending request
    /// changes nothing and yields no request.
    ///
    /// The request may be `LoadKey` or `Seal`, which are not for the caller:
    /// [`Session::advance`] is `react` with that work done.
    pub fn react(self, event: Event) -> (result: (Session, Option<Request>))
        ensures
            follows(self@, event@, result),
            self@.well_formed(),
            result.0@.well_formed(),
    {
        proof {
            use_type_invariant(&self);
        }
        let Session { config, phase, recipients } = self;
        match phase {
            Phase::InputProbe => match event {
                Event::Probed { present, is_dir } => accept(
                    after_input_probe(config, recipients, present, is_dir),
                ),
                _ => ignore(config, Phase::InputProbe, recipients),
            },
            Phase::OutputProbe => match event {
                Event::Probed { present, is_dir } => accept(
                    after_output_probe(config, recipients, present, is_dir),
                ),
                _ => ignore(config, Phase::OutputProbe, recipients),
            },
            Phase::OutputCreate => match event {
                Event::Completed => accept(probe_key(config, recipients)),
                Event::Failed { detail } => accept(
                    stop(
                        config,
                        recipients,
                        Failure::with_detail(Cause::CreateOutputDirectory, detail),
                    ),
                ),
                _ => ignore(config, Phase::OutputCreate, recipients),
            },
            Phase::KeyProbe => match event {
                Event::Probed { present, .. } => accept(
                    after_key_probe(config, recipients, present),
                ),
                _ => ignore(config, Phase::KeyProbe, recipients),
            },
            Phase::KeyRead => match event {
                Event::Contents { data } => (
                    Session { config, phase: Phase::KeyLoad, recipients },
                    Some(Request::LoadKey { data }),
                ),
                Event::Failed { detail } => accept(
                    stop(config, recipients, Failure::with_detail(Cause::ReadKey, detail)),
                ),
                _ => ignore(config, Phase::KeyRead, recipients),
            },
            Phase::KeyLoad => match event {
                Event::KeyRejected { detail } => accept(
                    stop(config, recipients, Failure::with_detail(Cause::InvalidKey, detail)),
                ),
                Event::KeyLoaded { recipients: loaded } => accept(
                    after_key_loaded(config, recipients, loaded),
                ),
                _ => ignore(config, Phase::KeyLoad, recipients),
            },
            Phase::Walk => match event {
                Event::Entry { path, is_file } => accept(
                    after_entry(config, recipients, path, is_file),
                ),
                Event::EntryUnreadable { detail } => accept(
                    stop(config, recipients, Failure::with_detail(Cause::WalkEntry, detail)),
                ),
                Event::WalkFinished => (
                    Session { config, phase: Phase::Finished, recipients },
                    Some(Request::Succeed),
                ),
                _ => ignore(config, Phase::Walk, recipients),
            },
            Phase::FileRead { path } => match event {
                Event::Contents { data } => (
                    Session { config, phase: Phase::FileSeal { path }, recipients },
                    Some(Request::Seal { data }),
                ),
                Event::Failed { detail } => accept(
                    stop(config, recipients, Failure { cause: Cause::ReadFile, path, detail }),
                ),
                _ => ignore(config, Phase::FileRead { path }, recipients),
            },
            Phase::FileSeal { path } => match event {
                Event::SealFailed { stage, detail } => accept(
                    stop(config, recipients, Failure::with_detail(stage.cause(), detail)),
                ),
                Event::Sealed { data } => accept(after_sealed(config, recipients, path, data)),
                _ => ignore(config, Phase::FileSeal { path }, recipients),
            },
            Phase::ParentCreate { target, data } => match event {
                Event::Completed => {
                    let written = target.clone();
                    (
                        Session { config, phase: Phase::FileWrite { target }, recipients },
                        Some(Request::Write { path: written, data }),
                    )
                },
                Event::Failed { detail } => accept(
                    stop(config, recipients, Failure::with_detail(Cause::CreateParents, detail)),
                ),
                _ => ignore(config, Phase::ParentCreate { target, data }, recipients),
            },
            Phase::FileWrite { target } => match event {
                Event::Completed => accept(next_entry(config, recipients)),
                Event::Failed { detail } => accept(
                    stop(
                        config,
                        recipients,
                        Failure { cause: Cause::WriteOutput, path: target, detail },
                    ),
                ),
                _ => ignore(config, Phase::FileWrite { target }, recipients),
            },
            Phase::TempWrite { path, temp } => match event {
                Event::Completed => {
                    let from = temp.clone();
                    let to = path.clone();
                    (
                        Session { config, phase: Phase::Replace { path, temp }, recipients },
                        Some(Request::Rename { from, to }),
                    )
                },
                Event::Failed { detail } => accept(
                    stop(
                        config,
                        recipients,
                        Failure { cause: Cause::WriteTemporary, path: temp, detail },
                    ),
                ),
                _ => ignore(config, Phase::TempWrite { path, temp }, recipients),
            },
            Phase::Replace { path, temp } => match event {
                Event::Completed => accept(next_entry(config, recipients)),
                Event::Failed { detail } => {
                    let failure = Failure { cause: Cause::Replace, path, detail };
                    (
                        Session { config, phase: Phase::Cleanup { failure }, recipients },
                        Some(Request::Remove { path: temp }),
                    )
                },
                _ => ignore(config, Phase::Replace { path, temp }, recipients),
            },
            Phase::Cleanup { failure } => match event {
                Event::Completed => accept(stop(config, recipients, failure)),
                Event::Failed { .. } => accept(stop(config, recipients, failure)),
                _ => ignore(config, Phase::Cleanup { failure }, recipients),
            },
            Phase::Finished => ignore(config, Phase::Finished, recipients),
        }
    }

    /// Takes the answer to the pending request and gives the next request
    /// that the caller must carry out, or the end of the run.
    ///
    /// This is [`Session::react`], but for the OpenPGP work: where `react`
    /// asks for the certificate to be loaded or for bytes to be sealed, that
    /// is done here, and its outcome is fed to `react` in turn. The outcome
    /// is not determined by the arguments, so the contract says for which
    /// events the result is owed exactly, and from which outcomes it follows
    /// otherwise.
    pub fn advance(self, event: Event) -> (result: (Session, Option<Request>))
        ensures
            advanced(self@, event@, result),
            result.1 is Some <==> step(self@, event@) is Some,
            result.1 matches Some(request) ==> !request@.is_internal(),
            self@.well_formed(),
            result.0@.well_formed(),
    {
        let (next, request) = self.react(event);
        match request {
            Some(Request::LoadKey { data }) => {
                let answer = match load_key(data.as_slice()) {
                    Ok(recipients) => Event::KeyLoaded { recipients },
                    Err(detail) => Event::KeyRejected { detail },
                };
                let ghost middle = next@;
                let result = next.react(answer);
                proof {
                    assert(answer@.answers_load_key());
                    assert(follows(middle, answer@, result));
                }
                result
            },
            Some(Request::Seal { data }) => {
                let answer = match seal_bytes(&next.recipients, data.as_slice()) {
                    Ok(data) => Event::Sealed { data },
                    Err((stage, detail)) => Event::SealFailed { stage, detail },
                };
                let ghost middle = next@;
                let result = next.react(answer);
                proof {
                    assert(answer@.answers_seal());
                    assert(follows(middle, answer@, result));
                }
                result
            },
            other => (next, other),
        }
    }
}


} // verus!
