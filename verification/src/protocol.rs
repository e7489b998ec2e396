//! The persistence protocol, as verified state machines.
//!
//! The engine never performs I/O itself. Each operation is a flow: a small
//! state machine that emits a [`Request`] describing one operating-system
//! step, and advances on the [`Reply`] an unverified driver hands back. The
//! spec-level models and step functions below are the single statement of the
//! protocol; the exec flows are proved to follow them for every reply.

use vstd::prelude::*;

use crate::errors::FileError;
use crate::path_text::{backup_path, parent_of, spec_backup_path, spec_parent};

verus! {

/// One operating-system step the driver is asked to perform.
pub enum Request {
    /// Create this directory and any missing ancestors.
    EnsureDir { dir: String },
    /// Read the whole file as text.
    ReadFile { path: String },
    /// Report whether a file exists at the path.
    CheckFile { path: String },
    /// Move the file at `from` to `to`.
    RenameFile { from: String, to: String },
    /// Write `content` to the file, replacing what was there.
    WriteFile { path: String, content: String },
    /// Read an environment variable.
    ReadEnvVar { name: String },
    /// Run `program` with `path` as its sole argument and wait for it.
    RunEditor { program: String, path: String },
}

/// The driver's answer to one [`Request`].
pub enum Reply {
    /// Outcome of `EnsureDir`, `RenameFile` or `WriteFile`.
    Unit(Result<(), FileError>),
    /// Outcome of `ReadFile`.
    Text(Result<String, FileError>),
    /// Outcome of `CheckFile`.
    Presence(bool),
    /// Outcome of `ReadEnvVar`.
    EnvVar(Option<String>),
    /// Outcome of `RunEditor`: `Ok(true)` when the editor exited cleanly.
    ExitStatus(Result<bool, FileError>),
}

/// Spec-level image of a [`Request`].
pub enum RequestModel {
    EnsureDir { dir: Seq<char> },
    ReadFile { path: Seq<char> },
    CheckFile { path: Seq<char> },
    RenameFile { from: Seq<char>, to: Seq<char> },
    WriteFile { path: Seq<char>, content: Seq<char> },
    ReadEnvVar { name: Seq<char> },
    RunEditor { program: Seq<char>, path: Seq<char> },
}

/// Spec-level image of a [`Reply`].
pub enum ReplyModel {
    Unit(Result<(), FileError>),
    Text(Result<Seq<char>, FileError>),
    Presence(bool),
    EnvVar(Option<Seq<char>>),
    ExitStatus(Result<bool, FileError>),
}

impl View for Request {
    type V = RequestModel;

    open spec fn view(&self) -> RequestModel {
        match self {
            Request::EnsureDir { dir } => RequestModel::EnsureDir { dir: dir@ },
            Request::ReadFile { path } => RequestModel::ReadFile { path: path@ },
            Request::CheckFile { path } => RequestModel::CheckFile { path: path@ },
            Request::RenameFile { from, to } => RequestModel::RenameFile {
                from: from@,
                to: to@,
            },
            Request::WriteFile { path, content } => RequestModel::WriteFile {
                path: path@,
                content: content@,
            },
            Request::ReadEnvVar { name } => RequestModel::ReadEnvVar { name: name@ },
            Request::RunEditor { program, path } => RequestModel::RunEditor {
                program: program@,
                path: path@,
            },
        }
    }
}

impl View for Reply {
    type V = ReplyModel;

    open spec fn view(&self) -> ReplyModel {
        match self {
            Reply::Unit(r) => ReplyModel::Unit(*r),
            Reply::Text(r) => ReplyModel::Text(
                match r {
                    Ok(s) => Ok(s@),
                    Err(e) => Err(*e),
                },
            ),
            Reply::Presence(b) => ReplyModel::Presence(*b),
            Reply::EnvVar(o) => ReplyModel::EnvVar(
                match o {
                    Some(s) => Some(s@),
                    None => None,
                },
            ),
            Reply::ExitStatus(r) => ReplyModel::ExitStatus(*r),
        }
    }
}

/// How a request transforms the files on disk, with a file system modelled
/// as a map from path to content. Only a write or a rename changes it.
pub open spec fn apply_request(
    fs: Map<Seq<char>, Seq<char>>,
    req: RequestModel,
) -> Map<Seq<char>, Seq<char>> {
    match req {
        RequestModel::WriteFile { path, content } => fs.insert(path, content),
        RequestModel::RenameFile { from, to } => if fs.contains_key(from) {
            fs.remove(from).insert(to, fs[from])
        } else {
            fs
        },
        _ => fs,
    }
}

// ------------------------------------------------------------------
// Reading a file: ensure the parent directory, then read.
// ------------------------------------------------------------------

/// Spec-level state of a [`ReadFlow`].
pub enum ReadModel {
    EnsuringParent { parent: Seq<char>, path: Seq<char> },
    Reading { path: Seq<char> },
    Done { result: Result<Seq<char>, FileError> },
}

pub open spec fn read_start(path: Seq<char>) -> ReadModel {
    match spec_parent(path) {
        None => ReadModel::Done { result: Err(FileError::InvalidInput) },
        Some(p) => ReadModel::EnsuringParent { parent: p, path },
    }
}

pub open spec fn read_request(m: ReadModel) -> Option<RequestModel> {
    match m {
        ReadModel::EnsuringParent { parent, path } => Some(
            RequestModel::EnsureDir { dir: parent },
        ),
        ReadModel::Reading { path } => Some(RequestModel::ReadFile { path }),
        ReadModel::Done { result } => None,
    }
}

pub open spec fn read_fits(m: ReadModel, r: ReplyModel) -> bool {
    match m {
        ReadModel::EnsuringParent { .. } => r is Unit,
        ReadModel::Reading { .. } => r is Text,
        ReadModel::Done { .. } => false,
    }
}

pub open spec fn read_step(m: ReadModel, r: ReplyModel) -> ReadModel {
    match m {
        ReadModel::EnsuringParent { parent, path } => match r {
            ReplyModel::Unit(Ok(_)) => ReadModel::Reading { path },
            ReplyModel::Unit(Err(e)) => ReadModel::Done { result: Err(e) },
            _ => m,
        },
        ReadModel::Reading { path } => match r {
            ReplyModel::Text(t) => ReadModel::Done { result: t },
            _ => m,
        },
        ReadModel::Done { .. } => m,
    }
}

/// The state machine behind a `load`: ensure the parent directory exists,
/// read the file, and surface the text or the failure.
pub enum ReadFlow {
    EnsuringParent { parent: String, path: String },
    Reading { path: String },
    Done { result: Result<String, FileError> },
}

impl View for ReadFlow {
    type V = ReadModel;

    open spec fn view(&self) -> ReadModel {
        match self {
            ReadFlow::EnsuringParent { parent, path } => ReadModel::EnsuringParent {
                parent: parent@,
                path: path@,
            },
            ReadFlow::Reading { path } => ReadModel::Reading { path: path@ },
            ReadFlow::Done { result } => ReadModel::Done {
                result: match result {
                    Ok(s) => Ok(s@),
                    Err(e) => Err(*e),
                },
            },
        }
    }
}

impl ReadFlow {
    pub fn start(path: &str) -> (f: ReadFlow)
        ensures
            f@ == read_start(path@),
    {
        match parent_of(path) {
            None => ReadFlow::Done { result: Err(FileError::InvalidInput) },
            Some(parent) => ReadFlow::EnsuringParent { parent, path: path.to_owned() },
        }
    }

    /// The next operating-system step, or `None` once the flow is finished.
    pub fn request(&self) -> (r: Option<Request>)
        ensures
            match r {
                Some(req) => read_request(self@) == Some(req@),
                None => read_request(self@) is None,
            },
    {
        match self {
            ReadFlow::EnsuringParent { parent, .. } => Some(
                Request::EnsureDir { dir: parent.clone() },
            ),
            ReadFlow::Reading { path } => Some(Request::ReadFile { path: path.clone() }),
            ReadFlow::Done { .. } => None,
        }
    }

    /// Feed back the outcome of the requested step.
    pub fn advance(self, reply: Reply) -> (f: ReadFlow)
        requires
            read_fits(self@, reply@),
        ensures
            f@ == read_step(self@, reply@),
    {
        match (self, reply) {
            (ReadFlow::EnsuringParent { parent, path }, Reply::Unit(Ok(_))) => {
                ReadFlow::Reading { path }
            },
            (ReadFlow::EnsuringParent { .. }, Reply::Unit(Err(e))) => {
                ReadFlow::Done { result: Err(e) }
            },
            (ReadFlow::Reading { .. }, Reply::Text(t)) => ReadFlow::Done { result: t },
            (f, _) => f,
        }
    }

    /// The outcome, once no request is left.
    pub fn outcome(self) -> (r: Option<Result<String, FileError>>)
        ensures
            match r {
                Some(res) => self@ == (ReadModel::Done {
                    result: match res {
                        Ok(s) => Ok::<Seq<char>, FileError>(s@),
                        Err(e) => Err(e),
                    },
                }),
                None => !(self@ is Done),
            },
    {
        match self {
            ReadFlow::Done { result } => Some(result),
            _ => None,
        }
    }
}

// ------------------------------------------------------------------
// Writing a file: ensure the parent directory, optionally move the old
// file aside under its backup name, then write the new content.
// ------------------------------------------------------------------

/// Spec-level state of a [`WriteFlow`].
pub enum WriteModel {
    EnsuringParent {
        parent: Seq<char>,
        path: Seq<char>,
        content: Seq<char>,
        backup: Option<u64>,
    },
    Checking { path: Seq<char>, content: Seq<char>, ts: u64 },
    Renaming { path: Seq<char>, content: Seq<char>, backup_path: Seq<char> },
    Writing { path: Seq<char>, content: Seq<char> },
    Done { result: Result<(), FileError> },
}

pub open spec fn write_start(
    path: Seq<char>,
    content: Seq<char>,
    backup: Option<u64>,
) -> WriteModel {
    match spec_parent(path) {
        None => WriteModel::Done { result: Err(FileError::InvalidInput) },
        Some(p) => WriteModel::EnsuringParent { parent: p, path, content, backup },
    }
}

pub open spec fn write_request(m: WriteModel) -> Option<RequestModel> {
    match m {
        WriteModel::EnsuringParent { parent, .. } => Some(
            RequestModel::EnsureDir { dir: parent },
        ),
        WriteModel::Checking { path, .. } => Some(RequestModel::CheckFile { path }),
        WriteModel::Renaming { path, backup_path, .. } => Some(
            RequestModel::RenameFile { from: path, to: backup_path },
        ),
        WriteModel::Writing { path, content } => Some(
            RequestModel::WriteFile { path, content },
        ),
        WriteModel::Done { .. } => None,
    }
}

pub open spec fn write_fits(m: WriteModel, r: ReplyModel) -> bool {
    match m {
        WriteModel::EnsuringParent { .. } => r is Unit,
        WriteModel::Checking { .. } => r is Presence,
        WriteModel::Renaming { .. } => r is Unit,
        WriteModel::Writing { .. } => r is Unit,
        WriteModel::Done { .. } => false,
    }
}

pub open spec fn write_step(m: WriteModel, r: ReplyModel) -> WriteModel {
    match m {
        WriteModel::EnsuringParent { parent, path, content, backup } => match r {
            ReplyModel::Unit(Ok(_)) => match backup {
                Some(ts) => WriteModel::Checking { path, content, ts },
                None => WriteModel::Writing { path, content },
            },
            ReplyModel::Unit(Err(e)) => WriteModel::Done { result: Err(e) },
            _ => m,
        },
        WriteModel::Checking { path, content, ts } => match r {
            ReplyModel::Presence(true) => WriteModel::Renaming {
                path,
                content,
                backup_path: spec_backup_path(path, ts),
            },
            ReplyModel::Presence(false) => WriteModel::Writing { path, content },
            _ => m,
        },
        WriteModel::Renaming { path, content, backup_path } => match r {
            ReplyModel::Unit(Ok(_)) => WriteModel::Writing { path, content },
            ReplyModel::Unit(Err(e)) => WriteModel::Done { result: Err(e) },
            _ => m,
        },
        WriteModel::Writing { path, content } => match r {
            ReplyModel::Unit(res) => WriteModel::Done { result: res },
            _ => m,
        },
        WriteModel::Done { .. } => m,
    }
}

/// The state machine behind a `save`: ensure the parent directory exists;
/// when a backup was asked for and a file is present, move it aside under
/// the timestamped backup name; only then write the new content.
pub enum WriteFlow {
    EnsuringParent { parent: String, path: String, content: String, backup: Option<u64> },
    Checking { path: String, content: String, ts: u64 },
    Renaming { path: String, content: String, backup_path: String },
    Writing { path: String, content: String },
    Done { result: Result<(), FileError> },
}

impl View for WriteFlow {
    type V = WriteModel;

    open spec fn view(&self) -> WriteModel {
        match self {
            WriteFlow::EnsuringParent { parent, path, content, backup } => {
                WriteModel::EnsuringParent {
                    parent: parent@,
                    path: path@,
                    content: content@,
                    backup: *backup,
                }
            },
            WriteFlow::Checking { path, content, ts } => WriteModel::Checking {
                path: path@,
                content: content@,
                ts: *ts,
            },
            WriteFlow::Renaming { path, content, backup_path } => WriteModel::Renaming {
                path: path@,
                content: content@,
                backup_path: backup_path@,
            },
            WriteFlow::Writing { path, content } => WriteModel::Writing {
                path: path@,
                content: content@,
            },
            WriteFlow::Done { result } => WriteModel::Done { result: *result },
        }
    }
}

impl WriteFlow {
    /// Begin a write of `content` to `path`. With `backup` set, a file
    /// already present at the path is first moved aside under the backup
    /// name derived from the given timestamp.
    pub fn start(path: &str, content: String, backup: Option<u64>) -> (f: WriteFlow)
        ensures
            f@ == write_start(path@, content@, backup),
    {
        match parent_of(path) {
            None => WriteFlow::Done { result: Err(FileError::InvalidInput) },
            Some(parent) => WriteFlow::EnsuringParent {
                parent,
                path: path.to_owned(),
                content,
                backup,
            },
        }
    }

    /// The next operating-system step, or `None` once the flow is finished.
    pub fn request(&self) -> (r: Option<Request>)
        ensures
            match r {
                Some(req) => write_request(self@) == Some(req@),
                None => write_request(self@) is None,
            },
    {
        match self {
            WriteFlow::EnsuringParent { parent, .. } => Some(
                Request::EnsureDir { dir: parent.clone() },
            ),
            WriteFlow::Checking { path, .. } => Some(
                Request::CheckFile { path: path.clone() },
            ),
            WriteFlow::Renaming { path, backup_path, .. } => Some(
                Request::RenameFile { from: path.clone(), to: backup_path.clone() },
            ),
            WriteFlow::Writing { path, content } => Some(
                Request::WriteFile { path: path.clone(), content: content.clone() },
            ),
            WriteFlow::Done { .. } => None,
        }
    }

    /// Feed back the outcome of the requested step.
    pub fn advance(self, reply: Reply) -> (f: WriteFlow)
        requires
            write_fits(self@, reply@),
        ensures
            f@ == write_step(self@, reply@),
    {
        match (self, reply) {
            (WriteFlow::EnsuringParent { parent, path, content, backup }, Reply::Unit(Ok(_))) => {
                match backup {
                    Some(ts) => WriteFlow::Checking { path, content, ts },
                    None => WriteFlow::Writing { path, content },
                }
            },
            (WriteFlow::EnsuringParent { .. }, Reply::Unit(Err(e))) => {
                WriteFlow::Done { result: Err(e) }
            },
            (WriteFlow::Checking { path, content, ts }, Reply::Presence(present)) => {
                if present {
                    let bp = backup_path(path.as_str(), ts);
                    WriteFlow::Renaming { path, content, backup_path: bp }
                } else {
                    WriteFlow::Writing { path, content }
                }
            },
            (WriteFlow::Renaming { path, content, .. }, Reply::Unit(Ok(_))) => {
                WriteFlow::Writing { path, content }
            },
            (WriteFlow::Renaming { .. }, Reply::Unit(Err(e))) => {
                WriteFlow::Done { result: Err(e) }
            },
            (WriteFlow::Writing { .. }, Reply::Unit(res)) => WriteFlow::Done { result: res },
            (f, _) => f,
        }
    }

    /// The outcome, once no request is left.
    pub fn outcome(self) -> (r: Option<Result<(), FileError>>)
        ensures
            match r {
                Some(res) => self@ == (WriteModel::Done { result: res }),
                None => !(self@ is Done),
            },
    {
        match self {
            WriteFlow::Done { result } => Some(result),
            _ => None,
        }
    }
}

// ------------------------------------------------------------------
// Editing: read the editor from the environment, run it, check its status.
// ------------------------------------------------------------------

/// Spec-level state of an [`EditFlow`].
pub enum EditModel {
    FetchingEditor { path: Seq<char> },
    Running { program: Seq<char>, path: Seq<char> },
    Done { result: Result<(), FileError> },
}

/// The name of the environment variable the editor is read from.
pub open spec fn editor_var_name() -> Seq<char> {
    seq!['E', 'D', 'I', 'T', 'O', 'R']
}

pub open spec fn edit_start(path: Seq<char>) -> EditModel {
    EditModel::FetchingEditor { path }
}

pub open spec fn edit_request(m: EditModel) -> Option<RequestModel> {
    match m {
        EditModel::FetchingEditor { .. } => Some(
            RequestModel::ReadEnvVar { name: editor_var_name() },
        ),
        EditModel::Running { program, path } => Some(
            RequestModel::RunEditor { program, path },
        ),
        EditModel::Done { .. } => None,
    }
}

pub open spec fn edit_fits(m: EditModel, r: ReplyModel) -> bool {
    match m {
        EditModel::FetchingEditor { .. } => r is EnvVar,
        EditModel::Running { .. } => r is ExitStatus,
        EditModel::Done { .. } => false,
    }
}

pub open spec fn edit_step(m: EditModel, r: ReplyModel) -> EditModel {
    match m {
        EditModel::FetchingEditor { path } => match r {
            ReplyModel::EnvVar(None) => EditModel::Done {
                result: Err(FileError::NotFound),
            },
            ReplyModel::EnvVar(Some(program)) => EditModel::Running { program, path },
            _ => m,
        },
        EditModel::Running { .. } => match r {
            ReplyModel::ExitStatus(Ok(true)) => EditModel::Done { result: Ok(()) },
            ReplyModel::ExitStatus(Ok(false)) => EditModel::Done {
                result: Err(FileError::Subprocess),
            },
            ReplyModel::ExitStatus(Err(e)) => EditModel::Done { result: Err(e) },
            _ => m,
        },
        EditModel::Done { .. } => m,
    }
}

/// The state machine behind an `edit`: resolve the editor command from the
/// environment, run it on the file, and report how it exited.
pub enum EditFlow {
    FetchingEditor { path: String },
    Running { program: String, path: String },
    Done { result: Result<(), FileError> },
}

impl View for EditFlow {
    type V = EditModel;

    open spec fn view(&self) -> EditModel {
        match self {
            EditFlow::FetchingEditor { path } => EditModel::FetchingEditor { path: path@ },
            EditFlow::Running { program, path } => EditModel::Running {
                program: program@,
                path: path@,
            },
            EditFlow::Done { result } => EditModel::Done { result: *result },
        }
    }
}

impl EditFlow {
    pub fn start(path: &str) -> (f: EditFlow)
        ensures
            f@ == edit_start(path@),
    {
        EditFlow::FetchingEditor { path: path.to_owned() }
    }

    /// The next operating-system step, or `None` once the flow is finished.
    pub fn request(&self) -> (r: Option<Request>)
        ensures
            match r {
                Some(req) => edit_request(self@) == Some(req@),
                None => edit_request(self@) is None,
            },
    {
        match self {
            EditFlow::FetchingEditor { .. } => {
                let name = String::from_str("EDITOR");
                proof {
                    reveal_strlit("EDITOR");
                    assert(name@ =~= editor_var_name());
                }
                Some(Request::ReadEnvVar { name })
            },
            EditFlow::Running { program, path } => Some(
                Request::RunEditor { program: program.clone(), path: path.clone() },
            ),
            EditFlow::Done { .. } => None,
        }
    }

    /// Feed back the outcome of the requested step.
    pub fn advance(self, reply: Reply) -> (f: EditFlow)
        requires
            edit_fits(self@, reply@),
        ensures
            f@ == edit_step(self@, reply@),
    {
        match (self, reply) {
            (EditFlow::FetchingEditor { .. }, Reply::EnvVar(None)) => {
                EditFlow::Done { result: Err(FileError::NotFound) }
            },
            (EditFlow::FetchingEditor { path }, Reply::EnvVar(Some(program))) => {
                EditFlow::Running { program, path }
            },
            (EditFlow::Running { .. }, Reply::ExitStatus(Ok(ok))) => {
                if ok {
                    EditFlow::Done { result: Ok(()) }
                } else {
                    EditFlow::Done { result: Err(FileError::Subprocess) }
                }
            },
            (EditFlow::Running { .. }, Reply::ExitStatus(Err(e))) => {
                EditFlow::Done { result: Err(e) }
            },
            (f, _) => f,
        }
    }

    /// The outcome, once no request is left.
    pub fn outcome(self) -> (r: Option<Result<(), FileError>>)
        ensures
            match r {
                Some(res) => self@ == (EditModel::Done { result: res }),
                None => !(self@ is Done),
            },
    {
        match self {
            EditFlow::Done { result } => Some(result),
            _ => None,
        }
    }
}

} // verus!
