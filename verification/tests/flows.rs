//! The protocol flows, driven against a simulated file system.

use std::collections::HashMap;

use file_persist::errors::FileError;
use file_persist::protocol::{EditFlow, ReadFlow, Reply, Request, WriteFlow};

struct Sim {
    files: HashMap<String, String>,
    dirs: Vec<String>,
    editor: Option<String>,
    editor_ok: bool,
    log: Vec<&'static str>,
}

fn sim() -> Sim {
    Sim { files: HashMap::new(), dirs: Vec::new(), editor: None, editor_ok: true, log: Vec::new() }
}

fn perform(fs: &mut Sim, req: Request) -> Reply {
    match req {
        Request::EnsureDir { dir } => {
            fs.log.push("dir");
            fs.dirs.push(dir);
            Reply::Unit(Ok(()))
        }
        Request::ReadFile { path } => {
            fs.log.push("read");
            Reply::Text(match fs.files.get(&path) {
                Some(c) => Ok(c.clone()),
                None => Err(FileError::NotFound),
            })
        }
        Request::CheckFile { path } => {
            fs.log.push("check");
            Reply::Presence(fs.files.contains_key(&path))
        }
        Request::RenameFile { from, to } => {
            fs.log.push("rename");
            match fs.files.remove(&from) {
                Some(c) => {
                    fs.files.insert(to, c);
                    Reply::Unit(Ok(()))
                }
                None => Reply::Unit(Err(FileError::NotFound)),
            }
        }
        Request::WriteFile { path, content } => {
            fs.log.push("write");
            fs.files.insert(path, content);
            Reply::Unit(Ok(()))
        }
        Request::ReadEnvVar { .. } => {
            fs.log.push("env");
            Reply::EnvVar(fs.editor.clone())
        }
        Request::RunEditor { .. } => {
            fs.log.push("editor");
            Reply::ExitStatus(Ok(fs.editor_ok))
        }
    }
}

fn run_read(fs: &mut Sim, mut flow: ReadFlow) -> Result<String, FileError> {
    loop {
        match flow.request() {
            Some(req) => {
                let rep = perform(fs, req);
                flow = flow.advance(rep);
            }
            None => break,
        }
    }
    flow.outcome().unwrap()
}

fn run_write(fs: &mut Sim, mut flow: WriteFlow) -> Result<(), FileError> {
    loop {
        match flow.request() {
            Some(req) => {
                let rep = perform(fs, req);
                flow = flow.advance(rep);
            }
            None => break,
        }
    }
    flow.outcome().unwrap()
}

fn run_edit(fs: &mut Sim, mut flow: EditFlow) -> Result<(), FileError> {
    loop {
        match flow.request() {
            Some(req) => {
                let rep = perform(fs, req);
                flow = flow.advance(rep);
            }
            None => break,
        }
    }
    flow.outcome().unwrap()
}

#[test]
fn write_then_read_text() {
    let mut fs = sim();
    let w = WriteFlow::start("notes.txt", "hello".to_string(), None);
    assert_eq!(run_write(&mut fs, w), Ok(()));
    assert_eq!(fs.files.get("notes.txt").map(String::as_str), Some("hello"));
    let r = ReadFlow::start("notes.txt");
    assert_eq!(run_read(&mut fs, r), Ok("hello".to_string()));
}

#[test]
fn backup_with_exact_timestamp_name() {
    let mut fs = sim();
    fs.files.insert("cfg.json".to_string(), "old".to_string());
    let w = WriteFlow::start("cfg.json", "new".to_string(), Some(1234));
    assert_eq!(run_write(&mut fs, w), Ok(()));
    assert_eq!(fs.files.get("cfg.json").map(String::as_str), Some("new"));
    assert_eq!(fs.files.get("cfg.json.1234.bak").map(String::as_str), Some("old"));
    assert_eq!(fs.files.len(), 2);
}

#[test]
fn backup_renames_before_write() {
    let mut fs = sim();
    fs.files.insert("cfg.json".to_string(), "old".to_string());
    let w = WriteFlow::start("cfg.json", "new".to_string(), Some(7));
    assert_eq!(run_write(&mut fs, w), Ok(()));
    assert_eq!(fs.log, vec!["dir", "check", "rename", "write"]);
}

#[test]
fn no_backup_when_file_absent() {
    let mut fs = sim();
    let w = WriteFlow::start("cfg.json", "new".to_string(), Some(1234));
    assert_eq!(run_write(&mut fs, w), Ok(()));
    assert_eq!(fs.files.len(), 1);
    assert_eq!(fs.log, vec!["dir", "check", "write"]);
}

#[test]
fn extensionless_backup_name() {
    let mut fs = sim();
    fs.files.insert("data".to_string(), "old".to_string());
    let w = WriteFlow::start("data", "new".to_string(), Some(7));
    assert_eq!(run_write(&mut fs, w), Ok(()));
    assert_eq!(fs.files.get("data..7.bak").map(String::as_str), Some("old"));
}

#[test]
fn multi_dot_backup_name() {
    let mut fs = sim();
    fs.files.insert("dir.d/a.b.c".to_string(), "old".to_string());
    let w = WriteFlow::start("dir.d/a.b.c", "new".to_string(), Some(0));
    assert_eq!(run_write(&mut fs, w), Ok(()));
    assert_eq!(fs.files.get("dir.d/a.b.c.0.bak").map(String::as_str), Some("old"));
}

#[test]
fn missing_parent_created_before_write() {
    let mut fs = sim();
    let w = WriteFlow::start("a/b/c.json", "x".to_string(), None);
    assert_eq!(run_write(&mut fs, w), Ok(()));
    assert_eq!(fs.dirs, vec!["a/b".to_string()]);
    assert_eq!(fs.log, vec!["dir", "write"]);
}

#[test]
fn read_ensures_parent_too() {
    let mut fs = sim();
    fs.files.insert("a/b.json".to_string(), "x".to_string());
    let r = ReadFlow::start("a/b.json");
    assert_eq!(run_read(&mut fs, r), Ok("x".to_string()));
    assert_eq!(fs.dirs, vec!["a".to_string()]);
}

#[test]
fn empty_path_is_invalid_input() {
    let mut fs = sim();
    assert_eq!(run_read(&mut fs, ReadFlow::start("")), Err(FileError::InvalidInput));
    let w = WriteFlow::start("", "x".to_string(), None);
    assert_eq!(run_write(&mut fs, w), Err(FileError::InvalidInput));
    assert!(fs.log.is_empty());
}

#[test]
fn root_path_is_invalid_input() {
    let mut fs = sim();
    assert_eq!(run_read(&mut fs, ReadFlow::start("/")), Err(FileError::InvalidInput));
}

#[test]
fn read_missing_file_is_not_found() {
    let mut fs = sim();
    assert_eq!(run_read(&mut fs, ReadFlow::start("absent.json")), Err(FileError::NotFound));
}

#[test]
fn editor_unset_fails_not_found_without_touching_files() {
    let mut fs = sim();
    fs.files.insert("cfg.json".to_string(), "old".to_string());
    let e = EditFlow::start("cfg.json");
    assert_eq!(run_edit(&mut fs, e), Err(FileError::NotFound));
    assert_eq!(fs.log, vec!["env"]);
    assert_eq!(fs.files.get("cfg.json").map(String::as_str), Some("old"));
}

#[test]
fn editor_failure_status_is_subprocess_error() {
    let mut fs = sim();
    fs.editor = Some("ed".to_string());
    fs.editor_ok = false;
    let e = EditFlow::start("cfg.json");
    assert_eq!(run_edit(&mut fs, e), Err(FileError::Subprocess));
}

#[test]
fn editor_success() {
    let mut fs = sim();
    fs.editor = Some("ed".to_string());
    let e = EditFlow::start("cfg.json");
    assert_eq!(run_edit(&mut fs, e), Ok(()));
    assert_eq!(fs.log, vec!["env", "editor"]);
}

#[test]
fn error_labels() {
    assert_eq!(FileError::NotFound.describe(), "not found");
    assert_eq!(FileError::InvalidInput.describe(), "invalid input");
    assert_eq!(FileError::InvalidData.describe(), "invalid data");
    assert_eq!(FileError::Io.describe(), "i/o failure");
    assert_eq!(FileError::Subprocess.describe(), "subprocess failure");
}
