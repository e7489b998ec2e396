//! The persistence engine end to end: documents encoded under both
//! strategies, saved, backed up, reloaded and reinitialized, against a
//! simulated file system.

use std::collections::HashMap;

use file_persist::document::Document;
use file_persist::errors::FileError;
use file_persist::file_io::{FileIO, SerdeStr};
use file_persist::json_codec::Json;
use file_persist::protocol::{ReadFlow, Reply, Request, WriteFlow};
use file_persist::toml_codec::Toml;

struct Sim {
    files: HashMap<String, String>,
}

fn sim() -> Sim {
    Sim { files: HashMap::new() }
}

fn perform(fs: &mut Sim, req: Request) -> Reply {
    match req {
        Request::EnsureDir { .. } => Reply::Unit(Ok(())),
        Request::ReadFile { path } => Reply::Text(match fs.files.get(&path) {
            Some(c) => Ok(c.clone()),
            None => Err(FileError::NotFound),
        }),
        Request::CheckFile { path } => Reply::Presence(fs.files.contains_key(&path)),
        Request::RenameFile { from, to } => match fs.files.remove(&from) {
            Some(c) => {
                fs.files.insert(to, c);
                Reply::Unit(Ok(()))
            }
            None => Reply::Unit(Err(FileError::NotFound)),
        },
        Request::WriteFile { path, content } => {
            fs.files.insert(path, content);
            Reply::Unit(Ok(()))
        }
        Request::ReadEnvVar { .. } => Reply::EnvVar(None),
        Request::RunEditor { .. } => Reply::ExitStatus(Ok(true)),
    }
}

fn run_read(fs: &mut Sim, mut flow: ReadFlow) -> Result<String, FileError> {
    loop {
        match flow.request() {
            Some(req) => {
                let rep = perform(fs, req);
                flow = flow.advance(rep);
            }
            None => break,
        }
    }
    flow.outcome().unwrap()
}

fn run_write(fs: &mut Sim, mut flow: WriteFlow) -> Result<(), FileError> {
    loop {
        match flow.request() {
            Some(req) => {
                let rep = perform(fs, req);
                flow = flow.advance(rep);
            }
            None => break,
        }
    }
    flow.outcome().unwrap()
}

fn load<T: SerdeStr<S>, S>(fs: &mut Sim, f: &FileIO<T, S>) -> Result<T, FileError> {
    let text = run_read(fs, f.load_flow());
    f.decode_loaded(text)
}

fn save<T: SerdeStr<S>, S>(fs: &mut Sim, f: &FileIO<T, S>, v: &T) -> Result<(), FileError> {
    run_write(fs, f.save_flow(v).unwrap())
}

fn text(s: &str) -> Document {
    Document::Text(s.to_string())
}

fn name_table(value: &str) -> Document {
    Document::Table(vec![("name".to_string(), text(value))])
}

#[test]
fn file_io_str() {
    let mut fs = sim();
    let path = "test_file_io_str.json".to_string();
    fs.files.insert(path.clone(), "{\"name\":\"test\"}".to_string());
    let file_io = FileIO::<Document, Json>::new(path);
    let loaded_conf = load(&mut fs, &file_io);
    assert_eq!(loaded_conf.unwrap(), name_table("test"));
}

#[test]
fn file_io_save() {
    let mut fs = sim();
    let path = "test_file_io_save.json".to_string();
    let conf = name_table("test");
    let file_io = FileIO::<Document, Json>::new(path);
    save(&mut fs, &file_io, &conf).unwrap();
    let loaded_conf = load(&mut fs, &file_io);
    assert_eq!(loaded_conf.unwrap(), conf);
}

#[test]
fn json_exact_encoding() {
    let s = <Document as SerdeStr<Json>>::ser_to_string(&name_table("test")).unwrap();
    assert_eq!(s, "{\"name\":\"test\"}");
}

#[test]
fn json_round_trip_nested() {
    let doc = Document::Table(vec![
        ("flags".to_string(), Document::List(vec![Document::Bool(true), Document::Int(-3)])),
        (
            "inner".to_string(),
            Document::Table(vec![
                ("a".to_string(), Document::Int(i64::MAX)),
                ("b".to_string(), text("x\n\"y\"")),
            ]),
        ),
    ]);
    let s = <Document as SerdeStr<Json>>::ser_to_string(&doc).unwrap();
    let back = <Document as SerdeStr<Json>>::de_from_str(&s).unwrap();
    assert_eq!(back, doc);
}

#[test]
fn json_decode_builds_structure() {
    let d = <Document as SerdeStr<Json>>::de_from_str("[1,true,\"x\"]").unwrap();
    assert_eq!(d, Document::List(vec![Document::Int(1), Document::Bool(true), text("x")]));
}

#[test]
fn json_rejects_malformed_text() {
    let r = <Document as SerdeStr<Json>>::de_from_str("{\"name\": }");
    assert_eq!(r, Err(FileError::InvalidData));
}

#[test]
fn toml_exact_encoding() {
    let s = <Document as SerdeStr<Toml>>::ser_to_string(&name_table("test")).unwrap();
    assert_eq!(s, "name = \"test\"\n");
}

#[test]
fn toml_round_trip() {
    let doc = Document::Table(vec![
        ("n".to_string(), Document::Int(42)),
        ("words".to_string(), Document::List(vec![text("a"), text("b")])),
    ]);
    let mut fs = sim();
    let file_io = FileIO::<Document, Toml>::new("conf.toml".to_string());
    save(&mut fs, &file_io, &doc).unwrap();
    let back = load(&mut fs, &file_io).unwrap();
    assert_eq!(back, doc);
}

#[test]
fn render_functions_expose_the_encodings() {
    assert_eq!(
        file_persist::json_codec::json_render(&name_table("test")),
        "{\"name\":\"test\"}"
    );
    assert_eq!(
        file_persist::toml_codec::toml_render(&name_table("test")),
        Some("name = \"test\"\n".to_string())
    );
    assert_eq!(file_persist::toml_codec::toml_render(&Document::Int(3)), None);
}

#[test]
fn load_or_init_propagates_encode_failure() {
    let mut fs = sim();
    let file_io = FileIO::<Document, Toml>::new("conf.toml".to_string());
    let loaded = load(&mut fs, &file_io);
    assert_eq!(loaded, Err(FileError::NotFound));
    let r = file_io.load_or_init(loaded, || Document::List(vec![Document::Int(1)]));
    assert!(matches!(r, Err(FileError::InvalidData)));
}

#[test]
fn toml_rejects_top_level_list() {
    let doc = Document::List(vec![Document::Int(1)]);
    let r = <Document as SerdeStr<Toml>>::ser_to_string(&doc);
    assert_eq!(r, Err(FileError::InvalidData));
}

#[test]
fn missing_file_default() {
    let mut fs = sim();
    let file_io = FileIO::<Document, Json>::new("fresh.json".to_string());
    let loaded = load(&mut fs, &file_io);
    assert_eq!(loaded, Err(FileError::NotFound));
    let (v, flow) = file_io.load_or_init(loaded, || name_table("default")).unwrap();
    assert_eq!(v, name_table("default"));
    run_write(&mut fs, flow.unwrap()).unwrap();
    assert_eq!(load(&mut fs, &file_io).unwrap(), name_table("default"));
}

#[test]
fn corrupt_file_override() {
    let mut fs = sim();
    fs.files.insert("bad.json".to_string(), "not json {{{".to_string());
    let file_io = FileIO::<Document, Json>::new("bad.json".to_string());
    let loaded = load(&mut fs, &file_io);
    assert_eq!(loaded, Err(FileError::InvalidData));
    let (v, flow) = file_io.load_or_init(loaded, || name_table("default")).unwrap();
    assert_eq!(v, name_table("default"));
    run_write(&mut fs, flow.unwrap()).unwrap();
    assert_eq!(
        fs.files.get("bad.json").map(String::as_str),
        Some("{\"name\":\"default\"}")
    );
    assert_eq!(load(&mut fs, &file_io).unwrap(), name_table("default"));
}

#[test]
fn load_or_init_returns_loaded_value_untouched() {
    let mut fs = sim();
    fs.files.insert("cfg.json".to_string(), "{\"name\":\"kept\"}".to_string());
    let file_io = FileIO::<Document, Json>::new("cfg.json".to_string());
    let loaded = load(&mut fs, &file_io);
    let (v, flow) = file_io.load_or_init(loaded, || name_table("default")).unwrap();
    assert_eq!(v, name_table("kept"));
    assert!(flow.is_none());
}

#[test]
fn second_save_leaves_backup_with_original_text() {
    let mut fs = sim();
    let file_io = FileIO::<Document, Json>::new("cfg.json".to_string());
    save(&mut fs, &file_io, &name_table("test")).unwrap();
    let w = file_io.backup_save_flow_at(&name_table("other"), 99).unwrap();
    run_write(&mut fs, w).unwrap();
    assert_eq!(
        fs.files.get("cfg.json").map(String::as_str),
        Some("{\"name\":\"other\"}")
    );
    assert_eq!(
        fs.files.get("cfg.json.99.bak").map(String::as_str),
        Some("{\"name\":\"test\"}")
    );
    assert_eq!(fs.files.len(), 2);
}

#[test]
fn backup_and_save_stamps_with_clock() {
    let mut fs = sim();
    let file_io = FileIO::<Document, Json>::new("cfg.json".to_string());
    save(&mut fs, &file_io, &name_table("test")).unwrap();
    let w = file_io.backup_and_save_flow(&name_table("other")).unwrap();
    run_write(&mut fs, w).unwrap();
    assert_eq!(fs.files.len(), 2);
    let backup: Vec<&String> = fs.files.keys().filter(|k| k.as_str() != "cfg.json").collect();
    assert!(backup[0].starts_with("cfg.json."));
    assert!(backup[0].ends_with(".bak"));
    assert_eq!(
        fs.files.get(backup[0]).map(String::as_str),
        Some("{\"name\":\"test\"}")
    );
}
