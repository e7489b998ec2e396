//! The engine's laws, stated once over the protocol models and proved for
//! every path, content, timestamp and model file system.

use vstd::prelude::*;

use crate::errors::FileError;
use crate::file_io::SerdeStr;
use crate::path_text::{lemma_backup_path_differs, spec_backup_path, spec_parent};
use crate::protocol::{
    apply_request, edit_request, edit_start, edit_step, read_request, write_request,
    write_start, write_step, EditModel, ReadModel, ReplyModel,
    RequestModel, WriteModel,
};

verus! {

/// Round trip: the canonical text of any encodable value — the text a save
/// writes — decodes back to an equal value, so a save followed by a load
/// yields the value saved.
pub proof fn lemma_save_load_round_trip<S, T: SerdeStr<S>>(v: T)
    requires
        v.encodable(),
    ensures
        T::decoded(v.encoding()) == Some(v),
{
    v.lemma_round_trip();
}

/// Backup on overwrite: when a file is already present, a backing-up save
/// renames it to the timestamped backup name — a genuinely different path —
/// before writing, so afterwards the file system holds exactly one new
/// entry: the backup with the old content, while the path holds the new
/// content.
pub proof fn lemma_backup_on_overwrite(
    path: Seq<char>,
    content: Seq<char>,
    ts: u64,
    fs: Map<Seq<char>, Seq<char>>,
)
    requires
        spec_parent(path) is Some,
        fs.contains_key(path),
    ensures
        ({
            let bak = spec_backup_path(path, ts);
            let m0 = write_start(path, content, Some(ts));
            let m1 = write_step(m0, ReplyModel::Unit(Ok(())));
            let m2 = write_step(m1, ReplyModel::Presence(true));
            let fs1 = apply_request(fs, write_request(m2)->Some_0);
            let m3 = write_step(m2, ReplyModel::Unit(Ok(())));
            let fs2 = apply_request(fs1, write_request(m3)->Some_0);
            let m4 = write_step(m3, ReplyModel::Unit(Ok(())));
            &&& write_request(m2) == Some(RequestModel::RenameFile { from: path, to: bak })
            &&& write_request(m3) == Some(RequestModel::WriteFile { path, content })
            &&& m4 == (WriteModel::Done { result: Ok(()) })
            &&& bak != path
            &&& fs2.contains_key(bak) && fs2[bak] == fs[path]
            &&& fs2.contains_key(path) && fs2[path] == content
            &&& fs2.dom() =~= fs.dom().insert(bak)
        }),
{
    lemma_backup_path_differs(path, ts);
}

/// A save asks for the parent directory — ancestors included, that is the
/// driver's one obligation for `EnsureDir` — before anything else; a path
/// without a parent is rejected as invalid input with no request at all.
pub proof fn lemma_save_ensures_parent_first(
    path: Seq<char>,
    content: Seq<char>,
    backup: Option<u64>,
)
    ensures
        spec_parent(path) matches Some(p) ==> write_request(
            write_start(path, content, backup),
        ) == Some(RequestModel::EnsureDir { dir: p }),
        spec_parent(path) is None ==> write_start(path, content, backup) == (WriteModel::Done {
            result: Err(FileError::InvalidInput),
        }),
{
}

/// The file itself is only ever written or renamed after the directory step
/// succeeded: no state whose request writes or renames is reachable except
/// out of a successful `EnsureDir`, `CheckFile` or `RenameFile` step.
pub proof fn lemma_no_write_before_parent(m: WriteModel, r: ReplyModel)
    ensures
        !(write_start_is_mutating(m)),
        write_step(m, r) is Writing && !(m is Writing) ==> {
            ||| (m matches WriteModel::EnsuringParent { backup: None, .. } && r matches ReplyModel::Unit(Ok(_)))
            ||| (m is Checking && r == ReplyModel::Presence(false))
            ||| (m is Renaming && r matches ReplyModel::Unit(Ok(_)))
        },
        write_step(m, r) is Renaming && !(m is Renaming) ==> m is Checking && r
            == ReplyModel::Presence(true),
        write_step(m, r) is Checking && !(m is Checking) ==> (m matches WriteModel::EnsuringParent {
            backup: Some(_),
            ..
        } && r matches ReplyModel::Unit(Ok(_))),
{
}

/// Helper for [`lemma_no_write_before_parent`]: a freshly started write flow
/// is never already in a writing or renaming state.
pub open spec fn write_start_is_mutating(m: WriteModel) -> bool {
    exists|path: Seq<char>, content: Seq<char>, backup: Option<u64>|
        write_start(path, content, backup) == m && (m is Writing || m is Renaming
            || m is Checking)
}

/// A load never mutates the file system: its requests only ensure the
/// parent directory and read.
pub proof fn lemma_load_never_writes(m: ReadModel, fs: Map<Seq<char>, Seq<char>>)
    ensures
        read_request(m) matches Some(q) ==> apply_request(fs, q) == fs,
{
}

/// An edit performs no file-system mutation at all: every request it can
/// make leaves the model file system untouched.
pub proof fn lemma_edit_reads_only(m: EditModel, fs: Map<Seq<char>, Seq<char>>)
    ensures
        edit_request(m) matches Some(q) ==> apply_request(fs, q) == fs,
{
}

/// With no editor variable set, an edit fails as not found at its very
/// first step, asking for nothing further.
pub proof fn lemma_edit_without_editor(path: Seq<char>)
    ensures
        edit_step(edit_start(path), ReplyModel::EnvVar(None)) == (EditModel::Done {
            result: Err(FileError::NotFound),
        }),
        edit_request(edit_step(edit_start(path), ReplyModel::EnvVar(None))) is None,
{
}

} // verus!
