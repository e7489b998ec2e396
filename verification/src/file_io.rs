//! The persistence engine: a path bound to a value type and an encoding
//! strategy, exposing load, save, initialize and edit as verified flows.

use vstd::prelude::*;

use crate::errors::FileError;
use crate::protocol::{
    edit_start, read_start, write_start, EditFlow, ReadFlow, WriteFlow,
};

verus! {

/// An encoding strategy binding: how a value of the implementing type is
/// turned into text and back under the strategy marker `S`. The same value
/// type may be bound to several strategies, one impl per marker.
///
/// `encoding` is the canonical text of a value, `decoded` the value a text
/// reconstructs to, and `encodable` the values for which encoding succeeds
/// and round-trips; `lemma_round_trip` obliges every impl to prove that
/// decoding the canonical text of an encodable value yields it back.
pub trait SerdeStr<S>: Sized {
    /// Whether this value can be encoded, and its encoding decoded back to
    /// an equal value, under the strategy.
    spec fn encodable(&self) -> bool;

    /// The canonical text encoding of this value.
    spec fn encoding(&self) -> Seq<char>;

    /// The value the given text decodes to, if any.
    spec fn decoded(s: Seq<char>) -> Option<Self>;

    /// Encoding an encodable value and decoding the text yields the value.
    proof fn lemma_round_trip(&self)
        requires
            self.encodable(),
        ensures
            Self::decoded(self.encoding()) == Some(*self),
    ;

    /// Produce the canonical text encoding.
    fn ser_to_string(&self) -> (r: Result<String, FileError>)
        ensures
            r matches Ok(s) ==> s@ == self.encoding(),
            self.encodable() ==> r is Ok,
    ;

    /// Reconstruct a value from text.
    fn de_from_str(s: &str) -> (r: Result<Self, FileError>)
        ensures
            match r {
                Ok(v) => Self::decoded(s@) == Some(v),
                Err(_) => Self::decoded(s@) is None,
            },
    ;
}

/// Access to one file holding a value of type `T` encoded under strategy
/// `S`. The engine holds only the path: every operation re-reads or
/// rewrites the file through a fresh flow.
pub struct FileIO<T, S = ()> {
    /// The location of the backing file.
    pub path: String,
    /// Marks the value type the file holds.
    pub content: core::marker::PhantomData<T>,
    /// Marks the strategy the value is encoded under.
    pub strategy: core::marker::PhantomData<S>,
}

impl<T: SerdeStr<S>, S> FileIO<T, S> {
    /// Bind the engine to a path. Does no I/O.
    pub fn new(path: String) -> (r: Self)
        ensures
            r.path@ == path@,
    {
        FileIO { path, content: core::marker::PhantomData, strategy: core::marker::PhantomData }
    }

    /// The flow that reads the backing file's text: ensure the parent
    /// directory, then read.
    pub fn load_flow(&self) -> (f: ReadFlow)
        ensures
            f@ == read_start(self.path@),
    {
        ReadFlow::start(self.path.as_str())
    }

    /// Finish a load: decode the text a completed [`ReadFlow`] produced.
    /// A read failure passes through; undecodable text is invalid data.
    pub fn decode_loaded(&self, loaded: Result<String, FileError>) -> (r: Result<T, FileError>)
        ensures
            match loaded {
                Err(e) => r == Err::<T, FileError>(e),
                Ok(s) => match r {
                    Ok(v) => T::decoded(s@) == Some(v),
                    Err(e2) => T::decoded(s@) is None && e2 == FileError::InvalidData,
                },
            },
    {
        match loaded {
            Err(e) => Err(e),
            Ok(s) => match T::de_from_str(s.as_str()) {
                Ok(v) => Ok(v),
                Err(_) => Err(FileError::InvalidData),
            },
        }
    }

    /// The flow that writes `value`'s encoding to the backing file, with no
    /// backup of what may be there. On an encoding failure no flow exists,
    /// so nothing is written.
    pub fn save_flow(&self, value: &T) -> (r: Result<WriteFlow, FileError>)
        ensures
            value.encodable() ==> r is Ok,
            r matches Ok(f) ==> f@ == write_start(self.path@, value.encoding(), None),
            r is Err ==> !value.encodable(),
    {
        match value.ser_to_string() {
            Err(e) => Err(e),
            Ok(content) => Ok(WriteFlow::start(self.path.as_str(), content, None)),
        }
    }

    /// The flow that writes `value`'s encoding to the backing file, first
    /// moving a file already present aside under the backup name derived
    /// from the timestamp `ts` (seconds since the Unix epoch).
    pub fn backup_save_flow_at(&self, value: &T, ts: u64) -> (r: Result<
        WriteFlow,
        FileError,
    >)
        ensures
            value.encodable() ==> r is Ok,
            r matches Ok(f) ==> f@ == write_start(self.path@, value.encoding(), Some(ts)),
            r is Err ==> !value.encodable(),
    {
        match value.ser_to_string() {
            Err(e) => Err(e),
            Ok(content) => Ok(WriteFlow::start(self.path.as_str(), content, Some(ts))),
        }
    }

    /// The flow behind a backing-up save: like
    /// [`Self::backup_save_flow_at`], stamped with the clock's current Unix
    /// time (clamped to zero for clocks before the epoch).
    pub fn backup_and_save_flow(&self, value: &T) -> (r: Result<WriteFlow, FileError>)
        ensures
            value.encodable() ==> r is Ok,
            r matches Ok(f) ==> exists|ts: u64|
                f@ == write_start(self.path@, value.encoding(), Some(ts)),
            r is Err ==> !value.encodable(),
    {
        let t = crate::clock::now_unix_timestamp();
        let ts: u64 = if t >= 0 {
            t as u64
        } else {
            0
        };
        match self.backup_save_flow_at(value, ts) {
            Ok(f) => {
                proof {
                    assert(f@ == write_start(self.path@, value.encoding(), Some(ts)));
                }
                Ok(f)
            },
            Err(e) => Err(e),
        }
    }

    /// Decide what to do after a load attempt: a loaded value is returned as
    /// is; on any failure — absent file and corrupt file alike — the `init`
    /// producer supplies a fresh value, which must then be persisted by
    /// running the returned save flow. Success is owed whenever the load
    /// succeeded or everything the producer can yield is encodable; a
    /// failure means the producer ran and its value was not encodable, and
    /// carries the encoding error through unchanged.
    pub fn load_or_init<F: Fn() -> T>(&self, loaded: Result<T, FileError>, init: F) -> (r:
        Result<(T, Option<WriteFlow>), FileError>)
        requires
            loaded is Err ==> init.requires(()),
        ensures
            match loaded {
                Ok(v) => r == Ok::<(T, Option<WriteFlow>), FileError>((v, None)),
                Err(_) => match r {
                    Ok((w, flow)) => {
                        &&& init.ensures((), w)
                        &&& flow matches Some(f) && f@ == write_start(
                            self.path@,
                            w.encoding(),
                            None,
                        )
                    },
                    Err(_) => exists|w: T| init.ensures((), w) && !w.encodable(),
                },
            },
            loaded is Err && (forall|w: T| init.ensures((), w) ==> w.encodable()) ==> r is Ok,
    {
        match loaded {
            Ok(v) => Ok((v, None)),
            Err(_) => {
                let w = init();
                match self.save_flow(&w) {
                    Ok(f) => Ok((w, Some(f))),
                    Err(e) => {
                        proof {
                            assert(init.ensures((), w) && !w.encodable());
                        }
                        Err(e)
                    },
                }
            },
        }
    }

    /// The flow that opens the backing file in the external editor.
    pub fn edit_flow(&self) -> (f: EditFlow)
        ensures
            f@ == edit_start(self.path@),
    {
        EditFlow::start(self.path.as_str())
    }
}

} // verus!
