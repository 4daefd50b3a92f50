//! The backend that keeps each object in a file below a root directory.

use crate::store::{
    join_location, joined_location, lemma_joined_location_injective, IoError, IoErrorKind, Medium,
    ReadRequest, Store, StoreError, StoreResult, WriteRequest,
};
use vstd::prelude::*;
use vstd::slice::*;
use vstd::string::*;

verus! {

/// A store of files below `root_dir`.
#[derive(Clone, Debug, PartialEq, Eq)]
pub struct FileStore {
    pub root_dir: String,
}

impl FileStore {
    /// The store below `root_dir`. The root directory is made, with the
    /// directories above it, before a store is made: `created` is how that
    /// went, and a failure there is handed back.
    pub fn new(root_dir: &str, created: Result<(), IoError>) -> (store: Result<FileStore, IoError>)
        ensures
            match created {
                Ok(_) => store matches Ok(s) && s.root_dir@ == root_dir@,
                Err(e) => store == Err::<FileStore, IoError>(e),
            },
    {
        match created {
            Ok(_) => Ok(FileStore { root_dir: String::from_str(root_dir) }),
            Err(e) => Err(e),
        }
    }

    /// Judges how the read of a file went: its whole content is the object, a
    /// file that is not there is an absent object, and any other failure is
    /// the operation's failure. Nothing is tried again.
    pub fn read_result(outcome: Result<Vec<u8>, IoError>) -> (result: StoreResult<Option<Vec<u8>>>)
        ensures
            match outcome {
                Ok(content) => result == Ok::<Option<Vec<u8>>, StoreError>(Some(content)),
                Err(e) => if e.kind == IoErrorKind::NotFound {
                    result == Ok::<Option<Vec<u8>>, StoreError>(None)
                } else {
                    result == Err::<Option<Vec<u8>>, StoreError>(StoreError::Io(e))
                },
            },
    {
        match outcome {
            Ok(content) => Ok(Some(content)),
            Err(e) => match e.kind {
                IoErrorKind::NotFound => Ok(None),
                _ => Err(StoreError::Io(e)),
            },
        }
    }

    /// Judges how the write of a file went: any failure is the operation's
    /// failure. Nothing is tried again.
    pub fn write_result(outcome: Result<(), IoError>) -> (result: StoreResult<()>)
        ensures
            match outcome {
                Ok(_) => result == Ok::<(), StoreError>(()),
                Err(e) => result == Err::<(), StoreError>(StoreError::Io(e)),
            },
    {
        match outcome {
            Ok(_) => Ok(()),
            Err(e) => Err(StoreError::Io(e)),
        }
    }
}

impl Store for FileStore {
    open spec fn medium(&self) -> Medium {
        Medium::File
    }

    open spec fn location(&self, filename: Seq<char>) -> Seq<char> {
        joined_location(self.root_dir@, filename)
    }

    proof fn lemma_location_injective(&self, first: Seq<char>, second: Seq<char>) {
        lemma_joined_location_injective(self.root_dir@, first, second);
    }

    fn put_object(&self, filename: String, content: &[u8]) -> (request: WriteRequest) {
        WriteRequest {
            medium: Medium::File,
            location: join_location(&self.root_dir, &filename),
            content: slice_to_vec(content),
        }
    }

    fn get_object(&self, filename: String) -> (request: ReadRequest) {
        ReadRequest { medium: Medium::File, location: join_location(&self.root_dir, &filename) }
    }
}

} // verus!
