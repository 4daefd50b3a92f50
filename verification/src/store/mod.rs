//! The object store: a key names a blob of bytes, and a store says where on
//! its medium the blob of a key lives. A store performs no I/O. It plans each
//! read and write as a request, and judges what the medium answered.

pub mod filesystem;
pub mod http;
pub mod r2;

pub use filesystem::FileStore;
pub use http::HttpStore;
pub use r2::R2Store;

use vstd::prelude::*;

verus! {

/// What kind of failure the file system reported.
#[derive(Clone, Copy, Debug, PartialEq, Eq)]
pub enum IoErrorKind {
    NotFound,
    PermissionDenied,
    AlreadyExists,
    InvalidInput,
    Interrupted,
    Other,
}

/// A failure of the file system.
#[derive(Clone, Debug, PartialEq, Eq)]
pub struct IoError {
    pub kind: IoErrorKind,
    pub message: String,
}

/// A failure of the HTTP transport.
#[derive(Clone, Debug, PartialEq, Eq)]
pub struct HttpError {
    pub message: String,
}

/// A failure that the remote object storage, or the way to it, reported.
#[derive(Clone, Debug, PartialEq, Eq)]
pub struct R2Error {
    pub message: String,
}

/// Why a store operation failed. An absent object is no failure.
#[derive(Clone, Debug, PartialEq, Eq)]
pub enum StoreError {
    Io(IoError),
    Reqwest(HttpError),
    R2(R2Error),
}

/// What a store operation gives.
pub type StoreResult<T> = Result<T, StoreError>;

/// The medium that a request is to be performed on.
#[derive(Clone, Copy, Debug, PartialEq, Eq)]
pub enum Medium {
    /// A file below a root directory; the location is its path.
    File,
    /// A resource of an HTTP host; the location is its URL.
    Http,
    /// An object of a bucket; the location is its path in the bucket.
    Bucket,
}

/// A read of one whole object, to be performed by the caller.
#[derive(Clone, Debug, PartialEq, Eq)]
pub struct ReadRequest {
    pub medium: Medium,
    pub location: String,
}

/// A write that creates or replaces one whole object, to be performed by the
/// caller.
#[derive(Clone, Debug, PartialEq, Eq)]
pub struct WriteRequest {
    pub medium: Medium,
    pub location: String,
    pub content: Vec<u8>,
}

/// What a read request asks for.
pub struct ReadRequestView {
    pub medium: Medium,
    pub location: Seq<char>,
}

/// What a write request asks for.
pub struct WriteRequestView {
    pub medium: Medium,
    pub location: Seq<char>,
    pub content: Seq<u8>,
}

impl View for ReadRequest {
    type V = ReadRequestView;

    open spec fn view(&self) -> ReadRequestView {
        ReadRequestView { medium: self.medium, location: self.location@ }
    }
}

impl View for WriteRequest {
    type V = WriteRequestView;

    open spec fn view(&self) -> WriteRequestView {
        WriteRequestView { medium: self.medium, location: self.location@, content: self.content@ }
    }
}

/// A backend of the cache. It maps each key to one location on its medium,
/// and different keys to different locations.
pub trait Store {
    /// The medium of this store.
    spec fn medium(&self) -> Medium;

    /// Where the object of key `filename` lives.
    spec fn location(&self, filename: Seq<char>) -> Seq<char>;

    /// No two keys share a location.
    proof fn lemma_location_injective(&self, first: Seq<char>, second: Seq<char>)
        requires
            self.location(first) == self.location(second),
        ensures
            first == second,
    ;

    /// Plans the write of `content` as the object of key `filename`: an
    /// unconditional create-or-replace.
    fn put_object(&self, filename: String, content: &[u8]) -> (request: WriteRequest)
        ensures
            request@ == (WriteRequestView {
                medium: self.medium(),
                location: self.location(filename@),
                content: content@,
            }),
    ;

    /// Plans the read of the object of key `filename`.
    fn get_object(&self, filename: String) -> (request: ReadRequest)
        ensures
            request@ == (ReadRequestView { medium: self.medium(), location: self.location(filename@) }),
    ;
}

/// The backend of a cache: exactly one of the three kinds, fixed when the
/// cache is made.
#[derive(Clone, PartialEq, Eq)]
pub enum AnyStore {
    File(FileStore),
    HTTP(HttpStore),
    R2(R2Store),
}

impl Store for AnyStore {
    open spec fn medium(&self) -> Medium {
        match self {
            AnyStore::File(store) => store.medium(),
            AnyStore::HTTP(store) => store.medium(),
            AnyStore::R2(store) => store.medium(),
        }
    }

    open spec fn location(&self, filename: Seq<char>) -> Seq<char> {
        match self {
            AnyStore::File(store) => store.location(filename),
            AnyStore::HTTP(store) => store.location(filename),
            AnyStore::R2(store) => store.location(filename),
        }
    }

    proof fn lemma_location_injective(&self, first: Seq<char>, second: Seq<char>) {
        match self {
            AnyStore::File(store) => store.lemma_location_injective(first, second),
            AnyStore::HTTP(store) => store.lemma_location_injective(first, second),
            AnyStore::R2(store) => store.lemma_location_injective(first, second),
        }
    }

    fn put_object(&self, filename: String, content: &[u8]) -> (request: WriteRequest) {
        match self {
            AnyStore::File(store) => store.put_object(filename, content),
            AnyStore::HTTP(store) => store.put_object(filename, content),
            AnyStore::R2(store) => store.put_object(filename, content),
        }
    }

    fn get_object(&self, filename: String) -> (request: ReadRequest) {
        match self {
            AnyStore::File(store) => store.get_object(filename),
            AnyStore::HTTP(store) => store.get_object(filename),
            AnyStore::R2(store) => store.get_object(filename),
        }
    }
}

/// The location that joins a key to a base with a slash.
pub open spec fn joined_location(base: Seq<char>, filename: Seq<char>) -> Seq<char> {
    base + "/"@ + filename
}

/// Joining to one base keeps different keys apart.
pub proof fn lemma_joined_location_injective(base: Seq<char>, first: Seq<char>, second: Seq<char>)
    requires
        joined_location(base, first) == joined_location(base, second),
    ensures
        first == second,
{
    let prefix = base + "/"@;
    assert(first =~= (prefix + first).subrange(prefix.len() as int, (prefix + first).len() as int));
    assert(second =~= (prefix + second).subrange(
        prefix.len() as int,
        (prefix + second).len() as int,
    ));
}

/// Joins `filename` to `base` with a slash.
pub fn join_location(base: &String, filename: &String) -> (location: String)
    ensures
        location@ == joined_location(base@, filename@),
{
    let mut location = base.clone();
    location.append("/");
    location.append(filename.as_str());
    location
}

} // verus!
