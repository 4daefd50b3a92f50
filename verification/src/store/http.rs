//! The backend that keeps each object as a resource of an HTTP host.

use crate::store::{
    join_location, joined_location, lemma_joined_location_injective, HttpError, Medium,
    ReadRequest, Store, StoreError, StoreResult, WriteRequest,
};
use vstd::prelude::*;
use vstd::slice::*;

verus! {

/// A store of resources below the base URL `host`.
#[derive(Clone, Debug, PartialEq, Eq)]
pub struct HttpStore {
    pub host: String,
}

/// What follows the response to a read.
#[derive(Debug, PartialEq, Eq)]
pub enum HttpRead {
    /// The response reports success: its body is to be read.
    ReadBody,
    /// The read is over, with this result.
    Done(StoreResult<Option<Vec<u8>>>),
}

/// Whether a status code reports success: the codes from 200 to 299.
pub open spec fn is_success(status: u16) -> bool {
    200 <= status < 300
}

impl HttpStore {
    /// The store below the base URL `host`.
    pub fn new(host: String) -> (store: HttpStore)
        ensures
            store.host == host,
    {
        HttpStore { host }
    }

    /// Judges the response to a read, given by its status code, or the
    /// failure to get one. A status that reports success asks for the body.
    /// Any other status is an absent object, whatever the server meant by it.
    /// A failure of the transport is the operation's failure.
    pub fn read_response(response: Result<u16, HttpError>) -> (next: HttpRead)
        ensures
            match response {
                Ok(status) => if is_success(status) {
                    next == HttpRead::ReadBody
                } else {
                    next == HttpRead::Done(Ok(None))
                },
                Err(e) => next == HttpRead::Done(Err(StoreError::Reqwest(e))),
            },
    {
        match response {
            Ok(status) => if 200 <= status && status < 300 {
                HttpRead::ReadBody
            } else {
                HttpRead::Done(Ok(None))
            },
            Err(e) => HttpRead::Done(Err(StoreError::Reqwest(e))),
        }
    }

    /// Judges how reading the body of a successful response went: the whole
    /// body is the object.
    pub fn read_result(body: Result<Vec<u8>, HttpError>) -> (result: StoreResult<Option<Vec<u8>>>)
        ensures
            match body {
                Ok(content) => result == Ok::<Option<Vec<u8>>, StoreError>(Some(content)),
                Err(e) => result == Err::<Option<Vec<u8>>, StoreError>(StoreError::Reqwest(e)),
            },
    {
        match body {
            Ok(content) => Ok(Some(content)),
            Err(e) => Err(StoreError::Reqwest(e)),
        }
    }

    /// Judges how a write went. The write is delivered once any response
    /// came, whatever its status; only a failure of the transport is the
    /// operation's failure.
    pub fn write_result(response: Result<u16, HttpError>) -> (result: StoreResult<()>)
        ensures
            match response {
                Ok(_) => result == Ok::<(), StoreError>(()),
                Err(e) => result == Err::<(), StoreError>(StoreError::Reqwest(e)),
            },
    {
        match response {
            Ok(_) => Ok(()),
            Err(e) => Err(StoreError::Reqwest(e)),
        }
    }
}

impl Store for HttpStore {
    open spec fn medium(&self) -> Medium {
        Medium::Http
    }

    open spec fn location(&self, filename: Seq<char>) -> Seq<char> {
        joined_location(self.host@, filename)
    }

    proof fn lemma_location_injective(&self, first: Seq<char>, second: Seq<char>) {
        lemma_joined_location_injective(self.host@, first, second);
    }

    fn put_object(&self, filename: String, content: &[u8]) -> (request: WriteRequest) {
        WriteRequest {
            medium: Medium::Http,
            location: join_location(&self.host, &filename),
            content: slice_to_vec(content),
        }
    }

    fn get_object(&self, filename: String) -> (request: ReadRequest) {
        ReadRequest { medium: Medium::Http, location: join_location(&self.host, &filename) }
    }
}

} // verus!
