//! The backend that keeps each object in a bucket of an S3-compatible remote
//! storage, and tries every request again, up to a bound, until one attempt
//! succeeds.

use crate::store::{
    Medium, R2Error, ReadRequest, Store, StoreError, StoreResult, WriteRequest,
};
use vstd::prelude::*;
use vstd::slice::*;
use vstd::string::*;

verus! {

/// How many attempts one request gets at most.
pub const MAX_ATTEMPTS: u32 = 30;

/// After how many seconds one attempt is given up.
pub const REQUEST_TIMEOUT_SECS: u64 = 10;

/// A bucket of a remote storage account: its name, where and as whom it is
/// reached, and how long one attempt may take.
#[derive(Clone, PartialEq, Eq)]
pub struct R2Store {
    pub bucket_name: String,
    pub region: String,
    pub endpoint: String,
    pub access_key_id: String,
    pub secret_access_key: String,
    pub request_timeout_secs: u64,
}

/// A request that is being retried: so many attempts were made, all of them
/// failed, and at least one more is owed.
#[derive(Debug)]
pub struct Retry {
    attempts: u32,
}

/// What follows an attempt.
#[derive(Debug)]
pub enum RetryStep<T> {
    /// The attempt failed and the bound is not reached: make another.
    Again(Retry),
    /// No more attempts: this is how the request ended.
    Done(Result<T, R2Error>),
}

/// What an attempt's outcome means after `made` failed attempts: the end of
/// the request, or nothing yet. A success ends it. So does the failure of the
/// last attempt that the bound allows, with that failure as the result.
pub open spec fn retry_step<T>(made: nat, outcome: Result<T, R2Error>) -> Option<Result<T, R2Error>> {
    if outcome is Ok || made + 1 >= MAX_ATTEMPTS {
        Some(outcome)
    } else {
        None
    }
}

/// How a request ends, and after how many attempts in all, when `made`
/// attempts have failed and the attempts from then on are answered by
/// `outcomes[made]`, `outcomes[made + 1]` and so on.
pub open spec fn retry_run<T>(outcomes: Seq<Result<T, R2Error>>, made: nat) -> (Result<T, R2Error>, nat)
    decreases MAX_ATTEMPTS - made,
{
    match retry_step(made, outcomes[made as int]) {
        Some(result) => (result, made + 1),
        None => retry_run(outcomes, made + 1),
    }
}

impl Retry {
    #[verifier::type_invariant]
    spec fn owes_an_attempt(self) -> bool {
        self.attempts < MAX_ATTEMPTS
    }

    /// The number of attempts made so far.
    pub closed spec fn attempts(&self) -> nat {
        self.attempts as nat
    }

    /// A request of which no attempt was made yet. The first is owed: no
    /// request ends without an attempt.
    pub fn start() -> (retry: Retry)
        ensures
            retry.attempts() == 0,
    {
        Retry { attempts: 0 }
    }

    /// Takes the outcome of the attempt that was owed, and says what follows.
    pub fn on_attempt<T>(self, outcome: Result<T, R2Error>) -> (step: RetryStep<T>)
        ensures
            self.attempts() < MAX_ATTEMPTS,
            match retry_step(self.attempts(), outcome) {
                Some(result) => step matches RetryStep::Done(r) && r == result,
                None => step matches RetryStep::Again(next) && next.attempts() == self.attempts() + 1,
            },
    {
        proof {
            use_type_invariant(&self);
        }
        match outcome {
            Ok(value) => RetryStep::Done(Ok(value)),
            Err(e) => if self.attempts + 1 >= MAX_ATTEMPTS {
                RetryStep::Done(Err(e))
            } else {
                RetryStep::Again(Retry { attempts: self.attempts + 1 })
            },
        }
    }
}

/// A request ends with its first success, if that comes within the bound,
/// and otherwise with the failure of the last attempt that the bound allows:
/// when the attempts before the `k`-th all fail, and the `k`-th succeeds or
/// is that last one, the request ends after it, with its outcome.
pub proof fn lemma_retry_ends<T>(outcomes: Seq<Result<T, R2Error>>, made: nat, k: nat)
    requires
        made <= k < MAX_ATTEMPTS,
        k < outcomes.len(),
        forall|i: int| made <= i < k ==> (#[trigger] outcomes[i]) is Err,
        outcomes[k as int] is Ok || k + 1 == MAX_ATTEMPTS,
    ensures
        retry_run(outcomes, made) == (outcomes[k as int], k + 1),
    decreases k - made,
{
    if made < k {
        assert(outcomes[made as int] is Err);
        lemma_retry_ends(outcomes, made + 1, k);
    }
}

/// A request whose first 29 attempts fail and whose 30th succeeds ends in
/// that success.
pub proof fn lemma_retry_succeeds_on_last_attempt<T>(outcomes: Seq<Result<T, R2Error>>)
    requires
        outcomes.len() == MAX_ATTEMPTS,
        forall|i: int| 0 <= i < MAX_ATTEMPTS - 1 ==> (#[trigger] outcomes[i]) is Err,
        outcomes[MAX_ATTEMPTS - 1] is Ok,
    ensures
        retry_run(outcomes, 0) == (outcomes[MAX_ATTEMPTS - 1], MAX_ATTEMPTS as nat),
{
    lemma_retry_ends(outcomes, 0, (MAX_ATTEMPTS - 1) as nat);
}

/// A request whose 30 attempts all fail ends in the failure of the last one,
/// and in no other failure.
pub proof fn lemma_retry_gives_last_failure<T>(outcomes: Seq<Result<T, R2Error>>)
    requires
        outcomes.len() == MAX_ATTEMPTS,
        forall|i: int| 0 <= i < MAX_ATTEMPTS ==> (#[trigger] outcomes[i]) is Err,
    ensures
        retry_run(outcomes, 0) == (outcomes[MAX_ATTEMPTS - 1], MAX_ATTEMPTS as nat),
{
    lemma_retry_ends(outcomes, 0, (MAX_ATTEMPTS - 1) as nat);
}

impl R2Store {
    /// The bucket `bucket_name` of the account `account_id`, reached at the
    /// account's own endpoint with the given key pair.
    pub fn new(
        access_key_id: String,
        secret_access_key: String,
        account_id: String,
        bucket_name: String,
    ) -> (store: R2Store)
        ensures
            store.bucket_name == bucket_name,
            store.region@ == "auto"@,
            store.endpoint@ == "https://"@ + account_id@ + ".r2.cloudflarestorage.com"@,
            store.access_key_id == access_key_id,
            store.secret_access_key == secret_access_key,
            store.request_timeout_secs == REQUEST_TIMEOUT_SECS,
    {
        let mut endpoint = String::from_str("https://");
        endpoint.append(account_id.as_str());
        endpoint.append(".r2.cloudflarestorage.com");
        R2Store {
            bucket_name,
            region: String::from_str("auto"),
            endpoint,
            access_key_id,
            secret_access_key,
            request_timeout_secs: REQUEST_TIMEOUT_SECS,
        }
    }

    /// Judges how a retried read ended. Whatever came back without a failure
    /// is the object, so a read of this backend never finds an object absent.
    pub fn read_result(ended: Result<Vec<u8>, R2Error>) -> (result: StoreResult<Option<Vec<u8>>>)
        ensures
            match ended {
                Ok(content) => result == Ok::<Option<Vec<u8>>, StoreError>(Some(content)),
                Err(e) => result == Err::<Option<Vec<u8>>, StoreError>(StoreError::R2(e)),
            },
    {
        match ended {
            Ok(content) => Ok(Some(content)),
            Err(e) => Err(StoreError::R2(e)),
        }
    }

    /// Judges how a retried write ended.
    pub fn write_result(ended: Result<(), R2Error>) -> (result: StoreResult<()>)
        ensures
            match ended {
                Ok(_) => result == Ok::<(), StoreError>(()),
                Err(e) => result == Err::<(), StoreError>(StoreError::R2(e)),
            },
    {
        match ended {
            Ok(_) => Ok(()),
            Err(e) => Err(StoreError::R2(e)),
        }
    }
}

impl Store for R2Store {
    open spec fn medium(&self) -> Medium {
        Medium::Bucket
    }

    open spec fn location(&self, filename: Seq<char>) -> Seq<char> {
        filename
    }

    proof fn lemma_location_injective(&self, first: Seq<char>, second: Seq<char>) {
    }

    fn put_object(&self, filename: String, content: &[u8]) -> (request: WriteRequest) {
        WriteRequest { medium: Medium::Bucket, location: filename, content: slice_to_vec(content) }
    }

    fn get_object(&self, filename: String) -> (request: ReadRequest) {
        ReadRequest { medium: Medium::Bucket, location: filename }
    }
}

} // verus!
