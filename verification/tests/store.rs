use bitcoind_cache::store::http::HttpRead;
use bitcoind_cache::store::r2::{Retry, RetryStep, MAX_ATTEMPTS, REQUEST_TIMEOUT_SECS};
use bitcoind_cache::store::{
    AnyStore, FileStore, HttpError, HttpStore, IoError, IoErrorKind, Medium, R2Error, R2Store,
    ReadRequest, Store, StoreError, WriteRequest,
};

fn io_error(kind: IoErrorKind) -> IoError {
    IoError { kind, message: String::from("the file system said no") }
}

fn http_error(message: &str) -> HttpError {
    HttpError { message: String::from(message) }
}

fn r2_error(attempt: u32) -> R2Error {
    R2Error { message: format!("attempt {} failed", attempt) }
}

fn file_store() -> FileStore {
    FileStore::new("/var/cache/chain", Ok(())).unwrap()
}

fn r2_store() -> R2Store {
    R2Store::new(
        String::from("key-id"),
        String::from("key-secret"),
        String::from("0123456789abcdef"),
        String::from("blocks"),
    )
}

/// Runs a retried request against a medium whose attempts fail until the
/// `succeeds_at`-th (counted from 1), if any. Gives the attempts made and
/// how the request ended.
fn retry_against(succeeds_at: Option<u32>) -> (u32, Result<u32, R2Error>) {
    let mut retry = Retry::start();
    let mut attempts = 0;
    loop {
        attempts += 1;
        assert!(attempts <= 1000);
        let outcome = if Some(attempts) == succeeds_at { Ok(attempts) } else { Err(r2_error(attempts)) };
        match retry.on_attempt(outcome) {
            RetryStep::Again(next) => retry = next,
            RetryStep::Done(result) => return (attempts, result),
        }
    }
}

#[test]
fn file_store_new_keeps_the_root() {
    assert_eq!(file_store().root_dir, "/var/cache/chain");
}

#[test]
fn file_store_new_hands_back_the_failure_to_make_the_root() {
    let failure = io_error(IoErrorKind::PermissionDenied);
    assert_eq!(FileStore::new("/var/cache/chain", Err(failure.clone())), Err(failure));
}

#[test]
fn file_store_joins_the_key_to_the_root() {
    let store = file_store();
    assert_eq!(
        store.get_object(String::from("best-block-hash")),
        ReadRequest { medium: Medium::File, location: String::from("/var/cache/chain/best-block-hash") }
    );
    assert_eq!(
        store.put_object(String::from("best-block-height"), b"12"),
        WriteRequest {
            medium: Medium::File,
            location: String::from("/var/cache/chain/best-block-height"),
            content: b"12".to_vec(),
        }
    );
}

#[test]
fn file_store_read_of_a_file_is_its_content() {
    assert_eq!(FileStore::read_result(Ok(vec![1, 2, 3])), Ok(Some(vec![1, 2, 3])));
    assert_eq!(FileStore::read_result(Ok(vec![])), Ok(Some(vec![])));
}

#[test]
fn file_store_read_of_a_missing_file_is_absent() {
    assert_eq!(FileStore::read_result(Err(io_error(IoErrorKind::NotFound))), Ok(None));
}

#[test]
fn file_store_read_surfaces_every_other_failure() {
    for kind in [
        IoErrorKind::PermissionDenied,
        IoErrorKind::AlreadyExists,
        IoErrorKind::InvalidInput,
        IoErrorKind::Interrupted,
        IoErrorKind::Other,
    ] {
        assert_eq!(
            FileStore::read_result(Err(io_error(kind))),
            Err(StoreError::Io(io_error(kind)))
        );
    }
}

#[test]
fn file_store_write_surfaces_every_failure() {
    assert_eq!(FileStore::write_result(Ok(())), Ok(()));
    for kind in [IoErrorKind::NotFound, IoErrorKind::PermissionDenied, IoErrorKind::Other] {
        assert_eq!(
            FileStore::write_result(Err(io_error(kind))),
            Err(StoreError::Io(io_error(kind)))
        );
    }
}

#[test]
fn http_store_joins_the_key_to_the_host() {
    let store = HttpStore::new(String::from("https://cache.example.org/chain"));
    assert_eq!(store.host, "https://cache.example.org/chain");
    assert_eq!(
        store.get_object(String::from("abcd.header")),
        ReadRequest {
            medium: Medium::Http,
            location: String::from("https://cache.example.org/chain/abcd.header"),
        }
    );
    assert_eq!(
        store.put_object(String::from("abcd.block"), &[9, 8, 7]),
        WriteRequest {
            medium: Medium::Http,
            location: String::from("https://cache.example.org/chain/abcd.block"),
            content: vec![9, 8, 7],
        }
    );
}

#[test]
fn http_read_asks_for_the_body_of_a_successful_response() {
    for status in [200u16, 201, 204, 206, 299] {
        assert_eq!(HttpStore::read_response(Ok(status)), HttpRead::ReadBody);
    }
}

#[test]
fn http_read_takes_any_other_status_for_absent() {
    for status in [0u16, 100, 199, 300, 301, 304, 400, 403, 404, 500, 503, 999, 65535] {
        assert_eq!(HttpStore::read_response(Ok(status)), HttpRead::Done(Ok(None)));
    }
}

#[test]
fn http_read_surfaces_a_failure_of_the_transport() {
    assert_eq!(
        HttpStore::read_response(Err(http_error("connection refused"))),
        HttpRead::Done(Err(StoreError::Reqwest(http_error("connection refused"))))
    );
    assert_eq!(
        HttpStore::read_result(Err(http_error("connection reset"))),
        Err(StoreError::Reqwest(http_error("connection reset")))
    );
}

#[test]
fn http_read_of_a_body_is_the_object() {
    assert_eq!(HttpStore::read_result(Ok(vec![4, 5])), Ok(Some(vec![4, 5])));
}

#[test]
fn http_write_is_delivered_whatever_the_status() {
    for status in [200u16, 204, 404, 500] {
        assert_eq!(HttpStore::write_result(Ok(status)), Ok(()));
    }
    assert_eq!(
        HttpStore::write_result(Err(http_error("timed out"))),
        Err(StoreError::Reqwest(http_error("timed out")))
    );
}

#[test]
fn r2_store_new_derives_the_endpoint_of_the_account() {
    let store = r2_store();
    assert_eq!(store.endpoint, "https://0123456789abcdef.r2.cloudflarestorage.com");
    assert_eq!(store.region, "auto");
    assert_eq!(store.bucket_name, "blocks");
    assert_eq!(store.access_key_id, "key-id");
    assert_eq!(store.secret_access_key, "key-secret");
    assert_eq!(store.request_timeout_secs, 10);
    assert_eq!(REQUEST_TIMEOUT_SECS, 10);
}

#[test]
fn r2_store_takes_the_key_for_the_path() {
    let store = r2_store();
    assert_eq!(
        store.get_object(String::from("best-block-hash")),
        ReadRequest { medium: Medium::Bucket, location: String::from("best-block-hash") }
    );
    assert_eq!(
        store.put_object(String::from("abcd.block"), &[1]),
        WriteRequest {
            medium: Medium::Bucket,
            location: String::from("abcd.block"),
            content: vec![1],
        }
    );
}

#[test]
fn retry_stops_at_the_first_success() {
    assert_eq!(retry_against(Some(1)), (1, Ok(1)));
    assert_eq!(retry_against(Some(2)), (2, Ok(2)));
    assert_eq!(retry_against(Some(17)), (17, Ok(17)));
}

#[test]
fn retry_succeeds_on_the_thirtieth_attempt() {
    assert_eq!(MAX_ATTEMPTS, 30);
    assert_eq!(retry_against(Some(30)), (30, Ok(30)));
}

#[test]
fn retry_gives_up_after_thirty_attempts_with_the_last_failure() {
    assert_eq!(retry_against(None), (30, Err(r2_error(30))));
    assert_eq!(retry_against(Some(31)), (30, Err(r2_error(30))));
}

#[test]
fn retry_makes_an_attempt_before_it_ends() {
    let step: RetryStep<()> = Retry::start().on_attempt(Err(r2_error(1)));
    assert!(matches!(step, RetryStep::Again(_)));
    let step = Retry::start().on_attempt(Ok(5));
    assert!(matches!(step, RetryStep::Done(Ok(5))));
}

#[test]
fn r2_read_that_ended_well_is_the_object() {
    assert_eq!(R2Store::read_result(Ok(vec![1, 2])), Ok(Some(vec![1, 2])));
    assert_eq!(R2Store::read_result(Ok(vec![])), Ok(Some(vec![])));
    assert_eq!(R2Store::read_result(Err(r2_error(30))), Err(StoreError::R2(r2_error(30))));
}

#[test]
fn r2_write_that_ended_is_judged() {
    assert_eq!(R2Store::write_result(Ok(())), Ok(()));
    assert_eq!(R2Store::write_result(Err(r2_error(30))), Err(StoreError::R2(r2_error(30))));
}

#[test]
fn any_store_plans_as_the_store_it_holds() {
    let key = || String::from("abcd.header");
    assert_eq!(AnyStore::File(file_store()).get_object(key()), file_store().get_object(key()));
    assert_eq!(
        AnyStore::File(file_store()).put_object(key(), &[1, 2]),
        file_store().put_object(key(), &[1, 2])
    );
    let http = || HttpStore::new(String::from("http://localhost:8080"));
    assert_eq!(AnyStore::HTTP(http()).get_object(key()), http().get_object(key()));
    assert_eq!(AnyStore::HTTP(http()).put_object(key(), &[3]), http().put_object(key(), &[3]));
    assert_eq!(AnyStore::R2(r2_store()).get_object(key()), r2_store().get_object(key()));
    assert_eq!(AnyStore::R2(r2_store()).put_object(key(), &[4]), r2_store().put_object(key(), &[4]));
}

#[test]
fn stores_keep_different_keys_apart() {
    let stores = [
        AnyStore::File(file_store()),
        AnyStore::HTTP(HttpStore::new(String::from("http://localhost"))),
        AnyStore::R2(r2_store()),
    ];
    for store in stores.iter() {
        let first = store.get_object(String::from("best-block-hash"));
        let second = store.get_object(String::from("best-block-height"));
        assert_ne!(first.location, second.location);
        assert_eq!(first.medium, second.medium);
    }
}
