use vstd::prelude::*;
use crate::store::{Store, StoreError};

verus! {

/// A key and its value, as a request carries it in or a reply carries it out.
pub struct KeyValue {
    pub key: String,
    pub value: String,
}

/// A decoded `POST` body before validation: either field may be missing.
pub struct PostBody {
    pub key: Option<String>,
    pub value: Option<String>,
}

/// What a request can end in, other than success.
#[derive(PartialEq, Eq, Structural, Clone, Copy, Debug)]
pub enum RequestError {
    /// The key that was asked for holds no value.
    NotFound,
    /// The request body lacks a required field.
    MalformedInput,
    /// The store's lock is poisoned.
    StoreUnavailable,
}

/// The status of a request that succeeded.
pub const STATUS_OK: u16 = 200;

/// The acknowledgement that a write sends back.
pub open spec fn success_text() -> Seq<char> {
    seq!['S', 'u', 'c', 'c', 'e', 's', 's']
}

/// Turns a decoded body into a record: both fields must be present.
pub fn validate_post(body: PostBody) -> (r: Result<KeyValue, RequestError>)
    ensures
        match (body.key, body.value) {
            (Some(k), Some(v)) => r matches Ok(kv) && kv.key@ == k@ && kv.value@ == v@,
            _ => r == Err::<KeyValue, RequestError>(RequestError::MalformedInput),
        },
{
    match body.key {
        Some(key) => match body.value {
            Some(value) => Ok(KeyValue { key, value }),
            None => Err(RequestError::MalformedInput),
        },
        None => Err(RequestError::MalformedInput),
    }
}

/// The reply to a read of `key`, given what the store returned for it.
pub fn get_reply(key: String, found: Result<Option<String>, StoreError>) -> (r: Result<
    KeyValue,
    RequestError,
>)
    ensures
        match found {
            Ok(Some(v)) => r matches Ok(kv) && kv.key@ == key@ && kv.value@ == v@,
            Ok(None) => r == Err::<KeyValue, RequestError>(RequestError::NotFound),
            Err(_) => r == Err::<KeyValue, RequestError>(RequestError::StoreUnavailable),
        },
{
    match found {
        Ok(Some(value)) => Ok(KeyValue { key, value }),
        Ok(None) => Err(RequestError::NotFound),
        Err(StoreError::StoreUnavailable) => Err(RequestError::StoreUnavailable),
    }
}

/// The reply to a write, given what the store returned for it.
pub fn post_reply(done: Result<(), StoreError>) -> (r: Result<String, RequestError>)
    ensures
        match done {
            Ok(_) => r matches Ok(s) && s@ == success_text(),
            Err(_) => r == Err::<String, RequestError>(RequestError::StoreUnavailable),
        },
{
    match done {
        Ok(()) => {
            let s = String::from_str("Success");
            proof {
                reveal_strlit("Success");
            }
            assert(s@ =~= success_text());
            Ok(s)
        },
        Err(StoreError::StoreUnavailable) => Err(RequestError::StoreUnavailable),
    }
}

/// Serves a read of `key`: the record for it where the store holds a value,
/// `NotFound` where it holds none.
pub fn handle_get(key: String, store: &Store) -> (r: Result<KeyValue, RequestError>)
    ensures
        r matches Ok(kv) ==> kv.key@ == key@,
        r matches Err(e) ==> e != RequestError::MalformedInput,
{
    let found = store.get(key.as_str());
    get_reply(key, found)
}

/// Serves a write of a validated record: inserts or overwrites its key.
pub fn handle_post(new_key_value: KeyValue, store: &Store) -> (r: Result<String, RequestError>)
    ensures
        r matches Ok(s) ==> s@ == success_text(),
        r matches Err(e) ==> e == RequestError::StoreUnavailable,
{
    let done = store.set(new_key_value.key, new_key_value.value);
    post_reply(done)
}

/// The HTTP status of a failed request.
pub fn status_of(e: RequestError) -> (r: u16)
    ensures
        e == RequestError::NotFound ==> r == 404,
        e == RequestError::MalformedInput ==> r == 400,
        e == RequestError::StoreUnavailable ==> r == 503,
{
    match e {
        RequestError::NotFound => 404,
        RequestError::MalformedInput => 400,
        RequestError::StoreUnavailable => 503,
    }
}

} // verus!
