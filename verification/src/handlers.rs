//! The request handlers: what each request makes of the store and what is
//! sent back.
//!
//! A handler receives what the transport has already taken apart and returns
//! a [`Response`] for the transport to encode. For a request with an
//! identifier in its path that is the identifier. For a request with a body
//! it is what became of the body: the failure that ended its reception
//! through a [`crate::body::BodyBuffer`], or else the record it decoded into,
//! `None` where it did not decode.

use vstd::prelude::*;
use crate::catalog::{deleted, has_id, inserted, lookup, next_id, replaced};
use crate::error::ServiceError;
use crate::product::Product;
use crate::store::{views, Store, MAX_RECORDS};

verus! {

/// The status of every answer that is not a failure.
pub const STATUS_OK: u16 = 200;

/// The version reported when none is configured.
pub open spec fn default_version() -> Seq<char> {
    "0.1.0"@
}

/// The status word of a health report.
pub open spec fn healthy() -> Seq<char> {
    "ok"@
}

/// The liveness report.
#[derive(Debug, PartialEq, Eq)]
pub struct Health {
    pub status: String,
    pub version: String,
}

/// What a handler sends back.
#[derive(Debug, PartialEq, Eq)]
pub enum Response {
    /// The liveness report.
    Health(Health),
    /// One record.
    Record(Product),
    /// Every record, in insertion order.
    Records(Vec<Product>),
    /// Success with an empty body.
    Empty,
    /// A failure, reported under its status.
    Failure(ServiceError),
}

impl Response {
    /// The HTTP status of the response.
    pub open spec fn spec_status_code(&self) -> u16 {
        match self {
            Response::Failure(e) => e.spec_status_code(),
            _ => STATUS_OK,
        }
    }

    /// The HTTP status of the response: 200 unless it is a failure.
    #[verifier::when_used_as_spec(spec_status_code)]
    pub fn status_code(&self) -> (code: u16)
        ensures
            code == self.spec_status_code(),
            code == STATUS_OK <==> !(self is Failure),
    {
        match self {
            Response::Failure(e) => e.status_code(),
            _ => STATUS_OK,
        }
    }
}

/// The version to report: the configured one, or the default when none is
/// configured. Resolved once, when the service starts.
pub fn resolve_version(configured: Option<String>) -> (version: String)
    ensures
        version@ == match configured {
            Some(v) => v@,
            None => default_version(),
        },
{
    match configured {
        Some(v) => v,
        None => "0.1.0".to_owned(),
    }
}

/// Answers a liveness probe with the fixed status and the resolved version.
pub fn health(version: &str) -> (response: Response)
    ensures
        response matches Response::Health(report) && report.status@ == healthy()
            && report.version@ == version@,
{
    Response::Health(Health { status: "ok".to_owned(), version: version.to_owned() })
}

/// Answers with every record, in insertion order.
pub fn get_products(store: &Store) -> (response: Response)
    ensures
        response matches Response::Records(records) && views(records@) == store@,
{
    Response::Records(store.list())
}

/// Answers with the record that carries `product_id`, or with `NotFound`.
pub fn get_product(store: &Store, product_id: i32) -> (response: Response)
    ensures
        match lookup(store@, product_id as int) {
            Some(record) => response matches Response::Record(found) && found@ == record,
            None => response == Response::Failure(ServiceError::NotFound),
        },
{
    match store.get(product_id) {
        Ok(found) => Response::Record(found),
        Err(e) => Response::Failure(e),
    }
}

/// Creates a record from a request body and answers with the record as
/// stored, identifier assigned. A body whose reception failed is answered
/// with that failure, one that did not decode with `MalformedPayload`; both
/// leave the store as it was.
pub fn add_product(
    store: &mut Store,
    received: Result<Option<Product>, ServiceError>,
) -> (response: Response)
    requires
        received matches Ok(Some(_)) ==> old(store)@.len() < MAX_RECORDS,
    ensures
        match received {
            Ok(Some(candidate)) => {
                &&& final(store)@ == inserted(old(store)@, candidate@)
                &&& response matches Response::Record(stored)
                &&& stored@ == candidate@.with_id(next_id(old(store)@))
            },
            Ok(None) => {
                &&& final(store)@ == old(store)@
                &&& response == Response::Failure(ServiceError::MalformedPayload)
            },
            Err(e) => {
                &&& final(store)@ == old(store)@
                &&& response == Response::Failure(e)
            },
        },
{
    match received {
        Ok(Some(candidate)) => Response::Record(store.insert(candidate)),
        Ok(None) => Response::Failure(ServiceError::MalformedPayload),
        Err(e) => Response::Failure(e),
    }
}

/// Replaces the record that carries the identifier found in a request body
/// and answers with the new value. A body whose reception failed is answered
/// with that failure, one that did not decode with `MalformedPayload`, an
/// identifier that is not held with `NotFound`; all three leave the store as
/// it was.
pub fn update_product(
    store: &mut Store,
    received: Result<Option<Product>, ServiceError>,
) -> (response: Response)
    ensures
        match received {
            Ok(Some(candidate)) => {
                &&& final(store)@ == replaced(old(store)@, candidate@)
                &&& if has_id(old(store)@, candidate@.id) {
                    response matches Response::Record(stored) && stored@ == candidate@
                } else {
                    response == Response::Failure(ServiceError::NotFound)
                }
            },
            Ok(None) => {
                &&& final(store)@ == old(store)@
                &&& response == Response::Failure(ServiceError::MalformedPayload)
            },
            Err(e) => {
                &&& final(store)@ == old(store)@
                &&& response == Response::Failure(e)
            },
        },
{
    match received {
        Ok(Some(candidate)) => match store.replace(candidate) {
            Ok(stored) => Response::Record(stored),
            Err(e) => Response::Failure(e),
        },
        Ok(None) => Response::Failure(ServiceError::MalformedPayload),
        Err(e) => Response::Failure(e),
    }
}

/// Deletes the record that carries `product_id` and answers with an empty
/// body, or with `NotFound` where no record carries it.
pub fn delete_product(store: &mut Store, product_id: i32) -> (response: Response)
    ensures
        final(store)@ == deleted(old(store)@, product_id as int),
        if has_id(old(store)@, product_id as int) {
            response == Response::Empty
        } else {
            response == Response::Failure(ServiceError::NotFound)
        },
{
    match store.delete(product_id) {
        Ok(_) => Response::Empty,
        Err(e) => Response::Failure(e),
    }
}

} // verus!
