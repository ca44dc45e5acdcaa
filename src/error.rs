use vstd::prelude::*;

verus! {

#[verifier::external_type_specification]
#[verifier::external_body]
pub struct ExRedisError(redis::RedisError);

#[verifier::external_type_specification]
#[verifier::external_body]
pub struct ExIoError(std::io::Error);

/// Whether a store error is a connection failure (its kind is `Io`) rather
/// than the server's or the data's. It depends on the error value alone.
pub uninterp spec fn io_error_of(e: redis::RedisError) -> bool;

/// Relies on `RedisError::is_io_error`: `self.kind() == ErrorKind::Io`,
/// computed from the error value alone.
pub assume_specification[ redis::RedisError::is_io_error ](e: &redis::RedisError) -> (r: bool)
    ensures
        r == io_error_of(*e),
;

/// Why a queue operation failed.
#[derive(Debug)]
pub enum QueueError {
    /// The store or the connection to it failed.
    RedisError(redis::RedisError),
    /// A payload could not be encoded or decoded.
    IOError(IOError),
}

/// An encoding or decoding failure, with the undecoded bytes where there
/// were some, so that the caller can still inspect the payload.
#[derive(Debug)]
pub struct IOError {
    pub data: Option<Vec<u8>>,
    pub inner: std::io::Error,
}

impl IOError {
    pub fn new(data: Option<Vec<u8>>, err: std::io::Error) -> (r: Self)
        ensures
            r.data == data,
            r.inner == err,
    {
        IOError { data: data, inner: err }
    }
}

impl QueueError {
    /// Whether this is a connectivity failure: one the connection layer
    /// recovers from by reconnecting, as opposed to a protocol or data error.
    pub fn is_connectivity(&self) -> (r: bool)
        ensures
            self is IOError ==> !r,
            *self matches QueueError::RedisError(e) ==> r == io_error_of(e),
    {
        match self {
            QueueError::RedisError(e) => e.is_io_error(),
            QueueError::IOError(_) => false,
        }
    }
}

impl From<std::io::Error> for QueueError {
    fn from(err: std::io::Error) -> (r: Self) {
        QueueError::IOError(IOError::new(None, err))
    }
}

impl vstd::std_specs::convert::FromSpecImpl<std::io::Error> for QueueError {
    open spec fn obeys_from_spec() -> bool {
        true
    }

    open spec fn from_spec(err: std::io::Error) -> QueueError {
        QueueError::IOError(IOError { data: None, inner: err })
    }
}

impl From<IOError> for QueueError {
    fn from(err: IOError) -> (r: Self) {
        QueueError::IOError(err)
    }
}

impl vstd::std_specs::convert::FromSpecImpl<IOError> for QueueError {
    open spec fn obeys_from_spec() -> bool {
        true
    }

    open spec fn from_spec(err: IOError) -> QueueError {
        QueueError::IOError(err)
    }
}

impl From<redis::RedisError> for QueueError {
    fn from(err: redis::RedisError) -> (r: Self) {
        QueueError::RedisError(err)
    }
}

impl vstd::std_specs::convert::FromSpecImpl<redis::RedisError> for QueueError {
    open spec fn obeys_from_spec() -> bool {
        true
    }

    open spec fn from_spec(err: redis::RedisError) -> QueueError {
        QueueError::RedisError(err)
    }
}

} // verus!
