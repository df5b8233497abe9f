//! Front-door response envelopes.
//!
//! Every HTTP response the front door sends carries either a payload
//! or an error message, never both.

use vstd::prelude::*;

verus! {

/// A response envelope: a payload on success, a message on error.
pub struct ServerMsg<T> {
    pub data: Option<T>,
    pub error: Option<String>,
}

impl<T> ServerMsg<T> {
    /// A success envelope carrying `data` and no error.
    pub fn data(data: T) -> (msg: ServerMsg<T>)
        ensures
            msg.data == Some(data),
            msg.error is None,
    {
        ServerMsg { data: Some(data), error: None }
    }

    /// An error envelope carrying the message and no payload.
    pub fn error(error: &str) -> (msg: ServerMsg<T>)
        ensures
            msg.data is None,
            (msg.error matches Some(e) && e@ == error@),
    {
        ServerMsg { data: None, error: Some(String::from_str(error)) }
    }
}

} // verus!
