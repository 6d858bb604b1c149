//! The messages of the key-value protocol that the transport carries.

use vstd::prelude::*;
use vstd::slice::slice_to_vec;

verus! {

/// The status of a response that carries a value.
pub const CODE_OK: u32 = 0;

/// The status of a response to a key that the store does not hold.
pub const CODE_NOT_FOUND: u32 = 404;

/// The answer to a request.
#[derive(Debug)]
pub struct Response {
    pub code: u32,
    pub key: String,
    pub value: Vec<u8>,
}

/// A request for the value of a key.
#[derive(Debug)]
pub struct RequestGet {
    pub key: String,
}

/// A request to store a value under a key.
#[derive(Debug)]
pub struct RequestPut {
    pub key: String,
    pub value: Vec<u8>,
}

/// The two commands of the protocol.
#[derive(Debug)]
pub enum Command {
    Get(RequestGet),
    Put(RequestPut),
}

/// A request: one command, or none where the sender set none.
#[derive(Debug)]
pub struct Request {
    pub command: Option<Command>,
}

impl Response {
    /// The response that carries `value` for `key`.
    pub fn new(key: String, value: Vec<u8>) -> (r: Response)
        ensures
            r.code == CODE_OK,
            r.key == key,
            r.value == value,
    {
        Response { code: CODE_OK, key, value }
    }

    /// The response to a key that the store does not hold.
    pub fn not_found(key: String) -> (r: Response)
        ensures
            r.code == CODE_NOT_FOUND,
            r.key == key,
            r.value@ == Seq::<u8>::empty(),
    {
        Response { code: CODE_NOT_FOUND, key, value: Vec::new() }
    }
}

impl Request {
    /// A request for the value of `key`.
    pub fn new_get(key: &str) -> (r: Request)
        ensures
            r.command matches Some(Command::Get(get)) && get.key@ == key@,
    {
        Request { command: Some(Command::Get(RequestGet { key: key.to_owned() })) }
    }

    /// A request to store `value` under `key`.
    pub fn new_put(key: &str, value: &[u8]) -> (r: Request)
        ensures
            r.command matches Some(Command::Put(put)) && put.key@ == key@ && put.value@ == value@,
    {
        Request {
            command: Some(
                Command::Put(RequestPut { key: key.to_owned(), value: slice_to_vec(value) }),
            ),
        }
    }
}

} // verus!
