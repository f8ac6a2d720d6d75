//! The response buffer: a mutable byte sequence accumulated by handlers and
//! sent verbatim over the connection's stream.

use crate::error::ResponseError;
use vstd::prelude::*;

verus! {

/// Binary data of a response.
pub type ResponseData = Vec<u8>;

/// Result type for response operations.
pub type ResponseResult = Result<(), ResponseError>;

/// A response under construction: the bytes to be sent to the client.
#[derive(Clone, Debug)]
pub struct Response(ResponseData);

impl View for Response {
    type V = Seq<u8>;

    closed spec fn view(&self) -> Seq<u8> {
        self.0@
    }
}

impl Default for Response {
    /// An empty response.
    fn default() -> (r: Self)
        ensures
            r@ == Seq::<u8>::empty(),
    {
        Response(Vec::new())
    }
}

impl Response {
    /// A response holding the given data.
    pub fn from(data: ResponseData) -> (r: Self)
        ensures
            r@ == data@,
    {
        Response(data)
    }

    /// The current response data.
    pub fn get_response_data(&self) -> (r: &ResponseData)
        ensures
            r@ == self@,
    {
        &self.0
    }

    /// Replaces the response data.
    pub fn set_response_data(&mut self, data: ResponseData)
        ensures
            final(self)@ == data@,
    {
        self.0 = data;
    }
}

} // verus!
