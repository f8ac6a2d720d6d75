//! Per-connection shared state: the stream handle, the framed request, the
//! response under construction, the attribute store, and the sticky abort
//! and close flags the pipeline consults before each hook.

use crate::attrs::AttrMap;
use crate::attrs::AttrValue;
use crate::error::ResponseError;
use crate::response::Response;
use crate::response::ResponseData;
use crate::response::ResponseResult;
use crate::stream::ArcRwLockStream;
use crate::util::clone_bytes;
use vstd::prelude::*;

verus! {

/// A framed request: one delimited logical message, read off the stream once
/// per connection.
pub type Request = Vec<u8>;

/// The plain state of one connection.
pub struct InnerContext {
    /// The stream handle for network communication, if one is attached.
    pub stream: Option<ArcRwLockStream>,
    /// The framed request the connection received.
    pub request: Request,
    /// The response being built for the connection.
    pub response: Response,
    /// Attribute storage for passing data between handlers.
    pub data: AttrMap,
    /// Sticky flag: stop processing further hooks.
    pub aborted: bool,
    /// Sticky flag: the connection is closed.
    pub closed: bool,
}

impl InnerContext {
    /// All attribute-store keys are distinct.
    pub open spec fn wf(self) -> bool {
        self.data.wf()
    }

    /// A fresh context: no stream, empty request and response, no
    /// attributes, not aborted, not closed.
    pub fn new() -> (r: Self)
        ensures
            r.wf(),
            r.stream_spec() is None,
            r.request_spec() == Seq::<u8>::empty(),
            r.response_spec() == Seq::<u8>::empty(),
            r.data_spec() == Map::<Seq<char>, AttrValue>::empty(),
            !r.aborted_spec(),
            !r.closed_spec(),
    {
        InnerContext {
            stream: None,
            request: Vec::new(),
            response: Response::default(),
            data: AttrMap::new(),
            aborted: false,
            closed: false,
        }
    }

    /// The attached stream handle.
    pub open spec fn stream_spec(self) -> Option<ArcRwLockStream> {
        self.stream
    }

    /// The request bytes.
    pub open spec fn request_spec(self) -> Seq<u8> {
        self.request@
    }

    /// The response bytes.
    pub open spec fn response_spec(self) -> Seq<u8> {
        self.response@
    }

    /// The attribute map.
    pub open spec fn data_spec(self) -> Map<Seq<char>, AttrValue> {
        self.data@
    }

    /// Whether the context was aborted.
    pub open spec fn aborted_spec(self) -> bool {
        self.aborted
    }

    /// Whether the connection was closed.
    pub open spec fn closed_spec(self) -> bool {
        self.closed
    }
}

impl Default for InnerContext {
    /// A fresh context, as `new` builds it.
    fn default() -> (r: Self)
        ensures
            r.wf(),
            r.stream_spec() is None,
            r.request_spec() == Seq::<u8>::empty(),
            r.response_spec() == Seq::<u8>::empty(),
            r.data_spec() == Map::<Seq<char>, AttrValue>::empty(),
            !r.aborted_spec(),
            !r.closed_spec(),
    {
        Self::new()
    }
}

/// The per-connection context handed to every hook.  Transport code shares
/// it across the hook tasks of one connection; its operations keep the
/// attribute store well formed and respect the sticky termination flags.
pub struct Context(InnerContext);

impl Context {
    /// All attribute-store keys are distinct.
    pub open spec fn wf(self) -> bool {
        self.inner_spec().wf()
    }

    /// The wrapped state.
    pub closed spec fn inner_spec(self) -> InnerContext {
        self.0
    }

    /// Whether a stream handle is attached.
    pub open spec fn has_stream_spec(self) -> bool {
        self.inner_spec().stream_spec() is Some
    }

    /// The request bytes.
    pub open spec fn request_spec(self) -> Seq<u8> {
        self.inner_spec().request_spec()
    }

    /// The response bytes.
    pub open spec fn response_spec(self) -> Seq<u8> {
        self.inner_spec().response_spec()
    }

    /// The attribute map.
    pub open spec fn data_spec(self) -> Map<Seq<char>, AttrValue> {
        self.inner_spec().data_spec()
    }

    /// Whether the context was aborted.
    pub open spec fn aborted_spec(self) -> bool {
        self.inner_spec().aborted_spec()
    }

    /// Whether the connection was closed.
    pub open spec fn closed_spec(self) -> bool {
        self.inner_spec().closed_spec()
    }

    /// Whether the context is terminated: aborted or closed, stickily.
    pub open spec fn terminated_spec(self) -> bool {
        self.aborted_spec() || self.closed_spec()
    }

    /// Wraps connection state in a context.
    pub fn from_inner_context(ctx: InnerContext) -> (r: Self)
        ensures
            r.inner_spec() == ctx,
    {
        Context(ctx)
    }

    /// A fresh context with no stream attached.
    pub fn new() -> (r: Self)
        ensures
            r.wf(),
            !r.has_stream_spec(),
            r.request_spec() == Seq::<u8>::empty(),
            r.response_spec() == Seq::<u8>::empty(),
            r.data_spec() == Map::<Seq<char>, AttrValue>::empty(),
            !r.terminated_spec(),
    {
        Context(InnerContext::new())
    }

    /// The wrapped connection state.
    pub fn get(&self) -> (r: &InnerContext)
        ensures
            r == self.inner_spec(),
    {
        &self.0
    }

    /// The attached stream handle, if any.
    pub fn get_stream(&self) -> (r: &Option<ArcRwLockStream>)
        ensures
            r == self.inner_spec().stream_spec(),
    {
        &self.0.stream
    }

    /// Attaches (or detaches) the stream handle.
    pub fn set_stream(&mut self, stream: Option<ArcRwLockStream>)
        ensures
            final(self).inner_spec() == (InnerContext {
                stream,
                ..old(self).inner_spec()
            }),
    {
        self.0.stream = stream;
    }

    /// The framed request.
    pub fn get_request(&self) -> (r: &Request)
        ensures
            r@ == self.request_spec(),
    {
        &self.0.request
    }

    /// Replaces the framed request.
    pub fn set_request(&mut self, request: Request)
        ensures
            final(self).inner_spec() == (InnerContext {
                request,
                ..old(self).inner_spec()
            }),
    {
        self.0.request = request;
    }

    /// The response under construction.
    pub fn get_response(&self) -> (r: &Response)
        ensures
            r@ == self.response_spec(),
    {
        &self.0.response
    }

    /// Replaces the response.
    pub fn set_response(&mut self, response: Response)
        ensures
            final(self).inner_spec() == (InnerContext {
                response,
                ..old(self).inner_spec()
            }),
    {
        self.0.response = response;
    }

    /// Marks the context aborted: the pipeline runs no further hooks.  The
    /// flag is sticky until `cancel_abort`.
    pub fn abort(&mut self)
        ensures
            final(self).inner_spec() == (InnerContext {
                aborted: true,
                ..old(self).inner_spec()
            }),
    {
        self.0.aborted = true;
    }

    /// Clears the aborted flag.
    pub fn cancel_abort(&mut self)
        ensures
            final(self).inner_spec() == (InnerContext {
                aborted: false,
                ..old(self).inner_spec()
            }),
    {
        self.0.aborted = false;
    }

    /// Marks the connection closed.  The flag is sticky until `open`.
    pub fn close(&mut self)
        ensures
            final(self).inner_spec() == (InnerContext {
                closed: true,
                ..old(self).inner_spec()
            }),
    {
        self.0.closed = true;
    }

    /// Clears the closed flag.
    pub fn open(&mut self)
        ensures
            final(self).inner_spec() == (InnerContext {
                closed: false,
                ..old(self).inner_spec()
            }),
    {
        self.0.closed = false;
    }

    /// Whether the context is terminated: aborted or closed.  The pipeline
    /// consults this before invoking each hook.
    pub fn is_terminated(&self) -> (r: bool)
        ensures
            r == self.terminated_spec(),
    {
        self.0.aborted || self.0.closed
    }

    /// Accepts `data` as the response and hands back the bytes the transport
    /// layer must write to the socket.  Fails with `Terminated`, changing
    /// nothing and producing no bytes to write, if the context was aborted
    /// or closed; fails with `NotFoundStream`, changing nothing, if no
    /// stream is attached.
    pub fn send(&mut self, data: ResponseData) -> (r: Result<ResponseData, ResponseError>)
        ensures
            old(self).terminated_spec() ==> r == Err::<ResponseData, ResponseError>(
                ResponseError::Terminated,
            ) && *final(self) == *old(self),
            !old(self).terminated_spec() && !old(self).has_stream_spec() ==> r == Err::<
                ResponseData,
                ResponseError,
            >(ResponseError::NotFoundStream) && *final(self) == *old(self),
            !old(self).terminated_spec() && old(self).has_stream_spec() ==> r is Ok
                && r.unwrap()@ == data@
                && final(self).response_spec() == data@
                && final(self).inner_spec().stream_spec() == old(self).inner_spec().stream_spec()
                && final(self).request_spec() == old(self).request_spec()
                && final(self).data_spec() == old(self).data_spec()
                && final(self).aborted_spec() == old(self).aborted_spec()
                && final(self).closed_spec() == old(self).closed_spec()
                && final(self).wf() == old(self).wf(),
    {
        if self.is_terminated() {
            return Err(ResponseError::Terminated);
        }
        if self.0.stream.is_none() {
            return Err(ResponseError::NotFoundStream);
        }
        let out: ResponseData = clone_bytes(&data);
        self.0.response.set_response_data(data);
        Ok(out)
    }

    /// Whether a flush of the stream may proceed: succeeds exactly when a
    /// stream is attached, else fails with `NotFoundStream`.  The transport
    /// layer performs the actual flush on success.
    pub fn flush(&self) -> (r: ResponseResult)
        ensures
            self.has_stream_spec() <==> r is Ok,
            !self.has_stream_spec() ==> r == Err::<(), ResponseError>(
                ResponseError::NotFoundStream,
            ),
    {
        if self.0.stream.is_some() {
            Ok(())
        } else {
            Err(ResponseError::NotFoundStream)
        }
    }

    /// Stores an attribute value under `key`, replacing any previous value.
    pub fn set_data_value(&mut self, key: &String, value: AttrValue)
        requires
            old(self).wf(),
        ensures
            final(self).wf(),
            final(self).data_spec() == old(self).data_spec().insert(key@, value),
            final(self).has_stream_spec() == old(self).has_stream_spec(),
            final(self).request_spec() == old(self).request_spec(),
            final(self).response_spec() == old(self).response_spec(),
            final(self).aborted_spec() == old(self).aborted_spec(),
            final(self).closed_spec() == old(self).closed_spec(),
    {
        self.0.data.insert(key, value);
    }

    /// The attribute value stored under `key`, or nothing if the key is
    /// absent.
    pub fn get_data_value(&self, key: &String) -> (r: Option<&AttrValue>)
        requires
            self.wf(),
        ensures
            match r {
                Some(v) => self.data_spec().contains_key(key@) && *v == self.data_spec()[key@],
                None => !self.data_spec().contains_key(key@),
            },
    {
        self.0.data.get(key)
    }

    /// The byte sequence stored under `key`, or nothing if the key is
    /// absent or holds a value of another shape: a failed cast is a normal
    /// "not found" outcome, not an error.
    pub fn get_bytes_value(&self, key: &String) -> (r: Option<&Vec<u8>>)
        requires
            self.wf(),
        ensures
            match r {
                Some(v) => self.data_spec().contains_key(key@) && self.data_spec()[key@]
                    == AttrValue::Bytes(*v),
                None => !self.data_spec().contains_key(key@) || !(self.data_spec()[key@]
                    is Bytes),
            },
    {
        match self.0.data.get(key) {
            Some(AttrValue::Bytes(v)) => Some(v),
            _ => None,
        }
    }

    /// Removes the attribute stored under `key`, if any.
    pub fn remove_data_value(&mut self, key: &String)
        requires
            old(self).wf(),
        ensures
            final(self).wf(),
            final(self).data_spec() == old(self).data_spec().remove(key@),
            final(self).has_stream_spec() == old(self).has_stream_spec(),
            final(self).request_spec() == old(self).request_spec(),
            final(self).response_spec() == old(self).response_spec(),
            final(self).aborted_spec() == old(self).aborted_spec(),
            final(self).closed_spec() == old(self).closed_spec(),
    {
        self.0.data.remove(key);
    }

    /// Removes every attribute.
    pub fn clear_data(&mut self)
        ensures
            final(self).wf(),
            final(self).data_spec() == Map::<Seq<char>, AttrValue>::empty(),
            final(self).has_stream_spec() == old(self).has_stream_spec(),
            final(self).request_spec() == old(self).request_spec(),
            final(self).response_spec() == old(self).response_spec(),
            final(self).aborted_spec() == old(self).aborted_spec(),
            final(self).closed_spec() == old(self).closed_spec(),
    {
        self.0.data.clear();
    }
}

} // verus!
