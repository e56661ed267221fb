//! Handshake bodies: who is calling, what each side can do.

use vstd::prelude::*;

use crate::codec::{DecodeError, Reader, Writer};
use crate::messages::fields::{enum_byte, Dto};
use crate::protocol::Role;
use crate::wire::{
    concat_empty, decoded, extended, group_extends, group_stuck, group_written, le_u32, Body,
    Cursor, Tag,
};

verus! {

/// `HELLO` request: who is calling, and what it can do.
#[derive(Debug, Clone, PartialEq, Eq)]
pub struct HelloRequest {
    /// Which end of the wire speaks first.
    pub role: Role,
    /// Capability bits offered.
    pub capabilities: u32,
}

impl View for HelloRequest {
    type V = HelloRequest;

    open spec fn view(&self) -> HelloRequest {
        *self
    }
}

impl HelloRequest {
    /// The fields as bytes, in wire order.
    #[verifier::opaque]
    pub open spec fn layout(self) -> Seq<u8> {
        seq![self.role.tag()]
            + le_u32(self.capabilities)
    }

    /// The fields, read in wire order.
    #[verifier::opaque]
    pub open spec fn fields(c: Cursor) -> (HelloRequest, Cursor) {
        let (role, c) = c.tag::<Role>("role");
        let (capabilities, c) = c.u32();
        (HelloRequest { role, capabilities }, c)
    }
}

impl Body for HelloRequest {
    open spec fn body_fits(self) -> bool {
        true
    }

    open spec fn body(self) -> Seq<u8> {
        self.layout()
    }

    open spec fn parse(c: Cursor) -> (HelloRequest, Cursor) {
        HelloRequest::fields(c)
    }

    proof fn body_written(self, tail: Seq<u8>) {
        broadcast use group_written;

        reveal(HelloRequest::layout);
        reveal(HelloRequest::fields);
    }

    proof fn parse_extends(s: Seq<u8>, more: Seq<u8>) {
        broadcast use {group_extends, group_stuck};

        reveal(HelloRequest::fields);
        assert(Cursor::at(s + more) == extended(Cursor::at(s), more));
    }
}

impl HelloRequest {
    /// Serializes the body.
    pub fn encode(&self) -> (payload: Vec<u8>)
        ensures
            payload@ == self@.body(),
    {
        broadcast use concat_empty;

        proof {
            reveal(HelloRequest::layout);
        }
        let mut w = Writer::new();
        w.u8(self.role.as_u8());
        w.u32_le(self.capabilities);
        w.finish()
    }

    /// Parses the body. Trailing bytes are ignored (newer minor fields).
    pub fn decode(buf: &[u8]) -> (res: Result<Self, DecodeError>)
        ensures
            match res {
                Ok(v) => decoded::<HelloRequest>(buf@) == Ok::<HelloRequest, DecodeError>(v@),
                Err(e) => decoded::<HelloRequest>(buf@) == Err::<HelloRequest, DecodeError>(e),
            },
    {
        broadcast use group_stuck;

        proof {
            reveal(HelloRequest::fields);
        }
        let mut r = Reader::new(buf);
        let role = enum_byte::<Role>("role", &mut r)?;
        let capabilities: u32 = r.u32_le()?;
        Ok(HelloRequest { role, capabilities })
    }
}

impl Dto for HelloRequest {
    fn to_payload(&self) -> (payload: Vec<u8>) {
        self.encode()
    }

    fn of_payload(buf: &[u8]) -> (res: Result<Self, DecodeError>) {
        Self::decode(buf)
    }
}

/// `HELLO` response: the capability bits the responder brings. The behavior
/// enabled is the intersection; the requester refuses anything else.
#[derive(Debug, Clone, PartialEq, Eq)]
pub struct HelloResponse {
    /// Capability bits offered back.
    pub capabilities: u32,
}

impl View for HelloResponse {
    type V = HelloResponse;

    open spec fn view(&self) -> HelloResponse {
        *self
    }
}

impl HelloResponse {
    /// The fields as bytes, in wire order.
    #[verifier::opaque]
    pub open spec fn layout(self) -> Seq<u8> {
        le_u32(self.capabilities)
    }

    /// The fields, read in wire order.
    #[verifier::opaque]
    pub open spec fn fields(c: Cursor) -> (HelloResponse, Cursor) {
        let (capabilities, c) = c.u32();
        (HelloResponse { capabilities }, c)
    }
}

impl Body for HelloResponse {
    open spec fn body_fits(self) -> bool {
        true
    }

    open spec fn body(self) -> Seq<u8> {
        self.layout()
    }

    open spec fn parse(c: Cursor) -> (HelloResponse, Cursor) {
        HelloResponse::fields(c)
    }

    proof fn body_written(self, tail: Seq<u8>) {
        broadcast use group_written;

        reveal(HelloResponse::layout);
        reveal(HelloResponse::fields);
    }

    proof fn parse_extends(s: Seq<u8>, more: Seq<u8>) {
        broadcast use {group_extends, group_stuck};

        reveal(HelloResponse::fields);
        assert(Cursor::at(s + more) == extended(Cursor::at(s), more));
    }
}

impl HelloResponse {
    /// Serializes the body.
    pub fn encode(&self) -> (payload: Vec<u8>)
        ensures
            payload@ == self@.body(),
    {
        broadcast use concat_empty;

        proof {
            reveal(HelloResponse::layout);
        }
        let mut w = Writer::new();
        w.u32_le(self.capabilities);
        w.finish()
    }

    /// Parses the body. Trailing bytes are ignored (newer minor fields).
    pub fn decode(buf: &[u8]) -> (res: Result<Self, DecodeError>)
        ensures
            match res {
                Ok(v) => decoded::<HelloResponse>(buf@) == Ok::<HelloResponse, DecodeError>(v@),
                Err(e) => decoded::<HelloResponse>(buf@) == Err::<HelloResponse, DecodeError>(e),
            },
    {
        broadcast use group_stuck;

        proof {
            reveal(HelloResponse::fields);
        }
        let mut r = Reader::new(buf);
        let capabilities: u32 = r.u32_le()?;
        Ok(HelloResponse { capabilities })
    }
}

impl Dto for HelloResponse {
    fn to_payload(&self) -> (payload: Vec<u8>) {
        self.encode()
    }

    fn of_payload(buf: &[u8]) -> (res: Result<Self, DecodeError>) {
        Self::decode(buf)
    }
}

} // verus!
