//! The body of a failed response.

use vstd::prelude::*;

use crate::codec::{DecodeError, Reader, Writer};
use crate::messages::fields::{enum_byte, opt_owned, opt_str, opt_view, Dto};
use crate::protocol::AbiErrorCode;
use crate::wire::{
    concat_empty, decoded, extended, group_extends, group_stuck, group_written, opt_text,
    opt_text_fits, Body, Cursor, Tag,
};

verus! {

/// An `ERROR`-flagged response body: one code plus an optional short detail.
/// The detail names what failed; it never stacks a second message.
#[derive(Debug, Clone, PartialEq, Eq)]
pub struct ErrorBody {
    /// What failed.
    pub code: AbiErrorCode,
    /// Short detail, if any.
    pub detail: Option<String>,
}

/// The values that a [`ErrorBody`] carries.
#[verifier::ext_equal]
pub struct ErrorBodyView {
    pub code: AbiErrorCode,
    pub detail: Option<Seq<char>>,
}

impl View for ErrorBody {
    type V = ErrorBodyView;

    open spec fn view(&self) -> ErrorBodyView {
        ErrorBodyView {
            code: self.code,
            detail: opt_view(self.detail),
        }
    }
}

impl ErrorBodyView {
    /// The fields as bytes, in wire order.
    #[verifier::opaque]
    pub open spec fn layout(self) -> Seq<u8> {
        seq![self.code.tag()]
            + opt_text(self.detail)
    }

    /// The fields, read in wire order.
    #[verifier::opaque]
    pub open spec fn fields(c: Cursor) -> (ErrorBodyView, Cursor) {
        let (code, c) = c.tag::<AbiErrorCode>("code");
        let (detail, c) = c.opt_text();
        (ErrorBodyView { code, detail }, c)
    }
}

impl Body for ErrorBodyView {
    open spec fn body_fits(self) -> bool {
        opt_text_fits(self.detail)
    }

    open spec fn body(self) -> Seq<u8> {
        self.layout()
    }

    open spec fn parse(c: Cursor) -> (ErrorBodyView, Cursor) {
        ErrorBodyView::fields(c)
    }

    proof fn body_written(self, tail: Seq<u8>) {
        broadcast use group_written;

        reveal(ErrorBodyView::layout);
        reveal(ErrorBodyView::fields);
    }

    proof fn parse_extends(s: Seq<u8>, more: Seq<u8>) {
        broadcast use {group_extends, group_stuck};

        reveal(ErrorBodyView::fields);
        assert(Cursor::at(s + more) == extended(Cursor::at(s), more));
    }
}

impl ErrorBody {
    /// Serializes the body.
    pub fn encode(&self) -> (payload: Vec<u8>)
        ensures
            payload@ == self@.body(),
    {
        broadcast use concat_empty;

        proof {
            reveal(ErrorBodyView::layout);
        }
        let mut w = Writer::new();
        w.u8(self.code.as_u8());
        w.option_str(opt_str(&self.detail));
        w.finish()
    }

    /// Parses the body. Trailing bytes are ignored (newer minor fields).
    pub fn decode(buf: &[u8]) -> (res: Result<Self, DecodeError>)
        ensures
            match res {
                Ok(v) => decoded::<ErrorBodyView>(buf@) == Ok::<ErrorBodyView, DecodeError>(v@),
                Err(e) => decoded::<ErrorBodyView>(buf@) == Err::<ErrorBodyView, DecodeError>(e),
            },
    {
        broadcast use group_stuck;

        proof {
            reveal(ErrorBodyView::fields);
        }
        let mut r = Reader::new(buf);
        let code = enum_byte::<AbiErrorCode>("code", &mut r)?;
        let detail = opt_owned(r.option_str()?);
        Ok(ErrorBody { code, detail })
    }
}

impl Dto for ErrorBody {
    fn to_payload(&self) -> (payload: Vec<u8>) {
        self.encode()
    }

    fn of_payload(buf: &[u8]) -> (res: Result<Self, DecodeError>) {
        Self::decode(buf)
    }
}

} // verus!
