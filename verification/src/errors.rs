//! The one shape that every error takes when it crosses to the host.
//!
//! A core error is a chain: each link renders a text, and some links are
//! leaves whose fields are what the host can act on. [`BridgeError`] is built
//! by walking that chain to the first such leaf; then by what the core says of
//! the chain as a whole; then by the first storage wrapper on the way; and
//! only then by the chain's text.

use vstd::prelude::*;

use crate::messages::fields::{opt_view, views};
use crate::text::{decimal, push_decimal};

verus! {

/// Public error shape that crosses to the host. Variants are flat, so that the
/// host object's shape stays predictable.
#[allow(inconsistent_fields)]
#[derive(Debug, Clone, PartialEq, Eq)]
pub enum BridgeError {
    /// The server answered a request with a structured error stanza.
    Server {
        /// The server's code.
        server_code: u16,
        /// The server's text.
        server_text: String,
    },
    /// The request did not get a response within the timeout window.
    Timeout,
    /// No active socket, or not authenticated.
    NotConnected,
    /// The server ended the stream mid-flight.
    Disconnected {
        /// The raw reason.
        reason: String,
    },
    /// The caller passed something that can be rejected statically.
    InvalidArgument {
        /// Which input was rejected.
        field: String,
        /// Why.
        reason: String,
    },
    /// The remote peer sent something that violates the protocol.
    ProtocolViolation {
        /// What.
        reason: String,
    },
    /// A cryptographic operation failed.
    Crypto {
        /// Which step.
        operation: String,
    },
    /// The persistence layer failed.
    Storage {
        /// What it said.
        operation: String,
    },
    /// A message had no device to go to.
    NoRecipientDevice {
        /// Why none was found.
        reason: String,
    },
    /// Everything that is not mapped; the full text is kept.
    Internal {
        /// The rendered chain.
        message: String,
    },
}

/// The values that a [`BridgeError`] carries.
#[allow(inconsistent_fields)]
#[verifier::ext_equal]
pub enum BridgeErrorView {
    Server { server_code: u16, server_text: Seq<char> },
    Timeout,
    NotConnected,
    Disconnected { reason: Seq<char> },
    InvalidArgument { field: Seq<char>, reason: Seq<char> },
    ProtocolViolation { reason: Seq<char> },
    Crypto { operation: Seq<char> },
    Storage { operation: Seq<char> },
    NoRecipientDevice { reason: Seq<char> },
    Internal { message: Seq<char> },
}

impl View for BridgeError {
    type V = BridgeErrorView;

    open spec fn view(&self) -> BridgeErrorView {
        match *self {
            BridgeError::Server { server_code, server_text } => BridgeErrorView::Server { server_code, server_text: server_text@ },
            BridgeError::Timeout => BridgeErrorView::Timeout,
            BridgeError::NotConnected => BridgeErrorView::NotConnected,
            BridgeError::Disconnected { reason } => BridgeErrorView::Disconnected { reason: reason@ },
            BridgeError::InvalidArgument { field, reason } => BridgeErrorView::InvalidArgument { field: field@, reason: reason@ },
            BridgeError::ProtocolViolation { reason } => BridgeErrorView::ProtocolViolation { reason: reason@ },
            BridgeError::Crypto { operation } => BridgeErrorView::Crypto { operation: operation@ },
            BridgeError::Storage { operation } => BridgeErrorView::Storage { operation: operation@ },
            BridgeError::NoRecipientDevice { reason } => BridgeErrorView::NoRecipientDevice { reason: reason@ },
            BridgeError::Internal { message } => BridgeErrorView::Internal { message: message@ },
        }
    }
}

/// What a request failed with.
#[derive(Debug, Clone, PartialEq, Eq)]
pub enum IqLeaf {
    /// The server rejected it.
    ServerError {
        /// The server's code.
        code: u16,
        /// The server's text.
        text: String,
    },
    /// No answer in time.
    Timeout,
    /// No socket.
    NotConnected,
    /// The stream ended; the node, rendered.
    Disconnected(String),
    /// The answer is of another type.
    UnexpectedResponseType {
        /// The type it had, if any.
        got: Option<String>,
    },
    /// The request pipeline is gone.
    InternalChannelClosed,
    /// It only wraps something below it, or is of a kind not known here.
    Wrapper,
}

/// The values that a [`IqLeaf`] carries.
#[verifier::ext_equal]
pub enum IqLeafView {
    ServerError { code: u16, text: Seq<char> },
    Timeout,
    NotConnected,
    Disconnected(Seq<char>),
    UnexpectedResponseType { got: Option<Seq<char>> },
    InternalChannelClosed,
    Wrapper,
}

impl View for IqLeaf {
    type V = IqLeafView;

    open spec fn view(&self) -> IqLeafView {
        match *self {
            IqLeaf::ServerError { code, text } => IqLeafView::ServerError { code, text: text@ },
            IqLeaf::Timeout => IqLeafView::Timeout,
            IqLeaf::NotConnected => IqLeafView::NotConnected,
            IqLeaf::Disconnected(x) => IqLeafView::Disconnected(x@),
            IqLeaf::UnexpectedResponseType { got } => IqLeafView::UnexpectedResponseType { got: opt_view(got) },
            IqLeaf::InternalChannelClosed => IqLeafView::InternalChannelClosed,
            IqLeaf::Wrapper => IqLeafView::Wrapper,
        }
    }
}

/// What pairing by code failed with.
#[derive(Debug, Clone, Copy, PartialEq, Eq)]
pub enum PairCodeLeaf {
    /// No phone number.
    PhoneNumberRequired,
    /// Too few digits.
    PhoneNumberTooShort,
    /// It starts with 0.
    PhoneNumberNotInternational,
    /// The custom code is not one.
    InvalidCustomCode,
    /// The wrapped data has another length.
    InvalidWrappedData {
        /// Bytes expected.
        expected: usize,
        /// Bytes received.
        got: usize,
    },
    /// A key does not parse.
    InvalidPrimaryEphemeralKey,
    /// A key does not parse.
    InvalidPrimaryIdentityKey,
    /// No agreement.
    EphemeralKeyAgreement,
    /// No agreement.
    IdentityKeyAgreement,
    /// No derivation.
    AdvSecretKeyDerivation,
    /// No derivation.
    BundleKeyDerivation,
    /// No encryption.
    BundleAead,
    /// Nobody waits for the notification.
    NotWaiting,
    /// The response has no pairing ref.
    MissingPairingRef,
    /// A kind not known here.
    Unlisted,
}

/// The values that a [`PairCodeLeaf`] carries.
#[verifier::ext_equal]
pub enum PairCodeLeafView {
    PhoneNumberRequired,
    PhoneNumberTooShort,
    PhoneNumberNotInternational,
    InvalidCustomCode,
    InvalidWrappedData { expected: usize, got: usize },
    InvalidPrimaryEphemeralKey,
    InvalidPrimaryIdentityKey,
    EphemeralKeyAgreement,
    IdentityKeyAgreement,
    AdvSecretKeyDerivation,
    BundleKeyDerivation,
    BundleAead,
    NotWaiting,
    MissingPairingRef,
    Unlisted,
}

impl View for PairCodeLeaf {
    type V = PairCodeLeafView;

    open spec fn view(&self) -> PairCodeLeafView {
        match *self {
            PairCodeLeaf::PhoneNumberRequired => PairCodeLeafView::PhoneNumberRequired,
            PairCodeLeaf::PhoneNumberTooShort => PairCodeLeafView::PhoneNumberTooShort,
            PairCodeLeaf::PhoneNumberNotInternational => PairCodeLeafView::PhoneNumberNotInternational,
            PairCodeLeaf::InvalidCustomCode => PairCodeLeafView::InvalidCustomCode,
            PairCodeLeaf::InvalidWrappedData { expected, got } => PairCodeLeafView::InvalidWrappedData { expected, got },
            PairCodeLeaf::InvalidPrimaryEphemeralKey => PairCodeLeafView::InvalidPrimaryEphemeralKey,
            PairCodeLeaf::InvalidPrimaryIdentityKey => PairCodeLeafView::InvalidPrimaryIdentityKey,
            PairCodeLeaf::EphemeralKeyAgreement => PairCodeLeafView::EphemeralKeyAgreement,
            PairCodeLeaf::IdentityKeyAgreement => PairCodeLeafView::IdentityKeyAgreement,
            PairCodeLeaf::AdvSecretKeyDerivation => PairCodeLeafView::AdvSecretKeyDerivation,
            PairCodeLeaf::BundleKeyDerivation => PairCodeLeafView::BundleKeyDerivation,
            PairCodeLeaf::BundleAead => PairCodeLeafView::BundleAead,
            PairCodeLeaf::NotWaiting => PairCodeLeafView::NotWaiting,
            PairCodeLeaf::MissingPairingRef => PairCodeLeafView::MissingPairingRef,
            PairCodeLeaf::Unlisted => PairCodeLeafView::Unlisted,
        }
    }
}

/// What the socket failed with.
#[derive(Debug, Clone, Copy, PartialEq, Eq)]
pub enum SocketLeaf {
    /// It is closed.
    SocketClosed,
    /// The noise cipher failed.
    Cipher,
    /// Something else.
    Unlisted,
}

/// The values that a [`SocketLeaf`] carries.
#[verifier::ext_equal]
pub enum SocketLeafView {
    SocketClosed,
    Cipher,
    Unlisted,
}

impl View for SocketLeaf {
    type V = SocketLeafView;

    open spec fn view(&self) -> SocketLeafView {
        match *self {
            SocketLeaf::SocketClosed => SocketLeafView::SocketClosed,
            SocketLeaf::Cipher => SocketLeafView::Cipher,
            SocketLeaf::Unlisted => SocketLeafView::Unlisted,
        }
    }
}

/// What the handshake failed with.
#[derive(Debug, Clone, PartialEq, Eq)]
pub enum HandshakeLeaf {
    /// The peer is gone.
    Disconnected,
    /// The stream ended.
    StreamClosed,
    /// Something else arrived.
    UnexpectedEvent(String),
    /// Something else.
    Unlisted,
}

/// The values that a [`HandshakeLeaf`] carries.
#[verifier::ext_equal]
pub enum HandshakeLeafView {
    Disconnected,
    StreamClosed,
    UnexpectedEvent(Seq<char>),
    Unlisted,
}

impl View for HandshakeLeaf {
    type V = HandshakeLeafView;

    open spec fn view(&self) -> HandshakeLeafView {
        match *self {
            HandshakeLeaf::Disconnected => HandshakeLeafView::Disconnected,
            HandshakeLeaf::StreamClosed => HandshakeLeafView::StreamClosed,
            HandshakeLeaf::UnexpectedEvent(x) => HandshakeLeafView::UnexpectedEvent(x@),
            HandshakeLeaf::Unlisted => HandshakeLeafView::Unlisted,
        }
    }
}

/// What a link of the chain is recognised as.
#[allow(inconsistent_fields)]
#[derive(Debug, Clone, PartialEq, Eq)]
pub enum Leaf {
    /// A request error.
    Iq(IqLeaf),
    /// A server rejection carried across a boundary.
    ServerCode {
        /// The server's code.
        code: u16,
        /// The server's text.
        text: String,
    },
    /// A pair-code error.
    PairCode(PairCodeLeaf),
    /// A host storage callback failed.
    Callback {
        /// Which callback.
        context: String,
        /// What it said.
        message: String,
    },
    /// A stored record did not serialize.
    Json {
        /// Which way.
        op: String,
        /// Which store.
        store: String,
        /// Which key.
        key: String,
    },
    /// A socket error.
    Socket(SocketLeaf),
    /// A handshake error.
    Handshake(HandshakeLeaf),
    /// A generic storage wrapper.
    Store,
    /// Nothing known here.
    Other,
}

/// The values that a [`Leaf`] carries.
#[allow(inconsistent_fields)]
#[verifier::ext_equal]
pub enum LeafView {
    Iq(IqLeafView),
    ServerCode { code: u16, text: Seq<char> },
    PairCode(PairCodeLeafView),
    Callback { context: Seq<char>, message: Seq<char> },
    Json { op: Seq<char>, store: Seq<char>, key: Seq<char> },
    Socket(SocketLeafView),
    Handshake(HandshakeLeafView),
    Store,
    Other,
}

impl View for Leaf {
    type V = LeafView;

    open spec fn view(&self) -> LeafView {
        match *self {
            Leaf::Iq(x) => LeafView::Iq(x@),
            Leaf::ServerCode { code, text } => LeafView::ServerCode { code, text: text@ },
            Leaf::PairCode(x) => LeafView::PairCode(x@),
            Leaf::Callback { context, message } => LeafView::Callback { context: context@, message: message@ },
            Leaf::Json { op, store, key } => LeafView::Json { op: op@, store: store@, key: key@ },
            Leaf::Socket(x) => LeafView::Socket(x@),
            Leaf::Handshake(x) => LeafView::Handshake(x@),
            Leaf::Store => LeafView::Store,
            Leaf::Other => LeafView::Other,
        }
    }
}

/// One link of an error chain.
#[derive(Debug, Clone, PartialEq, Eq)]
pub struct Link {
    /// What it renders.
    pub text: String,
    /// What it is.
    pub leaf: Leaf,
}

/// The values that a [`Link`] carries.
#[verifier::ext_equal]
pub struct LinkView {
    pub text: Seq<char>,
    pub leaf: LeafView,
}

impl View for Link {
    type V = LinkView;

    open spec fn view(&self) -> LinkView {
        LinkView {
            text: self.text@,
            leaf: self.leaf@,
        }
    }
}

/// A condition that the core names without anything below it, so that no walk
/// would find it.
#[allow(inconsistent_fields)]
#[derive(Debug, Clone, PartialEq, Eq)]
pub enum CoreRefusal {
    /// Connecting a client that is up.
    AlreadyConnected,
    /// Connecting a client that was shut down.
    Shutdown,
    /// A stored key no retry can fix.
    CorruptKey(String),
    /// The store refused an inbound batch.
    DrainCommitFailed,
    /// A drain was cut short by a shutdown.
    DrainShuttingDown,
    /// The device is not logged in.
    NotLoggedIn,
    /// Presence without a push name.
    PushNameEmpty,
    /// A group description update lost a race.
    DescriptionConflict,
    /// The caller's own request was rejected before it went out.
    InvalidRequest(String),
    /// A business profile update failed its pre-flight.
    InvalidUpdate(String),
    /// The server's answer is malformed.
    MalformedResponse {
        /// To what.
        operation: String,
        /// How.
        detail: String,
    },
    /// A call without an id.
    EmptyCallId,
    /// A message without a device to go to.
    NoRecipientDevice(String),
    /// An address of the wrong kind, or none.
    InvalidJid(String),
    /// The media retry notification never came.
    MediaRetryTimeout,
    /// The caller's stanza lacks an attribute.
    MissingAttribute(String),
    /// A retry request for something else than a message.
    RetryNeedsMessage,
    /// A response that the stanza class does not support.
    NoSuchResponse,
    /// The device has no address of its own yet.
    MissingLocalIdentity,
    /// The server's own answer does not parse.
    MexPayload(String),
    /// A host argument of the wrong shape.
    BadInput(String),
    /// Binary input of the wrong size.
    BadBinary(String),
}

/// The values that a [`CoreRefusal`] carries.
#[allow(inconsistent_fields)]
#[verifier::ext_equal]
pub enum CoreRefusalView {
    AlreadyConnected,
    Shutdown,
    CorruptKey(Seq<char>),
    DrainCommitFailed,
    DrainShuttingDown,
    NotLoggedIn,
    PushNameEmpty,
    DescriptionConflict,
    InvalidRequest(Seq<char>),
    InvalidUpdate(Seq<char>),
    MalformedResponse { operation: Seq<char>, detail: Seq<char> },
    EmptyCallId,
    NoRecipientDevice(Seq<char>),
    InvalidJid(Seq<char>),
    MediaRetryTimeout,
    MissingAttribute(Seq<char>),
    RetryNeedsMessage,
    NoSuchResponse,
    MissingLocalIdentity,
    MexPayload(Seq<char>),
    BadInput(Seq<char>),
    BadBinary(Seq<char>),
}

impl View for CoreRefusal {
    type V = CoreRefusalView;

    open spec fn view(&self) -> CoreRefusalView {
        match *self {
            CoreRefusal::AlreadyConnected => CoreRefusalView::AlreadyConnected,
            CoreRefusal::Shutdown => CoreRefusalView::Shutdown,
            CoreRefusal::CorruptKey(x) => CoreRefusalView::CorruptKey(x@),
            CoreRefusal::DrainCommitFailed => CoreRefusalView::DrainCommitFailed,
            CoreRefusal::DrainShuttingDown => CoreRefusalView::DrainShuttingDown,
            CoreRefusal::NotLoggedIn => CoreRefusalView::NotLoggedIn,
            CoreRefusal::PushNameEmpty => CoreRefusalView::PushNameEmpty,
            CoreRefusal::DescriptionConflict => CoreRefusalView::DescriptionConflict,
            CoreRefusal::InvalidRequest(x) => CoreRefusalView::InvalidRequest(x@),
            CoreRefusal::InvalidUpdate(x) => CoreRefusalView::InvalidUpdate(x@),
            CoreRefusal::MalformedResponse { operation, detail } => CoreRefusalView::MalformedResponse { operation: operation@, detail: detail@ },
            CoreRefusal::EmptyCallId => CoreRefusalView::EmptyCallId,
            CoreRefusal::NoRecipientDevice(x) => CoreRefusalView::NoRecipientDevice(x@),
            CoreRefusal::InvalidJid(x) => CoreRefusalView::InvalidJid(x@),
            CoreRefusal::MediaRetryTimeout => CoreRefusalView::MediaRetryTimeout,
            CoreRefusal::MissingAttribute(x) => CoreRefusalView::MissingAttribute(x@),
            CoreRefusal::RetryNeedsMessage => CoreRefusalView::RetryNeedsMessage,
            CoreRefusal::NoSuchResponse => CoreRefusalView::NoSuchResponse,
            CoreRefusal::MissingLocalIdentity => CoreRefusalView::MissingLocalIdentity,
            CoreRefusal::MexPayload(x) => CoreRefusalView::MexPayload(x@),
            CoreRefusal::BadInput(x) => CoreRefusalView::BadInput(x@),
            CoreRefusal::BadBinary(x) => CoreRefusalView::BadBinary(x@),
        }
    }
}

impl BridgeErrorView {
    /// The discriminant as the host reads it.
    pub open spec fn kind(self) -> &'static str {
        match self {
            BridgeErrorView::Server { .. } => "server",
            BridgeErrorView::Timeout => "timeout",
            BridgeErrorView::NotConnected => "not-connected",
            BridgeErrorView::Disconnected { .. } => "disconnected",
            BridgeErrorView::InvalidArgument { .. } => "invalid-argument",
            BridgeErrorView::ProtocolViolation { .. } => "protocol-violation",
            BridgeErrorView::Crypto { .. } => "crypto",
            BridgeErrorView::Storage { .. } => "storage",
            BridgeErrorView::NoRecipientDevice { .. } => "no-recipient-device",
            BridgeErrorView::Internal { .. } => "internal",
        }
    }

    /// The rendered text.
    pub open spec fn text(self) -> Seq<char> {
        match self {
            BridgeErrorView::Server { server_code, server_text } => "server error "@ + decimal(
                server_code as nat,
            ) + ": "@ + server_text,
            BridgeErrorView::Timeout => "request timed out"@,
            BridgeErrorView::NotConnected => "not connected"@,
            BridgeErrorView::Disconnected { reason } => "disconnected by server: "@ + reason,
            BridgeErrorView::InvalidArgument { field, reason } => "invalid argument "@ + field
                + ": "@ + reason,
            BridgeErrorView::ProtocolViolation { reason } => "protocol violation: "@ + reason,
            BridgeErrorView::Crypto { operation } => "crypto operation failed: "@ + operation,
            BridgeErrorView::Storage { operation } => "storage operation failed: "@ + operation,
            BridgeErrorView::NoRecipientDevice { reason } => "no recipient device: "@ + reason,
            BridgeErrorView::Internal { message } => "internal: "@ + message,
        }
    }
}

impl BridgeError {
    /// The discriminant as the host reads it.
    pub fn kind(&self) -> (k: &'static str)
        ensures
            k == self@.kind(),
    {
        match self {
            BridgeError::Server { .. } => "server",
            BridgeError::Timeout => "timeout",
            BridgeError::NotConnected => "not-connected",
            BridgeError::Disconnected { .. } => "disconnected",
            BridgeError::InvalidArgument { .. } => "invalid-argument",
            BridgeError::ProtocolViolation { .. } => "protocol-violation",
            BridgeError::Crypto { .. } => "crypto",
            BridgeError::Storage { .. } => "storage",
            BridgeError::NoRecipientDevice { .. } => "no-recipient-device",
            BridgeError::Internal { .. } => "internal",
        }
    }

    /// Renders the error.
    pub fn message(&self) -> (s: String)
        ensures
            s@ == self@.text(),
    {
        match self {
            BridgeError::Server { server_code, server_text } => {
                let mut s = "server error ".to_owned();
                push_decimal(&mut s, *server_code as u64);
                s.push_str(": ");
                s.push_str(server_text.as_str());
                s
            },
            BridgeError::Timeout => "request timed out".to_owned(),
            BridgeError::NotConnected => "not connected".to_owned(),
            BridgeError::Disconnected { reason } => joined("disconnected by server: ", reason),
            BridgeError::InvalidArgument { field, reason } => {
                let mut s = "invalid argument ".to_owned();
                s.push_str(field.as_str());
                s.push_str(": ");
                s.push_str(reason.as_str());
                s
            },
            BridgeError::ProtocolViolation { reason } => joined("protocol violation: ", reason),
            BridgeError::Crypto { operation } => joined("crypto operation failed: ", operation),
            BridgeError::Storage { operation } => joined("storage operation failed: ", operation),
            BridgeError::NoRecipientDevice { reason } => joined("no recipient device: ", reason),
            BridgeError::Internal { message } => joined("internal: ", message),
        }
    }
}

fn joined(head: &str, tail: &String) -> (s: String)
    ensures
        s@ == head@ + tail@,
{
    let mut s = head.to_owned();
    s.push_str(tail.as_str());
    s
}

/// Build an `Internal` variant from a message with no typed source.
pub fn internal(message: String) -> (e: BridgeError)
    ensures
        e@ == (BridgeErrorView::Internal { message: message@ }),
{
    BridgeError::Internal { message }
}

/// Build an `InvalidArgument` variant, where caller-supplied input is rejected
/// before it reaches the core.
pub fn invalid_arg(field: &str, reason: String) -> (e: BridgeError)
    ensures
        e@ == (BridgeErrorView::InvalidArgument { field: field@, reason: reason@ }),
{
    BridgeError::InvalidArgument { field: field.to_owned(), reason }
}

/// Build a `ProtocolViolation` variant, where a remote peer sent something
/// that cannot be parsed.
pub fn protocol_violation(reason: String) -> (e: BridgeError)
    ensures
        e@ == (BridgeErrorView::ProtocolViolation { reason: reason@ }),
{
    BridgeError::ProtocolViolation { reason }
}

/// An `InvalidArgument` over fixed words.
pub open spec fn bad_argument(field: Seq<char>, reason: Seq<char>) -> BridgeErrorView {
    BridgeErrorView::InvalidArgument { field, reason }
}

/// A `Crypto` over fixed words.
pub open spec fn bad_crypto(operation: Seq<char>) -> BridgeErrorView {
    BridgeErrorView::Crypto { operation }
}

/// A `ProtocolViolation` over fixed words.
pub open spec fn bad_protocol(reason: Seq<char>) -> BridgeErrorView {
    BridgeErrorView::ProtocolViolation { reason }
}

/// What an answer of another type is reported as.
pub open spec fn unexpected_response_spec(got: Option<Seq<char>>) -> BridgeErrorView {
    bad_protocol(
        match got {
            Some(kind) => "unexpected IQ response type: "@ + kind,
            None => "IQ response carried no type attribute"@,
        },
    )
}

/// What a request error says by itself; nothing, where it only wraps.
pub open spec fn iq_spec(e: IqLeafView) -> Option<BridgeErrorView> {
    match e {
        IqLeafView::ServerError { code, text } => Some(
            BridgeErrorView::Server { server_code: code, server_text: text },
        ),
        IqLeafView::Timeout => Some(BridgeErrorView::Timeout),
        IqLeafView::NotConnected => Some(BridgeErrorView::NotConnected),
        IqLeafView::Disconnected(node) => Some(BridgeErrorView::Disconnected { reason: node }),
        IqLeafView::UnexpectedResponseType { got } => Some(unexpected_response_spec(got)),
        IqLeafView::InternalChannelClosed => None,
        IqLeafView::Wrapper => None,
    }
}

/// What a socket error says by itself.
pub open spec fn socket_spec(e: SocketLeafView) -> Option<BridgeErrorView> {
    match e {
        SocketLeafView::SocketClosed => Some(BridgeErrorView::NotConnected),
        SocketLeafView::Cipher => Some(bad_crypto("noise cipher"@)),
        SocketLeafView::Unlisted => None,
    }
}

/// What a handshake error says by itself.
pub open spec fn handshake_spec(e: HandshakeLeafView) -> Option<BridgeErrorView> {
    match e {
        HandshakeLeafView::Disconnected => Some(BridgeErrorView::NotConnected),
        HandshakeLeafView::StreamClosed => Some(BridgeErrorView::NotConnected),
        HandshakeLeafView::UnexpectedEvent(detail) => Some(
            bad_protocol("during handshake: "@ + detail),
        ),
        HandshakeLeafView::Unlisted => None,
    }
}

/// What a pair-code error says by itself. One not known here keeps its text.
pub open spec fn paircode_spec(e: PairCodeLeafView, text: Seq<char>) -> BridgeErrorView {
    match e {
        PairCodeLeafView::PhoneNumberRequired => bad_argument("phoneNumber"@, "required"@),
        PairCodeLeafView::PhoneNumberTooShort => bad_argument(
            "phoneNumber"@,
            "too short (min 7 digits)"@,
        ),
        PairCodeLeafView::PhoneNumberNotInternational => bad_argument(
            "phoneNumber"@,
            "must not start with 0 (use international format)"@,
        ),
        PairCodeLeafView::InvalidCustomCode => bad_argument(
            "customCode"@,
            "must be 8 chars from Crockford Base32 alphabet"@,
        ),
        PairCodeLeafView::InvalidWrappedData { expected, got } => bad_protocol(
            "wrapped data: expected "@ + decimal(expected as nat) + " bytes, got "@ + decimal(
                got as nat,
            ),
        ),
        PairCodeLeafView::InvalidPrimaryEphemeralKey => bad_crypto("parse primary ephemeral key"@),
        PairCodeLeafView::InvalidPrimaryIdentityKey => bad_crypto("parse primary identity key"@),
        PairCodeLeafView::EphemeralKeyAgreement => bad_crypto("ephemeral DH agreement"@),
        PairCodeLeafView::IdentityKeyAgreement => bad_crypto("identity DH agreement"@),
        PairCodeLeafView::AdvSecretKeyDerivation => bad_crypto("HKDF expand for adv_secret"@),
        PairCodeLeafView::BundleKeyDerivation => bad_crypto(
            "HKDF expand for bundle encryption key"@,
        ),
        PairCodeLeafView::BundleAead => bad_crypto("AES-GCM encrypt key bundle"@),
        PairCodeLeafView::NotWaiting => bad_protocol(
            "not in waiting state for pair-code notification"@,
        ),
        PairCodeLeafView::MissingPairingRef => bad_protocol("server response missing pairing ref"@),
        PairCodeLeafView::Unlisted => BridgeErrorView::Internal { message: text },
    }
}

/// The text of a failed storage callback.
pub open spec fn callback_text(context: Seq<char>, message: Seq<char>) -> Seq<char> {
    "JS "@ + context + ": "@ + message
}

/// The text of a record that did not serialize.
pub open spec fn json_text(op: Seq<char>, store: Seq<char>, key: Seq<char>) -> Seq<char> {
    op + " "@ + store + "/"@ + key
}

/// What a link says by itself, where it is a leaf that the host can act on.
pub open spec fn leaf_spec(link: LinkView) -> Option<BridgeErrorView> {
    match link.leaf {
        LeafView::Iq(e) => iq_spec(e),
        LeafView::ServerCode { code, text } => Some(
            BridgeErrorView::Server { server_code: code, server_text: text },
        ),
        LeafView::PairCode(e) => Some(paircode_spec(e, link.text)),
        LeafView::Callback { context, message } => Some(
            BridgeErrorView::Storage { operation: callback_text(context, message) },
        ),
        LeafView::Json { op, store, key } => Some(
            BridgeErrorView::Storage { operation: json_text(op, store, key) },
        ),
        LeafView::Socket(e) => socket_spec(e),
        LeafView::Handshake(e) => handshake_spec(e),
        LeafView::Store => None,
        LeafView::Other => None,
    }
}

/// What the first link that is an actionable leaf says.
pub open spec fn first_leaf(chain: Seq<LinkView>) -> Option<BridgeErrorView>
    decreases chain.len(),
{
    if chain.len() == 0 {
        None
    } else {
        match leaf_spec(chain[0]) {
            Some(e) => Some(e),
            None => first_leaf(chain.skip(1)),
        }
    }
}

/// The text of the first generic storage wrapper.
pub open spec fn first_store(chain: Seq<LinkView>) -> Option<Seq<char>>
    decreases chain.len(),
{
    if chain.len() == 0 {
        None
    } else if chain[0].leaf is Store {
        Some(chain[0].text)
    } else {
        first_store(chain.skip(1))
    }
}

/// The texts of a chain, joined by `: `, without a layer that renders the
/// same as the one above it.
pub open spec fn chain_text(chain: Seq<LinkView>) -> Seq<char>
    decreases chain.len(),
{
    if chain.len() == 0 {
        Seq::empty()
    } else if chain.len() == 1 {
        chain[0].text
    } else {
        let above = chain_text(chain.drop_last());
        if chain.last().text == chain[chain.len() - 2].text {
            above
        } else {
            above + ": "@ + chain.last().text
        }
    }
}

/// What a chain is reported as: the first actionable leaf; then what the core
/// says of the chain as a whole; then the first storage wrapper; then its
/// text.
pub open spec fn chain_error(
    chain: Seq<LinkView>,
    is_timeout: bool,
    is_transport_unavailable: bool,
) -> BridgeErrorView {
    match first_leaf(chain) {
        Some(e) => e,
        None => if is_timeout {
            BridgeErrorView::Timeout
        } else if is_transport_unavailable {
            BridgeErrorView::NotConnected
        } else {
            match first_store(chain) {
                Some(operation) => BridgeErrorView::Storage { operation },
                None => BridgeErrorView::Internal { message: chain_text(chain) },
            }
        },
    }
}

/// What a condition without a chain is reported as.
pub open spec fn refusal_spec(e: CoreRefusalView) -> BridgeErrorView {
    match e {
        CoreRefusalView::AlreadyConnected => bad_argument(
            "connect"@,
            "client is already connected"@,
        ),
        CoreRefusalView::Shutdown => bad_argument(
            "connect"@,
            "client has been shut down; build a new one"@,
        ),
        CoreRefusalView::CorruptKey(detail) => bad_protocol(detail),
        CoreRefusalView::DrainCommitFailed => BridgeErrorView::Storage {
            operation: "commit inbound drain batch"@,
        },
        CoreRefusalView::DrainShuttingDown => BridgeErrorView::NotConnected,
        CoreRefusalView::NotLoggedIn => BridgeErrorView::NotConnected,
        CoreRefusalView::PushNameEmpty => bad_argument(
            "sendPresence"@,
            "push name is not set; call setPushName first"@,
        ),
        CoreRefusalView::DescriptionConflict => BridgeErrorView::Server {
            server_code: 409,
            server_text: "conflict"@,
        },
        CoreRefusalView::InvalidRequest(detail) => bad_argument("request"@, detail),
        CoreRefusalView::InvalidUpdate(detail) => bad_argument("update"@, detail),
        CoreRefusalView::MalformedResponse { operation, detail } => bad_protocol(
            "malformed "@ + operation + " response: "@ + detail,
        ),
        CoreRefusalView::EmptyCallId => bad_argument("callId"@, "required"@),
        CoreRefusalView::NoRecipientDevice(reason) => BridgeErrorView::NoRecipientDevice {
            reason,
        },
        CoreRefusalView::InvalidJid(detail) => bad_argument("jid"@, detail),
        CoreRefusalView::MediaRetryTimeout => BridgeErrorView::Timeout,
        CoreRefusalView::MissingAttribute(attr) => bad_argument(
            "stanza"@,
            "missing the '"@ + attr + "' attribute"@,
        ),
        CoreRefusalView::RetryNeedsMessage => bad_argument(
            "stanza"@,
            "retry requests require a message stanza"@,
        ),
        CoreRefusalView::NoSuchResponse => bad_argument(
            "stanza"@,
            "the stanza class does not support this response"@,
        ),
        CoreRefusalView::MissingLocalIdentity => BridgeErrorView::NotConnected,
        CoreRefusalView::MexPayload(detail) => bad_protocol("MEX payload: "@ + detail),
        CoreRefusalView::BadInput(reason) => bad_argument("input"@, reason),
        CoreRefusalView::BadBinary(reason) => bad_argument("binary"@, reason),
    }
}

fn bad_arg(field: &str, reason: &str) -> (e: BridgeError)
    ensures
        e@ == bad_argument(field@, reason@),
{
    BridgeError::InvalidArgument { field: field.to_owned(), reason: reason.to_owned() }
}

fn crypto(operation: &str) -> (e: BridgeError)
    ensures
        e@ == bad_crypto(operation@),
{
    BridgeError::Crypto { operation: operation.to_owned() }
}

fn violation(reason: &str) -> (e: BridgeError)
    ensures
        e@ == bad_protocol(reason@),
{
    BridgeError::ProtocolViolation { reason: reason.to_owned() }
}

/// The two request errors spell the same condition, so the wording lives once.
fn unexpected_response(got: &Option<String>) -> (e: BridgeError)
    ensures
        e@ == unexpected_response_spec(opt_view(*got)),
{
    match got {
        Some(kind) => BridgeError::ProtocolViolation {
            reason: joined("unexpected IQ response type: ", kind),
        },
        None => violation("IQ response carried no type attribute"),
    }
}

/// Matches a request error against the variants whose fields are what the
/// host acts on. One that only wraps says nothing by itself.
pub fn iq_to_bridge(e: &IqLeaf) -> (b: Option<BridgeError>)
    ensures
        opt_view(b) == iq_spec(e@),
{
    match e {
        IqLeaf::ServerError { code, text } => Some(
            BridgeError::Server { server_code: *code, server_text: text.clone() },
        ),
        IqLeaf::Timeout => Some(BridgeError::Timeout),
        IqLeaf::NotConnected => Some(BridgeError::NotConnected),
        IqLeaf::Disconnected(node) => Some(BridgeError::Disconnected { reason: node.clone() }),
        IqLeaf::UnexpectedResponseType { got } => Some(unexpected_response(got)),
        IqLeaf::InternalChannelClosed => None,
        IqLeaf::Wrapper => None,
    }
}

/// Matches a socket error.
pub fn socket_to_bridge(e: &SocketLeaf) -> (b: Option<BridgeError>)
    ensures
        opt_view(b) == socket_spec(e@),
{
    match e {
        SocketLeaf::SocketClosed => Some(BridgeError::NotConnected),
        SocketLeaf::Cipher => Some(crypto("noise cipher")),
        SocketLeaf::Unlisted => None,
    }
}

/// Matches a handshake error.
pub fn handshake_to_bridge(e: &HandshakeLeaf) -> (b: Option<BridgeError>)
    ensures
        opt_view(b) == handshake_spec(e@),
{
    match e {
        HandshakeLeaf::Disconnected => Some(BridgeError::NotConnected),
        HandshakeLeaf::StreamClosed => Some(BridgeError::NotConnected),
        HandshakeLeaf::UnexpectedEvent(detail) => Some(
            BridgeError::ProtocolViolation { reason: joined("during handshake: ", detail) },
        ),
        HandshakeLeaf::Unlisted => None,
    }
}

/// Matches a pair-code error; `text` is what it renders.
pub fn paircode_to_bridge(e: &PairCodeLeaf, text: &str) -> (b: BridgeError)
    ensures
        b@ == paircode_spec(e@, text@),
{
    match e {
        PairCodeLeaf::PhoneNumberRequired => bad_arg("phoneNumber", "required"),
        PairCodeLeaf::PhoneNumberTooShort => bad_arg("phoneNumber", "too short (min 7 digits)"),
        PairCodeLeaf::PhoneNumberNotInternational => bad_arg(
            "phoneNumber",
            "must not start with 0 (use international format)",
        ),
        PairCodeLeaf::InvalidCustomCode => bad_arg(
            "customCode",
            "must be 8 chars from Crockford Base32 alphabet",
        ),
        PairCodeLeaf::InvalidWrappedData { expected, got } => {
            let mut reason = "wrapped data: expected ".to_owned();
            push_decimal(&mut reason, *expected as u64);
            reason.push_str(" bytes, got ");
            push_decimal(&mut reason, *got as u64);
            BridgeError::ProtocolViolation { reason }
        },
        PairCodeLeaf::InvalidPrimaryEphemeralKey => crypto("parse primary ephemeral key"),
        PairCodeLeaf::InvalidPrimaryIdentityKey => crypto("parse primary identity key"),
        PairCodeLeaf::EphemeralKeyAgreement => crypto("ephemeral DH agreement"),
        PairCodeLeaf::IdentityKeyAgreement => crypto("identity DH agreement"),
        PairCodeLeaf::AdvSecretKeyDerivation => crypto("HKDF expand for adv_secret"),
        PairCodeLeaf::BundleKeyDerivation => crypto("HKDF expand for bundle encryption key"),
        PairCodeLeaf::BundleAead => crypto("AES-GCM encrypt key bundle"),
        PairCodeLeaf::NotWaiting => violation("not in waiting state for pair-code notification"),
        PairCodeLeaf::MissingPairingRef => violation("server response missing pairing ref"),
        PairCodeLeaf::Unlisted => BridgeError::Internal { message: text.to_owned() },
    }
}

fn leaf_to_bridge(link: &Link) -> (b: Option<BridgeError>)
    ensures
        opt_view(b) == leaf_spec(link@),
{
    match &link.leaf {
        Leaf::Iq(e) => iq_to_bridge(e),
        Leaf::ServerCode { code, text } => Some(
            BridgeError::Server { server_code: *code, server_text: text.clone() },
        ),
        Leaf::PairCode(e) => Some(paircode_to_bridge(e, link.text.as_str())),
        Leaf::Callback { context, message } => {
            let mut operation = "JS ".to_owned();
            operation.push_str(context.as_str());
            operation.push_str(": ");
            operation.push_str(message.as_str());
            Some(BridgeError::Storage { operation })
        },
        Leaf::Json { op, store, key } => {
            let mut operation = op.clone();
            operation.push_str(" ");
            operation.push_str(store.as_str());
            operation.push_str("/");
            operation.push_str(key.as_str());
            Some(BridgeError::Storage { operation })
        },
        Leaf::Socket(e) => socket_to_bridge(e),
        Leaf::Handshake(e) => handshake_to_bridge(e),
        Leaf::Store => None,
        Leaf::Other => None,
    }
}

/// Renders a chain, separated by `: `, collapsing neighbours that render the
/// same text: a wrapping error renders exactly what it wraps, so joining every
/// layer would repeat the same sentence once per layer.
pub fn display_chain(chain: &Vec<Link>) -> (s: String)
    ensures
        s@ == chain_text(views(chain@)),
{
    let ghost all = views(chain@);
    let mut out = String::new();
    let mut i: usize = 0;
    assert(all.take(0) =~= Seq::empty());
    while i < chain.len()
        invariant
            i <= chain.len(),
            all == views(chain@),
            out@ == chain_text(all.take(i as int)),
        decreases chain.len() - i,
    {
        let ghost next = all.take(i + 1);
        proof {
            assert(next.drop_last() =~= all.take(i as int));
            assert(next.last() == chain@[i as int]@);
        }
        if i == 0 {
            out.push_str(chain[i].text.as_str());
            assert(out@ =~= chain[0].text@);
        } else if chain[i].text != chain[i - 1].text {
            assert(next[next.len() - 2] == chain@[i - 1]@);
            out.push_str(": ");
            out.push_str(chain[i].text.as_str());
        } else {
            assert(next[next.len() - 2] == chain@[i - 1]@);
        }
        i += 1;
    }
    assert(all.take(i as int) =~= all);
    out
}

impl BridgeError {
    /// Walks an error chain, outermost link first.
    ///
    /// A leaf whose fields the host can act on is returned at once. Behind
    /// the walk come the core's own answers to whether time ran out and
    /// whether the transport was gone: a link with nothing below it stops the
    /// walk dead, and asking closes that class. A generic storage wrapper is
    /// only used where nothing more specific was found, and the rendered chain
    /// where there is not even that.
    pub fn from_error_chain(
        chain: &Vec<Link>,
        is_timeout: bool,
        is_transport_unavailable: bool,
    ) -> (e: Self)
        ensures
            e@ == chain_error(views(chain@), is_timeout, is_transport_unavailable),
    {
        let ghost all = views(chain@);
        let mut storage_fallback: Option<BridgeError> = None;
        let mut i: usize = 0;
        assert(all.skip(0) =~= all);
        while i < chain.len()
            invariant
                i <= chain.len(),
                all == views(chain@),
                first_leaf(all) == first_leaf(all.skip(i as int)),
                match storage_fallback {
                    Some(b) => first_store(all) matches Some(t) && b@ == (
                    BridgeErrorView::Storage { operation: t }),
                    None => first_store(all) == first_store(all.skip(i as int)),
                },
            decreases chain.len() - i,
        {
            proof {
                assert(all.skip(i as int)[0] == chain@[i as int]@);
                assert(all.skip(i as int).skip(1) =~= all.skip(i + 1));
            }
            match leaf_to_bridge(&chain[i]) {
                Some(b) => {
                    return b;
                },
                None => {},
            }
            if storage_fallback.is_none() {
                match &chain[i].leaf {
                    Leaf::Store => {
                        storage_fallback = Some(
                            BridgeError::Storage { operation: chain[i].text.clone() },
                        );
                    },
                    _ => {},
                }
            }
            i += 1;
        }
        assert(all.skip(i as int).len() == 0);
        if is_timeout {
            return BridgeError::Timeout;
        }
        if is_transport_unavailable {
            return BridgeError::NotConnected;
        }
        match storage_fallback {
            Some(b) => b,
            None => BridgeError::Internal { message: display_chain(chain) },
        }
    }

    /// Reports a condition that the core names without anything below it.
    pub fn from_refusal(e: &CoreRefusal) -> (b: Self)
        ensures
            b@ == refusal_spec(e@),
    {
        match e {
            CoreRefusal::AlreadyConnected => bad_arg("connect", "client is already connected"),
            CoreRefusal::Shutdown => bad_arg(
                "connect",
                "client has been shut down; build a new one",
            ),
            CoreRefusal::CorruptKey(detail) => violation(detail.as_str()),
            CoreRefusal::DrainCommitFailed => BridgeError::Storage {
                operation: "commit inbound drain batch".to_owned(),
            },
            CoreRefusal::DrainShuttingDown => BridgeError::NotConnected,
            CoreRefusal::NotLoggedIn => BridgeError::NotConnected,
            CoreRefusal::PushNameEmpty => bad_arg(
                "sendPresence",
                "push name is not set; call setPushName first",
            ),
            CoreRefusal::DescriptionConflict => BridgeError::Server {
                server_code: 409,
                server_text: "conflict".to_owned(),
            },
            CoreRefusal::InvalidRequest(detail) => bad_arg("request", detail.as_str()),
            CoreRefusal::InvalidUpdate(detail) => bad_arg("update", detail.as_str()),
            CoreRefusal::MalformedResponse { operation, detail } => {
                let mut reason = joined("malformed ", operation);
                reason.push_str(" response: ");
                reason.push_str(detail.as_str());
                BridgeError::ProtocolViolation { reason }
            },
            CoreRefusal::EmptyCallId => bad_arg("callId", "required"),
            CoreRefusal::NoRecipientDevice(reason) => BridgeError::NoRecipientDevice {
                reason: reason.clone(),
            },
            CoreRefusal::InvalidJid(detail) => bad_arg("jid", detail.as_str()),
            CoreRefusal::MediaRetryTimeout => BridgeError::Timeout,
            CoreRefusal::MissingAttribute(attr) => {
                let mut reason = joined("missing the '", attr);
                reason.push_str("' attribute");
                BridgeError::InvalidArgument { field: "stanza".to_owned(), reason }
            },
            CoreRefusal::RetryNeedsMessage => bad_arg(
                "stanza",
                "retry requests require a message stanza",
            ),
            CoreRefusal::NoSuchResponse => bad_arg(
                "stanza",
                "the stanza class does not support this response",
            ),
            CoreRefusal::MissingLocalIdentity => BridgeError::NotConnected,
            CoreRefusal::MexPayload(detail) => BridgeError::ProtocolViolation {
                reason: joined("MEX payload: ", detail),
            },
            CoreRefusal::BadInput(reason) => bad_arg("input", reason.as_str()),
            CoreRefusal::BadBinary(reason) => bad_arg("binary", reason.as_str()),
        }
    }
}

/// Links that say nothing by themselves do not change what is found first.
proof fn first_leaf_skips_wrappers(
    wrappers: Seq<LinkView>,
    leaf: LinkView,
    below: Seq<LinkView>,
)
    requires
        forall|i: int| 0 <= i < wrappers.len() ==> leaf_spec(#[trigger] wrappers[i]) is None,
        leaf_spec(leaf) is Some,
    ensures
        first_leaf(wrappers + seq![leaf] + below) == leaf_spec(leaf),
    decreases wrappers.len(),
{
    let chain = wrappers + seq![leaf] + below;
    if wrappers.len() == 0 {
        assert(chain[0] == leaf);
    } else {
        assert(chain[0] == wrappers[0]);
        assert(chain.skip(1) =~= wrappers.skip(1) + seq![leaf] + below);
        assert forall|i: int| 0 <= i < wrappers.skip(1).len() implies leaf_spec(
            #[trigger] wrappers.skip(1)[i],
        ) is None by {
            assert(wrappers.skip(1)[i] == wrappers[i + 1]);
        }
        first_leaf_skips_wrappers(wrappers.skip(1), leaf, below);
    }
}

/// A wrapper above an actionable leaf never hides it: links that say nothing
/// by themselves may stand in front in any number.
pub proof fn a_leaf_is_reached_through_wrappers(
    wrappers: Seq<LinkView>,
    leaf: LinkView,
    below: Seq<LinkView>,
    is_timeout: bool,
    is_transport_unavailable: bool,
)
    requires
        forall|i: int| 0 <= i < wrappers.len() ==> leaf_spec(#[trigger] wrappers[i]) is None,
        leaf_spec(leaf) is Some,
    ensures
        Some(
            chain_error(
                wrappers + seq![leaf] + below,
                is_timeout,
                is_transport_unavailable,
            ),
        ) == leaf_spec(leaf),
{
    first_leaf_skips_wrappers(wrappers, leaf, below);
}

/// What nobody classifies stays internal, with its own text: a transient
/// answer is never the default.
pub proof fn the_unclassified_stays_internal(link: LinkView)
    requires
        link.leaf is Other,
    ensures
        chain_error(seq![link], false, false) == (BridgeErrorView::Internal {
            message: link.text,
        }),
{
    let chain = seq![link];
    assert(chain.skip(1).len() == 0);
    assert(first_leaf(chain.skip(1)) is None);
    assert(first_leaf(chain) is None);
    assert(first_store(chain.skip(1)) is None);
    assert(first_store(chain) is None);
}

/// Layers that all render the same text collapse into one.
pub proof fn equal_layers_collapse(chain: Seq<LinkView>, text: Seq<char>)
    requires
        chain.len() > 0,
        forall|i: int| 0 <= i < chain.len() ==> (#[trigger] chain[i]).text == text,
    ensures
        chain_text(chain) == text,
    decreases chain.len(),
{
    if chain.len() > 1 {
        assert(chain[chain.len() - 1].text == chain[chain.len() - 2].text);
        assert forall|i: int| 0 <= i < chain.drop_last().len() implies (
        #[trigger] chain.drop_last()[i]).text == text by {
            assert(chain[i].text == text);
        }
        equal_layers_collapse(chain.drop_last(), text);
    } else {
        assert(chain[0].text == text);
    }
}

} // verus!
