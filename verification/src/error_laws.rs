//! What an error is reported as: its kind, its words, and which of several
//! wins.

use vstd::prelude::*;

use crate::crypto::CryptoError;
use crate::engine::opus::OpusMlowError;
use crate::errors::{
    chain_error, chain_text, first_leaf, first_store, handshake_spec, iq_spec, leaf_spec,
    paircode_spec, refusal_spec, socket_spec, BridgeErrorView, CoreRefusalView, HandshakeLeafView,
    IqLeafView, LeafView, LinkView, PairCodeLeafView, SocketLeafView,
};
use crate::session::SessionError;
use crate::store::json::JsonFailure;
use crate::text::decimal;
use crate::VersionError;

verus! {

/// Each kind of error has the name that hosts know it by.
pub proof fn a_kind_has_its_name(e: BridgeErrorView)
    ensures
        e is Server ==> e.kind() == "server",
        e is Timeout ==> e.kind() == "timeout",
        e is NotConnected ==> e.kind() == "not-connected",
        e is Disconnected ==> e.kind() == "disconnected",
        e is InvalidArgument ==> e.kind() == "invalid-argument",
        e is ProtocolViolation ==> e.kind() == "protocol-violation",
        e is Crypto ==> e.kind() == "crypto",
        e is Storage ==> e.kind() == "storage",
        e is NoRecipientDevice ==> e.kind() == "no-recipient-device",
        e is Internal ==> e.kind() == "internal",
{
}

/// An error says what happened and then its detail, whole.
pub proof fn an_error_says_its_detail_last(e: BridgeErrorView)
    ensures
        e matches BridgeErrorView::Server { server_code, server_text } ==> e.text()
            == "server error "@ + decimal(server_code as nat) + ": "@ + server_text,
        e is Timeout ==> e.text() == "request timed out"@,
        e is NotConnected ==> e.text() == "not connected"@,
        e matches BridgeErrorView::Disconnected { reason } ==> e.text()
            == "disconnected by server: "@ + reason,
        e matches BridgeErrorView::InvalidArgument { field, reason } ==> e.text()
            == "invalid argument "@ + field + ": "@ + reason,
        e matches BridgeErrorView::ProtocolViolation { reason } ==> e.text()
            == "protocol violation: "@ + reason,
        e matches BridgeErrorView::Crypto { operation } ==> e.text()
            == "crypto operation failed: "@ + operation,
        e matches BridgeErrorView::Storage { operation } ==> e.text()
            == "storage operation failed: "@ + operation,
        e matches BridgeErrorView::NoRecipientDevice { reason } ==> e.text()
            == "no recipient device: "@ + reason,
        e matches BridgeErrorView::Internal { message } ==> e.text() == "internal: "@ + message,
{
}

/// What a request error says keeps the server's code and text apart, and a
/// wrapper says nothing.
pub proof fn a_request_error_keeps_its_fields(e: IqLeafView)
    ensures
        e matches IqLeafView::ServerError { code, text } ==> (iq_spec(e) matches Some(
            BridgeErrorView::Server { server_code, server_text },
        ) && server_code == code && server_text == text),
        e is Timeout <==> iq_spec(e) == Some(BridgeErrorView::Timeout),
        e is NotConnected <==> iq_spec(e) == Some(BridgeErrorView::NotConnected),
        e matches IqLeafView::Disconnected(node) ==> iq_spec(e) == Some(
            BridgeErrorView::Disconnected { reason: node },
        ),
        e matches IqLeafView::UnexpectedResponseType { got } ==> (iq_spec(e) matches Some(
            BridgeErrorView::ProtocolViolation { reason },
        ) && match got {
            Some(kind) => reason == "unexpected IQ response type: "@ + kind,
            None => reason == "IQ response carried no type attribute"@,
        }),
        iq_spec(e) is None <==> (e is InternalChannelClosed || e is Wrapper),
{
}

/// A closed socket and a lost handshake are a missing connection; a broken
/// cipher is not, and neither is an event out of turn.
pub proof fn a_lost_connection_is_told_as_one(s: SocketLeafView, h: HandshakeLeafView)
    ensures
        socket_spec(s) == Some(BridgeErrorView::NotConnected) <==> s is SocketClosed,
        s is Cipher ==> socket_spec(s) == Some(
            BridgeErrorView::Crypto { operation: "noise cipher"@ },
        ),
        socket_spec(s) is None <==> s is Unlisted,
        handshake_spec(h) == Some(BridgeErrorView::NotConnected) <==> (h is Disconnected || h
            is StreamClosed),
        h matches HandshakeLeafView::UnexpectedEvent(detail) ==> (handshake_spec(h) matches Some(
            BridgeErrorView::ProtocolViolation { reason },
        ) && reason == "during handshake: "@ + detail),
        handshake_spec(h) is None <==> h is Unlisted,
{
}

/// What is wrong with a pair code is the caller's argument, a failed key, the
/// peer's breach, or, where it is not known, internal.
pub proof fn a_pair_code_error_is_told_by_whose_it_is(e: PairCodeLeafView, text: Seq<char>)
    ensures
        (e is PhoneNumberRequired || e is PhoneNumberTooShort || e is PhoneNumberNotInternational)
            ==> (paircode_spec(e, text) matches BridgeErrorView::InvalidArgument { field, .. }
            && field == "phoneNumber"@),
        paircode_spec(e, text) is InvalidArgument <==> (e is PhoneNumberRequired || e
            is PhoneNumberTooShort || e is PhoneNumberNotInternational || e is InvalidCustomCode),
        e is InvalidCustomCode ==> (paircode_spec(e, text)
            matches BridgeErrorView::InvalidArgument { field, .. } && field == "customCode"@),
        paircode_spec(e, text) is Crypto <==> (e is InvalidPrimaryEphemeralKey || e
            is InvalidPrimaryIdentityKey || e is EphemeralKeyAgreement || e is IdentityKeyAgreement
            || e is AdvSecretKeyDerivation || e is BundleKeyDerivation || e is BundleAead),
        paircode_spec(e, text) is ProtocolViolation <==> (e is InvalidWrappedData || e is NotWaiting
            || e is MissingPairingRef),
        paircode_spec(e, text) is Internal <==> e is Unlisted,
        e is Unlisted ==> paircode_spec(e, text) == (BridgeErrorView::Internal { message: text }),
        e matches PairCodeLeafView::InvalidWrappedData { expected, got } ==> (paircode_spec(e, text)
            matches BridgeErrorView::ProtocolViolation { reason } && reason
            == "wrapped data: expected "@ + decimal(expected as nat) + " bytes, got "@ + decimal(
            got as nat,
        )),
{
}

/// A link says what its leaf says: storage callbacks and records are storage,
/// a server's code is the server's, and a wrapper says nothing.
pub proof fn a_link_says_what_its_leaf_says(link: LinkView)
    ensures
        link.leaf matches LeafView::Iq(e) ==> leaf_spec(link) == iq_spec(e),
        link.leaf matches LeafView::ServerCode { code, text } ==> leaf_spec(link) == Some(
            BridgeErrorView::Server { server_code: code, server_text: text },
        ),
        link.leaf matches LeafView::PairCode(e) ==> leaf_spec(link) == Some(
            paircode_spec(e, link.text),
        ),
        link.leaf matches LeafView::Callback { context, message } ==> leaf_spec(link) == Some(
            BridgeErrorView::Storage { operation: "JS "@ + context + ": "@ + message },
        ),
        link.leaf matches LeafView::Json { op, store, key } ==> leaf_spec(link) == Some(
            BridgeErrorView::Storage { operation: op + " "@ + store + "/"@ + key },
        ),
        link.leaf matches LeafView::Socket(e) ==> leaf_spec(link) == socket_spec(e),
        link.leaf matches LeafView::Handshake(e) ==> leaf_spec(link) == handshake_spec(e),
        link.leaf is Store || link.leaf is Other ==> leaf_spec(link) is None,
{
}

/// What is found first in a chain that was put together is what is found first
/// in its front, and only else what is in its back.
pub proof fn the_front_of_a_chain_is_looked_at_first(a: Seq<LinkView>, b: Seq<LinkView>)
    ensures
        first_leaf(a + b) == (if first_leaf(a) is Some {
            first_leaf(a)
        } else {
            first_leaf(b)
        }),
        first_store(a + b) == (if first_store(a) is Some {
            first_store(a)
        } else {
            first_store(b)
        }),
    decreases a.len(),
{
    if a.len() == 0 {
        assert(a + b =~= b);
    } else {
        the_front_of_a_chain_is_looked_at_first(a.skip(1), b);
        assert((a + b).skip(1) =~= a.skip(1) + b);
        assert((a + b)[0] == a[0]);
    }
}

/// A link by itself is found where it says something, and is a storage wrapper
/// where it is one.
pub proof fn a_single_link_is_found(link: LinkView)
    ensures
        first_leaf(seq![link]) == leaf_spec(link),
        link.leaf is Store ==> first_store(seq![link]) == Some(link.text),
        !(link.leaf is Store) ==> first_store(seq![link]) is None,
        chain_text(seq![link]) == link.text,
{
    let chain = seq![link];
    assert(chain.skip(1) =~= Seq::empty());
    assert(first_leaf(chain.skip(1)) is None);
    assert(first_store(chain.skip(1)) is None);
}

/// A layer is told behind those above it, after a colon, unless it says the
/// same as the one just above.
pub proof fn a_layer_is_told_once(chain: Seq<LinkView>, link: LinkView)
    requires
        chain.len() > 0,
    ensures
        chain.last().text == link.text ==> chain_text(chain.push(link)) == chain_text(chain),
        chain.last().text != link.text ==> chain_text(chain.push(link)) == chain_text(chain)
            + ": "@ + link.text,
{
    assert(chain.push(link).drop_last() =~= chain);
}

/// The first leaf wins over everything; then a timeout, then a missing
/// transport, then a storage wrapper; what is left is internal, with its text.
pub proof fn the_most_telling_wins(chain: Seq<LinkView>, timeout: bool, unavailable: bool)
    ensures
        first_leaf(chain) matches Some(e) ==> chain_error(chain, timeout, unavailable) == e,
        first_leaf(chain) is None && timeout ==> chain_error(chain, timeout, unavailable)
            == BridgeErrorView::Timeout,
        first_leaf(chain) is None && !timeout && unavailable ==> chain_error(
            chain,
            timeout,
            unavailable,
        ) == BridgeErrorView::NotConnected,
        first_leaf(chain) is None && !timeout && !unavailable && first_store(chain) is Some
            ==> chain_error(chain, timeout, unavailable) == (BridgeErrorView::Storage {
            operation: first_store(chain)->0,
        }),
        first_leaf(chain) is None && !timeout && !unavailable && first_store(chain) is None
            ==> chain_error(chain, timeout, unavailable) == (BridgeErrorView::Internal {
            message: chain_text(chain),
        }),
{
}

/// A refused session says which generation holds its handle, and a refused
/// version says both majors.
pub proof fn a_session_error_says_what_holds(e: SessionError, v: VersionError)
    ensures
        e is Unknown ==> e.text() == "unknown voip session handle"@,
        e matches SessionError::Stale { current } ==> e.text()
            == "stale voip session generation (handle now holds generation "@ + decimal(
            current as nat,
        ) + ")"@,
        e matches SessionError::HandleInUse { current } ==> e.text()
            == "voip session handle still reserved at generation "@ + decimal(current as nat),
        v matches VersionError::MajorMismatch { peer_major } && v.text()
            == "incompatible voip ABI major: peer speaks "@ + decimal(peer_major as nat)
            + ", this side speaks "@ + decimal(1),
{
}

/// A packet that cannot be rewritten says why, a row that cannot be read says
/// which it is, and a derivation that is too long says so.
pub proof fn a_failure_says_which_it_is(p: OpusMlowError, j: JsonFailure, c: CryptoError)
    ensures
        p is Empty ==> p.text() == "empty Opus packet"@,
        p matches OpusMlowError::NotCelt(config) ==> p.text() == "Opus config "@ + decimal(
            config as nat,
        ) + " is not CELT-only"@,
        p is InvalidFramePacking ==> p.text() == "invalid Opus frame packing"@,
        p is NotMlowEscape ==> p.text() == "packet is not an MLOW CELT escape"@,
        p is Unlisted ==> p.text() == "packet refused"@,
        j.text() == "deserialize "@ + j.store@ + "/"@ + j.key@,
        c.text() == "HKDF-SHA256 output length is invalid"@,
{
}

/// A refusal is the caller's fault in a named field, a missing connection, a
/// timeout, the peer's breach, storage's, the server's, or a missing recipient.
pub proof fn a_refusal_is_told_by_whose_it_is(e: CoreRefusalView)
    ensures
        refusal_spec(e) == BridgeErrorView::NotConnected <==> (e is DrainShuttingDown || e
            is NotLoggedIn || e is MissingLocalIdentity),
        refusal_spec(e) == BridgeErrorView::Timeout <==> e is MediaRetryTimeout,
        refusal_spec(e) is Storage <==> e is DrainCommitFailed,
        refusal_spec(e) is Server <==> e is DescriptionConflict,
        e is DescriptionConflict ==> (refusal_spec(e) matches BridgeErrorView::Server {
            server_code,
            server_text,
        } && server_code == 409 && server_text == "conflict"@),
        e matches CoreRefusalView::NoRecipientDevice(why) ==> refusal_spec(e) == (
        BridgeErrorView::NoRecipientDevice { reason: why }),
        refusal_spec(e) is ProtocolViolation <==> (e is CorruptKey || e is MalformedResponse || e
            is MexPayload),
        e matches CoreRefusalView::CorruptKey(detail) ==> refusal_spec(e) == (
        BridgeErrorView::ProtocolViolation { reason: detail }),
        e matches CoreRefusalView::MalformedResponse { operation, detail } ==> refusal_spec(e) == (
        BridgeErrorView::ProtocolViolation {
            reason: "malformed "@ + operation + " response: "@ + detail,
        }),
        e matches CoreRefusalView::MexPayload(detail) ==> refusal_spec(e) == (
        BridgeErrorView::ProtocolViolation { reason: "MEX payload: "@ + detail }),
        !(refusal_spec(e) is Internal) && !(refusal_spec(e) is Crypto) && !(refusal_spec(e)
            is Disconnected),
{
}

/// A refused argument is told under the name of the field that it came in, and
/// with its detail where it has one.
pub proof fn a_refused_argument_names_its_field(e: CoreRefusalView)
    ensures
        e is AlreadyConnected || e is Shutdown ==> (refusal_spec(e)
            matches BridgeErrorView::InvalidArgument { field, .. } && field == "connect"@),
        e is PushNameEmpty ==> (refusal_spec(e) matches BridgeErrorView::InvalidArgument {
            field,
            ..
        } && field == "sendPresence"@),
        e matches CoreRefusalView::InvalidRequest(detail) ==> (refusal_spec(e)
            matches BridgeErrorView::InvalidArgument { field, reason } && field == "request"@
            && reason == detail),
        e matches CoreRefusalView::InvalidUpdate(detail) ==> (refusal_spec(e)
            matches BridgeErrorView::InvalidArgument { field, reason } && field == "update"@
            && reason == detail),
        e is EmptyCallId ==> (refusal_spec(e) matches BridgeErrorView::InvalidArgument {
            field,
            reason,
        } && field == "callId"@ && reason == "required"@),
        e matches CoreRefusalView::InvalidJid(detail) ==> (refusal_spec(e)
            matches BridgeErrorView::InvalidArgument { field, reason } && field == "jid"@ && reason
            == detail),
        e is MissingAttribute || e is RetryNeedsMessage || e is NoSuchResponse ==> (refusal_spec(e)
            matches BridgeErrorView::InvalidArgument { field, .. } && field == "stanza"@),
        e matches CoreRefusalView::MissingAttribute(attr) ==> (refusal_spec(e)
            matches BridgeErrorView::InvalidArgument { reason, .. } && reason == "missing the '"@
            + attr + "' attribute"@),
        e matches CoreRefusalView::BadInput(detail) ==> (refusal_spec(e)
            matches BridgeErrorView::InvalidArgument { field, reason } && field == "input"@
            && reason == detail),
        e matches CoreRefusalView::BadBinary(detail) ==> (refusal_spec(e)
            matches BridgeErrorView::InvalidArgument { field, reason } && field == "binary"@
            && reason == detail),
{
}

} // verus!
