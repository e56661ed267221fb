//! Whether a history sync is let in, as the host's policy has it.
//!
//! The policy is a callback of the host's. It fails closed: only a plain
//! `true` lets a sync in.

use vstd::prelude::*;

use crate::errors::{invalid_arg, BridgeError, BridgeErrorView};
use crate::text::{decimal, decimal_string};

verus! {

/// What becomes of a history sync.
#[derive(Debug, Clone, Copy, PartialEq, Eq, Structural)]
pub enum HistorySyncDecision {
    /// It is taken in.
    Accept,
    /// It is acknowledged and dropped.
    RejectAndAcknowledge,
}

/// What the host's policies turned out to be.
#[derive(Debug, Clone, Copy, PartialEq, Eq, Structural)]
pub enum Policies {
    /// None were given.
    Absent,
    /// Something that is not an object.
    NotAnObject,
    /// An object whose callback could not be read.
    Unreadable,
    /// An object without the callback.
    NoCallback,
    /// An object whose callback is not a function.
    NotAFunction,
    /// An object with the callback.
    Callback,
}

/// Whether some policies decide on history syncs, or the complaint.
pub open spec fn policy_of(policies: Policies) -> Result<bool, BridgeErrorView> {
    match policies {
        Policies::Absent | Policies::NoCallback => Ok(false),
        Policies::Callback => Ok(true),
        Policies::NotAnObject => Err(
            BridgeErrorView::InvalidArgument { field: "policies"@, reason: "must be an object"@ },
        ),
        Policies::Unreadable => Err(
            BridgeErrorView::InvalidArgument {
                field: "policies.historySyncAdmission"@,
                reason: "could not read the callback"@,
            },
        ),
        Policies::NotAFunction => Err(
            BridgeErrorView::InvalidArgument {
                field: "policies.historySyncAdmission"@,
                reason: "must be a function"@,
            },
        ),
    }
}

/// Reads the host's policies: whether they decide on history syncs.
pub fn from_policies(policies: Policies) -> (res: Result<bool, BridgeError>)
    ensures
        match (policy_of(policies), res) {
            (Ok(b), Ok(c)) => b == c,
            (Err(e), Err(f)) => e == f@,
            _ => false,
        },
{
    match policies {
        Policies::Absent => Ok(false),
        Policies::NoCallback => Ok(false),
        Policies::Callback => Ok(true),
        Policies::NotAnObject => Err(invalid_arg("policies", "must be an object".to_owned())),
        Policies::Unreadable => Err(
            invalid_arg("policies.historySyncAdmission", "could not read the callback".to_owned()),
        ),
        Policies::NotAFunction => Err(
            invalid_arg("policies.historySyncAdmission", "must be a function".to_owned()),
        ),
    }
}

/// What the callback came back with.
#[derive(Debug, Clone, Copy, PartialEq, Eq)]
pub enum PolicyAnswer {
    /// It returned; a boolean, if it is one.
    Returned(Option<bool>),
    /// It threw.
    Threw,
}

/// What becomes of a sync, given the callback's answer. A truthy value that is
/// not `true` does not do.
pub fn decision(answer: PolicyAnswer) -> (d: HistorySyncDecision)
    ensures
        d == if answer == PolicyAnswer::Returned(Some(true)) {
            HistorySyncDecision::Accept
        } else {
            HistorySyncDecision::RejectAndAcknowledge
        },
{
    match answer {
        PolicyAnswer::Returned(Some(b)) => if b {
            HistorySyncDecision::Accept
        } else {
            HistorySyncDecision::RejectAndAcknowledge
        },
        PolicyAnswer::Returned(None) => HistorySyncDecision::RejectAndAcknowledge,
        PolicyAnswer::Threw => HistorySyncDecision::RejectAndAcknowledge,
    }
}

/// What is known of a history sync before it is fetched.
#[derive(Debug, Clone, PartialEq, Eq)]
pub struct HistorySyncMetadata {
    /// Its type.
    pub sync_type: Option<i32>,
    /// Which chunk it is.
    pub chunk_order: Option<u32>,
    /// How far the whole has come.
    pub progress: Option<u32>,
    /// The length of its file.
    pub file_length: Option<u64>,
    /// The length of a payload that came along.
    pub inline_payload_len: Option<usize>,
    /// The request that it answers.
    pub peer_data_request_session_id: Option<String>,
}

/// A property's value.
#[derive(Debug, Clone, PartialEq, Eq)]
pub enum MetadataValue {
    /// A number.
    Number(i128),
    /// A text.
    Text(String),
}

/// The values that a [`MetadataValue`] carries.
pub enum MetadataValueView {
    Number(int),
    Text(Seq<char>),
}

impl View for MetadataValue {
    type V = MetadataValueView;

    open spec fn view(&self) -> MetadataValueView {
        match *self {
            MetadataValue::Number(n) => MetadataValueView::Number(n as int),
            MetadataValue::Text(t) => MetadataValueView::Text(t@),
        }
    }
}

/// A property of the object that the callback is given.
#[derive(Debug, Clone, PartialEq, Eq)]
pub struct MetadataField {
    /// Its name.
    pub name: &'static str,
    /// Its value.
    pub value: MetadataValue,
}

/// A property by its views.
pub open spec fn field_view(f: MetadataField) -> (Seq<char>, MetadataValueView) {
    (f.name@, f.value@)
}

/// A property that is there only with a value.
pub open spec fn opt_field(name: Seq<char>, value: Option<MetadataValueView>) -> Seq<
    (Seq<char>, MetadataValueView),
> {
    match value {
        Some(v) => seq![(name, v)],
        None => Seq::empty(),
    }
}

impl HistorySyncMetadata {
    /// The properties of the object that the callback is given: those that are
    /// known. A file's length crosses as its decimal text, because a number of
    /// the host's does not hold all of its digits.
    pub open spec fn fields(self) -> Seq<(Seq<char>, MetadataValueView)> {
        opt_field(
            "syncType"@,
            match self.sync_type {
                Some(n) => Some(MetadataValueView::Number(n as int)),
                None => None,
            },
        ) + opt_field(
            "chunkOrder"@,
            match self.chunk_order {
                Some(n) => Some(MetadataValueView::Number(n as int)),
                None => None,
            },
        ) + opt_field(
            "progress"@,
            match self.progress {
                Some(n) => Some(MetadataValueView::Number(n as int)),
                None => None,
            },
        ) + opt_field(
            "fileLength"@,
            match self.file_length {
                Some(n) => Some(MetadataValueView::Text(decimal(n as nat))),
                None => None,
            },
        ) + opt_field(
            "inlinePayloadLen"@,
            match self.inline_payload_len {
                Some(n) => Some(MetadataValueView::Number(n as int)),
                None => None,
            },
        ) + opt_field(
            "peerDataRequestSessionId"@,
            match self.peer_data_request_session_id {
                Some(id) => Some(MetadataValueView::Text(id@)),
                None => None,
            },
        )
    }
}

fn push_field(out: &mut Vec<MetadataField>, name: &'static str, value: Option<MetadataValue>)
    ensures
        final(out)@.map_values(|f: MetadataField| field_view(f)) == old(out)@.map_values(
            |f: MetadataField| field_view(f),
        ) + opt_field(
            name@,
            match value {
                Some(v) => Some(v@),
                None => None,
            },
        ),
{
    match value {
        Some(value) => {
            out.push(MetadataField { name, value });
            assert(out@.map_values(|f: MetadataField| field_view(f)) =~= old(out)@.map_values(
                |f: MetadataField| field_view(f),
            ) + opt_field(name@, Some(value@)));
        },
        None => {
            assert(out@.map_values(|f: MetadataField| field_view(f)) =~= old(out)@.map_values(
                |f: MetadataField| field_view(f),
            ) + Seq::empty());
        },
    }
}

/// The text of a file's length, all of its digits.
pub fn file_length_text(value: u64) -> (s: String)
    ensures
        s@ == decimal(value as nat),
{
    decimal_string(value)
}

/// The properties of the object that the callback is given.
pub fn metadata_fields(metadata: &HistorySyncMetadata) -> (out: Vec<MetadataField>)
    ensures
        out@.map_values(|f: MetadataField| field_view(f)) == metadata.fields(),
{
    let mut out: Vec<MetadataField> = Vec::new();
    let sync_type = match metadata.sync_type {
        Some(n) => Some(MetadataValue::Number(n as i128)),
        None => None,
    };
    let chunk_order = match metadata.chunk_order {
        Some(n) => Some(MetadataValue::Number(n as i128)),
        None => None,
    };
    let progress = match metadata.progress {
        Some(n) => Some(MetadataValue::Number(n as i128)),
        None => None,
    };
    let file_length = match metadata.file_length {
        Some(n) => Some(MetadataValue::Text(file_length_text(n))),
        None => None,
    };
    let inline_payload_len = match metadata.inline_payload_len {
        Some(n) => Some(MetadataValue::Number(n as i128)),
        None => None,
    };
    let session_id = match &metadata.peer_data_request_session_id {
        Some(id) => Some(MetadataValue::Text(id.clone())),
        None => None,
    };
    push_field(&mut out, "syncType", sync_type);
    push_field(&mut out, "chunkOrder", chunk_order);
    push_field(&mut out, "progress", progress);
    push_field(&mut out, "fileLength", file_length);
    push_field(&mut out, "inlinePayloadLen", inline_payload_len);
    push_field(&mut out, "peerDataRequestSessionId", session_id);
    assert(out@.map_values(|f: MetadataField| field_view(f)) =~= metadata.fields());
    out
}

/// What a callback that threw is said to have failed with: the text it threw,
/// the message of the error it threw, or that it was neither.
pub fn js_error_message(text: Option<String>, message: Option<String>) -> (m: String)
    ensures
        m@ == match (text, message) {
            (Some(t), _) => t@,
            (None, Some(m)) => m@,
            (None, None) => "JavaScript callback threw a non-string value"@,
        },
{
    match text {
        Some(t) => t,
        None => match message {
            Some(m) => m,
            None => "JavaScript callback threw a non-string value".to_owned(),
        },
    }
}

} // verus!
