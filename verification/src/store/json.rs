//! The lists that the store keeps as JSON.
//!
//! [`serde_json`] renders and parses them. How a text is escaped is its affair;
//! what counts is that a list that was rendered parses to itself.

use vstd::prelude::*;

use crate::messages::fields::views;
use crate::store::rows::device_view;
use crate::text::decimal;

verus! {

/// A list of texts as JSON.
pub uninterp spec fn texts_json(list: Seq<Seq<char>>) -> Seq<u8>;

/// The list of texts that some bytes are, if they are one.
pub uninterp spec fn json_texts(bytes: Seq<u8>) -> Option<Seq<Seq<char>>>;

/// Numbers with commas between them.
pub open spec fn comma_separated(list: Seq<u32>) -> Seq<char>
    decreases list.len(),
{
    if list.len() == 0 {
        Seq::empty()
    } else if list.len() == 1 {
        decimal(list[0] as nat)
    } else {
        comma_separated(list.drop_last()) + seq![','] + decimal(list.last() as nat)
    }
}

/// A list of numbers as JSON: in brackets, without a space.
pub open spec fn ids_json(list: Seq<u32>) -> Seq<u8> {
    vstd::utf8::encode_utf8(seq!['['] + comma_separated(list) + seq![']'])
}

/// The list of numbers that some bytes are, if they are one.
pub uninterp spec fn json_ids(bytes: Seq<u8>) -> Option<Seq<u32>>;

/// A list of devices and their states as JSON.
pub uninterp spec fn devices_json(list: Seq<(Seq<char>, bool)>) -> Seq<u8>;

/// The list of devices and their states that some bytes are, if they are one.
pub uninterp spec fn json_devices(bytes: Seq<u8>) -> Option<Seq<(Seq<char>, bool)>>;

/// A list that was read, by its views.
pub open spec fn opt_texts(list: Option<Vec<String>>) -> Option<Seq<Seq<char>>> {
    match list {
        Some(list) => Some(views(list@)),
        None => None,
    }
}

/// A list that was read, as a sequence.
pub open spec fn opt_ids(list: Option<Vec<u32>>) -> Option<Seq<u32>> {
    match list {
        Some(list) => Some(list@),
        None => None,
    }
}

/// A list that was read, by its views.
pub open spec fn opt_devices(list: Option<Vec<(String, bool)>>) -> Option<Seq<(Seq<char>, bool)>> {
    match list {
        Some(list) => Some(device_view(list@)),
        None => None,
    }
}

/// [`serde_json::to_vec`] of a list of texts, which never fails; what it
/// renders parses back.
#[verifier::external_body]
pub(crate) fn write_texts(list: &Vec<String>) -> (bytes: Vec<u8>)
    ensures
        bytes@ == texts_json(views(list@)),
        json_texts(bytes@) == Some(views(list@)),
{
    serde_json::to_vec(list).expect("a list of texts renders")
}

/// [`serde_json::from_slice`] into a list of texts.
#[verifier::external_body]
pub(crate) fn read_texts(bytes: &[u8]) -> (list: Option<Vec<String>>)
    ensures
        opt_texts(list) == json_texts(bytes@),
{
    serde_json::from_slice(bytes).ok()
}

/// [`serde_json::to_vec`] of a list of numbers, which never fails: the numbers
/// in decimal, which parse back.
#[verifier::external_body]
pub(crate) fn write_ids(list: &Vec<u32>) -> (bytes: Vec<u8>)
    ensures
        bytes@ == ids_json(list@),
        json_ids(bytes@) == Some(list@),
{
    serde_json::to_vec(list).expect("a list of numbers renders")
}

/// [`serde_json::from_slice`] into a list of numbers.
#[verifier::external_body]
pub(crate) fn read_ids(bytes: &[u8]) -> (list: Option<Vec<u32>>)
    ensures
        opt_ids(list) == json_ids(bytes@),
{
    serde_json::from_slice(bytes).ok()
}

/// [`serde_json::to_vec`] of a list of devices and their states, which never
/// fails; what it renders parses back.
#[verifier::external_body]
pub(crate) fn write_devices(list: &Vec<(String, bool)>) -> (bytes: Vec<u8>)
    ensures
        bytes@ == devices_json(device_view(list@)),
        json_devices(bytes@) == Some(device_view(list@)),
{
    serde_json::to_vec(list).expect("a list of devices renders")
}

/// [`serde_json::from_slice`] into a list of devices and their states.
#[verifier::external_body]
pub(crate) fn read_devices(bytes: &[u8]) -> (list: Option<Vec<(String, bool)>>)
    ensures
        opt_devices(list) == json_devices(bytes@),
{
    serde_json::from_slice(bytes).ok()
}

/// A row whose JSON could not be read.
#[derive(Debug, Clone, PartialEq, Eq)]
pub struct JsonFailure {
    /// The namespace.
    pub store: &'static str,
    /// The key.
    pub key: String,
}

impl JsonFailure {
    /// The rendered text.
    pub open spec fn text(self) -> Seq<char> {
        "deserialize "@ + self.store@ + "/"@ + self.key@
    }

    /// Renders the failure.
    pub fn message(&self) -> (s: String)
        ensures
            s@ == self.text(),
    {
        let mut s = "deserialize ".to_owned();
        s.push_str(self.store);
        s.push_str("/");
        s.push_str(self.key.as_str());
        s
    }
}

} // verus!
