//! Addresses, as the wire carries them and as the engine holds them.

use vstd::prelude::*;

use crate::engine::neutral::{Jid, JidView};
use crate::messages::fields::opt_view;

verus! {

/// The address that a text names, where it names one, as
/// [`wacore_binary::Jid`] parses it.
pub uninterp spec fn jid_of(raw: Seq<char>) -> Option<JidView>;

/// [`wacore_binary::Jid`]'s `FromStr`, with the parsed address taken apart
/// into plain values. It depends on the text alone; which texts it accepts,
/// and what it makes of them, is left to that parser.
#[verifier::external_body]
pub(crate) fn parse_jid(raw: &str) -> (jid: Option<Jid>)
    ensures
        opt_view(jid) == jid_of(raw@),
{
    match raw.parse::<wacore_binary::Jid>() {
        Ok(jid) => Some(
            Jid {
                user: jid.user.to_string(),
                server: jid.server.as_str().to_string(),
                agent: jid.agent,
                device: jid.device,
                integrator: jid.integrator,
            },
        ),
        Err(_) => None,
    }
}

/// The address that a text names, or a complaint that ends in the text.
pub open spec fn jid_or(raw: Seq<char>, complaint: Seq<char>) -> Result<JidView, Seq<char>> {
    match jid_of(raw) {
        Some(jid) => Ok(jid),
        None => Err(complaint + raw),
    }
}

/// [`jid_or`] where there is a text.
pub open spec fn opt_jid_or(raw: Option<Seq<char>>, complaint: Seq<char>) -> Result<
    Option<JidView>,
    Seq<char>,
> {
    match raw {
        None => Ok(None),
        Some(raw) => match jid_or(raw, complaint) {
            Ok(jid) => Ok(Some(jid)),
            Err(e) => Err(e),
        },
    }
}

/// What two results say is the same once texts are read as characters.
pub open spec fn same_outcome<T: View>(res: Result<T, String>, model: Result<T::V, Seq<char>>) -> bool {
    match (res, model) {
        (Ok(v), Ok(m)) => v@ == m,
        (Err(e), Err(m)) => e@ == m,
        _ => false,
    }
}

/// Parses an address, complaining with the text that was refused.
pub(crate) fn jid_or_complain(raw: &str, complaint: &str) -> (res: Result<Jid, String>)
    ensures
        same_outcome(res, jid_or(raw@, complaint@)),
{
    match parse_jid(raw) {
        Some(jid) => Ok(jid),
        None => {
            let mut e = complaint.to_owned();
            e.push_str(raw);
            Err(e)
        },
    }
}

/// Parses an optional address.
pub(crate) fn opt_jid_or_complain(raw: &Option<String>, complaint: &str) -> (res: Result<
    Option<Jid>,
    String,
>)
    ensures
        match (res, opt_jid_or(opt_view(*raw), complaint@)) {
            (Ok(v), Ok(m)) => opt_view(v) == m,
            (Err(e), Err(m)) => e@ == m,
            _ => false,
        },
{
    match raw {
        None => Ok(None),
        Some(raw) => match jid_or_complain(raw.as_str(), complaint) {
            Ok(jid) => Ok(Some(jid)),
            Err(e) => Err(e),
        },
    }
}

} // verus!
