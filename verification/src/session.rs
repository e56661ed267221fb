//! Session identity: a `u32` handle plus a `u64` generation, validated on
//! every callback. A stale generation never touches its replacement, which
//! keeps the ABA protection across the module boundary.

use std::collections::HashMap;

use vstd::prelude::*;

use crate::text::{decimal, push_decimal};

verus! {

broadcast use vstd::std_specs::hash::group_hash_axioms;

/// The identity every session message carries.
#[derive(Debug, Clone, Copy, PartialEq, Eq, Hash, Structural)]
pub struct SessionId {
    /// Compact handle naming the session slot.
    pub handle: u32,
    /// Monotonic generation: replacement sessions reuse the handle with a
    /// newer generation, so a delayed callback from the old one is stale.
    pub generation: u64,
}

/// What went wrong validating a session identity.
#[derive(Debug, Clone, PartialEq, Eq)]
pub enum SessionError {
    /// The handle was never reserved (or was already closed).
    Unknown,
    /// The handle is known but this is not its current generation. The
    /// message must be dropped without touching the replacement.
    Stale {
        /// The generation the handle currently holds.
        current: u64,
    },
    /// `RESERVE` on a handle that is still reserved. Replacement is `CLOSE`
    /// then `RESERVE`, never an overwrite.
    HandleInUse {
        /// The generation currently holding the handle.
        current: u64,
    },
}

impl SessionError {
    /// The rendered text.
    pub open spec fn text(self) -> Seq<char> {
        match self {
            SessionError::Unknown => "unknown voip session handle"@,
            SessionError::Stale { current } =>
            "stale voip session generation (handle now holds generation "@ + decimal(current as nat)
                + ")"@,
            SessionError::HandleInUse { current } =>
            "voip session handle still reserved at generation "@ + decimal(current as nat),
        }
    }

    /// Renders the error for a log or a caller.
    pub fn message(&self) -> (s: String)
        ensures
            s@ == self.text(),
    {
        match self {
            SessionError::Unknown => "unknown voip session handle".to_owned(),
            SessionError::Stale { current } => {
                let mut s =
                    "stale voip session generation (handle now holds generation ".to_owned();
                push_decimal(&mut s, *current);
                s.push_str(")");
                s
            },
            SessionError::HandleInUse { current } => {
                let mut s = "voip session handle still reserved at generation ".to_owned();
                push_decimal(&mut s, *current);
                s
            },
        }
    }
}

/// What a reservation binds a handle to.
#[derive(Debug, Clone, PartialEq, Eq)]
pub struct Reservation {
    /// The call this handle stands for.
    pub call_id: String,
    /// The generation currently holding the handle.
    pub generation: u64,
}

/// The values that a [`Reservation`] carries.
#[verifier::ext_equal]
pub struct ReservationView {
    pub call_id: Seq<char>,
    pub generation: u64,
}

impl View for Reservation {
    type V = ReservationView;

    open spec fn view(&self) -> ReservationView {
        ReservationView { call_id: self.call_id@, generation: self.generation }
    }
}

/// Handle-to-reservation registry with generation checks. Both sides keep
/// one: the core validates before dispatching, the engine before applying.
#[derive(Debug, Default)]
pub struct SessionTable {
    reserved: HashMap<u32, Reservation>,
}

impl View for SessionTable {
    type V = Map<u32, ReservationView>;

    closed spec fn view(&self) -> Map<u32, ReservationView> {
        self.reserved@.map_values(|r: Reservation| r@)
    }
}

/// Who holds the session's handle, where it is exactly this generation; the
/// error otherwise.
pub open spec fn validated(table: Map<u32, ReservationView>, session: SessionId) -> Result<
    ReservationView,
    SessionError,
> {
    if !table.dom().contains(session.handle) {
        Err(SessionError::Unknown)
    } else if table[session.handle].generation != session.generation {
        Err(SessionError::Stale { current: table[session.handle].generation })
    } else {
        Ok(table[session.handle])
    }
}

/// The registry after `session` asked for its handle on behalf of `call_id`:
/// a handle that is still reserved stays with its holder.
pub open spec fn reserved(
    table: Map<u32, ReservationView>,
    session: SessionId,
    call_id: Seq<char>,
) -> Map<u32, ReservationView> {
    if table.dom().contains(session.handle) {
        table
    } else {
        table.insert(
            session.handle,
            ReservationView { call_id, generation: session.generation },
        )
    }
}

impl SessionTable {
    /// An empty registry.
    pub fn new() -> (t: Self)
        ensures
            t@ == Map::<u32, ReservationView>::empty(),
    {
        let t = SessionTable { reserved: HashMap::new() };
        assert(t@ =~= Map::empty());
        t
    }

    /// Binds `session` to `call_id`. Fails when the handle is still
    /// reserved, whatever the generation: replacement closes first.
    pub fn reserve(&mut self, session: SessionId, call_id: &str) -> (res: Result<(), SessionError>)
        ensures
            final(self)@ == reserved(old(self)@, session, call_id@),
            res == if old(self)@.dom().contains(session.handle) {
                Err::<(), SessionError>(
                    SessionError::HandleInUse { current: old(self)@[session.handle].generation },
                )
            } else {
                Ok(())
            },
    {
        match self.reserved.get(&session.handle) {
            Some(current) => {
                return Err(SessionError::HandleInUse { current: current.generation });
            },
            None => {},
        }
        self.reserved.insert(
            session.handle,
            Reservation { call_id: call_id.to_owned(), generation: session.generation },
        );
        assert(self@ =~= reserved(old(self)@, session, call_id@));
        Ok(())
    }

    /// Checks a callback's identity: unknown handles and stale generations
    /// both fail, and only an exact generation passes.
    pub fn validate(&self, session: SessionId) -> (res: Result<&Reservation, SessionError>)
        ensures
            match res {
                Ok(r) => validated(self@, session) == Ok::<ReservationView, SessionError>(r@),
                Err(e) => validated(self@, session) == Err::<ReservationView, SessionError>(e),
            },
    {
        match self.reserved.get(&session.handle) {
            None => Err(SessionError::Unknown),
            Some(current) => if current.generation != session.generation {
                Err(SessionError::Stale { current: current.generation })
            } else {
                Ok(current)
            },
        }
    }

    /// Releases a handle. Closing is idempotent: dropping half-open state
    /// twice is normal on the teardown path.
    pub fn remove(&mut self, handle: u32)
        ensures
            final(self)@ == old(self)@.remove(handle),
    {
        self.reserved.remove(&handle);
        assert(self@ =~= old(self)@.remove(handle));
    }

    /// True while the handle is reserved at any generation.
    pub fn contains(&self, handle: u32) -> (b: bool)
        ensures
            b == self@.dom().contains(handle),
    {
        self.reserved.contains_key(&handle)
    }
}

/// A handle that was free validates for the generation that reserved it, and
/// for no other.
pub proof fn reserve_then_validate(
    table: Map<u32, ReservationView>,
    session: SessionId,
    call_id: Seq<char>,
    other: SessionId,
)
    requires
        !table.dom().contains(session.handle),
        other.handle == session.handle,
    ensures
        validated(reserved(table, session, call_id), session) == Ok::<
            ReservationView,
            SessionError,
        >(ReservationView { call_id, generation: session.generation }),
        other.generation != session.generation ==> validated(
            reserved(table, session, call_id),
            other,
        ) == Err::<ReservationView, SessionError>(
            SessionError::Stale { current: session.generation },
        ),
{
}

/// Reserving a handle that is still reserved changes nothing: replacement is
/// a close and then a reservation, never an overwrite.
pub proof fn reserve_never_overwrites(
    table: Map<u32, ReservationView>,
    session: SessionId,
    call_id: Seq<char>,
)
    requires
        table.dom().contains(session.handle),
    ensures
        reserved(table, session, call_id) == table,
{
}

/// Reserving and releasing one handle leaves every other session's validation
/// as it was.
pub proof fn other_handles_are_untouched(
    table: Map<u32, ReservationView>,
    session: SessionId,
    call_id: Seq<char>,
    other: SessionId,
)
    requires
        other.handle != session.handle,
    ensures
        validated(reserved(table, session, call_id), other) == validated(table, other),
        validated(table.remove(session.handle), other) == validated(table, other),
{
}

/// Once a handle was closed and reserved again, the old generation is stale
/// and the replacement alone validates.
pub proof fn a_stale_generation_never_touches_the_replacement(
    table: Map<u32, ReservationView>,
    gone: SessionId,
    replacement: SessionId,
    call_id: Seq<char>,
)
    requires
        gone.handle == replacement.handle,
        gone.generation != replacement.generation,
    ensures
        ({
            let after = reserved(table.remove(gone.handle), replacement, call_id);
            &&& validated(after, gone) == Err::<ReservationView, SessionError>(
                SessionError::Stale { current: replacement.generation },
            )
            &&& validated(after, replacement) is Ok
        }),
{
}

/// Releasing a handle twice is releasing it once, and afterwards the handle
/// is unknown at every generation.
pub proof fn remove_is_idempotent(table: Map<u32, ReservationView>, session: SessionId)
    ensures
        table.remove(session.handle).remove(session.handle) == table.remove(session.handle),
        validated(table.remove(session.handle), session) == Err::<ReservationView, SessionError>(
            SessionError::Unknown,
        ),
{
    assert(table.remove(session.handle).remove(session.handle) =~= table.remove(session.handle));
}

} // verus!
