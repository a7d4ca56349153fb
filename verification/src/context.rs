use vstd::prelude::*;
use vstd::pervasive::unreached;

use crate::id::GamepadId;
use crate::sequence::ConnectedGamepadsIterator;

verus! {

/// The capability interface every gamepad backend satisfies, so that a host
/// engine can own one backend polymorphically and swap or disable the
/// hardware implementation without touching call sites.
///
/// A backend exposes two pieces of ghost state: whether it is `ready` for
/// use at all, and which identifiers it `owns` (has issued). Every
/// operation demands a ready backend, so the disabled variant, which is
/// never ready, cannot be reached from verified code.
pub trait GamepadContext {
    /// A transient, read-only view of one controller's current state,
    /// as the concrete backend defines it.
    type Handle;

    /// One input event (button press or release, axis motion, connect or
    /// disconnect), as the concrete backend defines it.
    type Event;

    /// Whether this backend may be used at all. The disabled variant is
    /// never ready; a live variant is ready for its whole session.
    open spec fn ready(&self) -> bool {
        true
    }

    /// Whether this backend issued `id`, through an event or an
    /// enumeration pass. Only such identifiers may be resolved.
    open spec fn owns(&self, id: GamepadId) -> bool {
        true
    }

    /// Pops the next pending input event, or returns `None` when nothing is
    /// pending. Never blocks; only advances the backend's own queue cursor.
    /// The backend stays ready and keeps every identifier it issued.
    fn next_event(&mut self) -> (ev: Option<Self::Event>)
        requires
            old(self).ready(),
        ensures
            final(self).ready(),
            forall|id: GamepadId| old(self).owns(id) ==> final(self).owns(id),
    ;

    /// Returns the current-state view for an identifier this backend
    /// issued. A device that disconnected since the identifier was observed
    /// yields whatever stale view the backend defines, not an error.
    fn gamepad(&self, id: GamepadId) -> (handle: Self::Handle)
        requires
            self.ready(),
            self.owns(id),
    ;

    /// Enumerates the devices connected at this moment, paired with their
    /// identifiers. Every identifier the sequence produces is owned by this
    /// backend, so each of them may be resolved.
    fn gamepads(&self) -> (connected: ConnectedGamepadsIterator<Self::Handle>)
        requires
            self.ready(),
        ensures
            forall|i: int|
                0 <= i < connected@.len() ==> self.owns((#[trigger] connected@[i]).0),
    ;
}

/// A stateless stand-in used where gamepad support is compiled out,
/// unavailable on the platform, or intentionally off.
///
/// It is never ready, so no verified call site reaches its operations; an
/// unverified call halts the process instead of silently behaving as "no
/// gamepad ever connects", surfacing the misconfiguration loudly.
#[derive(Debug, Clone, Copy)]
pub struct NullGamepadContext {}

impl Default for NullGamepadContext {
    /// The disabled backend is a plain zero-state value.
    fn default() -> (ctx: NullGamepadContext)
        ensures
            ctx == (NullGamepadContext {}),
    {
        NullGamepadContext {}
    }
}

impl GamepadContext for NullGamepadContext {
    type Handle = ();

    type Event = ();

    open spec fn ready(&self) -> bool {
        false
    }

    open spec fn owns(&self, id: GamepadId) -> bool {
        false
    }

    fn next_event(&mut self) -> (ev: Option<()>) {
        unreached()
    }

    fn gamepad(&self, _id: GamepadId) -> (handle: ()) {
        unreached()
    }

    fn gamepads(&self) -> (connected: ConnectedGamepadsIterator<()>) {
        unreached()
    }
}

/// The slice of a host engine session that input calls go through: the one
/// backend the session chose at startup and exclusively owns, stored as
/// "anything satisfying the capability interface".
pub struct Context<C: GamepadContext> {
    /// The gamepad backend this session owns for its full lifetime.
    pub gamepad_context: C,
}

/// Returns the current-state view for `id` from the session's backend.
///
/// Application code calls this accessor, never a concrete backend type.
pub fn gamepad<C: GamepadContext>(ctx: &Context<C>, id: GamepadId) -> (handle: C::Handle)
    requires
        ctx.gamepad_context.ready(),
        ctx.gamepad_context.owns(id),
{
    ctx.gamepad_context.gamepad(id)
}

/// Enumerates all connected gamepads and their identifiers through the
/// session's backend.
///
/// Application code calls this accessor, never a concrete backend type.
pub fn gamepads<C: GamepadContext>(ctx: &Context<C>) -> (connected: ConnectedGamepadsIterator<C::Handle>)
    requires
        ctx.gamepad_context.ready(),
    ensures
        forall|i: int|
            0 <= i < connected@.len()
                ==> ctx.gamepad_context.owns((#[trigger] connected@[i]).0),
{
    ctx.gamepad_context.gamepads()
}

/// Every identifier an enumeration pass produces may be resolved: it meets
/// the precondition of `gamepad` on the backend that produced it, so
/// resolving it cannot be refused.
pub proof fn lemma_enumerated_id_resolvable<C: GamepadContext>(
    ctx: &C,
    connected: ConnectedGamepadsIterator<C::Handle>,
    i: int,
)
    requires
        ctx.ready(),
        forall|j: int|
            0 <= j < connected@.len() ==> ctx.owns((#[trigger] connected@[j]).0),
        0 <= i < connected@.len(),
    ensures
        ctx.owns(connected@[i].0),
{
}

/// Every capability operation demands a ready backend that owns the
/// identifiers handed to it, and the disabled variant is never ready and
/// owns nothing: no verified call site can invoke any operation on it, and
/// an unverified call halts rather than degrading silently.
pub proof fn lemma_disabled_backend_rejects_calls(ctx: &NullGamepadContext, id: GamepadId)
    ensures
        !ctx.ready(),
        !ctx.owns(id),
{
}

} // verus!
