use vstd::prelude::*;

verus! {

/// A unique identifier for one physical controller, valid for the lifetime
/// of the backend session that issued it.
///
/// An identifier wraps a single backend-native id value and is opaque to
/// application code: only a backend creates one, when it discovers or
/// reports a device, and only a backend looks inside one, when it resolves
/// the identifier back to a device view.
#[derive(Copy, Clone, Debug, PartialEq, Eq, Hash, Structural)]
pub struct GamepadId {
    raw: usize,
}

impl GamepadId {
    /// The backend-native value this identifier wraps.
    pub closed spec fn native(self) -> usize {
        self.raw
    }

    /// Wraps a backend-native id value in an opaque identifier.
    ///
    /// For backend implementations reporting a device; application code
    /// never constructs identifiers itself.
    pub fn from_native(raw: usize) -> (id: GamepadId)
        ensures
            id.native() == raw,
    {
        GamepadId { raw }
    }

    /// The backend-native value, for a backend resolving this identifier.
    pub fn native_value(&self) -> (raw: usize)
        ensures
            raw == self.native(),
    {
        self.raw
    }
}

/// Identity of controllers is structural: two identifiers are equal exactly
/// when the native values they wrap are equal. Equality, hashing and copying
/// all go by that one wrapped value.
pub proof fn lemma_id_equality(a: GamepadId, b: GamepadId)
    ensures
        (a == b) <==> (a.native() == b.native()),
{
}

} // verus!
