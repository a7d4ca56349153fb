//! A small abstraction layer decoupling a host engine from its gamepad
//! input backend: an opaque device identifier, a single-pass sequence of
//! connected devices, the capability interface every backend satisfies,
//! a disabled stand-in backend, and the two accessors application code
//! goes through.

mod context;
mod error;
mod id;
mod sequence;

pub use context::Context;
pub use context::GamepadContext;
pub use context::NullGamepadContext;
pub use context::gamepad;
pub use context::gamepads;
pub use context::lemma_disabled_backend_rejects_calls;
pub use context::lemma_enumerated_id_resolvable;
pub use error::BackendInitError;
pub use id::GamepadId;
pub use id::lemma_id_equality;
pub use sequence::ConnectedGamepadsIterator;
