use std::collections::hash_map::DefaultHasher;
use std::hash::Hash;
use std::hash::Hasher;

use gamepad_core::BackendInitError;
use gamepad_core::ConnectedGamepadsIterator;
use gamepad_core::Context;
use gamepad_core::GamepadContext;
use gamepad_core::GamepadId;
use gamepad_core::gamepad;
use gamepad_core::gamepads;

fn hash_of(id: &GamepadId) -> u64 {
    let mut hasher = DefaultHasher::new();
    id.hash(&mut hasher);
    hasher.finish()
}

#[test]
fn id_same_native_value_equal() {
    let a = GamepadId::from_native(7);
    let b = GamepadId::from_native(7);
    assert_eq!(a, b);
    assert_eq!(hash_of(&a), hash_of(&b));
}

#[test]
fn id_different_native_value_unequal() {
    let a = GamepadId::from_native(0);
    let b = GamepadId::from_native(1);
    assert_ne!(a, b);
}

#[test]
fn id_copies_keep_native_value() {
    let a = GamepadId::from_native(42);
    let b = a;
    assert_eq!(a.native_value(), 42);
    assert_eq!(b.native_value(), 42);
    assert_eq!(a, b);
}

#[test]
fn empty_sequence_exhausted_immediately() {
    let mut connected: ConnectedGamepadsIterator<u32> =
        ConnectedGamepadsIterator::from_pairs(vec![]);
    assert_eq!(connected.remaining(), 0);
    assert!(connected.next().is_none());
    assert!(connected.next().is_none());
}

#[test]
fn sequence_yields_pairs_in_order_once() {
    let first = GamepadId::from_native(0);
    let second = GamepadId::from_native(3);
    let mut connected =
        ConnectedGamepadsIterator::from_pairs(vec![(first, 10u32), (second, 30u32)]);
    assert_eq!(connected.remaining(), 2);
    assert_eq!(connected.next(), Some((first, 10)));
    assert_eq!(connected.remaining(), 1);
    assert_eq!(connected.next(), Some((second, 30)));
    assert_eq!(connected.remaining(), 0);
    assert_eq!(connected.next(), None);
}

#[test]
fn init_error_keeps_message() {
    let e = BackendInitError::new(String::from("platform layer unavailable"));
    assert_eq!(e.message(), "platform layer unavailable");
}

/// A scripted backend standing in for a hardware-backed variant: it owns a
/// fixed snapshot of devices and a queue of pending events.
struct ScriptedBackend {
    devices: Vec<(GamepadId, u32)>,
    pending: Vec<u32>,
}

impl GamepadContext for ScriptedBackend {
    type Handle = u32;
    type Event = u32;

    fn next_event(&mut self) -> Option<u32> {
        if self.pending.is_empty() {
            None
        } else {
            Some(self.pending.remove(0))
        }
    }

    fn gamepad(&self, id: GamepadId) -> u32 {
        for (device, handle) in &self.devices {
            if *device == id {
                return *handle;
            }
        }
        0
    }

    fn gamepads(&self) -> ConnectedGamepadsIterator<u32> {
        ConnectedGamepadsIterator::from_pairs(self.devices.clone())
    }
}

#[test]
fn accessors_forward_to_stored_backend() {
    let id = GamepadId::from_native(5);
    let ctx = Context {
        gamepad_context: ScriptedBackend {
            devices: vec![(id, 55u32)],
            pending: vec![],
        },
    };
    assert_eq!(gamepad(&ctx, id), 55);
    let mut connected = gamepads(&ctx);
    assert_eq!(connected.next(), Some((id, 55)));
    assert_eq!(connected.next(), None);
}

#[test]
fn enumerated_ids_resolve_without_refusal() {
    let ctx = Context {
        gamepad_context: ScriptedBackend {
            devices: vec![
                (GamepadId::from_native(1), 11u32),
                (GamepadId::from_native(2), 22u32),
            ],
            pending: vec![],
        },
    };
    let mut connected = gamepads(&ctx);
    while let Some((id, handle)) = connected.next() {
        assert_eq!(gamepad(&ctx, id), handle);
    }
}

#[test]
fn idle_backend_polls_none_repeatedly() {
    let mut backend = ScriptedBackend {
        devices: vec![],
        pending: vec![],
    };
    assert_eq!(backend.next_event(), None);
    assert_eq!(backend.next_event(), None);
    assert_eq!(backend.next_event(), None);
    let mut connected = backend.gamepads();
    assert_eq!(connected.remaining(), 0);
    assert_eq!(connected.next(), None);
}

#[test]
fn session_scenario_enumerate_poll_teardown() {
    let mut ctx = Context {
        gamepad_context: ScriptedBackend {
            devices: vec![],
            pending: vec![],
        },
    };
    let mut connected = gamepads(&ctx);
    assert_eq!(connected.next(), None);
    assert_eq!(ctx.gamepad_context.next_event(), None);
    drop(ctx);
}

#[test]
fn events_drain_in_order_then_none() {
    let mut backend = ScriptedBackend {
        devices: vec![],
        pending: vec![8, 9],
    };
    assert_eq!(backend.next_event(), Some(8));
    assert_eq!(backend.next_event(), Some(9));
    assert_eq!(backend.next_event(), None);
}
