//! A resource-handle bridge between a host object and a sandboxed plugin.
//!
//! The host owns a [`Person`]. For one invocation it registers a mutable or a
//! read-only reference to that object in a [`StatePerson`] table under an opaque
//! handle, lets a [`Guest`] call back through the capability family of that handle,
//! and reclaims every handle when the guest returns. When no guest is available, or
//! the guest fails, the built-in behaviour runs instead, and the caller sees no error.
//!
//! Nothing here panics. A handle that does not resolve is answered with an
//! [`AccessError`]; a guest that runs into one gives up its call, and the bridge falls
//! back. What a guest has changed before it failed stays changed.

pub mod bridge;
pub mod person;
pub mod plugin;
pub mod surface;
pub mod table;
pub mod text;

pub use bridge::{Guest, GuestError, LoadState, Report};
pub use person::{Person, PersonView};
pub use plugin::DemoComponent;
pub use surface::{ResPerson, ResPersonMut};
pub use table::{AccessError, MaybePerson, StatePerson};
