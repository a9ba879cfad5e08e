//! Verified core of a binding to prism, the platform-agnostic reader
//! interface for speech, braille and screen reader output.
//!
//! prism unifies screen readers and text-to-speech engines behind one C
//! interface. This crate holds what the binding decides on its side of that
//! interface: what prism's status codes mean, which features a backend
//! declares, how a context is configured, how a custom backend's vtable is
//! laid out and what it answers, how text crosses into and out of C, and how
//! a backend's voices are enumerated.

pub mod context;
pub mod error;
pub mod features;
pub mod id;
pub mod log;
pub mod raw;
pub mod registry;
pub mod text;
pub mod voices;

pub use crate::context::{Builder, PollSettings};
pub use crate::error::{check, require_handle, to_code, Error, HandleKind};
pub use crate::features::Features;
pub use crate::id::BackendId;
pub use crate::log::Level;
pub use crate::raw::{PrismBackend, PrismContext, PrismRegistry, PrismRegistryBuilder};
pub use crate::registry::{
    priority_code, priority_override_code, text_reply, value_reply, vtable_for, VTableSlots,
};
pub use crate::text::{copy_cstr, to_cstring};
pub use crate::voices::{Voice, VoiceListing, VoiceQuery};

use vstd::prelude::*;

verus! {

/// A specialized `Result` type for prism operations.
pub type Result<T> = core::result::Result<T, Error>;

} // verus!
