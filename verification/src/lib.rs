//! Client-side engine for typed read/write/enumerate operations on named
//! remote device settings, carried over an asynchronous message bus.
//!
//! The crate verifies the protocol core: the setting registry lookup, the
//! wire payload codec, typed value decoding, the callback registry, and the
//! request/response state machines.  Transport, threads and blocking
//! synchronisation live outside the verified library.

pub mod bridge;
pub mod codec;
pub mod engine;
pub mod enumerate;
pub mod errors;
pub mod registry;
pub mod text;
pub mod value;

pub use errors::Error;
pub use errors::ReadSettingError;
pub use errors::WriteSettingError;
pub use registry::lookup_setting;
pub use registry::Setting;
pub use registry::SettingKind;
pub use value::SettingValue;
