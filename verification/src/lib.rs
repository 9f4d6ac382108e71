//! Handle lifecycle and callback bridging for a native audio engine.
//!
//! The crate is the decision core of a binding layer: it owns identifier
//! allocation, reference-counted ownership of the engine session and of each
//! loaded clip, the clip transport state machine, and the routing of
//! end-of-clip notifications to caller-supplied state. The native engine
//! itself (decoding, mixing, device I/O) stays outside: every operation here
//! works on plain values and, where the engine must act, returns the exact
//! [`native::NativeCall`] the surrounding process has to issue. Engine answers
//! (a load status, a device list, an end-of-clip event) come back in as plain
//! arguments.

pub mod context;
pub mod device;
pub mod errors;
pub mod handle;
pub mod ids;
pub mod laws;
pub mod loader;
pub mod naming;
pub mod native;
pub mod refcount;
pub mod table;
pub mod volume;
