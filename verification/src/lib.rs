//! A safety-oriented access layer over the native OpenCL enumeration API.
//!
//! The crate models platform and device discovery: the two-phase
//! size-probe-then-fetch query protocol, the translation of raw status codes
//! into a closed error taxonomy, the typed projection of raw query bytes into
//! scalars and strings, and the assembly of immutable platform snapshots.
//! The raw native calls themselves sit behind the [`native::NativeCl`] trait,
//! so every decision this crate makes about their results is verified.

pub mod device;
pub mod native;
pub mod platform;
pub mod query;
pub mod result;
pub mod text;
pub mod types;
