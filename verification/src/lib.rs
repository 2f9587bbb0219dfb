//! A safety-typed view over a managed runtime's arbitrary-precision
//! integer representation.
//!
//! The runtime represents every value as a tagged handle: integers small
//! enough for the immediate ("fixnum") encoding live in the handle itself,
//! larger ones point to a heap-allocated big-integer object. This crate
//! classifies a handle as a big integer, constructs big-integer handles
//! from native 64-bit integers (yielding the cheaper immediate encoding
//! when the value fits), and extracts native 64-bit integers back out,
//! turning the runtime's range-check fault into an ordinary error value.
//!
//! In the host runtime a handle stays valid only while it is reachable
//! from a root the collector scans. Here that discipline is embodied in
//! ownership: a handle owns what it denotes, a typed view holds its own
//! handle, and a borrowed handle is valid for exactly the borrow's scope,
//! so no operation can observe a reclaimed value.

pub mod limbs;
pub mod r_bignum;
pub mod value;

pub use r_bignum::RBignum;
pub use value::Fixnum;
pub use value::ProtectState;
pub use value::Value;
pub use value::ValueKind;
pub use value::FIXNUM_MAX;
pub use value::FIXNUM_MIN;
