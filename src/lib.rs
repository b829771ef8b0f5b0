//! A splittable pseudo-random number generator built on the SipHash-1-3
//! compression function.
//!
//! A generator can be forked into child generators whose streams are
//! independent of each other and of the parent's remaining stream. This
//! makes deterministic parallel random generation and random deterministic
//! functions possible. This is not a cryptographically secure generator.

pub mod sip;
pub mod siprng;
pub mod splittable;
pub mod hashing;

pub use siprng::{SipPrf, SipRng, SipRngSplit};
pub use splittable::{SplitRng, SplittableRng};
