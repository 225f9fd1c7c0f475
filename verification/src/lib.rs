//! Verified core of a diagnostic study of the series Sn = sum of 1/(i^2 - 1)
//! for i = 2..=n.
//!
//! The series is accumulated in single precision in two orders (ascending and
//! descending index) and compared against an exact closed-form reference.
//! Floating-point arithmetic itself cannot be verified, so this crate proves
//! everything around it:
//!
//! - `terms`: the exact integer denominators i^2 - 1 that every accumulation
//!   order draws on, and the proof that ascending and descending order sum
//!   the same multiset of terms;
//! - `oracle`: the closed-form reference value (3n^2 - n - 2) / (4n(n + 1))
//!   as an exact fraction, with a telescoping proof that it equals the exact
//!   sum of the series;
//! - `diagnostics`: the decision logic of the instrumented accumulator
//!   variants (sign-flip and zero-crossing detection, report rate limits,
//!   progress cadence, trace window and early exit);
//! - `overflow`: integer overflow policies (wrapping and checked addition)
//!   with exact contracts.

pub mod diagnostics;
pub mod oracle;
pub mod overflow;
pub mod terms;
