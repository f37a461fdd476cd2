//! Size selection for integer primitives.
//!
//! Given a bound that is known when the program is built, the library names the
//! narrowest fixed-width integer type that holds it, and converts between that
//! narrow type and the host's register-width integer without losing a value.
//!
//! * `ShrinkUnsigned` and `ShrinkSigned` select the type (`u8` to `u128`, `i8` to `i128`).
//! * `SmallUnsigned` and `SmallSigned` widen to and narrow from `usize` and `isize`.
//! * `SmallUnsignedLabel` and `SmallSignedLabel` name the selected width as a value.
pub mod ladder;
pub mod signed;
pub mod unsigned;

pub use crate::signed::{ShrinkSigned, SmallSigned, SmallSignedLabel};
pub use crate::unsigned::{ShrinkUnsigned, SmallUnsigned, SmallUnsignedLabel};
