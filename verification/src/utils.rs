//! Small general-purpose helpers: radix string conversion and the
//! snowflake identifier generator.

pub mod convectors;
pub mod snowflake;

pub use convectors::to_string_radix_signed;
pub use convectors::to_string_radix_unsigned;
