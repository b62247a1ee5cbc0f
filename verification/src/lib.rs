//! Time-ordered 64-bit identifiers minted without a coordinator.
//!
//! An identifier packs, from the most significant bit down, the milliseconds
//! elapsed since a configurable epoch, a datacenter id, a worker id and a
//! per-millisecond sequence number. A [`SnowflakeBuilder`] validates the
//! field widths against the two instance ids and yields a [`Snowflake`],
//! which mints identifiers that strictly increase for as long as its clock
//! does not run backwards.
pub mod bits;
pub mod builder;
pub mod clock;
pub mod error;
pub mod generator;
pub mod laws;

pub use builder::SnowflakeBuilder;
pub use error::ClockFault;
pub use error::SnowflakeError;
pub use generator::Attempt;
pub use generator::Snowflake;
