//! Conversions behind serialization adapters for two kinds of values.
//!
//! * Time quantities ([`duration::Duration`] and [`time_mark::TimeMark`]) are
//!   written as one whole number of nanoseconds, microseconds, milliseconds or
//!   seconds, and read back from such a number.
//! * Ordered collections of key-value pairs are written as a map and read back
//!   entry by entry, keeping every pair and its position.
//!
//! Everything here works on plain values: the caller owns the serializer and
//! hands over, or receives, the number or the entries that travel on the wire.
pub mod codec;
pub mod duration;
pub mod iter_map;
pub mod time_mark;
pub mod ts_micros;
pub mod ts_millis;
pub mod ts_nanos;
pub mod ts_secs;
pub mod unit;
pub mod wire;
