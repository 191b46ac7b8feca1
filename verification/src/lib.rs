//! Timezone-aware calendar values built on a zone-agnostic instant core.
//!
//! A zoned value stores a canonical (zone-independent) instant together with
//! one resolved offset state; the local wall-clock view is derived on demand.
//! Local-to-canonical resolution is three-way (a local value may denote zero,
//! one or two canonical instants); canonical-to-local resolution is total.

pub mod date;
pub mod datetime;
pub mod duration;
pub mod fixed;
pub mod laws;
pub mod naive_date;
pub mod naive_datetime;
pub mod naive_time;
pub mod offset;
pub mod render;
pub mod time;
pub mod transition;
pub mod utc;
pub mod weekday;
