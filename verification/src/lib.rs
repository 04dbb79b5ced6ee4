//! A parts-selection engine for passive electronic components.
//!
//! Given an abstract request (a nominal value with a unit label, a tolerance,
//! and an optional package filter) the engine normalizes the value to a fixed
//! base unit, computes an inclusive tolerance window, searches a read-only
//! catalog snapshot for candidate parts (exact value first, then the full
//! window), ranks the candidates deterministically, and returns the best one.
//!
//! All physical magnitudes are held internally as exact integer counts of the
//! family's smallest supported unit: picoohms, picofarads or picohenries.
//! Every accepted unit label is a power of ten above that base, so conversion
//! is exact and round-trips without loss.

mod ext;
pub mod capacitor;
pub mod catalog;
pub mod errors;
pub mod finder;
pub mod inductor;
pub mod ranking;
pub mod resistor;
pub mod resolver;
pub mod units;
pub mod window;
