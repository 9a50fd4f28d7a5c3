//! Hardware-telemetry sampling core: CPU usage deltas over cumulative kernel
//! counters, a vendor-abstracted GPU metric surface, and fixed-point unit
//! formatting for human-readable display strings.
//!
//! Quantities that the original kernel interfaces report fractionally are
//! carried as fixed-point integers in hundredths of the display unit:
//! temperatures in centi-degrees, power in centi-watts, scaled magnitudes in
//! hundredths of the prefixed unit.

pub mod cpu;
pub mod gpu;
pub mod pci;
pub mod settings;
pub mod text;
pub mod units;

