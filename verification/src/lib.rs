//! Renders the standard descriptors of USB devices as a fixed-width,
//! human-readable text report, together with a few small helper functions
//! exposed alongside it.
//!
//! The report rendering works on plain snapshot values (`DeviceInfo` and the
//! descriptor records it holds); reading those snapshots from the hardware is
//! left to the surrounding program. Vendor and product display names are
//! resolved from the static USB ID database.
pub mod arith;
pub mod descriptors;
pub mod echo;
pub mod names;
pub mod report;
pub mod speed;
pub mod textfmt;
