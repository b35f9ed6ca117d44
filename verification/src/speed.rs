//! The fixed speed-to-text lookup used in the per-device summary line.
use vstd::prelude::*;

use crate::descriptors::Speed;

verus! {

/// The text the summary line prints for a speed value.
pub open spec fn speed_text(speed: Speed) -> Seq<char> {
    match speed {
        Speed::SuperPlus => "10000 Mbps"@,
        Speed::Super => "5000 Mbps"@,
        Speed::High => " 480 Mbps"@,
        Speed::Full => "  12 Mbps"@,
        Speed::Low => " 1.5 Mbps"@,
        Speed::Unknown => "(unknown)"@,
    }
}

/// Maps a speed to its fixed display string; every speed outside the five
/// named ones renders as "(unknown)".
pub fn get_speed(speed: Speed) -> (r: &'static str)
    ensures
        r@ == speed_text(speed),
{
    match speed {
        Speed::SuperPlus => "10000 Mbps",
        Speed::Super => "5000 Mbps",
        Speed::High => " 480 Mbps",
        Speed::Full => "  12 Mbps",
        Speed::Low => " 1.5 Mbps",
        Speed::Unknown => "(unknown)",
    }
}

} // verus!
