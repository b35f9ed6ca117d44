//! Vendor and product display names, resolved from the static USB ID
//! database.
//!
//! The database is an immutable table compiled into the `usb_ids` crate, so
//! the name found for an ID is a function of the ID alone; the uninterpreted
//! spec functions below give those results names that the report's contracts
//! can speak of.
use vstd::prelude::*;

use usb_ids::FromId;

verus! {

/// The name the USB ID database holds for this vendor ID, if any.
pub uninterp spec fn vendor_name_of(vid: u16) -> Option<Seq<char>>;

/// The name the USB ID database holds for this (vendor, product) pair, if
/// any.
pub uninterp spec fn product_name_of(vid: u16, pid: u16) -> Option<Seq<char>>;

/// The view of an optional owned string.
pub open spec fn opt_string_view(s: Option<String>) -> Option<Seq<char>> {
    match s {
        Option::Some(name) => Option::Some(name@),
        Option::None => Option::None,
    }
}

/// Relies on `usb_ids::Vendor::from_id` and `usb_ids::Vendor::name`: a
/// lookup in the crate's static vendor table, so the result depends on the
/// vendor ID alone.
#[verifier::external_body]
pub fn vendor_name(vid: u16) -> (r: Option<String>)
    ensures
        opt_string_view(r) == vendor_name_of(vid),
{
    match usb_ids::Vendor::from_id(vid) {
        Some(vendor) => Some(vendor.name().to_string()),
        None => None,
    }
}

/// Relies on `usb_ids::Device::from_vid_pid` and `usb_ids::Device::name`: a
/// lookup in the crate's static device table, so the result depends on the
/// two IDs alone.
#[verifier::external_body]
pub fn product_name(vid: u16, pid: u16) -> (r: Option<String>)
    ensures
        opt_string_view(r) == product_name_of(vid, pid),
{
    match usb_ids::Device::from_vid_pid(vid, pid) {
        Some(device) => Some(device.name().to_string()),
        None => None,
    }
}

/// The text the device block prints for a vendor ID: the database name, or
/// "Unknown vendor" where the database has none.
pub open spec fn vendor_display(vid: u16) -> Seq<char> {
    match vendor_name_of(vid) {
        Option::Some(name) => name,
        Option::None => "Unknown vendor"@,
    }
}

/// The text the device block prints for a (vendor, product) pair: the
/// database name, or "Unknown product" where the database has none.
pub open spec fn product_display(vid: u16, pid: u16) -> Seq<char> {
    match product_name_of(vid, pid) {
        Option::Some(name) => name,
        Option::None => "Unknown product"@,
    }
}

/// A vendor ID the database cannot resolve always renders as
/// "Unknown vendor".
pub proof fn lemma_unresolved_vendor(vid: u16)
    requires
        vendor_name_of(vid) is None,
    ensures
        vendor_display(vid) == "Unknown vendor"@,
{
}

/// A (vendor, product) pair the database cannot resolve always renders as
/// "Unknown product".
pub proof fn lemma_unresolved_product(vid: u16, pid: u16)
    requires
        product_name_of(vid, pid) is None,
    ensures
        product_display(vid, pid) == "Unknown product"@,
{
}

/// Resolves the vendor display text for the device block.
pub fn vendor_display_string(vid: u16) -> (r: String)
    ensures
        r@ == vendor_display(vid),
{
    match vendor_name(vid) {
        Some(name) => name,
        None => String::from_str("Unknown vendor"),
    }
}

/// Resolves the product display text for the device block.
pub fn product_display_string(vid: u16, pid: u16) -> (r: String)
    ensures
        r@ == product_display(vid, pid),
{
    match product_name(vid, pid) {
        Some(name) => name,
        None => String::from_str("Unknown product"),
    }
}

} // verus!
