//! Plain snapshot records of the standard USB descriptors, as the report
//! renderer consumes them.
//!
//! Each record holds, as plain values, exactly the fields the report prints.
//! The surrounding program fills them from the host's USB stack; every string
//! that needs an open device handle (manufacturer, product, serial number,
//! configuration and interface names) arrives already resolved, with the
//! empty string standing for "no handle" or "read failed", matching the
//! best-effort behaviour of the walk.
use vstd::prelude::*;

verus! {

/// The negotiated speed of a device, as far as the host knows it.
#[derive(Clone, Copy)]
pub enum Speed {
    /// The operating system does not know the device speed.
    Unknown,
    /// Low speed (1.5 Mbps).
    Low,
    /// Full speed (12 Mbps).
    Full,
    /// High speed (480 Mbps).
    High,
    /// Super speed (5 Gbps).
    Super,
    /// Super speed plus (10 Gbps).
    SuperPlus,
}

/// A binary-coded-decimal protocol or device release number, split into its
/// printed parts.
pub struct Version {
    pub major: u8,
    pub minor: u8,
    pub sub_minor: u8,
}

/// The static metadata of one device, read once per device.
pub struct DeviceDesc {
    pub usb_version: Version,
    pub class_code: u8,
    pub sub_class_code: u8,
    pub protocol_code: u8,
    pub max_packet_size: u8,
    pub vendor_id: u16,
    pub product_id: u16,
    pub device_version: Version,
    pub manufacturer_string_index: Option<u8>,
    pub product_string_index: Option<u8>,
    pub serial_number_string_index: Option<u8>,
    pub num_configurations: u8,
}

/// The direction of an endpoint.
#[derive(Clone, Copy)]
pub enum Direction {
    In,
    Out,
}

/// The transfer type of an endpoint.
#[derive(Clone, Copy)]
pub enum TransferType {
    Control,
    Isochronous,
    Bulk,
    Interrupt,
}

/// The synchronisation type of an isochronous endpoint.
#[derive(Clone, Copy)]
pub enum SyncType {
    NoSync,
    Asynchronous,
    Adaptive,
    Synchronous,
}

/// The usage type of an isochronous endpoint.
#[derive(Clone, Copy)]
pub enum UsageType {
    Data,
    Feedback,
    FeedbackData,
    Reserved,
}

/// One communication endpoint of an interface.
pub struct EndpointInfo {
    pub address: u8,
    pub number: u8,
    pub direction: Direction,
    pub transfer_type: TransferType,
    pub sync_type: SyncType,
    pub usage_type: UsageType,
    pub max_packet_size: u16,
    pub interval: u8,
}

/// One interface/alternate-setting pair of a configuration.
pub struct InterfaceInfo {
    pub interface_number: u8,
    pub setting_number: u8,
    pub num_endpoints: u8,
    pub class_code: u8,
    pub sub_class_code: u8,
    pub protocol_code: u8,
    pub description_string_index: Option<u8>,
    /// The interface name string, empty when no handle was available or the
    /// read failed.
    pub description: String,
    pub extra: Vec<u8>,
    pub endpoints: Vec<EndpointInfo>,
}

/// One configuration a device can operate in.
pub struct ConfigInfo {
    pub num_interfaces: u8,
    pub number: u8,
    pub description_string_index: Option<u8>,
    /// The configuration name string, empty when no handle was available or
    /// the read failed.
    pub description: String,
    pub self_powered: bool,
    pub remote_wakeup: bool,
    pub max_power: u16,
    pub extra: Vec<u8>,
    pub interfaces: Vec<InterfaceInfo>,
}

/// Everything the report prints about one device.
///
/// `configs` holds only the configurations that could be read; a
/// configuration whose descriptor read failed is simply absent, so the list
/// may be shorter than `descriptor.num_configurations`.
pub struct DeviceInfo {
    pub bus_number: u8,
    pub address: u8,
    pub speed: Speed,
    pub descriptor: DeviceDesc,
    /// Resolved manufacturer string, empty without a handle.
    pub manufacturer: String,
    /// Resolved product string, empty without a handle.
    pub product: String,
    /// Resolved serial number string, empty without a handle.
    pub serial_number: String,
    pub configs: Vec<ConfigInfo>,
}

} // verus!
