//! The descriptor report: one spec function per block of the report pins the
//! exact text, and the rendering functions are proved to produce it.
//!
//! The layout follows the walk of the USB topology: a summary line and a
//! device block per device, then for each readable configuration its block,
//! then per interface/alternate setting its block, then per endpoint its
//! block. Indentation grows by two spaces per level.
//!
//! The configuration and interface blocks end with an extra-descriptor line;
//! both print the raw bytes when extra bytes are present and a fixed marker
//! when there are none, one consistent policy for the two blocks.
use vstd::prelude::*;

use crate::descriptors::ConfigInfo;
use crate::descriptors::DeviceInfo;
use crate::descriptors::Direction;
use crate::descriptors::EndpointInfo;
use crate::descriptors::InterfaceInfo;
use crate::descriptors::SyncType;
use crate::descriptors::TransferType;
use crate::descriptors::UsageType;
use crate::descriptors::Version;
use crate::names::product_display;
use crate::names::product_display_string;
use crate::names::vendor_display;
use crate::names::vendor_display_string;
use crate::speed::get_speed;
use crate::speed::speed_text;
use crate::textfmt::append_dec;
use crate::textfmt::append_dec_padded;
use crate::textfmt::append_hex_padded;
use crate::textfmt::dec_seq;
use crate::textfmt::hex_seq;
use crate::textfmt::pad_left;

verus! {

/// Concatenation of character sequences is associative.
proof fn seq_add_assoc(a: Seq<char>, b: Seq<char>, c: Seq<char>)
    ensures
        (a + b) + c == a + (b + c),
{
    assert((a + b) + c =~= a + (b + c));
}

/// The empty sequence is a right identity of concatenation.
proof fn seq_add_empty(a: Seq<char>)
    ensures
        a + Seq::<char>::empty() == a,
{
    assert(a + Seq::<char>::empty() =~= a);
}

/// The index a string-table field prints: the descriptor's index, or zero
/// where the descriptor has none.
pub open spec fn opt_index(idx: Option<u8>) -> int {
    match idx {
        Option::Some(v) => v as int,
        Option::None => 0,
    }
}

/// A field line of a decimal value: label, value right-aligned in `width`
/// columns, newline.
pub open spec fn dec_field(label: Seq<char>, n: int, width: int) -> Seq<char> {
    label + pad_left(dec_seq(n), width, ' ') + "\n"@
}

/// A field line of a hexadecimal value: label, `0x`, value zero-padded to
/// `digits` digits, newline.
pub open spec fn hex_field(label: Seq<char>, n: int, digits: int) -> Seq<char> {
    label + "0x"@ + pad_left(hex_seq(n), digits, '0') + "\n"@
}

/// An ID field line: label, the ID in four hexadecimal digits after `0x`, a
/// space, and the resolved display name.
pub open spec fn id_field(label: Seq<char>, n: int, name: Seq<char>) -> Seq<char> {
    label + "0x"@ + pad_left(hex_seq(n), 4, '0') + " "@ + name + "\n"@
}

/// A field line of a string-table entry: label, index right-aligned in three
/// columns, one space, the resolved string (empty when unresolved), newline.
pub open spec fn string_field(label: Seq<char>, idx: int, s: Seq<char>) -> Seq<char> {
    label + pad_left(dec_seq(idx), 3, ' ') + " "@ + s + "\n"@
}

/// A field line of a boolean flag, right-aligned in five columns.
pub open spec fn bool_field(label: Seq<char>, b: bool) -> Seq<char> {
    label + (if b {
        " true"@
    } else {
        "false"@
    }) + "\n"@
}

/// A field line of plain text after a label.
pub open spec fn text_field(label: Seq<char>, s: Seq<char>) -> Seq<char> {
    label + s + "\n"@
}

/// A field line of a binary-coded-decimal version number: major right-aligned
/// in two columns, a dot, then the minor and sub-minor digits.
pub open spec fn version_field(label: Seq<char>, v: Version) -> Seq<char> {
    label + pad_left(dec_seq(v.major as int), 2, ' ') + "."@ + dec_seq(v.minor as int) + dec_seq(
        v.sub_minor as int,
    ) + "\n"@
}

fn append_dec_field(out: &mut String, label: &str, n: u64, width: usize)
    requires
        n < 100000,
    ensures
        final(out)@ == old(out)@ + dec_field(label@, n as int, width as int),
{
    proof {
        reveal_strlit(" ");
    }
    out.append(label);
    append_dec_padded(out, n, width, " ");
    out.append("\n");
    proof {
        assert(" "@ =~= seq![' ']);
        assert(out@ =~= old(out)@ + dec_field(label@, n as int, width as int));
    }
}

fn append_hex_field(out: &mut String, label: &str, n: u64, digits: usize)
    requires
        n <= 0xffff,
    ensures
        final(out)@ == old(out)@ + hex_field(label@, n as int, digits as int),
{
    proof {
        reveal_strlit("0");
    }
    out.append(label);
    out.append("0x");
    append_hex_padded(out, n, digits, "0");
    out.append("\n");
    proof {
        assert("0"@ =~= seq!['0']);
        assert(out@ =~= old(out)@ + hex_field(label@, n as int, digits as int));
    }
}

fn append_id_field(out: &mut String, label: &str, n: u64, name: &str)
    requires
        n <= 0xffff,
    ensures
        final(out)@ == old(out)@ + id_field(label@, n as int, name@),
{
    proof {
        reveal_strlit("0");
    }
    out.append(label);
    out.append("0x");
    append_hex_padded(out, n, 4, "0");
    out.append(" ");
    out.append(name);
    out.append("\n");
    proof {
        assert("0"@ =~= seq!['0']);
        assert(out@ =~= old(out)@ + id_field(label@, n as int, name@));
    }
}

fn append_string_field(out: &mut String, label: &str, idx: u8, s: &str)
    ensures
        final(out)@ == old(out)@ + string_field(label@, idx as int, s@),
{
    proof {
        reveal_strlit(" ");
    }
    out.append(label);
    append_dec_padded(out, idx as u64, 3, " ");
    out.append(" ");
    out.append(s);
    out.append("\n");
    proof {
        assert(" "@ =~= seq![' ']);
        assert(out@ =~= old(out)@ + string_field(label@, idx as int, s@));
    }
}

fn append_bool_field(out: &mut String, label: &str, b: bool)
    ensures
        final(out)@ == old(out)@ + bool_field(label@, b),
{
    out.append(label);
    if b {
        out.append(" true");
    } else {
        out.append("false");
    }
    out.append("\n");
    proof {
        assert(out@ =~= old(out)@ + bool_field(label@, b));
    }
}

fn append_text_field(out: &mut String, label: &str, s: &str)
    ensures
        final(out)@ == old(out)@ + text_field(label@, s@),
{
    out.append(label);
    out.append(s);
    out.append("\n");
    proof {
        assert(out@ =~= old(out)@ + text_field(label@, s@));
    }
}

fn append_version_field(out: &mut String, label: &str, v: &Version)
    ensures
        final(out)@ == old(out)@ + version_field(label@, *v),
{
    proof {
        reveal_strlit(" ");
    }
    out.append(label);
    append_dec_padded(out, v.major as u64, 2, " ");
    out.append(".");
    append_dec(out, v.minor as u64);
    append_dec(out, v.sub_minor as u64);
    out.append("\n");
    proof {
        assert(" "@ =~= seq![' ']);
        assert(out@ =~= old(out)@ + version_field(label@, *v));
    }
}

/// The debug rendering of the extra descriptor bytes, without the brackets:
/// the bytes in decimal, separated by comma and space.
pub open spec fn bytes_items(s: Seq<u8>) -> Seq<char>
    decreases s.len(),
{
    if s.len() == 0 {
        Seq::empty()
    } else if s.len() == 1 {
        dec_seq(s[0] as int)
    } else {
        bytes_items(s.drop_last()) + ", "@ + dec_seq(s.last() as int)
    }
}

/// The extra-descriptor line of a configuration or interface block: the raw
/// bytes in list form when present, a fixed marker when absent.
pub open spec fn extra_line(extra: Seq<u8>) -> Seq<char> {
    if extra.len() == 0 {
        "    no extra data\n"@
    } else {
        "    ["@ + bytes_items(extra) + "]\n"@
    }
}

fn append_extra_line(out: &mut String, extra: &Vec<u8>)
    ensures
        final(out)@ == old(out)@ + extra_line(extra@),
{
    if extra.len() == 0 {
        out.append("    no extra data\n");
    } else {
        out.append("    [");
        proof {
            assert(bytes_items(extra@.take(0)) =~= Seq::<char>::empty());
            assert(out@ =~= old(out)@ + "    ["@ + bytes_items(extra@.take(0)));
        }
        let mut i: usize = 0;
        while i < extra.len()
            invariant
                i <= extra@.len(),
                out@ == old(out)@ + "    ["@ + bytes_items(extra@.take(i as int)),
            decreases extra@.len() - i,
        {
            if i > 0 {
                out.append(", ");
            }
            append_dec(out, extra[i] as u64);
            i = i + 1;
            proof {
                assert(extra@.take(i as int).drop_last() =~= extra@.take(i as int - 1));
                assert(out@ =~= old(out)@ + "    ["@ + bytes_items(extra@.take(i as int)));
            }
        }
        proof {
            assert(extra@.take(extra@.len() as int) =~= extra@);
        }
        out.append("]\n");
        proof {
            assert(out@ =~= old(out)@ + extra_line(extra@));
        }
    }
}

/// The display name of an endpoint direction.
pub open spec fn direction_text(d: Direction) -> Seq<char> {
    match d {
        Direction::In => "In"@,
        Direction::Out => "Out"@,
    }
}

/// The display name of a transfer type.
pub open spec fn transfer_text(t: TransferType) -> Seq<char> {
    match t {
        TransferType::Control => "Control"@,
        TransferType::Isochronous => "Isochronous"@,
        TransferType::Bulk => "Bulk"@,
        TransferType::Interrupt => "Interrupt"@,
    }
}

/// The display name of a synchronisation type.
pub open spec fn sync_text(t: SyncType) -> Seq<char> {
    match t {
        SyncType::NoSync => "NoSync"@,
        SyncType::Asynchronous => "Asynchronous"@,
        SyncType::Adaptive => "Adaptive"@,
        SyncType::Synchronous => "Synchronous"@,
    }
}

/// The display name of a usage type.
pub open spec fn usage_text(t: UsageType) -> Seq<char> {
    match t {
        UsageType::Data => "Data"@,
        UsageType::Feedback => "Feedback"@,
        UsageType::FeedbackData => "FeedbackData"@,
        UsageType::Reserved => "Reserved"@,
    }
}

fn direction_str(d: Direction) -> (r: &'static str)
    ensures
        r@ == direction_text(d),
{
    match d {
        Direction::In => "In",
        Direction::Out => "Out",
    }
}

fn transfer_str(t: TransferType) -> (r: &'static str)
    ensures
        r@ == transfer_text(t),
{
    match t {
        TransferType::Control => "Control",
        TransferType::Isochronous => "Isochronous",
        TransferType::Bulk => "Bulk",
        TransferType::Interrupt => "Interrupt",
    }
}

fn sync_str(t: SyncType) -> (r: &'static str)
    ensures
        r@ == sync_text(t),
{
    match t {
        SyncType::NoSync => "NoSync",
        SyncType::Asynchronous => "Asynchronous",
        SyncType::Adaptive => "Adaptive",
        SyncType::Synchronous => "Synchronous",
    }
}

fn usage_str(t: UsageType) -> (r: &'static str)
    ensures
        r@ == usage_text(t),
{
    match t {
        UsageType::Data => "Data",
        UsageType::Feedback => "Feedback",
        UsageType::FeedbackData => "FeedbackData",
        UsageType::Reserved => "Reserved",
    }
}

/// The address line of an endpoint block: address in hexadecimal, logical
/// endpoint number, direction.
pub open spec fn endpoint_address_line(e: EndpointInfo) -> Seq<char> {
    "        bEndpointAddress    "@ + "0x"@ + pad_left(hex_seq(e.address as int), 2, '0') + " EP "@
        + dec_seq(e.number as int) + " "@ + direction_text(e.direction) + "\n"@
}

fn append_endpoint_address_line(out: &mut String, e: &EndpointInfo)
    ensures
        final(out)@ == old(out)@ + endpoint_address_line(*e),
{
    proof {
        reveal_strlit("0");
    }
    out.append("        bEndpointAddress    ");
    out.append("0x");
    append_hex_padded(out, e.address as u64, 2, "0");
    out.append(" EP ");
    append_dec(out, e.number as u64);
    out.append(" ");
    out.append(direction_str(e.direction));
    out.append("\n");
    proof {
        assert("0"@ =~= seq!['0']);
        assert(out@ =~= old(out)@ + endpoint_address_line(*e));
    }
}

/// The block of lines the report prints for one endpoint, all fields
/// verbatim from the descriptor.
pub open spec fn endpoint_block(e: EndpointInfo) -> Seq<char> {
    "      Endpoint Descriptor:\n"@ + endpoint_address_line(e) + "        bmAttributes:\n"@
        + text_field("          Transfer Type          "@, transfer_text(e.transfer_type))
        + text_field("          Synch Type             "@, sync_text(e.sync_type)) + text_field(
        "          Usage Type             "@,
        usage_text(e.usage_type),
    ) + hex_field("        wMaxPacketSize    "@, e.max_packet_size as int, 4) + dec_field(
        "        bInterval            "@,
        e.interval as int,
        3,
    )
}

/// Renders the endpoint block.
pub fn print_endpoint(out: &mut String, e: &EndpointInfo)
    ensures
        final(out)@ == old(out)@ + endpoint_block(*e),
{
    let ghost o = out@;
    out.append("      Endpoint Descriptor:\n");
    let ghost p = "      Endpoint Descriptor:\n"@;
    append_endpoint_address_line(out, e);
    proof {
        seq_add_assoc(o, p, endpoint_address_line(*e));
    }
    let ghost p = p + endpoint_address_line(*e);
    out.append("        bmAttributes:\n");
    proof {
        seq_add_assoc(o, p, "        bmAttributes:\n"@);
    }
    let ghost p = p + "        bmAttributes:\n"@;
    append_text_field(out, "          Transfer Type          ", transfer_str(e.transfer_type));
    proof {
        seq_add_assoc(
            o,
            p,
            text_field("          Transfer Type          "@, transfer_text(e.transfer_type)),
        );
    }
    let ghost p = p + text_field(
        "          Transfer Type          "@,
        transfer_text(e.transfer_type),
    );
    append_text_field(out, "          Synch Type             ", sync_str(e.sync_type));
    proof {
        seq_add_assoc(
            o,
            p,
            text_field("          Synch Type             "@, sync_text(e.sync_type)),
        );
    }
    let ghost p = p + text_field("          Synch Type             "@, sync_text(e.sync_type));
    append_text_field(out, "          Usage Type             ", usage_str(e.usage_type));
    proof {
        seq_add_assoc(
            o,
            p,
            text_field("          Usage Type             "@, usage_text(e.usage_type)),
        );
    }
    let ghost p = p + text_field("          Usage Type             "@, usage_text(e.usage_type));
    append_hex_field(out, "        wMaxPacketSize    ", e.max_packet_size as u64, 4);
    proof {
        seq_add_assoc(o, p, hex_field("        wMaxPacketSize    "@, e.max_packet_size as int, 4));
    }
    let ghost p = p + hex_field("        wMaxPacketSize    "@, e.max_packet_size as int, 4);
    append_dec_field(out, "        bInterval            ", e.interval as u64, 3);
    proof {
        seq_add_assoc(o, p, dec_field("        bInterval            "@, e.interval as int, 3));
        assert(endpoint_block(*e) == p + dec_field(
            "        bInterval            "@,
            e.interval as int,
            3,
        ));
    }
}

/// The block of lines the report prints for one interface/alternate setting.
pub open spec fn interface_block(i: InterfaceInfo) -> Seq<char> {
    "    Interface Descriptor:\n"@ + dec_field(
        "      bInterfaceNumber     "@,
        i.interface_number as int,
        3,
    ) + dec_field("      bAlternateSetting    "@, i.setting_number as int, 3) + dec_field(
        "      bNumEndpoints        "@,
        i.num_endpoints as int,
        3,
    ) + hex_field("      bInterfaceClass     "@, i.class_code as int, 2) + hex_field(
        "      bInterfaceSubClass  "@,
        i.sub_class_code as int,
        2,
    ) + hex_field("      bInterfaceProtocol  "@, i.protocol_code as int, 2) + string_field(
        "      iInterface           "@,
        opt_index(i.description_string_index),
        i.description@,
    ) + extra_line(i.extra@)
}

/// Renders the interface block.
pub fn print_interface(out: &mut String, i: &InterfaceInfo)
    ensures
        final(out)@ == old(out)@ + interface_block(*i),
{
    let ghost o = out@;
    out.append("    Interface Descriptor:\n");
    let ghost p = "    Interface Descriptor:\n"@;
    append_dec_field(out, "      bInterfaceNumber     ", i.interface_number as u64, 3);
    proof {
        seq_add_assoc(o, p, dec_field("      bInterfaceNumber     "@, i.interface_number as int, 3));
    }
    let ghost p = p + dec_field("      bInterfaceNumber     "@, i.interface_number as int, 3);
    append_dec_field(out, "      bAlternateSetting    ", i.setting_number as u64, 3);
    proof {
        seq_add_assoc(o, p, dec_field("      bAlternateSetting    "@, i.setting_number as int, 3));
    }
    let ghost p = p + dec_field("      bAlternateSetting    "@, i.setting_number as int, 3);
    append_dec_field(out, "      bNumEndpoints        ", i.num_endpoints as u64, 3);
    proof {
        seq_add_assoc(o, p, dec_field("      bNumEndpoints        "@, i.num_endpoints as int, 3));
    }
    let ghost p = p + dec_field("      bNumEndpoints        "@, i.num_endpoints as int, 3);
    append_hex_field(out, "      bInterfaceClass     ", i.class_code as u64, 2);
    proof {
        seq_add_assoc(o, p, hex_field("      bInterfaceClass     "@, i.class_code as int, 2));
    }
    let ghost p = p + hex_field("      bInterfaceClass     "@, i.class_code as int, 2);
    append_hex_field(out, "      bInterfaceSubClass  ", i.sub_class_code as u64, 2);
    proof {
        seq_add_assoc(o, p, hex_field("      bInterfaceSubClass  "@, i.sub_class_code as int, 2));
    }
    let ghost p = p + hex_field("      bInterfaceSubClass  "@, i.sub_class_code as int, 2);
    append_hex_field(out, "      bInterfaceProtocol  ", i.protocol_code as u64, 2);
    proof {
        seq_add_assoc(o, p, hex_field("      bInterfaceProtocol  "@, i.protocol_code as int, 2));
    }
    let ghost p = p + hex_field("      bInterfaceProtocol  "@, i.protocol_code as int, 2);
    let idx: u8 = match i.description_string_index {
        Some(v) => v,
        None => 0,
    };
    append_string_field(out, "      iInterface           ", idx, i.description.as_str());
    proof {
        seq_add_assoc(
            o,
            p,
            string_field(
                "      iInterface           "@,
                opt_index(i.description_string_index),
                i.description@,
            ),
        );
    }
    let ghost p = p + string_field(
        "      iInterface           "@,
        opt_index(i.description_string_index),
        i.description@,
    );
    append_extra_line(out, &i.extra);
    proof {
        seq_add_assoc(o, p, extra_line(i.extra@));
        assert(interface_block(*i) == p + extra_line(i.extra@));
    }
}

/// The block of lines the report prints for one configuration.
pub open spec fn config_block(c: ConfigInfo) -> Seq<char> {
    "  Config Descriptor:\n"@ + dec_field(
        "    bNumInterfaces       "@,
        c.num_interfaces as int,
        3,
    ) + dec_field("    bConfigurationValue  "@, c.number as int, 3) + string_field(
        "    iConfiguration       "@,
        opt_index(c.description_string_index),
        c.description@,
    ) + "    bmAttributes:\n"@ + bool_field("      Self Powered     "@, c.self_powered)
        + bool_field("      Remote Wakeup    "@, c.remote_wakeup) + (
    "    bMaxPower           "@ + pad_left(dec_seq(c.max_power as int), 4, ' ') + "mW\n"@)
        + extra_line(c.extra@)
}

/// Renders the configuration block.
pub fn print_config(out: &mut String, c: &ConfigInfo)
    ensures
        final(out)@ == old(out)@ + config_block(*c),
{
    let ghost o = out@;
    out.append("  Config Descriptor:\n");
    let ghost p = "  Config Descriptor:\n"@;
    append_dec_field(out, "    bNumInterfaces       ", c.num_interfaces as u64, 3);
    proof {
        seq_add_assoc(o, p, dec_field("    bNumInterfaces       "@, c.num_interfaces as int, 3));
    }
    let ghost p = p + dec_field("    bNumInterfaces       "@, c.num_interfaces as int, 3);
    append_dec_field(out, "    bConfigurationValue  ", c.number as u64, 3);
    proof {
        seq_add_assoc(o, p, dec_field("    bConfigurationValue  "@, c.number as int, 3));
    }
    let ghost p = p + dec_field("    bConfigurationValue  "@, c.number as int, 3);
    let idx: u8 = match c.description_string_index {
        Some(v) => v,
        None => 0,
    };
    append_string_field(out, "    iConfiguration       ", idx, c.description.as_str());
    proof {
        seq_add_assoc(
            o,
            p,
            string_field(
                "    iConfiguration       "@,
                opt_index(c.description_string_index),
                c.description@,
            ),
        );
    }
    let ghost p = p + string_field(
        "    iConfiguration       "@,
        opt_index(c.description_string_index),
        c.description@,
    );
    out.append("    bmAttributes:\n");
    proof {
        seq_add_assoc(o, p, "    bmAttributes:\n"@);
    }
    let ghost p = p + "    bmAttributes:\n"@;
    append_bool_field(out, "      Self Powered     ", c.self_powered);
    proof {
        seq_add_assoc(o, p, bool_field("      Self Powered     "@, c.self_powered));
    }
    let ghost p = p + bool_field("      Self Powered     "@, c.self_powered);
    append_bool_field(out, "      Remote Wakeup    ", c.remote_wakeup);
    proof {
        seq_add_assoc(o, p, bool_field("      Remote Wakeup    "@, c.remote_wakeup));
    }
    let ghost p = p + bool_field("      Remote Wakeup    "@, c.remote_wakeup);
    let ghost before_power = out@;
    proof {
        reveal_strlit(" ");
    }
    out.append("    bMaxPower           ");
    append_dec_padded(out, c.max_power as u64, 4, " ");
    out.append("mW\n");
    proof {
        assert(" "@ =~= seq![' ']);
        assert(out@ =~= before_power + ("    bMaxPower           "@ + pad_left(
            dec_seq(c.max_power as int),
            4,
            ' ',
        ) + "mW\n"@));
        seq_add_assoc(
            o,
            p,
            "    bMaxPower           "@ + pad_left(dec_seq(c.max_power as int), 4, ' ') + "mW\n"@,
        );
    }
    let ghost p = p + ("    bMaxPower           "@ + pad_left(dec_seq(c.max_power as int), 4, ' ')
        + "mW\n"@);
    append_extra_line(out, &c.extra);
    proof {
        seq_add_assoc(o, p, extra_line(c.extra@));
        assert(config_block(*c) == p + extra_line(c.extra@));
    }
}

/// The summary line of one device: bus, address, IDs and speed.
pub open spec fn summary_line(dev: DeviceInfo) -> Seq<char> {
    "Bus "@ + pad_left(dec_seq(dev.bus_number as int), 3, '0') + " Device "@ + pad_left(
        dec_seq(dev.address as int),
        3,
        '0',
    ) + " ID "@ + pad_left(hex_seq(dev.descriptor.vendor_id as int), 4, '0') + ":"@ + pad_left(
        hex_seq(dev.descriptor.product_id as int),
        4,
        '0',
    ) + " "@ + speed_text(dev.speed) + "\n"@
}

/// Renders the summary line.
pub fn print_summary(out: &mut String, dev: &DeviceInfo)
    ensures
        final(out)@ == old(out)@ + summary_line(*dev),
{
    proof {
        reveal_strlit("0");
    }
    out.append("Bus ");
    append_dec_padded(out, dev.bus_number as u64, 3, "0");
    out.append(" Device ");
    append_dec_padded(out, dev.address as u64, 3, "0");
    out.append(" ID ");
    append_hex_padded(out, dev.descriptor.vendor_id as u64, 4, "0");
    out.append(":");
    append_hex_padded(out, dev.descriptor.product_id as u64, 4, "0");
    out.append(" ");
    out.append(get_speed(dev.speed));
    out.append("\n");
    proof {
        assert("0"@ =~= seq!['0']);
        assert(out@ =~= old(out)@ + summary_line(*dev));
    }
}

/// The device block: the device descriptor's fields, with the vendor and
/// product names resolved from the USB ID database and the string-table
/// fields carrying their resolved strings (empty without a handle).
pub open spec fn device_block(dev: DeviceInfo) -> Seq<char> {
    "Device Descriptor:\n"@ + version_field("  bcdUSB             "@, dev.descriptor.usb_version)
        + hex_field("  bDeviceClass        "@, dev.descriptor.class_code as int, 2) + hex_field(
        "  bDeviceSubClass     "@,
        dev.descriptor.sub_class_code as int,
        2,
    ) + hex_field("  bDeviceProtocol     "@, dev.descriptor.protocol_code as int, 2) + dec_field(
        "  bMaxPacketSize0      "@,
        dev.descriptor.max_packet_size as int,
        3,
    ) + id_field(
        "  idVendor          "@,
        dev.descriptor.vendor_id as int,
        vendor_display(dev.descriptor.vendor_id),
    ) + id_field(
        "  idProduct         "@,
        dev.descriptor.product_id as int,
        product_display(dev.descriptor.vendor_id, dev.descriptor.product_id),
    ) + version_field("  bcdDevice          "@, dev.descriptor.device_version) + string_field(
        "  iManufacturer        "@,
        opt_index(dev.descriptor.manufacturer_string_index),
        dev.manufacturer@,
    ) + string_field(
        "  iProduct             "@,
        opt_index(dev.descriptor.product_string_index),
        dev.product@,
    ) + string_field(
        "  iSerialNumber        "@,
        opt_index(dev.descriptor.serial_number_string_index),
        dev.serial_number@,
    ) + dec_field("  bNumConfigurations   "@, dev.descriptor.num_configurations as int, 3)
}

/// Renders the device block.
pub fn print_device(out: &mut String, dev: &DeviceInfo)
    ensures
        final(out)@ == old(out)@ + device_block(*dev),
{
    let ghost o = out@;
    let d = &dev.descriptor;
    out.append("Device Descriptor:\n");
    let ghost p = "Device Descriptor:\n"@;
    append_version_field(out, "  bcdUSB             ", &d.usb_version);
    proof {
        seq_add_assoc(o, p, version_field("  bcdUSB             "@, d.usb_version));
    }
    let ghost p = p + version_field("  bcdUSB             "@, d.usb_version);
    append_hex_field(out, "  bDeviceClass        ", d.class_code as u64, 2);
    proof {
        seq_add_assoc(o, p, hex_field("  bDeviceClass        "@, d.class_code as int, 2));
    }
    let ghost p = p + hex_field("  bDeviceClass        "@, d.class_code as int, 2);
    append_hex_field(out, "  bDeviceSubClass     ", d.sub_class_code as u64, 2);
    proof {
        seq_add_assoc(o, p, hex_field("  bDeviceSubClass     "@, d.sub_class_code as int, 2));
    }
    let ghost p = p + hex_field("  bDeviceSubClass     "@, d.sub_class_code as int, 2);
    append_hex_field(out, "  bDeviceProtocol     ", d.protocol_code as u64, 2);
    proof {
        seq_add_assoc(o, p, hex_field("  bDeviceProtocol     "@, d.protocol_code as int, 2));
    }
    let ghost p = p + hex_field("  bDeviceProtocol     "@, d.protocol_code as int, 2);
    append_dec_field(out, "  bMaxPacketSize0      ", d.max_packet_size as u64, 3);
    proof {
        seq_add_assoc(o, p, dec_field("  bMaxPacketSize0      "@, d.max_packet_size as int, 3));
    }
    let ghost p = p + dec_field("  bMaxPacketSize0      "@, d.max_packet_size as int, 3);
    let vendor = vendor_display_string(d.vendor_id);
    append_id_field(out, "  idVendor          ", d.vendor_id as u64, vendor.as_str());
    proof {
        seq_add_assoc(
            o,
            p,
            id_field("  idVendor          "@, d.vendor_id as int, vendor_display(d.vendor_id)),
        );
    }
    let ghost p = p + id_field(
        "  idVendor          "@,
        d.vendor_id as int,
        vendor_display(d.vendor_id),
    );
    let product = product_display_string(d.vendor_id, d.product_id);
    append_id_field(out, "  idProduct         ", d.product_id as u64, product.as_str());
    proof {
        seq_add_assoc(
            o,
            p,
            id_field(
                "  idProduct         "@,
                d.product_id as int,
                product_display(d.vendor_id, d.product_id),
            ),
        );
    }
    let ghost p = p + id_field(
        "  idProduct         "@,
        d.product_id as int,
        product_display(d.vendor_id, d.product_id),
    );
    append_version_field(out, "  bcdDevice          ", &d.device_version);
    proof {
        seq_add_assoc(o, p, version_field("  bcdDevice          "@, d.device_version));
    }
    let ghost p = p + version_field("  bcdDevice          "@, d.device_version);
    let man_idx: u8 = match d.manufacturer_string_index {
        Some(v) => v,
        None => 0,
    };
    append_string_field(out, "  iManufacturer        ", man_idx, dev.manufacturer.as_str());
    proof {
        seq_add_assoc(
            o,
            p,
            string_field(
                "  iManufacturer        "@,
                opt_index(d.manufacturer_string_index),
                dev.manufacturer@,
            ),
        );
    }
    let ghost p = p + string_field(
        "  iManufacturer        "@,
        opt_index(d.manufacturer_string_index),
        dev.manufacturer@,
    );
    let prod_idx: u8 = match d.product_string_index {
        Some(v) => v,
        None => 0,
    };
    append_string_field(out, "  iProduct             ", prod_idx, dev.product.as_str());
    proof {
        seq_add_assoc(
            o,
            p,
            string_field(
                "  iProduct             "@,
                opt_index(d.product_string_index),
                dev.product@,
            ),
        );
    }
    let ghost p = p + string_field(
        "  iProduct             "@,
        opt_index(d.product_string_index),
        dev.product@,
    );
    let serial_idx: u8 = match d.serial_number_string_index {
        Some(v) => v,
        None => 0,
    };
    append_string_field(out, "  iSerialNumber        ", serial_idx, dev.serial_number.as_str());
    proof {
        seq_add_assoc(
            o,
            p,
            string_field(
                "  iSerialNumber        "@,
                opt_index(d.serial_number_string_index),
                dev.serial_number@,
            ),
        );
    }
    let ghost p = p + string_field(
        "  iSerialNumber        "@,
        opt_index(d.serial_number_string_index),
        dev.serial_number@,
    );
    append_dec_field(out, "  bNumConfigurations   ", d.num_configurations as u64, 3);
    proof {
        seq_add_assoc(o, p, dec_field("  bNumConfigurations   "@, d.num_configurations as int, 3));
        assert(device_block(*dev) == p + dec_field(
            "  bNumConfigurations   "@,
            d.num_configurations as int,
            3,
        ));
    }
}

/// The text of a run of endpoint blocks, in list order.
pub open spec fn endpoints_text(s: Seq<EndpointInfo>) -> Seq<char>
    decreases s.len(),
{
    if s.len() == 0 {
        Seq::empty()
    } else {
        endpoints_text(s.drop_last()) + endpoint_block(s.last())
    }
}

/// The text of a run of interface sections, in list order.
pub open spec fn interfaces_text(s: Seq<InterfaceInfo>) -> Seq<char>
    decreases s.len(),
{
    if s.len() == 0 {
        Seq::empty()
    } else {
        interfaces_text(s.drop_last()) + interface_section(s.last())
    }
}

/// The text of a run of configuration sections, in list order.
pub open spec fn configs_text(s: Seq<ConfigInfo>) -> Seq<char>
    decreases s.len(),
{
    if s.len() == 0 {
        Seq::empty()
    } else {
        configs_text(s.drop_last()) + config_section(s.last())
    }
}

/// One interface section: the interface block, then its endpoint blocks.
pub open spec fn interface_section(i: InterfaceInfo) -> Seq<char> {
    interface_block(i) + endpoints_text(i.endpoints@)
}

/// One configuration section: the configuration block, then its interface
/// sections.
pub open spec fn config_section(c: ConfigInfo) -> Seq<char> {
    config_block(c) + interfaces_text(c.interfaces@)
}

/// One device section: summary line, device block, then the sections of the
/// configurations that could be read.
pub open spec fn device_section(dev: DeviceInfo) -> Seq<char> {
    summary_line(dev) + device_block(dev) + configs_text(dev.configs@)
}

/// The whole report: the device sections in enumeration order.
pub open spec fn report_text(devs: Seq<DeviceInfo>) -> Seq<char>
    decreases devs.len(),
{
    if devs.len() == 0 {
        Seq::empty()
    } else {
        report_text(devs.drop_last()) + device_section(devs.last())
    }
}

/// Renders one interface section: the block, then every endpoint.
pub fn print_interface_section(out: &mut String, i: &InterfaceInfo)
    ensures
        final(out)@ == old(out)@ + interface_section(*i),
{
    let ghost o = out@;
    print_interface(out, i);
    let ghost base = o + interface_block(*i);
    proof {
        assert(endpoints_text(i.endpoints@.take(0)) =~= Seq::<char>::empty());
        seq_add_empty(base);
    }
    let mut k: usize = 0;
    while k < i.endpoints.len()
        invariant
            k <= i.endpoints@.len(),
            out@ == base + endpoints_text(i.endpoints@.take(k as int)),
        decreases i.endpoints@.len() - k,
    {
        print_endpoint(out, &i.endpoints[k]);
        k = k + 1;
        proof {
            assert(i.endpoints@.take(k as int).drop_last() =~= i.endpoints@.take(k as int - 1));
            seq_add_assoc(
                base,
                endpoints_text(i.endpoints@.take(k as int - 1)),
                endpoint_block(i.endpoints@[k as int - 1]),
            );
            assert(endpoints_text(i.endpoints@.take(k as int)) == endpoints_text(
                i.endpoints@.take(k as int - 1),
            ) + endpoint_block(i.endpoints@[k as int - 1]));
        }
    }
    proof {
        assert(i.endpoints@.take(i.endpoints@.len() as int) =~= i.endpoints@);
        seq_add_assoc(o, interface_block(*i), endpoints_text(i.endpoints@));
    }
}

/// Renders one configuration section: the block, then every interface
/// section.
pub fn print_config_section(out: &mut String, c: &ConfigInfo)
    ensures
        final(out)@ == old(out)@ + config_section(*c),
{
    let ghost o = out@;
    print_config(out, c);
    let ghost base = o + config_block(*c);
    proof {
        assert(interfaces_text(c.interfaces@.take(0)) =~= Seq::<char>::empty());
        seq_add_empty(base);
    }
    let mut k: usize = 0;
    while k < c.interfaces.len()
        invariant
            k <= c.interfaces@.len(),
            out@ == base + interfaces_text(c.interfaces@.take(k as int)),
        decreases c.interfaces@.len() - k,
    {
        print_interface_section(out, &c.interfaces[k]);
        k = k + 1;
        proof {
            assert(c.interfaces@.take(k as int).drop_last() =~= c.interfaces@.take(k as int - 1));
            seq_add_assoc(
                base,
                interfaces_text(c.interfaces@.take(k as int - 1)),
                interface_section(c.interfaces@[k as int - 1]),
            );
            assert(interfaces_text(c.interfaces@.take(k as int)) == interfaces_text(
                c.interfaces@.take(k as int - 1),
            ) + interface_section(c.interfaces@[k as int - 1]));
        }
    }
    proof {
        assert(c.interfaces@.take(c.interfaces@.len() as int) =~= c.interfaces@);
        seq_add_assoc(o, config_block(*c), interfaces_text(c.interfaces@));
    }
}

/// Renders one device section: summary line, device block, configurations.
pub fn print_device_section(out: &mut String, dev: &DeviceInfo)
    ensures
        final(out)@ == old(out)@ + device_section(*dev),
{
    let ghost o = out@;
    print_summary(out, dev);
    print_device(out, dev);
    proof {
        seq_add_assoc(o, summary_line(*dev), device_block(*dev));
    }
    let ghost base = o + (summary_line(*dev) + device_block(*dev));
    proof {
        assert(configs_text(dev.configs@.take(0)) =~= Seq::<char>::empty());
        seq_add_empty(base);
    }
    let mut k: usize = 0;
    while k < dev.configs.len()
        invariant
            k <= dev.configs@.len(),
            out@ == base + configs_text(dev.configs@.take(k as int)),
        decreases dev.configs@.len() - k,
    {
        print_config_section(out, &dev.configs[k]);
        k = k + 1;
        proof {
            assert(dev.configs@.take(k as int).drop_last() =~= dev.configs@.take(k as int - 1));
            seq_add_assoc(
                base,
                configs_text(dev.configs@.take(k as int - 1)),
                config_section(dev.configs@[k as int - 1]),
            );
            assert(configs_text(dev.configs@.take(k as int)) == configs_text(
                dev.configs@.take(k as int - 1),
            ) + config_section(dev.configs@[k as int - 1]));
        }
    }
    proof {
        assert(dev.configs@.take(dev.configs@.len() as int) =~= dev.configs@);
        seq_add_assoc(o, summary_line(*dev) + device_block(*dev), configs_text(dev.configs@));
        seq_add_assoc(o, summary_line(*dev), device_block(*dev) + configs_text(dev.configs@));
        seq_add_assoc(summary_line(*dev), device_block(*dev), configs_text(dev.configs@));
    }
}

/// Appends the report for the given device snapshots to `out`, one device
/// section per device, in order.
pub fn render_report(out: &mut String, devices: &Vec<DeviceInfo>)
    ensures
        final(out)@ == old(out)@ + report_text(devices@),
{
    let ghost o = out@;
    proof {
        assert(report_text(devices@.take(0)) =~= Seq::<char>::empty());
        seq_add_empty(o);
    }
    let mut k: usize = 0;
    while k < devices.len()
        invariant
            k <= devices@.len(),
            out@ == o + report_text(devices@.take(k as int)),
        decreases devices@.len() - k,
    {
        print_device_section(out, &devices[k]);
        k = k + 1;
        proof {
            assert(devices@.take(k as int).drop_last() =~= devices@.take(k as int - 1));
            seq_add_assoc(
                o,
                report_text(devices@.take(k as int - 1)),
                device_section(devices@[k as int - 1]),
            );
            assert(report_text(devices@.take(k as int)) == report_text(
                devices@.take(k as int - 1),
            ) + device_section(devices@[k as int - 1]));
        }
    }
    proof {
        assert(devices@.take(devices@.len() as int) =~= devices@);
    }
}

/// Builds the whole report for the given device snapshots: the text the
/// boundary function hands across, best-effort and never an error.
pub fn list_devices(devices: &Vec<DeviceInfo>) -> (r: String)
    ensures
        r@ == report_text(devices@),
{
    let mut out = String::new();
    render_report(&mut out, devices);
    proof {
        assert(Seq::<char>::empty() + report_text(devices@) =~= report_text(devices@));
    }
    out
}

/// A host with no devices yields an empty report.
pub proof fn lemma_empty_report()
    ensures
        report_text(Seq::<DeviceInfo>::empty()) == Seq::<char>::empty(),
{
}

/// A device whose configurations could not be read still yields its summary
/// line and its device block (with `bNumConfigurations` as the descriptor
/// declares it), and nothing after them.
pub proof fn lemma_device_without_configs(dev: DeviceInfo)
    requires
        dev.configs@.len() == 0,
    ensures
        device_section(dev) == summary_line(dev) + device_block(dev),
{
    assert(configs_text(dev.configs@) =~= Seq::<char>::empty());
    seq_add_empty(summary_line(dev) + device_block(dev));
}

/// A string-table field whose string could not be resolved (no handle, or
/// the read failed, so the string is empty) renders its raw index followed
/// by a single space before the line break.
pub proof fn lemma_unresolved_string_field(label: Seq<char>, idx: int, s: Seq<char>)
    requires
        s.len() == 0,
    ensures
        string_field(label, idx, s) == label + pad_left(dec_seq(idx), 3, ' ') + " \n"@,
{
    reveal_strlit(" ");
    reveal_strlit("\n");
    reveal_strlit(" \n");
    assert(string_field(label, idx, s) =~= label + pad_left(dec_seq(idx), 3, ' ') + " \n"@);
}

} // verus!
