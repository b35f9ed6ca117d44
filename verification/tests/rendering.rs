use usb_report::descriptors::ConfigInfo;
use usb_report::descriptors::DeviceDesc;
use usb_report::descriptors::DeviceInfo;
use usb_report::descriptors::Direction;
use usb_report::descriptors::EndpointInfo;
use usb_report::descriptors::InterfaceInfo;
use usb_report::descriptors::Speed;
use usb_report::descriptors::SyncType;
use usb_report::descriptors::TransferType;
use usb_report::descriptors::UsageType;
use usb_report::descriptors::Version;
use usb_report::names::product_display_string;
use usb_report::names::vendor_display_string;
use usb_report::report::list_devices;
use usb_report::report::render_report;

fn join(lines: &[&str]) -> String {
    let mut s = String::new();
    for l in lines {
        s.push_str(l);
    }
    s
}

fn full_device() -> DeviceInfo {
    DeviceInfo {
        bus_number: 1,
        address: 4,
        speed: Speed::Super,
        descriptor: DeviceDesc {
            usb_version: Version { major: 3, minor: 2, sub_minor: 0 },
            class_code: 0x09,
            sub_class_code: 0x00,
            protocol_code: 0x01,
            max_packet_size: 64,
            vendor_id: 0x1d6b,
            product_id: 0x0003,
            device_version: Version { major: 1, minor: 0, sub_minor: 2 },
            manufacturer_string_index: Some(1),
            product_string_index: Some(2),
            serial_number_string_index: Some(3),
            num_configurations: 1,
        },
        manufacturer: String::from("TestMan"),
        product: String::from("xHCI Host Controller"),
        serial_number: String::from("0000:00:14.0"),
        configs: vec![ConfigInfo {
            num_interfaces: 1,
            number: 1,
            description_string_index: Some(4),
            description: String::from("Default"),
            self_powered: true,
            remote_wakeup: false,
            max_power: 224,
            extra: vec![1, 2, 3],
            interfaces: vec![InterfaceInfo {
                interface_number: 0,
                setting_number: 0,
                num_endpoints: 1,
                class_code: 0x0e,
                sub_class_code: 0x01,
                protocol_code: 0x00,
                description_string_index: Some(5),
                description: String::from("Video"),
                extra: vec![],
                endpoints: vec![EndpointInfo {
                    address: 0x81,
                    number: 1,
                    direction: Direction::In,
                    transfer_type: TransferType::Interrupt,
                    sync_type: SyncType::NoSync,
                    usage_type: UsageType::Data,
                    max_packet_size: 0x0040,
                    interval: 12,
                }],
            }],
        }],
    }
}

fn minimal_device() -> DeviceInfo {
    DeviceInfo {
        bus_number: 0,
        address: 0,
        speed: Speed::Unknown,
        descriptor: DeviceDesc {
            usb_version: Version { major: 2, minor: 0, sub_minor: 0 },
            class_code: 0xff,
            sub_class_code: 0xab,
            protocol_code: 0xcd,
            max_packet_size: 8,
            vendor_id: 0xffff,
            product_id: 0xffff,
            device_version: Version { major: 0, minor: 1, sub_minor: 0 },
            manufacturer_string_index: None,
            product_string_index: None,
            serial_number_string_index: None,
            num_configurations: 2,
        },
        manufacturer: String::new(),
        product: String::new(),
        serial_number: String::new(),
        configs: vec![],
    }
}

#[test]
fn empty_report() {
    let devices: Vec<DeviceInfo> = vec![];
    assert_eq!(list_devices(&devices), "");
}

#[test]
fn full_report_end_to_end() {
    let devices = vec![full_device()];
    let expected = join(&[
        "Bus 001 Device 004 ID 1d6b:0003 5000 Mbps\n",
        "Device Descriptor:\n",
        "  bcdUSB              3.20\n",
        "  bDeviceClass        0x09\n",
        "  bDeviceSubClass     0x00\n",
        "  bDeviceProtocol     0x01\n",
        "  bMaxPacketSize0       64\n",
        "  idVendor          0x1d6b Linux Foundation\n",
        "  idProduct         0x0003 3.0 root hub\n",
        "  bcdDevice           1.02\n",
        "  iManufacturer          1 TestMan\n",
        "  iProduct               2 xHCI Host Controller\n",
        "  iSerialNumber          3 0000:00:14.0\n",
        "  bNumConfigurations     1\n",
        "  Config Descriptor:\n",
        "    bNumInterfaces         1\n",
        "    bConfigurationValue    1\n",
        "    iConfiguration         4 Default\n",
        "    bmAttributes:\n",
        "      Self Powered      true\n",
        "      Remote Wakeup    false\n",
        "    bMaxPower            224mW\n",
        "    [1, 2, 3]\n",
        "    Interface Descriptor:\n",
        "      bInterfaceNumber       0\n",
        "      bAlternateSetting      0\n",
        "      bNumEndpoints          1\n",
        "      bInterfaceClass     0x0e\n",
        "      bInterfaceSubClass  0x01\n",
        "      bInterfaceProtocol  0x00\n",
        "      iInterface             5 Video\n",
        "    no extra data\n",
        "      Endpoint Descriptor:\n",
        "        bEndpointAddress    0x81 EP 1 In\n",
        "        bmAttributes:\n",
        "          Transfer Type          Interrupt\n",
        "          Synch Type             NoSync\n",
        "          Usage Type             Data\n",
        "        wMaxPacketSize    0x0040\n",
        "        bInterval             12\n",
    ]);
    assert_eq!(list_devices(&devices), expected);
}

#[test]
fn device_without_configs() {
    let devices = vec![minimal_device()];
    let expected = join(&[
        "Bus 000 Device 000 ID ffff:ffff (unknown)\n",
        "Device Descriptor:\n",
        "  bcdUSB              2.00\n",
        "  bDeviceClass        0xff\n",
        "  bDeviceSubClass     0xab\n",
        "  bDeviceProtocol     0xcd\n",
        "  bMaxPacketSize0        8\n",
        "  idVendor          0xffff Unknown vendor\n",
        "  idProduct         0xffff Unknown product\n",
        "  bcdDevice           0.10\n",
        "  iManufacturer          0 \n",
        "  iProduct               0 \n",
        "  iSerialNumber          0 \n",
        "  bNumConfigurations     2\n",
    ]);
    assert_eq!(list_devices(&devices), expected);
}

#[test]
fn two_devices_in_order() {
    let devices = vec![minimal_device(), full_device()];
    let report = list_devices(&devices);
    let first = list_devices(&vec![minimal_device()]);
    let second = list_devices(&vec![full_device()]);
    assert_eq!(report, first + &second);
}

#[test]
fn render_report_appends() {
    let devices = vec![minimal_device()];
    let mut out = String::from("prefix:");
    render_report(&mut out, &devices);
    let expected = String::from("prefix:") + &list_devices(&devices);
    assert_eq!(out, expected);
}

#[test]
fn known_vendor_and_product_names() {
    assert_eq!(vendor_display_string(0x1d6b), "Linux Foundation");
    assert_eq!(product_display_string(0x1d6b, 0x0003), "3.0 root hub");
}

#[test]
fn unknown_vendor_and_product_names() {
    assert_eq!(vendor_display_string(0xffff), "Unknown vendor");
    assert_eq!(product_display_string(0x1d6b, 0xffff), "Unknown product");
    assert_eq!(product_display_string(0xffff, 0x0001), "Unknown product");
}

#[test]
fn single_byte_extra_config() {
    let mut dev = minimal_device();
    dev.configs = vec![ConfigInfo {
        num_interfaces: 0,
        number: 9,
        description_string_index: None,
        description: String::new(),
        self_powered: false,
        remote_wakeup: true,
        max_power: 100,
        extra: vec![7],
        interfaces: vec![],
    }];
    let report = list_devices(&vec![dev]);
    let head = list_devices(&vec![minimal_device()]);
    let expected_config = join(&[
        "  Config Descriptor:\n",
        "    bNumInterfaces         0\n",
        "    bConfigurationValue    9\n",
        "    iConfiguration         0 \n",
        "    bmAttributes:\n",
        "      Self Powered     false\n",
        "      Remote Wakeup     true\n",
        "    bMaxPower            100mW\n",
        "    [7]\n",
    ]);
    assert_eq!(report, head + &expected_config);
}
