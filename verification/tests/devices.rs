use solo2_check::device::BootloaderInfo;
use solo2_check::device::Device;
use solo2_check::device::UsbDeviceInfo;
use solo2_check::device::find_devices;
use solo2_check::device::firmware_device_count;
use solo2_check::device::missing_reader_warning;
use solo2_check::device::multiple_firmware_devices;
use solo2_check::reader::FirmwareReader;
use solo2_check::reader::get_reader_status;

#[test]
fn two_firmware_devices_raise_the_multiple_devices_warning() {
    let usb: Vec<UsbDeviceInfo> = vec![
        UsbDeviceInfo { vendor_id: 0x1209, product_id: 0xBEEE, bus: 1, address: 4 },
        UsbDeviceInfo { vendor_id: 0x1209, product_id: 0xBEEE, bus: 2, address: 9 },
    ];
    let devices = find_devices(Vec::new(), usb);
    assert_eq!(devices.len(), 2);
    assert_eq!(devices[0], Device::Firmware { bus: 1, address: 4 });
    assert_eq!(devices[1], Device::Firmware { bus: 2, address: 9 });
    assert!(multiple_firmware_devices(&devices));
}

#[test]
fn one_firmware_device_raises_no_warning() {
    let usb: Vec<UsbDeviceInfo> = vec![UsbDeviceInfo {
        vendor_id: 0x1209,
        product_id: 0xBEEE,
        bus: 1,
        address: 4,
    }];
    let devices = find_devices(Vec::new(), usb);
    assert_eq!(devices.len(), 1);
    assert!(!multiple_firmware_devices(&devices));
}

#[test]
fn other_usb_devices_are_filtered_out() {
    let usb: Vec<UsbDeviceInfo> = vec![
        UsbDeviceInfo { vendor_id: 0x1D6B, product_id: 0x0002, bus: 1, address: 1 },
        UsbDeviceInfo { vendor_id: 0x1209, product_id: 0xBEEE, bus: 1, address: 4 },
        UsbDeviceInfo { vendor_id: 0x1209, product_id: 0x0001, bus: 1, address: 5 },
        UsbDeviceInfo { vendor_id: 0x0000, product_id: 0xBEEE, bus: 1, address: 6 },
    ];
    let devices = find_devices(Vec::new(), usb);
    assert_eq!(devices, vec![Device::Firmware { bus: 1, address: 4 }]);
}

#[test]
fn bootloader_devices_come_first_and_unfiltered() {
    let bootloader: Vec<BootloaderInfo> = vec![
        BootloaderInfo { vid: 0x1FC9, pid: 0x0021, uuid: 0xABCD },
        BootloaderInfo { vid: 0x1209, pid: 0xB000, uuid: 7 },
    ];
    let usb: Vec<UsbDeviceInfo> = vec![UsbDeviceInfo {
        vendor_id: 0x1209,
        product_id: 0xBEEE,
        bus: 3,
        address: 2,
    }];
    let devices = find_devices(bootloader, usb);
    assert_eq!(
        devices,
        vec![
            Device::Bootloader { vid: 0x1FC9, pid: 0x0021, uuid: 0xABCD },
            Device::Bootloader { vid: 0x1209, pid: 0xB000, uuid: 7 },
            Device::Firmware { bus: 3, address: 2 },
        ]
    );
    assert_eq!(firmware_device_count(&devices), 1);
}

#[test]
fn missing_reader_warning_compares_devices_with_readers() {
    let usb: Vec<UsbDeviceInfo> = vec![
        UsbDeviceInfo { vendor_id: 0x1209, product_id: 0xBEEE, bus: 1, address: 4 },
        UsbDeviceInfo { vendor_id: 0x1209, product_id: 0xBEEE, bus: 2, address: 9 },
    ];
    let devices = find_devices(Vec::new(), usb);

    let empty = get_reader_status(Vec::new());
    assert!(missing_reader_warning(&devices, &empty));

    let matching = get_reader_status(vec![
        solo2_check::reader::Reader::Firmware(FirmwareReader { uuid: 1, provisioner: false }),
        solo2_check::reader::Reader::Firmware(FirmwareReader { uuid: 2, provisioner: false }),
    ]);
    assert!(!missing_reader_warning(&devices, &matching));
}
