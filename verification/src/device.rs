//! Device enumeration: the merge of the two discovery channels — devices in
//! bootloader mode, and USB devices whose descriptor carries the firmware
//! vendor and product id — and the warning conditions the report derives
//! from the merged list.

use vstd::prelude::*;
use crate::reader::ReaderStatus;

verus! {

/// The USB vendor id the device presents in firmware mode.
pub const VID_FIRMWARE: u16 = 0x1209;

/// The USB product id the device presents in firmware mode.
pub const PID_FIRMWARE: u16 = 0xbeee;

/// A device reported by the bootloader enumeration: its USB ids and its
/// 128-bit unique identifier.
#[derive(Clone, Copy, Debug, PartialEq, Eq, Structural)]
pub struct BootloaderInfo {
    pub vid: u16,
    pub pid: u16,
    pub uuid: u128,
}

/// One USB device descriptor together with the device's current bus
/// topology coordinates.
#[derive(Clone, Copy, Debug, PartialEq, Eq, Structural)]
pub struct UsbDeviceInfo {
    pub vendor_id: u16,
    pub product_id: u16,
    pub bus: u8,
    pub address: u8,
}

/// A connected unit in exactly one of its two operating modes.
#[derive(Clone, Copy, Debug, PartialEq, Eq, Structural)]
pub enum Device {
    /// Bootloader mode: USB ids and the stable 128-bit identifier.
    Bootloader { vid: u16, pid: u16, uuid: u128 },
    /// Firmware mode: ephemeral bus/address coordinates.
    Firmware { bus: u8, address: u8 },
}

impl Device {
    /// The bootloader-mode device described by one enumeration record.
    pub fn from_bootloader(info: BootloaderInfo) -> (d: Device)
        ensures
            d == bootloader_device(info),
    {
        Device::Bootloader { vid: info.vid, pid: info.pid, uuid: info.uuid }
    }
}

/// The device value of one bootloader enumeration record.
pub open spec fn bootloader_device(info: BootloaderInfo) -> Device {
    Device::Bootloader { vid: info.vid, pid: info.pid, uuid: info.uuid }
}

/// Whether a USB descriptor carries exactly the firmware vendor and
/// product id.
pub open spec fn is_firmware_descriptor(d: UsbDeviceInfo) -> bool {
    d.vendor_id == VID_FIRMWARE && d.product_id == PID_FIRMWARE
}

/// Every bootloader record, unfiltered, as a device.
pub open spec fn bootloader_devices_spec(infos: Seq<BootloaderInfo>) -> Seq<Device>
    decreases infos.len(),
{
    if infos.len() == 0 {
        Seq::<Device>::empty()
    } else {
        bootloader_devices_spec(infos.drop_last()) + seq![bootloader_device(infos.last())]
    }
}

/// The firmware-mode devices among the listed USB devices: those whose
/// descriptor matches the firmware ids, keeping their bus coordinates and
/// their listing order.
pub open spec fn firmware_devices_spec(infos: Seq<UsbDeviceInfo>) -> Seq<Device>
    decreases infos.len(),
{
    if infos.len() == 0 {
        Seq::<Device>::empty()
    } else {
        firmware_devices_spec(infos.drop_last()) + (if is_firmware_descriptor(infos.last()) {
            seq![Device::Firmware { bus: infos.last().bus, address: infos.last().address }]
        } else {
            Seq::<Device>::empty()
        })
    }
}

/// Turns every bootloader enumeration record into a device; no filtering
/// is applied to this channel.
pub fn find_bootloader_devices(infos: Vec<BootloaderInfo>) -> (devices: Vec<Device>)
    ensures
        devices@ == bootloader_devices_spec(infos@),
{
    let mut devices: Vec<Device> = Vec::new();
    let mut i: usize = 0;
    while i < infos.len()
        invariant
            i <= infos@.len(),
            devices@ == bootloader_devices_spec(infos@.subrange(0, i as int)),
        decreases infos@.len() - i,
    {
        devices.push(Device::from_bootloader(infos[i]));
        i = i + 1;
        proof {
            assert(infos@.subrange(0, i as int).drop_last() =~= infos@.subrange(0, i - 1));
            assert(devices@ =~= bootloader_devices_spec(infos@.subrange(0, i as int)));
        }
    }
    proof {
        assert(infos@.subrange(0, infos@.len() as int) =~= infos@);
    }
    devices
}

/// Keeps, of the listed USB devices, exactly those whose descriptor
/// matches the firmware vendor and product id, as firmware-mode devices
/// with their current coordinates.
pub fn find_firmware_devices(infos: Vec<UsbDeviceInfo>) -> (devices: Vec<Device>)
    ensures
        devices@ == firmware_devices_spec(infos@),
{
    let mut devices: Vec<Device> = Vec::new();
    let mut i: usize = 0;
    while i < infos.len()
        invariant
            i <= infos@.len(),
            devices@ == firmware_devices_spec(infos@.subrange(0, i as int)),
        decreases infos@.len() - i,
    {
        let info = infos[i];
        if info.vendor_id == VID_FIRMWARE && info.product_id == PID_FIRMWARE {
            devices.push(Device::Firmware { bus: info.bus, address: info.address });
        }
        i = i + 1;
        proof {
            assert(infos@.subrange(0, i as int).drop_last() =~= infos@.subrange(0, i - 1));
            assert(devices@ =~= firmware_devices_spec(infos@.subrange(0, i as int)));
        }
    }
    proof {
        assert(infos@.subrange(0, infos@.len() as int) =~= infos@);
    }
    devices
}

/// Merges the two discovery channels into the unified device list:
/// every bootloader-mode device first, then every firmware-mode USB
/// device, each channel in its own listing order.
pub fn find_devices(bootloader: Vec<BootloaderInfo>, usb: Vec<UsbDeviceInfo>) -> (devices: Vec<
    Device,
>)
    ensures
        devices@ == bootloader_devices_spec(bootloader@) + firmware_devices_spec(usb@),
{
    let mut devices = find_bootloader_devices(bootloader);
    let mut firmware = find_firmware_devices(usb);
    devices.append(&mut firmware);
    devices
}

/// How many of the listed devices are in firmware mode.
pub open spec fn firmware_count_spec(devices: Seq<Device>) -> int
    decreases devices.len(),
{
    if devices.len() == 0 {
        0
    } else {
        firmware_count_spec(devices.drop_last()) + (if devices.last() is Firmware {
            1int
        } else {
            0int
        })
    }
}

/// Counts the firmware-mode devices in the merged list.
pub fn firmware_device_count(devices: &Vec<Device>) -> (n: usize)
    ensures
        n == firmware_count_spec(devices@),
{
    let mut n: usize = 0;
    let mut i: usize = 0;
    while i < devices.len()
        invariant
            i <= devices@.len(),
            n == firmware_count_spec(devices@.subrange(0, i as int)),
            n <= i,
        decreases devices@.len() - i,
    {
        let is_firmware = match devices[i] {
            Device::Firmware { .. } => true,
            _ => false,
        };
        if is_firmware {
            n = n + 1;
        }
        i = i + 1;
        proof {
            assert(devices@.subrange(0, i as int).drop_last() =~= devices@.subrange(0, i - 1));
        }
    }
    proof {
        assert(devices@.subrange(0, devices@.len() as int) =~= devices@);
    }
    n
}

/// Whether the report must warn that several firmware-mode devices are
/// connected at once: true exactly when more than one is.
pub fn multiple_firmware_devices(devices: &Vec<Device>) -> (r: bool)
    ensures
        r == (firmware_count_spec(devices@) > 1),
{
    firmware_device_count(devices) > 1
}

/// Whether the report must warn that some firmware-mode device could not
/// be reached over PC/SC: true exactly when more firmware-mode devices
/// were seen on USB than readers were classified as firmware.
pub fn missing_reader_warning(devices: &Vec<Device>, status: &ReaderStatus) -> (r: bool)
    ensures
        r == (firmware_count_spec(devices@) > status.firmware_readers@.len()),
{
    firmware_device_count(devices) > status.firmware_readers.len()
}

} // verus!
