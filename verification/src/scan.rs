//! Choosing among the HID devices that the host has enumerated.

use crate::error::Error;
use vstd::prelude::*;

verus! {

/// The HID usage page on which a keyboard offers the protocol.
pub const VIA_USAGE_PAGE: u16 = 0xff60;

/// What the host knows of a connected HID device.
#[derive(Clone, Debug, PartialEq, Eq)]
pub struct KeyboardDeviceInfo {
    /// USB vendor id.
    pub vendor_id: u16,
    /// USB product id.
    pub product_id: u16,
    /// HID usage page.
    pub usage_page: u16,
    /// The manufacturer's name, if the device gives one.
    pub manufacturer: Option<String>,
    /// The product's name, if the device gives one.
    pub product: Option<String>,
    /// The serial number, if the device gives one.
    pub serial_number: Option<String>,
}

/// Whether a device offers the protocol.
pub open spec fn is_via(device: KeyboardDeviceInfo) -> bool {
    device.usage_page == VIA_USAGE_PAGE
}

/// Whether a device has the given identifiers.
pub open spec fn matches_ids(device: KeyboardDeviceInfo, vid: u16, pid: u16, usage_page: u16) -> bool {
    device.vendor_id == vid && device.product_id == pid && device.usage_page == usage_page
}

/// Keeps, of the enumerated devices, those that offer the protocol, in the
/// order of enumeration.
pub fn scan_keyboards(devices: Vec<KeyboardDeviceInfo>) -> (keyboards: Vec<KeyboardDeviceInfo>)
    ensures
        keyboards@ == devices@.filter(|device: KeyboardDeviceInfo| is_via(device)),
{
    let ghost all = devices@;
    let ghost wanted = |device: KeyboardDeviceInfo| is_via(device);
    let mut devices = devices;
    let mut stack: Vec<KeyboardDeviceInfo> = Vec::new();
    while devices.len() > 0
        invariant
            devices@.len() + stack@.len() == all.len(),
            devices@ == all.take(devices@.len() as int),
            forall|j: int| 0 <= j < stack@.len() ==> stack@[j] == all[all.len() - 1 - j],
        decreases devices@.len(),
    {
        match devices.pop() {
            Some(device) => {
                stack.push(device);
                assert(devices@ =~= all.take(devices@.len() as int));
            },
            None => {},
        }
    }
    let mut keyboards: Vec<KeyboardDeviceInfo> = Vec::new();
    let ghost mut seen: int = 0;
    proof {
        reveal(Seq::filter);
        assert(all.take(0).filter(wanted) =~= Seq::<KeyboardDeviceInfo>::empty());
    }
    while stack.len() > 0
        invariant
            0 <= seen <= all.len(),
            stack@.len() == all.len() - seen,
            forall|j: int| 0 <= j < stack@.len() ==> stack@[j] == all[all.len() - 1 - j],
            wanted == |device: KeyboardDeviceInfo| is_via(device),
            keyboards@ == all.take(seen).filter(wanted),
        decreases stack@.len(),
    {
        match stack.pop() {
            Some(device) => {
                proof {
                    reveal(Seq::filter);
                    assert(device == all[seen]);
                    assert(all.take(seen + 1).drop_last() =~= all.take(seen));
                    assert(all.take(seen + 1).last() == all[seen]);
                }
                if device.usage_page == VIA_USAGE_PAGE {
                    keyboards.push(device);
                }
                proof {
                    seen = seen + 1;
                }
            },
            None => {},
        }
    }
    assert(all.take(seen) =~= all);
    keyboards
}

/// Finds the first enumerated device with the given identifiers.
pub fn find_keyboard(devices: &Vec<KeyboardDeviceInfo>, vid: u16, pid: u16, usage_page: u16) -> (found:
    Result<usize, Error>)
    ensures
        match found {
            Ok(index) => {
                &&& index < devices@.len()
                &&& matches_ids(devices@[index as int], vid, pid, usage_page)
                &&& forall|j: int|
                    0 <= j < index ==> !matches_ids(#[trigger] devices@[j], vid, pid, usage_page)
            },
            Err(error) => {
                &&& error == (Error::NoSuchDevice { vid, pid, usage_page })
                &&& forall|j: int|
                    0 <= j < devices@.len() ==> !matches_ids(
                        #[trigger] devices@[j],
                        vid,
                        pid,
                        usage_page,
                    )
            },
        },
{
    let mut i: usize = 0;
    while i < devices.len()
        invariant
            i <= devices@.len(),
            forall|j: int| 0 <= j < i ==> !matches_ids(#[trigger] devices@[j], vid, pid, usage_page),
        decreases devices@.len() - i,
    {
        if devices[i].vendor_id == vid && devices[i].product_id == pid && devices[i].usage_page
            == usage_page {
            return Ok(i);
        }
        i = i + 1;
    }
    Err(Error::NoSuchDevice { vid, pid, usage_page })
}

} // verus!
