//! Rendering devices as the platform lists them, and the choice among them.

use crate::error::HeadlessError;
use vstd::prelude::*;

verus! {

/// What the platform tells about one rendering device. Either text may be
/// missing: a platform need not be able to name its devices.
#[derive(Debug, PartialEq, Eq)]
pub struct DeviceInfo {
    pub name: Option<String>,
    pub vendor: Option<String>,
}

/// The mathematical content of a [`DeviceInfo`].
pub struct DeviceInfoView {
    pub name: Option<Seq<char>>,
    pub vendor: Option<Seq<char>>,
}

impl View for DeviceInfo {
    type V = DeviceInfoView;

    open spec fn view(&self) -> DeviceInfoView {
        DeviceInfoView {
            name: match self.name {
                Some(text) => Some(text@),
                None => None,
            },
            vendor: match self.vendor {
                Some(text) => Some(text@),
                None => None,
            },
        }
    }
}

impl Clone for DeviceInfo {
    /// A device with the same name and vendor.
    fn clone(&self) -> (copy: DeviceInfo)
        ensures
            copy == *self,
    {
        DeviceInfo {
            name: match &self.name {
                Some(text) => Some(text.clone()),
                None => None,
            },
            vendor: match &self.vendor {
                Some(text) => Some(text.clone()),
                None => None,
            },
        }
    }
}

/// The text shown for a name or vendor: the text itself, or a placeholder
/// where the platform gave none.
pub open spec fn label_of(text: Option<Seq<char>>) -> Seq<char> {
    match text {
        Some(t) => t,
        None => "UNKNOWN"@,
    }
}

impl DeviceInfo {
    /// A device with the given name and vendor.
    pub fn new(name: Option<String>, vendor: Option<String>) -> (device: DeviceInfo)
        ensures
            device.name == name,
            device.vendor == vendor,
    {
        DeviceInfo { name, vendor }
    }

    /// The name to show for this device.
    pub fn name_label(&self) -> (label: String)
        ensures
            label@ == label_of(self@.name),
    {
        match &self.name {
            Some(text) => text.clone(),
            None => "UNKNOWN".to_owned(),
        }
    }

    /// The vendor to show for this device.
    pub fn vendor_label(&self) -> (label: String)
        ensures
            label@ == label_of(self@.vendor),
    {
        match &self.vendor {
            Some(text) => text.clone(),
            None => "UNKNOWN".to_owned(),
        }
    }
}

/// Chooses the device to render on. The platform's order of enumeration is
/// taken as it comes: the choice is position 0 for every list that has a
/// device, whatever else the list holds. An empty list is a failure.
pub fn select_device(devices: &Vec<DeviceInfo>) -> (choice: Result<usize, HeadlessError>)
    ensures
        devices@.len() == 0 ==> choice == Err::<usize, HeadlessError>(
            HeadlessError::NoDevicesAvailable,
        ),
        devices@.len() > 0 ==> choice == Ok::<usize, HeadlessError>(0),
{
    if devices.len() == 0 {
        Err(HeadlessError::NoDevicesAvailable)
    } else {
        Ok(0)
    }
}

} // verus!
