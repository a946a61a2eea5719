//! The three kinds of record the crate works with, each with its mathematical model.
//!
//! A [`RawDevice`] is one attached device as the device monitor reports it, a
//! [`DeviceConfig`] is a binding rule that an operator wrote, and a [`DeviceView`] is
//! what a query shows: the raw facts with the ids in hexadecimal and the role, if a
//! rule gave one.

use crate::text::{format_hex_id, hex_id, opt_text};
use vstd::prelude::*;

verus! {

/// One physically attached, currently enumerable device.
#[derive(Debug, PartialEq, Eq)]
pub struct RawDevice {
    pub vid: u16,
    pub pid: u16,
    pub serial: Option<String>,
    pub port_path: String,
    pub system_path: String,
}

/// What a [`RawDevice`] says, with its strings as sequences of characters.
pub struct RawDeviceModel {
    pub vid: u16,
    pub pid: u16,
    pub serial: Option<Seq<char>>,
    pub port_path: Seq<char>,
    pub system_path: Seq<char>,
}

impl View for RawDevice {
    type V = RawDeviceModel;

    open spec fn view(&self) -> RawDeviceModel {
        RawDeviceModel {
            vid: self.vid,
            pid: self.pid,
            serial: opt_text(self.serial),
            port_path: self.port_path@,
            system_path: self.system_path@,
        }
    }
}

impl DeepView for RawDevice {
    type V = RawDeviceModel;

    open spec fn deep_view(&self) -> RawDeviceModel {
        self@
    }
}

impl Clone for RawDevice {
    fn clone(&self) -> (r: Self)
        ensures
            r == *self,
    {
        RawDevice {
            vid: self.vid,
            pid: self.pid,
            serial: match &self.serial {
                Some(s) => Some(s.clone()),
                None => None,
            },
            port_path: self.port_path.clone(),
            system_path: self.system_path.clone(),
        }
    }
}

/// A binding rule: the role it gives and the device facts it asks for.
/// A rule without a serial number accepts any serial number.
#[derive(Debug, PartialEq, Eq)]
pub struct DeviceConfig {
    pub role: String,
    pub vid: u16,
    pub pid: u16,
    pub serial: Option<String>,
    pub port_path: String,
}

/// What a [`DeviceConfig`] says, with its strings as sequences of characters.
pub struct DeviceConfigModel {
    pub role: Seq<char>,
    pub vid: u16,
    pub pid: u16,
    pub serial: Option<Seq<char>>,
    pub port_path: Seq<char>,
}

impl View for DeviceConfig {
    type V = DeviceConfigModel;

    open spec fn view(&self) -> DeviceConfigModel {
        DeviceConfigModel {
            role: self.role@,
            vid: self.vid,
            pid: self.pid,
            serial: opt_text(self.serial),
            port_path: self.port_path@,
        }
    }
}

impl DeepView for DeviceConfig {
    type V = DeviceConfigModel;

    open spec fn deep_view(&self) -> DeviceConfigModel {
        self@
    }
}

impl Clone for DeviceConfig {
    fn clone(&self) -> (r: Self)
        ensures
            r == *self,
    {
        DeviceConfig {
            role: self.role.clone(),
            vid: self.vid,
            pid: self.pid,
            serial: match &self.serial {
                Some(s) => Some(s.clone()),
                None => None,
            },
            port_path: self.port_path.clone(),
        }
    }
}

/// A device as a query shows it: ids in hexadecimal, and the role where a rule matched.
#[derive(Debug, PartialEq, Eq)]
pub struct DeviceView {
    pub role: Option<String>,
    pub vid: String,
    pub pid: String,
    pub serial: Option<String>,
    pub port_path: String,
    pub system_path: String,
}

/// What a [`DeviceView`] says, with its strings as sequences of characters.
pub struct DeviceViewModel {
    pub role: Option<Seq<char>>,
    pub vid: Seq<char>,
    pub pid: Seq<char>,
    pub serial: Option<Seq<char>>,
    pub port_path: Seq<char>,
    pub system_path: Seq<char>,
}

impl View for DeviceView {
    type V = DeviceViewModel;

    open spec fn view(&self) -> DeviceViewModel {
        DeviceViewModel {
            role: opt_text(self.role),
            vid: self.vid@,
            pid: self.pid@,
            serial: opt_text(self.serial),
            port_path: self.port_path@,
            system_path: self.system_path@,
        }
    }
}

impl DeepView for DeviceView {
    type V = DeviceViewModel;

    open spec fn deep_view(&self) -> DeviceViewModel {
        self@
    }
}

/// The view of a raw device that carries the given role: the ids become `0x` and four
/// hexadecimal digits, everything else is taken over unchanged.
pub open spec fn shown(raw: RawDeviceModel, role: Option<Seq<char>>) -> DeviceViewModel {
    DeviceViewModel {
        role,
        vid: hex_id(raw.vid),
        pid: hex_id(raw.pid),
        serial: raw.serial,
        port_path: raw.port_path,
        system_path: raw.system_path,
    }
}

impl vstd::std_specs::convert::FromSpecImpl<RawDevice> for DeviceView {
    /// Two strings with the same characters need not be the same value, so the
    /// conversion is described by the view of its result and not by `from_spec`.
    open spec fn obeys_from_spec() -> bool {
        false
    }

    open spec fn from_spec(v: RawDevice) -> DeviceView {
        choose|r: DeviceView| r@ == shown(v@, None)
    }
}

impl From<RawDevice> for DeviceView {
    /// Shows a raw device that no rule has been applied to: the role is absent.
    fn from(value: RawDevice) -> (r: DeviceView)
        ensures
            r@ == shown(value@, None),
    {
        DeviceView {
            role: None,
            vid: format_hex_id(value.vid),
            pid: format_hex_id(value.pid),
            serial: value.serial,
            port_path: value.port_path,
            system_path: value.system_path,
        }
    }
}

} // verus!
