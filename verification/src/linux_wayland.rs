//! The records of the Linux input subsystem that events are written in.

use vstd::prelude::*;

verus! {

/// A point in time: seconds and microseconds.
#[allow(non_camel_case_types)]
#[derive(Copy, Clone, PartialEq, Eq, Structural, Debug)]
pub struct timeval {
    pub tv_sec: isize,
    pub tv_usec: isize,
}

/// One input event: when it happened, its type, its code and its value.
#[allow(non_camel_case_types)]
#[derive(Copy, Clone, PartialEq, Eq, Structural, Debug)]
pub struct input_event {
    pub time: timeval,
    pub type_: u16,
    pub code: u16,
    pub value: i32,
}

/// The identity of an input device.
#[allow(non_camel_case_types)]
#[derive(Copy, Clone, PartialEq, Eq, Structural, Debug)]
pub struct input_id {
    pub bustype: u16,
    pub vendor: u16,
    pub product: u16,
    pub version: u16,
}

/// The bus type of a USB device.
pub const BUS_USB: u16 = 0x03;

} // verus!
