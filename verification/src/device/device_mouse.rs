//! The mouse port: the latest button state and position, read at offsets 0, 8 and 12.
use vstd::prelude::*;
use super::device_trait::{DeviceBase, bytewise_read, bytewise_write};
use crate::tools::Fifobounded;

verus! {

pub const MOUSE_KEY_OFFSET: u64 = 0;
pub const POSITION_X_OFFSET: u64 = 8;
pub const POSITION_Y_OFFSET: u64 = 12;

/// One report of the mouse.
#[derive(Clone, Copy, PartialEq, Eq, Debug, Structural)]
pub struct DeviceMouseItem {
    pub mouse_btn_state: u32,
    pub x: u32,
    pub y: u32,
}

impl DeviceMouseItem {
    pub fn new() -> (r: Self)
        ensures
            r.mouse_btn_state == 0 && r.x == 0 && r.y == 0,
    {
        DeviceMouseItem { mouse_btn_state: 0, x: 0, y: 0 }
    }
}

pub struct DeviceMouse {
    /// Reports not read yet, oldest first.
    pub rx_mouse: Fifobounded,
    /// The report the port shows.
    pub mouse_state: DeviceMouseItem,
}

impl View for DeviceMouse {
    type V = (Seq<DeviceMouseItem>, DeviceMouseItem);

    open spec fn view(&self) -> (Seq<DeviceMouseItem>, DeviceMouseItem) {
        (self.rx_mouse@, self.mouse_state)
    }
}

/// The value the port shows at `addr` for report `s`.
pub open spec fn mouse_field(s: DeviceMouseItem, addr: u64) -> u64 {
    if addr == MOUSE_KEY_OFFSET {
        s.mouse_btn_state as u64
    } else if addr == POSITION_X_OFFSET {
        s.x as u64
    } else {
        s.y as u64
    }
}

impl DeviceMouse {
    pub fn new(rx_mouse: Fifobounded) -> (r: Self)
        ensures
            r@ == (rx_mouse@, DeviceMouseItem { mouse_btn_state: 0, x: 0, y: 0 }),
    {
        DeviceMouse { rx_mouse, mouse_state: DeviceMouseItem::new() }
    }

    pub open spec fn copy_from_model(m: (Seq<DeviceMouseItem>, DeviceMouseItem), addr: u64, bytes: Seq<u8>)
        -> (bool, (Seq<DeviceMouseItem>, DeviceMouseItem)) {
        bytewise_write(m, addr, bytes, |m: (Seq<DeviceMouseItem>, DeviceMouseItem), a: u64, d: u64| Self::write_ok(m, a, d, 1),
            |m: (Seq<DeviceMouseItem>, DeviceMouseItem), a: u64, d: u64| Self::write_result(m, a, d, 1).0)
    }

    pub open spec fn copy_to_model(m: (Seq<DeviceMouseItem>, DeviceMouseItem), addr: u64, n: nat)
        -> (bool, (Seq<DeviceMouseItem>, DeviceMouseItem), Seq<u8>) {
        bytewise_read(m, addr, n, |m: (Seq<DeviceMouseItem>, DeviceMouseItem), a: u64| Self::read_ok(m, a, 1),
            |m: (Seq<DeviceMouseItem>, DeviceMouseItem), a: u64| Self::read_result(m, a, 1))
    }
}

impl DeviceBase for DeviceMouse {
    /// Reads at offsets 0, 8 and 12.
    open spec fn read_ok(m: (Seq<DeviceMouseItem>, DeviceMouseItem), addr: u64, len: usize) -> bool {
        addr == MOUSE_KEY_OFFSET || addr == POSITION_X_OFFSET || addr == POSITION_Y_OFFSET
    }

    /// A read first takes the oldest pending report, if any, as the shown one.
    open spec fn read_result(m: (Seq<DeviceMouseItem>, DeviceMouseItem), addr: u64, len: usize)
        -> ((Seq<DeviceMouseItem>, DeviceMouseItem), u64) {
        let m1 = if m.0.len() > 0 { (m.0.drop_first(), m.0[0]) } else { m };
        (m1, mouse_field(m1.1, addr))
    }

    open spec fn write_ok(m: (Seq<DeviceMouseItem>, DeviceMouseItem), addr: u64, data: u64, len: usize) -> bool {
        false
    }

    open spec fn write_result(m: (Seq<DeviceMouseItem>, DeviceMouseItem), addr: u64, data: u64, len: usize)
        -> ((Seq<DeviceMouseItem>, DeviceMouseItem), u64) {
        (m, 0)
    }

    open spec fn update_result(m: (Seq<DeviceMouseItem>, DeviceMouseItem)) -> (Seq<DeviceMouseItem>, DeviceMouseItem) {
        m
    }

    open spec fn copy_from_ok(m: (Seq<DeviceMouseItem>, DeviceMouseItem), addr: u64, bytes: Seq<u8>) -> bool {
        Self::copy_from_model(m, addr, bytes).0
    }

    open spec fn copy_from_result(m: (Seq<DeviceMouseItem>, DeviceMouseItem), addr: u64, bytes: Seq<u8>)
        -> (Seq<DeviceMouseItem>, DeviceMouseItem) {
        Self::copy_from_model(m, addr, bytes).1
    }

    open spec fn copy_to_ok(m: (Seq<DeviceMouseItem>, DeviceMouseItem), addr: u64, n: nat) -> bool {
        Self::copy_to_model(m, addr, n).0
    }

    open spec fn copy_to_result(m: (Seq<DeviceMouseItem>, DeviceMouseItem), addr: u64, n: nat)
        -> ((Seq<DeviceMouseItem>, DeviceMouseItem), Seq<u8>) {
        (Self::copy_to_model(m, addr, n).1, Self::copy_to_model(m, addr, n).2)
    }

    proof fn lemma_copy_from_unfold(m: (Seq<DeviceMouseItem>, DeviceMouseItem), addr: u64, bytes: Seq<u8>) {
    }

    proof fn lemma_copy_to_unfold(m: (Seq<DeviceMouseItem>, DeviceMouseItem), addr: u64, n: nat) {
    }

    fn can_read(&self, addr: u64, len: usize) -> (r: bool) {
        addr == MOUSE_KEY_OFFSET || addr == POSITION_X_OFFSET || addr == POSITION_Y_OFFSET
    }

    fn can_write(&self, addr: u64, data: u64, len: usize) -> (r: bool) {
        false
    }

    fn can_copy_from(&self, addr: u64, slice: &[u8]) -> (r: bool) {
        proof {
            reveal_with_fuel(bytewise_write, 2);
        }
        slice.len() == 0
    }

    fn can_copy_to(&self, addr: u64, len: usize) -> (r: bool) {
        proof {
            reveal_with_fuel(bytewise_read, 3);
        }
        len == 0 || (len == 1 && (addr == MOUSE_KEY_OFFSET || addr == POSITION_X_OFFSET || addr == POSITION_Y_OFFSET))
    }

    fn do_read(&mut self, addr: u64, len: usize) -> (r: u64) {
        if let Some(item) = self.rx_mouse.pop() {
            self.mouse_state = item;
        }
        if addr == MOUSE_KEY_OFFSET {
            self.mouse_state.mouse_btn_state as u64
        } else if addr == POSITION_X_OFFSET {
            self.mouse_state.x as u64
        } else {
            self.mouse_state.y as u64
        }
    }

    fn do_write(&mut self, addr: u64, data: u64, len: usize) -> (r: u64) {
        0
    }

    fn get_name(&self) -> &'static str {
        "Mouse"
    }

    fn do_update(&mut self) {
    }
}

} // verus!
