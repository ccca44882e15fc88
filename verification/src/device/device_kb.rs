//! The keyboard port: each read takes the next key event, as an AM key code
//! with bit 15 set for a key press (0 when no event waits).
use vstd::prelude::*;
use super::device_trait::{DeviceBase, bytewise_read, bytewise_write};
use crate::tools::KeyQueue;

verus! {

pub const KEYDOWN_MASK: u32 = 0x8000;

/// The AM key code of SDL scancode `scancode` (0 for a key AM does not know).
pub open spec fn am_keymap(scancode: u32) -> u32 {
    if scancode == 4 {
        43
    } else if scancode == 5 {
        60
    } else if scancode == 6 {
        58
    } else if scancode == 7 {
        45
    } else if scancode == 8 {
        31
    } else if scancode == 9 {
        46
    } else if scancode == 10 {
        47
    } else if scancode == 11 {
        48
    } else if scancode == 12 {
        36
    } else if scancode == 13 {
        49
    } else if scancode == 14 {
        50
    } else if scancode == 15 {
        51
    } else if scancode == 16 {
        62
    } else if scancode == 17 {
        61
    } else if scancode == 18 {
        37
    } else if scancode == 19 {
        38
    } else if scancode == 20 {
        29
    } else if scancode == 21 {
        32
    } else if scancode == 22 {
        44
    } else if scancode == 23 {
        33
    } else if scancode == 24 {
        35
    } else if scancode == 25 {
        59
    } else if scancode == 26 {
        30
    } else if scancode == 27 {
        57
    } else if scancode == 28 {
        34
    } else if scancode == 29 {
        56
    } else if scancode == 30 {
        15
    } else if scancode == 31 {
        16
    } else if scancode == 32 {
        17
    } else if scancode == 33 {
        18
    } else if scancode == 34 {
        19
    } else if scancode == 35 {
        20
    } else if scancode == 36 {
        21
    } else if scancode == 37 {
        22
    } else if scancode == 38 {
        23
    } else if scancode == 39 {
        24
    } else if scancode == 40 {
        54
    } else if scancode == 41 {
        1
    } else if scancode == 42 {
        27
    } else if scancode == 43 {
        28
    } else if scancode == 44 {
        70
    } else if scancode == 45 {
        25
    } else if scancode == 46 {
        26
    } else if scancode == 47 {
        39
    } else if scancode == 48 {
        40
    } else if scancode == 49 {
        41
    } else if scancode == 51 {
        52
    } else if scancode == 52 {
        53
    } else if scancode == 53 {
        14
    } else if scancode == 54 {
        63
    } else if scancode == 55 {
        64
    } else if scancode == 56 {
        65
    } else if scancode == 57 {
        42
    } else if scancode == 58 {
        2
    } else if scancode == 59 {
        3
    } else if scancode == 60 {
        4
    } else if scancode == 61 {
        5
    } else if scancode == 62 {
        6
    } else if scancode == 63 {
        7
    } else if scancode == 64 {
        8
    } else if scancode == 65 {
        9
    } else if scancode == 66 {
        10
    } else if scancode == 67 {
        11
    } else if scancode == 68 {
        12
    } else if scancode == 69 {
        13
    } else if scancode == 73 {
        77
    } else if scancode == 74 {
        79
    } else if scancode == 75 {
        81
    } else if scancode == 76 {
        78
    } else if scancode == 77 {
        80
    } else if scancode == 78 {
        82
    } else if scancode == 79 {
        76
    } else if scancode == 80 {
        75
    } else if scancode == 81 {
        74
    } else if scancode == 82 {
        73
    } else if scancode == 101 {
        68
    } else if scancode == 224 {
        67
    } else if scancode == 225 {
        55
    } else if scancode == 226 {
        69
    } else if scancode == 228 {
        72
    } else if scancode == 229 {
        66
    } else if scancode == 230 {
        71
    } else {
        0
    }
}

/// The AM key code of SDL scancode `scancode`.
pub fn am_key_of(scancode: u32) -> (r: u32)
    ensures
        r == am_keymap(scancode),
{
    match scancode {
        4 => 43,
        5 => 60,
        6 => 58,
        7 => 45,
        8 => 31,
        9 => 46,
        10 => 47,
        11 => 48,
        12 => 36,
        13 => 49,
        14 => 50,
        15 => 51,
        16 => 62,
        17 => 61,
        18 => 37,
        19 => 38,
        20 => 29,
        21 => 32,
        22 => 44,
        23 => 33,
        24 => 35,
        25 => 59,
        26 => 30,
        27 => 57,
        28 => 34,
        29 => 56,
        30 => 15,
        31 => 16,
        32 => 17,
        33 => 18,
        34 => 19,
        35 => 20,
        36 => 21,
        37 => 22,
        38 => 23,
        39 => 24,
        40 => 54,
        41 => 1,
        42 => 27,
        43 => 28,
        44 => 70,
        45 => 25,
        46 => 26,
        47 => 39,
        48 => 40,
        49 => 41,
        51 => 52,
        52 => 53,
        53 => 14,
        54 => 63,
        55 => 64,
        56 => 65,
        57 => 42,
        58 => 2,
        59 => 3,
        60 => 4,
        61 => 5,
        62 => 6,
        63 => 7,
        64 => 8,
        65 => 9,
        66 => 10,
        67 => 11,
        68 => 12,
        69 => 13,
        73 => 77,
        74 => 79,
        75 => 81,
        76 => 78,
        77 => 80,
        78 => 82,
        79 => 76,
        80 => 75,
        81 => 74,
        82 => 73,
        101 => 68,
        224 => 67,
        225 => 55,
        226 => 69,
        228 => 72,
        229 => 66,
        230 => 71,
        _ => 0,
    }
}

/// A key event: the SDL scancode of the key, and whether it went down.
#[derive(Clone, Copy, PartialEq, Eq, Debug, Structural)]
pub struct DeviceKbItem {
    pub scancode: u32,
    pub is_keydown: bool,
}

/// The AM key code of event `e`: the key's code, with bit 15 for a press; 0 for an unknown key.
pub open spec fn am_keycode(e: DeviceKbItem) -> u32 {
    let code = am_keymap(e.scancode);
    if code != 0 {
        code | (if e.is_keydown { KEYDOWN_MASK } else { 0 })
    } else {
        0
    }
}

impl DeviceKbItem {
    pub fn get_am_keycode(&self) -> (r: u32)
        ensures
            r == am_keycode(*self),
    {
        let am_code = am_key_of(self.scancode);
        let mask = if self.is_keydown { KEYDOWN_MASK } else { 0 };
        if am_code != 0 {
            am_code | mask
        } else {
            0
        }
    }
}

pub struct DeviceKB {
    /// Key events not read yet, oldest first.
    pub rx: KeyQueue,
}

impl View for DeviceKB {
    type V = Seq<DeviceKbItem>;

    open spec fn view(&self) -> Seq<DeviceKbItem> {
        self.rx@
    }
}

/// The keyboard after a read, and the value read.
pub open spec fn kb_read_model(m: Seq<DeviceKbItem>) -> (Seq<DeviceKbItem>, u64) {
    if m.len() == 0 {
        (m, 0)
    } else {
        (m.drop_first(), am_keycode(m[0]) as u64)
    }
}

impl DeviceKB {
    pub fn new(rx: KeyQueue) -> (r: Self)
        ensures
            r@ == rx@,
    {
        DeviceKB { rx }
    }

    /// Takes the next key event as an AM key code; 0 when none waits.
    pub fn get_am_key(&mut self) -> (r: u32)
        ensures
            (final(self)@, r as u64) == kb_read_model(old(self)@),
    {
        match self.rx.pop() {
            Some(item) => item.get_am_keycode(),
            None => 0,
        }
    }

    pub open spec fn copy_from_model(m: Seq<DeviceKbItem>, addr: u64, bytes: Seq<u8>) -> (bool, Seq<DeviceKbItem>) {
        bytewise_write(m, addr, bytes, |m: Seq<DeviceKbItem>, a: u64, d: u64| Self::write_ok(m, a, d, 1),
            |m: Seq<DeviceKbItem>, a: u64, d: u64| Self::write_result(m, a, d, 1).0)
    }

    pub open spec fn copy_to_model(m: Seq<DeviceKbItem>, addr: u64, n: nat) -> (bool, Seq<DeviceKbItem>, Seq<u8>) {
        bytewise_read(m, addr, n, |m: Seq<DeviceKbItem>, a: u64| Self::read_ok(m, a, 1), |m: Seq<DeviceKbItem>, a: u64| Self::read_result(m, a, 1))
    }
}

impl DeviceBase for DeviceKB {
    /// Every read is answered.
    open spec fn read_ok(m: Seq<DeviceKbItem>, addr: u64, len: usize) -> bool {
        true
    }

    open spec fn read_result(m: Seq<DeviceKbItem>, addr: u64, len: usize) -> (Seq<DeviceKbItem>, u64) {
        kb_read_model(m)
    }

    open spec fn write_ok(m: Seq<DeviceKbItem>, addr: u64, data: u64, len: usize) -> bool {
        false
    }

    open spec fn write_result(m: Seq<DeviceKbItem>, addr: u64, data: u64, len: usize) -> (Seq<DeviceKbItem>, u64) {
        (m, 0)
    }

    open spec fn update_result(m: Seq<DeviceKbItem>) -> Seq<DeviceKbItem> {
        m
    }

    open spec fn copy_from_ok(m: Seq<DeviceKbItem>, addr: u64, bytes: Seq<u8>) -> bool {
        Self::copy_from_model(m, addr, bytes).0
    }

    open spec fn copy_from_result(m: Seq<DeviceKbItem>, addr: u64, bytes: Seq<u8>) -> Seq<DeviceKbItem> {
        Self::copy_from_model(m, addr, bytes).1
    }

    open spec fn copy_to_ok(m: Seq<DeviceKbItem>, addr: u64, n: nat) -> bool {
        Self::copy_to_model(m, addr, n).0
    }

    open spec fn copy_to_result(m: Seq<DeviceKbItem>, addr: u64, n: nat) -> (Seq<DeviceKbItem>, Seq<u8>) {
        (Self::copy_to_model(m, addr, n).1, Self::copy_to_model(m, addr, n).2)
    }

    proof fn lemma_copy_from_unfold(m: Seq<DeviceKbItem>, addr: u64, bytes: Seq<u8>) {
    }

    proof fn lemma_copy_to_unfold(m: Seq<DeviceKbItem>, addr: u64, n: nat) {
    }

    fn can_read(&self, addr: u64, len: usize) -> (r: bool) {
        true
    }

    fn can_write(&self, addr: u64, data: u64, len: usize) -> (r: bool) {
        false
    }

    fn can_copy_from(&self, addr: u64, slice: &[u8]) -> (r: bool) {
        proof {
            reveal_with_fuel(bytewise_write, 2);
        }
        slice.len() == 0
    }

    /// Byte-wise reads take one event each; they stay in the address space.
    fn can_copy_to(&self, addr: u64, len: usize) -> (r: bool) {
        let ghost mut m: Seq<DeviceKbItem> = self@;
        let mut i: usize = 0;
        let mut ok = true;
        while i < len && ok
            invariant
                0 <= i <= len,
                ok && i < len ==> addr + i <= u64::MAX,
                ok ==> Self::copy_to_model(self@, addr, len as nat).0 == Self::copy_to_model(m, (addr + i) as u64, (len - i) as nat).0,
                !ok ==> !Self::copy_to_model(self@, addr, len as nat).0,
            decreases len - i + (if ok { 1int } else { 0int }),
        {
            let a = addr + i as u64;
            if !(i + 1 < len && a == u64::MAX) {
                proof {
                    m = kb_read_model(m).0;
                }
                i = i + 1;
            } else {
                ok = false;
            }
        }
        ok
    }

    fn do_read(&mut self, addr: u64, len: usize) -> (r: u64) {
        self.get_am_key() as u64
    }

    fn do_write(&mut self, addr: u64, data: u64, len: usize) -> (r: u64) {
        0
    }

    fn get_name(&self) -> &'static str {
        "KeyBorad_AM"
    }

    fn do_update(&mut self) {
    }
}

} // verus!
