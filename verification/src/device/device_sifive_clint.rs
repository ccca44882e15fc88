//! The SiFive core-local interruptor (CLINT): the machine timer `mtime`, a
//! timer compare register per hart, and the software-interrupt bit per hart.
use vstd::prelude::*;
use super::device_trait::{DeviceBase, bytewise_read, bytewise_write};
use crate::bits::{flag, with_flag, lemma_field_bound};
use crate::rv64core::csr_regs_define::XipIn;

verus! {

broadcast use lemma_field_bound;

pub const MSIP_BASE: u64 = 0x0;
pub const MSIP_PER_HART: u64 = 0x4;
pub const MSIP_END: u64 = 0x3fff;
pub const MTIMECMP_BASE: u64 = 0x4000;
pub const MTIMECMP_PER_HART: u64 = 0x8;
pub const MTIMECMP_END: u64 = 0xbff7;
pub const MTIME_BASE: u64 = 0xbff8;
pub const MTIME_BASE_END: u64 = 0xbfff;

pub struct DeviceClint {
    pub start: u64,
    pub len: u64,
    pub instance: Clint,
    pub name: &'static str,
}

/// The state the CLINT keeps for one hart: its timer compare value, and the
/// interrupt-pending lines it drives into the hart (`MSIP`, `MTIP`).
#[derive(Clone, Copy, PartialEq, Eq, Debug, Structural)]
pub struct ClintHart {
    /// The hart's `mtimecmp` register.
    pub compare: u64,
    pub xip: XipIn,
}

impl ClintHart {
    /// A hart whose timer never fires until programmed.
    pub fn new(xip_share: XipIn) -> (r: Self)
        ensures
            r.compare == u64::MAX,
            r.xip == xip_share,
    {
        ClintHart { compare: u64::MAX, xip: xip_share }
    }

    pub fn msip_read(&self) -> (r: u64)
        ensures
            r == (if flag(self.xip.0, 3) { 1u64 } else { 0u64 }),
    {
        if self.xip.msip() {
            1
        } else {
            0
        }
    }

    /// Raises `MSIP` when `data` is 1 and clears it otherwise.
    pub fn msip_write(&mut self, data: u64)
        ensures
            final(self).compare == old(self).compare,
            final(self).xip.0 == with_flag(old(self).xip.0, 3, data == 1),
    {
        self.xip.set_msip(data == 1);
    }

    pub fn mtimecmp_read(&self) -> (r: u64)
        ensures
            r == self.compare,
    {
        self.compare
    }

    pub fn mtimecmp_write(&mut self, data: u64)
        ensures
            *final(self) == (ClintHart { compare: data, ..*old(self) }),
    {
        self.compare = data;
    }

    /// The high word of `compare`.
    pub fn mtimecmph_read(&self) -> (r: u64)
        ensures
            r == self.compare >> 32u64,
    {
        self.compare >> 32
    }

    /// Replaces the high word of `compare` with the low word of `data`.
    pub fn mtimecmph_write(&mut self, data: u64)
        ensures
            *final(self) == (ClintHart { compare: (old(self).compare & 0xffff_ffffu64) | (data << 32u64), ..*old(self) }),
    {
        self.compare = (self.compare & 0xffffffff) | (data << 32);
    }
}

/// The model of the CLINT: its harts and `mtime`.
pub type ClintModel = (Seq<ClintHart>, u64);

pub struct Clint {
    pub harts: Vec<ClintHart>,
    pub mitme: u64,
}

impl View for Clint {
    type V = ClintModel;

    open spec fn view(&self) -> ClintModel {
        (self.harts@, self.mitme)
    }
}

/// Hart `h` after a timer tick at time `t`: `MTIP` is raised exactly when `t >= compare`.
pub open spec fn hart_after_tick(h: ClintHart, t: u64) -> ClintHart {
    ClintHart { xip: XipIn(with_flag(h.xip.0, 7, t >= h.compare)), ..h }
}

/// The CLINT accesses that are answered.
pub open spec fn clint_read_ok(m: ClintModel, addr: u64, len: usize) -> bool {
    ||| addr <= MSIP_END && len == 4 && addr / MSIP_PER_HART < m.0.len()
    ||| MTIMECMP_BASE <= addr <= MTIMECMP_END && (addr - MTIMECMP_BASE) / (MTIMECMP_PER_HART as int) < m.0.len()
    ||| MTIME_BASE <= addr <= MTIME_BASE_END
}

/// The CLINT writes that are taken.
pub open spec fn clint_write_ok(m: ClintModel, addr: u64, len: usize) -> bool {
    ||| addr <= MSIP_END && len == 4 && addr / MSIP_PER_HART < m.0.len()
    ||| MTIMECMP_BASE <= addr <= MTIMECMP_END && (addr - MTIMECMP_BASE) / (MTIMECMP_PER_HART as int) < m.0.len()
    ||| addr == MTIME_BASE && len == 8
}

/// The value a CLINT read gives.
pub open spec fn clint_read_value(m: ClintModel, addr: u64) -> u64 {
    if addr <= MSIP_END {
        if flag(m.0[(addr / MSIP_PER_HART) as int].xip.0, 3) { 1 } else { 0 }
    } else if addr <= MTIMECMP_END {
        let h = m.0[((addr - MTIMECMP_BASE) / (MTIMECMP_PER_HART as int)) as int];
        if (addr - MTIMECMP_BASE) % (MTIMECMP_PER_HART as int) == 4 { h.compare >> 32u64 } else { h.compare }
    } else {
        if addr == MTIME_BASE + 4 { m.1 >> 32u64 } else { m.1 }
    }
}

/// The CLINT after a write.
pub open spec fn clint_write_model(m: ClintModel, addr: u64, data: u64) -> ClintModel {
    if addr <= MSIP_END {
        let i = (addr / MSIP_PER_HART) as int;
        let h = m.0[i];
        (m.0.update(i, ClintHart { xip: XipIn(with_flag(h.xip.0, 3, data == 1)), ..h }), m.1)
    } else if addr <= MTIMECMP_END {
        let i = ((addr - MTIMECMP_BASE) / (MTIMECMP_PER_HART as int)) as int;
        let h = m.0[i];
        let c = if (addr - MTIMECMP_BASE) % (MTIMECMP_PER_HART as int) == 4 {
            (h.compare & 0xffff_ffffu64) | (data << 32u64)
        } else {
            data
        };
        (m.0.update(i, ClintHart { compare: c, ..h }), m.1)
    } else {
        (m.0, data)
    }
}

impl Clint {
    pub fn new() -> (r: Self)
        ensures
            r@ == (Seq::<ClintHart>::empty(), 0u64),
    {
        Clint { harts: Vec::new(), mitme: 0 }
    }

    /// Adds a hart whose pending lines start as `xip_share`; returns its index.
    pub fn add_hart(&mut self, xip_share: XipIn) -> (r: usize)
        ensures
            r == old(self)@.0.len(),
            final(self)@ == (old(self)@.0.push(ClintHart { compare: u64::MAX, xip: xip_share }), old(self)@.1),
    {
        let r = self.harts.len();
        self.harts.push(ClintHart::new(xip_share));
        r
    }

    fn mtime_inc(&mut self, inc: usize)
        requires
            old(self).mitme + inc <= u64::MAX,
        ensures
            final(self)@ == (old(self)@.0, (old(self).mitme + inc) as u64),
    {
        self.mitme = self.mitme + inc as u64;
    }

    /// Advances `mtime` by `inc`, then sets each hart's `MTIP` to whether
    /// `mtime` has reached its `compare`.
    pub fn tick(&mut self, inc: usize)
        requires
            old(self).mitme + inc <= u64::MAX,
        ensures
            final(self)@.1 == old(self).mitme + inc,
            final(self)@.0.len() == old(self)@.0.len(),
            forall|i: int| 0 <= i < old(self)@.0.len() ==> #[trigger] final(self)@.0[i] == hart_after_tick(old(self)@.0[i], final(self)@.1),
    {
        self.mtime_inc(inc);
        let t = self.mitme;
        let n = self.harts.len();
        let mut i: usize = 0;
        while i < n
            invariant
                0 <= i <= n,
                n == self.harts@.len(),
                n == old(self)@.0.len(),
                self.mitme == t,
                t == old(self).mitme + inc,
                forall|j: int| 0 <= j < i ==> #[trigger] self.harts@[j] == hart_after_tick(old(self)@.0[j], t),
                forall|j: int| i <= j < n ==> #[trigger] self.harts@[j] == old(self)@.0[j],
            decreases n - i,
        {
            let mut hart = self.harts[i];
            let level = t >= hart.compare;
            hart.xip.set_mtip(level);
            self.harts.set(i, hart);
            i = i + 1;
        }
    }

    pub open spec fn copy_from_model(m: ClintModel, addr: u64, bytes: Seq<u8>) -> (bool, ClintModel) {
        bytewise_write(m, addr, bytes, |m: ClintModel, a: u64, d: u64| Self::write_ok(m, a, d, 1),
            |m: ClintModel, a: u64, d: u64| Self::write_result(m, a, d, 1).0)
    }

    pub open spec fn copy_to_model(m: ClintModel, addr: u64, n: nat) -> (bool, ClintModel, Seq<u8>) {
        bytewise_read(m, addr, n, |m: ClintModel, a: u64| Self::read_ok(m, a, 1), |m: ClintModel, a: u64| Self::read_result(m, a, 1))
    }
}

impl DeviceBase for Clint {
    open spec fn read_ok(m: ClintModel, addr: u64, len: usize) -> bool {
        clint_read_ok(m, addr, len)
    }

    open spec fn read_result(m: ClintModel, addr: u64, len: usize) -> (ClintModel, u64) {
        (m, clint_read_value(m, addr))
    }

    open spec fn write_ok(m: ClintModel, addr: u64, data: u64, len: usize) -> bool {
        clint_write_ok(m, addr, len)
    }

    open spec fn write_result(m: ClintModel, addr: u64, data: u64, len: usize) -> (ClintModel, u64) {
        (clint_write_model(m, addr, data), 0)
    }

    open spec fn update_result(m: ClintModel) -> ClintModel {
        m
    }

    open spec fn copy_from_ok(m: ClintModel, addr: u64, bytes: Seq<u8>) -> bool {
        Self::copy_from_model(m, addr, bytes).0
    }

    open spec fn copy_from_result(m: ClintModel, addr: u64, bytes: Seq<u8>) -> ClintModel {
        Self::copy_from_model(m, addr, bytes).1
    }

    open spec fn copy_to_ok(m: ClintModel, addr: u64, n: nat) -> bool {
        Self::copy_to_model(m, addr, n).0
    }

    open spec fn copy_to_result(m: ClintModel, addr: u64, n: nat) -> (ClintModel, Seq<u8>) {
        (Self::copy_to_model(m, addr, n).1, Self::copy_to_model(m, addr, n).2)
    }

    proof fn lemma_copy_from_unfold(m: ClintModel, addr: u64, bytes: Seq<u8>) {
    }

    proof fn lemma_copy_to_unfold(m: ClintModel, addr: u64, n: nat) {
    }

    fn can_read(&self, addr: u64, len: usize) -> (r: bool) {
        let n = self.harts.len() as u64;
        (addr <= MSIP_END && len == 4 && addr / MSIP_PER_HART < n)
            || (MTIMECMP_BASE <= addr && addr <= MTIMECMP_END && (addr - MTIMECMP_BASE) / MTIMECMP_PER_HART < n)
            || (MTIME_BASE <= addr && addr <= MTIME_BASE_END)
    }

    fn can_write(&self, addr: u64, data: u64, len: usize) -> (r: bool) {
        let n = self.harts.len() as u64;
        (addr <= MSIP_END && len == 4 && addr / MSIP_PER_HART < n)
            || (MTIMECMP_BASE <= addr && addr <= MTIMECMP_END && (addr - MTIMECMP_BASE) / MTIMECMP_PER_HART < n)
            || (addr == MTIME_BASE && len == 8)
    }

    /// Byte-wise copies into the CLINT: only into the timer compare registers.
    fn can_copy_from(&self, addr: u64, slice: &[u8]) -> (r: bool) {
        let n = self.harts.len() as u64;
        let ghost mut m: ClintModel = self@;
        let mut i: usize = 0;
        let mut ok = true;
        assert(slice@.subrange(0, slice@.len() as int) == slice@);
        while i < slice.len() && ok
            invariant
                0 <= i <= slice@.len(),
                n == self@.0.len(),
                m.0.len() == self@.0.len(),
                ok && i < slice@.len() ==> addr + i <= u64::MAX,
                ok ==> Self::copy_from_model(self@, addr, slice@).0
                    == Self::copy_from_model(m, (addr + i) as u64, slice@.subrange(i as int, slice@.len() as int)).0,
                !ok ==> !Self::copy_from_model(self@, addr, slice@).0,
            decreases slice@.len() - i + (if ok { 1int } else { 0int }),
        {
            let a = addr + i as u64;
            let ghost rest = slice@.subrange(i as int, slice@.len() as int);
            assert(rest.drop_first() == slice@.subrange(i + 1, slice@.len() as int));
            assert(rest[0] == slice@[i as int]);
            assert(Self::write_ok(m, a, rest[0] as u64, 1) == clint_write_ok(m, a, 1));
            if MTIMECMP_BASE <= a && a <= MTIMECMP_END && (a - MTIMECMP_BASE) / MTIMECMP_PER_HART < n
                && !(i + 1 < slice.len() && a == u64::MAX) {
                proof {
                    m = clint_write_model(m, a, rest[0] as u64);
                }
                i = i + 1;
            } else {
                ok = false;
            }
        }
        ok
    }

    /// Byte-wise copies out of the CLINT: only from the timer registers.
    fn can_copy_to(&self, addr: u64, len: usize) -> (r: bool) {
        let n = self.harts.len() as u64;
        let mut i: usize = 0;
        let mut ok = true;
        while i < len && ok
            invariant
                0 <= i <= len,
                n == self@.0.len(),
                ok && i < len ==> addr + i <= u64::MAX,
                ok ==> Self::copy_to_model(self@, addr, len as nat).0 == Self::copy_to_model(self@, (addr + i) as u64, (len - i) as nat).0,
                !ok ==> !Self::copy_to_model(self@, addr, len as nat).0,
            decreases len - i + (if ok { 1int } else { 0int }),
        {
            let a = addr + i as u64;
            assert(Self::read_ok(self@, a, 1) == clint_read_ok(self@, a, 1));
            assert(Self::read_result(self@, a, 1).0 == self@);
            if ((MTIMECMP_BASE <= a && a <= MTIMECMP_END && (a - MTIMECMP_BASE) / MTIMECMP_PER_HART < n)
                || (MTIME_BASE <= a && a <= MTIME_BASE_END)) && !(i + 1 < len && a == u64::MAX) {
                i = i + 1;
            } else {
                ok = false;
            }
        }
        ok
    }

    fn do_read(&mut self, addr: u64, len: usize) -> (r: u64) {
        if addr <= MSIP_END {
            let hart_id = (addr - MSIP_BASE) / MSIP_PER_HART;
            self.harts[hart_id as usize].msip_read()
        } else if addr <= MTIMECMP_END {
            let hart_id = (addr - MTIMECMP_BASE) / MTIMECMP_PER_HART;
            let is_high = (addr - MTIMECMP_BASE) % MTIMECMP_PER_HART == 4;
            let hart = &self.harts[hart_id as usize];
            if is_high {
                hart.compare >> 32
            } else {
                hart.compare
            }
        } else {
            let is_mtimeh = addr == MTIME_BASE + 4;
            if is_mtimeh {
                self.mitme >> 32
            } else {
                self.mitme
            }
        }
    }

    fn do_write(&mut self, addr: u64, data: u64, len: usize) -> (r: u64) {
        if addr <= MSIP_END {
            let hart_id = ((addr - MSIP_BASE) / MSIP_PER_HART) as usize;
            let mut hart = self.harts[hart_id];
            hart.msip_write(data);
            self.harts.set(hart_id, hart);
        } else if addr <= MTIMECMP_END {
            let hart_id = ((addr - MTIMECMP_BASE) / MTIMECMP_PER_HART) as usize;
            let is_high = (addr - MTIMECMP_BASE) % MTIMECMP_PER_HART == 4;
            let mut hart = self.harts[hart_id];
            if is_high {
                hart.compare = (hart.compare & 0xffffffff) | (data << 32);
            } else {
                hart.compare = data;
            }
            self.harts.set(hart_id, hart);
        } else {
            self.mitme = data;
        }
        0
    }

    fn get_name(&self) -> &'static str {
        "Sifive CLINT"
    }

    fn do_update(&mut self) {
    }
}

} // verus!
