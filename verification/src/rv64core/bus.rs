//! The system bus: routes each physical access to the device whose window
//! holds the address — first the general devices in the order they were
//! added, then the CLINT, then the PLIC.
use vstd::prelude::*;
use crate::device::device_trait::DeviceBase;
use crate::device::device_sifive_clint::{Clint, DeviceClint};
use crate::device::device_sifive_plic::{DevicePlic, SifvePlic};
use crate::inst_rv64a::LrScReservation;
use crate::tools::{aligned, check_aligned, check_area, in_area};
use super::inst_base::RVerr;
use crate::device::device_memory::{DeviceMemory, lemma_mem_copy_round_trip};

verus! {

pub struct DeviceType<D> {
    pub start: u64,
    pub len: u64,
    pub instance: D,
    pub name: &'static str,
}

pub struct Bus<D> {
    pub clint: DeviceClint,
    pub plic: DevicePlic,
    pub devices: Vec<DeviceType<D>>,
    /// The reservation of the A extension's load-reserved.
    pub lr_sc_set: LrScReservation,
}

/// Device `i` is the first of `devs` whose window holds `addr`.
pub open spec fn device_at<D>(devs: Seq<DeviceType<D>>, addr: u64, i: int) -> bool {
    &&& 0 <= i < devs.len()
    &&& in_area(devs[i].start, devs[i].len, addr)
    &&& forall|j: int| 0 <= j < i ==> !in_area(#[trigger] devs[j].start, devs[j].len, addr)
}

/// The general device an access at `addr` goes to, or -1 for none.
pub open spec fn route<D>(devs: Seq<DeviceType<D>>, addr: u64) -> int {
    if exists|i: int| device_at(devs, addr, i) {
        choose|i: int| device_at(devs, addr, i)
    } else {
        -1
    }
}

/// At most one device is the first whose window holds an address.
pub proof fn lemma_device_at_unique<D>(devs: Seq<DeviceType<D>>, addr: u64, i: int, k: int)
    requires
        device_at(devs, addr, i),
        device_at(devs, addr, k),
    ensures
        i == k,
{
    if i < k {
        assert(!in_area(devs[i].start, devs[i].len, addr));
    } else if k < i {
        assert(!in_area(devs[k].start, devs[k].len, addr));
    }
}

/// A device added to the bus takes the accesses in its window that no
/// earlier device took; an address an earlier device holds stays with it.
pub proof fn lemma_add_device_route<D>(devs: Seq<DeviceType<D>>, d: DeviceType<D>, addr: u64)
    ensures
        route(devs, addr) >= 0 ==> route(devs.push(d), addr) == route(devs, addr),
        route(devs, addr) < 0 && in_area(d.start, d.len, addr) ==> route(devs.push(d), addr) == devs.len(),
        route(devs, addr) < 0 && !in_area(d.start, d.len, addr) ==> route(devs.push(d), addr) == -1,
{
    let nd = devs.push(d);
    assert forall|j: int| 0 <= j < devs.len() implies #[trigger] nd[j] == devs[j] by {}
    if exists|i: int| device_at(devs, addr, i) {
        let i = choose|i: int| device_at(devs, addr, i);
        assert(device_at(nd, addr, i));
        let k = choose|k: int| device_at(nd, addr, k);
        lemma_device_at_unique(nd, addr, i, k);
    } else {
        lemma_none_in_area(devs, addr);
        if in_area(d.start, d.len, addr) {
            assert(device_at(nd, addr, devs.len() as int));
            let k = choose|k: int| device_at(nd, addr, k);
            lemma_device_at_unique(nd, addr, devs.len() as int, k);
        } else {
            assert forall|k: int| !device_at(nd, addr, k) by {
                if 0 <= k < devs.len() {
                    assert(!in_area(devs[k].start, devs[k].len, addr));
                }
            }
        }
    }
}

/// Once a device is added to a bus where no earlier device holds an
/// address in its window, an aligned read there goes to that device, at the
/// offset in its window, and gives what the device's read gives.
pub proof fn lemma_add_device_read<D: DeviceBase>(b: Bus<D>, d: DeviceType<D>, o: Bus<D>, n: Bus<D>, addr: u64, len: usize, r: Result<u64, RVerr>)
    requires
        route(b.devices@, addr) < 0,
        in_area(d.start, d.len, addr),
        o.devices@ == b.devices@.push(d),
        aligned(addr, len as int),
        bus_read_post(o, n, addr, len, r),
    ensures
        route(o.devices@, addr) == b.devices@.len(),
        r == Ok::<u64, RVerr>(D::read_result(d.instance@, (addr - d.start) as u64, len).1),
        n.devices@[b.devices@.len() as int].instance@ == D::read_result(d.instance@, (addr - d.start) as u64, len).0,
{
    lemma_add_device_route(b.devices@, d, addr);
}

/// As `lemma_add_device_read`, for a write of `data`.
pub proof fn lemma_add_device_write<D: DeviceBase>(b: Bus<D>, d: DeviceType<D>, o: Bus<D>, n: Bus<D>, addr: u64, data: u64, len: usize, r: Result<u64, RVerr>)
    requires
        route(b.devices@, addr) < 0,
        in_area(d.start, d.len, addr),
        o.devices@ == b.devices@.push(d),
        aligned(addr, len as int),
        bus_write_post(o, n, addr, data, len, r),
    ensures
        route(o.devices@, addr) == b.devices@.len(),
        r == Ok::<u64, RVerr>(D::write_result(d.instance@, (addr - d.start) as u64, data, len).1),
        n.devices@[b.devices@.len() as int].instance@ == D::write_result(d.instance@, (addr - d.start) as u64, data, len).0,
{
    lemma_add_device_route(b.devices@, d, addr);
}

/// An access goes to the same device of two buses whose devices have the
/// same windows.
proof fn lemma_route_same_windows<D>(o: Seq<DeviceType<D>>, n: Seq<DeviceType<D>>, addr: u64)
    requires
        o.len() == n.len(),
        forall|j: int| #![trigger n[j]] 0 <= j < o.len() ==> n[j].start == o[j].start && n[j].len == o[j].len,
    ensures
        route(n, addr) == route(o, addr),
{
    assert forall|i: int| device_at(o, addr, i) <==> #[trigger] device_at(n, addr, i) by {
        if 0 <= i < o.len() {
            assert(n[i].start == o[i].start && n[i].len == o[i].len);
            assert forall|j: int| 0 <= j < i implies (in_area(#[trigger] o[j].start, o[j].len, addr) <==> in_area(n[j].start, n[j].len, addr)) by {
                assert(n[j].start == o[j].start && n[j].len == o[j].len);
            }
        }
    }
    if exists|i: int| device_at(o, addr, i) {
        let i = choose|i: int| device_at(o, addr, i);
        assert(device_at(n, addr, i));
        let k = choose|k: int| device_at(n, addr, k);
        lemma_device_at_unique(n, addr, i, k);
    }
}

/// Copying bytes out of a memory bus where bytes were just copied in gives
/// them back, and leaves the memory as the copy in left it.
pub proof fn lemma_bus_copy_round_trip(o: Bus<DeviceMemory>, n: Bus<DeviceMemory>, addr: u64, bytes: Seq<u8>, r: Result<(), RVerr>)
    requires
        target(o, addr) == 0,
        bus_copy_from_ok(o, addr, bytes),
        bus_copy_post(o, n, addr, bytes, r),
    ensures
        r is Ok,
        target(n, addr) == 0,
        route(n.devices@, addr) == route(o.devices@, addr),
        bus_copy_to_ok(n, addr, bytes.len()),
        ({
            let i = route(n.devices@, addr);
            DeviceMemory::copy_to_result(n.devices@[i].instance@, offset_in(n.devices@, i, addr), bytes.len())
                == (n.devices@[i].instance@, bytes)
        }),
{
    let i = route(o.devices@, addr);
    assert forall|j: int| #![trigger n.devices@[j]] 0 <= j < o.devices@.len() implies n.devices@[j].start == o.devices@[j].start
        && n.devices@[j].len == o.devices@[j].len by {
        if j != i {
            assert(n.devices@[j] == o.devices@[j]);
        }
    }
    lemma_route_same_windows(o.devices@, n.devices@, addr);
    lemma_mem_copy_round_trip(o.devices@[i].instance@, offset_in(o.devices@, i, addr), bytes);
}

/// Where no device is the first to hold `addr`, none holds it.
proof fn lemma_none_in_area<D>(devs: Seq<DeviceType<D>>, addr: u64)
    requires
        !exists|i: int| device_at(devs, addr, i),
    ensures
        forall|j: int| 0 <= j < devs.len() ==> !in_area(#[trigger] devs[j].start, devs[j].len, addr),
{
    assert forall|j: int| 0 <= j < devs.len() implies !in_area(#[trigger] devs[j].start, devs[j].len, addr) by {
        if in_area(devs[j].start, devs[j].len, addr) {
            lemma_first_in_area(devs, addr, j);
        }
    }
}

/// Where some device holds `addr`, a first one does.
proof fn lemma_first_in_area<D>(devs: Seq<DeviceType<D>>, addr: u64, j: int)
    requires
        0 <= j < devs.len(),
        in_area(devs[j].start, devs[j].len, addr),
    ensures
        exists|i: int| device_at(devs, addr, i),
    decreases j,
{
    if exists|x: int| 0 <= x < j && in_area(#[trigger] devs[x].start, devs[x].len, addr) {
        let x = choose|x: int| 0 <= x < j && in_area(#[trigger] devs[x].start, devs[x].len, addr);
        lemma_first_in_area(devs, addr, x);
    } else {
        assert(device_at(devs, addr, j));
    }
}

/// The offset of `addr` in device `i`'s window.
pub open spec fn offset_in<D>(devs: Seq<DeviceType<D>>, i: int, addr: u64) -> u64 {
    (addr - devs[i].start) as u64
}

/// `n` is `o` but for general device `i`'s instance.
pub open spec fn same_but_device<D>(o: Bus<D>, n: Bus<D>, i: int) -> bool {
    &&& n.devices@.len() == o.devices@.len()
    &&& forall|j: int| 0 <= j < o.devices@.len() && j != i ==> #[trigger] n.devices@[j] == o.devices@[j]
    &&& n.devices@[i].start == o.devices@[i].start
    &&& n.devices@[i].len == o.devices@[i].len
    &&& n.devices@[i].name == o.devices@[i].name
    &&& n.clint == o.clint
    &&& n.plic == o.plic
    &&& n.lr_sc_set == o.lr_sc_set
}

/// `n` is `o` but for the CLINT's instance.
pub open spec fn same_but_clint<D>(o: Bus<D>, n: Bus<D>) -> bool {
    &&& n.devices@ == o.devices@
    &&& n.clint.start == o.clint.start && n.clint.len == o.clint.len && n.clint.name == o.clint.name
    &&& n.plic == o.plic
    &&& n.lr_sc_set == o.lr_sc_set
}

/// `n` is `o` but for the PLIC's instance.
pub open spec fn same_but_plic<D>(o: Bus<D>, n: Bus<D>) -> bool {
    &&& n.devices@ == o.devices@
    &&& n.clint == o.clint
    &&& n.plic.start == o.plic.start && n.plic.len == o.plic.len && n.plic.name == o.plic.name
    &&& n.lr_sc_set == o.lr_sc_set
}

/// Where an access at `addr` goes: 0 a general device, 1 the CLINT, 2 the PLIC, 3 nowhere.
pub open spec fn target<D>(b: Bus<D>, addr: u64) -> int {
    if route(b.devices@, addr) >= 0 {
        0
    } else if in_area(b.clint.start, b.clint.len, addr) {
        1
    } else if in_area(b.plic.start, b.plic.len, addr) {
        2
    } else {
        3
    }
}

/// The device an aligned read of `len` bytes at `addr` goes to answers it.
pub open spec fn bus_read_ok<D: DeviceBase>(b: Bus<D>, addr: u64, len: usize) -> bool {
    let i = route(b.devices@, addr);
    aligned(addr, len as int) ==> {
        &&& target(b, addr) == 0 ==> D::read_ok(b.devices@[i].instance@, offset_in(b.devices@, i, addr), len)
        &&& target(b, addr) == 1 ==> Clint::read_ok(b.clint.instance@, (addr - b.clint.start) as u64, len)
        &&& target(b, addr) == 2 ==> SifvePlic::read_ok(b.plic.instance@, (addr - b.plic.start) as u64, len)
    }
}

/// The device an aligned write of `len` bytes at `addr` goes to takes it.
pub open spec fn bus_write_ok<D: DeviceBase>(b: Bus<D>, addr: u64, data: u64, len: usize) -> bool {
    let i = route(b.devices@, addr);
    aligned(addr, len as int) ==> {
        &&& target(b, addr) == 0 ==> D::write_ok(b.devices@[i].instance@, offset_in(b.devices@, i, addr), data, len)
        &&& target(b, addr) == 1 ==> Clint::write_ok(b.clint.instance@, (addr - b.clint.start) as u64, data, len)
        &&& target(b, addr) == 2 ==> SifvePlic::write_ok(b.plic.instance@, (addr - b.plic.start) as u64, data, len)
    }
}

/// The ticks of the CLINT's timer for `interval_cycle` cycles: a tenth of
/// them, at least one.
pub open spec fn timer_ticks(interval_cycle: usize) -> int {
    if interval_cycle / 10 > 1 { (interval_cycle / 10) as int } else { 1 }
}

/// `n` is the bus `o` after `interval_cycle` cycles: every device updated
/// itself, the CLINT's timer advanced by `timer_ticks(interval_cycle)`
/// (each hart's timer line following it), and the PLIC latched its pending
/// sources and drove its contexts' lines.
pub open spec fn bus_updated<D: DeviceBase>(o: Bus<D>, n: Bus<D>, interval_cycle: usize) -> bool {
    &&& n.devices@.len() == o.devices@.len()
    &&& forall|j: int| 0 <= j < o.devices@.len() ==> {
        &&& (#[trigger] n.devices@[j]).start == o.devices@[j].start
        &&& n.devices@[j].len == o.devices@[j].len
        &&& n.devices@[j].name == o.devices@[j].name
        &&& n.devices@[j].instance@ == D::update_result(o.devices@[j].instance@)
    }
    &&& n.clint.start == o.clint.start && n.clint.len == o.clint.len && n.clint.name == o.clint.name
    &&& n.clint.instance@.1 == o.clint.instance.mitme + timer_ticks(interval_cycle)
    &&& n.clint.instance@.0.len() == o.clint.instance@.0.len()
    &&& forall|i: int| 0 <= i < o.clint.instance@.0.len() ==> #[trigger] n.clint.instance@.0[i]
        == crate::device::device_sifive_clint::hart_after_tick(o.clint.instance@.0[i], n.clint.instance@.1)
    &&& n.plic.start == o.plic.start && n.plic.len == o.plic.len && n.plic.name == o.plic.name
    &&& n.plic.instance@.2 == crate::device::device_sifive_plic::pending_after_tick(
        o.plic.instance@.0, o.plic.instance@.2, o.plic.instance@.0.len() as int)
    &&& n.plic.instance@.4.len() == o.plic.instance@.4.len()
    &&& forall|i: int| 0 <= i < o.plic.instance@.4.len() ==> #[trigger] n.plic.instance@.4[i]
        == crate::device::device_sifive_plic::context_with_line(o.plic.instance@.4[i],
            crate::device::device_sifive_plic::context_interrupt(o.plic.instance@.0, o.plic.instance@.1, o.plic.instance@.4[i]))
    &&& n.lr_sc_set == o.lr_sc_set
}

/// What a read of `len` bytes at `addr` does: `n` is the bus after it and `r` its answer.
pub open spec fn bus_read_post<D: DeviceBase>(o: Bus<D>, n: Bus<D>, addr: u64, len: usize, r: Result<u64, RVerr>) -> bool {
    &&& !aligned(addr, len as int) ==> r == Err::<u64, RVerr>(RVerr::AddrMisalign) && n == o
    &&& aligned(addr, len as int) && target(o, addr) == 0 ==> {
        let i = route(o.devices@, addr);
        &&& r is Ok
        &&& same_but_device(o, n, i)
        &&& (n.devices@[i].instance@, r->Ok_0) == D::read_result(o.devices@[i].instance@, offset_in(o.devices@, i, addr), len)
    }
    &&& aligned(addr, len as int) && target(o, addr) == 1 ==> {
        &&& r is Ok
        &&& same_but_clint(o, n)
        &&& (n.clint.instance@, r->Ok_0) == Clint::read_result(o.clint.instance@, (addr - o.clint.start) as u64, len)
    }
    &&& aligned(addr, len as int) && target(o, addr) == 2 ==> {
        &&& r is Ok
        &&& same_but_plic(o, n)
        &&& (n.plic.instance@, r->Ok_0) == SifvePlic::read_result(o.plic.instance@, (addr - o.plic.start) as u64, len)
    }
    &&& aligned(addr, len as int) && target(o, addr) == 3 ==> r == Err::<u64, RVerr>(RVerr::NotFindDevice) && n == o
}

/// What a write of the low `len` bytes of `data` at `addr` does: `n` is the
/// bus after it and `r` its answer.
pub open spec fn bus_write_post<D: DeviceBase>(o: Bus<D>, n: Bus<D>, addr: u64, data: u64, len: usize, r: Result<u64, RVerr>) -> bool {
    &&& !aligned(addr, len as int) ==> r == Err::<u64, RVerr>(RVerr::AddrMisalign) && n == o
    &&& aligned(addr, len as int) && target(o, addr) == 0 ==> {
        let i = route(o.devices@, addr);
        &&& r is Ok
        &&& same_but_device(o, n, i)
        &&& (n.devices@[i].instance@, r->Ok_0) == D::write_result(o.devices@[i].instance@, offset_in(o.devices@, i, addr), data, len)
    }
    &&& aligned(addr, len as int) && target(o, addr) == 1 ==> {
        &&& r is Ok
        &&& same_but_clint(o, n)
        &&& (n.clint.instance@, r->Ok_0) == Clint::write_result(o.clint.instance@, (addr - o.clint.start) as u64, data, len)
    }
    &&& aligned(addr, len as int) && target(o, addr) == 2 ==> {
        &&& r is Ok
        &&& same_but_plic(o, n)
        &&& (n.plic.instance@, r->Ok_0) == SifvePlic::write_result(o.plic.instance@, (addr - o.plic.start) as u64, data, len)
    }
    &&& aligned(addr, len as int) && target(o, addr) == 3 ==> r == Err::<u64, RVerr>(RVerr::NotFindDevice) && n == o
}

/// A byte-wise copy of `bytes` from `addr` is taken by the device `addr` goes to.
pub open spec fn bus_copy_from_ok<D: DeviceBase>(b: Bus<D>, addr: u64, bytes: Seq<u8>) -> bool {
    let i = route(b.devices@, addr);
    &&& target(b, addr) == 0 ==> D::copy_from_ok(b.devices@[i].instance@, offset_in(b.devices@, i, addr), bytes)
    &&& target(b, addr) == 1 ==> Clint::copy_from_ok(b.clint.instance@, (addr - b.clint.start) as u64, bytes)
    &&& target(b, addr) == 2 ==> SifvePlic::copy_from_ok(b.plic.instance@, (addr - b.plic.start) as u64, bytes)
}

/// A byte-wise copy of `n` bytes from `addr` is answered by the device `addr` goes to.
pub open spec fn bus_copy_to_ok<D: DeviceBase>(b: Bus<D>, addr: u64, n: nat) -> bool {
    let i = route(b.devices@, addr);
    &&& target(b, addr) == 0 ==> D::copy_to_ok(b.devices@[i].instance@, offset_in(b.devices@, i, addr), n)
    &&& target(b, addr) == 1 ==> Clint::copy_to_ok(b.clint.instance@, (addr - b.clint.start) as u64, n)
    &&& target(b, addr) == 2 ==> SifvePlic::copy_to_ok(b.plic.instance@, (addr - b.plic.start) as u64, n)
}

/// What copying `bytes` byte by byte from `addr` did: `n` is the bus after
/// it and `r` its answer.
pub open spec fn bus_copy_post<D: DeviceBase>(o: Bus<D>, n: Bus<D>, addr: u64, bytes: Seq<u8>, r: Result<(), RVerr>) -> bool {
    &&& target(o, addr) == 0 ==> {
        let i = route(o.devices@, addr);
        &&& r is Ok
        &&& same_but_device(o, n, i)
        &&& n.devices@[i].instance@ == D::copy_from_result(o.devices@[i].instance@, offset_in(o.devices@, i, addr), bytes)
    }
    &&& target(o, addr) == 1 ==> r is Ok && same_but_clint(o, n)
        && n.clint.instance@ == Clint::copy_from_result(o.clint.instance@, (addr - o.clint.start) as u64, bytes)
    &&& target(o, addr) == 2 ==> r is Ok && same_but_plic(o, n)
        && n.plic.instance@ == SifvePlic::copy_from_result(o.plic.instance@, (addr - o.plic.start) as u64, bytes)
    &&& target(o, addr) == 3 ==> r == Err::<(), RVerr>(RVerr::NotFindDevice) && n == o
}

impl<D: DeviceBase> Bus<D> {
    /// A bus with only the CLINT (at 0x0200_0000) and the PLIC (at 0x0C00_0000).
    pub fn new() -> (r: Self)
        ensures
            r.devices@.len() == 0,
            r.clint.start == 0x0200_0000 && r.clint.len == 0x0001_0000,
            r.clint.instance@ == (Seq::<crate::device::device_sifive_clint::ClintHart>::empty(), 0u64),
            r.plic.start == 0x0C00_0000 && r.plic.len == 0x0400_0000,
            r.plic.instance@.0.len() == 0 && r.plic.instance@.4.len() == 0,
            r.lr_sc_set.val == u64::MAX,
    {
        let plic = DevicePlic { start: 0x0C00_0000, len: 0x0400_0000, instance: SifvePlic::new(), name: "PLIC" };
        let clint = DeviceClint { start: 0x0200_0000, len: 0x0001_0000, instance: Clint::new(), name: "CLINT" };
        Bus { devices: Vec::new(), clint, plic, lr_sc_set: LrScReservation::new() }
    }

    pub fn add_device(&mut self, device: DeviceType<D>)
        ensures
            final(self).devices@ == old(self).devices@.push(device),
            final(self).clint == old(self).clint,
            final(self).plic == old(self).plic,
            final(self).lr_sc_set == old(self).lr_sc_set,
    {
        self.devices.push(device);
    }

    /// An access of `len` bytes at `addr` is aligned; otherwise the access
    /// is not allowed.
    pub fn check_aligned(addr: u64, len: u64)
        requires
            aligned(addr, len as int),
    {
    }

    /// Whether the device an aligned read of `len` bytes at `addr` goes to answers it.
    pub fn can_read(&self, addr: u64, len: usize) -> (r: bool)
        ensures
            r == bus_read_ok(*self, addr, len),
    {
        if !check_aligned(addr, len) {
            return true;
        }
        match self.find_device(addr) {
            Some(i) => self.devices[i].instance.can_read(addr - self.devices[i].start, len),
            None => {
                if check_area(self.clint.start, self.clint.len, addr) {
                    self.clint.instance.can_read(addr - self.clint.start, len)
                } else if check_area(self.plic.start, self.plic.len, addr) {
                    self.plic.instance.can_read(addr - self.plic.start, len)
                } else {
                    true
                }
            },
        }
    }

    /// Whether the device an aligned write of `len` bytes at `addr` goes to takes it.
    pub fn can_write(&self, addr: u64, data: u64, len: usize) -> (r: bool)
        ensures
            r == bus_write_ok(*self, addr, data, len),
    {
        if !check_aligned(addr, len) {
            return true;
        }
        match self.find_device(addr) {
            Some(i) => self.devices[i].instance.can_write(addr - self.devices[i].start, data, len),
            None => {
                if check_area(self.clint.start, self.clint.len, addr) {
                    self.clint.instance.can_write(addr - self.clint.start, data, len)
                } else if check_area(self.plic.start, self.plic.len, addr) {
                    self.plic.instance.can_write(addr - self.plic.start, data, len)
                } else {
                    true
                }
            },
        }
    }

    /// Whether the device `addr` goes to takes `data` byte by byte from `addr`.
    pub fn can_copy_from(&self, addr: u64, data: &[u8]) -> (r: bool)
        ensures
            r == bus_copy_from_ok(*self, addr, data@),
    {
        match self.find_device(addr) {
            Some(i) => self.devices[i].instance.can_copy_from(addr - self.devices[i].start, data),
            None => {
                if check_area(self.clint.start, self.clint.len, addr) {
                    self.clint.instance.can_copy_from(addr - self.clint.start, data)
                } else if check_area(self.plic.start, self.plic.len, addr) {
                    self.plic.instance.can_copy_from(addr - self.plic.start, data)
                } else {
                    true
                }
            },
        }
    }

    /// Whether the device `addr` goes to answers `len` byte reads from `addr`.
    pub fn can_copy_to(&self, addr: u64, len: usize) -> (r: bool)
        ensures
            r == bus_copy_to_ok(*self, addr, len as nat),
    {
        match self.find_device(addr) {
            Some(i) => self.devices[i].instance.can_copy_to(addr - self.devices[i].start, len),
            None => {
                if check_area(self.clint.start, self.clint.len, addr) {
                    self.clint.instance.can_copy_to(addr - self.clint.start, len)
                } else if check_area(self.plic.start, self.plic.len, addr) {
                    self.plic.instance.can_copy_to(addr - self.plic.start, len)
                } else {
                    true
                }
            },
        }
    }

    /// The general device an access at `addr` goes to.
    fn find_device(&self, addr: u64) -> (r: Option<usize>)
        ensures
            r is Some ==> device_at(self.devices@, addr, r->0 as int) && route(self.devices@, addr) == r->0,
            r is None ==> route(self.devices@, addr) == -1,
    {
        let mut i: usize = 0;
        while i < self.devices.len()
            invariant
                0 <= i <= self.devices@.len(),
                forall|j: int| 0 <= j < i ==> !in_area(#[trigger] self.devices@[j].start, self.devices@[j].len, addr),
            decreases self.devices@.len() - i,
        {
            let d = &self.devices[i];
            if check_area(d.start, d.len, addr) {
                proof {
                    assert(device_at(self.devices@, addr, i as int));
                    let k = choose|k: int| device_at(self.devices@, addr, k);
                    lemma_device_at_unique(self.devices@, addr, i as int, k);
                }
                return Some(i);
            }
            i = i + 1;
        }
        assert forall|k: int| !device_at(self.devices@, addr, k) by {
            if device_at(self.devices@, addr, k) {
                assert(!in_area(self.devices@[k].start, self.devices@[k].len, addr));
            }
        }
        None
    }

    /// Reads `len` bytes at `addr`: an error for a misaligned access or an
    /// address no device holds, else what the device answers.
    pub fn read(&mut self, addr: u64, len: usize) -> (r: Result<u64, RVerr>)
        requires
            bus_read_ok(*old(self), addr, len),
        ensures
            bus_read_post(*old(self), *final(self), addr, len, r),
    {
        if !check_aligned(addr, len) {
            return Err(RVerr::AddrMisalign);
        }
        match self.find_device(addr) {
            Some(i) => {
                let mut dev = self.devices.remove(i);
                let v = dev.instance.do_read(addr - dev.start, len);
                self.devices.insert(i, dev);
                proof {
                    assert forall|j: int| 0 <= j < old(self).devices@.len() && j != i implies #[trigger] self.devices@[j] == old(self).devices@[j] by {
                    }
                }
                Ok(v)
            },
            None => {
                if check_area(self.clint.start, self.clint.len, addr) {
                    let v = self.clint.instance.do_read(addr - self.clint.start, len);
                    Ok(v)
                } else if check_area(self.plic.start, self.plic.len, addr) {
                    let v = self.plic.instance.do_read(addr - self.plic.start, len);
                    Ok(v)
                } else {
                    Err(RVerr::NotFindDevice)
                }
            },
        }
    }

    /// Writes `len` bytes of `data` at `addr`: an error for a misaligned
    /// access or an address no device holds, else what the device answers.
    pub fn write(&mut self, addr: u64, data: u64, len: usize) -> (r: Result<u64, RVerr>)
        requires
            bus_write_ok(*old(self), addr, data, len),
        ensures
            bus_write_post(*old(self), *final(self), addr, data, len, r),
    {
        if !check_aligned(addr, len) {
            return Err(RVerr::AddrMisalign);
        }
        match self.find_device(addr) {
            Some(i) => {
                let mut dev = self.devices.remove(i);
                let v = dev.instance.do_write(addr - dev.start, data, len);
                self.devices.insert(i, dev);
                proof {
                    assert forall|j: int| 0 <= j < old(self).devices@.len() && j != i implies #[trigger] self.devices@[j] == old(self).devices@[j] by {
                    }
                }
                Ok(v)
            },
            None => {
                if check_area(self.clint.start, self.clint.len, addr) {
                    let v = self.clint.instance.do_write(addr - self.clint.start, data, len);
                    Ok(v)
                } else if check_area(self.plic.start, self.plic.len, addr) {
                    let v = self.plic.instance.do_write(addr - self.plic.start, data, len);
                    Ok(v)
                } else {
                    Err(RVerr::NotFindDevice)
                }
            },
        }
    }

    /// Writes `data` byte by byte from `addr` into the device holding `addr`.
    pub fn copy_from_slice(&mut self, addr: u64, data: &[u8]) -> (r: Result<(), RVerr>)
        requires
            bus_copy_from_ok(*old(self), addr, data@),
        ensures
            bus_copy_post(*old(self), *final(self), addr, data@, r),
    {
        match self.find_device(addr) {
            Some(i) => {
                let mut dev = self.devices.remove(i);
                dev.instance.copy_from_slice(addr - dev.start, data);
                self.devices.insert(i, dev);
                proof {
                    assert forall|j: int| 0 <= j < old(self).devices@.len() && j != i implies #[trigger] self.devices@[j] == old(self).devices@[j] by {
                    }
                }
                Ok(())
            },
            None => {
                if check_area(self.clint.start, self.clint.len, addr) {
                    self.clint.instance.copy_from_slice(addr - self.clint.start, data);
                    Ok(())
                } else if check_area(self.plic.start, self.plic.len, addr) {
                    self.plic.instance.copy_from_slice(addr - self.plic.start, data);
                    Ok(())
                } else {
                    Err(RVerr::NotFindDevice)
                }
            },
        }
    }

    /// Reads `data.len()` bytes byte by byte from `addr` of the device holding `addr`.
    pub fn copy_to_slice(&mut self, addr: u64, data: &mut [u8]) -> (r: Result<(), RVerr>)
        requires
            target(*old(self), addr) == 0 ==> D::copy_to_ok(old(self).devices@[route(old(self).devices@, addr)].instance@,
                offset_in(old(self).devices@, route(old(self).devices@, addr), addr), old(data)@.len()),
            target(*old(self), addr) == 1 ==> Clint::copy_to_ok(old(self).clint.instance@, (addr - old(self).clint.start) as u64, old(data)@.len()),
            target(*old(self), addr) == 2 ==> SifvePlic::copy_to_ok(old(self).plic.instance@, (addr - old(self).plic.start) as u64, old(data)@.len()),
        ensures
            final(data)@.len() == old(data)@.len(),
            target(*old(self), addr) == 0 ==> {
                let i = route(old(self).devices@, addr);
                &&& r is Ok
                &&& same_but_device(*old(self), *final(self), i)
                &&& (final(self).devices@[i].instance@, final(data)@)
                    == D::copy_to_result(old(self).devices@[i].instance@, offset_in(old(self).devices@, i, addr), old(data)@.len())
            },
            target(*old(self), addr) == 1 ==> r is Ok && same_but_clint(*old(self), *final(self))
                && (final(self).clint.instance@, final(data)@)
                    == Clint::copy_to_result(old(self).clint.instance@, (addr - old(self).clint.start) as u64, old(data)@.len()),
            target(*old(self), addr) == 2 ==> r is Ok && same_but_plic(*old(self), *final(self))
                && (final(self).plic.instance@, final(data)@)
                    == SifvePlic::copy_to_result(old(self).plic.instance@, (addr - old(self).plic.start) as u64, old(data)@.len()),
            target(*old(self), addr) == 3 ==> r == Err::<(), RVerr>(RVerr::NotFindDevice) && *final(self) == *old(self)
                && final(data)@ == old(data)@,
    {
        match self.find_device(addr) {
            Some(i) => {
                let mut dev = self.devices.remove(i);
                dev.instance.copy_to_slice(addr - dev.start, data);
                self.devices.insert(i, dev);
                proof {
                    assert forall|j: int| 0 <= j < old(self).devices@.len() && j != i implies #[trigger] self.devices@[j] == old(self).devices@[j] by {
                    }
                }
                Ok(())
            },
            None => {
                if check_area(self.clint.start, self.clint.len, addr) {
                    self.clint.instance.copy_to_slice(addr - self.clint.start, data);
                    Ok(())
                } else if check_area(self.plic.start, self.plic.len, addr) {
                    self.plic.instance.copy_to_slice(addr - self.plic.start, data);
                    Ok(())
                } else {
                    Err(RVerr::NotFindDevice)
                }
            },
        }
    }

    /// Lets every device update itself, advances the CLINT's timer by a tenth
    /// of `interval_cycle` (at least one tick), and updates the PLIC.
    pub fn update(&mut self, interval_cycle: usize)
        requires
            old(self).clint.instance.mitme + timer_ticks(interval_cycle) <= u64::MAX,
        ensures
            bus_updated(*old(self), *final(self), interval_cycle),
    {
        let n = self.devices.len();
        let mut i: usize = 0;
        while i < n
            invariant
                0 <= i <= n,
                n == self.devices@.len(),
                n == old(self).devices@.len(),
                self.clint == old(self).clint,
                self.plic == old(self).plic,
                self.lr_sc_set == old(self).lr_sc_set,
                forall|j: int| 0 <= j < n ==> {
                    &&& (#[trigger] self.devices@[j]).start == old(self).devices@[j].start
                    &&& self.devices@[j].len == old(self).devices@[j].len
                    &&& self.devices@[j].name == old(self).devices@[j].name
                },
                forall|j: int| 0 <= j < i ==> (#[trigger] self.devices@[j]).instance@ == D::update_result(old(self).devices@[j].instance@),
                forall|j: int| i <= j < n ==> #[trigger] self.devices@[j] == old(self).devices@[j],
            decreases n - i,
        {
            let ghost before = self.devices@;
            let mut dev = self.devices.remove(i);
            dev.instance.do_update();
            self.devices.insert(i, dev);
            assert forall|j: int| 0 <= j < n && j != i implies #[trigger] self.devices@[j] == before[j] by {
            }
            i = i + 1;
        }
        let inc = if interval_cycle / 10 > 1 { interval_cycle / 10 } else { 1 };
        self.clint.instance.tick(inc);
        self.plic.instance.tick();
    }

}

} // verus!
