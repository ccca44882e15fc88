//! The interface every memory-mapped device offers to the bus.
use vstd::prelude::*;

verus! {

pub const SIFIVE_UART_BASE: u64 = 0xc0000000;

pub const MEM_BASE: u64 = 0x80000000;
pub const DEVICE_BASE: u64 = 0xa0000000;
pub const SERIAL_PORT: u64 = 0xa00003f8;
pub const RTC_ADDR: u64 = 0xa0000048;
pub const KBD_ADDR: u64 = 0xa0000060;
pub const MOUSE_ADDR: u64 = 0xa0000070;
pub const FB_ADDR: u64 = 0xa1000000;
pub const VGACTL_ADDR: u64 = 0xa0000100;

/// The bytes `s` with `b` written over them from position `at`.
pub open spec fn splice(s: Seq<u8>, at: int, b: Seq<u8>) -> Seq<u8> {
    s.subrange(0, at) + b + s.subrange(at + b.len(), s.len() as int)
}

/// Writing `bytes` one by one from `addr`, where a one-byte write of `d` at
/// `a` is taken when `ok(m, a, d)` and leaves the model `step(m, a, d)`:
/// whether every write is taken, and the model after them.
pub open spec fn bytewise_write<V>(m: V, addr: u64, bytes: Seq<u8>, ok: spec_fn(V, u64, u64) -> bool, step: spec_fn(V, u64, u64) -> V) -> (bool, V)
    decreases bytes.len(),
{
    if bytes.len() == 0 {
        (true, m)
    } else {
        let rest = bytewise_write(step(m, addr, bytes[0] as u64), (addr + 1) as u64, bytes.drop_first(), ok, step);
        (ok(m, addr, bytes[0] as u64) && (bytes.len() > 1 ==> addr < u64::MAX) && rest.0, rest.1)
    }
}

/// Reading `n` bytes one by one from `addr`, where a one-byte read at `a` is
/// answered when `ok(m, a)` and gives `step(m, a)` (model after, value):
/// whether every read is answered, the model after them, and the bytes read.
pub open spec fn bytewise_read<V>(m: V, addr: u64, n: nat, ok: spec_fn(V, u64) -> bool, step: spec_fn(V, u64) -> (V, u64)) -> (bool, V, Seq<u8>)
    decreases n,
{
    if n == 0 {
        (true, m, Seq::empty())
    } else {
        let (m1, v) = step(m, addr);
        let rest = bytewise_read(m1, (addr + 1) as u64, (n - 1) as nat, ok, step);
        (ok(m, addr) && (n > 1 ==> addr < u64::MAX) && rest.0, rest.1, seq![v as u8] + rest.2)
    }
}

/// A memory-mapped device, modelled by its view. Addresses are offsets into
/// the device's window. Each device states which accesses it takes (the
/// others stop it) and what each access does to its model.
pub trait DeviceBase: View + Sized {
    /// The reads the device answers.
    spec fn read_ok(m: Self::V, addr: u64, len: usize) -> bool;

    /// The model after a read of `len` bytes at `addr`, and the value read.
    spec fn read_result(m: Self::V, addr: u64, len: usize) -> (Self::V, u64);

    /// The writes the device takes.
    spec fn write_ok(m: Self::V, addr: u64, data: u64, len: usize) -> bool;

    /// The model after a write of `data` (`len` bytes at `addr`), and the value returned.
    spec fn write_result(m: Self::V, addr: u64, data: u64, len: usize) -> (Self::V, u64);

    /// The model after a periodic update.
    spec fn update_result(m: Self::V) -> Self::V;

    fn can_read(&self, addr: u64, len: usize) -> (r: bool)
        ensures
            r == Self::read_ok(self@, addr, len),
    ;

    fn can_write(&self, addr: u64, data: u64, len: usize) -> (r: bool)
        ensures
            r == Self::write_ok(self@, addr, data, len),
    ;

    fn do_read(&mut self, addr: u64, len: usize) -> (r: u64)
        requires
            Self::read_ok(old(self)@, addr, len),
        ensures
            (final(self)@, r) == Self::read_result(old(self)@, addr, len),
    ;

    fn do_write(&mut self, addr: u64, data: u64, len: usize) -> (r: u64)
        requires
            Self::write_ok(old(self)@, addr, data, len),
        ensures
            (final(self)@, r) == Self::write_result(old(self)@, addr, data, len),
    ;

    /// Writing `bytes` one by one from `addr` is taken by a device with model `m`.
    spec fn copy_from_ok(m: Self::V, addr: u64, bytes: Seq<u8>) -> bool;

    /// The model after `bytes` were written one by one from `addr`.
    spec fn copy_from_result(m: Self::V, addr: u64, bytes: Seq<u8>) -> Self::V;

    /// Reading `n` bytes one by one from `addr` is answered by a device with model `m`.
    spec fn copy_to_ok(m: Self::V, addr: u64, n: nat) -> bool;

    /// The model after `n` bytes were read one by one from `addr`, and the bytes read.
    spec fn copy_to_result(m: Self::V, addr: u64, n: nat) -> (Self::V, Seq<u8>);

    /// A byte-wise copy into the device is its byte writes in order.
    proof fn lemma_copy_from_unfold(m: Self::V, addr: u64, bytes: Seq<u8>)
        ensures
            bytes.len() == 0 ==> Self::copy_from_ok(m, addr, bytes) && Self::copy_from_result(m, addr, bytes) == m,
            bytes.len() > 0 ==> Self::copy_from_ok(m, addr, bytes) == {
                &&& Self::write_ok(m, addr, bytes[0] as u64, 1)
                &&& bytes.len() > 1 ==> addr < u64::MAX
                &&& Self::copy_from_ok(Self::write_result(m, addr, bytes[0] as u64, 1).0, (addr + 1) as u64, bytes.drop_first())
            },
            bytes.len() > 0 && Self::copy_from_ok(m, addr, bytes) ==> Self::copy_from_result(m, addr, bytes)
                == Self::copy_from_result(Self::write_result(m, addr, bytes[0] as u64, 1).0, (addr + 1) as u64, bytes.drop_first()),
    ;

    /// A byte-wise copy out of the device is its byte reads in order.
    proof fn lemma_copy_to_unfold(m: Self::V, addr: u64, n: nat)
        ensures
            n == 0 ==> Self::copy_to_ok(m, addr, n) && Self::copy_to_result(m, addr, n) == (m, Seq::<u8>::empty()),
            n > 0 ==> Self::copy_to_ok(m, addr, n) == {
                &&& Self::read_ok(m, addr, 1)
                &&& n > 1 ==> addr < u64::MAX
                &&& Self::copy_to_ok(Self::read_result(m, addr, 1).0, (addr + 1) as u64, (n - 1) as nat)
            },
            n > 0 && Self::copy_to_ok(m, addr, n) ==> Self::copy_to_result(m, addr, n) == {
                let (m1, v) = Self::read_result(m, addr, 1);
                let (m2, rest) = Self::copy_to_result(m1, (addr + 1) as u64, (n - 1) as nat);
                (m2, seq![v as u8] + rest)
            },
    ;

    fn can_copy_from(&self, addr: u64, slice: &[u8]) -> (r: bool)
        ensures
            r == Self::copy_from_ok(self@, addr, slice@),
    ;

    fn can_copy_to(&self, addr: u64, len: usize) -> (r: bool)
        ensures
            r == Self::copy_to_ok(self@, addr, len as nat),
    ;

    /// Writes `slice` byte by byte from `addr`.
    fn copy_from_slice(&mut self, addr: u64, slice: &[u8])
        requires
            Self::copy_from_ok(old(self)@, addr, slice@),
        ensures
            final(self)@ == Self::copy_from_result(old(self)@, addr, slice@),
    {
        let mut i: usize = 0;
        assert(slice@.subrange(0, slice@.len() as int) == slice@);
        while i < slice.len()
            invariant
                0 <= i <= slice@.len(),
                i < slice@.len() ==> addr + i <= u64::MAX,
                Self::copy_from_ok(self@, (addr + i) as u64, slice@.subrange(i as int, slice@.len() as int)),
                Self::copy_from_result(self@, (addr + i) as u64, slice@.subrange(i as int, slice@.len() as int))
                    == Self::copy_from_result(old(self)@, addr, slice@),
            decreases slice@.len() - i,
        {
            let ghost rest = slice@.subrange(i as int, slice@.len() as int);
            proof {
                Self::lemma_copy_from_unfold(self@, (addr + i) as u64, rest);
            }
            assert(rest.drop_first() == slice@.subrange(i + 1, slice@.len() as int));
            assert(rest[0] == slice@[i as int]);
            self.do_write(addr + i as u64, slice[i] as u64, 1);
            i = i + 1;
        }
        proof {
            Self::lemma_copy_from_unfold(self@, (addr + i) as u64, slice@.subrange(i as int, slice@.len() as int));
        }
    }

    /// Reads `slice.len()` bytes byte by byte from `addr` into `slice`.
    fn copy_to_slice(&mut self, addr: u64, slice: &mut [u8])
        requires
            Self::copy_to_ok(old(self)@, addr, old(slice)@.len()),
        ensures
            final(slice)@.len() == old(slice)@.len(),
            (final(self)@, final(slice)@) == Self::copy_to_result(old(self)@, addr, old(slice)@.len()),
    {
        let n = slice.len();
        let mut i: usize = 0;
        assert(slice@.subrange(0, 0) + Self::copy_to_result(self@, addr, n as nat).1 == Self::copy_to_result(self@, addr, n as nat).1);
        while i < n
            invariant
                0 <= i <= n,
                n == slice@.len(),
                n == old(slice)@.len(),
                i < n ==> addr + i <= u64::MAX,
                Self::copy_to_ok(self@, (addr + i) as u64, (n - i) as nat),
                Self::copy_to_result(self@, (addr + i) as u64, (n - i) as nat).0
                    == Self::copy_to_result(old(self)@, addr, n as nat).0,
                slice@.subrange(0, i as int) + Self::copy_to_result(self@, (addr + i) as u64, (n - i) as nat).1
                    == Self::copy_to_result(old(self)@, addr, n as nat).1,
            decreases n - i,
        {
            proof {
                Self::lemma_copy_to_unfold(self@, (addr + i) as u64, (n - i) as nat);
            }
            let ghost before = slice@;
            let x = self.do_read(addr + i as u64, 1);
            slice[i] = x as u8;
            assert(slice@.subrange(0, i + 1) == before.subrange(0, i as int).push(x as u8));
            i = i + 1;
        }
        proof {
            Self::lemma_copy_to_unfold(self@, (addr + i) as u64, 0);
        }
        assert(slice@.subrange(0, n as int) == slice@);
    }

    fn get_name(&self) -> &'static str;

    fn do_update(&mut self)
        ensures
            final(self)@ == Self::update_result(old(self)@),
    ;
}

} // verus!
