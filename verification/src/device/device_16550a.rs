//! A 16550A-compatible UART: byte registers over receive and transmit queues.
use vstd::prelude::*;
use super::device_trait::{DeviceBase, bytewise_read, bytewise_write};
use crate::bits::with_flag;
use crate::tools::FifoUnbounded;

verus! {

pub const RBR: u64 = 0x00;
pub const THR: u64 = 0x00;
pub const IER: u64 = 0x01;
pub const IIR: u64 = 0x02;
pub const FCR: u64 = 0x02;
pub const LCR: u64 = 0x03;
pub const MCR: u64 = 0x04;
pub const LSR: u64 = 0x05;
pub const MSR: u64 = 0x06;
pub const SCR: u64 = 0x07;

/// The registers of the UART.
#[derive(Clone, Copy, PartialEq, Eq, Debug, Structural)]
pub struct Uart16550aIN {
    pub rbr: u8,
    pub thr: u8,
    pub ier: u8,
    /// Resets to 0xC1.
    pub iir: u8,
    /// Resets to 0xC0.
    pub fcr: u8,
    /// Resets to 0x03.
    pub lcr: u8,
    pub mcr: u8,
    /// Line status: data ready in bit 0, transmit holding register empty in bit 5.
    pub lsr: u8,
    pub msr: u8,
    pub scr: u8,
}

impl Uart16550aIN {
    pub fn new() -> (r: Self)
        ensures
            r == (Uart16550aIN { rbr: 0, thr: 0, ier: 0, iir: 0xc1, fcr: 0xc0, lcr: 0x03, mcr: 0, lsr: 0, msr: 0, scr: 0 }),
    {
        Uart16550aIN { rbr: 0, thr: 0, ier: 0, iir: 0xc1, fcr: 0xc0, lcr: 0x03, mcr: 0, lsr: 0, msr: 0, scr: 0 }
    }
}

/// The model of the UART: registers, bytes received and not read, bytes
/// sent and not taken by the host.
pub type Uart16550aModel = (Uart16550aIN, Seq<u8>, Seq<u8>);

pub struct Device16550aUART {
    pub regs: Uart16550aIN,
    pub rxfifo: FifoUnbounded,
    pub txfifo: FifoUnbounded,
}

impl View for Device16550aUART {
    type V = Uart16550aModel;

    open spec fn view(&self) -> Uart16550aModel {
        (self.regs, self.rxfifo@, self.txfifo@)
    }
}

/// The registers a read reaches (the modem control register is write-only).
pub open spec fn uart_read_reg(addr: u64) -> bool {
    addr == RBR || addr == IER || addr == IIR || addr == LCR || addr == LSR || addr == MSR || addr == SCR
}

/// The registers a write reaches.
pub open spec fn uart_write_reg(addr: u64) -> bool {
    addr <= SCR
}

/// The UART after a read at `addr`, and the value read: the receive buffer
/// takes the next byte (0 when none), the line status reports whether data is ready.
pub open spec fn uart_read_model(m: Uart16550aModel, addr: u64) -> (Uart16550aModel, u64) {
    let r = m.0;
    if addr == RBR {
        if m.1.len() == 0 { (m, 0) } else { ((r, m.1.drop_first(), m.2), m.1[0] as u64) }
    } else if addr == IER {
        (m, r.ier as u64)
    } else if addr == IIR {
        (m, r.iir as u64)
    } else if addr == LCR {
        (m, r.lcr as u64)
    } else if addr == LSR {
        (m, with_flag(r.lsr as u64, 0, m.1.len() != 0))
    } else if addr == MSR {
        (m, r.msr as u64)
    } else {
        (m, r.scr as u64)
    }
}

/// The UART after a write of `data` at `addr`: a byte written to the
/// transmit holding register is queued, and the register reads empty.
pub open spec fn uart_write_model(m: Uart16550aModel, addr: u64, data: u64) -> Uart16550aModel {
    let r = m.0;
    let b = data as u8;
    if addr == THR {
        (Uart16550aIN { thr: b, lsr: with_flag(r.lsr as u64, 5, true) as u8, ..r }, m.1, m.2.push(b))
    } else if addr == IER {
        (Uart16550aIN { ier: b, ..r }, m.1, m.2)
    } else if addr == FCR {
        (Uart16550aIN { fcr: b, ..r }, m.1, m.2)
    } else if addr == LCR {
        (Uart16550aIN { lcr: b, ..r }, m.1, m.2)
    } else if addr == MCR {
        (Uart16550aIN { mcr: b, ..r }, m.1, m.2)
    } else if addr == LSR {
        (Uart16550aIN { lsr: b, ..r }, m.1, m.2)
    } else if addr == MSR {
        (Uart16550aIN { msr: b, ..r }, m.1, m.2)
    } else {
        (Uart16550aIN { scr: b, ..r }, m.1, m.2)
    }
}

impl Device16550aUART {
    pub fn new(uart_tx: FifoUnbounded, uart_rx: FifoUnbounded) -> (r: Self)
        ensures
            r@ == (Uart16550aIN { rbr: 0, thr: 0, ier: 0, iir: 0xc1, fcr: 0xc0, lcr: 0x03, mcr: 0, lsr: 0, msr: 0, scr: 0 }, uart_rx@, uart_tx@),
    {
        Device16550aUART { regs: Uart16550aIN::new(), txfifo: uart_tx, rxfifo: uart_rx }
    }

    fn read_lsr(&mut self) -> (r: u8)
        ensures
            *final(self) == *old(self),
            r as u64 == with_flag(old(self).regs.lsr as u64, 0, old(self).rxfifo@.len() != 0),
    {
        let ready = !self.rxfifo.is_empty();
        crate::bits::set_flag8(self.regs.lsr, 0, ready)
    }

    /// Queues the low byte of `ch`; the transmit holding register reads empty.
    pub fn put_char(&mut self, ch: u64)
        ensures
            final(self)@ == (Uart16550aIN { lsr: with_flag(old(self).regs.lsr as u64, 5, true) as u8, ..old(self).regs },
                old(self)@.1, old(self)@.2.push(ch as u8)),
    {
        self.txfifo.push(ch as u8);
        self.regs.lsr = crate::bits::set_flag8(self.regs.lsr, 5, true);
    }

    fn get_char(&mut self) -> (r: u8)
        ensures
            (final(self)@, r as u64) == uart_read_model(old(self)@, RBR),
    {
        match self.rxfifo.pop() {
            Some(c) => c,
            None => 0,
        }
    }

    pub open spec fn copy_from_model(m: Uart16550aModel, addr: u64, bytes: Seq<u8>) -> (bool, Uart16550aModel) {
        bytewise_write(m, addr, bytes, |m: Uart16550aModel, a: u64, d: u64| Self::write_ok(m, a, d, 1),
            |m: Uart16550aModel, a: u64, d: u64| Self::write_result(m, a, d, 1).0)
    }

    pub open spec fn copy_to_model(m: Uart16550aModel, addr: u64, n: nat) -> (bool, Uart16550aModel, Seq<u8>) {
        bytewise_read(m, addr, n, |m: Uart16550aModel, a: u64| Self::read_ok(m, a, 1), |m: Uart16550aModel, a: u64| Self::read_result(m, a, 1))
    }
}

impl DeviceBase for Device16550aUART {
    open spec fn read_ok(m: Uart16550aModel, addr: u64, len: usize) -> bool {
        len == 1 && uart_read_reg(addr)
    }

    open spec fn read_result(m: Uart16550aModel, addr: u64, len: usize) -> (Uart16550aModel, u64) {
        uart_read_model(m, addr)
    }

    open spec fn write_ok(m: Uart16550aModel, addr: u64, data: u64, len: usize) -> bool {
        len == 1 && uart_write_reg(addr)
    }

    open spec fn write_result(m: Uart16550aModel, addr: u64, data: u64, len: usize) -> (Uart16550aModel, u64) {
        (uart_write_model(m, addr, data), 0)
    }

    open spec fn update_result(m: Uart16550aModel) -> Uart16550aModel {
        m
    }

    open spec fn copy_from_ok(m: Uart16550aModel, addr: u64, bytes: Seq<u8>) -> bool {
        Self::copy_from_model(m, addr, bytes).0
    }

    open spec fn copy_from_result(m: Uart16550aModel, addr: u64, bytes: Seq<u8>) -> Uart16550aModel {
        Self::copy_from_model(m, addr, bytes).1
    }

    open spec fn copy_to_ok(m: Uart16550aModel, addr: u64, n: nat) -> bool {
        Self::copy_to_model(m, addr, n).0
    }

    open spec fn copy_to_result(m: Uart16550aModel, addr: u64, n: nat) -> (Uart16550aModel, Seq<u8>) {
        (Self::copy_to_model(m, addr, n).1, Self::copy_to_model(m, addr, n).2)
    }

    proof fn lemma_copy_from_unfold(m: Uart16550aModel, addr: u64, bytes: Seq<u8>) {
    }

    proof fn lemma_copy_to_unfold(m: Uart16550aModel, addr: u64, n: nat) {
    }

    fn can_read(&self, addr: u64, len: usize) -> (r: bool) {
        len == 1 && (addr == RBR || addr == IER || addr == IIR || addr == LCR || addr == LSR || addr == MSR || addr == SCR)
    }

    fn can_write(&self, addr: u64, data: u64, len: usize) -> (r: bool) {
        len == 1 && addr <= SCR
    }

    /// Byte-wise copies into the UART: each byte goes to the next register.
    fn can_copy_from(&self, addr: u64, slice: &[u8]) -> (r: bool) {
        let ghost mut m: Uart16550aModel = self@;
        let mut i: usize = 0;
        let mut ok = true;
        assert(slice@.subrange(0, slice@.len() as int) == slice@);
        while i < slice.len() && ok
            invariant
                0 <= i <= slice@.len(),
                ok && i < slice@.len() ==> addr + i <= u64::MAX,
                ok ==> Self::copy_from_model(self@, addr, slice@).0
                    == Self::copy_from_model(m, (addr + i) as u64, slice@.subrange(i as int, slice@.len() as int)).0,
                !ok ==> !Self::copy_from_model(self@, addr, slice@).0,
            decreases slice@.len() - i + (if ok { 1int } else { 0int }),
        {
            let a = addr + i as u64;
            let ghost rest = slice@.subrange(i as int, slice@.len() as int);
            assert(rest.drop_first() == slice@.subrange(i + 1, slice@.len() as int));
            assert(Self::write_ok(m, a, rest[0] as u64, 1) == uart_write_reg(a));
            if a <= SCR && !(i + 1 < slice.len() && a == u64::MAX) {
                proof {
                    m = uart_write_model(m, a, rest[0] as u64);
                }
                i = i + 1;
            } else {
                ok = false;
            }
        }
        ok
    }

    /// Byte-wise copies out of the UART: each byte comes from the next register.
    fn can_copy_to(&self, addr: u64, len: usize) -> (r: bool) {
        let ghost mut m: Uart16550aModel = self@;
        let mut i: usize = 0;
        let mut ok = true;
        while i < len && ok
            invariant
                0 <= i <= len,
                ok && i < len ==> addr + i <= u64::MAX,
                ok ==> Self::copy_to_model(self@, addr, len as nat).0 == Self::copy_to_model(m, (addr + i) as u64, (len - i) as nat).0,
                !ok ==> !Self::copy_to_model(self@, addr, len as nat).0,
            decreases len - i + (if ok { 1int } else { 0int }),
        {
            let a = addr + i as u64;
            assert(Self::read_ok(m, a, 1) == uart_read_reg(a));
            if (a == RBR || a == IER || a == IIR || a == LCR || a == LSR || a == MSR || a == SCR) && !(i + 1 < len && a == u64::MAX) {
                proof {
                    m = uart_read_model(m, a).0;
                }
                i = i + 1;
            } else {
                ok = false;
            }
        }
        ok
    }

    fn do_read(&mut self, addr: u64, len: usize) -> (r: u64) {
        if addr == RBR {
            self.get_char() as u64
        } else if addr == IER {
            self.regs.ier as u64
        } else if addr == IIR {
            self.regs.iir as u64
        } else if addr == LCR {
            self.regs.lcr as u64
        } else if addr == LSR {
            self.read_lsr() as u64
        } else if addr == MSR {
            self.regs.msr as u64
        } else {
            self.regs.scr as u64
        }
    }

    fn do_write(&mut self, addr: u64, data: u64, len: usize) -> (r: u64) {
        let b = data as u8;
        if addr == THR {
            self.regs.thr = b;
            self.put_char(data);
        } else if addr == IER {
            self.regs.ier = b;
        } else if addr == FCR {
            self.regs.fcr = b;
        } else if addr == LCR {
            self.regs.lcr = b;
        } else if addr == MCR {
            self.regs.mcr = b;
        } else if addr == LSR {
            self.regs.lsr = b;
        } else if addr == MSR {
            self.regs.msr = b;
        } else {
            self.regs.scr = b;
        }
        0
    }

    fn get_name(&self) -> &'static str {
        "16550a UART"
    }

    fn do_update(&mut self) {
    }
}

} // verus!
