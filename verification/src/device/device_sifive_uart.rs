//! The SiFive UART: transmit and receive data registers over byte queues,
//! watermark interrupts, and the control registers.
use vstd::prelude::*;
use super::device_trait::{DeviceBase, bytewise_read, bytewise_write};
use crate::bits::{field, flag, with_flag, get_field, lemma_field_bound};
use crate::tools::FifoUnbounded;

verus! {

broadcast use lemma_field_bound;

pub const TXDATA: u64 = 0x00;
pub const RXDATA: u64 = 0x04;
pub const TXCTRL: u64 = 0x08;
pub const RXCTRL: u64 = 0x0c;
pub const IE: u64 = 0x10;
pub const IP: u64 = 0x14;
pub const DIV: u64 = 0x18;

/// The registers of the UART.
#[derive(Clone, Copy, PartialEq, Eq, Debug, Structural)]
pub struct SifiveUartIN {
    /// `txdata`: bit 31 reports a full transmit queue.
    pub txdata: u32,
    /// `rxdata`: the byte read in bits 0..8, bit 31 set when there was none.
    pub rxdata: u32,
    /// `txctrl`: the transmit watermark `txcnt` in bits 16..19.
    pub txctrl: u32,
    /// `rxctrl`: the receive watermark `rxcnt` in bits 16..19.
    pub rxctrl: u32,
    /// Interrupt enables: `txwm` bit 0, `rxwm` bit 1.
    pub ie: u32,
    /// Interrupt pendings: `txwm` bit 0, `rxwm` bit 1.
    pub ip: u32,
    pub div: u32,
}

impl SifiveUartIN {
    pub fn new() -> (r: Self)
        ensures
            r == (SifiveUartIN { txdata: 0, rxdata: 0, txctrl: 0, rxctrl: 0, ie: 0, ip: 0, div: 0 }),
    {
        SifiveUartIN { txdata: 0, rxdata: 0, txctrl: 0, rxctrl: 0, ie: 0, ip: 0, div: 0 }
    }
}

/// The model of the UART: registers, interrupt line, bytes received and not
/// read yet, bytes sent and not taken by the host yet.
pub type SifiveUartModel = (SifiveUartIN, bool, Seq<u8>, Seq<u8>);

pub struct DeviceSifiveUart {
    pub regs: SifiveUartIN,
    /// The UART's interrupt line to the PLIC.
    pub irq_pending: bool,
    pub rxfifo: FifoUnbounded,
    pub txfifo: FifoUnbounded,
}

impl View for DeviceSifiveUart {
    type V = SifiveUartModel;

    open spec fn view(&self) -> SifiveUartModel {
        (self.regs, self.irq_pending, self.rxfifo@, self.txfifo@)
    }
}

/// The register offsets of the UART.
pub open spec fn sifive_reg(addr: u64) -> bool {
    addr == TXDATA || addr == RXDATA || addr == TXCTRL || addr == RXCTRL || addr == IE || addr == IP || addr == DIV
}

/// The UART after a read at `addr`, and the value read.
pub open spec fn sifive_read_model(m: SifiveUartModel, addr: u64) -> (SifiveUartModel, u64) {
    let r = m.0;
    if addr == TXDATA {
        let t = with_flag(r.txdata as u64, 31, false) as u32;
        ((SifiveUartIN { txdata: t, ..r }, m.1, m.2, m.3), t as u64)
    } else if addr == RXDATA {
        let empty = m.2.len() == 0;
        let data: u64 = if empty { 0 } else { m.2[0] as u64 };
        let v = ((if empty { 0x8000_0000u64 } else { 0u64 }) | data) as u32;
        ((SifiveUartIN { rxdata: v, ..r }, m.1, if empty { m.2 } else { m.2.drop_first() }, m.3), v as u64)
    } else if addr == TXCTRL {
        (m, r.txctrl as u64)
    } else if addr == RXCTRL {
        (m, r.rxctrl as u64)
    } else if addr == IE {
        (m, r.ie as u64)
    } else if addr == IP {
        (m, r.ip as u64)
    } else {
        (m, r.div as u64)
    }
}

/// The UART after a write of `data` at `addr`.
pub open spec fn sifive_write_model(m: SifiveUartModel, addr: u64, data: u64) -> SifiveUartModel {
    let r = m.0;
    let v = data as u32;
    if addr == TXDATA {
        (r, m.1, m.2, m.3.push(data as u8))
    } else if addr == TXCTRL {
        (SifiveUartIN { txctrl: v, ..r }, m.1, m.2, m.3)
    } else if addr == RXCTRL {
        (SifiveUartIN { rxctrl: v, ..r }, m.1, m.2, m.3)
    } else if addr == IE {
        (SifiveUartIN { ie: v, ..r }, m.1, m.2, m.3)
    } else if addr == DIV {
        (SifiveUartIN { div: v, ..r }, m.1, m.2, m.3)
    } else {
        m
    }
}

/// The UART after an update: the receive watermark is pending when more
/// bytes wait than `rxcnt`, the transmit one when fewer than `txcnt` do,
/// and the line is raised when a pending interrupt is enabled.
pub open spec fn sifive_update_model(m: SifiveUartModel) -> SifiveUartModel {
    let r = m.0;
    let rxwm = m.2.len() > field(r.rxctrl as u64, 16, 3);
    let txwm = m.3.len() < field(r.txctrl as u64, 16, 3);
    let ip = with_flag(with_flag(r.ip as u64, 1, rxwm), 0, txwm) as u32;
    (SifiveUartIN { ip, ..r }, ip & r.ie != 0, m.2, m.3)
}

impl DeviceSifiveUart {
    pub fn new(uart_tx: FifoUnbounded, uart_rx: FifoUnbounded) -> (r: Self)
        ensures
            r@ == (SifiveUartIN { txdata: 0, rxdata: 0, txctrl: 0, rxctrl: 0, ie: 0, ip: 0, div: 0 }, false, uart_rx@, uart_tx@),
    {
        DeviceSifiveUart { regs: SifiveUartIN::new(), txfifo: uart_tx, rxfifo: uart_rx, irq_pending: false }
    }

    /// Queues the low byte of `ch` for output.
    pub fn put_char(&mut self, ch: u64)
        ensures
            final(self)@ == (old(self)@.0, old(self)@.1, old(self)@.2, old(self)@.3.push(ch as u8)),
    {
        self.txfifo.push(ch as u8);
    }

    /// Takes the next received byte into `rxdata` and reads it.
    pub fn get_rxdata(&mut self) -> (r: u32)
        ensures
            (final(self)@, r as u64) == sifive_read_model(old(self)@, RXDATA),
    {
        let empty = self.rxfifo.is_empty();
        let data: u64 = match self.rxfifo.pop() {
            Some(x) => x as u64,
            None => 0,
        };
        let v = ((if empty { 0x8000_0000u64 } else { 0u64 }) | data) as u32;
        self.regs.rxdata = v;
        v
    }

    /// Reads `txdata`: the transmit queue is never full.
    pub fn get_txdata(&mut self) -> (r: u32)
        ensures
            (final(self)@, r as u64) == sifive_read_model(old(self)@, TXDATA),
    {
        let t = crate::bits::set_flag32(self.regs.txdata, 31, false);
        self.regs.txdata = t;
        t
    }

    pub open spec fn copy_from_model(m: SifiveUartModel, addr: u64, bytes: Seq<u8>) -> (bool, SifiveUartModel) {
        bytewise_write(m, addr, bytes, |m: SifiveUartModel, a: u64, d: u64| Self::write_ok(m, a, d, 1),
            |m: SifiveUartModel, a: u64, d: u64| Self::write_result(m, a, d, 1).0)
    }

    pub open spec fn copy_to_model(m: SifiveUartModel, addr: u64, n: nat) -> (bool, SifiveUartModel, Seq<u8>) {
        bytewise_read(m, addr, n, |m: SifiveUartModel, a: u64| Self::read_ok(m, a, 1), |m: SifiveUartModel, a: u64| Self::read_result(m, a, 1))
    }
}

impl DeviceBase for DeviceSifiveUart {
    /// Four bytes at a register.
    open spec fn read_ok(m: SifiveUartModel, addr: u64, len: usize) -> bool {
        len == 4 && sifive_reg(addr)
    }

    open spec fn read_result(m: SifiveUartModel, addr: u64, len: usize) -> (SifiveUartModel, u64) {
        sifive_read_model(m, addr)
    }

    open spec fn write_ok(m: SifiveUartModel, addr: u64, data: u64, len: usize) -> bool {
        len == 4 && sifive_reg(addr)
    }

    open spec fn write_result(m: SifiveUartModel, addr: u64, data: u64, len: usize) -> (SifiveUartModel, u64) {
        (sifive_write_model(m, addr, data), 0)
    }

    open spec fn update_result(m: SifiveUartModel) -> SifiveUartModel {
        sifive_update_model(m)
    }

    open spec fn copy_from_ok(m: SifiveUartModel, addr: u64, bytes: Seq<u8>) -> bool {
        Self::copy_from_model(m, addr, bytes).0
    }

    open spec fn copy_from_result(m: SifiveUartModel, addr: u64, bytes: Seq<u8>) -> SifiveUartModel {
        Self::copy_from_model(m, addr, bytes).1
    }

    open spec fn copy_to_ok(m: SifiveUartModel, addr: u64, n: nat) -> bool {
        Self::copy_to_model(m, addr, n).0
    }

    open spec fn copy_to_result(m: SifiveUartModel, addr: u64, n: nat) -> (SifiveUartModel, Seq<u8>) {
        (Self::copy_to_model(m, addr, n).1, Self::copy_to_model(m, addr, n).2)
    }

    proof fn lemma_copy_from_unfold(m: SifiveUartModel, addr: u64, bytes: Seq<u8>) {
    }

    proof fn lemma_copy_to_unfold(m: SifiveUartModel, addr: u64, n: nat) {
    }

    fn can_read(&self, addr: u64, len: usize) -> (r: bool) {
        len == 4 && (addr == TXDATA || addr == RXDATA || addr == TXCTRL || addr == RXCTRL || addr == IE || addr == IP || addr == DIV)
    }

    fn can_write(&self, addr: u64, data: u64, len: usize) -> (r: bool) {
        len == 4 && (addr == TXDATA || addr == RXDATA || addr == TXCTRL || addr == RXCTRL || addr == IE || addr == IP || addr == DIV)
    }

    fn can_copy_from(&self, addr: u64, slice: &[u8]) -> (r: bool) {
        proof {
            reveal_with_fuel(bytewise_write, 2);
        }
        slice.len() == 0
    }

    fn can_copy_to(&self, addr: u64, len: usize) -> (r: bool) {
        proof {
            reveal_with_fuel(bytewise_read, 2);
        }
        len == 0
    }

    fn do_read(&mut self, addr: u64, len: usize) -> (r: u64) {
        if addr == TXDATA {
            self.get_txdata() as u64
        } else if addr == RXDATA {
            self.get_rxdata() as u64
        } else if addr == TXCTRL {
            self.regs.txctrl as u64
        } else if addr == RXCTRL {
            self.regs.rxctrl as u64
        } else if addr == IE {
            self.regs.ie as u64
        } else if addr == IP {
            self.regs.ip as u64
        } else {
            self.regs.div as u64
        }
    }

    fn do_write(&mut self, addr: u64, data: u64, len: usize) -> (r: u64) {
        if addr == TXDATA {
            self.put_char(data);
        } else if addr == TXCTRL {
            self.regs.txctrl = data as u32;
        } else if addr == RXCTRL {
            self.regs.rxctrl = data as u32;
        } else if addr == IE {
            self.regs.ie = data as u32;
        } else if addr == DIV {
            self.regs.div = data as u32;
        }
        0
    }

    fn get_name(&self) -> &'static str {
        "SIFIVE_UART"
    }

    fn do_update(&mut self) {
        let rxcnt = get_field(self.regs.rxctrl as u64, 16, 3) as usize;
        let txcnt = get_field(self.regs.txctrl as u64, 16, 3) as usize;
        let rxwm_pending = self.rxfifo.len() > rxcnt;
        let txwm_pending = self.txfifo.len() < txcnt;
        let ip = crate::bits::set_flag32(crate::bits::set_flag32(self.regs.ip, 1, rxwm_pending), 0, txwm_pending);
        self.regs.ip = ip;
        self.irq_pending = (ip & self.regs.ie) != 0;
    }
}

} // verus!
