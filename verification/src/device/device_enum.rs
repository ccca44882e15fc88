//! Any of the platform's memory-mapped devices, so that one bus can hold
//! them all: each access goes to the device the value holds.
use vstd::prelude::*;
use super::device_trait::DeviceBase;
use super::device_memory::DeviceMemory;
use super::device_dram::DeviceDram;
use super::device_am_uart::DeviceUart;
use super::device_16550a::Device16550aUART;
use super::device_sifive_uart::DeviceSifiveUart;
use super::device_vgactl::DeviceVGACTL;
use super::device_am_vga::DeviceVGA;
use super::device_kb::DeviceKB;
use super::device_mouse::DeviceMouse;
use super::device_am_rtc::DeviceRTC;
use super::device_16550a::Uart16550aModel;
use super::device_sifive_uart::SifiveUartModel;
use super::device_kb::DeviceKbItem;
use super::device_mouse::DeviceMouseItem;

verus! {

pub enum Device {
    Memory(DeviceMemory),
    Dram(DeviceDram),
    AmUart(DeviceUart),
    Uart16550a(Device16550aUART),
    SifiveUart(DeviceSifiveUart),
    VgaCtl(DeviceVGACTL),
    Vga(DeviceVGA),
    Kb(DeviceKB),
    Mouse(DeviceMouse),
    Rtc(DeviceRTC),
}

/// The model of the device a `Device` holds.
pub enum DeviceModel {
    Memory(Seq<u8>),
    Dram(Seq<u8>),
    AmUart(Seq<u8>),
    Uart16550a(Uart16550aModel),
    SifiveUart(SifiveUartModel),
    VgaCtl(bool),
    Vga(Seq<u8>),
    Kb(Seq<DeviceKbItem>),
    Mouse((Seq<DeviceMouseItem>, DeviceMouseItem)),
    Rtc((u64, u64)),
}

impl View for Device {
    type V = DeviceModel;

    open spec fn view(&self) -> DeviceModel {
        match self {
            Device::Memory(d) => DeviceModel::Memory(d@),
            Device::Dram(d) => DeviceModel::Dram(d@),
            Device::AmUart(d) => DeviceModel::AmUart(d@),
            Device::Uart16550a(d) => DeviceModel::Uart16550a(d@),
            Device::SifiveUart(d) => DeviceModel::SifiveUart(d@),
            Device::VgaCtl(d) => DeviceModel::VgaCtl(d@),
            Device::Vga(d) => DeviceModel::Vga(d@),
            Device::Kb(d) => DeviceModel::Kb(d@),
            Device::Mouse(d) => DeviceModel::Mouse(d@),
            Device::Rtc(d) => DeviceModel::Rtc(d@),
        }
    }
}

impl DeviceBase for Device {
    open spec fn read_ok(m: DeviceModel, addr: u64, len: usize) -> bool {
        match m {
            DeviceModel::Memory(v) => DeviceMemory::read_ok(v, addr, len),
            DeviceModel::Dram(v) => DeviceDram::read_ok(v, addr, len),
            DeviceModel::AmUart(v) => DeviceUart::read_ok(v, addr, len),
            DeviceModel::Uart16550a(v) => Device16550aUART::read_ok(v, addr, len),
            DeviceModel::SifiveUart(v) => DeviceSifiveUart::read_ok(v, addr, len),
            DeviceModel::VgaCtl(v) => DeviceVGACTL::read_ok(v, addr, len),
            DeviceModel::Vga(v) => DeviceVGA::read_ok(v, addr, len),
            DeviceModel::Kb(v) => DeviceKB::read_ok(v, addr, len),
            DeviceModel::Mouse(v) => DeviceMouse::read_ok(v, addr, len),
            DeviceModel::Rtc(v) => DeviceRTC::read_ok(v, addr, len),
        }
    }

    open spec fn read_result(m: DeviceModel, addr: u64, len: usize) -> (DeviceModel, u64) {
        match m {
            DeviceModel::Memory(v) => { let (v2, r) = DeviceMemory::read_result(v, addr, len); (DeviceModel::Memory(v2), r) },
            DeviceModel::Dram(v) => { let (v2, r) = DeviceDram::read_result(v, addr, len); (DeviceModel::Dram(v2), r) },
            DeviceModel::AmUart(v) => { let (v2, r) = DeviceUart::read_result(v, addr, len); (DeviceModel::AmUart(v2), r) },
            DeviceModel::Uart16550a(v) => { let (v2, r) = Device16550aUART::read_result(v, addr, len); (DeviceModel::Uart16550a(v2), r) },
            DeviceModel::SifiveUart(v) => { let (v2, r) = DeviceSifiveUart::read_result(v, addr, len); (DeviceModel::SifiveUart(v2), r) },
            DeviceModel::VgaCtl(v) => { let (v2, r) = DeviceVGACTL::read_result(v, addr, len); (DeviceModel::VgaCtl(v2), r) },
            DeviceModel::Vga(v) => { let (v2, r) = DeviceVGA::read_result(v, addr, len); (DeviceModel::Vga(v2), r) },
            DeviceModel::Kb(v) => { let (v2, r) = DeviceKB::read_result(v, addr, len); (DeviceModel::Kb(v2), r) },
            DeviceModel::Mouse(v) => { let (v2, r) = DeviceMouse::read_result(v, addr, len); (DeviceModel::Mouse(v2), r) },
            DeviceModel::Rtc(v) => { let (v2, r) = DeviceRTC::read_result(v, addr, len); (DeviceModel::Rtc(v2), r) },
        }
    }

    open spec fn write_ok(m: DeviceModel, addr: u64, data: u64, len: usize) -> bool {
        match m {
            DeviceModel::Memory(v) => DeviceMemory::write_ok(v, addr, data, len),
            DeviceModel::Dram(v) => DeviceDram::write_ok(v, addr, data, len),
            DeviceModel::AmUart(v) => DeviceUart::write_ok(v, addr, data, len),
            DeviceModel::Uart16550a(v) => Device16550aUART::write_ok(v, addr, data, len),
            DeviceModel::SifiveUart(v) => DeviceSifiveUart::write_ok(v, addr, data, len),
            DeviceModel::VgaCtl(v) => DeviceVGACTL::write_ok(v, addr, data, len),
            DeviceModel::Vga(v) => DeviceVGA::write_ok(v, addr, data, len),
            DeviceModel::Kb(v) => DeviceKB::write_ok(v, addr, data, len),
            DeviceModel::Mouse(v) => DeviceMouse::write_ok(v, addr, data, len),
            DeviceModel::Rtc(v) => DeviceRTC::write_ok(v, addr, data, len),
        }
    }

    open spec fn write_result(m: DeviceModel, addr: u64, data: u64, len: usize) -> (DeviceModel, u64) {
        match m {
            DeviceModel::Memory(v) => { let (v2, r) = DeviceMemory::write_result(v, addr, data, len); (DeviceModel::Memory(v2), r) },
            DeviceModel::Dram(v) => { let (v2, r) = DeviceDram::write_result(v, addr, data, len); (DeviceModel::Dram(v2), r) },
            DeviceModel::AmUart(v) => { let (v2, r) = DeviceUart::write_result(v, addr, data, len); (DeviceModel::AmUart(v2), r) },
            DeviceModel::Uart16550a(v) => { let (v2, r) = Device16550aUART::write_result(v, addr, data, len); (DeviceModel::Uart16550a(v2), r) },
            DeviceModel::SifiveUart(v) => { let (v2, r) = DeviceSifiveUart::write_result(v, addr, data, len); (DeviceModel::SifiveUart(v2), r) },
            DeviceModel::VgaCtl(v) => { let (v2, r) = DeviceVGACTL::write_result(v, addr, data, len); (DeviceModel::VgaCtl(v2), r) },
            DeviceModel::Vga(v) => { let (v2, r) = DeviceVGA::write_result(v, addr, data, len); (DeviceModel::Vga(v2), r) },
            DeviceModel::Kb(v) => { let (v2, r) = DeviceKB::write_result(v, addr, data, len); (DeviceModel::Kb(v2), r) },
            DeviceModel::Mouse(v) => { let (v2, r) = DeviceMouse::write_result(v, addr, data, len); (DeviceModel::Mouse(v2), r) },
            DeviceModel::Rtc(v) => { let (v2, r) = DeviceRTC::write_result(v, addr, data, len); (DeviceModel::Rtc(v2), r) },
        }
    }

    open spec fn update_result(m: DeviceModel) -> DeviceModel {
        match m {
            DeviceModel::Memory(v) => DeviceModel::Memory(DeviceMemory::update_result(v)),
            DeviceModel::Dram(v) => DeviceModel::Dram(DeviceDram::update_result(v)),
            DeviceModel::AmUart(v) => DeviceModel::AmUart(DeviceUart::update_result(v)),
            DeviceModel::Uart16550a(v) => DeviceModel::Uart16550a(Device16550aUART::update_result(v)),
            DeviceModel::SifiveUart(v) => DeviceModel::SifiveUart(DeviceSifiveUart::update_result(v)),
            DeviceModel::VgaCtl(v) => DeviceModel::VgaCtl(DeviceVGACTL::update_result(v)),
            DeviceModel::Vga(v) => DeviceModel::Vga(DeviceVGA::update_result(v)),
            DeviceModel::Kb(v) => DeviceModel::Kb(DeviceKB::update_result(v)),
            DeviceModel::Mouse(v) => DeviceModel::Mouse(DeviceMouse::update_result(v)),
            DeviceModel::Rtc(v) => DeviceModel::Rtc(DeviceRTC::update_result(v)),
        }
    }

    open spec fn copy_from_ok(m: DeviceModel, addr: u64, bytes: Seq<u8>) -> bool {
        match m {
            DeviceModel::Memory(v) => DeviceMemory::copy_from_ok(v, addr, bytes),
            DeviceModel::Dram(v) => DeviceDram::copy_from_ok(v, addr, bytes),
            DeviceModel::AmUart(v) => DeviceUart::copy_from_ok(v, addr, bytes),
            DeviceModel::Uart16550a(v) => Device16550aUART::copy_from_ok(v, addr, bytes),
            DeviceModel::SifiveUart(v) => DeviceSifiveUart::copy_from_ok(v, addr, bytes),
            DeviceModel::VgaCtl(v) => DeviceVGACTL::copy_from_ok(v, addr, bytes),
            DeviceModel::Vga(v) => DeviceVGA::copy_from_ok(v, addr, bytes),
            DeviceModel::Kb(v) => DeviceKB::copy_from_ok(v, addr, bytes),
            DeviceModel::Mouse(v) => DeviceMouse::copy_from_ok(v, addr, bytes),
            DeviceModel::Rtc(v) => DeviceRTC::copy_from_ok(v, addr, bytes),
        }
    }

    open spec fn copy_from_result(m: DeviceModel, addr: u64, bytes: Seq<u8>) -> DeviceModel {
        match m {
            DeviceModel::Memory(v) => DeviceModel::Memory(DeviceMemory::copy_from_result(v, addr, bytes)),
            DeviceModel::Dram(v) => DeviceModel::Dram(DeviceDram::copy_from_result(v, addr, bytes)),
            DeviceModel::AmUart(v) => DeviceModel::AmUart(DeviceUart::copy_from_result(v, addr, bytes)),
            DeviceModel::Uart16550a(v) => DeviceModel::Uart16550a(Device16550aUART::copy_from_result(v, addr, bytes)),
            DeviceModel::SifiveUart(v) => DeviceModel::SifiveUart(DeviceSifiveUart::copy_from_result(v, addr, bytes)),
            DeviceModel::VgaCtl(v) => DeviceModel::VgaCtl(DeviceVGACTL::copy_from_result(v, addr, bytes)),
            DeviceModel::Vga(v) => DeviceModel::Vga(DeviceVGA::copy_from_result(v, addr, bytes)),
            DeviceModel::Kb(v) => DeviceModel::Kb(DeviceKB::copy_from_result(v, addr, bytes)),
            DeviceModel::Mouse(v) => DeviceModel::Mouse(DeviceMouse::copy_from_result(v, addr, bytes)),
            DeviceModel::Rtc(v) => DeviceModel::Rtc(DeviceRTC::copy_from_result(v, addr, bytes)),
        }
    }

    open spec fn copy_to_ok(m: DeviceModel, addr: u64, n: nat) -> bool {
        match m {
            DeviceModel::Memory(v) => DeviceMemory::copy_to_ok(v, addr, n),
            DeviceModel::Dram(v) => DeviceDram::copy_to_ok(v, addr, n),
            DeviceModel::AmUart(v) => DeviceUart::copy_to_ok(v, addr, n),
            DeviceModel::Uart16550a(v) => Device16550aUART::copy_to_ok(v, addr, n),
            DeviceModel::SifiveUart(v) => DeviceSifiveUart::copy_to_ok(v, addr, n),
            DeviceModel::VgaCtl(v) => DeviceVGACTL::copy_to_ok(v, addr, n),
            DeviceModel::Vga(v) => DeviceVGA::copy_to_ok(v, addr, n),
            DeviceModel::Kb(v) => DeviceKB::copy_to_ok(v, addr, n),
            DeviceModel::Mouse(v) => DeviceMouse::copy_to_ok(v, addr, n),
            DeviceModel::Rtc(v) => DeviceRTC::copy_to_ok(v, addr, n),
        }
    }

    open spec fn copy_to_result(m: DeviceModel, addr: u64, n: nat) -> (DeviceModel, Seq<u8>) {
        match m {
            DeviceModel::Memory(v) => { let (v2, b) = DeviceMemory::copy_to_result(v, addr, n); (DeviceModel::Memory(v2), b) },
            DeviceModel::Dram(v) => { let (v2, b) = DeviceDram::copy_to_result(v, addr, n); (DeviceModel::Dram(v2), b) },
            DeviceModel::AmUart(v) => { let (v2, b) = DeviceUart::copy_to_result(v, addr, n); (DeviceModel::AmUart(v2), b) },
            DeviceModel::Uart16550a(v) => { let (v2, b) = Device16550aUART::copy_to_result(v, addr, n); (DeviceModel::Uart16550a(v2), b) },
            DeviceModel::SifiveUart(v) => { let (v2, b) = DeviceSifiveUart::copy_to_result(v, addr, n); (DeviceModel::SifiveUart(v2), b) },
            DeviceModel::VgaCtl(v) => { let (v2, b) = DeviceVGACTL::copy_to_result(v, addr, n); (DeviceModel::VgaCtl(v2), b) },
            DeviceModel::Vga(v) => { let (v2, b) = DeviceVGA::copy_to_result(v, addr, n); (DeviceModel::Vga(v2), b) },
            DeviceModel::Kb(v) => { let (v2, b) = DeviceKB::copy_to_result(v, addr, n); (DeviceModel::Kb(v2), b) },
            DeviceModel::Mouse(v) => { let (v2, b) = DeviceMouse::copy_to_result(v, addr, n); (DeviceModel::Mouse(v2), b) },
            DeviceModel::Rtc(v) => { let (v2, b) = DeviceRTC::copy_to_result(v, addr, n); (DeviceModel::Rtc(v2), b) },
        }
    }

    proof fn lemma_copy_from_unfold(m: DeviceModel, addr: u64, bytes: Seq<u8>) {
        match m {
            DeviceModel::Memory(v) => DeviceMemory::lemma_copy_from_unfold(v, addr, bytes),
            DeviceModel::Dram(v) => DeviceDram::lemma_copy_from_unfold(v, addr, bytes),
            DeviceModel::AmUart(v) => DeviceUart::lemma_copy_from_unfold(v, addr, bytes),
            DeviceModel::Uart16550a(v) => Device16550aUART::lemma_copy_from_unfold(v, addr, bytes),
            DeviceModel::SifiveUart(v) => DeviceSifiveUart::lemma_copy_from_unfold(v, addr, bytes),
            DeviceModel::VgaCtl(v) => DeviceVGACTL::lemma_copy_from_unfold(v, addr, bytes),
            DeviceModel::Vga(v) => DeviceVGA::lemma_copy_from_unfold(v, addr, bytes),
            DeviceModel::Kb(v) => DeviceKB::lemma_copy_from_unfold(v, addr, bytes),
            DeviceModel::Mouse(v) => DeviceMouse::lemma_copy_from_unfold(v, addr, bytes),
            DeviceModel::Rtc(v) => DeviceRTC::lemma_copy_from_unfold(v, addr, bytes),
        }
    }

    proof fn lemma_copy_to_unfold(m: DeviceModel, addr: u64, n: nat) {
        match m {
            DeviceModel::Memory(v) => DeviceMemory::lemma_copy_to_unfold(v, addr, n),
            DeviceModel::Dram(v) => DeviceDram::lemma_copy_to_unfold(v, addr, n),
            DeviceModel::AmUart(v) => DeviceUart::lemma_copy_to_unfold(v, addr, n),
            DeviceModel::Uart16550a(v) => Device16550aUART::lemma_copy_to_unfold(v, addr, n),
            DeviceModel::SifiveUart(v) => DeviceSifiveUart::lemma_copy_to_unfold(v, addr, n),
            DeviceModel::VgaCtl(v) => DeviceVGACTL::lemma_copy_to_unfold(v, addr, n),
            DeviceModel::Vga(v) => DeviceVGA::lemma_copy_to_unfold(v, addr, n),
            DeviceModel::Kb(v) => DeviceKB::lemma_copy_to_unfold(v, addr, n),
            DeviceModel::Mouse(v) => DeviceMouse::lemma_copy_to_unfold(v, addr, n),
            DeviceModel::Rtc(v) => DeviceRTC::lemma_copy_to_unfold(v, addr, n),
        }
    }

    fn can_read(&self, addr: u64, len: usize) -> (r: bool) {
        match self {
            Device::Memory(d) => d.can_read(addr, len),
            Device::Dram(d) => d.can_read(addr, len),
            Device::AmUart(d) => d.can_read(addr, len),
            Device::Uart16550a(d) => d.can_read(addr, len),
            Device::SifiveUart(d) => d.can_read(addr, len),
            Device::VgaCtl(d) => d.can_read(addr, len),
            Device::Vga(d) => d.can_read(addr, len),
            Device::Kb(d) => d.can_read(addr, len),
            Device::Mouse(d) => d.can_read(addr, len),
            Device::Rtc(d) => d.can_read(addr, len),
        }
    }

    fn can_write(&self, addr: u64, data: u64, len: usize) -> (r: bool) {
        match self {
            Device::Memory(d) => d.can_write(addr, data, len),
            Device::Dram(d) => d.can_write(addr, data, len),
            Device::AmUart(d) => d.can_write(addr, data, len),
            Device::Uart16550a(d) => d.can_write(addr, data, len),
            Device::SifiveUart(d) => d.can_write(addr, data, len),
            Device::VgaCtl(d) => d.can_write(addr, data, len),
            Device::Vga(d) => d.can_write(addr, data, len),
            Device::Kb(d) => d.can_write(addr, data, len),
            Device::Mouse(d) => d.can_write(addr, data, len),
            Device::Rtc(d) => d.can_write(addr, data, len),
        }
    }

    fn can_copy_from(&self, addr: u64, slice: &[u8]) -> (r: bool) {
        match self {
            Device::Memory(d) => d.can_copy_from(addr, slice),
            Device::Dram(d) => d.can_copy_from(addr, slice),
            Device::AmUart(d) => d.can_copy_from(addr, slice),
            Device::Uart16550a(d) => d.can_copy_from(addr, slice),
            Device::SifiveUart(d) => d.can_copy_from(addr, slice),
            Device::VgaCtl(d) => d.can_copy_from(addr, slice),
            Device::Vga(d) => d.can_copy_from(addr, slice),
            Device::Kb(d) => d.can_copy_from(addr, slice),
            Device::Mouse(d) => d.can_copy_from(addr, slice),
            Device::Rtc(d) => d.can_copy_from(addr, slice),
        }
    }

    fn can_copy_to(&self, addr: u64, len: usize) -> (r: bool) {
        match self {
            Device::Memory(d) => d.can_copy_to(addr, len),
            Device::Dram(d) => d.can_copy_to(addr, len),
            Device::AmUart(d) => d.can_copy_to(addr, len),
            Device::Uart16550a(d) => d.can_copy_to(addr, len),
            Device::SifiveUart(d) => d.can_copy_to(addr, len),
            Device::VgaCtl(d) => d.can_copy_to(addr, len),
            Device::Vga(d) => d.can_copy_to(addr, len),
            Device::Kb(d) => d.can_copy_to(addr, len),
            Device::Mouse(d) => d.can_copy_to(addr, len),
            Device::Rtc(d) => d.can_copy_to(addr, len),
        }
    }

    fn do_read(&mut self, addr: u64, len: usize) -> (r: u64) {
        match self {
            Device::Memory(d) => d.do_read(addr, len),
            Device::Dram(d) => d.do_read(addr, len),
            Device::AmUart(d) => d.do_read(addr, len),
            Device::Uart16550a(d) => d.do_read(addr, len),
            Device::SifiveUart(d) => d.do_read(addr, len),
            Device::VgaCtl(d) => d.do_read(addr, len),
            Device::Vga(d) => d.do_read(addr, len),
            Device::Kb(d) => d.do_read(addr, len),
            Device::Mouse(d) => d.do_read(addr, len),
            Device::Rtc(d) => d.do_read(addr, len),
        }
    }

    fn do_write(&mut self, addr: u64, data: u64, len: usize) -> (r: u64) {
        match self {
            Device::Memory(d) => d.do_write(addr, data, len),
            Device::Dram(d) => d.do_write(addr, data, len),
            Device::AmUart(d) => d.do_write(addr, data, len),
            Device::Uart16550a(d) => d.do_write(addr, data, len),
            Device::SifiveUart(d) => d.do_write(addr, data, len),
            Device::VgaCtl(d) => d.do_write(addr, data, len),
            Device::Vga(d) => d.do_write(addr, data, len),
            Device::Kb(d) => d.do_write(addr, data, len),
            Device::Mouse(d) => d.do_write(addr, data, len),
            Device::Rtc(d) => d.do_write(addr, data, len),
        }
    }

    fn copy_from_slice(&mut self, addr: u64, slice: &[u8]) {
        match self {
            Device::Memory(d) => d.copy_from_slice(addr, slice),
            Device::Dram(d) => d.copy_from_slice(addr, slice),
            Device::AmUart(d) => d.copy_from_slice(addr, slice),
            Device::Uart16550a(d) => d.copy_from_slice(addr, slice),
            Device::SifiveUart(d) => d.copy_from_slice(addr, slice),
            Device::VgaCtl(d) => d.copy_from_slice(addr, slice),
            Device::Vga(d) => d.copy_from_slice(addr, slice),
            Device::Kb(d) => d.copy_from_slice(addr, slice),
            Device::Mouse(d) => d.copy_from_slice(addr, slice),
            Device::Rtc(d) => d.copy_from_slice(addr, slice),
        }
    }

    fn copy_to_slice(&mut self, addr: u64, slice: &mut [u8]) {
        match self {
            Device::Memory(d) => d.copy_to_slice(addr, slice),
            Device::Dram(d) => d.copy_to_slice(addr, slice),
            Device::AmUart(d) => d.copy_to_slice(addr, slice),
            Device::Uart16550a(d) => d.copy_to_slice(addr, slice),
            Device::SifiveUart(d) => d.copy_to_slice(addr, slice),
            Device::VgaCtl(d) => d.copy_to_slice(addr, slice),
            Device::Vga(d) => d.copy_to_slice(addr, slice),
            Device::Kb(d) => d.copy_to_slice(addr, slice),
            Device::Mouse(d) => d.copy_to_slice(addr, slice),
            Device::Rtc(d) => d.copy_to_slice(addr, slice),
        }
    }

    fn get_name(&self) -> &'static str {
        match self {
            Device::Memory(d) => d.get_name(),
            Device::Dram(d) => d.get_name(),
            Device::AmUart(d) => d.get_name(),
            Device::Uart16550a(d) => d.get_name(),
            Device::SifiveUart(d) => d.get_name(),
            Device::VgaCtl(d) => d.get_name(),
            Device::Vga(d) => d.get_name(),
            Device::Kb(d) => d.get_name(),
            Device::Mouse(d) => d.get_name(),
            Device::Rtc(d) => d.get_name(),
        }
    }

    fn do_update(&mut self) {
        match self {
            Device::Memory(d) => d.do_update(),
            Device::Dram(d) => d.do_update(),
            Device::AmUart(d) => d.do_update(),
            Device::Uart16550a(d) => d.do_update(),
            Device::SifiveUart(d) => d.do_update(),
            Device::VgaCtl(d) => d.do_update(),
            Device::Vga(d) => d.do_update(),
            Device::Kb(d) => d.do_update(),
            Device::Mouse(d) => d.do_update(),
            Device::Rtc(d) => d.do_update(),
        }
    }

}

} // verus!
