//! The simulator: the harts and their bus, the loading of a program image
//! (an ELF object or raw bytes), the symbols a test reports through, and
//! the `tohost` protocol that ends a test.
use vstd::prelude::*;
use elf::ElfBytes;
use elf::endian::AnyEndian;
use crate::device::device_trait::DeviceBase;
use crate::rv64core::bus::{Bus, bus_copy_from_ok, bus_copy_post, bus_read_ok, bus_read_post, bus_write_ok, bus_write_post,
    bus_updated, timer_ticks};
use crate::rv64core::cpu_core::{Hart, CpuState, CpuCore, turns, turns_defined, lines_latched, links_valid};
use crate::rv64core::csr_regs::CSR_SLOTS;
use crate::rv64core::inst_decode::InstDecode;
use crate::rv64core::gpr::str_eq;
use crate::rv64core::inst_base::{FesvrCmd, RVerr};

verus! {

/// The ELF machine number of RISC-V.
pub const EM_RISCV: u16 = 243;
/// The ELF program header type of a loadable segment.
pub const PT_LOAD: u32 = 1;

/// The machine and the number of program headers of the ELF object that
/// `bytes` holds, or `None` when it holds none.
pub uninterp spec fn elf_header_of(bytes: Seq<u8>) -> Option<(u16, u16)>;

/// The program headers of the ELF object in `bytes` (type, physical
/// address, file data), or `None` when they cannot be read.
pub uninterp spec fn elf_segments_of(bytes: Seq<u8>) -> Option<Seq<(u32, u64, Seq<u8>)>>;

/// The symbols of the ELF object in `bytes`, by name and value, in the
/// order of its symbol table.
pub uninterp spec fn elf_symbols_of(bytes: Seq<u8>) -> Seq<(Seq<char>, u64)>;

/// A program header: its type, its physical address and the bytes of the
/// file it covers.
pub struct ElfSegment {
    pub p_type: u32,
    pub p_paddr: u64,
    pub data: Vec<u8>,
}

pub open spec fn segment_view(s: ElfSegment) -> (u32, u64, Seq<u8>) {
    (s.p_type, s.p_paddr, s.data@)
}

/// `ElfBytes::minimal_parse`: the machine and program header count of the
/// header, `None` when the bytes are no ELF object. The result is a
/// function of the bytes alone.
#[verifier::external_body]
fn elf_header(bytes: &[u8]) -> (r: Option<(u16, u16)>)
    ensures
        r == elf_header_of(bytes@),
{
    ElfBytes::<AnyEndian>::minimal_parse(bytes).ok().map(|e| (e.ehdr.e_machine, e.ehdr.e_phnum))
}

/// `ElfBytes::segments` and `ElfBytes::segment_data`: every program header
/// with its file bytes, `None` when the table or some data cannot be read.
#[verifier::external_body]
fn elf_segments(bytes: &[u8]) -> (r: Option<Vec<ElfSegment>>)
    ensures
        match r {
            Some(v) => elf_segments_of(bytes@) == Some(v@.map_values(|s: ElfSegment| segment_view(s))),
            None => elf_segments_of(bytes@) is None,
        },
{
    let e = ElfBytes::<AnyEndian>::minimal_parse(bytes).ok()?;
    let mut v = Vec::new();
    for p in e.segments()?.iter() {
        let data = e.segment_data(&p).ok()?;
        v.push(ElfSegment { p_type: p.p_type, p_paddr: p.p_paddr, data: data.to_vec() });
    }
    Some(v)
}

/// `ElfBytes::find_common_data` and the symbol table with its strings: the
/// name and value of every symbol whose name can be read; none when the
/// bytes are no ELF object or have no symbol table.
#[verifier::external_body]
fn elf_symbols(bytes: &[u8]) -> (r: Vec<(String, u64)>)
    ensures
        r@.map_values(|p: (String, u64)| (p.0@, p.1)) == elf_symbols_of(bytes@),
{
    let mut v = Vec::new();
    if let Ok(e) = ElfBytes::<AnyEndian>::minimal_parse(bytes) {
        if let Ok(common) = e.find_common_data() {
            if let (Some(symtab), Some(strs)) = (common.symtab, common.symtab_strs) {
                for sym in symtab.iter() {
                    if let Ok(name) = strs.get(sym.st_name as usize) {
                        v.push((name.to_string(), sym.st_value));
                    }
                }
            }
        }
    }
    v
}

/// Why an image could not be loaded.
#[derive(Clone, Copy, PartialEq, Eq, Debug, Structural)]
pub enum LoadError {
    /// The ELF object is not for RISC-V.
    NotRiscv,
    /// The ELF object has no program headers.
    NoProgramHeaders,
    /// The program headers or their data cannot be read.
    BadSegments,
    /// A segment lies where no device takes it.
    CopyFailed,
}

/// The value of the last symbol named `name` (a later symbol of a name
/// replaces an earlier one).
pub open spec fn symbol_value(syms: Seq<(Seq<char>, u64)>, name: Seq<char>) -> Option<u64>
    decreases syms.len(),
{
    if syms.len() == 0 {
        None
    } else if syms.last().0 == name {
        Some(syms.last().1)
    } else {
        symbol_value(syms.drop_last(), name)
    }
}

/// Copying the loadable segments of `segs` in order took the bus from `o`
/// to `n` with the result `r`: a segment no device takes stops the load.
pub open spec fn loads_post<D: DeviceBase>(o: Bus<D>, n: Bus<D>, segs: Seq<(u32, u64, Seq<u8>)>, r: Result<(), LoadError>) -> bool
    decreases segs.len(),
{
    if segs.len() == 0 {
        n == o && r is Ok
    } else if segs[0].0 != PT_LOAD {
        loads_post(o, n, segs.drop_first(), r)
    } else if !bus_copy_from_ok(o, segs[0].1, segs[0].2) {
        n == o && r == Err::<(), LoadError>(LoadError::CopyFailed)
    } else {
        exists|m: Bus<D>, c: Result<(), RVerr>| #[trigger] bus_copy_post(o, m, segs[0].1, segs[0].2, c) && match c {
            Ok(_) => loads_post(m, n, segs.drop_first(), r),
            Err(_) => n == m && r == Err::<(), LoadError>(LoadError::CopyFailed),
        }
    }
}

/// A copy of `bytes` to `addr` took the bus from `o` to `n` with result `r`.
pub open spec fn raw_load_post<D: DeviceBase>(o: Bus<D>, n: Bus<D>, addr: u64, bytes: Seq<u8>, r: Result<(), LoadError>) -> bool {
    if !bus_copy_from_ok(o, addr, bytes) {
        n == o && r == Err::<(), LoadError>(LoadError::CopyFailed)
    } else {
        exists|c: Result<(), RVerr>| #[trigger] bus_copy_post(o, n, addr, bytes, c) && match c {
            Ok(_) => r is Ok,
            Err(_) => r == Err::<(), LoadError>(LoadError::CopyFailed),
        }
    }
}

/// `n` is the harts `o` with every core in the state `s`.
pub open spec fn harts_set(o: Seq<Hart>, n: Seq<Hart>, s: CpuState) -> bool {
    &&& n.len() == o.len()
    &&& forall|i: int| 0 <= i < o.len() ==> {
        &&& (#[trigger] n[i]).cpu == (crate::rv64core::cpu_core::CpuCore { cpu_state: s, ..o[i].cpu })
        &&& n[i].decode == o[i].decode
        &&& n[i].links == o[i].links
    }
}

/// The turns of the run loop each hart makes between two updates of the devices.
pub const RUN_TURNS: usize = 5000;

/// Hart `h` after `k` turns of its run loop from the bus `b`: `c` and `d`
/// are its core and decoder after, `nb` the bus.
pub open spec fn hart_turns<D: DeviceBase>(h: Hart, c: CpuCore, d: InstDecode, b: Bus<D>, nb: Bus<D>, k: nat) -> bool {
    &&& d.wf()
    &&& d.table() == h.decode.table() && d.rvc == h.decode.rvc && d.cache_capacity() == h.decode.cache_capacity()
    &&& c.csr_regs.file@.len() == CSR_SLOTS
    &&& turns(h.cpu, c, b, nb, h.decode.table(), h.decode.rvc, k)
}

/// `h` with the core `c` and the decoder `d`.
pub open spec fn hart_with(h: Hart, c: CpuCore, d: InstDecode) -> Hart {
    Hart { cpu: c, decode: d, links: h.links }
}

/// Whether harts `i..` of `hs` can each make `k` turns, one hart after the
/// other, from the bus `b`, along every way the turns can go; and then the
/// devices be updated for `interval` cycles (the CLINT's timer does not
/// pass its top) and each hart's interrupt lines be latched.
pub open spec fn harts_run_defined<D: DeviceBase>(hs: Seq<Hart>, b: Bus<D>, i: nat, k: nat, interval: usize) -> bool
    decreases hs.len() - i,
{
    if i >= hs.len() {
        &&& b.clint.instance.mitme + timer_ticks(interval) <= u64::MAX
        &&& forall|j: int| 0 <= j < hs.len() ==> #[trigger] links_valid(hs[j].links, b)
    } else {
        &&& hs[i as int].decode.wf()
        &&& hs[i as int].cpu.csr_regs.file@.len() == CSR_SLOTS
        &&& turns_defined(hs[i as int].cpu, b, hs[i as int].decode.table(), hs[i as int].decode.rvc, k)
        &&& forall|c: CpuCore, d: InstDecode, nb: Bus<D>| #[trigger] hart_turns(hs[i as int], c, d, b, nb, k)
            ==> harts_run_defined(hs.update(i as int, hart_with(hs[i as int], c, d)), nb, i + 1, k, interval)
    }
}

/// `hs` and `b` are `hp` and `bp` after hart `j` made `k` turns.
pub open spec fn hart_ran_in<D: DeviceBase>(hp: Seq<Hart>, hs: Seq<Hart>, bp: Bus<D>, b: Bus<D>, j: nat, k: nat) -> bool {
    &&& j < hp.len()
    &&& hs == hp.update(j as int, hart_with(hp[j as int], hs[j as int].cpu, hs[j as int].decode))
    &&& hart_turns(hp[j as int], hs[j as int].cpu, hs[j as int].decode, bp, b, k)
}

/// `hs` and `b` are `hs0` and `b0` after harts `0..i` made `k` turns each,
/// one after the other.
pub open spec fn harts_ran<D: DeviceBase>(hs0: Seq<Hart>, hs: Seq<Hart>, b0: Bus<D>, b: Bus<D>, i: nat, k: nat) -> bool
    decreases i,
{
    if i == 0 {
        hs == hs0 && b == b0
    } else {
        exists|hp: Seq<Hart>, bp: Bus<D>| harts_ran(hs0, hp, b0, bp, (i - 1) as nat, k)
            && #[trigger] hart_ran_in(hp, hs, bp, b, (i - 1) as nat, k)
    }
}

/// `ns` is `hs` with each hart's interrupt lines latched from the bus `b`.
pub open spec fn harts_latched<D>(hs: Seq<Hart>, ns: Seq<Hart>, b: Bus<D>) -> bool {
    &&& ns.len() == hs.len()
    &&& forall|j: int| 0 <= j < hs.len() ==> {
        &&& (#[trigger] ns[j]).decode == hs[j].decode
        &&& ns[j].links == hs[j].links
        &&& lines_latched(hs[j].cpu, ns[j].cpu, b, hs[j].links)
    }
}

/// What one round of the machine did to the harts `hs0` and the bus `b0`:
/// every hart made `k` turns, one after the other, the devices were updated
/// for `k` cycles, and each hart's interrupt lines were latched.
pub open spec fn round_post<D: DeviceBase>(hs0: Seq<Hart>, hs: Seq<Hart>, b0: Bus<D>, b: Bus<D>, k: nat) -> bool {
    exists|hs1: Seq<Hart>, b1: Bus<D>| {
        &&& #[trigger] harts_ran(hs0, hs1, b0, b1, hs0.len(), k)
        &&& bus_updated(b1, b, k as usize)
        &&& harts_latched(hs1, hs, b)
    }
}

/// Reading the 4-byte words from `addr` up to `end` took the bus from `o`
/// to `n` and gave `words`; the first word that cannot be read ends them.
pub open spec fn signature_post<D: DeviceBase>(o: Bus<D>, n: Bus<D>, addr: u64, end: u64, words: Seq<u64>) -> bool
    decreases end - addr,
{
    if addr >= end || !bus_read_ok(o, addr, 4) {
        n == o && words.len() == 0
    } else {
        exists|m: Bus<D>, v: Result<u64, RVerr>| #[trigger] bus_read_post(o, m, addr, 4, v) && match v {
            Err(_) => n == m && words.len() == 0,
            Ok(x) => words.len() > 0 && words[0] == x && (if end - addr <= 4 {
                n == m && words.len() == 1
            } else {
                signature_post(m, n, (addr + 4) as u64, end, words.drop_first())
            }),
        }
    }
}

pub struct RVsim<D> {
    /// The address of `tohost`, from the symbols of the image.
    pub tohost: Option<u64>,
    pub fromhost: Option<u64>,
    /// The range a test leaves its signature in.
    pub signature_range: Option<(u64, u64)>,
    pub signature_file: Option<String>,
    pub bus: Bus<D>,
    pub harts: Vec<Hart>,
    /// The symbols of the loaded image, by name and value.
    pub elf_symbols: Vec<(String, u64)>,
}

impl<D: DeviceBase> RVsim<D> {
    pub open spec fn symbols(&self) -> Seq<(Seq<char>, u64)> {
        self.elf_symbols@.map_values(|p: (String, u64)| (p.0@, p.1))
    }

    /// A simulator of `harts` on `bus`, with no image loaded.
    pub fn new(harts: Vec<Hart>, bus: Bus<D>) -> (r: Self)
        ensures
            r.harts@ == harts@,
            r.bus == bus,
            r.tohost is None && r.fromhost is None && r.signature_range is None && r.signature_file is None,
            r.elf_symbols@.len() == 0,
    {
        RVsim {
            tohost: None,
            fromhost: None,
            signature_range: None,
            signature_file: None,
            bus,
            harts,
            elf_symbols: Vec::new(),
        }
    }

    /// The value of the last symbol named `name`.
    pub fn symbol(&self, name: &str) -> (r: Option<u64>)
        ensures
            r == symbol_value(self.symbols(), name@),
    {
        let mut i = self.elf_symbols.len();
        assert(self.symbols().subrange(0, i as int) == self.symbols());
        while i > 0
            invariant
                i <= self.elf_symbols@.len(),
                symbol_value(self.symbols(), name@) == symbol_value(self.symbols().subrange(0, i as int), name@),
            decreases i,
        {
            let ghost s = self.symbols().subrange(0, i as int);
            assert(s.drop_last() == self.symbols().subrange(0, i - 1));
            if str_eq(self.elf_symbols[i - 1].0.as_str(), name) {
                return Some(self.elf_symbols[i - 1].1);
            }
            i = i - 1;
        }
        None
    }

    /// Takes `tohost`, `fromhost` and the signature range from the symbols.
    fn get_symbol_values(&mut self)
        ensures
            final(self).tohost == symbol_value(old(self).symbols(), "tohost"@),
            final(self).fromhost == symbol_value(old(self).symbols(), "fromhost"@),
            final(self).signature_range == (match (symbol_value(old(self).symbols(), "begin_signature"@),
                symbol_value(old(self).symbols(), "end_signature"@)) {
                (Some(b), Some(e)) => Some((b, e)),
                _ => old(self).signature_range,
            }),
            final(self).bus == old(self).bus,
            final(self).harts@ == old(self).harts@,
            final(self).elf_symbols@ == old(self).elf_symbols@,
            final(self).signature_file == old(self).signature_file,
    {
        self.tohost = self.symbol("tohost");
        self.fromhost = self.symbol("fromhost");
        let b = self.symbol("begin_signature");
        let e = self.symbol("end_signature");
        if let (Some(b), Some(e)) = (b, e) {
            self.signature_range = Some((b, e));
        }
    }

    /// Adds the symbols of the ELF object in `slice`, and takes the values
    /// the simulator needs from them.
    fn collect_elf_symbols(&mut self, slice: &[u8])
        ensures
            final(self).symbols() == old(self).symbols() + elf_symbols_of(slice@),
            final(self).tohost == symbol_value(final(self).symbols(), "tohost"@),
            final(self).fromhost == symbol_value(final(self).symbols(), "fromhost"@),
            final(self).bus == old(self).bus,
            final(self).harts@ == old(self).harts@,
            final(self).signature_file == old(self).signature_file,
    {
        let mut syms = elf_symbols(slice);
        self.elf_symbols.append(&mut syms);
        assert(self.symbols() == old(self).symbols() + elf_symbols_of(slice@));
        self.get_symbol_values();
    }

    /// Copies the loadable segments to the bus, in order.
    fn load_segments(&mut self, segs: &Vec<ElfSegment>) -> (r: Result<(), LoadError>)
        ensures
            loads_post(old(self).bus, final(self).bus, segs@.map_values(|s: ElfSegment| segment_view(s)), r),
            final(self).harts@ == old(self).harts@,
            final(self).elf_symbols@ == old(self).elf_symbols@,
            final(self).tohost == old(self).tohost && final(self).fromhost == old(self).fromhost,
            final(self).signature_range == old(self).signature_range,
            final(self).signature_file == old(self).signature_file,
    {
        let ghost all = segs@.map_values(|s: ElfSegment| segment_view(s));
        let mut i: usize = 0;
        assert(all.subrange(0, all.len() as int) == all);
        while i < segs.len()
            invariant
                0 <= i <= segs@.len(),
                all == segs@.map_values(|s: ElfSegment| segment_view(s)),
                forall|n: Bus<D>, r: Result<(), LoadError>| #[trigger] loads_post(self.bus, n, all.subrange(i as int, all.len() as int), r)
                    ==> loads_post(old(self).bus, n, all, r),
                self.harts@ == old(self).harts@,
                self.elf_symbols@ == old(self).elf_symbols@,
                self.tohost == old(self).tohost && self.fromhost == old(self).fromhost,
                self.signature_range == old(self).signature_range,
                self.signature_file == old(self).signature_file,
            decreases segs@.len() - i,
        {
            let ghost rest = all.subrange(i as int, all.len() as int);
            let ghost b0 = self.bus;
            assert(rest[0] == segment_view(segs@[i as int]));
            assert(rest.drop_first() == all.subrange(i + 1, all.len() as int));
            let s = &segs[i];
            if s.p_type == PT_LOAD {
                if !self.bus.can_copy_from(s.p_paddr, s.data.as_slice()) {
                    assert(loads_post(b0, self.bus, rest, Err(LoadError::CopyFailed)));
                    return Err(LoadError::CopyFailed);
                }
                let c = self.bus.copy_from_slice(s.p_paddr, s.data.as_slice());
                let ghost b1 = self.bus;
                match c {
                    Ok(_) => {
                        assert forall|n: Bus<D>, r: Result<(), LoadError>| #[trigger] loads_post(b1, n, all.subrange(i + 1, all.len() as int), r)
                            implies loads_post(old(self).bus, n, all, r) by {
                            assert(bus_copy_post(b0, b1, rest[0].1, rest[0].2, c));
                            assert(loads_post(b0, n, rest, r));
                        }
                    },
                    Err(_) => {
                        assert(bus_copy_post(b0, b1, rest[0].1, rest[0].2, c));
                        assert(loads_post(b0, b1, rest, Err(LoadError::CopyFailed)));
                        return Err(LoadError::CopyFailed);
                    },
                }
            } else {
                assert forall|n: Bus<D>, r: Result<(), LoadError>| #[trigger] loads_post(b0, n, all.subrange(i + 1, all.len() as int), r)
                    implies loads_post(old(self).bus, n, all, r) by {
                    assert(loads_post(b0, n, rest, r));
                }
            }
            i = i + 1;
        }
        assert(all.subrange(i as int, all.len() as int).len() == 0);
        assert(loads_post(self.bus, self.bus, all.subrange(i as int, all.len() as int), Ok(())));
        Ok(())
    }

    /// Loads an image: the loadable segments of an ELF object for RISC-V
    /// (and, when asked, its symbols), or, when the bytes are no ELF object,
    /// the bytes themselves at the first hart's pc.
    pub fn load_elf(&mut self, slice: &[u8], collect_symbol: bool) -> (r: Result<(), LoadError>)
        requires
            old(self).harts@.len() > 0,
        ensures
            final(self).harts@ == old(self).harts@,
            final(self).signature_file == old(self).signature_file,
            match elf_header_of(slice@) {
                None => raw_load_post(old(self).bus, final(self).bus, old(self).harts@[0].cpu.pc, slice@, r)
                    && final(self).elf_symbols@ == old(self).elf_symbols@,
                Some((machine, phnum)) => if machine != EM_RISCV {
                    r == Err::<(), LoadError>(LoadError::NotRiscv) && final(self).bus == old(self).bus
                } else if phnum == 0 {
                    r == Err::<(), LoadError>(LoadError::NoProgramHeaders) && final(self).bus == old(self).bus
                } else {
                    match elf_segments_of(slice@) {
                        None => r == Err::<(), LoadError>(LoadError::BadSegments) && final(self).bus == old(self).bus,
                        Some(segs) => exists|r1: Result<(), LoadError>| {
                            &&& #[trigger] loads_post(old(self).bus, final(self).bus, segs, r1)
                            &&& r == r1
                            &&& (r1 is Ok && collect_symbol) ==> final(self).symbols() == old(self).symbols() + elf_symbols_of(slice@)
                                && final(self).tohost == symbol_value(final(self).symbols(), "tohost"@)
                        },
                    }
                },
            },
    {
        match elf_header(slice) {
            Some((machine, phnum)) => {
                if machine != EM_RISCV {
                    return Err(LoadError::NotRiscv);
                }
                if phnum == 0 {
                    return Err(LoadError::NoProgramHeaders);
                }
                let segs = match elf_segments(slice) {
                    Some(v) => v,
                    None => return Err(LoadError::BadSegments),
                };
                let ghost b0 = self.bus;
                let r = self.load_segments(&segs);
                let ghost b1 = self.bus;
                if r.is_ok() && collect_symbol {
                    self.collect_elf_symbols(slice);
                }
                assert(loads_post(b0, b1, elf_segments_of(slice@)->Some_0, r));
                r
            },
            None => {
                let boot_pc = self.harts[0].cpu.pc;
                if !self.bus.can_copy_from(boot_pc, slice) {
                    return Err(LoadError::CopyFailed);
                }
                let c = self.bus.copy_from_slice(boot_pc, slice);
                assert(bus_copy_post(old(self).bus, self.bus, boot_pc, slice@, c));
                match c {
                    Ok(_) => Ok(()),
                    Err(_) => Err(LoadError::CopyFailed),
                }
            },
        }
    }

    /// Loads an image from bytes, without its symbols.
    pub fn load_image_from_slice(&mut self, slice: &[u8]) -> (r: Result<(), LoadError>)
        requires
            old(self).harts@.len() > 0,
        ensures
            final(self).harts@ == old(self).harts@,
            match elf_header_of(slice@) {
                None => raw_load_post(old(self).bus, final(self).bus, old(self).harts@[0].cpu.pc, slice@, r),
                Some((machine, phnum)) => if machine != EM_RISCV {
                    r == Err::<(), LoadError>(LoadError::NotRiscv) && final(self).bus == old(self).bus
                } else if phnum == 0 {
                    r == Err::<(), LoadError>(LoadError::NoProgramHeaders) && final(self).bus == old(self).bus
                } else {
                    match elf_segments_of(slice@) {
                        None => r == Err::<(), LoadError>(LoadError::BadSegments) && final(self).bus == old(self).bus,
                        Some(segs) => exists|r1: Result<(), LoadError>| #[trigger] loads_post(old(self).bus, final(self).bus, segs, r1) && r == r1,
                    }
                },
            },
    {
        self.load_elf(slice, false)
    }

    /// One round of the machine: every hart makes `k` turns of its run
    /// loop, one hart after the other; then the devices update themselves
    /// for `k` cycles and each hart latches its interrupt lines.
    fn run_harts(&mut self, k: usize)
        requires
            harts_run_defined(old(self).harts@, old(self).bus, 0, k as nat, k),
        ensures
            round_post(old(self).harts@, final(self).harts@, old(self).bus, final(self).bus, k as nat),
            final(self).tohost == old(self).tohost && final(self).fromhost == old(self).fromhost,
            final(self).signature_range == old(self).signature_range,
            final(self).signature_file == old(self).signature_file,
            final(self).elf_symbols == old(self).elf_symbols,
    {
        let ghost hs0 = self.harts@;
        let ghost b0 = self.bus;
        let n = self.harts.len();
        let mut i: usize = 0;
        while i < n
            invariant
                0 <= i <= n,
                n == self.harts@.len() && n == hs0.len(),
                hs0 == old(self).harts@ && b0 == old(self).bus,
                harts_ran(hs0, self.harts@, b0, self.bus, i as nat, k as nat),
                harts_run_defined(self.harts@, self.bus, i as nat, k as nat, k),
                forall|x: int| 0 <= x < i ==> (#[trigger] self.harts@[x]).cpu.csr_regs.file@.len() == CSR_SLOTS,
                forall|x: int| i <= x < n ==> #[trigger] self.harts@[x] == hs0[x],
                self.tohost == old(self).tohost && self.fromhost == old(self).fromhost,
                self.signature_range == old(self).signature_range,
                self.signature_file == old(self).signature_file,
                self.elf_symbols == old(self).elf_symbols,
            decreases n - i,
        {
            let ghost hp = self.harts@;
            let ghost bp = self.bus;
            let mut h = self.harts.remove(i);
            h.cpu.execute(&mut self.bus, &mut h.decode, k);
            self.harts.insert(i, h);
            proof {
                assert(self.harts@ =~= hp.update(i as int, hart_with(hp[i as int], h.cpu, h.decode)));
                assert(hart_turns(hp[i as int], h.cpu, h.decode, bp, self.bus, k as nat));
                assert(hart_ran_in(hp, self.harts@, bp, self.bus, ((i + 1) as nat - 1) as nat, k as nat));
                assert(harts_ran(hs0, hp, b0, bp, ((i + 1) as nat - 1) as nat, k as nat));
                assert(harts_ran(hs0, self.harts@, b0, self.bus, (i + 1) as nat, k as nat));
            }
            i = i + 1;
        }
        let ghost hs1 = self.harts@;
        let ghost b1 = self.bus;
        self.bus.update(k);
        let mut j: usize = 0;
        while j < n
            invariant
                0 <= j <= n,
                n == self.harts@.len() && n == hs1.len() && n == hs0.len(),
                bus_updated(b1, self.bus, k),
                forall|x: int| 0 <= x < n ==> #[trigger] links_valid(hs1[x].links, b1),
                forall|x: int| 0 <= x < j ==> {
                    &&& (#[trigger] self.harts@[x]).decode == hs1[x].decode
                    &&& self.harts@[x].links == hs1[x].links
                    &&& lines_latched(hs1[x].cpu, self.harts@[x].cpu, self.bus, hs1[x].links)
                },
                forall|x: int| j <= x < n ==> #[trigger] self.harts@[x] == hs1[x],
                forall|x: int| 0 <= x < n ==> (#[trigger] hs1[x]).cpu.csr_regs.file@.len() == CSR_SLOTS,
                self.tohost == old(self).tohost && self.fromhost == old(self).fromhost,
                self.signature_range == old(self).signature_range,
                self.signature_file == old(self).signature_file,
                self.elf_symbols == old(self).elf_symbols,
            decreases n - j,
        {
            let ghost before = self.harts@;
            let mut h = self.harts.remove(j);
            assert(links_valid(h.links, b1));
            assert(links_valid(h.links, self.bus));
            h.cpu.sync_lines(&self.bus, &h.links);
            self.harts.insert(j, h);
            assert forall|x: int| 0 <= x < n && x != j implies #[trigger] self.harts@[x] == before[x] by {}
            j = j + 1;
        }
        proof {
            assert(harts_latched(hs1, self.harts@, self.bus));
            assert(round_post(hs0, self.harts@, b0, self.bus, k as nat));
        }
    }

    /// Every hart makes `RUN_TURNS` turns of its run loop; then the devices
    /// update themselves for as many cycles and each hart latches its
    /// interrupt lines.
    pub fn run_once(&mut self)
        requires
            harts_run_defined(old(self).harts@, old(self).bus, 0, RUN_TURNS as nat, RUN_TURNS),
        ensures
            round_post(old(self).harts@, final(self).harts@, old(self).bus, final(self).bus, RUN_TURNS as nat),
            final(self).tohost == old(self).tohost && final(self).fromhost == old(self).fromhost,
            final(self).signature_range == old(self).signature_range,
            final(self).signature_file == old(self).signature_file,
            final(self).elf_symbols == old(self).elf_symbols,
    {
        self.run_harts(RUN_TURNS);
    }

    /// Every hart makes one turn of its run loop; then the devices update
    /// themselves for one cycle and each hart latches its interrupt lines.
    pub fn step(&mut self)
        requires
            harts_run_defined(old(self).harts@, old(self).bus, 0, 1, 1),
        ensures
            round_post(old(self).harts@, final(self).harts@, old(self).bus, final(self).bus, 1),
            final(self).tohost == old(self).tohost && final(self).fromhost == old(self).fromhost,
            final(self).signature_range == old(self).signature_range,
            final(self).signature_file == old(self).signature_file,
            final(self).elf_symbols == old(self).elf_symbols,
    {
        self.run_harts(1);
    }

    /// Sets every hart running.
    pub fn prepare_to_run(&mut self)
        ensures
            harts_set(old(self).harts@, final(self).harts@, CpuState::Running),
            final(self).bus == old(self).bus,
    {
        self.set_harts_state(CpuState::Running);
    }

    fn set_harts_state(&mut self, state: CpuState)
        ensures
            harts_set(old(self).harts@, final(self).harts@, state),
            final(self).bus == old(self).bus,
            final(self).tohost == old(self).tohost,
    {
        let n = self.harts.len();
        let mut i: usize = 0;
        while i < n
            invariant
                0 <= i <= n,
                n == self.harts@.len(),
                self.bus == old(self).bus,
                self.tohost == old(self).tohost,
                forall|j: int| 0 <= j < i ==> {
                    &&& (#[trigger] self.harts@[j]).cpu == (crate::rv64core::cpu_core::CpuCore { cpu_state: state, ..old(self).harts@[j].cpu })
                    &&& self.harts@[j].decode == old(self).harts@[j].decode
                    &&& self.harts@[j].links == old(self).harts@[j].links
                },
                forall|j: int| i <= j < n ==> #[trigger] self.harts@[j] == old(self).harts@[j],
            decreases n - i,
        {
            let mut h = self.harts.remove(i);
            h.cpu.cpu_state = state;
            self.harts.insert(i, h);
            i = i + 1;
        }
    }

    /// The `tohost` protocol: the word at `tohost` is read and cleared; an
    /// exit command stops every hart when the test passed and aborts them
    /// when it failed; a console command gives the character to print.
    /// Nothing happens without a `tohost` address, or when the word there
    /// cannot be read and cleared.
    pub fn check_to_host(&mut self) -> (r: Option<u8>)
        ensures
            final(self).tohost == old(self).tohost,
            match old(self).tohost {
                None => r is None && final(self).bus == old(self).bus && final(self).harts@ == old(self).harts@,
                Some(t) => if !bus_read_ok(old(self).bus, t, 8) {
                    r is None && final(self).bus == old(self).bus && final(self).harts@ == old(self).harts@
                } else {
                    exists|b1: Bus<D>, v: Result<u64, RVerr>| {
                        &&& #[trigger] bus_read_post(old(self).bus, b1, t, 8, v)
                        &&& match v {
                            Err(_) => r is None && final(self).bus == b1 && final(self).harts@ == old(self).harts@,
                            Ok(data) => if !bus_write_ok(b1, t, 0, 8) {
                                r is None && final(self).bus == b1 && final(self).harts@ == old(self).harts@
                            } else {
                                let cmd = FesvrCmd(data);
                                &&& exists|w: Result<u64, RVerr>| #[trigger] bus_write_post(b1, final(self).bus, t, 0, 8, w)
                                &&& match cmd.exit_status() {
                                    Some(true) => harts_set(old(self).harts@, final(self).harts@, CpuState::Stop),
                                    Some(false) => harts_set(old(self).harts@, final(self).harts@, CpuState::Abort),
                                    None => final(self).harts@ == old(self).harts@,
                                }
                                &&& r == cmd.console_char()
                            },
                        }
                    }
                },
            },
    {
        let t = match self.tohost {
            Some(t) => t,
            None => return None,
        };
        if !self.bus.can_read(t, 8) {
            return None;
        }
        let ghost b0 = self.bus;
        let v = self.bus.read(t, 8);
        let ghost b1 = self.bus;
        assert(bus_read_post(b0, b1, t, 8, v));
        let data = match v {
            Ok(d) => d,
            Err(_) => return None,
        };
        if !self.bus.can_write(t, 0, 8) {
            return None;
        }
        let w = self.bus.write(t, 0, 8);
        assert(bus_write_post(b1, self.bus, t, 0, 8, w));
        let cmd = FesvrCmd(data);
        match cmd.syscall_device() {
            Some(pass) => {
                if pass {
                    self.set_harts_state(CpuState::Stop);
                } else {
                    self.set_harts_state(CpuState::Abort);
                }
            },
            None => {},
        }
        cmd.character_device_write()
    }

    /// Whether some hart has stopped.
    pub fn is_finish(&self) -> (r: bool)
        ensures
            r == exists|i: int| 0 <= i < self.harts@.len() && #[trigger] self.harts@[i].cpu.cpu_state == CpuState::Stop,
    {
        let mut i: usize = 0;
        while i < self.harts.len()
            invariant
                0 <= i <= self.harts@.len(),
                forall|j: int| 0 <= j < i ==> #[trigger] self.harts@[j].cpu.cpu_state != CpuState::Stop,
            decreases self.harts@.len() - i,
        {
            if self.harts[i].cpu.cpu_state == CpuState::Stop {
                return true;
            }
            i = i + 1;
        }
        false
    }

    /// Whether every hart has stopped.
    pub fn is_exit_normal(&self) -> (r: bool)
        ensures
            r == forall|i: int| 0 <= i < self.harts@.len() ==> #[trigger] self.harts@[i].cpu.cpu_state == CpuState::Stop,
    {
        let mut i: usize = 0;
        while i < self.harts.len()
            invariant
                0 <= i <= self.harts@.len(),
                forall|j: int| 0 <= j < i ==> #[trigger] self.harts@[j].cpu.cpu_state == CpuState::Stop,
            decreases self.harts@.len() - i,
        {
            if self.harts[i].cpu.cpu_state != CpuState::Stop {
                return false;
            }
            i = i + 1;
        }
        true
    }

    pub fn set_signature_file(&mut self, file_name: String)
        ensures
            final(self).signature_file == Some(file_name),
            final(self).bus == old(self).bus,
            final(self).harts@ == old(self).harts@,
            final(self).tohost == old(self).tohost,
    {
        self.signature_file = Some(file_name);
    }
    /// The words of the signature range, read 4 bytes at a time, for the
    /// signature file; the first word that cannot be read ends them.
    pub fn signature_words(&mut self) -> (r: Vec<u64>)
        ensures
            match old(self).signature_range {
                None => r@.len() == 0 && final(self).bus == old(self).bus,
                Some((b, e)) => signature_post(old(self).bus, final(self).bus, b, e, r@),
            },
            final(self).harts@ == old(self).harts@,
    {
        let mut words: Vec<u64> = Vec::new();
        let (b, e) = match self.signature_range {
            Some(range) => range,
            None => return words,
        };
        let mut addr = b;
        let ghost b0 = self.bus;
        proof {
            assert(words@ + Seq::<u64>::empty() == words@);
        }
        loop
            invariant_except_break
                forall|n: Bus<D>, w: Seq<u64>| #[trigger] signature_post(self.bus, n, addr, e, w)
                    ==> signature_post(b0, n, b, e, words@ + w),
            invariant
                self.harts@ == old(self).harts@,
                b0 == old(self).bus,
                old(self).signature_range == Some((b, e)),
            ensures
                signature_post(b0, self.bus, b, e, words@),
            decreases e - addr,
        {
            let ghost m0 = self.bus;
            if addr >= e || !self.bus.can_read(addr, 4) {
                assert(signature_post(m0, m0, addr, e, Seq::<u64>::empty()));
                assert(words@ + Seq::<u64>::empty() == words@);
                break;
            }
            let v = self.bus.read(addr, 4);
            let ghost m1 = self.bus;
            assert(bus_read_post(m0, m1, addr, 4, v));
            match v {
                Ok(x) => {
                    let ghost before = words@;
                    words.push(x);
                    if e - addr <= 4 {
                        assert(signature_post(m0, m1, addr, e, seq![x]));
                        assert(before + seq![x] == words@);
                        break;
                    }
                    assert forall|n: Bus<D>, w: Seq<u64>| #[trigger] signature_post(m1, n, (addr + 4) as u64, e, w)
                        implies signature_post(b0, n, b, e, words@ + w) by {
                        assert((seq![x] + w).drop_first() == w);
                        assert(signature_post(m0, n, addr, e, seq![x] + w));
                        assert(before + (seq![x] + w) == words@ + w);
                    }
                    addr = addr + 4;
                },
                Err(_) => {
                    assert(signature_post(m0, m1, addr, e, Seq::<u64>::empty()));
                    assert(words@ + Seq::<u64>::empty() == words@);
                    break;
                },
            }
        }
        words
    }
}

} // verus!
