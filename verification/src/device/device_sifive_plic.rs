//! The SiFive platform-level interrupt controller (PLIC): interrupt sources
//! with priorities and pending bits, and per-hart contexts with enable bits,
//! a priority threshold and a claim/complete register.
use vstd::prelude::*;
use super::device_trait::{DeviceBase, bytewise_read, bytewise_write};
use crate::bits::{field, flag, with_flag, get_field, set_field32, lemma_field_bound};
use crate::rv64core::csr_regs_define::XipIn;

verus! {

broadcast use {lemma_field_bound, vstd::array::group_array_axioms};

pub const PRIORITY_BASE: u64 = 0;
pub const PRIORITY_END: u64 = 0xfff;
pub const PENDING_BASE: u64 = 0x1000;
pub const PENDING_END: u64 = 0x1fff;
pub const ENABLE_BASE: u64 = 0x2000;
pub const ENABLE_PER_HART: u64 = 0x80;
pub const ENABLE_END: u64 = 0x1f_ffff;
pub const CONTEXT_BASE: u64 = 0x20_0000;
pub const CONTEXT_PER_HART: u64 = 0x1000;
pub const CONTEXT_THRESHOLD: u64 = 0;
pub const CONTEXT_CLAIM: u64 = 4;
pub const CONTEXT_END: u64 = 0xff_ffff;
pub const REG_SIZE: u64 = 0x100_0000;

pub const SIFIVE_UART_IRQ: u32 = 10;

/// An interrupt source: its number and whether its line is raised.
#[derive(Clone, Copy, PartialEq, Eq, Debug, Structural)]
pub struct IrqSource {
    pub id: u32,
    pub pending: bool,
}

/// An interrupt priority register: the priority in bits 0..3.
#[derive(Clone, Copy, PartialEq, Eq, Debug, Structural)]
pub struct IrqPriority(pub u32);

/// The priority held by priority register value `v`.
pub open spec fn priority_of(v: IrqPriority) -> u8 {
    field(v.0 as u64, 0, 3) as u8
}

impl IrqPriority {
    pub fn new() -> (r: Self)
        ensures
            r.0 == 0,
    {
        IrqPriority(0)
    }

    pub fn get(&self) -> (r: u8)
        ensures
            r == priority_of(*self),
            r < 8,
    {
        get_field(self.0 as u64, 0, 3) as u8
    }

    /// Sets the priority; it must fit in three bits.
    pub fn set(&mut self, priority: u8)
        requires
            priority < 8,
        ensures
            priority_of(*final(self)) == priority,
            final(self).0 as u64 == crate::bits::with_field(old(self).0 as u64, 0, 3, priority as u64),
    {
        self.0 = set_field32(self.0, 0, 3, priority as u64);
        proof {
            crate::bits::lemma_field_of_with_field(old(self).0 as u64, 0, 3, priority as u64);
            crate::bits::lemma_low_mask_values();
        }
    }
}

/// A word of 32 pending (or enable) bits.
#[derive(Clone, Copy, PartialEq, Eq, Debug, Structural)]
pub struct IrqPending {
    pub val: u32,
}

/// Bit `i` of `v`.
pub open spec fn bit_of(v: u32, i: u32) -> bool {
    v & (1u32 << i) != 0
}

impl IrqPending {
    pub fn new() -> (r: Self)
        ensures
            r.val == 0,
    {
        IrqPending { val: 0 }
    }

    pub fn set_bool(&mut self, irq_id: u32, val: bool)
        requires
            irq_id < 32,
        ensures
            final(self).val == (if val { old(self).val | (1u32 << irq_id) } else { old(self).val & !(1u32 << irq_id) }),
    {
        if val {
            self.set_bit(irq_id);
        } else {
            self.clear_bit(irq_id);
        }
    }

    pub fn set_bit(&mut self, irq_id: u32)
        requires
            irq_id < 32,
        ensures
            final(self).val == old(self).val | (1u32 << irq_id),
    {
        self.val = self.val | (1u32 << irq_id);
    }

    pub fn clear_bit(&mut self, irq_id: u32)
        requires
            irq_id < 32,
        ensures
            final(self).val == old(self).val & !(1u32 << irq_id),
    {
        self.val = self.val & !(1u32 << irq_id);
    }

    pub fn get_bit(&self, irq_id: u32) -> (r: bool)
        requires
            irq_id < 32,
        ensures
            r == bit_of(self.val, irq_id),
    {
        (self.val & (1u32 << irq_id)) != 0
    }

    pub fn set_all(&mut self, val: u32)
        ensures
            final(self).val == val,
    {
        self.val = val;
    }

    pub fn get_all(&self) -> (r: u32)
        ensures
            r == self.val,
    {
        self.val
    }
}

/// The enable bits of a context are laid out as the pending bits are.
pub type IrqEnable = IrqPending;

/// A priority threshold register: the threshold in bits 0..3.
#[derive(Clone, Copy, PartialEq, Eq, Debug, Structural)]
pub struct IrqThreshold(pub u32);

/// The threshold held by threshold register value `v`.
pub open spec fn threshold_of(v: IrqThreshold) -> u32 {
    field(v.0 as u64, 0, 3) as u32
}

impl IrqThreshold {
    pub fn new() -> (r: Self)
        ensures
            r.0 == 0,
    {
        IrqThreshold(0)
    }

    pub fn get_all(&self) -> (r: u32)
        ensures
            r == threshold_of(*self),
            r < 8,
    {
        get_field(self.0 as u64, 0, 3) as u32
    }

    /// Sets the threshold to the low byte of `val`, which must fit in three bits.
    pub fn set_all(&mut self, val: u32)
        requires
            val % 256 < 8,
        ensures
            threshold_of(*final(self)) == val % 256,
            final(self).0 as u64 == crate::bits::with_field(old(self).0 as u64, 0, 3, (val % 256) as u64),
    {
        let v = (val % 256) as u64;
        self.0 = set_field32(self.0, 0, 3, v);
        proof {
            crate::bits::lemma_field_of_with_field(old(self).0 as u64, 0, 3, v);
            crate::bits::lemma_low_mask_values();
        }
    }
}

pub struct DevicePlic {
    pub start: u64,
    pub len: u64,
    pub instance: SifvePlic,
    pub name: &'static str,
}

/// A hart context: whether it is the hart's M-mode (else S-mode) context,
/// the interrupt-pending lines it drives (`MEIP` or `SEIP`), its threshold,
/// its enable bits for sources 0..32 and 32..64, and the last source it claimed.
#[derive(Clone, Copy, PartialEq, Eq, Debug, Structural)]
pub struct PlicContext {
    pub mmode: bool,
    pub xip: XipIn,
    pub threshold: IrqThreshold,
    pub enable_lo: IrqEnable,
    pub enable_hi: IrqEnable,
    pub claim: u32,
}

/// Enable word `w` (0 or 1) of context `c`.
pub open spec fn enable_word(c: PlicContext, w: int) -> IrqEnable {
    if w == 0 { c.enable_lo } else { c.enable_hi }
}

/// Context `c` with enable word `w` replaced by `e`.
pub open spec fn with_enable_word(c: PlicContext, w: int, e: IrqEnable) -> PlicContext {
    if w == 0 { PlicContext { enable_lo: e, ..c } } else { PlicContext { enable_hi: e, ..c } }
}

/// Whether context `c` enables source `id`.
pub open spec fn enabled(c: PlicContext, id: u32) -> bool {
    bit_of(enable_word(c, (id / 32) as int).val, id % 32)
}

/// Context `c` with its external-interrupt line set to `level`.
pub open spec fn context_with_line(c: PlicContext, level: bool) -> PlicContext {
    PlicContext { xip: XipIn(with_flag(c.xip.0, if c.mmode { 11 } else { 9 }, level)), ..c }
}

impl PlicContext {
    pub fn new(xip_share: XipIn, mmode: bool) -> (r: Self)
        ensures
            r.mmode == mmode,
            r.xip == xip_share,
            r.threshold.0 == 0,
            r.enable_lo.val == 0,
            r.enable_hi.val == 0,
            r.claim == 0,
    {
        PlicContext {
            threshold: IrqThreshold::new(),
            enable_lo: IrqPending::new(),
            enable_hi: IrqPending::new(),
            claim: 0,
            mmode,
            xip: xip_share,
        }
    }

    pub fn get_enable_by_id(&self, irq_id: u32) -> (r: bool)
        requires
            irq_id < 64,
        ensures
            r == enabled(*self, irq_id),
    {
        if irq_id < 32 {
            self.enable_lo.get_bit(irq_id % 32)
        } else {
            self.enable_hi.get_bit(irq_id % 32)
        }
    }

    /// Drives the context's line: `MEIP` for an M-mode context, `SEIP` otherwise.
    pub fn update_xip(&mut self, level: bool)
        ensures
            *final(self) == context_with_line(*old(self), level),
    {
        if self.mmode {
            self.xip.set_meip(level);
        } else {
            self.xip.set_seip(level);
        }
    }
}

/// The model of the PLIC: sources, priority registers (64), pending words
/// (2), claimed flags (64) and contexts.
pub type PlicModel = (Seq<IrqSource>, Seq<IrqPriority>, Seq<IrqPending>, Seq<bool>, Seq<PlicContext>);

pub struct SifvePlic {
    irq_sources: Vec<IrqSource>,
    vec_irq_priority: [IrqPriority; 64],
    irq_pending: [IrqPending; 2],
    claimed: [bool; 64],
    context: Vec<PlicContext>,
}

/// Every source of `s` has a number below 64.
pub open spec fn sources_in_range(s: Seq<IrqSource>) -> bool {
    forall|i: int| 0 <= i < s.len() ==> #[trigger] s[i].id < 64
}

/// No two sources share a number.
pub open spec fn sources_distinct(s: Seq<IrqSource>) -> bool {
    forall|i: int, j: int| 0 <= i < j < s.len() ==> #[trigger] s[i].id != #[trigger] s[j].id
}

/// What holds of every PLIC: its sources are numbered below 64, no two
/// alike, and no context enables source 0 (which is reserved).
pub open spec fn plic_wf(m: PlicModel) -> bool {
    &&& sources_in_range(m.0)
    &&& sources_distinct(m.0)
    &&& forall|k: int| 0 <= k < m.4.len() ==> !enabled(#[trigger] m.4[k], 0)
}

/// No context of a PLIC ever enables source 0.
pub proof fn lemma_plic_source0_never_enabled(m: PlicModel, k: int)
    requires
        plic_wf(m),
        0 <= k < m.4.len(),
    ensures
        !enabled(m.4[k], 0),
{
}

/// After a tick of a PLIC, the pending bit of each registered source is its line.
pub proof fn lemma_tick_pending_registered(s: Seq<IrqSource>, pend: Seq<IrqPending>, k: int)
    requires
        sources_in_range(s),
        sources_distinct(s),
        pend.len() == 2,
        0 <= k < s.len(),
    ensures
        bit_of(pending_after_tick(s, pend, s.len() as int)[(s[k].id / 32) as int].val, s[k].id % 32) == s[k].pending,
{
    let id = s[k].id;
    assert forall|k2: int| k < k2 < s.len() implies #[trigger] s[k2].id != id by {
        assert(s[k].id != s[k2].id);
    }
    lemma_tick_pending_bit(s, pend, s.len() as int, id);
}

/// Source `id` is registered in `s`.
pub open spec fn registered(s: Seq<IrqSource>, id: u32) -> bool {
    exists|i: int| 0 <= i < s.len() && #[trigger] s[i].id == id
}

/// Source `s` may interrupt context `c`: it is pending and enabled there.
pub open spec fn eligible(s: IrqSource, c: PlicContext) -> bool {
    s.pending && enabled(c, s.id)
}

/// The claim search over the first `n` sources: the number and priority of
/// the best eligible source so far, and its position (-1 for none). A source
/// beats the best so far by a higher priority, or by the same priority and a
/// lower number; the search starts from number 0 at priority 0.
pub open spec fn claim_search(s: Seq<IrqSource>, prio: Seq<IrqPriority>, c: PlicContext, n: int) -> (u32, u8, int)
    decreases n,
{
    if n <= 0 {
        (0, 0, -1)
    } else {
        let (id, p, k) = claim_search(s, prio, c, n - 1);
        let src = s[n - 1];
        let q = priority_of(prio[src.id as int]);
        if eligible(src, c) && (q > p || (q == p && src.id < id)) {
            (src.id, q, n - 1)
        } else {
            (id, p, k)
        }
    }
}

/// Whether context `c` sees an interrupt: some source is eligible with a
/// priority above the context's threshold.
pub open spec fn context_interrupt(s: Seq<IrqSource>, prio: Seq<IrqPriority>, c: PlicContext) -> bool {
    exists|i: int| 0 <= i < s.len() && eligible(#[trigger] s[i], c)
        && priority_of(prio[s[i].id as int]) > threshold_of(c.threshold) as u8
}

/// The pending words after a tick: bit `id` is each source's line.
pub open spec fn pending_after_tick(s: Seq<IrqSource>, pend: Seq<IrqPending>, n: int) -> Seq<IrqPending>
    decreases n,
{
    if n <= 0 {
        pend
    } else {
        let p = pending_after_tick(s, pend, n - 1);
        let src = s[n - 1];
        let w = p[(src.id / 32) as int].val;
        let b = 1u32 << (src.id % 32);
        p.update((src.id / 32) as int, IrqPending { val: if src.pending { w | b } else { w & !b } })
    }
}

/// After a tick, the pending bit of source number `id` is the line of
/// the last registered source with that number; the bit of a number no
/// source has is left as it was.
pub proof fn lemma_tick_pending_bit(s: Seq<IrqSource>, pend: Seq<IrqPending>, n: int, id: u32)
    requires
        sources_in_range(s),
        pend.len() == 2,
        0 <= n <= s.len(),
        id < 64,
    ensures
        pending_after_tick(s, pend, n).len() == 2,
        forall|k: int| 0 <= k < n && s[k].id == id && (forall|k2: int| k < k2 < n ==> #[trigger] s[k2].id != id)
            ==> bit_of(pending_after_tick(s, pend, n)[(id / 32) as int].val, id % 32) == s[k].pending,
        (forall|k: int| 0 <= k < n ==> #[trigger] s[k].id != id)
            ==> bit_of(pending_after_tick(s, pend, n)[(id / 32) as int].val, id % 32) == bit_of(pend[(id / 32) as int].val, id % 32),
    decreases n,
{
    if n > 0 {
        lemma_tick_pending_bit(s, pend, n - 1, id);
        let p = pending_after_tick(s, pend, n - 1);
        let src = s[n - 1];
        assert(src.id < 64);
        let w = p[(src.id / 32) as int].val;
        let b = 1u32 << (src.id % 32);
        let nw = if src.pending { w | b } else { w & !b };
        let i = id % 32;
        let j = src.id % 32;
        let on = src.pending;
        assert(bit_of(nw, j) == on) by (bit_vector)
            requires j < 32, b == 1u32 << j, nw == (if on { w | b } else { w & !b });
        if src.id / 32 == id / 32 && src.id != id {
            assert(i != j);
            assert(bit_of(nw, i) == bit_of(w, i)) by (bit_vector)
                requires i < 32, j < 32, i != j, b == 1u32 << j, nw == (if on { w | b } else { w & !b });
        }
    }
}

/// A write of `v` to enable word `w` of context `k` makes the context's
/// enable bit of source `32 * w + b` bit `b` of `v`, except that source 0
/// is never enabled.
pub proof fn lemma_enable_write(m: PlicModel, k: int, w: int, v: u64, b: u32)
    requires
        0 <= k < m.4.len(),
        ENABLE_BASE + ENABLE_PER_HART * k + 8 <= ENABLE_END + 1,
        0 <= w < 2,
        b < 32,
    ensures
        ({
            let addr = (ENABLE_BASE + ENABLE_PER_HART * k + 4 * w) as u64;
            let n = plic_write_model(m, addr, v);
            &&& n.4.len() == m.4.len()
            &&& enabled(n.4[k], (32 * w + b) as u32) == (if w == 0 && b == 0 { false } else { bit_of(v as u32, b) })
            &&& forall|c: int| 0 <= c < m.4.len() && c != k ==> #[trigger] n.4[c] == m.4[c]
        }),
{
    let addr = (ENABLE_BASE + ENABLE_PER_HART * k + 4 * w) as u64;
    assert(addr == ENABLE_BASE + ENABLE_PER_HART * k + 4 * w);
    assert(addr > PENDING_END && addr <= ENABLE_END);
    assert((addr - ENABLE_BASE) == 0x80 * k + 4 * w);
    assert((0x80 * k + 4 * w) / 0x80 == k && ((0x80 * k + 4 * w) % 0x80) / 4 == w) by (nonlinear_arith)
        requires 0 <= k, 0 <= w < 2;
    let x = v as u32;
    assert(bit_of(x & !1u32, b) == (if b == 0 { false } else { bit_of(x, b) })) by (bit_vector)
        requires b < 32;
    assert((32 * w + b) as u32 / 32 == w && (32 * w + b) as u32 % 32 == b);
}

/// The model after a claim by context `ctx`.
pub open spec fn claim_model(m: PlicModel, ctx: int) -> (PlicModel, u32) {
    let c = m.4[ctx];
    let (id, p, k) = claim_search(m.0, m.1, c, m.0.len() as int);
    if m.3[id as int] {
        (m, 0)
    } else {
        let srcs = if k >= 0 { m.0.update(k, IrqSource { pending: false, ..m.0[k] }) } else { m.0 };
        ((srcs, m.1, m.2, m.3.update(id as int, true), m.4.update(ctx, PlicContext { claim: id, ..c })), id)
    }
}

/// The PLIC accesses that are answered or taken: four bytes at a register
/// that exists, and for writes a value the register can hold.
pub open spec fn plic_access_ok(m: PlicModel, addr: u64, len: usize) -> bool {
    &&& len == 4
    &&& {
        ||| addr <= PRIORITY_END && addr / 4 < 64
        ||| PENDING_BASE <= addr <= PENDING_END && (addr - PENDING_BASE) / 4 < 2
        ||| ENABLE_BASE <= addr <= ENABLE_END && ((addr - ENABLE_BASE) % (ENABLE_PER_HART as int)) / 4 < 2
            && (addr - ENABLE_BASE) / (ENABLE_PER_HART as int) < m.4.len()
        ||| CONTEXT_BASE <= addr <= CONTEXT_END && (addr - CONTEXT_BASE) / (CONTEXT_PER_HART as int) < m.4.len()
            && ((addr - CONTEXT_BASE) % (CONTEXT_PER_HART as int) == CONTEXT_THRESHOLD
                || (addr - CONTEXT_BASE) % (CONTEXT_PER_HART as int) == CONTEXT_CLAIM)
    }
}

/// The PLIC after a read, and the value read.
pub open spec fn plic_read_model(m: PlicModel, addr: u64) -> (PlicModel, u64) {
    if addr <= PRIORITY_END {
        (m, priority_of(m.1[(addr / 4) as int]) as u64)
    } else if addr <= PENDING_END {
        (m, m.2[((addr - PENDING_BASE) / 4) as int].val as u64)
    } else if addr <= ENABLE_END {
        let c = m.4[((addr - ENABLE_BASE) / (ENABLE_PER_HART as int)) as int];
        (m, enable_word(c, ((addr - ENABLE_BASE) % (ENABLE_PER_HART as int)) / 4).val as u64)
    } else {
        let ctx = ((addr - CONTEXT_BASE) / (CONTEXT_PER_HART as int)) as int;
        if (addr - CONTEXT_BASE) % (CONTEXT_PER_HART as int) == CONTEXT_THRESHOLD {
            (m, threshold_of(m.4[ctx].threshold) as u64)
        } else {
            let (m2, id) = claim_model(m, ctx);
            (m2, id as u64)
        }
    }
}

/// The values a PLIC write takes: a priority or threshold in three bits, a
/// completed source number below 64.
pub open spec fn plic_value_ok(addr: u64, data: u64) -> bool {
    if addr <= PRIORITY_END {
        (data as u32) % 256 < 8
    } else if CONTEXT_BASE <= addr <= CONTEXT_END {
        if (addr - CONTEXT_BASE) % (CONTEXT_PER_HART as int) == CONTEXT_THRESHOLD {
            (data as u32) % 256 < 8
        } else {
            (data as u32) < 64
        }
    } else {
        true
    }
}

/// The PLIC after a write.
pub open spec fn plic_write_model(m: PlicModel, addr: u64, data: u64) -> PlicModel {
    let v = data as u32;
    if addr <= PRIORITY_END {
        let i = (addr / 4) as int;
        (m.0, m.1.update(i, IrqPriority(crate::bits::with_field(m.1[i].0 as u64, 0, 3, (v % 256) as u64) as u32)), m.2, m.3, m.4)
    } else if addr <= PENDING_END {
        m
    } else if addr <= ENABLE_END {
        let ctx = ((addr - ENABLE_BASE) / (ENABLE_PER_HART as int)) as int;
        let w = (((addr - ENABLE_BASE) % (ENABLE_PER_HART as int)) / 4) as int;
        let c = m.4[ctx];
        let nv = if w == 0 { v & !1u32 } else { v };
        (m.0, m.1, m.2, m.3, m.4.update(ctx, with_enable_word(c, w, IrqPending { val: nv })))
    } else {
        let ctx = ((addr - CONTEXT_BASE) / (CONTEXT_PER_HART as int)) as int;
        if (addr - CONTEXT_BASE) % (CONTEXT_PER_HART as int) == CONTEXT_THRESHOLD {
            (m.0, m.1, m.2, m.3, m.4.update(ctx, PlicContext { threshold: IrqThreshold(crate::bits::with_field(m.4[ctx].threshold.0 as u64, 0, 3, (v % 256) as u64) as u32), ..m.4[ctx] }))
        } else {
            (m.0, m.1, m.2, m.3.update(v as int, false), m.4)
        }
    }
}

impl View for SifvePlic {
    type V = PlicModel;

    closed spec fn view(&self) -> PlicModel {
        (self.irq_sources@, self.vec_irq_priority@, self.irq_pending@, self.claimed@, self.context@)
    }
}

impl SifvePlic {
    #[verifier::type_invariant]
    closed spec fn inv(self) -> bool {
        &&& sources_in_range(self.irq_sources@)
        &&& sources_distinct(self.irq_sources@)
        &&& forall|k: int| 0 <= k < self.context@.len() ==> !enabled(#[trigger] self.context@[k], 0)
    }

    pub fn new() -> (r: Self)
        ensures
            r@.0 == Seq::<IrqSource>::empty(),
            r@.1 == Seq::new(64, |i: int| IrqPriority(0)),
            r@.2 == seq![IrqPending { val: 0 }, IrqPending { val: 0 }],
            r@.3 == Seq::new(64, |i: int| false),
            r@.4 == Seq::<PlicContext>::empty(),
    {
        let r = SifvePlic {
            irq_sources: Vec::new(),
            vec_irq_priority: [IrqPriority(0); 64],
            irq_pending: [IrqPending::new(), IrqPending::new()],
            claimed: [false; 64],
            context: Vec::new(),
        };
        assert(r@.1 == Seq::new(64, |i: int| IrqPriority(0)));
        assert(r@.3 == Seq::new(64, |i: int| false));
        r
    }

    /// The interrupt-pending lines context `ctx` drives.
    pub fn context_xip(&self, ctx: usize) -> (r: XipIn)
        requires
            ctx < self@.4.len(),
        ensures
            r == self@.4[ctx as int].xip,
    {
        self.context[ctx].xip
    }

    /// Whether source `irq_id` is registered.
    pub fn is_registered(&self, irq_id: u32) -> (r: bool)
        ensures
            r == registered(self@.0, irq_id),
    {
        let mut i: usize = 0;
        while i < self.irq_sources.len()
            invariant
                0 <= i <= self.irq_sources@.len(),
                forall|j: int| 0 <= j < i ==> #[trigger] self.irq_sources@[j].id != irq_id,
            decreases self.irq_sources@.len() - i,
        {
            if self.irq_sources[i].id == irq_id {
                return true;
            }
            i = i + 1;
        }
        false
    }

    /// Registers source `irq_id` with its line at `irq_pending`; the number
    /// must be below 64 and not registered yet.
    pub fn register_irq_source(&mut self, irq_id: u32, irq_pending: bool)
        requires
            irq_id < 64,
            !registered(old(self)@.0, irq_id),
        ensures
            plic_wf(final(self)@),
            final(self)@ == (old(self)@.0.push(IrqSource { id: irq_id, pending: irq_pending }), old(self)@.1, old(self)@.2, old(self)@.3, old(self)@.4),
    {
        proof {
            use_type_invariant(&*self);
        }
        let mut srcs = Vec::new();
        std::mem::swap(&mut srcs, &mut self.irq_sources);
        srcs.push(IrqSource { id: irq_id, pending: irq_pending });
        self.irq_sources = srcs;
    }

    /// Sets the line of every source numbered `irq_id` to `level`.
    pub fn set_source_pending(&mut self, irq_id: u32, level: bool)
        ensures
            plic_wf(final(self)@),
            final(self)@.0.len() == old(self)@.0.len(),
            forall|i: int| 0 <= i < old(self)@.0.len() ==> #[trigger] final(self)@.0[i] == (if old(self)@.0[i].id == irq_id {
                IrqSource { id: irq_id, pending: level }
            } else {
                old(self)@.0[i]
            }),
            final(self)@.1 == old(self)@.1,
            final(self)@.2 == old(self)@.2,
            final(self)@.3 == old(self)@.3,
            final(self)@.4 == old(self)@.4,
    {
        proof {
            use_type_invariant(&*self);
        }
        let mut srcs = Vec::new();
        std::mem::swap(&mut srcs, &mut self.irq_sources);
        let n = srcs.len();
        let mut i: usize = 0;
        while i < n
            invariant
                0 <= i <= n,
                n == srcs@.len(),
                n == old(self)@.0.len(),
                forall|j: int| 0 <= j < i ==> #[trigger] srcs@[j] == (if old(self)@.0[j].id == irq_id {
                    IrqSource { id: irq_id, pending: level }
                } else {
                    old(self)@.0[j]
                }),
                forall|j: int| i <= j < n ==> #[trigger] srcs@[j] == old(self)@.0[j],
            decreases n - i,
        {
            if srcs[i].id == irq_id {
                srcs.set(i, IrqSource { id: irq_id, pending: level });
            }
            i = i + 1;
        }
        self.irq_sources = srcs;
    }

    /// Adds a hart context; returns its index.
    pub fn add_context(&mut self, xip_share: XipIn, mmode: bool) -> (r: usize)
        ensures
            plic_wf(final(self)@),
            r == old(self)@.4.len(),
            final(self)@.0 == old(self)@.0,
            final(self)@.1 == old(self)@.1,
            final(self)@.2 == old(self)@.2,
            final(self)@.3 == old(self)@.3,
            final(self)@.4 == old(self)@.4.push(PlicContext {
                mmode,
                xip: xip_share,
                threshold: IrqThreshold(0),
                enable_lo: IrqPending { val: 0 },
                enable_hi: IrqPending { val: 0 },
                claim: 0,
            }),
    {
        proof {
            use_type_invariant(&*self);
        }
        let r = self.context.len();
        let c = PlicContext::new(xip_share, mmode);
        let mut ctxs = Vec::new();
        std::mem::swap(&mut ctxs, &mut self.context);
        let ghost before = ctxs@;
        ctxs.push(c);
        proof {
            assert(0u32 & (1u32 << 0u32) == 0u32) by (bit_vector);
            assert(!enabled(c, 0));
            assert forall|k: int| 0 <= k < ctxs@.len() implies !enabled(#[trigger] ctxs@[k], 0) by {
                if k < before.len() {
                    assert(ctxs@[k] == before[k]);
                }
            }
        }
        self.context = ctxs;
        r
    }
}


/// The claim search finds the eligible source of highest priority, the
/// lowest-numbered one among equals; a source at priority 0 is never
/// claimed, and with none eligible above priority 0 the search gives number 0.
pub proof fn lemma_claim_picks_highest_priority(s: Seq<IrqSource>, prio: Seq<IrqPriority>, c: PlicContext, n: int)
    requires
        0 <= n <= s.len(),
        sources_in_range(s),
        prio.len() == 64,
    ensures
        ({
            let (id, p, k) = claim_search(s, prio, c, n);
            &&& k == -1 ==> id == 0 && p == 0
            &&& k != -1 ==> 0 <= k < n && s[k].id == id && eligible(s[k], c) && priority_of(prio[id as int]) == p && p > 0
            &&& forall|j: int| 0 <= j < n && eligible(#[trigger] s[j], c) ==>
                priority_of(prio[s[j].id as int]) < p || (priority_of(prio[s[j].id as int]) == p && id <= s[j].id)
            &&& id < 64
        }),
    decreases n,
{
    if n > 0 {
        lemma_claim_picks_highest_priority(s, prio, c, n - 1);
    }
}

impl SifvePlic {
    /// Copies each source's line into the pending bits, then drives each
    /// context's line to whether it sees an interrupt.
    pub fn tick(&mut self)
        ensures
            plic_wf(final(self)@),
            final(self)@.0 == old(self)@.0,
            final(self)@.1 == old(self)@.1,
            final(self)@.2 == pending_after_tick(old(self)@.0, old(self)@.2, old(self)@.0.len() as int),
            final(self)@.3 == old(self)@.3,
            final(self)@.4.len() == old(self)@.4.len(),
            forall|i: int| 0 <= i < old(self)@.4.len() ==> #[trigger] final(self)@.4[i]
                == context_with_line(old(self)@.4[i], context_interrupt(old(self)@.0, old(self)@.1, old(self)@.4[i])),
    {
        proof {
            use_type_invariant(&*self);
        }
        let n = self.irq_sources.len();
        let mut pend = self.irq_pending;
        let mut i: usize = 0;
        while i < n
            invariant
                0 <= i <= n,
                n == self.irq_sources@.len(),
                sources_in_range(self.irq_sources@),
                pend@ == pending_after_tick(self.irq_sources@, self.irq_pending@, i as int),
                pend@.len() == 2,
            decreases n - i,
        {
            let item = self.irq_sources[i];
            let w = (item.id / 32) as usize;
            let mut word = pend[w];
            word.set_bool(item.id % 32, item.pending);
            pend[w] = word;
            i = i + 1;
        }
        self.irq_pending = pend;
        let mut ctxs = Vec::new();
        std::mem::swap(&mut ctxs, &mut self.context);
        let nc = ctxs.len();
        let mut ci: usize = 0;
        while ci < nc
            invariant
                0 <= ci <= nc,
                nc == ctxs@.len(),
                nc == old(self)@.4.len(),
                n == self.irq_sources@.len(),
                self.irq_sources@ == old(self)@.0,
                self.vec_irq_priority@ == old(self)@.1,
                sources_in_range(self.irq_sources@),
                forall|j: int| 0 <= j < ci ==> #[trigger] ctxs@[j]
                    == context_with_line(old(self)@.4[j], context_interrupt(old(self)@.0, old(self)@.1, old(self)@.4[j])),
                forall|j: int| ci <= j < nc ==> #[trigger] ctxs@[j] == old(self)@.4[j],
            decreases nc - ci,
        {
            let mut c = ctxs[ci];
            let threshold = c.threshold.get_all() as u8;
            let mut found = false;
            let mut k: usize = 0;
            while k < n && !found
                invariant
                    0 <= k <= n,
                    n == self.irq_sources@.len(),
                    sources_in_range(self.irq_sources@),
                    c == old(self)@.4[ci as int],
                    threshold == threshold_of(c.threshold) as u8,
                    self.irq_sources@ == old(self)@.0,
                    self.vec_irq_priority@ == old(self)@.1,
                    found ==> context_interrupt(old(self)@.0, old(self)@.1, c),
                    !found ==> forall|j: int| 0 <= j < k ==> !(eligible(#[trigger] old(self)@.0[j], c)
                        && priority_of(old(self)@.1[old(self)@.0[j].id as int]) > threshold_of(c.threshold) as u8),
                decreases n - k + (if found { 0int } else { 1int }),
            {
                let item = self.irq_sources[k];
                let enable_bit = c.get_enable_by_id(item.id);
                let priority = self.vec_irq_priority[item.id as usize].get();
                if item.pending && enable_bit && priority > threshold {
                    found = true;
                } else {
                    k = k + 1;
                }
            }
            c.update_xip(found);
            ctxs.set(ci, c);
            ci = ci + 1;
        }
        self.context = ctxs;
    }

    fn priority_read(&self, offset: u32) -> (r: u32)
        requires
            offset / 4 < 64,
        ensures
            r == priority_of(self@.1[(offset / 4) as int]),
    {
        let idx_word = (offset / 4) as usize;
        self.vec_irq_priority[idx_word].get() as u32
    }

    fn priority_write(&mut self, offset: u32, val: u32)
        requires
            offset / 4 < 64,
            val % 256 < 8,
        ensures
            final(self)@ == plic_write_model(old(self)@, offset as u64, val as u64),
    {
        proof {
            use_type_invariant(&*self);
        }
        let idx_word = (offset / 4) as usize;
        let mut p = self.vec_irq_priority[idx_word];
        p.set((val % 256) as u8);
        self.vec_irq_priority[idx_word] = p;
    }

    fn pending_read(&self, offset: u32) -> (r: u32)
        requires
            offset / 4 < 2,
        ensures
            r == self@.2[(offset / 4) as int].val,
    {
        let idx_word = (offset / 4) as usize;
        self.irq_pending[idx_word].get_all()
    }

    /// The pending bits are read-only: a write changes nothing.
    fn pending_write(&mut self, _irq_id: u32, _val: u32)
        ensures
            final(self)@ == old(self)@,
    {
        proof {
            use_type_invariant(&*self);
        }
    }

    fn context_enbale_read(&self, offset: u32) -> (r: u32)
        requires
            (offset % 0x80) / 4 < 2,
            offset / 0x80 < self@.4.len(),
        ensures
            r == enable_word(self@.4[(offset / 0x80) as int], ((offset % 0x80) / 4) as int).val,
    {
        let context_idx = (offset / 0x80) as usize;
        let idx_word = ((offset % 0x80) / 4) as usize;
        let c = &self.context[context_idx];
        if idx_word == 0 {
            c.enable_lo.get_all()
        } else {
            c.enable_hi.get_all()
        }
    }

    /// Writes enable word; bit 0 of the first word (source 0) stays clear.
    fn context_enbale_write(&mut self, offset: u32, val: u32)
        requires
            offset <= ENABLE_END - ENABLE_BASE,
            (offset % 0x80) / 4 < 2,
            offset / 0x80 < old(self)@.4.len(),
        ensures
            final(self)@ == plic_write_model(old(self)@, (offset + ENABLE_BASE) as u64, val as u64),
    {
        proof {
            use_type_invariant(&*self);
        }
        let context_idx = (offset / 0x80) as usize;
        let idx_word = ((offset % 0x80) / 4) as usize;
        let ghost val0 = val;
        let val = if idx_word == 0 { val & !1u32 } else { val };
        let mut ctxs = Vec::new();
        std::mem::swap(&mut ctxs, &mut self.context);
        let mut c = ctxs[context_idx];
        if idx_word == 0 {
            c.enable_lo.set_all(val);
        } else {
            c.enable_hi.set_all(val);
        }
        proof {
            if idx_word == 0 {
                let v = val0;
                assert((v & !1u32) & (1u32 << 0u32) == 0u32) by (bit_vector);
            } else {
                assert(!enabled(old(self).context@[context_idx as int], 0));
            }
            assert(!enabled(c, 0));
        }
        let ghost before = ctxs@;
        ctxs.set(context_idx, c);
        proof {
            assert forall|k: int| 0 <= k < ctxs@.len() implies !enabled(#[trigger] ctxs@[k], 0) by {
                if k != context_idx {
                    assert(ctxs@[k] == before[k]);
                }
            }
        }
        self.context = ctxs;
        assert(((offset + ENABLE_BASE) as u64 as int - ENABLE_BASE) == offset);
    }

    fn context_read(&mut self, offset: u32) -> (r: u32)
        requires
            offset <= CONTEXT_END - CONTEXT_BASE,
            offset / 0x1000 < old(self)@.4.len(),
            offset % 0x1000 == CONTEXT_THRESHOLD || offset % 0x1000 == CONTEXT_CLAIM,
        ensures
            (final(self)@, r as u64) == plic_read_model(old(self)@, (offset + CONTEXT_BASE) as u64),
    {
        proof {
            use_type_invariant(&*self);
        }
        let context_idx = (offset / 0x1000) as usize;
        let context_offset = (offset % 0x1000) as u64;
        assert(((offset + CONTEXT_BASE) as u64 as int - CONTEXT_BASE) == offset);
        if context_offset == CONTEXT_THRESHOLD {
            self.context[context_idx].threshold.get_all()
        } else {
            self.context_claim(context_idx)
        }
    }

    fn context_write(&mut self, offset: u32, val: u32)
        requires
            offset <= CONTEXT_END - CONTEXT_BASE,
            offset / 0x1000 < old(self)@.4.len(),
            offset % 0x1000 == CONTEXT_THRESHOLD || offset % 0x1000 == CONTEXT_CLAIM,
            offset % 0x1000 == CONTEXT_THRESHOLD ==> val % 256 < 8,
            offset % 0x1000 == CONTEXT_CLAIM ==> val < 64,
        ensures
            final(self)@ == plic_write_model(old(self)@, (offset + CONTEXT_BASE) as u64, val as u64),
    {
        proof {
            use_type_invariant(&*self);
        }
        let context_idx = (offset / 0x1000) as usize;
        let context_offset = (offset % 0x1000) as u64;
        assert(((offset + CONTEXT_BASE) as u64 as int - CONTEXT_BASE) == offset);
        if context_offset == CONTEXT_THRESHOLD {
            let mut ctxs = Vec::new();
            std::mem::swap(&mut ctxs, &mut self.context);
            let mut c = ctxs[context_idx];
            c.threshold.set_all(val);
            ctxs.set(context_idx, c);
            self.context = ctxs;
        } else {
            self.context_complete(context_idx, val);
        }
    }

    /// Claims for context `context_idx`: the eligible source of highest
    /// priority (lowest number among equals) unless its number is claimed
    /// already, in which case the claim reads 0.
    fn context_claim(&mut self, context_idx: usize) -> (r: u32)
        requires
            context_idx < old(self)@.4.len(),
        ensures
            (final(self)@, r) == claim_model(old(self)@, context_idx as int),
    {
        proof {
            use_type_invariant(&*self);
        }
        let c = self.context[context_idx];
        let n = self.irq_sources.len();
        let mut irq_id: u32 = 0;
        let mut irq_priority: u8 = 0;
        let mut chosen: usize = n;
        let mut i: usize = 0;
        while i < n
            invariant
                0 <= i <= n,
                n == self.irq_sources@.len(),
                sources_in_range(self.irq_sources@),
                chosen <= n,
                (irq_id, irq_priority, if chosen == n { -1int } else { chosen as int })
                    == claim_search(self.irq_sources@, self.vec_irq_priority@, c, i as int),
            decreases n - i,
        {
            proof {
                lemma_claim_picks_highest_priority(self.irq_sources@, self.vec_irq_priority@, c, i as int);
            }
            let item = self.irq_sources[i];
            if item.pending && c.get_enable_by_id(item.id) {
                let priority_tmp = self.vec_irq_priority[item.id as usize].get();
                if priority_tmp > irq_priority || (priority_tmp == irq_priority && item.id < irq_id) {
                    irq_id = item.id;
                    irq_priority = priority_tmp;
                    chosen = i;
                }
            }
            i = i + 1;
        }
        proof {
            lemma_claim_picks_highest_priority(self.irq_sources@, self.vec_irq_priority@, c, n as int);
        }
        if self.claimed[irq_id as usize] {
            0
        } else {
            if chosen < n {
                let mut srcs = Vec::new();
                std::mem::swap(&mut srcs, &mut self.irq_sources);
                let src = srcs[chosen];
                srcs.set(chosen, IrqSource { pending: false, ..src });
                self.irq_sources = srcs;
            }
            self.claimed[irq_id as usize] = true;
            let mut ctxs = Vec::new();
            std::mem::swap(&mut ctxs, &mut self.context);
            ctxs.set(context_idx, PlicContext { claim: irq_id, ..c });
            self.context = ctxs;
            irq_id
        }
    }

    /// Completes source `val`: it may be claimed again.
    fn context_complete(&mut self, _context_idx: usize, val: u32)
        requires
            val < 64,
        ensures
            final(self)@ == (old(self)@.0, old(self)@.1, old(self)@.2, old(self)@.3.update(val as int, false), old(self)@.4),
    {
        proof {
            use_type_invariant(&*self);
        }
        self.claimed[val as usize] = false;
    }

    pub open spec fn copy_from_model(m: PlicModel, addr: u64, bytes: Seq<u8>) -> (bool, PlicModel) {
        bytewise_write(m, addr, bytes, |m: PlicModel, a: u64, d: u64| Self::write_ok(m, a, d, 1),
            |m: PlicModel, a: u64, d: u64| Self::write_result(m, a, d, 1).0)
    }

    pub open spec fn copy_to_model(m: PlicModel, addr: u64, n: nat) -> (bool, PlicModel, Seq<u8>) {
        bytewise_read(m, addr, n, |m: PlicModel, a: u64| Self::read_ok(m, a, 1), |m: PlicModel, a: u64| Self::read_result(m, a, 1))
    }
}

impl DeviceBase for SifvePlic {
    open spec fn read_ok(m: PlicModel, addr: u64, len: usize) -> bool {
        plic_access_ok(m, addr, len)
    }

    open spec fn read_result(m: PlicModel, addr: u64, len: usize) -> (PlicModel, u64) {
        plic_read_model(m, addr)
    }

    open spec fn write_ok(m: PlicModel, addr: u64, data: u64, len: usize) -> bool {
        plic_access_ok(m, addr, len) && plic_value_ok(addr, data)
    }

    open spec fn write_result(m: PlicModel, addr: u64, data: u64, len: usize) -> (PlicModel, u64) {
        (plic_write_model(m, addr, data), 0)
    }

    open spec fn update_result(m: PlicModel) -> PlicModel {
        m
    }

    open spec fn copy_from_ok(m: PlicModel, addr: u64, bytes: Seq<u8>) -> bool {
        Self::copy_from_model(m, addr, bytes).0
    }

    open spec fn copy_from_result(m: PlicModel, addr: u64, bytes: Seq<u8>) -> PlicModel {
        Self::copy_from_model(m, addr, bytes).1
    }

    open spec fn copy_to_ok(m: PlicModel, addr: u64, n: nat) -> bool {
        Self::copy_to_model(m, addr, n).0
    }

    open spec fn copy_to_result(m: PlicModel, addr: u64, n: nat) -> (PlicModel, Seq<u8>) {
        (Self::copy_to_model(m, addr, n).1, Self::copy_to_model(m, addr, n).2)
    }

    proof fn lemma_copy_from_unfold(m: PlicModel, addr: u64, bytes: Seq<u8>) {
    }

    proof fn lemma_copy_to_unfold(m: PlicModel, addr: u64, n: nat) {
    }

    fn can_read(&self, addr: u64, len: usize) -> (r: bool) {
        let nc = self.context.len() as u64;
        len == 4 && (
            (addr <= PRIORITY_END && addr / 4 < 64)
            || (PENDING_BASE <= addr && addr <= PENDING_END && (addr - PENDING_BASE) / 4 < 2)
            || (ENABLE_BASE <= addr && addr <= ENABLE_END && ((addr - ENABLE_BASE) % ENABLE_PER_HART) / 4 < 2
                && (addr - ENABLE_BASE) / ENABLE_PER_HART < nc)
            || (CONTEXT_BASE <= addr && addr <= CONTEXT_END && (addr - CONTEXT_BASE) / CONTEXT_PER_HART < nc
                && ((addr - CONTEXT_BASE) % CONTEXT_PER_HART == CONTEXT_THRESHOLD
                    || (addr - CONTEXT_BASE) % CONTEXT_PER_HART == CONTEXT_CLAIM)))
    }

    fn can_write(&self, addr: u64, data: u64, len: usize) -> (r: bool) {
        let v = data as u32;
        let value_ok = if addr <= PRIORITY_END {
            v % 256 < 8
        } else if CONTEXT_BASE <= addr && addr <= CONTEXT_END {
            if (addr - CONTEXT_BASE) % CONTEXT_PER_HART == CONTEXT_THRESHOLD {
                v % 256 < 8
            } else {
                v < 64
            }
        } else {
            true
        };
        self.can_read(addr, len) && value_ok
    }

    fn can_copy_from(&self, addr: u64, slice: &[u8]) -> (r: bool) {
        proof {
            reveal_with_fuel(bytewise_write, 2);
        }
        slice.len() == 0
    }

    fn can_copy_to(&self, addr: u64, len: usize) -> (r: bool) {
        proof {
            reveal_with_fuel(bytewise_read, 2);
        }
        len == 0
    }

    fn do_read(&mut self, addr: u64, len: usize) -> (r: u64)
        ensures
            plic_wf(final(self)@),
    {
        proof {
            use_type_invariant(&*self);
        }
        let r = if addr <= PRIORITY_END {
            let offset = (addr - PRIORITY_BASE) as u32;
            self.priority_read(offset) as u64
        } else if addr <= PENDING_END {
            let offset = (addr - PENDING_BASE) as u32;
            self.pending_read(offset) as u64
        } else if addr <= ENABLE_END {
            let offset = (addr - ENABLE_BASE) as u32;
            self.context_enbale_read(offset) as u64
        } else {
            let offset = (addr - CONTEXT_BASE) as u32;
            self.context_read(offset) as u64
        };
        proof {
            use_type_invariant(&*self);
        }
        r
    }

    fn do_write(&mut self, addr: u64, data: u64, len: usize) -> (r: u64)
        ensures
            plic_wf(final(self)@),
    {
        proof {
            use_type_invariant(&*self);
        }
        if addr <= PRIORITY_END {
            let offset = (addr - PRIORITY_BASE) as u32;
            self.priority_write(offset, data as u32);
        } else if addr <= PENDING_END {
            let offset = (addr - PENDING_BASE) as u32;
            self.pending_write(offset, data as u32);
        } else if addr <= ENABLE_END {
            let offset = (addr - ENABLE_BASE) as u32;
            self.context_enbale_write(offset, data as u32);
        } else {
            let offset = (addr - CONTEXT_BASE) as u32;
            self.context_write(offset, data as u32);
        }
        proof {
            use_type_invariant(&*self);
        }
        0
    }

    fn get_name(&self) -> &'static str {
        "PLIC"
    }

    fn do_update(&mut self) {
        proof {
            use_type_invariant(&*self);
        }
    }
}

} // verus!
