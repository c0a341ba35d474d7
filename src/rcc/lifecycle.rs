//! Reference-counted enabling, resetting and disabling of peripheral clocks.
//!
//! Several peripherals may share one enable bit. Each shared bit has a
//! reference count; the bit is set when its count goes from 0 to 1 and
//! cleared when it goes from 1 to 0. The registers are held as an image of
//! the RCC block, one word per register offset: the caller writes a word to
//! the hardware whenever an operation reports that it touched the registers.
use vstd::prelude::*;

verus! {

/// Marks an absent register offset or refcount index.
pub const ABSENT: u8 = 0xff;

/// Where the reset and enable bits of one peripheral lie.
#[derive(Clone, Copy, Debug, PartialEq, Eq, Structural)]
pub struct RccInfo {
    /// Word offset of the reset register, or 0xff when there is no reset bit.
    pub reset_offset_or_0xff: u8,
    /// Position of the reset bit (0..=31).
    pub reset_bit: u8,
    /// Word offset of the enable register.
    pub enable_offset: u8,
    /// Position of the enable bit (0..=31).
    pub enable_bit: u8,
    /// Index of the shared refcount, or 0xff when the bit is not shared.
    pub refcount_idx_or_0xff: u8,
}

impl RccInfo {
    pub fn new(
        reset_offset_and_bit: Option<(u8, u8)>,
        enable_offset_and_bit: (u8, u8),
        refcount_idx: Option<u8>,
    ) -> (r: Self)
        ensures
            r.reset_offset_or_0xff == match reset_offset_and_bit {
                Some(p) => p.0,
                None => ABSENT,
            },
            r.reset_bit == match reset_offset_and_bit {
                Some(p) => p.1,
                None => ABSENT,
            },
            r.enable_offset == enable_offset_and_bit.0,
            r.enable_bit == enable_offset_and_bit.1,
            r.refcount_idx_or_0xff == match refcount_idx {
                Some(i) => i,
                None => ABSENT,
            },
    {
        let (reset_offset_or_0xff, reset_bit) = match reset_offset_and_bit {
            Some((offset, bit)) => (offset, bit),
            None => (ABSENT, ABSENT),
        };
        let (enable_offset, enable_bit) = enable_offset_and_bit;
        let refcount_idx_or_0xff = match refcount_idx {
            Some(idx) => idx,
            None => ABSENT,
        };
        RccInfo { reset_offset_or_0xff, reset_bit, enable_offset, enable_bit, refcount_idx_or_0xff }
    }

    pub open spec fn has_reset(self) -> bool {
        self.reset_offset_or_0xff != ABSENT
    }

    pub open spec fn is_shared(self) -> bool {
        self.refcount_idx_or_0xff != ABSENT
    }
}

pub open spec fn set_bit(w: u32, b: u8) -> u32 {
    w | (1u32 << (b as u32))
}

pub open spec fn clear_bit(w: u32, b: u8) -> u32 {
    w & !(1u32 << (b as u32))
}

pub open spec fn bit_is_set(w: u32, b: u8) -> bool {
    (w >> (b as u32)) & 1u32 == 1u32
}

/// `w` with bit `b` set.
pub fn with_bit_set(w: u32, b: u8) -> (r: u32)
    requires
        b < 32,
    ensures
        r == set_bit(w, b),
{
    w | (1u32 << (b as u32))
}

/// `w` with bit `b` cleared.
pub fn with_bit_cleared(w: u32, b: u8) -> (r: u32)
    requires
        b < 32,
    ensures
        r == clear_bit(w, b),
{
    w & !(1u32 << (b as u32))
}

proof fn lemma_bits(w: u32, b: u8, c: u8)
    requires
        b < 32,
        c < 32,
    ensures
        bit_is_set(set_bit(w, b), b),
        !bit_is_set(clear_bit(w, b), b),
        b != c ==> bit_is_set(set_bit(w, c), b) == bit_is_set(w, b),
        b != c ==> bit_is_set(clear_bit(w, c), b) == bit_is_set(w, b),
        !bit_is_set(w, b) ==> clear_bit(set_bit(w, b), b) == w,
{
    let bb = b as u32;
    let cc = c as u32;
    assert(((w | (1u32 << bb)) >> bb) & 1u32 == 1u32) by (bit_vector)
        requires
            bb < 32,
    ;
    assert(((w & !(1u32 << bb)) >> bb) & 1u32 != 1u32) by (bit_vector)
        requires
            bb < 32,
    ;
    assert(bb != cc ==> ((w | (1u32 << cc)) >> bb) & 1u32 == (w >> bb) & 1u32) by (bit_vector)
        requires
            bb < 32,
            cc < 32,
    ;
    assert(bb != cc ==> ((w & !(1u32 << cc)) >> bb) & 1u32 == (w >> bb) & 1u32) by (bit_vector)
        requires
            bb < 32,
            cc < 32,
    ;
    assert((w >> bb) & 1u32 != 1u32 ==> (w | (1u32 << bb)) & !(1u32 << bb) == w) by (bit_vector)
        requires
            bb < 32,
    ;
}

/// Refcounts and register image, as values.
pub struct RccModel {
    pub refcounts: Seq<u8>,
    pub regs: Seq<u32>,
}

impl RccModel {
    /// `info` addresses bits and a refcount that exist here, and its reset
    /// bit is not its enable bit.
    pub open spec fn fits(self, info: RccInfo) -> bool {
        &&& info.enable_bit < 32
        &&& info.enable_offset < self.regs.len()
        &&& info.has_reset() ==> {
            &&& info.reset_bit < 32
            &&& info.reset_offset_or_0xff < self.regs.len()
            &&& !(info.reset_offset_or_0xff == info.enable_offset && info.reset_bit
                == info.enable_bit)
        }
        &&& info.is_shared() ==> info.refcount_idx_or_0xff < self.refcounts.len()
    }

    pub open spec fn count(self, info: RccInfo) -> u8 {
        self.refcounts[info.refcount_idx_or_0xff as int]
    }

    /// Whether the enable bit of `info` is set.
    pub open spec fn line_on(self, info: RccInfo) -> bool {
        bit_is_set(self.regs[info.enable_offset as int], info.enable_bit)
    }

    /// The register image after pulsing the reset bit around setting the
    /// enable bit: set reset, set enable, clear reset.
    pub open spec fn pulsed(self, info: RccInfo) -> Seq<u32> {
        let ro = info.reset_offset_or_0xff as int;
        let eo = info.enable_offset as int;
        let r1 = if info.has_reset() {
            self.regs.update(ro, set_bit(self.regs[ro], info.reset_bit))
        } else {
            self.regs
        };
        let r2 = r1.update(eo, set_bit(r1[eo], info.enable_bit));
        if info.has_reset() {
            r2.update(ro, clear_bit(r2[ro], info.reset_bit))
        } else {
            r2
        }
    }

    /// The state after one `enable_and_reset` of `info`.
    pub open spec fn enabled(self, info: RccInfo) -> RccModel {
        if info.is_shared() {
            let idx = info.refcount_idx_or_0xff as int;
            let c = self.refcounts[idx];
            let counts = self.refcounts.update(idx, (c + 1) as u8);
            if c + 1 > 1 {
                RccModel { refcounts: counts, regs: self.regs }
            } else {
                RccModel { refcounts: counts, regs: self.pulsed(info) }
            }
        } else {
            RccModel { refcounts: self.refcounts, regs: self.pulsed(info) }
        }
    }

    /// The state after one `disable` of `info`. A shared line whose count
    /// is already zero is left alone.
    pub open spec fn disabled(self, info: RccInfo) -> RccModel {
        let eo = info.enable_offset as int;
        let cleared = self.regs.update(eo, clear_bit(self.regs[eo], info.enable_bit));
        if info.is_shared() {
            let idx = info.refcount_idx_or_0xff as int;
            let c = self.refcounts[idx];
            if c == 0 {
                self
            } else if c - 1 > 0 {
                RccModel { refcounts: self.refcounts.update(idx, (c - 1) as u8), regs: self.regs }
            } else {
                RccModel { refcounts: self.refcounts.update(idx, 0u8), regs: cleared }
            }
        } else {
            RccModel { refcounts: self.refcounts, regs: cleared }
        }
    }

    pub open spec fn enabled_times(self, info: RccInfo, n: nat) -> RccModel
        decreases n,
    {
        if n == 0 {
            self
        } else {
            self.enabled_times(info, (n - 1) as nat).enabled(info)
        }
    }

    pub open spec fn disabled_times(self, info: RccInfo, n: nat) -> RccModel
        decreases n,
    {
        if n == 0 {
            self
        } else {
            self.disabled_times(info, (n - 1) as nat).disabled(info)
        }
    }
}

proof fn lemma_pulsed_on(s: RccModel, info: RccInfo)
    requires
        s.fits(info),
    ensures
        s.pulsed(info).len() == s.regs.len(),
        bit_is_set(s.pulsed(info)[info.enable_offset as int], info.enable_bit),
{
    let ro = info.reset_offset_or_0xff as int;
    let eo = info.enable_offset as int;
    let r1 = if info.has_reset() {
        s.regs.update(ro, set_bit(s.regs[ro], info.reset_bit))
    } else {
        s.regs
    };
    let r2 = r1.update(eo, set_bit(r1[eo], info.enable_bit));
    lemma_bits(r1[eo], info.enable_bit, info.enable_bit);
    if info.has_reset() {
        lemma_bits(r2[ro], info.enable_bit, info.reset_bit);
        if ro == eo {
            assert(info.reset_bit != info.enable_bit);
        }
    }
}

proof fn lemma_enabled_step(s: RccModel, info: RccInfo)
    requires
        s.fits(info),
        info.is_shared(),
        s.count(info) < u8::MAX,
    ensures
        s.enabled(info).fits(info),
        s.enabled(info).count(info) == s.count(info) + 1,
        s.enabled(info).refcounts == s.refcounts.update(
            info.refcount_idx_or_0xff as int,
            (s.count(info) + 1) as u8,
        ),
        s.count(info) == 0 ==> s.enabled(info).regs == s.pulsed(info),
        s.count(info) > 0 ==> s.enabled(info).regs == s.regs,
{
    lemma_pulsed_on(s, info);
}

proof fn lemma_disabled_step(s: RccModel, info: RccInfo)
    requires
        s.fits(info),
        info.is_shared(),
    ensures
        s.disabled(info).fits(info),
        s.count(info) > 0 ==> s.disabled(info).count(info) == s.count(info) - 1,
        s.count(info) > 0 ==> s.disabled(info).refcounts == s.refcounts.update(
            info.refcount_idx_or_0xff as int,
            (s.count(info) - 1) as u8,
        ),
        s.count(info) > 1 ==> s.disabled(info).regs == s.regs,
        s.count(info) == 1 ==> !s.disabled(info).line_on(info),
        s.count(info) == 0 ==> s.disabled(info) == s,
{
    let eo = info.enable_offset as int;
    lemma_bits(s.regs[eo], info.enable_bit, info.enable_bit);
}

proof fn lemma_enabled_times(s: RccModel, info: RccInfo, k: nat)
    requires
        s.fits(info),
        info.is_shared(),
        s.count(info) == 0,
        k < 256,
    ensures
        s.enabled_times(info, k).fits(info),
        s.enabled_times(info, k).refcounts == s.refcounts.update(
            info.refcount_idx_or_0xff as int,
            k as u8,
        ),
        k == 0 ==> s.enabled_times(info, k).regs == s.regs,
        k >= 1 ==> s.enabled_times(info, k).regs == s.pulsed(info),
        k >= 1 ==> s.enabled_times(info, k).line_on(info),
    decreases k,
{
    let idx = info.refcount_idx_or_0xff as int;
    if k == 0 {
        assert(s.refcounts.update(idx, 0u8) =~= s.refcounts);
    } else {
        lemma_enabled_times(s, info, (k - 1) as nat);
        let p = s.enabled_times(info, (k - 1) as nat);
        assert(p.count(info) == (k - 1) as u8);
        lemma_enabled_step(p, info);
        lemma_pulsed_on(s, info);
        assert(p.enabled(info).refcounts =~= s.refcounts.update(idx, k as u8));
    }
}

proof fn lemma_disabled_times(t: RccModel, info: RccInfo, n: nat, j: nat)
    requires
        t.fits(info),
        info.is_shared(),
        t.count(info) == n,
        j <= n,
    ensures
        t.disabled_times(info, j).fits(info),
        t.disabled_times(info, j).refcounts == t.refcounts.update(
            info.refcount_idx_or_0xff as int,
            (n - j) as u8,
        ),
        j < n ==> t.disabled_times(info, j).regs == t.regs,
        j == n && n > 0 ==> !t.disabled_times(info, j).line_on(info),
    decreases j,
{
    let idx = info.refcount_idx_or_0xff as int;
    if j == 0 {
        assert(t.refcounts.update(idx, n as u8) =~= t.refcounts);
    } else {
        lemma_disabled_times(t, info, n, (j - 1) as nat);
        let p = t.disabled_times(info, (j - 1) as nat);
        assert(p.count(info) == (n - (j - 1)) as u8);
        lemma_disabled_step(p, info);
        assert(p.disabled(info).refcounts =~= t.refcounts.update(idx, (n - j) as u8));
    }
}

/// Disabling a shared peripheral whose count is already zero changes
/// nothing: no count moves and no register bit, of it or of any other
/// peripheral, is cleared.
pub proof fn lemma_disable_at_zero_count(s: RccModel, p: RccInfo, q: RccInfo)
    requires
        s.fits(p),
        s.fits(q),
        p.is_shared(),
        s.count(p) == 0,
    ensures
        s.disabled(p) == s,
        s.line_on(q) ==> s.disabled(p).line_on(q),
{
}

/// `n` calls of `enable_and_reset` on a shared peripheral whose bit is clear
/// and whose count is zero set the bit at the first call and keep it set;
/// `n` calls of `disable` after them clear the bit again and bring every
/// count back to where it was.
pub proof fn lemma_refcount_symmetry(s: RccModel, info: RccInfo, n: nat)
    requires
        s.fits(info),
        info.is_shared(),
        s.count(info) == 0,
        !s.line_on(info),
        1 <= n < 256,
    ensures
        forall|k: nat| 1 <= k <= n ==> #[trigger] s.enabled_times(info, k).line_on(info),
        s.enabled_times(info, n).count(info) == n,
        !s.enabled_times(info, n).disabled_times(info, n).line_on(info),
        s.enabled_times(info, n).disabled_times(info, n).refcounts == s.refcounts,
{
    assert forall|k: nat| 1 <= k <= n implies #[trigger] s.enabled_times(info, k).line_on(info) by {
        lemma_enabled_times(s, info, k);
    }
    lemma_enabled_times(s, info, n);
    let t = s.enabled_times(info, n);
    lemma_disabled_times(t, info, n, n);
    let idx = info.refcount_idx_or_0xff as int;
    assert(s.refcounts.update(idx, n as u8).update(idx, 0u8) =~= s.refcounts);
}

/// On a shared line whose enable bit is set exactly when its count is not
/// zero, every `enable_and_reset` and every `disable`, in any order, keeps
/// the bit set exactly when the count is not zero.
pub proof fn lemma_line_tracks_count(s: RccModel, info: RccInfo)
    requires
        s.fits(info),
        info.is_shared(),
        s.line_on(info) == (s.count(info) > 0),
    ensures
        s.disabled(info).fits(info),
        s.disabled(info).line_on(info) == (s.disabled(info).count(info) > 0),
        s.count(info) < u8::MAX ==> s.enabled(info).fits(info),
        s.count(info) < u8::MAX ==> s.enabled(info).line_on(info) == (s.enabled(info).count(
            info,
        ) > 0),
{
    lemma_disabled_step(s, info);
    if s.count(info) < u8::MAX {
        lemma_enabled_step(s, info);
        lemma_pulsed_on(s, info);
    }
}

/// The refcounts of the shared enable bits and the image of the RCC
/// registers that hold the enable and reset bits.
pub struct PeripheralClocks {
    refcounts: Vec<u8>,
    regs: Vec<u32>,
}

impl View for PeripheralClocks {
    type V = RccModel;

    closed spec fn view(&self) -> RccModel {
        RccModel { refcounts: self.refcounts@, regs: self.regs@ }
    }
}

impl PeripheralClocks {
    /// `refcount_slots` counts at zero over the register words `regs`.
    pub fn new(refcount_slots: usize, regs: Vec<u32>) -> (r: Self)
        ensures
            r@.refcounts == Seq::new(refcount_slots as nat, |i: int| 0u8),
            r@.regs == regs@,
    {
        let mut refcounts: Vec<u8> = Vec::new();
        let mut i: usize = 0;
        while i < refcount_slots
            invariant
                i <= refcount_slots,
                refcounts@ == Seq::new(i as nat, |j: int| 0u8),
            decreases refcount_slots - i,
        {
            refcounts.push(0u8);
            i = i + 1;
            assert(refcounts@ =~= Seq::new(i as nat, |j: int| 0u8));
        }
        PeripheralClocks { refcounts, regs }
    }

    pub fn refcount_slots(&self) -> (r: usize)
        ensures
            r == self@.refcounts.len(),
    {
        self.refcounts.len()
    }

    pub fn register_count(&self) -> (r: usize)
        ensures
            r == self@.regs.len(),
    {
        self.regs.len()
    }

    /// The count of refcount slot `idx`.
    pub fn refcount(&self, idx: usize) -> (r: u8)
        requires
            idx < self@.refcounts.len(),
        ensures
            r == self@.refcounts[idx as int],
    {
        self.refcounts[idx]
    }

    /// The register word at `offset`.
    pub fn register(&self, offset: usize) -> (r: u32)
        requires
            offset < self@.regs.len(),
        ensures
            r == self@.regs[offset as int],
    {
        self.regs[offset]
    }

    /// Whether the enable bit of `info` is set.
    pub fn is_enabled(&self, info: &RccInfo) -> (r: bool)
        requires
            self@.fits(*info),
        ensures
            r == self@.line_on(*info),
    {
        let w = self.regs[info.enable_offset as usize];
        (w >> (info.enable_bit as u32)) & 1u32 == 1u32
    }

    fn pulse_reset_and_enable(&mut self, info: &RccInfo)
        requires
            old(self)@.fits(*info),
        ensures
            final(self)@.regs == old(self)@.pulsed(*info),
            final(self)@.refcounts == old(self)@.refcounts,
    {
        let has_reset = info.reset_offset_or_0xff != ABSENT;
        if has_reset {
            let ro = info.reset_offset_or_0xff as usize;
            let v = with_bit_set(self.regs[ro], info.reset_bit);
            self.regs.set(ro, v);
        }
        let eo = info.enable_offset as usize;
        let v = with_bit_set(self.regs[eo], info.enable_bit);
        self.regs.set(eo, v);
        if has_reset {
            let ro = info.reset_offset_or_0xff as usize;
            let v = with_bit_cleared(self.regs[ro], info.reset_bit);
            self.regs.set(ro, v);
        }
    }
}

/// Enables and resets the peripheral described by `info`.
///
/// A bit that is not shared is always pulsed through reset and enabled. A
/// shared bit has its count raised, and is pulsed and enabled only when the
/// count goes from 0 to 1. Returns whether the registers were touched.
pub fn enable_and_reset(clocks: &mut PeripheralClocks, info: &RccInfo) -> (touched: bool)
    requires
        old(clocks)@.fits(*info),
        info.is_shared() ==> old(clocks)@.count(*info) < u8::MAX,
    ensures
        final(clocks)@ == old(clocks)@.enabled(*info),
        touched == (!info.is_shared() || old(clocks)@.count(*info) == 0),
{
    if info.refcount_idx_or_0xff != ABSENT {
        let idx = info.refcount_idx_or_0xff as usize;
        let c = clocks.refcounts[idx] + 1;
        clocks.refcounts.set(idx, c);
        if c > 1 {
            proof {
                assert(clocks@.refcounts =~= old(clocks)@.enabled(*info).refcounts);
            }
            return false;
        }
    }
    clocks.pulse_reset_and_enable(info);
    proof {
        assert(clocks@.refcounts =~= old(clocks)@.enabled(*info).refcounts);
    }
    true
}

/// Disables the peripheral described by `info`.
///
/// A bit that is not shared is always cleared. A shared bit has its count
/// lowered, and is cleared only when the count goes from 1 to 0; a count
/// that is already zero is left as it is. Returns whether the registers were
/// touched.
pub fn disable(clocks: &mut PeripheralClocks, info: &RccInfo) -> (touched: bool)
    requires
        old(clocks)@.fits(*info),
    ensures
        final(clocks)@ == old(clocks)@.disabled(*info),
        touched == (!info.is_shared() || old(clocks)@.count(*info) == 1),
{
    if info.refcount_idx_or_0xff != ABSENT {
        let idx = info.refcount_idx_or_0xff as usize;
        let c = clocks.refcounts[idx];
        if c == 0 {
            return false;
        }
        clocks.refcounts.set(idx, c - 1);
        if c - 1 > 0 {
            return false;
        }
    }
    let eo = info.enable_offset as usize;
    let v = with_bit_cleared(clocks.regs[eo], info.enable_bit);
    clocks.regs.set(eo, v);
    true
}

} // verus!
