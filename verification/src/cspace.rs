//! Capability tables: addressing slots through the guarded radix-tree codec.
//!
//! A capability address word is split, high to low, into four contiguous
//! fields: `prefix | guard | radix | leftover`.  A table level consumes the
//! prefix, guard and radix bits; the leftover bits are left for a deeper
//! level.  [`CNodeInfo`] describes the widths of one table level,
//! [`CNodeInfo::decode`] and [`CNodeInfo::encode`] convert between the packed
//! word and its [`DecodedCPtr`] fields, and [`Window`] derives the address of
//! each slot in a contiguous run.

use vstd::prelude::*;
use crate::ToCap;

verus! {

/// Number of bits in a capability address word.
pub const WORD_BITS: u64 = 64;

/// A word whose low `n` bits are set (all bits, for `n >= 64`).
pub open spec fn low_mask(n: u64) -> u64 {
    if n >= 64 {
        0xffff_ffff_ffff_ffffu64
    } else {
        ((1u64 << n) - 1) as u64
    }
}

/// `w >> n`, treating a shift by the full word width or more as zero.
pub open spec fn shr_word(w: u64, n: u64) -> u64 {
    if n >= 64 {
        0u64
    } else {
        w >> n
    }
}

/// `w << n`, treating a shift by the full word width or more as zero.
pub open spec fn shl_word(w: u64, n: u64) -> u64 {
    if n >= 64 {
        0u64
    } else {
        w << n
    }
}

fn mask_low(n: u64) -> (r: u64)
    ensures
        r == low_mask(n),
{
    if n >= 64 {
        u64::MAX
    } else {
        proof {
            assert(1u64 << n >= 1) by (bit_vector)
                requires
                    n < 64,
            ;
        }
        (1u64 << n) - 1
    }
}

fn shr_w(w: u64, n: u64) -> (r: u64)
    ensures
        r == shr_word(w, n),
{
    if n >= 64 {
        0
    } else {
        w >> n
    }
}

fn shl_w(w: u64, n: u64) -> (r: u64)
    ensures
        r == shl_word(w, n),
{
    if n >= 64 {
        0
    } else {
        w << n
    }
}

/// An unforgeable marker on a capability, distinguishing senders that share
/// one endpoint.  A 32-bit value is packed into the reserved field of a
/// capability data word and round-trips exactly.
#[derive(Debug, Copy, Clone, PartialEq, Eq, Structural)]
pub struct Badge {
    bits: u64,
}

impl Badge {
    /// The capability data word a badge of value `val` is packed into.
    pub closed spec fn spec_new(val: u32) -> Badge {
        Badge { bits: val as u64 }
    }

    /// The value stored in the badge field of this capability data word.
    pub closed spec fn spec_value(&self) -> u64 {
        self.bits
    }

    pub fn new(val: u32) -> (r: Badge)
        ensures
            r == Badge::spec_new(val),
    {
        Badge { bits: val as u64 }
    }

    pub fn get_value(&self) -> (r: u32)
        ensures
            r == self.spec_value() as u32,
    {
        self.bits as u32
    }

    /// The raw capability data word, as handed to the kernel.
    pub fn to_word(&self) -> (r: u64)
        ensures
            r == self.spec_value(),
    {
        self.bits
    }
}

/// Packing a 32-bit value into a badge and reading it back returns the value
/// unchanged, over the whole 32-bit domain.
pub proof fn lemma_badge_round_trip(val: u32)
    ensures
        Badge::spec_new(val).spec_value() as u32 == val,
{
}

/// A fixed-length table for storing capabilities, named by the capability
/// that addresses it.  The table itself is kernel-owned; this value only
/// refers to it.
#[derive(Debug, Copy, Clone, PartialEq, Eq, Structural)]
pub struct CNode {
    cptr: u64,
}

impl CNode {
    pub fn from_cap(cptr: u64) -> (r: CNode)
        ensures
            r.spec_cap() == cptr,
    {
        CNode { cptr }
    }
}

impl ToCap for CNode {
    closed spec fn spec_cap(&self) -> u64 {
        self.cptr
    }

    fn to_cap(&self) -> (c: u64) {
        self.cptr
    }
}

/// A qualified reference to a capability slot.
///
/// `root` names the capability table the address is resolved against, `cptr`
/// is the address to resolve, and `depth` is how many high bits of `cptr` the
/// kernel should consume before stopping resolution.
#[derive(Debug, Copy, Clone, PartialEq, Eq, Structural)]
pub struct SlotRef {
    /// The capability table which acts as the root of this reference.
    pub root: CNode,
    /// An address, relative to `root`, of the desired slot.
    pub cptr: u64,
    /// Number of high bits of `cptr` the kernel resolves for this reference.
    pub depth: u8,
}

impl SlotRef {
    /// Create a new slot reference from all component data.
    pub fn new(root: CNode, cptr: u64, depth: u8) -> (r: SlotRef)
        ensures
            r.root == root,
            r.cptr == cptr,
            r.depth == depth,
    {
        SlotRef { root, cptr, depth }
    }
}

/// The shape of one capability table level: how an address word is split
/// into `prefix | guard | radix | leftover` at this level, and the guard
/// value the table expects.
///
/// This information is needed to reconstruct slot addresses from a table
/// reference; the kernel tracks its own copy but does not expose it.
#[derive(Debug, Copy, Clone, PartialEq, Eq, Structural)]
pub struct CNodeInfo {
    /// The expected guard value, raw and unshifted.
    pub guard_val: u64,
    /// Number of bits in the radix; the table has `2^radix_bits` slots.
    pub radix_bits: u8,
    /// Number of bits in the guard.
    pub guard_bits: u8,
    /// Number of bits above the guard, consumed by shallower table levels.
    pub prefix_bits: u8,
}

/// The four fields of a capability address word, unpacked.
#[derive(Debug, Copy, Clone, PartialEq, Eq, Structural)]
pub struct DecodedCPtr {
    pub prefix: u64,
    pub guard: u64,
    pub radix: u64,
    pub leftover: u64,
}

impl CNodeInfo {
    /// The three declared fields fit in one address word.
    pub open spec fn wf(&self) -> bool {
        self.radix_bits + self.guard_bits + self.prefix_bits <= WORD_BITS
    }

    /// Number of low-order bits not consumed at this table level.
    pub open spec fn leftover_bits(&self) -> u64
        recommends
            self.wf(),
    {
        (WORD_BITS - self.radix_bits - self.guard_bits - self.prefix_bits) as u64
    }

    /// The fields of `cptr` under this shape: `leftover` is the low
    /// `leftover_bits()` bits, `radix` the next `radix_bits`, `guard` the
    /// next `guard_bits`, and `prefix` all remaining high bits.
    pub open spec fn spec_decode(&self, cptr: u64) -> DecodedCPtr {
        let lb = self.leftover_bits();
        DecodedCPtr {
            prefix: shr_word(cptr, (lb + self.radix_bits + self.guard_bits) as u64),
            guard: shr_word(cptr, (lb + self.radix_bits) as u64) & low_mask(self.guard_bits as u64),
            radix: shr_word(cptr, lb) & low_mask(self.radix_bits as u64),
            leftover: cptr & low_mask(lb),
        }
    }

    /// The word that packs `d` under this shape: each field is masked to its
    /// declared width, then shifted into place, high to low.
    pub open spec fn spec_encode(&self, d: DecodedCPtr) -> u64 {
        let lb = self.leftover_bits();
        shl_word(
            shl_word(
                shl_word(d.prefix & low_mask(self.prefix_bits as u64), self.guard_bits as u64)
                    | (d.guard & low_mask(self.guard_bits as u64)),
                self.radix_bits as u64,
            ) | (d.radix & low_mask(self.radix_bits as u64)),
            lb,
        ) | (d.leftover & low_mask(lb))
    }

    /// Decode an address word into its four fields, like such:
    ///
    /// ```text
    /// pppppppp|gggg|rrrrrrrr|llllllllllll
    /// ^-------|^---|^-------|^-----------
    /// |       |    |        |
    /// |       |    |        + leftover bits = 64 - 8 - 4 - 8 = 44
    /// |       |    + radix bits = 8
    /// |       + guard bits = 4
    /// + prefix bits = 8
    /// ```
    ///
    /// Any word decodes to some [`DecodedCPtr`]; semantic validity is the
    /// caller's concern.
    pub fn decode(&self, cptr: u64) -> (d: DecodedCPtr)
        requires
            self.wf(),
        ensures
            d == self.spec_decode(cptr),
    {
        let lb: u64 = WORD_BITS - self.radix_bits as u64 - self.guard_bits as u64
            - self.prefix_bits as u64;
        DecodedCPtr {
            prefix: shr_w(cptr, lb + self.radix_bits as u64 + self.guard_bits as u64),
            guard: shr_w(cptr, lb + self.radix_bits as u64) & mask_low(self.guard_bits as u64),
            radix: shr_w(cptr, lb) & mask_low(self.radix_bits as u64),
            leftover: cptr & mask_low(lb),
        }
    }

    /// Encode four fields back into one address word, masking each field to
    /// its declared width so an oversized field cannot corrupt its
    /// neighbours.
    pub fn encode(&self, decoded: &DecodedCPtr) -> (w: u64)
        requires
            self.wf(),
        ensures
            w == self.spec_encode(*decoded),
    {
        let lb: u64 = WORD_BITS - self.radix_bits as u64 - self.guard_bits as u64
            - self.prefix_bits as u64;
        let mut result: u64 = decoded.prefix & mask_low(self.prefix_bits as u64);
        result = shl_w(result, self.guard_bits as u64);
        result = result | (decoded.guard & mask_low(self.guard_bits as u64));
        result = shl_w(result, self.radix_bits as u64);
        result = result | (decoded.radix & mask_low(self.radix_bits as u64));
        result = shl_w(result, lb);
        result = result | (decoded.leftover & mask_low(lb));
        result
    }
}

impl DecodedCPtr {
    /// Every field already fits its declared width under `info`.
    pub open spec fn fits(&self, info: CNodeInfo) -> bool {
        &&& self.prefix == self.prefix & low_mask(info.prefix_bits as u64)
        &&& self.guard == self.guard & low_mask(info.guard_bits as u64)
        &&& self.radix == self.radix & low_mask(info.radix_bits as u64)
        &&& self.leftover == self.leftover & low_mask(info.leftover_bits())
    }
}

/// A value masked to `n` bits lies within the `n`-bit mask.
proof fn lemma_and_mask_bound(x: u64, n: u64)
    by (bit_vector)
    ensures
        x & low_mask(n) <= low_mask(n),
{
}

/// Masking a value that already fits `n` bits leaves it unchanged.
proof fn lemma_le_mask_identity(x: u64, n: u64)
    by (bit_vector)
    requires
        x <= low_mask(n),
    ensures
        x & low_mask(n) == x,
{
}

/// A right shift by `n` leaves at most `64 - n` significant bits.
proof fn lemma_shr_bound(w: u64, n: u64)
    by (bit_vector)
    requires
        n <= 64,
    ensures
        shr_word(w, n) <= low_mask((64 - n) as u64),
{
}

/// Joining a `k`-bit high part and an `n`-bit low part into one word: the
/// join fits `k + n` bits, and each part reads back exactly.
proof fn lemma_join_parts(hi: u64, lo: u64, k: u64, n: u64)
    by (bit_vector)
    requires
        k + n <= 64,
        hi <= low_mask(k),
        lo <= low_mask(n),
    ensures
        (shl_word(hi, n) | lo) <= low_mask((k + n) as u64),
        (shl_word(hi, n) | lo) & low_mask(n) == lo,
        shr_word(shl_word(hi, n) | lo, n) == hi,
{
}

/// Two right shifts compose into one.
#[verifier::rlimit(100)]
proof fn lemma_shr_shr_sum(w: u64, a: u64, b: u64, c: u64)
    by (bit_vector)
    requires
        a <= 64,
        b <= 64,
        c == a + b,
    ensures
        shr_word(shr_word(w, a), b) == shr_word(w, c),
{
}

/// Two right shifts compose into one.
proof fn lemma_shr_shr(w: u64, a: u64, b: u64)
    requires
        a + b <= 64,
    ensures
        shr_word(shr_word(w, a), b) == shr_word(w, (a + b) as u64),
{
    lemma_shr_shr_sum(w, a, b, (a + b) as u64);
}

/// Any word is the join of its high part above `n` and its low `n` bits.
proof fn lemma_split_join(w: u64, n: u64)
    by (bit_vector)
    ensures
        w == shl_word(shr_word(w, n), n) | (w & low_mask(n)),
{
}

/// Each field of the encoded word, read back at its position, is the original
/// field masked to its declared width.
proof fn lemma_codec_fields(pb: u64, gb: u64, rb: u64, lb: u64, p: u64, g: u64, r: u64, l: u64)
    requires
        pb + gb + rb + lb == 64,
    ensures
        ({
            let w = shl_word(
                shl_word(
                    shl_word(p & low_mask(pb), gb) | (g & low_mask(gb)),
                    rb,
                ) | (r & low_mask(rb)),
                lb,
            ) | (l & low_mask(lb));
            &&& w & low_mask(lb) == l & low_mask(lb)
            &&& shr_word(w, lb) & low_mask(rb) == r & low_mask(rb)
            &&& shr_word(w, (lb + rb) as u64) & low_mask(gb) == g & low_mask(gb)
            &&& shr_word(w, (lb + rb + gb) as u64) == p & low_mask(pb)
        }),
{
    let mp = p & low_mask(pb);
    let mg = g & low_mask(gb);
    let mr = r & low_mask(rb);
    let ml = l & low_mask(lb);
    lemma_and_mask_bound(p, pb);
    lemma_and_mask_bound(g, gb);
    lemma_and_mask_bound(r, rb);
    lemma_and_mask_bound(l, lb);
    let x1 = shl_word(mp, gb) | mg;
    lemma_join_parts(mp, mg, pb, gb);
    let x2 = shl_word(x1, rb) | mr;
    lemma_join_parts(x1, mr, (pb + gb) as u64, rb);
    let w = shl_word(x2, lb) | ml;
    lemma_join_parts(x2, ml, (pb + gb + rb) as u64, lb);
    lemma_shr_shr(w, lb, rb);
    lemma_shr_shr(w, (lb + rb) as u64, gb);
}

/// Re-encoding the four decoded fields of any word under the same shape
/// reproduces the word exactly.
proof fn lemma_codec_fields_inv(pb: u64, gb: u64, rb: u64, lb: u64, w: u64)
    requires
        pb + gb + rb + lb == 64,
    ensures
        shl_word(
            shl_word(
                shl_word(shr_word(w, (lb + rb + gb) as u64) & low_mask(pb), gb)
                    | (shr_word(w, (lb + rb) as u64) & low_mask(gb) & low_mask(gb)),
                rb,
            ) | (shr_word(w, lb) & low_mask(rb) & low_mask(rb)),
            lb,
        ) | (w & low_mask(lb) & low_mask(lb)) == w,
{
    let pfx = shr_word(w, (lb + rb + gb) as u64);
    let grd = shr_word(w, (lb + rb) as u64) & low_mask(gb);
    let rdx = shr_word(w, lb) & low_mask(rb);
    let lft = w & low_mask(lb);
    lemma_shr_bound(w, (lb + rb + gb) as u64);
    lemma_le_mask_identity(pfx, pb);
    lemma_and_mask_bound(shr_word(w, (lb + rb) as u64), gb);
    lemma_le_mask_identity(grd, gb);
    lemma_and_mask_bound(shr_word(w, lb), rb);
    lemma_le_mask_identity(rdx, rb);
    lemma_and_mask_bound(w, lb);
    lemma_le_mask_identity(lft, lb);
    lemma_split_join(w, lb);
    lemma_shr_shr(w, lb, rb);
    lemma_split_join(shr_word(w, lb), rb);
    lemma_shr_shr(w, (lb + rb) as u64, gb);
    lemma_split_join(shr_word(w, (lb + rb) as u64), gb);
}

/// Codec round trip, one direction: decoding an encoded address returns the
/// original fields, for any shape whose fields fit one word and any fields
/// that already fit their declared widths.
pub proof fn lemma_decode_encode(info: CNodeInfo, d: DecodedCPtr)
    requires
        info.wf(),
        d.fits(info),
    ensures
        info.spec_decode(info.spec_encode(d)) == d,
{
    let pb = info.prefix_bits as u64;
    let gb = info.guard_bits as u64;
    let rb = info.radix_bits as u64;
    let lb = info.leftover_bits();
    lemma_codec_fields(pb, gb, rb, lb, d.prefix, d.guard, d.radix, d.leftover);
}

/// Codec round trip, other direction: encoding the decoded fields of any
/// word returns the word, for any shape whose fields fit one word.
pub proof fn lemma_encode_decode(info: CNodeInfo, w: u64)
    requires
        info.wf(),
    ensures
        info.spec_encode(info.spec_decode(w)) == w,
{
    let pb = info.prefix_bits as u64;
    let gb = info.guard_bits as u64;
    let rb = info.radix_bits as u64;
    let lb = info.leftover_bits();
    lemma_codec_fields_inv(pb, gb, rb, lb, w);
}

/// A window into a capability table: a contiguous range of slots.
#[derive(Debug, Copy, Clone, PartialEq, Eq, Structural)]
pub struct Window {
    /// The table whose slots the window covers.
    pub cnode: SlotRef,
    /// Index into the table of the window's first slot: the first radix value
    /// the window uses.
    pub first_slot_idx: usize,
    /// Number of slots, starting at `first_slot_idx`.
    pub num_slots: usize,
}

impl Window {
    /// The slot range stays inside the table: `2^radix_bits` slots exist.
    pub open spec fn in_bounds(&self, info: CNodeInfo) -> bool {
        self.first_slot_idx + self.num_slots <= low_mask(info.radix_bits as u64) + 1
    }

    /// The decomposed address of the `i`-th slot: the window's slots share
    /// the table's own address as prefix and its guard value, and occupy
    /// consecutive radix values; no leftover bits remain.
    pub open spec fn spec_slot_addr(&self, info: CNodeInfo, i: int) -> DecodedCPtr {
        DecodedCPtr {
            prefix: self.cnode.cptr,
            guard: info.guard_val,
            radix: (self.first_slot_idx + i) as u64,
            leftover: 0,
        }
    }

    /// Create an address word for the `i`-th slot in this window, or `None`
    /// exactly when `i` lies outside the window.
    pub fn cptr_to(&self, info: &CNodeInfo, i: usize) -> (r: Option<u64>)
        requires
            info.wf(),
            self.first_slot_idx + i <= usize::MAX,
        ensures
            match r {
                Option::None => i >= self.num_slots,
                Option::Some(c) => i < self.num_slots && c == info.spec_encode(
                    self.spec_slot_addr(*info, i as int),
                ),
            },
    {
        if i >= self.num_slots {
            return None;
        }
        let raw = DecodedCPtr {
            prefix: self.cnode.cptr,
            guard: info.guard_val,
            radix: (self.first_slot_idx + i) as u64,
            leftover: 0,
        };
        Some(info.encode(&raw))
    }

    /// Create a full slot reference for the `i`-th slot in this window, or
    /// `None` exactly when `i` lies outside the window.  The depth is the
    /// number of bits this table level resolves: prefix, guard and radix
    /// bits, the leftover bits being left for a deeper level.
    pub fn slotref_to(&self, info: &CNodeInfo, i: usize) -> (r: Option<SlotRef>)
        requires
            info.wf(),
            self.first_slot_idx + i <= usize::MAX,
        ensures
            match r {
                Option::None => i >= self.num_slots,
                Option::Some(s) => i < self.num_slots
                    && s.root == self.cnode.root
                    && s.cptr == info.spec_encode(self.spec_slot_addr(*info, i as int))
                    && s.depth == info.radix_bits + info.guard_bits + info.prefix_bits,
            },
    {
        match self.cptr_to(info, i) {
            Some(cptr) => Some(
                SlotRef {
                    root: self.cnode.root,
                    cptr,
                    depth: info.radix_bits + info.guard_bits + info.prefix_bits,
                },
            ),
            None => None,
        }
    }
}

/// Window addressing: for a window that stays inside its table, the address
/// of the `i`-th slot carries radix field `first_slot_idx + i`, and no
/// leftover bits.
pub proof fn lemma_window_slot_fields(w: Window, info: CNodeInfo, i: int)
    requires
        info.wf(),
        w.in_bounds(info),
        0 <= i < w.num_slots,
    ensures
        info.spec_decode(info.spec_encode(w.spec_slot_addr(info, i))).radix == w.first_slot_idx
            + i,
        info.spec_decode(info.spec_encode(w.spec_slot_addr(info, i))).leftover == 0,
{
    let pb = info.prefix_bits as u64;
    let gb = info.guard_bits as u64;
    let rb = info.radix_bits as u64;
    let lb = info.leftover_bits();
    let d = w.spec_slot_addr(info, i);
    lemma_codec_fields(pb, gb, rb, lb, d.prefix, d.guard, d.radix, d.leftover);
    let rv: u64 = d.radix;
    assert(rv <= low_mask(rb));
    assert(rv & low_mask(rb) == rv) by (bit_vector)
        requires
            rv <= low_mask(rb),
    ;
    assert(0u64 & low_mask(lb) == 0u64) by (bit_vector);
}

} // verus!
