//! Pure, allocation-free layout arithmetic.
//!
//! Everything here is stated over plain integers: byte sizes, alignments and
//! counts.  The arena asks these functions how many base units it must
//! reserve so that the requested elements fit at a properly aligned address,
//! no matter where its buffer happens to start.

use vstd::prelude::*;

verus! {

/// `n` is a multiple of `align`.
pub open spec fn aligned(n: int, align: int) -> bool
    recommends
        align > 0,
{
    n % align == 0
}

/// The smallest multiple of `align` that is greater than or equal to `base`.
pub open spec fn spec_align_up(base: int, align: int) -> int
    recommends
        base >= 0,
        align > 0,
{
    if base % align == 0 {
        base
    } else {
        base + align - base % align
    }
}

/// The distance from `base` up to the next multiple of `align`.
pub open spec fn spec_align_pad(base: int, align: int) -> int
    recommends
        base >= 0,
        align > 0,
{
    spec_align_up(base, align) - base
}

/// `spec_align_up` returns an aligned value no further than `align - 1`
/// above its argument, and it is the smallest such value.
pub proof fn lemma_align_up(base: int, align: int)
    requires
        base >= 0,
        align > 0,
    ensures
        aligned(spec_align_up(base, align), align),
        base <= spec_align_up(base, align) < base + align,
        forall|m: int| base <= m < spec_align_up(base, align) ==> !aligned(m, align),
{
    let r = spec_align_up(base, align);
    vstd::arithmetic::div_mod::lemma_fundamental_div_mod(base, align);
    vstd::arithmetic::div_mod::lemma_mod_division_less_than_divisor(base, align);
    let q = base / align;
    if base % align == 0 {
        assert(aligned(r, align));
    } else {
        assert(r == (q + 1) * align) by {
            assert(base == q * align + base % align);
            assert((q + 1) * align == q * align + align) by (nonlinear_arith);
        }
        assert(aligned(r, align)) by {
            vstd::arithmetic::div_mod::lemma_mod_multiples_basic(q + 1, align);
        }
    }
    assert forall|m: int| base <= m < r implies !aligned(m, align) by {
        if aligned(m, align) {
            vstd::arithmetic::div_mod::lemma_fundamental_div_mod(m, align);
            let qm = m / align;
            assert(m == qm * align);
            if base % align == 0 {
                assert(false);
            } else {
                assert(q * align <= base) by {
                    assert(base == q * align + base % align);
                }
                assert(qm * align < (q + 1) * align);
                assert(qm < q + 1) by (nonlinear_arith)
                    requires
                        qm * align < (q + 1) * align,
                        align > 0,
                ;
                assert(qm * align <= q * align) by (nonlinear_arith)
                    requires
                        qm <= q,
                        align > 0,
                ;
                assert(m <= base - base % align);
                assert(false);
            }
        }
    }
}

/// Extra slack bytes reserved so that a validly aligned start exists inside
/// a reservation.  When the base unit's alignment is at least as strict as
/// the element's, every base-aligned address is already element-aligned and
/// no slack is needed; otherwise `align_t - 1` bytes guarantee an alignment
/// point regardless of where the buffer starts.
pub open spec fn spec_align_bump(align_t: int, align_b: int) -> int {
    if align_b >= align_t {
        0
    } else {
        align_t - 1
    }
}

/// Bytes needed for `count` elements of size `size_t`, including slack.
pub open spec fn spec_needed_bytes(size_t: int, align_t: int, align_b: int, count: int) -> int {
    size_t * count + spec_align_bump(align_t, align_b)
}

/// Base units of size `size_b` needed to cover `spec_needed_bytes`, rounded up.
pub open spec fn spec_needed_units(
    size_t: int,
    align_t: int,
    size_b: int,
    align_b: int,
    count: int,
) -> int
    recommends
        size_b > 0,
{
    (spec_needed_bytes(size_t, align_t, align_b, count) + size_b - 1) / size_b
}

/// Rounding up to whole units never under-covers: `units * size_b` is at
/// least the byte count it was computed from.
pub proof fn lemma_units_cover_bytes(bytes: int, size_b: int)
    requires
        bytes >= 0,
        size_b > 0,
    ensures
        ((bytes + size_b - 1) / size_b) * size_b >= bytes,
{
    let units = (bytes + size_b - 1) / size_b;
    vstd::arithmetic::div_mod::lemma_fundamental_div_mod(bytes + size_b - 1, size_b);
    vstd::arithmetic::div_mod::lemma_mod_division_less_than_divisor(bytes + size_b - 1, size_b);
    assert(units * size_b == bytes + size_b - 1 - (bytes + size_b - 1) % size_b);
}

/// Advances `base` to the next address satisfying `align`.
pub fn align_up(base: usize, align: usize) -> (r: usize)
    requires
        align > 0,
        spec_align_up(base as int, align as int) <= usize::MAX,
    ensures
        r == spec_align_up(base as int, align as int),
        aligned(r as int, align as int),
        base <= r < base + align,
{
    proof {
        lemma_align_up(base as int, align as int);
    }
    let rem = base % align;
    if rem == 0 {
        base
    } else {
        base + (align - rem)
    }
}

/// Number of base units that must be reserved so that `count` elements of
/// the described type, aligned, fit inside — no matter where the buffer of
/// base units starts.
pub fn needed_units(
    size_t: usize,
    align_t: usize,
    size_b: usize,
    align_b: usize,
    count: usize,
) -> (r: usize)
    requires
        size_b > 0,
        align_t > 0,
        spec_needed_bytes(size_t as int, align_t as int, align_b as int, count as int) + size_b - 1
            <= usize::MAX,
    ensures
        r == spec_needed_units(
            size_t as int,
            align_t as int,
            size_b as int,
            align_b as int,
            count as int,
        ),
{
    let bump: usize = if align_b >= align_t {
        0
    } else {
        align_t - 1
    };
    let bytes = size_t * count + bump;
    (bytes + (size_b - 1)) / size_b
}

/// A positive power of two is positive.
proof fn lemma_pow2_positive(a: int)
    requires
        vstd::arithmetic::power2::is_pow2(a),
    ensures
        a > 0,
{
    broadcast use vstd::arithmetic::power2::is_pow2_equiv;

    let i = choose|i: nat| vstd::arithmetic::power::pow(2, i) == a;
    vstd::arithmetic::power::lemma_pow_positive(2, i);
}

/// The smaller of two powers of two divides the larger.
pub proof fn lemma_pow2_divides(a: int, b: int)
    requires
        vstd::arithmetic::power2::is_pow2(a),
        vstd::arithmetic::power2::is_pow2(b),
        a <= b,
    ensures
        b % a == 0,
{
    broadcast use vstd::arithmetic::power2::is_pow2_equiv;

    let i = choose|i: nat| vstd::arithmetic::power::pow(2, i) == a;
    let j = choose|j: nat| vstd::arithmetic::power::pow(2, j) == b;
    lemma_pow2_positive(a);
    lemma_pow2_positive(b);
    if j < i {
        vstd::arithmetic::power::lemma_pow_strictly_increases(2, j, i);
        assert(false);
    }
    vstd::arithmetic::power::lemma_pow_adds(2, (j - i) as nat, i);
    let k = vstd::arithmetic::power::pow(2, (j - i) as nat) as int;
    assert(b == k * a);
    vstd::arithmetic::div_mod::lemma_mod_multiples_basic(k, a);
}

/// Alignment is transitive through divisibility: a multiple of `b` is a
/// multiple of every divisor `a` of `b`.
pub proof fn lemma_aligned_transitive(x: int, a: int, b: int)
    requires
        a > 0,
        b > 0,
        aligned(x, b),
        b % a == 0,
    ensures
        aligned(x, a),
{
    let qx = x / b;
    let qb = b / a;
    assert(x == qx * b) by {
        vstd::arithmetic::div_mod::lemma_fundamental_div_mod(x, b);
    }
    assert(b == qb * a) by {
        vstd::arithmetic::div_mod::lemma_fundamental_div_mod(b, a);
    }
    assert(x == (qx * qb) * a) by (nonlinear_arith)
        requires
            x == qx * b,
            b == qb * a,
    ;
    vstd::arithmetic::div_mod::lemma_mod_multiples_basic(qx * qb, a);
}

/// The alignment guarantee behind a borrow: starting from any base-aligned
/// address, padding up to the next element-aligned address always succeeds,
/// and the padding plus the payload still fit inside the reservation that
/// `spec_needed_units` computed.  In particular a validly aligned pointer
/// always exists inside the reserved block.
pub proof fn lemma_aligned_start_fits(
    addr: int,
    size_t: int,
    align_t: int,
    size_b: int,
    align_b: int,
    count: int,
)
    requires
        addr >= 0,
        size_t >= 0,
        count >= 0,
        size_b > 0,
        vstd::arithmetic::power2::is_pow2(align_t),
        vstd::arithmetic::power2::is_pow2(align_b),
        aligned(addr, align_b),
    ensures
        aligned(addr + spec_align_pad(addr, align_t), align_t),
        spec_align_pad(addr, align_t) + size_t * count <= spec_needed_units(
            size_t,
            align_t,
            size_b,
            align_b,
            count,
        ) * size_b,
{
    lemma_pow2_positive(align_t);
    lemma_pow2_positive(align_b);
    lemma_align_up(addr, align_t);
    let pad = spec_align_pad(addr, align_t);
    let bytes = spec_needed_bytes(size_t, align_t, align_b, count);
    assert(size_t * count >= 0) by (nonlinear_arith)
        requires
            size_t >= 0,
            count >= 0,
    ;
    lemma_units_cover_bytes(bytes, size_b);
    if align_b >= align_t {
        lemma_pow2_divides(align_t, align_b);
        lemma_aligned_transitive(addr, align_t, align_b);
        assert(pad == 0);
    } else {
        assert(pad <= align_t - 1);
    }
}

/// One region of a packed multi-type reservation: the byte size and
/// alignment of the element type, and how many elements the region holds.
#[derive(Clone, Copy, Debug, PartialEq, Eq, Structural)]
pub struct RegionDesc {
    pub size: usize,
    pub align: usize,
    pub count: usize,
}

/// A region descriptor that carries real layout information: a non-zero-sized
/// type, a positive alignment, and a positive capacity.
pub open spec fn wf_region(d: RegionDesc) -> bool {
    d.size > 0 && d.align > 0 && d.count > 0
}

pub open spec fn wf_regions(descs: Seq<RegionDesc>) -> bool {
    forall|i: int| 0 <= i < descs.len() ==> wf_region(#[trigger] descs[i])
}

/// Every alignment in the list is a power of two, as every Rust type's is.
pub open spec fn pow2_aligns(descs: Seq<RegionDesc>) -> bool {
    forall|i: int|
        0 <= i < descs.len() ==> vstd::arithmetic::power2::is_pow2(
            (#[trigger] descs[i]).align as int,
        )
}

/// The caller contract of a multi-region borrow: regions are listed in
/// non-increasing alignment order, so the first region's alignment is the
/// strictest of the whole reservation.
pub open spec fn nonincreasing_aligns(descs: Seq<RegionDesc>) -> bool {
    forall|i: int, j: int|
        #![trigger descs[i].align, descs[j].align]
        0 <= i <= j < descs.len() ==> descs[j].align <= descs[i].align
}

/// The running byte cursor after packing all listed regions: each region
/// starts at its alignment point past the previous region's end and extends
/// for `size * count` bytes.
pub open spec fn spec_regions_end(descs: Seq<RegionDesc>) -> int
    decreases descs.len(),
{
    if descs.len() == 0 {
        0
    } else {
        let prev = spec_regions_end(descs.drop_last());
        let d = descs.last();
        spec_align_up(prev, d.align as int) + (d.size as int) * (d.count as int)
    }
}

/// The byte offset of region `i` from the aligned start of the reservation.
pub open spec fn spec_region_offset(descs: Seq<RegionDesc>, i: int) -> int
    recommends
        0 <= i < descs.len(),
{
    spec_align_up(spec_regions_end(descs.take(i)), descs[i].align as int)
}

/// Base units needed for the whole packed reservation.  Alignment slack is
/// computed against the first region's alignment, which the caller contract
/// makes the strictest one.
pub open spec fn spec_regions_units(descs: Seq<RegionDesc>, size_b: int, align_b: int) -> int
    recommends
        descs.len() > 0,
        size_b > 0,
{
    (spec_regions_end(descs) + spec_align_bump(descs[0].align as int, align_b) + size_b - 1)
        / size_b
}

/// Unfolds the cursor one region at a time, phrased over `take` prefixes.
pub proof fn lemma_regions_end_step(descs: Seq<RegionDesc>, i: int)
    requires
        0 <= i < descs.len(),
    ensures
        spec_regions_end(descs.take(i + 1)) == spec_align_up(
            spec_regions_end(descs.take(i)),
            descs[i].align as int,
        ) + (descs[i].size as int) * (descs[i].count as int),
{
    let t = descs.take(i + 1);
    assert(t.drop_last() =~= descs.take(i));
    assert(t.last() == descs[i]);
}

pub proof fn lemma_regions_end_nonneg(descs: Seq<RegionDesc>)
    requires
        wf_regions(descs),
    ensures
        spec_regions_end(descs) >= 0,
    decreases descs.len(),
{
    if descs.len() > 0 {
        let prev = descs.drop_last();
        assert(wf_regions(prev));
        lemma_regions_end_nonneg(prev);
        let d = descs.last();
        lemma_align_up(spec_regions_end(prev), d.align as int);
        assert((d.size as int) * (d.count as int) >= 0) by (nonlinear_arith)
            requires
                d.size as int > 0,
                d.count as int > 0,
        ;
    }
}

/// The cursor never moves backwards: later prefixes end no earlier.
pub proof fn lemma_regions_end_le(descs: Seq<RegionDesc>, i: int, j: int)
    requires
        wf_regions(descs),
        0 <= i <= j <= descs.len(),
    ensures
        spec_regions_end(descs.take(i)) <= spec_regions_end(descs.take(j)),
    decreases j - i,
{
    if i < j {
        lemma_regions_end_le(descs, i, j - 1);
        lemma_regions_end_step(descs, j - 1);
        let prev = spec_regions_end(descs.take(j - 1));
        assert(wf_regions(descs.take(j - 1)));
        lemma_regions_end_nonneg(descs.take(j - 1));
        let d = descs[j - 1];
        lemma_align_up(prev, d.align as int);
        assert((d.size as int) * (d.count as int) >= 0) by (nonlinear_arith)
            requires
                d.size as int > 0,
                d.count as int > 0,
        ;
    }
}

/// Region non-overlap: any two distinct regions of one packed reservation
/// occupy disjoint byte ranges — an earlier region ends at or before a later
/// region's offset.
pub proof fn lemma_regions_disjoint(descs: Seq<RegionDesc>, i: int, j: int)
    requires
        wf_regions(descs),
        0 <= i < j < descs.len(),
    ensures
        spec_region_offset(descs, i) + (descs[i].size as int) * (descs[i].count as int)
            <= spec_region_offset(descs, j),
{
    lemma_regions_end_step(descs, i);
    lemma_regions_end_le(descs, i + 1, j);
    assert(wf_regions(descs.take(j)));
    lemma_regions_end_nonneg(descs.take(j));
    lemma_align_up(spec_regions_end(descs.take(j)), descs[j].align as int);
}

/// Every region fits inside the packed reservation: its extent ends at or
/// before the overall cursor end.
pub proof fn lemma_region_within_end(descs: Seq<RegionDesc>, i: int)
    requires
        wf_regions(descs),
        0 <= i < descs.len(),
    ensures
        spec_region_offset(descs, i) + (descs[i].size as int) * (descs[i].count as int)
            <= spec_regions_end(descs),
{
    lemma_regions_end_step(descs, i);
    lemma_regions_end_le(descs, i + 1, descs.len() as int);
    assert(descs.take(descs.len() as int) =~= descs);
}

/// Region alignment: with regions listed in non-increasing alignment order,
/// every region of a reservation that starts at an address aligned for the
/// first region is itself properly aligned for its own type.
pub proof fn lemma_region_start_aligned(descs: Seq<RegionDesc>, i: int, addr: int)
    requires
        wf_regions(descs),
        pow2_aligns(descs),
        nonincreasing_aligns(descs),
        0 <= i < descs.len(),
        addr >= 0,
        aligned(addr, descs[0].align as int),
    ensures
        aligned(addr + spec_region_offset(descs, i), descs[i].align as int),
{
    let a0 = descs[0].align as int;
    let ai = descs[i].align as int;
    assert(wf_regions(descs.take(i)));
    lemma_regions_end_nonneg(descs.take(i));
    lemma_align_up(spec_regions_end(descs.take(i)), ai);
    let off = spec_region_offset(descs, i);
    lemma_pow2_divides(ai, a0);
    lemma_aligned_transitive(addr, ai, a0);
    let qa = addr / ai;
    let qo = off / ai;
    assert(addr == qa * ai) by {
        vstd::arithmetic::div_mod::lemma_fundamental_div_mod(addr, ai);
    }
    assert(off == qo * ai) by {
        vstd::arithmetic::div_mod::lemma_fundamental_div_mod(off, ai);
    }
    assert(addr + off == (qa + qo) * ai) by (nonlinear_arith)
        requires
            addr == qa * ai,
            off == qo * ai,
    ;
    vstd::arithmetic::div_mod::lemma_mod_multiples_basic(qa + qo, ai);
}

/// The packed reservation is large enough: from any base-aligned start
/// address, the padding to the first region's alignment plus all packed
/// regions fit inside `spec_regions_units` base units.
pub proof fn lemma_aligned_regions_fit(
    descs: Seq<RegionDesc>,
    addr: int,
    size_b: int,
    align_b: int,
)
    requires
        wf_regions(descs),
        pow2_aligns(descs),
        descs.len() > 0,
        addr >= 0,
        size_b > 0,
        vstd::arithmetic::power2::is_pow2(align_b),
        aligned(addr, align_b),
    ensures
        aligned(addr + spec_align_pad(addr, descs[0].align as int), descs[0].align as int),
        spec_align_pad(addr, descs[0].align as int) + spec_regions_end(descs)
            <= spec_regions_units(descs, size_b, align_b) * size_b,
{
    let a0 = descs[0].align as int;
    lemma_pow2_positive(align_b);
    lemma_align_up(addr, a0);
    let pad = spec_align_pad(addr, a0);
    lemma_regions_end_nonneg(descs);
    let bytes = spec_regions_end(descs) + spec_align_bump(a0, align_b);
    lemma_units_cover_bytes(bytes, size_b);
    if align_b >= a0 {
        lemma_pow2_divides(a0, align_b);
        lemma_aligned_transitive(addr, a0, align_b);
        assert(pad == 0);
    } else {
        assert(pad <= a0 - 1);
    }
}

/// Computes the byte offset of every region of a packed reservation, and the
/// number of base units the whole reservation needs.  Offsets are relative
/// to the aligned start of the reservation; the first one is always 0.
pub fn plan_regions(descs: &Vec<RegionDesc>, size_b: usize, align_b: usize) -> (r: (
    Vec<usize>,
    usize,
))
    requires
        size_b > 0,
        descs@.len() > 0,
        wf_regions(descs@),
        spec_regions_end(descs@) + spec_align_bump(descs@[0].align as int, align_b as int)
            + size_b - 1 <= usize::MAX,
    ensures
        r.0@.len() == descs@.len(),
        forall|i: int| 0 <= i < descs@.len() ==> r.0@[i] == spec_region_offset(descs@, i),
        r.1 == spec_regions_units(descs@, size_b as int, align_b as int),
{
    let ghost dseq = descs@;
    proof {
        lemma_regions_end_nonneg(dseq);
    }
    let mut offsets: Vec<usize> = Vec::new();
    let mut cursor: usize = 0;
    let n = descs.len();
    let mut i: usize = 0;
    while i < n
        invariant
            dseq == descs@,
            n == dseq.len(),
            i <= n,
            size_b > 0,
            wf_regions(dseq),
            spec_regions_end(dseq) + spec_align_bump(dseq[0].align as int, align_b as int)
                + size_b - 1 <= usize::MAX,
            offsets@.len() == i,
            forall|j: int| 0 <= j < i ==> offsets@[j] == spec_region_offset(dseq, j),
            cursor == spec_regions_end(dseq.take(i as int)),
        decreases n - i,
    {
        let d = descs[i];
        proof {
            assert(wf_region(dseq[i as int]));
            assert(wf_regions(dseq.take(i as int)));
            lemma_regions_end_nonneg(dseq.take(i as int));
            lemma_regions_end_step(dseq, i as int);
            lemma_regions_end_le(dseq, i as int + 1, dseq.len() as int);
            assert(dseq.take(dseq.len() as int) =~= dseq);
            assert((d.size as int) * (d.count as int) >= 0) by (nonlinear_arith)
                requires
                    d.size as int > 0,
                    d.count as int > 0,
            ;
            lemma_align_up(cursor as int, d.align as int);
        }
        let off = align_up(cursor, d.align);
        offsets.push(off);
        cursor = off + d.size * d.count;
        i = i + 1;
    }
    proof {
        assert(dseq.take(n as int) =~= dseq);
        assert(wf_region(dseq[0]));
    }
    let a0 = descs[0].align;
    let bump: usize = if align_b >= a0 {
        0
    } else {
        a0 - 1
    };
    let units = (cursor + bump + (size_b - 1)) / size_b;
    (offsets, units)
}

} // verus!
