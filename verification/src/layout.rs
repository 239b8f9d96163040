//! The container layout model.
//!
//! The ABI contract the generated containers protect: a fully-typed
//! container and its opaque counterpart (instance type erased to a
//! fixed-size handle) are byte-identical in size and field order.  The
//! container is a C structure of three fields — instance, context,
//! temporary return storage, in that order — and its layout is computed
//! here from the parts' sizes and alignments.

use vstd::prelude::*;

verus! {

/// Size and alignment of one stored part.
#[derive(Structural, PartialEq, Eq)]
pub struct TypeLayout {
    pub size: usize,
    pub align: usize,
}

/// A meaningful layout has a positive alignment.
pub open spec fn wf_layout(t: TypeLayout) -> bool {
    t.align >= 1
}

/// The layout of a zero-sized part.
pub open spec fn spec_zero_sized() -> TypeLayout {
    TypeLayout { size: 0, align: 1 }
}

pub open spec fn spec_round_up(x: int, a: int) -> int
    recommends
        a >= 1,
{
    ((x + a - 1) / a) * a
}

pub open spec fn spec_max(a: int, b: int) -> int {
    if a >= b {
        a
    } else {
        b
    }
}

/// The C layout of the container: field offsets rounded up to each
/// field's alignment, the whole rounded up to the strictest alignment.
/// Returns (size, align).
pub open spec fn spec_container_layout(t: TypeLayout, c: TypeLayout, r: TypeLayout) -> (
    int,
    int,
) {
    let align = spec_max(t.align as int, spec_max(c.align as int, r.align as int));
    let off_c = spec_round_up(t.size as int, c.align as int);
    let off_r = spec_round_up(off_c + c.size, r.align as int);
    let end = off_r + r.size;
    (spec_round_up(end, align), align)
}

/// Layout invariant of the containers: erasing the instance type to a
/// handle of the same size and alignment leaves the container layout
/// unchanged, whatever the context and temp-storage parts are — the
/// zero-sized specializations included.
pub proof fn lemma_container_layout_invariant(
    t: TypeLayout,
    o: TypeLayout,
    c: TypeLayout,
    r: TypeLayout,
)
    requires
        t.size == o.size,
        t.align == o.align,
    ensures
        spec_container_layout(t, c, r) == spec_container_layout(o, c, r),
{
}

/// The zero-sized specializations collapse to the instance part alone:
/// the container of an instance beside zero-sized context and temp
/// storage is exactly the instance rounded up to its own alignment.
pub proof fn lemma_zero_sized_parts(t: TypeLayout)
    requires
        wf_layout(t),
    ensures
        spec_container_layout(t, spec_zero_sized(), spec_zero_sized()).0 == spec_round_up(
            t.size as int,
            t.align as int,
        ),
        spec_container_layout(t, spec_zero_sized(), spec_zero_sized()).1 == t.align,
{
    assert(spec_round_up(t.size as int, 1) == t.size as int);
}

/// Computes the container layout, per [`spec_container_layout`].
pub fn container_layout(t: &TypeLayout, c: &TypeLayout, r: &TypeLayout) -> (res: (usize, usize))
    requires
        wf_layout(*t),
        wf_layout(*c),
        wf_layout(*r),
        t.size + c.size + r.size + 2 * t.align + 2 * c.align + 2 * r.align <= usize::MAX,
    ensures
        res.0 as int == spec_container_layout(*t, *c, *r).0,
        res.1 as int == spec_container_layout(*t, *c, *r).1,
{
    let align = max_usize(t.align, max_usize(c.align, r.align));
    let off_c = round_up(t.size, c.align);
    proof {
        lemma_round_up_bound(t.size as int, c.align as int);
    }
    let off_r = round_up(off_c + c.size, r.align);
    proof {
        lemma_round_up_bound(off_c as int + c.size as int, r.align as int);
    }
    let end = off_r + r.size;
    let size = round_up(end, align);
    (size, align)
}

fn max_usize(a: usize, b: usize) -> (r: usize)
    ensures
        r as int == spec_max(a as int, b as int),
{
    if a >= b {
        a
    } else {
        b
    }
}

fn round_up(x: usize, a: usize) -> (r: usize)
    requires
        a >= 1,
        x + a <= usize::MAX,
    ensures
        r as int == spec_round_up(x as int, a as int),
        r <= x + a - 1,
{
    proof {
        lemma_round_up_bound(x as int, a as int);
    }
    let r = ((x + a - 1) / a) * a;
    r
}

/// Rounding up to a positive alignment lands between `x` and `x + a - 1`.
pub proof fn lemma_round_up_bound(x: int, a: int)
    by (nonlinear_arith)
    requires
        a >= 1,
        x >= 0,
    ensures
        x <= spec_round_up(x, a) <= x + a - 1,
{
}

} // verus!
