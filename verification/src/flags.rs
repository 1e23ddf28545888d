//! Subprogram flags and how they combine.
use vstd::prelude::*;

verus! {

/// Subprogram-specific flags.
///
/// These are bitflags that can be combined with `|`. Common values are
/// provided by the associated functions.
#[derive(Debug, Clone, Copy, PartialEq, Eq, Structural)]
pub struct DISubprogramFlags(pub u64);

/// The flags that combining `a` and `b` gives: every bit set in either.
pub open spec fn combine(a: DISubprogramFlags, b: DISubprogramFlags) -> DISubprogramFlags {
    DISubprogramFlags(a.0 | b.0)
}

impl DISubprogramFlags {
    /// No flag set.
    pub fn none() -> (r: DISubprogramFlags)
        ensures
            r.0 == 0,
    {
        DISubprogramFlags(0)
    }

    /// The subprogram is virtual.
    pub fn virtual_() -> (r: DISubprogramFlags)
        ensures
            r.0 == 1,
    {
        assert(1u64 << 0u64 == 1) by (bit_vector);
        DISubprogramFlags(1u64 << 0u64)
    }

    /// The subprogram is pure virtual.
    pub fn pure_virtual() -> (r: DISubprogramFlags)
        ensures
            r.0 == 2,
    {
        assert(1u64 << 1u64 == 2) by (bit_vector);
        DISubprogramFlags(1u64 << 1u64)
    }

    /// The subprogram is local to its compile unit.
    pub fn local_to_unit() -> (r: DISubprogramFlags)
        ensures
            r.0 == 4,
    {
        assert(1u64 << 2u64 == 4) by (bit_vector);
        DISubprogramFlags(1u64 << 2u64)
    }

    /// The subprogram is a definition.
    pub fn definition() -> (r: DISubprogramFlags)
        ensures
            r.0 == 8,
    {
        assert(1u64 << 3u64 == 8) by (bit_vector);
        DISubprogramFlags(1u64 << 3u64)
    }

    /// The subprogram is optimized.
    pub fn optimized() -> (r: DISubprogramFlags)
        ensures
            r.0 == 16,
    {
        assert(1u64 << 4u64 == 16) by (bit_vector);
        DISubprogramFlags(1u64 << 4u64)
    }
}

impl core::ops::BitOr for DISubprogramFlags {
    type Output = DISubprogramFlags;

    fn bitor(self, rhs: DISubprogramFlags) -> (r: DISubprogramFlags)
        ensures
            r == combine(self, rhs),
    {
        DISubprogramFlags(self.0 | rhs.0)
    }
}

impl vstd::std_specs::ops::BitOrSpecImpl for DISubprogramFlags {
    open spec fn obeys_bitor_spec() -> bool {
        true
    }

    open spec fn bitor_req(self, rhs: DISubprogramFlags) -> bool {
        true
    }

    open spec fn bitor_spec(self, rhs: DISubprogramFlags) -> DISubprogramFlags {
        combine(self, rhs)
    }
}

/// Combining flags does not depend on their order.
pub proof fn lemma_combine_commutative(a: DISubprogramFlags, b: DISubprogramFlags)
    ensures
        combine(a, b) == combine(b, a),
{
    let (x, y) = (a.0, b.0);
    assert(x | y == y | x) by (bit_vector);
}

/// Combining flags does not depend on how the combinations are grouped.
pub proof fn lemma_combine_associative(a: DISubprogramFlags, b: DISubprogramFlags, c: DISubprogramFlags)
    ensures
        combine(combine(a, b), c) == combine(a, combine(b, c)),
{
    let (x, y, z) = (a.0, b.0, c.0);
    assert((x | y) | z == x | (y | z)) by (bit_vector);
}

/// Combining with no flag, or with the same flags again, changes nothing.
pub proof fn lemma_combine_identity_idempotent(a: DISubprogramFlags)
    ensures
        combine(a, DISubprogramFlags(0)) == a,
        combine(DISubprogramFlags(0), a) == a,
        combine(a, a) == a,
{
    let x = a.0;
    assert(x | 0 == x && 0 | x == x && x | x == x) by (bit_vector);
}

/// A combination keeps every flag of both parts and adds no other.
pub proof fn lemma_combine_bits(a: DISubprogramFlags, b: DISubprogramFlags, bit: u64)
    requires
        bit < 64,
    ensures
        (combine(a, b).0 & (1u64 << bit) != 0) == ((a.0 & (1u64 << bit) != 0) || (b.0 & (1u64 << bit) != 0)),
{
    let (x, y) = (a.0, b.0);
    assert(((x | y) & (1u64 << bit) != 0) == ((x & (1u64 << bit) != 0) || (y & (1u64 << bit) != 0)))
        by (bit_vector)
        requires
            bit < 64,
    ;
}

} // verus!
