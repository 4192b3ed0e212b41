//! Pairwise interaction filtering using bit masks.
//!
//! An [`InteractionGroups`] value describes, for one entity, which groups it
//! belongs to and which groups it is willing to interact with, both globally
//! and within an optional secondary grouping namespace. The predicate
//! [`InteractionGroups::test`] decides in constant time whether two entities
//! may interact; its exact meaning is the spec function [`allows`].

use vstd::prelude::*;

verus! {

/// Pairwise filtering using bit masks.
///
/// This filtering method is based on two 32-bit values:
/// - The interaction groups memberships.
/// - The interaction groups filter.
///
/// An interaction is allowed between two filters `a` and `b` when two
/// conditions are met simultaneously:
/// - The groups membership of `a` has at least one bit set to `1` in common
///   with the groups filter of `b`.
/// - The groups membership of `b` has at least one bit set to `1` in common
///   with the groups filter of `a`.
///
/// When both filters additionally carry the same `belongs_to_grouping`, a
/// second mutual-consent test over the grouping-scoped fields must pass as
/// well; filters in different groupings skip that second test entirely.
#[derive(Copy, Clone, Debug, Hash, PartialEq, Eq, Structural)]
pub struct InteractionGroups {
    /// Groups memberships.
    pub memberships: u32,
    /// Groups filter.
    pub filter: u32,
    /// Bitwise set of groups that this filter belongs to for additional
    /// filtering within the same grouping.
    pub belongs_to_with_grouping: u32,
    /// Bitwise set of groups that this filter collides with for additional
    /// filtering within the same grouping.
    pub collides_with_with_grouping: u32,
    /// The grouping this filter belongs to.
    pub belongs_to_grouping: u32,
}

/// The global mutual-consent test: each side's memberships must share at
/// least one set bit with the other side's filter.
pub open spec fn global_allows(a: InteractionGroups, b: InteractionGroups) -> bool {
    (a.memberships & b.filter) != 0 && (b.memberships & a.filter) != 0
}

/// The grouping-scoped mutual-consent test, meaningful only when the two
/// filters belong to the same grouping.
pub open spec fn grouping_allows(a: InteractionGroups, b: InteractionGroups) -> bool {
    (a.belongs_to_with_grouping & b.collides_with_with_grouping) != 0
        && (b.belongs_to_with_grouping & a.collides_with_with_grouping) != 0
}

/// Whether two filters allow an interaction: the global test must pass, and,
/// when both filters belong to the same grouping, the grouping-scoped test
/// must pass as well.
pub open spec fn allows(a: InteractionGroups, b: InteractionGroups) -> bool {
    global_allows(a, b)
        && (a.belongs_to_grouping != b.belongs_to_grouping || grouping_allows(a, b))
}

impl InteractionGroups {
    /// The filter with every field all-ones: it allows interaction with
    /// everything whose own fields do not forbid it.
    pub open spec fn all_spec() -> InteractionGroups {
        InteractionGroups {
            memberships: u32::MAX,
            filter: u32::MAX,
            belongs_to_with_grouping: u32::MAX,
            collides_with_with_grouping: u32::MAX,
            belongs_to_grouping: u32::MAX,
        }
    }

    /// The filter with every field zero: it allows no interaction at all.
    pub open spec fn none_spec() -> InteractionGroups {
        InteractionGroups {
            memberships: 0,
            filter: 0,
            belongs_to_with_grouping: 0,
            collides_with_with_grouping: 0,
            belongs_to_grouping: 0,
        }
    }

    /// Initializes with the given interaction groups and interaction mask.
    pub fn new(
        memberships: u32,
        filter: u32,
        belongs_to_with_grouping: u32,
        collides_with_with_grouping: u32,
        belongs_to_grouping: u32,
    ) -> (r: Self)
        ensures
            r == (InteractionGroups {
                memberships,
                filter,
                belongs_to_with_grouping,
                collides_with_with_grouping,
                belongs_to_grouping,
            }),
    {
        Self {
            memberships,
            filter,
            belongs_to_with_grouping,
            collides_with_with_grouping,
            belongs_to_grouping,
        }
    }

    /// Allow interaction with everything.
    pub fn all() -> (r: Self)
        ensures
            r == Self::all_spec(),
    {
        Self::new(u32::MAX, u32::MAX, u32::MAX, u32::MAX, u32::MAX)
    }

    /// Prevent all interactions.
    pub fn none() -> (r: Self)
        ensures
            r == Self::none_spec(),
    {
        Self::new(0, 0, 0, 0, 0)
    }

    /// Sets the group this filter is part of, leaving every other field
    /// unchanged.
    pub fn with_memberships(self, memberships: u32) -> (r: Self)
        ensures
            r == (InteractionGroups { memberships, ..self }),
    {
        let mut result = self;
        result.memberships = memberships;
        result
    }

    /// Sets the interaction mask of this filter, leaving every other field
    /// unchanged.
    pub fn with_filter(self, filter: u32) -> (r: Self)
        ensures
            r == (InteractionGroups { filter, ..self }),
    {
        let mut result = self;
        result.filter = filter;
        result
    }

    /// Check if interactions should be allowed based on the interaction
    /// memberships and filter.
    ///
    /// An interaction is allowed iff. the memberships of `self` contain at
    /// least one bit set to 1 in common with the filter of `rhs`, and
    /// vice-versa, and, when both sides belong to the same grouping, the
    /// analogous test over the grouping-scoped fields passes as well.
    #[inline]
    pub fn test(self, rhs: Self) -> (r: bool)
        ensures
            r == allows(self, rhs),
    {
        (self.memberships & rhs.filter) != 0 && (rhs.memberships & self.filter) != 0
            && (self.belongs_to_grouping != rhs.belongs_to_grouping
                || ((self.belongs_to_with_grouping & rhs.collides_with_with_grouping) != 0
                    && (rhs.belongs_to_with_grouping & self.collides_with_with_grouping) != 0))
    }
}

impl Default for InteractionGroups {
    /// The default filter allows interaction with everything.
    fn default() -> (r: Self)
        ensures
            r == InteractionGroups::all_spec(),
    {
        InteractionGroups::all()
    }
}

/// A mask of zero intersects nothing.
proof fn lemma_and_zero(v: u32)
    by (bit_vector)
    ensures
        v & 0 == 0,
        0 & v == 0,
{
}

/// An all-ones mask keeps the other operand unchanged.
proof fn lemma_and_all_ones(v: u32)
    by (bit_vector)
    ensures
        v & 0xffff_ffffu32 == v,
        0xffff_ffffu32 & v == v,
{
}

/// The empty filter interacts with nothing, in either position and including
/// against itself: every intersection with one of its zero fields is empty.
pub proof fn lemma_none_blocks_everything(x: InteractionGroups)
    ensures
        !allows(x, InteractionGroups::none_spec()),
        !allows(InteractionGroups::none_spec(), x),
{
    lemma_and_zero(x.memberships);
    lemma_and_zero(x.filter);
}

/// The all-ones filter is permissive, not an override: paired with `x`, the
/// outcome depends only on whether `x`'s own fields are nonzero where the
/// test reads them, the grouping test included.
pub proof fn lemma_all_is_permissive(x: InteractionGroups)
    ensures
        allows(InteractionGroups::all_spec(), x) == (x.filter != 0 && x.memberships != 0
            && (x.belongs_to_grouping != u32::MAX
                || (x.collides_with_with_grouping != 0 && x.belongs_to_with_grouping != 0))),
        allows(x, InteractionGroups::all_spec()) == (x.filter != 0 && x.memberships != 0
            && (x.belongs_to_grouping != u32::MAX
                || (x.collides_with_with_grouping != 0 && x.belongs_to_with_grouping != 0))),
{
    lemma_and_all_ones(x.filter);
    lemma_and_all_ones(x.memberships);
    lemma_and_all_ones(x.collides_with_with_grouping);
    lemma_and_all_ones(x.belongs_to_with_grouping);
}

/// The predicate is symmetric: swapping the two filters never changes the
/// outcome.
pub proof fn lemma_test_symmetric(a: InteractionGroups, b: InteractionGroups)
    ensures
        allows(a, b) == allows(b, a),
{
}

} // verus!
