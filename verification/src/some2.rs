use vstd::prelude::*;

verus! {

/// One or more of two distinct optional values, with at least one present.
///
/// There is one variant per non-empty subset of the two slots, so a value
/// with both slots absent cannot be constructed.
#[derive(Copy, Clone, Debug, PartialEq, Eq)]
pub enum Some2<A, B> {
    A(A),
    B(B),
    AB(A, B),
}

impl<A, B> Some2<A, B> {
    /// The first slot's contents, exactly as decomposition reports them.
    pub open spec fn opt_a(self) -> Option<A> {
        match self {
            Some2::A(a) => Some(a),
            Some2::B(_) => None,
            Some2::AB(a, _) => Some(a),
        }
    }

    /// The second slot's contents, exactly as decomposition reports them.
    pub open spec fn opt_b(self) -> Option<B> {
        match self {
            Some2::A(_) => None,
            Some2::B(b) => Some(b),
            Some2::AB(_, b) => Some(b),
        }
    }

    /// The tuple-of-optionals view: the canonical interchange shape.
    pub open spec fn opts(self) -> (Option<A>, Option<B>) {
        (self.opt_a(), self.opt_b())
    }

    /// What fallible construction returns for each combination of inputs:
    /// the variant whose populated slots match the populated inputs, or
    /// nothing when both inputs are empty.
    pub open spec fn spec_from_options(a: Option<A>, b: Option<B>) -> Option<Some2<A, B>> {
        match (a, b) {
            (None, None) => None,
            (Some(a), None) => Some(Some2::A(a)),
            (None, Some(b)) => Some(Some2::B(b)),
            (Some(a), Some(b)) => Some(Some2::AB(a, b)),
        }
    }

    /// Builds the variant whose populated slots are exactly the populated
    /// inputs; fails if and only if both inputs are empty.
    pub fn try_from_options(a: Option<A>, b: Option<B>) -> (r: Option<Self>)
        ensures
            r == Self::spec_from_options(a, b),
            r is None <==> (a is None && b is None),
            r matches Some(v) ==> v.opt_a() == a && v.opt_b() == b,
    {
        match (a, b) {
            (None, None) => None,
            (Some(a), None) => Some(Some2::A(a)),
            (None, Some(b)) => Some(Some2::B(b)),
            (Some(a), Some(b)) => Some(Some2::AB(a, b)),
        }
    }

    /// Fallible construction from a tuple of optional values, reporting an
    /// all-empty input with a fixed descriptive message.
    pub fn try_from_tuple(t: (Option<A>, Option<B>)) -> (r: Result<Self, &'static str>)
        ensures
            r matches Ok(v) ==> Some(v) == Self::spec_from_options(t.0, t.1),
            r is Err <==> (t.0 is None && t.1 is None),
            r matches Err(m) ==> m@ == "no value of any accepted type present"@,
    {
        let (a, b) = t;
        match Self::try_from_options(a, b) {
            Some(v) => Ok(v),
            None => Err("no value of any accepted type present"),
        }
    }

    /// Total construction from a fully-populated tuple: always the
    /// all-slots variant.
    pub fn from_tuple(t: (A, B)) -> (r: Self)
        ensures
            r == Some2::AB(t.0, t.1),
            r.opts() == (Some(t.0), Some(t.1)),
    {
        let (a, b) = t;
        Some2::AB(a, b)
    }

    /// A borrowing view: the same variant, with each slot borrowed from
    /// `self` instead of owned.
    pub fn as_ref(&self) -> (r: Some2<&A, &B>)
        ensures
            r.deref_view() == *self,
    {
        match self {
            Some2::A(a) => Some2::A(a),
            Some2::B(b) => Some2::B(b),
            Some2::AB(a, b) => Some2::AB(a, b),
        }
    }

    /// Decomposition into the tuple-of-optionals shape: each populated slot
    /// yields its value, each other slot is empty.
    pub fn into_options(self) -> (r: (Option<A>, Option<B>))
        ensures
            r == self.opts(),
    {
        match self {
            Some2::A(a) => (Some(a), None),
            Some2::B(b) => (None, Some(b)),
            Some2::AB(a, b) => (Some(a), Some(b)),
        }
    }

    /// The first slot, populated if and only if this variant carries it.
    pub fn a(self) -> (r: Option<A>)
        ensures
            r == self.opt_a(),
    {
        let (opta, _) = self.into_options();
        opta
    }

    /// The second slot, populated if and only if this variant carries it.
    pub fn b(self) -> (r: Option<B>)
        ensures
            r == self.opt_b(),
    {
        let (_, optb) = self.into_options();
        optb
    }
}

impl<'a, A, B> Some2<&'a A, &'a B> {
    /// The owned value that a borrowing view stands for: the same variant,
    /// with every borrowed slot dereferenced.
    pub open spec fn deref_view(self) -> Some2<A, B> {
        match self {
            Some2::A(a) => Some2::A(*a),
            Some2::B(b) => Some2::B(*b),
            Some2::AB(a, b) => Some2::AB(*a, *b),
        }
    }
}

/// Non-emptiness: every constructed value has at least one populated slot.
pub proof fn lemma_some2_nonempty<A, B>(v: Some2<A, B>)
    ensures
        v.opt_a() is Some || v.opt_b() is Some,
{
}

/// Exact correspondence: the tuple-of-optionals view identifies the value,
/// so each non-empty subset of populated slots has exactly one
/// representation for given slot values.
pub proof fn lemma_some2_opts_injective<A, B>(v: Some2<A, B>, w: Some2<A, B>)
    requires
        v.opts() == w.opts(),
    ensures
        v == w,
{
}

/// Round trip: constructing from any not-all-empty pair of optional values
/// succeeds and decomposes back to the same pair.
pub proof fn lemma_some2_round_trip<A, B>(oa: Option<A>, ob: Option<B>)
    requires
        oa is Some || ob is Some,
    ensures
        Some2::<A, B>::spec_from_options(oa, ob) matches Some(v) && v.opts() == (oa, ob),
{
}

/// Accessor consistency: the per-slot views are the components of the
/// tuple-of-optionals view.
pub proof fn lemma_some2_accessors_agree<A, B>(v: Some2<A, B>)
    ensures
        v.opts().0 == v.opt_a(),
        v.opts().1 == v.opt_b(),
{
}

/// Borrowing fidelity: a borrowing view keeps the populated subset, and
/// each borrowed slot dereferences to the corresponding owned slot.
pub proof fn lemma_some2_deref_view_subset<'a, A, B>(rv: Some2<&'a A, &'a B>)
    ensures
        rv.deref_view().opt_a() is Some <==> rv.opt_a() is Some,
        rv.deref_view().opt_b() is Some <==> rv.opt_b() is Some,
        rv.opt_a() matches Some(x) ==> rv.deref_view().opt_a() == Some(*x),
        rv.opt_b() matches Some(y) ==> rv.deref_view().opt_b() == Some(*y),
{
}

/// Structural equality: two values are equal if and only if they are the
/// same variant with pairwise-equal contents.
pub proof fn lemma_some2_eq<A, B>(v: Some2<A, B>, w: Some2<A, B>)
    ensures
        (v == w) <==> (match (v, w) {
            (Some2::A(a), Some2::A(x)) => a == x,
            (Some2::B(b), Some2::B(y)) => b == y,
            (Some2::AB(a, b), Some2::AB(x, y)) => a == x && b == y,
            _ => false,
        }),
{
}

} // verus!
