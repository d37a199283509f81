use vstd::prelude::*;

verus! {

/// One or more of three distinct optional values, with at least one present.
///
/// There is one variant per non-empty subset of the three slots, so a value
/// with all slots absent cannot be constructed.
#[derive(Copy, Clone, Debug, PartialEq, Eq)]
pub enum Some3<A, B, C> {
    A(A),
    B(B),
    C(C),
    AB(A, B),
    AC(A, C),
    BC(B, C),
    ABC(A, B, C),
}

impl<A, B, C> Some3<A, B, C> {
    /// The first slot's contents, exactly as decomposition reports them.
    pub open spec fn opt_a(self) -> Option<A> {
        match self {
            Some3::A(a) => Some(a),
            Some3::B(_) => None,
            Some3::C(_) => None,
            Some3::AB(a, _) => Some(a),
            Some3::AC(a, _) => Some(a),
            Some3::BC(_, _) => None,
            Some3::ABC(a, _, _) => Some(a),
        }
    }

    /// The second slot's contents, exactly as decomposition reports them.
    pub open spec fn opt_b(self) -> Option<B> {
        match self {
            Some3::A(_) => None,
            Some3::B(b) => Some(b),
            Some3::C(_) => None,
            Some3::AB(_, b) => Some(b),
            Some3::AC(_, _) => None,
            Some3::BC(b, _) => Some(b),
            Some3::ABC(_, b, _) => Some(b),
        }
    }

    /// The third slot's contents, exactly as decomposition reports them.
    pub open spec fn opt_c(self) -> Option<C> {
        match self {
            Some3::A(_) => None,
            Some3::B(_) => None,
            Some3::C(c) => Some(c),
            Some3::AB(_, _) => None,
            Some3::AC(_, c) => Some(c),
            Some3::BC(_, c) => Some(c),
            Some3::ABC(_, _, c) => Some(c),
        }
    }

    /// The tuple-of-optionals view: the canonical interchange shape.
    pub open spec fn opts(self) -> (Option<A>, Option<B>, Option<C>) {
        (self.opt_a(), self.opt_b(), self.opt_c())
    }

    /// What fallible construction returns for each combination of inputs:
    /// the variant whose populated slots match the populated inputs, or
    /// nothing when every input is empty.
    pub open spec fn spec_from_options(
        a: Option<A>,
        b: Option<B>,
        c: Option<C>,
    ) -> Option<Some3<A, B, C>> {
        match (a, b, c) {
            (None, None, None) => None,
            (Some(a), None, None) => Some(Some3::A(a)),
            (None, Some(b), None) => Some(Some3::B(b)),
            (None, None, Some(c)) => Some(Some3::C(c)),
            (Some(a), Some(b), None) => Some(Some3::AB(a, b)),
            (Some(a), None, Some(c)) => Some(Some3::AC(a, c)),
            (None, Some(b), Some(c)) => Some(Some3::BC(b, c)),
            (Some(a), Some(b), Some(c)) => Some(Some3::ABC(a, b, c)),
        }
    }

    /// Builds the variant whose populated slots are exactly the populated
    /// inputs; fails if and only if every input is empty.
    pub fn try_from_options(a: Option<A>, b: Option<B>, c: Option<C>) -> (r: Option<Self>)
        ensures
            r == Self::spec_from_options(a, b, c),
            r is None <==> (a is None && b is None && c is None),
            r matches Some(v) ==> v.opt_a() == a && v.opt_b() == b && v.opt_c() == c,
    {
        match (a, b, c) {
            (None, None, None) => None,
            (Some(a), None, None) => Some(Some3::A(a)),
            (None, Some(b), None) => Some(Some3::B(b)),
            (None, None, Some(c)) => Some(Some3::C(c)),
            (Some(a), Some(b), None) => Some(Some3::AB(a, b)),
            (Some(a), None, Some(c)) => Some(Some3::AC(a, c)),
            (None, Some(b), Some(c)) => Some(Some3::BC(b, c)),
            (Some(a), Some(b), Some(c)) => Some(Some3::ABC(a, b, c)),
        }
    }

    /// Fallible construction from a tuple of optional values, reporting an
    /// all-empty input with a fixed descriptive message.
    pub fn try_from_tuple(
        t: (Option<A>, Option<B>, Option<C>),
    ) -> (r: Result<Self, &'static str>)
        ensures
            r matches Ok(v) ==> Some(v) == Self::spec_from_options(t.0, t.1, t.2),
            r is Err <==> (t.0 is None && t.1 is None && t.2 is None),
            r matches Err(m) ==> m@ == "no value of any accepted type present"@,
    {
        let (a, b, c) = t;
        match Self::try_from_options(a, b, c) {
            Some(v) => Ok(v),
            None => Err("no value of any accepted type present"),
        }
    }

    /// Total construction from a fully-populated tuple: always the
    /// all-slots variant.
    pub fn from_tuple(t: (A, B, C)) -> (r: Self)
        ensures
            r == Some3::ABC(t.0, t.1, t.2),
            r.opts() == (Some(t.0), Some(t.1), Some(t.2)),
    {
        let (a, b, c) = t;
        Some3::ABC(a, b, c)
    }

    /// A borrowing view: the same variant, with each slot borrowed from
    /// `self` instead of owned.
    pub fn as_ref(&self) -> (r: Some3<&A, &B, &C>)
        ensures
            r.deref_view() == *self,
    {
        match self {
            Some3::A(a) => Some3::A(a),
            Some3::B(b) => Some3::B(b),
            Some3::C(c) => Some3::C(c),
            Some3::AB(a, b) => Some3::AB(a, b),
            Some3::AC(a, c) => Some3::AC(a, c),
            Some3::BC(b, c) => Some3::BC(b, c),
            Some3::ABC(a, b, c) => Some3::ABC(a, b, c),
        }
    }

    /// Decomposition into the tuple-of-optionals shape: each populated slot
    /// yields its value, each other slot is empty.
    pub fn into_options(self) -> (r: (Option<A>, Option<B>, Option<C>))
        ensures
            r == self.opts(),
    {
        match self {
            Some3::A(a) => (Some(a), None, None),
            Some3::B(b) => (None, Some(b), None),
            Some3::C(c) => (None, None, Some(c)),
            Some3::AB(a, b) => (Some(a), Some(b), None),
            Some3::AC(a, c) => (Some(a), None, Some(c)),
            Some3::BC(b, c) => (None, Some(b), Some(c)),
            Some3::ABC(a, b, c) => (Some(a), Some(b), Some(c)),
        }
    }

    /// The first slot, populated if and only if this variant carries it.
    pub fn a(self) -> (r: Option<A>)
        ensures
            r == self.opt_a(),
    {
        let (opta, _, _) = self.into_options();
        opta
    }

    /// The second slot, populated if and only if this variant carries it.
    pub fn b(self) -> (r: Option<B>)
        ensures
            r == self.opt_b(),
    {
        let (_, optb, _) = self.into_options();
        optb
    }

    /// The third slot, populated if and only if this variant carries it.
    pub fn c(self) -> (r: Option<C>)
        ensures
            r == self.opt_c(),
    {
        let (_, _, optc) = self.into_options();
        optc
    }
}

impl<'a, A, B, C> Some3<&'a A, &'a B, &'a C> {
    /// The owned value that a borrowing view stands for: the same variant,
    /// with every borrowed slot dereferenced.
    pub open spec fn deref_view(self) -> Some3<A, B, C> {
        match self {
            Some3::A(a) => Some3::A(*a),
            Some3::B(b) => Some3::B(*b),
            Some3::C(c) => Some3::C(*c),
            Some3::AB(a, b) => Some3::AB(*a, *b),
            Some3::AC(a, c) => Some3::AC(*a, *c),
            Some3::BC(b, c) => Some3::BC(*b, *c),
            Some3::ABC(a, b, c) => Some3::ABC(*a, *b, *c),
        }
    }
}

/// Non-emptiness: every constructed value has at least one populated slot.
pub proof fn lemma_some3_nonempty<A, B, C>(v: Some3<A, B, C>)
    ensures
        v.opt_a() is Some || v.opt_b() is Some || v.opt_c() is Some,
{
}

/// Exact correspondence: the tuple-of-optionals view identifies the value,
/// so each non-empty subset of populated slots has exactly one
/// representation for given slot values.
pub proof fn lemma_some3_opts_injective<A, B, C>(v: Some3<A, B, C>, w: Some3<A, B, C>)
    requires
        v.opts() == w.opts(),
    ensures
        v == w,
{
}

/// Round trip: constructing from any not-all-empty triple of optional
/// values succeeds and decomposes back to the same triple.
pub proof fn lemma_some3_round_trip<A, B, C>(oa: Option<A>, ob: Option<B>, oc: Option<C>)
    requires
        oa is Some || ob is Some || oc is Some,
    ensures
        Some3::<A, B, C>::spec_from_options(oa, ob, oc) matches Some(v) && v.opts() == (
            oa,
            ob,
            oc,
        ),
{
}

/// Accessor consistency: the per-slot views are the components of the
/// tuple-of-optionals view.
pub proof fn lemma_some3_accessors_agree<A, B, C>(v: Some3<A, B, C>)
    ensures
        v.opts().0 == v.opt_a(),
        v.opts().1 == v.opt_b(),
        v.opts().2 == v.opt_c(),
{
}

/// Borrowing fidelity: a borrowing view keeps the populated subset, and
/// each borrowed slot dereferences to the corresponding owned slot.
pub proof fn lemma_some3_deref_view_subset<'a, A, B, C>(rv: Some3<&'a A, &'a B, &'a C>)
    ensures
        rv.deref_view().opt_a() is Some <==> rv.opt_a() is Some,
        rv.deref_view().opt_b() is Some <==> rv.opt_b() is Some,
        rv.deref_view().opt_c() is Some <==> rv.opt_c() is Some,
        rv.opt_a() matches Some(x) ==> rv.deref_view().opt_a() == Some(*x),
        rv.opt_b() matches Some(y) ==> rv.deref_view().opt_b() == Some(*y),
        rv.opt_c() matches Some(z) ==> rv.deref_view().opt_c() == Some(*z),
{
}

/// Structural equality: two values are equal if and only if they are the
/// same variant with pairwise-equal contents.
pub proof fn lemma_some3_eq<A, B, C>(v: Some3<A, B, C>, w: Some3<A, B, C>)
    ensures
        (v == w) <==> (match (v, w) {
            (Some3::A(a), Some3::A(x)) => a == x,
            (Some3::B(b), Some3::B(y)) => b == y,
            (Some3::C(c), Some3::C(z)) => c == z,
            (Some3::AB(a, b), Some3::AB(x, y)) => a == x && b == y,
            (Some3::AC(a, c), Some3::AC(x, z)) => a == x && c == z,
            (Some3::BC(b, c), Some3::BC(y, z)) => b == y && c == z,
            (Some3::ABC(a, b, c), Some3::ABC(x, y, z)) => a == x && b == y && c == z,
            _ => false,
        }),
{
}

} // verus!
