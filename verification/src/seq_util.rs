use vstd::prelude::*;

verus! {

/// Concatenation of `f` applied to every element of `s`, in order.
pub open spec fn flat_of<A, B>(s: Seq<A>, f: spec_fn(A) -> Seq<B>) -> Seq<B>
    decreases s.len(),
{
    if s.len() == 0 {
        Seq::empty()
    } else {
        f(s[0]) + flat_of(s.drop_first(), f)
    }
}

/// Appending one element on the right extends the flattening on the right.
pub proof fn lemma_flat_of_push<A, B>(s: Seq<A>, f: spec_fn(A) -> Seq<B>, x: A)
    ensures
        flat_of(s.push(x), f) == flat_of(s, f) + f(x),
    decreases s.len(),
{
    if s.len() == 0 {
        assert(s =~= Seq::<A>::empty());
        assert(s.push(x)[0] == x);
        assert(s.push(x).drop_first() =~= s);
        assert(flat_of(s.push(x), f) =~= flat_of(s, f) + f(x));
    } else {
        assert(s.push(x)[0] == s[0]);
        assert(s.push(x).drop_first() =~= s.drop_first().push(x));
        lemma_flat_of_push(s.drop_first(), f, x);
        assert(flat_of(s.push(x), f) == f(s[0]) + (flat_of(s.drop_first(), f) + f(x)));
        assert(flat_of(s.push(x), f) =~= flat_of(s, f) + f(x));
    }
}

/// The sum of `f` over every element of `s`.
pub open spec fn sum_of<A>(s: Seq<A>, f: spec_fn(A) -> int) -> int
    decreases s.len(),
{
    if s.len() == 0 {
        0
    } else {
        f(s[0]) + sum_of(s.drop_first(), f)
    }
}

/// Appending one element on the right adds its summand on the right.
pub proof fn lemma_sum_of_push<A>(s: Seq<A>, f: spec_fn(A) -> int, x: A)
    ensures
        sum_of(s.push(x), f) == sum_of(s, f) + f(x),
    decreases s.len(),
{
    if s.len() == 0 {
        assert(s =~= Seq::<A>::empty());
        assert(s.push(x)[0] == x);
        assert(s.push(x).drop_first() =~= s);
    } else {
        assert(s.push(x)[0] == s[0]);
        assert(s.push(x).drop_first() =~= s.drop_first().push(x));
        lemma_sum_of_push(s.drop_first(), f, x);
        assert(sum_of(s.push(x), f) == f(s[0]) + (sum_of(s.drop_first(), f) + f(x)));
    }
}

/// A sum whose summands all lie in `[lo, hi]` lies in `[len * lo, len * hi]`.
pub proof fn lemma_sum_of_bounds<A>(s: Seq<A>, f: spec_fn(A) -> int, lo: int, hi: int)
    requires
        forall|i: int| 0 <= i < s.len() ==> lo <= #[trigger] f(s[i]) <= hi,
    ensures
        s.len() * lo <= sum_of(s, f) <= s.len() * hi,
    decreases s.len(),
{
    if s.len() == 0 {
    } else {
        let rest = s.drop_first();
        assert(forall|i: int| 0 <= i < rest.len() ==> lo <= #[trigger] f(rest[i]) <= hi) by {
            assert(forall|i: int| 0 <= i < rest.len() ==> rest[i] == s[i + 1]);
        }
        lemma_sum_of_bounds(rest, f, lo, hi);
        assert(f(s[0]) + rest.len() * lo >= s.len() * lo && f(s[0]) + rest.len() * hi
            <= s.len() * hi) by (nonlinear_arith)
            requires
                lo <= f(s[0]) <= hi,
                rest.len() + 1 == s.len(),
        ;
    }
}

/// The number of elements of `s` that satisfy `f`.
pub open spec fn count_of<A>(s: Seq<A>, f: spec_fn(A) -> bool) -> int {
    sum_of(s, |x: A| if f(x) { 1int } else { 0int })
}

/// A count lies between zero and the length of the sequence.
pub proof fn lemma_count_of_bounds<A>(s: Seq<A>, f: spec_fn(A) -> bool)
    ensures
        0 <= count_of(s, f) <= s.len(),
{
    lemma_sum_of_bounds(s, |x: A| if f(x) { 1int } else { 0int }, 0, 1);
}

/// Counting one more element adds one exactly when it satisfies `f`.
pub proof fn lemma_count_of_push<A>(s: Seq<A>, f: spec_fn(A) -> bool, x: A)
    ensures
        count_of(s.push(x), f) == count_of(s, f) + if f(x) { 1int } else { 0int },
{
    lemma_sum_of_push(s, |y: A| if f(y) { 1int } else { 0int }, x);
}

} // verus!
