use vstd::prelude::*;

use crate::models::ingredients::{Ingredient, IngredientKey, Process};
use crate::process::{
    process_blanch, process_crush, process_dry, process_ferment, process_infuse, process_pickle,
    spec_blanch, spec_crush, spec_dry, spec_ferment, spec_infuse, spec_pickle,
};
use crate::seq_util::{flat_of, lemma_flat_of_push};

verus! {

/// The inputs of the enumeration phase: which raw ingredients are on hand,
/// the arcane power (largest combination size), the utilisation multiplier,
/// and the preparation transforms to permute.
#[derive(Debug, Clone, PartialEq, Eq)]
pub struct EnumerateConfig {
    pub ingredients: Vec<IngredientKey>,
    pub arcane_power: i64,
    pub utilisation: i32,
    pub processes: Vec<Process>,
}

/// An optional derived variant as a sequence: one element when the
/// transform succeeded, none when it did not.
pub open spec fn opt_seq(o: Option<Ingredient>) -> Seq<Ingredient> {
    match o {
        Some(i) => seq![i],
        None => Seq::empty(),
    }
}

/// The fermented variants of every ingredient in `s` that ferments, in order.
pub open spec fn ferment_extras(s: Seq<Ingredient>) -> Seq<Ingredient> {
    flat_of(s, |i: Ingredient| opt_seq(spec_ferment(i)))
}

/// The infused variants of every ingredient in `s` that infuses, in order.
pub open spec fn infuse_extras(s: Seq<Ingredient>) -> Seq<Ingredient> {
    flat_of(s, |i: Ingredient| opt_seq(spec_infuse(i)))
}

/// Every variant reachable from one ingredient under the requested
/// transforms: the ingredient itself, then each requested cut of it, then —
/// feeding forward — the fermented variant of every variant so far, then the
/// infused variant of every variant so far.
pub open spec fn spec_permute(ing: Ingredient, processes: Seq<Process>) -> Seq<Ingredient> {
    let with_cuts = seq![ing] + (if processes.contains(Process::Crush) {
        opt_seq(spec_crush(ing))
    } else {
        Seq::empty()
    }) + (if processes.contains(Process::Blanch) {
        opt_seq(spec_blanch(ing))
    } else {
        Seq::empty()
    }) + (if processes.contains(Process::Dry) {
        opt_seq(spec_dry(ing))
    } else {
        Seq::empty()
    }) + (if processes.contains(Process::Pickle) {
        opt_seq(spec_pickle(ing))
    } else {
        Seq::empty()
    });
    let with_ferment = if processes.contains(Process::Ferment) {
        with_cuts + ferment_extras(with_cuts)
    } else {
        with_cuts
    };
    if processes.contains(Process::Infuse) {
        with_ferment + infuse_extras(with_ferment)
    } else {
        with_ferment
    }
}

/// The variants of every ingredient of a list, grouped contiguously in
/// input order.
pub open spec fn spec_permute_all(
    ingredients: Seq<Ingredient>,
    processes: Seq<Process>,
) -> Seq<Ingredient> {
    flat_of(ingredients, |i: Ingredient| spec_permute(i, processes))
}

/// Whether a transform was requested.
fn has_process(processes: &Vec<Process>, p: Process) -> (b: bool)
    ensures
        b == processes@.contains(p),
{
    let mut i: usize = 0;
    while i < processes.len()
        invariant
            0 <= i <= processes@.len(),
            forall|j: int| 0 <= j < i ==> processes@[j] != p,
        decreases processes@.len() - i,
    {
        if processes[i] == p {
            return true;
        }
        i = i + 1;
    }
    false
}

/// Derives every reachable variant of one ingredient under the requested
/// transforms.  The result always starts with the ingredient itself, so
/// permutation never fails.
pub fn permute_ingredient(ingredient: &Ingredient, processes: &Vec<Process>) -> (result: Vec<
    Ingredient,
>)
    ensures
        result@ == spec_permute(*ingredient, processes@),
        result@.len() >= 1,
        result@[0] == *ingredient,
{
    let mut result: Vec<Ingredient> = Vec::new();
    result.push(*ingredient);

    if has_process(processes, Process::Crush) {
        if let Some(crushed_ingredient) = process_crush(ingredient) {
            result.push(crushed_ingredient);
        }
    }
    if has_process(processes, Process::Blanch) {
        if let Some(blanched_ingredient) = process_blanch(ingredient) {
            result.push(blanched_ingredient);
        }
    }
    if has_process(processes, Process::Dry) {
        if let Some(dried_ingredient) = process_dry(ingredient) {
            result.push(dried_ingredient);
        }
    }
    if has_process(processes, Process::Pickle) {
        if let Some(pickled_ingredient) = process_pickle(ingredient) {
            result.push(pickled_ingredient);
        }
    }

    let ghost with_cuts = seq![*ingredient] + (if processes@.contains(Process::Crush) {
        opt_seq(spec_crush(*ingredient))
    } else {
        Seq::empty()
    }) + (if processes@.contains(Process::Blanch) {
        opt_seq(spec_blanch(*ingredient))
    } else {
        Seq::empty()
    }) + (if processes@.contains(Process::Dry) {
        opt_seq(spec_dry(*ingredient))
    } else {
        Seq::empty()
    }) + (if processes@.contains(Process::Pickle) {
        opt_seq(spec_pickle(*ingredient))
    } else {
        Seq::empty()
    });
    proof {
        assert(result@ =~= with_cuts);
    }

    if has_process(processes, Process::Ferment) {
        let ghost base = result@;
        let n = result.len();
        let mut i: usize = 0;
        proof {
            assert(base.take(0) =~= Seq::<Ingredient>::empty());
        }
        while i < n
            invariant
                0 <= i <= n,
                n == base.len(),
                result@ == base + ferment_extras(base.take(i as int)),
            decreases n - i,
        {
            proof {
                assert(result@[i as int] == base[i as int]);
                lemma_flat_of_push(
                    base.take(i as int),
                    |ing: Ingredient| opt_seq(spec_ferment(ing)),
                    base[i as int],
                );
                assert(base.take(i as int + 1) =~= base.take(i as int).push(base[i as int]));
            }
            let candidate = result[i];
            if let Some(ferment_result) = process_ferment(&candidate) {
                result.push(ferment_result);
            }
            proof {
                assert(result@ =~= base + ferment_extras(base.take(i as int + 1)));
            }
            i = i + 1;
        }
        proof {
            assert(base.take(n as int) =~= base);
        }
    }

    if has_process(processes, Process::Infuse) {
        let ghost base = result@;
        let n = result.len();
        let mut i: usize = 0;
        proof {
            assert(base.take(0) =~= Seq::<Ingredient>::empty());
        }
        while i < n
            invariant
                0 <= i <= n,
                n == base.len(),
                result@ == base + infuse_extras(base.take(i as int)),
            decreases n - i,
        {
            proof {
                assert(result@[i as int] == base[i as int]);
                lemma_flat_of_push(
                    base.take(i as int),
                    |ing: Ingredient| opt_seq(spec_infuse(ing)),
                    base[i as int],
                );
                assert(base.take(i as int + 1) =~= base.take(i as int).push(base[i as int]));
            }
            let candidate = result[i];
            if let Some(infuse_result) = process_infuse(&candidate) {
                result.push(infuse_result);
            }
            proof {
                assert(result@ =~= base + infuse_extras(base.take(i as int + 1)));
            }
            i = i + 1;
        }
        proof {
            assert(base.take(n as int) =~= base);
        }
    }

    result
}

/// Derives every variant of every ingredient of a list; each ingredient's
/// variants are grouped contiguously, in input order.
pub fn permute_ingredients(ingredients: &Vec<Ingredient>, processes: &Vec<Process>) -> (result:
    Vec<Ingredient>)
    ensures
        result@ == spec_permute_all(ingredients@, processes@),
{
    let mut result: Vec<Ingredient> = Vec::new();
    let mut i: usize = 0;
    proof {
        assert(ingredients@.take(0) =~= Seq::<Ingredient>::empty());
    }
    while i < ingredients.len()
        invariant
            0 <= i <= ingredients@.len(),
            result@ == spec_permute_all(ingredients@.take(i as int), processes@),
        decreases ingredients@.len() - i,
    {
        let mut variants = permute_ingredient(&ingredients[i], processes);
        result.append(&mut variants);
        proof {
            lemma_flat_of_push(
                ingredients@.take(i as int),
                |ing: Ingredient| spec_permute(ing, processes@),
                ingredients@[i as int],
            );
            assert(ingredients@.take(i as int + 1) =~= ingredients@.take(i as int).push(
                ingredients@[i as int],
            ));
        }
        i = i + 1;
    }
    proof {
        assert(ingredients@.take(ingredients@.len() as int) =~= ingredients@);
    }
    result
}

/// Transform closure on a raw ingredient, crushing only: exactly the
/// original and its crushed variant come back.
pub proof fn lemma_permute_crush_on_raw(ing: Ingredient)
    requires
        ing.parts is Raw,
    ensures
        spec_permute(ing, seq![Process::Crush]) == seq![ing, spec_crush(ing).unwrap()],
        spec_permute(ing, seq![Process::Crush]).len() == 2,
{
    let ps = seq![Process::Crush];
    assert(ps.contains(Process::Crush)) by {
        assert(ps[0] == Process::Crush);
    }
    assert(!ps.contains(Process::Blanch));
    assert(!ps.contains(Process::Dry));
    assert(!ps.contains(Process::Pickle));
    assert(!ps.contains(Process::Ferment));
    assert(!ps.contains(Process::Infuse));
    assert(spec_permute(ing, ps) =~= seq![ing, spec_crush(ing).unwrap()]);
}

/// Transform closure on a raw ingredient, crushing and fermenting: besides
/// the original and its crushed variant, one more variant comes back for the
/// raw form and one for the crushed form exactly when an impurity slot
/// survives in that form.
pub proof fn lemma_permute_crush_ferment_on_raw(ing: Ingredient)
    requires
        ing.parts is Raw,
        ing.process is Raw,
    ensures
        spec_permute(ing, seq![Process::Crush, Process::Ferment]).len() == 2 + (if
        crate::process::spec_has_impurity(ing) {
            1int
        } else {
            0int
        }) + (if crate::process::spec_has_impurity(spec_crush(ing).unwrap()) {
            1int
        } else {
            0int
        }),
{
    let ps = seq![Process::Crush, Process::Ferment];
    assert(ps.contains(Process::Crush)) by {
        assert(ps[0] == Process::Crush);
    }
    assert(ps.contains(Process::Ferment)) by {
        assert(ps[1] == Process::Ferment);
    }
    assert(!ps.contains(Process::Blanch));
    assert(!ps.contains(Process::Dry));
    assert(!ps.contains(Process::Pickle));
    assert(!ps.contains(Process::Infuse));

    let crushed = spec_crush(ing).unwrap();
    let with_cuts = seq![ing] + opt_seq(spec_crush(ing)) + Seq::<Ingredient>::empty()
        + Seq::<Ingredient>::empty() + Seq::<Ingredient>::empty();
    assert(with_cuts =~= seq![ing, crushed]);
    assert(spec_permute(ing, ps) == with_cuts + ferment_extras(with_cuts));

    let pair = seq![ing, crushed];
    assert(pair[0] == ing);
    assert(pair.drop_first() =~= seq![crushed]);
    assert(ferment_extras(pair) == opt_seq(spec_ferment(ing)) + ferment_extras(seq![crushed]));
    assert(seq![crushed][0] == crushed);
    assert(seq![crushed].drop_first() =~= Seq::<Ingredient>::empty());
    assert(ferment_extras(seq![crushed]) == opt_seq(spec_ferment(crushed)) + ferment_extras(
        Seq::<Ingredient>::empty(),
    ));
    assert(ferment_extras(Seq::<Ingredient>::empty()) =~= Seq::<Ingredient>::empty());
}

/// The binomial coefficient, by Pascal's recurrence.
pub open spec fn binomial(n: nat, k: nat) -> nat
    decreases n, k,
{
    if k == 0 {
        1
    } else if n == 0 {
        0
    } else {
        binomial((n - 1) as nat, (k - 1) as nat) + binomial((n - 1) as nat, k)
    }
}

/// Choosing more elements than there are yields no combination.
pub proof fn lemma_binomial_vanishes(n: nat, k: nat)
    requires
        k > n,
    ensures
        binomial(n, k) == 0,
    decreases n,
{
    if n > 0 {
        lemma_binomial_vanishes((n - 1) as nat, (k - 1) as nat);
        lemma_binomial_vanishes((n - 1) as nat, k);
    }
}

/// A binomial coefficient is bounded by the corresponding power of two.
pub proof fn lemma_binomial_le_pow2(n: nat, k: nat)
    ensures
        binomial(n, k) <= vstd::arithmetic::power2::pow2(n),
    decreases n,
{
    vstd::arithmetic::power2::lemma_pow2_pos(n);
    if k == 0 {
    } else if n == 0 {
    } else {
        lemma_binomial_le_pow2((n - 1) as nat, (k - 1) as nat);
        lemma_binomial_le_pow2((n - 1) as nat, k);
        vstd::arithmetic::power2::lemma_pow2_unfold(n);
    }
}

/// With at most 120 items, every binomial coefficient fits in a `u128`.
proof fn lemma_binomial_fits_u128(n: nat, k: nat)
    requires
        n <= 120,
    ensures
        binomial(n, k) < u128::MAX,
{
    lemma_binomial_le_pow2(n, k);
    vstd::arithmetic::power2::lemma2_to64();
    vstd::arithmetic::power2::lemma2_to64_rest();
    vstd::arithmetic::power2::lemma_pow2_adds(64, 56);
    assert(vstd::arithmetic::power2::pow2(64) * vstd::arithmetic::power2::pow2(56)
        == 0x1000000000000000000000000000000) by (nonlinear_arith)
        requires
            vstd::arithmetic::power2::pow2(64) == 0x10000000000000000,
            vstd::arithmetic::power2::pow2(56) == 0x100000000000000,
    ;
    if n < 120 {
        vstd::arithmetic::power2::lemma_pow2_strictly_increases(n, 120);
    }
}

/// Computes a binomial coefficient by building Pascal's triangle row by
/// row; defined for at most 120 items, which keeps every entry in `u128`.
pub fn binomial_coefficient(n: u64, k: u64) -> (r: u128)
    requires
        n <= 120,
    ensures
        r == binomial(n as nat, k as nat),
{
    if k > n {
        proof {
            lemma_binomial_vanishes(n as nat, k as nat);
        }
        return 0;
    }

    let kk: usize = k as usize;

    // Row 0 of the triangle, columns 0 through k.
    let mut row: Vec<u128> = Vec::new();
    row.push(1);
    let mut j: usize = 1;
    while j <= kk
        invariant
            1 <= j <= kk + 1,
            kk == k,
            k <= n <= 120,
            row@.len() == j,
            row@[0] == 1,
            forall|t: int| 1 <= t < j ==> row@[t] == 0,
        decreases kk + 1 - j,
    {
        row.push(0);
        j = j + 1;
    }
    proof {
        assert forall|t: int| 0 <= t < row@.len() implies row@[t] == binomial(
            0,
            t as nat,
        ) by {
            if t >= 1 {
                lemma_binomial_vanishes(0, t as nat);
            }
        }
    }

    let mut i: u64 = 0;
    while i < n
        invariant
            0 <= i <= n,
            n <= 120,
            kk == k,
            row@.len() == k + 1,
            k <= n,
            forall|t: int| 0 <= t <= k ==> row@[t] == binomial(i as nat, t as nat),
        decreases n - i,
    {
        let mut next: Vec<u128> = Vec::new();
        next.push(1);
        let mut j: usize = 1;
        while j <= kk
            invariant
                1 <= j <= kk + 1,
                kk == k,
                k <= n <= 120,
                row@.len() == k + 1,
                i < n,
                next@.len() == j,
                forall|t: int| 0 <= t <= k ==> row@[t] == binomial(i as nat, t as nat),
                forall|t: int| 0 <= t < j ==> next@[t] == binomial(i as nat + 1, t as nat),
            decreases kk + 1 - j,
        {
            proof {
                lemma_binomial_fits_u128(i as nat + 1, (j - 1) as nat);
                lemma_binomial_fits_u128(i as nat + 1, j as nat);
                lemma_binomial_fits_u128(i as nat, (j - 1) as nat);
                lemma_binomial_fits_u128(i as nat, j as nat);
            }
            let entry: u128 = row[j - 1] + row[j];
            next.push(entry);
            j = j + 1;
        }
        row = next;
        i = i + 1;
    }
    row[kk]
}

/// All index-ordered combinations of `k` elements of `s`, in lexicographic
/// order of positions: those containing the first element (prepended to each
/// combination of the rest), then those avoiding it.
pub open spec fn spec_combinations(s: Seq<Ingredient>, k: nat) -> Seq<Seq<Ingredient>>
    decreases s.len(),
{
    if k == 0 {
        seq![Seq::<Ingredient>::empty()]
    } else if s.len() < k {
        Seq::empty()
    } else {
        spec_combinations(s.drop_first(), (k - 1) as nat).map_values(
            |c: Seq<Ingredient>| seq![s[0]] + c,
        ) + spec_combinations(s.drop_first(), k)
    }
}

/// The number of combinations is the binomial coefficient.
pub proof fn lemma_combinations_count(s: Seq<Ingredient>, k: nat)
    ensures
        spec_combinations(s, k).len() == binomial(s.len(), k),
    decreases s.len(),
{
    if k == 0 {
    } else if s.len() < k {
        lemma_binomial_vanishes(s.len(), k);
    } else {
        lemma_combinations_count(s.drop_first(), (k - 1) as nat);
        lemma_combinations_count(s.drop_first(), k);
    }
}

/// Recursive worker: all `k`-combinations of the variants from `start` on.
fn combos_from(variants: &Vec<Ingredient>, start: usize, k: usize) -> (r: Vec<Vec<Ingredient>>)
    requires
        start <= variants@.len(),
    ensures
        r@.map_values(|v: Vec<Ingredient>| v@) == spec_combinations(
            variants@.skip(start as int),
            k as nat,
        ),
    decreases variants@.len() - start,
{
    let ghost tail = variants@.skip(start as int);
    if k == 0 {
        let mut r: Vec<Vec<Ingredient>> = Vec::new();
        r.push(Vec::new());
        proof {
            assert(r@.map_values(|v: Vec<Ingredient>| v@) =~= spec_combinations(tail, 0));
        }
        return r;
    }
    if variants.len() - start < k {
        let r: Vec<Vec<Ingredient>> = Vec::new();
        proof {
            assert(tail.len() < k);
            assert(r@.map_values(|v: Vec<Ingredient>| v@) =~= spec_combinations(tail, k as nat));
        }
        return r;
    }

    let first = variants[start];
    let with_first_sub = combos_from(variants, start + 1, k - 1);
    let ghost sub = spec_combinations(variants@.skip(start as int + 1), (k - 1) as nat);

    let mut r: Vec<Vec<Ingredient>> = Vec::new();
    let mut i: usize = 0;
    while i < with_first_sub.len()
        invariant
            0 <= i <= with_first_sub@.len(),
            with_first_sub@.map_values(|v: Vec<Ingredient>| v@) == sub,
            first == variants@[start as int],
            r@.len() == i,
            forall|j: int| 0 <= j < i ==> #[trigger] r@[j]@ == seq![variants@[start as int]]
                + sub[j],
        decreases with_first_sub@.len() - i,
    {
        let mut nv: Vec<Ingredient> = Vec::new();
        nv.push(first);
        let mut t: usize = 0;
        while t < with_first_sub[i].len()
            invariant
                0 <= t <= with_first_sub@[i as int]@.len(),
                i < with_first_sub@.len(),
                first == variants@[start as int],
                nv@ == seq![variants@[start as int]] + with_first_sub@[i as int]@.take(t as int),
            decreases with_first_sub@[i as int]@.len() - t,
        {
            nv.push(with_first_sub[i][t]);
            proof {
                assert(with_first_sub@[i as int]@.take(t as int + 1) =~= with_first_sub@[
                    i as int
                ]@.take(t as int).push(with_first_sub@[i as int]@[t as int]));
                assert(nv@ =~= seq![variants@[start as int]] + with_first_sub@[i as int]@.take(
                    t as int + 1,
                ));
            }
            t = t + 1;
        }
        proof {
            assert(with_first_sub@[i as int]@.take(with_first_sub@[i as int]@.len() as int)
                =~= with_first_sub@[i as int]@);
            assert(with_first_sub@.map_values(|v: Vec<Ingredient>| v@)[i as int]
                == with_first_sub@[i as int]@);
        }
        r.push(nv);
        i = i + 1;
    }

    let mut without = combos_from(variants, start + 1, k);
    let ghost prepended = r@;
    let ghost without_view = without@;
    r.append(&mut without);

    proof {
        let view_fn = |v: Vec<Ingredient>| v@;
        assert(tail[0] == variants@[start as int]);
        assert(tail.drop_first() =~= variants@.skip(start as int + 1));
        let lhs = r@.map_values(view_fn);
        let rhs = spec_combinations(tail, k as nat);
        assert(rhs == sub.map_values(|c: Seq<Ingredient>| seq![tail[0]] + c) + spec_combinations(
            tail.drop_first(),
            k as nat,
        ));
        assert(r@ == prepended + without_view);
        assert forall|j: int| 0 <= j < lhs.len() implies lhs[j] == rhs[j] by {
            assert(lhs[j] == r@[j]@);
            if j < prepended.len() {
                assert(r@[j] == prepended[j]);
                assert(rhs[j] == (sub.map_values(|c: Seq<Ingredient>| seq![tail[0]] + c))[j]);
            } else {
                assert(r@[j] == without_view[j - prepended.len()]);
                assert(without_view.map_values(view_fn)[j - prepended.len()] == without_view[j
                    - prepended.len()]@);
            }
        }
        assert(lhs =~= rhs);
    }
    r
}

/// All `k`-element combinations of a variant list, in lexicographic order
/// of positions; the enumeration is a pure function of its inputs, so it can
/// be re-enumerated deterministically.
pub fn combinations(variants: &Vec<Ingredient>, k: usize) -> (r: Vec<Vec<Ingredient>>)
    ensures
        r@.map_values(|v: Vec<Ingredient>| v@) == spec_combinations(variants@, k as nat),
{
    let r = combos_from(variants, 0, k);
    proof {
        assert(variants@.skip(0) =~= variants@);
    }
    r
}


/// Recursive worker for rank access: the combination at `rank` among the
/// `k`-combinations of the variants from `start` on, in lexicographic order.
fn generate_from(variants: &Vec<Ingredient>, start: usize, k: usize, rank: u128) -> (r: Vec<
    Ingredient,
>)
    requires
        start <= variants@.len(),
        variants@.len() <= 120,
        rank < binomial((variants@.len() - start) as nat, k as nat),
    ensures
        r@ == spec_combinations(variants@.skip(start as int), k as nat)[rank as int],
    decreases variants@.len() - start,
{
    let ghost tail = variants@.skip(start as int);
    let tail_len = variants.len() - start;

    if k == 0 {
        let r: Vec<Ingredient> = Vec::new();
        proof {
            assert(spec_combinations(tail, 0)[0] =~= Seq::<Ingredient>::empty());
        }
        return r;
    }

    proof {
        if tail_len < k {
            lemma_binomial_vanishes(tail_len as nat, k as nat);
            assert(false);
        }
    }

    let first_block = binomial_coefficient((tail_len - 1) as u64, (k - 1) as u64);
    let ghost sub = spec_combinations(variants@.skip(start as int + 1), (k - 1) as nat);
    let ghost without = spec_combinations(variants@.skip(start as int + 1), k as nat);
    proof {
        assert(tail[0] == variants@[start as int]);
        assert(tail.drop_first() =~= variants@.skip(start as int + 1));
        lemma_combinations_count(variants@.skip(start as int + 1), (k - 1) as nat);
        lemma_combinations_count(variants@.skip(start as int + 1), k as nat);
        assert(spec_combinations(tail, k as nat) == sub.map_values(
            |c: Seq<Ingredient>| seq![tail[0]] + c,
        ) + without);
    }

    if rank < first_block {
        let below = generate_from(variants, start + 1, k - 1, rank);
        let mut r: Vec<Ingredient> = Vec::new();
        r.push(variants[start]);
        let mut t: usize = 0;
        while t < below.len()
            invariant
                0 <= t <= below@.len(),
                r@ == seq![variants@[start as int]] + below@.take(t as int),
            decreases below@.len() - t,
        {
            r.push(below[t]);
            proof {
                assert(below@.take(t as int + 1) =~= below@.take(t as int).push(
                    below@[t as int],
                ));
                assert(r@ =~= seq![variants@[start as int]] + below@.take(t as int + 1));
            }
            t = t + 1;
        }
        proof {
            assert(below@.take(below@.len() as int) =~= below@);
            assert(spec_combinations(tail, k as nat)[rank as int] == seq![tail[0]] + sub[
                rank as int
            ]);
        }
        r
    } else {
        proof {
            // Pascal's rule splits the enumeration into the two blocks.
            assert(binomial(tail_len as nat, k as nat) == binomial(
                (tail_len - 1) as nat,
                (k - 1) as nat,
            ) + binomial((tail_len - 1) as nat, k as nat));
        }
        let r = generate_from(variants, start + 1, k, rank - first_block);
        proof {
            assert(spec_combinations(tail, k as nat)[rank as int] == without[rank as int
                - first_block as int]);
        }
        r
    }
}

/// Random access into the combination enumeration: the combination at a
/// given rank, without materializing the others.  Together with
/// `lemma_combinations_count` this is a bijection between the ranks below
/// the binomial coefficient and the `k`-combinations, so the enumeration
/// can be partitioned by rank ranges and re-enumerated deterministically.
pub fn generate_combination(variants: &Vec<Ingredient>, k: usize, rank: u128) -> (r: Vec<
    Ingredient,
>)
    requires
        variants@.len() <= 120,
        rank < binomial(variants@.len() as nat, k as nat),
    ensures
        r@ == spec_combinations(variants@, k as nat)[rank as int],
{
    proof {
        assert(variants@.skip(0) =~= variants@);
    }
    generate_from(variants, 0, k, rank)
}
} // verus!
