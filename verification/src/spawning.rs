//! The spawning schedule: pills are spawned a batch at a time, one batch per
//! update, until every pending pill is in the scene.
use vstd::prelude::*;

verus! {

/// The smaller of two counts.
pub open spec fn min_nat(a: nat, b: nat) -> nat {
    if a <= b {
        a
    } else {
        b
    }
}

/// How many pills the next update spawns when `spawned` of `total` are in the
/// scene and at most `batch` are spawned per update.
pub open spec fn batch_len(spawned: nat, total: nat, batch: nat) -> nat {
    if spawned < total {
        min_nat(batch, (total - spawned) as nat)
    } else {
        0
    }
}

/// How many pills are in the scene after one more update.
pub open spec fn next_spawned(spawned: nat, total: nat, batch: nat) -> nat {
    spawned + batch_len(spawned, total, batch)
}

/// How many pills are in the scene after `updates` more updates.
pub open spec fn spawned_after(spawned: nat, total: nat, batch: nat, updates: nat) -> nat
    decreases updates,
{
    if updates == 0 {
        spawned
    } else {
        spawned_after(next_spawned(spawned, total, batch), total, batch, (updates - 1) as nat)
    }
}

/// The number of updates that spawn the pills still pending, batch by batch.
pub open spec fn updates_to_finish(spawned: nat, total: nat, batch: nat) -> nat
    recommends
        batch > 0,
{
    if spawned >= total {
        0
    } else {
        ((total - spawned + batch - 1) / (batch as int)) as nat
    }
}

proof fn lemma_mul_step(k: nat, batch: nat)
    ensures
        (k + 1) * batch == k * batch + batch,
{
    assert((k + 1) * batch == k * batch + batch) by (nonlinear_arith);
}

/// After `updates` updates the scene holds `spawned + updates * batch` pills,
/// or all of them once that reaches `total`.
pub proof fn lemma_spawned_after_closed_form(spawned: nat, total: nat, batch: nat, updates: nat)
    requires
        spawned <= total,
    ensures
        spawned_after(spawned, total, batch, updates) == min_nat(total, spawned + updates * batch),
    decreases updates,
{
    if updates == 0 {
        assert(updates * batch == 0) by (nonlinear_arith)
            requires
                updates == 0,
        ;
    } else {
        let next = next_spawned(spawned, total, batch);
        let k = (updates - 1) as nat;
        lemma_spawned_after_closed_form(next, total, batch, k);
        lemma_mul_step(k, batch);
        assert(updates * batch == k * batch + batch);
        assert(k * batch >= 0) by (nonlinear_arith);
    }
}

/// One update spawns the batch size of pills, or all that are left when fewer
/// remain, and the spawned count advances by exactly the batch it spawned: the
/// batch never overshoots, never skips a pill, and is empty only when nothing
/// is left or the batch size is zero.
pub proof fn lemma_batch_step(spawned: nat, total: nat, batch: nat)
    requires
        spawned <= total,
    ensures
        next_spawned(spawned, total, batch) == spawned + batch_len(spawned, total, batch),
        spawned + batch_len(spawned, total, batch) <= total,
        batch_len(spawned, total, batch) <= batch,
        spawned < total ==> (batch_len(spawned, total, batch) == batch || spawned + batch_len(
            spawned,
            total,
            batch,
        ) == total),
        spawned < total && batch <= total - spawned ==> batch_len(spawned, total, batch) == batch,
        spawned < total && batch >= total - spawned ==> spawned + batch_len(spawned, total, batch)
            == total,
        spawned == total ==> batch_len(spawned, total, batch) == 0,
{
}

/// Spawning always advances: the count of spawned pills never decreases and
/// never exceeds the total.
pub proof fn lemma_spawned_after_monotonic(spawned: nat, total: nat, batch: nat, a: nat, b: nat)
    requires
        spawned <= total,
        a <= b,
    ensures
        spawned_after(spawned, total, batch, a) <= spawned_after(spawned, total, batch, b),
        spawned_after(spawned, total, batch, b) <= total,
{
    lemma_spawned_after_closed_form(spawned, total, batch, a);
    lemma_spawned_after_closed_form(spawned, total, batch, b);
    assert(a * batch <= b * batch) by (nonlinear_arith)
        requires
            a <= b,
    ;
}

/// With a positive batch size, every pending pill is spawned after exactly
/// `updates_to_finish` updates, and not one update earlier.
pub proof fn lemma_spawning_completes(spawned: nat, total: nat, batch: nat)
    requires
        spawned <= total,
        batch > 0,
    ensures
        spawned_after(spawned, total, batch, updates_to_finish(spawned, total, batch)) == total,
        forall|k: nat|
            k < updates_to_finish(spawned, total, batch) ==> #[trigger] spawned_after(
                spawned,
                total,
                batch,
                k,
            ) < total,
{
    let n = updates_to_finish(spawned, total, batch);
    lemma_spawned_after_closed_form(spawned, total, batch, n);
    if spawned < total {
        let rest = (total - spawned) as nat;
        assert(n * batch >= rest) by (nonlinear_arith)
            requires
                n == (rest + batch - 1) / (batch as int),
                batch > 0,
        ;
    }
    assert forall|k: nat| k < n implies #[trigger] spawned_after(spawned, total, batch, k) < total by {
        lemma_spawned_after_closed_form(spawned, total, batch, k);
        let rest = (total - spawned) as nat;
        assert(k * batch < rest) by (nonlinear_arith)
            requires
                k < n,
                n == (rest + batch - 1) / (batch as int),
                batch > 0,
        ;
    }
}

/// With a positive batch size, each pending pill is spawned by exactly one
/// update: the `(pill - spawned) / batch`-th one from now.
pub proof fn lemma_each_pill_spawned_once(spawned: nat, total: nat, batch: nat, pill: nat)
    requires
        spawned <= pill < total,
        batch > 0,
    ensures
        ({
            let k = ((pill - spawned) / (batch as int)) as nat;
            spawned_after(spawned, total, batch, k) <= pill < spawned_after(
                spawned,
                total,
                batch,
                k + 1,
            )
        }),
        forall|j: nat|
            #![trigger spawned_after(spawned, total, batch, j)]
            spawned_after(spawned, total, batch, j) <= pill < spawned_after(
                spawned,
                total,
                batch,
                j + 1,
            ) ==> j == ((pill - spawned) / (batch as int)) as nat,
{
    let d = (pill - spawned) as nat;
    let k = d / batch;
    lemma_spawned_after_closed_form(spawned, total, batch, k);
    lemma_spawned_after_closed_form(spawned, total, batch, k + 1);
    assert(k * batch <= d && d < (k + 1) * batch) by (nonlinear_arith)
        requires
            k == d / batch,
            batch > 0,
    ;
    assert forall|j: nat|
        #![trigger spawned_after(spawned, total, batch, j)]
        spawned_after(spawned, total, batch, j) <= pill < spawned_after(spawned, total, batch, j + 1)
            implies j == k by {
        lemma_spawned_after_closed_form(spawned, total, batch, j);
        lemma_spawned_after_closed_form(spawned, total, batch, j + 1);
        if j < k {
            assert((j + 1) * batch <= k * batch) by (nonlinear_arith)
                requires
                    j < k,
            ;
        } else if j > k {
            assert((k + 1) * batch <= j * batch) by (nonlinear_arith)
                requires
                    j > k,
            ;
        }
    }
}

/// With a batch size of zero no update spawns anything: the scene stays as it is.
pub proof fn lemma_zero_batch_stalls(spawned: nat, total: nat, updates: nat)
    requires
        spawned <= total,
    ensures
        spawned_after(spawned, total, 0, updates) == spawned,
{
    lemma_spawned_after_closed_form(spawned, total, 0, updates);
    assert(updates * 0 == 0) by (nonlinear_arith);
}

/// The material that pill number `pill` uses when materials are handed out in
/// turn.
pub open spec fn spec_material_for_pill(pill: nat, material_count: nat) -> nat
    recommends
        material_count > 0,
{
    pill % material_count
}

/// Picks the material of pill number `pill`: materials are handed out in turn,
/// so the index is `pill` modulo the number of materials.
pub fn material_for_pill(pill: usize, material_count: usize) -> (index: usize)
    requires
        material_count > 0,
    ensures
        index == spec_material_for_pill(pill as nat, material_count as nat),
        index < material_count,
        pill < material_count ==> index == pill,
        (pill - index) % (material_count as int) == 0,
{
    let index = pill % material_count;
    proof {
        lemma_material_is_remainder(pill as nat, material_count as nat);
    }
    index
}

/// The material of a pill is its number less a whole number of rounds through
/// the materials, and is one of the materials: so the first `material_count`
/// pills get materials `0`, `1`, ... in order and every material is used.
pub proof fn lemma_material_is_remainder(pill: nat, material_count: nat)
    requires
        material_count > 0,
    ensures
        spec_material_for_pill(pill, material_count) < material_count,
        (pill - spec_material_for_pill(pill, material_count)) % (material_count as int) == 0,
        pill < material_count ==> spec_material_for_pill(pill, material_count) == pill,
{
    let r = spec_material_for_pill(pill, material_count);
    assert(r < material_count && (pill - r) % (material_count as int) == 0) by (nonlinear_arith)
        requires
            r == pill % material_count,
            material_count > 0,
    ;
    assert(pill < material_count ==> r == pill) by (nonlinear_arith)
        requires
            r == pill % material_count,
            material_count > 0,
    ;
}

/// Materials repeat with a period of the material count, and every material
/// index is one that exists.
pub proof fn lemma_material_cycle(pill: nat, material_count: nat)
    requires
        material_count > 0,
    ensures
        spec_material_for_pill(pill + material_count, material_count) == spec_material_for_pill(
            pill,
            material_count,
        ),
        spec_material_for_pill(pill, material_count) < material_count,
{
    assert((pill + material_count) % material_count == pill % material_count) by (nonlinear_arith)
        requires
            material_count > 0,
    ;
}

} // verus!
