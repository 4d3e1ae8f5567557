//! Selection, breeding and the generation-level machinery: scoring a
//! finished population, building the ticket-weighted breeding pool,
//! producing the next generation, partitioning work and running every
//! bot through the whole series.

use vstd::multiset::Multiset;
use vstd::prelude::*;

use crate::bot::traits::bred_from;
use crate::bot::{spec_run_period, Bot, BotModel};
use crate::config::Config;
use crate::price_data::{series_wf, PriceData};
use crate::rng::sample_u64;

verus! {

/// Why a generation cannot be bred.
#[derive(Copy, Clone, PartialEq, Eq, Structural, Hash, Debug)]
pub enum BreedError {
    /// No bot has positive fitness, so the breeding pool is empty.
    EmptyBreedingPool,
    /// Only one bot id has tickets, and self-breeding is forbidden.
    NoDistinctParents,
}

/// The summed fitness of the whole population.
pub open spec fn spec_total_fitness(bots: Seq<Bot>) -> int
    decreases bots.len(),
{
    if bots.len() == 0 {
        0
    } else {
        spec_total_fitness(bots.drop_last()) + bots.last().fitness
    }
}

/// Breeding tickets for one bot: its fitness share of the total,
/// as a percentage rounded up; no tickets without positive fitness
/// and a positive total.
pub open spec fn spec_tickets(fitness: int, total: int) -> int {
    if fitness > 0 && total > 0 {
        (fitness * 100 + total - 1) / total
    } else {
        0
    }
}

/// The breeding pool: for each bot in order, its index repeated once
/// per ticket.
pub open spec fn spec_pool(bots: Seq<Bot>, total: int) -> Seq<usize>
    decreases bots.len(),
{
    if bots.len() == 0 {
        Seq::empty()
    } else {
        spec_pool(bots.drop_last(), total) + Seq::new(
            spec_tickets(bots.last().fitness as int, total) as nat,
            |t: int| (bots.len() - 1) as usize,
        )
    }
}

/// Two pool entries name bots with different ids.
pub open spec fn spec_pool_ids_vary(bots: Seq<Bot>, pool: Seq<usize>) -> bool {
    exists|k1: int, k2: int|
        0 <= k1 < pool.len() && 0 <= k2 < pool.len() && #[trigger] bots[pool[k1] as int].id
            != #[trigger] bots[pool[k2] as int].id
}

/// At least two bots of positive fitness carry different ids, and the
/// population's summed fitness is positive: the preconditions under
/// which breeding is owed to succeed.
pub open spec fn spec_breedable(bots: Seq<Bot>) -> bool {
    &&& spec_total_fitness(bots) > 0
    &&& exists|i: int, j: int|
        0 <= i < bots.len() && 0 <= j < bots.len() && (#[trigger] bots[i]).fitness > 0
            && (#[trigger] bots[j]).fitness > 0 && bots[i].id != bots[j].id
}

/// Every pool entry is a valid index of a bot with positive fitness.
proof fn lemma_pool_entries(bots: Seq<Bot>, total: int)
    requires
        bots.len() <= usize::MAX,
    ensures
        forall|k: int|
            0 <= k < spec_pool(bots, total).len() ==> (#[trigger] spec_pool(bots, total)[k] as int)
                < bots.len() && bots[spec_pool(bots, total)[k] as int].fitness > 0,
    decreases bots.len(),
{
    if bots.len() > 0 {
        lemma_pool_entries(bots.drop_last(), total);
        let pool = spec_pool(bots, total);
        let prefix = spec_pool(bots.drop_last(), total);
        assert forall|k: int|
            0 <= k < pool.len() implies (#[trigger] pool[k] as int) < bots.len()
            && bots[pool[k] as int].fitness > 0 by {
            if k < prefix.len() {
                assert(pool[k] == prefix[k]);
                assert(bots.drop_last()[prefix[k] as int] == bots[prefix[k] as int]);
            } else {
                assert(pool[k] == (bots.len() - 1) as usize);
                assert(spec_tickets(bots.last().fitness as int, total) > 0);
            }
        }
    }
}

/// A bot with positive fitness has at least one ticket when the total
/// is positive.
proof fn lemma_tickets_positive(fitness: int, total: int)
    requires
        fitness > 0,
        total > 0,
    ensures
        spec_tickets(fitness, total) >= 1,
{
    assert(fitness * 100 >= 100) by (nonlinear_arith)
        requires
            fitness > 0,
    ;
    assert((fitness * 100 + total - 1) / total >= 1) by {
        vstd::arithmetic::div_mod::lemma_div_is_ordered(total, fitness * 100 + total - 1, total);
        vstd::arithmetic::div_mod::lemma_div_by_self(total);
    }
}

/// A bot of positive fitness appears in the pool when the total is
/// positive.
proof fn lemma_pool_contains(bots: Seq<Bot>, total: int, i: int)
    requires
        bots.len() <= usize::MAX,
        0 <= i < bots.len(),
        bots[i].fitness > 0,
        total > 0,
    ensures
        spec_pool(bots, total).contains(i as usize),
    decreases bots.len(),
{
    let pool = spec_pool(bots, total);
    let prefix = spec_pool(bots.drop_last(), total);
    if i == bots.len() - 1 {
        lemma_tickets_positive(bots.last().fitness as int, total);
        assert(pool[prefix.len() as int] == (bots.len() - 1) as usize);
        assert(pool.contains(i as usize));
    } else {
        lemma_pool_contains(bots.drop_last(), total, i);
        let k = choose|k: int| 0 <= k < prefix.len() && prefix[k] == i as usize;
        assert(pool[k] == i as usize);
        assert(pool.contains(i as usize));
    }
}

/// A breedable population has a non-empty pool whose entries span at
/// least two ids.
pub proof fn lemma_breedable_pool(bots: Seq<Bot>)
    requires
        bots.len() <= usize::MAX,
        spec_breedable(bots),
    ensures
        spec_pool(bots, spec_total_fitness(bots)).len() > 0,
        spec_pool_ids_vary(bots, spec_pool(bots, spec_total_fitness(bots))),
{
    let total = spec_total_fitness(bots);
    let pool = spec_pool(bots, total);
    let (i, j) = choose|i: int, j: int|
        0 <= i < bots.len() && 0 <= j < bots.len() && (#[trigger] bots[i]).fitness > 0
            && (#[trigger] bots[j]).fitness > 0 && bots[i].id != bots[j].id;
    lemma_pool_contains(bots, total, i);
    lemma_pool_contains(bots, total, j);
    let k1 = choose|k: int| 0 <= k < pool.len() && pool[k] == i as usize;
    let k2 = choose|k: int| 0 <= k < pool.len() && pool[k] == j as usize;
    assert(bots[pool[k1] as int].id != bots[pool[k2] as int].id);
}

/// A valid child for slot `k` of the next generation: fresh cash and
/// empty history, genome bred from two distinct-id parents of positive
/// fitness.
pub open spec fn spec_child_ok(child: Bot, bots: Seq<Bot>, cfg: Config, k: int) -> bool {
    &&& child.id == k as u64
    &&& child.money == cfg.starting_money
    &&& child.current_holdings@.len() == 0
    &&& child.sold_holdings@.len() == 0
    &&& child.fitness == 0
    &&& child.start_time is None
    &&& child.end_time is None
    &&& exists|i: int, j: int|
        0 <= i < bots.len() && 0 <= j < bots.len() && (#[trigger] bots[i]).fitness > 0
            && (#[trigger] bots[j]).fitness > 0 && bots[i].id != bots[j].id && bred_from(
            child.traits,
            bots[i].traits,
            bots[j].traits,
            cfg,
        )
}

/// The population's summed fitness, executably.
fn total_fitness(bots: &Vec<Bot>) -> (r: i128)
    ensures
        r as int == spec_total_fitness(bots@),
        bots@.len() <= usize::MAX,
{
    let n: usize = bots.len();
    let mut acc: i128 = 0;
    let mut i: usize = 0;
    while i < n
        invariant
            i <= n,
            n == bots@.len(),
            acc as int == spec_total_fitness(bots@.take(i as int)),
            -(i as int) * 0x8000_0000_0000_0000 <= acc as int <= (i as int)
                * 0x8000_0000_0000_0000,
        decreases n - i,
    {
        proof {
            assert(bots@.take(i + 1).drop_last() =~= bots@.take(i as int));
            assert(bots@.take(i + 1).last() == bots@[i as int]);
            lemma_mul_grows(i as int, n as int);
        }
        acc = acc + (bots[i].fitness as i128);
        i = i + 1;
    }
    proof {
        assert(bots@.take(n as int) =~= bots@);
    }
    acc
}

/// Multiplying the per-bot fitness bound out stays within `i128`.
proof fn lemma_mul_grows(i: int, n: int)
    requires
        0 <= i < n <= 0xFFFF_FFFF_FFFF_FFFF,
    ensures
        (i + 1) * 0x8000_0000_0000_0000 == i * 0x8000_0000_0000_0000 + 0x8000_0000_0000_0000,
        -((i + 1) * 0x8000_0000_0000_0000) >= i128::MIN,
        (i + 1) * 0x8000_0000_0000_0000 <= i128::MAX,
{
    assert((i + 1) * 0x8000_0000_0000_0000 == i * 0x8000_0000_0000_0000 + 0x8000_0000_0000_0000)
        by (nonlinear_arith);
    assert((i + 1) * 0x8000_0000_0000_0000 <= 0xFFFF_FFFF_FFFF_FFFF * 0x8000_0000_0000_0000)
        by (nonlinear_arith)
        requires
            i + 1 <= 0xFFFF_FFFF_FFFF_FFFF,
    ;
}

/// The ticket-weighted breeding pool, executably.
fn build_pool(bots: &Vec<Bot>, total: i128) -> (pool: Vec<usize>)
    requires
        total as int == spec_total_fitness(bots@),
    ensures
        pool@ == spec_pool(bots@, total as int),
{
    let n: usize = bots.len();
    let mut pool: Vec<usize> = Vec::new();
    let mut i: usize = 0;
    while i < n
        invariant
            i <= n,
            n == bots@.len(),
            pool@ == spec_pool(bots@.take(i as int), total as int),
        decreases n - i,
    {
        proof {
            assert(bots@.take(i + 1).drop_last() =~= bots@.take(i as int));
            assert(bots@.take(i + 1).last() == bots@[i as int]);
        }
        let fitness = bots[i].fitness;
        let ghost tickets = spec_tickets(fitness as int, total as int);
        if fitness > 0 && total > 0 {
            let t: u128 = ((fitness as u128) * 100 + (total as u128) - 1) / (total as u128);
            proof {
                assert(t as int == tickets);
            }
            let mut j: u128 = 0;
            while j < t
                invariant
                    j <= t,
                    t as int == tickets,
                    i < n,
                    n == bots@.len(),
                    pool@ == spec_pool(bots@.take(i as int), total as int) + Seq::new(
                        j as nat,
                        |x: int| i,
                    ),
                decreases t - j,
            {
                pool.push(i);
                proof {
                    assert(Seq::new((j + 1) as nat, |x: int| i) =~= Seq::new(
                        j as nat,
                        |x: int| i,
                    ).push(i));
                }
                j = j + 1;
            }
            proof {
                assert(pool@ =~= spec_pool(bots@.take(i + 1), total as int));
            }
        } else {
            proof {
                assert(tickets == 0);
                assert(pool@ =~= spec_pool(bots@.take(i + 1), total as int));
            }
        }
        i = i + 1;
    }
    proof {
        assert(bots@.take(n as int) =~= bots@);
    }
    pool
}

/// First pool entry naming a bot whose id differs from `banned`, if
/// any.
fn find_distinct(bots: &Vec<Bot>, pool: &Vec<usize>, banned: u64) -> (r: Option<usize>)
    requires
        forall|k: int| 0 <= k < pool@.len() ==> (#[trigger] pool@[k] as int) < bots@.len(),
    ensures
        match r {
            Some(k) => k < pool@.len() && bots@[pool@[k as int] as int].id != banned,
            None => forall|k: int|
                0 <= k < pool@.len() ==> bots@[#[trigger] pool@[k] as int].id == banned,
        },
{
    let n: usize = pool.len();
    let mut k: usize = 0;
    while k < n
        invariant
            k <= n,
            n == pool@.len(),
            forall|m: int| 0 <= m < pool@.len() ==> (#[trigger] pool@[m] as int) < bots@.len(),
            forall|m: int| 0 <= m < k ==> bots@[#[trigger] pool@[m] as int].id == banned,
        decreases n - k,
    {
        if bots[pool[k]].id != banned {
            return Some(k);
        }
        k = k + 1;
    }
    None
}

/// Produce the next generation from a scored population: tickets in
/// proportion to fitness, two random distinct-id parents per child,
/// crossover and mutation, until the configured population size is
/// reached.  A population without positive fitness has an empty pool;
/// one whose tickets all name one id cannot avoid self-breeding; both
/// are fatal for the generation.  Whenever `spec_breedable` holds of
/// the population — see `lemma_breedable_pool` — breeding succeeds
/// and every child of the full next generation descends from two
/// parents with different ids.
pub fn breed(bots: &Vec<Bot>, config: &Config) -> (r: Result<Vec<Bot>, BreedError>)
    requires
        config.number_of_bots <= usize::MAX,
    ensures
        ({
            let pool = spec_pool(bots@, spec_total_fitness(bots@));
            &&& (r == Err::<Vec<Bot>, BreedError>(BreedError::EmptyBreedingPool) <==> pool.len()
                == 0)
            &&& (pool.len() > 0 ==> (r == Err::<Vec<Bot>, BreedError>(BreedError::NoDistinctParents)
                <==> !spec_pool_ids_vary(bots@, pool)))
            &&& (r matches Ok(next) ==> next@.len() == config.number_of_bots && forall|k: int|
                0 <= k < next@.len() ==> spec_child_ok(#[trigger] next@[k], bots@, *config, k))
        }),
{
    let total = total_fitness(bots);
    let pool = build_pool(bots, total);
    proof {
        lemma_pool_entries(bots@, total as int);
    }
    if pool.len() == 0 {
        return Err(BreedError::EmptyBreedingPool);
    }
    let probe = bots[pool[0]].id;
    match find_distinct(bots, &pool, probe) {
        None => {
            proof {
                assert(!spec_pool_ids_vary(bots@, pool@));
            }
            return Err(BreedError::NoDistinctParents);
        },
        Some(w) => {
            proof {
                assert(bots@[pool@[0] as int].id != bots@[pool@[w as int] as int].id);
                assert(spec_pool_ids_vary(bots@, pool@));
            }
        },
    }
    let mut new_bots: Vec<Bot> = Vec::new();
    while (new_bots.len() as u64) < config.number_of_bots
        invariant
            pool@ == spec_pool(bots@, spec_total_fitness(bots@)),
            pool@.len() > 0,
            spec_pool_ids_vary(bots@, pool@),
            forall|k: int|
                0 <= k < pool@.len() ==> (#[trigger] pool@[k] as int) < bots@.len()
                    && bots@[pool@[k] as int].fitness > 0,
            config.number_of_bots <= usize::MAX,
            new_bots@.len() <= config.number_of_bots,
            forall|k: int|
                0 <= k < new_bots@.len() ==> spec_child_ok(
                    #[trigger] new_bots@[k],
                    bots@,
                    *config,
                    k,
                ),
        decreases config.number_of_bots - new_bots.len(),
    {
        let i1 = sample_u64(0, pool.len() as u64) as usize;
        let first: usize = pool[i1];
        let i2 = sample_u64(0, pool.len() as u64) as usize;
        let drawn: usize = pool[i2];
        let second: usize = if bots[drawn].id != bots[first].id {
            drawn
        } else {
            match find_distinct(bots, &pool, bots[first].id) {
                Some(k) => pool[k],
                None => {
                    proof {
                        let (k1, k2) = choose|k1: int, k2: int|
                            0 <= k1 < pool@.len() && 0 <= k2 < pool@.len()
                                && #[trigger] bots@[pool@[k1] as int].id
                                != #[trigger] bots@[pool@[k2] as int].id;
                        assert(false);
                    }
                    first
                },
            }
        };
        let child = bots[first].breed(&bots[second], config, new_bots.len() as u64);
        proof {
            let i = first as int;
            let j = second as int;
            assert(bots@[i].fitness > 0 && bots@[j].fitness > 0 && bots@[i].id != bots@[j].id
                && bred_from(child.traits, bots@[i].traits, bots@[j].traits, *config));
            assert(spec_child_ok(child, bots@, *config, new_bots@.len() as int));
        }
        new_bots.push(child);
    }
    Ok(new_bots)
}

/// Sort a finished population by fitness, best first.  Ties keep no
/// particular order; the result is a permutation of the input.
pub fn sort_by_fitness(bots: &mut Vec<Bot>)
    ensures
        final(bots)@.len() == old(bots)@.len(),
        forall|i: int, j: int|
            0 <= i <= j < final(bots)@.len() ==> final(bots)@[i].fitness
                >= final(bots)@[j].fitness,
        final(bots)@.to_multiset() == old(bots)@.to_multiset(),
{
    broadcast use vstd::seq_lib::group_to_multiset_ensures;
    broadcast use vstd::multiset::group_multiset_axioms;
    broadcast use vstd::multiset::lemma_multiset_empty_len;

    let ghost orig = old(bots)@;
    let mut sorted_bots: Vec<Bot> = Vec::new();
    while bots.len() > 0
        invariant
            sorted_bots@.to_multiset().add(bots@.to_multiset()) == orig.to_multiset(),
            sorted_bots@.len() + bots@.len() == orig.len(),
            forall|i: int, j: int|
                0 <= i <= j < sorted_bots@.len() ==> sorted_bots@[i].fitness
                    >= sorted_bots@[j].fitness,
            forall|i: int, j: int|
                0 <= i < sorted_bots@.len() && 0 <= j < bots@.len() ==> sorted_bots@[i].fitness
                    >= bots@[j].fitness,
        decreases bots.len(),
    {
        let mut best: usize = 0;
        let mut k: usize = 1;
        while k < bots.len()
            invariant
                bots@.len() > 0,
                k <= bots@.len(),
                best < k,
                forall|j: int| 0 <= j < k ==> bots@[best as int].fitness >= bots@[j].fitness,
            decreases bots@.len() - k,
        {
            if bots[k].fitness > bots[best].fitness {
                best = k;
            }
            k = k + 1;
        }
        let ghost pre = bots@;
        let ghost pre_sorted = sorted_bots@;
        let picked = bots.remove(best);
        sorted_bots.push(picked);
        proof {
            pre.to_multiset_ensures();
            pre_sorted.to_multiset_ensures();
            assert(pre.contains(pre[best as int]));
            assert(pre.to_multiset().count(picked) > 0);
            assert(sorted_bots@.to_multiset().add(bots@.to_multiset()) =~= pre_sorted.to_multiset()
                .add(pre.to_multiset()));
            assert forall|i: int, j: int|
                0 <= i < sorted_bots@.len() && 0 <= j < bots@.len() implies sorted_bots@[i].fitness
                >= bots@[j].fitness by {
                assert(bots@[j] == pre[j] || bots@[j] == pre[j + 1]);
            }
        }
    }
    proof {
        assert(bots@.to_multiset().len() == 0);
        assert(bots@.to_multiset() =~= Multiset::empty());
        assert(sorted_bots@.to_multiset().add(Multiset::empty()) =~= sorted_bots@.to_multiset());
    }
    *bots = sorted_bots;
}

/// The chunk size of a partition: the population divided evenly, any
/// remainder left over.
pub open spec fn spec_chunk_len(population: int, number_of_threads: int) -> int
    recommends
        number_of_threads >= 1,
{
    population / number_of_threads
}

/// Split a population into `number_of_threads` contiguous equal
/// chunks, in order.  Bots in a trailing remainder — when the
/// population does not divide evenly — belong to no chunk and are
/// dropped.
pub fn partition(bots: Vec<Bot>, number_of_threads: u64) -> (chunks: Vec<Vec<Bot>>)
    requires
        number_of_threads >= 1,
        number_of_threads <= usize::MAX,
    ensures
        chunks@.len() == number_of_threads,
        forall|t: int|
            0 <= t < number_of_threads ==> (#[trigger] chunks@[t])@ == bots@.subrange(
                t * spec_chunk_len(bots@.len() as int, number_of_threads as int),
                (t + 1) * spec_chunk_len(bots@.len() as int, number_of_threads as int),
            ),
{
    let ghost orig = bots@;
    let mut rest = bots;
    let chunk_len: usize = rest.len() / (number_of_threads as usize);
    let ghost k = spec_chunk_len(orig.len() as int, number_of_threads as int);
    proof {
        assert(chunk_len as int == k);
        vstd::arithmetic::div_mod::lemma_fundamental_div_mod(
            orig.len() as int,
            number_of_threads as int,
        );
        assert(k * (number_of_threads as int) <= orig.len()) by (nonlinear_arith)
            requires
                orig.len() as int == (number_of_threads as int) * k + orig.len() as int % (
                number_of_threads as int),
                orig.len() as int % (number_of_threads as int) >= 0,
        ;
    }
    let mut chunks: Vec<Vec<Bot>> = Vec::new();
    let mut t: usize = 0;
    while t < (number_of_threads as usize)
        invariant
            t <= number_of_threads,
            number_of_threads <= usize::MAX,
            chunk_len as int == k,
            k * (number_of_threads as int) <= orig.len(),
            chunks@.len() == t,
            rest@ == orig.skip((t as int) * k),
            forall|u: int|
                0 <= u < t ==> (#[trigger] chunks@[u])@ == orig.subrange(u * k, (u + 1) * k),
        decreases number_of_threads - t,
    {
        proof {
            assert((t as int) * k + k == (t + 1) as int * k) by (nonlinear_arith);
            assert((t + 1) as int * k <= (number_of_threads as int) * k) by (nonlinear_arith)
                requires
                    t + 1 <= number_of_threads as int,
                    k >= 0,
            ;
            assert((number_of_threads as int) * k == k * (number_of_threads as int))
                by (nonlinear_arith);
        }
        let mut chunk: Vec<Bot> = Vec::new();
        let mut j: usize = 0;
        while j < chunk_len
            invariant
                j <= chunk_len,
                chunk_len as int == k,
                (t as int) * k + k <= orig.len(),
                chunk@ == orig.subrange((t as int) * k, (t as int) * k + j),
                rest@ == orig.skip((t as int) * k + j),
            decreases chunk_len - j,
        {
            let bot = rest.remove(0);
            chunk.push(bot);
            proof {
                assert(chunk@ =~= orig.subrange((t as int) * k, (t as int) * k + j + 1));
                assert(rest@ =~= orig.skip((t as int) * k + j + 1));
            }
            j = j + 1;
        }
        chunks.push(chunk);
        t = t + 1;
    }
    chunks
}

/// A bot's state after the first `upto` periods of the series.
pub open spec fn spec_run_all(b: BotModel, series: Seq<PriceData>, cfg: Config, upto: int)
    -> BotModel
    recommends
        upto <= series.len(),
        series_wf(series),
    decreases upto,
{
    if upto <= 0 {
        b
    } else {
        spec_run_period(spec_run_all(b, series, cfg, upto - 1), series, upto - 1, cfg)
    }
}

/// One worker's task: drive every bot of the chunk through every
/// period of the series, in order.
pub fn run_chunk(bots: &mut Vec<Bot>, price_history: &Vec<PriceData>, config: &Config)
    requires
        series_wf(price_history@),
    ensures
        final(bots)@.len() == old(bots)@.len(),
        forall|i: int|
            0 <= i < final(bots)@.len() ==> (#[trigger] final(bots)@[i])@ == spec_run_all(
                old(bots)@[i]@,
                price_history@,
                *config,
                price_history@.len() as int,
            ),
{
    let ghost orig = old(bots)@;
    let n: usize = bots.len();
    let periods: usize = price_history.len();
    let mut finished: Vec<Bot> = Vec::new();
    let mut i: usize = 0;
    proof {
        assert(orig.skip(0) =~= orig);
    }
    while i < n
        invariant
            i <= n,
            n == orig.len(),
            bots@ == orig.skip(i as int),
            periods == price_history@.len(),
            series_wf(price_history@),
            finished@.len() == i,
            forall|m: int|
                0 <= m < i ==> (#[trigger] finished@[m])@ == spec_run_all(
                    orig[m]@,
                    price_history@,
                    *config,
                    periods as int,
                ),
        decreases n - i,
    {
        let mut bot = bots.remove(0);
        proof {
            assert(bot == orig[i as int]);
            assert(bots@ =~= orig.skip(i + 1));
        }
        let mut p: usize = 0;
        while p < periods
            invariant
                p <= periods,
                periods == price_history@.len(),
                series_wf(price_history@),
                bot@ == spec_run_all(orig[i as int]@, price_history@, *config, p as int),
            decreases periods - p,
        {
            bot.run_period(price_history, p as u64, config);
            p = p + 1;
        }
        finished.push(bot);
        i = i + 1;
    }
    *bots = finished;
}

/// The initial population: one freshly sampled bot per slot, ids in
/// order, each with the configured starting cash.
pub fn new_population(config: &Config) -> (r: Vec<Bot>)
    requires
        config.number_of_bots <= usize::MAX,
    ensures
        r@.len() == config.number_of_bots,
        forall|k: int|
            0 <= k < r@.len() ==> (#[trigger] r@[k]).id == k && r@[k].money
                == config.starting_money && crate::bot::traits::traits_sampled(
                r@[k].traits,
                *config,
            ) && r@[k].current_holdings@.len() == 0 && r@[k].sold_holdings@.len() == 0
                && r@[k].fitness == 0,
{
    let mut bots: Vec<Bot> = Vec::new();
    while (bots.len() as u64) < config.number_of_bots
        invariant
            config.number_of_bots <= usize::MAX,
            bots@.len() <= config.number_of_bots,
            forall|k: int|
                0 <= k < bots@.len() ==> (#[trigger] bots@[k]).id == k && bots@[k].money
                    == config.starting_money && crate::bot::traits::traits_sampled(
                    bots@[k].traits,
                    *config,
                ) && bots@[k].current_holdings@.len() == 0 && bots@[k].sold_holdings@.len() == 0
                    && bots@[k].fitness == 0,
        decreases config.number_of_bots - bots.len(),
    {
        let bot = Bot::new(config, bots.len() as u64);
        bots.push(bot);
    }
    bots
}

} // verus!
