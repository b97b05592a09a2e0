use crate::types::{GatewayError, LobbyInfo};
use vstd::prelude::*;

verus! {

/// `i` is the lobby that least-load selection picks: a healthy lobby with the
/// minimum load score, the first such in registry order.
pub open spec fn is_least_load_choice(reg: Seq<LobbyInfo>, now_ms: u64, i: int) -> bool {
    &&& 0 <= i < reg.len()
    &&& reg[i].spec_is_healthy(now_ms)
    &&& forall|j: int|
        0 <= j < reg.len() && reg[j].spec_is_healthy(now_ms) ==> reg[i].spec_load_score()
            <= reg[j].spec_load_score()
    &&& forall|j: int|
        0 <= j < i && reg[j].spec_is_healthy(now_ms) ==> reg[i].spec_load_score()
            < reg[j].spec_load_score()
}

pub open spec fn has_healthy(reg: Seq<LobbyInfo>, now_ms: u64) -> bool {
    exists|j: int| 0 <= j < reg.len() && reg[j].spec_is_healthy(now_ms)
}

/// What least-load selection returns on a registry.
pub open spec fn spec_select_lobby(reg: Seq<LobbyInfo>, now_ms: u64) -> Result<u64, GatewayError> {
    if has_healthy(reg, now_ms) {
        Ok(reg[choose|i: int| is_least_load_choice(reg, now_ms, i)].lobby_id)
    } else {
        Err(GatewayError::NoHealthyLobby)
    }
}

/// There is at most one least-load choice.
pub proof fn lemma_least_load_choice_unique(reg: Seq<LobbyInfo>, now_ms: u64, i: int, k: int)
    requires
        is_least_load_choice(reg, now_ms, i),
        is_least_load_choice(reg, now_ms, k),
    ensures
        i == k,
{
    if i < k {
        assert(reg[k].spec_load_score() < reg[i].spec_load_score());
    } else if k < i {
        assert(reg[i].spec_load_score() < reg[k].spec_load_score());
    }
}

/// Least-load selection: among the healthy lobbies, the one with the lowest
/// load score; on a tie, the first in registry order.
pub fn select_lobby(registry: &[LobbyInfo], now_ms: u64) -> (r: Result<u64, GatewayError>)
    ensures
        r == spec_select_lobby(registry@, now_ms),
        r is Err <==> !has_healthy(registry@, now_ms),
        r matches Ok(id) ==> exists|i: int|
            is_least_load_choice(registry@, now_ms, i) && registry@[i].lobby_id == id,
{
    let ghost reg = registry@;
    let mut best: Option<usize> = None;
    let mut best_score: u64 = 0;
    let mut i: usize = 0;
    while i < registry.len()
        invariant
            reg == registry@,
            0 <= i <= reg.len(),
            best is None ==> forall|j: int| 0 <= j < i ==> !reg[j].spec_is_healthy(now_ms),
            best matches Some(b) ==> {
                &&& b < i
                &&& reg[b as int].spec_is_healthy(now_ms)
                &&& best_score == reg[b as int].spec_load_score()
                &&& forall|j: int|
                    0 <= j < i && reg[j].spec_is_healthy(now_ms) ==> best_score
                        <= reg[j].spec_load_score()
                &&& forall|j: int|
                    0 <= j < b && reg[j].spec_is_healthy(now_ms) ==> best_score
                        < reg[j].spec_load_score()
            },
        decreases registry.len() - i,
    {
        if registry[i].is_healthy(now_ms) {
            let score = registry[i].load_score();
            match best {
                None => {
                    best = Some(i);
                    best_score = score;
                },
                Some(_) => {
                    if score < best_score {
                        best = Some(i);
                        best_score = score;
                    }
                },
            }
        }
        i = i + 1;
    }
    match best {
        None => Err(GatewayError::NoHealthyLobby),
        Some(b) => {
            proof {
                assert(is_least_load_choice(reg, now_ms, b as int));
                let k = choose|k: int| is_least_load_choice(reg, now_ms, k);
                lemma_least_load_choice_unique(reg, now_ms, b as int, k);
            }
            Ok(registry[b].lobby_id)
        },
    }
}

/// The weight a lobby contributes to weighted selection: its weight while
/// healthy, nothing otherwise.
pub open spec fn weight_in(info: LobbyInfo, now_ms: u64) -> int {
    if info.spec_is_healthy(now_ms) {
        info.weight as int
    } else {
        0
    }
}

/// Sum of the contributed weights of the first `k` lobbies.
pub open spec fn weight_prefix(reg: Seq<LobbyInfo>, now_ms: u64, k: int) -> int
    decreases k,
{
    if k <= 0 {
        0
    } else {
        weight_prefix(reg, now_ms, k - 1) + weight_in(reg[k - 1], now_ms)
    }
}

pub open spec fn total_weight(reg: Seq<LobbyInfo>, now_ms: u64) -> int {
    weight_prefix(reg, now_ms, reg.len() as int)
}

/// The first index from `i` on whose cumulative weight exceeds `t`.
pub open spec fn picked_from(reg: Seq<LobbyInfo>, now_ms: u64, t: int, i: int) -> int
    decreases reg.len() - i,
{
    if i < 0 || i >= reg.len() {
        reg.len() as int
    } else if t < weight_prefix(reg, now_ms, i + 1) {
        i
    } else {
        picked_from(reg, now_ms, t, i + 1)
    }
}

/// The index that weighted selection picks for the draw `t`.
pub open spec fn picked_index(reg: Seq<LobbyInfo>, now_ms: u64, t: int) -> int {
    picked_from(reg, now_ms, t, 0)
}

/// What weighted selection returns for the draw `t`.
pub open spec fn spec_weighted_pick(reg: Seq<LobbyInfo>, now_ms: u64, t: int) -> Option<u64> {
    if 0 <= t < total_weight(reg, now_ms) {
        Some(reg[picked_index(reg, now_ms, t)].lobby_id)
    } else {
        None
    }
}

pub proof fn lemma_weight_prefix_monotonic(reg: Seq<LobbyInfo>, now_ms: u64, a: int, b: int)
    requires
        0 <= a <= b,
    ensures
        weight_prefix(reg, now_ms, a) <= weight_prefix(reg, now_ms, b),
    decreases b - a,
{
    if a < b {
        lemma_weight_prefix_monotonic(reg, now_ms, a, b - 1);
    }
}

pub proof fn lemma_weight_prefix_bound(reg: Seq<LobbyInfo>, now_ms: u64, k: int)
    requires
        0 <= k,
    ensures
        0 <= weight_prefix(reg, now_ms, k) <= k * 0xffff_ffff,
    decreases k,
{
    if k > 0 {
        lemma_weight_prefix_bound(reg, now_ms, k - 1);
    }
}

proof fn lemma_picked_from(reg: Seq<LobbyInfo>, now_ms: u64, t: int, i: int)
    requires
        0 <= i <= reg.len(),
        weight_prefix(reg, now_ms, i) <= t < total_weight(reg, now_ms),
    ensures
        i <= picked_from(reg, now_ms, t, i) < reg.len(),
        weight_prefix(reg, now_ms, picked_from(reg, now_ms, t, i)) <= t,
        t < weight_prefix(reg, now_ms, picked_from(reg, now_ms, t, i) + 1),
    decreases reg.len() - i,
{
    if i < reg.len() && t >= weight_prefix(reg, now_ms, i + 1) {
        lemma_picked_from(reg, now_ms, t, i + 1);
    }
}

/// Weighted selection splits the draws in proportion to the weights: a draw
/// `t` below the total weight picks lobby `i` exactly when `t` falls in the
/// interval of length `weight_in(reg[i])` that starts at the weight of the
/// lobbies before it. An unhealthy lobby, or one of weight zero, is never
/// picked.
pub proof fn lemma_weighted_share(reg: Seq<LobbyInfo>, now_ms: u64, t: int, i: int)
    requires
        0 <= i < reg.len(),
        0 <= t < total_weight(reg, now_ms),
    ensures
        picked_index(reg, now_ms, t) == i <==> weight_prefix(reg, now_ms, i) <= t
            < weight_prefix(reg, now_ms, i) + weight_in(reg[i], now_ms),
        weight_in(reg[i], now_ms) == 0 ==> picked_index(reg, now_ms, t) != i,
        spec_weighted_pick(reg, now_ms, t) == Some(reg[picked_index(reg, now_ms, t)].lobby_id),
{
    lemma_picked_from(reg, now_ms, t, 0);
    let k = picked_index(reg, now_ms, t);
    if k < i {
        lemma_weight_prefix_monotonic(reg, now_ms, k + 1, i);
    } else if i < k {
        lemma_weight_prefix_monotonic(reg, now_ms, i + 1, k);
    }
}

/// Weighted selection for a given draw `target` in `[0, total weight)`: walks
/// the lobbies in registry order, adding up the weights of the healthy ones,
/// and returns the first whose running total exceeds the draw.
pub fn weighted_pick(registry: &[LobbyInfo], now_ms: u64, target: u64) -> (r: Option<u64>)
    requires
        registry@.len() <= 0xffff_ffff,
    ensures
        r == spec_weighted_pick(registry@, now_ms, target as int),
{
    let ghost reg = registry@;
    let mut acc: u64 = 0;
    let mut i: usize = 0;
    while i < registry.len()
        invariant
            reg == registry@,
            reg.len() <= 0xffff_ffff,
            0 <= i <= reg.len(),
            acc == weight_prefix(reg, now_ms, i as int),
            target >= acc,
            picked_index(reg, now_ms, target as int) == picked_from(
                reg,
                now_ms,
                target as int,
                i as int,
            ),
        decreases registry.len() - i,
    {
        proof {
            lemma_weight_prefix_bound(reg, now_ms, i as int + 1);
            assert((i as int + 1) * 0xffff_ffff <= 0xffff_ffff * 0xffff_ffff) by (nonlinear_arith)
                requires
                    i as int + 1 <= 0xffff_ffff,
            ;
        }
        if registry[i].is_healthy(now_ms) {
            acc = acc + registry[i].weight as u64;
        }
        if target < acc {
            proof {
                lemma_weight_prefix_monotonic(reg, now_ms, i as int + 1, reg.len() as int);
            }
            return Some(registry[i].lobby_id);
        }
        i = i + 1;
    }
    None
}

/// Relies on rand's `thread_rng().gen_range(0..bound)`: a uniformly drawn
/// integer in `[0, bound)`; it panics on an empty range.
#[verifier::external_body]
fn draw_below(bound: u64) -> (r: u64)
    requires
        bound > 0,
    ensures
        r < bound,
{
    rand::Rng::gen_range(&mut rand::thread_rng(), 0..bound)
}

/// Total weight of the healthy lobbies.
pub fn total_healthy_weight(registry: &[LobbyInfo], now_ms: u64) -> (r: u64)
    requires
        registry@.len() <= 0xffff_ffff,
    ensures
        r == total_weight(registry@, now_ms),
{
    let ghost reg = registry@;
    let mut acc: u64 = 0;
    let mut i: usize = 0;
    while i < registry.len()
        invariant
            reg == registry@,
            reg.len() <= 0xffff_ffff,
            0 <= i <= reg.len(),
            acc == weight_prefix(reg, now_ms, i as int),
        decreases registry.len() - i,
    {
        proof {
            lemma_weight_prefix_bound(reg, now_ms, i as int + 1);
            assert((i as int + 1) * 0xffff_ffff <= 0xffff_ffff * 0xffff_ffff) by (nonlinear_arith)
                requires
                    i as int + 1 <= 0xffff_ffff,
            ;
        }
        if registry[i].is_healthy(now_ms) {
            acc = acc + registry[i].weight as u64;
        }
        i = i + 1;
    }
    acc
}

/// Weighted random selection for gradual rollout: `None` when the healthy
/// lobbies carry no weight; otherwise the pick for a uniform random draw in
/// `[0, total weight)`, which is a healthy lobby of positive weight.
pub fn weighted_select_lobby(registry: &[LobbyInfo], now_ms: u64) -> (r: Option<u64>)
    requires
        registry@.len() <= 0xffff_ffff,
    ensures
        r is None <==> total_weight(registry@, now_ms) == 0,
        r is Some ==> exists|t: int|
            0 <= t < total_weight(registry@, now_ms) && r == spec_weighted_pick(
                registry@,
                now_ms,
                t,
            ),
        r matches Some(id) ==> exists|i: int|
            0 <= i < registry@.len() && registry@[i].lobby_id == id
                && registry@[i].spec_is_healthy(now_ms) && registry@[i].weight > 0,
{
    let total = total_healthy_weight(registry, now_ms);
    if total == 0 {
        return None;
    }
    let target = draw_below(total);
    let r = weighted_pick(registry, now_ms, target);
    proof {
        let k = picked_index(registry@, now_ms, target as int);
        lemma_picked_from(registry@, now_ms, target as int, 0);
        lemma_weighted_share(registry@, now_ms, target as int, k);
    }
    r
}

} // verus!
