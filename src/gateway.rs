use crate::select::{has_healthy, select_lobby, spec_select_lobby};
use crate::types::{
    heartbeat_expired, GatewayError, LobbyHeartbeat, LobbyInfo, LobbyStatus, RegisterLobbyRequest,
    RegisterLobbyResponse, Session, SessionStatus, UnregisterLobbyRequest,
};
use std::collections::HashMap;
use vstd::prelude::*;

verus! {

broadcast use vstd::std_specs::hash::group_hash_axioms;

/// The gateway's registry of lobbies and its table of player sessions.
///
/// Lobbies are kept in registration order, which is also the order of their
/// ids; that order settles ties in selection. Times are milliseconds on the
/// gateway's monotonic clock, supplied by the caller.
pub struct Gateway {
    pub lobby_registry: Vec<LobbyInfo>,
    pub sessions: HashMap<u64, Session>,
    pub next_lobby_id: u64,
}

/// Lobby ids strictly increase along the registry and stay below `next_id`.
pub open spec fn registry_wf(reg: Seq<LobbyInfo>, next_id: u64) -> bool {
    &&& forall|i: int, j: int| 0 <= i < j < reg.len() ==> reg[i].lobby_id < reg[j].lobby_id
    &&& forall|i: int| 0 <= i < reg.len() ==> reg[i].lobby_id < next_id
}

/// The lobby with id `id` is registered and healthy at `now_ms`.
pub open spec fn lobby_healthy_in(reg: Seq<LobbyInfo>, id: u64, now_ms: u64) -> bool {
    exists|i: int| 0 <= i < reg.len() && reg[i].lobby_id == id && reg[i].spec_is_healthy(now_ms)
}

/// The descriptor a registration creates.
pub open spec fn registered_lobby(id: u64, req: RegisterLobbyRequest, now_ms: u64) -> LobbyInfo {
    LobbyInfo {
        lobby_id: id,
        address: req.rpc_address,
        max_capacity: req.max_capacity,
        current_players: 0,
        current_rooms: 0,
        cpu_usage_hundredths: 0,
        memory_mb: 0,
        version: req.version,
        weight: req.weight,
        last_heartbeat_ms: now_ms,
        status: LobbyStatus::Healthy,
    }
}

/// A descriptor after it takes in a heartbeat at `now_ms`.
pub open spec fn with_heartbeat(info: LobbyInfo, hb: LobbyHeartbeat, now_ms: u64) -> LobbyInfo {
    LobbyInfo {
        current_players: hb.player_count,
        current_rooms: hb.room_count,
        cpu_usage_hundredths: hb.cpu_usage_hundredths,
        memory_mb: hb.memory_mb,
        last_heartbeat_ms: now_ms,
        status: LobbyStatus::Healthy,
        ..info
    }
}

/// The session of `role_id` after it is pinned to `lobby_id`; one is created
/// when the player has none.
pub open spec fn pinned_session(
    sessions: Map<u64, Session>,
    role_id: u64,
    lobby_id: u64,
    now_ms: u64,
) -> Session {
    if sessions.contains_key(role_id) {
        Session { lobby_id: Some(lobby_id), ..sessions[role_id] }
    } else {
        Session {
            role_id,
            lobby_id: Some(lobby_id),
            last_heartbeat_ms: now_ms,
            status: SessionStatus::Connected,
        }
    }
}

/// A health sweep at `now_ms` demotes this lobby from healthy to unhealthy.
pub open spec fn demoted_by_sweep(info: LobbyInfo, now_ms: u64) -> bool {
    info.status == LobbyStatus::Healthy && heartbeat_expired(info.last_heartbeat_ms, now_ms)
}

/// A descriptor after a health sweep at `now_ms`.
pub open spec fn swept_lobby(info: LobbyInfo, now_ms: u64) -> LobbyInfo {
    if heartbeat_expired(info.last_heartbeat_ms, now_ms) {
        LobbyInfo { status: LobbyStatus::Unhealthy, ..info }
    } else {
        info
    }
}

/// Ids of the first `k` lobbies that a sweep at `now_ms` demotes, in order.
pub open spec fn sweep_events_upto(reg: Seq<LobbyInfo>, now_ms: u64, k: int) -> Seq<u64>
    decreases k,
{
    if k <= 0 {
        seq![]
    } else if demoted_by_sweep(reg[k - 1], now_ms) {
        sweep_events_upto(reg, now_ms, k - 1).push(reg[k - 1].lobby_id)
    } else {
        sweep_events_upto(reg, now_ms, k - 1)
    }
}

pub open spec fn sweep_events(reg: Seq<LobbyInfo>, now_ms: u64) -> Seq<u64> {
    sweep_events_upto(reg, now_ms, reg.len() as int)
}

proof fn lemma_sweep_events_contains(reg: Seq<LobbyInfo>, now_ms: u64, k: int, id: u64)
    requires
        0 <= k <= reg.len(),
    ensures
        sweep_events_upto(reg, now_ms, k).contains(id) <==> exists|j: int|
            0 <= j < k && demoted_by_sweep(reg[j], now_ms) && reg[j].lobby_id == id,
    decreases k,
{
    if k > 0 {
        lemma_sweep_events_contains(reg, now_ms, k - 1, id);
        let prev = sweep_events_upto(reg, now_ms, k - 1);
        vstd::seq_lib::lemma_seq_contains_after_push(prev, reg[k - 1].lobby_id, id);
    }
}

/// A health sweep reports each demotion once: a lobby that a sweep at `t1`
/// demotes is no longer healthy afterwards, so no later sweep, at any `t2`,
/// reports it again until a heartbeat revives it. Sweeping twice at the same
/// time changes nothing the second time.
pub proof fn lemma_sweep_reports_once(reg: Seq<LobbyInfo>, t1: u64, t2: u64)
    requires
        forall|i: int, j: int| 0 <= i < j < reg.len() ==> reg[i].lobby_id < reg[j].lobby_id,
    ensures
        forall|i: int|
            0 <= i < reg.len() && #[trigger] demoted_by_sweep(reg[i], t1) ==> !sweep_events(
                reg.map_values(|l: LobbyInfo| swept_lobby(l, t1)),
                t2,
            ).contains(reg[i].lobby_id),
        reg.map_values(|l: LobbyInfo| swept_lobby(swept_lobby(l, t1), t1)) == reg.map_values(
            |l: LobbyInfo| swept_lobby(l, t1),
        ),
        sweep_events(reg.map_values(|l: LobbyInfo| swept_lobby(l, t1)), t1) == Seq::<u64>::empty(),
{
    let reg1 = reg.map_values(|l: LobbyInfo| swept_lobby(l, t1));
    assert forall|i: int|
        0 <= i < reg.len() && #[trigger] demoted_by_sweep(reg[i], t1) implies !sweep_events(
            reg1,
            t2,
        ).contains(reg[i].lobby_id) by {
        lemma_sweep_events_contains(reg1, t2, reg1.len() as int, reg[i].lobby_id);
        if sweep_events(reg1, t2).contains(reg[i].lobby_id) {
            let j = choose|j: int|
                0 <= j < reg1.len() && demoted_by_sweep(reg1[j], t2) && reg1[j].lobby_id
                    == reg[i].lobby_id;
            if j < i {
                assert(reg[j].lobby_id < reg[i].lobby_id);
            } else if i < j {
                assert(reg[i].lobby_id < reg[j].lobby_id);
            }
        }
    }
    assert(reg.map_values(|l: LobbyInfo| swept_lobby(swept_lobby(l, t1), t1)) =~= reg1);
    assert forall|k: int| 0 <= k <= reg1.len() implies sweep_events_upto(reg1, t1, k)
        == Seq::<u64>::empty() by {
        lemma_sweep_events_empty(reg, t1, k);
    }
}

proof fn lemma_sweep_events_empty(reg: Seq<LobbyInfo>, t: u64, k: int)
    requires
        0 <= k <= reg.len(),
    ensures
        sweep_events_upto(reg.map_values(|l: LobbyInfo| swept_lobby(l, t)), t, k) == Seq::<
            u64,
        >::empty(),
    decreases k,
{
    if k > 0 {
        lemma_sweep_events_empty(reg, t, k - 1);
    }
}

/// Index of the lobby with id `id`, if it is registered.
fn find_lobby(reg: &Vec<LobbyInfo>, id: u64) -> (r: Option<usize>)
    ensures
        r matches Some(i) ==> i < reg@.len() && reg@[i as int].lobby_id == id,
        r is None ==> forall|i: int| 0 <= i < reg@.len() ==> reg@[i].lobby_id != id,
{
    let mut i: usize = 0;
    while i < reg.len()
        invariant
            0 <= i <= reg@.len(),
            forall|j: int| 0 <= j < i ==> reg@[j].lobby_id != id,
        decreases reg.len() - i,
    {
        if reg[i].lobby_id == id {
            return Some(i);
        }
        i = i + 1;
    }
    None
}

impl Gateway {
    pub open spec fn wf(&self) -> bool {
        registry_wf(self.lobby_registry@, self.next_lobby_id)
    }

    /// The lobby that `role_id` is pinned to, when that lobby is registered
    /// and healthy at `now_ms`.
    pub open spec fn reusable_pin(&self, role_id: u64, now_ms: u64) -> Option<u64> {
        if self.sessions@.contains_key(role_id) && self.sessions@[role_id].lobby_id is Some
            && lobby_healthy_in(
            self.lobby_registry@,
            self.sessions@[role_id].lobby_id->Some_0,
            now_ms,
        ) {
            self.sessions@[role_id].lobby_id
        } else {
            None
        }
    }

    /// What `select_or_reuse_lobby(role_id)` at `now_ms` returns in `old`, and
    /// the state `new` it leaves.
    pub open spec fn select_or_reuse_post(
        old: Gateway,
        new: Gateway,
        role_id: u64,
        now_ms: u64,
        r: Result<u64, GatewayError>,
    ) -> bool {
        &&& new.lobby_registry@ == old.lobby_registry@
        &&& new.next_lobby_id == old.next_lobby_id
        &&& match old.reusable_pin(role_id, now_ms) {
            Some(id) => r == Ok::<u64, GatewayError>(id) && new.sessions@ == old.sessions@,
            None => {
                &&& r == spec_select_lobby(old.lobby_registry@, now_ms)
                &&& r matches Ok(id) ==> new.sessions@ == old.sessions@.insert(
                    role_id,
                    pinned_session(old.sessions@, role_id, id, now_ms),
                )
                &&& r is Err ==> new.sessions@ == old.sessions@
            },
        }
    }

    /// An empty gateway.
    pub fn new() -> (r: Gateway)
        ensures
            r.wf(),
            r.lobby_registry@ == Seq::<LobbyInfo>::empty(),
            r.sessions@ == Map::<u64, Session>::empty(),
            r.next_lobby_id == 0,
    {
        Gateway { lobby_registry: Vec::new(), sessions: HashMap::new(), next_lobby_id: 0 }
    }

    /// Registers a lobby under the next id, healthy, with no load, its
    /// heartbeat taken at `now_ms`.
    pub fn handle_register_lobby(&mut self, req: RegisterLobbyRequest, now_ms: u64) -> (r:
        RegisterLobbyResponse)
        requires
            old(self).wf(),
            old(self).next_lobby_id < u64::MAX,
        ensures
            final(self).wf(),
            r.lobby_id == old(self).next_lobby_id,
            final(self).next_lobby_id == old(self).next_lobby_id + 1,
            final(self).lobby_registry@ == old(self).lobby_registry@.push(
                registered_lobby(r.lobby_id, req, now_ms),
            ),
            final(self).sessions@ == old(self).sessions@,
    {
        let lobby_id = self.next_lobby_id;
        self.next_lobby_id = self.next_lobby_id + 1;
        let info = LobbyInfo {
            lobby_id,
            address: req.rpc_address,
            max_capacity: req.max_capacity,
            current_players: 0,
            current_rooms: 0,
            cpu_usage_hundredths: 0,
            memory_mb: 0,
            version: req.version,
            weight: req.weight,
            last_heartbeat_ms: now_ms,
            status: LobbyStatus::Healthy,
        };
        self.lobby_registry.push(info);
        RegisterLobbyResponse { lobby_id }
    }

    /// Takes in a heartbeat at `now_ms`: a known lobby gets the reported load,
    /// a fresh heartbeat time, and healthy status. Returns whether the lobby
    /// was known; a heartbeat for an unknown lobby changes nothing.
    pub fn handle_lobby_heartbeat(&mut self, hb: &LobbyHeartbeat, now_ms: u64) -> (r: bool)
        requires
            old(self).wf(),
        ensures
            final(self).wf(),
            r == exists|i: int|
                0 <= i < old(self).lobby_registry@.len() && old(self).lobby_registry@[i].lobby_id
                    == hb.lobby_id,
            r ==> exists|i: int|
                0 <= i < old(self).lobby_registry@.len() && old(self).lobby_registry@[i].lobby_id
                    == hb.lobby_id && final(self).lobby_registry@ == old(
                    self,
                ).lobby_registry@.update(i, with_heartbeat(old(self).lobby_registry@[i], *hb, now_ms)),
            !r ==> final(self).lobby_registry@ == old(self).lobby_registry@,
            final(self).sessions@ == old(self).sessions@,
            final(self).next_lobby_id == old(self).next_lobby_id,
    {
        match find_lobby(&self.lobby_registry, hb.lobby_id) {
            None => false,
            Some(i) => {
                let ghost before = self.lobby_registry@;
                let mut info = self.lobby_registry.remove(i);
                info.current_players = hb.player_count;
                info.current_rooms = hb.room_count;
                info.cpu_usage_hundredths = hb.cpu_usage_hundredths;
                info.memory_mb = hb.memory_mb;
                info.last_heartbeat_ms = now_ms;
                info.status = LobbyStatus::Healthy;
                self.lobby_registry.insert(i, info);
                assert(self.lobby_registry@ =~= before.update(
                    i as int,
                    with_heartbeat(before[i as int], *hb, now_ms),
                ));
                true
            },
        }
    }

    /// Removes the lobby with the request's id, if it is registered.
    pub fn handle_unregister_lobby(&mut self, req: UnregisterLobbyRequest)
        requires
            old(self).wf(),
        ensures
            final(self).wf(),
            (forall|i: int|
                0 <= i < old(self).lobby_registry@.len() ==> old(self).lobby_registry@[i].lobby_id
                    != req.lobby_id) ==> final(self).lobby_registry@ == old(self).lobby_registry@,
            forall|i: int|
                0 <= i < old(self).lobby_registry@.len() && old(self).lobby_registry@[i].lobby_id
                    == req.lobby_id ==> final(self).lobby_registry@ == old(
                    self,
                ).lobby_registry@.remove(i),
            final(self).sessions@ == old(self).sessions@,
            final(self).next_lobby_id == old(self).next_lobby_id,
    {
        match find_lobby(&self.lobby_registry, req.lobby_id) {
            None => {},
            Some(i) => {
                let ghost before = self.lobby_registry@;
                self.lobby_registry.remove(i);
                assert forall|j: int|
                    0 <= j < before.len() && before[j].lobby_id == req.lobby_id implies j
                    == i by {
                    if j < i {
                        assert(before[j].lobby_id < before[i as int].lobby_id);
                    } else if i < j {
                        assert(before[i as int].lobby_id < before[j].lobby_id);
                    }
                }
            },
        }
    }

    /// The lobby for `role_id` at `now_ms`: the lobby the player is pinned
    /// to while it is healthy; otherwise a fresh least-load pick, to which the
    /// player's session is then pinned (created if the player has none).
    pub fn select_or_reuse_lobby(&mut self, role_id: u64, now_ms: u64) -> (r: Result<
        u64,
        GatewayError,
    >)
        requires
            old(self).wf(),
        ensures
            final(self).wf(),
            Gateway::select_or_reuse_post(*old(self), *final(self), role_id, now_ms, r),
            r matches Ok(id) ==> lobby_healthy_in(old(self).lobby_registry@, id, now_ms),
            r is Err <==> r == Err::<u64, GatewayError>(GatewayError::NoHealthyLobby),
            r is Err <==> !has_healthy(old(self).lobby_registry@, now_ms),
    {
        assert(vstd::std_specs::hash::obeys_key_model::<u64>());
        let pinned = match self.sessions.get(&role_id) {
            Some(session) => session.lobby_id,
            None => None,
        };
        if let Some(lobby_id) = pinned {
            if let Some(i) = find_lobby(&self.lobby_registry, lobby_id) {
                if self.lobby_registry[i].is_healthy(now_ms) {
                    return Ok(lobby_id);
                }
                proof {
                    let reg = self.lobby_registry@;
                    assert forall|j: int|
                        0 <= j < reg.len() && reg[j].lobby_id == lobby_id implies !reg[j].spec_is_healthy(now_ms) by {
                        if j < i {
                            assert(reg[j].lobby_id < reg[i as int].lobby_id);
                        } else if i < j {
                            assert(reg[i as int].lobby_id < reg[j].lobby_id);
                        }
                    }
                }
            }
        }
        let r = select_lobby(self.lobby_registry.as_slice(), now_ms);
        match r {
            Err(e) => {
                proof {
                    if has_healthy(self.lobby_registry@, now_ms) {
                        assert(r is Ok);
                    }
                }
                Err(e)
            },
            Ok(lobby_id) => {
                let session = match self.sessions.get(&role_id) {
                    Some(s) => Session { lobby_id: Some(lobby_id), ..*s },
                    None => Session {
                        role_id,
                        lobby_id: Some(lobby_id),
                        last_heartbeat_ms: now_ms,
                        status: SessionStatus::Connected,
                    },
                };
                self.sessions.insert(role_id, session);
                Ok(lobby_id)
            },
        }
    }

    /// One tick of the health monitor at `now_ms`: every lobby whose last
    /// heartbeat is older than the liveness timeout becomes unhealthy. Returns
    /// the ids of the lobbies that went from healthy to unhealthy, in registry
    /// order: each demotion is reported once, on the tick that makes it.
    pub fn sweep_health(&mut self, now_ms: u64) -> (r: Vec<u64>)
        requires
            old(self).wf(),
        ensures
            final(self).wf(),
            final(self).lobby_registry@ == old(self).lobby_registry@.map_values(
                |l: LobbyInfo| swept_lobby(l, now_ms),
            ),
            r@ == sweep_events(old(self).lobby_registry@, now_ms),
            final(self).sessions@ == old(self).sessions@,
            final(self).next_lobby_id == old(self).next_lobby_id,
    {
        let ghost before = self.lobby_registry@;
        let mut events: Vec<u64> = Vec::new();
        let mut i: usize = 0;
        while i < self.lobby_registry.len()
            invariant
                self.lobby_registry@.len() == before.len(),
                0 <= i <= before.len(),
                forall|j: int| 0 <= j < i ==> self.lobby_registry@[j] == swept_lobby(before[j], now_ms),
                forall|j: int| i <= j < before.len() ==> self.lobby_registry@[j] == before[j],
                events@ == sweep_events_upto(before, now_ms, i as int),
                self.sessions@ == old(self).sessions@,
                self.next_lobby_id == old(self).next_lobby_id,
                before == old(self).lobby_registry@,
            decreases before.len() - i,
        {
            let last = self.lobby_registry[i].last_heartbeat_ms;
            if now_ms > last && now_ms - last > crate::types::LIVENESS_TIMEOUT_MS {
                if self.lobby_registry[i].status == LobbyStatus::Healthy {
                    events.push(self.lobby_registry[i].lobby_id);
                }
                let ghost cur = self.lobby_registry@;
                let mut info = self.lobby_registry.remove(i);
                info.status = LobbyStatus::Unhealthy;
                self.lobby_registry.insert(i, info);
                assert(self.lobby_registry@ =~= cur.update(i as int, swept_lobby(before[i as int], now_ms)));
            }
            i = i + 1;
        }
        assert(self.lobby_registry@ =~= before.map_values(|l: LobbyInfo| swept_lobby(l, now_ms)));
        events
    }
}

/// Sticky affinity: once `select_or_reuse_lobby` has given `role_id` the lobby
/// `id`, a second call returns `id` again and changes nothing, as long as that
/// lobby is still healthy at the time of the second call.
pub proof fn lemma_sticky_affinity(
    g0: Gateway,
    g1: Gateway,
    g2: Gateway,
    role_id: u64,
    t1: u64,
    t2: u64,
    id: u64,
    r2: Result<u64, GatewayError>,
)
    requires
        Gateway::select_or_reuse_post(g0, g1, role_id, t1, Ok(id)),
        Gateway::select_or_reuse_post(g1, g2, role_id, t2, r2),
        lobby_healthy_in(g1.lobby_registry@, id, t2),
    ensures
        r2 == Ok::<u64, GatewayError>(id),
        g2.sessions@ == g1.sessions@,
        g2.lobby_registry@ == g1.lobby_registry@,
{
    assert(g1.sessions@.contains_key(role_id) && g1.sessions@[role_id].lobby_id == Some(id));
    assert(g1.reusable_pin(role_id, t2) == Some(id));
}

/// Stand-in for the gateway on the lobby side, for demos: every registration
/// gets lobby id 1.
pub struct MockGatewayClient;

impl MockGatewayClient {
    pub fn register_lobby(&self, req: &RegisterLobbyRequest) -> (r: RegisterLobbyResponse)
        ensures
            r.lobby_id == 1,
    {
        RegisterLobbyResponse { lobby_id: 1 }
    }
}

} // verus!
