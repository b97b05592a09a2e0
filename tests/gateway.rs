use mahjong_hall::{
    select_lobby, total_healthy_weight, weighted_pick, weighted_select_lobby, Gateway,
    GatewayError, LobbyHeartbeat, LobbyInfo, LobbyStatus, MockGatewayClient,
    RegisterLobbyRequest, UnregisterLobbyRequest,
};

fn request(name: &str, weight: u32) -> RegisterLobbyRequest {
    RegisterLobbyRequest {
        server_name: name.to_string(),
        rpc_address: format!("127.0.0.1:{}", 7000 + weight),
        max_capacity: 10000,
        version: "0.1.0".to_string(),
        weight,
    }
}

fn heartbeat(lobby_id: u64, players: u32, cpu_hundredths: u32) -> LobbyHeartbeat {
    LobbyHeartbeat {
        lobby_id,
        player_count: players,
        room_count: 0,
        cpu_usage_hundredths: cpu_hundredths,
        memory_mb: 512,
        timestamp_ms: 0,
    }
}

fn lobby(id: u64, players: u32, capacity: u32, cpu: u32, weight: u32) -> LobbyInfo {
    LobbyInfo {
        lobby_id: id,
        address: String::new(),
        max_capacity: capacity,
        current_players: players,
        current_rooms: 0,
        cpu_usage_hundredths: cpu,
        memory_mb: 0,
        version: String::new(),
        weight,
        last_heartbeat_ms: 1000,
        status: LobbyStatus::Healthy,
    }
}

#[test]
fn load_score_formula() {
    // floor(10.5 * 60) + round(100 / 10000 * 40) = 630 + 0
    assert_eq!(lobby(0, 100, 10000, 1050, 1).load_score(), 630);
    // floor(0.33 * 60) + round(5 / 8 * 40) = 19 + 25
    assert_eq!(lobby(0, 5, 8, 33, 1).load_score(), 44);
    // a ratio of exactly one half rounds up: round(1 / 16 * 40) = round(2.5) = 3
    assert_eq!(lobby(0, 1, 16, 0, 1).load_score(), 3);
}

#[test]
fn health_predicate() {
    let l = lobby(0, 1, 2, 0, 1);
    assert!(l.is_healthy(1000));
    assert!(l.is_healthy(15999));
    assert!(!l.is_healthy(16000));
    assert!(l.is_healthy(0));
    let full = lobby(0, 2, 2, 0, 1);
    assert!(!full.is_healthy(1000));
    let mut down = lobby(0, 1, 2, 0, 1);
    down.status = LobbyStatus::Unhealthy;
    assert!(!down.is_healthy(1000));
}

#[test]
fn least_load_picks_minimum_first_on_tie() {
    let reg = vec![lobby(1, 50, 100, 500, 1), lobby(2, 10, 100, 100, 1), lobby(3, 10, 100, 100, 1)];
    assert_eq!(select_lobby(&reg, 1000), Ok(2));
}

#[test]
fn least_load_skips_full_and_unhealthy() {
    let mut down = lobby(1, 0, 100, 0, 1);
    down.status = LobbyStatus::Unhealthy;
    let full = lobby(2, 100, 100, 0, 1);
    let stale = lobby(3, 0, 100, 0, 1);
    let busy = lobby(4, 90, 100, 9000, 1);
    let reg = vec![down, full, stale, busy];
    assert_eq!(select_lobby(&reg, 20000), Err(GatewayError::NoHealthyLobby));
    assert_eq!(select_lobby(&reg, 1000), Ok(3));
}

#[test]
fn least_load_on_empty_registry() {
    assert_eq!(select_lobby(&[], 0), Err(GatewayError::NoHealthyLobby));
}

#[test]
fn weighted_pick_splits_by_weight() {
    let reg = vec![lobby(1, 0, 10, 0, 30), lobby(2, 0, 10, 0, 0), lobby(3, 0, 10, 0, 70)];
    assert_eq!(total_healthy_weight(&reg, 1000), 100);
    let mut counts = [0u32; 4];
    for t in 0..100u64 {
        let id = weighted_pick(&reg, 1000, t).unwrap();
        counts[id as usize] += 1;
    }
    assert_eq!(counts, [0, 30, 0, 70]);
    assert_eq!(weighted_pick(&reg, 1000, 100), None);
}

#[test]
fn weighted_select_never_picks_zero_weight() {
    let reg = vec![lobby(1, 0, 10, 0, 0), lobby(2, 0, 10, 0, 5), lobby(3, 0, 10, 0, 0)];
    for _ in 0..200 {
        assert_eq!(weighted_select_lobby(&reg, 1000), Some(2));
    }
}

#[test]
fn weighted_select_frequencies_follow_weights() {
    let reg = vec![lobby(1, 0, 10, 0, 25), lobby(2, 0, 10, 0, 75)];
    let mut first = 0u32;
    let draws = 20000u32;
    for _ in 0..draws {
        if weighted_select_lobby(&reg, 1000) == Some(1) {
            first += 1;
        }
    }
    let share = first as f64 / draws as f64;
    assert!(share > 0.2 && share < 0.3);
}

#[test]
fn weighted_select_without_weight() {
    let reg = vec![lobby(1, 0, 10, 0, 0)];
    assert_eq!(weighted_select_lobby(&reg, 1000), None);
    assert_eq!(weighted_select_lobby(&[], 1000), None);
}

#[test]
fn register_assigns_increasing_ids() {
    let mut g = Gateway::new();
    let a = g.handle_register_lobby(request("lobby-a", 50), 0);
    let b = g.handle_register_lobby(request("lobby-b", 50), 0);
    assert_eq!(a.lobby_id, 0);
    assert_eq!(b.lobby_id, 1);
    assert_eq!(g.lobby_registry.len(), 2);
    assert_eq!(g.lobby_registry[0].address, "127.0.0.1:7050");
    assert_eq!(g.lobby_registry[0].status, LobbyStatus::Healthy);
    assert_eq!(g.lobby_registry[0].current_players, 0);
}

#[test]
fn heartbeat_updates_known_lobby_only() {
    let mut g = Gateway::new();
    let a = g.handle_register_lobby(request("lobby-a", 50), 0).lobby_id;
    g.lobby_registry[0].status = LobbyStatus::Unhealthy;
    assert!(g.handle_lobby_heartbeat(&heartbeat(a, 100, 1050), 5000));
    let info = &g.lobby_registry[0];
    assert_eq!(info.current_players, 100);
    assert_eq!(info.cpu_usage_hundredths, 1050);
    assert_eq!(info.last_heartbeat_ms, 5000);
    assert_eq!(info.status, LobbyStatus::Healthy);
    assert!(!g.handle_lobby_heartbeat(&heartbeat(99, 1, 1), 6000));
    assert_eq!(g.lobby_registry[0].last_heartbeat_ms, 5000);
}

#[test]
fn unregister_is_idempotent() {
    let mut g = Gateway::new();
    let a = g.handle_register_lobby(request("lobby-a", 50), 0).lobby_id;
    let b = g.handle_register_lobby(request("lobby-b", 50), 0).lobby_id;
    g.handle_unregister_lobby(UnregisterLobbyRequest { lobby_id: a });
    assert_eq!(g.lobby_registry.len(), 1);
    assert_eq!(g.lobby_registry[0].lobby_id, b);
    g.handle_unregister_lobby(UnregisterLobbyRequest { lobby_id: a });
    assert_eq!(g.lobby_registry.len(), 1);
}

#[test]
fn sticky_selection_for_player() {
    let mut g = Gateway::new();
    let a = g.handle_register_lobby(request("lobby-a", 50), 0).lobby_id;
    let b = g.handle_register_lobby(request("lobby-b", 50), 0).lobby_id;
    let first = g.select_or_reuse_lobby(42, 100).unwrap();
    assert!(first == a || first == b);
    assert_eq!(g.select_or_reuse_lobby(42, 200), Ok(first));
    assert_eq!(g.sessions.get(&42).unwrap().lobby_id, Some(first));
}

#[test]
fn sticky_pin_survives_load_change() {
    let mut g = Gateway::new();
    let a = g.handle_register_lobby(request("lobby-a", 50), 0).lobby_id;
    let b = g.handle_register_lobby(request("lobby-b", 50), 0).lobby_id;
    assert_eq!(g.select_or_reuse_lobby(7, 10), Ok(a));
    g.handle_lobby_heartbeat(&heartbeat(a, 5000, 9000), 20);
    assert_eq!(g.select_or_reuse_lobby(8, 30), Ok(b));
    assert_eq!(g.select_or_reuse_lobby(7, 40), Ok(a));
}

#[test]
fn stale_lobby_is_demoted_and_avoided() {
    let mut g = Gateway::new();
    let a = g.handle_register_lobby(request("lobby-a", 50), 0).lobby_id;
    let b = g.handle_register_lobby(request("lobby-b", 50), 0).lobby_id;
    let mut now = 0u64;
    let mut demoted = Vec::new();
    while now < 20000 {
        now += 5000;
        g.handle_lobby_heartbeat(&heartbeat(a, 0, 0), now);
        demoted.extend(g.sweep_health(now));
    }
    assert_eq!(demoted, vec![b]);
    assert_eq!(g.lobby_registry[1].status, LobbyStatus::Unhealthy);
    assert_eq!(g.lobby_registry[0].status, LobbyStatus::Healthy);
    for player in 100..120u64 {
        assert_eq!(g.select_or_reuse_lobby(player, now), Ok(a));
    }
}

#[test]
fn sweep_reports_each_demotion_once() {
    let mut g = Gateway::new();
    let a = g.handle_register_lobby(request("lobby-a", 50), 0).lobby_id;
    assert_eq!(g.sweep_health(15000), Vec::<u64>::new());
    assert_eq!(g.sweep_health(15001), vec![a]);
    assert_eq!(g.sweep_health(20000), Vec::<u64>::new());
    assert_eq!(g.sweep_health(25000), Vec::<u64>::new());
    assert!(g.handle_lobby_heartbeat(&heartbeat(a, 0, 0), 30000));
    assert_eq!(g.lobby_registry[0].status, LobbyStatus::Healthy);
    assert_eq!(g.sweep_health(45001), vec![a]);
}

#[test]
fn repinned_when_lobby_goes_down() {
    let mut g = Gateway::new();
    let a = g.handle_register_lobby(request("lobby-a", 50), 0).lobby_id;
    let b = g.handle_register_lobby(request("lobby-b", 50), 0).lobby_id;
    assert_eq!(g.select_or_reuse_lobby(42, 0), Ok(a));
    g.handle_lobby_heartbeat(&heartbeat(b, 0, 0), 10000);
    g.sweep_health(16000);
    assert_eq!(g.select_or_reuse_lobby(42, 16000), Ok(b));
    assert_eq!(g.sessions.get(&42).unwrap().lobby_id, Some(b));
}

#[test]
fn no_healthy_lobby_for_selection() {
    let mut g = Gateway::new();
    assert_eq!(g.select_or_reuse_lobby(1, 0), Err(GatewayError::NoHealthyLobby));
    assert!(g.sessions.get(&1).is_none());
}

#[test]
fn mock_client_registers_as_one() {
    let client = MockGatewayClient;
    assert_eq!(client.register_lobby(&request("lobby-1", 50)).lobby_id, 1);
}
