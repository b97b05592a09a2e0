use vstd::prelude::*;

verus! {

/// How long a lobby stays healthy after its last heartbeat, in milliseconds.
pub const LIVENESS_TIMEOUT_MS: u64 = 15000;

/// Whether a player's connection to the gateway is live.
#[derive(Debug, Clone, Copy, PartialEq, Eq, Structural)]
pub enum SessionStatus {
    Connected,
    Disconnected,
}

/// A player's sticky association to a lobby.
///
/// Times are milliseconds on the gateway's monotonic clock.
#[derive(Debug, Clone, Copy, PartialEq, Eq, Structural)]
pub struct Session {
    pub role_id: u64,
    pub lobby_id: Option<u64>,
    pub last_heartbeat_ms: u64,
    pub status: SessionStatus,
}

#[derive(Debug, Clone, Copy, PartialEq, Eq, Structural)]
pub enum LobbyStatus {
    Healthy,
    Unhealthy,
}

/// A lobby server as the gateway's registry records it.
///
/// `cpu_usage_hundredths` is the CPU usage in hundredths of a unit
/// (a usage of 10.5 is stored as 1050). `last_heartbeat_ms` is a time in
/// milliseconds on the gateway's monotonic clock.
#[derive(Debug, Clone)]
pub struct LobbyInfo {
    pub lobby_id: u64,
    pub address: String,
    pub max_capacity: u32,
    pub current_players: u32,
    pub current_rooms: u32,
    pub cpu_usage_hundredths: u32,
    pub memory_mb: u64,
    pub version: String,
    pub weight: u32,
    pub last_heartbeat_ms: u64,
    pub status: LobbyStatus,
}

/// Load score of a lobby with the given CPU usage (in hundredths), player count
/// and capacity: `floor(cpu * 60) + round(players / capacity * 40)`, halves
/// rounded up.
pub open spec fn load_score_of(cpu_hundredths: int, players: int, capacity: int) -> int {
    (cpu_hundredths * 60) / 100 + (80 * players + capacity) / (2 * capacity)
}

/// Whether a heartbeat sent at `last_ms` is still fresh at `now_ms`.
pub open spec fn heartbeat_fresh(last_ms: u64, now_ms: u64) -> bool {
    now_ms < last_ms + LIVENESS_TIMEOUT_MS
}

/// Whether a heartbeat sent at `last_ms` has expired at `now_ms`.
pub open spec fn heartbeat_expired(last_ms: u64, now_ms: u64) -> bool {
    now_ms > last_ms + LIVENESS_TIMEOUT_MS
}

impl LobbyInfo {
    pub open spec fn spec_load_score(&self) -> int {
        load_score_of(
            self.cpu_usage_hundredths as int,
            self.current_players as int,
            self.max_capacity as int,
        )
    }

    pub open spec fn spec_is_healthy(&self, now_ms: u64) -> bool {
        &&& self.status == LobbyStatus::Healthy
        &&& self.current_players < self.max_capacity
        &&& heartbeat_fresh(self.last_heartbeat_ms, now_ms)
    }

    /// Composite load score; lower is preferred.
    pub fn load_score(&self) -> (r: u64)
        requires
            self.max_capacity > 0,
        ensures
            r == self.spec_load_score(),
    {
        let cpu_score = (self.cpu_usage_hundredths as u64) * 60 / 100;
        let players = self.current_players as u64;
        let capacity = self.max_capacity as u64;
        let player_score = (80 * players + capacity) / (2 * capacity);
        assert(player_score <= 80 * players + capacity) by (nonlinear_arith)
            requires
                player_score == (80 * players + capacity) / (2 * capacity),
                capacity > 0,
        ;
        cpu_score + player_score
    }

    /// Whether the lobby may take new players at `now_ms`: it is marked healthy,
    /// it is under capacity, and its last heartbeat is younger than the
    /// liveness timeout.
    pub fn is_healthy(&self, now_ms: u64) -> (r: bool)
        ensures
            r == self.spec_is_healthy(now_ms),
    {
        let fresh = now_ms <= self.last_heartbeat_ms || now_ms - self.last_heartbeat_ms
            < LIVENESS_TIMEOUT_MS;
        self.status == LobbyStatus::Healthy && self.current_players < self.max_capacity && fresh
    }
}

/// Registration call that a lobby makes to the gateway.
#[derive(Debug, Clone)]
pub struct RegisterLobbyRequest {
    pub server_name: String,
    pub rpc_address: String,
    pub max_capacity: u32,
    pub version: String,
    pub weight: u32,
}

#[derive(Debug, Clone, Copy, PartialEq, Eq, Structural)]
pub struct RegisterLobbyResponse {
    pub lobby_id: u64,
}

/// Periodic load report from a lobby. `timestamp_ms` is the sender's wall
/// clock in milliseconds since the Unix epoch.
#[derive(Debug, Clone, Copy, PartialEq, Eq, Structural)]
pub struct LobbyHeartbeat {
    pub lobby_id: u64,
    pub player_count: u32,
    pub room_count: u32,
    pub cpu_usage_hundredths: u32,
    pub memory_mb: u64,
    pub timestamp_ms: i64,
}

#[derive(Debug, Clone, Copy, PartialEq, Eq, Structural)]
pub struct UnregisterLobbyRequest {
    pub lobby_id: u64,
}

#[derive(Debug, Clone, Copy, PartialEq, Eq, Structural)]
pub enum PayType {
    Owner,
    Aa,
    Diamond,
}

#[derive(Debug, Clone, Copy, PartialEq, Eq, Structural)]
pub struct RoomSummary {
    pub room_id: u64,
    pub owner_role_id: u64,
    pub seat_taken: u8,
    pub max_rounds: u16,
    pub pay_type: PayType,
    pub allow_spectator: bool,
    pub version: u64,
}

#[derive(Debug, Clone, Copy, PartialEq, Eq, Structural)]
pub enum SeatStatus {
    Empty,
    Occupied,
    Locked,
    Offline,
}

#[derive(Debug, Clone, Copy, PartialEq, Eq, Structural)]
pub struct Seat {
    pub index: u8,
    pub role_id: Option<u64>,
    pub status: SeatStatus,
    pub ready: bool,
}

#[derive(Debug, Clone, Copy, PartialEq, Eq, Structural)]
pub enum RoomState {
    Waiting,
    ReadyCheck,
    Playing,
    Settling,
    Closed,
}

/// A room as the store holds it. Times are milliseconds since the Unix epoch.
#[derive(Debug, Clone, Copy)]
pub struct RoomSnapshot {
    pub summary: RoomSummary,
    pub seats: [Seat; 4],
    pub state: RoomState,
    pub created_at_ms: i64,
    pub updated_at_ms: i64,
}

#[derive(Debug, Clone, Copy, PartialEq, Eq, Structural)]
pub enum GatewayError {
    NoHealthyLobby,
    SessionMissing(u64),
}

} // verus!
