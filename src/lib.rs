//! Fleet coordination for a table-game service: a gateway that registers lobby
//! servers, tracks their health and pins players to them, and a room state
//! machine that seats players in four-seat rooms.

pub mod gateway;
pub mod room;
pub mod select;
pub mod table;
pub mod types;

pub use types::{
    GatewayError, LobbyHeartbeat, LobbyInfo, LobbyStatus, PayType, RegisterLobbyRequest,
    RegisterLobbyResponse, RoomSnapshot, RoomState, RoomSummary, Seat, SeatStatus, Session,
    SessionStatus, UnregisterLobbyRequest, LIVENESS_TIMEOUT_MS,
};
pub use gateway::{Gateway, MockGatewayClient};
pub use room::{create_room, join_room, RoomError, DEFAULT_MAX_ROUNDS};
pub use select::{select_lobby, total_healthy_weight, weighted_pick, weighted_select_lobby};
pub use table::seated_players;
