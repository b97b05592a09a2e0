use mahjong_hall::{
    create_room, join_room, seated_players, PayType, RoomError, RoomSnapshot, RoomState, Seat,
    SeatStatus, DEFAULT_MAX_ROUNDS,
};

fn empty_room() -> RoomSnapshot {
    let mut room = create_room(9, 1, PayType::Aa, 0);
    room.seats[0] = Seat { index: 0, role_id: None, status: SeatStatus::Empty, ready: false };
    room.summary.seat_taken = 0;
    room
}

#[test]
fn create_room_seats_owner() {
    let room = create_room(5, 1001, PayType::Owner, 1234);
    assert_eq!(room.summary.room_id, 5);
    assert_eq!(room.summary.owner_role_id, 1001);
    assert_eq!(room.summary.seat_taken, 1);
    assert_eq!(room.summary.version, 1);
    assert_eq!(room.summary.max_rounds, DEFAULT_MAX_ROUNDS);
    assert_eq!(room.summary.pay_type, PayType::Owner);
    assert!(room.summary.allow_spectator);
    assert_eq!(room.seats[0].role_id, Some(1001));
    assert_eq!(room.seats[0].status, SeatStatus::Occupied);
    for k in 1..4 {
        assert_eq!(room.seats[k].index as usize, k);
        assert_eq!(room.seats[k].role_id, None);
        assert_eq!(room.seats[k].status, SeatStatus::Empty);
    }
    assert_eq!(room.state, RoomState::Waiting);
    assert_eq!(room.created_at_ms, 1234);
    assert!(room.is_consistent());
}

#[test]
fn join_takes_next_seat() {
    let room = create_room(5, 1001, PayType::Owner, 0);
    let joined = join_room(Some(room), 1002, 50).unwrap();
    assert_eq!(joined.seats[1].role_id, Some(1002));
    assert_eq!(joined.seats[1].status, SeatStatus::Occupied);
    assert_eq!(joined.summary.seat_taken, 2);
    assert_eq!(joined.summary.version, 2);
    assert_eq!(joined.state, RoomState::ReadyCheck);
    assert_eq!(joined.updated_at_ms, 50);
    assert_eq!(joined.created_at_ms, 0);
    assert!(joined.is_consistent());
}

#[test]
fn join_full_room_fails() {
    let mut room = create_room(5, 1001, PayType::Owner, 0);
    for p in 1002..1005u64 {
        room = join_room(Some(room), p, 0).unwrap();
    }
    let stored = room;
    assert_eq!(join_room(Some(stored), 1005, 0).unwrap_err(), RoomError::NoEmptySeat);
    assert_eq!(stored.summary.version, 4);
    assert_eq!(stored.summary.seat_taken, 4);
    assert_eq!(stored.seats[3].role_id, Some(1004));
}

#[test]
fn join_missing_room_fails() {
    assert_eq!(join_room(None, 1002, 0).unwrap_err(), RoomError::RoomNotFound);
}

#[test]
fn empty_room_fills_in_index_order() {
    let mut room = empty_room();
    for (k, p) in [11u64, 12, 13, 14].into_iter().enumerate() {
        let before = room.summary.version;
        room = join_room(Some(room), p, 0).unwrap();
        assert_eq!(room.seats[k].role_id, Some(p));
        assert_eq!(room.summary.version, before + 1);
        assert_eq!(room.summary.seat_taken as usize, k + 1);
        assert!(room.is_consistent());
    }
    assert_eq!(join_room(Some(room), 15, 0).unwrap_err(), RoomError::NoEmptySeat);
}

#[test]
fn join_skips_locked_seat() {
    let mut room = create_room(5, 1001, PayType::Diamond, 0);
    room.seats[1].status = SeatStatus::Locked;
    let joined = join_room(Some(room), 1002, 0).unwrap();
    assert_eq!(joined.seats[1].role_id, None);
    assert_eq!(joined.seats[2].role_id, Some(1002));
}

#[test]
fn consistency_check() {
    let mut room = create_room(5, 1001, PayType::Owner, 0);
    assert!(room.is_consistent());
    room.summary.seat_taken = 2;
    assert!(!room.is_consistent());
    let mut swapped = create_room(5, 1001, PayType::Owner, 0);
    swapped.seats[2].index = 3;
    assert!(!swapped.is_consistent());
}

#[test]
fn seated_players_in_seat_order() {
    let mut room = create_room(500, 1001, PayType::Owner, 0);
    assert_eq!(seated_players(&room), vec![1001]);
    room = join_room(Some(room), 1002, 0).unwrap();
    room.seats[3].role_id = Some(1004);
    assert_eq!(seated_players(&room), vec![1001, 1002, 1004]);
}
