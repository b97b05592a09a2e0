use crate::types::{PayType, RoomSnapshot, RoomState, RoomSummary, Seat, SeatStatus};
use vstd::array::spec_array_update;
use vstd::prelude::*;

verus! {

/// Rounds a new room plays.
pub const DEFAULT_MAX_ROUNDS: u16 = 8;

#[derive(Debug, Clone, Copy, PartialEq, Eq, Structural)]
pub enum RoomError {
    /// No snapshot is stored under the room id.
    RoomNotFound,
    /// Every seat of the room is taken.
    NoEmptySeat,
}

pub open spec fn occupied_as_int(seat: Seat) -> int {
    if seat.status == SeatStatus::Occupied {
        1
    } else {
        0
    }
}

/// Number of occupied seats among the four.
pub open spec fn occupied_count(seats: Seq<Seat>) -> int {
    occupied_as_int(seats[0]) + occupied_as_int(seats[1]) + occupied_as_int(seats[2])
        + occupied_as_int(seats[3])
}

/// The first empty seat in index order, if any.
pub open spec fn first_empty_seat(seats: Seq<Seat>) -> Option<int> {
    if seats[0].status == SeatStatus::Empty {
        Some(0)
    } else if seats[1].status == SeatStatus::Empty {
        Some(1)
    } else if seats[2].status == SeatStatus::Empty {
        Some(2)
    } else if seats[3].status == SeatStatus::Empty {
        Some(3)
    } else {
        None
    }
}

/// A seat taken by `role_id`; its position and readiness stay.
pub open spec fn occupy(seat: Seat, role_id: u64) -> Seat {
    Seat { role_id: Some(role_id), status: SeatStatus::Occupied, ..seat }
}

impl RoomSnapshot {
    /// The summary's seat count matches the occupied seats, and each seat
    /// stands at the position its index names.
    pub open spec fn wf(&self) -> bool {
        &&& self.summary.seat_taken == occupied_count(self.seats@)
        &&& forall|k: int| 0 <= k < 4 ==> self.seats@[k].index == k
    }

    /// Whether the snapshot is consistent (see `wf`).
    pub fn is_consistent(&self) -> (r: bool)
        ensures
            r == self.wf(),
    {
        let mut taken: u8 = 0;
        let mut k: usize = 0;
        while k < 4
            invariant
                0 <= k <= 4,
                taken as int == (if k > 0 { occupied_as_int(self.seats@[0]) } else { 0 }) + (if k
                    > 1 { occupied_as_int(self.seats@[1]) } else { 0 }) + (if k > 2 {
                    occupied_as_int(self.seats@[2])
                } else { 0 }) + (if k > 3 { occupied_as_int(self.seats@[3]) } else { 0 }),
                forall|j: int| 0 <= j < k ==> self.seats@[j].index == j,
            decreases 4 - k,
        {
            if self.seats[k].index != k as u8 {
                return false;
            }
            if self.seats[k].status == SeatStatus::Occupied {
                taken = taken + 1;
            }
            k = k + 1;
        }
        taken == self.summary.seat_taken
    }
}

/// What joining `role_id` to the stored room at `now_ms` gives.
pub open spec fn spec_join_room(stored: Option<RoomSnapshot>, role_id: u64, now_ms: i64) -> Result<
    RoomSnapshot,
    RoomError,
> {
    match stored {
        None => Err(RoomError::RoomNotFound),
        Some(s) => match first_empty_seat(s.seats@) {
            None => Err(RoomError::NoEmptySeat),
            Some(k) => Ok(
                RoomSnapshot {
                    summary: RoomSummary {
                        seat_taken: (s.summary.seat_taken + 1) as u8,
                        version: (s.summary.version + 1) as u64,
                        ..s.summary
                    },
                    seats: spec_array_update(s.seats, k, occupy(s.seats@[k], role_id)),
                    state: RoomState::ReadyCheck,
                    updated_at_ms: now_ms,
                    ..s
                },
            ),
        },
    }
}

fn first_empty_seat_index(seats: &[Seat; 4]) -> (r: Option<usize>)
    ensures
        r matches Some(k) ==> first_empty_seat(seats@) == Some(k as int),
        r is None ==> first_empty_seat(seats@) is None,
{
    if seats[0].status == SeatStatus::Empty {
        Some(0)
    } else if seats[1].status == SeatStatus::Empty {
        Some(1)
    } else if seats[2].status == SeatStatus::Empty {
        Some(2)
    } else if seats[3].status == SeatStatus::Empty {
        Some(3)
    } else {
        None
    }
}

/// A new room `room_id` owned by `owner_role_id`: the owner sits in seat 0,
/// seats 1 to 3 are empty, the room waits for players, and its version is 1.
pub fn create_room(room_id: u64, owner_role_id: u64, pay_type: PayType, now_ms: i64) -> (r:
    RoomSnapshot)
    ensures
        r.wf(),
        r.summary == (RoomSummary {
            room_id,
            owner_role_id,
            seat_taken: 1,
            max_rounds: DEFAULT_MAX_ROUNDS,
            pay_type,
            allow_spectator: true,
            version: 1,
        }),
        r.seats@ == seq![
            Seat { index: 0, role_id: Some(owner_role_id), status: SeatStatus::Occupied, ready: false },
            Seat { index: 1, role_id: None, status: SeatStatus::Empty, ready: false },
            Seat { index: 2, role_id: None, status: SeatStatus::Empty, ready: false },
            Seat { index: 3, role_id: None, status: SeatStatus::Empty, ready: false },
        ],
        r.state == RoomState::Waiting,
        r.created_at_ms == now_ms,
        r.updated_at_ms == now_ms,
{
    let summary = RoomSummary {
        room_id,
        owner_role_id,
        seat_taken: 1,
        max_rounds: DEFAULT_MAX_ROUNDS,
        pay_type,
        allow_spectator: true,
        version: 1,
    };
    let seats = [
        Seat { index: 0, role_id: Some(owner_role_id), status: SeatStatus::Occupied, ready: false },
        Seat { index: 1, role_id: None, status: SeatStatus::Empty, ready: false },
        Seat { index: 2, role_id: None, status: SeatStatus::Empty, ready: false },
        Seat { index: 3, role_id: None, status: SeatStatus::Empty, ready: false },
    ];
    let r = RoomSnapshot {
        summary,
        seats,
        state: RoomState::Waiting,
        created_at_ms: now_ms,
        updated_at_ms: now_ms,
    };
    assert(r.seats@ =~= seq![
        Seat { index: 0, role_id: Some(owner_role_id), status: SeatStatus::Occupied, ready: false },
        Seat { index: 1, role_id: None, status: SeatStatus::Empty, ready: false },
        Seat { index: 2, role_id: None, status: SeatStatus::Empty, ready: false },
        Seat { index: 3, role_id: None, status: SeatStatus::Empty, ready: false },
    ]);
    r
}

/// Joins `role_id` to the room whose stored snapshot is `stored` (`None` when
/// the store holds none): the first empty seat in index order becomes occupied
/// by the player, the seat count and the version go up by one, the room moves
/// to the ready check, and `updated_at_ms` becomes `now_ms`. The caller writes
/// the result back; on an error nothing is to be written.
pub fn join_room(stored: Option<RoomSnapshot>, role_id: u64, now_ms: i64) -> (r: Result<
    RoomSnapshot,
    RoomError,
>)
    requires
        stored matches Some(s) ==> s.wf() && s.summary.version < u64::MAX,
    ensures
        r == spec_join_room(stored, role_id, now_ms),
        stored is None <==> r == Err::<RoomSnapshot, RoomError>(RoomError::RoomNotFound),
        stored matches Some(s) ==> (first_empty_seat(s.seats@) is None <==> r == Err::<
            RoomSnapshot,
            RoomError,
        >(RoomError::NoEmptySeat)),
        r matches Ok(n) ==> {
            &&& n.wf()
            &&& n.summary.version == stored->Some_0.summary.version + 1
            &&& n.summary.seat_taken == stored->Some_0.summary.seat_taken + 1
        },
{
    let mut s = match stored {
        None => return Err(RoomError::RoomNotFound),
        Some(s) => s,
    };
    let ghost old_s = s;
    match first_empty_seat_index(&s.seats) {
        None => Err(RoomError::NoEmptySeat),
        Some(k) => {
            let seat = Seat { role_id: Some(role_id), status: SeatStatus::Occupied, ..s.seats[k] };
            s.seats.set(k, seat);
            assert(s.seats =~= spec_array_update(old_s.seats, k as int, occupy(old_s.seats@[k as int], role_id)));
            assert(occupied_count(old_s.seats@) < 4);
            s.summary.seat_taken = s.summary.seat_taken + 1;
            s.summary.version = s.summary.version + 1;
            s.state = RoomState::ReadyCheck;
            s.updated_at_ms = now_ms;
            Ok(s)
        },
    }
}

/// Joining an all-empty room fills the seats in index order: four joins in a
/// row seat the four players at 0, 1, 2 and 3, and a fifth join finds no empty
/// seat.
pub proof fn lemma_seats_fill_in_index_order(s0: RoomSnapshot, roles: Seq<u64>, times: Seq<i64>)
    requires
        s0.wf(),
        forall|k: int| 0 <= k < 4 ==> s0.seats@[k].status == SeatStatus::Empty,
        roles.len() == 5,
        times.len() == 5,
    ensures
        ({
            let s1 = spec_join_room(Some(s0), roles[0], times[0]);
            let s2 = spec_join_room(Some(s1->Ok_0), roles[1], times[1]);
            let s3 = spec_join_room(Some(s2->Ok_0), roles[2], times[2]);
            let s4 = spec_join_room(Some(s3->Ok_0), roles[3], times[3]);
            &&& s1 is Ok && s2 is Ok && s3 is Ok && s4 is Ok
            &&& s1->Ok_0.seats@[0].role_id == Some(roles[0])
            &&& s2->Ok_0.seats@[1].role_id == Some(roles[1])
            &&& s3->Ok_0.seats@[2].role_id == Some(roles[2])
            &&& s4->Ok_0.seats@[3].role_id == Some(roles[3])
            &&& s4->Ok_0.seats@[0].role_id == Some(roles[0])
            &&& s4->Ok_0.seats@[1].role_id == Some(roles[1])
            &&& s4->Ok_0.seats@[2].role_id == Some(roles[2])
            &&& spec_join_room(Some(s4->Ok_0), roles[4], times[4]) == Err::<RoomSnapshot, RoomError>(
                RoomError::NoEmptySeat,
            )
        }),
{
    let s1 = spec_join_room(Some(s0), roles[0], times[0]);
    let s2 = spec_join_room(Some(s1->Ok_0), roles[1], times[1]);
    let s3 = spec_join_room(Some(s2->Ok_0), roles[2], times[2]);
    let s4 = spec_join_room(Some(s3->Ok_0), roles[3], times[3]);
    assert(first_empty_seat(s0.seats@) == Some(0int));
    assert(first_empty_seat(s1->Ok_0.seats@) == Some(1int));
    assert(first_empty_seat(s2->Ok_0.seats@) == Some(2int));
    assert(first_empty_seat(s3->Ok_0.seats@) == Some(3int));
    assert(first_empty_seat(s4->Ok_0.seats@) is None);
}

} // verus!
