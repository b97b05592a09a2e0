use crate::types::RoomSnapshot;
use vstd::prelude::*;

verus! {

/// The occupants of the first `k` seats, in seat order.
pub open spec fn seated_upto(room: RoomSnapshot, k: int) -> Seq<u64>
    decreases k,
{
    if k <= 0 {
        seq![]
    } else {
        match room.seats@[k - 1].role_id {
            Some(id) => seated_upto(room, k - 1).push(id),
            None => seated_upto(room, k - 1),
        }
    }
}

/// The players seated at a table, in seat order: every seat's occupant id,
/// skipping the seats with none.
pub fn seated_players(room: &RoomSnapshot) -> (r: Vec<u64>)
    ensures
        r@ == seated_upto(*room, 4),
{
    let mut players: Vec<u64> = Vec::new();
    let mut k: usize = 0;
    while k < 4
        invariant
            0 <= k <= 4,
            players@ == seated_upto(*room, k as int),
        decreases 4 - k,
    {
        if let Some(id) = room.seats[k].role_id {
            players.push(id);
        }
        k = k + 1;
    }
    players
}

} // verus!
