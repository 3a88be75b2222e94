//! Rooms and the sockets in them.

use vstd::prelude::*;

use crate::ids::{is_random_uuid, random_uuid};

pub mod chat;
pub mod guarantees;
pub mod history;
pub mod laws;
pub mod routing;
pub mod socket;

verus! {

/// A room and who takes part in it.
#[derive(Clone, Debug)]
pub struct Room {
    pub id: u128,
    pub name: String,
    pub participant_ids: Vec<u128>,
}

/// A request for a new room.
#[derive(Clone, Debug)]
pub struct RoomCreateRequest {
    pub name: String,
    pub participant_ids: Vec<u128>,
}

/// A room as it is shown to those who take part in it.
#[derive(Clone, Debug)]
pub struct RoomResponse {
    pub id: u128,
    pub name: String,
    pub participants: Vec<RoomParticipant>,
}

/// Someone who takes part in a room.
#[derive(Clone, Debug)]
pub struct RoomParticipant {
    pub user_id: u128,
    pub username: String,
    pub public_key: Option<String>,
}

impl Room {
    /// A room with the given id.
    pub fn with_id(id: u128, name: String, participant_ids: Vec<u128>) -> (room: Room)
        ensures
            room == (Room { id, name, participant_ids }),
    {
        Room { id, name, participant_ids }
    }

    /// A room with a fresh id.
    pub fn new(name: String, participant_ids: Vec<u128>) -> (room: Room)
        ensures
            is_random_uuid(room.id),
            room == (Room { id: room.id, name, participant_ids }),
    {
        let id: u128 = random_uuid();
        Room::with_id(id, name, participant_ids)
    }
}

} // verus!
