//! Opening a room to host.
use vstd::prelude::*;
use crate::room::{RoomInfo, RoomView};
use crate::text::{decimal, push_decimal, push_str};

verus! {

broadcast use vstd::string::group_string_axioms;

/// Why a room could not be opened.
#[derive(Debug, Clone, Copy, PartialEq, Eq, Structural)]
pub enum HostError {
    /// Rooms are created only in PCVR mode.
    PcvrRequired,
}

/// The text that explains a refused room creation.
pub open spec fn pcvr_required_text() -> Seq<char> {
    "Room creation is allowed only when PCVR mode is enabled."@
}

impl HostError {
    /// The message shown for this error.
    pub fn message(&self) -> (m: String)
        ensures
            m@ == pcvr_required_text(),
    {
        let mut m = String::new();
        push_str(&mut m, "Room creation is allowed only when PCVR mode is enabled.");
        m
    }
}

/// The port that a room is served on when none is chosen.
pub open spec fn default_port() -> u16 {
    4000
}

/// The room that is opened under `name`, on `port` or else the default port,
/// on the local machine, with an id made from the time `millis` (milliseconds
/// since the Unix epoch) at which it was opened.
pub open spec fn hosted_room(name: Seq<char>, port: Option<u16>, public: bool, millis: u128) -> RoomView {
    RoomView {
        id: "room-"@ + decimal(millis as nat),
        name,
        host: "127.0.0.1"@,
        port: match port {
            Some(p) => p,
            None => default_port(),
        },
        public,
    }
}

/// Describes the room to open, or refuses where PCVR mode is off.
pub fn host_room_info(room_name: String, port: Option<u16>, public: bool, pcvr: bool, millis: u128) -> (r:
    Result<RoomInfo, HostError>)
    ensures
        pcvr ==> r is Ok && r->Ok_0@ == hosted_room(room_name@, port, public, millis),
        !pcvr ==> r == Err::<RoomInfo, HostError>(HostError::PcvrRequired),
{
    if !pcvr {
        return Err(HostError::PcvrRequired);
    }
    let port = match port {
        Some(p) => p,
        None => 4000,
    };
    let mut id = String::new();
    push_str(&mut id, "room-");
    push_decimal(&mut id, millis);
    let mut host = String::new();
    push_str(&mut host, "127.0.0.1");
    Ok(RoomInfo { id, name: room_name, host, port, public })
}

/// A room opened from the command line is what was asked for: its name and
/// visibility are the ones given, whatever the port; it is served on the local
/// machine, on the chosen port or else on port 4000; and its id is `room-`
/// followed by the time in milliseconds.
pub proof fn lemma_hosted_room_is_as_requested(name: Seq<char>, port: Option<u16>, public: bool, millis: u128)
    ensures
        hosted_room(name, port, public, millis).name == name,
        hosted_room(name, port, public, millis).public == public,
        hosted_room(name, port, public, millis).host == "127.0.0.1"@,
        port matches Some(p) ==> hosted_room(name, port, public, millis).port == p,
        port is None ==> hosted_room(name, port, public, millis).port == 4000,
        hosted_room(name, port, public, millis).id == "room-"@ + decimal(millis as nat),
        forall|q: Option<u16>|
            #![trigger hosted_room(name, q, public, millis)]
            hosted_room(name, q, public, millis).public == hosted_room(name, port, public, millis).public,
{
}

} // verus!
