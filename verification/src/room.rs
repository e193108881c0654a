use vstd::prelude::*;
use crate::text::{bool_text, decimal, push_bool, push_decimal, push_str};

verus! {

/// A room that a host offers, and where players reach it.
#[derive(Debug, Clone)]
pub struct RoomInfo {
    pub id: String,
    pub name: String,
    pub host: String,
    pub port: u16,
    pub public: bool,
}

/// The mathematical content of a room description.
pub struct RoomView {
    pub id: Seq<char>,
    pub name: Seq<char>,
    pub host: Seq<char>,
    pub port: u16,
    pub public: bool,
}

impl View for RoomInfo {
    type V = RoomView;

    open spec fn view(&self) -> RoomView {
        RoomView {
            id: self.id@,
            name: self.name@,
            host: self.host@,
            port: self.port,
            public: self.public,
        }
    }
}

/// The descriptions of each room of `rooms`.
pub open spec fn room_views(rooms: Seq<RoomInfo>) -> Seq<RoomView> {
    rooms.map_values(|r: RoomInfo| r@)
}

/// `host:port`, the address at which the room `r` is reached.
pub open spec fn room_address(r: RoomView) -> Seq<char> {
    r.host + seq![':'] + decimal(r.port as nat)
}

/// How room `r` is described: `<name> at <address>  public=<true|false>`.
pub open spec fn room_summary(r: RoomView) -> Seq<char> {
    r.name + " at "@ + room_address(r) + "  public="@ + bool_text(r.public)
}

/// The line that lists room `r` among the available rooms: its summary after a dash.
pub open spec fn listing_line(r: RoomView) -> Seq<char> {
    "- "@ + room_summary(r)
}

impl RoomInfo {
    /// The address of the room, `host:port`.
    pub fn address(&self) -> (a: String)
        ensures
            a@ == room_address(self@),
    {
        let mut a = self.host.clone();
        push_str(&mut a, ":");
        proof {
            reveal_strlit(":");
        }
        push_decimal(&mut a, self.port as u128);
        a
    }

    /// A copy of this description, equal to it in every field.
    pub(crate) fn copied(&self) -> (r: RoomInfo)
        ensures
            r@ == self@,
    {
        RoomInfo {
            id: self.id.clone(),
            name: self.name.clone(),
            host: self.host.clone(),
            port: self.port,
            public: self.public,
        }
    }
}

/// Appends the summary of `room` to `out`.
pub fn push_room_summary(out: &mut String, room: &RoomInfo)
    ensures
        final(out)@ == old(out)@ + room_summary(room@),
{
    push_str(out, room.name.as_str());
    push_str(out, " at ");
    let address = room.address();
    push_str(out, address.as_str());
    push_str(out, "  public=");
    push_bool(out, room.public);
    assert(final(out)@ =~= old(out)@ + room_summary(room@));
}

/// The line that lists `room` among the available rooms.
pub fn room_listing_line(room: &RoomInfo) -> (line: String)
    ensures
        line@ == listing_line(room@),
{
    let mut line = String::new();
    push_str(&mut line, "- ");
    push_room_summary(&mut line, room);
    assert(line@ =~= listing_line(room@));
    line
}

/// The rooms that a host has published.
#[derive(Debug, Clone)]
pub struct RoomRegistry {
    pub rooms: Vec<RoomInfo>,
}

impl View for RoomRegistry {
    type V = Seq<RoomView>;

    open spec fn view(&self) -> Seq<RoomView> {
        room_views(self.rooms@)
    }
}

impl Default for RoomRegistry {
    /// A registry without rooms.
    fn default() -> (r: RoomRegistry)
        ensures
            r@ == Seq::<RoomView>::empty(),
    {
        let r = RoomRegistry { rooms: Vec::new() };
        assert(r@ =~= Seq::<RoomView>::empty());
        r
    }
}

/// The registry that a host publishes for the one room it serves.
pub fn registry_for(room: RoomInfo) -> (r: RoomRegistry)
    ensures
        r@ == seq![room@],
{
    let mut rooms = Vec::new();
    rooms.push(room);
    let r = RoomRegistry { rooms };
    assert(r@ =~= seq![room@]);
    r
}

/// The registry that was read, or an empty one where none could be read.
pub fn registry_or_empty(loaded: Option<RoomRegistry>) -> (r: RoomRegistry)
    ensures
        r@ == match loaded {
            Some(reg) => reg@,
            None => Seq::<RoomView>::empty(),
        },
{
    match loaded {
        Some(reg) => reg,
        None => RoomRegistry::default(),
    }
}

} // verus!
