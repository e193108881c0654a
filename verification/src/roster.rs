//! The players present in a room, each under the number of their connection.
use std::collections::HashMap;
use vstd::prelude::*;
use crate::avatar::{AvatarProfile, AvatarView};
use crate::server::SessionActionView;

verus! {

broadcast use vstd::std_specs::hash::group_hash_axioms;

/// The players of a room, each keyed by the number of the connection they
/// came in on.
pub struct Roster {
    players: HashMap<u64, AvatarProfile>,
}

impl View for Roster {
    type V = Map<u64, AvatarView>;

    closed spec fn view(&self) -> Map<u64, AvatarView> {
        self.players@.map_values(|a: AvatarProfile| a@)
    }
}

/// The players after connection `conn` takes the action `a`: registering puts
/// the player's avatar under `conn`, unregistering takes `conn` off, and every
/// other action leaves the players as they were.
pub open spec fn roster_after(m: Map<u64, AvatarView>, conn: u64, a: SessionActionView) -> Map<
    u64,
    AvatarView,
> {
    match a {
        SessionActionView::Register(avatar) => m.insert(conn, avatar),
        SessionActionView::Unregister => m.remove(conn),
        _ => m,
    }
}

/// The players after connection `conn` takes the actions `acts`, in order.
pub open spec fn roster_after_all(m: Map<u64, AvatarView>, conn: u64, acts: Seq<SessionActionView>) -> Map<
    u64,
    AvatarView,
>
    decreases acts.len(),
{
    if acts.len() == 0 {
        m
    } else {
        roster_after(roster_after_all(m, conn, acts.drop_last()), conn, acts.last())
    }
}

impl Roster {
    /// A room without players.
    pub fn new() -> (r: Roster)
        ensures
            r@ == Map::<u64, AvatarView>::empty(),
    {
        let r = Roster { players: HashMap::new() };
        assert(r@ =~= Map::<u64, AvatarView>::empty());
        r
    }

    /// Records the player of connection `conn` with `avatar`.
    pub fn register(&mut self, conn: u64, avatar: AvatarProfile)
        ensures
            final(self)@ == old(self)@.insert(conn, avatar@),
    {
        let ghost a = avatar@;
        self.players.insert(conn, avatar);
        assert(self@ =~= old(self)@.insert(conn, a));
    }

    /// Whether the player of connection `conn` is present.
    pub fn contains(&self, conn: u64) -> (b: bool)
        ensures
            b == self@.contains_key(conn),
    {
        self.players.contains_key(&conn)
    }

    /// Takes the player of connection `conn` off.
    pub fn unregister(&mut self, conn: u64)
        ensures
            final(self)@ == old(self)@.remove(conn),
    {
        self.players.remove(&conn);
        assert(self@ =~= old(self)@.remove(conn));
    }
}

/// No action of a connection touches the entries of other connections.
proof fn lemma_others_untouched(m: Map<u64, AvatarView>, conn: u64, acts: Seq<SessionActionView>)
    ensures
        roster_after_all(m, conn, acts).remove(conn) == m.remove(conn),
    decreases acts.len(),
{
    if acts.len() > 0 {
        let before = roster_after_all(m, conn, acts.drop_last());
        lemma_others_untouched(m, conn, acts.drop_last());
        match acts.last() {
            SessionActionView::Register(avatar) => {
                assert(before.insert(conn, avatar).remove(conn) =~= before.remove(conn));
            },
            SessionActionView::Unregister => {
                assert(before.remove(conn).remove(conn) =~= before.remove(conn));
            },
            _ => {},
        }
    }
}

/// Whatever a connection did while it was open, once it has ended its player
/// is gone from the room and every other player's entry is as it was before
/// the connection came: the players are those that were there, without `conn`.
pub proof fn lemma_ended_connection_leaves_roster(
    m: Map<u64, AvatarView>,
    conn: u64,
    acts: Seq<SessionActionView>,
)
    ensures
        roster_after_all(m, conn, acts + crate::server::end_actions()) == m.remove(conn),
{
    let all = acts + crate::server::end_actions();
    assert(all.drop_last() =~= acts);
    assert(all.last() == SessionActionView::Unregister);
    lemma_others_untouched(m, conn, acts);
}

} // verus!
