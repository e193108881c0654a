//! What a room host decides for each line that a connected player sends.
use vstd::prelude::*;
use crate::avatar::{base_avatar, AvatarProfile, AvatarView};
use crate::protocol::{ClientMessage, ClientMessageView, ServerMessage, ServerMessageView};
use crate::room::{room_views, RoomInfo, RoomRegistry, RoomView};
use crate::text::{chars_of, push_str, trim, trimmed};
use crate::transport::{arrived, boarded, lemma_trip_returns_to_rest, waiting_train, SkyTrain, TrainType};

verus! {

broadcast use vstd::string::group_string_axioms;

/// One player's connection to a room, as the host sees it.
pub struct Session {
    /// The room that the host serves.
    pub room: RoomInfo,
    /// The name under which the player joined; empty until the player joins.
    pub client_name: String,
    /// The avatar that the player joined with.
    pub avatar: AvatarProfile,
}

/// The mathematical state of a session.
pub struct SessionView {
    pub room: RoomView,
    pub client_name: Seq<char>,
    pub avatar: AvatarView,
}

impl View for Session {
    type V = SessionView;

    open spec fn view(&self) -> SessionView {
        SessionView { room: self.room@, client_name: self.client_name@, avatar: self.avatar@ }
    }
}

/// What the host does for a player, in the order in which it is listed.
#[derive(Debug)]
pub enum SessionAction {
    /// Record the player, with this avatar, among the players of the room.
    Register(AvatarProfile),
    /// Take the player off the players of the room.
    Unregister,
    /// Send this message to the player.
    Send(ServerMessage),
    /// Announce this message to every player of the room.
    Announce(ServerMessage),
    /// Send the player the rooms of the local registry.
    SendRoomList,
    /// Wait this many seconds before going on.
    Wait(u64),
    /// Send this line to the player as it stands.
    SendLine(String),
    /// End the connection.
    Close,
}

/// The mathematical content of a session action.
pub enum SessionActionView {
    Register(AvatarView),
    Unregister,
    Send(ServerMessageView),
    Announce(ServerMessageView),
    SendRoomList,
    Wait(u64),
    SendLine(Seq<char>),
    Close,
}

impl View for SessionAction {
    type V = SessionActionView;

    open spec fn view(&self) -> SessionActionView {
        match self {
            SessionAction::Register(a) => SessionActionView::Register(a@),
            SessionAction::Unregister => SessionActionView::Unregister,
            SessionAction::Send(m) => SessionActionView::Send(m@),
            SessionAction::Announce(m) => SessionActionView::Announce(m@),
            SessionAction::SendRoomList => SessionActionView::SendRoomList,
            SessionAction::Wait(s) => SessionActionView::Wait(*s),
            SessionAction::SendLine(l) => SessionActionView::SendLine(l@),
            SessionAction::Close => SessionActionView::Close,
        }
    }
}

/// The contents of each action of `v`.
pub open spec fn action_views(v: Seq<SessionAction>) -> Seq<SessionActionView> {
    v.map_values(|a: SessionAction| a@)
}

/// The line that answers a message the host cannot read.
pub open spec fn invalid_format_line() -> Seq<char> {
    "{\"Error\":\"Invalid command format\"}"@
}

/// The line that answers a player who quits.
pub open spec fn goodbye_line() -> Seq<char> {
    "{\"Info\":\"Goodbye\"}"@
}

/// The greeting sent to a player who has just joined `room` as `name`.
pub open spec fn joined_text(room: Seq<char>, name: Seq<char>) -> Seq<char> {
    "Joined room "@ + room + " as "@ + name
}

/// What a session does with one line as it arrived, given what its trimmed
/// text reads as: a line that is blank once trimmed is passed over, with no
/// action and no change; any other line is handled as `session_step` says.
pub open spec fn line_step(s: SessionView, line: Seq<char>, m: Option<ClientMessageView>) -> (
    SessionView,
    Seq<SessionActionView>,
) {
    if trimmed(line).len() == 0 {
        (s, Seq::<SessionActionView>::empty())
    } else {
        session_step(s, m)
    }
}

/// What is done when a connection ends, however it ends: the player is taken
/// off the players of the room.
pub open spec fn end_actions() -> Seq<SessionActionView> {
    seq![SessionActionView::Unregister]
}

/// The first line that a connection to `room` receives.
pub open spec fn welcome_text(room: Seq<char>) -> Seq<char> {
    "Welcome to room "@ + room
}

/// How many seconds a sky train travels.
pub open spec fn travel_seconds() -> u64 {
    2
}

/// A fresh session of a player connected to `room` who has not joined yet.
pub open spec fn fresh_session(room: RoomView) -> SessionView {
    SessionView { room, client_name: Seq::<char>::empty(), avatar: base_avatar("Guest"@) }
}

/// What a session does with one message from the player (`None` where the
/// line could not be read as a message): the next state of the session, and
/// the actions to take in order.
pub open spec fn session_step(s: SessionView, m: Option<ClientMessageView>) -> (
    SessionView,
    Seq<SessionActionView>,
) {
    match m {
        None => (s, seq![SessionActionView::SendLine(invalid_format_line())]),
        Some(ClientMessageView::JoinRequest { name, avatar }) => (
            SessionView { client_name: name, avatar, ..s },
            seq![
                SessionActionView::Register(avatar),
                SessionActionView::Send(
                    ServerMessageView::JoinAccepted {
                        welcome: joined_text(s.room.name, name),
                        current_room: s.room,
                    },
                ),
            ],
        ),
        Some(ClientMessageView::ListRooms) => (s, seq![SessionActionView::SendRoomList]),
        Some(ClientMessageView::InviteFriend { friend }) => {
            let invite = ServerMessageView::Invite { from: s.client_name, friend };
            (s, seq![SessionActionView::Announce(invite), SessionActionView::Send(invite)])
        },
        Some(ClientMessageView::CallTrain { destination, train_type }) => {
            let leaving = boarded(waiting_train(s.room.name, destination, train_type));
            (
                s,
                seq![
                    SessionActionView::Send(ServerMessageView::TrainStatus { train: leaving }),
                    SessionActionView::Wait(travel_seconds()),
                    SessionActionView::Send(
                        ServerMessageView::TrainStatus { train: arrived(leaving) },
                    ),
                ],
            )
        },
        Some(ClientMessageView::Quit) => (
            s,
            seq![SessionActionView::SendLine(goodbye_line()), SessionActionView::Close],
        ),
    }
}

/// The view of a message that may be missing.
pub open spec fn message_view(m: Option<ClientMessage>) -> Option<ClientMessageView> {
    match m {
        Some(msg) => Some(msg@),
        None => None,
    }
}

/// The first line that a connection to `room` receives.
pub fn welcome_line(room: &RoomInfo) -> (line: String)
    ensures
        line@ == welcome_text(room.name@),
{
    let mut line = String::new();
    push_str(&mut line, "Welcome to room ");
    push_str(&mut line, room.name.as_str());
    line
}

/// The list of rooms sent to a player: the rooms of the registry that was
/// read, or none where no registry could be read.
pub fn room_list_message(loaded: Option<RoomRegistry>) -> (m: ServerMessage)
    ensures
        m@ == ServerMessageView::RoomList(
            match loaded {
                Some(reg) => reg@,
                None => Seq::<RoomView>::empty(),
            },
        ),
{
    match loaded {
        Some(reg) => ServerMessage::RoomList(reg.rooms),
        None => {
            let rooms: Vec<RoomInfo> = Vec::new();
            assert(room_views(rooms@) =~= Seq::<RoomView>::empty());
            ServerMessage::RoomList(rooms)
        },
    }
}

fn copy_avatar(a: &AvatarProfile) -> (r: AvatarProfile)
    ensures
        r@ == a@,
{
    let costume = match &a.costume {
        Some(c) => Some(c.clone()),
        None => None,
    };
    let cosmetics = a.cosmetics.clone();
    proof {
        assert forall|i: int| 0 <= i < cosmetics@.len() implies cosmetics@[i] == a.cosmetics@[i] by {
            assert(cloned::<String>(a.cosmetics[i], cosmetics[i]));
        }
        assert(cosmetics@ =~= a.cosmetics@);
    }
    AvatarProfile { name: a.name.clone(), costume, cosmetics }
}

fn copy_train(t: &SkyTrain) -> (r: SkyTrain)
    ensures
        r@ == t@,
{
    SkyTrain {
        origin: t.origin.clone(),
        destination: t.destination.clone(),
        train_type: t.train_type,
        in_transit: t.in_transit,
    }
}

impl Session {
    /// A session of a player who has connected to `room` and not joined yet:
    /// no name, and the plain avatar of a guest.
    pub fn start(room: RoomInfo) -> (s: Session)
        ensures
            s@ == fresh_session(room@),
    {
        let mut guest = String::new();
        push_str(&mut guest, "Guest");
        Session { room, client_name: String::new(), avatar: AvatarProfile::base(guest) }
    }

    /// Handles one message from the player, `None` where the line the
    /// player sent could not be read as a message, and returns the actions to
    /// take, in order.
    pub fn handle(&mut self, message: Option<ClientMessage>) -> (actions: Vec<SessionAction>)
        ensures
            (final(self)@, action_views(actions@)) == session_step(old(self)@, message_view(message)),
            actions@.len() == session_step(old(self)@, message_view(message)).1.len(),
            forall|i: int|
                0 <= i < actions@.len() ==> #[trigger] actions@[i]@ == session_step(
                    old(self)@,
                    message_view(message),
                ).1[i],
    {
        let mut actions: Vec<SessionAction> = Vec::new();
        match message {
            None => {
                let mut line = String::new();
                push_str(&mut line, "{\"Error\":\"Invalid command format\"}");
                actions.push(SessionAction::SendLine(line));
            },
            Some(ClientMessage::JoinRequest { name, avatar }) => {
                let mut welcome = String::new();
                push_str(&mut welcome, "Joined room ");
                push_str(&mut welcome, self.room.name.as_str());
                push_str(&mut welcome, " as ");
                push_str(&mut welcome, name.as_str());
                self.client_name = name;
                self.avatar = avatar;
                actions.push(SessionAction::Register(copy_avatar(&self.avatar)));
                actions.push(
                    SessionAction::Send(
                        ServerMessage::JoinAccepted { welcome, current_room: self.room.copied() },
                    ),
                );
            },
            Some(ClientMessage::ListRooms) => {
                actions.push(SessionAction::SendRoomList);
            },
            Some(ClientMessage::InviteFriend { friend }) => {
                let announced = ServerMessage::Invite {
                    from: self.client_name.clone(),
                    friend: friend.clone(),
                };
                let invite = ServerMessage::Invite { from: self.client_name.clone(), friend };
                actions.push(SessionAction::Announce(announced));
                actions.push(SessionAction::Send(invite));
            },
            Some(ClientMessage::CallTrain { destination, train_type }) => {
                let mut train = SkyTrain::new(self.room.name.clone(), destination, train_type);
                train.board();
                let leaving = copy_train(&train);
                let mut arrival = train;
                arrival.arrive();
                actions.push(SessionAction::Send(ServerMessage::TrainStatus { train: leaving }));
                actions.push(SessionAction::Wait(2));
                actions.push(SessionAction::Send(ServerMessage::TrainStatus { train: arrival }));
            },
            Some(ClientMessage::Quit) => {
                let mut line = String::new();
                push_str(&mut line, "{\"Info\":\"Goodbye\"}");
                actions.push(SessionAction::SendLine(line));
                actions.push(SessionAction::Close);
            },
        }
        assert(action_views(actions@) =~= session_step(old(self)@, message_view(message)).1);
        assert(forall|i: int| 0 <= i < actions@.len() ==> #[trigger] actions@[i]@ == action_views(actions@)[i]);
        actions
    }
}

/// A session stays in the room it was started for, whatever the player
/// sends; only a request to join changes it, and a message that cannot be read
/// changes nothing and is answered with the invalid-format line alone.
pub proof fn lemma_session_keeps_room(s: SessionView, m: Option<ClientMessageView>)
    ensures
        session_step(s, m).0.room == s.room,
        !(m matches Some(ClientMessageView::JoinRequest { .. })) ==> session_step(s, m).0 == s,
        m is None ==> session_step(s, m).1 == seq![SessionActionView::SendLine(invalid_format_line())],
{
}

/// An invitation names its sender as the name the player joined under, and
/// one sent before any join names nobody.
pub proof fn lemma_invite_from_joined_name(
    room: RoomView,
    name: Seq<char>,
    avatar: AvatarView,
    friend: Seq<char>,
)
    ensures
        ({
            let joined = session_step(
                fresh_session(room),
                Some(ClientMessageView::JoinRequest { name, avatar }),
            ).0;
            let invite = ServerMessageView::Invite { from: name, friend };
            session_step(joined, Some(ClientMessageView::InviteFriend { friend })).1 == seq![
                SessionActionView::Announce(invite),
                SessionActionView::Send(invite),
            ]
        }),
        session_step(fresh_session(room), Some(ClientMessageView::InviteFriend { friend })).1[1]
            == SessionActionView::Send(
            ServerMessageView::Invite { from: Seq::<char>::empty(), friend },
        ),
{
}

/// A session ends exactly when the player quits: no other message, and no
/// unreadable line, produces a `Close`.
pub proof fn lemma_close_only_on_quit(s: SessionView, m: Option<ClientMessageView>)
    ensures
        session_step(s, m).1.contains(SessionActionView::Close) <==> m == Some(
            ClientMessageView::Quit,
        ),
{
    let acts = session_step(s, m).1;
    if m == Some(ClientMessageView::Quit) {
        assert(acts[1] == SessionActionView::Close);
    } else {
        assert forall|i: int| 0 <= i < acts.len() implies acts[i] != SessionActionView::Close by {}
    }
}

/// A train call is answered by the train leaving the host's room, in transit
/// toward the destination, and then, after the travel time, the same train at
/// rest.
pub proof fn lemma_train_call_reports_trip(
    s: SessionView,
    destination: Seq<char>,
    train_type: TrainType,
)
    ensures
        ({
            let acts = session_step(
                s,
                Some(ClientMessageView::CallTrain { destination, train_type }),
            ).1;
            &&& acts.len() == 3
            &&& acts[0] matches SessionActionView::Send(ServerMessageView::TrainStatus { train: t0 })
                && t0.origin == s.room.name && t0.destination == destination && t0.train_type
                == train_type && t0.in_transit
            &&& acts[1] == SessionActionView::Wait(travel_seconds())
            &&& acts[2] == SessionActionView::Send(
                ServerMessageView::TrainStatus {
                    train: waiting_train(s.room.name, destination, train_type),
                },
            )
        }),
{
    lemma_trip_returns_to_rest(waiting_train(s.room.name, destination, train_type));
}

impl Session {
    /// Handles one line as it arrived from the player. `message` is what the
    /// trimmed line reads as, `None` where it reads as no message. A line that
    /// is blank once trimmed is passed over.
    pub fn handle_line(&mut self, line: &str, message: Option<ClientMessage>) -> (actions: Vec<
        SessionAction,
    >)
        ensures
            (final(self)@, action_views(actions@)) == line_step(
                old(self)@,
                line@,
                message_view(message),
            ),
            actions@.len() == line_step(old(self)@, line@, message_view(message)).1.len(),
            forall|i: int|
                0 <= i < actions@.len() ==> #[trigger] actions@[i]@ == line_step(
                    old(self)@,
                    line@,
                    message_view(message),
                ).1[i],
    {
        let text = trim(line);
        let chars = chars_of(text.as_str());
        if chars.len() == 0 {
            let none: Vec<SessionAction> = Vec::new();
            assert(action_views(none@) =~= Seq::<SessionActionView>::empty());
            return none;
        }
        self.handle(message)
    }

    /// The actions taken when the connection ends, by `Quit` or otherwise.
    pub fn end(&self) -> (actions: Vec<SessionAction>)
        ensures
            action_views(actions@) == end_actions(),
            actions@.len() == 1,
            actions@[0]@ == SessionActionView::Unregister,
    {
        let mut actions: Vec<SessionAction> = Vec::new();
        actions.push(SessionAction::Unregister);
        assert(action_views(actions@) =~= end_actions());
        actions
    }
}

/// Accepting a join sends the host's own room, unchanged, and a welcome that
/// names that room and the joining player; the player is recorded with the
/// avatar they came with, and the session takes on their name and avatar while
/// staying in its room.
pub proof fn lemma_join_accepted_shows_host_room(s: SessionView, name: Seq<char>, avatar: AvatarView)
    ensures
        ({
            let (next, acts) = session_step(
                s,
                Some(ClientMessageView::JoinRequest { name, avatar }),
            );
            &&& acts.len() == 2
            &&& acts[0] == SessionActionView::Register(avatar)
            &&& acts[1] == SessionActionView::Send(
                ServerMessageView::JoinAccepted {
                    welcome: "Joined room "@ + s.room.name + " as "@ + name,
                    current_room: s.room,
                },
            )
            &&& next.room == s.room
            &&& next.client_name == name
            &&& next.avatar == avatar
        }),
{
}

/// The room a joining player is told about is the host's room whatever name
/// the player joins under: two joins under different names report the same
/// room.
pub proof fn lemma_join_room_independent_of_name(
    s: SessionView,
    name1: Seq<char>,
    name2: Seq<char>,
    avatar: AvatarView,
)
    ensures
        ({
            let a1 = session_step(s, Some(ClientMessageView::JoinRequest { name: name1, avatar })).1;
            let a2 = session_step(s, Some(ClientMessageView::JoinRequest { name: name2, avatar })).1;
            &&& a1[1] matches SessionActionView::Send(
                ServerMessageView::JoinAccepted { current_room: r1, .. },
            )
            &&& a2[1] matches SessionActionView::Send(
                ServerMessageView::JoinAccepted { current_room: r2, .. },
            )
            &&& r1 == r2
            &&& r1 == s.room
        }),
{
}

} // verus!
