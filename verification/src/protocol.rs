use vstd::prelude::*;
use crate::avatar::{AvatarProfile, AvatarView};
use crate::room::{room_views, RoomInfo, RoomView};
use crate::transport::{SkyTrain, TrainType, TrainView};

verus! {

/// What a room host tells a player.
#[derive(Debug, Clone)]
pub enum ServerMessage {
    RoomList(Vec<RoomInfo>),
    JoinAccepted { welcome: String, current_room: RoomInfo },
    Invite { from: String, friend: String },
    TrainStatus { train: SkyTrain },
    Error { message: String },
}

/// The mathematical content of a message from a host.
pub enum ServerMessageView {
    RoomList(Seq<RoomView>),
    JoinAccepted { welcome: Seq<char>, current_room: RoomView },
    Invite { from: Seq<char>, friend: Seq<char> },
    TrainStatus { train: TrainView },
    Error { message: Seq<char> },
}

impl View for ServerMessage {
    type V = ServerMessageView;

    open spec fn view(&self) -> ServerMessageView {
        match self {
            ServerMessage::RoomList(rooms) => ServerMessageView::RoomList(room_views(rooms@)),
            ServerMessage::JoinAccepted { welcome, current_room } => ServerMessageView::JoinAccepted {
                welcome: welcome@,
                current_room: current_room@,
            },
            ServerMessage::Invite { from, friend } => ServerMessageView::Invite {
                from: from@,
                friend: friend@,
            },
            ServerMessage::TrainStatus { train } => ServerMessageView::TrainStatus { train: train@ },
            ServerMessage::Error { message } => ServerMessageView::Error { message: message@ },
        }
    }
}

/// What a player asks of a room host.
#[derive(Debug)]
pub enum ClientMessage {
    JoinRequest { name: String, avatar: AvatarProfile },
    ListRooms,
    CallTrain { destination: String, train_type: TrainType },
    InviteFriend { friend: String },
    Quit,
}

/// The mathematical content of a message from a player.
pub enum ClientMessageView {
    JoinRequest { name: Seq<char>, avatar: AvatarView },
    ListRooms,
    CallTrain { destination: Seq<char>, train_type: TrainType },
    InviteFriend { friend: Seq<char> },
    Quit,
}

impl View for ClientMessage {
    type V = ClientMessageView;

    open spec fn view(&self) -> ClientMessageView {
        match self {
            ClientMessage::JoinRequest { name, avatar } => ClientMessageView::JoinRequest {
                name: name@,
                avatar: avatar@,
            },
            ClientMessage::ListRooms => ClientMessageView::ListRooms,
            ClientMessage::CallTrain { destination, train_type } => ClientMessageView::CallTrain {
                destination: destination@,
                train_type: *train_type,
            },
            ClientMessage::InviteFriend { friend } => ClientMessageView::InviteFriend {
                friend: friend@,
            },
            ClientMessage::Quit => ClientMessageView::Quit,
        }
    }
}

} // verus!
