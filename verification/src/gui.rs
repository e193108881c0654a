//! The decisions of the graphical front end: which screen is shown, what the
//! status line says, how a room is opened from the host form, and how the known
//! rooms are listed.
use vstd::prelude::*;
use crate::host::HostError;
use crate::room::{push_room_summary, room_summary, room_views, RoomInfo, RoomRegistry, RoomView};
use crate::text::{
    decimal, int_text, parsed_u16, parse_u16, push_decimal, push_int, push_str, trim, trimmed,
};

verus! {

broadcast use vstd::string::group_string_axioms;

/// The screen that the front end shows.
#[derive(Debug, Clone, Copy, PartialEq, Eq, Structural)]
pub enum AppMode {
    Menu,
    Game,
    Editor,
}

/// The buttons that change the screen or the status line.
#[derive(Debug, Clone, Copy, PartialEq, Eq, Structural)]
pub enum Button {
    /// "Start Hosting" on the menu.
    StartHosting,
    /// "Join Room" on the menu.
    JoinRoom,
    /// "Start Game" on the menu.
    StartGame,
    /// "Editor Mode" on the menu or in the game.
    EditorMode,
    /// "Return to Menu" in the game.
    ReturnToMenu,
    /// "Back to Game" in the editor.
    BackToGame,
    /// "Back to Menu" in the editor.
    BackToMenu,
}

/// Where pressing `button` on the screen `mode` leads, and the status text it
/// sets, if any. A button that the screen does not show changes nothing. The
/// hosting and joining buttons keep the menu and announce the attempt; the
/// attempt itself is `form_room_info` and `join_status`.
pub open spec fn mode_after(mode: AppMode, button: Button) -> (AppMode, Option<Seq<char>>) {
    match (mode, button) {
        (AppMode::Menu, Button::StartHosting) => (AppMode::Menu, Some("Starting host..."@)),
        (AppMode::Menu, Button::JoinRoom) => (AppMode::Menu, Some("Connecting to room..."@)),
        (AppMode::Menu, Button::StartGame) => (
            AppMode::Game,
            Some("Game started. WASD move, SPACE jump, mouse look."@),
        ),
        (AppMode::Menu, Button::EditorMode) => (
            AppMode::Editor,
            Some("Editor started. Place cubes into the world."@),
        ),
        (AppMode::Game, Button::EditorMode) => (AppMode::Editor, Some("Editor started."@)),
        (AppMode::Game, Button::ReturnToMenu) => (AppMode::Menu, None),
        (AppMode::Editor, Button::BackToGame) => (AppMode::Game, Some("Returned to game."@)),
        (AppMode::Editor, Button::BackToMenu) => (AppMode::Menu, None),
        _ => (mode, None),
    }
}

fn text_of(t: &str) -> (s: String)
    ensures
        s@ == t@,
{
    let mut s = String::new();
    push_str(&mut s, t);
    s
}

/// The screen after pressing `button` on `mode`, and the new status text.
pub fn press(mode: AppMode, button: Button) -> (r: (AppMode, Option<String>))
    ensures
        r.0 == mode_after(mode, button).0,
        match r.1 {
            Some(s) => mode_after(mode, button).1 == Some(s@),
            None => mode_after(mode, button).1 is None,
        },
{
    match (mode, button) {
        (AppMode::Menu, Button::StartHosting) => (AppMode::Menu, Some(text_of("Starting host..."))),
        (AppMode::Menu, Button::JoinRoom) => (AppMode::Menu, Some(text_of("Connecting to room..."))),
        (AppMode::Menu, Button::StartGame) => (
            AppMode::Game,
            Some(text_of("Game started. WASD move, SPACE jump, mouse look.")),
        ),
        (AppMode::Menu, Button::EditorMode) => (
            AppMode::Editor,
            Some(text_of("Editor started. Place cubes into the world.")),
        ),
        (AppMode::Game, Button::EditorMode) => (AppMode::Editor, Some(text_of("Editor started."))),
        (AppMode::Game, Button::ReturnToMenu) => (AppMode::Menu, None),
        (AppMode::Editor, Button::BackToGame) => (
            AppMode::Game,
            Some(text_of("Returned to game.")),
        ),
        (AppMode::Editor, Button::BackToMenu) => (AppMode::Menu, None),
        _ => (mode, None),
    }
}

/// The port that the host form falls back to when its port text is no `u16`.
pub open spec fn form_port(port_text: Seq<char>) -> u16 {
    match parsed_u16(port_text) {
        Some(p) => p,
        None => 4000,
    }
}

/// The room that the host form opens: named `name`, on the port its text
/// gives or else port 4000, on the local machine, with an id made from the
/// port.
pub open spec fn form_room(name: Seq<char>, port_text: Seq<char>, public: bool) -> RoomView {
    RoomView {
        id: "room-"@ + decimal(form_port(port_text) as nat),
        name,
        host: "127.0.0.1"@,
        port: form_port(port_text),
        public,
    }
}

/// Describes the room that the host form opens, or refuses where PCVR mode is
/// off: rooms are created only in PCVR mode, whatever the PC mode setting.
pub fn form_room_info(name: String, port_text: &str, public: bool, pcvr: bool) -> (r: Result<
    RoomInfo,
    HostError,
>)
    ensures
        pcvr ==> r is Ok && r->Ok_0@ == form_room(name@, port_text@, public),
        !pcvr ==> r == Err::<RoomInfo, HostError>(HostError::PcvrRequired),
{
    if !pcvr {
        return Err(HostError::PcvrRequired);
    }
    let port = match parse_u16(port_text) {
        Some(p) => p,
        None => 4000,
    };
    let mut id = text_of("room-");
    push_decimal(&mut id, port as u128);
    Ok(RoomInfo { id, name, host: text_of("127.0.0.1"), port, public })
}

/// The status text that a refused host attempt reports, or `None` where the
/// attempt is not refused (PCVR mode on). With neither PC nor PCVR mode on, the
/// form asks for one of them; with PC mode alone, it says that rooms need PCVR
/// mode.
pub open spec fn host_refusal_text(pc: bool, pcvr: bool) -> Option<Seq<char>> {
    if pcvr {
        None
    } else if !pc {
        Some("Host requires PC or PCVR mode."@)
    } else {
        Some("Room creation is allowed only when PCVR mode is enabled."@)
    }
}

/// The status that the host form shows after a refused attempt to host, or
/// `None` where hosting goes ahead; `form_room_info` refuses exactly then.
pub fn host_refusal_status(pc: bool, pcvr: bool) -> (s: Option<String>)
    ensures
        match s {
            Some(t) => host_refusal_text(pc, pcvr) == Some(t@),
            None => host_refusal_text(pc, pcvr) is None,
        },
{
    if pcvr {
        None
    } else if !pc {
        Some(text_of("Host requires PC or PCVR mode."))
    } else {
        Some(text_of("Room creation is allowed only when PCVR mode is enabled."))
    }
}

/// The lines of the room list: one summary per room of the registry that was
/// read, a note where it holds no room, and another where none could be read.
pub open spec fn room_list_text(loaded: Option<Seq<RoomView>>) -> Seq<Seq<char>> {
    match loaded {
        Some(rooms) => if rooms.len() == 0 {
            seq!["No connected rooms found."@]
        } else {
            rooms.map_values(|r: RoomView| room_summary(r))
        },
        None => seq!["No local room registry found."@],
    }
}

/// The registry's rooms, where one was read.
pub open spec fn loaded_rooms(loaded: Option<RoomRegistry>) -> Option<Seq<RoomView>> {
    match loaded {
        Some(reg) => Some(reg@),
        None => None,
    }
}

/// The lines that the room list shows for the registry that was read.
pub fn room_list_lines(loaded: Option<RoomRegistry>) -> (lines: Vec<String>)
    ensures
        crate::text::views(lines@) == room_list_text(loaded_rooms(loaded)),
{
    let mut lines: Vec<String> = Vec::new();
    match loaded {
        Some(reg) => {
            let n = reg.rooms.len();
            let mut i: usize = 0;
            while i < n
                invariant
                    i <= n == reg.rooms@.len(),
                    crate::text::views(lines@) == room_views(reg.rooms@).take(i as int).map_values(
                        |r: RoomView| room_summary(r),
                    ),
                decreases n - i,
            {
                let mut line = String::new();
                push_room_summary(&mut line, &reg.rooms[i]);
                let ghost before = lines@;
                lines.push(line);
                proof {
                    assert(crate::text::views(lines@) =~= crate::text::views(before).push(line@));
                    assert(room_views(reg.rooms@).take(i + 1) =~= room_views(reg.rooms@).take(
                        i as int,
                    ).push(reg.rooms@[i as int]@));
                    assert(room_views(reg.rooms@).take(i + 1).map_values(
                        |r: RoomView| room_summary(r),
                    ) =~= room_views(reg.rooms@).take(i as int).map_values(
                        |r: RoomView| room_summary(r),
                    ).push(room_summary(reg.rooms@[i as int]@)));
                }
                i = i + 1;
            }
            assert(room_views(reg.rooms@).take(n as int) =~= room_views(reg.rooms@));
            if n == 0 {
                lines.push(text_of("No connected rooms found."));
                assert(crate::text::views(lines@) =~= room_list_text(loaded_rooms(Some(reg))));
            }
        },
        None => {
            lines.push(text_of("No local room registry found."));
            assert(crate::text::views(lines@) =~= room_list_text(None));
        },
    }
    lines
}

/// The status after an attempt to join a room: the host's first reply,
/// trimmed, on success, or the reason for the failure.
pub open spec fn join_status_text(outcome: Result<Seq<char>, Seq<char>>) -> Seq<char> {
    match outcome {
        Ok(response) => "Join success: "@ + trimmed(response),
        Err(reason) => "Join failed: "@ + reason,
    }
}

/// The status line after an attempt to join a room.
pub fn join_status(outcome: Result<String, String>) -> (s: String)
    ensures
        s@ == join_status_text(
            match outcome {
                Ok(r) => Ok(r@),
                Err(e) => Err(e@),
            },
        ),
{
    match outcome {
        Ok(response) => {
            let mut s = text_of("Join success: ");
            let t = trim(response.as_str());
            push_str(&mut s, t.as_str());
            s
        },
        Err(reason) => {
            let mut s = text_of("Join failed: ");
            push_str(&mut s, reason.as_str());
            s
        },
    }
}

/// The editor's note after a cube was added at `cursor`.
pub open spec fn added_cube_text(x: i32, y: i32, z: i32) -> Seq<char> {
    "Added cube at "@ + int_text(x as int) + " "@ + int_text(y as int) + " "@ + int_text(z as int)
        + "."@
}

/// The editor's note after a cube was added at the cursor `(x, y, z)`.
pub fn added_cube_message(x: i32, y: i32, z: i32) -> (s: String)
    ensures
        s@ == added_cube_text(x, y, z),
{
    let mut s = text_of("Added cube at ");
    push_int(&mut s, x);
    push_str(&mut s, " ");
    push_int(&mut s, y);
    push_str(&mut s, " ");
    push_int(&mut s, z);
    push_str(&mut s, ".");
    assert(s@ =~= added_cube_text(x, y, z));
    s
}

/// A room opened from the host form is what the form asked for: the given
/// name and the form's visibility, whatever the port text; the port that the
/// text reads as, or else 4000; the local machine; and the id `room-` followed
/// by the port.
pub proof fn lemma_form_room_is_as_requested(name: Seq<char>, port_text: Seq<char>, public: bool)
    ensures
        form_room(name, port_text, public).name == name,
        form_room(name, port_text, public).public == public,
        form_room(name, port_text, public).host == "127.0.0.1"@,
        parsed_u16(port_text) matches Some(p) ==> form_room(name, port_text, public).port == p,
        parsed_u16(port_text) is None ==> form_room(name, port_text, public).port == 4000,
        form_room(name, port_text, public).id == "room-"@ + decimal(
            form_room(name, port_text, public).port as nat,
        ),
{
}

/// The room list shows each room of a non-empty registry on a line of its
/// own, in order: its name, ` at `, its host, `:`, its port in decimal,
/// `  public=` and `true` or `false` as the room is public or not. An empty
/// registry and a missing one each show a single note.
pub proof fn lemma_room_list_shows_each_room(rooms: Seq<RoomView>)
    ensures
        rooms.len() > 0 ==> room_list_text(Some(rooms)).len() == rooms.len(),
        rooms.len() > 0 ==> forall|i: int|
            0 <= i < rooms.len() ==> #[trigger] room_list_text(Some(rooms))[i] == rooms[i].name
                + " at "@ + rooms[i].host + seq![':'] + decimal(rooms[i].port as nat)
                + "  public="@ + (if rooms[i].public {
                "true"@
            } else {
                "false"@
            }),
        rooms.len() == 0 ==> room_list_text(Some(rooms)) == seq!["No connected rooms found."@],
        room_list_text(None) == seq!["No local room registry found."@],
{
    reveal_strlit("true");
    reveal_strlit("false");
    assert("true"@ =~= seq!['t', 'r', 'u', 'e']);
    assert("false"@ =~= seq!['f', 'a', 'l', 's', 'e']);
}

} // verus!
