# project_rec

A social room experience: hosts open rooms on the local machine, players join
them over TCP, list the known rooms, invite friends and call public or private
sky trains between rooms.

- `src/` is the library, proved with Verus: the room, avatar, train and message
  types; the text handling (trimming, splitting into words, decimal numbers);
  reading typed commands; what a host does for each message a player sends
  (`server::Session`); opening a room; and the decisions of the graphical
  front end (screens, host form, room list).
- `app/` is the command-line program around it: argument parsing, the TCP
  connections, JSON on the wire, and the files `rooms.json` and the asset
  manifest.
- `tests/` exercises the library on concrete values.

The graphical front end (screens, a 3D preview, an editor) exists here only as
its decisions in `src/gui.rs`; the window itself is not built, and the program
has no `gui` subcommand. Rooms are created only in PCVR mode, from the command
line (`host ... --pcvr`) and from the front end's host form alike.
