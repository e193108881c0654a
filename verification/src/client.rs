//! What a player types, and what the player's side sends to the room host.
use vstd::prelude::*;
use crate::avatar::{base_avatar, AvatarProfile};
use crate::protocol::{ClientMessage, ClientMessageView};
use crate::text::{
    all_space, chars_of, lemma_surrounding_space_ignored, is_word, lemma_words_of_word, lemma_words_split_at_space, push_str, split_words, trim,
    trimmed, views, words,
};
use crate::transport::TrainType;

verus! {

broadcast use vstd::string::group_string_axioms;

/// Why a typed line is not a command.
#[derive(Debug, Clone, Copy, PartialEq, Eq, Structural)]
pub enum CommandError {
    /// The words of the line fit none of the command forms.
    Unknown,
}

/// The text that explains a refused command to the player.
pub open spec fn unknown_command_text() -> Seq<char> {
    "Unknown command. Use list, invite <friend>, train <destination> public|private, quit"@
}

impl CommandError {
    /// The message that the player is shown for this error.
    pub fn message(&self) -> (m: String)
        ensures
            m@ == unknown_command_text(),
    {
        let mut m = String::new();
        push_str(&mut m, "Unknown command. Use list, invite <friend>, train <destination> public|private, quit");
        m
    }
}

/// The command that the words `ws` of a line spell, if any:
/// `list`, `invite <friend>`, `train <destination> public` or
/// `train <destination> private`.
pub open spec fn command_of(ws: Seq<Seq<char>>) -> Option<ClientMessageView> {
    if ws.len() == 1 && ws[0] == "list"@ {
        Some(ClientMessageView::ListRooms)
    } else if ws.len() == 2 && ws[0] == "invite"@ {
        Some(ClientMessageView::InviteFriend { friend: ws[1] })
    } else if ws.len() == 3 && ws[0] == "train"@ && ws[2] == "public"@ {
        Some(ClientMessageView::CallTrain { destination: ws[1], train_type: TrainType::Public })
    } else if ws.len() == 3 && ws[0] == "train"@ && ws[2] == "private"@ {
        Some(ClientMessageView::CallTrain { destination: ws[1], train_type: TrainType::Private })
    } else {
        None
    }
}

/// Whether `a` and `b` hold the same characters.
fn same_text(a: &str, b: &str) -> (r: bool)
    ensures
        r == (a@ == b@),
{
    let x = chars_of(a);
    let y = chars_of(b);
    if x.len() != y.len() {
        return false;
    }
    let mut i: usize = 0;
    while i < x.len()
        invariant
            x@ == a@,
            y@ == b@,
            x@.len() == y@.len(),
            i <= x@.len(),
            forall|k: int| 0 <= k < i ==> x@[k] == y@[k],
        decreases x@.len() - i,
    {
        if x[i] != y[i] {
            return false;
        }
        i = i + 1;
    }
    assert(x@ =~= y@);
    true
}

/// Reads a command from the words of `input`.
pub fn parse_command(input: &str) -> (r: Result<ClientMessage, CommandError>)
    ensures
        match command_of(words(input@)) {
            Some(c) => r is Ok && r->Ok_0@ == c,
            None => r == Err::<ClientMessage, CommandError>(CommandError::Unknown),
        },
{
    let ws = split_words(input);
    let ghost wv = views(ws@);
    assert(wv.len() == ws@.len());
    assert(forall|k: int| 0 <= k < ws@.len() ==> #[trigger] wv[k] == ws@[k]@);
    let n = ws.len();
    if n == 1 && same_text(ws[0].as_str(), "list") {
        return Ok(ClientMessage::ListRooms);
    }
    if n == 2 && same_text(ws[0].as_str(), "invite") {
        return Ok(ClientMessage::InviteFriend { friend: ws[1].clone() });
    }
    if n == 3 && same_text(ws[0].as_str(), "train") {
        if same_text(ws[2].as_str(), "public") {
            return Ok(
                ClientMessage::CallTrain { destination: ws[1].clone(), train_type: TrainType::Public },
            );
        }
        if same_text(ws[2].as_str(), "private") {
            return Ok(
                ClientMessage::CallTrain {
                    destination: ws[1].clone(),
                    train_type: TrainType::Private,
                },
            );
        }
    }
    Err(CommandError::Unknown)
}

/// What the player's side does with one typed line.
#[derive(Debug)]
pub enum ClientStep {
    /// Send this message to the host and wait for the next line.
    Send(ClientMessage),
    /// Send `Quit` to the host and stop.
    Leave,
}

/// The mathematical content of a client step.
pub enum ClientStepView {
    Send(ClientMessageView),
    Leave,
}

impl View for ClientStep {
    type V = ClientStepView;

    open spec fn view(&self) -> ClientStepView {
        match self {
            ClientStep::Send(m) => ClientStepView::Send(m@),
            ClientStep::Leave => ClientStepView::Leave,
        }
    }
}

/// What a trimmed, lower-cased line `input` asks for: `quit` and `exit` leave,
/// anything else must be a command.
pub open spec fn step_of(input: Seq<char>) -> Option<ClientStepView> {
    if input == "quit"@ || input == "exit"@ {
        Some(ClientStepView::Leave)
    } else {
        match command_of(words(input)) {
            Some(c) => Some(ClientStepView::Send(c)),
            None => None,
        }
    }
}

/// Decides what to do with a line that is already trimmed and lower-cased.
pub fn interpret_input(input: &str) -> (r: Result<ClientStep, CommandError>)
    ensures
        match step_of(input@) {
            Some(s) => r is Ok && r->Ok_0@ == s,
            None => r == Err::<ClientStep, CommandError>(CommandError::Unknown),
        },
{
    if same_text(input, "quit") || same_text(input, "exit") {
        return Ok(ClientStep::Leave);
    }
    match parse_command(input) {
        Ok(m) => Ok(ClientStep::Send(m)),
        Err(e) => Err(e),
    }
}

/// What `str::to_lowercase` of std makes of the characters `s`.
pub uninterp spec fn lowercase_of(s: Seq<char>) -> Seq<char>;

/// `str::to_lowercase` of std: the lower-case form of `s` under Unicode's
/// case mapping. Its contract claims only that the result is a function of the
/// characters of `s`, named `lowercase_of`; how letters map is not stated.
#[verifier::external_body]
fn lowercase(s: &str) -> (r: String)
    ensures
        r@ == lowercase_of(s@),
{
    s.to_lowercase()
}

/// Decides what to do with a line as the player typed it: trimmed, then
/// lower-cased, then read by `interpret_input`.
pub fn interpret_line(line: &str) -> (r: Result<ClientStep, CommandError>)
    ensures
        match step_of(lowercase_of(trimmed(line@))) {
            Some(s) => r is Ok && r->Ok_0@ == s,
            None => r == Err::<ClientStep, CommandError>(CommandError::Unknown),
        },
{
    let t = trim(line);
    let lowered = lowercase(t.as_str());
    interpret_input(lowered.as_str())
}

/// The first message a player sends: a request to join under `name`, wearing
/// the plain avatar of that name.
pub fn join_request(name: String) -> (m: ClientMessage)
    ensures
        m@ == (ClientMessageView::JoinRequest { name: name@, avatar: base_avatar(name@) }),
{
    let avatar = AvatarProfile::base(name.clone());
    ClientMessage::JoinRequest { name, avatar }
}

/// The plainest text that spells command `c`: its keywords and arguments
/// separated by single spaces.
pub open spec fn command_text(c: ClientMessageView) -> Seq<char> {
    match c {
        ClientMessageView::ListRooms => "list"@,
        ClientMessageView::InviteFriend { friend } => "invite"@ + seq![' '] + friend,
        ClientMessageView::CallTrain { destination, train_type } => "train"@ + seq![' ']
            + destination + seq![' '] + match train_type {
            TrainType::Public => "public"@,
            TrainType::Private => "private"@,
        },
        _ => Seq::<char>::empty(),
    }
}

/// Whether `c` is a command that a player can type: a room listing, or an
/// invitation or a train call whose argument is a single word.
pub open spec fn typed_command(c: ClientMessageView) -> bool {
    match c {
        ClientMessageView::ListRooms => true,
        ClientMessageView::InviteFriend { friend } => is_word(friend),
        ClientMessageView::CallTrain { destination, .. } => is_word(destination),
        _ => false,
    }
}

/// Every command that a player can type is read back from its plain text:
/// `parse_command` of `command_text(c)` gives `c`.
pub proof fn lemma_command_text_reads_back(c: ClientMessageView)
    requires
        typed_command(c),
    ensures
        command_of(words(command_text(c))) == Some(c),
{
    reveal_strlit("list");
    reveal_strlit("invite");
    reveal_strlit("train");
    reveal_strlit("public");
    reveal_strlit("private");
    match c {
        ClientMessageView::ListRooms => {
            lemma_words_of_word("list"@);
        },
        ClientMessageView::InviteFriend { friend } => {
            lemma_words_of_word("invite"@);
            lemma_words_of_word(friend);
            lemma_words_split_at_space("invite"@, friend);
            assert(seq!["invite"@] + seq![friend] =~= seq!["invite"@, friend]);
        },
        ClientMessageView::CallTrain { destination, train_type } => {
            let last = match train_type {
                TrainType::Public => "public"@,
                TrainType::Private => "private"@,
            };
            lemma_words_of_word("train"@);
            lemma_words_of_word(destination);
            lemma_words_of_word(last);
            lemma_words_split_at_space("train"@, destination);
            lemma_words_split_at_space("train"@ + seq![' '] + destination, last);
            assert(seq!["train"@] + seq![destination] + seq![last] =~= seq![
                "train"@,
                destination,
                last,
            ]);
            assert("public"@ != "private"@) by {
                assert("public"@.len() != "private"@.len());
            }
        },
        _ => {},
    }
}

/// White space that a player types around a line does not matter: `interpret_line`
/// decides alike for `core` and for `core` with white space before and after
/// it. (Lines that differ in letter case act alike wherever their lower-case
/// forms under `str::to_lowercase` agree.)
pub proof fn lemma_surrounding_space_does_not_matter(pre: Seq<char>, core: Seq<char>, post: Seq<char>)
    requires
        all_space(pre),
        all_space(post),
    ensures
        step_of(lowercase_of(trimmed(pre + core + post))) == step_of(lowercase_of(trimmed(core))),
{
    lemma_surrounding_space_ignored(pre, core, post);
}

/// A typed line other than `quit` and `exit` sends exactly the command that
/// `parse_command` reads from its words, and is refused exactly where
/// `parse_command` refuses it.
pub proof fn lemma_typed_line_sends_parsed_command(input: Seq<char>)
    requires
        input != "quit"@,
        input != "exit"@,
    ensures
        forall|c: ClientMessageView|
            step_of(input) == Some(ClientStepView::Send(c)) <==> command_of(words(input)) == Some(c),
        step_of(input) is None <==> command_of(words(input)) is None,
{
}

/// The three typed forms send what they name: `train <d> public` calls a
/// public train to `d`, `train <d> private` a private one, and
/// `invite <f>` invites `f`, for every single word `d` and `f`; `list` lists
/// the rooms.
pub proof fn lemma_typed_forms_send_what_they_name(w: Seq<char>)
    requires
        is_word(w),
    ensures
        step_of("train"@ + seq![' '] + w + seq![' '] + "public"@) == Some(
            ClientStepView::Send(
                ClientMessageView::CallTrain { destination: w, train_type: TrainType::Public },
            ),
        ),
        step_of("train"@ + seq![' '] + w + seq![' '] + "private"@) == Some(
            ClientStepView::Send(
                ClientMessageView::CallTrain { destination: w, train_type: TrainType::Private },
            ),
        ),
        step_of("invite"@ + seq![' '] + w) == Some(
            ClientStepView::Send(ClientMessageView::InviteFriend { friend: w }),
        ),
        step_of("list"@) == Some(ClientStepView::Send(ClientMessageView::ListRooms)),
{
    reveal_strlit("train");
    reveal_strlit("public");
    reveal_strlit("private");
    reveal_strlit("invite");
    reveal_strlit("list");
    reveal_strlit("quit");
    reveal_strlit("exit");
    let pubc = ClientMessageView::CallTrain { destination: w, train_type: TrainType::Public };
    let privc = ClientMessageView::CallTrain { destination: w, train_type: TrainType::Private };
    let inv = ClientMessageView::InviteFriend { friend: w };
    lemma_command_text_reads_back(pubc);
    lemma_command_text_reads_back(privc);
    lemma_command_text_reads_back(inv);
    lemma_command_text_reads_back(ClientMessageView::ListRooms);
    assert(command_text(pubc) == "train"@ + seq![' '] + w + seq![' '] + "public"@);
    assert(command_text(privc) == "train"@ + seq![' '] + w + seq![' '] + "private"@);
    assert(command_text(inv) == "invite"@ + seq![' '] + w);
    let t1 = "train"@ + seq![' '] + w + seq![' '] + "public"@;
    let t2 = "train"@ + seq![' '] + w + seq![' '] + "private"@;
    let t3 = "invite"@ + seq![' '] + w;
    assert(t1.len() != "quit"@.len() && t1.len() != "exit"@.len());
    assert(t2.len() != "quit"@.len() && t2.len() != "exit"@.len());
    assert(t3.len() != "quit"@.len() && t3.len() != "exit"@.len());
    assert("list"@ != "quit"@ && "list"@ != "exit"@) by {
        assert("list"@[0] != "quit"@[0]);
        assert("list"@[0] != "exit"@[0]);
    }
}

} // verus!
