use project_rec::client::{interpret_input, interpret_line, join_request, parse_command, ClientStep, CommandError};
use project_rec::protocol::ClientMessage;
use project_rec::text::{split_words, trim};
use project_rec::transport::TrainType;

#[test]
fn list_command() {
    assert!(matches!(parse_command("list"), Ok(ClientMessage::ListRooms)));
    assert!(matches!(parse_command("   list \t"), Ok(ClientMessage::ListRooms)));
}

#[test]
fn invite_command_takes_one_friend() {
    match parse_command("invite  bob") {
        Ok(ClientMessage::InviteFriend { friend }) => assert_eq!(friend, "bob"),
        other => panic!("unexpected {:?}", other),
    }
    assert!(parse_command("invite").is_err());
    assert!(parse_command("invite bob alice").is_err());
}

#[test]
fn train_commands() {
    match parse_command("train arcade public") {
        Ok(ClientMessage::CallTrain { destination, train_type }) => {
            assert_eq!(destination, "arcade");
            assert_eq!(train_type, TrainType::Public);
        }
        other => panic!("unexpected {:?}", other),
    }
    match parse_command("train\u{3000}arcade\nprivate") {
        Ok(ClientMessage::CallTrain { destination, train_type }) => {
            assert_eq!(destination, "arcade");
            assert_eq!(train_type, TrainType::Private);
        }
        other => panic!("unexpected {:?}", other),
    }
    assert!(parse_command("train arcade").is_err());
    assert!(parse_command("train arcade secret").is_err());
}

#[test]
fn unknown_commands_are_refused() {
    assert!(matches!(parse_command(""), Err(CommandError::Unknown)));
    assert!(matches!(parse_command("LIST"), Err(CommandError::Unknown)));
    assert!(matches!(parse_command("list rooms"), Err(CommandError::Unknown)));
    assert!(matches!(parse_command("quit"), Err(CommandError::Unknown)));
    assert_eq!(
        CommandError::Unknown.message(),
        "Unknown command. Use list, invite <friend>, train <destination> public|private, quit"
    );
}

#[test]
fn quit_and_exit_leave() {
    assert!(matches!(interpret_input("quit"), Ok(ClientStep::Leave)));
    assert!(matches!(interpret_input("exit"), Ok(ClientStep::Leave)));
    assert!(matches!(interpret_input("list"), Ok(ClientStep::Send(ClientMessage::ListRooms))));
    assert!(interpret_input("dance").is_err());
}

#[test]
fn typed_lines_are_trimmed_and_lowered() {
    assert!(matches!(interpret_line("  QUIT \n"), Ok(ClientStep::Leave)));
    assert!(matches!(interpret_line("Exit"), Ok(ClientStep::Leave)));
    assert!(matches!(interpret_line("LIST"), Ok(ClientStep::Send(ClientMessage::ListRooms))));
    match interpret_line("Invite Bob\r\n") {
        Ok(ClientStep::Send(ClientMessage::InviteFriend { friend })) => assert_eq!(friend, "bob"),
        other => panic!("unexpected {:?}", other),
    }
    assert!(interpret_line("   ").is_err());
}

#[test]
fn join_request_carries_base_avatar() {
    match join_request("Player".to_string()) {
        ClientMessage::JoinRequest { name, avatar } => {
            assert_eq!(name, "Player");
            assert_eq!(avatar.name, "Player");
            assert!(avatar.costume.is_none());
            assert!(avatar.cosmetics.is_empty());
        }
        other => panic!("unexpected {:?}", other),
    }
}

#[test]
fn trimming() {
    assert_eq!(trim("  a b  "), "a b");
    assert_eq!(trim("\u{a0}x\u{2028}"), "x");
    assert_eq!(trim(""), "");
    assert_eq!(trim(" \t "), "");
    assert_eq!(trim("abc"), "abc");
}

#[test]
fn splitting_into_words() {
    assert_eq!(split_words("  a  bc\td "), vec!["a", "bc", "d"]);
    assert!(split_words("   ").is_empty());
    assert_eq!(split_words("x"), vec!["x"]);
    assert_eq!(split_words("é\u{85}ü"), vec!["é", "ü"]);
}
