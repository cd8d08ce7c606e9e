use rust_chat::client::{chat_line, login_command, login_outcome, process_message, LoginRefused};
use rust_chat::message::{ClientMessage, MessagePayload};

fn s(x: &str) -> String {
    x.to_string()
}

fn login_fields(m: Option<ClientMessage>) -> Option<(&'static str, String, String)> {
    match m {
        Some(ClientMessage::Login { email, password }) => Some(("login", email, password)),
        Some(ClientMessage::Signup { email, password }) => Some(("signup", email, password)),
        Some(_) => Some(("other", String::new(), String::new())),
        None => None,
    }
}

#[test]
fn login_command_login() {
    assert_eq!(login_fields(login_command("/login ann pw")), Some(("login", s("ann"), s("pw"))));
}

#[test]
fn login_command_keeps_newline_in_password() {
    assert_eq!(
        login_fields(login_command("/signup ann pw\n")),
        Some(("signup", s("ann"), s("pw\n")))
    );
}

#[test]
fn login_command_wrong_word_count() {
    assert_eq!(login_fields(login_command("/login ann")), None);
    assert_eq!(login_fields(login_command("/login ann pw extra")), None);
    assert_eq!(login_fields(login_command("/login  ann pw")), None);
    assert_eq!(login_fields(login_command("")), None);
}

#[test]
fn login_command_unknown_verb() {
    assert_eq!(login_fields(login_command("/join ann pw")), None);
}

#[test]
fn login_command_empty_fields() {
    assert_eq!(login_fields(login_command("/login  ")), Some(("login", s(""), s(""))));
}

fn nick_of(m: Option<ClientMessage>) -> Option<Result<String, String>> {
    match m {
        Some(ClientMessage::Nickname(n)) => Some(Ok(n)),
        Some(ClientMessage::Message(t)) => Some(Err(t)),
        Some(_) => panic!("unexpected message"),
        None => None,
    }
}

#[test]
fn process_message_plain_text() {
    assert_eq!(nick_of(process_message(s("hello there"))), Some(Err(s("hello there"))));
    assert_eq!(nick_of(process_message(s(""))), Some(Err(s(""))));
    assert_eq!(nick_of(process_message(s("/nickname"))), Some(Err(s("/nickname"))));
    assert_eq!(nick_of(process_message(s(" /nick bob"))), Some(Err(s(" /nick bob"))));
}

#[test]
fn process_message_nick() {
    assert_eq!(nick_of(process_message(s("/nick bob"))), Some(Ok(s("bob"))));
    assert_eq!(nick_of(process_message(s("/nick bob smith"))), Some(Ok(s("bob smith"))));
}

#[test]
fn process_message_empty_nick() {
    assert_eq!(nick_of(process_message(s("/nick "))), None);
}

#[test]
fn process_message_nick_stops_at_next_prefix() {
    assert_eq!(nick_of(process_message(s("/nick a/nick b"))), Some(Ok(s("a"))));
    assert_eq!(nick_of(process_message(s("/nick /nick b"))), Some(Ok(s(""))));
    assert_eq!(nick_of(process_message(s("/nick /nick "))), Some(Ok(s(""))));
}

#[test]
fn process_message_non_ascii() {
    assert_eq!(nick_of(process_message(s("/nick żółw"))), Some(Ok(s("żółw"))));
    assert_eq!(nick_of(process_message(s("héllo"))), Some(Err(s("héllo"))));
}

#[test]
fn login_outcomes() {
    assert_eq!(login_outcome(MessagePayload::LoginAccepted { nick: s("ann") }), Ok(s("ann")));
    assert_eq!(login_outcome(MessagePayload::SignupAccepted { nick: s("bo") }), Ok(s("bo")));
    assert_eq!(login_outcome(MessagePayload::LoginFail), Err(LoginRefused::InvalidCredentials));
    assert_eq!(login_outcome(MessagePayload::SignupFail), Err(LoginRefused::UserAlreadyExists));
    assert_eq!(LoginRefused::InvalidCredentials.message(), "Invalid credentials");
    assert_eq!(LoginRefused::UserAlreadyExists.message(), "User already exists");
}

#[test]
fn chat_lines() {
    assert_eq!(
        chat_line(&MessagePayload::Nickname { new_nick: s("bob"), nick: s("ann") }),
        "ann changed their name to bob"
    );
    assert_eq!(
        chat_line(&MessagePayload::Message { nick: s("ann"), message: s("hi") }),
        "ann: hi"
    );
    assert_eq!(chat_line(&MessagePayload::Connect { nick: s("ann") }), "ann joined the chat");
    assert_eq!(chat_line(&MessagePayload::Disconnect { nick: s("ann") }), "ann left the chat");
    assert_eq!(
        chat_line(&MessagePayload::NickChangeRefused { msg: s("User not found") }),
        "User not found"
    );
}
