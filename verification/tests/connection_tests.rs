use rust_chat::auth::Login;
use rust_chat::connection::{LoginFailure, LoginStep, Session};
use rust_chat::message::{ClientMessage, MessagePayload, PeerAddr, ServerMessage};

fn s(x: &str) -> String {
    x.to_string()
}

const HOME: PeerAddr = PeerAddr::V4 { ip4: 0x7f00_0001, port: 4000 };
const AWAY: PeerAddr = PeerAddr::V4 { ip4: 0x7f00_0001, port: 4001 };

#[test]
fn signup_is_accepted_with_login_accepted() {
    let mut auth = Login::new();
    let step = rust_chat::connection::login_step(
        &mut auth,
        HOME,
        ClientMessage::Signup { email: s("ann@x"), password: s("pw") },
    );
    match step {
        LoginStep::Accepted { reply, nick } => {
            assert_eq!(nick, "ann@x");
            assert_eq!(reply.sender, HOME);
            assert_eq!(reply.time, 0);
            assert!(matches!(reply.payload, MessagePayload::LoginAccepted { ref nick } if nick == "ann@x"));
        }
        other => panic!("unexpected {:?}", other),
    }
    assert_eq!(auth.login(s("ann@x"), s("pw")), Ok(s("ann@x")));
}

#[test]
fn failed_signup_is_refused() {
    let mut auth = Login::new();
    auth.signup(s("ann@x"), s("pw")).unwrap();
    let step = rust_chat::connection::login_step(
        &mut auth,
        HOME,
        ClientMessage::Signup { email: s("ann@x"), password: s("pw2") },
    );
    match step {
        LoginStep::Refused { reply, failure } => {
            assert_eq!(failure, LoginFailure::SignupFailed);
            assert_eq!(failure.message(), "Signup failed");
            assert!(matches!(reply.payload, MessagePayload::LoginFail));
            assert_eq!(reply.sender, HOME);
        }
        other => panic!("unexpected {:?}", other),
    }
}

#[test]
fn login_steps() {
    let mut auth = Login::new();
    auth.signup(s("ann@x"), s("pw")).unwrap();
    auth.update_nick(s("ann@x"), s("ann")).unwrap();
    let ok = rust_chat::connection::login_step(
        &mut auth,
        AWAY,
        ClientMessage::Login { email: s("ann@x"), password: s("pw") },
    );
    assert!(matches!(ok, LoginStep::Accepted { ref nick, .. } if nick == "ann"));
    let bad = rust_chat::connection::login_step(
        &mut auth,
        AWAY,
        ClientMessage::Login { email: s("ann@x"), password: s("nope") },
    );
    match bad {
        LoginStep::Refused { failure, .. } => {
            assert_eq!(failure, LoginFailure::LoginFailed);
            assert_eq!(failure.message(), "Login failed");
        }
        other => panic!("unexpected {:?}", other),
    }
}

#[test]
fn chat_before_login_is_ignored() {
    let mut auth = Login::new();
    let step = rust_chat::connection::login_step(&mut auth, HOME, ClientMessage::Message(s("hi")));
    assert!(matches!(step, LoginStep::Ignore));
    let step = rust_chat::connection::login_step(&mut auth, HOME, ClientMessage::Nickname(s("x")));
    assert!(matches!(step, LoginStep::Ignore));
}

#[test]
fn session_connect_and_message() {
    let mut auth = Login::new();
    let session = Session::new(HOME, s("ann"));
    let hello = session.connect_message();
    assert!(matches!(hello.payload, MessagePayload::Connect { ref nick } if nick == "ann"));
    let m = session.on_client_message(&mut auth, ClientMessage::Message(s("hi all")));
    assert_eq!(m.sender, HOME);
    assert!(matches!(m.payload, MessagePayload::Message { ref nick, ref message } if nick == "ann" && message == "hi all"));
}

#[test]
fn rename_flow() {
    let mut auth = Login::new();
    auth.signup(s("ann@x"), s("pw")).unwrap();
    let mut session = Session::new(HOME, s("ann@x"));
    let notice = session.on_client_message(&mut auth, ClientMessage::Nickname(s("ann")));
    assert!(matches!(notice.payload, MessagePayload::Nickname { ref new_nick, ref nick } if new_nick == "ann" && nick == "ann@x"));
    // nothing changes until the notice comes back
    assert_eq!(session.nick, "ann@x");
    assert!(session.on_broadcast(&notice));
    assert_eq!(session.nick, "ann");
    // the store is keyed by address, so a second rename under the new nick is refused
    let refused = session.on_client_message(&mut auth, ClientMessage::Nickname(s("annie")));
    assert!(matches!(refused.payload, MessagePayload::NickChangeRefused { ref msg } if msg == "User not found"));
    assert!(session.on_broadcast(&refused));
    assert_eq!(session.nick, "ann");
}

#[test]
fn broadcasts_from_others() {
    let mut session = Session::new(HOME, s("ann"));
    let rename = ServerMessage::new(AWAY, MessagePayload::Nickname { new_nick: s("z"), nick: s("y") });
    assert!(session.on_broadcast(&rename));
    assert_eq!(session.nick, "ann");
    let refused = ServerMessage::new(AWAY, MessagePayload::NickChangeRefused { msg: s("no") });
    assert!(!session.on_broadcast(&refused));
    let chat = ServerMessage::new(AWAY, MessagePayload::Message { nick: s("y"), message: s("m") });
    assert!(session.on_broadcast(&chat));
    assert_eq!(session.nick, "ann");
}

#[test]
fn peer_addresses_compare_by_all_fields() {
    let a = PeerAddr::V6 { ip6: 1, port: 2, flowinfo: 0, scope_id: 0 };
    let b = PeerAddr::V6 { ip6: 1, port: 2, flowinfo: 0, scope_id: 1 };
    assert_ne!(a, b);
    assert_eq!(a, PeerAddr::V6 { ip6: 1, port: 2, flowinfo: 0, scope_id: 0 });
}
