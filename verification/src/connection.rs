use vstd::prelude::*;

use crate::auth::{
    login_spec, signup_spec, update_nick_spec, AccountTable, AuthError, Login,
};
use crate::message::{ClientMessage, MessagePayload, PeerAddr, ServerMessage};

verus! {

/// Why a connection was closed during the log-in phase.
#[derive(Clone, Copy, Debug, PartialEq, Eq, Structural)]
pub enum LoginFailure {
    /// A sign-up was refused.
    SignupFailed,
    /// A log-in was refused.
    LoginFailed,
}

impl LoginFailure {
    /// The text that the server reports when it closes the connection.
    pub open spec fn spec_message(self) -> Seq<char> {
        match self {
            LoginFailure::SignupFailed => "Signup failed"@,
            LoginFailure::LoginFailed => "Login failed"@,
        }
    }

    /// The text that the server reports when it closes the connection.
    pub fn message(&self) -> (s: String)
        ensures
            s@ == self.spec_message(),
    {
        match self {
            LoginFailure::SignupFailed => "Signup failed".to_string(),
            LoginFailure::LoginFailed => "Login failed".to_string(),
        }
    }
}

/// What the server does with one message received before the client has
/// logged in.
#[derive(Debug)]
pub enum LoginStep {
    /// The message was neither a sign-up nor a log-in: wait for the next one.
    Ignore,
    /// Send `reply` to the client, then serve it under `nick`.
    Accepted { reply: ServerMessage, nick: String },
    /// Send `reply` to the client, then close the connection for `failure`.
    Refused { reply: ServerMessage, failure: LoginFailure },
}

/// `m` is a message from `addr`, with timestamp zero, that accepts the
/// client under the nickname `nick`.
pub open spec fn is_acceptance(m: ServerMessage, addr: PeerAddr, nick: Seq<char>) -> bool {
    &&& m.sender == addr
    &&& m.time == 0
    &&& m.payload matches MessagePayload::LoginAccepted { nick: k } && k@ == nick
}

/// `m` is a message from `addr`, with timestamp zero, that refuses the
/// client.
pub open spec fn is_rejection(m: ServerMessage, addr: PeerAddr) -> bool {
    &&& m.sender == addr
    &&& m.time == 0
    &&& m.payload is LoginFail
}

/// The step that an account operation's outcome leads to: acceptance under
/// the nickname it gives, or refusal for `failure`.
pub open spec fn step_for(
    step: LoginStep,
    outcome: Result<Seq<char>, AuthError>,
    addr: PeerAddr,
    failure: LoginFailure,
) -> bool {
    match outcome {
        Ok(n) => step matches LoginStep::Accepted { reply, nick } && nick@ == n && is_acceptance(
            reply,
            addr,
            n,
        ),
        Err(_) => step matches LoginStep::Refused { reply, failure: f } && f == failure
            && is_rejection(reply, addr),
    }
}

/// Handles one message from a client at `addr` that has not logged in yet.
/// A sign-up or log-in goes to the account store; whatever its outcome, the
/// client gets an answer (`LoginAccepted` with the nickname, or
/// `LoginFail`), and a refusal closes the connection. Other messages are
/// ignored.
pub fn login_step(auth: &mut Login, addr: PeerAddr, msg: ClientMessage) -> (r: LoginStep)
    ensures
        match msg {
            ClientMessage::Signup { email, password } => {
                let (t, outcome) = signup_spec(old(auth)@, email@, password@);
                final(auth)@ == t && step_for(r, outcome, addr, LoginFailure::SignupFailed)
            },
            ClientMessage::Login { email, password } => {
                final(auth)@ == old(auth)@ && step_for(
                    r,
                    login_spec(old(auth)@, email@, password@),
                    addr,
                    LoginFailure::LoginFailed,
                )
            },
            _ => final(auth)@ == old(auth)@ && r is Ignore,
        },
{
    match msg {
        ClientMessage::Signup { email, password } => {
            match auth.signup(email, password) {
                Ok(nick) => {
                    let reply = ServerMessage::new(
                        addr,
                        MessagePayload::LoginAccepted { nick: nick.clone() },
                    );
                    LoginStep::Accepted { reply, nick }
                },
                Err(_) => LoginStep::Refused {
                    reply: ServerMessage::new(addr, MessagePayload::LoginFail),
                    failure: LoginFailure::SignupFailed,
                },
            }
        },
        ClientMessage::Login { email, password } => {
            match auth.login(email, password) {
                Ok(nick) => {
                    let reply = ServerMessage::new(
                        addr,
                        MessagePayload::LoginAccepted { nick: nick.clone() },
                    );
                    LoginStep::Accepted { reply, nick }
                },
                Err(_) => LoginStep::Refused {
                    reply: ServerMessage::new(addr, MessagePayload::LoginFail),
                    failure: LoginFailure::LoginFailed,
                },
            }
        },
        _ => LoginStep::Ignore,
    }
}

/// A logged-in client: where it connects from and the nickname it goes by.
#[derive(Debug)]
pub struct Session {
    pub addr: PeerAddr,
    pub nick: String,
}

/// The messages that a logged-in client may send.
pub open spec fn is_chat_request(msg: ClientMessage) -> bool {
    msg is Nickname || msg is Message
}

/// The announcement that a client request from `addr` under `nick` leads
/// to, given the table `t` that the store holds, and the table that the
/// store holds afterwards.
pub open spec fn chat_request_outcome(
    t: AccountTable,
    addr: PeerAddr,
    nick: Seq<char>,
    msg: ClientMessage,
    m: ServerMessage,
    t2: AccountTable,
) -> bool {
    &&& m.sender == addr
    &&& m.time == 0
    &&& match msg {
        ClientMessage::Nickname(new_nick) => {
            let (t_after, outcome) = update_nick_spec(t, nick, new_nick@);
            &&& t2 == t_after
            &&& match outcome {
                Ok(n) => m.payload matches MessagePayload::Nickname { new_nick: a, nick: b }
                    && a@ == n && b@ == nick,
                Err(e) => m.payload matches MessagePayload::NickChangeRefused { msg: text }
                    && text@ == e.spec_message(),
            }
        },
        ClientMessage::Message(text) => {
            &&& t2 == t
            &&& m.payload matches MessagePayload::Message { nick: a, message: b } && a@ == nick
                && b@ == text@
        },
        _ => false,
    }
}

/// What a session does with a message that all sessions receive: the
/// nickname it goes by afterwards, and whether it passes the message on to
/// its client.
pub open spec fn broadcast_effect(addr: PeerAddr, nick: Seq<char>, m: ServerMessage) -> (
    Seq<char>,
    bool,
) {
    match m.payload {
        MessagePayload::Nickname { new_nick, nick: _ } => {
            if m.sender == addr {
                (new_nick@, true)
            } else {
                (nick, true)
            }
        },
        MessagePayload::NickChangeRefused { msg: _ } => (nick, m.sender == addr),
        _ => (nick, true),
    }
}

/// Whether a logged-in client may send `msg`.
pub fn allowed_after_login(msg: &ClientMessage) -> (r: bool)
    ensures
        r == is_chat_request(*msg),
{
    match msg {
        ClientMessage::Nickname(_) => true,
        ClientMessage::Message(_) => true,
        _ => false,
    }
}

impl Session {
    /// A session for a client at `addr` that logged in as `nick`.
    pub fn new(addr: PeerAddr, nick: String) -> (s: Self)
        ensures
            s.addr == addr,
            s.nick == nick,
    {
        Session { addr, nick }
    }

    /// The announcement that the client has joined.
    pub fn connect_message(&self) -> (m: ServerMessage)
        ensures
            m.sender == self.addr,
            m.time == 0,
            m.payload matches MessagePayload::Connect { nick } && nick@ == self.nick@,
    {
        ServerMessage::new(self.addr, MessagePayload::Connect { nick: self.nick.clone() })
    }

    /// Handles a request from the logged-in client and returns the message
    /// to announce to all sessions. A nickname request goes to the store,
    /// keyed by the session's current nickname; a refusal is announced with
    /// the store's reason. A chat line is announced under the session's
    /// nickname.
    pub fn on_client_message(&self, auth: &mut Login, msg: ClientMessage) -> (m: ServerMessage)
        requires
            is_chat_request(msg),
        ensures
            chat_request_outcome(old(auth)@, self.addr, self.nick@, msg, m, final(auth)@),
    {
        match msg {
            ClientMessage::Nickname(new_nick) => {
                let payload = match auth.update_nick(self.nick.clone(), new_nick) {
                    Ok(n) => MessagePayload::Nickname { new_nick: n, nick: self.nick.clone() },
                    Err(e) => MessagePayload::NickChangeRefused { msg: e.message() },
                };
                ServerMessage::new(self.addr, payload)
            },
            ClientMessage::Message(message) => ServerMessage::new(
                self.addr,
                MessagePayload::Message { nick: self.nick.clone(), message },
            ),
            _ => ServerMessage::new(self.addr, MessagePayload::LoginFail),
        }
    }

    /// Handles a message that all sessions receive: takes the new nickname
    /// when the message announces this session's own rename, and tells
    /// whether to pass the message on to the client. A refused rename only
    /// reaches the client that asked for it.
    pub fn on_broadcast(&mut self, m: &ServerMessage) -> (forward: bool)
        ensures
            final(self).addr == old(self).addr,
            (final(self).nick@, forward) == broadcast_effect(old(self).addr, old(self).nick@, *m),
    {
        match &m.payload {
            MessagePayload::Nickname { new_nick, nick: _ } => {
                if m.sender == self.addr {
                    self.nick = new_nick.clone();
                }
                true
            },
            MessagePayload::NickChangeRefused { msg: _ } => m.sender == self.addr,
            _ => true,
        }
    }
}

/// A granted rename, once its announcement comes back to the session that
/// asked for it, gives that session the new nickname, and the session
/// passes the announcement on to its client.
pub proof fn law_rename_reaches_requester(
    t: AccountTable,
    addr: PeerAddr,
    nick: Seq<char>,
    new_nick: String,
    m: ServerMessage,
    t2: AccountTable,
)
    requires
        t.contains_key(nick),
        chat_request_outcome(t, addr, nick, ClientMessage::Nickname(new_nick), m, t2),
    ensures
        broadcast_effect(addr, nick, m) == (new_nick@, true),
{
}

/// A rename announcement from another client leaves a session's nickname
/// alone, and every session passes it on.
pub proof fn law_others_rename_only_forwarded(addr: PeerAddr, nick: Seq<char>, m: ServerMessage)
    requires
        m.payload is Nickname,
        m.sender != addr,
    ensures
        broadcast_effect(addr, nick, m) == (nick, true),
{
}

/// A refused rename is seen only by the client that asked for it: every
/// other session keeps it back, and no session changes its nickname.
pub proof fn law_refusal_stays_private(addr: PeerAddr, nick: Seq<char>, m: ServerMessage)
    requires
        m.payload is NickChangeRefused,
    ensures
        broadcast_effect(addr, nick, m) == (nick, m.sender == addr),
{
}

/// The store is keyed by address while a session asks for renames under
/// its current nickname: once a session has taken a nickname that is no
/// registered address, its further rename requests are refused with
/// `UserNotFound` and change nothing.
pub proof fn law_rename_after_rename_refused(
    t: AccountTable,
    email: Seq<char>,
    first: Seq<char>,
    second: Seq<char>,
)
    requires
        t.contains_key(email),
        !t.contains_key(first),
        first != email,
    ensures
        ({
            let t1 = update_nick_spec(t, email, first).0;
            update_nick_spec(t1, first, second) == (
                t1,
                Err::<Seq<char>, AuthError>(AuthError::UserNotFound),
            )
        }),
{
}

/// Every announcement other than a rename or a refused rename (a join, a
/// chat line, a departure, an answer to a log-in) reaches the session's
/// client, and the session keeps its nickname.
pub proof fn law_other_announcements_forwarded(addr: PeerAddr, nick: Seq<char>, m: ServerMessage)
    requires
        !(m.payload is Nickname),
        !(m.payload is NickChangeRefused),
    ensures
        broadcast_effect(addr, nick, m) == (nick, true),
{
}

/// Whatever it receives, a session passes a message on unless it is a
/// refused rename meant for another client, and it only ever changes its
/// nickname to the one that an announcement of its own rename carries.
pub proof fn law_broadcast_forwarding(addr: PeerAddr, nick: Seq<char>, m: ServerMessage)
    ensures
        !broadcast_effect(addr, nick, m).1 <==> (m.payload is NickChangeRefused && m.sender
            != addr),
        broadcast_effect(addr, nick, m).0 != nick ==> (m.sender == addr && (
        m.payload matches MessagePayload::Nickname { new_nick, .. } && broadcast_effect(
            addr,
            nick,
            m,
        ).0 == new_nick@)),
{
}

/// After log-in a client may send exactly chat lines and rename requests,
/// whatever they hold; a log-in or sign-up is not allowed.
pub proof fn law_requests_after_login(text: String, email: String, password: String)
    ensures
        is_chat_request(ClientMessage::Nickname(text)),
        is_chat_request(ClientMessage::Message(text)),
        !is_chat_request(ClientMessage::Login { email, password }),
        !is_chat_request(ClientMessage::Signup { email, password }),
{
}

/// A chat line is announced from the session's address under its nickname
/// with the text unchanged, and leaves the store alone.
pub proof fn law_chat_line_announced(
    t: AccountTable,
    addr: PeerAddr,
    nick: Seq<char>,
    text: String,
    m: ServerMessage,
    t2: AccountTable,
)
    requires
        chat_request_outcome(t, addr, nick, ClientMessage::Message(text), m, t2),
    ensures
        t2 == t,
        m.sender == addr,
        m.payload matches MessagePayload::Message { nick: a, message: b } && a@ == nick && b@
            == text@,
{
}

/// A rename request changes the account that the session's nickname names
/// when there is one, and is otherwise refused with "User not found" and
/// changes nothing.
pub proof fn law_rename_request(
    t: AccountTable,
    addr: PeerAddr,
    nick: Seq<char>,
    new_nick: String,
    m: ServerMessage,
    t2: AccountTable,
)
    requires
        chat_request_outcome(t, addr, nick, ClientMessage::Nickname(new_nick), m, t2),
    ensures
        t.contains_key(nick) ==> t2 == t.insert(nick, (new_nick@, t[nick].1)) && (
        m.payload matches MessagePayload::Nickname { new_nick: a, nick: b } && a@ == new_nick@
            && b@ == nick),
        !t.contains_key(nick) ==> t2 == t && (m.payload matches MessagePayload::NickChangeRefused {
            msg,
        } && msg@ == "User not found"@),
{
}

/// A client that signs up is accepted under its address, and a later log-in
/// with the same address and password is accepted under the same nickname.
pub proof fn law_signup_step_then_login_step(
    t: AccountTable,
    email: Seq<char>,
    password: Seq<char>,
    first: LoginStep,
    second: LoginStep,
    addr: PeerAddr,
    later: PeerAddr,
)
    requires
        !t.contains_key(email),
        step_for(first, signup_spec(t, email, password).1, addr, LoginFailure::SignupFailed),
        step_for(
            second,
            login_spec(signup_spec(t, email, password).0, email, password),
            later,
            LoginFailure::LoginFailed,
        ),
    ensures
        first matches LoginStep::Accepted { nick, reply } && nick@ == email && reply.sender
            == addr,
        second matches LoginStep::Accepted { nick, reply } && nick@ == email && reply.sender
            == later,
{
}

/// Every refused sign-up or log-in closes the connection after a `LoginFail`
/// answer, and every accepted one answers `LoginAccepted` with the nickname
/// the client is then served under.
pub proof fn law_login_answers(
    step: LoginStep,
    outcome: Result<Seq<char>, AuthError>,
    addr: PeerAddr,
    failure: LoginFailure,
)
    requires
        step_for(step, outcome, addr, failure),
    ensures
        outcome is Err <==> step is Refused,
        outcome is Ok <==> step is Accepted,
        step matches LoginStep::Refused { reply, failure: f } ==> f == failure
            && reply.payload is LoginFail && reply.sender == addr,
        step matches LoginStep::Accepted { reply, nick } ==> (reply.payload matches MessagePayload::LoginAccepted { nick: k } && k@ == nick@ && reply.sender == addr),
{
}

} // verus!
