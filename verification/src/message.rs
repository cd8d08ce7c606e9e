use vstd::prelude::*;

verus! {

/// The address of a peer, as the socket layer reports it: an IPv4 address
/// and port, or an IPv6 address, port, flow label and scope.
#[derive(Clone, Copy, Debug, PartialEq, Eq, Structural)]
pub enum PeerAddr {
    V4 { ip4: u32, port: u16 },
    V6 { ip6: u128, port: u16, flowinfo: u32, scope_id: u32 },
}

/// What the server says: who caused it, a timestamp and the payload.
#[derive(Debug)]
pub struct ServerMessage {
    pub sender: PeerAddr,
    pub time: u64,
    pub payload: MessagePayload,
}

impl ServerMessage {
    /// A message from `sender` carrying `payload`; the timestamp is zero.
    pub fn new(sender: PeerAddr, payload: MessagePayload) -> (m: Self)
        ensures
            m.sender == sender,
            m.time == 0,
            m.payload == payload,
    {
        ServerMessage { sender, time: 0, payload }
    }
}

/// The payloads that travel from the server to the clients.
#[derive(Debug)]
pub enum MessagePayload {
    Signup { email: String, password: String },
    Login { email: String, password: String },
    SignupAccepted { nick: String },
    LoginAccepted { nick: String },
    LoginFail,
    SignupFail,
    Nickname { new_nick: String, nick: String },
    Message { nick: String, message: String },
    Connect { nick: String },
    Disconnect { nick: String },
    NickChangeRefused { msg: String },
}

/// What a client sends to the server.
#[derive(Debug)]
pub enum ClientMessage {
    Signup { email: String, password: String },
    Login { email: String, password: String },
    Nickname(String),
    Message(String),
}

} // verus!
