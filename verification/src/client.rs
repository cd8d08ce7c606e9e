use vstd::prelude::*;
use vstd::string::StringExecFns;

use crate::message::{ClientMessage, MessagePayload};
use crate::text::{
    chars_of, find_from, first_occurrence_from, matches_at, occurs_at, split_chars, split_on,
    substring,
};

verus! {

broadcast use vstd::string::group_string_axioms;

/// The command that a line typed before logging in stands for: `/login`
/// or `/signup`, then the address, then the password, separated by single
/// spaces with nothing else on the line.
pub fn login_command(line: &str) -> (r: Option<ClientMessage>)
    ensures
        ({
            let p = split_on(line@, ' ');
            &&& r is Some <==> p.len() == 3 && (p[0] == "/login"@ || p[0] == "/signup"@)
            &&& (p.len() == 3 && p[0] == "/login"@) ==> (r matches Some(
                ClientMessage::Login { email, password },
            ) && email@ == p[1] && password@ == p[2])
            &&& (p.len() == 3 && p[0] == "/signup"@) ==> (r matches Some(
                ClientMessage::Signup { email, password },
            ) && email@ == p[1] && password@ == p[2])
        }),
{
    let pieces = split_chars(line, ' ');
    let ghost p = split_on(line@, ' ');
    assert(pieces@.len() == p.len());
    if pieces.len() != 3 {
        return None;
    }
    assert(pieces@[0]@ == p[0] && pieces@[1]@ == p[1] && pieces@[2]@ == p[2]);
    proof {
        reveal_strlit("/login");
        reveal_strlit("/signup");
    }
    if pieces[0] == "/login".to_string() {
        Some(ClientMessage::Login { email: pieces[1].clone(), password: pieces[2].clone() })
    } else if pieces[0] == "/signup".to_string() {
        Some(ClientMessage::Signup { email: pieces[1].clone(), password: pieces[2].clone() })
    } else {
        None
    }
}

/// Why the server did not let the client in.
#[derive(Clone, Copy, Debug, PartialEq, Eq, Structural)]
pub enum LoginRefused {
    /// The server answered a log-in with `LoginFail`.
    InvalidCredentials,
    /// The server answered a sign-up with `SignupFail`.
    UserAlreadyExists,
}

impl LoginRefused {
    /// The text that the client reports for this refusal.
    pub open spec fn spec_message(self) -> Seq<char> {
        match self {
            LoginRefused::InvalidCredentials => "Invalid credentials"@,
            LoginRefused::UserAlreadyExists => "User already exists"@,
        }
    }

    /// The text that the client reports for this refusal.
    pub fn message(&self) -> (s: String)
        ensures
            s@ == self.spec_message(),
    {
        match self {
            LoginRefused::InvalidCredentials => "Invalid credentials".to_string(),
            LoginRefused::UserAlreadyExists => "User already exists".to_string(),
        }
    }
}

/// The payloads that can answer a log-in or sign-up request.
pub open spec fn is_login_answer(p: MessagePayload) -> bool {
    ||| p is SignupAccepted
    ||| p is LoginAccepted
    ||| p is LoginFail
    ||| p is SignupFail
}

/// Whether `payload` answers a log-in or sign-up request.
pub fn answers_login(payload: &MessagePayload) -> (r: bool)
    ensures
        r == is_login_answer(*payload),
{
    match payload {
        MessagePayload::SignupAccepted { .. } => true,
        MessagePayload::LoginAccepted { .. } => true,
        MessagePayload::LoginFail => true,
        MessagePayload::SignupFail => true,
        _ => false,
    }
}

/// What the server's answer to a log-in or sign-up means for the client:
/// the nickname it is known by, or the refusal.
pub fn login_outcome(payload: MessagePayload) -> (r: Result<String, LoginRefused>)
    requires
        is_login_answer(payload),
    ensures
        match payload {
            MessagePayload::SignupAccepted { nick } => r matches Ok(n) && n == nick,
            MessagePayload::LoginAccepted { nick } => r matches Ok(n) && n == nick,
            MessagePayload::LoginFail => r == Err::<String, LoginRefused>(
                LoginRefused::InvalidCredentials,
            ),
            _ => r == Err::<String, LoginRefused>(LoginRefused::UserAlreadyExists),
        },
{
    match payload {
        MessagePayload::SignupAccepted { nick } => Ok(nick),
        MessagePayload::LoginAccepted { nick } => Ok(nick),
        MessagePayload::LoginFail => Err(LoginRefused::InvalidCredentials),
        _ => Err(LoginRefused::UserAlreadyExists),
    }
}

/// The command prefix that asks for a new nickname.
pub open spec fn nick_prefix() -> Seq<char> {
    "/nick "@
}

/// What a line typed after logging in asks for. A line that starts with
/// `/nick ` asks for the nickname that follows, up to the next `/nick ` or
/// the end of the line; when nothing follows the prefix there is no
/// request (`None`). Any other line is a chat message.
pub fn process_message(payload: String) -> (r: Option<ClientMessage>)
    ensures
        ({
            let s = payload@;
            let pat = nick_prefix();
            if occurs_at(s, pat, 0) {
                if s.len() == pat.len() {
                    r is None
                } else {
                    r matches Some(ClientMessage::Nickname(n)) && n@ == s.subrange(
                        pat.len() as int,
                        first_occurrence_from(s, pat, pat.len() as int),
                    )
                }
            } else {
                r matches Some(ClientMessage::Message(m)) && m@ == s
            }
        }),
{
    let cs = chars_of(payload.as_str());
    let pat = chars_of("/nick ");
    proof {
        reveal_strlit("/nick ");
    }
    if matches_at(&cs, &pat, 0) {
        if cs.len() == pat.len() {
            None
        } else {
            let end = find_from(&cs, &pat, pat.len());
            proof {
                lemma_first_occurrence_bounds(cs@, pat@, pat@.len() as int);
            }
            Some(ClientMessage::Nickname(substring(payload.as_str(), pat.len(), end)))
        }
    } else {
        Some(ClientMessage::Message(payload))
    }
}

proof fn lemma_first_occurrence_bounds(s: Seq<char>, pat: Seq<char>, k: int)
    requires
        0 <= k <= s.len(),
        pat.len() > 0,
    ensures
        k <= first_occurrence_from(s, pat, k) <= s.len(),
    decreases s.len() + 1 - k,
{
    if k + pat.len() <= s.len() && !occurs_at(s, pat, k) {
        lemma_first_occurrence_bounds(s, pat, k + 1);
    }
}

/// The payloads that the client shows as a line of the chat.
pub open spec fn is_chat_event(p: MessagePayload) -> bool {
    ||| p is Nickname
    ||| p is Message
    ||| p is Connect
    ||| p is Disconnect
    ||| p is NickChangeRefused
}

/// The line of the chat that a payload is shown as.
pub open spec fn chat_line_spec(p: MessagePayload) -> Seq<char> {
    match p {
        MessagePayload::Nickname { new_nick, nick } => nick@ + " changed their name to "@
            + new_nick@,
        MessagePayload::Message { nick, message } => nick@ + ": "@ + message@,
        MessagePayload::Connect { nick } => nick@ + " joined the chat"@,
        MessagePayload::Disconnect { nick } => nick@ + " left the chat"@,
        MessagePayload::NickChangeRefused { msg } => msg@,
        _ => Seq::empty(),
    }
}

/// Whether the client shows `payload` as a line of the chat.
pub fn shows_in_chat(payload: &MessagePayload) -> (r: bool)
    ensures
        r == is_chat_event(*payload),
{
    match payload {
        MessagePayload::Nickname { .. } => true,
        MessagePayload::Message { .. } => true,
        MessagePayload::Connect { .. } => true,
        MessagePayload::Disconnect { .. } => true,
        MessagePayload::NickChangeRefused { .. } => true,
        _ => false,
    }
}

/// The line of the chat that a payload is shown as.
pub fn chat_line(payload: &MessagePayload) -> (line: String)
    requires
        is_chat_event(*payload),
    ensures
        line@ == chat_line_spec(*payload),
{
    match payload {
        MessagePayload::Nickname { new_nick, nick } => {
            let mut line = nick.clone();
            line.append(" changed their name to ");
            line.append(new_nick.as_str());
            line
        },
        MessagePayload::Message { nick, message } => {
            let mut line = nick.clone();
            line.append(": ");
            line.append(message.as_str());
            line
        },
        MessagePayload::Connect { nick } => {
            let mut line = nick.clone();
            line.append(" joined the chat");
            line
        },
        MessagePayload::Disconnect { nick } => {
            let mut line = nick.clone();
            line.append(" left the chat");
            line
        },
        MessagePayload::NickChangeRefused { msg } => msg.clone(),
        _ => String::new(),
    }
}

/// The client shows exactly joins, departures, chat lines, renames and
/// refused renames, whatever they hold, and nothing else.
pub proof fn law_shown_payloads(a: String, b: String)
    ensures
        is_chat_event(MessagePayload::Nickname { new_nick: a, nick: b }),
        is_chat_event(MessagePayload::Message { nick: a, message: b }),
        is_chat_event(MessagePayload::Connect { nick: a }),
        is_chat_event(MessagePayload::Disconnect { nick: a }),
        is_chat_event(MessagePayload::NickChangeRefused { msg: a }),
        !is_chat_event(MessagePayload::Signup { email: a, password: b }),
        !is_chat_event(MessagePayload::Login { email: a, password: b }),
        !is_chat_event(MessagePayload::SignupAccepted { nick: a }),
        !is_chat_event(MessagePayload::LoginAccepted { nick: a }),
        !is_chat_event(MessagePayload::LoginFail),
        !is_chat_event(MessagePayload::SignupFail),
{
}

/// Exactly the acceptances and failures of a sign-up or log-in answer one,
/// whatever they hold.
pub proof fn law_login_answer_payloads(a: String, b: String)
    ensures
        is_login_answer(MessagePayload::SignupAccepted { nick: a }),
        is_login_answer(MessagePayload::LoginAccepted { nick: a }),
        is_login_answer(MessagePayload::LoginFail),
        is_login_answer(MessagePayload::SignupFail),
        !is_login_answer(MessagePayload::Signup { email: a, password: b }),
        !is_login_answer(MessagePayload::Login { email: a, password: b }),
        !is_login_answer(MessagePayload::Nickname { new_nick: a, nick: b }),
        !is_login_answer(MessagePayload::Message { nick: a, message: b }),
        !is_login_answer(MessagePayload::Connect { nick: a }),
        !is_login_answer(MessagePayload::Disconnect { nick: a }),
        !is_login_answer(MessagePayload::NickChangeRefused { msg: a }),
{
}

/// A payload that answers a log-in is never shown as a chat line, and a
/// shown payload never answers a log-in.
pub proof fn law_answers_and_events_disjoint(p: MessagePayload)
    ensures
        !(is_login_answer(p) && is_chat_event(p)),
{
}

/// Every shown line begins with the acting nickname (or is the refusal
/// text itself), followed by the rest of the event.
pub proof fn law_chat_line_starts_with_actor(p: MessagePayload)
    requires
        is_chat_event(p),
    ensures
        match p {
            MessagePayload::Nickname { new_nick, nick } => chat_line_spec(p).take(nick@.len() as int) == nick@ && chat_line_spec(p).skip(chat_line_spec(p).len() - new_nick@.len()) == new_nick@,
            MessagePayload::Message { nick, message } => chat_line_spec(p).take(nick@.len() as int) == nick@ && chat_line_spec(p).skip(chat_line_spec(p).len() - message@.len()) == message@,
            MessagePayload::Connect { nick } => chat_line_spec(p).take(nick@.len() as int) == nick@,
            MessagePayload::Disconnect { nick } => chat_line_spec(p).take(nick@.len() as int) == nick@,
            MessagePayload::NickChangeRefused { msg } => chat_line_spec(p) == msg@,
            _ => true,
        },
{
    match p {
        MessagePayload::Nickname { new_nick, nick } => {
            assert((nick@ + " changed their name to "@ + new_nick@).take(nick@.len() as int) =~= nick@);
            let l = nick@ + " changed their name to "@ + new_nick@;
            assert(l.skip(l.len() - new_nick@.len()) =~= new_nick@);
        },
        MessagePayload::Message { nick, message } => {
            assert((nick@ + ": "@ + message@).take(nick@.len() as int) =~= nick@);
            let l = nick@ + ": "@ + message@;
            assert(l.skip(l.len() - message@.len()) =~= message@);
        },
        MessagePayload::Connect { nick } => {
            assert((nick@ + " joined the chat"@).take(nick@.len() as int) =~= nick@);
        },
        MessagePayload::Disconnect { nick } => {
            assert((nick@ + " left the chat"@).take(nick@.len() as int) =~= nick@);
        },
        _ => {},
    }
}

/// The rename command is `/nick` followed by one space.
pub proof fn law_nick_prefix()
    ensures
        nick_prefix() == seq!['/', 'n', 'i', 'c', 'k', ' '],
{
    reveal_strlit("/nick ");
    assert(nick_prefix() =~= seq!['/', 'n', 'i', 'c', 'k', ' ']);
}

} // verus!
