//! Classification and formatting of feed events into display lines.
//!
//! An incoming protocol message is modelled as a [`ChatEvent`]: its kind
//! (user chat message or anything else), the sender identity carried in the
//! message prefix, and the ordered context parameters (channel first, then
//! the words of the message body). [`format`] turns such an event into at
//! most one display line `"<name>: <body>"`.

use vstd::prelude::*;

verus! {

use vstd::string::StringExecFns;

/// The sender identity carried in a message prefix.
pub enum Identity {
    /// Only a host name was present.
    HostOnly { host: String },
    /// A full identity: nickname, optional account name, host.
    Full { nick: String, user: Option<String>, host: String },
}

/// How an incoming event is classified.
pub enum EventKind {
    /// A user chat message: the only kind that may become a display line.
    ChatMessage,
    /// Any other protocol event: never displayed.
    Other,
}

/// One parsed event from the feed, as the formatter sees it.
pub struct ChatEvent {
    /// Classification of the event.
    pub kind: EventKind,
    /// The sender identity, absent on some protocol messages.
    pub prefix: Option<Identity>,
    /// Context parameters: the channel first, then the message words.
    pub params: Vec<String>,
}

/// The display name an event resolves to: the account name if a full
/// identity carries one, else the nickname; the host of a host-only
/// identity; the sentinel `"unknown"` when no identity is present.
pub open spec fn resolved_name(e: ChatEvent) -> Seq<char> {
    match e.prefix {
        Option::None => "unknown"@,
        Option::Some(Identity::HostOnly { host }) => host@,
        Option::Some(Identity::Full { nick, user, host }) => match user {
            Option::Some(u) => u@,
            Option::None => nick@,
        },
    }
}

/// The channel identifier an event resolves to: the first context
/// parameter, or the sentinel `"unknown"` if there is none.
pub open spec fn resolved_channel(e: ChatEvent) -> Seq<char> {
    if e.params@.len() > 0 {
        e.params@[0]@
    } else {
        "unknown"@
    }
}

/// The context parameters from index `from` on, joined with single spaces.
pub open spec fn joined_from(params: Seq<String>, from: int) -> Seq<char>
    decreases params.len() - from,
{
    if from < 0 || from >= params.len() {
        Seq::<char>::empty()
    } else if from == params.len() - 1 {
        params[from]@
    } else {
        params[from]@ + " "@ + joined_from(params, from + 1)
    }
}

/// The message body of an event: every context parameter after the first,
/// joined with single spaces.
pub open spec fn message_body(e: ChatEvent) -> Seq<char> {
    joined_from(e.params@, 1)
}

/// What [`format`] returns: no line for a non-chat event or when the
/// resolved name equals the resolved channel (a self/system echo), else
/// the line `"<name>: <body>"`.
pub open spec fn format_spec(e: ChatEvent) -> Option<Seq<char>> {
    if !(e.kind is ChatMessage) {
        Option::None
    } else if resolved_name(e) == resolved_channel(e) {
        Option::None
    } else {
        Option::Some(resolved_name(e) + ": "@ + message_body(e))
    }
}

/// A chat message whose resolved name differs from its resolved channel
/// formats to exactly `"<name>: <body>"`; one whose name equals the
/// channel (a self/system echo) is suppressed.
pub proof fn lemma_chat_message_line(e: ChatEvent)
    requires
        e.kind is ChatMessage,
    ensures
        resolved_name(e) != resolved_channel(e) ==> format_spec(e) == Option::Some(
            resolved_name(e) + ": "@ + message_body(e),
        ),
        resolved_name(e) == resolved_channel(e) ==> format_spec(e) is None,
{
}

/// An event of any other kind never formats to a line, whatever
/// identity and parameters it carries.
pub proof fn lemma_non_chat_never_displayed(e: ChatEvent)
    requires
        !(e.kind is ChatMessage),
    ensures
        format_spec(e) is None,
{
}

/// Turns one feed event into at most one display line.
///
/// Chat messages become `"<name>: <body>"`; every other event kind, and a
/// chat message whose resolved name equals its resolved channel, yields
/// nothing. Never fails.
pub fn format(e: &ChatEvent) -> (r: Option<String>)
    ensures
        match r {
            Option::Some(s) => format_spec(*e) == Option::Some(s@),
            Option::None => format_spec(*e) is None,
        },
{
    match e.kind {
        EventKind::Other => {
            return Option::None;
        },
        EventKind::ChatMessage => {},
    }
    let name: String = match &e.prefix {
        Option::None => "unknown".to_owned(),
        Option::Some(Identity::HostOnly { host }) => host.clone(),
        Option::Some(Identity::Full { nick, user, host: _ }) => match user {
            Option::Some(u) => u.clone(),
            Option::None => nick.clone(),
        },
    };
    let channel: String = if e.params.len() > 0 {
        e.params[0].clone()
    } else {
        "unknown".to_owned()
    };
    if name == channel {
        return Option::None;
    }
    let body = join_tail(&e.params);
    let mut line = name;
    line.append(": ");
    line.append(body.as_str());
    Option::Some(line)
}

/// Joins every parameter after the first with single spaces.
fn join_tail(params: &Vec<String>) -> (r: String)
    ensures
        r@ == joined_from(params@, 1),
{
    let n = params.len();
    let mut body = String::new();
    let mut i: usize = n;
    while i > 1
        invariant
            i <= n,
            n > 0 ==> i >= 1,
            n == params@.len(),
            body@ == joined_from(params@, i as int),
        decreases i,
    {
        i = i - 1;
        if i == n - 1 {
            body = params[i].clone();
        } else {
            body = params[i].clone().concat(" ").concat(body.as_str());
        }
    }
    if n == 0 {
        assert(body@ == joined_from(params@, 1));
    }
    body
}

} // verus!
