//! Actor identities and the messages that the actors exchange.

use vstd::prelude::*;
use vstd::string::*;

verus! {

/// Which of the two actors.
#[derive(Clone, Copy, Debug, PartialEq, Eq, Structural)]
pub enum ActorId {
    A,
    B,
}

impl ActorId {
    /// The number under which the actor appears in message texts: 1 for `A`,
    /// 2 for `B`.
    pub open spec fn number(self) -> nat {
        match self {
            ActorId::A => 1,
            ActorId::B => 2,
        }
    }

    /// The other actor.
    pub open spec fn peer_of(self) -> ActorId {
        match self {
            ActorId::A => ActorId::B,
            ActorId::B => ActorId::A,
        }
    }

    /// The other actor.
    pub fn peer(self) -> (other: ActorId)
        ensures
            other == self.peer_of(),
    {
        match self {
            ActorId::A => ActorId::B,
            ActorId::B => ActorId::A,
        }
    }

    /// The actor's number, as `number` defines it.
    pub fn ordinal(self) -> (n: u64)
        ensures
            n == self.number(),
    {
        match self {
            ActorId::A => 1,
            ActorId::B => 2,
        }
    }
}

/// The character that stands for a single decimal digit.
pub open spec fn digit_char(d: nat) -> char {
    if d == 0 {
        '0'
    } else if d == 1 {
        '1'
    } else if d == 2 {
        '2'
    } else if d == 3 {
        '3'
    } else if d == 4 {
        '4'
    } else if d == 5 {
        '5'
    } else if d == 6 {
        '6'
    } else if d == 7 {
        '7'
    } else if d == 8 {
        '8'
    } else {
        '9'
    }
}

/// The decimal numeral of `n`, most significant digit first, without leading
/// zeros.
pub open spec fn decimal_text(n: nat) -> Seq<char>
    decreases n,
{
    if n < 10 {
        seq![digit_char(n)]
    } else {
        decimal_text(n / 10).push(digit_char(n % 10))
    }
}

/// The text of the greeting that actor `sender` sends as its message number
/// `seq`.
pub open spec fn greeting_text(sender: ActorId, seq: nat) -> Seq<char> {
    "Hello from Thread "@ + decimal_text(sender.number()) + "! (message "@ + decimal_text(seq)
        + ")"@
}

fn digit_str(d: u64) -> (s: &'static str)
    requires
        d < 10,
    ensures
        s@ == seq![digit_char(d as nat)],
{
    proof {
        reveal_strlit("0");
        reveal_strlit("1");
        reveal_strlit("2");
        reveal_strlit("3");
        reveal_strlit("4");
        reveal_strlit("5");
        reveal_strlit("6");
        reveal_strlit("7");
        reveal_strlit("8");
        reveal_strlit("9");
    }
    let s = if d == 0 {
        "0"
    } else if d == 1 {
        "1"
    } else if d == 2 {
        "2"
    } else if d == 3 {
        "3"
    } else if d == 4 {
        "4"
    } else if d == 5 {
        "5"
    } else if d == 6 {
        "6"
    } else if d == 7 {
        "7"
    } else if d == 8 {
        "8"
    } else {
        "9"
    };
    s
}

/// Writes `n` as a decimal numeral.
pub fn decimal(n: u64) -> (text: String)
    ensures
        text@ == decimal_text(n as nat),
    decreases n,
{
    if n < 10 {
        String::from_str(digit_str(n))
    } else {
        let mut text = decimal(n / 10);
        text.append(digit_str(n % 10));
        text
    }
}

/// What a message is: who sent it, its place in the sender's sequence, and
/// the text it carries.
pub struct MessageView {
    pub sender: ActorId,
    pub seq: nat,
    pub payload: Seq<char>,
}

/// The greeting that actor `sender` sends as its message number `seq`.
pub open spec fn greeting_message(sender: ActorId, seq: nat) -> MessageView {
    MessageView { sender, seq, payload: greeting_text(sender, seq) }
}

/// A text payload tagged with its sender and with the sender's sequence
/// number. A message is handed over whole and never changed after it is sent:
/// a channel takes ownership of it.
#[derive(Debug, PartialEq, Eq)]
pub struct Message {
    pub sender: ActorId,
    pub seq: u64,
    pub payload: String,
}

impl View for Message {
    type V = MessageView;

    open spec fn view(&self) -> MessageView {
        MessageView { sender: self.sender, seq: self.seq as nat, payload: self.payload@ }
    }
}

impl Message {
    /// A message with the given tags and text.
    pub fn new(sender: ActorId, seq: u64, payload: String) -> (message: Message)
        ensures
            message@ == (MessageView { sender, seq: seq as nat, payload: payload@ }),
    {
        Message { sender, seq, payload }
    }

    /// The greeting that actor `sender` sends as its message number `seq`.
    pub fn greeting(sender: ActorId, seq: u64) -> (message: Message)
        ensures
            message@ == greeting_message(sender, seq as nat),
    {
        let mut payload = String::from_str("Hello from Thread ");
        let number = decimal(sender.ordinal());
        payload.append(number.as_str());
        payload.append("! (message ");
        let count = decimal(seq);
        payload.append(count.as_str());
        payload.append(")");
        Message { sender, seq, payload }
    }

    /// A second message with the same tags and the same text.
    pub fn duplicate(&self) -> (copy: Message)
        ensures
            copy@ == self@,
    {
        Message { sender: self.sender, seq: self.seq, payload: self.payload.clone() }
    }
}

} // verus!
