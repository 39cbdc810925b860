//! The data model of the wire protocol: arguments, messages and packets.

use vstd::prelude::*;

verus! {

/// One typed argument of a message.
///
/// Floating-point arguments are carried by their IEEE 754 bit patterns, so
/// that equality of arguments is equality of what travels on the wire.
#[derive(Debug, PartialEq, Eq)]
pub enum OscArg {
    /// A 32-bit signed integer.
    Int(i32),
    /// The bits of a 32-bit float.
    Float(u32),
    /// The bits of a 64-bit float.
    Double(u64),
    /// A text.
    String(String),
    /// A truth value.
    Bool(bool),
    /// Raw bytes.
    Blob(Vec<u8>),
    /// An argument of a kind that no handler of the bridge reads.
    Other,
}

/// What an argument is, as a mathematical value.
pub enum ArgView {
    Int(i32),
    Float(u32),
    Double(u64),
    String(Seq<char>),
    Bool(bool),
    Blob(Seq<u8>),
    Other,
}

impl View for OscArg {
    type V = ArgView;

    open spec fn view(&self) -> ArgView {
        match *self {
            OscArg::Int(i) => ArgView::Int(i),
            OscArg::Float(bits) => ArgView::Float(bits),
            OscArg::Double(bits) => ArgView::Double(bits),
            OscArg::String(s) => ArgView::String(s@),
            OscArg::Bool(b) => ArgView::Bool(b),
            OscArg::Blob(bytes) => ArgView::Blob(bytes@),
            OscArg::Other => ArgView::Other,
        }
    }
}

impl Clone for OscArg {
    fn clone(&self) -> (copy: Self)
        ensures
            copy@ == self@,
    {
        match self {
            OscArg::Int(i) => OscArg::Int(*i),
            OscArg::Float(bits) => OscArg::Float(*bits),
            OscArg::Double(bits) => OscArg::Double(*bits),
            OscArg::String(s) => OscArg::String(s.clone()),
            OscArg::Bool(b) => OscArg::Bool(*b),
            OscArg::Blob(bytes) => OscArg::Blob(bytes.clone()),
            OscArg::Other => OscArg::Other,
        }
    }
}

/// An address and its ordered arguments.
#[derive(Debug, PartialEq, Eq)]
pub struct Message {
    pub addr: String,
    pub args: Vec<OscArg>,
}

/// What a message is, as a mathematical value.
pub struct MessageView {
    pub addr: Seq<char>,
    pub args: Seq<ArgView>,
}

/// The views of a sequence of arguments, in order.
pub open spec fn arg_views(args: Seq<OscArg>) -> Seq<ArgView> {
    args.map_values(|a: OscArg| a@)
}

impl View for Message {
    type V = MessageView;

    open spec fn view(&self) -> MessageView {
        MessageView { addr: self.addr@, args: arg_views(self.args@) }
    }
}

impl Clone for Message {
    fn clone(&self) -> (copy: Self)
        ensures
            copy@ == self@,
    {
        let mut args: Vec<OscArg> = Vec::new();
        let mut i: usize = 0;
        while i < self.args.len()
            invariant
                i <= self.args.len(),
                args.len() == i,
                forall|j: int| 0 <= j < i ==> args[j]@ == self.args[j]@,
            decreases self.args.len() - i,
        {
            args.push(self.args[i].clone());
            i += 1;
        }
        assert(arg_views(args@) =~= arg_views(self.args@));
        Message { addr: self.addr.clone(), args }
    }
}

/// The views of a sequence of messages, in order.
pub open spec fn message_views(messages: Seq<Message>) -> Seq<MessageView> {
    messages.map_values(|m: Message| m@)
}

/// One transport frame: a single message, or a bundle of frames.
#[derive(Debug, PartialEq, Eq)]
pub enum Packet {
    Message(Message),
    Bundle(Vec<Packet>),
}

impl Packet {
    /// The messages that a packet carries, in the order of the frame, with
    /// every nested bundle opened in place.
    pub open spec fn messages(self) -> Seq<MessageView>
        decreases self, 0nat,
    {
        match self {
            Packet::Message(m) => seq![m@],
            Packet::Bundle(content) => Self::messages_of(content@, content@.len() as int),
        }
    }

    /// The messages of the first `n` packets of `content`.
    pub open spec fn messages_of(content: Seq<Packet>, n: int) -> Seq<MessageView>
        decreases content, n,
    {
        if n <= 0 || n > content.len() {
            Seq::empty()
        } else {
            Self::messages_of(content, n - 1) + content[n - 1].messages()
        }
    }
}

impl MessageView {
    /// The integer at position `index`, if an integer stands there.
    pub open spec fn int_at(self, index: int) -> Option<i32> {
        if 0 <= index < self.args.len() {
            match self.args[index] {
                ArgView::Int(i) => Some(i),
                _ => None,
            }
        } else {
            None
        }
    }

    /// The text at position `index`, if a text stands there.
    pub open spec fn text_at(self, index: int) -> Option<Seq<char>> {
        if 0 <= index < self.args.len() {
            match self.args[index] {
                ArgView::String(s) => Some(s),
                _ => None,
            }
        } else {
            None
        }
    }

    /// The truth value at position `index`, if one stands there.
    pub open spec fn bool_at(self, index: int) -> Option<bool> {
        if 0 <= index < self.args.len() {
            match self.args[index] {
                ArgView::Bool(b) => Some(b),
                _ => None,
            }
        } else {
            None
        }
    }

    /// The number at position `index`, if a float, a double or an integer
    /// stands there.
    pub open spec fn number_at(self, index: int) -> Option<Number> {
        if 0 <= index < self.args.len() {
            match self.args[index] {
                ArgView::Float(bits) => Some(Number::Float(bits)),
                ArgView::Double(bits) => Some(Number::Double(bits)),
                ArgView::Int(i) => Some(Number::Int(i)),
                _ => None,
            }
        } else {
            None
        }
    }
}

/// A numeric argument, as it arrived: the embedding program converts it to
/// the float that the host takes.
#[derive(Clone, Copy, Debug, PartialEq, Eq, Structural)]
pub enum Number {
    /// The bits of a 32-bit float.
    Float(u32),
    /// The bits of a 64-bit float.
    Double(u64),
    Int(i32),
}

impl Message {
    /// The integer at position `index`, if an integer stands there.
    pub fn int_arg(&self, index: usize) -> (value: Option<i32>)
        ensures
            value == self@.int_at(index as int),
    {
        if index < self.args.len() {
            match &self.args[index] {
                OscArg::Int(i) => Some(*i),
                _ => None,
            }
        } else {
            None
        }
    }

    /// The text at position `index`, if a text stands there.
    pub fn text_arg(&self, index: usize) -> (value: Option<&String>)
        ensures
            match value {
                Some(s) => self@.text_at(index as int) == Some(s@),
                None => self@.text_at(index as int).is_none(),
            },
    {
        if index < self.args.len() {
            match &self.args[index] {
                OscArg::String(s) => Some(s),
                _ => None,
            }
        } else {
            None
        }
    }

    /// The truth value at position `index`, if one stands there.
    pub fn bool_arg(&self, index: usize) -> (value: Option<bool>)
        ensures
            value == self@.bool_at(index as int),
    {
        if index < self.args.len() {
            match &self.args[index] {
                OscArg::Bool(b) => Some(*b),
                _ => None,
            }
        } else {
            None
        }
    }

    /// The number at position `index`, if a float, a double or an integer
    /// stands there.
    pub fn number_arg(&self, index: usize) -> (value: Option<Number>)
        ensures
            value == self@.number_at(index as int),
    {
        if index < self.args.len() {
            match &self.args[index] {
                OscArg::Float(bits) => Some(Number::Float(*bits)),
                OscArg::Double(bits) => Some(Number::Double(*bits)),
                OscArg::Int(i) => Some(Number::Int(*i)),
                _ => None,
            }
        } else {
            None
        }
    }
}

/// A text argument that holds `content`.
pub fn text(content: &str) -> (arg: OscArg)
    ensures
        arg@ == ArgView::String(content@),
{
    OscArg::String(content.to_owned())
}

proof fn lemma_messages_of_prefix(whole: Seq<Packet>, part: Seq<Packet>, n: int)
    requires
        0 <= n <= part.len() <= whole.len(),
        forall|i: int| 0 <= i < n ==> whole[i] == part[i],
    ensures
        Packet::messages_of(whole, n) == Packet::messages_of(part, n),
    decreases n,
{
    if n > 0 {
        lemma_messages_of_prefix(whole, part, n - 1);
    }
}

proof fn lemma_messages_of_concat(first: Seq<Packet>, second: Seq<Packet>, n: int)
    requires
        0 <= n <= second.len(),
    ensures
        Packet::messages_of(first + second, first.len() + n) == Packet::messages_of(
            first,
            first.len() as int,
        ) + Packet::messages_of(second, n),
    decreases n,
{
    if n == 0 {
        lemma_messages_of_prefix(first + second, first, first.len() as int);
    } else {
        lemma_messages_of_concat(first, second, n - 1);
    }
}

/// Bundle expansion. A bundle that stands inside another one is opened in
/// place: the outer bundle carries the same messages, in the same order, as
/// if the packets of the inner bundle stood in it themselves.
pub proof fn lemma_bundle_opens_in_place(
    outer: Vec<Packet>,
    flat: Vec<Packet>,
    before: Seq<Packet>,
    inner: Vec<Packet>,
    after: Seq<Packet>,
)
    requires
        outer@ == before + seq![Packet::Bundle(inner)] + after,
        flat@ == before + inner@ + after,
    ensures
        Packet::Bundle(outer).messages() == Packet::Bundle(flat).messages(),
{
    let nested = seq![Packet::Bundle(inner)];
    lemma_messages_of_concat(before + nested, after, after.len() as int);
    lemma_messages_of_concat(before, nested, 1);
    lemma_messages_of_concat(before + inner@, after, after.len() as int);
    lemma_messages_of_concat(before, inner@, inner@.len() as int);
    assert(Packet::messages_of(nested, 0) =~= Seq::<MessageView>::empty());
    assert(Packet::messages_of(nested, 1) =~= Packet::Bundle(inner).messages());
}

/// A bundle of single messages carries exactly those messages, in order.
pub proof fn lemma_bundle_of_messages(content: Vec<Packet>, messages: Seq<Message>)
    requires
        content@.len() == messages.len(),
        forall|i: int| 0 <= i < messages.len() ==> content@[i] == Packet::Message(messages[i]),
    ensures
        Packet::Bundle(content).messages() == message_views(messages),
{
    lemma_plain_messages(content@, messages, messages.len() as int);
}

proof fn lemma_plain_messages(content: Seq<Packet>, messages: Seq<Message>, n: int)
    requires
        0 <= n <= messages.len(),
        content.len() == messages.len(),
        forall|i: int| 0 <= i < messages.len() ==> content[i] == Packet::Message(messages[i]),
    ensures
        Packet::messages_of(content, n) == message_views(messages).take(n),
    decreases n,
{
    if n > 0 {
        lemma_plain_messages(content, messages, n - 1);
        assert(content[n - 1].messages() == seq![messages[n - 1]@]);
    }
}

} // verus!
