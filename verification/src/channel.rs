//! Channels between a script and the instance it spawned. A handle owns one
//! side of four bounded queues: text and bytes, each in both directions.
//! Messages of one queue arrive in the order in which they were sent; the
//! queues are independent of each other.

use vstd::prelude::*;
use crate::text::to_chars;

verus! {

/// Capacity of a text queue.
pub const TEXT_CAPACITY: usize = 12;

/// Capacity of a byte queue.
pub const BYTES_CAPACITY: usize = 24;

/// The sending half of a `crossbeam_channel` queue. Verus sees nothing of
/// what is inside.
#[verifier::external_type_specification]
#[verifier::external_body]
#[verifier::reject_recursive_types(T)]
pub struct ExSender<T>(crossbeam_channel::Sender<T>);

/// The receiving half of a `crossbeam_channel` queue. Verus sees nothing of
/// what is inside.
#[verifier::external_type_specification]
#[verifier::external_body]
#[verifier::reject_recursive_types(T)]
pub struct ExReceiver<T>(crossbeam_channel::Receiver<T>);

/// The capacity that the queue behind a text sender was created with, as
/// `Sender::capacity` reports it.
pub uninterp spec fn text_limit(sender: crossbeam_channel::Sender<String>) -> Option<usize>;

/// The capacity that the queue behind a byte sender was created with, as
/// `Sender::capacity` reports it.
pub uninterp spec fn bytes_limit(sender: crossbeam_channel::Sender<Vec<u8>>) -> Option<usize>;

/// Why a channel operation failed.
#[derive(Clone, Copy, Debug, PartialEq, Eq, Structural)]
pub enum ChannelError {
    /// The other side is gone and nothing is left to read.
    Disconnected,
}

/// What a look into a queue found.
pub enum Polled<T> {
    Message(T),
    Empty,
    Disconnected,
}

/// How a text message is to be understood by the side that reads it.
#[derive(Clone, Copy, Debug, PartialEq, Eq, Structural)]
pub enum TextKind {
    /// An encoded structured value, to be decoded before it is handed on.
    Structured,
    /// Plain text, handed on as it is.
    Plain,
}

/// `crossbeam_channel::bounded` for text: a new queue that holds at most
/// `cap` messages. The contract states the capacity that the sender reports.
/// Capacities beyond 65536 are left out: they are never asked for here, and
/// very large ones make the crate's index arithmetic overflow.
#[verifier::external_body]
fn bounded_text(cap: usize) -> (ends: (
    crossbeam_channel::Sender<String>,
    crossbeam_channel::Receiver<String>,
))
    requires
        cap <= 0x1_0000,
    ensures
        text_limit(ends.0) == Some(cap),
{
    crossbeam_channel::bounded(cap)
}

/// `crossbeam_channel::bounded` for bytes: a new queue that holds at most
/// `cap` messages. The contract states the capacity that the sender reports.
/// Capacities beyond 65536 are left out: they are never asked for here, and
/// very large ones make the crate's index arithmetic overflow.
#[verifier::external_body]
fn bounded_bytes(cap: usize) -> (ends: (
    crossbeam_channel::Sender<Vec<u8>>,
    crossbeam_channel::Receiver<Vec<u8>>,
))
    requires
        cap <= 0x1_0000,
    ensures
        bytes_limit(ends.0) == Some(cap),
{
    crossbeam_channel::bounded(cap)
}

/// `Sender::capacity` on a text sender: the capacity of its queue.
#[verifier::external_body]
fn text_capacity_of(sender: &crossbeam_channel::Sender<String>) -> (cap: Option<usize>)
    ensures
        cap == text_limit(*sender),
{
    sender.capacity()
}

/// `Sender::capacity` on a byte sender: the capacity of its queue.
#[verifier::external_body]
fn bytes_capacity_of(sender: &crossbeam_channel::Sender<Vec<u8>>) -> (cap: Option<usize>)
    ensures
        cap == bytes_limit(*sender),
{
    sender.capacity()
}

/// `Sender::send`: waits until the message is queued or the queue is
/// disconnected. On failure the error holds the message that was not sent;
/// that is all the contract claims, since the outcome depends on the other
/// side.
#[verifier::external_body]
fn send_blocking<T>(sender: &crossbeam_channel::Sender<T>, message: T) -> (out: Result<(), T>)
    ensures
        out matches Err(unsent) ==> unsent == message,
{
    match sender.send(message) {
        Ok(()) => Ok(()),
        Err(crossbeam_channel::SendError(unsent)) => Err(unsent),
    }
}

/// `Receiver::try_recv`: takes the next message if one is queued, without
/// waiting. Nothing is claimed of the outcome, which depends on the other
/// side.
#[verifier::external_body]
fn poll<T>(receiver: &crossbeam_channel::Receiver<T>) -> (out: Polled<T>) {
    match receiver.try_recv() {
        Ok(message) => Polled::Message(message),
        Err(crossbeam_channel::TryRecvError::Empty) => Polled::Empty,
        Err(crossbeam_channel::TryRecvError::Disconnected) => Polled::Disconnected,
    }
}

/// `Receiver::recv`: waits for the next message; `None` when the queue is
/// empty and disconnected. Nothing is claimed of the outcome, which depends
/// on the other side.
#[verifier::external_body]
fn receive_blocking<T>(receiver: &crossbeam_channel::Receiver<T>) -> (out: Option<T>) {
    match receiver.recv() {
        Ok(message) => Some(message),
        Err(crossbeam_channel::RecvError) => None,
    }
}

/// The result of a send: a message that came back was not delivered because
/// the queue is disconnected.
pub fn sent<T>(outcome: Result<(), T>) -> (out: Result<(), ChannelError>)
    ensures
        out == match outcome {
            Ok(()) => Ok::<(), ChannelError>(()),
            Err(_) => Err::<(), ChannelError>(ChannelError::Disconnected),
        },
{
    match outcome {
        Ok(()) => Ok(()),
        Err(_) => Err(ChannelError::Disconnected),
    }
}

/// The result of a read that does not wait: the message if one was queued,
/// nothing otherwise.
pub fn polled<T>(found: Polled<T>) -> (out: Option<T>)
    ensures
        out == match found {
            Polled::Message(message) => Some(message),
            Polled::Empty => None::<T>,
            Polled::Disconnected => None::<T>,
        },
{
    match found {
        Polled::Message(message) => Some(message),
        Polled::Empty => None,
        Polled::Disconnected => None,
    }
}

/// The result of a read that waits: the message, or an error when the queue
/// was disconnected. A disconnect is never reported as an absent value.
pub fn awaited<T>(received: Option<T>) -> (out: Result<T, ChannelError>)
    ensures
        out == match received {
            Some(message) => Ok::<T, ChannelError>(message),
            None => Err::<T, ChannelError>(ChannelError::Disconnected),
        },
{
    match received {
        Some(message) => Ok(message),
        None => Err(ChannelError::Disconnected),
    }
}

/// The mark that the sender writes before an encoded structured value.
pub const STRUCTURED_MARK: char = 'J';

/// The mark that the sender writes before plain text.
pub const PLAIN_MARK: char = 'T';

/// The mark of a kind of text.
pub open spec fn mark_of(kind: TextKind) -> char {
    match kind {
        TextKind::Structured => STRUCTURED_MARK,
        TextKind::Plain => PLAIN_MARK,
    }
}

/// A text as it travels: the mark of its kind, then the text itself, with
/// every character as the sender gave it.
pub open spec fn framed(kind: TextKind, text: Seq<char>) -> Seq<char> {
    seq![mark_of(kind)] + text
}

/// Whether a message begins with one of the two marks.
pub open spec fn is_marked(message: Seq<char>) -> bool {
    message.len() > 0 && (message[0] == STRUCTURED_MARK || message[0] == PLAIN_MARK)
}

/// How the reader of a message is to take it: as an encoded structured
/// value when the sender marked it so, as plain text otherwise. What the
/// text itself holds plays no part.
pub open spec fn text_kind(message: Seq<char>) -> TextKind {
    if message.len() > 0 && message[0] == STRUCTURED_MARK {
        TextKind::Structured
    } else {
        TextKind::Plain
    }
}

/// The text of a message: what follows the mark. A message without a mark
/// is its own text.
pub open spec fn payload(message: Seq<char>) -> Seq<char> {
    if is_marked(message) {
        message.skip(1)
    } else {
        message
    }
}

/// A text reaches the reader as the sender gave it and under the kind that
/// the sender gave it.
pub proof fn lemma_framed_text_is_read_back(kind: TextKind, text: Seq<char>)
    ensures
        text_kind(framed(kind, text)) == kind,
        payload(framed(kind, text)) == text,
{
    assert(framed(kind, text)[0] == mark_of(kind));
    assert(framed(kind, text).skip(1) =~= text);
}

/// What is sent as plain text is read as plain text, whatever its
/// characters: a string that begins with `{` is a string to the reader,
/// and so is one that begins with a mark.
pub proof fn lemma_plain_text_is_read_as_plain(text: Seq<char>)
    ensures
        text_kind(framed(TextKind::Plain, text)) == TextKind::Plain,
        payload(framed(TextKind::Plain, text)) == text,
{
    lemma_framed_text_is_read_back(TextKind::Plain, text);
}

/// A text as it travels.
pub fn frame(kind: TextKind, text: &str) -> (out: String)
    ensures
        out@ == framed(kind, text@),
{
    let mut out = String::new();
    match kind {
        TextKind::Structured => out.push(STRUCTURED_MARK),
        TextKind::Plain => out.push(PLAIN_MARK),
    }
    out.append(text);
    assert(out@ =~= framed(kind, text@));
    out
}

/// How the reader of a message is to take it.
pub fn classify_text(message: &str) -> (kind: TextKind)
    ensures
        kind == text_kind(message@),
{
    let chars = to_chars(message);
    if chars.len() > 0 && chars[0] == STRUCTURED_MARK {
        TextKind::Structured
    } else {
        TextKind::Plain
    }
}

/// A message as the reader takes it: its kind and its text.
pub fn unframe(message: &str) -> (out: (TextKind, String))
    ensures
        out.0 == text_kind(message@),
        out.1@ == payload(message@),
{
    let chars = to_chars(message);
    let n = chars.len();
    if n > 0 && chars[0] == STRUCTURED_MARK {
        proof {
            assert(message@.subrange(1, n as int) =~= message@.skip(1));
        }
        (TextKind::Structured, String::from_str(message.substring_char(1, n)))
    } else if n > 0 && chars[0] == PLAIN_MARK {
        proof {
            assert(message@.subrange(1, n as int) =~= message@.skip(1));
        }
        (TextKind::Plain, String::from_str(message.substring_char(1, n)))
    } else {
        (TextKind::Plain, String::from_str(message))
    }
}

/// One side of the four queues between a script and the instance it spawned.
pub struct Endpoints {
    pub text_out: crossbeam_channel::Sender<String>,
    pub text_in: crossbeam_channel::Receiver<String>,
    pub bytes_out: crossbeam_channel::Sender<Vec<u8>>,
    pub bytes_in: crossbeam_channel::Receiver<Vec<u8>>,
}

/// Both sides of the four queues.
pub struct ChannelPair {
    pub parent: Endpoints,
    pub child: Endpoints,
}

/// Hands the ends of the four queues to the two sides: what the parent
/// sends the child receives, and what the child sends the parent receives,
/// for text and for bytes. Each pair is the sending and the receiving end of
/// one queue.
pub fn wire(
    down_text: (crossbeam_channel::Sender<String>, crossbeam_channel::Receiver<String>),
    up_text: (crossbeam_channel::Sender<String>, crossbeam_channel::Receiver<String>),
    down_bytes: (crossbeam_channel::Sender<Vec<u8>>, crossbeam_channel::Receiver<Vec<u8>>),
    up_bytes: (crossbeam_channel::Sender<Vec<u8>>, crossbeam_channel::Receiver<Vec<u8>>),
) -> (pair: ChannelPair)
    ensures
        pair.parent.text_out == down_text.0,
        pair.child.text_in == down_text.1,
        pair.child.text_out == up_text.0,
        pair.parent.text_in == up_text.1,
        pair.parent.bytes_out == down_bytes.0,
        pair.child.bytes_in == down_bytes.1,
        pair.child.bytes_out == up_bytes.0,
        pair.parent.bytes_in == up_bytes.1,
{
    ChannelPair {
        parent: Endpoints {
            text_out: down_text.0,
            text_in: up_text.1,
            bytes_out: down_bytes.0,
            bytes_in: up_bytes.1,
        },
        child: Endpoints {
            text_out: up_text.0,
            text_in: down_text.1,
            bytes_out: up_bytes.0,
            bytes_in: down_bytes.1,
        },
    }
}

/// Creates the four queues of a spawn and wires them: text and bytes from
/// parent to child and from child to parent. A text queue holds 12 messages,
/// a byte queue 24.
pub fn open_channels() -> (pair: ChannelPair)
    ensures
        text_limit(pair.parent.text_out) == Some(TEXT_CAPACITY),
        text_limit(pair.child.text_out) == Some(TEXT_CAPACITY),
        bytes_limit(pair.parent.bytes_out) == Some(BYTES_CAPACITY),
        bytes_limit(pair.child.bytes_out) == Some(BYTES_CAPACITY),
{
    let down_text = bounded_text(TEXT_CAPACITY);
    let up_text = bounded_text(TEXT_CAPACITY);
    let down_bytes = bounded_bytes(BYTES_CAPACITY);
    let up_bytes = bounded_bytes(BYTES_CAPACITY);
    wire(down_text, up_text, down_bytes, up_bytes)
}

/// What a look into a text queue hands on: the kind and the text of the
/// message that was found, and nothing where none was.
pub fn received(found: Polled<String>) -> (out: Option<(TextKind, String)>)
    ensures
        match found {
            Polled::Message(message) => out matches Some(pair) && pair.0 == text_kind(message@)
                && pair.1@ == payload(message@),
            Polled::Empty => out is None,
            Polled::Disconnected => out is None,
        },
{
    match polled(found) {
        Some(message) => Some(unframe(message.as_str())),
        None => None,
    }
}

/// What a wait on a text queue hands on: the kind and the text of the
/// message that came, and an error where the queue was disconnected.
pub fn received_after_wait(came: Option<String>) -> (out: Result<(TextKind, String), ChannelError>)
    ensures
        match came {
            Some(message) => out matches Ok(pair) && pair.0 == text_kind(message@) && pair.1@
                == payload(message@),
            None => out == Err::<(TextKind, String), ChannelError>(ChannelError::Disconnected),
        },
{
    match awaited(came) {
        Ok(message) => Ok(unframe(message.as_str())),
        Err(e) => Err(e),
    }
}

impl Endpoints {
    /// The capacity of the outgoing text queue.
    pub fn text_capacity(&self) -> (cap: Option<usize>)
        ensures
            cap == text_limit(self.text_out),
    {
        text_capacity_of(&self.text_out)
    }

    /// The capacity of the outgoing byte queue.
    pub fn bytes_capacity(&self) -> (cap: Option<usize>)
        ensures
            cap == bytes_limit(self.bytes_out),
    {
        bytes_capacity_of(&self.bytes_out)
    }

    /// Queues a text for the other side, marked with its kind. Waits while
    /// the queue is full; fails only when the other side is gone.
    pub fn send(&self, kind: TextKind, text: String) -> (out: Result<(), ChannelError>)
        ensures
            out matches Err(e) ==> e == ChannelError::Disconnected,
    {
        sent(send_blocking(&self.text_out, frame(kind, text.as_str())))
    }

    /// Queues a byte message for the other side. Waits while the queue is
    /// full; fails only when the other side is gone.
    pub fn sendbytes(&self, data: Vec<u8>) -> (out: Result<(), ChannelError>)
        ensures
            out matches Err(e) ==> e == ChannelError::Disconnected,
    {
        sent(send_blocking(&self.bytes_out, data))
    }

    /// The next text message if one is queued, as `received` hands it on:
    /// its kind and its text; returns at once with nothing otherwise. Which
    /// message is next is the other side's doing.
    pub fn read(&self) -> (out: Option<(TextKind, String)>) {
        received(poll(&self.text_in))
    }

    /// The next byte message if one is queued; returns at once with nothing
    /// otherwise.
    pub fn readbytes(&self) -> (out: Option<Vec<u8>>) {
        polled(poll(&self.bytes_in))
    }

    /// Waits for the next text message and hands it on as
    /// `received_after_wait` does; fails when the other side is gone and
    /// nothing is left.
    pub fn read_await(&self) -> (out: Result<(TextKind, String), ChannelError>)
        ensures
            out matches Err(e) ==> e == ChannelError::Disconnected,
    {
        received_after_wait(receive_blocking(&self.text_in))
    }

    /// Waits for the next byte message; fails when the other side is gone and
    /// nothing is left.
    pub fn readbytes_await(&self) -> (out: Result<Vec<u8>, ChannelError>)
        ensures
            out matches Err(e) ==> e == ChannelError::Disconnected,
    {
        awaited(receive_blocking(&self.bytes_in))
    }
}

} // verus!
