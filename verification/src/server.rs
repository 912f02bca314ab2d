use crate::types::read_text;
use crate::types::text_of;
use crate::types::BufferOperations;
use crate::types::Email;
use crate::types::Menu;
use crate::types::MenuView;
use crate::types::NetworkAddress;
use vstd::prelude::*;
use vstd::utf8::encode_utf8;

verus! {

/// How many messages each of the two channels holds before its producer
/// has to wait.
pub const CHANNEL_CAPACITY: usize = 32;

/// What the listener is told after each thing it does.
#[derive(Debug, PartialEq, Eq)]
pub enum ListenerEvent {
    /// A datagram has come in: its bytes and the address it came from.
    Datagram(Vec<u8>, NetworkAddress),
    /// The socket could not receive.
    ReceiveFailed,
    /// The inbound channel has taken the request.
    Forwarded,
    /// The inbound channel has no receiver any more.
    ForwardFailed,
}

/// What the listener does next.
#[derive(Debug, PartialEq, Eq)]
pub enum ListenerAction {
    /// Wait for the next datagram.
    Receive,
    /// Put this request on the inbound channel.
    Forward(Menu),
    /// End the task.
    Stop,
}

/// A listener's event as its bytes.
pub enum ListenerEventView {
    Datagram(Seq<u8>, NetworkAddress),
    ReceiveFailed,
    Forwarded,
    ForwardFailed,
}

/// A listener's action as its characters.
pub enum ListenerActionView {
    Receive,
    Forward(MenuView),
    Stop,
}

impl View for ListenerEvent {
    type V = ListenerEventView;

    open spec fn view(&self) -> ListenerEventView {
        match *self {
            ListenerEvent::Datagram(bytes, from) => ListenerEventView::Datagram(bytes@, from),
            ListenerEvent::ReceiveFailed => ListenerEventView::ReceiveFailed,
            ListenerEvent::Forwarded => ListenerEventView::Forwarded,
            ListenerEvent::ForwardFailed => ListenerEventView::ForwardFailed,
        }
    }
}

impl View for ListenerAction {
    type V = ListenerActionView;

    open spec fn view(&self) -> ListenerActionView {
        match *self {
            ListenerAction::Receive => ListenerActionView::Receive,
            ListenerAction::Forward(op) => ListenerActionView::Forward(op@),
            ListenerAction::Stop => ListenerActionView::Stop,
        }
    }
}

/// The request that a datagram stands for: a lookup of the email that its
/// bytes spell, for the client it came from. Bytes that are not UTF-8 stand
/// for no request.
pub open spec fn request_of(datagram: Seq<u8>, from: NetworkAddress) -> Option<MenuView> {
    match text_of(datagram) {
        Some(email) => Some(MenuView::Get(email, from)),
        None => None,
    }
}

/// What an event calls for at the listener.
///
/// A datagram that stands for a request is forwarded; one that stands for
/// none is dropped, and the listener goes on receiving. A request that the
/// channel took leads back to receiving. A failure of the socket or of the
/// channel ends the task.
pub open spec fn listener_action(event: ListenerEventView) -> ListenerActionView {
    match event {
        ListenerEventView::Datagram(bytes, from) => match request_of(bytes, from) {
            Some(op) => ListenerActionView::Forward(op),
            None => ListenerActionView::Receive,
        },
        ListenerEventView::Forwarded => ListenerActionView::Receive,
        ListenerEventView::ReceiveFailed => ListenerActionView::Stop,
        ListenerEventView::ForwardFailed => ListenerActionView::Stop,
    }
}

/// Takes an event and says what the listener does next.
pub fn listener_step(event: ListenerEvent) -> (action: ListenerAction)
    ensures
        action@ == listener_action(event@),
{
    match event {
        ListenerEvent::Datagram(bytes, from) => match read_text(bytes) {
            Some(text) => ListenerAction::Forward(Menu::Get(Email::from(text), from)),
            None => ListenerAction::Receive,
        },
        ListenerEvent::Forwarded => ListenerAction::Receive,
        ListenerEvent::ReceiveFailed => ListenerAction::Stop,
        ListenerEvent::ForwardFailed => ListenerAction::Stop,
    }
}

/// What the sender is told after each thing it does.
#[derive(Debug, PartialEq, Eq)]
pub enum SenderEvent {
    /// The outbound channel gave a number and the client it is for.
    Message(String, NetworkAddress),
    /// The outbound channel is closed and empty.
    Closed,
    /// The socket wrote this many bytes.
    Written(usize),
    /// The socket could not send.
    WriteFailed,
}

/// What the sender does next.
#[derive(Debug, PartialEq, Eq)]
pub enum SenderAction {
    /// Wait for the next message of the outbound channel.
    Take,
    /// Send these bytes as one datagram to this address.
    Send(Vec<u8>, NetworkAddress),
    /// End the task.
    Stop,
}

/// A sender's event as its characters.
pub enum SenderEventView {
    Message(Seq<char>, NetworkAddress),
    Closed,
    Written(usize),
    WriteFailed,
}

/// A sender's action as its bytes.
pub enum SenderActionView {
    Take,
    Send(Seq<u8>, NetworkAddress),
    Stop,
}

impl View for SenderEvent {
    type V = SenderEventView;

    open spec fn view(&self) -> SenderEventView {
        match *self {
            SenderEvent::Message(number, to) => SenderEventView::Message(number@, to),
            SenderEvent::Closed => SenderEventView::Closed,
            SenderEvent::Written(count) => SenderEventView::Written(count),
            SenderEvent::WriteFailed => SenderEventView::WriteFailed,
        }
    }
}

impl View for SenderAction {
    type V = SenderActionView;

    open spec fn view(&self) -> SenderActionView {
        match *self {
            SenderAction::Take => SenderActionView::Take,
            SenderAction::Send(bytes, to) => SenderActionView::Send(bytes@, to),
            SenderAction::Stop => SenderActionView::Stop,
        }
    }
}

/// What an event calls for at the sender.
///
/// A message is sent as the UTF-8 bytes of its number, to its client. A
/// write of at least one byte leads back to the channel. A write of no
/// bytes, a failure of the socket and the end of the channel end the task.
pub open spec fn sender_action(event: SenderEventView) -> SenderActionView {
    match event {
        SenderEventView::Message(number, to) => SenderActionView::Send(encode_utf8(number), to),
        SenderEventView::Written(count) => if count == 0 {
            SenderActionView::Stop
        } else {
            SenderActionView::Take
        },
        SenderEventView::Closed => SenderActionView::Stop,
        SenderEventView::WriteFailed => SenderActionView::Stop,
    }
}

/// Takes an event and says what the sender does next.
pub fn sender_step(event: SenderEvent) -> (action: SenderAction)
    ensures
        action@ == sender_action(event@),
{
    match event {
        SenderEvent::Message(number, to) => SenderAction::Send(
            BufferOperations::into_bytes(number),
            to,
        ),
        SenderEvent::Written(count) => if count == 0 {
            SenderAction::Stop
        } else {
            SenderAction::Take
        },
        SenderEvent::Closed => SenderAction::Stop,
        SenderEvent::WriteFailed => SenderAction::Stop,
    }
}

} // verus!
