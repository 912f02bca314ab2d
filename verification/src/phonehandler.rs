use crate::types::Email;
use crate::types::EmailList;
use crate::types::Entry;
use crate::types::EntryView;
use crate::types::Menu;
use crate::types::MenuView;
use crate::types::NetworkAddress;
use vstd::prelude::*;

verus! {

/// The one owner of the admission cache, and the one task that talks to the
/// directory store.
///
/// The handler does not reach the store or the channels itself. After each
/// thing that its task has done it is told what came of it, and says what
/// to do next.
pub struct PhoneHandler {
    /// The emails known to be in the directory.
    pub accounts: EmailList,
}

/// What the handler is told after each thing its task has done.
#[derive(Debug, PartialEq, Eq)]
pub enum HandlerEvent {
    /// The inbound channel gave a request.
    Request(Menu),
    /// The inbound channel is closed and empty.
    Closed,
    /// The store has answered a lookup, with the number if it found one;
    /// the address is that of the client who asked.
    Found(Option<String>, NetworkAddress),
    /// The store has answered the insert of this entry, with a value if it
    /// wrote the entry.
    Stored(Entry, Option<()>),
    /// The outbound channel has taken the reply.
    Replied,
    /// The outbound channel has no receiver any more.
    ReplyFailed,
}

/// What the handler's task does next.
#[derive(Debug, PartialEq, Eq)]
pub enum HandlerAction {
    /// Wait for the next request of the inbound channel.
    Take,
    /// Ask the store for the number of this email, on behalf of the client
    /// at this address.
    Lookup(Email, NetworkAddress),
    /// Ask the store to write this entry.
    Insert(Entry),
    /// Put this number on the outbound channel, for the client at this
    /// address.
    Reply(String, NetworkAddress),
    /// End the task.
    Stop,
}

/// An event as its characters.
pub enum HandlerEventView {
    Request(MenuView),
    Closed,
    Found(Option<Seq<char>>, NetworkAddress),
    Stored(EntryView, bool),
    Replied,
    ReplyFailed,
}

/// An action as its characters.
pub enum HandlerActionView {
    Take,
    Lookup(Seq<char>, NetworkAddress),
    Insert(EntryView),
    Reply(Seq<char>, NetworkAddress),
    Stop,
}

impl View for HandlerEvent {
    type V = HandlerEventView;

    open spec fn view(&self) -> HandlerEventView {
        match *self {
            HandlerEvent::Request(op) => HandlerEventView::Request(op@),
            HandlerEvent::Closed => HandlerEventView::Closed,
            HandlerEvent::Found(number, reply_to) => HandlerEventView::Found(
                number.deep_view(),
                reply_to,
            ),
            HandlerEvent::Stored(entry, stored) => HandlerEventView::Stored(entry@, stored is Some),
            HandlerEvent::Replied => HandlerEventView::Replied,
            HandlerEvent::ReplyFailed => HandlerEventView::ReplyFailed,
        }
    }
}

impl View for HandlerAction {
    type V = HandlerActionView;

    open spec fn view(&self) -> HandlerActionView {
        match *self {
            HandlerAction::Take => HandlerActionView::Take,
            HandlerAction::Lookup(email, reply_to) => HandlerActionView::Lookup(email@, reply_to),
            HandlerAction::Insert(entry) => HandlerActionView::Insert(entry@),
            HandlerAction::Reply(number, reply_to) => HandlerActionView::Reply(number@, reply_to),
            HandlerAction::Stop => HandlerActionView::Stop,
        }
    }
}

impl PhoneHandler {
    /// What an event calls for, given the cache.
    ///
    /// A get is looked up in the store. An add of an email that the cache
    /// does not hold is written to the store; an add of one that it holds is
    /// turned down, and the next request is taken. A number that the store
    /// found goes back to the client who asked; when it found none, nothing
    /// goes back. Once the store has answered an insert, or the outbound
    /// channel has taken a reply or failed to, the next request is taken. The
    /// end of the inbound channel ends the task.
    pub open spec fn action_for(
        accounts: Set<Seq<char>>,
        event: HandlerEventView,
    ) -> HandlerActionView {
        match event {
            HandlerEventView::Request(MenuView::Get(email, reply_to)) => HandlerActionView::Lookup(
                email,
                reply_to,
            ),
            HandlerEventView::Request(MenuView::Add(entry, _)) => if accounts.contains(
                entry.email,
            ) {
                HandlerActionView::Take
            } else {
                HandlerActionView::Insert(entry)
            },
            HandlerEventView::Closed => HandlerActionView::Stop,
            HandlerEventView::Found(Some(number), reply_to) => HandlerActionView::Reply(
                number,
                reply_to,
            ),
            HandlerEventView::Found(None, _) => HandlerActionView::Take,
            HandlerEventView::Stored(_, _) => HandlerActionView::Take,
            HandlerEventView::Replied => HandlerActionView::Take,
            HandlerEventView::ReplyFailed => HandlerActionView::Take,
        }
    }

    /// The cache after an event.
    ///
    /// An add of an email that the cache does not hold puts it in, ahead of
    /// the store's answer. An insert that the store did not carry out takes
    /// the email out again. Nothing else changes the cache.
    pub open spec fn accounts_after(accounts: Set<Seq<char>>, event: HandlerEventView) -> Set<
        Seq<char>,
    > {
        match event {
            HandlerEventView::Request(MenuView::Add(entry, _)) => if accounts.contains(
                entry.email,
            ) {
                accounts
            } else {
                accounts.insert(entry.email)
            },
            HandlerEventView::Stored(entry, false) => accounts.remove(entry.email),
            _ => accounts,
        }
    }

    /// A handler over the emails that the store listed, if it listed any.
    pub fn new(accounts: Option<EmailList>) -> (handler: Option<PhoneHandler>)
        ensures
            handler == match accounts {
                Some(list) => Some(PhoneHandler { accounts: list }),
                None => None,
            },
    {
        match accounts {
            Some(list) => Some(PhoneHandler { accounts: list }),
            None => None,
        }
    }

    /// Takes a request up: says what the store is to be asked for it, or
    /// that the next request is to be taken.
    pub fn handle_operation(&mut self, op: Menu) -> (action: HandlerAction)
        ensures
            action@ == Self::action_for(old(self).accounts@, HandlerEventView::Request(op@)),
            final(self).accounts@ == Self::accounts_after(
                old(self).accounts@,
                HandlerEventView::Request(op@),
            ),
    {
        match op {
            Menu::Get(email, reply_to) => HandlerAction::Lookup(email, reply_to),
            Menu::Add(entry, _) => {
                // Inserting in the store is fairly expensive, so it is tried only if the
                // email is not in the list.
                if self.accounts.contains(&entry.email) {
                    HandlerAction::Take
                } else {
                    self.accounts.insert(entry.email.clone());
                    HandlerAction::Insert(entry)
                }
            },
        }
    }

    /// Takes an event and says what the task does next.
    pub fn step(&mut self, event: HandlerEvent) -> (action: HandlerAction)
        ensures
            action@ == Self::action_for(old(self).accounts@, event@),
            final(self).accounts@ == Self::accounts_after(old(self).accounts@, event@),
    {
        match event {
            HandlerEvent::Request(op) => self.handle_operation(op),
            HandlerEvent::Closed => HandlerAction::Stop,
            HandlerEvent::Found(Some(number), reply_to) => HandlerAction::Reply(number, reply_to),
            HandlerEvent::Found(None, _) => HandlerAction::Take,
            HandlerEvent::Stored(entry, stored) => {
                if stored.is_none() {
                    self.accounts.remove(&entry.email);
                }
                HandlerAction::Take
            },
            HandlerEvent::Replied => HandlerAction::Take,
            HandlerEvent::ReplyFailed => HandlerAction::Take,
        }
    }
}

} // verus!
