use crate::phonehandler::HandlerActionView;
use crate::phonehandler::HandlerEventView;
use crate::phonehandler::PhoneHandler;
use crate::server::listener_action;
use crate::server::request_of;
use crate::server::sender_action;
use crate::server::ListenerActionView;
use crate::server::ListenerEventView;
use crate::server::SenderActionView;
use crate::server::SenderEventView;
use crate::types::text_of;
use crate::types::EntryView;
use crate::types::MenuView;
use crate::types::NetworkAddress;
use vstd::prelude::*;
use vstd::utf8::encode_utf8;
use vstd::utf8::encode_utf8_decode_utf8;
use vstd::utf8::encode_utf8_valid_utf8;

verus! {

/// What the store answers to a lookup when it holds this directory and
/// does not fail: the number filed under the email, if one is.
pub open spec fn lookup(directory: Map<Seq<char>, Seq<char>>, email: Seq<char>) -> Option<
    Seq<char>,
> {
    if directory.contains_key(email) {
        Some(directory[email])
    } else {
        None
    }
}

/// The directory after the store has been asked what an action says: an
/// insert that it carries out files the number under the email, and nothing
/// else changes the directory.
pub open spec fn directory_after(
    directory: Map<Seq<char>, Seq<char>>,
    action: HandlerActionView,
    stored: bool,
) -> Map<Seq<char>, Seq<char>> {
    match action {
        HandlerActionView::Insert(entry) => if stored {
            directory.insert(entry.email, entry.number)
        } else {
            directory
        },
        _ => directory,
    }
}

/// The cache after a request has gone through the handler: after the
/// request itself and, where it led to an insert, after the store's answer.
pub open spec fn accounts_after_request(
    accounts: Set<Seq<char>>,
    op: MenuView,
    stored: bool,
) -> Set<Seq<char>> {
    let taken_up = PhoneHandler::accounts_after(accounts, HandlerEventView::Request(op));
    match PhoneHandler::action_for(accounts, HandlerEventView::Request(op)) {
        HandlerActionView::Insert(entry) => PhoneHandler::accounts_after(
            taken_up,
            HandlerEventView::Stored(entry, stored),
        ),
        _ => taken_up,
    }
}

/// The messages that the handler puts on the outbound channel for one
/// request, where `found` is what the store answers if the request leads to
/// a lookup.
pub open spec fn replies(accounts: Set<Seq<char>>, op: MenuView, found: Option<Seq<char>>) -> Seq<
    (Seq<char>, NetworkAddress),
> {
    match PhoneHandler::action_for(accounts, HandlerEventView::Request(op)) {
        HandlerActionView::Lookup(_, reply_to) => match PhoneHandler::action_for(
            accounts,
            HandlerEventView::Found(found, reply_to),
        ) {
            HandlerActionView::Reply(number, to) => seq![(number, to)],
            _ => Seq::empty(),
        },
        _ => Seq::empty(),
    }
}

/// The datagram that the sender makes of a reply.
pub open spec fn sent(reply: (Seq<char>, NetworkAddress)) -> Seq<(Seq<u8>, NetworkAddress)> {
    match sender_action(SenderEventView::Message(reply.0, reply.1)) {
        SenderActionView::Send(bytes, to) => seq![(bytes, to)],
        _ => Seq::empty(),
    }
}

/// The datagrams that go out for one datagram that came in, each with the
/// address it goes to: the request that the listener forwards, the handler's
/// replies to it, and what the sender makes of them. `found` is what the
/// store answers if it is asked.
pub open spec fn responses(
    accounts: Set<Seq<char>>,
    datagram: Seq<u8>,
    from: NetworkAddress,
    found: Option<Seq<char>>,
) -> Seq<(Seq<u8>, NetworkAddress)> {
    match listener_action(ListenerEventView::Datagram(datagram, from)) {
        ListenerActionView::Forward(op) => replies(accounts, op, found).flat_map(
            |reply: (Seq<char>, NetworkAddress)| sent(reply),
        ),
        _ => Seq::empty(),
    }
}

/// What the sender makes of at most one reply is at most one datagram: the
/// one for that reply, or none.
proof fn lemma_responses_unfold(accounts: Set<Seq<char>>, op: MenuView, found: Option<Seq<char>>)
    ensures
        replies(accounts, op, found).len() <= 1,
        replies(accounts, op, found).flat_map(|reply: (Seq<char>, NetworkAddress)| sent(reply))
            == if replies(accounts, op, found).len() == 1 {
            sent(replies(accounts, op, found)[0])
        } else {
            Seq::empty()
        },
{
    let out = replies(accounts, op, found);
    let each = out.map_values(|reply: (Seq<char>, NetworkAddress)| sent(reply));
    if out.len() == 1 {
        each.lemma_flatten_one_element();
    } else {
        assert(each.flatten() == Seq::<(Seq<u8>, NetworkAddress)>::empty());
    }
}

/// A lookup that the store answers with a number is answered by exactly one
/// datagram: it goes to the client that asked, its bytes spell the number,
/// and they read back as the number. So it is with every email that the
/// directory holds, as long as the store does not fail.
pub proof fn round_trip(
    directory: Map<Seq<char>, Seq<char>>,
    accounts: Set<Seq<char>>,
    email: Seq<char>,
    number: Seq<char>,
    client: NetworkAddress,
)
    ensures
        responses(accounts, encode_utf8(email), client, Some(number)) == seq![
            (encode_utf8(number), client),
        ],
        text_of(encode_utf8(number)) == Some(number),
        directory.contains_key(email) ==> responses(
            accounts,
            encode_utf8(email),
            client,
            lookup(directory, email),
        ) == seq![(encode_utf8(directory[email]), client)],
{
    encode_utf8_valid_utf8(email);
    encode_utf8_decode_utf8(email);
    encode_utf8_valid_utf8(number);
    encode_utf8_decode_utf8(number);
    lemma_responses_unfold(accounts, MenuView::Get(email, client), Some(number));
    if directory.contains_key(email) {
        lemma_responses_unfold(accounts, MenuView::Get(email, client), lookup(directory, email));
    }
}

/// A lookup that the store answers with nothing is answered by silence,
/// whatever the datagram was. So it is with every email that the directory
/// does not hold.
pub proof fn miss_is_silent(
    directory: Map<Seq<char>, Seq<char>>,
    accounts: Set<Seq<char>>,
    datagram: Seq<u8>,
    client: NetworkAddress,
)
    ensures
        responses(accounts, datagram, client, None) == Seq::<(Seq<u8>, NetworkAddress)>::empty(),
        text_of(datagram) matches Some(email) ==> (!directory.contains_key(email) ==> responses(
            accounts,
            datagram,
            client,
            lookup(directory, email),
        ) == Seq::<(Seq<u8>, NetworkAddress)>::empty()),
{
    if let Some(email) = text_of(datagram) {
        lemma_responses_unfold(accounts, MenuView::Get(email, client), None);
    }
}

/// A datagram that spells no email is answered by silence, whatever the
/// store would say.
pub proof fn garbled_is_silent(
    accounts: Set<Seq<char>>,
    datagram: Seq<u8>,
    client: NetworkAddress,
    found: Option<Seq<char>>,
)
    requires
        text_of(datagram) is None,
    ensures
        responses(accounts, datagram, client, found) == Seq::<(Seq<u8>, NetworkAddress)>::empty(),
{
}

/// No request is answered more than once, and an add is not answered at
/// all.
pub proof fn at_most_one_reply(accounts: Set<Seq<char>>, op: MenuView, found: Option<Seq<char>>)
    ensures
        replies(accounts, op, found).len() <= 1,
        op is Add ==> replies(accounts, op, found).len() == 0,
{
}

/// No datagram is answered more than once.
pub proof fn at_most_one_response(
    accounts: Set<Seq<char>>,
    datagram: Seq<u8>,
    client: NetworkAddress,
    found: Option<Seq<char>>,
)
    ensures
        responses(accounts, datagram, client, found).len() <= 1,
{
    if let Some(email) = text_of(datagram) {
        lemma_responses_unfold(accounts, MenuView::Get(email, client), found);
    }
}

/// The handler has one request in hand at a time: it turns to the inbound
/// channel exactly when the request in hand is done with, which is after an
/// add that it turned down, after a lookup that found nothing, after the
/// store's answer to an insert, and after the outbound channel took the
/// reply or failed to.
pub proof fn handler_takes_one_at_a_time(accounts: Set<Seq<char>>, event: HandlerEventView)
    ensures
        PhoneHandler::action_for(accounts, event) is Take <==> {
            ||| event matches HandlerEventView::Request(MenuView::Add(entry, _))
                && accounts.contains(entry.email)
            ||| event matches HandlerEventView::Found(None, _)
            ||| event is Stored
            ||| event is Replied
            ||| event is ReplyFailed
        },
{
}

/// The listener sheds no load: every datagram that stands for a request is
/// forwarded, and the listener turns to the socket again exactly when it has
/// nothing in hand, which is after the inbound channel took a request and
/// after a datagram that stood for none.
pub proof fn listener_sheds_nothing(event: ListenerEventView)
    ensures
        event matches ListenerEventView::Datagram(bytes, from) ==> (request_of(bytes, from)
            matches Some(op) ==> listener_action(event) == ListenerActionView::Forward(op)),
        listener_action(event) is Receive <==> {
            ||| event is Forwarded
            ||| event matches ListenerEventView::Datagram(bytes, from)
                && request_of(bytes, from) is None
        },
{
}

/// An add of an email that the cache holds asks nothing of the store, and
/// leaves the cache and the directory as they were.
pub proof fn duplicate_add_is_rejected(
    directory: Map<Seq<char>, Seq<char>>,
    accounts: Set<Seq<char>>,
    entry: EntryView,
    client: NetworkAddress,
    stored: bool,
)
    requires
        accounts.contains(entry.email),
    ensures
        ({
            let request = HandlerEventView::Request(MenuView::Add(entry, client));
            &&& PhoneHandler::action_for(accounts, request) == HandlerActionView::Take
            &&& PhoneHandler::accounts_after(accounts, request) == accounts
            &&& accounts_after_request(accounts, MenuView::Add(entry, client), stored) == accounts
            &&& directory_after(directory, PhoneHandler::action_for(accounts, request), stored)
                == directory
        }),
{
}

/// An insert that the store does not carry out leaves the cache as it was
/// before the request, so the email is not in it.
pub proof fn failed_insert_restores_cache(
    accounts: Set<Seq<char>>,
    entry: EntryView,
    client: NetworkAddress,
)
    ensures
        ({
            let request = HandlerEventView::Request(MenuView::Add(entry, client));
            let taken_up = PhoneHandler::accounts_after(accounts, request);
            PhoneHandler::action_for(accounts, request) matches HandlerActionView::Insert(written)
                ==> {
                let settled = PhoneHandler::accounts_after(
                    taken_up,
                    HandlerEventView::Stored(written, false),
                );
                &&& written == entry
                &&& taken_up.contains(entry.email)
                &&& settled == accounts
                &&& !settled.contains(entry.email)
            }
        }),
        accounts_after_request(accounts, MenuView::Add(entry, client), false) == accounts,
{
    if !accounts.contains(entry.email) {
        assert(accounts.insert(entry.email).remove(entry.email) =~= accounts);
    }
}

/// A cache that holds exactly the emails of the directory still does so
/// after any request, whether the store carried the insert out or not.
pub proof fn cache_follows_directory(
    directory: Map<Seq<char>, Seq<char>>,
    accounts: Set<Seq<char>>,
    op: MenuView,
    stored: bool,
)
    requires
        accounts == directory.dom(),
    ensures
        accounts_after_request(accounts, op, stored) == directory_after(
            directory,
            PhoneHandler::action_for(accounts, HandlerEventView::Request(op)),
            stored,
        ).dom(),
{
    match op {
        MenuView::Add(entry, _) => {
            if !accounts.contains(entry.email) {
                if stored {
                    assert(accounts.insert(entry.email) =~= directory.insert(
                        entry.email,
                        entry.number,
                    ).dom());
                } else {
                    assert(accounts.insert(entry.email).remove(entry.email) =~= accounts);
                }
            }
        },
        MenuView::Get(_, _) => {},
    }
}

} // verus!
