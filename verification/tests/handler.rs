use phonebook::phonehandler::HandlerAction;
use phonebook::phonehandler::HandlerEvent;
use phonebook::phonehandler::PhoneHandler;
use phonebook::types::Email;
use phonebook::types::EmailList;
use phonebook::types::Entry;
use phonebook::types::Menu;
use phonebook::types::NetworkAddress;

const CLIENT: NetworkAddress = NetworkAddress::V4 { ip: 0x7f00_0001, port: 40000 };
const OTHER: NetworkAddress = NetworkAddress::V4 { ip: 0x0a00_0002, port: 50123 };

fn address(text: &str) -> Email {
    Email::from(String::from(text))
}

fn peter() -> Entry {
    Entry { email: address("peter@domain.com"), number: String::from("456-789-0123") }
}

/// A handler over the five accounts of the store.
fn handler() -> PhoneHandler {
    let accounts = EmailList::from_iter(vec![
        address("alice@domain.com"),
        address("bob@domain.com"),
        address("charlie@domain.com"),
        address("david@domain.com"),
        address("eve@domain.com"),
    ]);
    PhoneHandler::new(Some(accounts)).unwrap()
}

#[test]
fn new_keeps_the_listed_accounts() {
    let handler = handler();
    assert_eq!(handler.accounts.len(), 5);
    assert!(handler.accounts.contains(&address("charlie@domain.com")));
}

#[test]
fn new_without_a_listing_gives_no_handler() {
    assert!(PhoneHandler::new(None).is_none());
}

#[test]
fn new_over_an_empty_listing_gives_a_handler() {
    let handler = PhoneHandler::new(Some(EmailList::new())).unwrap();
    assert!(handler.accounts.is_empty());
}

#[test]
fn get_is_looked_up_for_the_client() {
    let mut handler = handler();
    let action = handler.handle_operation(Menu::Get(address("bob@domain.com"), CLIENT));
    assert_eq!(action, HandlerAction::Lookup(address("bob@domain.com"), CLIENT));
    assert_eq!(handler.accounts.len(), 5);
}

#[test]
fn get_of_an_unknown_email_is_looked_up_too() {
    let mut handler = handler();
    let action = handler.handle_operation(Menu::Get(address("nobody@domain.com"), OTHER));
    assert_eq!(action, HandlerAction::Lookup(address("nobody@domain.com"), OTHER));
    assert!(!handler.accounts.contains(&address("nobody@domain.com")));
}

#[test]
fn add_of_a_new_email_enters_the_cache_and_goes_to_the_store() {
    let mut handler = handler();
    let action = handler.handle_operation(Menu::Add(peter(), CLIENT));
    assert_eq!(action, HandlerAction::Insert(peter()));
    assert!(handler.accounts.contains(&address("peter@domain.com")));
    assert_eq!(handler.accounts.len(), 6);
}

#[test]
fn add_of_a_known_email_is_turned_down() {
    let mut handler = handler();
    let entry = Entry { email: address("bob@domain.com"), number: String::from("000-000-0000") };
    let action = handler.handle_operation(Menu::Add(entry, CLIENT));
    assert_eq!(action, HandlerAction::Take);
    assert_eq!(handler.accounts.len(), 5);
    assert!(handler.accounts.contains(&address("bob@domain.com")));
}

#[test]
fn add_is_turned_down_the_second_time() {
    let mut handler = handler();
    let first = handler.step(HandlerEvent::Request(Menu::Add(peter(), CLIENT)));
    assert_eq!(first, HandlerAction::Insert(peter()));
    assert_eq!(handler.step(HandlerEvent::Stored(peter(), Some(()))), HandlerAction::Take);
    assert_eq!(handler.step(HandlerEvent::Request(Menu::Add(peter(), OTHER))), HandlerAction::Take);
    assert_eq!(handler.accounts.len(), 6);
}

#[test]
fn add_with_another_case_is_another_email() {
    let mut handler = handler();
    let entry = Entry { email: address("Bob@domain.com"), number: String::from("000-000-0000") };
    let action = handler.handle_operation(Menu::Add(entry, CLIENT));
    assert!(matches!(action, HandlerAction::Insert(_)));
    assert_eq!(handler.accounts.len(), 6);
}

#[test]
fn step_on_a_request_is_handle_operation() {
    let mut handler = handler();
    assert_eq!(
        handler.step(HandlerEvent::Request(Menu::Get(address("eve@domain.com"), OTHER))),
        HandlerAction::Lookup(address("eve@domain.com"), OTHER)
    );
}

#[test]
fn number_found_is_replied_to_the_client() {
    let mut handler = handler();
    let action = handler.step(HandlerEvent::Found(Some(String::from("345-678-9012")), OTHER));
    assert_eq!(action, HandlerAction::Reply(String::from("345-678-9012"), OTHER));
    assert_eq!(handler.accounts.len(), 5);
}

#[test]
fn number_not_found_is_not_replied() {
    let mut handler = handler();
    assert_eq!(handler.step(HandlerEvent::Found(None, CLIENT)), HandlerAction::Take);
    assert_eq!(handler.accounts.len(), 5);
}

#[test]
fn insert_that_the_store_wrote_stays_in_the_cache() {
    let mut handler = handler();
    handler.step(HandlerEvent::Request(Menu::Add(peter(), CLIENT)));
    assert_eq!(handler.step(HandlerEvent::Stored(peter(), Some(()))), HandlerAction::Take);
    assert!(handler.accounts.contains(&address("peter@domain.com")));
    assert_eq!(handler.accounts.len(), 6);
}

#[test]
fn insert_that_the_store_refused_leaves_the_cache() {
    let mut handler = handler();
    handler.step(HandlerEvent::Request(Menu::Add(peter(), CLIENT)));
    assert!(handler.accounts.contains(&address("peter@domain.com")));
    assert_eq!(handler.step(HandlerEvent::Stored(peter(), None)), HandlerAction::Take);
    assert!(!handler.accounts.contains(&address("peter@domain.com")));
    assert_eq!(handler.accounts.len(), 5);
    assert!(handler.accounts.contains(&address("alice@domain.com")));
}

#[test]
fn refused_insert_can_be_tried_again() {
    let mut handler = handler();
    handler.step(HandlerEvent::Request(Menu::Add(peter(), CLIENT)));
    handler.step(HandlerEvent::Stored(peter(), None));
    let again = handler.step(HandlerEvent::Request(Menu::Add(peter(), CLIENT)));
    assert_eq!(again, HandlerAction::Insert(peter()));
}

#[test]
fn reply_taken_or_dropped_leads_to_the_next_request() {
    let mut handler = handler();
    assert_eq!(handler.step(HandlerEvent::Replied), HandlerAction::Take);
    assert_eq!(handler.step(HandlerEvent::ReplyFailed), HandlerAction::Take);
    assert_eq!(handler.accounts.len(), 5);
}

#[test]
fn closed_channel_ends_the_task() {
    let mut handler = handler();
    assert_eq!(handler.step(HandlerEvent::Closed), HandlerAction::Stop);
    assert_eq!(handler.accounts.len(), 5);
}
