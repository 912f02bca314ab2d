use std::convert::Infallible;
use std::ops::Deref;
use std::ops::DerefMut;
use std::str::FromStr;
use vstd::hash_set::StringHashSet;
use vstd::prelude::*;
use vstd::slice::slice_subrange;
use vstd::slice::slice_to_vec;
use vstd::std_specs::cmp::PartialEqSpecImpl;
use vstd::std_specs::convert::FromSpecImpl;
use vstd::utf8::decode_utf8;
use vstd::utf8::encode_utf8;
use vstd::utf8::encode_utf8_decode_utf8;
use vstd::utf8::valid_utf8;

verus! {

/// An email address, the key of the directory.
///
/// Two addresses are the same when their characters are: nothing is
/// normalised, and upper and lower case differ.
#[derive(Debug, Eq, PartialOrd, Ord, Hash)]
pub struct Email {
    pub email: String,
}

impl View for Email {
    type V = Seq<char>;

    open spec fn view(&self) -> Seq<char> {
        self.email@
    }
}

impl Clone for Email {
    fn clone(&self) -> (copy: Self)
        ensures
            copy == *self,
    {
        Email { email: self.email.clone() }
    }
}

impl PartialEq for Email {
    fn eq(&self, other: &Self) -> (same: bool) {
        self.email == other.email
    }
}

impl PartialEqSpecImpl for Email {
    open spec fn obeys_eq_spec() -> bool {
        true
    }

    open spec fn eq_spec(&self, other: &Self) -> bool {
        self.email@ == other.email@
    }
}

impl From<String> for Email {
    fn from(email: String) -> (made: Self) {
        Email { email }
    }
}

impl FromSpecImpl<String> for Email {
    open spec fn obeys_from_spec() -> bool {
        true
    }

    open spec fn from_spec(email: String) -> Self {
        Email { email }
    }
}

impl FromStr for Email {
    type Err = Infallible;

    fn from_str(text: &str) -> (parsed: Result<Self, Infallible>)
        ensures
            parsed is Ok,
            parsed->Ok_0@ == text@,
    {
        Ok(Email { email: text.to_string() })
    }
}

impl Deref for Email {
    type Target = String;

    fn deref(&self) -> (text: &String)
        ensures
            *text == self.email,
    {
        &self.email
    }
}

impl DerefMut for Email {
    fn deref_mut(&mut self) -> (text: &mut String)
        ensures
            *text == old(self).email,
            final(self).email == *final(text),
    {
        &mut self.email
    }
}

/// A row of the directory as the store keeps it.
#[derive(Debug, PartialEq, Eq)]
pub struct Contact {
    pub id: i32,
    pub email: Email,
    pub number: String,
}

/// What an add request carries: an address and the number to file under it.
#[derive(Debug, PartialEq, Eq)]
pub struct Entry {
    pub email: Email,
    pub number: String,
}

/// An entry as its characters.
pub struct EntryView {
    pub email: Seq<char>,
    pub number: Seq<char>,
}

impl View for Entry {
    type V = EntryView;

    open spec fn view(&self) -> EntryView {
        EntryView { email: self.email@, number: self.number@ }
    }
}

/// Where a datagram came from and where its answer goes: an IP address and
/// a port, and for version 6 the flow information and the scope.
#[allow(inconsistent_fields)]
#[derive(Clone, Copy, Debug, PartialEq, Eq, Structural)]
pub enum NetworkAddress {
    V4 { ip: u32, port: u16 },
    V6 { ip: u128, port: u16, flowinfo: u32, scope_id: u32 },
}

/// A request to the directory, with the address of the client that sent it.
#[derive(Debug, PartialEq, Eq)]
pub enum Menu {
    Add(Entry, NetworkAddress),
    Get(Email, NetworkAddress),
}

/// A request as its characters.
pub enum MenuView {
    Add(EntryView, NetworkAddress),
    Get(Seq<char>, NetworkAddress),
}

impl View for Menu {
    type V = MenuView;

    open spec fn view(&self) -> MenuView {
        match *self {
            Menu::Add(entry, reply_to) => MenuView::Add(entry@, reply_to),
            Menu::Get(email, reply_to) => MenuView::Get(email@, reply_to),
        }
    }
}

/// The addresses that occur in a sequence of emails.
pub open spec fn address_set(emails: Seq<Email>) -> Set<Seq<char>> {
    emails.map_values(|email: Email| email@).to_set()
}

/// The set of emails known to be in the directory.
pub struct EmailList {
    emails: StringHashSet,
}

impl View for EmailList {
    type V = Set<Seq<char>>;

    closed spec fn view(&self) -> Set<Seq<char>> {
        self.emails@
    }
}

impl EmailList {
    /// The empty list.
    pub fn new() -> (list: Self)
        ensures
            list@ == Set::<Seq<char>>::empty(),
    {
        EmailList { emails: StringHashSet::new() }
    }

    /// The list of the addresses among `emails`; one that occurs twice is
    /// kept once.
    pub fn from_iter(emails: Vec<Email>) -> (list: Self)
        ensures
            list@ == address_set(emails@),
    {
        let mut list = EmailList::new();
        let mut i: usize = 0;
        while i < emails.len()
            invariant
                i <= emails.len(),
                list@ == address_set(emails@.take(i as int)),
            decreases emails.len() - i,
        {
            proof {
                let view_of = |email: Email| email@;
                emails@.lemma_map_take_succ(view_of, i as int);
                let seen = emails@.take(i as int).map_values(view_of);
                seen.lemma_push_to_set_commute(emails@[i as int]@);
            }
            list.insert(emails[i].clone());
            i += 1;
        }
        assert(emails@.take(i as int) == emails@);
        list
    }

    /// Whether the address is in the list.
    pub fn contains(&self, email: &Email) -> (found: bool)
        ensures
            found == self@.contains(email@),
    {
        self.emails.contains(email.email.as_str())
    }

    /// Puts the address in the list, and says whether it was new.
    pub fn insert(&mut self, email: Email) -> (fresh: bool)
        ensures
            final(self)@ == old(self)@.insert(email@),
            fresh == !old(self)@.contains(email@),
    {
        self.emails.insert(email.email)
    }

    /// Takes the address out of the list, and says whether it was there.
    pub fn remove(&mut self, email: &Email) -> (present: bool)
        ensures
            final(self)@ == old(self)@.remove(email@),
            present == old(self)@.contains(email@),
    {
        self.emails.remove(email.email.as_str())
    }

    /// How many addresses the list holds.
    pub fn len(&self) -> (count: usize)
        ensures
            count == self@.len(),
    {
        self.emails.len()
    }

    /// Whether the list holds no address.
    pub fn is_empty(&self) -> (empty: bool)
        ensures
            empty == (self@ == Set::<Seq<char>>::empty()),
    {
        self.emails.is_empty()
    }
}

/// The text that a run of bytes stands for, if it is UTF-8.
pub open spec fn text_of(bytes: Seq<u8>) -> Option<Seq<char>> {
    if valid_utf8(bytes) {
        Some(decode_utf8(bytes))
    } else {
        None
    }
}

/// The error of `String::from_utf8` of std. Nothing is said of what it
/// holds.
#[verifier::external_type_specification]
#[verifier::external_body]
pub struct ExFromUtf8Error(std::string::FromUtf8Error);

/// `String::from_utf8` of std: it succeeds exactly on well-formed UTF-8, and
/// the string it then gives is made of the bytes it was handed.
pub assume_specification[ String::from_utf8 ](bytes: Vec<u8>) -> (text: Result<
    String,
    std::string::FromUtf8Error,
>)
    ensures
        text is Ok <==> valid_utf8(bytes@),
        text matches Ok(string) ==> encode_utf8(string@) == bytes@,
;

/// Reads bytes as text.
///
/// The text comes back exactly when the bytes are UTF-8.
pub fn read_text(bytes: Vec<u8>) -> (text: Option<String>)
    ensures
        text.deep_view() == text_of(bytes@),
{
    match String::from_utf8(bytes) {
        Ok(string) => {
            proof {
                encode_utf8_decode_utf8(string@);
            }
            Some(string)
        },
        Err(_) => None,
    }
}

/// Text to and from the bytes of a datagram.
pub trait BufferOperations: Sized {
    /// The bytes that a value travels as.
    spec fn encoding(&self) -> Seq<u8>;

    /// The text in the first `len` bytes of a receive buffer, which must be
    /// UTF-8.
    fn from_n_bytes(bytes: [u8; 1024], len: usize) -> (text: String)
        requires
            len <= 1024,
            valid_utf8(bytes@.subrange(0, len as int)),
        ensures
            text@ == decode_utf8(bytes@.subrange(0, len as int)),
    ;

    /// The bytes of a value, ready to send.
    fn into_bytes(value: Self) -> (bytes: Vec<u8>)
        ensures
            bytes@ == value.encoding(),
    ;
}

impl BufferOperations for String {
    open spec fn encoding(&self) -> Seq<u8> {
        encode_utf8(self@)
    }

    fn from_n_bytes(bytes: [u8; 1024], len: usize) -> (text: String) {
        let payload = slice_to_vec(slice_subrange(bytes.as_slice(), 0, len));
        read_text(payload).unwrap()
    }

    fn into_bytes(value: Self) -> (bytes: Vec<u8>) {
        value.as_str().as_bytes_vec()
    }
}

} // verus!
