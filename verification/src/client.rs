use vstd::prelude::*;

verus! {

/// The emails that the test client asks for, in the order of its first
/// run.
pub open spec fn test_emails() -> Seq<Seq<char>> {
    seq![
        "alice@domain.com"@,
        "bob@domain.com"@,
        "charlie@domain.com"@,
        "david@domain.com"@,
        "eve@domain.com"@,
        "frank@domain.com"@,
        "grace@domain.com"@,
        "heidi@domain.com"@,
        "ivan@domain.com"@,
        "judy@domain.com"@,
        "karl@domain.com"@,
        "laura@domain.com"@,
        "mallory@domain.com"@,
        "nathan@domain.com"@,
        "olivia@domain.com"@,
        "peggy@domain.com"@,
        "quinn@domain.com"@,
        "rachel@domain.com"@,
        "steve@domain.com"@,
        "trudy@domain.com"@,
        "ursula@domain.com"@,
        "victor@domain.com"@,
        "wendy@domain.com"@,
        "xander@domain.com"@,
        "yvonne@domain.com"@,
        "zach@domain.com"@,
        "amy@domain.com"@,
        "brian@domain.com"@,
        "carol@domain.com"@,
        "dan@domain.com"@,
        "ellen@domain.com"@,
        "fred@domain.com"@,
        "gina@domain.com"@,
        "harry@domain.com"@,
        "irene@domain.com"@,
        "jack@domain.com"@,
        "karen@domain.com"@,
        "leo@domain.com"@,
        "mona@domain.com"@,
        "nick@domain.com"@,
        "olga@domain.com"@,
        "paul@domain.com"@,
        "quincy@domain.com"@,
        "rita@domain.com"@,
        "sam@domain.com"@,
        "tina@domain.com"@,
        "uma@domain.com"@,
        "vince@domain.com"@,
        "wanda@domain.com"@,
    ]
}

/// The emails that the test client asks for.
pub fn get_emails_vec() -> (emails: Vec<String>)
    ensures
        emails.deep_view() == test_emails(),
{
    let emails = vec![
        "alice@domain.com".to_string(),
        "bob@domain.com".to_string(),
        "charlie@domain.com".to_string(),
        "david@domain.com".to_string(),
        "eve@domain.com".to_string(),
        "frank@domain.com".to_string(),
        "grace@domain.com".to_string(),
        "heidi@domain.com".to_string(),
        "ivan@domain.com".to_string(),
        "judy@domain.com".to_string(),
        "karl@domain.com".to_string(),
        "laura@domain.com".to_string(),
        "mallory@domain.com".to_string(),
        "nathan@domain.com".to_string(),
        "olivia@domain.com".to_string(),
        "peggy@domain.com".to_string(),
        "quinn@domain.com".to_string(),
        "rachel@domain.com".to_string(),
        "steve@domain.com".to_string(),
        "trudy@domain.com".to_string(),
        "ursula@domain.com".to_string(),
        "victor@domain.com".to_string(),
        "wendy@domain.com".to_string(),
        "xander@domain.com".to_string(),
        "yvonne@domain.com".to_string(),
        "zach@domain.com".to_string(),
        "amy@domain.com".to_string(),
        "brian@domain.com".to_string(),
        "carol@domain.com".to_string(),
        "dan@domain.com".to_string(),
        "ellen@domain.com".to_string(),
        "fred@domain.com".to_string(),
        "gina@domain.com".to_string(),
        "harry@domain.com".to_string(),
        "irene@domain.com".to_string(),
        "jack@domain.com".to_string(),
        "karen@domain.com".to_string(),
        "leo@domain.com".to_string(),
        "mona@domain.com".to_string(),
        "nick@domain.com".to_string(),
        "olga@domain.com".to_string(),
        "paul@domain.com".to_string(),
        "quincy@domain.com".to_string(),
        "rita@domain.com".to_string(),
        "sam@domain.com".to_string(),
        "tina@domain.com".to_string(),
        "uma@domain.com".to_string(),
        "vince@domain.com".to_string(),
        "wanda@domain.com".to_string(),
    ];
    assert(emails.deep_view() =~= test_emails());
    emails
}

/// The same emails from the last to the first: the order of the second of
/// two clients, so that the two do not ask in step.
pub fn reversed(emails: &Vec<String>) -> (turned: Vec<String>)
    ensures
        turned.deep_view() == emails.deep_view().reverse(),
{
    let mut turned: Vec<String> = Vec::new();
    let mut left: usize = emails.len();
    while left > 0
        invariant
            left <= emails.len(),
            turned.len() == emails.len() - left,
            forall|i: int| 0 <= i < turned.len() ==> turned[i]@ == emails[emails.len() - 1 - i]@,
        decreases left,
    {
        left -= 1;
        turned.push(emails[left].clone());
    }
    assert(turned.deep_view() =~= emails.deep_view().reverse());
    turned
}

} // verus!
