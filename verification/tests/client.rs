use phonebook::client::get_emails_vec;
use phonebook::client::reversed;

#[test]
fn get_emails_vec_lists_the_forty_nine_accounts() {
    let emails = get_emails_vec();
    assert_eq!(emails.len(), 49);
    assert_eq!(emails[0], "alice@domain.com");
    assert_eq!(emails[1], "bob@domain.com");
    assert_eq!(emails[2], "charlie@domain.com");
    assert_eq!(emails[25], "zach@domain.com");
    assert_eq!(emails[26], "amy@domain.com");
    assert_eq!(emails[48], "wanda@domain.com");
}

#[test]
fn get_emails_vec_lists_each_account_once_at_the_same_domain() {
    let emails = get_emails_vec();
    for (at, email) in emails.iter().enumerate() {
        assert!(email.ends_with("@domain.com"));
        assert!(email.len() > "@domain.com".len());
        assert!(!emails[..at].contains(email));
    }
}

#[test]
fn get_emails_vec_gives_the_same_list_each_time() {
    assert_eq!(get_emails_vec(), get_emails_vec());
}

#[test]
fn reversed_turns_the_order_round() {
    let emails = vec![
        String::from("alice@domain.com"),
        String::from("bob@domain.com"),
        String::from("charlie@domain.com"),
    ];
    assert_eq!(
        reversed(&emails),
        vec![
            String::from("charlie@domain.com"),
            String::from("bob@domain.com"),
            String::from("alice@domain.com"),
        ]
    );
}

#[test]
fn reversed_of_nothing_is_nothing() {
    assert_eq!(reversed(&Vec::new()), Vec::<String>::new());
}

#[test]
fn reversed_of_one_is_the_same() {
    let one = vec![String::from("eve@domain.com")];
    assert_eq!(reversed(&one), one);
}

#[test]
fn reversed_twice_is_the_list_itself() {
    let emails = get_emails_vec();
    let turned = reversed(&emails);
    assert_eq!(turned.len(), 49);
    assert_eq!(turned[0], "wanda@domain.com");
    assert_eq!(turned[48], "alice@domain.com");
    assert_eq!(reversed(&turned), emails);
}
