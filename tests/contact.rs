use basics::{Contact, Greet};

#[test]
fn test_greet_person() {
    let contact = Contact::Person {
        name: String::from("Alice"),
        phone: String::from("123"),
    };
    assert_eq!(contact.greet(), "Hi, I'm Alice!".to_string());
}

#[test]
fn test_greet_email() {
    let contact = Contact::Email(String::from("bob@example.com"));
    assert_eq!(contact.greet(), "bob@example.com".to_string());
}

#[test]
fn greet_person_ignores_phone() {
    let a = Contact::Person { name: String::from("Bo"), phone: String::from("1") };
    let b = Contact::Person { name: String::from("Bo"), phone: String::from("999") };
    assert_eq!(a.greet(), b.greet());
    assert_eq!(a.greet(), "Hi, I'm Bo!");
}

#[test]
fn greet_repeats() {
    let c = Contact::Email(String::from("x@y.z"));
    assert_eq!(c.greet(), c.greet());
}

struct Anonymous;

impl Greet for Anonymous {}

#[test]
fn greet_default_says_hello() {
    assert_eq!(Anonymous.greet(), "Hello!");
}
