//! A contact, in one of two shapes, and the greeting capability.

use vstd::prelude::*;

verus! {

/// A contact: a person with a name and a phone number, or a bare e-mail address.
#[derive(Clone, Debug, PartialEq, Eq)]
pub enum Contact {
    Person { name: String, phone: String },
    Email(String),
}

/// Something that can greet. A type that does not supply its own greeting
/// says `"Hello!"`.
pub trait Greet {
    fn greet(&self) -> (r: String)
        default_ensures
            r@ == "Hello!"@,
    {
        String::from_str("Hello!")
    }
}

/// The greeting a person with the given name gives: `Hi, I'm <name>!`.
pub open spec fn person_greeting(name: Seq<char>) -> Seq<char> {
    "Hi, I'm "@ + name + "!"@
}

impl Contact {
    /// What `greet` returns for this contact: the person's greeting, or the
    /// e-mail address unchanged.
    pub open spec fn greeting(&self) -> Seq<char> {
        match self {
            Contact::Person { name, .. } => person_greeting(name@),
            Contact::Email(address) => address@,
        }
    }
}

impl Greet for Contact {
    fn greet(&self) -> (r: String)
        ensures
            r@ == self.greeting(),
    {
        match self {
            Contact::Person { name, .. } => {
                let mut s = String::from_str("Hi, I'm ");
                s.append(name.as_str());
                s.append("!");
                s
            },
            Contact::Email(address) => address.clone(),
        }
    }
}

} // verus!
