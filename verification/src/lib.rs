//! A small library around a named person who can produce a greeting line.

use vstd::prelude::*;

verus! {

/// The greeting text for a given name: `"Hello, "`, then the name, then `"!"`.
pub open spec fn greeting_of(name: Seq<char>) -> Seq<char> {
    "Hello, "@ + name + "!"@
}

/// A person, identified by a name that is fixed at construction.
pub struct Person {
    name: String,
}

impl View for Person {
    type V = Seq<char>;

    /// A person is modelled by the characters of its name.
    closed spec fn view(&self) -> Seq<char> {
        self.name@
    }
}

impl Person {
    /// Returns a person with the name given them.
    pub fn new(name: &str) -> (p: Person)
        ensures
            p@ == name@,
    {
        Person { name: name.to_owned() }
    }

    /// The stored name, exactly as it was given at construction.
    pub fn name(&self) -> (r: &str)
        ensures
            r@ == self@,
    {
        self.name.as_str()
    }

    /// The greeting line for this person: `Hello, <name>!`.
    pub fn greeting(&self) -> (r: String)
        ensures
            r@ == greeting_of(self@),
    {
        let mut line = String::from_str("Hello, ");
        line.append(self.name.as_str());
        line.append("!");
        line
    }
}

/// The greeting is a function of the stored name alone: any two texts that
/// the greeting contract allows for the same person are equal, so repeated
/// calls on one person return the same text each time.
pub proof fn lemma_greeting_idempotent(p: &Person, r1: Seq<char>, r2: Seq<char>)
    requires
        r1 == greeting_of(p@),
        r2 == greeting_of(p@),
    ensures
        r1 == r2,
{
}

} // verus!
