//! Animals that can name themselves, speak, and greet one another.
use vstd::prelude::*;
use vstd::string::StringExecFns;

verus! {

/// Something with a name.
pub trait Named {
    spec fn name_spec(&self) -> Seq<char>;

    fn name(&self) -> (r: String)
        ensures
            r@ == self.name_spec(),
    ;
}

/// Something with a name and an age that can speak and greet. A greeting
/// needs only the other party's name, so it accepts anything `Named`.
pub trait Animal: Named {
    spec fn age_spec(&self) -> u32;

    /// What `speak` says.
    spec fn speech(&self) -> Seq<char>;

    /// What `say_hello_to` says to an animal with the given name.
    spec fn greeting(&self, other: Seq<char>) -> Seq<char>;

    fn age(&self) -> (r: u32)
        ensures
            r == self.age_spec(),
    ;

    fn speak(&self) -> (r: String)
        ensures
            r@ == self.speech(),
    ;

    fn say_hello_to<A: Named>(&self, animal: &A) -> (r: String)
        ensures
            r@ == self.greeting(animal.name_spec()),
    ;
}

/// A sheep, which speaks differently at a party.
pub struct Sheep {
    pub name: String,
    pub age: u32,
    pub at_party: bool,
}

/// A cow, which speaks differently when angry.
pub struct Cow {
    pub name: String,
    pub age: u32,
    pub angry: bool,
}

impl Named for Sheep {
    open spec fn name_spec(&self) -> Seq<char> {
        self.name@
    }

    fn name(&self) -> (r: String) {
        self.name.clone()
    }
}

impl Animal for Sheep {
    open spec fn age_spec(&self) -> u32 {
        self.age
    }

    open spec fn speech(&self) -> Seq<char> {
        if self.at_party {
            "Ba tss Ba tss Ba tss"@
        } else {
            "baAaAaA"@
        }
    }

    open spec fn greeting(&self, other: Seq<char>) -> Seq<char> {
        if self.at_party {
            "how's the baAaArty, "@ + other + "?"@
        } else {
            "baAaA to you, "@ + other
        }
    }

    fn age(&self) -> (r: u32) {
        self.age
    }

    fn speak(&self) -> (r: String) {
        if self.at_party {
            "Ba tss Ba tss Ba tss".to_owned()
        } else {
            "baAaAaA".to_owned()
        }
    }

    fn say_hello_to<A: Named>(&self, animal: &A) -> (r: String) {
        let other = animal.name();
        if self.at_party {
            let mut r = "how's the baAaArty, ".to_owned();
            r.append(other.as_str());
            r.append("?");
            r
        } else {
            let mut r = "baAaA to you, ".to_owned();
            r.append(other.as_str());
            r
        }
    }
}

impl Named for Cow {
    open spec fn name_spec(&self) -> Seq<char> {
        self.name@
    }

    fn name(&self) -> (r: String) {
        self.name.clone()
    }
}

impl Animal for Cow {
    open spec fn age_spec(&self) -> u32 {
        self.age
    }

    open spec fn speech(&self) -> Seq<char> {
        if self.angry {
            "MOOOOO"@
        } else {
            "moo"@
        }
    }

    open spec fn greeting(&self, other: Seq<char>) -> Seq<char> {
        if self.angry {
            "MOOOOO you "@ + other
        } else {
            "moouwu, "@ + other
        }
    }

    fn age(&self) -> (r: u32) {
        self.age
    }

    fn speak(&self) -> (r: String) {
        if self.angry {
            "MOOOOO".to_owned()
        } else {
            "moo".to_owned()
        }
    }

    fn say_hello_to<A: Named>(&self, animal: &A) -> (r: String) {
        let other = animal.name();
        let mut r = if self.angry {
            "MOOOOO you ".to_owned()
        } else {
            "moouwu, ".to_owned()
        };
        r.append(other.as_str());
        r
    }
}

} // verus!
