//! The two output languages and the rule by which a command-line switch
//! selects between them.

use vstd::prelude::*;

verus! {

/// Language settings.
#[derive(Clone, Copy, Debug, PartialEq, Eq, Structural)]
pub enum Language {
    Japanese,
    English,
}

/// The language reached from `start` after the language switch has been
/// applied `count` times in a row.
pub open spec fn after_flips(start: Language, count: nat) -> Language
    decreases count,
{
    if count == 0 {
        start
    } else {
        after_flips(start, (count - 1) as nat).spec_opposite()
    }
}

impl Language {
    /// The other language.
    pub open spec fn spec_opposite(self) -> Language {
        match self {
            Language::Japanese => Language::English,
            Language::English => Language::Japanese,
        }
    }

    /// The language in force once the switch has been seen or not.
    pub open spec fn spec_selected(self, flip: bool) -> Language {
        if flip {
            self.spec_opposite()
        } else {
            self
        }
    }

    /// The other language.
    #[verifier::when_used_as_spec(spec_opposite)]
    pub fn opposite(self) -> (other: Language)
        ensures
            other == self.spec_opposite(),
            other != self,
    {
        match self {
            Language::Japanese => Language::English,
            Language::English => Language::Japanese,
        }
    }

    /// Starting from `self` as the built-in default, the language to use when
    /// the switch was (`flip`) or was not given on the command line.
    #[verifier::when_used_as_spec(spec_selected)]
    pub fn selected(self, flip: bool) -> (chosen: Language)
        ensures
            chosen == self.spec_selected(flip),
            flip ==> chosen != self,
            !flip ==> chosen == self,
    {
        if flip {
            self.opposite()
        } else {
            self
        }
    }
}

/// Switching the language is an involution: one switch yields the other
/// language, two switches in a row yield the starting language again, and in
/// general only the parity of the number of switches matters.
pub proof fn lemma_flip_involutive(start: Language, count: nat)
    ensures
        start.spec_opposite() != start,
        start.spec_opposite().spec_opposite() == start,
        start.spec_selected(true).spec_selected(true) == start,
        after_flips(start, 1) == start.spec_opposite(),
        after_flips(start, 2) == start,
        after_flips(start, count) == if count % 2 == 0 {
            start
        } else {
            start.spec_opposite()
        },
    decreases count,
{
    reveal_with_fuel(after_flips, 3);
    if count > 0 {
        lemma_flip_involutive(start, (count - 1) as nat);
    }
}

} // verus!
