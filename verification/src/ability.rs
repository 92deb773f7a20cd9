//! Abilities: every action (spell, melee or ranged attack, and so on) that
//! one actor can take on another actor or on a group of actors.

use vstd::prelude::*;

use crate::ability::aspect::{Aesthetics, Aspects, Method, Morality, School};
use crate::context::Context;
use crate::element::Element;
use crate::entropy::{is_alphanumeric, is_random_uid, new_uid, random_name, random_usize};
use crate::text::{decimal, decimal_text, uid_text, uuid_text};
use crate::Randomizable;

pub mod aspect;

verus! {

/// Length of the name that a randomly generated ability or actor gets.
pub const RANDOM_NAME_LEN: usize = 10;

/// What an `Ability` holds.
pub struct AbilityView {
    pub uid: [u8; 16],
    pub name: Seq<char>,
    pub aspects: Aspects,
    pub potency: usize,
}

/// All that defines an ability.
#[derive(Debug)]
pub struct Ability {
    uid: [u8; 16],
    name: String,
    aspects: Aspects,
    potency: usize,
}

impl View for Ability {
    type V = AbilityView;

    closed spec fn view(&self) -> AbilityView {
        AbilityView {
            uid: self.uid,
            name: self.name@,
            aspects: self.aspects,
            potency: self.potency,
        }
    }
}

impl Ability {
    /// Fully-qualified constructor. The identity is fresh.
    pub fn new(name: &'static str, potency: usize, aspects: Aspects) -> (a: Self)
        ensures
            a@.name == name@,
            a@.potency == potency,
            a@.aspects == aspects,
            is_random_uid(a@.uid),
    {
        Ability { uid: new_uid(), name: name.to_owned(), potency, aspects }
    }

    /// An ability under an identity that it was given before, as when it
    /// is read back from a record.
    pub fn from_parts(uid: [u8; 16], name: String, potency: usize, aspects: Aspects) -> (a: Self)
        ensures
            a@ == (AbilityView { uid, name: name@, aspects, potency }),
    {
        Ability { uid, name, aspects, potency }
    }

    /// Name-only constructor: no potency, no aspect chosen.
    pub fn new_name_only(name: &'static str) -> (a: Self)
        ensures
            a@.name == name@,
            a@.potency == 0,
            a@.aspects == Aspects::unset(),
            is_random_uid(a@.uid),
    {
        Ability { uid: new_uid(), name: name.to_owned(), potency: 0, aspects: Aspects::default() }
    }

    /// Names the ability.
    pub fn set_name(&mut self, name: &'static str)
        ensures
            final(self)@ == (AbilityView { name: name@, ..old(self)@ }),
    {
        self.name = name.to_owned();
    }

    pub fn set_potency(&mut self, potency: usize)
        ensures
            final(self)@ == (AbilityView { potency, ..old(self)@ }),
    {
        self.potency = potency;
    }

    pub fn set_aspects(&mut self, aspects: Aspects)
        ensures
            final(self)@ == (AbilityView { aspects, ..old(self)@ }),
    {
        self.aspects = aspects;
    }

    pub fn set_aesthetics(&mut self, aesthetics: Aesthetics)
        ensures
            final(self)@ == (AbilityView {
                aspects: Aspects { aesthetics, ..old(self)@.aspects },
                ..old(self)@
            }),
    {
        self.aspects.aesthetics = aesthetics;
    }

    pub fn set_element(&mut self, element: Element)
        ensures
            final(self)@ == (AbilityView {
                aspects: Aspects { element, ..old(self)@.aspects },
                ..old(self)@
            }),
    {
        self.aspects.element = element;
    }

    pub fn set_method(&mut self, method: Method)
        ensures
            final(self)@ == (AbilityView {
                aspects: Aspects { method, ..old(self)@.aspects },
                ..old(self)@
            }),
    {
        self.aspects.method = method;
    }

    pub fn set_morality(&mut self, morality: Morality)
        ensures
            final(self)@ == (AbilityView {
                aspects: Aspects { morality, ..old(self)@.aspects },
                ..old(self)@
            }),
    {
        self.aspects.morality = morality;
    }

    pub fn set_school(&mut self, school: School)
        ensures
            final(self)@ == (AbilityView {
                aspects: Aspects { school, ..old(self)@.aspects },
                ..old(self)@
            }),
    {
        self.aspects.school = school;
    }

    /// The identity of the ability.
    pub fn uid(&self) -> (r: &[u8; 16])
        ensures
            *r == self@.uid,
    {
        &self.uid
    }

    /// The name of the ability.
    pub fn name(&self) -> (r: &String)
        ensures
            r@ == self@.name,
    {
        &self.name
    }

    /// The potency of the ability.
    pub fn potency(&self) -> (r: usize)
        ensures
            r == self@.potency,
    {
        self.potency
    }

    /// All aspects of the ability.
    pub fn aspects(&self) -> (r: &Aspects)
        ensures
            *r == self@.aspects,
    {
        &self.aspects
    }

    pub fn aesthetics(&self) -> (r: &Aesthetics)
        ensures
            *r == self@.aspects.aesthetics,
    {
        &self.aspects.aesthetics
    }

    pub fn element(&self) -> (r: &Element)
        ensures
            *r == self@.aspects.element,
    {
        &self.aspects.element
    }

    pub fn method(&self) -> (r: &Method)
        ensures
            *r == self@.aspects.method,
    {
        &self.aspects.method
    }

    pub fn morality(&self) -> (r: &Morality)
        ensures
            *r == self@.aspects.morality,
    {
        &self.aspects.morality
    }

    pub fn school(&self) -> (r: &School)
        ensures
            *r == self@.aspects.school,
    {
        &self.aspects.school
    }
}

/// The line of an ability: identity, name, potency and aspects, with
/// colons between them.
pub open spec fn ability_line(uid: Seq<char>, a: AbilityView) -> Seq<char> {
    uid + seq![':'] + a.name + seq![':'] + decimal(a.potency as nat) + seq![':']
        + a.aspects.code()
}

impl Ability {
    /// Writes the line of the ability round the given text of its identity.
    pub fn line_with(&self, uid: &str) -> (s: String)
        ensures
            s@ == ability_line(uid@, self@),
    {
        proof {
            reveal_strlit(":");
        }
        let mut s = uid.to_owned();
        s.append(":");
        s.append(self.name.as_str());
        s.append(":");
        s.append(decimal_text(self.potency as u64).as_str());
        s.append(":");
        s.append(self.aspects.to_code().as_str());
        assert(s@ =~= ability_line(uid@, self@));
        s
    }

    /// Writes the line of the ability: `uid:name:potency:aspects`.
    pub fn to_text(&self) -> (s: String)
        ensures
            s@ == ability_line(uuid_text(self@.uid@), self@),
    {
        let uid = uid_text(&self.uid);
        self.line_with(uid.as_str())
    }
}

impl PartialEq for Ability {
    /// Two abilities are the same ability when they have the same identity,
    /// whatever else they hold.
    fn eq(&self, other: &Ability) -> (r: bool) {
        let mut i: usize = 0;
        while i < 16
            invariant
                i <= 16,
                forall|k: int| 0 <= k < i ==> self.uid[k] == other.uid[k],
            decreases 16 - i,
        {
            if self.uid[i] != other.uid[i] {
                return false;
            }
            i += 1;
        }
        assert(self.uid =~= other.uid);
        true
    }
}

impl vstd::std_specs::cmp::PartialEqSpecImpl for Ability {
    open spec fn obeys_eq_spec() -> bool {
        true
    }

    open spec fn eq_spec(&self, other: &Ability) -> bool {
        self@.uid == other@.uid
    }
}

impl Randomizable for Ability {
    open spec fn can_rand(ctx: &Context) -> bool {
        true
    }

    /// An ability with a fresh identity, a name of ten letters and digits,
    /// any potency and random aspects.
    fn rand(ctx: &Context) -> (a: Self)
        ensures
            is_random_uid(a@.uid),
            a@.name.len() == RANDOM_NAME_LEN,
            forall|i: int| 0 <= i < a@.name.len() ==> is_alphanumeric(#[trigger] a@.name[i]),
            a@.aspects.element != Element::Unset,
    {
        let uid = new_uid();
        let name = random_name(RANDOM_NAME_LEN);
        let potency = random_usize();
        let aspects = Aspects::rand(ctx);
        Ability { uid, name, potency, aspects }
    }
}

} // verus!
