//! The elemental tag that abilities, obstacles, resources and weather carry.

use vstd::prelude::*;

use crate::entropy::random_usize;

verus! {

/// All elements. `Unset` marks a tag that was never chosen; `Dark` is the
/// last element, and the random sampler relies on that.
#[derive(Debug, Copy, Clone, PartialEq, Eq, Hash, Structural)]
pub enum Element {
    Unset,
    Fire,
    Ice,
    Wind,
    Water,
    Electric,
    Earth,
    Light,
    Dark,
}

/// Number of elements that a tag can be set to.
pub const NUM_ELEMENTS: usize = 8;

/// Anything that carries an elemental tag.
pub trait Elemental {
    fn element(&self) -> Element;
}

impl Element {
    /// Numeric value of the element: `Unset` is 0, `Dark` is 8.
    pub open spec fn ordinal(self) -> int {
        match self {
            Element::Unset => 0,
            Element::Fire => 1,
            Element::Ice => 2,
            Element::Wind => 3,
            Element::Water => 4,
            Element::Electric => 5,
            Element::Earth => 6,
            Element::Light => 7,
            Element::Dark => 8,
        }
    }

    /// The element with the given numeric value.
    pub open spec fn at(ordinal: int) -> Element {
        if ordinal == 1 {
            Element::Fire
        } else if ordinal == 2 {
            Element::Ice
        } else if ordinal == 3 {
            Element::Wind
        } else if ordinal == 4 {
            Element::Water
        } else if ordinal == 5 {
            Element::Electric
        } else if ordinal == 6 {
            Element::Earth
        } else if ordinal == 7 {
            Element::Light
        } else if ordinal == 8 {
            Element::Dark
        } else {
            Element::Unset
        }
    }

    /// English name of the element.
    pub open spec fn name(self) -> Seq<char> {
        match self {
            Element::Unset => "Unset"@,
            Element::Fire => "Fire"@,
            Element::Ice => "Ice"@,
            Element::Wind => "Wind"@,
            Element::Water => "Water"@,
            Element::Electric => "Electric"@,
            Element::Earth => "Earth"@,
            Element::Light => "Light"@,
            Element::Dark => "Dark"@,
        }
    }

    /// Every element is named by its numeric value.
    pub proof fn lemma_ordinal(self)
        ensures
            0 <= self.ordinal() <= 8,
            Element::at(self.ordinal()) == self,
    {
    }

    /// Numeric value of the element.
    pub fn index(self) -> (i: usize)
        ensures
            i == self.ordinal(),
    {
        match self {
            Element::Unset => 0,
            Element::Fire => 1,
            Element::Ice => 2,
            Element::Wind => 3,
            Element::Water => 4,
            Element::Electric => 5,
            Element::Earth => 6,
            Element::Light => 7,
            Element::Dark => 8,
        }
    }

    /// The element that a tag with the given numeric value is set to.
    /// Zero is no such value: `Unset` cannot be asked for.
    pub fn from_index(src: usize) -> (e: Element)
        requires
            1 <= src <= NUM_ELEMENTS,
        ensures
            e == Element::at(src as int),
            e.ordinal() == src,
    {
        match src {
            1 => Element::Fire,
            2 => Element::Ice,
            3 => Element::Wind,
            4 => Element::Water,
            5 => Element::Electric,
            6 => Element::Earth,
            7 => Element::Light,
            _ => Element::Dark,
        }
    }

    /// The element that a raw random number selects: its remainder by the
    /// number of elements picks one of `Fire` to `Dark`, never `Unset`.
    pub fn from_roll(roll: usize) -> (e: Element)
        ensures
            e == Element::at(roll % NUM_ELEMENTS + 1),
            e != Element::Unset,
    {
        Element::from_index(roll % NUM_ELEMENTS + 1)
    }

    /// Draws one of the elements `Fire` to `Dark` at random.
    pub fn sample() -> (e: Element)
        ensures
            e != Element::Unset,
    {
        Element::from_roll(random_usize())
    }
}

impl Default for Element {
    fn default() -> (e: Self)
        ensures
            e == Element::Unset,
    {
        Element::Unset
    }
}

impl From<Element> for String {
    fn from(src: Element) -> (s: String)
        ensures
            s@ == src.name(),
    {
        match src {
            Element::Unset => "Unset".to_owned(),
            Element::Fire => "Fire".to_owned(),
            Element::Ice => "Ice".to_owned(),
            Element::Wind => "Wind".to_owned(),
            Element::Water => "Water".to_owned(),
            Element::Electric => "Electric".to_owned(),
            Element::Earth => "Earth".to_owned(),
            Element::Light => "Light".to_owned(),
            Element::Dark => "Dark".to_owned(),
        }
    }
}

impl vstd::std_specs::convert::FromSpecImpl<Element> for String {
    open spec fn obeys_from_spec() -> bool {
        false
    }

    open spec fn from_spec(v: Element) -> String {
        arbitrary()
    }
}

} // verus!
